use vstd::prelude::*;
use crate::record::RecordView;
use crate::record::Settings;
use crate::record::str_eq;

verus! {

/// Failure of the orchestration controller: a command name it does not
/// know, or a nonzero exit of the invoked tool with its captured stderr.
#[derive(Debug)]
pub enum CommandError {
    UnknownCommand(String),
    ProcessInvocationFailure(String),
}

/// The subcommand sequence an orchestration command stands for: `restart`
/// is stop then start, the five direct commands pass through unchanged,
/// anything else is unknown.
pub open spec fn spec_plan(name: Seq<char>) -> Option<Seq<Seq<char>>> {
    if name == "restart"@ {
        Some(seq!["down"@, "up"@])
    } else if name == "pull"@ || name == "down"@ || name == "up"@ || name == "pause"@ || name
        == "unpause"@ {
        Some(seq![name])
    } else {
        None
    }
}

/// Turns an orchestration command name into the subcommands to run in
/// order, or reports the name as unknown.
pub fn plan_docker_command(command: &str) -> (r: Result<Vec<String>, CommandError>)
    ensures
        (r matches Ok(v) ==> spec_plan(command@) == Some(v.deep_view())),
        (r matches Err(e) ==> spec_plan(command@) is None && (e matches CommandError::UnknownCommand(n) && n@ == command@)),
{
    if str_eq(command, "restart") {
        let mut v: Vec<String> = Vec::new();
        v.push(String::from_str("down"));
        v.push(String::from_str("up"));
        proof {
            assert(v.deep_view() =~~= seq!["down"@, "up"@]);
        }
        Ok(v)
    } else if str_eq(command, "pull") || str_eq(command, "down") || str_eq(command, "up") || str_eq(
        command,
        "pause",
    ) || str_eq(command, "unpause") {
        let mut v: Vec<String> = Vec::new();
        v.push(String::from_str(command));
        proof {
            assert(v.deep_view() =~~= seq![command@]);
        }
        Ok(v)
    } else {
        Err(CommandError::UnknownCommand(String::from_str(command)))
    }
}

/// The argument list for one invocation of the orchestration tool: the
/// compose file, the optional tunnel profiles enabled by nonempty
/// credentials, and the subcommand last.
pub open spec fn spec_compose_args(r: RecordView, sub: Seq<char>) -> Seq<Seq<char>> {
    seq!["compose"@, "-f"@, "docker-compose.yaml"@] + (if r.cf_token.len() > 0 {
        seq!["--profile"@, "cf"@]
    } else {
        Seq::empty()
    }) + (if r.ngrok_token.len() > 0 {
        seq!["--profile"@, "ngrok"@]
    } else {
        Seq::empty()
    }) + seq![sub]
}

impl Settings {
    /// Builds the orchestration tool's argument list for one subcommand.
    pub fn compose_args(&self, subcommand: &str) -> (r: Vec<String>)
        ensures
            r.deep_view() == spec_compose_args(self@, subcommand@),
    {
        let mut v: Vec<String> = Vec::new();
        v.push(String::from_str("compose"));
        v.push(String::from_str("-f"));
        v.push(self.get_docker_compose_path());
        if !self.cf_token.as_str().is_empty() {
            v.push(String::from_str("--profile"));
            v.push(String::from_str("cf"));
        }
        if !self.ngrok_token.as_str().is_empty() {
            v.push(String::from_str("--profile"));
            v.push(String::from_str("ngrok"));
        }
        v.push(String::from_str(subcommand));
        proof {
            assert(v.deep_view() =~~= spec_compose_args(self@, subcommand@));
        }
        v
    }
}

/// The static image-tag listing offered to the settings UI.
pub struct ImageTags {
    pub server: Vec<String>,
    pub client: Vec<String>,
    pub database: Vec<String>,
    pub ssh: Vec<String>,
}

/// Returns the static tag lists for the four images.
pub fn get_image_tags() -> (t: ImageTags)
    ensures
        t.server.deep_view() == seq!["latest"@, "v1.3"@, "v1"@],
        t.client.deep_view() == seq!["latest"@, "v1.3"@, "v1"@],
        t.database.deep_view() == seq!["11"@, "12"@, "13"@, "14"@, "15"@, "16"@, "17"@],
        t.ssh.deep_view() == seq!["latest"@, "v1.1"@, "v1"@],
{
    let mut server: Vec<String> = Vec::new();
    server.push(String::from_str("latest"));
    server.push(String::from_str("v1.3"));
    server.push(String::from_str("v1"));
    let mut client: Vec<String> = Vec::new();
    client.push(String::from_str("latest"));
    client.push(String::from_str("v1.3"));
    client.push(String::from_str("v1"));
    let mut database: Vec<String> = Vec::new();
    database.push(String::from_str("11"));
    database.push(String::from_str("12"));
    database.push(String::from_str("13"));
    database.push(String::from_str("14"));
    database.push(String::from_str("15"));
    database.push(String::from_str("16"));
    database.push(String::from_str("17"));
    let mut ssh: Vec<String> = Vec::new();
    ssh.push(String::from_str("latest"));
    ssh.push(String::from_str("v1.1"));
    ssh.push(String::from_str("v1"));
    proof {
        assert(server.deep_view() =~~= seq!["latest"@, "v1.3"@, "v1"@]);
        assert(client.deep_view() =~~= seq!["latest"@, "v1.3"@, "v1"@]);
        assert(database.deep_view() =~~= seq!["11"@, "12"@, "13"@, "14"@, "15"@, "16"@, "17"@]);
        assert(ssh.deep_view() =~~= seq!["latest"@, "v1.1"@, "v1"@]);
    }
    ImageTags { server, client, database, ssh }
}

} // verus!
