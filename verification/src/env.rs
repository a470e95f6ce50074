use vstd::prelude::*;
use crate::record::RecordView;
use crate::record::Settings;
use crate::record::str_eq;
use crate::token::token_of;
use crate::token::is_session_key;
use crate::token::generate_jwt_key;
use crate::token::generate_token;

verus! {

/// The pull-policy wire value: `always` when the pull flag is set,
/// `missing` otherwise.
pub open spec fn pull_policy(b: bool) -> Seq<char> {
    if b {
        "always"@
    } else {
        "missing"@
    }
}

/// The prefetch flag is `true` exactly for the viewer and anonymous default
/// roles, `false` for every other role string.
pub open spec fn prefetch_of(role: Seq<char>) -> Seq<char> {
    if role == "ROLE_VIEWER"@ || role == "ROLE_ANONYMOUS"@ {
        "true"@
    } else {
        "false"@
    }
}

/// The ordered environment-variable list handed to the orchestration layer:
/// a pure function of the configuration record and the session key.
pub open spec fn env_of(r: RecordView, key: Seq<char>) -> Seq<(Seq<char>, Seq<char>)> {
    seq![
        ("JASPER_LOCALE"@, r.locale),
        ("JASPER_SERVER_PROFILES"@, r.server_profiles),
        ("JASPER_SERVER_DEFAULT_ROLE"@, r.server_default_role),
        ("JASPER_PREFETCH"@, prefetch_of(r.server_default_role)),
        ("JASPER_SERVER_VERSION"@, r.server_version),
        ("JASPER_SERVER_PULL"@, pull_policy(r.pull_server)),
        ("JASPER_SERVER_PORT"@, r.server_port),
        ("JASPER_SERVER_HEAP"@, r.server_ram),
        ("JASPER_SERVER_KEY"@, key),
        ("JASPER_CLIENT_VERSION"@, r.client_version),
        ("JASPER_CLIENT_PULL"@, pull_policy(r.pull_client)),
        ("JASPER_CLIENT_PORT"@, r.client_port),
        ("JASPER_CLIENT_TITLE"@, r.client_title),
        ("JASPER_CLIENT_TOKEN"@, token_of("+user"@, key)),
        ("JASPER_DATABASE_VERSION"@, r.database_version),
        ("JASPER_DATABASE_PULL"@, pull_policy(r.pull_database)),
        ("JASPER_DATA_DIR"@, r.data_dir),
        ("JASPER_STORAGE_DIR"@, r.storage_dir),
        ("JASPER_SSH_VERSION"@, r.ssh_version),
        ("JASPER_SSH_PULL"@, pull_policy(r.pull_ssh)),
        ("JASPER_SSH_PORT"@, r.ssh_port),
        ("JASPER_SSH_TOKEN"@, token_of("+user"@, key)),
        ("CLOUDFLARE_TOKEN"@, r.cf_token),
        ("NGROK_URL"@, r.ngrok_url),
        ("NGROK_TOKEN"@, r.ngrok_token),
    ]
}

fn pull_policy_str(b: bool) -> (s: String)
    ensures
        s@ == pull_policy(b),
{
    if b {
        String::from_str("always")
    } else {
        String::from_str("missing")
    }
}

impl Settings {
    /// The pure materialization step: flattens the record and a given
    /// session key into the exact ordered environment list.
    pub fn materialize(&self, key: &str) -> (r: Vec<(String, String)>)
        ensures
            r.deep_view() == env_of(self@, key@),
    {
        let prefetch = if str_eq(self.server_default_role.as_str(), "ROLE_VIEWER") || str_eq(
            self.server_default_role.as_str(),
            "ROLE_ANONYMOUS",
        ) {
            String::from_str("true")
        } else {
            String::from_str("false")
        };
        let client_token = generate_token("+user", key);
        let ssh_token = generate_token("+user", key);
        let mut r: Vec<(String, String)> = Vec::new();
        r.push((String::from_str("JASPER_LOCALE"), self.locale.clone()));
        r.push((String::from_str("JASPER_SERVER_PROFILES"), self.server_profiles.clone()));
        r.push((String::from_str("JASPER_SERVER_DEFAULT_ROLE"), self.server_default_role.clone()));
        r.push((String::from_str("JASPER_PREFETCH"), prefetch));
        r.push((String::from_str("JASPER_SERVER_VERSION"), self.server_version.clone()));
        r.push((String::from_str("JASPER_SERVER_PULL"), pull_policy_str(self.pull_server)));
        r.push((String::from_str("JASPER_SERVER_PORT"), self.server_port.clone()));
        r.push((String::from_str("JASPER_SERVER_HEAP"), self.server_ram.clone()));
        r.push((String::from_str("JASPER_SERVER_KEY"), String::from_str(key)));
        r.push((String::from_str("JASPER_CLIENT_VERSION"), self.client_version.clone()));
        r.push((String::from_str("JASPER_CLIENT_PULL"), pull_policy_str(self.pull_client)));
        r.push((String::from_str("JASPER_CLIENT_PORT"), self.client_port.clone()));
        r.push((String::from_str("JASPER_CLIENT_TITLE"), self.client_title.clone()));
        r.push((String::from_str("JASPER_CLIENT_TOKEN"), client_token));
        r.push((String::from_str("JASPER_DATABASE_VERSION"), self.database_version.clone()));
        r.push((String::from_str("JASPER_DATABASE_PULL"), pull_policy_str(self.pull_database)));
        r.push((String::from_str("JASPER_DATA_DIR"), self.data_dir.clone()));
        r.push((String::from_str("JASPER_STORAGE_DIR"), self.storage_dir.clone()));
        r.push((String::from_str("JASPER_SSH_VERSION"), self.ssh_version.clone()));
        r.push((String::from_str("JASPER_SSH_PULL"), pull_policy_str(self.pull_ssh)));
        r.push((String::from_str("JASPER_SSH_PORT"), self.ssh_port.clone()));
        r.push((String::from_str("JASPER_SSH_TOKEN"), ssh_token));
        r.push((String::from_str("CLOUDFLARE_TOKEN"), self.cf_token.clone()));
        r.push((String::from_str("NGROK_URL"), self.ngrok_url.clone()));
        r.push((String::from_str("NGROK_TOKEN"), self.ngrok_token.clone()));
        proof {
            assert(r.deep_view() =~~= env_of(self@, key@));
        }
        r
    }

    /// Materializes the environment with a freshly issued session key; the
    /// result is the pure materialization of the record under some valid
    /// session key.
    pub fn get_env_vars(&self) -> (r: Vec<(String, String)>)
        ensures
            (exists|k: Seq<char>| is_session_key(k) && r.deep_view() == env_of(self@, k)),
    {
        let key = generate_jwt_key();
        let r = self.materialize(key.as_str());
        proof {
            assert(is_session_key(key@) && r.deep_view() == env_of(self@, key@));
        }
        r
    }
}

/// Materialization is a pure function: identical record and key inputs give
/// identical ordered environment lists.
pub proof fn lemma_materialize_pure(r1: RecordView, r2: RecordView, k1: Seq<char>, k2: Seq<char>)
    requires
        r1 == r2,
        k1 == k2,
    ensures
        env_of(r1, k1) == env_of(r2, k2),
{
}

/// The prefetch entry of the materialized environment is `true` exactly when
/// the default role is the viewer or anonymous role, whatever the rest of
/// the record or the key.
pub proof fn lemma_prefetch_boundary(r: RecordView, key: Seq<char>)
    ensures
        env_of(r, key)[3].1 == "true"@ <==> (r.server_default_role == "ROLE_VIEWER"@
            || r.server_default_role == "ROLE_ANONYMOUS"@),
        env_of(r, key)[3].0 == "JASPER_PREFETCH"@,
{
    reveal_strlit("true");
    reveal_strlit("false");
    assert(env_of(r, key)[3] == ("JASPER_PREFETCH"@, prefetch_of(r.server_default_role)));
    assert("true"@.len() != "false"@.len());
}

/// The client and SSH token entries of the environment are identical: the
/// same subject is signed with the same key for both consumers.
pub proof fn lemma_client_ssh_tokens_equal(r: RecordView, key: Seq<char>)
    ensures
        env_of(r, key)[13].1 == env_of(r, key)[21].1,
{
}

} // verus!
