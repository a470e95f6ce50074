use vstd::prelude::*;

verus! {

/// Mathematical model of the configuration record: the 22 persisted fields
/// plus the on-disk location, with strings as character sequences.
pub ghost struct RecordView {
    pub locale: Seq<char>,
    pub auto_update: bool,
    pub server_version: Seq<char>,
    pub pull_server: bool,
    pub server_port: Seq<char>,
    pub server_profiles: Seq<char>,
    pub server_default_role: Seq<char>,
    pub server_ram: Seq<char>,
    pub client_version: Seq<char>,
    pub pull_client: bool,
    pub client_port: Seq<char>,
    pub client_title: Seq<char>,
    pub database_version: Seq<char>,
    pub pull_database: bool,
    pub data_dir: Seq<char>,
    pub storage_dir: Seq<char>,
    pub ssh_version: Seq<char>,
    pub pull_ssh: bool,
    pub ssh_port: Seq<char>,
    pub cf_token: Seq<char>,
    pub ngrok_url: Seq<char>,
    pub ngrok_token: Seq<char>,
    pub show_logs_on_start: bool,
    pub settings_path: Seq<char>,
}

/// The persisted configuration record. Paths are held as plain strings;
/// `settings_path` is the record's own on-disk location and is never persisted.
pub struct Settings {
    pub locale: String,
    pub auto_update: bool,
    pub server_version: String,
    pub pull_server: bool,
    pub server_port: String,
    pub server_profiles: String,
    pub server_default_role: String,
    pub server_ram: String,
    pub client_version: String,
    pub pull_client: bool,
    pub client_port: String,
    pub client_title: String,
    pub database_version: String,
    pub pull_database: bool,
    pub data_dir: String,
    pub storage_dir: String,
    pub ssh_version: String,
    pub pull_ssh: bool,
    pub ssh_port: String,
    pub cf_token: String,
    pub ngrok_url: String,
    pub ngrok_token: String,
    pub show_logs_on_start: bool,
    pub settings_path: String,
}

impl View for Settings {
    type V = RecordView;

    open spec fn view(&self) -> RecordView {
        RecordView {
            locale: self.locale@,
            auto_update: self.auto_update,
            server_version: self.server_version@,
            pull_server: self.pull_server,
            server_port: self.server_port@,
            server_profiles: self.server_profiles@,
            server_default_role: self.server_default_role@,
            server_ram: self.server_ram@,
            client_version: self.client_version@,
            pull_client: self.pull_client,
            client_port: self.client_port@,
            client_title: self.client_title@,
            database_version: self.database_version@,
            pull_database: self.pull_database,
            data_dir: self.data_dir@,
            storage_dir: self.storage_dir@,
            ssh_version: self.ssh_version@,
            pull_ssh: self.pull_ssh,
            ssh_port: self.ssh_port@,
            cf_token: self.cf_token@,
            ngrok_url: self.ngrok_url@,
            ngrok_token: self.ngrok_token@,
            show_logs_on_start: self.show_logs_on_start,
            settings_path: self.settings_path@,
        }
    }
}

impl Clone for Settings {
    /// A clone carries every field over unchanged.
    fn clone(&self) -> (r: Self)
        ensures
            r@ == self@,
    {
        Settings {
            locale: self.locale.clone(),
            auto_update: self.auto_update,
            server_version: self.server_version.clone(),
            pull_server: self.pull_server,
            server_port: self.server_port.clone(),
            server_profiles: self.server_profiles.clone(),
            server_default_role: self.server_default_role.clone(),
            server_ram: self.server_ram.clone(),
            client_version: self.client_version.clone(),
            pull_client: self.pull_client,
            client_port: self.client_port.clone(),
            client_title: self.client_title.clone(),
            database_version: self.database_version.clone(),
            pull_database: self.pull_database,
            data_dir: self.data_dir.clone(),
            storage_dir: self.storage_dir.clone(),
            ssh_version: self.ssh_version.clone(),
            pull_ssh: self.pull_ssh,
            ssh_port: self.ssh_port.clone(),
            cf_token: self.cf_token.clone(),
            ngrok_url: self.ngrok_url.clone(),
            ngrok_token: self.ngrok_token.clone(),
            show_logs_on_start: self.show_logs_on_start,
            settings_path: self.settings_path.clone(),
        }
    }
}

/// A dynamically typed value handed to `patch`; the library's own closed
/// stand-in for a JSON value, since only its boolean content is ever read.
pub enum PatchValue {
    Null,
    Bool(bool),
    Int(i64),
    Text(String),
}

/// The documented defaults used on first run, relative to the application
/// data directory.
pub open spec fn spec_default_record(dir: Seq<char>) -> RecordView {
    RecordView {
        locale: "en"@,
        auto_update: true,
        server_version: "v1.3"@,
        pull_server: true,
        server_port: "8081"@,
        server_profiles: "prod,jwt,storage,scripts,proxy,file-cache"@,
        server_default_role: "ROLE_ANONYMOUS"@,
        server_ram: "1g"@,
        client_version: "v1.3"@,
        pull_client: true,
        client_port: "8082"@,
        client_title: "Jasper"@,
        database_version: "16"@,
        pull_database: true,
        data_dir: dir + "/data"@,
        storage_dir: dir + "/storage"@,
        ssh_version: "v1.1"@,
        pull_ssh: true,
        ssh_port: "8022"@,
        cf_token: Seq::<char>::empty(),
        ngrok_url: Seq::<char>::empty(),
        ngrok_token: Seq::<char>::empty(),
        show_logs_on_start: false,
        settings_path: dir + "/settings.json"@,
    }
}

/// What a single named patch does to a record: only the auto-update and
/// show-logs flags are wired, only a boolean value lands, everything else
/// is silently ignored.
pub open spec fn spec_patch(s: RecordView, name: Seq<char>, v: PatchValue) -> RecordView {
    if name == "autoUpdate"@ {
        match v {
            PatchValue::Bool(b) => RecordView { auto_update: b, ..s },
            _ => s,
        }
    } else if name == "showLogsOnStart"@ {
        match v {
            PatchValue::Bool(b) => RecordView { show_logs_on_start: b, ..s },
            _ => s,
        }
    } else {
        s
    }
}

/// Character-wise string equality, stated over the views.
pub fn str_eq(a: &str, b: &str) -> (r: bool)
    ensures
        r == (a@ == b@),
{
    let la = a.unicode_len();
    let lb = b.unicode_len();
    if la != lb {
        return false;
    }
    let mut i: usize = 0;
    while i < la
        invariant
            la == a@.len(),
            la == b@.len(),
            0 <= i <= la,
            forall|j: int| 0 <= j < i ==> a@[j] == b@[j],
        decreases la - i,
    {
        if a.get_char(i) != b.get_char(i) {
            return false;
        }
        i += 1;
    }
    proof {
        assert(a@ =~= b@);
    }
    true
}

impl Settings {
    /// Constructs the documented default record for a fresh install under
    /// the given application data directory.
    pub fn default_record(app_data_dir: &str) -> (s: Settings)
        ensures
            s@ == spec_default_record(app_data_dir@),
    {
        Settings {
            locale: String::from_str("en"),
            auto_update: true,
            server_version: String::from_str("v1.3"),
            pull_server: true,
            server_port: String::from_str("8081"),
            server_profiles: String::from_str("prod,jwt,storage,scripts,proxy,file-cache"),
            server_default_role: String::from_str("ROLE_ANONYMOUS"),
            server_ram: String::from_str("1g"),
            client_version: String::from_str("v1.3"),
            pull_client: true,
            client_port: String::from_str("8082"),
            client_title: String::from_str("Jasper"),
            database_version: String::from_str("16"),
            pull_database: true,
            data_dir: String::from_str(app_data_dir).concat("/data"),
            storage_dir: String::from_str(app_data_dir).concat("/storage"),
            ssh_version: String::from_str("v1.1"),
            pull_ssh: true,
            ssh_port: String::from_str("8022"),
            cf_token: String::new(),
            ngrok_url: String::new(),
            ngrok_token: String::new(),
            show_logs_on_start: false,
            settings_path: String::from_str(app_data_dir).concat("/settings.json"),
        }
    }

    /// Applies a single named-field update; unrecognized names and
    /// type-mismatched values are silently ignored.
    pub fn patch(&mut self, name: &str, value: PatchValue)
        ensures
            final(self)@ == spec_patch(old(self)@, name@, value),
    {
        if str_eq(name, "autoUpdate") {
            match value {
                PatchValue::Bool(b) => {
                    self.auto_update = b;
                },
                _ => {},
            }
        } else if str_eq(name, "showLogsOnStart") {
            match value {
                PatchValue::Bool(b) => {
                    self.show_logs_on_start = b;
                },
                _ => {},
            }
        }
    }

    pub fn get_docker_compose_path(&self) -> (p: String)
        ensures
            p@ == "docker-compose.yaml"@,
    {
        String::from_str("docker-compose.yaml")
    }
}

/// A named patch of the auto-update flag lands exactly there: the flag takes
/// the patched value and every other field is untouched.
pub proof fn lemma_patch_auto_update(s: RecordView, b: bool)
    ensures
        spec_patch(s, "autoUpdate"@, PatchValue::Bool(b)) == (RecordView { auto_update: b, ..s }),
{
}

/// A patch under a name that is not wired leaves the record unchanged,
/// whatever the value.
pub proof fn lemma_patch_unknown_name(s: RecordView, name: Seq<char>, v: PatchValue)
    requires
        name != "autoUpdate"@,
        name != "showLogsOnStart"@,
    ensures
        spec_patch(s, name, v) == s,
{
}

/// A patch of a wired name with a value that is not a boolean leaves the
/// record unchanged.
pub proof fn lemma_patch_type_mismatch(s: RecordView, name: Seq<char>, v: PatchValue)
    requires
        (!(v is Bool)),
    ensures
        spec_patch(s, name, v) == s,
{
}

} // verus!
