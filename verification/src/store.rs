use vstd::prelude::*;
use crate::record::RecordView;
use crate::record::Settings;
use crate::record::str_eq;
use crate::record::spec_default_record;
use crate::codec::JVal;
use crate::codec::all_fields;
use crate::codec::blank_record;
use crate::codec::build_record;
use crate::codec::field_index;
use crate::codec::is_ws;
use crate::codec::json_record;
use crate::codec::parse_record_spec;
use crate::codec::ps_member;
use crate::codec::ps_members;
use crate::codec::ps_string;
use crate::codec::ps_value;
use crate::codec::ps_ws;
use crate::codec::set_field;
use crate::codec::string_from_chars;
use crate::codec::unesc;
use crate::SettingsError;

verus! {

/// A parsed scalar held by the executable parser.
enum ParsedValue {
    S(Vec<char>),
    B(bool),
}

impl View for ParsedValue {
    type V = JVal;

    closed spec fn view(&self) -> JVal {
        match self {
            ParsedValue::S(v) => JVal::S(v@),
            ParsedValue::B(b) => JVal::B(*b),
        }
    }
}

/// The members a parsed member list stands for.
spec fn ms_view(v: Seq<(Vec<char>, ParsedValue)>) -> Seq<(Seq<char>, JVal)> {
    v.map_values(|p: (Vec<char>, ParsedValue)| (p.0@, p.1@))
}

/// The characters of a string, one by one.
fn chars_of(s: &str) -> (r: Vec<char>)
    ensures
        r@ == s@,
{
    let n = s.unicode_len();
    let mut r: Vec<char> = Vec::new();
    let mut i: usize = 0;
    while i < n
        invariant
            n == s@.len(),
            0 <= i <= n,
            r@ == s@.take(i as int),
        decreases n - i,
    {
        r.push(s.get_char(i));
        proof {
            assert(s@.take(i + 1) =~= s@.take(i as int).push(s@[i as int]));
        }
        i += 1;
    }
    proof {
        assert(s@.take(n as int) =~= s@);
    }
    r
}

fn is_ws_char(c: char) -> (b: bool)
    ensures
        b == is_ws(c),
{
    c == ' ' || c == '\n' || c == '\t' || c == '\r'
}

fn skip_ws(s: &Vec<char>, i: usize) -> (r: usize)
    requires
        i <= s@.len(),
    ensures
        r as int == ps_ws(s@, i as int),
        i <= r <= s@.len(),
    decreases s@.len() - i,
{
    if i < s.len() && is_ws_char(s[i]) {
        proof {
            assert(ps_ws(s@, i as int) == ps_ws(s@, i + 1));
        }
        skip_ws(s, i + 1)
    } else {
        i
    }
}

fn unesc_char(c: char) -> (r: Option<char>)
    ensures
        r == unesc(c),
{
    if c == '"' {
        Some('"')
    } else if c == '\\' {
        Some('\\')
    } else if c == 'n' {
        Some('\n')
    } else if c == 't' {
        Some('\t')
    } else if c == 'r' {
        Some('\r')
    } else if c == '/' {
        Some('/')
    } else {
        None
    }
}

fn parse_string(s: &Vec<char>, i: usize) -> (r: Option<(Vec<char>, usize)>)
    requires
        i <= s@.len(),
    ensures
        (r matches Some(p) ==> ps_string(s@, i as int) == Some((p.0@, p.1 as int)) && i < p.1
            <= s@.len()),
        (r is None ==> ps_string(s@, i as int) is None),
    decreases s@.len() - i,
{
    if i >= s.len() {
        return None;
    }
    let c = s[i];
    if c == '"' {
        Some((Vec::new(), i + 1))
    } else if c == '\\' {
        if i + 1 < s.len() {
            match unesc_char(s[i + 1]) {
                Some(u) => {
                    match parse_string(s, i + 2) {
                        Some((mut t, j)) => {
                            t.insert(0, u);
                            proof {
                                assert(t@ =~= seq![u] + t@.drop_first());
                            }
                            Some((t, j))
                        },
                        None => None,
                    }
                },
                None => None,
            }
        } else {
            None
        }
    } else {
        match parse_string(s, i + 1) {
            Some((mut t, j)) => {
                t.insert(0, c);
                proof {
                    assert(t@ =~= seq![c] + t@.drop_first());
                }
                Some((t, j))
            },
            None => None,
        }
    }
}

fn parse_value(s: &Vec<char>, i: usize) -> (r: Option<(ParsedValue, usize)>)
    requires
        i <= s@.len(),
    ensures
        (r matches Some(p) ==> ps_value(s@, i as int) == Some((p.0@, p.1 as int)) && i < p.1
            <= s@.len()),
        (r is None ==> ps_value(s@, i as int) is None),
{
    if i >= s.len() {
        return None;
    }
    let c = s[i];
    if c == '"' {
        match parse_string(s, i + 1) {
            Some((t, j)) => Some((ParsedValue::S(t), j)),
            None => None,
        }
    } else if s.len() >= 4 && i <= s.len() - 4 && c == 't' && s[i + 1] == 'r' && s[i + 2] == 'u' && s[i + 3]
        == 'e' {
        Some((ParsedValue::B(true), i + 4))
    } else if s.len() >= 5 && i <= s.len() - 5 && c == 'f' && s[i + 1] == 'a' && s[i + 2] == 'l' && s[i + 3] == 's'
        && s[i + 4] == 'e' {
        Some((ParsedValue::B(false), i + 5))
    } else {
        None
    }
}

fn parse_member(s: &Vec<char>, i: usize) -> (r: Option<((Vec<char>, ParsedValue), usize)>)
    requires
        i <= s@.len(),
    ensures
        (r matches Some(p) ==> ps_member(s@, i as int) == Some(((p.0.0@, p.0.1@), p.1 as int))
            && p.1 <= s@.len()),
        (r is None ==> ps_member(s@, i as int) is None),
{
    let i1 = skip_ws(s, i);
    if i1 < s.len() && s[i1] == '"' {
        match parse_string(s, i1 + 1) {
            Some((name, i2)) => {
                let i3 = skip_ws(s, i2);
                if i3 < s.len() && s[i3] == ':' {
                    let i4 = skip_ws(s, i3 + 1);
                    match parse_value(s, i4) {
                        Some((v, i5)) => Some(((name, v), i5)),
                        None => None,
                    }
                } else {
                    None
                }
            },
            None => None,
        }
    } else {
        None
    }
}

fn parse_members(s: &Vec<char>, i: usize) -> (r: Option<(Vec<(Vec<char>, ParsedValue)>, usize)>)
    requires
        i <= s@.len(),
    ensures
        (r matches Some(p) ==> ps_members(s@, i as int) == Some((ms_view(p.0@), p.1 as int))
            && p.1 <= s@.len()),
        (r is None ==> ps_members(s@, i as int) is None),
    decreases s@.len() - i,
{
    match parse_member(s, i) {
        None => None,
        Some((p, j)) => {
            let j1 = skip_ws(s, j);
            if j1 < s.len() && s[j1] == ',' {
                if i <= j1 {
                    match parse_members(s, j1 + 1) {
                        Some((mut ms, k)) => {
                            let ghost old_ms = ms@;
                            let ghost pv = (p.0@, p.1@);
                            ms.insert(0, p);
                            proof {
                                assert(ms_view(ms@) =~= seq![pv] + ms_view(old_ms));
                            }
                            Some((ms, k))
                        },
                        None => None,
                    }
                } else {
                    None
                }
            } else if j1 < s.len() && s[j1] == '}' {
                let ghost pv = (p.0@, p.1@);
                let mut ms: Vec<(Vec<char>, ParsedValue)> = Vec::new();
                ms.push(p);
                proof {
                    assert(ms_view(ms@) =~= seq![pv]);
                }
                Some((ms, j1 + 1))
            } else {
                None
            }
        },
    }
}

fn exec_field_index(name: &Vec<char>) -> (idx: i32)
    ensures
        idx as int == field_index(name@),
{
    let ns = string_from_chars(name);
    let n = ns.as_str();
    if str_eq(n, "locale") {
        0
    } else if str_eq(n, "autoUpdate") {
        1
    } else if str_eq(n, "serverVersion") {
        2
    } else if str_eq(n, "pullServer") {
        3
    } else if str_eq(n, "serverPort") {
        4
    } else if str_eq(n, "serverProfiles") {
        5
    } else if str_eq(n, "serverDefaultRole") {
        6
    } else if str_eq(n, "serverRam") {
        7
    } else if str_eq(n, "clientVersion") {
        8
    } else if str_eq(n, "pullClient") {
        9
    } else if str_eq(n, "clientPort") {
        10
    } else if str_eq(n, "clientTitle") {
        11
    } else if str_eq(n, "databaseVersion") {
        12
    } else if str_eq(n, "pullDatabase") {
        13
    } else if str_eq(n, "dataDir") {
        14
    } else if str_eq(n, "storageDir") {
        15
    } else if str_eq(n, "sshVersion") {
        16
    } else if str_eq(n, "pullSsh") {
        17
    } else if str_eq(n, "sshPort") {
        18
    } else if str_eq(n, "cfToken") {
        19
    } else if str_eq(n, "ngrokUrl") {
        20
    } else if str_eq(n, "ngrokToken") {
        21
    } else if str_eq(n, "showLogsOnStart") {
        22
    } else {
        -1
    }
}

fn apply_field(rec: &mut Settings, idx: i32, v: ParsedValue) -> (ok: bool)
    requires
        0 <= idx < 23,
    ensures
        match set_field(old(rec)@, idx as int, v@) {
            Some(r2) => ok && final(rec)@ == r2,
            None => !ok && final(rec)@ == old(rec)@,
        },
{
    match v {
        ParsedValue::S(t) => {
            let st = string_from_chars(&t);
            if idx == 0 {
                rec.locale = st;
                true
            } else if idx == 2 {
                rec.server_version = st;
                true
            } else if idx == 4 {
                rec.server_port = st;
                true
            } else if idx == 5 {
                rec.server_profiles = st;
                true
            } else if idx == 6 {
                rec.server_default_role = st;
                true
            } else if idx == 7 {
                rec.server_ram = st;
                true
            } else if idx == 8 {
                rec.client_version = st;
                true
            } else if idx == 10 {
                rec.client_port = st;
                true
            } else if idx == 11 {
                rec.client_title = st;
                true
            } else if idx == 12 {
                rec.database_version = st;
                true
            } else if idx == 14 {
                rec.data_dir = st;
                true
            } else if idx == 15 {
                rec.storage_dir = st;
                true
            } else if idx == 16 {
                rec.ssh_version = st;
                true
            } else if idx == 18 {
                rec.ssh_port = st;
                true
            } else if idx == 19 {
                rec.cf_token = st;
                true
            } else if idx == 20 {
                rec.ngrok_url = st;
                true
            } else if idx == 21 {
                rec.ngrok_token = st;
                true
            } else {
                false
            }
        },
        ParsedValue::B(b) => {
            if idx == 1 {
                rec.auto_update = b;
                true
            } else if idx == 3 {
                rec.pull_server = b;
                true
            } else if idx == 9 {
                rec.pull_client = b;
                true
            } else if idx == 13 {
                rec.pull_database = b;
                true
            } else if idx == 17 {
                rec.pull_ssh = b;
                true
            } else if idx == 22 {
                rec.show_logs_on_start = b;
                true
            } else {
                false
            }
        },
    }
}

fn blank_settings() -> (s: Settings)
    ensures
        s@ == blank_record(),
{
    Settings {
        locale: String::new(),
        auto_update: false,
        server_version: String::new(),
        pull_server: false,
        server_port: String::new(),
        server_profiles: String::new(),
        server_default_role: String::new(),
        server_ram: String::new(),
        client_version: String::new(),
        pull_client: false,
        client_port: String::new(),
        client_title: String::new(),
        database_version: String::new(),
        pull_database: false,
        data_dir: String::new(),
        storage_dir: String::new(),
        ssh_version: String::new(),
        pull_ssh: false,
        ssh_port: String::new(),
        cf_token: String::new(),
        ngrok_url: String::new(),
        ngrok_token: String::new(),
        show_logs_on_start: false,
        settings_path: String::new(),
    }
}

#[verifier::loop_isolation(false)]
fn build_settings(ms: Vec<(Vec<char>, ParsedValue)>) -> (r: Option<Settings>)
    ensures
        match build_record(blank_record(), Set::empty(), ms_view(ms@)) {
            Some(p) => {
                if p.1 == all_fields() {
                    r matches Some(rec) && rec@ == p.0
                } else {
                    r is None
                }
            },
            None => r is None,
        },
{
    let mut rest = ms;
    let mut rec = blank_settings();
    let mut flags: Vec<bool> = Vec::new();
    let mut k: usize = 0;
    while k < 23
        invariant
            flags@.len() == k,
            0 <= k <= 23,
            forall|x: int| 0 <= x < k ==> flags@[x] == false,
        decreases 23 - k,
    {
        flags.push(false);
        k += 1;
    }
    let ghost ms0 = ms_view(rest@);
    let ghost mut seen: Set<int> = Set::empty();
    proof {
        assert(forall|x: int| !seen.contains(x));
    }
    while rest.len() > 0
        invariant
            flags@.len() == 23,
            (forall|x: int|
                0 <= x < 23 ==> flags@[x] == seen.contains(x)),
            (forall|x: int| seen.contains(x) ==> 0 <= x < 23),
            build_record(blank_record(), Set::empty(), ms0) == build_record(
                rec@,
                seen,
                ms_view(rest@),
            ),
        decreases rest@.len(),
    {
        let ghost pre = ms_view(rest@);
        let p = rest.remove(0);
        let ghost pv = (p.0@, p.1@);
        proof {
            assert(pre[0] == pv);
            assert(ms_view(rest@) =~= pre.drop_first());
        }
        let idx = exec_field_index(&p.0);
        if idx < 0 {
            proof {
                assert(build_record(rec@, seen, pre) == build_record(rec@, seen, pre.drop_first()));
            }
        } else {
            let ok = apply_field(&mut rec, idx, p.1);
            if !ok {
                proof {
                    assert(build_record(rec@, seen, pre) is None);
                }
                return None;
            }
            flags[idx as usize] = true;
            proof {
                seen = seen.insert(idx as int);
            }
        }
    }
    proof {
        assert(ms_view(rest@) =~= Seq::empty());
        assert(build_record(rec@, seen, ms_view(rest@)) == Some((rec@, seen)));
    }
    let mut j: usize = 0;
    while j < 23
        invariant
            flags@.len() == 23,
            0 <= j <= 23,
            (forall|x: int| 0 <= x < 23 ==> flags@[x] == seen.contains(x)),
            (forall|x: int| 0 <= x < j ==> seen.contains(x)),
        decreases 23 - j,
    {
        if !flags[j] {
            proof {
                assert(!seen.contains(j as int));
                assert(seen != all_fields());
            }
            return None;
        }
        j += 1;
    }
    proof {
        assert(seen =~= all_fields());
    }
    Some(rec)
}

impl Settings {
    /// Reads a record back from its persisted text; the record's own
    /// location is set to the given path. Returns nothing exactly when the
    /// text is not a well-formed persisted record.
    pub fn from_json(text: &str, path: &str) -> (r: Option<Settings>)
        ensures
            match parse_record_spec(text@) {
                Some(rv) => r matches Some(rec) && rec@ == (RecordView {
                    settings_path: path@,
                    ..rv
                }),
                None => r is None,
            },
    {
        let cs = chars_of(text);
        let i0 = skip_ws(&cs, 0);
        if i0 < cs.len() && cs[i0] == '{' {
            match parse_members(&cs, i0 + 1) {
                Some((ms, j)) => {
                    if skip_ws(&cs, j) == cs.len() {
                        match build_settings(ms) {
                            Some(mut rec) => {
                                rec.settings_path = String::from_str(path);
                                Some(rec)
                            },
                            None => None,
                        }
                    } else {
                        None
                    }
                },
                None => None,
            }
        } else {
            None
        }
    }

    /// The load step of the settings store, as a function of what is on
    /// disk: with a persisted text it parses it or reports it corrupt; with
    /// none it returns the documented defaults together with the exact text
    /// the caller must persist before startup goes on.
    pub fn load(app_data_dir: &str, on_disk: Option<&str>) -> (r: Result<
        (Settings, Option<String>),
        SettingsError,
    >)
        ensures
            match on_disk {
                Some(text) => {
                    match parse_record_spec(text@) {
                        Some(rv) => r matches Ok(p) && p.0@ == (RecordView {
                            settings_path: app_data_dir@ + "/settings.json"@,
                            ..rv
                        }) && p.1 is None,
                        None => r matches Err(e) && e is CorruptRecord,
                    }
                },
                None => r matches Ok(p) && p.0@ == spec_default_record(app_data_dir@) && (
                p.1 matches Some(json) && json@ == json_record(spec_default_record(app_data_dir@))),
            },
    {
        match on_disk {
            Some(text) => {
                let path = String::from_str(app_data_dir).concat("/settings.json");
                match Self::from_json(text, path.as_str()) {
                    Some(rec) => Ok((rec, None)),
                    None => Err(SettingsError::CorruptRecord),
                }
            },
            None => {
                let rec = Self::default_record(app_data_dir);
                let json = rec.save();
                Ok((rec, Some(json)))
            },
        }
    }
}

} // verus!
