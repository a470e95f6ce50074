use vstd::prelude::*;
use crate::record::RecordView;
use crate::record::Settings;

verus! {

/// The escape sequence a character gets inside a JSON string: quote,
/// backslash and the common control characters are escaped, everything
/// else stands for itself.
pub open spec fn esc_char(c: char) -> Seq<char> {
    if c == '"' {
        seq!['\\', '"']
    } else if c == '\\' {
        seq!['\\', '\\']
    } else if c == '\n' {
        seq!['\\', 'n']
    } else if c == '\t' {
        seq!['\\', 't']
    } else if c == '\r' {
        seq!['\\', 'r']
    } else {
        seq![c]
    }
}

/// What an escape character after a backslash stands for; anything else
/// makes the string malformed.
pub open spec fn unesc(c: char) -> Option<char> {
    if c == '"' {
        Some('"')
    } else if c == '\\' {
        Some('\\')
    } else if c == 'n' {
        Some('\n')
    } else if c == 't' {
        Some('\t')
    } else if c == 'r' {
        Some('\r')
    } else if c == '/' {
        Some('/')
    } else {
        None
    }
}

/// A whole string escaped for inclusion in a JSON document.
pub open spec fn escape_chars(s: Seq<char>) -> Seq<char>
    decreases s.len(),
{
    if s.len() == 0 {
        Seq::empty()
    } else {
        esc_char(s[0]) + escape_chars(s.drop_first())
    }
}

pub proof fn lemma_escape_push(a: Seq<char>, c: char)
    ensures
        escape_chars(a.push(c)) == escape_chars(a) + esc_char(c),
    decreases a.len(),
{
    if a.len() == 0 {
        assert(a.push(c)[0] == c);
        assert(a.push(c).drop_first() =~= Seq::<char>::empty());
        assert(escape_chars(a.push(c)) == esc_char(c) + escape_chars(Seq::<char>::empty()));
        assert(escape_chars(a.push(c)) =~= esc_char(c));
        assert(escape_chars(a) + esc_char(c) =~= esc_char(c));
    } else {
        assert(a.push(c).drop_first() =~= a.drop_first().push(c));
        lemma_escape_push(a.drop_first(), c);
        assert(escape_chars(a.push(c)) =~= escape_chars(a) + esc_char(c));
    }
}

/// Relies on the standard library's `String: FromIterator<char>`: collecting
/// characters yields the string with exactly those characters.
#[verifier::external_body]
pub fn string_from_chars(v: &Vec<char>) -> (s: String)
    ensures
        s@ == v@,
{
    v.iter().collect()
}

/// Appends the characters of `s` to `out`.
pub fn push_str_chars(out: &mut Vec<char>, s: &str)
    ensures
        final(out)@ == old(out)@ + s@,
{
    let n = s.unicode_len();
    let mut i: usize = 0;
    while i < n
        invariant
            n == s@.len(),
            0 <= i <= n,
            out@ == old(out)@ + s@.take(i as int),
        decreases n - i,
    {
        let c = s.get_char(i);
        out.push(c);
        proof {
            assert(s@.take(i + 1) =~= s@.take(i as int).push(s@[i as int]));
            assert(old(out)@ + s@.take(i as int) + seq![s@[i as int]] =~= old(out)@ + s@.take(
                i + 1,
            ));
        }
        i += 1;
    }
    proof {
        assert(s@.take(n as int) =~= s@);
    }
}

/// Appends the JSON-escaped form of `s` to `out`.
pub fn push_escaped(out: &mut Vec<char>, s: &str)
    ensures
        final(out)@ == old(out)@ + escape_chars(s@),
{
    let n = s.unicode_len();
    let mut i: usize = 0;
    while i < n
        invariant
            n == s@.len(),
            0 <= i <= n,
            out@ == old(out)@ + escape_chars(s@.take(i as int)),
        decreases n - i,
    {
        let c = s.get_char(i);
        if c == '"' {
            out.push('\\');
            out.push('"');
        } else if c == '\\' {
            out.push('\\');
            out.push('\\');
        } else if c == '\n' {
            out.push('\\');
            out.push('n');
        } else if c == '\t' {
            out.push('\\');
            out.push('t');
        } else if c == '\r' {
            out.push('\\');
            out.push('r');
        } else {
            out.push(c);
        }
        proof {
            assert(s@.take(i + 1) =~= s@.take(i as int).push(s@[i as int]));
            lemma_escape_push(s@.take(i as int), s@[i as int]);
            assert(out@ =~= old(out)@ + escape_chars(s@.take(i + 1)));
        }
        i += 1;
    }
    proof {
        assert(s@.take(n as int) =~= s@);
    }
}

/// A string as it stands in the persisted document: quoted and escaped.
pub open spec fn quoted(s: Seq<char>) -> Seq<char> {
    seq!['"'] + escape_chars(s) + seq!['"']
}

/// One string-valued member of the persisted object.
pub open spec fn str_member(name: Seq<char>, val: Seq<char>) -> Seq<char> {
    quoted(name) + seq![':'] + quoted(val)
}

/// One boolean-valued member of the persisted object.
pub open spec fn bool_member(name: Seq<char>, val: bool) -> Seq<char> {
    quoted(name) + seq![':'] + (if val {
        seq!['t', 'r', 'u', 'e']
    } else {
        seq!['f', 'a', 'l', 's', 'e']
    })
}

/// The persisted form of a configuration record: one compact JSON object
/// holding every persisted field in declaration order, lowerCamelCase names;
/// the record's own location is not persisted.
pub open spec fn json_record(r: RecordView) -> Seq<char> {
    seq!['{'] + str_member("locale"@, r.locale) + seq![','] + bool_member(
        "autoUpdate"@,
        r.auto_update,
    ) + seq![','] + str_member("serverVersion"@, r.server_version) + seq![','] + bool_member(
        "pullServer"@,
        r.pull_server,
    ) + seq![','] + str_member("serverPort"@, r.server_port) + seq![','] + str_member(
        "serverProfiles"@,
        r.server_profiles,
    ) + seq![','] + str_member("serverDefaultRole"@, r.server_default_role) + seq![',']
        + str_member("serverRam"@, r.server_ram) + seq![','] + str_member(
        "clientVersion"@,
        r.client_version,
    ) + seq![','] + bool_member("pullClient"@, r.pull_client) + seq![','] + str_member(
        "clientPort"@,
        r.client_port,
    ) + seq![','] + str_member("clientTitle"@, r.client_title) + seq![','] + str_member(
        "databaseVersion"@,
        r.database_version,
    ) + seq![','] + bool_member("pullDatabase"@, r.pull_database) + seq![','] + str_member(
        "dataDir"@,
        r.data_dir,
    ) + seq![','] + str_member("storageDir"@, r.storage_dir) + seq![','] + str_member(
        "sshVersion"@,
        r.ssh_version,
    ) + seq![','] + bool_member("pullSsh"@, r.pull_ssh) + seq![','] + str_member(
        "sshPort"@,
        r.ssh_port,
    ) + seq![','] + str_member("cfToken"@, r.cf_token) + seq![','] + str_member(
        "ngrokUrl"@,
        r.ngrok_url,
    ) + seq![','] + str_member("ngrokToken"@, r.ngrok_token) + seq![','] + bool_member(
        "showLogsOnStart"@,
        r.show_logs_on_start,
    ) + seq!['}']
}

fn push_one(out: &mut Vec<char>, c: char)
    ensures
        final(out)@ == old(out)@ + seq![c],
{
    out.push(c);
    proof {
        assert(old(out)@.push(c) =~= old(out)@ + seq![c]);
    }
}

fn push_str_member(out: &mut Vec<char>, name: &str, val: &str)
    ensures
        final(out)@ == old(out)@ + str_member(name@, val@),
{
    out.push('"');
    push_escaped(out, name);
    out.push('"');
    out.push(':');
    out.push('"');
    push_escaped(out, val);
    out.push('"');
    proof {
        assert(out@ =~= old(out)@ + str_member(name@, val@));
    }
}

fn push_bool_member(out: &mut Vec<char>, name: &str, val: bool)
    ensures
        final(out)@ == old(out)@ + bool_member(name@, val),
{
    out.push('"');
    push_escaped(out, name);
    out.push('"');
    out.push(':');
    if val {
        out.push('t');
        out.push('r');
        out.push('u');
        out.push('e');
    } else {
        out.push('f');
        out.push('a');
        out.push('l');
        out.push('s');
        out.push('e');
    }
    proof {
        assert(out@ =~= old(out)@ + bool_member(name@, val));
    }
}

impl Settings {
    /// Serializes the record to the exact persisted document; the caller
    /// writes these bytes whole to the record's path.
    #[verifier::rlimit(100)]
    pub fn save(&self) -> (json: String)
        ensures
            json@ == json_record(self@),
    {
        let mut out: Vec<char> = Vec::new();
        push_one(&mut out, '{');
        push_str_member(&mut out, "locale", self.locale.as_str());
        push_one(&mut out, ',');
        push_bool_member(&mut out, "autoUpdate", self.auto_update);
        push_one(&mut out, ',');
        push_str_member(&mut out, "serverVersion", self.server_version.as_str());
        push_one(&mut out, ',');
        push_bool_member(&mut out, "pullServer", self.pull_server);
        push_one(&mut out, ',');
        push_str_member(&mut out, "serverPort", self.server_port.as_str());
        push_one(&mut out, ',');
        push_str_member(&mut out, "serverProfiles", self.server_profiles.as_str());
        push_one(&mut out, ',');
        push_str_member(&mut out, "serverDefaultRole", self.server_default_role.as_str());
        push_one(&mut out, ',');
        push_str_member(&mut out, "serverRam", self.server_ram.as_str());
        push_one(&mut out, ',');
        push_str_member(&mut out, "clientVersion", self.client_version.as_str());
        push_one(&mut out, ',');
        push_bool_member(&mut out, "pullClient", self.pull_client);
        push_one(&mut out, ',');
        push_str_member(&mut out, "clientPort", self.client_port.as_str());
        push_one(&mut out, ',');
        push_str_member(&mut out, "clientTitle", self.client_title.as_str());
        push_one(&mut out, ',');
        push_str_member(&mut out, "databaseVersion", self.database_version.as_str());
        push_one(&mut out, ',');
        push_bool_member(&mut out, "pullDatabase", self.pull_database);
        push_one(&mut out, ',');
        push_str_member(&mut out, "dataDir", self.data_dir.as_str());
        push_one(&mut out, ',');
        push_str_member(&mut out, "storageDir", self.storage_dir.as_str());
        push_one(&mut out, ',');
        push_str_member(&mut out, "sshVersion", self.ssh_version.as_str());
        push_one(&mut out, ',');
        push_bool_member(&mut out, "pullSsh", self.pull_ssh);
        push_one(&mut out, ',');
        push_str_member(&mut out, "sshPort", self.ssh_port.as_str());
        push_one(&mut out, ',');
        push_str_member(&mut out, "cfToken", self.cf_token.as_str());
        push_one(&mut out, ',');
        push_str_member(&mut out, "ngrokUrl", self.ngrok_url.as_str());
        push_one(&mut out, ',');
        push_str_member(&mut out, "ngrokToken", self.ngrok_token.as_str());
        push_one(&mut out, ',');
        push_bool_member(&mut out, "showLogsOnStart", self.show_logs_on_start);
        push_one(&mut out, '}');
        proof {
            assert(Seq::<char>::empty() + seq!['{'] =~= seq!['{']);
            assert(out@ == json_record(self@));
        }
        string_from_chars(&out)
    }
}

/// A parsed JSON scalar: the record format holds strings and booleans only.
pub ghost enum JVal {
    S(Seq<char>),
    B(bool),
}

pub open spec fn is_ws(c: char) -> bool {
    c == ' ' || c == '\n' || c == '\t' || c == '\r'
}

/// The first position at or after `i` that does not hold whitespace.
pub open spec fn ps_ws(s: Seq<char>, i: int) -> int
    decreases s.len() - i,
{
    if 0 <= i && i < s.len() && is_ws(s[i]) {
        ps_ws(s, i + 1)
    } else {
        i
    }
}

/// Parses a string body starting just after the opening quote: yields the
/// unescaped content and the position after the closing quote.
pub open spec fn ps_string(s: Seq<char>, i: int) -> Option<(Seq<char>, int)>
    decreases s.len() - i,
{
    if i < 0 || i >= s.len() {
        None
    } else if s[i] == '"' {
        Some((Seq::empty(), i + 1))
    } else if s[i] == '\\' {
        if i + 1 < s.len() && unesc(s[i + 1]) is Some {
            match ps_string(s, i + 2) {
                Some((t, j)) => Some((seq![unesc(s[i + 1]).unwrap()] + t, j)),
                None => None,
            }
        } else {
            None
        }
    } else {
        match ps_string(s, i + 1) {
            Some((t, j)) => Some((seq![s[i]] + t, j)),
            None => None,
        }
    }
}

/// Parses one scalar value: a quoted string, `true` or `false`.
pub open spec fn ps_value(s: Seq<char>, i: int) -> Option<(JVal, int)> {
    if i < 0 || i >= s.len() {
        None
    } else if s[i] == '"' {
        match ps_string(s, i + 1) {
            Some((t, j)) => Some((JVal::S(t), j)),
            None => None,
        }
    } else if i + 4 <= s.len() && s[i] == 't' && s[i + 1] == 'r' && s[i + 2] == 'u' && s[i + 3]
        == 'e' {
        Some((JVal::B(true), i + 4))
    } else if i + 5 <= s.len() && s[i] == 'f' && s[i + 1] == 'a' && s[i + 2] == 'l' && s[i + 3]
        == 's' && s[i + 4] == 'e' {
        Some((JVal::B(false), i + 5))
    } else {
        None
    }
}

/// Parses one `"name": value` member, whitespace allowed around the tokens.
pub open spec fn ps_member(s: Seq<char>, i: int) -> Option<((Seq<char>, JVal), int)> {
    let i1 = ps_ws(s, i);
    if i1 < s.len() && s[i1] == '"' {
        match ps_string(s, i1 + 1) {
            Some((name, i2)) => {
                let i3 = ps_ws(s, i2);
                if i3 < s.len() && s[i3] == ':' {
                    match ps_value(s, ps_ws(s, i3 + 1)) {
                        Some((v, i5)) => Some(((name, v), i5)),
                        None => None,
                    }
                } else {
                    None
                }
            },
            None => None,
        }
    } else {
        None
    }
}

/// Parses a comma-separated member list up to and over the closing brace.
pub open spec fn ps_members(s: Seq<char>, i: int) -> Option<(Seq<(Seq<char>, JVal)>, int)>
    decreases s.len() - i,
{
    match ps_member(s, i) {
        None => None,
        Some((p, j)) => {
            let j1 = ps_ws(s, j);
            if j1 < s.len() && s[j1] == ',' {
                if i <= j1 {
                    match ps_members(s, j1 + 1) {
                        Some((ps, k)) => Some((seq![p] + ps, k)),
                        None => None,
                    }
                } else {
                    None
                }
            } else if j1 < s.len() && s[j1] == '}' {
                Some((seq![p], j1 + 1))
            } else {
                None
            }
        },
    }
}

/// The position a field name holds in the record, in declaration order;
/// negative for a name the record does not know.
pub open spec fn field_index(name: Seq<char>) -> int {
    if name == "locale"@ {
        0
    } else if name == "autoUpdate"@ {
        1
    } else if name == "serverVersion"@ {
        2
    } else if name == "pullServer"@ {
        3
    } else if name == "serverPort"@ {
        4
    } else if name == "serverProfiles"@ {
        5
    } else if name == "serverDefaultRole"@ {
        6
    } else if name == "serverRam"@ {
        7
    } else if name == "clientVersion"@ {
        8
    } else if name == "pullClient"@ {
        9
    } else if name == "clientPort"@ {
        10
    } else if name == "clientTitle"@ {
        11
    } else if name == "databaseVersion"@ {
        12
    } else if name == "pullDatabase"@ {
        13
    } else if name == "dataDir"@ {
        14
    } else if name == "storageDir"@ {
        15
    } else if name == "sshVersion"@ {
        16
    } else if name == "pullSsh"@ {
        17
    } else if name == "sshPort"@ {
        18
    } else if name == "cfToken"@ {
        19
    } else if name == "ngrokUrl"@ {
        20
    } else if name == "ngrokToken"@ {
        21
    } else if name == "showLogsOnStart"@ {
        22
    } else {
        -1
    }
}

/// Stores a parsed value into the field at the given position; nothing is
/// stored when the value's type does not match the field's.
pub open spec fn set_field(r: RecordView, idx: int, v: JVal) -> Option<RecordView> {
    match v {
        JVal::S(t) => {
            if idx == 0 {
                Some(RecordView { locale: t, ..r })
            } else if idx == 2 {
                Some(RecordView { server_version: t, ..r })
            } else if idx == 4 {
                Some(RecordView { server_port: t, ..r })
            } else if idx == 5 {
                Some(RecordView { server_profiles: t, ..r })
            } else if idx == 6 {
                Some(RecordView { server_default_role: t, ..r })
            } else if idx == 7 {
                Some(RecordView { server_ram: t, ..r })
            } else if idx == 8 {
                Some(RecordView { client_version: t, ..r })
            } else if idx == 10 {
                Some(RecordView { client_port: t, ..r })
            } else if idx == 11 {
                Some(RecordView { client_title: t, ..r })
            } else if idx == 12 {
                Some(RecordView { database_version: t, ..r })
            } else if idx == 14 {
                Some(RecordView { data_dir: t, ..r })
            } else if idx == 15 {
                Some(RecordView { storage_dir: t, ..r })
            } else if idx == 16 {
                Some(RecordView { ssh_version: t, ..r })
            } else if idx == 18 {
                Some(RecordView { ssh_port: t, ..r })
            } else if idx == 19 {
                Some(RecordView { cf_token: t, ..r })
            } else if idx == 20 {
                Some(RecordView { ngrok_url: t, ..r })
            } else if idx == 21 {
                Some(RecordView { ngrok_token: t, ..r })
            } else {
                None
            }
        },
        JVal::B(b) => {
            if idx == 1 {
                Some(RecordView { auto_update: b, ..r })
            } else if idx == 3 {
                Some(RecordView { pull_server: b, ..r })
            } else if idx == 9 {
                Some(RecordView { pull_client: b, ..r })
            } else if idx == 13 {
                Some(RecordView { pull_database: b, ..r })
            } else if idx == 17 {
                Some(RecordView { pull_ssh: b, ..r })
            } else if idx == 22 {
                Some(RecordView { show_logs_on_start: b, ..r })
            } else {
                None
            }
        },
    }
}

/// Folds parsed members into a record, tracking which known fields were
/// seen; unknown names are ignored, a type mismatch fails the parse.
pub open spec fn build_record(r: RecordView, seen: Set<int>, ms: Seq<(Seq<char>, JVal)>) -> Option<
    (RecordView, Set<int>),
>
    decreases ms.len(),
{
    if ms.len() == 0 {
        Some((r, seen))
    } else {
        let idx = field_index(ms[0].0);
        if idx < 0 {
            build_record(r, seen, ms.drop_first())
        } else {
            match set_field(r, idx, ms[0].1) {
                Some(r2) => build_record(r2, seen.insert(idx), ms.drop_first()),
                None => None,
            }
        }
    }
}

/// The positions of all persisted fields.
pub open spec fn all_fields() -> Set<int> {
    Set::new(|i: int| 0 <= i < 23)
}

/// The record every parse starts from; every persisted field must be seen
/// for a parse to succeed, so only the unpersisted location survives it.
pub open spec fn blank_record() -> RecordView {
    RecordView {
        locale: Seq::empty(),
        auto_update: false,
        server_version: Seq::empty(),
        pull_server: false,
        server_port: Seq::empty(),
        server_profiles: Seq::empty(),
        server_default_role: Seq::empty(),
        server_ram: Seq::empty(),
        client_version: Seq::empty(),
        pull_client: false,
        client_port: Seq::empty(),
        client_title: Seq::empty(),
        database_version: Seq::empty(),
        pull_database: false,
        data_dir: Seq::empty(),
        storage_dir: Seq::empty(),
        ssh_version: Seq::empty(),
        pull_ssh: false,
        ssh_port: Seq::empty(),
        cf_token: Seq::empty(),
        ngrok_url: Seq::empty(),
        ngrok_token: Seq::empty(),
        show_logs_on_start: false,
        settings_path: Seq::empty(),
    }
}

/// What a persisted document means: a single JSON object, all persisted
/// fields present with the right types, nothing but whitespace after it.
pub open spec fn parse_record_spec(s: Seq<char>) -> Option<RecordView> {
    let i0 = ps_ws(s, 0);
    if i0 < s.len() && s[i0] == '{' {
        match ps_members(s, i0 + 1) {
            Some((ms, j)) => {
                if ps_ws(s, j) == s.len() {
                    match build_record(blank_record(), Set::empty(), ms) {
                        Some((r, seen)) => {
                            if seen == all_fields() {
                                Some(r)
                            } else {
                                None
                            }
                        },
                        None => None,
                    }
                } else {
                    None
                }
            },
            None => None,
        }
    } else {
        None
    }
}

} // verus!
