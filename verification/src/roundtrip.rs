use vstd::prelude::*;
use crate::record::RecordView;
use crate::record::spec_default_record;
use crate::codec::esc_char;
use crate::codec::unesc;
use crate::codec::escape_chars;
use crate::codec::quoted;
use crate::codec::str_member;
use crate::codec::bool_member;
use crate::codec::json_record;
use crate::codec::JVal;
use crate::codec::is_ws;
use crate::codec::ps_ws;
use crate::codec::ps_string;
use crate::codec::ps_value;
use crate::codec::ps_member;
use crate::codec::ps_members;
use crate::codec::field_index;
use crate::codec::set_field;
use crate::codec::build_record;
use crate::codec::all_fields;
use crate::codec::blank_record;
use crate::codec::parse_record_spec;

verus! {

proof fn lemma_skip_parts(s: Seq<char>, i: int, a: Seq<char>, b: Seq<char>)
    requires
        0 <= i <= s.len(),
        s.skip(i) == a + b,
    ensures
        s.len() == i + a.len() + b.len(),
        s.skip(i + a.len()) == b,
        (forall|k: int| 0 <= k < a.len() ==> s[i + k] == a[k]),
        (a.len() > 0 ==> s[i] == a[0]),
{
    broadcast use vstd::seq_lib::group_seq_properties;

    assert(s.skip(i).len() == s.len() - i);
    assert forall|k: int| 0 <= k < a.len() implies s[i + k] == a[k] by {
        assert(s.skip(i)[k] == s[i + k]);
        assert((a + b)[k] == a[k]);
    }
    assert(s.skip(i + a.len()) =~= b) by {
        assert forall|k: int| 0 <= k < b.len() implies s.skip(i + a.len())[k] == b[k] by {
            assert(s.skip(i + a.len())[k] == s[i + a.len() + k]);
            assert(s[i + a.len() + k] == s.skip(i)[a.len() + k]);
            assert((a + b)[a.len() + k] == b[k]);
        }
    }
    assert(a.len() > 0 ==> s[i + 0] == a[0]);
}

/// Parsing a string body out of its escaped, quoted form recovers the
/// original characters exactly, whatever follows the closing quote.
proof fn lemma_ps_string_escaped(s: Seq<char>, i: int, v: Seq<char>, rest: Seq<char>)
    requires
        0 <= i <= s.len(),
        s.skip(i) == escape_chars(v) + seq!['"'] + rest,
    ensures
        ps_string(s, i) == Some((v, i + escape_chars(v).len() + 1)),
    decreases v.len(),
{
    broadcast use vstd::seq_lib::group_seq_properties;

    if v.len() == 0 {
        assert(escape_chars(v) =~= Seq::<char>::empty());
        assert(s.skip(i) =~= seq!['"'] + rest);
        assert(s.skip(i).len() == s.len() - i);
        assert(s[i] == s.skip(i)[0]);
        assert(s[i] == '"');
        assert(ps_string(s, i) == Some((Seq::<char>::empty(), i + 1)));
        assert(v =~= Seq::<char>::empty());
    } else {
        let c = v[0];
        let ec = esc_char(c);
        let tail = escape_chars(v.drop_first());
        assert(escape_chars(v) == ec + tail);
        let rest2 = tail + seq!['"'] + rest;
        assert(s.skip(i) =~= ec + rest2);
        lemma_skip_parts(s, i, ec, rest2);
        assert(v.drop_first().len() < v.len());
        if ec.len() == 1 {
            assert(ec[0] == c);
            assert(c != '"' && c != '\\');
            assert(s[i] == c);
            assert(i + 1 <= s.len());
            lemma_ps_string_escaped(s, i + 1, v.drop_first(), rest);
            assert(ps_string(s, i + 1) == Some((v.drop_first(), i + 1 + tail.len() + 1)));
            assert(ps_string(s, i) == Some((seq![c] + v.drop_first(), i + 1 + tail.len() + 1)));
            assert(seq![c] + v.drop_first() =~= v);
            assert(escape_chars(v).len() == 1 + tail.len());
        } else {
            assert(ec.len() == 2);
            assert(ec[0] == '\\');
            assert(unesc(ec[1]) == Some(c));
            assert(s[i] == '\\');
            assert(s[i + 1] == ec[1]);
            assert(i + 2 <= s.len());
            lemma_ps_string_escaped(s, i + 2, v.drop_first(), rest);
            assert(ps_string(s, i + 2) == Some((v.drop_first(), i + 2 + tail.len() + 1)));
            assert(ps_string(s, i) == Some((seq![c] + v.drop_first(), i + 2 + tail.len() + 1)));
            assert(seq![c] + v.drop_first() =~= v);
            assert(escape_chars(v).len() == 2 + tail.len());
        }
    }
}

/// A quoted, escaped string at a position parses back to its content.
#[verifier::rlimit(100)]
#[verifier::spinoff_prover]
proof fn lemma_ps_quoted(s: Seq<char>, i: int, v: Seq<char>, rest: Seq<char>)
    requires
        0 <= i <= s.len(),
        s.skip(i) == quoted(v) + rest,
    ensures
        s[i] == '"',
        i + quoted(v).len() <= s.len(),
        ps_string(s, i + 1) == Some((v, i + quoted(v).len() as int)),
        s.skip(i + quoted(v).len() as int) == rest,
{
    let ev = escape_chars(v);
    seq_add_assoc(seq!['"'] + ev, seq!['"'], rest);
    seq_add_assoc(seq!['"'], ev, seq!['"'] + rest);
    assert(s.skip(i) == seq!['"'] + (ev + (seq!['"'] + rest)));
    lemma_skip_parts(s, i, seq!['"'], ev + (seq!['"'] + rest));
    seq_add_assoc(ev, seq!['"'], rest);
    assert(s.skip(i + 1) == (ev + seq!['"']) + rest);
    lemma_ps_string_escaped(s, i + 1, v, rest);
    lemma_skip_parts(s, i + 1, ev + seq!['"'], rest);
    assert(quoted(v).len() == ev.len() + 2);
}

/// Parsing at the start of a serialized string-valued member yields exactly
/// that name and value.
#[verifier::rlimit(100)]
#[verifier::spinoff_prover]
proof fn lemma_ps_member_str(s: Seq<char>, i: int, name: Seq<char>, val: Seq<char>, rest: Seq<char>)
    requires
        0 <= i <= s.len(),
        s.skip(i) == str_member(name, val) + rest,
    ensures
        ps_member(s, i) == Some(((name, JVal::S(val)), i + str_member(name, val).len() as int)),
        s.skip(i + str_member(name, val).len() as int) == rest,
{
    let qn = quoted(name);
    let qv = quoted(val);
    let x = seq![':'] + (qv + rest);
    seq_add_assoc(qn + seq![':'], qv, rest);
    seq_add_assoc(qn, seq![':'], qv + rest);
    assert(s.skip(i) == qn + x);
    lemma_ps_quoted(s, i, name, x);
    let i2 = i + qn.len() as int;
    assert(ps_ws(s, i) == i);
    assert(ps_string(s, i + 1) == Some((name, i2)));
    lemma_skip_parts(s, i2, seq![':'], qv + rest);
    assert(s[i2] == ':');
    assert(ps_ws(s, i2) == i2);
    assert(s.skip(i2 + 1) == qv + rest);
    lemma_ps_quoted(s, i2 + 1, val, rest);
    let i5 = i2 + 1 + qv.len() as int;
    assert(s[i2 + 1] == '"');
    assert(ps_ws(s, i2 + 1) == i2 + 1);
    assert(ps_string(s, i2 + 2) == Some((val, i5)));
    assert(ps_value(s, i2 + 1) == Some((JVal::S(val), i5)));
    assert(ps_member(s, i) == Some(((name, JVal::S(val)), i5)));
    assert(str_member(name, val).len() == qn.len() + 1 + qv.len());
    assert(s.skip(i5) == rest);
}

/// Parsing at the start of a serialized boolean-valued member yields exactly
/// that name and value.
#[verifier::rlimit(100)]
#[verifier::spinoff_prover]
proof fn lemma_ps_member_bool(s: Seq<char>, i: int, name: Seq<char>, val: bool, rest: Seq<char>)
    requires
        0 <= i <= s.len(),
        s.skip(i) == bool_member(name, val) + rest,
    ensures
        ps_member(s, i) == Some(((name, JVal::B(val)), i + bool_member(name, val).len() as int)),
        s.skip(i + bool_member(name, val).len() as int) == rest,
{
    let en = escape_chars(name);
    let lit = if val {
        seq!['t', 'r', 'u', 'e']
    } else {
        seq!['f', 'a', 'l', 's', 'e']
    };
    let x = seq![':'] + (lit + rest);
    seq_add_assoc(quoted(name) + seq![':'], lit, rest);
    seq_add_assoc(quoted(name), seq![':'], lit + rest);
    seq_add_assoc(seq!['"'] + en, seq!['"'], x);
    seq_add_assoc(seq!['"'], en, seq!['"'] + x);
    assert(s.skip(i) == seq!['"'] + (en + (seq!['"'] + x)));
    lemma_skip_parts(s, i, seq!['"'], en + (seq!['"'] + x));
    assert(s[i] == '"');
    assert(ps_ws(s, i) == i);
    seq_add_assoc(en, seq!['"'], x);
    assert(s.skip(i + 1) == (en + seq!['"']) + x);
    lemma_ps_string_escaped(s, i + 1, name, x);
    let i2 = i + 1 + en.len() as int + 1;
    assert(ps_string(s, i + 1) == Some((name, i2)));
    lemma_skip_parts(s, i + 1, en + seq!['"'], x);
    assert(s.skip(i2) == x);
    lemma_skip_parts(s, i2, seq![':'], lit + rest);
    assert(s[i2] == ':');
    assert(ps_ws(s, i2) == i2);
    assert(s.skip(i2 + 1) == lit + rest);
    lemma_skip_parts(s, i2 + 1, lit, rest);
    let i5 = i2 + 1 + lit.len() as int;
    if val {
        assert(s[i2 + 1 + 0] == lit[0] && s[i2 + 1 + 1] == lit[1] && s[i2 + 1 + 2] == lit[2] && s[
            i2 + 1 + 3
        ] == lit[3]);
        assert(s[i2 + 1] == 't' && s[i2 + 2] == 'r' && s[i2 + 3] == 'u' && s[i2 + 4] == 'e');
        assert(ps_ws(s, i2 + 1) == i2 + 1);
        assert(ps_value(s, i2 + 1) == Some((JVal::B(true), i5)));
    } else {
        assert(s[i2 + 1 + 0] == lit[0] && s[i2 + 1 + 1] == lit[1] && s[i2 + 1 + 2] == lit[2] && s[
            i2 + 1 + 3
        ] == lit[3] && s[i2 + 1 + 4] == lit[4]);
        assert(s[i2 + 1] == 'f' && s[i2 + 2] == 'a' && s[i2 + 3] == 'l' && s[i2 + 4] == 's' && s[
            i2 + 5
        ] == 'e');
        assert(ps_ws(s, i2 + 1) == i2 + 1);
        assert(ps_value(s, i2 + 1) == Some((JVal::B(false), i5)));
    }
    assert(ps_member(s, i) == Some(((name, JVal::B(val)), i5)));
    assert(bool_member(name, val).len() == en.len() + 3 + lit.len());
    assert(s.skip(i5) == rest);
}

/// A member followed by a comma prepends itself to whatever member list
/// parses after the comma.
proof fn lemma_ps_members_cons(
    s: Seq<char>,
    i: int,
    p: (Seq<char>, JVal),
    j: int,
    ms: Seq<(Seq<char>, JVal)>,
    k: int,
)
    requires
        0 <= i <= j < s.len(),
        ps_member(s, i) == Some((p, j)),
        s[j] == ',',
        ps_members(s, j + 1) == Some((ms, k)),
    ensures
        ps_members(s, i) == Some((seq![p] + ms, k)),
{
    assert(!is_ws(','));
    assert(ps_ws(s, j) == j);
}

/// The last member before the closing brace parses as a one-member list.
proof fn lemma_ps_members_last(s: Seq<char>, i: int, p: (Seq<char>, JVal), j: int)
    requires
        0 <= i,
        i <= j < s.len(),
        ps_member(s, i) == Some((p, j)),
        s[j] == '}',
    ensures
        ps_members(s, i) == Some((seq![p], j + 1)),
{
    assert(!is_ws('}'));
    assert(ps_ws(s, j) == j);
}


/// The serialized text of one member.
pub open spec fn member_text(p: (Seq<char>, JVal)) -> Seq<char> {
    match p.1 {
        JVal::S(v) => str_member(p.0, v),
        JVal::B(b) => bool_member(p.0, b),
    }
}

/// The serialized text of a member list, commas between members and the
/// closing brace at the end.
pub open spec fn members_doc(ms: Seq<(Seq<char>, JVal)>) -> Seq<char>
    decreases ms.len(),
{
    if ms.len() == 0 {
        seq!['}']
    } else if ms.len() == 1 {
        member_text(ms[0]) + seq!['}']
    } else {
        member_text(ms[0]) + seq![','] + members_doc(ms.drop_first())
    }
}

/// The members of a record's persisted document, in order.
pub open spec fn record_members_head(r: RecordView) -> Seq<(Seq<char>, JVal)> {
    seq![
        ("locale"@, JVal::S(r.locale)),
        ("autoUpdate"@, JVal::B(r.auto_update)),
        ("serverVersion"@, JVal::S(r.server_version)),
        ("pullServer"@, JVal::B(r.pull_server)),
        ("serverPort"@, JVal::S(r.server_port)),
        ("serverProfiles"@, JVal::S(r.server_profiles)),
        ("serverDefaultRole"@, JVal::S(r.server_default_role)),
        ("serverRam"@, JVal::S(r.server_ram)),
        ("clientVersion"@, JVal::S(r.client_version)),
        ("pullClient"@, JVal::B(r.pull_client)),
        ("clientPort"@, JVal::S(r.client_port)),
        ("clientTitle"@, JVal::S(r.client_title)),
    ]
}

pub open spec fn record_members_tail(r: RecordView) -> Seq<(Seq<char>, JVal)> {
    seq![
        ("databaseVersion"@, JVal::S(r.database_version)),
        ("pullDatabase"@, JVal::B(r.pull_database)),
        ("dataDir"@, JVal::S(r.data_dir)),
        ("storageDir"@, JVal::S(r.storage_dir)),
        ("sshVersion"@, JVal::S(r.ssh_version)),
        ("pullSsh"@, JVal::B(r.pull_ssh)),
        ("sshPort"@, JVal::S(r.ssh_port)),
        ("cfToken"@, JVal::S(r.cf_token)),
        ("ngrokUrl"@, JVal::S(r.ngrok_url)),
        ("ngrokToken"@, JVal::S(r.ngrok_token)),
        ("showLogsOnStart"@, JVal::B(r.show_logs_on_start)),
    ]
}

pub open spec fn record_members(r: RecordView) -> Seq<(Seq<char>, JVal)> {
    record_members_head(r) + record_members_tail(r)
}

/// A record as it comes back from its persisted form: every persisted field
/// as it was, the unpersisted location blank.
pub open spec fn persisted(r: RecordView) -> RecordView {
    RecordView { settings_path: Seq::empty(), ..r }
}

proof fn lemma_ps_member_any(s: Seq<char>, i: int, p: (Seq<char>, JVal), rest: Seq<char>)
    requires
        0 <= i <= s.len(),
        s.skip(i) == member_text(p) + rest,
    ensures
        ps_member(s, i) == Some((p, i + member_text(p).len() as int)),
        s.skip(i + member_text(p).len() as int) == rest,
{
    match p.1 {
        JVal::S(v) => {
            lemma_ps_member_str(s, i, p.0, v, rest);
            assert(p == (p.0, JVal::S(v)));
        },
        JVal::B(b) => {
            lemma_ps_member_bool(s, i, p.0, b, rest);
            assert(p == (p.0, JVal::B(b)));
        },
    }
}

/// A whole serialized member list parses back to exactly that list,
/// consuming the text to its end.
proof fn lemma_ps_members_doc(s: Seq<char>, i: int, ms: Seq<(Seq<char>, JVal)>)
    requires
        1 <= ms.len(),
        0 <= i <= s.len(),
        s.skip(i) == members_doc(ms),
    ensures
        ps_members(s, i) == Some((ms, s.len() as int)),
    decreases ms.len(),
{
    broadcast use vstd::seq_lib::group_seq_properties;

    if ms.len() == 1 {
        assert(s.skip(i) == member_text(ms[0]) + seq!['}']);
        lemma_ps_member_any(s, i, ms[0], seq!['}']);
        let j = i + member_text(ms[0]).len() as int;
        assert(s.skip(j) == seq!['}']);
        assert(s.len() - j == 1);
        assert(s[j] == s.skip(j)[0]);
        lemma_ps_members_last(s, i, ms[0], j);
        assert(ms =~= seq![ms[0]]);
    } else {
        let tail = ms.drop_first();
        assert(s.skip(i) =~= member_text(ms[0]) + (seq![','] + members_doc(tail)));
        lemma_ps_member_any(s, i, ms[0], seq![','] + members_doc(tail));
        let j = i + member_text(ms[0]).len() as int;
        assert(s.skip(j) == seq![','] + members_doc(tail));
        lemma_skip_parts(s, j, seq![','], members_doc(tail));
        assert(s[j] == ',');
        assert(members_doc(tail).len() >= 1);
        lemma_ps_members_doc(s, j + 1, tail);
        lemma_ps_members_cons(s, i, ms[0], j, tail, s.len() as int);
        assert(seq![ms[0]] + tail =~= ms);
    }
}

proof fn seq_add_assoc(a: Seq<char>, b: Seq<char>, c: Seq<char>)
    ensures
        (a + b) + c == a + (b + c),
{
    assert((a + b) + c =~= a + (b + c));
}

#[verifier::rlimit(100)]
proof fn lemma_json_record_doc(r: RecordView)
    ensures
        json_record(r) == seq!['{'] + members_doc(record_members(r)),
{
    let ms = record_members(r);
    assert(ms.len() == 23);
    assert(ms[0] == ("locale"@, JVal::S(r.locale)));
    assert(ms.skip(0)[0] == ms[0]);
    assert(ms.skip(0).len() == 23);
    ms.lemma_seq_skip_skip(0);
    assert(ms.skip(0).drop_first() == ms.skip(0).skip(1));
    assert(ms[1] == ("autoUpdate"@, JVal::B(r.auto_update)));
    assert(ms.skip(1)[0] == ms[1]);
    assert(ms.skip(1).len() == 22);
    ms.lemma_seq_skip_skip(1);
    assert(ms.skip(1).drop_first() == ms.skip(1).skip(1));
    assert(ms[2] == ("serverVersion"@, JVal::S(r.server_version)));
    assert(ms.skip(2)[0] == ms[2]);
    assert(ms.skip(2).len() == 21);
    ms.lemma_seq_skip_skip(2);
    assert(ms.skip(2).drop_first() == ms.skip(2).skip(1));
    assert(ms[3] == ("pullServer"@, JVal::B(r.pull_server)));
    assert(ms.skip(3)[0] == ms[3]);
    assert(ms.skip(3).len() == 20);
    ms.lemma_seq_skip_skip(3);
    assert(ms.skip(3).drop_first() == ms.skip(3).skip(1));
    assert(ms[4] == ("serverPort"@, JVal::S(r.server_port)));
    assert(ms.skip(4)[0] == ms[4]);
    assert(ms.skip(4).len() == 19);
    ms.lemma_seq_skip_skip(4);
    assert(ms.skip(4).drop_first() == ms.skip(4).skip(1));
    assert(ms[5] == ("serverProfiles"@, JVal::S(r.server_profiles)));
    assert(ms.skip(5)[0] == ms[5]);
    assert(ms.skip(5).len() == 18);
    ms.lemma_seq_skip_skip(5);
    assert(ms.skip(5).drop_first() == ms.skip(5).skip(1));
    assert(ms[6] == ("serverDefaultRole"@, JVal::S(r.server_default_role)));
    assert(ms.skip(6)[0] == ms[6]);
    assert(ms.skip(6).len() == 17);
    ms.lemma_seq_skip_skip(6);
    assert(ms.skip(6).drop_first() == ms.skip(6).skip(1));
    assert(ms[7] == ("serverRam"@, JVal::S(r.server_ram)));
    assert(ms.skip(7)[0] == ms[7]);
    assert(ms.skip(7).len() == 16);
    ms.lemma_seq_skip_skip(7);
    assert(ms.skip(7).drop_first() == ms.skip(7).skip(1));
    assert(ms[8] == ("clientVersion"@, JVal::S(r.client_version)));
    assert(ms.skip(8)[0] == ms[8]);
    assert(ms.skip(8).len() == 15);
    ms.lemma_seq_skip_skip(8);
    assert(ms.skip(8).drop_first() == ms.skip(8).skip(1));
    assert(ms[9] == ("pullClient"@, JVal::B(r.pull_client)));
    assert(ms.skip(9)[0] == ms[9]);
    assert(ms.skip(9).len() == 14);
    ms.lemma_seq_skip_skip(9);
    assert(ms.skip(9).drop_first() == ms.skip(9).skip(1));
    assert(ms[10] == ("clientPort"@, JVal::S(r.client_port)));
    assert(ms.skip(10)[0] == ms[10]);
    assert(ms.skip(10).len() == 13);
    ms.lemma_seq_skip_skip(10);
    assert(ms.skip(10).drop_first() == ms.skip(10).skip(1));
    assert(ms[11] == ("clientTitle"@, JVal::S(r.client_title)));
    assert(ms.skip(11)[0] == ms[11]);
    assert(ms.skip(11).len() == 12);
    ms.lemma_seq_skip_skip(11);
    assert(ms.skip(11).drop_first() == ms.skip(11).skip(1));
    assert(ms[12] == ("databaseVersion"@, JVal::S(r.database_version)));
    assert(ms.skip(12)[0] == ms[12]);
    assert(ms.skip(12).len() == 11);
    ms.lemma_seq_skip_skip(12);
    assert(ms.skip(12).drop_first() == ms.skip(12).skip(1));
    assert(ms[13] == ("pullDatabase"@, JVal::B(r.pull_database)));
    assert(ms.skip(13)[0] == ms[13]);
    assert(ms.skip(13).len() == 10);
    ms.lemma_seq_skip_skip(13);
    assert(ms.skip(13).drop_first() == ms.skip(13).skip(1));
    assert(ms[14] == ("dataDir"@, JVal::S(r.data_dir)));
    assert(ms.skip(14)[0] == ms[14]);
    assert(ms.skip(14).len() == 9);
    ms.lemma_seq_skip_skip(14);
    assert(ms.skip(14).drop_first() == ms.skip(14).skip(1));
    assert(ms[15] == ("storageDir"@, JVal::S(r.storage_dir)));
    assert(ms.skip(15)[0] == ms[15]);
    assert(ms.skip(15).len() == 8);
    ms.lemma_seq_skip_skip(15);
    assert(ms.skip(15).drop_first() == ms.skip(15).skip(1));
    assert(ms[16] == ("sshVersion"@, JVal::S(r.ssh_version)));
    assert(ms.skip(16)[0] == ms[16]);
    assert(ms.skip(16).len() == 7);
    ms.lemma_seq_skip_skip(16);
    assert(ms.skip(16).drop_first() == ms.skip(16).skip(1));
    assert(ms[17] == ("pullSsh"@, JVal::B(r.pull_ssh)));
    assert(ms.skip(17)[0] == ms[17]);
    assert(ms.skip(17).len() == 6);
    ms.lemma_seq_skip_skip(17);
    assert(ms.skip(17).drop_first() == ms.skip(17).skip(1));
    assert(ms[18] == ("sshPort"@, JVal::S(r.ssh_port)));
    assert(ms.skip(18)[0] == ms[18]);
    assert(ms.skip(18).len() == 5);
    ms.lemma_seq_skip_skip(18);
    assert(ms.skip(18).drop_first() == ms.skip(18).skip(1));
    assert(ms[19] == ("cfToken"@, JVal::S(r.cf_token)));
    assert(ms.skip(19)[0] == ms[19]);
    assert(ms.skip(19).len() == 4);
    ms.lemma_seq_skip_skip(19);
    assert(ms.skip(19).drop_first() == ms.skip(19).skip(1));
    assert(ms[20] == ("ngrokUrl"@, JVal::S(r.ngrok_url)));
    assert(ms.skip(20)[0] == ms[20]);
    assert(ms.skip(20).len() == 3);
    ms.lemma_seq_skip_skip(20);
    assert(ms.skip(20).drop_first() == ms.skip(20).skip(1));
    assert(ms[21] == ("ngrokToken"@, JVal::S(r.ngrok_token)));
    assert(ms.skip(21)[0] == ms[21]);
    assert(ms.skip(21).len() == 2);
    ms.lemma_seq_skip_skip(21);
    assert(ms.skip(21).drop_first() == ms.skip(21).skip(1));
    assert(ms[22] == ("showLogsOnStart"@, JVal::B(r.show_logs_on_start)));
    assert(ms.skip(22)[0] == ms[22]);
    assert(ms.skip(22).len() == 1);
    assert(ms.skip(0) =~= ms);
    let t22 = bool_member("showLogsOnStart"@, r.show_logs_on_start) + seq!['}'];
    assert(member_text(ms[22]) == bool_member("showLogsOnStart"@, r.show_logs_on_start));
    assert(members_doc(ms.skip(22)) == t22);
    let t21 = str_member("ngrokToken"@, r.ngrok_token) + seq![','] + t22;
    assert(member_text(ms[21]) == str_member("ngrokToken"@, r.ngrok_token));
    assert(members_doc(ms.skip(21)) == t21);
    let t20 = str_member("ngrokUrl"@, r.ngrok_url) + seq![','] + t21;
    assert(member_text(ms[20]) == str_member("ngrokUrl"@, r.ngrok_url));
    assert(members_doc(ms.skip(20)) == t20);
    let t19 = str_member("cfToken"@, r.cf_token) + seq![','] + t20;
    assert(member_text(ms[19]) == str_member("cfToken"@, r.cf_token));
    assert(members_doc(ms.skip(19)) == t19);
    let t18 = str_member("sshPort"@, r.ssh_port) + seq![','] + t19;
    assert(member_text(ms[18]) == str_member("sshPort"@, r.ssh_port));
    assert(members_doc(ms.skip(18)) == t18);
    let t17 = bool_member("pullSsh"@, r.pull_ssh) + seq![','] + t18;
    assert(member_text(ms[17]) == bool_member("pullSsh"@, r.pull_ssh));
    assert(members_doc(ms.skip(17)) == t17);
    let t16 = str_member("sshVersion"@, r.ssh_version) + seq![','] + t17;
    assert(member_text(ms[16]) == str_member("sshVersion"@, r.ssh_version));
    assert(members_doc(ms.skip(16)) == t16);
    let t15 = str_member("storageDir"@, r.storage_dir) + seq![','] + t16;
    assert(member_text(ms[15]) == str_member("storageDir"@, r.storage_dir));
    assert(members_doc(ms.skip(15)) == t15);
    let t14 = str_member("dataDir"@, r.data_dir) + seq![','] + t15;
    assert(member_text(ms[14]) == str_member("dataDir"@, r.data_dir));
    assert(members_doc(ms.skip(14)) == t14);
    let t13 = bool_member("pullDatabase"@, r.pull_database) + seq![','] + t14;
    assert(member_text(ms[13]) == bool_member("pullDatabase"@, r.pull_database));
    assert(members_doc(ms.skip(13)) == t13);
    let t12 = str_member("databaseVersion"@, r.database_version) + seq![','] + t13;
    assert(member_text(ms[12]) == str_member("databaseVersion"@, r.database_version));
    assert(members_doc(ms.skip(12)) == t12);
    let t11 = str_member("clientTitle"@, r.client_title) + seq![','] + t12;
    assert(member_text(ms[11]) == str_member("clientTitle"@, r.client_title));
    assert(members_doc(ms.skip(11)) == t11);
    let t10 = str_member("clientPort"@, r.client_port) + seq![','] + t11;
    assert(member_text(ms[10]) == str_member("clientPort"@, r.client_port));
    assert(members_doc(ms.skip(10)) == t10);
    let t9 = bool_member("pullClient"@, r.pull_client) + seq![','] + t10;
    assert(member_text(ms[9]) == bool_member("pullClient"@, r.pull_client));
    assert(members_doc(ms.skip(9)) == t9);
    let t8 = str_member("clientVersion"@, r.client_version) + seq![','] + t9;
    assert(member_text(ms[8]) == str_member("clientVersion"@, r.client_version));
    assert(members_doc(ms.skip(8)) == t8);
    let t7 = str_member("serverRam"@, r.server_ram) + seq![','] + t8;
    assert(member_text(ms[7]) == str_member("serverRam"@, r.server_ram));
    assert(members_doc(ms.skip(7)) == t7);
    let t6 = str_member("serverDefaultRole"@, r.server_default_role) + seq![','] + t7;
    assert(member_text(ms[6]) == str_member("serverDefaultRole"@, r.server_default_role));
    assert(members_doc(ms.skip(6)) == t6);
    let t5 = str_member("serverProfiles"@, r.server_profiles) + seq![','] + t6;
    assert(member_text(ms[5]) == str_member("serverProfiles"@, r.server_profiles));
    assert(members_doc(ms.skip(5)) == t5);
    let t4 = str_member("serverPort"@, r.server_port) + seq![','] + t5;
    assert(member_text(ms[4]) == str_member("serverPort"@, r.server_port));
    assert(members_doc(ms.skip(4)) == t4);
    let t3 = bool_member("pullServer"@, r.pull_server) + seq![','] + t4;
    assert(member_text(ms[3]) == bool_member("pullServer"@, r.pull_server));
    assert(members_doc(ms.skip(3)) == t3);
    let t2 = str_member("serverVersion"@, r.server_version) + seq![','] + t3;
    assert(member_text(ms[2]) == str_member("serverVersion"@, r.server_version));
    assert(members_doc(ms.skip(2)) == t2);
    let t1 = bool_member("autoUpdate"@, r.auto_update) + seq![','] + t2;
    assert(member_text(ms[1]) == bool_member("autoUpdate"@, r.auto_update));
    assert(members_doc(ms.skip(1)) == t1);
    let t0 = str_member("locale"@, r.locale) + seq![','] + t1;
    assert(member_text(ms[0]) == str_member("locale"@, r.locale));
    assert(members_doc(ms.skip(0)) == t0);
    assert(members_doc(ms) == t0);
    let p0: Seq<char> = seq!['{'];
    let p1 = p0 + str_member("locale"@, r.locale);
    let p2 = p1 + seq![','];
    let p3 = p2 + bool_member("autoUpdate"@, r.auto_update);
    let p4 = p3 + seq![','];
    let p5 = p4 + str_member("serverVersion"@, r.server_version);
    let p6 = p5 + seq![','];
    let p7 = p6 + bool_member("pullServer"@, r.pull_server);
    let p8 = p7 + seq![','];
    let p9 = p8 + str_member("serverPort"@, r.server_port);
    let p10 = p9 + seq![','];
    let p11 = p10 + str_member("serverProfiles"@, r.server_profiles);
    let p12 = p11 + seq![','];
    let p13 = p12 + str_member("serverDefaultRole"@, r.server_default_role);
    let p14 = p13 + seq![','];
    let p15 = p14 + str_member("serverRam"@, r.server_ram);
    let p16 = p15 + seq![','];
    let p17 = p16 + str_member("clientVersion"@, r.client_version);
    let p18 = p17 + seq![','];
    let p19 = p18 + bool_member("pullClient"@, r.pull_client);
    let p20 = p19 + seq![','];
    let p21 = p20 + str_member("clientPort"@, r.client_port);
    let p22 = p21 + seq![','];
    let p23 = p22 + str_member("clientTitle"@, r.client_title);
    let p24 = p23 + seq![','];
    let p25 = p24 + str_member("databaseVersion"@, r.database_version);
    let p26 = p25 + seq![','];
    let p27 = p26 + bool_member("pullDatabase"@, r.pull_database);
    let p28 = p27 + seq![','];
    let p29 = p28 + str_member("dataDir"@, r.data_dir);
    let p30 = p29 + seq![','];
    let p31 = p30 + str_member("storageDir"@, r.storage_dir);
    let p32 = p31 + seq![','];
    let p33 = p32 + str_member("sshVersion"@, r.ssh_version);
    let p34 = p33 + seq![','];
    let p35 = p34 + bool_member("pullSsh"@, r.pull_ssh);
    let p36 = p35 + seq![','];
    let p37 = p36 + str_member("sshPort"@, r.ssh_port);
    let p38 = p37 + seq![','];
    let p39 = p38 + str_member("cfToken"@, r.cf_token);
    let p40 = p39 + seq![','];
    let p41 = p40 + str_member("ngrokUrl"@, r.ngrok_url);
    let p42 = p41 + seq![','];
    let p43 = p42 + str_member("ngrokToken"@, r.ngrok_token);
    let p44 = p43 + seq![','];
    let p45 = p44 + bool_member("showLogsOnStart"@, r.show_logs_on_start);
    assert(json_record(r) == p45 + seq!['}']);
    seq_add_assoc(p44, bool_member("showLogsOnStart"@, r.show_logs_on_start), seq!['}']);
    assert(json_record(r) == p44 + t22);
    seq_add_assoc(p43, seq![','], t22);
    seq_add_assoc(p42, str_member("ngrokToken"@, r.ngrok_token), seq![','] + t22);
    seq_add_assoc(str_member("ngrokToken"@, r.ngrok_token), seq![','], t22);
    assert(t21 == str_member("ngrokToken"@, r.ngrok_token) + (seq![','] + t22));
    assert(json_record(r) == p42 + t21);
    seq_add_assoc(p41, seq![','], t21);
    seq_add_assoc(p40, str_member("ngrokUrl"@, r.ngrok_url), seq![','] + t21);
    seq_add_assoc(str_member("ngrokUrl"@, r.ngrok_url), seq![','], t21);
    assert(t20 == str_member("ngrokUrl"@, r.ngrok_url) + (seq![','] + t21));
    assert(json_record(r) == p40 + t20);
    seq_add_assoc(p39, seq![','], t20);
    seq_add_assoc(p38, str_member("cfToken"@, r.cf_token), seq![','] + t20);
    seq_add_assoc(str_member("cfToken"@, r.cf_token), seq![','], t20);
    assert(t19 == str_member("cfToken"@, r.cf_token) + (seq![','] + t20));
    assert(json_record(r) == p38 + t19);
    seq_add_assoc(p37, seq![','], t19);
    seq_add_assoc(p36, str_member("sshPort"@, r.ssh_port), seq![','] + t19);
    seq_add_assoc(str_member("sshPort"@, r.ssh_port), seq![','], t19);
    assert(t18 == str_member("sshPort"@, r.ssh_port) + (seq![','] + t19));
    assert(json_record(r) == p36 + t18);
    seq_add_assoc(p35, seq![','], t18);
    seq_add_assoc(p34, bool_member("pullSsh"@, r.pull_ssh), seq![','] + t18);
    seq_add_assoc(bool_member("pullSsh"@, r.pull_ssh), seq![','], t18);
    assert(t17 == bool_member("pullSsh"@, r.pull_ssh) + (seq![','] + t18));
    assert(json_record(r) == p34 + t17);
    seq_add_assoc(p33, seq![','], t17);
    seq_add_assoc(p32, str_member("sshVersion"@, r.ssh_version), seq![','] + t17);
    seq_add_assoc(str_member("sshVersion"@, r.ssh_version), seq![','], t17);
    assert(t16 == str_member("sshVersion"@, r.ssh_version) + (seq![','] + t17));
    assert(json_record(r) == p32 + t16);
    seq_add_assoc(p31, seq![','], t16);
    seq_add_assoc(p30, str_member("storageDir"@, r.storage_dir), seq![','] + t16);
    seq_add_assoc(str_member("storageDir"@, r.storage_dir), seq![','], t16);
    assert(t15 == str_member("storageDir"@, r.storage_dir) + (seq![','] + t16));
    assert(json_record(r) == p30 + t15);
    seq_add_assoc(p29, seq![','], t15);
    seq_add_assoc(p28, str_member("dataDir"@, r.data_dir), seq![','] + t15);
    seq_add_assoc(str_member("dataDir"@, r.data_dir), seq![','], t15);
    assert(t14 == str_member("dataDir"@, r.data_dir) + (seq![','] + t15));
    assert(json_record(r) == p28 + t14);
    seq_add_assoc(p27, seq![','], t14);
    seq_add_assoc(p26, bool_member("pullDatabase"@, r.pull_database), seq![','] + t14);
    seq_add_assoc(bool_member("pullDatabase"@, r.pull_database), seq![','], t14);
    assert(t13 == bool_member("pullDatabase"@, r.pull_database) + (seq![','] + t14));
    assert(json_record(r) == p26 + t13);
    seq_add_assoc(p25, seq![','], t13);
    seq_add_assoc(p24, str_member("databaseVersion"@, r.database_version), seq![','] + t13);
    seq_add_assoc(str_member("databaseVersion"@, r.database_version), seq![','], t13);
    assert(t12 == str_member("databaseVersion"@, r.database_version) + (seq![','] + t13));
    assert(json_record(r) == p24 + t12);
    seq_add_assoc(p23, seq![','], t12);
    seq_add_assoc(p22, str_member("clientTitle"@, r.client_title), seq![','] + t12);
    seq_add_assoc(str_member("clientTitle"@, r.client_title), seq![','], t12);
    assert(t11 == str_member("clientTitle"@, r.client_title) + (seq![','] + t12));
    assert(json_record(r) == p22 + t11);
    seq_add_assoc(p21, seq![','], t11);
    seq_add_assoc(p20, str_member("clientPort"@, r.client_port), seq![','] + t11);
    seq_add_assoc(str_member("clientPort"@, r.client_port), seq![','], t11);
    assert(t10 == str_member("clientPort"@, r.client_port) + (seq![','] + t11));
    assert(json_record(r) == p20 + t10);
    seq_add_assoc(p19, seq![','], t10);
    seq_add_assoc(p18, bool_member("pullClient"@, r.pull_client), seq![','] + t10);
    seq_add_assoc(bool_member("pullClient"@, r.pull_client), seq![','], t10);
    assert(t9 == bool_member("pullClient"@, r.pull_client) + (seq![','] + t10));
    assert(json_record(r) == p18 + t9);
    seq_add_assoc(p17, seq![','], t9);
    seq_add_assoc(p16, str_member("clientVersion"@, r.client_version), seq![','] + t9);
    seq_add_assoc(str_member("clientVersion"@, r.client_version), seq![','], t9);
    assert(t8 == str_member("clientVersion"@, r.client_version) + (seq![','] + t9));
    assert(json_record(r) == p16 + t8);
    seq_add_assoc(p15, seq![','], t8);
    seq_add_assoc(p14, str_member("serverRam"@, r.server_ram), seq![','] + t8);
    seq_add_assoc(str_member("serverRam"@, r.server_ram), seq![','], t8);
    assert(t7 == str_member("serverRam"@, r.server_ram) + (seq![','] + t8));
    assert(json_record(r) == p14 + t7);
    seq_add_assoc(p13, seq![','], t7);
    seq_add_assoc(p12, str_member("serverDefaultRole"@, r.server_default_role), seq![','] + t7);
    seq_add_assoc(str_member("serverDefaultRole"@, r.server_default_role), seq![','], t7);
    assert(t6 == str_member("serverDefaultRole"@, r.server_default_role) + (seq![','] + t7));
    assert(json_record(r) == p12 + t6);
    seq_add_assoc(p11, seq![','], t6);
    seq_add_assoc(p10, str_member("serverProfiles"@, r.server_profiles), seq![','] + t6);
    seq_add_assoc(str_member("serverProfiles"@, r.server_profiles), seq![','], t6);
    assert(t5 == str_member("serverProfiles"@, r.server_profiles) + (seq![','] + t6));
    assert(json_record(r) == p10 + t5);
    seq_add_assoc(p9, seq![','], t5);
    seq_add_assoc(p8, str_member("serverPort"@, r.server_port), seq![','] + t5);
    seq_add_assoc(str_member("serverPort"@, r.server_port), seq![','], t5);
    assert(t4 == str_member("serverPort"@, r.server_port) + (seq![','] + t5));
    assert(json_record(r) == p8 + t4);
    seq_add_assoc(p7, seq![','], t4);
    seq_add_assoc(p6, bool_member("pullServer"@, r.pull_server), seq![','] + t4);
    seq_add_assoc(bool_member("pullServer"@, r.pull_server), seq![','], t4);
    assert(t3 == bool_member("pullServer"@, r.pull_server) + (seq![','] + t4));
    assert(json_record(r) == p6 + t3);
    seq_add_assoc(p5, seq![','], t3);
    seq_add_assoc(p4, str_member("serverVersion"@, r.server_version), seq![','] + t3);
    seq_add_assoc(str_member("serverVersion"@, r.server_version), seq![','], t3);
    assert(t2 == str_member("serverVersion"@, r.server_version) + (seq![','] + t3));
    assert(json_record(r) == p4 + t2);
    seq_add_assoc(p3, seq![','], t2);
    seq_add_assoc(p2, bool_member("autoUpdate"@, r.auto_update), seq![','] + t2);
    seq_add_assoc(bool_member("autoUpdate"@, r.auto_update), seq![','], t2);
    assert(t1 == bool_member("autoUpdate"@, r.auto_update) + (seq![','] + t2));
    assert(json_record(r) == p2 + t1);
    seq_add_assoc(p1, seq![','], t1);
    seq_add_assoc(p0, str_member("locale"@, r.locale), seq![','] + t1);
    seq_add_assoc(str_member("locale"@, r.locale), seq![','], t1);
    assert(t0 == str_member("locale"@, r.locale) + (seq![','] + t1));
    assert(json_record(r) == p0 + t0);
    assert(json_record(r) == seq!['{'] + t0);
}

#[verifier::rlimit(100)]
#[verifier::spinoff_prover]
proof fn lemma_field_indices()
    ensures
        field_index("locale"@) == 0,
        field_index("autoUpdate"@) == 1,
        field_index("serverVersion"@) == 2,
        field_index("pullServer"@) == 3,
        field_index("serverPort"@) == 4,
        field_index("serverProfiles"@) == 5,
        field_index("serverDefaultRole"@) == 6,
        field_index("serverRam"@) == 7,
        field_index("clientVersion"@) == 8,
        field_index("pullClient"@) == 9,
        field_index("clientPort"@) == 10,
        field_index("clientTitle"@) == 11,
        field_index("databaseVersion"@) == 12,
        field_index("pullDatabase"@) == 13,
        field_index("dataDir"@) == 14,
        field_index("storageDir"@) == 15,
        field_index("sshVersion"@) == 16,
        field_index("pullSsh"@) == 17,
        field_index("sshPort"@) == 18,
        field_index("cfToken"@) == 19,
        field_index("ngrokUrl"@) == 20,
        field_index("ngrokToken"@) == 21,
        field_index("showLogsOnStart"@) == 22,
{
    broadcast use vstd::string::group_string_axioms;

    reveal_strlit("locale");
    assert("locale"@ =~= seq!['l', 'o', 'c', 'a', 'l', 'e']);
    reveal_strlit("autoUpdate");
    assert("autoUpdate"@ =~= seq!['a', 'u', 't', 'o', 'U', 'p', 'd', 'a', 't', 'e']);
    reveal_strlit("serverVersion");
    assert("serverVersion"@ =~= seq!['s', 'e', 'r', 'v', 'e', 'r', 'V', 'e', 'r', 's', 'i', 'o', 'n']);
    reveal_strlit("pullServer");
    assert("pullServer"@ =~= seq!['p', 'u', 'l', 'l', 'S', 'e', 'r', 'v', 'e', 'r']);
    reveal_strlit("serverPort");
    assert("serverPort"@ =~= seq!['s', 'e', 'r', 'v', 'e', 'r', 'P', 'o', 'r', 't']);
    reveal_strlit("serverProfiles");
    assert("serverProfiles"@ =~= seq!['s', 'e', 'r', 'v', 'e', 'r', 'P', 'r', 'o', 'f', 'i', 'l', 'e', 's']);
    reveal_strlit("serverDefaultRole");
    assert("serverDefaultRole"@ =~= seq!['s', 'e', 'r', 'v', 'e', 'r', 'D', 'e', 'f', 'a', 'u', 'l', 't', 'R', 'o', 'l', 'e']);
    reveal_strlit("serverRam");
    assert("serverRam"@ =~= seq!['s', 'e', 'r', 'v', 'e', 'r', 'R', 'a', 'm']);
    reveal_strlit("clientVersion");
    assert("clientVersion"@ =~= seq!['c', 'l', 'i', 'e', 'n', 't', 'V', 'e', 'r', 's', 'i', 'o', 'n']);
    reveal_strlit("pullClient");
    assert("pullClient"@ =~= seq!['p', 'u', 'l', 'l', 'C', 'l', 'i', 'e', 'n', 't']);
    reveal_strlit("clientPort");
    assert("clientPort"@ =~= seq!['c', 'l', 'i', 'e', 'n', 't', 'P', 'o', 'r', 't']);
    reveal_strlit("clientTitle");
    assert("clientTitle"@ =~= seq!['c', 'l', 'i', 'e', 'n', 't', 'T', 'i', 't', 'l', 'e']);
    reveal_strlit("databaseVersion");
    assert("databaseVersion"@ =~= seq!['d', 'a', 't', 'a', 'b', 'a', 's', 'e', 'V', 'e', 'r', 's', 'i', 'o', 'n']);
    reveal_strlit("pullDatabase");
    assert("pullDatabase"@ =~= seq!['p', 'u', 'l', 'l', 'D', 'a', 't', 'a', 'b', 'a', 's', 'e']);
    reveal_strlit("dataDir");
    assert("dataDir"@ =~= seq!['d', 'a', 't', 'a', 'D', 'i', 'r']);
    reveal_strlit("storageDir");
    assert("storageDir"@ =~= seq!['s', 't', 'o', 'r', 'a', 'g', 'e', 'D', 'i', 'r']);
    reveal_strlit("sshVersion");
    assert("sshVersion"@ =~= seq!['s', 's', 'h', 'V', 'e', 'r', 's', 'i', 'o', 'n']);
    reveal_strlit("pullSsh");
    assert("pullSsh"@ =~= seq!['p', 'u', 'l', 'l', 'S', 's', 'h']);
    reveal_strlit("sshPort");
    assert("sshPort"@ =~= seq!['s', 's', 'h', 'P', 'o', 'r', 't']);
    reveal_strlit("cfToken");
    assert("cfToken"@ =~= seq!['c', 'f', 'T', 'o', 'k', 'e', 'n']);
    reveal_strlit("ngrokUrl");
    assert("ngrokUrl"@ =~= seq!['n', 'g', 'r', 'o', 'k', 'U', 'r', 'l']);
    reveal_strlit("ngrokToken");
    assert("ngrokToken"@ =~= seq!['n', 'g', 'r', 'o', 'k', 'T', 'o', 'k', 'e', 'n']);
    reveal_strlit("showLogsOnStart");
    assert("showLogsOnStart"@ =~= seq!['s', 'h', 'o', 'w', 'L', 'o', 'g', 's', 'O', 'n', 'S', 't', 'a', 'r', 't']);
}

#[verifier::rlimit(100)]
proof fn lemma_build_chunk_0(r: RecordView, c: RecordView, seen: Set<int>)
    ensures
        build_record(c, seen, record_members(r).skip(0)) == build_record(
            (RecordView { locale: r.locale, auto_update: r.auto_update, server_version: r.server_version, ..c }),
            seen.insert(0).insert(1).insert(2),
            record_members(r).skip(3),
        ),
{
    let ms = record_members(r);
    assert(ms.len() == 23);
    assert(ms[0] == ("locale"@, JVal::S(r.locale)));
    assert(ms.skip(0)[0] == ms[0]);
    ms.lemma_seq_skip_skip(0);
    assert(ms.skip(0).drop_first() == ms.skip(0).skip(1));
    assert(field_index("locale"@) == 0) by {
        lemma_field_indices();
    }
    assert(ms[1] == ("autoUpdate"@, JVal::B(r.auto_update)));
    assert(ms.skip(1)[0] == ms[1]);
    ms.lemma_seq_skip_skip(1);
    assert(ms.skip(1).drop_first() == ms.skip(1).skip(1));
    assert(field_index("autoUpdate"@) == 1) by {
        lemma_field_indices();
    }
    assert(ms[2] == ("serverVersion"@, JVal::S(r.server_version)));
    assert(ms.skip(2)[0] == ms[2]);
    ms.lemma_seq_skip_skip(2);
    assert(ms.skip(2).drop_first() == ms.skip(2).skip(1));
    assert(field_index("serverVersion"@) == 2) by {
        lemma_field_indices();
    }
    let c0 = c;
    let s0 = seen;
    let c1 = RecordView { locale: r.locale, ..c0 };
    assert(set_field(c0, 0, JVal::S(r.locale)) == Some(c1));
    let s1 = s0.insert(0);
    assert(build_record(c0, s0, ms.skip(0)) == build_record(c1, s1, ms.skip(1)));
    let c2 = RecordView { auto_update: r.auto_update, ..c1 };
    assert(set_field(c1, 1, JVal::B(r.auto_update)) == Some(c2));
    let s2 = s1.insert(1);
    assert(build_record(c1, s1, ms.skip(1)) == build_record(c2, s2, ms.skip(2)));
    let c3 = RecordView { server_version: r.server_version, ..c2 };
    assert(set_field(c2, 2, JVal::S(r.server_version)) == Some(c3));
    let s3 = s2.insert(2);
    assert(build_record(c2, s2, ms.skip(2)) == build_record(c3, s3, ms.skip(3)));
    assert(c3 == (RecordView { locale: r.locale, auto_update: r.auto_update, server_version: r.server_version, ..c }));
}

#[verifier::rlimit(100)]
proof fn lemma_build_chunk_3(r: RecordView, c: RecordView, seen: Set<int>)
    ensures
        build_record(c, seen, record_members(r).skip(3)) == build_record(
            (RecordView { pull_server: r.pull_server, server_port: r.server_port, server_profiles: r.server_profiles, ..c }),
            seen.insert(3).insert(4).insert(5),
            record_members(r).skip(6),
        ),
{
    let ms = record_members(r);
    assert(ms.len() == 23);
    assert(ms[3] == ("pullServer"@, JVal::B(r.pull_server)));
    assert(ms.skip(3)[0] == ms[3]);
    ms.lemma_seq_skip_skip(3);
    assert(ms.skip(3).drop_first() == ms.skip(3).skip(1));
    assert(field_index("pullServer"@) == 3) by {
        lemma_field_indices();
    }
    assert(ms[4] == ("serverPort"@, JVal::S(r.server_port)));
    assert(ms.skip(4)[0] == ms[4]);
    ms.lemma_seq_skip_skip(4);
    assert(ms.skip(4).drop_first() == ms.skip(4).skip(1));
    assert(field_index("serverPort"@) == 4) by {
        lemma_field_indices();
    }
    assert(ms[5] == ("serverProfiles"@, JVal::S(r.server_profiles)));
    assert(ms.skip(5)[0] == ms[5]);
    ms.lemma_seq_skip_skip(5);
    assert(ms.skip(5).drop_first() == ms.skip(5).skip(1));
    assert(field_index("serverProfiles"@) == 5) by {
        lemma_field_indices();
    }
    let c0 = c;
    let s0 = seen;
    let c1 = RecordView { pull_server: r.pull_server, ..c0 };
    assert(set_field(c0, 3, JVal::B(r.pull_server)) == Some(c1));
    let s1 = s0.insert(3);
    assert(build_record(c0, s0, ms.skip(3)) == build_record(c1, s1, ms.skip(4)));
    let c2 = RecordView { server_port: r.server_port, ..c1 };
    assert(set_field(c1, 4, JVal::S(r.server_port)) == Some(c2));
    let s2 = s1.insert(4);
    assert(build_record(c1, s1, ms.skip(4)) == build_record(c2, s2, ms.skip(5)));
    let c3 = RecordView { server_profiles: r.server_profiles, ..c2 };
    assert(set_field(c2, 5, JVal::S(r.server_profiles)) == Some(c3));
    let s3 = s2.insert(5);
    assert(build_record(c2, s2, ms.skip(5)) == build_record(c3, s3, ms.skip(6)));
    assert(c3 == (RecordView { pull_server: r.pull_server, server_port: r.server_port, server_profiles: r.server_profiles, ..c }));
}

#[verifier::rlimit(100)]
proof fn lemma_build_chunk_6(r: RecordView, c: RecordView, seen: Set<int>)
    ensures
        build_record(c, seen, record_members(r).skip(6)) == build_record(
            (RecordView { server_default_role: r.server_default_role, server_ram: r.server_ram, client_version: r.client_version, ..c }),
            seen.insert(6).insert(7).insert(8),
            record_members(r).skip(9),
        ),
{
    let ms = record_members(r);
    assert(ms.len() == 23);
    assert(ms[6] == ("serverDefaultRole"@, JVal::S(r.server_default_role)));
    assert(ms.skip(6)[0] == ms[6]);
    ms.lemma_seq_skip_skip(6);
    assert(ms.skip(6).drop_first() == ms.skip(6).skip(1));
    assert(field_index("serverDefaultRole"@) == 6) by {
        lemma_field_indices();
    }
    assert(ms[7] == ("serverRam"@, JVal::S(r.server_ram)));
    assert(ms.skip(7)[0] == ms[7]);
    ms.lemma_seq_skip_skip(7);
    assert(ms.skip(7).drop_first() == ms.skip(7).skip(1));
    assert(field_index("serverRam"@) == 7) by {
        lemma_field_indices();
    }
    assert(ms[8] == ("clientVersion"@, JVal::S(r.client_version)));
    assert(ms.skip(8)[0] == ms[8]);
    ms.lemma_seq_skip_skip(8);
    assert(ms.skip(8).drop_first() == ms.skip(8).skip(1));
    assert(field_index("clientVersion"@) == 8) by {
        lemma_field_indices();
    }
    let c0 = c;
    let s0 = seen;
    let c1 = RecordView { server_default_role: r.server_default_role, ..c0 };
    assert(set_field(c0, 6, JVal::S(r.server_default_role)) == Some(c1));
    let s1 = s0.insert(6);
    assert(build_record(c0, s0, ms.skip(6)) == build_record(c1, s1, ms.skip(7)));
    let c2 = RecordView { server_ram: r.server_ram, ..c1 };
    assert(set_field(c1, 7, JVal::S(r.server_ram)) == Some(c2));
    let s2 = s1.insert(7);
    assert(build_record(c1, s1, ms.skip(7)) == build_record(c2, s2, ms.skip(8)));
    let c3 = RecordView { client_version: r.client_version, ..c2 };
    assert(set_field(c2, 8, JVal::S(r.client_version)) == Some(c3));
    let s3 = s2.insert(8);
    assert(build_record(c2, s2, ms.skip(8)) == build_record(c3, s3, ms.skip(9)));
    assert(c3 == (RecordView { server_default_role: r.server_default_role, server_ram: r.server_ram, client_version: r.client_version, ..c }));
}

#[verifier::rlimit(100)]
proof fn lemma_build_chunk_9(r: RecordView, c: RecordView, seen: Set<int>)
    ensures
        build_record(c, seen, record_members(r).skip(9)) == build_record(
            (RecordView { pull_client: r.pull_client, client_port: r.client_port, client_title: r.client_title, ..c }),
            seen.insert(9).insert(10).insert(11),
            record_members(r).skip(12),
        ),
{
    let ms = record_members(r);
    assert(ms.len() == 23);
    assert(ms[9] == ("pullClient"@, JVal::B(r.pull_client)));
    assert(ms.skip(9)[0] == ms[9]);
    ms.lemma_seq_skip_skip(9);
    assert(ms.skip(9).drop_first() == ms.skip(9).skip(1));
    assert(field_index("pullClient"@) == 9) by {
        lemma_field_indices();
    }
    assert(ms[10] == ("clientPort"@, JVal::S(r.client_port)));
    assert(ms.skip(10)[0] == ms[10]);
    ms.lemma_seq_skip_skip(10);
    assert(ms.skip(10).drop_first() == ms.skip(10).skip(1));
    assert(field_index("clientPort"@) == 10) by {
        lemma_field_indices();
    }
    assert(ms[11] == ("clientTitle"@, JVal::S(r.client_title)));
    assert(ms.skip(11)[0] == ms[11]);
    ms.lemma_seq_skip_skip(11);
    assert(ms.skip(11).drop_first() == ms.skip(11).skip(1));
    assert(field_index("clientTitle"@) == 11) by {
        lemma_field_indices();
    }
    let c0 = c;
    let s0 = seen;
    let c1 = RecordView { pull_client: r.pull_client, ..c0 };
    assert(set_field(c0, 9, JVal::B(r.pull_client)) == Some(c1));
    let s1 = s0.insert(9);
    assert(build_record(c0, s0, ms.skip(9)) == build_record(c1, s1, ms.skip(10)));
    let c2 = RecordView { client_port: r.client_port, ..c1 };
    assert(set_field(c1, 10, JVal::S(r.client_port)) == Some(c2));
    let s2 = s1.insert(10);
    assert(build_record(c1, s1, ms.skip(10)) == build_record(c2, s2, ms.skip(11)));
    let c3 = RecordView { client_title: r.client_title, ..c2 };
    assert(set_field(c2, 11, JVal::S(r.client_title)) == Some(c3));
    let s3 = s2.insert(11);
    assert(build_record(c2, s2, ms.skip(11)) == build_record(c3, s3, ms.skip(12)));
    assert(c3 == (RecordView { pull_client: r.pull_client, client_port: r.client_port, client_title: r.client_title, ..c }));
}

#[verifier::rlimit(100)]
proof fn lemma_build_chunk_12(r: RecordView, c: RecordView, seen: Set<int>)
    ensures
        build_record(c, seen, record_members(r).skip(12)) == build_record(
            (RecordView { database_version: r.database_version, pull_database: r.pull_database, data_dir: r.data_dir, ..c }),
            seen.insert(12).insert(13).insert(14),
            record_members(r).skip(15),
        ),
{
    let ms = record_members(r);
    assert(ms.len() == 23);
    assert(ms[12] == ("databaseVersion"@, JVal::S(r.database_version)));
    assert(ms.skip(12)[0] == ms[12]);
    ms.lemma_seq_skip_skip(12);
    assert(ms.skip(12).drop_first() == ms.skip(12).skip(1));
    assert(field_index("databaseVersion"@) == 12) by {
        lemma_field_indices();
    }
    assert(ms[13] == ("pullDatabase"@, JVal::B(r.pull_database)));
    assert(ms.skip(13)[0] == ms[13]);
    ms.lemma_seq_skip_skip(13);
    assert(ms.skip(13).drop_first() == ms.skip(13).skip(1));
    assert(field_index("pullDatabase"@) == 13) by {
        lemma_field_indices();
    }
    assert(ms[14] == ("dataDir"@, JVal::S(r.data_dir)));
    assert(ms.skip(14)[0] == ms[14]);
    ms.lemma_seq_skip_skip(14);
    assert(ms.skip(14).drop_first() == ms.skip(14).skip(1));
    assert(field_index("dataDir"@) == 14) by {
        lemma_field_indices();
    }
    let c0 = c;
    let s0 = seen;
    let c1 = RecordView { database_version: r.database_version, ..c0 };
    assert(set_field(c0, 12, JVal::S(r.database_version)) == Some(c1));
    let s1 = s0.insert(12);
    assert(build_record(c0, s0, ms.skip(12)) == build_record(c1, s1, ms.skip(13)));
    let c2 = RecordView { pull_database: r.pull_database, ..c1 };
    assert(set_field(c1, 13, JVal::B(r.pull_database)) == Some(c2));
    let s2 = s1.insert(13);
    assert(build_record(c1, s1, ms.skip(13)) == build_record(c2, s2, ms.skip(14)));
    let c3 = RecordView { data_dir: r.data_dir, ..c2 };
    assert(set_field(c2, 14, JVal::S(r.data_dir)) == Some(c3));
    let s3 = s2.insert(14);
    assert(build_record(c2, s2, ms.skip(14)) == build_record(c3, s3, ms.skip(15)));
    assert(c3 == (RecordView { database_version: r.database_version, pull_database: r.pull_database, data_dir: r.data_dir, ..c }));
}

#[verifier::rlimit(100)]
proof fn lemma_build_chunk_15(r: RecordView, c: RecordView, seen: Set<int>)
    ensures
        build_record(c, seen, record_members(r).skip(15)) == build_record(
            (RecordView { storage_dir: r.storage_dir, ssh_version: r.ssh_version, pull_ssh: r.pull_ssh, ..c }),
            seen.insert(15).insert(16).insert(17),
            record_members(r).skip(18),
        ),
{
    let ms = record_members(r);
    assert(ms.len() == 23);
    assert(ms[15] == ("storageDir"@, JVal::S(r.storage_dir)));
    assert(ms.skip(15)[0] == ms[15]);
    ms.lemma_seq_skip_skip(15);
    assert(ms.skip(15).drop_first() == ms.skip(15).skip(1));
    assert(field_index("storageDir"@) == 15) by {
        lemma_field_indices();
    }
    assert(ms[16] == ("sshVersion"@, JVal::S(r.ssh_version)));
    assert(ms.skip(16)[0] == ms[16]);
    ms.lemma_seq_skip_skip(16);
    assert(ms.skip(16).drop_first() == ms.skip(16).skip(1));
    assert(field_index("sshVersion"@) == 16) by {
        lemma_field_indices();
    }
    assert(ms[17] == ("pullSsh"@, JVal::B(r.pull_ssh)));
    assert(ms.skip(17)[0] == ms[17]);
    ms.lemma_seq_skip_skip(17);
    assert(ms.skip(17).drop_first() == ms.skip(17).skip(1));
    assert(field_index("pullSsh"@) == 17) by {
        lemma_field_indices();
    }
    let c0 = c;
    let s0 = seen;
    let c1 = RecordView { storage_dir: r.storage_dir, ..c0 };
    assert(set_field(c0, 15, JVal::S(r.storage_dir)) == Some(c1));
    let s1 = s0.insert(15);
    assert(build_record(c0, s0, ms.skip(15)) == build_record(c1, s1, ms.skip(16)));
    let c2 = RecordView { ssh_version: r.ssh_version, ..c1 };
    assert(set_field(c1, 16, JVal::S(r.ssh_version)) == Some(c2));
    let s2 = s1.insert(16);
    assert(build_record(c1, s1, ms.skip(16)) == build_record(c2, s2, ms.skip(17)));
    let c3 = RecordView { pull_ssh: r.pull_ssh, ..c2 };
    assert(set_field(c2, 17, JVal::B(r.pull_ssh)) == Some(c3));
    let s3 = s2.insert(17);
    assert(build_record(c2, s2, ms.skip(17)) == build_record(c3, s3, ms.skip(18)));
    assert(c3 == (RecordView { storage_dir: r.storage_dir, ssh_version: r.ssh_version, pull_ssh: r.pull_ssh, ..c }));
}

#[verifier::rlimit(100)]
proof fn lemma_build_chunk_18(r: RecordView, c: RecordView, seen: Set<int>)
    ensures
        build_record(c, seen, record_members(r).skip(18)) == build_record(
            (RecordView { ssh_port: r.ssh_port, cf_token: r.cf_token, ngrok_url: r.ngrok_url, ..c }),
            seen.insert(18).insert(19).insert(20),
            record_members(r).skip(21),
        ),
{
    let ms = record_members(r);
    assert(ms.len() == 23);
    assert(ms[18] == ("sshPort"@, JVal::S(r.ssh_port)));
    assert(ms.skip(18)[0] == ms[18]);
    ms.lemma_seq_skip_skip(18);
    assert(ms.skip(18).drop_first() == ms.skip(18).skip(1));
    assert(field_index("sshPort"@) == 18) by {
        lemma_field_indices();
    }
    assert(ms[19] == ("cfToken"@, JVal::S(r.cf_token)));
    assert(ms.skip(19)[0] == ms[19]);
    ms.lemma_seq_skip_skip(19);
    assert(ms.skip(19).drop_first() == ms.skip(19).skip(1));
    assert(field_index("cfToken"@) == 19) by {
        lemma_field_indices();
    }
    assert(ms[20] == ("ngrokUrl"@, JVal::S(r.ngrok_url)));
    assert(ms.skip(20)[0] == ms[20]);
    ms.lemma_seq_skip_skip(20);
    assert(ms.skip(20).drop_first() == ms.skip(20).skip(1));
    assert(field_index("ngrokUrl"@) == 20) by {
        lemma_field_indices();
    }
    let c0 = c;
    let s0 = seen;
    let c1 = RecordView { ssh_port: r.ssh_port, ..c0 };
    assert(set_field(c0, 18, JVal::S(r.ssh_port)) == Some(c1));
    let s1 = s0.insert(18);
    assert(build_record(c0, s0, ms.skip(18)) == build_record(c1, s1, ms.skip(19)));
    let c2 = RecordView { cf_token: r.cf_token, ..c1 };
    assert(set_field(c1, 19, JVal::S(r.cf_token)) == Some(c2));
    let s2 = s1.insert(19);
    assert(build_record(c1, s1, ms.skip(19)) == build_record(c2, s2, ms.skip(20)));
    let c3 = RecordView { ngrok_url: r.ngrok_url, ..c2 };
    assert(set_field(c2, 20, JVal::S(r.ngrok_url)) == Some(c3));
    let s3 = s2.insert(20);
    assert(build_record(c2, s2, ms.skip(20)) == build_record(c3, s3, ms.skip(21)));
    assert(c3 == (RecordView { ssh_port: r.ssh_port, cf_token: r.cf_token, ngrok_url: r.ngrok_url, ..c }));
}

#[verifier::rlimit(100)]
proof fn lemma_build_chunk_21(r: RecordView, c: RecordView, seen: Set<int>)
    ensures
        build_record(c, seen, record_members(r).skip(21)) == build_record(
            (RecordView { ngrok_token: r.ngrok_token, ..c }),
            seen.insert(21),
            record_members(r).skip(22),
        ),
{
    let ms = record_members(r);
    assert(ms.len() == 23);
    assert(ms[21] == ("ngrokToken"@, JVal::S(r.ngrok_token)));
    assert(ms.skip(21)[0] == ms[21]);
    ms.lemma_seq_skip_skip(21);
    assert(ms.skip(21).drop_first() == ms.skip(21).skip(1));
    assert(field_index("ngrokToken"@) == 21) by {
        lemma_field_indices();
    }
    let c0 = c;
    let s0 = seen;
    let c1 = RecordView { ngrok_token: r.ngrok_token, ..c0 };
    assert(set_field(c0, 21, JVal::S(r.ngrok_token)) == Some(c1));
    let s1 = s0.insert(21);
    assert(build_record(c0, s0, ms.skip(21)) == build_record(c1, s1, ms.skip(22)));
    assert(c1 == (RecordView { ngrok_token: r.ngrok_token, ..c }));
}

#[verifier::rlimit(100)]
proof fn lemma_build_chunk_22(r: RecordView, c: RecordView, seen: Set<int>)
    ensures
        build_record(c, seen, record_members(r).skip(22)) == build_record(
            (RecordView { show_logs_on_start: r.show_logs_on_start, ..c }),
            seen.insert(22),
            record_members(r).skip(23),
        ),
{
    let ms = record_members(r);
    assert(ms.len() == 23);
    assert(ms[22] == ("showLogsOnStart"@, JVal::B(r.show_logs_on_start)));
    assert(ms.skip(22)[0] == ms[22]);
    ms.lemma_seq_skip_skip(22);
    assert(ms.skip(22).drop_first() == ms.skip(22).skip(1));
    assert(field_index("showLogsOnStart"@) == 22) by {
        lemma_field_indices();
    }
    let c0 = c;
    let s0 = seen;
    let c1 = RecordView { show_logs_on_start: r.show_logs_on_start, ..c0 };
    assert(set_field(c0, 22, JVal::B(r.show_logs_on_start)) == Some(c1));
    let s1 = s0.insert(22);
    assert(build_record(c0, s0, ms.skip(22)) == build_record(c1, s1, ms.skip(23)));
    assert(c1 == (RecordView { show_logs_on_start: r.show_logs_on_start, ..c }));
}

#[verifier::rlimit(100)]
proof fn lemma_build_record_members(r: RecordView)
    ensures
        build_record(blank_record(), Set::empty(), record_members(r)) == Some(
            (persisted(r), all_fields()),
        ),
{
    let ms = record_members(r);
    assert(ms.len() == 23);
    assert(ms.skip(0) =~= ms);
    let c0 = blank_record();
    let s0 = Set::<int>::empty();
    lemma_build_chunk_0(r, c0, s0);
    let c1 = (RecordView { locale: r.locale, auto_update: r.auto_update, server_version: r.server_version, ..c0 });
    let s1 = s0.insert(0).insert(1).insert(2);
    assert(build_record(c0, s0, ms.skip(0)) == build_record(c1, s1, ms.skip(3)));
    lemma_build_chunk_3(r, c1, s1);
    let c2 = (RecordView { pull_server: r.pull_server, server_port: r.server_port, server_profiles: r.server_profiles, ..c1 });
    let s2 = s1.insert(3).insert(4).insert(5);
    assert(build_record(c1, s1, ms.skip(3)) == build_record(c2, s2, ms.skip(6)));
    lemma_build_chunk_6(r, c2, s2);
    let c3 = (RecordView { server_default_role: r.server_default_role, server_ram: r.server_ram, client_version: r.client_version, ..c2 });
    let s3 = s2.insert(6).insert(7).insert(8);
    assert(build_record(c2, s2, ms.skip(6)) == build_record(c3, s3, ms.skip(9)));
    lemma_build_chunk_9(r, c3, s3);
    let c4 = (RecordView { pull_client: r.pull_client, client_port: r.client_port, client_title: r.client_title, ..c3 });
    let s4 = s3.insert(9).insert(10).insert(11);
    assert(build_record(c3, s3, ms.skip(9)) == build_record(c4, s4, ms.skip(12)));
    lemma_build_chunk_12(r, c4, s4);
    let c5 = (RecordView { database_version: r.database_version, pull_database: r.pull_database, data_dir: r.data_dir, ..c4 });
    let s5 = s4.insert(12).insert(13).insert(14);
    assert(build_record(c4, s4, ms.skip(12)) == build_record(c5, s5, ms.skip(15)));
    lemma_build_chunk_15(r, c5, s5);
    let c6 = (RecordView { storage_dir: r.storage_dir, ssh_version: r.ssh_version, pull_ssh: r.pull_ssh, ..c5 });
    let s6 = s5.insert(15).insert(16).insert(17);
    assert(build_record(c5, s5, ms.skip(15)) == build_record(c6, s6, ms.skip(18)));
    lemma_build_chunk_18(r, c6, s6);
    let c7 = (RecordView { ssh_port: r.ssh_port, cf_token: r.cf_token, ngrok_url: r.ngrok_url, ..c6 });
    let s7 = s6.insert(18).insert(19).insert(20);
    assert(build_record(c6, s6, ms.skip(18)) == build_record(c7, s7, ms.skip(21)));
    lemma_build_chunk_21(r, c7, s7);
    let c8 = (RecordView { ngrok_token: r.ngrok_token, ..c7 });
    let s8 = s7.insert(21);
    assert(build_record(c7, s7, ms.skip(21)) == build_record(c8, s8, ms.skip(22)));
    lemma_build_chunk_22(r, c8, s8);
    let c9 = (RecordView { show_logs_on_start: r.show_logs_on_start, ..c8 });
    let s9 = s8.insert(22);
    assert(build_record(c8, s8, ms.skip(22)) == build_record(c9, s9, ms.skip(23)));
    assert(ms.skip(23).len() == 0);
    assert(build_record(c9, s9, ms.skip(23)) == Some((c9, s9)));
    assert(c9 == persisted(r));
    assert(s9 =~= all_fields());
}

#[verifier::rlimit(100)]
#[verifier::spinoff_prover]
proof fn lemma_parse_members_all(r: RecordView)
    ensures
        json_record(r).len() >= 1,
        json_record(r)[0] == '{',
        ps_members(json_record(r), 1) == Some(
            (record_members(r), json_record(r).len() as int),
        ),
{
    let s = json_record(r);
    let ms = record_members(r);
    lemma_json_record_doc(r);
    assert(s.skip(0) =~= s);
    lemma_skip_parts(s, 0, seq!['{'], members_doc(ms));
    assert(s[0] == '{');
    assert(ms.len() == 23);
    lemma_ps_members_doc(s, 1, ms);
}

/// Round trip: the persisted document of any record parses back to a record
/// equal in every persisted field; only the unpersisted location is blank,
/// and the loader restores it.
#[verifier::rlimit(100)]
#[verifier::spinoff_prover]
pub proof fn lemma_record_round_trip(r: RecordView)
    ensures
        parse_record_spec(json_record(r)) == Some(persisted(r)),
{
    let s = json_record(r);
    lemma_parse_members_all(r);
    assert(!is_ws('{'));
    assert(ps_ws(s, 0) == 0);
    assert(ps_ws(s, s.len() as int) == s.len());
    lemma_build_record_members(r);
    assert(parse_record_spec(s) == Some(persisted(r)));
}

/// First run writes the documented defaults; that document loads back to
/// the same record, so a second load returns equal fields and rewrites
/// nothing.
pub proof fn lemma_first_run_reload(dir: Seq<char>)
    ensures
        parse_record_spec(json_record(spec_default_record(dir))) == Some(
            persisted(spec_default_record(dir)),
        ),
{
    lemma_record_round_trip(spec_default_record(dir));
}

} // verus!
