use vstd::prelude::*;
use crate::codec::escape_chars;
use crate::codec::push_escaped;
use crate::codec::push_str_chars;
use crate::codec::string_from_chars;
use vstd::utf8::encode_utf8;
use hmac::Mac;
use base64::Engine;

verus! {

/// The standard base64 encoding (with padding) of a byte sequence.
pub uninterp spec fn b64std_of(b: Seq<u8>) -> Seq<char>;

/// What standard base64 decoding yields on a byte sequence: the decoded
/// bytes, or nothing when the input is not valid base64.
pub uninterp spec fn b64std_decode_of(b: Seq<u8>) -> Option<Seq<u8>>;

/// The URL-safe, unpadded base64 encoding of a byte sequence.
pub uninterp spec fn b64url_of(b: Seq<u8>) -> Seq<char>;

/// The HMAC-SHA-512 authentication code of a message under a key.
pub uninterp spec fn hmac_sha512_of(key: Seq<u8>, msg: Seq<u8>) -> Seq<u8>;

/// Relies on rand's `random`: one byte from the thread-local
/// cryptographically secure generator. Nothing can be promised of its value.
#[verifier::external_body]
fn random_byte() -> u8 {
    rand::random::<u8>()
}

/// Relies on base64's `Engine::encode` with the `STANDARD` engine: the
/// result is a function of the input bytes alone.
#[verifier::external_body]
fn b64std_encode(b: &[u8]) -> (r: String)
    ensures
        r@ == b64std_of(b@),
{
    base64::engine::general_purpose::STANDARD.encode(b)
}

/// Relies on base64's `Engine::decode` with the `STANDARD` engine: it
/// succeeds exactly on valid base64 and its result is a function of the
/// input bytes alone.
#[verifier::external_body]
fn b64std_decode(b: &[u8]) -> (r: Option<Vec<u8>>)
    ensures
        (r is Some) == (b64std_decode_of(b@) is Some),
        (r matches Some(v) ==> b64std_decode_of(b@) == Some(v@)),
{
    base64::engine::general_purpose::STANDARD.decode(b).ok()
}

/// Relies on base64's `Engine::encode` with the `URL_SAFE_NO_PAD` engine:
/// the result is a function of the input bytes alone, and its alphabet
/// (letters, digits, `-` and `_`) never contains a `.`.
#[verifier::external_body]
fn b64url_encode(b: &[u8]) -> (r: String)
    ensures
        r@ == b64url_of(b@),
        (forall|i: int| 0 <= i < r@.len() ==> r@[i] != '.'),
{
    base64::engine::general_purpose::URL_SAFE_NO_PAD.encode(b)
}

/// Relies on hmac's `Hmac` over sha2's `Sha512`: the 64-byte authentication
/// code is a function of key and message alone; any key length is accepted.
#[verifier::external_body]
fn hmac_sha512(key: &[u8], msg: &[u8]) -> (r: Vec<u8>)
    ensures
        r@ == hmac_sha512_of(key@, msg@),
        r@.len() == 64,
{
    let mut mac = <hmac::Hmac<sha2::Sha512> as Mac>::new_from_slice(key).unwrap();
    mac.update(msg);
    mac.finalize().into_bytes().to_vec()
}

/// A session key is the standard base64 encoding of 128 bytes.
pub open spec fn is_session_key(k: Seq<char>) -> bool {
    exists|b: Seq<u8>| b.len() == 128 && k == b64std_of(b)
}

/// Returns a fresh session signing secret: 128 cryptographically random
/// bytes, standard-base64 encoded.
pub fn generate_jwt_key() -> (k: String)
    ensures
        is_session_key(k@),
{
    let mut bytes: Vec<u8> = Vec::new();
    while bytes.len() < 128
        invariant
            bytes@.len() <= 128,
        decreases 128 - bytes@.len(),
    {
        let b = random_byte();
        bytes.push(b);
    }
    let k = b64std_encode(bytes.as_slice());
    proof {
        assert(bytes@.len() == 128 && k@ == b64std_of(bytes@));
    }
    k
}

/// The fixed token header: algorithm HMAC-SHA-512, type JWT.
pub open spec fn header_json() -> Seq<char> {
    "{\"alg\":\"HS512\",\"typ\":\"JWT\"}"@
}

/// The token payload: empty audience, the given subject, the fixed
/// administrator role claim, keys in sorted order.
pub open spec fn payload_json(sub: Seq<char>) -> Seq<char> {
    "{\"aud\":\"\",\"auth\":\"ROLE_ADMIN\",\"sub\":\""@ + escape_chars(sub) + "\"}"@
}

/// The signed part of a token: base64url header, a dot, base64url payload.
pub open spec fn token_body(sub: Seq<char>) -> Seq<char> {
    b64url_of(encode_utf8(header_json())) + "."@ + b64url_of(encode_utf8(payload_json(sub)))
}

/// The key bytes a token is signed with: the base64-decoded key, degraded
/// to the empty key when the key is not valid base64.
pub open spec fn token_key_bytes(key: Seq<char>) -> Seq<u8> {
    match b64std_decode_of(encode_utf8(key)) {
        Some(b) => b,
        None => Seq::empty(),
    }
}

/// A token's signature bytes.
pub open spec fn token_sig(sub: Seq<char>, key: Seq<char>) -> Seq<u8> {
    hmac_sha512_of(token_key_bytes(key), encode_utf8(token_body(sub)))
}

/// The complete session token for a subject under a key.
pub open spec fn token_of(sub: Seq<char>, key: Seq<char>) -> Seq<char> {
    token_body(sub) + "."@ + b64url_of(token_sig(sub, key))
}

/// Issues the signed session token asserting the given subject under the
/// given base64 session key.
pub fn generate_token(user_tag: &str, secret: &str) -> (t: String)
    ensures
        t@ == token_of(user_tag@, secret@),
{
    let header_b64 = b64url_encode("{\"alg\":\"HS512\",\"typ\":\"JWT\"}".as_bytes());

    let mut pc: Vec<char> = Vec::new();
    push_str_chars(&mut pc, "{\"aud\":\"\",\"auth\":\"ROLE_ADMIN\",\"sub\":\"");
    push_escaped(&mut pc, user_tag);
    push_str_chars(&mut pc, "\"}");
    let payload = string_from_chars(&pc);
    proof {
        assert(payload@ =~= payload_json(user_tag@));
    }
    let payload_b64 = b64url_encode(payload.as_str().as_bytes());

    let mut body = header_b64;
    body.append(".");
    body.append(payload_b64.as_str());
    proof {
        assert(body@ =~= token_body(user_tag@));
    }

    let key_bytes = match b64std_decode(secret.as_bytes()) {
        Some(v) => v,
        None => Vec::new(),
    };
    let sig = hmac_sha512(key_bytes.as_slice(), body.as_str().as_bytes());
    let sig_b64 = b64url_encode(sig.as_slice());

    let mut t = body;
    t.append(".");
    t.append(sig_b64.as_str());
    proof {
        assert(t@ =~= token_of(user_tag@, secret@));
    }
    t
}

/// Token issuance is deterministic: the same subject and key give the same
/// token, character for character.
pub proof fn lemma_token_deterministic(s1: Seq<char>, s2: Seq<char>, k1: Seq<char>, k2: Seq<char>)
    requires
        s1 == s2,
        k1 == k2,
    ensures
        token_of(s1, k1) == token_of(s2, k2),
{
}

/// The header and payload segments of a token do not depend on the key:
/// tokens for the same subject under any two keys agree on everything up to
/// and including the dot that precedes the signature. Since a base64url
/// segment never contains a dot, that shared prefix holds exactly the first
/// two dot-separated segments.
pub proof fn lemma_token_key_independent_prefix(sub: Seq<char>, k1: Seq<char>, k2: Seq<char>)
    ensures
        token_of(sub, k1).take(token_body(sub).len() as int + 1) == token_of(sub, k2).take(
            token_body(sub).len() as int + 1,
        ),
        token_of(sub, k1).take(token_body(sub).len() as int + 1) == token_body(sub) + "."@,
{
    reveal_strlit(".");
    assert(token_of(sub, k1).take(token_body(sub).len() as int + 1) =~= token_body(sub) + "."@);
    assert(token_of(sub, k2).take(token_body(sub).len() as int + 1) =~= token_body(sub) + "."@);
}

} // verus!
