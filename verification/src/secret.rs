//! The keyed hash that accompanies every account operation sent to the
//! identity provider.

use vstd::prelude::*;
use vstd::string::*;
use vstd::utf8::*;

verus! {

/// Inputs to the keyed hash stay below this many bytes.
pub const MAX_HASH_INPUT: u64 = 0x1000_0000_0000_0000;

/// Length in bytes of an HMAC-SHA256 tag.
pub const TAG_LEN: usize = 32;

/// The HMAC-SHA256 tag of `data` under `key`.
pub uninterp spec fn hmac_sha256_tag(key: Seq<u8>, data: Seq<u8>) -> Seq<u8>;

/// The padded base64 text of `bytes` in the standard alphabet.
pub uninterp spec fn base64_standard(bytes: Seq<u8>) -> Seq<char>;

/// Calls `ring::hmac::sign` with a key built by `ring::hmac::Key::new` for
/// `HMAC_SHA256`. Trusted: the tag returned is the HMAC-SHA256 of `data` under
/// `key`, and is 32 bytes long. ring panics once an input reaches 2^61 bytes,
/// which the precondition rules out.
#[verifier::external_body]
fn hmac_sha256(key: &[u8], data: &[u8]) -> (tag: Vec<u8>)
    requires
        key@.len() < MAX_HASH_INPUT,
        data@.len() < MAX_HASH_INPUT,
    ensures
        tag@ == hmac_sha256_tag(key@, data@),
        tag@.len() == TAG_LEN,
{
    let signing_key = ring::hmac::Key::new(ring::hmac::HMAC_SHA256, key);
    ring::hmac::sign(&signing_key, data).as_ref().to_vec()
}

/// Calls `base64::Engine::encode` on `general_purpose::STANDARD`. Trusted: the
/// string returned is the padded standard-alphabet base64 of `bytes`. The
/// engine panics when the encoded length does not fit in `usize`, which the
/// precondition rules out.
#[verifier::external_body]
fn base64_encode(bytes: &[u8]) -> (text: String)
    requires
        bytes@.len() <= 0x4000_0000,
    ensures
        text@ == base64_standard(bytes@),
{
    base64::Engine::encode(&base64::engine::general_purpose::STANDARD, bytes)
}

/// The message that is signed: the user name's bytes followed by the client
/// id's bytes.
pub open spec fn secret_hash_message(user_name: Seq<char>, client_id: Seq<char>) -> Seq<u8> {
    encode_utf8(user_name) + encode_utf8(client_id)
}

/// The secret hash of a user name for a client: base64 of the HMAC-SHA256 of
/// the user name followed by the client id, keyed by the client secret.
pub open spec fn secret_hash(
    client_secret: Seq<char>,
    user_name: Seq<char>,
    client_id: Seq<char>,
) -> Seq<char> {
    base64_standard(
        hmac_sha256_tag(encode_utf8(client_secret), secret_hash_message(user_name, client_id)),
    )
}

/// Whether the three inputs are short enough to be hashed.
pub open spec fn hashable(
    client_secret: Seq<char>,
    user_name: Seq<char>,
    client_id: Seq<char>,
) -> bool {
    &&& encode_utf8(client_secret).len() < MAX_HASH_INPUT
    &&& encode_utf8(user_name).len() + encode_utf8(client_id).len() < MAX_HASH_INPUT
}

/// Tells whether the three inputs are short enough to be hashed.
pub fn can_hash(client_secret: &str, user_name: &str, client_id: &str) -> (fits: bool)
    ensures
        fits == hashable(client_secret@, user_name@, client_id@),
{
    let secret_len = client_secret.as_bytes().len();
    let user_len = user_name.as_bytes().len();
    let client_len = client_id.as_bytes().len();
    let limit = MAX_HASH_INPUT as u128;
    let message_len = user_len as u128 + client_len as u128;
    (secret_len as u128) < limit && message_len < limit
}

/// The bytes of `user_name` followed by the bytes of `client_id`.
pub fn hash_message(user_name: &str, client_id: &str) -> (message: Vec<u8>)
    ensures
        message@ == secret_hash_message(user_name@, client_id@),
{
    let mut message: Vec<u8> = Vec::new();
    message.extend_from_slice(user_name.as_bytes());
    message.extend_from_slice(client_id.as_bytes());
    assert(message@ =~= secret_hash_message(user_name@, client_id@));
    message
}

/// Computes the secret hash the identity provider expects beside a user name.
pub fn generate_secret_hash(client_secret: &str, user_name: &str, client_id: &str) -> (hash:
    String)
    requires
        hashable(client_secret@, user_name@, client_id@),
    ensures
        hash@ == secret_hash(client_secret@, user_name@, client_id@),
{
    let message = hash_message(user_name, client_id);
    let tag = hmac_sha256(client_secret.as_bytes(), message.as_slice());
    base64_encode(tag.as_slice())
}

} // verus!
