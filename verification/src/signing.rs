//! Signing a request for the venue: HMAC with SHA-256 over the exact bytes
//! of the query, written in lowercase hexadecimal.

use hmac::{Hmac, Mac};
use sha2::Sha256;
use vstd::prelude::*;

verus! {

/// The HMAC-SHA256 authentication code of a message under a key.
pub uninterp spec fn hmac_sha256(key: Seq<u8>, message: Seq<u8>) -> Seq<u8>;

/// Bytes in an HMAC-SHA256 authentication code.
pub const CODE_BYTES: usize = 32;

/// The lowercase hexadecimal digit of a value below sixteen.
pub open spec fn hex_digit(value: int) -> char {
    if value < 10 {
        (48 + value) as char
    } else {
        (87 + value) as char
    }
}

/// Two lowercase hexadecimal digits for each byte, the high half first.
pub open spec fn hex_text(bytes: Seq<u8>) -> Seq<char> {
    Seq::new(
        2 * bytes.len(),
        |i: int|
            if i % 2 == 0 {
                hex_digit(bytes[i / 2] as int / 16)
            } else {
                hex_digit(bytes[i / 2] as int % 16)
            },
    )
}

/// The signature of a query under a secret, as the venue recomputes it.
pub open spec fn signature_text(query: Seq<char>, secret: Seq<char>) -> Seq<char> {
    hex_text(hmac_sha256(vstd::utf8::encode_utf8(secret), vstd::utf8::encode_utf8(query)))
}

/// Computes the authentication code with the `hmac` crate's `Hmac<Sha256>`:
/// `new_from_slice` on the key, which accepts a key of any length, `update`
/// on the message, then `finalize` and `into_bytes`. The result is the
/// HMAC-SHA256 code of the message under the key, thirty-two bytes long.
#[verifier::external_body]
fn authentication_code(key: &[u8], message: &[u8]) -> (code: Vec<u8>)
    ensures
        code@ == hmac_sha256(key@, message@),
        code@.len() == CODE_BYTES,
{
    let mut mac = Hmac::<Sha256>::new_from_slice(key).expect("a key of any length");
    mac.update(message);
    mac.finalize().into_bytes().to_vec()
}

/// Writes bytes with `hex::encode`: two lowercase hexadecimal digits for
/// each byte, the high half first.
#[verifier::external_body]
fn hex_encode(bytes: &[u8]) -> (text: String)
    ensures
        text@ == hex_text(bytes@),
{
    hex::encode(bytes)
}

/// Signs a query with the venue's secret.
///
/// The signature is the HMAC-SHA256 code of the query's bytes under the
/// secret's bytes, in sixty-four lowercase hexadecimal digits.
pub fn sign_query(query: &str, secret: &str) -> (signature: String)
    ensures
        signature@ == signature_text(query@, secret@),
        signature@.len() == 2 * CODE_BYTES,
{
    let code = authentication_code(secret.as_bytes(), query.as_bytes());
    hex_encode(code.as_slice())
}

/// The query with its signature appended as the last parameter.
pub open spec fn signed_text(query: Seq<char>, secret: Seq<char>) -> Seq<char> {
    query + "&signature="@ + signature_text(query, secret)
}

/// Appends the signature of a query to it as the parameter `signature`.
pub fn sign_and_append(query: String, secret: &str) -> (signed: String)
    ensures
        signed@ == signed_text(query@, secret@),
{
    let signature = sign_query(query.as_str(), secret);
    let mut signed = query;
    signed.append("&signature=");
    signed.append(signature.as_str());
    signed
}

} // verus!
