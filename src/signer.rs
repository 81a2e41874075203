//! Ed25519 signing of request tokens, and the hex form of a signature.
use vstd::prelude::*;
use vstd::utf8::encode_utf8;

verus! {

/// The 64 bytes of the Ed25519 signature of `message` under the 32-byte
/// secret key `key`.
pub uninterp spec fn ed25519_signature_of(key: Seq<u8>, message: Seq<u8>) -> Seq<u8>;

/// The lower-case hexadecimal digit for a value below 16.
pub open spec fn hex_digit(n: u8) -> char {
    seq!['0', '1', '2', '3', '4', '5', '6', '7', '8', '9', 'a', 'b', 'c', 'd', 'e', 'f'][n as int]
}

/// Two lower-case hexadecimal digits for each byte, the high half first.
pub open spec fn hex_of(bytes: Seq<u8>) -> Seq<char> {
    Seq::new(
        2 * bytes.len(),
        |i: int|
            if i % 2 == 0 {
                hex_digit(bytes[i / 2] / 16)
            } else {
                hex_digit(bytes[i / 2] % 16)
            },
    )
}

/// The hex text of the signature of the UTF-8 bytes of `token` under `key`.
pub open spec fn token_signature_hex(key: Seq<u8>, token: Seq<char>) -> Seq<char> {
    hex_of(ed25519_signature_of(key, encode_utf8(token)))
}

/// Relies on ed25519_dalek's `SigningKey::from_bytes` and `Signer::sign`:
/// Ed25519 signing (RFC 8032) draws no randomness, so the signature is a
/// function of the key and the message alone; it cannot fail.
#[verifier::external_body]
fn ed25519_sign(key: &[u8; 32], message: &[u8]) -> (r: [u8; 64])
    ensures
        r@ == ed25519_signature_of(key@, message@),
{
    let signing_key = ed25519_dalek::SigningKey::from_bytes(key);
    ed25519_dalek::Signer::sign(&signing_key, message).to_bytes()
}

/// Relies on hex::encode: two lower-case digits for each byte, high half first.
#[verifier::external_body]
fn hex_encode(bytes: &[u8]) -> (r: String)
    ensures
        r@ == hex_of(bytes@),
{
    hex::encode(bytes)
}

/// The hex text of a signature, as it travels in a URL.
pub fn signature_to_hex(signature: &[u8; 64]) -> (r: String)
    ensures
        r@ == hex_of(signature@),
        r@.len() == 128,
{
    hex_encode(signature.as_slice())
}

/// Signs the raw bytes of `token` with `key`.
pub fn sign_token(key: &[u8; 32], token: &str) -> (r: [u8; 64])
    ensures
        r@ == ed25519_signature_of(key@, encode_utf8(token@)),
{
    ed25519_sign(key, token.as_bytes())
}

/// Signs the raw bytes of `token` with `key` and gives the signature in hex.
pub fn sign_token_hex(key: &[u8; 32], token: &str) -> (r: String)
    ensures
        r@ == token_signature_hex(key@, token@),
{
    let signature = sign_token(key, token);
    signature_to_hex(&signature)
}

/// Signing is deterministic: tokens with the same bytes, signed with the
/// same key, get the same signature, whenever and however often they are
/// signed.
pub proof fn lemma_signing_deterministic(key: Seq<u8>, token: Seq<char>, again: Seq<char>)
    requires
        encode_utf8(token) == encode_utf8(again),
    ensures
        token_signature_hex(key, token) == token_signature_hex(key, again),
{
}

} // verus!
