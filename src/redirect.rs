//! The redirect target: the caller's URL with the token and its signature
//! appended as query parameters, as given and without escaping.
use vstd::prelude::*;
use crate::signer::hex_of;
use crate::signer::signature_to_hex;

verus! {

/// `url?request-token=<token>&signature=<signature>`.
pub open spec fn redirect_target(url: Seq<char>, token: Seq<char>, signature: Seq<char>) -> Seq<char> {
    url + "?request-token="@ + token + "&signature="@ + signature
}

/// Appends the token and the signature's hex text to the URL.
pub fn compose_redirect(url: &str, token: &str, signature_hex: &str) -> (r: String)
    ensures
        r@ == redirect_target(url@, token@, signature_hex@),
{
    let mut target = String::from_str(url);
    target.append("?request-token=");
    target.append(token);
    target.append("&signature=");
    target.append(signature_hex);
    target
}

/// Appends the token and the signature, given as its 64 bytes, to the URL.
pub fn redirect_for_signature(url: &str, token: &str, signature: &[u8; 64]) -> (r: String)
    ensures
        r@ == redirect_target(url@, token@, hex_of(signature@)),
{
    let signature_hex = signature_to_hex(signature);
    compose_redirect(url, token, signature_hex.as_str())
}

} // verus!
