//! Authentication of a webhook request: the sender signs the raw body with
//! HMAC-SHA256 under a shared secret and sends the code as hexadecimal text.

use crate::hexadecimal::{decoded, encoded, from_hex, lemma_decoded_encoded};
use crypto::hmac::Hmac;
use crypto::mac::Mac;
use crypto::sha2::Sha256;
use vstd::prelude::*;
use vstd::string::*;
use vstd::utf8::encode_utf8;

verus! {

/// The length in bytes of an HMAC-SHA256 code.
pub const CODE_LEN: usize = 32;

/// The name of the header that carries the signature of the body.
pub const SIGNATURE_HEADER: &'static str = "X-LD-Signature";

/// What the handler reads of an inbound HTTP request.
#[derive(Debug, Clone, PartialEq, Eq)]
pub struct Request {
    /// The value of the `X-LD-Signature` header, where the request has one.
    pub signature: Option<String>,
    /// The raw bytes of the body, exactly as they were received.
    pub body: Vec<u8>,
}

/// The HMAC-SHA256 code of `message` under `key`.
pub uninterp spec fn hmac_sha256(key: Seq<u8>, message: Seq<u8>) -> Seq<u8>;

/// A signature header as the text it holds.
pub open spec fn header_text(signature: Option<&str>) -> Option<Seq<char>> {
    match signature {
        Some(text) => Some(text@),
        None => None,
    }
}

/// Whether a signature header states `code`: it is present, it is hexadecimal
/// text, and the bytes it stands for are not empty and are exactly `code`.
pub open spec fn claims(signature: Option<Seq<char>>, code: Seq<u8>) -> bool {
    match signature {
        None => false,
        Some(text) => match decoded(text) {
            None => false,
            Some(claimed) => claimed.len() > 0 && claimed == code,
        },
    }
}

/// Whether `signature` authenticates `body` under `key`.
pub open spec fn accepted(body: Seq<u8>, key: Seq<u8>, signature: Option<Seq<char>>) -> bool {
    claims(signature, hmac_sha256(key, body))
}

/// Runs `crypto::hmac::Hmac` over `crypto::sha2::Sha256`: a fresh instance
/// keyed with `key` takes `message` as its only input and gives its code.
///
/// Trusted: the code is the HMAC-SHA256 of `message` under `key`, a function
/// of the two alone, and it is 32 bytes long.
#[verifier::external_body]
pub(crate) fn mac_code(key: &[u8], message: &[u8]) -> (code: Vec<u8>)
    ensures
        code@ == hmac_sha256(key@, message@),
        code@.len() == CODE_LEN,
{
    let mut mac = Hmac::new(Sha256::new(), key);
    mac.input(message);
    mac.result().code().to_vec()
}

/// Calls `crypto::util::fixed_time_eq`, which compares two byte strings in a
/// number of steps that depends on their length only.
///
/// Trusted: the answer is whether the two hold the same bytes. Two empty
/// strings are left out: the outside function reads the first byte of each
/// once the lengths agree.
#[verifier::external_body]
pub(crate) fn fixed_time_eq(lhs: &[u8], rhs: &[u8]) -> (equal: bool)
    requires
        lhs@.len() > 0 || rhs@.len() > 0,
    ensures
        equal == (lhs@ == rhs@),
{
    crypto::util::fixed_time_eq(lhs, rhs)
}

/// Decides whether the signature header states the expected `code`.
///
/// A missing header, text that is not hexadecimal and an empty signature all
/// state nothing. The bytes are compared in fixed time.
pub fn signature_matches(signature: Option<&str>, code: &[u8]) -> (ok: bool)
    ensures
        ok == claims(header_text(signature), code@),
{
    match signature {
        None => false,
        Some(text) => match from_hex(text) {
            None => false,
            Some(claimed) => {
                if claimed.len() == 0 {
                    false
                } else {
                    fixed_time_eq(claimed.as_slice(), code)
                }
            },
        },
    }
}

/// Decides whether `signature` authenticates `body` under `secret`.
///
/// The request is authentic exactly when the header holds the hexadecimal
/// text of the HMAC-SHA256 code of the raw body. Everything else fails
/// closed: no header, text that is not hexadecimal, a code of another length
/// than 32 bytes, another code.
pub fn verify(body: &[u8], secret: &[u8], signature: Option<&str>) -> (ok: bool)
    ensures
        ok == accepted(body@, secret@, header_text(signature)),
        signature is None ==> !ok,
        signature matches Some(text) && decoded(text@) is None ==> !ok,
        signature matches Some(text) && decoded(text@) matches Some(claimed) && claimed.len()
            != CODE_LEN ==> !ok,
        signature matches Some(text) && text@ == encoded(hmac_sha256(secret@, body@)) ==> ok,
{
    let code = mac_code(secret, body);
    proof {
        lemma_decoded_encoded(code@);
    }
    signature_matches(signature, code.as_slice())
}

/// Decides whether `request` was sent by a holder of `secret`.
pub fn authenticated(request: &Request, secret: &str) -> (ok: bool)
    ensures
        ok == accepted(request.body@, encode_utf8(secret@), request.signature_text()),
{
    let signature = match &request.signature {
        Some(text) => Some(text.as_str()),
        None => None,
    };
    verify(request.body.as_slice(), secret.as_bytes(), signature)
}

impl Request {
    /// The signature header as the text it holds.
    pub open spec fn signature_text(&self) -> Option<Seq<char>> {
        match self.signature {
            Some(text) => Some(text@),
            None => None,
        }
    }
}

} // verus!
