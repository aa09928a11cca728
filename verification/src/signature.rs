//! Webhook signatures: HMAC-SHA256 of the body under the shared secret, in
//! hexadecimal.

use axum::http::HeaderMap;
use vstd::prelude::*;
use vstd::string::*;
use vstd::utf8::encode_utf8;

use crate::outside::{
    compute_hmac_sha256, header_fields, header_text, header_value_text, hmac_sha256, is_header_name,
};
use crate::text::{digit, hex_digit, join2, same_text};

verus! {

/// The hexadecimal form of a byte string: two lower-case digits a byte, the
/// higher four bits first.
pub open spec fn hex_text(bytes: Seq<u8>) -> Seq<char> {
    Seq::new(
        2 * bytes.len(),
        |i: int|
            if i % 2 == 0 {
                digit(bytes[i / 2] as int / 16)
            } else {
                digit(bytes[i / 2] as int % 16)
            },
    )
}

/// Writes a byte string in hexadecimal.
pub fn hex_encode(bytes: &[u8]) -> (text: String)
    ensures
        text@ == hex_text(bytes@),
{
    let mut text = String::new();
    let mut i: usize = 0;
    while i < bytes.len()
        invariant
            i <= bytes@.len(),
            text@ == hex_text(bytes@.take(i as int)),
        decreases bytes@.len() - i,
    {
        let byte: u8 = bytes[i];
        text.push(hex_digit(byte / 16));
        text.push(hex_digit(byte % 16));
        i += 1;
        assert(text@ =~= hex_text(bytes@.take(i as int)));
    }
    assert(bytes@.take(i as int) =~= bytes@);
    text
}

/// Law: different byte strings have different hexadecimal forms.
pub proof fn hex_text_is_injective(a: Seq<u8>, b: Seq<u8>)
    requires
        hex_text(a) == hex_text(b),
    ensures
        a == b,
{
    assert(hex_text(a).len() == 2 * a.len());
    assert(hex_text(b).len() == 2 * b.len());
    assert forall|i: int| 0 <= i < a.len() implies a[i] == b[i] by {
        assert((2 * i) / 2 == i && (2 * i) % 2 == 0);
        assert((2 * i + 1) / 2 == i && (2 * i + 1) % 2 == 1);
        assert(hex_text(a)[2 * i] == digit(a[i] as int / 16));
        assert(hex_text(b)[2 * i] == digit(b[i] as int / 16));
        assert(hex_text(a)[2 * i + 1] == digit(a[i] as int % 16));
        assert(hex_text(b)[2 * i + 1] == digit(b[i] as int % 16));
        digits_are_distinct(a[i] as int / 16, b[i] as int / 16);
        digits_are_distinct(a[i] as int % 16, b[i] as int % 16);
    }
    assert(a =~= b);
}

proof fn digits_are_distinct(a: int, b: int)
    requires
        0 <= a < 16,
        0 <= b < 16,
        digit(a) == digit(b),
    ensures
        a == b,
{
}

/// The signature header that belongs to an authentication tag.
pub open spec fn signature_text(tag: Seq<u8>) -> Seq<char> {
    "sha256="@ + hex_text(tag)
}

/// Whether a signature header belongs to an authentication tag.
pub fn signature_matches(tag: &[u8], signature: &str) -> (matching: bool)
    ensures
        matching == (signature@ == signature_text(tag@)),
{
    let expected = join2("sha256=", hex_encode(tag).as_str());
    same_text(expected.as_str(), signature)
}

/// Why a webhook's signature is refused.
#[derive(Clone, Copy, Debug, PartialEq, Eq, Structural)]
pub enum SignatureError {
    Missing,
    KeyRefused,
    Mismatch,
}

impl SignatureError {
    /// Describes the error.
    pub fn message(&self) -> (message: &'static str)
        ensures
            message@ == match self {
                SignatureError::Missing => "missing signature"@,
                SignatureError::KeyRefused => "Invalid Length"@,
                SignatureError::Mismatch => "signature mismatch"@,
            },
    {
        match self {
            SignatureError::Missing => "missing signature",
            SignatureError::KeyRefused => "Invalid Length",
            SignatureError::Mismatch => "signature mismatch",
        }
    }
}

/// The verdict on a signature header, for a body under a secret.
pub open spec fn signature_verdict(
    secret: Seq<char>,
    signature: Option<Seq<char>>,
    body: Seq<u8>,
) -> Result<(), SignatureError> {
    match signature {
        None => Err(SignatureError::Missing),
        Some(signature) => if signature == signature_text(hmac_sha256(encode_utf8(secret), body)) {
            Ok(())
        } else {
            Err(SignatureError::Mismatch)
        },
    }
}

/// Checks the signature of a webhook: the header has to hold the tag of the body
/// under the secret.
pub fn validate_signature(secret: &str, headers: &HeaderMap, body: &[u8]) -> (verdict: Result<
    (),
    SignatureError,
>)
    ensures
        verdict == signature_verdict(
            secret@,
            header_value_text(header_fields(*headers), "x-hub-signature-256"@),
            body@,
        ),
{
    proof {
        reveal_strlit("x-hub-signature-256");
        assert(is_header_name("x-hub-signature-256"@));
    }
    let signature = match header_text(headers, "x-hub-signature-256") {
        Some(signature) => signature,
        None => {
            return Err(SignatureError::Missing);
        },
    };
    match compute_hmac_sha256(secret.as_bytes(), body) {
        Ok(tag) => if signature_matches(tag.as_slice(), signature.as_str()) {
            Ok(())
        } else {
            Err(SignatureError::Mismatch)
        },
        Err(_) => Err(SignatureError::KeyRefused),
    }
}

/// Law: the hexadecimal form of a byte string spells each byte by its two digits, the
/// higher four bits first.
pub proof fn hex_text_spells_each_byte(bytes: Seq<u8>, i: int)
    requires
        0 <= i < bytes.len(),
    ensures
        hex_text(bytes).len() == 2 * bytes.len(),
        hex_text(bytes)[2 * i] == digit(bytes[i] as int / 16),
        hex_text(bytes)[2 * i + 1] == digit(bytes[i] as int % 16),
{
    assert((2 * i) / 2 == i && (2 * i) % 2 == 0);
    assert((2 * i + 1) / 2 == i && (2 * i + 1) % 2 == 1);
}

/// Law: a signature is accepted exactly where it is `sha256=` and the hexadecimal form
/// of the tag of the whole body under the secret.
pub proof fn signature_is_that_of_the_body(
    secret: Seq<char>,
    signature: Option<Seq<char>>,
    body: Seq<u8>,
)
    ensures
        signature_verdict(secret, signature, body) is Ok <==> signature == Some(
            "sha256="@ + hex_text(hmac_sha256(encode_utf8(secret), body)),
        ),
        signature_verdict(secret, signature, body) == Err::<(), SignatureError>(
            SignatureError::Missing,
        ) <==> signature is None,
        signature is Some && signature_verdict(secret, signature, body) is Err
            ==> signature_verdict(secret, signature, body) == Err::<(), SignatureError>(
            SignatureError::Mismatch,
        ),
{
}

} // verus!
