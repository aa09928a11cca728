//! Calls into other crates, and into parts of std that carry no contract of
//! their own. Nothing in this file is proved: each item states what the function
//! that it calls returns.

use axum::http::HeaderMap;
use hmac::Mac;
use vstd::arithmetic::power::pow;
use vstd::prelude::*;
use vstd::utf8::{decode_utf8, valid_utf8};

use crate::text::{digit, is_white_space, opt_text};
use crate::time::Timestamp;

verus! {

/// The error of `hmac::Mac::new_from_slice`, from the crate `digest`.
#[verifier::external_type_specification]
#[verifier::external_body]
pub struct ExInvalidLength(hmac::digest::InvalidLength);

/// The error of `regex::Regex::new`.
#[verifier::external_type_specification]
#[verifier::external_body]
pub struct ExRegexError(regex::Error);

/// The headers of an HTTP request, as the crate `http` keeps them.
#[verifier::external_type_specification]
#[verifier::external_body]
#[verifier::reject_recursive_types(T)]
pub struct ExHeaderMap<T>(axum::http::HeaderMap<T>);

/// The value of one header, from the crate `http`.
#[verifier::external_type_specification]
#[verifier::external_body]
pub struct ExHeaderValue(axum::http::HeaderValue);

/// `String::push` of std: appends one character at the end.
pub assume_specification[ String::push ](s: &mut String, c: char)
    ensures
        final(s)@ == old(s)@.push(c),
;

/// `char::is_whitespace` of std: whether the character has the Unicode property
/// `White_Space`, whose members [`is_white_space`] lists.
pub assume_specification[ char::is_whitespace ](c: char) -> (white: bool)
    ensures
        white == is_white_space(c),
;

/// The text that std's `Debug` of `str` writes: the string in double quotes,
/// with special characters escaped.
pub uninterp spec fn debug_form(s: Seq<char>) -> Seq<char>;

/// `format!("{:?}", ..)` of std on a string slice. The result depends on the
/// string alone and is named [`debug_form`]; which characters are escaped, and
/// how, is left unsaid.
#[verifier::external_body]
pub(crate) fn format_debug(s: &str) -> (form: String)
    ensures
        form@ == debug_form(s@),
{
    format!("{:?}", s)
}

/// The text that `String::from_utf8_lossy` makes of a byte string.
pub uninterp spec fn utf8_lossy(bytes: Seq<u8>) -> Seq<char>;

/// `String::from_utf8_lossy` of std. The result depends on the bytes alone and
/// is named [`utf8_lossy`]; valid UTF-8 is decoded as it is. What stands for
/// invalid bytes is left unsaid.
#[verifier::external_body]
pub(crate) fn decode_utf8_lossy(bytes: &[u8]) -> (text: String)
    ensures
        text@ == utf8_lossy(bytes@),
        valid_utf8(bytes@) ==> text@ == decode_utf8(bytes@),
{
    String::from_utf8_lossy(bytes).into_owned()
}

/// The HMAC-SHA256 tag of a message under a key.
pub uninterp spec fn hmac_sha256(key: Seq<u8>, message: Seq<u8>) -> Seq<u8>;

/// `Hmac::<Sha256>::new_from_slice`, `update` and `finalize` of the crates `hmac`
/// and `sha2`, in this order. A key of any length is taken, so there is no error;
/// the tag depends on the key and the message alone, is named [`hmac_sha256`],
/// and has the 32 bytes of a SHA-256 digest.
#[verifier::external_body]
pub(crate) fn compute_hmac_sha256(key: &[u8], message: &[u8]) -> (tag: Result<
    Vec<u8>,
    hmac::digest::InvalidLength,
>)
    ensures
        tag is Ok,
        tag->Ok_0@ == hmac_sha256(key@, message@),
        tag->Ok_0@.len() == 32,
{
    let mut mac = hmac::Hmac::<sha2::Sha256>::new_from_slice(key)?;
    mac.update(message);
    Ok(mac.finalize().into_bytes().to_vec())
}

/// Whether `c` is a lower-case hexadecimal digit.
pub open spec fn is_lower_hex(c: char) -> bool {
    '0' as int <= c as int <= '9' as int || 'a' as int <= c as int <= 'f' as int
}

/// Whether `s` starts with `sha256:` and 64 lower-case hexadecimal digits.
pub open spec fn starts_with_digest(s: Seq<char>) -> bool {
    &&& s.len() >= 71
    &&& "sha256:"@.is_prefix_of(s)
    &&& forall|i: int| 7 <= i < 71 ==> is_lower_hex(#[trigger] s[i])
}

/// The leftmost `sha256:` followed by 64 lower-case hexadecimal digits.
pub open spec fn first_digest(s: Seq<char>) -> Option<Seq<char>>
    decreases s.len(),
{
    if s.len() == 0 {
        None
    } else if starts_with_digest(s) {
        Some(s.take(71))
    } else {
        first_digest(s.skip(1))
    }
}

/// `Regex::new` and `Regex::find` of the crate `regex`, for the one pattern in
/// `requires`: the pattern is valid, and its leftmost match is the leftmost
/// digest in the text.
#[verifier::external_body]
pub(crate) fn regex_find(pattern: &str, text: &str) -> (found: Result<Option<String>, regex::Error>)
    requires
        pattern@ == "sha256:[0-9a-f]{64}"@,
    ensures
        found is Ok,
        opt_text(found->Ok_0) == first_digest(text@),
{
    let regex = regex::Regex::new(pattern)?;
    Ok(regex.find(text).map(|found| found.as_str().to_string()))
}

/// What a header collection holds: under each name, in lower case, the bytes of
/// the first value that was given for it.
pub uninterp spec fn header_fields(headers: HeaderMap) -> Map<Seq<char>, Seq<u8>>;

/// Whether a byte is visible ASCII, a space or a tab.
pub open spec fn is_visible_ascii(byte: u8) -> bool {
    32 <= byte < 127 || byte == 9
}

/// The text of the header `name`: there is one where the header was given and
/// its first value is visible ASCII.
pub open spec fn header_value_text(fields: Map<Seq<char>, Seq<u8>>, name: Seq<char>) -> Option<
    Seq<char>,
> {
    if fields.contains_key(name) && (forall|i: int|
        0 <= i < fields[name].len() ==> is_visible_ascii(#[trigger] fields[name][i])) {
        Some(fields[name].map_values(|byte: u8| byte as char))
    } else {
        None
    }
}

/// Whether `name` is a header name in lower case: letters, digits and hyphens.
pub open spec fn is_header_name(name: Seq<char>) -> bool {
    &&& 0 < name.len() <= 64
    &&& forall|i: int|
        0 <= i < name.len() ==> {
            ||| 'a' as int <= #[trigger] name[i] as int <= 'z' as int
            ||| '0' as int <= name[i] as int <= '9' as int
            ||| name[i] == '-'
        }
}

/// `HeaderMap::get` and `HeaderValue::to_str` of the crate `http`: the first
/// value of the header, as text, where it is visible ASCII.
#[verifier::external_body]
pub(crate) fn header_text(headers: &HeaderMap, name: &str) -> (value: Option<String>)
    requires
        is_header_name(name@),
    ensures
        opt_text(value) == header_value_text(header_fields(*headers), name@),
{
    match headers.get(name)?.to_str() {
        Ok(value) => Some(value.to_string()),
        Err(_) => None,
    }
}

/// Whether the bits of an identifier mark it as a random (version 4) UUID.
pub open spec fn is_random_id(id: u128) -> bool {
    id & 0xf000_c000_0000_0000_0000u128 == 0x4000_8000_0000_0000_0000u128
}

/// `Uuid::new_v4` of the crate `uuid`, as a number. Its version and variant bits
/// are fixed; the others are random, and two results may be equal.
#[verifier::external_body]
pub(crate) fn random_id() -> (id: u128)
    ensures
        is_random_id(id),
{
    uuid::Uuid::new_v4().as_u128()
}

/// The `k`-th of the 32 hexadecimal digits of an identifier.
pub open spec fn id_digit(id: u128, k: int) -> char {
    digit((id as int / pow(16, (31 - k) as nat)) % 16)
}

/// The hyphenated form of an identifier: its 32 digits in groups of 8, 4, 4, 4
/// and 12.
pub open spec fn hyphenated(id: u128) -> Seq<char> {
    let digits = Seq::new(32, |k: int| id_digit(id, k));
    digits.subrange(0, 8) + seq!['-'] + digits.subrange(8, 12) + seq!['-'] + digits.subrange(12, 16)
        + seq!['-'] + digits.subrange(16, 20) + seq!['-'] + digits.subrange(20, 32)
}

/// `Uuid::from_u128` of the crate `uuid`, and `to_string` of its `Display`: the
/// hyphenated form in lower case.
#[verifier::external_body]
pub(crate) fn format_id(id: u128) -> (text: String)
    ensures
        text@ == hyphenated(id),
{
    uuid::Uuid::from_u128(id).to_string()
}

/// `Utc::now` of the crate `chrono`, with its `timestamp` and
/// `timestamp_subsec_nanos`: the clock counts less than one second of
/// nanoseconds. Which time it is, is left unsaid.
#[verifier::external_body]
pub(crate) fn utc_now() -> (now: Timestamp)
    ensures
        now.valid(),
{
    let now = chrono::Utc::now();
    Timestamp { secs: now.timestamp(), nanos: now.timestamp_subsec_nanos() }
}

} // verus!
