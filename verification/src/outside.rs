//! The calls this library makes into the `uuid` and `url` crates.

use vstd::prelude::*;

verus! {

/// Whether `c` is a lower-case hexadecimal digit.
pub open spec fn is_lower_hex(c: char) -> bool {
    ('0' <= c && c <= '9') || ('a' <= c && c <= 'f')
}

/// Whether `i` is one of the four positions that hold a hyphen in the
/// hyphenated text form of a UUID.
pub open spec fn is_uuid_hyphen_position(i: int) -> bool {
    i == 8 || i == 13 || i == 18 || i == 23
}

/// Whether `s` is the lower-case hyphenated text of a random (version 4,
/// RFC 4122 variant) UUID, such as `67e55044-10b1-426f-9247-bb680e5fe0c8`.
pub open spec fn is_uuid_v4_text(s: Seq<char>) -> bool {
    &&& s.len() == 36
    &&& forall|i: int|
        0 <= i < 36 ==> (if is_uuid_hyphen_position(i) {
            s[i] == '-'
        } else {
            is_lower_hex(#[trigger] s[i])
        })
    &&& s[14] == '4'
    &&& (s[19] == '8' || s[19] == '9' || s[19] == 'a' || s[19] == 'b')
}

/// Makes a fresh random UUID with `uuid::Uuid::new_v4` and renders it with
/// its `Display` impl.
///
/// Claimed of the outside code: `new_v4` sets the version nibble to 4 and
/// the variant bits to `10`, and `Display` writes the 36-character
/// lower-case hyphenated form. Which UUID comes out rests on the
/// operating system's random source and is not stated; `new_v4` panics
/// only when that source fails.
#[verifier::external_body]
pub(crate) fn new_v4_text() -> (text: String)
    ensures
        is_uuid_v4_text(text@),
{
    uuid::Uuid::new_v4().to_string()
}

/// The serialization of the URL that `url::Url::parse` makes of `input`,
/// or `None` where it refuses the input.
pub uninterp spec fn url_parse(input: Seq<char>) -> Option<Seq<char>>;

/// The serialization of the URL that `url::Url::join` makes of `input`
/// against the URL that `url::Url::parse` makes of `base`, or `None`
/// where either call refuses its input.
pub uninterp spec fn url_join(base: Seq<char>, input: Seq<char>) -> Option<Seq<char>>;

/// Parses `input` with `url::Url::parse` and serializes the result with
/// `to_string`.
///
/// Claimed of the outside code: nothing beyond that the result is a
/// function of `input` alone, named `url_parse`.
#[verifier::external_body]
pub(crate) fn parse_url(input: &str) -> (res: Option<String>)
    ensures
        match res {
            Some(u) => url_parse(input@) == Some(u@),
            None => url_parse(input@) is None,
        },
{
    match url::Url::parse(input) {
        Ok(u) => Some(u.to_string()),
        Err(_) => None,
    }
}

/// Parses `base` with `url::Url::parse`, resolves `input` against it with
/// `url::Url::join`, and serializes the result with `to_string`.
///
/// Claimed of the outside code: nothing beyond that the result is a
/// function of `base` and `input` alone, named `url_join`.
#[verifier::external_body]
pub(crate) fn join_url(base: &str, input: &str) -> (res: Option<String>)
    ensures
        match res {
            Some(u) => url_join(base@, input@) == Some(u@),
            None => url_join(base@, input@) is None,
        },
{
    match url::Url::parse(base) {
        Ok(b) => match b.join(input) {
            Ok(u) => Some(u.to_string()),
            Err(_) => None,
        },
        Err(_) => None,
    }
}

} // verus!
