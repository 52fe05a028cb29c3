//! Calls into std and outside crates that the evidence logic relies on, with
//! the contracts that their documentation gives.

use vstd::prelude::*;

verus! {

/// A character of a hyphenated lowercase UUID: a lowercase hex digit or `-`.
pub open spec fn is_uuid_char(c: char) -> bool {
    ('0' <= c && c <= '9') || ('a' <= c && c <= 'f') || c == '-'
}

/// Text in the shape of a hyphenated lowercase UUID: 36 characters, each a
/// lowercase hex digit or `-`.
pub open spec fn uuid_shaped(s: Seq<char>) -> bool {
    s.len() == 36 && forall|i: int| 0 <= i < s.len() ==> is_uuid_char(#[trigger] s[i])
}

/// Text with no `/`, so that it names a file within one directory.
pub open spec fn no_slash(s: Seq<char>) -> bool {
    forall|i: int| 0 <= i < s.len() ==> #[trigger] s[i] != '/'
}

/// Relies on `uuid::Uuid::new_v4` and its `Display` impl: a random version 4
/// UUID, written as 36 characters, lowercase hex digits and hyphens.
#[verifier::external_body]
pub(crate) fn random_uuid_string() -> (r: String)
    ensures
        uuid_shaped(r@),
{
    uuid::Uuid::new_v4().to_string()
}

/// Relies on `chrono::Utc::now` and `DateTime::to_rfc3339`: the current time
/// as an RFC 3339 string. Nothing is promised of its value; `now` panics only
/// where the system clock reads a time before 1970.
#[verifier::external_body]
pub(crate) fn now_rfc3339() -> (r: String) {
    chrono::Utc::now().to_rfc3339()
}

/// The extension that `std::path::Path::extension` finds in a file name.
pub uninterp spec fn path_extension(name: Seq<char>) -> Option<Seq<char>>;

/// Relies on `std::path::Path::extension`: the text after the last `.` of the
/// final path component, if there is one, so it holds neither a `.` nor a
/// path separator; a name read from a `&str` always has a UTF-8 extension.
#[verifier::external_body]
pub(crate) fn file_extension(name: &str) -> (r: Option<String>)
    ensures
        match r {
            Some(e) => path_extension(name@) == Some(e@),
            None => path_extension(name@) is None,
        },
        r matches Some(e) ==> forall|i: int|
            0 <= i < e@.len() ==> #[trigger] e@[i] != '/' && e@[i] != '.',
{
    match std::path::Path::new(name).extension() {
        Some(e) => e.to_str().map(String::from),
        None => None,
    }
}

/// The text that `String::from_utf8_lossy` decodes from bytes.
pub uninterp spec fn utf8_lossy(bytes: Seq<u8>) -> Seq<char>;

/// Relies on `String::from_utf8_lossy`: the bytes decoded as UTF-8, each
/// invalid sequence replaced by U+FFFD. No bytes give no text.
#[verifier::external_body]
pub(crate) fn decode_text(bytes: &Vec<u8>) -> (r: String)
    ensures
        r@ == utf8_lossy(bytes@),
        bytes@.len() == 0 ==> r@.len() == 0,
{
    String::from_utf8_lossy(bytes.as_slice()).into_owned()
}

} // verus!
