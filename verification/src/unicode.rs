//! The Unicode-aware operations of the standard library that the package
//! logic relies on. Their results follow Unicode tables, so each one is named
//! here rather than written out; every trusted item below makes one call.
use vstd::prelude::*;

verus! {

/// What `str::to_lowercase` returns for a string with the characters `s`.
pub uninterp spec fn lowercase(s: Seq<char>) -> Seq<char>;

/// What `str::to_uppercase` returns for a string with the characters `s`.
pub uninterp spec fn uppercase(s: Seq<char>) -> Seq<char>;

/// What `char::is_alphanumeric` returns for `c`.
pub uninterp spec fn alphanumeric(c: char) -> bool;

/// What `str::trim` returns for a string with the characters `s`.
pub uninterp spec fn trimmed(s: Seq<char>) -> Seq<char>;

/// What `String::from_utf8_lossy` returns for the bytes `b`.
pub uninterp spec fn lossy_text(b: Seq<u8>) -> Seq<char>;

/// The lowercase of an ASCII character: `A`..`Z` become `a`..`z`, every
/// other character stays.
pub open spec fn ascii_lower(c: char) -> char {
    if 'A' <= c && c <= 'Z' { ((c as u32) + 32) as char } else { c }
}

/// Calls `str::to_lowercase`. Its result is named; of ASCII text the contract
/// states what Unicode's lowercase mapping gives: each letter `A`..`Z`
/// becomes `a`..`z` and every other character stays.
#[verifier::external_body]
pub(crate) fn to_lowercase(s: &str) -> (r: String)
    ensures
        r@ == lowercase(s@),
        vstd::utf8::is_ascii_chars(s@) ==> r@ == s@.map_values(|c: char| ascii_lower(c)),
{
    s.to_lowercase()
}

/// The uppercase of an ASCII character: `a`..`z` become `A`..`Z`, every
/// other character stays.
pub open spec fn ascii_upper(c: char) -> char {
    if 'a' <= c && c <= 'z' { ((c as u32) - 32) as char } else { c }
}

/// An ASCII letter or digit: `0`..`9`, `A`..`Z`, `a`..`z`.
pub open spec fn ascii_alphanumeric(c: char) -> bool {
    ('0' <= c && c <= '9') || ('A' <= c && c <= 'Z') || ('a' <= c && c <= 'z')
}

/// The ASCII characters with the Unicode White_Space property: tab, line
/// feed, vertical tab, form feed, carriage return and space.
pub open spec fn ascii_white_space(c: char) -> bool {
    ('\t' <= c && c <= '\r') || c == ' '
}

/// `s` without its leading ASCII white space.
pub open spec fn ascii_trim_start(s: Seq<char>) -> Seq<char>
    decreases s.len(),
{
    if s.len() > 0 && ascii_white_space(s[0]) { ascii_trim_start(s.drop_first()) } else { s }
}

/// `s` without its trailing ASCII white space.
pub open spec fn ascii_trim_end(s: Seq<char>) -> Seq<char>
    decreases s.len(),
{
    if s.len() > 0 && ascii_white_space(s.last()) { ascii_trim_end(s.drop_last()) } else { s }
}

/// Calls `str::to_uppercase`. Its result is named; of ASCII text the contract
/// states what Unicode's uppercase mapping gives: each letter `a`..`z`
/// becomes `A`..`Z` and every other character stays.
#[verifier::external_body]
pub(crate) fn to_uppercase(s: &str) -> (r: String)
    ensures
        r@ == uppercase(s@),
        vstd::utf8::is_ascii_chars(s@) ==> r@ == s@.map_values(|c: char| ascii_upper(c)),
{
    s.to_uppercase()
}

/// Calls `char::is_alphanumeric`. Its result is named; of an ASCII
/// character the contract states it: true exactly for `0`..`9`, `A`..`Z` and
/// `a`..`z`.
#[verifier::external_body]
pub(crate) fn is_alphanumeric(c: char) -> (r: bool)
    ensures
        r == alphanumeric(c),
        '\0' <= c <= '\u{7f}' ==> r == ascii_alphanumeric(c),
{
    c.is_alphanumeric()
}

/// Calls `str::trim`, copying the trimmed slice into a new `String`. Its
/// result is named; of ASCII text the contract states it: the leading and
/// trailing white space (tab, line feed, vertical tab, form feed, carriage
/// return, space) removed.
#[verifier::external_body]
pub(crate) fn trim(s: &str) -> (r: String)
    ensures
        r@ == trimmed(s@),
        vstd::utf8::is_ascii_chars(s@) ==> r@ == ascii_trim_end(ascii_trim_start(s@)),
{
    s.trim().to_string()
}

/// Calls `String::from_utf8_lossy`, copying the text into a new `String`.
/// As its documentation says, well-formed UTF-8 is decoded as it stands;
/// what replaces malformed sequences is left to the name.
#[verifier::external_body]
pub(crate) fn from_utf8_lossy(b: &[u8]) -> (r: String)
    ensures
        r@ == lossy_text(b@),
        vstd::utf8::valid_utf8(b@) ==> r@ == vstd::utf8::decode_utf8(b@),
{
    String::from_utf8_lossy(b).into_owned()
}

} // verus!
