//! PEP 503 normalisation of package names.
use vstd::prelude::*;
use crate::text::{chars_of, replace_char, replace_chars, string_of};
use crate::unicode::{ascii_lower, lowercase, to_lowercase};

verus! {

/// `s` with `_` and then `.` turned into `-`.
pub open spec fn fold_separators(s: Seq<char>) -> Seq<char> {
    replace_char(replace_char(s, '_', '-'), '.', '-')
}

/// The normalised form of a package name: lowercased, then `_` and `.`
/// replaced by `-`.
pub open spec fn normalized(name: Seq<char>) -> Seq<char> {
    fold_separators(lowercase(name))
}

/// One character of a normalised name: `_` and `.` become `-`.
pub open spec fn fold_char(c: char) -> char {
    if c == '_' || c == '.' { '-' } else { c }
}

/// The normalised form of an ASCII name, character by character.
pub open spec fn ascii_normalized(name: Seq<char>) -> Seq<char> {
    name.map_values(|c: char| fold_char(ascii_lower(c)))
}

/// The characters that normalisation treats as one separator.
pub open spec fn is_name_separator(c: char) -> bool {
    c == '-' || c == '_' || c == '.'
}

/// Two name characters that normalisation does not tell apart: equal up to
/// ASCII case, or both separators.
pub open spec fn same_name_char(x: char, y: char) -> bool {
    ascii_lower(x) == ascii_lower(y) || (is_name_separator(x) && is_name_separator(y))
}

proof fn lemma_fold_lower_char(x: char, y: char)
    requires
        '\0' <= x <= '\u{7f}',
        '\0' <= y <= '\u{7f}',
    ensures
        fold_char(ascii_lower(x)) == fold_char(ascii_lower(y)) <==> same_name_char(x, y),
{
    assert('A' <= x <= 'Z' ==> 'a' <= ascii_lower(x) <= 'z');
    assert('A' <= y <= 'Z' ==> 'a' <= ascii_lower(y) <= 'z');
    assert('A' <= x <= 'Z' && 'A' <= y <= 'Z' && ascii_lower(x) == ascii_lower(y) ==> x == y);
}

/// ASCII names have the same normalised form exactly when they have the same
/// length and agree at every position up to ASCII case, where `-`, `_` and
/// `.` count as one separator.
pub proof fn law_ascii_names_equal_up_to_case_and_separators(a: Seq<char>, b: Seq<char>)
    requires
        vstd::utf8::is_ascii_chars(a),
        vstd::utf8::is_ascii_chars(b),
    ensures
        ascii_normalized(a) == ascii_normalized(b) <==> (a.len() == b.len() && forall|i: int|
            0 <= i < a.len() ==> #[trigger] same_name_char(a[i], b[i])),
{
    assert(ascii_normalized(a).len() == a.len() && ascii_normalized(b).len() == b.len());
    if ascii_normalized(a) == ascii_normalized(b) {
        assert(a.len() == b.len());
        assert forall|i: int| 0 <= i < a.len() implies #[trigger] same_name_char(a[i], b[i]) by {
            assert(ascii_normalized(a)[i] == ascii_normalized(b)[i]);
            lemma_fold_lower_char(a[i], b[i]);
        }
    }
    if a.len() == b.len() && forall|i: int| 0 <= i < a.len() ==> #[trigger] same_name_char(a[i], b[i]) {
        assert forall|i: int| 0 <= i < a.len() implies ascii_normalized(a)[i] == ascii_normalized(b)[i] by {
            assert(same_name_char(a[i], b[i]));
            lemma_fold_lower_char(a[i], b[i]);
        }
        assert(ascii_normalized(a) =~= ascii_normalized(b));
    }
}

/// Turns the separators `_` and `.` of an already lowercased name into `-`.
pub fn fold_name_separators(lowered: &str) -> (r: String)
    ensures
        r@ == fold_separators(lowered@),
        r@.len() == lowered@.len(),
        !r@.contains('_'),
        !r@.contains('.'),
{
    let v = chars_of(lowered);
    let a = replace_chars(v.as_slice(), '_', '-');
    let b = replace_chars(a.as_slice(), '.', '-');
    let r = string_of(b.as_slice());
    assert(!r@.contains('_')) by {
        if r@.contains('_') {
            let k = choose|k: int| 0 <= k < r@.len() && r@[k] == '_';
            assert(a@[k] != '_');
        }
    }
    r
}

/// Normalises a PyPI package name (PEP 503): lowercase, and replace `_` and
/// `.` with `-`.
pub fn normalize_name(name: &str) -> (r: String)
    ensures
        r@ == normalized(name@),
        vstd::utf8::is_ascii_chars(name@) ==> r@ == ascii_normalized(name@),
        !r@.contains('_'),
        !r@.contains('.'),
{
    let lower = to_lowercase(name);
    let r = fold_name_separators(lower.as_str());
    assert(vstd::utf8::is_ascii_chars(name@) ==> r@ =~= ascii_normalized(name@));
    r
}

/// Folding the separators twice gives what folding once gives.
pub proof fn lemma_fold_separators_idempotent(s: Seq<char>)
    ensures
        fold_separators(fold_separators(s)) == fold_separators(s),
{
    assert(fold_separators(fold_separators(s)) =~= fold_separators(s));
}

} // verus!
