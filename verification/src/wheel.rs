//! Choosing the downloaded wheel, and the checks made on a wheel before it
//! is turned into a package image.
use vstd::prelude::*;
use crate::names::{normalize_name, normalized};
use crate::text::{
    chars_of, contains, ends_with, has_infix, has_prefix, has_suffix, push_char, replace_char,
    replace_chars, starts_with, string_of, sub_chars,
};
use crate::unicode::{lowercase, to_lowercase};

verus! {

/// File names of wheels end in `.whl`.
pub open spec fn is_wheel_file(lowered: Seq<char>) -> bool {
    has_suffix(lowered, ".whl"@)
}

/// The start that a wheel file name of the package has once `-` is written
/// `_`: the normalised name with `_` for `-`, then `_` (PEP 427).
pub open spec fn wheel_prefix(package_name: Seq<char>) -> Seq<char> {
    replace_char(normalized(package_name), '-', '_').push('_')
}

/// A lowercased entry name is a wheel of the package with the given prefix.
pub open spec fn wheel_matches(prefix: Seq<char>, lowered: Seq<char>) -> bool {
    is_wheel_file(lowered) && has_prefix(replace_char(lowered, '-', '_'), prefix)
}

/// How many of the lowercased entry names are wheel files.
pub open spec fn wheel_count(lowered: Seq<Seq<char>>) -> nat
    decreases lowered.len(),
{
    if lowered.len() == 0 {
        0
    } else {
        wheel_count(lowered.drop_last()) + if is_wheel_file(lowered.last()) { 1nat } else { 0nat }
    }
}

/// What choosing a wheel among lowercased entry names gives: the first entry
/// that is a wheel of the package; failing that, the only wheel if there is
/// exactly one; otherwise the number of wheels found.
pub open spec fn wheel_choice(prefix: Seq<char>, lowered: Seq<Seq<char>>, r: Result<usize, usize>) -> bool {
    match r {
        Ok(i) => {
            &&& i < lowered.len()
            &&& {
                ||| wheel_matches(prefix, lowered[i as int])
                    && forall|k: int| 0 <= k < i ==> !wheel_matches(prefix, #[trigger] lowered[k])
                ||| (forall|k: int| 0 <= k < lowered.len() ==> !wheel_matches(prefix, #[trigger] lowered[k]))
                    && wheel_count(lowered) == 1 && is_wheel_file(lowered[i as int])
            }
        },
        Err(n) => {
            &&& forall|k: int| 0 <= k < lowered.len() ==> !wheel_matches(prefix, #[trigger] lowered[k])
            &&& wheel_count(lowered) != 1
            &&& n == wheel_count(lowered)
        },
    }
}

/// A wheel is pure Python when its file name carries the `-none-any` tag.
pub open spec fn is_pure_wheel_name(name: Seq<char>) -> bool {
    has_infix(name, "-none-any"@)
}

/// A lowercased file name is a native extension: `.so` (also versioned,
/// `.so.N`), `.pyd` or `.dll`.
pub open spec fn is_native_lowered(lowered: Seq<char>) -> bool {
    has_suffix(lowered, ".so"@) || has_infix(lowered, ".so."@) || has_suffix(lowered, ".pyd"@)
        || has_suffix(lowered, ".dll"@)
}

/// Where the last line of `body` starts: just after its last `\n`, or at 0.
pub open spec fn last_line_start(body: Seq<char>) -> int
    decreases body.len(),
{
    if body.len() == 0 {
        0
    } else if body.last() == '\n' {
        body.len() as int
    } else {
        last_line_start(body.drop_last())
    }
}

/// The last line of `t` as `str::lines` splits it (lines end at `\n`, a `\r`
/// before that `\n` is dropped, and a final `\n` does not open a new line);
/// for text without lines, the text itself.
pub open spec fn last_line_of(t: Seq<char>) -> Seq<char> {
    let ended = t.len() > 0 && t.last() == '\n';
    let body = if ended { t.drop_last() } else { t };
    let line = body.subrange(last_line_start(body), body.len() as int);
    if ended && line.len() > 0 && line.last() == '\r' {
        line.drop_last()
    } else {
        line
    }
}

proof fn lemma_no_newline_after_start(body: Seq<char>)
    ensures
        0 <= last_line_start(body) <= body.len(),
        forall|k: int| last_line_start(body) <= k < body.len() ==> body[k] != '\n',
    decreases body.len(),
{
    if body.len() > 0 && body.last() != '\n' {
        let init = body.drop_last();
        lemma_no_newline_after_start(init);
        assert forall|k: int| last_line_start(body) <= k < body.len() implies body[k] != '\n' by {
            if k < body.len() - 1 {
                assert(init[k] == body[k]);
            }
        }
    }
}

/// The last line of a text holds no line break.
pub proof fn law_last_line_has_no_break(t: Seq<char>)
    ensures
        !last_line_of(t).contains('\n'),
{
    let ended = t.len() > 0 && t.last() == '\n';
    let body = if ended { t.drop_last() } else { t };
    lemma_no_newline_after_start(body);
    let line = body.subrange(last_line_start(body), body.len() as int);
    assert forall|k: int| 0 <= k < line.len() implies line[k] != '\n' by {
        assert(line[k] == body[last_line_start(body) + k]);
    }
    if last_line_of(t).contains('\n') {
        let k = choose|k: int| 0 <= k < last_line_of(t).len() && last_line_of(t)[k] == '\n';
        assert(last_line_of(t)[k] == line[k]);
    }
}

proof fn lemma_single_wheel(l: Seq<Seq<char>>, i: int, j: int)
    requires
        wheel_count(l) == 1,
        0 <= i < l.len(),
        0 <= j < l.len(),
        is_wheel_file(l[i]),
        is_wheel_file(l[j]),
    ensures
        i == j,
    decreases l.len(),
{
    let init = l.drop_last();
    if i < l.len() - 1 && j < l.len() - 1 {
        assert(init[i] == l[i] && init[j] == l[j]);
        lemma_wheel_count_has(init, i);
        lemma_single_wheel(init, i, j);
    } else if i < l.len() - 1 {
        assert(init[i] == l[i]);
        lemma_wheel_count_has(init, i);
    } else if j < l.len() - 1 {
        assert(init[j] == l[j]);
        lemma_wheel_count_has(init, j);
    }
}

proof fn lemma_wheel_count_has(l: Seq<Seq<char>>, i: int)
    requires
        0 <= i < l.len(),
        is_wheel_file(l[i]),
    ensures
        wheel_count(l) >= 1,
    decreases l.len(),
{
    if i < l.len() - 1 {
        assert(l.drop_last()[i] == l[i]);
        lemma_wheel_count_has(l.drop_last(), i);
    }
}

/// The choice of a wheel is determined by the entry names: no two outcomes
/// fit the same listing.
pub proof fn law_wheel_choice_is_unique(
    prefix: Seq<char>,
    lowered: Seq<Seq<char>>,
    r1: Result<usize, usize>,
    r2: Result<usize, usize>,
)
    requires
        wheel_choice(prefix, lowered, r1),
        wheel_choice(prefix, lowered, r2),
    ensures
        r1 == r2,
{
    match (r1, r2) {
        (Ok(i), Ok(j)) => {
            if wheel_matches(prefix, lowered[i as int]) && wheel_matches(prefix, lowered[j as int]) {
                if i < j {
                    assert(!wheel_matches(prefix, lowered[i as int]));
                } else if j < i {
                    assert(!wheel_matches(prefix, lowered[j as int]));
                }
            } else if wheel_matches(prefix, lowered[i as int]) {
                assert(!wheel_matches(prefix, lowered[i as int]));
            } else if wheel_matches(prefix, lowered[j as int]) {
                assert(!wheel_matches(prefix, lowered[j as int]));
            } else {
                lemma_single_wheel(lowered, i as int, j as int);
            }
        },
        (Ok(i), Err(_)) => {
            if !wheel_matches(prefix, lowered[i as int]) {
                lemma_wheel_count_has(lowered, i as int);
            }
        },
        (Err(_), Ok(j)) => {
            if !wheel_matches(prefix, lowered[j as int]) {
                lemma_wheel_count_has(lowered, j as int);
            }
        },
        (Err(_), Err(_)) => {},
    }
}

proof fn lemma_suffix_last(l: Seq<char>, p: Seq<char>)
    requires
        has_suffix(l, p),
        p.len() > 0,
    ensures
        l.last() == p.last(),
{
    assert(l.subrange(l.len() - p.len(), l.len() as int)[p.len() - 1] == l.last());
}

/// A lowercased file name is a native extension when it ends in `.so`,
/// `.pyd` or `.dll` or holds `.so.`, and only then; Python sources and stubs
/// (`.py`, `.pyi`) without a `.so.` inside are never native extensions.
pub proof fn law_native_extensions_by_name(l: Seq<char>)
    ensures
        has_suffix(l, ".so"@) ==> is_native_lowered(l),
        has_infix(l, ".so."@) ==> is_native_lowered(l),
        has_suffix(l, ".pyd"@) ==> is_native_lowered(l),
        has_suffix(l, ".dll"@) ==> is_native_lowered(l),
        is_native_lowered(l) ==> has_suffix(l, ".so"@) || has_infix(l, ".so."@) || has_suffix(l, ".pyd"@)
            || has_suffix(l, ".dll"@),
        (has_suffix(l, ".py"@) || has_suffix(l, ".pyi"@)) && !has_infix(l, ".so."@) ==> !is_native_lowered(l),
{
    reveal_strlit(".so");
    reveal_strlit(".pyd");
    reveal_strlit(".dll");
    reveal_strlit(".py");
    reveal_strlit(".pyi");
    if (has_suffix(l, ".py"@) || has_suffix(l, ".pyi"@)) && !has_infix(l, ".so."@) {
        if has_suffix(l, ".py"@) {
            lemma_suffix_last(l, ".py"@);
        } else {
            lemma_suffix_last(l, ".pyi"@);
        }
        if has_suffix(l, ".so"@) {
            lemma_suffix_last(l, ".so"@);
        }
        if has_suffix(l, ".pyd"@) {
            lemma_suffix_last(l, ".pyd"@);
        }
        if has_suffix(l, ".dll"@) {
            lemma_suffix_last(l, ".dll"@);
        }
    }
}

/// The prefix that names a wheel of the package once `-` is written `_`.
pub fn wheel_name_prefix(package_name: &str) -> (r: String)
    ensures
        r@ == wheel_prefix(package_name@),
{
    let n = normalize_name(package_name);
    let v = replace_chars(chars_of(n.as_str()).as_slice(), '-', '_');
    let mut r = string_of(v.as_slice());
    push_char(&mut r, '_');
    r
}

/// Whether a lowercased entry name is a wheel of the package with `prefix`.
pub fn is_matching_wheel(prefix: &[char], lowered: &[char]) -> (r: bool)
    ensures
        r == wheel_matches(prefix@, lowered@),
{
    let whl = chars_of(".whl");
    if !ends_with(lowered, whl.as_slice()) {
        return false;
    }
    let underscored = replace_chars(lowered, '-', '_');
    starts_with(underscored.as_slice(), prefix)
}

/// Chooses the wheel among lowercased entry names of the download directory:
/// the index of the first wheel of the package; failing that, the index of
/// the only wheel if there is exactly one; otherwise, as the error, the
/// number of wheels found.
pub fn select_wheel(prefix: &str, lowered_entries: &[String]) -> (r: Result<usize, usize>)
    ensures
        wheel_choice(prefix@, lowered_entries@.map_values(|s: String| s@), r),
{
    let ghost l = lowered_entries@.map_values(|s: String| s@);
    let p = chars_of(prefix);
    let whl = chars_of(".whl");
    let mut i: usize = 0;
    let mut count: usize = 0;
    let mut last_wheel: usize = 0;
    while i < lowered_entries.len()
        invariant
            l == lowered_entries@.map_values(|s: String| s@),
            p@ == prefix@,
            whl@ == ".whl"@,
            i <= lowered_entries.len(),
            count == wheel_count(l.subrange(0, i as int)),
            count <= i,
            count > 0 ==> last_wheel < i && is_wheel_file(l[last_wheel as int]),
            count == 0 ==> forall|k: int| 0 <= k < i ==> !is_wheel_file(#[trigger] l[k]),
            count == 1 ==> forall|k: int| 0 <= k < i && is_wheel_file(#[trigger] l[k]) ==> k == last_wheel,
            forall|k: int| 0 <= k < i ==> !wheel_matches(prefix@, #[trigger] l[k]),
        decreases lowered_entries.len() - i,
    {
        let name = chars_of(lowered_entries[i].as_str());
        assert(l.subrange(0, i + 1).drop_last() =~= l.subrange(0, i as int));
        if is_matching_wheel(p.as_slice(), name.as_slice()) {
            return Ok(i);
        }
        if ends_with(name.as_slice(), whl.as_slice()) {
            count = count + 1;
            last_wheel = i;
        }
        i = i + 1;
    }
    assert(l.subrange(0, i as int) =~= l);
    if count == 1 {
        Ok(last_wheel)
    } else {
        Err(count)
    }
}

/// Finds the wheel of a package among the entry names of the download
/// directory, comparing lowercased names; see `select_wheel`.
pub fn find_wheel(package_name: &str, entry_names: &[String]) -> (r: Result<usize, usize>)
    ensures
        wheel_choice(
            wheel_prefix(package_name@),
            entry_names@.map_values(|s: String| lowercase(s@)),
            r,
        ),
{
    let prefix = wheel_name_prefix(package_name);
    let mut lowered: Vec<String> = Vec::new();
    let mut i: usize = 0;
    while i < entry_names.len()
        invariant
            i <= entry_names.len(),
            lowered@.len() == i,
            forall|k: int| 0 <= k < i ==> #[trigger] lowered@[k]@ == lowercase(entry_names@[k]@),
        decreases entry_names.len() - i,
    {
        let l = to_lowercase(entry_names[i].as_str());
        lowered.push(l);
        i = i + 1;
    }
    assert(lowered@.map_values(|s: String| s@) =~= entry_names@.map_values(|s: String| lowercase(s@)));
    select_wheel(prefix.as_str(), lowered.as_slice())
}

/// Whether a wheel file name carries the pure-Python tag `-none-any`.
pub fn is_pure_python_wheel(wheel_name: &str) -> (r: bool)
    ensures
        r == is_pure_wheel_name(wheel_name@),
{
    let tag = chars_of("-none-any");
    contains(chars_of(wheel_name).as_slice(), tag.as_slice())
}

/// Whether an already lowercased file name is that of a native extension.
pub fn is_native_extension_lowered(lowered: &str) -> (r: bool)
    ensures
        r == is_native_lowered(lowered@),
{
    let n = chars_of(lowered);
    ends_with(n.as_slice(), chars_of(".so").as_slice())
        || contains(n.as_slice(), chars_of(".so.").as_slice())
        || ends_with(n.as_slice(), chars_of(".pyd").as_slice())
        || ends_with(n.as_slice(), chars_of(".dll").as_slice())
}

/// Whether a file name is that of a native extension (`.so`, `.so.N`,
/// `.pyd`, `.dll`, in any case).
pub fn is_native_extension(file_name: &str) -> (r: bool)
    ensures
        r == is_native_lowered(lowercase(file_name@)),
{
    let l = to_lowercase(file_name);
    is_native_extension_lowered(l.as_str())
}

/// The positions, in order, of the file names that are native extensions.
pub fn native_extension_indices(file_names: &[String]) -> (r: Vec<usize>)
    ensures
        forall|k: int| 0 <= k < r.len() ==> #[trigger] r@[k] < file_names.len(),
        forall|k: int, m: int| 0 <= k < m < r.len() ==> r@[k] < r@[m],
        forall|j: int| 0 <= j < file_names.len() ==>
            (r@.contains(j as usize) <==> is_native_lowered(lowercase(#[trigger] file_names@[j]@))),
{
    let mut r: Vec<usize> = Vec::new();
    let mut i: usize = 0;
    while i < file_names.len()
        invariant
            i <= file_names.len(),
            forall|k: int| 0 <= k < r.len() ==> #[trigger] r@[k] < i,
            forall|k: int, m: int| 0 <= k < m < r.len() ==> r@[k] < r@[m],
            forall|j: int| 0 <= j < i ==>
                (r@.contains(j as usize) <==> is_native_lowered(lowercase(#[trigger] file_names@[j]@))),
        decreases file_names.len() - i,
    {
        let ghost old_r = r@;
        let native = is_native_extension(file_names[i].as_str());
        if native {
            r.push(i);
        }
        proof {
            assert forall|j: int| 0 <= j <= i implies
                (r@.contains(j as usize) <==> is_native_lowered(lowercase(#[trigger] file_names@[j]@))) by {
                if j < i {
                    if r@.contains(j as usize) {
                        let k = choose|k: int| 0 <= k < r.len() && r@[k] == j as usize;
                        if k < old_r.len() {
                            assert(old_r[k] == j as usize);
                            assert(old_r.contains(j as usize));
                        } else {
                            assert(r@[k] == i);
                        }
                    }
                    if old_r.contains(j as usize) {
                        let k = choose|k: int| 0 <= k < old_r.len() && old_r[k] == j as usize;
                        assert(r@[k] == j as usize);
                    }
                } else {
                    if native {
                        assert(r@[r.len() - 1] == i);
                    } else if r@.contains(j as usize) {
                        let k = choose|k: int| 0 <= k < r.len() && r@[k] == j as usize;
                        assert(old_r[k] < i);
                    }
                }
            }
        }
        i = i + 1;
    }
    r
}

/// The last line of a text as `str::lines` splits it, or the text itself
/// when it has no lines.
pub fn last_line(text: &str) -> (r: String)
    ensures
        r@ == last_line_of(text@),
        !r@.contains('\n'),
{
    proof {
        law_last_line_has_no_break(text@);
    }
    let t = chars_of(text);
    let ended = t.len() > 0 && t[t.len() - 1] == '\n';
    let body = if ended { sub_chars(t.as_slice(), 0, t.len() - 1) } else { sub_chars(t.as_slice(), 0, t.len()) };
    assert(ended ==> body@ =~= t@.drop_last());
    assert(!ended ==> body@ =~= t@);
    let mut start: usize = body.len();
    assert(body@.subrange(0, start as int) =~= body@);
    while start > 0 && body[start - 1] != '\n'
        invariant
            start <= body.len(),
            last_line_start(body@) == last_line_start(body@.subrange(0, start as int)),
        decreases start,
    {
        proof {
            let b = body@.subrange(0, start as int);
            assert(b.drop_last() =~= body@.subrange(0, start - 1));
            assert(b.last() == body@[start - 1]);
        }
        start = start - 1;
    }
    proof {
        if start > 0 {
            assert(body@.subrange(0, start as int).last() == body@[start - 1]);
        } else {
            assert(body@.subrange(0, 0) =~= Seq::<char>::empty());
        }
    }
    let line = sub_chars(body.as_slice(), start, body.len());
    if ended && line.len() > 0 && line[line.len() - 1] == '\r' {
        let trimmed = sub_chars(line.as_slice(), 0, line.len() - 1);
        assert(trimmed@ =~= line@.drop_last());
        string_of(trimmed.as_slice())
    } else {
        string_of(line.as_slice())
    }
}

} // verus!
