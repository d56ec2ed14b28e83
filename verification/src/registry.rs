//! Where a registry keeps its package images, and which packages it holds.
//!
//! Paths are text with `/` as the separator, joined the way `Path::join`
//! joins them on Unix hosts, where the registry lives.
use vstd::prelude::*;
use crate::names::{normalize_name, normalized};
use crate::text::{
    chars_of, ends_with, has_prefix, has_suffix, lemma_bytes_le_total, lemma_bytes_le_transitive,
    push_char, push_chars, starts_with, str_le, str_le_exec, str_sorted, string_of,
    sub_chars, texts,
};

verus! {

/// The guest mount point for Python site-packages FAT images.
pub const SITE_PACKAGES_GUEST_PATH: &'static str = "/.local/lib/python3.12/site-packages";

/// The guest mount point where package FATs are mounted.
pub const PACKAGE_MOUNT_POINT: &'static str = "/root";

/// Name of the package directory inside a registry.
pub const PACKAGES_DIR: &'static str = "lib";

/// Prefix of package FAT file names, which tells them from other FATs.
pub const PACKAGE_FAT_PREFIX: &'static str = "pkg-";

/// Extension of package FAT file names.
pub const PACKAGE_FAT_SUFFIX: &'static str = ".fat";

/// `base` joined with `part`: an absolute `part` replaces `base`; otherwise a
/// separator is put between them unless `base` is empty or already ends in one.
pub open spec fn joined(base: Seq<char>, part: Seq<char>) -> Seq<char> {
    if part.len() > 0 && part[0] == '/' {
        part
    } else if base.len() > 0 && base.last() != '/' {
        base + seq!['/'] + part
    } else {
        base + part
    }
}

/// The package directory of a registry.
pub open spec fn packages_dir_of(registry: Seq<char>) -> Seq<char> {
    joined(registry, PACKAGES_DIR@)
}

/// The FAT file name for an already normalised package name.
pub open spec fn fat_file_name(normalized_name: Seq<char>) -> Seq<char> {
    PACKAGE_FAT_PREFIX@ + normalized_name + PACKAGE_FAT_SUFFIX@
}

/// The FAT image path of a package inside a registry.
pub open spec fn fat_path_of(registry: Seq<char>, package_name: Seq<char>) -> Seq<char> {
    joined(packages_dir_of(registry), fat_file_name(normalized(package_name)))
}

/// The package name that a directory entry holds, if it is a package FAT:
/// the entry with the prefix `pkg-` and then the suffix `.fat` taken off.
pub open spec fn installed_name(entry: Seq<char>) -> Option<Seq<char>> {
    let p = PACKAGE_FAT_PREFIX@;
    let s = PACKAGE_FAT_SUFFIX@;
    let rest = entry.subrange(p.len() as int, entry.len() as int);
    if has_prefix(entry, p) && has_suffix(rest, s) {
        Some(rest.subrange(0, rest.len() - s.len()))
    } else {
        None
    }
}

/// The package names held by a listing of the package directory, in listing order.
pub open spec fn installed_names(entries: Seq<Seq<char>>) -> Seq<Seq<char>>
    decreases entries.len(),
{
    if entries.len() == 0 {
        Seq::empty()
    } else {
        let before = installed_names(entries.drop_last());
        match installed_name(entries.last()) {
            Some(n) => before.push(n),
            None => before,
        }
    }
}

/// Joins two paths as `Path::join` does on Unix.
pub fn join_path(base: &str, part: &str) -> (r: String)
    ensures
        r@ == joined(base@, part@),
{
    let b = chars_of(base);
    let p = chars_of(part);
    if p.len() > 0 && p[0] == '/' {
        return string_of(p.as_slice());
    }
    let mut r = string_of(b.as_slice());
    if b.len() > 0 && b[b.len() - 1] != '/' {
        push_char(&mut r, '/');
    }
    push_chars(&mut r, p.as_slice());
    r
}

/// The packages directory inside a registry path.
pub fn packages_dir(registry: &str) -> (r: String)
    ensures
        r@ == packages_dir_of(registry@),
{
    join_path(registry, PACKAGES_DIR)
}

/// The file name of a package's FAT image: `pkg-<normalised name>.fat`.
pub fn package_fat_file_name(package_name: &str) -> (r: String)
    ensures
        r@ == fat_file_name(normalized(package_name@)),
{
    let mut r = String::from_str(PACKAGE_FAT_PREFIX);
    let n = normalize_name(package_name);
    push_chars(&mut r, chars_of(n.as_str()).as_slice());
    push_chars(&mut r, chars_of(PACKAGE_FAT_SUFFIX).as_slice());
    r
}

/// The FAT image path for a given package name inside a registry.
pub fn package_fat_path(registry: &str, package_name: &str) -> (r: String)
    ensures
        r@ == fat_path_of(registry@, package_name@),
{
    let dir = packages_dir(registry);
    let file = package_fat_file_name(package_name);
    join_path(dir.as_str(), file.as_str())
}


/// Taking the package name out of a FAT file name gives the name back.
pub proof fn lemma_installed_name_of_fat_file(n: Seq<char>)
    ensures
        installed_name(fat_file_name(n)) == Some(n),
{
    let p = PACKAGE_FAT_PREFIX@;
    let s = PACKAGE_FAT_SUFFIX@;
    let e = fat_file_name(n);
    assert(e.subrange(0, p.len() as int) =~= p);
    let rest = e.subrange(p.len() as int, e.len() as int);
    assert(rest =~= n + s);
    assert(rest.subrange(rest.len() - s.len(), rest.len() as int) =~= s);
    assert(rest.subrange(0, rest.len() - s.len()) =~= n);
}

/// An entry holds a package name only when it is that name's FAT file name.
pub proof fn lemma_fat_file_of_installed_name(e: Seq<char>)
    ensures
        installed_name(e) matches Some(n) ==> e == fat_file_name(n),
{
    let p = PACKAGE_FAT_PREFIX@;
    let s = PACKAGE_FAT_SUFFIX@;
    if let Some(n) = installed_name(e) {
        let rest = e.subrange(p.len() as int, e.len() as int);
        assert(e =~= e.subrange(0, p.len() as int) + rest);
        assert(rest =~= rest.subrange(0, rest.len() - s.len()) + rest.subrange(rest.len() - s.len(), rest.len() as int));
        assert(e =~= fat_file_name(n));
    }
}

/// The package name that a directory entry holds, if the entry is a package
/// FAT file (`pkg-<name>.fat`).
pub fn installed_package_name(entry: &str) -> (r: Option<String>)
    ensures
        match r {
            Some(n) => installed_name(entry@) == Some(n@),
            None => installed_name(entry@) is None,
        },
{
    let e = chars_of(entry);
    let p = chars_of(PACKAGE_FAT_PREFIX);
    let s = chars_of(PACKAGE_FAT_SUFFIX);
    if !starts_with(e.as_slice(), p.as_slice()) {
        return None;
    }
    let rest = sub_chars(e.as_slice(), p.len(), e.len());
    if !ends_with(rest.as_slice(), s.as_slice()) {
        return None;
    }
    let name = sub_chars(rest.as_slice(), 0, rest.len() - s.len());
    Some(string_of(name.as_slice()))
}

/// Inserts `x` into a sorted vector, keeping it sorted.
fn insert_sorted(v: &mut Vec<String>, x: String)
    requires
        str_sorted(texts(old(v)@)),
    ensures
        str_sorted(texts(final(v)@)),
        texts(final(v)@).to_multiset() == texts(old(v)@).to_multiset().insert(x@),
{
    let ghost s = texts(v@);
    let mut j: usize = 0;
    while j < v.len()
        invariant
            s == texts(v@),
            j <= v.len(),
            forall|k: int| 0 <= k < j ==> !str_le(x@, #[trigger] s[k]),
        ensures
            s == texts(v@),
            j <= v.len(),
            forall|k: int| 0 <= k < j ==> !str_le(x@, #[trigger] s[k]),
            j < v.len() ==> str_le(x@, s[j as int]),
        decreases v.len() - j,
    {
        if str_le_exec(x.as_str(), v[j].as_str()) {
            break;
        }
        j = j + 1;
    }
    proof {
        assert forall|k: int| 0 <= k < j implies str_le(#[trigger] s[k], x@) by {
            lemma_bytes_le_total(vstd::utf8::encode_utf8(x@), vstd::utf8::encode_utf8(s[k]));
        }
        assert forall|k: int| j <= k < s.len() implies str_le(x@, #[trigger] s[k]) by {
            // the loop stopped at `j` because x <= s[j]
            assert(str_le(x@, s[j as int]));
            if k > j {
                lemma_bytes_le_transitive(vstd::utf8::encode_utf8(x@), vstd::utf8::encode_utf8(s[j as int]), vstd::utf8::encode_utf8(s[k]));
            }
        }
    }
    v.insert(j, x);
    proof {
        let t = texts(v@);
        assert(t =~= s.insert(j as int, x@));
        vstd::seq_lib::to_multiset_insert(s, j as int, x@);
        assert forall|a: int, b: int| 0 <= a < b < t.len() implies str_le(#[trigger] t[a], #[trigger] t[b]) by {
            if b < j {
                assert(t[a] == s[a] && t[b] == s[b]);
            } else if b == j {
                assert(t[a] == s[a]);
            } else if a < j {
                assert(t[a] == s[a] && t[b] == s[b - 1]);
            } else if a == j {
                assert(t[b] == s[b - 1]);
            } else {
                assert(t[a] == s[a - 1] && t[b] == s[b - 1]);
            }
        }
    }
}

/// The installed packages named by the entries of the registry's package
/// directory, sorted.
pub fn list_installed_packages(lib_entries: &[String]) -> (r: Vec<String>)
    ensures
        str_sorted(texts(r@)),
        texts(r@).to_multiset() == installed_names(texts(lib_entries@)).to_multiset(),
{
    let ghost es = texts(lib_entries@);
    let mut r: Vec<String> = Vec::new();
    let mut i: usize = 0;
    assert(texts(r@) =~= Seq::<Seq<char>>::empty());
    assert(es.subrange(0, 0) =~= Seq::<Seq<char>>::empty());
    while i < lib_entries.len()
        invariant
            es == texts(lib_entries@),
            i <= lib_entries.len(),
            str_sorted(texts(r@)),
            texts(r@).to_multiset() == installed_names(es.subrange(0, i as int)).to_multiset(),
        decreases lib_entries.len() - i,
    {
        let ghost before = es.subrange(0, i as int);
        assert(es.subrange(0, i + 1).drop_last() =~= before);
        assert(es.subrange(0, i + 1).last() == lib_entries@[i as int]@);
        match installed_package_name(lib_entries[i].as_str()) {
            Some(n) => {
                proof {
                    vstd::seq_lib::to_multiset_build(installed_names(before), n@);
                }
                insert_sorted(&mut r, n);
            },
            None => {},
        }
        i = i + 1;
    }
    assert(es.subrange(0, lib_entries.len() as int) =~= es);
    r
}

/// How many entries of a listing are exactly `x`.
pub open spec fn occurrences(entries: Seq<Seq<char>>, x: Seq<char>) -> nat
    decreases entries.len(),
{
    if entries.len() == 0 {
        0
    } else {
        occurrences(entries.drop_last(), x) + if entries.last() == x { 1nat } else { 0nat }
    }
}

proof fn lemma_installed_count(entries: Seq<Seq<char>>, n: Seq<char>)
    ensures
        installed_names(entries).to_multiset().count(n) == occurrences(entries, fat_file_name(n)),
    decreases entries.len(),
{
    broadcast use vstd::multiset::group_multiset_axioms;
    if entries.len() == 0 {
        assert(installed_names(entries) =~= Seq::<Seq<char>>::empty());
        vstd::seq_lib::to_multiset_contains(installed_names(entries), n);
    } else {
        let init = entries.drop_last();
        let e = entries.last();
        lemma_installed_count(init, n);
        lemma_installed_name_of_fat_file(n);
        lemma_fat_file_of_installed_name(e);
        match installed_name(e) {
            Some(m) => {
                vstd::seq_lib::to_multiset_build(installed_names(init), m);
                if m == n {
                    assert(e == fat_file_name(n));
                } else {
                    assert(e != fat_file_name(n));
                }
            },
            None => {
                assert(e != fat_file_name(n));
            },
        }
    }
}

/// Every package image in the package directory is listed, once per entry,
/// and nothing else is: a listing with the multiset that
/// `list_installed_packages` gives holds `n` exactly as many times as the
/// directory holds `pkg-<n>.fat`.
pub proof fn law_every_image_listed(entries: Seq<Seq<char>>, listed: Seq<Seq<char>>, n: Seq<char>)
    requires
        listed.to_multiset() == installed_names(entries).to_multiset(),
    ensures
        listed.to_multiset().count(n) == occurrences(entries, PACKAGE_FAT_PREFIX@ + n + PACKAGE_FAT_SUFFIX@),
        entries.contains(PACKAGE_FAT_PREFIX@ + n + PACKAGE_FAT_SUFFIX@) ==> listed.contains(n),
{
    lemma_installed_count(entries, n);
    vstd::seq_lib::to_multiset_contains(listed, n);
    let f = PACKAGE_FAT_PREFIX@ + n + PACKAGE_FAT_SUFFIX@;
    if entries.contains(f) {
        let i = choose|i: int| 0 <= i < entries.len() && entries[i] == f;
        lemma_occurrences_positive(entries, f, i);
    }
}

proof fn lemma_occurrences_positive(entries: Seq<Seq<char>>, x: Seq<char>, i: int)
    requires
        0 <= i < entries.len(),
        entries[i] == x,
    ensures
        occurrences(entries, x) > 0,
    decreases entries.len(),
{
    if i < entries.len() - 1 {
        assert(entries.drop_last()[i] == x);
        lemma_occurrences_positive(entries.drop_last(), x, i);
    }
}

} // verus!
