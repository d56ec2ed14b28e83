//! Planning a FAT image for a package: its size, file system variant,
//! volume label, the directories to create in it and where the files go.
use vstd::prelude::*;
use crate::names::{normalize_name, normalized};
use crate::text::{chars_equal, chars_of, push_char, push_str, string_of, texts};
use crate::names::ascii_normalized;
use crate::unicode::{alphanumeric, ascii_alphanumeric, ascii_upper, is_alphanumeric, to_uppercase, uppercase};

verus! {

/// One mebibyte.
pub const MIB: u64 = 1048576;

/// Images at least this large are formatted as FAT32.
pub const FAT32_MIN_SIZE: u64 = 34603008;

/// The longest volume label FAT allows.
pub const LABEL_MAX_LEN: usize = 11;

/// Label used when the image's file stem is not valid Unicode.
pub const DEFAULT_LABEL_SOURCE: &'static str = "PACKAGE";

/// Size of an image holding `content` bytes: 30% more than the content, at
/// least 1 MiB, rounded up to a whole number of MiB.
pub open spec fn image_size(content: int) -> int {
    let mib = MIB as int;
    let grown = content * 130 / 100;
    let at_least = if grown < mib { mib } else { grown };
    ((at_least + mib - 1) / mib) * mib
}

/// The characters of an uppercased name that a label keeps: the
/// alphanumeric ones, `-` dropped.
pub open spec fn label_kept(upper: Seq<char>) -> Seq<char>
    decreases upper.len(),
{
    if upper.len() == 0 {
        Seq::empty()
    } else {
        let before = label_kept(upper.drop_last());
        let c = upper.last();
        if c != '-' && alphanumeric(c) { before.push(c) } else { before }
    }
}

/// The volume label made from an uppercased name: its kept characters, at
/// most eleven of them.
pub open spec fn label_of(upper: Seq<char>) -> Seq<char> {
    let k = label_kept(upper);
    if k.len() > LABEL_MAX_LEN { k.take(LABEL_MAX_LEN as int) } else { k }
}

/// The characters of an uppercased ASCII name that a label keeps: the
/// letters and digits.
pub open spec fn ascii_label_kept(upper: Seq<char>) -> Seq<char>
    decreases upper.len(),
{
    if upper.len() == 0 {
        Seq::empty()
    } else {
        let before = ascii_label_kept(upper.drop_last());
        let c = upper.last();
        if c != '-' && ascii_alphanumeric(c) { before.push(c) } else { before }
    }
}

/// The volume label made from an uppercased ASCII name: its letters and
/// digits, at most eleven of them.
pub open spec fn ascii_label_of(upper: Seq<char>) -> Seq<char> {
    let k = ascii_label_kept(upper);
    if k.len() > LABEL_MAX_LEN { k.take(LABEL_MAX_LEN as int) } else { k }
}

/// The volume label of an image whose file stem is the ASCII text `stem`:
/// the letters and digits of its normalised, uppercased form, at most eleven.
pub open spec fn ascii_volume_label(stem: Seq<char>) -> Seq<char> {
    ascii_label_of(ascii_normalized(stem).map_values(|c: char| ascii_upper(c)))
}

/// The volume label for an image whose file stem is `stem` (`None` when the
/// stem is not valid Unicode).
pub open spec fn volume_label(stem: Option<Seq<char>>) -> Seq<char> {
    let source = match stem {
        Some(s) => s,
        None => DEFAULT_LABEL_SOURCE@,
    };
    label_of(uppercase(normalized(source)))
}

/// Adds a finished path segment to the components, unless it is empty or `.`.
pub open spec fn close_segment(done: Seq<Seq<char>>, segment: Seq<char>) -> Seq<Seq<char>> {
    if segment.len() > 0 && segment != "."@ { done.push(segment) } else { done }
}

/// Reading a path from the start: the components finished so far and the
/// segment being read.
pub open spec fn scan_path(p: Seq<char>) -> (Seq<Seq<char>>, Seq<char>)
    decreases p.len(),
{
    if p.len() == 0 {
        (Seq::empty(), Seq::empty())
    } else {
        let (done, segment) = scan_path(p.drop_last());
        if p.last() == '/' {
            (close_segment(done, segment), Seq::empty())
        } else {
            (done, segment.push(p.last()))
        }
    }
}

/// The parts of a Unix path that can name something: its `/`-separated
/// segments without the empty ones and without `.`. These are the components
/// `Path::components` gives, less the root and a leading `.`, which std keeps
/// and which name nothing.
pub open spec fn path_components(p: Seq<char>) -> Seq<Seq<char>> {
    close_segment(scan_path(p).0, scan_path(p).1)
}

/// The components other than `..`, in order.
pub open spec fn without_parent_refs(c: Seq<Seq<char>>) -> Seq<Seq<char>>
    decreases c.len(),
{
    if c.len() == 0 {
        Seq::empty()
    } else {
        let before = without_parent_refs(c.drop_last());
        if c.last() != ".."@ { before.push(c.last()) } else { before }
    }
}

/// The named directories above a path's last part, in order, with `..`
/// skipped: on Unix, the normal components of `Path::parent`.
pub open spec fn parent_names(p: Seq<char>) -> Seq<Seq<char>> {
    let c = path_components(p);
    let above = if c.len() > 0 { c.drop_last() } else { c };
    without_parent_refs(above)
}

/// `/n[0]/n[1]/.../n[k-1]`.
pub open spec fn rooted_prefix(names: Seq<Seq<char>>, k: nat) -> Seq<char>
    decreases k,
{
    if k == 0 || k > names.len() {
        Seq::empty()
    } else {
        rooted_prefix(names, (k - 1) as nat).push('/') + names[k - 1]
    }
}

/// A path inside the image, in mtools' `::` notation.
pub open spec fn image_target(path: Seq<char>) -> Seq<char> {
    "::"@ + path
}

/// The directories to create in the image, in order: each directory above
/// `guest_path`, from the top, then `guest_path` itself.
pub open spec fn mkdir_targets(guest_path: Seq<char>) -> Seq<Seq<char>> {
    let names = parent_names(guest_path);
    Seq::new(names.len(), |k: int| image_target(rooted_prefix(names, (k + 1) as nat)))
        .push(image_target(guest_path))
}

/// Where the files are copied to in the image: `::<guest_path>/`.
pub open spec fn copy_target(guest_path: Seq<char>) -> Seq<char> {
    image_target(guest_path).push('/')
}

/// How to build a package's FAT image.
pub struct FatImagePlan {
    /// Size of the image file in bytes.
    pub size_bytes: u64,
    /// Whether to format the image as FAT32.
    pub fat32: bool,
    /// The volume label.
    pub label: String,
    /// The directories to create in the image, in order.
    pub mkdir_targets: Vec<String>,
    /// Where the extracted files are copied in the image.
    pub copy_target: String,
}

/// The size of an image holding `content_size` bytes.
pub fn fat_image_size(content_size: u64) -> (r: u64)
    requires
        content_size * 130 <= u64::MAX,
    ensures
        r == image_size(content_size as int),
{
    let grown = content_size * 130 / 100;
    let at_least = if grown < MIB { MIB } else { grown };
    assert(at_least + MIB - 1 <= u64::MAX);
    let whole = (at_least + MIB - 1) / MIB;
    assert(whole * 1048576 <= at_least + 1048576 - 1) by (nonlinear_arith)
        requires whole == (at_least + 1048576 - 1) as int / 1048576int;
    whole * MIB
}

/// Whether an image of `size` bytes is formatted as FAT32 (33 MiB or more).
pub fn uses_fat32(size: u64) -> (r: bool)
    ensures
        r == (size >= 33 * MIB),
{
    size >= FAT32_MIN_SIZE
}

/// The volume label made from an already uppercased name.
pub fn label_from_uppercase(upper: &str) -> (r: String)
    ensures
        r@ == label_of(upper@),
        vstd::utf8::is_ascii_chars(upper@) ==> r@ == ascii_label_of(upper@),
{
    let u = chars_of(upper);
    let mut kept: Vec<char> = Vec::new();
    let mut i: usize = 0;
    while i < u.len()
        invariant
            i <= u.len(),
            u@ == upper@,
            kept@ == label_kept(u@.subrange(0, i as int)),
            vstd::utf8::is_ascii_chars(u@) ==> kept@ == ascii_label_kept(u@.subrange(0, i as int)),
        decreases u.len() - i,
    {
        let c = u[i];
        assert(u@.subrange(0, i + 1).drop_last() =~= u@.subrange(0, i as int));
        assert(u@.subrange(0, i + 1).last() == c);
        if c != '-' && is_alphanumeric(c) {
            kept.push(c);
        }
        i = i + 1;
    }
    assert(u@.subrange(0, u@.len() as int) =~= u@);
    if kept.len() > LABEL_MAX_LEN {
        let mut short: Vec<char> = Vec::new();
        let mut j: usize = 0;
        while j < LABEL_MAX_LEN
            invariant
                j <= LABEL_MAX_LEN < kept.len(),
                short@ == kept@.take(j as int),
            decreases LABEL_MAX_LEN - j,
        {
            short.push(kept[j]);
            j = j + 1;
            assert(short@ =~= kept@.take(j as int));
        }
        string_of(short.as_slice())
    } else {
        string_of(kept.as_slice())
    }
}

/// The volume label of an image whose file stem is `stem`; `None` stands for
/// a stem that is not valid Unicode, which gives the label `PACKAGE`.
pub fn fat_volume_label(stem: Option<&str>) -> (r: String)
    ensures
        r@ == volume_label(match stem { Some(s) => Some(s@), None => None }),
        stem matches Some(s) ==> (vstd::utf8::is_ascii_chars(s@) ==> r@ == ascii_volume_label(s@)),
{
    let source = match stem {
        Some(s) => s,
        None => DEFAULT_LABEL_SOURCE,
    };
    let n = normalize_name(source);
    proof {
        if vstd::utf8::is_ascii_chars(source@) {
            assert forall|i: int| 0 <= i < n@.len() implies '\0' <= #[trigger] n@[i] <= '\u{7f}' by {
                let c = source@[i];
                assert('A' <= c <= 'Z' ==> 'a' <= crate::unicode::ascii_lower(c) <= 'z');
            }
        }
    }
    let upper = to_uppercase(n.as_str());
    proof {
        if vstd::utf8::is_ascii_chars(n@) {
            assert forall|i: int| 0 <= i < upper@.len() implies '\0' <= #[trigger] upper@[i] <= '\u{7f}' by {
                let c = n@[i];
                assert('a' <= c <= 'z' ==> 'A' <= ascii_upper(c) <= 'Z');
            }
        }
    }
    label_from_uppercase(upper.as_str())
}

/// The parts of a Unix path that can name something: its non-empty
/// `/`-separated segments other than `.` (`Path::components` less the root
/// and a leading `.`).
pub fn path_component_list(path: &str) -> (r: Vec<String>)
    ensures
        texts(r@) == path_components(path@),
{
    let c = chars_of(path);
    let dot = chars_of(".");
    let mut done: Vec<String> = Vec::new();
    let mut segment: Vec<char> = Vec::new();
    let mut i: usize = 0;
    while i < c.len()
        invariant
            i <= c.len(),
            dot@ == "."@,
            texts(done@) == scan_path(c@.subrange(0, i as int)).0,
            segment@ == scan_path(c@.subrange(0, i as int)).1,
        decreases c.len() - i,
    {
        assert(c@.subrange(0, i + 1).drop_last() =~= c@.subrange(0, i as int));
        if c[i] == '/' {
            if segment.len() > 0 && !chars_equal(segment.as_slice(), dot.as_slice()) {
                done.push(string_of(segment.as_slice()));
                assert(texts(done@) =~= scan_path(c@.subrange(0, i + 1)).0);
            }
            segment = Vec::new();
        } else {
            segment.push(c[i]);
        }
        i = i + 1;
    }
    assert(c@.subrange(0, c@.len() as int) =~= c@);
    if segment.len() > 0 && !chars_equal(segment.as_slice(), dot.as_slice()) {
        done.push(string_of(segment.as_slice()));
        assert(texts(done@) =~= path_components(path@));
    }
    done
}

/// The directories to create in the image so that `guest_path` exists, in
/// order: each named directory above it, from the top, then `guest_path`
/// itself, written in mtools' `::` notation.
pub fn fat_mkdir_targets(guest_path: &str) -> (r: Vec<String>)
    ensures
        texts(r@) == mkdir_targets(guest_path@),
{
    let comps = path_component_list(guest_path);
    let ghost cs = texts(comps@);
    let above: usize = if comps.len() > 0 { comps.len() - 1 } else { 0 };
    let ghost above_seq = if cs.len() > 0 { cs.drop_last() } else { cs };
    let dotdot = chars_of("..");
    let mut names: Vec<String> = Vec::new();
    let mut k: usize = 0;
    while k < above
        invariant
            cs == texts(comps@),
            above_seq == (if cs.len() > 0 { cs.drop_last() } else { cs }),
            above == above_seq.len(),
            dotdot@ == ".."@,
            k <= above,
            texts(names@) == without_parent_refs(above_seq.subrange(0, k as int)),
        decreases above - k,
    {
        assert(above_seq.subrange(0, k + 1).drop_last() =~= above_seq.subrange(0, k as int));
        let name = chars_of(comps[k].as_str());
        if !chars_equal(name.as_slice(), dotdot.as_slice()) {
            names.push(comps[k].clone());
            assert(texts(names@) =~= without_parent_refs(above_seq.subrange(0, k + 1)));
        }
        k = k + 1;
    }
    assert(above_seq.subrange(0, above as int) =~= above_seq);
    let ghost ns = texts(names@);
    assert(ns == parent_names(guest_path@));
    let mut current = String::new();
    let mut targets: Vec<String> = Vec::new();
    let mut j: usize = 0;
    while j < names.len()
        invariant
            ns == texts(names@),
            j <= names.len(),
            current@ == rooted_prefix(ns, j as nat),
            texts(targets@) =~= Seq::new(j as nat, |m: int| image_target(rooted_prefix(ns, (m + 1) as nat))),
        decreases names.len() - j,
    {
        push_char(&mut current, '/');
        push_str(&mut current, names[j].as_str());
        assert(current@ == rooted_prefix(ns, (j + 1) as nat));
        let mut t = String::from_str("::");
        push_str(&mut t, current.as_str());
        assert(t@ == image_target(rooted_prefix(ns, (j + 1) as nat)));
        let ghost before = texts(targets@);
        targets.push(t);
        assert(texts(targets@) =~= before.push(t@));
        j = j + 1;
        assert(texts(targets@) =~= Seq::new(j as nat, |m: int| image_target(rooted_prefix(ns, (m + 1) as nat))));
    }
    let mut last = String::from_str("::");
    push_str(&mut last, guest_path);
    targets.push(last);
    assert(texts(targets@) =~= mkdir_targets(guest_path@));
    targets
}

/// Where the extracted files are copied in the image: `::<guest_path>/`.
pub fn fat_copy_target(guest_path: &str) -> (r: String)
    ensures
        r@ == copy_target(guest_path@),
{
    let mut t = String::from_str("::");
    push_str(&mut t, guest_path);
    push_char(&mut t, '/');
    t
}

/// The plan for the image of `content_size` bytes of files, written to a
/// file whose stem is `image_stem`, holding the files under `guest_path`.
pub fn plan_fat_image(content_size: u64, image_stem: Option<&str>, guest_path: &str) -> (r: FatImagePlan)
    requires
        content_size * 130 <= u64::MAX,
    ensures
        r.size_bytes == image_size(content_size as int),
        r.fat32 == (r.size_bytes >= 33 * MIB),
        r.label@ == volume_label(match image_stem { Some(s) => Some(s@), None => None }),
        image_stem matches Some(s) ==> (vstd::utf8::is_ascii_chars(s@) ==> r.label@ == ascii_volume_label(s@)),
        texts(r.mkdir_targets@) == mkdir_targets(guest_path@),
        r.copy_target@ == copy_target(guest_path@),
{
    let size_bytes = fat_image_size(content_size);
    FatImagePlan {
        size_bytes,
        fat32: uses_fat32(size_bytes),
        label: fat_volume_label(image_stem),
        mkdir_targets: fat_mkdir_targets(guest_path),
        copy_target: fat_copy_target(guest_path),
    }
}

/// The tools that building an image needs on the host.
pub open spec fn fat_tools() -> Seq<Seq<char>> {
    seq!["mkfs.fat"@, "mcopy"@, "mmd"@]
}

/// Why an image could not be built.
pub enum FatImageError {
    /// A required tool is not installed.
    ToolMissing { tool: String },
    /// `mkfs.fat` could not be run.
    FormatUnavailable,
    /// There is nothing to copy into the image.
    NoFiles { source: String },
    /// `mcopy` could not be run.
    CopyUnavailable,
    /// `mcopy` exited with a failure.
    CopyFailed,
}

/// The text of an image error.
pub open spec fn fat_error_text(e: FatImageError) -> Seq<char> {
    match e {
        FatImageError::ToolMissing { tool } => "Required tool '"@ + tool@
            + "' not found. Install with: sudo apt-get install dosfstools mtools"@,
        FatImageError::FormatUnavailable => "Failed to run mkfs.fat"@,
        FatImageError::NoFiles { source } => "No files found in extracted wheel at "@ + source@,
        FatImageError::CopyUnavailable => "Failed to run mcopy"@,
        FatImageError::CopyFailed => "mcopy failed when populating FAT image"@,
    }
}

impl FatImageError {
    /// The error's text.
    pub fn message(&self) -> (r: String)
        ensures
            r@ == fat_error_text(*self),
    {
        match self {
            FatImageError::ToolMissing { tool } => {
                let mut r = String::from_str("Required tool '");
                push_str(&mut r, tool.as_str());
                push_str(&mut r, "' not found. Install with: sudo apt-get install dosfstools mtools");
                r
            },
            FatImageError::FormatUnavailable => String::from_str("Failed to run mkfs.fat"),
            FatImageError::NoFiles { source } => {
                let mut r = String::from_str("No files found in extracted wheel at ");
                push_str(&mut r, source.as_str());
                r
            },
            FatImageError::CopyUnavailable => String::from_str("Failed to run mcopy"),
            FatImageError::CopyFailed => String::from_str("mcopy failed when populating FAT image"),
        }
    }
}

/// The tools that building an image needs, in the order they are checked.
pub fn required_fat_tools() -> (r: Vec<String>)
    ensures
        texts(r@) == fat_tools(),
{
    let mut r: Vec<String> = Vec::new();
    r.push(String::from_str("mkfs.fat"));
    r.push(String::from_str("mcopy"));
    r.push(String::from_str("mmd"));
    assert(texts(r@) =~= fat_tools());
    r
}

/// An image is a whole number of MiB, at least 1 MiB, at least 130% of the
/// content, and less than 1 MiB above the larger of those two bounds.
pub proof fn law_image_size_bounds(content: int)
    requires
        0 <= content,
    ensures
        image_size(content) % (MIB as int) == 0,
        image_size(content) >= MIB as int,
        image_size(content) >= content * 130 / 100,
        image_size(content) < (if content * 130 / 100 < MIB as int { MIB as int } else { content * 130 / 100 }) + MIB as int,
{
    let mib = MIB as int;
    let grown = content * 130 / 100;
    let at_least = if grown < mib { mib } else { grown };
    let q = (at_least + mib - 1) / mib;
    assert(q * mib <= at_least + mib - 1 && q * mib > at_least - 1 && (q * mib) % mib == 0) by (nonlinear_arith)
        requires q == (at_least + mib - 1) / mib, mib == 1048576, at_least >= mib;
}

proof fn lemma_label_kept_chars(upper: Seq<char>)
    ensures
        forall|i: int| 0 <= i < label_kept(upper).len() ==>
            #[trigger] label_kept(upper)[i] != '-' && alphanumeric(label_kept(upper)[i]),
    decreases upper.len(),
{
    if upper.len() > 0 {
        let before = label_kept(upper.drop_last());
        lemma_label_kept_chars(upper.drop_last());
        assert forall|i: int| 0 <= i < label_kept(upper).len() implies
            #[trigger] label_kept(upper)[i] != '-' && alphanumeric(label_kept(upper)[i]) by {
            if i < before.len() {
                assert(label_kept(upper)[i] == before[i]);
            }
        }
    }
}

/// A volume label has at most eleven characters, each of them alphanumeric
/// and none of them `-`.
pub proof fn law_label_shape(upper: Seq<char>)
    ensures
        label_of(upper).len() <= LABEL_MAX_LEN,
        forall|i: int| 0 <= i < label_of(upper).len() ==>
            #[trigger] label_of(upper)[i] != '-' && alphanumeric(label_of(upper)[i]),
{
    lemma_label_kept_chars(upper);
    let k = label_kept(upper);
    assert forall|i: int| 0 <= i < label_of(upper).len() implies
        #[trigger] label_of(upper)[i] != '-' && alphanumeric(label_of(upper)[i]) by {
        assert(label_of(upper)[i] == k[i]);
    }
}

/// Each directory above the guest path is created right after its parent:
/// the target at position `k + 1` is the one at `k` with one more name.
pub proof fn law_parents_created_first(guest_path: Seq<char>, k: int)
    requires
        0 <= k,
        k + 1 < parent_names(guest_path).len(),
    ensures
        mkdir_targets(guest_path)[k + 1]
            == mkdir_targets(guest_path)[k].push('/') + parent_names(guest_path)[k + 1],
{
    let names = parent_names(guest_path);
    assert(rooted_prefix(names, (k + 2) as nat) == rooted_prefix(names, (k + 1) as nat).push('/') + names[k + 1]);
    assert(image_target(rooted_prefix(names, (k + 2) as nat)) =~= image_target(rooted_prefix(names, (k + 1) as nat)).push('/') + names[k + 1]);
}

/// What finding the tools gives: the first tool, in the order of
/// `fat_tools`, that is not installed is reported; with all of them, nothing.
pub open spec fn tools_result(present: Seq<bool>, r: Result<(), FatImageError>) -> bool {
    match r {
        Ok(()) => forall|k: int| 0 <= k < 3 ==> #[trigger] present[k],
        Err(FatImageError::ToolMissing { tool }) => exists|k: int| 0 <= k < 3 && !#[trigger] present[k]
            && (forall|m: int| 0 <= m < k ==> present[m]) && tool@ == fat_tools()[k],
        Err(_) => false,
    }
}

/// Checks the tools, given whether each of `mkfs.fat`, `mcopy` and `mmd`
/// (in that order) is installed: the first missing one is the error.
pub fn check_fat_tools(present: &[bool]) -> (r: Result<(), FatImageError>)
    requires
        present@.len() == 3,
    ensures
        tools_result(present@, r),
{
    let tools = required_fat_tools();
    assert(tools@.len() == texts(tools@).len());
    let mut i: usize = 0;
    while i < 3
        invariant
            i <= 3,
            tools@.len() == 3,
            present@.len() == 3,
            texts(tools@) == fat_tools(),
            forall|m: int| 0 <= m < i ==> present@[m],
        decreases 3 - i,
    {
        if !present[i] {
            let tool = tools[i].clone();
            assert(tool@ == texts(tools@)[i as int]);
            return Err(FatImageError::ToolMissing { tool });
        }
        i = i + 1;
    }
    Ok(())
}

/// What formatting the image gives: `mkfs.fat` must start; how it exits is
/// not looked at.
pub fn format_result(started: bool) -> (r: Result<(), FatImageError>)
    ensures
        started <==> r is Ok,
        !started ==> r matches Err(FatImageError::FormatUnavailable),
{
    if started { Ok(()) } else { Err(FatImageError::FormatUnavailable) }
}

/// What copying the files into the image gives: `mcopy` must start and
/// succeed.
pub fn copy_result(started: bool, success: bool) -> (r: Result<(), FatImageError>)
    ensures
        (started && success) <==> r is Ok,
        !started ==> r matches Err(FatImageError::CopyUnavailable),
        started && !success ==> r matches Err(FatImageError::CopyFailed),
{
    if !started {
        Err(FatImageError::CopyUnavailable)
    } else if !success {
        Err(FatImageError::CopyFailed)
    } else {
        Ok(())
    }
}

} // verus!
