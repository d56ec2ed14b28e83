//! Setting up the local registry of guest binaries: which of them still have
//! to be downloaded.
use vstd::prelude::*;
use crate::text::texts;

verus! {

/// Setting up the registry, one guest binary at a time. Whether each binary
/// is cached is read once, before anything is downloaded.
pub struct RegistrySetupRun {
    pub kernel_cached: bool,
    pub qjs_cached: bool,
    pub python_cached: bool,
    /// The position of the next binary to deal with.
    pub position: usize,
    /// A download has been asked for and its outcome is awaited.
    pub waiting: bool,
    /// Nothing more to do.
    pub finished: bool,
}

/// What to do next in setting up the registry.
pub enum SetupAction {
    /// Every guest binary is cached: nothing to do.
    AlreadySetUp,
    /// Download the binary, announcing it with `announcement`, and report
    /// whether it succeeded.
    Download { binary: String, announcement: String },
    /// The binary is already cached; say so with `note`.
    NoteCached { note: String },
    /// Every binary not cached has been downloaded.
    Complete,
}

/// The guest binaries, in the order they are set up.
pub open spec fn guest_binaries() -> Seq<Seq<char>> {
    seq!["kernel.elf"@, "qjs"@, "python3"@]
}

/// How the download of each guest binary is announced.
pub open spec fn download_announcements() -> Seq<Seq<char>> {
    seq!["Downloading kernel.elf... "@, "Downloading qjs binary... "@, "Downloading python3 binary... "@]
}

/// What is said of each guest binary that is already cached.
pub open spec fn cached_notes() -> Seq<Seq<char>> {
    seq!["kernel.elf already cached"@, "qjs already cached"@, "python3 already cached"@]
}

/// Whether the binary at position `k` was cached.
pub open spec fn cached_at(run: RegistrySetupRun, k: int) -> bool {
    if k == 0 { run.kernel_cached } else if k == 1 { run.qjs_cached } else { run.python_cached }
}

/// The run may be asked for its next action.
pub open spec fn ready(run: RegistrySetupRun) -> bool {
    !run.waiting && !run.finished && run.position <= 3
}

/// The same cache flags.
pub open spec fn same_cache(a: RegistrySetupRun, b: RegistrySetupRun) -> bool {
    a.kernel_cached == b.kernel_cached && a.qjs_cached == b.qjs_cached && a.python_cached == b.python_cached
}

/// The action and the state after asking a ready run for its next action:
/// nothing at all when every binary is cached; otherwise, for each binary in
/// order, a note when it is cached and a download when it is not; then the
/// end of the setup.
pub open spec fn next_result(old: RegistrySetupRun, action: SetupAction, new: RegistrySetupRun) -> bool {
    &&& same_cache(old, new)
    &&& if old.position == 0 && old.kernel_cached && old.qjs_cached && old.python_cached {
        action is AlreadySetUp && new.finished && !new.waiting && new.position == old.position
    } else if old.position >= 3 {
        action is Complete && new.finished && !new.waiting && new.position == old.position
    } else if cached_at(old, old.position as int) {
        &&& action matches SetupAction::NoteCached { note }
        &&& note@ == cached_notes()[old.position as int]
        &&& new.position == old.position + 1 && !new.waiting && !new.finished
    } else {
        &&& action matches SetupAction::Download { binary, announcement }
        &&& binary@ == guest_binaries()[old.position as int]
        &&& announcement@ == download_announcements()[old.position as int]
        &&& new.position == old.position && new.waiting && !new.finished
    }
}

/// The state after the outcome of a download: a success moves on to the next
/// binary; a failure ends the setup, which then fails with that download's
/// error.
pub open spec fn download_result(old: RegistrySetupRun, ok: bool, new: RegistrySetupRun) -> bool {
    &&& same_cache(old, new)
    &&& !new.waiting
    &&& if ok {
        new.position == old.position + 1 && !new.finished
    } else {
        new.position == old.position && new.finished
    }
}

/// The step for the guest binary at position `k`, given whether it is cached.
pub open spec fn step_for(k: int, cached: bool, step: SetupAction) -> bool {
    if cached {
        step matches SetupAction::NoteCached { note } && note@ == cached_notes()[k]
    } else {
        step matches SetupAction::Download { binary, announcement }
            && binary@ == guest_binaries()[k] && announcement@ == download_announcements()[k]
    }
}

fn step(k: usize, cached: bool) -> (r: SetupAction)
    requires
        k < 3,
    ensures
        step_for(k as int, cached, r),
{
    if cached {
        let note = if k == 0 {
            String::from_str("kernel.elf already cached")
        } else if k == 1 {
            String::from_str("qjs already cached")
        } else {
            String::from_str("python3 already cached")
        };
        SetupAction::NoteCached { note }
    } else {
        let (binary, announcement) = if k == 0 {
            (String::from_str("kernel.elf"), String::from_str("Downloading kernel.elf... "))
        } else if k == 1 {
            (String::from_str("qjs"), String::from_str("Downloading qjs binary... "))
        } else {
            (String::from_str("python3"), String::from_str("Downloading python3 binary... "))
        };
        SetupAction::Download { binary, announcement }
    }
}

/// The guest binaries, in the order they are set up.
pub fn guest_binary_names() -> (r: Vec<String>)
    ensures
        texts(r@) == guest_binaries(),
{
    let mut r: Vec<String> = Vec::new();
    r.push(String::from_str("kernel.elf"));
    r.push(String::from_str("qjs"));
    r.push(String::from_str("python3"));
    assert(texts(r@) =~= guest_binaries());
    r
}

impl RegistrySetupRun {
    /// Starts setting up the registry, given which guest binaries
    /// (`kernel.elf`, `qjs`, `python3`) are cached.
    pub fn new(kernel_cached: bool, qjs_cached: bool, python_cached: bool) -> (r: RegistrySetupRun)
        ensures
            r.kernel_cached == kernel_cached,
            r.qjs_cached == qjs_cached,
            r.python_cached == python_cached,
            r.position == 0,
            ready(r),
    {
        RegistrySetupRun { kernel_cached, qjs_cached, python_cached, position: 0, waiting: false, finished: false }
    }

    /// Whether the run may be asked for its next action.
    pub fn is_ready(&self) -> (r: bool)
        ensures
            r == ready(*self),
    {
        !self.waiting && !self.finished && self.position <= 3
    }

    /// Whether the run awaits the outcome of a download.
    pub fn awaits_download(&self) -> (r: bool)
        ensures
            r == (self.waiting && !self.finished && self.position < 3),
    {
        self.waiting && !self.finished && self.position < 3
    }

    /// The next action of the setup.
    pub fn next(&mut self) -> (action: SetupAction)
        requires
            ready(*old(self)),
        ensures
            next_result(*old(self), action, *final(self)),
    {
        if self.position == 0 && self.kernel_cached && self.qjs_cached && self.python_cached {
            self.finished = true;
            return SetupAction::AlreadySetUp;
        }
        if self.position >= 3 {
            self.finished = true;
            return SetupAction::Complete;
        }
        let k = self.position;
        let cached = if k == 0 { self.kernel_cached } else if k == 1 { self.qjs_cached } else { self.python_cached };
        if cached {
            self.position = k + 1;
        } else {
            self.waiting = true;
        }
        step(k, cached)
    }

    /// Takes in whether the download asked for succeeded.
    pub fn downloaded(&mut self, ok: bool)
        requires
            old(self).waiting,
            !old(self).finished,
            old(self).position < 3,
        ensures
            download_result(*old(self), ok, *final(self)),
    {
        self.waiting = false;
        if ok {
            self.position = self.position + 1;
        } else {
            self.finished = true;
        }
    }
}

/// A cached binary is never downloaded: a download is only asked for the
/// binary at the run's position, and only when it was not cached.
pub proof fn law_cached_binary_never_downloaded(old: RegistrySetupRun, action: SetupAction, new: RegistrySetupRun)
    requires
        ready(old),
        next_result(old, action, new),
        action is Download,
    ensures
        old.position < 3,
        !cached_at(old, old.position as int),
{
}

/// A failed download ends the setup: the run asks for nothing more.
pub proof fn law_failed_download_ends_setup(old: RegistrySetupRun, new: RegistrySetupRun)
    requires
        download_result(old, false, new),
    ensures
        !ready(new),
        new.finished,
{
}

/// The setup counts as done at once only when all three binaries are
/// cached.
pub proof fn law_already_set_up_only_when_all_cached(old: RegistrySetupRun, action: SetupAction, new: RegistrySetupRun)
    requires
        ready(old),
        next_result(old, action, new),
        action is AlreadySetUp,
    ensures
        old.kernel_cached && old.qjs_cached && old.python_cached,
{
}

/// Every binary that is not cached is downloaded when the setup reaches it:
/// at a position whose binary was not cached the action is that binary's
/// download, and the run waits for its outcome before going on.
pub proof fn law_uncached_binary_downloaded(old: RegistrySetupRun, action: SetupAction, new: RegistrySetupRun)
    requires
        ready(old),
        old.position < 3,
        !cached_at(old, old.position as int),
        next_result(old, action, new),
    ensures
        action matches SetupAction::Download { binary, .. } && binary@ == guest_binaries()[old.position as int],
        new.waiting,
        new.position == old.position,
{
}

/// The setup ends without failure only after passing every binary: a run
/// that completes has reached the position after the last one.
pub proof fn law_complete_after_every_binary(old: RegistrySetupRun, action: SetupAction, new: RegistrySetupRun)
    requires
        ready(old),
        next_result(old, action, new),
        action is Complete,
    ensures
        old.position == 3,
{
}

/// A cached binary is only noted, never downloaded, and the run moves on.
pub proof fn law_cached_binary_noted(old: RegistrySetupRun, action: SetupAction, new: RegistrySetupRun)
    requires
        ready(old),
        old.position < 3,
        cached_at(old, old.position as int),
        !(old.position == 0 && old.kernel_cached && old.qjs_cached && old.python_cached),
        next_result(old, action, new),
    ensures
        action is NoteCached,
        new.position == old.position + 1,
        ready(new),
{
}

/// After a successful download the run is ready for the next binary.
pub proof fn law_successful_download_moves_on(old: RegistrySetupRun, new: RegistrySetupRun)
    requires
        old.waiting,
        !old.finished,
        old.position < 3,
        download_result(old, true, new),
    ensures
        new.position == old.position + 1,
        ready(new),
{
}

} // verus!
