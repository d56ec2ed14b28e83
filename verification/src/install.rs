//! The decisions of building a package image, as a state machine: the caller
//! performs each action (downloading, extracting, compiling, writing the
//! image) and reports what happened as the next event.
use vstd::prelude::*;
use crate::fat::{fat_error_text, FatImageError};
use crate::interpreter::{python_choice, python_error_text, select_python, ProbeOutcome, PythonError};
use crate::names::{normalize_name, normalized};
use crate::registry::{join_path, joined};
use crate::text::{decimal, decimal_string, push_str, texts};
use crate::unicode::{from_utf8_lossy, lossy_text, lowercase};
use crate::wheel::{
    find_wheel, is_pure_python_wheel, is_pure_wheel_name, last_line, last_line_of, wheel_choice,
    wheel_prefix,
};

verus! {

/// At most this many native extension files are named in an error.
pub const NATIVE_FILES_SHOWN: usize = 3;

/// Why a package could not be built.
pub enum BuildError {
    /// `pip` could not be run.
    PipUnavailable,
    /// `pip download` failed; `detail` is the last line it wrote to stderr.
    DownloadFailed { package: String, detail: String },
    /// No wheel of the package was found among `count` wheel files in `dir`.
    WheelNotFound { package: String, dir: String, count: usize },
    /// The wheel is built for a platform, not pure Python.
    NotPureWheel { package: String, wheel: String },
    /// `unzip` could not be run.
    UnzipUnavailable,
    /// `unzip` failed.
    ExtractFailed { package: String },
    /// The wheel holds native extensions; `files` are their paths inside it.
    NativeExtensions { package: String, files: Vec<String> },
    /// No suitable Python interpreter.
    Python(PythonError),
    /// The image could not be built.
    Image(FatImageError),
}

/// `items` joined by a line break and two spaces.
pub open spec fn indented_lines(items: Seq<Seq<char>>) -> Seq<char>
    decreases items.len(),
{
    if items.len() == 0 {
        Seq::empty()
    } else if items.len() == 1 {
        items[0]
    } else {
        indented_lines(items.drop_last()) + "\n  "@ + items.last()
    }
}

/// The list of native extension files in an error: the first three, then how
/// many more there are.
pub open spec fn native_listing(files: Seq<Seq<char>>) -> Seq<char> {
    let n = NATIVE_FILES_SHOWN as int;
    if files.len() > n {
        indented_lines(files.take(n)) + "\n  ... and "@ + decimal((files.len() - n) as nat) + " more"@
    } else {
        indented_lines(files)
    }
}

/// The text of a build error.
pub open spec fn build_error_text(e: BuildError) -> Seq<char> {
    match e {
        BuildError::PipUnavailable => "Failed to run pip. Is pip installed?"@,
        BuildError::DownloadFailed { package, detail } => "Failed to download a pure-Python wheel for '"@
            + package@ + "'. Only pure-Python packages (no C extensions) are supported.\n  pip stderr: "@
            + detail@,
        BuildError::WheelNotFound { package, dir, count } => "Could not find wheel for '"@ + package@
            + "' in "@ + dir@ + ". Found "@ + decimal(count as nat) + " .whl files."@,
        BuildError::NotPureWheel { package, wheel } => "Package '"@ + package@
            + "' is not a pure-Python wheel (filename: "@ + wheel@
            + "). Only pure-Python packages (no C extensions) are supported in Nanvix."@,
        BuildError::UnzipUnavailable => "Failed to run unzip. Is unzip installed?"@,
        BuildError::ExtractFailed { package } => "Failed to extract wheel for '"@ + package@ + "'"@,
        BuildError::NativeExtensions { package, files } => "Package '"@ + package@
            + "' contains native extensions and cannot run in Nanvix:\n  "@ + native_listing(texts(files@)),
        BuildError::Python(p) => python_error_text(p),
        BuildError::Image(i) => fat_error_text(i),
    }
}

/// Appends `items` to `r`, joined by a line break and two spaces.
fn push_indented_lines(r: &mut String, items: &[String], count: usize)
    requires
        count <= items.len(),
    ensures
        final(r)@ == old(r)@ + indented_lines(texts(items@).take(count as int)),
{
    let ghost t = texts(items@);
    let ghost start = r@;
    let mut i: usize = 0;
    assert(t.take(0) =~= Seq::<Seq<char>>::empty());
    while i < count
        invariant
            t == texts(items@),
            count <= items.len(),
            i <= count,
            r@ == start + indented_lines(t.take(i as int)),
        decreases count - i,
    {
        assert(t.take(i + 1).drop_last() =~= t.take(i as int));
        if i > 0 {
            push_str(r, "\n  ");
        } else {
            assert(t.take(1) =~= seq![t[0]]);
        }
        push_str(r, items[i].as_str());
        i = i + 1;
        assert(r@ =~= start + indented_lines(t.take(i as int)));
    }
}

impl BuildError {
    /// The error's text.
    pub fn message(&self) -> (r: String)
        ensures
            r@ == build_error_text(*self),
    {
        match self {
            BuildError::PipUnavailable => String::from_str("Failed to run pip. Is pip installed?"),
            BuildError::DownloadFailed { package, detail } => {
                let mut r = String::from_str("Failed to download a pure-Python wheel for '");
                push_str(&mut r, package.as_str());
                push_str(&mut r, "'. Only pure-Python packages (no C extensions) are supported.\n  pip stderr: ");
                push_str(&mut r, detail.as_str());
                r
            },
            BuildError::WheelNotFound { package, dir, count } => {
                let mut r = String::from_str("Could not find wheel for '");
                push_str(&mut r, package.as_str());
                push_str(&mut r, "' in ");
                push_str(&mut r, dir.as_str());
                push_str(&mut r, ". Found ");
                let n = decimal_string(*count);
                push_str(&mut r, n.as_str());
                push_str(&mut r, " .whl files.");
                r
            },
            BuildError::NotPureWheel { package, wheel } => {
                let mut r = String::from_str("Package '");
                push_str(&mut r, package.as_str());
                push_str(&mut r, "' is not a pure-Python wheel (filename: ");
                push_str(&mut r, wheel.as_str());
                push_str(&mut r, "). Only pure-Python packages (no C extensions) are supported in Nanvix.");
                r
            },
            BuildError::UnzipUnavailable => String::from_str("Failed to run unzip. Is unzip installed?"),
            BuildError::ExtractFailed { package } => {
                let mut r = String::from_str("Failed to extract wheel for '");
                push_str(&mut r, package.as_str());
                push_str(&mut r, "'");
                r
            },
            BuildError::NativeExtensions { package, files } => {
                let mut r = String::from_str("Package '");
                push_str(&mut r, package.as_str());
                push_str(&mut r, "' contains native extensions and cannot run in Nanvix:\n  ");
                let ghost t = texts(files@);
                if files.len() > NATIVE_FILES_SHOWN {
                    push_indented_lines(&mut r, files.as_slice(), NATIVE_FILES_SHOWN);
                    push_str(&mut r, "\n  ... and ");
                    let n = decimal_string(files.len() - NATIVE_FILES_SHOWN);
                    push_str(&mut r, n.as_str());
                    push_str(&mut r, " more");
                } else {
                    push_indented_lines(&mut r, files.as_slice(), files.len());
                    assert(t.take(files.len() as int) =~= t);
                }
                r
            },
            BuildError::Python(p) => p.message(),
            BuildError::Image(i) => i.message(),
        }
    }
}

/// The working directories of a package build inside a registry.
pub struct StagingDirs {
    /// `<registry>/tmp/pkg-staging`, shared by all builds.
    pub base: String,
    /// `<base>/<normalised name>`, this build's own directory.
    pub dir: String,
    /// `<dir>/wheels`, where the wheel is downloaded.
    pub wheels: String,
    /// `<dir>/extracted`, where the wheel is unpacked.
    pub extracted: String,
}

/// The staging directory shared by all builds in a registry.
pub open spec fn staging_base_of(registry: Seq<char>) -> Seq<char> {
    joined(joined(registry, "tmp"@), "pkg-staging"@)
}

/// A build's own staging directory.
pub open spec fn staging_dir_of(registry: Seq<char>, package_name: Seq<char>) -> Seq<char> {
    joined(staging_base_of(registry), normalized(package_name))
}

/// The arguments of the `pip` run that downloads the package's pure-Python
/// wheel into `wheel_dir`.
pub open spec fn pip_args(wheel_dir: Seq<char>, package_name: Seq<char>) -> Seq<Seq<char>> {
    seq![
        "download"@,
        "--no-deps"@,
        "--only-binary=:all:"@,
        "--platform=any"@,
        "--python-version=3.12"@,
        "--abi=none"@,
        "-d"@,
        wheel_dir,
        package_name,
    ]
}

/// The working directories of building `package_name` in `registry`.
pub fn staging_dirs(registry: &str, package_name: &str) -> (r: StagingDirs)
    ensures
        r.base@ == staging_base_of(registry@),
        r.dir@ == staging_dir_of(registry@, package_name@),
        r.wheels@ == joined(r.dir@, "wheels"@),
        r.extracted@ == joined(r.dir@, "extracted"@),
{
    let tmp = join_path(registry, "tmp");
    let base = join_path(tmp.as_str(), "pkg-staging");
    let name = normalize_name(package_name);
    let dir = join_path(base.as_str(), name.as_str());
    let wheels = join_path(dir.as_str(), "wheels");
    let extracted = join_path(dir.as_str(), "extracted");
    StagingDirs { base, dir, wheels, extracted }
}

/// The arguments of the `pip` run that downloads only a pure-Python wheel of
/// the package (no dependencies, binaries only, any platform, Python 3.12,
/// no ABI) into `wheel_dir`.
pub fn pip_download_args(wheel_dir: &str, package_name: &str) -> (r: Vec<String>)
    ensures
        texts(r@) == pip_args(wheel_dir@, package_name@),
{
    let mut r: Vec<String> = Vec::new();
    r.push(String::from_str("download"));
    r.push(String::from_str("--no-deps"));
    r.push(String::from_str("--only-binary=:all:"));
    r.push(String::from_str("--platform=any"));
    r.push(String::from_str("--python-version=3.12"));
    r.push(String::from_str("--abi=none"));
    r.push(String::from_str("-d"));
    r.push(String::from_str(wheel_dir));
    r.push(String::from_str(package_name));
    assert(texts(r@) =~= pip_args(wheel_dir@, package_name@));
    r
}

/// Where a package build stands.
#[derive(PartialEq, Eq, Structural, Clone, Copy, Debug)]
pub enum BuildStage {
    /// Waiting to hear whether the package's image already exists.
    Checking,
    /// Waiting for the wheel download.
    Downloading,
    /// Waiting for the listing of the download directory.
    LocatingWheel,
    /// Waiting for the wheel to be extracted.
    Extracting,
    /// Waiting for the scan of the extracted files for native extensions.
    Scanning,
    /// Waiting for the probes of the host's Python interpreters.
    ChoosingPython,
    /// Waiting for the bytecode to be compiled.
    Compiling,
    /// Waiting for the image to be written.
    Imaging,
    /// Nothing more to do.
    Finished,
}

/// What happened when the last action was performed.
pub enum BuildEvent {
    /// Whether the package's image already exists in the registry.
    InstallChecked { installed: bool },
    /// Whether `pip download` could be started, whether it succeeded, and what
    /// it wrote to stderr.
    Downloaded { started: bool, success: bool, stderr: Vec<u8> },
    /// The names of the entries of the download directory `dir`.
    WheelsListed { dir: String, entry_names: Vec<String> },
    /// Whether `unzip` could be started and whether it succeeded.
    Extracted { started: bool, success: bool },
    /// The paths, inside the extracted wheel, of its native extension files.
    Scanned { native_files: Vec<String> },
    /// What probing `python3.12` and `python3` gave.
    PythonProbed { python312: ProbeOutcome, python3: ProbeOutcome },
    /// The bytecode compiler ran (whatever its outcome).
    Compiled,
    /// The image was written.
    ImageBuilt,
}

/// What to do next.
pub enum BuildAction {
    /// The package is already installed: keep its image.
    UseExisting,
    /// Prepare the staging directories and download the wheel.
    Download,
    /// List the download directory.
    ListWheels,
    /// Extract the wheel at this position of the listing.
    Extract { wheel_index: usize },
    /// Look for native extensions among the extracted files.
    ScanForNativeExtensions,
    /// Probe the host's Python interpreters.
    ProbePython,
    /// Pre-compile the bytecode with this interpreter.
    Compile { python: String },
    /// Write the image.
    BuildImage,
    /// The package is installed.
    Installed,
    /// The build failed.
    Fail(BuildError),
}

/// A build of one package image.
pub struct PackageBuild {
    /// The package name as asked for.
    pub package: String,
    /// Rebuild even when the image exists.
    pub force: bool,
    /// Where the build stands.
    pub stage: BuildStage,
}

/// The event that a stage waits for.
pub open spec fn event_fits(stage: BuildStage, event: BuildEvent) -> bool {
    match event {
        BuildEvent::InstallChecked { .. } => stage == BuildStage::Checking,
        BuildEvent::Downloaded { .. } => stage == BuildStage::Downloading,
        BuildEvent::WheelsListed { .. } => stage == BuildStage::LocatingWheel,
        BuildEvent::Extracted { .. } => stage == BuildStage::Extracting,
        BuildEvent::Scanned { .. } => stage == BuildStage::Scanning,
        BuildEvent::PythonProbed { .. } => stage == BuildStage::ChoosingPython,
        BuildEvent::Compiled => stage == BuildStage::Compiling,
        BuildEvent::ImageBuilt => stage == BuildStage::Imaging,
    }
}

/// The next stage and action of a build of `package` after `event`.
pub open spec fn step_result(
    package: Seq<char>,
    force: bool,
    event: BuildEvent,
    next: BuildStage,
    action: BuildAction,
) -> bool {
    match event {
        BuildEvent::InstallChecked { installed } => if installed && !force {
            next == BuildStage::Finished && action is UseExisting
        } else {
            next == BuildStage::Downloading && action is Download
        },
        BuildEvent::Downloaded { started, success, stderr } => if !started {
            next == BuildStage::Finished && action matches BuildAction::Fail(BuildError::PipUnavailable)
        } else if !success {
            &&& next == BuildStage::Finished
            &&& action matches BuildAction::Fail(BuildError::DownloadFailed { package: p, detail })
            &&& p@ == package
            &&& detail@ == last_line_of(lossy_text(stderr@))
        } else {
            next == BuildStage::LocatingWheel && action is ListWheels
        },
        BuildEvent::WheelsListed { dir, entry_names } => {
            let prefix = wheel_prefix(package);
            let lowered = entry_names@.map_values(|s: String| lowercase(s@));
            match action {
                BuildAction::Extract { wheel_index } => {
                    &&& next == BuildStage::Extracting
                    &&& wheel_choice(prefix, lowered, Ok(wheel_index))
                    &&& is_pure_wheel_name(entry_names@[wheel_index as int]@)
                },
                BuildAction::Fail(BuildError::NotPureWheel { package: p, wheel }) => {
                    &&& next == BuildStage::Finished
                    &&& p@ == package
                    &&& exists|i: usize| #[trigger] wheel_choice(prefix, lowered, Ok(i))
                        && !is_pure_wheel_name(entry_names@[i as int]@) && wheel@ == entry_names@[i as int]@
                },
                BuildAction::Fail(BuildError::WheelNotFound { package: p, dir: d, count }) => {
                    &&& next == BuildStage::Finished
                    &&& p@ == package
                    &&& d@ == dir@
                    &&& wheel_choice(prefix, lowered, Err(count))
                },
                _ => false,
            }
        },
        BuildEvent::Extracted { started, success } => if !started {
            next == BuildStage::Finished && action matches BuildAction::Fail(BuildError::UnzipUnavailable)
        } else if !success {
            &&& next == BuildStage::Finished
            &&& action matches BuildAction::Fail(BuildError::ExtractFailed { package: p })
            &&& p@ == package
        } else {
            next == BuildStage::Scanning && action is ScanForNativeExtensions
        },
        BuildEvent::Scanned { native_files } => if native_files@.len() > 0 {
            &&& next == BuildStage::Finished
            &&& action matches BuildAction::Fail(BuildError::NativeExtensions { package: p, files })
            &&& p@ == package
            &&& texts(files@) == texts(native_files@)
        } else {
            next == BuildStage::ChoosingPython && action is ProbePython
        },
        BuildEvent::PythonProbed { python312, python3 } => match action {
            BuildAction::Compile { python } => next == BuildStage::Compiling
                && python_choice(python312, python3, Ok(python)),
            BuildAction::Fail(BuildError::Python(e)) => next == BuildStage::Finished
                && python_choice(python312, python3, Err(e)),
            _ => false,
        },
        BuildEvent::Compiled => next == BuildStage::Imaging && action is BuildImage,
        BuildEvent::ImageBuilt => next == BuildStage::Finished && action is Installed,
    }
}

impl PackageBuild {
    /// Starts a build of `package`; `force` rebuilds an existing image.
    pub fn new(package: String, force: bool) -> (r: PackageBuild)
        ensures
            r.package == package,
            r.force == force,
            r.stage == BuildStage::Checking,
    {
        PackageBuild { package, force, stage: BuildStage::Checking }
    }

    /// Whether the build is waiting for `event`.
    pub fn accepts(&self, event: &BuildEvent) -> (r: bool)
        ensures
            r == event_fits(self.stage, *event),
    {
        match event {
            BuildEvent::InstallChecked { .. } => self.stage == BuildStage::Checking,
            BuildEvent::Downloaded { .. } => self.stage == BuildStage::Downloading,
            BuildEvent::WheelsListed { .. } => self.stage == BuildStage::LocatingWheel,
            BuildEvent::Extracted { .. } => self.stage == BuildStage::Extracting,
            BuildEvent::Scanned { .. } => self.stage == BuildStage::Scanning,
            BuildEvent::PythonProbed { .. } => self.stage == BuildStage::ChoosingPython,
            BuildEvent::Compiled => self.stage == BuildStage::Compiling,
            BuildEvent::ImageBuilt => self.stage == BuildStage::Imaging,
        }
    }

    /// Takes in what happened and says what to do next.
    pub fn step(&mut self, event: BuildEvent) -> (action: BuildAction)
        requires
            event_fits(old(self).stage, event),
        ensures
            final(self).package == old(self).package,
            final(self).force == old(self).force,
            step_result(old(self).package@, old(self).force, event, final(self).stage, action),
    {
        match event {
            BuildEvent::InstallChecked { installed } => {
                if installed && !self.force {
                    self.stage = BuildStage::Finished;
                    BuildAction::UseExisting
                } else {
                    self.stage = BuildStage::Downloading;
                    BuildAction::Download
                }
            },
            BuildEvent::Downloaded { started, success, stderr } => {
                if !started {
                    self.stage = BuildStage::Finished;
                    BuildAction::Fail(BuildError::PipUnavailable)
                } else if !success {
                    self.stage = BuildStage::Finished;
                    let text = from_utf8_lossy(stderr.as_slice());
                    let detail = last_line(text.as_str());
                    BuildAction::Fail(BuildError::DownloadFailed { package: self.package.clone(), detail })
                } else {
                    self.stage = BuildStage::LocatingWheel;
                    BuildAction::ListWheels
                }
            },
            BuildEvent::WheelsListed { dir, entry_names } => {
                match find_wheel(self.package.as_str(), entry_names.as_slice()) {
                    Ok(i) => {
                        if is_pure_python_wheel(entry_names[i].as_str()) {
                            self.stage = BuildStage::Extracting;
                            BuildAction::Extract { wheel_index: i }
                        } else {
                            self.stage = BuildStage::Finished;
                            let wheel = entry_names[i].clone();
                            BuildAction::Fail(BuildError::NotPureWheel { package: self.package.clone(), wheel })
                        }
                    },
                    Err(count) => {
                        self.stage = BuildStage::Finished;
                        BuildAction::Fail(BuildError::WheelNotFound { package: self.package.clone(), dir, count })
                    },
                }
            },
            BuildEvent::Extracted { started, success } => {
                if !started {
                    self.stage = BuildStage::Finished;
                    BuildAction::Fail(BuildError::UnzipUnavailable)
                } else if !success {
                    self.stage = BuildStage::Finished;
                    BuildAction::Fail(BuildError::ExtractFailed { package: self.package.clone() })
                } else {
                    self.stage = BuildStage::Scanning;
                    BuildAction::ScanForNativeExtensions
                }
            },
            BuildEvent::Scanned { native_files } => {
                if native_files.len() > 0 {
                    self.stage = BuildStage::Finished;
                    BuildAction::Fail(BuildError::NativeExtensions { package: self.package.clone(), files: native_files })
                } else {
                    self.stage = BuildStage::ChoosingPython;
                    BuildAction::ProbePython
                }
            },
            BuildEvent::PythonProbed { python312, python3 } => {
                match select_python(&python312, &python3) {
                    Ok(python) => {
                        self.stage = BuildStage::Compiling;
                        BuildAction::Compile { python }
                    },
                    Err(e) => {
                        self.stage = BuildStage::Finished;
                        BuildAction::Fail(BuildError::Python(e))
                    },
                }
            },
            BuildEvent::Compiled => {
                self.stage = BuildStage::Imaging;
                BuildAction::BuildImage
            },
            BuildEvent::ImageBuilt => {
                self.stage = BuildStage::Finished;
                BuildAction::Installed
            },
        }
    }
}

/// A finished build, whether installed, kept or failed, waits for no event.
pub proof fn law_finished_is_final(event: BuildEvent)
    ensures
        !event_fits(BuildStage::Finished, event),
{
}

/// A build started without `force` for a package whose image exists keeps the
/// image and finishes; with `force`, or without an image, it downloads.
pub proof fn law_existing_image_kept_unless_forced(package: Seq<char>, force: bool, installed: bool, next: BuildStage, action: BuildAction)
    requires
        step_result(package, force, BuildEvent::InstallChecked { installed }, next, action),
    ensures
        (installed && !force) <==> (action is UseExisting),
        (action is UseExisting) ==> next == BuildStage::Finished,
        !(installed && !force) ==> (action is Download && next == BuildStage::Downloading),
{
}

/// The position of a stage along the build, `Finished` last.
pub open spec fn stage_rank(stage: BuildStage) -> int {
    match stage {
        BuildStage::Checking => 0,
        BuildStage::Downloading => 1,
        BuildStage::LocatingWheel => 2,
        BuildStage::Extracting => 3,
        BuildStage::Scanning => 4,
        BuildStage::ChoosingPython => 5,
        BuildStage::Compiling => 6,
        BuildStage::Imaging => 7,
        BuildStage::Finished => 8,
    }
}

/// Every step either finishes the build or moves it to the next stage, so a
/// build reaches the image only by passing every check in order. The wheel is
/// extracted only when it is a pure-Python wheel of the package, the bytecode
/// is compiled only when no native extension was found, and the image is
/// written only after compiling.
pub proof fn law_steps_follow_the_pipeline(
    package: Seq<char>,
    force: bool,
    stage: BuildStage,
    event: BuildEvent,
    next: BuildStage,
    action: BuildAction,
)
    requires
        event_fits(stage, event),
        step_result(package, force, event, next, action),
    ensures
        next == BuildStage::Finished || stage_rank(next) == stage_rank(stage) + 1,
        next == BuildStage::Extracting ==> (event matches BuildEvent::WheelsListed { entry_names, .. }
            && action matches BuildAction::Extract { wheel_index }
            && is_pure_wheel_name(entry_names@[wheel_index as int]@)),
        next == BuildStage::ChoosingPython ==> (event matches BuildEvent::Scanned { native_files }
            && native_files@.len() == 0),
        next == BuildStage::Imaging ==> event is Compiled,
        action is Installed ==> stage == BuildStage::Imaging,
{
}

/// Whether the download went well depends only on whether `pip` started and
/// exited successfully, never on what it wrote to stderr: a successful run
/// goes on to locate the wheel whatever notices it printed, and a run that
/// did not start or failed ends the build.
pub proof fn law_download_outcome_ignores_stderr(
    package: Seq<char>,
    force: bool,
    started: bool,
    success: bool,
    stderr: Vec<u8>,
    next: BuildStage,
    action: BuildAction,
)
    requires
        step_result(package, force, BuildEvent::Downloaded { started, success, stderr }, next, action),
    ensures
        started && success ==> next == BuildStage::LocatingWheel && action is ListWheels,
        !(started && success) ==> next == BuildStage::Finished && action is Fail,
{
}

/// Extraction goes on to the scan only when `unzip` started and succeeded;
/// otherwise the build ends.
pub proof fn law_extraction_outcome(package: Seq<char>, force: bool, started: bool, success: bool, next: BuildStage, action: BuildAction)
    requires
        step_result(package, force, BuildEvent::Extracted { started, success }, next, action),
    ensures
        started && success <==> (next == BuildStage::Scanning && action is ScanForNativeExtensions),
        !(started && success) ==> next == BuildStage::Finished && action is Fail,
{
}

/// The scan lets the build go on exactly when it found no native extension;
/// otherwise the build fails naming every file found, in order.
pub proof fn law_native_files_stop_the_build(package: Seq<char>, force: bool, native_files: Vec<String>, next: BuildStage, action: BuildAction)
    requires
        step_result(package, force, BuildEvent::Scanned { native_files }, next, action),
    ensures
        native_files@.len() == 0 <==> (next == BuildStage::ChoosingPython && action is ProbePython),
        native_files@.len() > 0 ==> next == BuildStage::Finished,
        native_files@.len() > 0 ==> ({
            &&& action matches BuildAction::Fail(BuildError::NativeExtensions { package: p, files })
            &&& p@ == package
            &&& texts(files@) == texts(native_files@)
        }),
{
}

} // verus!
