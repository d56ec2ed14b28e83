//! Choosing the host Python interpreter that pre-compiles package bytecode.
//! The bytecode must match the guest's Python version, so `python3.12` is
//! preferred, and `python3` is accepted only when it reports that version.
use vstd::prelude::*;
use crate::text::{chars_of, has_prefix, push_str, starts_with, string_of, sub_chars};
use crate::unicode::{ascii_trim_end, ascii_trim_start, from_utf8_lossy, lossy_text, trim, trimmed};

verus! {

/// The Python version used in the Nanvix guest.
pub const GUEST_PYTHON_VERSION: &'static str = "3.12";

/// The interpreter named after the guest's version.
pub const GUEST_PYTHON_BINARY: &'static str = "python3.12";

/// The generic interpreter, used when its version matches the guest's.
pub const FALLBACK_PYTHON_BINARY: &'static str = "python3";

/// What running `<interpreter> --version` gave.
pub enum ProbeOutcome {
    /// The interpreter could not be started.
    Unavailable,
    /// The interpreter ran and exited.
    Exited { success: bool, stdout: Vec<u8> },
}

/// Why no interpreter was chosen.
pub enum PythonError {
    /// Neither interpreter could be started.
    NotFound,
    /// `python3 --version` exited with a failure.
    VersionQueryFailed,
    /// `python3` is another version than the guest's.
    WrongVersion { found: String },
}

/// What follows `Python ` at the start of the version text, or nothing.
pub open spec fn version_after_prefix(trimmed_text: Seq<char>) -> Seq<char> {
    let p = "Python "@;
    if has_prefix(trimmed_text, p) {
        trimmed_text.subrange(p.len() as int, trimmed_text.len() as int)
    } else {
        Seq::empty()
    }
}

/// A version string belongs to the guest's version: it starts with `3.12.`.
pub open spec fn is_guest_version(version: Seq<char>) -> bool {
    has_prefix(version, GUEST_PYTHON_VERSION@.push('.'))
}

/// The version that `python3 --version` printed on its standard output.
pub open spec fn reported_version(stdout: Seq<u8>) -> Seq<char> {
    version_after_prefix(trimmed(lossy_text(stdout)))
}

/// The version reported in an ASCII version text: the text without its
/// leading and trailing white space, then what follows `Python `.
pub open spec fn ascii_reported_version(text: Seq<char>) -> Seq<char> {
    version_after_prefix(ascii_trim_end(ascii_trim_start(text)))
}

/// The text of an interpreter error.
pub open spec fn python_error_text(e: PythonError) -> Seq<char> {
    match e {
        PythonError::NotFound => "Neither python3.12 nor python3 found on PATH"@,
        PythonError::VersionQueryFailed => "python3 --version failed"@,
        PythonError::WrongVersion { found } => "Host Python is "@ + found@
            + " but Nanvix guest uses Python "@ + GUEST_PYTHON_VERSION@ + ". Install python"@
            + GUEST_PYTHON_VERSION@ + " to pre-compile bytecode correctly.\nOn Ubuntu: sudo apt-get install python"@
            + GUEST_PYTHON_VERSION@,
    }
}

/// The interpreter chosen from what probing `python3.12` and then `python3`
/// gave: `python3.12` if it ran successfully; otherwise `python3` if it ran
/// successfully and reports the guest's version; otherwise the error.
pub open spec fn python_choice(
    python312: ProbeOutcome,
    python3: ProbeOutcome,
    r: Result<String, PythonError>,
) -> bool {
    if python312 matches ProbeOutcome::Exited { success: true, .. } {
        r matches Ok(bin) && bin@ == GUEST_PYTHON_BINARY@
    } else {
        match python3 {
            ProbeOutcome::Unavailable => r matches Err(PythonError::NotFound),
            ProbeOutcome::Exited { success, stdout } => {
                if !success {
                    r matches Err(PythonError::VersionQueryFailed)
                } else if is_guest_version(reported_version(stdout@)) {
                    r matches Ok(bin) && bin@ == FALLBACK_PYTHON_BINARY@
                } else {
                    r matches Err(PythonError::WrongVersion { found })
                        && found@ == trimmed(reported_version(stdout@))
                }
            },
        }
    }
}

impl PythonError {
    /// The error's text.
    pub fn message(&self) -> (r: String)
        ensures
            r@ == python_error_text(*self),
    {
        match self {
            PythonError::NotFound => String::from_str("Neither python3.12 nor python3 found on PATH"),
            PythonError::VersionQueryFailed => String::from_str("python3 --version failed"),
            PythonError::WrongVersion { found } => {
                let mut r = String::from_str("Host Python is ");
                push_str(&mut r, found.as_str());
                push_str(&mut r, " but Nanvix guest uses Python ");
                push_str(&mut r, GUEST_PYTHON_VERSION);
                push_str(&mut r, ". Install python");
                push_str(&mut r, GUEST_PYTHON_VERSION);
                push_str(&mut r, " to pre-compile bytecode correctly.\nOn Ubuntu: sudo apt-get install python");
                push_str(&mut r, GUEST_PYTHON_VERSION);
                r
            },
        }
    }
}

/// What follows `Python ` at the start of a trimmed version text, or the
/// empty string when the text does not start so.
pub fn version_after_python_prefix(trimmed_text: &str) -> (r: String)
    ensures
        r@ == version_after_prefix(trimmed_text@),
{
    let t = chars_of(trimmed_text);
    let p = chars_of("Python ");
    if starts_with(t.as_slice(), p.as_slice()) {
        string_of(sub_chars(t.as_slice(), p.len(), t.len()).as_slice())
    } else {
        String::new()
    }
}

/// Whether a version string is of the guest's Python version (`3.12.x`).
pub fn is_guest_python_version(version: &str) -> (r: bool)
    ensures
        r == is_guest_version(version@),
{
    let mut p = chars_of(GUEST_PYTHON_VERSION);
    p.push('.');
    starts_with(chars_of(version).as_slice(), p.as_slice())
}

/// Chooses the interpreter from what `python3.12 --version` and
/// `python3 --version` gave. `python3` is only consulted when `python3.12`
/// did not run successfully, so its probe may be skipped in that case.
pub fn select_python(python312: &ProbeOutcome, python3: &ProbeOutcome) -> (r: Result<String, PythonError>)
    ensures
        python_choice(*python312, *python3, r),
        !(*python312 matches ProbeOutcome::Exited { success: true, .. }) ==> (
            *python3 matches ProbeOutcome::Exited { success: true, stdout } ==> (
                vstd::utf8::is_ascii_chars(lossy_text(stdout@)) ==> (
                    (r is Ok) == is_guest_version(ascii_reported_version(lossy_text(stdout@)))))),
{
    if let ProbeOutcome::Exited { success: true, .. } = python312 {
        return Ok(String::from_str(GUEST_PYTHON_BINARY));
    }
    match python3 {
        ProbeOutcome::Unavailable => Err(PythonError::NotFound),
        ProbeOutcome::Exited { success, stdout } => {
            if !*success {
                return Err(PythonError::VersionQueryFailed);
            }
            let text = from_utf8_lossy(stdout.as_slice());
            let t = trim(text.as_str());
            let version = version_after_python_prefix(t.as_str());
            if is_guest_python_version(version.as_str()) {
                Ok(String::from_str(FALLBACK_PYTHON_BINARY))
            } else {
                Err(PythonError::WrongVersion { found: trim(version.as_str()) })
            }
        },
    }
}

/// Whether `python3` has to be probed: only when `python3.12` did not run
/// successfully.
pub fn needs_python3_probe(python312: &ProbeOutcome) -> (r: bool)
    ensures
        r == !(*python312 matches ProbeOutcome::Exited { success: true, .. }),
{
    match python312 {
        ProbeOutcome::Exited { success: true, .. } => false,
        _ => true,
    }
}

} // verus!
