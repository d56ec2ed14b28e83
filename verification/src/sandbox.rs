//! The sandbox settings and workload results exposed to Python callers.
use vstd::prelude::*;
use crate::text::{bool_string, bool_text, decimal, decimal_string, push_str};

verus! {

/// Configuration options for creating a sandbox.
pub struct SandboxConfig {
    pub log_directory: Option<String>,
    pub tmp_directory: Option<String>,
    /// Path to a local nanvix directory (overrides registry downloads).
    pub nanvix_registry: Option<String>,
    /// File mounts: `(host_path, guest_path)` pairs, copied into the guest's
    /// FAT file system.
    pub file_mounts: Option<Vec<(String, String)>>,
}

/// One setting applied to the runtime configuration.
pub enum RuntimeSetting {
    LogDirectory(String),
    TmpDirectory(String),
    NanvixRegistry(String),
    FileMounts(Vec<(String, String)>),
}

/// Workload execution result.
pub struct WorkloadResult {
    pub success: bool,
    pub stdout: String,
    pub stderr: String,
    pub error: Option<String>,
}

/// The settings a configuration asks for, in the order they are applied:
/// log directory, temporary directory, nanvix registry, file mounts, each
/// only when given.
pub open spec fn settings_of(config: Option<SandboxConfig>) -> Seq<RuntimeSetting> {
    match config {
        None => Seq::empty(),
        Some(c) => {
            let a = match c.log_directory {
                Some(d) => seq![RuntimeSetting::LogDirectory(d)],
                None => Seq::empty(),
            };
            let b = match c.tmp_directory {
                Some(d) => seq![RuntimeSetting::TmpDirectory(d)],
                None => Seq::empty(),
            };
            let r = match c.nanvix_registry {
                Some(d) => seq![RuntimeSetting::NanvixRegistry(d)],
                None => Seq::empty(),
            };
            let m = match c.file_mounts {
                Some(v) => seq![RuntimeSetting::FileMounts(v)],
                None => Seq::empty(),
            };
            a + b + r + m
        },
    }
}

/// The text with which a failed run is reported.
pub open spec fn failure_text(reason: Seq<char>) -> Seq<char> {
    "Workload execution failed: "@ + reason
}

/// The length in bytes of a string's UTF-8 encoding, as `String::len` gives it.
pub open spec fn byte_len(s: Seq<char>) -> usize {
    vstd::utf8::encode_utf8(s).len() as usize
}

/// The Python `repr` of a workload result.
pub open spec fn result_repr(r: WorkloadResult) -> Seq<char> {
    match r.error {
        Some(err) => "WorkloadResult(success="@ + bool_text(r.success) + ", error='"@ + err@ + "')"@,
        None => "WorkloadResult(success="@ + bool_text(r.success) + ", stdout_len="@
            + decimal(byte_len(r.stdout@) as nat) + ")"@,
    }
}

impl SandboxConfig {
    /// A configuration with the given options.
    pub fn new(
        log_directory: Option<String>,
        tmp_directory: Option<String>,
        nanvix_registry: Option<String>,
        file_mounts: Option<Vec<(String, String)>>,
    ) -> (r: SandboxConfig)
        ensures
            r.log_directory == log_directory,
            r.tmp_directory == tmp_directory,
            r.nanvix_registry == nanvix_registry,
            r.file_mounts == file_mounts,
    {
        SandboxConfig { log_directory, tmp_directory, nanvix_registry, file_mounts }
    }
}

/// The settings to apply to a fresh runtime configuration for `config`;
/// no configuration applies none.
pub fn runtime_settings(config: Option<SandboxConfig>) -> (r: Vec<RuntimeSetting>)
    ensures
        r@ == settings_of(config),
{
    let mut r: Vec<RuntimeSetting> = Vec::new();
    match config {
        None => {},
        Some(c) => {
            let SandboxConfig { log_directory, tmp_directory, nanvix_registry, file_mounts } = c;
            if let Some(d) = log_directory {
                r.push(RuntimeSetting::LogDirectory(d));
            }
            if let Some(d) = tmp_directory {
                r.push(RuntimeSetting::TmpDirectory(d));
            }
            if let Some(d) = nanvix_registry {
                r.push(RuntimeSetting::NanvixRegistry(d));
            }
            if let Some(v) = file_mounts {
                r.push(RuntimeSetting::FileMounts(v));
            }
        },
    }
    assert(r@ =~= settings_of(config));
    r
}

impl WorkloadResult {
    /// The result of a run: success with empty output, or failure with the
    /// reason the runtime gave.
    pub fn from_run(outcome: Result<(), String>) -> (r: WorkloadResult)
        ensures
            r.success == (outcome is Ok),
            r.stdout@.len() == 0,
            r.stderr@.len() == 0,
            match outcome {
                Ok(()) => r.error is None,
                Err(reason) => r.error matches Some(e) && e@ == failure_text(reason@),
            },
    {
        match outcome {
            Ok(()) => WorkloadResult {
                success: true,
                stdout: String::new(),
                stderr: String::new(),
                error: None,
            },
            Err(reason) => {
                let mut e = String::from_str("Workload execution failed: ");
                push_str(&mut e, reason.as_str());
                WorkloadResult { success: false, stdout: String::new(), stderr: String::new(), error: Some(e) }
            },
        }
    }

    /// The Python `repr` of the result.
    pub fn repr(&self) -> (r: String)
        ensures
            r@ == result_repr(*self),
    {
        let mut r = String::from_str("WorkloadResult(success=");
        let b = bool_string(self.success);
        push_str(&mut r, b.as_str());
        match &self.error {
            Some(err) => {
                push_str(&mut r, ", error='");
                push_str(&mut r, err.as_str());
                push_str(&mut r, "')");
            },
            None => {
                push_str(&mut r, ", stdout_len=");
                let n = decimal_string(self.stdout.as_str().len());
                push_str(&mut r, n.as_str());
                push_str(&mut r, ")");
            },
        }
        r
    }
}

/// The text with which a failure to create the runtime is reported.
pub open spec fn runtime_error_text(reason: Seq<char>) -> Seq<char> {
    "Failed to create runtime: "@ + reason
}

/// The text with which a failure to clear the binary cache is reported.
pub open spec fn clear_cache_error_text(reason: Seq<char>) -> Seq<char> {
    "Failed to clear cache: "@ + reason
}

/// The report of a failure to create the runtime.
pub fn runtime_error_message(reason: &str) -> (r: String)
    ensures
        r@ == runtime_error_text(reason@),
{
    let mut r = String::from_str("Failed to create runtime: ");
    push_str(&mut r, reason);
    r
}

/// The report of a failure to clear the binary cache.
pub fn clear_cache_error_message(reason: &str) -> (r: String)
    ensures
        r@ == clear_cache_error_text(reason@),
{
    let mut r = String::from_str("Failed to clear cache: ");
    push_str(&mut r, reason);
    r
}

/// The Python `repr` of a sandbox.
pub fn sandbox_repr() -> (r: String)
    ensures
        r@ == "NanvixSandbox()"@,
{
    String::from_str("NanvixSandbox()")
}

/// Each option of a configuration is applied exactly when it is given,
/// whatever the other options are, and no configuration applies nothing.
pub proof fn law_each_option_applied_independently(config: Option<SandboxConfig>)
    ensures
        config is None ==> settings_of(config).len() == 0,
        config matches Some(c) ==> {
            &&& forall|d: String| settings_of(config).contains(RuntimeSetting::LogDirectory(d))
                <==> c.log_directory == Some(d)
            &&& forall|d: String| settings_of(config).contains(RuntimeSetting::TmpDirectory(d))
                <==> c.tmp_directory == Some(d)
            &&& forall|d: String| settings_of(config).contains(RuntimeSetting::NanvixRegistry(d))
                <==> c.nanvix_registry == Some(d)
            &&& forall|m: Vec<(String, String)>| settings_of(config).contains(RuntimeSetting::FileMounts(m))
                <==> c.file_mounts == Some(m)
        },
{
    if let Some(c) = config {
        let s = settings_of(config);
        assert forall|d: String| s.contains(RuntimeSetting::LogDirectory(d)) <==> c.log_directory == Some(d) by {
            if s.contains(RuntimeSetting::LogDirectory(d)) {
                let i = choose|i: int| 0 <= i < s.len() && s[i] == RuntimeSetting::LogDirectory(d);
            }
            if c.log_directory == Some(d) {
                assert(s[0] == RuntimeSetting::LogDirectory(d));
            }
        }
        assert forall|d: String| s.contains(RuntimeSetting::TmpDirectory(d)) <==> c.tmp_directory == Some(d) by {
            if s.contains(RuntimeSetting::TmpDirectory(d)) {
                let i = choose|i: int| 0 <= i < s.len() && s[i] == RuntimeSetting::TmpDirectory(d);
            }
            if c.tmp_directory == Some(d) {
                let k: int = if c.log_directory is Some { 1 } else { 0 };
                assert(s[k] == RuntimeSetting::TmpDirectory(d));
            }
        }
        assert forall|d: String| s.contains(RuntimeSetting::NanvixRegistry(d)) <==> c.nanvix_registry == Some(d) by {
            if s.contains(RuntimeSetting::NanvixRegistry(d)) {
                let i = choose|i: int| 0 <= i < s.len() && s[i] == RuntimeSetting::NanvixRegistry(d);
            }
            if c.nanvix_registry == Some(d) {
                let k: int = (if c.log_directory is Some { 1int } else { 0int })
                    + (if c.tmp_directory is Some { 1int } else { 0int });
                assert(s[k] == RuntimeSetting::NanvixRegistry(d));
            }
        }
        assert forall|m: Vec<(String, String)>| s.contains(RuntimeSetting::FileMounts(m)) <==> c.file_mounts == Some(m) by {
            if s.contains(RuntimeSetting::FileMounts(m)) {
                let i = choose|i: int| 0 <= i < s.len() && s[i] == RuntimeSetting::FileMounts(m);
            }
            if c.file_mounts == Some(m) {
                assert(s[s.len() - 1] == RuntimeSetting::FileMounts(m));
            }
        }
    }
}

/// The place of a setting in the order settings are applied.
pub open spec fn setting_rank(s: RuntimeSetting) -> int {
    match s {
        RuntimeSetting::LogDirectory(_) => 0,
        RuntimeSetting::TmpDirectory(_) => 1,
        RuntimeSetting::NanvixRegistry(_) => 2,
        RuntimeSetting::FileMounts(_) => 3,
    }
}

/// Settings are applied in a fixed order (log directory, temporary
/// directory, nanvix registry, file mounts), each at most once.
pub proof fn law_settings_in_order(config: Option<SandboxConfig>)
    ensures
        forall|i: int, j: int| 0 <= i < j < settings_of(config).len()
            ==> setting_rank(#[trigger] settings_of(config)[i]) < setting_rank(#[trigger] settings_of(config)[j]),
{
}

} // verus!
