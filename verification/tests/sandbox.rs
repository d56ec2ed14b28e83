use hyperlight_nanvix::sandbox::{clear_cache_error_message, runtime_error_message, runtime_settings, sandbox_repr, RuntimeSetting};
use hyperlight_nanvix::{SandboxConfig, WorkloadResult};

#[test]
fn settings_follow_the_configuration() {
    assert!(runtime_settings(None).is_empty());
    let cfg = SandboxConfig::new(Some("/logs".to_string()), None, Some("/reg".to_string()), Some(vec![("/h".to_string(), "/g".to_string())]));
    let s = runtime_settings(Some(cfg));
    assert_eq!(s.len(), 3);
    assert!(matches!(&s[0], RuntimeSetting::LogDirectory(d) if d == "/logs"));
    assert!(matches!(&s[1], RuntimeSetting::NanvixRegistry(d) if d == "/reg"));
    assert!(matches!(&s[2], RuntimeSetting::FileMounts(m) if m.len() == 1));
    let s = runtime_settings(Some(SandboxConfig::new(None, Some("/t".to_string()), None, None)));
    assert!(matches!(&s[..], [RuntimeSetting::TmpDirectory(d)] if d == "/t"));
}

#[test]
fn results_and_their_repr() {
    let ok = WorkloadResult::from_run(Ok(()));
    assert!(ok.success && ok.error.is_none() && ok.stdout.is_empty() && ok.stderr.is_empty());
    assert_eq!(ok.repr(), "WorkloadResult(success=true, stdout_len=0)");
    let bad = WorkloadResult::from_run(Err("no such file".to_string()));
    assert!(!bad.success);
    assert_eq!(bad.error.as_deref(), Some("Workload execution failed: no such file"));
    assert_eq!(bad.repr(), "WorkloadResult(success=false, error='Workload execution failed: no such file')");
    let r = WorkloadResult { success: true, stdout: "héllo".to_string(), stderr: String::new(), error: None };
    assert_eq!(r.repr(), "WorkloadResult(success=true, stdout_len=6)");
}

#[test]
fn sandbox_texts() {
    assert_eq!(runtime_error_message("no kvm"), "Failed to create runtime: no kvm");
    assert_eq!(clear_cache_error_message("busy"), "Failed to clear cache: busy");
    assert_eq!(sandbox_repr(), "NanvixSandbox()");
}
