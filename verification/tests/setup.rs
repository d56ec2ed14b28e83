use hyperlight_nanvix::setup::{guest_binary_names, RegistrySetupRun, SetupAction};

#[test]
fn nothing_to_do_when_everything_is_cached() {
    let mut run = RegistrySetupRun::new(true, true, true);
    assert!(matches!(run.next(), SetupAction::AlreadySetUp));
    assert!(!run.is_ready());
}

#[test]
fn missing_binaries_are_downloaded_in_order() {
    let mut run = RegistrySetupRun::new(false, true, false);
    assert!(matches!(run.next(), SetupAction::Download { binary, announcement }
        if binary == "kernel.elf" && announcement == "Downloading kernel.elf... "));
    assert!(run.awaits_download() && !run.is_ready());
    run.downloaded(true);
    assert!(matches!(run.next(), SetupAction::NoteCached { note } if note == "qjs already cached"));
    assert!(matches!(run.next(), SetupAction::Download { binary, announcement }
        if binary == "python3" && announcement == "Downloading python3 binary... "));
    run.downloaded(true);
    assert!(matches!(run.next(), SetupAction::Complete));
    assert!(!run.is_ready());
    assert_eq!(guest_binary_names(), vec!["kernel.elf".to_string(), "qjs".to_string(), "python3".to_string()]);
}

#[test]
fn a_failed_download_ends_the_setup() {
    let mut run = RegistrySetupRun::new(false, false, true);
    assert!(matches!(run.next(), SetupAction::Download { ref binary, .. } if binary == "kernel.elf"));
    run.downloaded(false);
    assert!(run.finished && !run.is_ready() && !run.awaits_download());
}
