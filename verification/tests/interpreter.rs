use hyperlight_nanvix::interpreter::{
    is_guest_python_version, needs_python3_probe, select_python, version_after_python_prefix, ProbeOutcome, PythonError,
};

fn ran(success: bool, stdout: &str) -> ProbeOutcome {
    ProbeOutcome::Exited { success, stdout: stdout.as_bytes().to_vec() }
}

#[test]
fn python312_is_preferred() {
    let r = select_python(&ran(true, "Python 3.12.1\n"), &ProbeOutcome::Unavailable);
    assert!(matches!(r, Ok(ref b) if b == "python3.12"));
}

#[test]
fn python3_of_the_guest_version_is_accepted() {
    let r = select_python(&ProbeOutcome::Unavailable, &ran(true, "Python 3.12.4\n"));
    assert!(matches!(r, Ok(ref b) if b == "python3"));
    let r = select_python(&ran(false, ""), &ran(true, "  Python 3.12.0  "));
    assert!(matches!(r, Ok(ref b) if b == "python3"));
}

#[test]
fn other_python3_versions_are_refused() {
    match select_python(&ProbeOutcome::Unavailable, &ran(true, "Python 3.11.7\n")) {
        Err(e) => {
            assert!(matches!(e, PythonError::WrongVersion { ref found } if found == "3.11.7"));
            assert_eq!(
                e.message(),
                "Host Python is 3.11.7 but Nanvix guest uses Python 3.12. Install python3.12 to pre-compile bytecode correctly.\nOn Ubuntu: sudo apt-get install python3.12"
            );
        }
        Ok(_) => panic!("accepted a wrong version"),
    }
    // "3.120" is not 3.12
    assert!(matches!(select_python(&ProbeOutcome::Unavailable, &ran(true, "Python 3.120.0")), Err(PythonError::WrongVersion { .. })));
    // no "Python " prefix: the version is empty
    assert!(matches!(select_python(&ProbeOutcome::Unavailable, &ran(true, "3.12.1")), Err(PythonError::WrongVersion { ref found }) if found.is_empty()));
}

#[test]
fn missing_or_failing_python3_is_an_error() {
    let e = select_python(&ProbeOutcome::Unavailable, &ProbeOutcome::Unavailable).err().unwrap();
    assert_eq!(e.message(), "Neither python3.12 nor python3 found on PATH");
    let e = select_python(&ran(false, ""), &ran(false, "Python 3.12.1")).err().unwrap();
    assert_eq!(e.message(), "python3 --version failed");
}

#[test]
fn version_helpers() {
    assert_eq!(version_after_python_prefix("Python 3.12.1"), "3.12.1");
    assert_eq!(version_after_python_prefix("python 3.12.1"), "");
    assert!(is_guest_python_version("3.12.9"));
    assert!(!is_guest_python_version("3.12"));
    assert!(!is_guest_python_version("3.1.2"));
}

#[test]
fn python3_is_probed_only_when_needed() {
    assert!(!needs_python3_probe(&ran(true, "")));
    assert!(needs_python3_probe(&ran(false, "")));
    assert!(needs_python3_probe(&ProbeOutcome::Unavailable));
}
