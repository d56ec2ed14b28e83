use hyperlight_nanvix::fat::FatImageError;
use hyperlight_nanvix::install::{BuildAction, BuildError, BuildEvent, BuildStage, PackageBuild};
use hyperlight_nanvix::interpreter::{ProbeOutcome, PythonError};

fn strings(v: &[&str]) -> Vec<String> {
    v.iter().map(|s| s.to_string()).collect()
}

fn step(b: &mut PackageBuild, e: BuildEvent) -> BuildAction {
    assert!(b.accepts(&e));
    b.step(e)
}

#[test]
fn existing_image_is_kept_unless_forced() {
    let mut b = PackageBuild::new("markdown".to_string(), false);
    assert!(matches!(step(&mut b, BuildEvent::InstallChecked { installed: true }), BuildAction::UseExisting));
    assert_eq!(b.stage, BuildStage::Finished);
    assert!(!b.accepts(&BuildEvent::Compiled));

    let mut b = PackageBuild::new("markdown".to_string(), true);
    assert!(matches!(step(&mut b, BuildEvent::InstallChecked { installed: true }), BuildAction::Download));
    assert_eq!(b.stage, BuildStage::Downloading);
}

#[test]
fn a_whole_successful_build() {
    let mut b = PackageBuild::new("Markdown".to_string(), false);
    assert!(matches!(step(&mut b, BuildEvent::InstallChecked { installed: false }), BuildAction::Download));
    assert!(!b.accepts(&BuildEvent::ImageBuilt));
    let a = step(&mut b, BuildEvent::Downloaded { started: true, success: true, stderr: vec![] });
    assert!(matches!(a, BuildAction::ListWheels));
    let a = step(&mut b, BuildEvent::WheelsListed {
        dir: "/tmp/w".to_string(),
        entry_names: strings(&["junk.txt", "Markdown-3.5.2-py3-none-any.whl"]),
    });
    assert!(matches!(a, BuildAction::Extract { wheel_index: 1 }));
    let a = step(&mut b, BuildEvent::Extracted { started: true, success: true });
    assert!(matches!(a, BuildAction::ScanForNativeExtensions));
    let a = step(&mut b, BuildEvent::Scanned { native_files: vec![] });
    assert!(matches!(a, BuildAction::ProbePython));
    let a = step(&mut b, BuildEvent::PythonProbed {
        python312: ProbeOutcome::Exited { success: true, stdout: b"Python 3.12.3\n".to_vec() },
        python3: ProbeOutcome::Unavailable,
    });
    assert!(matches!(a, BuildAction::Compile { ref python } if python == "python3.12"));
    assert!(matches!(step(&mut b, BuildEvent::Compiled), BuildAction::BuildImage));
    assert!(matches!(step(&mut b, BuildEvent::ImageBuilt), BuildAction::Installed));
    assert_eq!(b.stage, BuildStage::Finished);
}

fn at_download(name: &str) -> PackageBuild {
    let mut b = PackageBuild::new(name.to_string(), false);
    step(&mut b, BuildEvent::InstallChecked { installed: false });
    b
}

fn failure(a: BuildAction) -> BuildError {
    match a {
        BuildAction::Fail(e) => e,
        _ => panic!("expected a failure"),
    }
}

#[test]
fn download_failures() {
    let mut b = at_download("numpy");
    let e = failure(step(&mut b, BuildEvent::Downloaded { started: false, success: false, stderr: vec![] }));
    assert_eq!(e.message(), "Failed to run pip. Is pip installed?");

    let mut b = at_download("numpy");
    let stderr = b"Looking in indexes\nERROR: No matching distribution found for numpy\n".to_vec();
    let e = failure(step(&mut b, BuildEvent::Downloaded { started: true, success: false, stderr }));
    assert_eq!(
        e.message(),
        "Failed to download a pure-Python wheel for 'numpy'. Only pure-Python packages (no C extensions) are supported.\n  pip stderr: ERROR: No matching distribution found for numpy"
    );
    assert_eq!(b.stage, BuildStage::Finished);
}

fn at_listing(name: &str) -> PackageBuild {
    let mut b = at_download(name);
    step(&mut b, BuildEvent::Downloaded { started: true, success: true, stderr: vec![] });
    b
}

#[test]
fn wheel_failures() {
    let mut b = at_listing("foo");
    let e = failure(step(&mut b, BuildEvent::WheelsListed { dir: "/w".to_string(), entry_names: strings(&["a.whl", "b.whl"]) }));
    assert_eq!(e.message(), "Could not find wheel for 'foo' in /w. Found 2 .whl files.");

    let mut b = at_listing("numpy");
    let e = failure(step(&mut b, BuildEvent::WheelsListed {
        dir: "/w".to_string(),
        entry_names: strings(&["numpy-1.26.4-cp312-cp312-manylinux_2_17_x86_64.whl"]),
    }));
    assert_eq!(
        e.message(),
        "Package 'numpy' is not a pure-Python wheel (filename: numpy-1.26.4-cp312-cp312-manylinux_2_17_x86_64.whl). Only pure-Python packages (no C extensions) are supported in Nanvix."
    );
}

fn at_extract(name: &str) -> PackageBuild {
    let mut b = at_listing(name);
    step(&mut b, BuildEvent::WheelsListed { dir: "/w".to_string(), entry_names: strings(&["x-1-py3-none-any.whl"]) });
    b
}

#[test]
fn extraction_and_scan_failures() {
    let mut b = at_extract("x");
    let e = failure(step(&mut b, BuildEvent::Extracted { started: false, success: false }));
    assert_eq!(e.message(), "Failed to run unzip. Is unzip installed?");

    let mut b = at_extract("x");
    let e = failure(step(&mut b, BuildEvent::Extracted { started: true, success: false }));
    assert_eq!(e.message(), "Failed to extract wheel for 'x'");

    let mut b = at_extract("x");
    step(&mut b, BuildEvent::Extracted { started: true, success: true });
    let files = strings(&["x/a.so", "x/b.so", "x/c.pyd", "x/d.dll", "x/e.so.1"]);
    let e = failure(step(&mut b, BuildEvent::Scanned { native_files: files }));
    assert_eq!(
        e.message(),
        "Package 'x' contains native extensions and cannot run in Nanvix:\n  x/a.so\n  x/b.so\n  x/c.pyd\n  ... and 2 more"
    );

    let e = BuildError::NativeExtensions { package: "y".to_string(), files: strings(&["one.so"]) };
    assert_eq!(e.message(), "Package 'y' contains native extensions and cannot run in Nanvix:\n  one.so");
}

#[test]
fn python_failure_and_image_errors() {
    let mut b = at_extract("x");
    step(&mut b, BuildEvent::Extracted { started: true, success: true });
    step(&mut b, BuildEvent::Scanned { native_files: vec![] });
    let e = failure(step(&mut b, BuildEvent::PythonProbed {
        python312: ProbeOutcome::Unavailable,
        python3: ProbeOutcome::Unavailable,
    }));
    assert!(matches!(e, BuildError::Python(PythonError::NotFound)));
    assert_eq!(e.message(), "Neither python3.12 nor python3 found on PATH");
    assert_eq!(BuildError::Image(FatImageError::CopyFailed).message(), "mcopy failed when populating FAT image");
}
