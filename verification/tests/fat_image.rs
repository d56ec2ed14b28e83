use hyperlight_nanvix::fat::{
    check_fat_tools, copy_result, format_result, fat_copy_target, fat_image_size, fat_mkdir_targets, fat_volume_label, label_from_uppercase,
    path_component_list, plan_fat_image, required_fat_tools, uses_fat32, FatImageError, MIB,
};
use hyperlight_nanvix::SITE_PACKAGES_GUEST_PATH;
use std::path::{Component, Path};

#[test]
fn image_size_has_overhead_minimum_and_rounding() {
    assert_eq!(fat_image_size(0), MIB);
    assert_eq!(fat_image_size(100), MIB);
    assert_eq!(fat_image_size(MIB), 2 * MIB);
    assert_eq!(fat_image_size(10 * MIB), 13 * MIB);
    assert_eq!(fat_image_size(10 * MIB + 1), 14 * MIB);
    for content in [0u64, 1, 806_596, 806_597, 5 * MIB + 3, 40 * MIB] {
        let size = fat_image_size(content);
        assert_eq!(size % MIB, 0);
        assert!(size >= MIB && size >= content * 130 / 100);
    }
}

#[test]
fn fat32_from_33_mib() {
    assert!(!uses_fat32(32 * MIB));
    assert!(uses_fat32(33 * MIB));
    assert!(uses_fat32(64 * MIB));
}

#[test]
fn labels_are_short_uppercase_alphanumerics() {
    assert_eq!(fat_volume_label(Some("pkg-markdown")), "PKGMARKDOWN");
    assert_eq!(fat_volume_label(Some("pkg-my_package")), "PKGMYPACKAG");
    assert_eq!(fat_volume_label(Some("")), "");
    assert_eq!(fat_volume_label(None), "PACKAGE");
    assert_eq!(label_from_uppercase("A-B C.D"), "ABCD");
}

#[test]
fn components_match_std() {
    for p in ["/.local/lib/python3.12/site-packages", "a//b/./c/", "./x/../y", "/", "", "."] {
        let expected: Vec<String> = Path::new(p)
            .components()
            .filter_map(|c| match c {
                Component::RootDir => None,
                other => Some(other.as_os_str().to_string_lossy().to_string()),
            })
            .collect();
        let expected: Vec<String> = expected.into_iter().filter(|s| s != ".").collect();
        assert_eq!(path_component_list(p), expected, "{}", p);
    }
}

#[test]
fn directories_for_the_site_packages_path() {
    assert_eq!(
        fat_mkdir_targets(SITE_PACKAGES_GUEST_PATH),
        vec![
            "::/.local".to_string(),
            "::/.local/lib".to_string(),
            "::/.local/lib/python3.12".to_string(),
            "::/.local/lib/python3.12/site-packages".to_string(),
        ]
    );
    assert_eq!(fat_mkdir_targets("/top"), vec!["::/top".to_string()]);
    assert_eq!(fat_mkdir_targets("/a/../b"), vec!["::/a".to_string(), "::/a/../b".to_string()]);
    assert_eq!(fat_copy_target(SITE_PACKAGES_GUEST_PATH), "::/.local/lib/python3.12/site-packages/");
}

#[test]
fn plan_collects_everything() {
    let plan = plan_fat_image(40 * MIB, Some("pkg-requests"), SITE_PACKAGES_GUEST_PATH);
    assert_eq!(plan.size_bytes, 52 * MIB);
    assert!(plan.fat32);
    assert_eq!(plan.label, "PKGREQUESTS");
    assert_eq!(plan.mkdir_targets.len(), 4);
    assert_eq!(plan.copy_target, "::/.local/lib/python3.12/site-packages/");
}

#[test]
fn tools_and_error_texts() {
    assert_eq!(required_fat_tools(), vec!["mkfs.fat".to_string(), "mcopy".to_string(), "mmd".to_string()]);
    assert_eq!(
        FatImageError::ToolMissing { tool: "mcopy".to_string() }.message(),
        "Required tool 'mcopy' not found. Install with: sudo apt-get install dosfstools mtools"
    );
    assert_eq!(FatImageError::FormatUnavailable.message(), "Failed to run mkfs.fat");
    assert_eq!(
        FatImageError::NoFiles { source: "/tmp/x".to_string() }.message(),
        "No files found in extracted wheel at /tmp/x"
    );
    assert_eq!(FatImageError::CopyUnavailable.message(), "Failed to run mcopy");
    assert_eq!(FatImageError::CopyFailed.message(), "mcopy failed when populating FAT image");
}

#[test]
fn tool_and_command_outcomes() {
    assert!(check_fat_tools(&[true, true, true]).is_ok());
    assert!(matches!(check_fat_tools(&[true, false, false]), Err(FatImageError::ToolMissing { ref tool }) if tool == "mcopy"));
    assert!(matches!(check_fat_tools(&[false, true, false]), Err(FatImageError::ToolMissing { ref tool }) if tool == "mkfs.fat"));
    assert!(format_result(true).is_ok());
    assert!(matches!(format_result(false), Err(FatImageError::FormatUnavailable)));
    assert!(copy_result(true, true).is_ok());
    assert!(matches!(copy_result(true, false), Err(FatImageError::CopyFailed)));
    assert!(matches!(copy_result(false, false), Err(FatImageError::CopyUnavailable)));
}
