use hyperlight_nanvix::names::fold_name_separators;
use hyperlight_nanvix::registry::{installed_package_name, join_path, package_fat_file_name};
use hyperlight_nanvix::install::{pip_download_args, staging_dirs};
use hyperlight_nanvix::{list_installed_packages, normalize_name, package_fat_path, packages_dir};
use std::path::PathBuf;

fn strings(v: &[&str]) -> Vec<String> {
    v.iter().map(|s| s.to_string()).collect()
}

#[test]
fn test_normalize_name() {
    assert_eq!(normalize_name("Markdown"), "markdown");
    assert_eq!(normalize_name("my_package"), "my-package");
    assert_eq!(normalize_name("Some.Package"), "some-package");
    assert_eq!(normalize_name("requests"), "requests");
}

#[test]
fn test_package_fat_path() {
    let registry = "/tmp/registry";
    assert_eq!(
        PathBuf::from(package_fat_path(registry, "markdown")),
        PathBuf::from("/tmp/registry/lib/pkg-markdown.fat")
    );
    assert_eq!(
        PathBuf::from(package_fat_path(registry, "My_Package")),
        PathBuf::from("/tmp/registry/lib/pkg-my-package.fat")
    );
}

#[test]
fn normalize_keeps_dashes_and_folds_mixed_separators() {
    assert_eq!(normalize_name("Zope.Interface_Extra-X"), "zope-interface-extra-x");
    assert_eq!(normalize_name(""), "");
    assert_eq!(normalize_name("_."), "--");
}

#[test]
fn folding_separators_twice_is_folding_once() {
    let once = fold_name_separators("a_b.c-d");
    assert_eq!(once, "a-b-c-d");
    assert_eq!(fold_name_separators(&once), once);
}

#[test]
fn join_path_follows_unix_rules() {
    assert_eq!(join_path("/tmp/registry", "lib"), "/tmp/registry/lib");
    assert_eq!(join_path("/tmp/registry/", "lib"), "/tmp/registry/lib");
    assert_eq!(join_path("", "lib"), "lib");
    assert_eq!(join_path("/tmp/registry", "/abs"), "/abs");
    for (base, part) in [("a/b", "c"), ("a/b/", "c"), ("", "c"), ("a", "/c"), ("/", "c")] {
        let expected = PathBuf::from(base).join(part);
        assert_eq!(PathBuf::from(join_path(base, part)), expected);
    }
}

#[test]
fn packages_dir_is_lib_under_the_registry() {
    assert_eq!(packages_dir("/srv/reg"), "/srv/reg/lib");
    assert_eq!(packages_dir("reg/"), "reg/lib");
}

#[test]
fn fat_file_name_uses_prefix_and_extension() {
    assert_eq!(package_fat_file_name("Foo_Bar"), "pkg-foo-bar.fat");
}

#[test]
fn installed_package_name_strips_prefix_and_suffix() {
    assert_eq!(installed_package_name("pkg-markdown.fat"), Some("markdown".to_string()));
    assert_eq!(installed_package_name("pkg-.fat"), Some(String::new()));
    assert_eq!(installed_package_name("python3.12.fat"), None);
    assert_eq!(installed_package_name("pkg-markdown.img"), None);
    assert_eq!(installed_package_name("pkg-fat"), None);
}

#[test]
fn listing_keeps_package_images_sorted() {
    let entries = strings(&["pkg-requests.fat", "python3.12.fat", "pkg-attrs.fat", "notes.txt", "pkg-Zed.fat", "pkg-markdown.fat"]);
    assert_eq!(list_installed_packages(&entries), strings(&["Zed", "attrs", "markdown", "requests"]));
    assert_eq!(list_installed_packages(&[]), Vec::<String>::new());
}

#[test]
fn a_fat_file_name_gives_back_the_normalised_name() {
    for name in ["Markdown", "My_Package", "zope.interface", ""] {
        assert_eq!(installed_package_name(&package_fat_file_name(name)), Some(normalize_name(name)));
    }
}

#[test]
fn ascii_names_normalise_alike_up_to_case_and_separators() {
    assert_eq!(normalize_name("Foo-Bar"), normalize_name("fOO_bar"));
    assert_eq!(normalize_name("a.b"), normalize_name("A-B"));
    assert_ne!(normalize_name("ab"), normalize_name("a-b"));
    assert_ne!(normalize_name("a1"), normalize_name("a2"));
}

#[test]
fn staging_layout_and_pip_arguments() {
    let d = staging_dirs("/srv/reg", "My_Package");
    assert_eq!(d.base, "/srv/reg/tmp/pkg-staging");
    assert_eq!(d.dir, "/srv/reg/tmp/pkg-staging/my-package");
    assert_eq!(d.wheels, "/srv/reg/tmp/pkg-staging/my-package/wheels");
    assert_eq!(d.extracted, "/srv/reg/tmp/pkg-staging/my-package/extracted");
    assert_eq!(
        pip_download_args("/w", "My_Package"),
        strings(&["download", "--no-deps", "--only-binary=:all:", "--platform=any", "--python-version=3.12", "--abi=none", "-d", "/w", "My_Package"])
    );
}
