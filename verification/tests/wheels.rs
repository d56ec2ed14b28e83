use hyperlight_nanvix::wheel::{
    find_wheel, is_native_extension, is_native_extension_lowered, is_pure_python_wheel, last_line,
    native_extension_indices, select_wheel, wheel_name_prefix,
};

fn strings(v: &[&str]) -> Vec<String> {
    v.iter().map(|s| s.to_string()).collect()
}

#[test]
fn wheel_prefix_uses_underscores() {
    assert_eq!(wheel_name_prefix("Zope.Interface"), "zope_interface_");
    assert_eq!(wheel_name_prefix("markdown"), "markdown_");
}

#[test]
fn first_matching_wheel_is_chosen() {
    let entries = strings(&["readme.txt", "Other-1.0-py3-none-any.whl", "Zope.Interface-6.0-py3-none-any.whl", "zope_interface-5.0-py3-none-any.whl"]);
    assert_eq!(find_wheel("zope.interface", &entries), Ok(3));
    let entries = strings(&["zope_interface-5.0-py3-none-any.WHL", "other.whl"]);
    assert_eq!(find_wheel("Zope-Interface", &entries), Ok(0));
}

#[test]
fn single_wheel_is_the_fallback() {
    let entries = strings(&["notes.txt", "SomethingElse-1.0-py3-none-any.whl"]);
    assert_eq!(find_wheel("markdown", &entries), Ok(1));
}

#[test]
fn no_or_several_wheels_are_counted() {
    assert_eq!(find_wheel("markdown", &strings(&["a.txt"])), Err(0));
    assert_eq!(find_wheel("markdown", &strings(&["a-1.whl", "b-1.whl"])), Err(2));
    assert_eq!(find_wheel("markdown", &[]), Err(0));
}

#[test]
fn name_must_be_followed_by_separator() {
    // `markdown2` is another package than `markdown`
    let entries = strings(&["markdown2-2.4-py3-none-any.whl", "x.whl"]);
    assert_eq!(find_wheel("markdown", &entries), Err(2));
}

#[test]
fn select_wheel_works_on_lowered_names() {
    let lowered = strings(&["markdown-3.5-py3-none-any.whl"]);
    assert_eq!(select_wheel("markdown_", &lowered), Ok(0));
    assert_eq!(select_wheel("other_", &strings(&["a.whl", "b.whl", "c.txt"])), Err(2));
}

#[test]
fn pure_wheels_carry_the_none_any_tag() {
    assert!(is_pure_python_wheel("Markdown-3.5-py3-none-any.whl"));
    assert!(is_pure_python_wheel("six-1.16.0-py2.py3-none-any.whl"));
    assert!(!is_pure_python_wheel("numpy-1.26-cp312-cp312-linux_x86_64.whl"));
}

#[test]
fn native_extensions_are_recognised_in_any_case() {
    assert!(is_native_extension("_speedups.cpython-312-x86_64-linux-gnu.so"));
    assert!(is_native_extension("libfoo.so.1"));
    assert!(is_native_extension("mod.PYD"));
    assert!(is_native_extension("Helper.Dll"));
    assert!(!is_native_extension("module.py"));
    assert!(!is_native_extension("sources.txt"));
    assert!(is_native_extension_lowered("a.so"));
    assert!(!is_native_extension_lowered("a.SO"));
}

#[test]
fn native_extension_positions_are_in_order() {
    let names = strings(&["a.py", "b.so", "c.txt", "d.DLL", "e.so.2"]);
    assert_eq!(native_extension_indices(&names), vec![1, 3, 4]);
}

#[test]
fn last_line_follows_lines() {
    assert_eq!(last_line("first\nERROR: no match\n"), "ERROR: no match");
    assert_eq!(last_line("one\r\ntwo\r\n"), "two");
    assert_eq!(last_line("only"), "only");
    assert_eq!(last_line(""), "");
    assert_eq!(last_line("a\n\n"), "");
    assert_eq!(last_line("x\ny\r"), "y\r");
    for text in ["p\nq", "p\nq\n", "p\r\nq\r\n", "\n", "a\n\n", "x\ny\r", "", "z"] {
        let expected = text.lines().last().unwrap_or(text);
        assert_eq!(last_line(text), expected, "{:?}", text);
    }
}
