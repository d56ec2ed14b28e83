use hyperlight_nanvix::text::{bool_string, chars_of, decimal_string, str_le_exec, string_of};

#[test]
fn decimal_matches_to_string() {
    for n in [0usize, 7, 10, 99, 100, 12345, usize::MAX] {
        assert_eq!(decimal_string(n), n.to_string());
    }
    assert_eq!(bool_string(true), "true");
    assert_eq!(bool_string(false), "false");
}

#[test]
fn chars_round_trip() {
    let s = "ßé-x";
    assert_eq!(string_of(&chars_of(s)), s);
}

#[test]
fn string_order_matches_str_order() {
    let words = ["", "a", "ab", "b", "Z", "é", "ä", "aß", "\u{10000}", "\u{ffff}"];
    for x in words {
        for y in words {
            assert_eq!(str_le_exec(x, y), x <= y, "{} {}", x, y);
        }
    }
}
