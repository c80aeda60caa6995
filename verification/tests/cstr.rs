use rusty_quack::cstr::{find_nul, find_zero};

#[test]
fn find_zero_in_no_bytes() {
    assert_eq!(find_zero(&[]), None);
}

#[test]
fn find_zero_without_zero() {
    assert_eq!(find_zero(&[1, 2, 255]), None);
}

#[test]
fn find_zero_gives_the_first() {
    assert_eq!(find_zero(&[7, 0, 3, 0]), Some(1));
    assert_eq!(find_zero(&[0]), Some(0));
    assert_eq!(find_zero(&[5, 6, 0]), Some(2));
}

#[test]
fn find_nul_in_plain_text() {
    assert_eq!(find_nul(""), None);
    assert_eq!(find_nul("world"), None);
    assert_eq!(find_nul("0"), None);
}

#[test]
fn find_nul_gives_the_byte_index() {
    assert_eq!(find_nul("\0"), Some(0));
    assert_eq!(find_nul("ab\0cd\0"), Some(2));
    assert_eq!(find_nul("\u{e9}\0"), Some(2));
    assert_eq!(find_nul("\u{20ac}\u{1f986}\0"), Some(7));
}

#[test]
fn find_nul_ignores_bytes_inside_wide_characters() {
    // U+0100 is encoded as C4 80 and U+1000 as E1 80 80: no zero byte.
    assert_eq!(find_nul("\u{100}\u{1000}\u{10000}"), None);
}
