use fltk::text::{char_len, decimal, find_nul, prefix, splice};

#[test]
fn nul_is_found_at_its_byte() {
    assert_eq!(find_nul(""), None);
    assert_eq!(find_nul("Hello world"), None);
    assert_eq!(find_nul("\0"), Some(0));
    assert_eq!(find_nul("ab\0cd\0"), Some(2));
    // the place counts bytes: the two letters before take two bytes each
    assert_eq!(find_nul("éé\0"), Some(4));
}

#[test]
fn decimal_digits() {
    assert_eq!(decimal(0), "0");
    assert_eq!(decimal(7), "7");
    assert_eq!(decimal(10), "10");
    assert_eq!(decimal(255), "255");
    assert_eq!(decimal(1234567890), "1234567890");
    assert_eq!(decimal(usize::MAX), usize::MAX.to_string());
}

#[test]
fn slices_count_characters() {
    assert_eq!(char_len("héllo"), 5);
    assert_eq!(splice("héllo", 1, 3, "EY"), "hEYlo");
    assert_eq!(splice("abc", 3, 3, "d"), "abcd");
    assert_eq!(splice("abc", 0, 3, ""), "");
    assert_eq!(prefix("héllo", 2), "hé");
    assert_eq!(prefix("héllo", 9), "héllo");
    assert_eq!(prefix("héllo", 0), "");
}
