use espcam::resolution::Resolution;

#[test]
fn from_str_accepts_lowercase_names() {
    assert_eq!(Resolution::from_str("qqvga"), Some(Resolution::QQVGA));
    assert_eq!(Resolution::from_str("qvga"), Some(Resolution::QVGA));
    assert_eq!(Resolution::from_str("vga"), Some(Resolution::VGA));
    assert_eq!(Resolution::from_str("svga"), Some(Resolution::SVGA));
    assert_eq!(Resolution::from_str("xga"), Some(Resolution::XGA));
    assert_eq!(Resolution::from_str("hd"), Some(Resolution::HD));
    assert_eq!(Resolution::from_str("sxga"), Some(Resolution::SXGA));
    assert_eq!(Resolution::from_str("uxga"), Some(Resolution::UXGA));
}

#[test]
fn from_str_ignores_case() {
    assert_eq!(Resolution::from_str("VGA"), Some(Resolution::VGA));
    assert_eq!(Resolution::from_str("Hd"), Some(Resolution::HD));
    assert_eq!(Resolution::from_str("uXgA"), Some(Resolution::UXGA));
    assert_eq!(Resolution::from_str("QQVGA"), Some(Resolution::QQVGA));
}

#[test]
fn from_str_refuses_other_names() {
    assert_eq!(Resolution::from_str(""), None);
    assert_eq!(Resolution::from_str("4k"), None);
    assert_eq!(Resolution::from_str(" vga"), None);
    assert_eq!(Resolution::from_str("vgaa"), None);
    assert_eq!(Resolution::from_str("\u{ff36}\u{ff27}\u{ff21}"), None);
}
