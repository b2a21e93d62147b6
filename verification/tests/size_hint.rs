use webview_official::text::contains_nul;
use webview_official::{Error, SizeHint, Window};

#[test]
fn size_hints_encode_to_their_ordinals() {
    assert_eq!(SizeHint::NONE.code(), 0);
    assert_eq!(SizeHint::MIN.code(), 1);
    assert_eq!(SizeHint::MAX.code(), 2);
    assert_eq!(SizeHint::FIXED.code(), 3);
}

#[test]
fn size_hints_decode_from_their_ordinals() {
    assert_eq!(SizeHint::from_code(0), Some(SizeHint::NONE));
    assert_eq!(SizeHint::from_code(1), Some(SizeHint::MIN));
    assert_eq!(SizeHint::from_code(2), Some(SizeHint::MAX));
    assert_eq!(SizeHint::from_code(3), Some(SizeHint::FIXED));
}

#[test]
fn size_hints_round_trip() {
    for hint in [SizeHint::NONE, SizeHint::MIN, SizeHint::MAX, SizeHint::FIXED] {
        assert_eq!(SizeHint::from_code(hint.code()), Some(hint));
    }
}

#[test]
fn other_numbers_are_no_size_hint() {
    assert_eq!(SizeHint::from_code(-1), None);
    assert_eq!(SizeHint::from_code(4), None);
    assert_eq!(SizeHint::from_code(i32::MAX), None);
    assert_eq!(SizeHint::from_code(i32::MIN), None);
}

#[test]
fn default_size_hint_is_none() {
    assert_eq!(SizeHint::default(), SizeHint::NONE);
    assert_eq!(SizeHint::default().code(), 0);
}

#[test]
fn window_keeps_its_address() {
    assert_eq!(Window::from_address(0x7f00_1000).address(), 0x7f00_1000);
    assert_eq!(Window::from_address(0).address(), 0);
    assert_eq!(Window::from_address(usize::MAX).address(), usize::MAX);
    assert_eq!(Window::from_address(12), Window::from_address(12));
    assert_ne!(Window::from_address(12), Window::from_address(13));
}

#[test]
fn nul_is_found_wherever_it_stands() {
    assert!(contains_nul("\0"));
    assert!(contains_nul("\0abc"));
    assert!(contains_nul("ab\0c"));
    assert!(contains_nul("abc\0"));
    assert!(contains_nul("h\u{e9}llo \u{1F600}\0"));
}

#[test]
fn text_without_nul_passes() {
    assert!(!contains_nul(""));
    assert!(!contains_nul("abc"));
    assert!(!contains_nul("0"));
    assert!(!contains_nul("\\0"));
    assert!(!contains_nul("h\u{e9}llo \u{1F600}"));
    assert!(!contains_nul("\u{1}\u{7f}\n\t"));
}

#[test]
fn long_text_is_searched_to_its_end() {
    let mut text = "x".repeat(200_000);
    assert!(!contains_nul(&text));
    text.push('\0');
    assert!(contains_nul(&text));
}

#[test]
fn errors_are_told_apart() {
    assert_ne!(Error::WebviewNull, Error::Unsupported);
    assert_ne!(Error::WebviewNull, Error::Encoding);
    assert_ne!(Error::Unsupported, Error::Encoding);
    assert_eq!(format!("{:?}", Error::WebviewNull), "WebviewNull");
}
