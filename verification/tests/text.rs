use rust_jni::chars::JavaChars;

#[test]
fn buffer_of_text_is_its_bytes_and_a_nul() {
    let chars = JavaChars::new("hi!");
    assert_eq!(chars.as_slice(), &[b'h', b'i', b'!', 0][..]);
    let empty = JavaChars::new("");
    assert_eq!(empty.as_slice(), &[0u8][..]);
}

#[test]
fn buffer_of_text_beyond_ascii_holds_its_utf8_bytes() {
    let chars = JavaChars::new("h\u{e9}");
    assert_eq!(chars.as_slice(), &[b'h', 0xc3, 0xa9, 0][..]);
}

#[test]
fn text_comes_back_from_its_buffer() {
    for s in &["", "hi!", "java/lang/String", "h\u{e9}llo", "\u{1f600}"] {
        assert_eq!(JavaChars::new(s).to_string(), Some(s.to_string()));
    }
}

#[test]
fn text_ends_at_the_first_nul() {
    let chars = JavaChars::new("ab\0cd");
    assert_eq!(chars.as_slice(), &[b'a', b'b', 0, b'c', b'd', 0][..]);
    assert_eq!(chars.to_string(), Some("ab".to_string()));
    let only = JavaChars::from_raw_vec(vec![0, 0xff, 0]).unwrap();
    assert_eq!(only.to_string(), Some(String::new()));
}

#[test]
fn text_that_is_not_utf8_does_not_decode() {
    let broken = JavaChars::from_raw_vec(vec![b'a', 0xff, 0]).unwrap();
    assert_eq!(broken.to_string(), None);
    let cut = JavaChars::from_raw_vec(vec![0xc3, 0]).unwrap();
    assert_eq!(cut.to_string(), None);
    // a surrogate pair as the interface encodes it is not UTF-8
    let pair = JavaChars::from_raw_vec(vec![0xed, 0xa0, 0xbd, 0xed, 0xb8, 0x80, 0]).unwrap();
    assert_eq!(pair.to_string(), None);
}

#[test]
fn raw_buffer_must_end_in_a_nul() {
    assert!(JavaChars::from_raw_vec(vec![]).is_none());
    assert!(JavaChars::from_raw_vec(vec![b'a']).is_none());
    assert!(JavaChars::from_raw_vec(vec![0, b'a']).is_none());
    let taken = JavaChars::from_raw_vec(vec![b'a', 0]).unwrap();
    assert_eq!(taken.as_slice(), &[b'a', 0][..]);
    let just_nul = JavaChars::from_raw_vec(vec![0]).unwrap();
    assert_eq!(just_nul.as_slice(), &[0u8][..]);
}

#[test]
fn from_slice_appends_a_nul() {
    assert_eq!(JavaChars::from_slice(&[]).as_slice(), &[0u8][..]);
    assert_eq!(JavaChars::from_slice(&[1, 2, 3]).as_slice(), &[1u8, 2, 3, 0][..]);
    assert_eq!(JavaChars::from_slice(&[7, 0]).as_slice(), &[7u8, 0, 0][..]);
}
