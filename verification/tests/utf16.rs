use tifflin_modules::utf16::{encode_scalar_exec, Str16};

#[test]
fn str16_accepts_valid_and_rejects_lone_surrogates() {
    let ok = [0x48u16, 0x69, 0xD83D, 0xDE00];
    assert!(Str16::new(&ok).is_some());
    let lone_low = [0x48u16, 0xDC00];
    assert!(Str16::new(&lone_low).is_none());
    let unpaired_high = [0xD800u16, 0x41];
    assert!(Str16::new(&unpaired_high).is_none());
    let trailing_high = [0x41u16, 0xD800];
    assert!(Str16::new(&trailing_high).is_none());
    assert!(Str16::new(&[]).is_some());
}

#[test]
fn str16_decodes_surrogate_pairs() {
    let units = [0x48u16, 0xD83D, 0xDE00];
    let s = Str16::new(&units).unwrap();
    assert_eq!(s.code_points(), vec![0x48, 0x1F600]);
    assert_eq!(s.chars(), vec!['H', '\u{1F600}']);
}

#[test]
fn str16_wtf8_and_comparisons() {
    let units = [0x61u16, 0xE9, 0x20AC, 0xD83D, 0xDE00];
    let s = Str16::new(&units).unwrap();
    let expected = "a\u{e9}\u{20ac}\u{1F600}";
    assert_eq!(s.wtf8(), expected.as_bytes().to_vec());
    assert!(s.eq_bytes(expected.as_bytes()));
    assert!(!s.eq_bytes(b"abc"));
    assert!(s.eq_str(expected));
    assert!(!s.eq_str("a\u{e9}\u{20ac}"));
    assert!(!s.eq_str("b\u{e9}\u{20ac}\u{1F600}"));
}

#[test]
fn str16_new_unchecked_keeps_units() {
    let units = [0x41u16, 0x42];
    let s = Str16::new_unchecked(&units);
    assert_eq!(s.code_points(), vec![0x41, 0x42]);
    assert!(s.eq_str("AB"));
}

#[test]
fn encode_scalar_covers_each_length() {
    assert_eq!(encode_scalar_exec(0x41), vec![0x41]);
    assert_eq!(encode_scalar_exec(0xE9), vec![0xC3, 0xA9]);
    assert_eq!(encode_scalar_exec(0x20AC), vec![0xE2, 0x82, 0xAC]);
    assert_eq!(encode_scalar_exec(0x1F600), vec![0xF0, 0x9F, 0x98, 0x80]);
}

#[test]
fn str16_pairs_the_last_high_surrogate() {
    assert!(Str16::new(&[0xDBFF, 0xDFFF]).is_some());
    assert!(Str16::new(&[0x41, 0xD800, 0xDC00]).is_some());
    assert!(Str16::new(&[0xDBFF]).is_none());
    assert!(Str16::new(&[0xDC00]).is_none());
    assert!(Str16::new(&[0xD800, 0x41]).is_none());
    let units = [0xDBFFu16, 0xDFFF];
    let s = Str16::new(&units).unwrap();
    assert_eq!(s.code_points(), vec![0x10FFFF]);
}
