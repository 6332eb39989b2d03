use in_place_init::text::{Text, Utf8Error, validate_utf8};
use in_place_init::{as_bytes, as_utf8, chain, new_string, new_vec, try_new_string};

#[test]
fn ascii_is_valid() {
    assert!(validate_utf8(&b"hello".to_vec()));
}

#[test]
fn empty_is_valid() {
    assert!(validate_utf8(&Vec::new()));
}

#[test]
fn two_byte_scalars_are_valid() {
    assert!(validate_utf8(&vec![0xC3, 0xA9]));
}

#[test]
fn three_byte_scalars_are_valid() {
    assert!(validate_utf8(&vec![0xE2, 0x82, 0xAC]));
}

#[test]
fn four_byte_scalars_are_valid() {
    assert!(validate_utf8(&vec![0xF0, 0x9F, 0x92, 0x96]));
}

#[test]
fn stray_continuation_byte_is_invalid() {
    assert!(!validate_utf8(&vec![0x80]));
}

#[test]
fn overlong_two_byte_form_is_invalid() {
    assert!(!validate_utf8(&vec![0xC0, 0x80]));
    assert!(!validate_utf8(&vec![0xC1, 0xBF]));
}

#[test]
fn overlong_three_byte_form_is_invalid() {
    assert!(!validate_utf8(&vec![0xE0, 0x9F, 0xBF]));
}

#[test]
fn surrogate_encodings_are_invalid() {
    assert!(!validate_utf8(&vec![0xED, 0xA0, 0x80]));
    assert!(validate_utf8(&vec![0xED, 0x9F, 0xBF]));
}

#[test]
fn scalars_past_the_maximum_are_invalid() {
    assert!(!validate_utf8(&vec![0xF4, 0x90, 0x80, 0x80]));
    assert!(validate_utf8(&vec![0xF4, 0x8F, 0xBF, 0xBF]));
}

#[test]
fn truncated_scalars_are_invalid() {
    assert!(!validate_utf8(&vec![0xC3]));
    assert!(!validate_utf8(&vec![0xE2, 0x82]));
    assert!(!validate_utf8(&vec![0xF0, 0x9F, 0x92]));
}

#[test]
fn validation_agrees_with_the_standard_library() {
    let samples: Vec<Vec<u8>> = vec![
        b"plain".to_vec(),
        vec![0xC3, 0xA9, b'x'],
        vec![0xE0, 0xA0, 0x80],
        vec![0xEF, 0xBF, 0xBD],
        vec![0xF1, 0x80, 0x80, 0x80],
        vec![0xFF],
        vec![0xC2],
        vec![0xE1, 0x80],
        vec![0xED, 0xBF, 0xBF],
        vec![0xF5, 0x80, 0x80, 0x80],
        vec![0xF0, 0x80, 0x80, 0x80],
    ];
    for bytes in samples {
        assert_eq!(
            validate_utf8(&bytes),
            core::str::from_utf8(&bytes).is_ok(),
            "disagreement on {bytes:?}"
        );
    }
}

#[test]
fn text_from_vec_checks_the_bytes() {
    let t = Text::from_vec(b"ok".to_vec()).unwrap();
    assert_eq!(t.as_bytes(), &b"ok".to_vec());
    assert_eq!(Text::from_vec(vec![0xFF]).unwrap_err(), Utf8Error);
}

#[test]
fn chain_concatenates_text() {
    let t1 = Text::from_vec(b"hello".to_vec()).unwrap();
    let t2 = Text::from_vec(b"world".to_vec()).unwrap();
    let t = new_string::<(), _>(chain(&t1, &t2));
    assert_eq!(t.as_bytes(), &b"helloworld".to_vec());
}

#[test]
fn text_clone_descriptor_copies_the_source() {
    let t1 = Text::from_vec(b"abc".to_vec()).unwrap();
    let t = new_string::<(), _>(&t1);
    assert_eq!(t.as_bytes(), t1.as_bytes());
}

#[test]
fn as_bytes_reinterprets_text() {
    let t = Text::from_vec(b"xy".to_vec()).unwrap();
    let v = new_vec::<u8, (), _>(as_bytes(&t));
    assert_eq!(v, b"xy".to_vec());
}

#[test]
fn as_utf8_accepts_valid_bytes() {
    let t = try_new_string::<Utf8Error, _>(as_utf8(b"fine".to_vec())).unwrap();
    assert_eq!(t.as_bytes(), &b"fine".to_vec());
}

#[test]
fn as_utf8_rejects_invalid_bytes() {
    let r = try_new_string::<Utf8Error, _>(as_utf8(vec![0xFFu8]));
    assert_eq!(r.unwrap_err(), Utf8Error);
}

#[test]
fn text_len_is_the_byte_count() {
    let t = Text::from_vec(vec![0xC3, 0xA9]).unwrap();
    assert_eq!(t.len(), 2);
    assert_eq!(Text::empty().len(), 0);
}
