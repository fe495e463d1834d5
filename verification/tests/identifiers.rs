use algovault::run::RunId;

#[test]
fn hyphenated_text_groups_the_digits_8_4_4_4_12() {
    let id = RunId::from_u128(0xa1a2a3a4b1b2c1c2d1d2d3d4d5d6d7d8);
    assert_eq!(id.hyphenated(), "a1a2a3a4-b1b2-c1c2-d1d2-d3d4d5d6d7d8");
}

#[test]
fn hyphenated_text_is_lower_case_and_keeps_leading_zeros() {
    assert_eq!(RunId::from_u128(0).hyphenated(), "00000000-0000-0000-0000-000000000000");
    assert_eq!(RunId::from_u128(0xABCDEF).hyphenated(), "00000000-0000-0000-0000-000000abcdef");
    assert_eq!(RunId::from_u128(u128::MAX).hyphenated(), "ffffffff-ffff-ffff-ffff-ffffffffffff");
    assert_eq!(
        RunId::from_u128(0x0123456789abcdef0123456789abcdef).hyphenated(),
        "01234567-89ab-cdef-0123-456789abcdef"
    );
}

#[test]
fn the_value_of_an_identifier_round_trips() {
    let v = 0x67e5504410b1426f9247bb680e5fe0c8u128;
    assert_eq!(RunId::from_u128(v).as_u128(), v);
    assert_eq!(RunId::from_u128(v), RunId { value: v });
}

#[test]
fn a_fresh_identifier_has_36_characters_with_four_hyphens() {
    let text = RunId::new_v4().hyphenated();
    assert_eq!(text.len(), 36);
    let bytes = text.as_bytes();
    for (i, b) in bytes.iter().enumerate() {
        if i == 8 || i == 13 || i == 18 || i == 23 {
            assert_eq!(*b, b'-');
        } else {
            assert!(b.is_ascii_digit() || (b'a'..=b'f').contains(b));
        }
    }
}

#[test]
fn a_fresh_identifier_carries_the_random_version_and_variant() {
    for _ in 0..64 {
        let id = RunId::new_v4();
        let text = id.hyphenated();
        let bytes = text.as_bytes();
        assert_eq!(bytes[14], b'4');
        assert!(matches!(bytes[19], b'8' | b'9' | b'a' | b'b'));
        assert_eq!((id.as_u128() >> 76) & 0xf, 4);
        assert_eq!((id.as_u128() >> 62) & 0x3, 2);
    }
}

#[test]
fn fresh_identifiers_differ() {
    let a = RunId::new_v4();
    let b = RunId::new_v4();
    assert_ne!(a, b);
    assert_ne!(a.hyphenated(), b.hyphenated());
}

#[test]
fn different_identifiers_have_different_texts() {
    let a = RunId::from_u128(0x10);
    let b = RunId::from_u128(0x01);
    assert_ne!(a.hyphenated(), b.hyphenated());
}
