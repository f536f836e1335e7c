use m_game::m_lib::colors::{hex_to_rgba_u8, try_hex_to_rgba_u8};

#[test]
fn six_digit_codes() {
    assert_eq!(hex_to_rgba_u8("#624e02"), (0x62, 0x4e, 0x02, 0));
    assert_eq!(hex_to_rgba_u8("ffffff"), (255, 255, 255, 0));
    assert_eq!(hex_to_rgba_u8("#FF0080"), (255, 0, 128, 0));
}

#[test]
fn eight_digit_codes_carry_alpha() {
    assert_eq!(hex_to_rgba_u8("#11223344"), (0x11, 0x22, 0x33, 0x44));
    assert_eq!(hex_to_rgba_u8("aabbccdd"), (0xaa, 0xbb, 0xcc, 0xdd));
}

#[test]
fn every_leading_hash_is_dropped() {
    assert_eq!(hex_to_rgba_u8("###010203"), (1, 2, 3, 0));
}

#[test]
fn other_lengths_ignore_extra_bytes() {
    assert_eq!(hex_to_rgba_u8("#0102030"), (1, 2, 3, 0));
    assert_eq!(hex_to_rgba_u8("#010203040"), (1, 2, 3, 0));
    assert_eq!(hex_to_rgba_u8("#010203zzzzzz"), (1, 2, 3, 0));
}

#[test]
fn a_plus_sign_reads_one_digit() {
    assert_eq!(hex_to_rgba_u8("#+f0102"), (15, 1, 2, 0));
}

#[test]
fn unreadable_codes() {
    assert_eq!(try_hex_to_rgba_u8("#12345"), None);
    assert_eq!(try_hex_to_rgba_u8(""), None);
    assert_eq!(try_hex_to_rgba_u8("#gg0000"), None);
    assert_eq!(try_hex_to_rgba_u8("#-10000"), None);
    assert_eq!(try_hex_to_rgba_u8("#00000z0"), None);
    assert_eq!(try_hex_to_rgba_u8("#000000zz"), None);
    assert_eq!(try_hex_to_rgba_u8("#++0000"), None);
    assert_eq!(try_hex_to_rgba_u8("#é00000"), None);
}
