use gdble::address::{canonical_address, parse_bluetooth_address};
use gdble::text::{eq_ignore_ascii_case, to_ascii_uppercase, to_lowercase, trim};

#[test]
fn canonical_address_trims_and_normalizes_case() {
    assert_eq!(
        canonical_address(" de:0c:aa:bb:cc:dd "),
        "DE:0C:AA:BB:CC:DD"
    );
}

#[test]
fn canonical_address_is_idempotent_on_examples() {
    for a in [" de:0c:aa:bb:cc:dd ", "\tAa:bB\n", "", "   ", "x y"] {
        let once = canonical_address(a);
        assert_eq!(canonical_address(&once), once);
    }
}

#[test]
fn canonical_address_ignores_ascii_case() {
    assert_eq!(
        canonical_address("aa:bb:cc:dd:ee:ff"),
        canonical_address("AA:BB:cc:DD:ee:FF")
    );
}

#[test]
fn canonical_address_strips_unicode_white_space() {
    assert_eq!(canonical_address("\u{3000}\u{a0}ab:cd\u{2028}"), "AB:CD");
    assert_eq!(canonical_address(" \u{85}"), "");
}

#[test]
fn canonical_address_keeps_inner_space_and_non_ascii_letters() {
    assert_eq!(canonical_address(" a b "), "A B");
    assert_eq!(canonical_address("é"), "é");
}

#[test]
fn trim_matches_std_trim() {
    for s in ["  x ", "\u{2000}\u{200a}y\u{205f}", "", "z", "\u{1680}"] {
        assert_eq!(trim(s), s.trim());
    }
}

#[test]
fn ascii_uppercase_matches_std() {
    for s in ["abc", "AbC-9z", "ßé", ""] {
        assert_eq!(to_ascii_uppercase(s), s.to_ascii_uppercase());
    }
}

#[test]
fn lowercase_follows_unicode() {
    assert_eq!(to_lowercase("0000180D-AB"), "0000180d-ab");
    assert_eq!(to_lowercase("ÀÉ"), "àé");
}

#[test]
fn eq_ignore_ascii_case_examples() {
    assert!(eq_ignore_ascii_case("AbC", "aBc"));
    assert!(!eq_ignore_ascii_case("abc", "abd"));
    assert!(!eq_ignore_ascii_case("abc", "ab"));
    assert!(!eq_ignore_ascii_case("É", "é"));
}

#[test]
fn parse_bluetooth_address_reads_twelve_hex_digits() {
    assert_eq!(
        parse_bluetooth_address("AA:BB:CC:DD:EE:FF"),
        Some(0xAABB_CCDD_EEFF)
    );
    assert_eq!(
        parse_bluetooth_address("de-0c-aa-bb-cc-01"),
        Some(0xDE0C_AABB_CC01)
    );
    assert_eq!(parse_bluetooth_address("000000000000"), Some(0));
}

#[test]
fn parse_bluetooth_address_rejects_other_lengths() {
    assert_eq!(parse_bluetooth_address("AA:BB:CC:DD:EE"), None);
    assert_eq!(parse_bluetooth_address("AA:BB:CC:DD:EE:FF:00"), None);
    assert_eq!(parse_bluetooth_address(""), None);
    assert_eq!(parse_bluetooth_address("BluetoothLE#xyz"), None);
}
