use shrs::identifier::{short_id_text, SHORT_ID_LENGTH};
use shrs::repos::cache::{get_long_url_key, KEY_LENGTH};

fn is_id_char(c: char) -> bool {
    c.is_ascii_alphanumeric() || c == '-' || c == '_'
}

#[test]
fn text_of_zero() {
    assert_eq!(short_id_text(0), "AAAAAAAAAAA");
}

#[test]
fn text_of_one_ends_in_the_padded_low_bits() {
    assert_eq!(short_id_text(1), "AAAAAAAAAAE");
}

#[test]
fn text_of_largest_number() {
    assert_eq!(short_id_text(u64::MAX), "__________8");
}

#[test]
fn text_of_sample_numbers() {
    assert_eq!(short_id_text(0x0102030405060708), "AQIDBAUGBwg");
    assert_eq!(short_id_text(0x19A0B1C2D3E4F5A6), "GaCxwtPk9aY");
}

#[test]
fn text_differs_from_number_to_number() {
    assert_ne!(short_id_text(7), short_id_text(8));
    assert_ne!(short_id_text(1 << 63), short_id_text(0));
    let mut seen = std::collections::HashSet::new();
    for n in 0..4096u64 {
        assert!(seen.insert(short_id_text(n.wrapping_mul(0x9E3779B97F4A7C15))));
    }
}

#[test]
fn every_identifier_is_well_formed() {
    for n in 0..4096u64 {
        let id = short_id_text(n.wrapping_mul(0x9E3779B97F4A7C15) ^ n);
        assert_eq!(id.chars().count(), SHORT_ID_LENGTH);
        assert!(id.chars().all(is_id_char));
    }
}

#[test]
fn identifiers_and_keys_have_different_shapes() {
    assert_ne!(SHORT_ID_LENGTH, KEY_LENGTH);
    let id = short_id_text(0x19A0B1C2D3E4F5A6);
    assert_ne!(id, get_long_url_key(&id));
    assert_ne!(id.len(), get_long_url_key("https://example.com/a").len());
}
