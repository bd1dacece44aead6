use taskdesk::jwt::Claims;
use taskdesk::text::{decimal_string, four_digit_string, str_equal};

fn uuid_string(id: u128) -> String {
    Claims::issued_at(id, String::new(), String::new(), 0).sub
}

#[test]
fn uuid_text_is_hyphenated_lower_hex() {
    let id: u128 = 0x0123_4567_89ab_cdef_0011_2233_4455_6677;
    assert_eq!(uuid_string(id), "01234567-89ab-cdef-0011-223344556677");
    assert_eq!(uuid_string(0), "00000000-0000-0000-0000-000000000000");
    assert_eq!(uuid_string(id), uuid::Uuid::from_u128(id).to_string());
}

#[test]
fn decimal_forms() {
    assert_eq!(decimal_string(0), "0");
    assert_eq!(decimal_string(10), "10");
    assert_eq!(decimal_string(18446744073709551615), "18446744073709551615");
    assert_eq!(four_digit_string(7), "0007");
    assert_eq!(four_digit_string(9999), "9999");
    assert_eq!(four_digit_string(420), "0420");
}

#[test]
fn string_equality_is_by_characters() {
    assert!(str_equal("חדשה", "חדשה"));
    assert!(!str_equal("חדשה", "חדש"));
    assert!(str_equal("", ""));
    assert!(!str_equal("abc", "abd"));
}
