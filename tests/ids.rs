use ga_component::ids::{
    client_id, hashed_client_id, is_valid_uuid, is_version_four, nine_digits_of_hex,
    random_page_load_hash, uuid_to_nine_digit_string,
};

#[test]
fn uuid_to_nine_digit_string_eq() {
    let input = "00000000-0000-0000-0000-000000000000";
    let result = uuid_to_nine_digit_string(input).unwrap();
    assert_eq!(result, "151760947");
}

#[test]
fn uuid_to_nine_digit_string_eq2() {
    let input = "be9f76b3-2c50-4d12-b14c-85c343745691";
    let result = uuid_to_nine_digit_string(input).unwrap();
    assert_eq!(result, "108670052");
}

#[test]
fn uuid_to_nine_digit_string_valid_uuid() {
    let input = uuid::Uuid::new_v4().to_string();
    let result = uuid_to_nine_digit_string(input.as_str()).unwrap();
    assert_eq!(result.len(), 9);
}

#[test]
fn uuid_to_nine_digit_string_valid_uuid2() {
    let input = uuid::Uuid::new_v4().to_string();
    let result = uuid_to_nine_digit_string(input.as_str()).unwrap();
    assert_eq!(result.len(), 9);
}

#[test]
fn uuid_to_nine_digit_string_valid_uuid3() {
    let input = uuid::Uuid::new_v4().to_string();
    let result = uuid_to_nine_digit_string(input.as_str()).unwrap();
    assert_eq!(result.len(), 9);
}

#[test]
fn uuid_to_nine_digit_string_valid_uuid4() {
    let input = uuid::Uuid::new_v4().to_string();
    let result = uuid_to_nine_digit_string(input.as_str()).unwrap();
    assert_eq!(result.len(), 9);
}

#[test]
fn uuid_to_nine_digit_string_invalid_uuid() {
    let input = "invalid-uuid";
    let result = uuid_to_nine_digit_string(input).unwrap();
    assert_eq!(result.len(), 9);
}

#[test]
fn random_page_load_hash_length() {
    let result = random_page_load_hash();
    assert!(!result.is_empty());
}

#[test]
fn random_page_load_hash_is_numeric() {
    let result = random_page_load_hash();
    assert!(result.chars().all(|c| c.is_numeric()));
}

#[test]
fn random_page_load_hash_is_within_range() {
    let result = random_page_load_hash();
    let number: i64 = result.parse().unwrap();
    assert!((0..=2147483647).contains(&number));
}

#[test]
fn nine_digit_hash_is_digits_for_any_text() {
    for input in ["", "a", "visitor 42", "éàü", "invalid-uuid"] {
        let result = uuid_to_nine_digit_string(input).unwrap();
        assert_eq!(result.len(), 9);
        assert!(result.chars().all(|c| c.is_ascii_digit()));
    }
}

#[test]
fn nine_digit_hash_is_deterministic() {
    let a = uuid_to_nine_digit_string("be9f76b3-2c50-4d12-b14c-85c343745691").unwrap();
    let b = uuid_to_nine_digit_string("be9f76b3-2c50-4d12-b14c-85c343745691").unwrap();
    assert_eq!(a, b);
}

#[test]
fn version_four_uuid_is_recognised() {
    assert!(is_valid_uuid("be9f76b3-2c50-4d12-b14c-85c343745691"));
    assert!(!is_valid_uuid("00000000-0000-0000-0000-000000000000"));
    assert!(!is_valid_uuid("abc"));
    assert!(!is_valid_uuid(""));
}

#[test]
fn client_id_hashes_version_four_uuid() {
    let id = client_id("be9f76b3-2c50-4d12-b14c-85c343745691", 123);
    assert_eq!(id, "108670052.123");
}

#[test]
fn client_id_keeps_negative_first_seen() {
    let id = client_id("be9f76b3-2c50-4d12-b14c-85c343745691", -7);
    assert_eq!(id, "108670052.-7");
}

#[test]
fn client_id_passes_other_ids_through() {
    assert_eq!(client_id("abc", 123), "abc");
    assert_eq!(client_id("00000000-0000-0000-0000-000000000000", 123), "00000000-0000-0000-0000-000000000000");
}

#[test]
fn nine_digits_of_hex_pads_with_ones() {
    assert_eq!(nine_digits_of_hex("0"), "111111110");
    assert_eq!(nine_digits_of_hex("ff"), "111111255");
    assert_eq!(nine_digits_of_hex("3b9aca00"), "111111110");
    assert_eq!(nine_digits_of_hex("3b9ac9ff"), "999999999");
    assert_eq!(nine_digits_of_hex("3b9aca07"), "111111117");
}

#[test]
fn nine_digits_of_md5_digest() {
    let hex = format!("{:x}", md5::compute(b"00000000-0000-0000-0000-000000000000"));
    assert_eq!(hex.len(), 32);
    assert_eq!(nine_digits_of_hex(&hex), "151760947");
}

#[test]
fn version_nibble_decides() {
    let mut b = [0u8; 16];
    assert!(!is_version_four(&b));
    b[6] = 0x4f;
    assert!(is_version_four(&b));
    b[6] = 0x5f;
    assert!(!is_version_four(&b));
}

#[test]
fn hashed_client_id_appends_first_seen() {
    assert_eq!(hashed_client_id("108670052".to_string(), 123), "108670052.123");
    assert_eq!(hashed_client_id("111111110".to_string(), 0), "111111110.0");
}
