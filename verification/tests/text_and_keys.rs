use p2p_web_app::keys::{decrypt_name_t, generate_random_key, key_char, name_key_iv_text};
use p2p_web_app::text::{hex_digit_char, push_decimal, to_hex_lower};

fn is_key_char(c: char) -> bool {
    c.is_ascii_lowercase() || c.is_ascii_digit()
}

#[test]
fn hex_renders_two_lowercase_digits_per_byte() {
    assert_eq!(to_hex_lower(&[0x00, 0xbe, 0xef, 0x0a]), "00beef0a");
    assert_eq!(to_hex_lower(&[]), "");
    assert_eq!(hex_digit_char(11), 'b');
}

#[test]
fn decimal_has_no_leading_zeros() {
    let mut s = String::from("n=");
    push_decimal(&mut s, 0);
    assert_eq!(s, "n=0");
    let mut s = String::new();
    push_decimal(&mut s, 305);
    assert_eq!(s, "305");
    let mut s = String::new();
    push_decimal(&mut s, usize::MAX);
    assert_eq!(s, usize::MAX.to_string());
}

#[test]
fn key_alphabet_is_letters_then_digits() {
    let all: String = (0..36).map(key_char).collect();
    assert_eq!(all, "abcdefghijklmnopqrstuvwxyz0123456789");
}

#[test]
fn random_key_has_requested_length_and_alphabet() {
    let key = generate_random_key(16);
    assert_eq!(key.chars().count(), 16);
    assert!(key.chars().all(is_key_char));
    assert_eq!(generate_random_key(0), "");
    let long = generate_random_key(500);
    assert_eq!(long.len(), 500);
    assert!(long.chars().all(is_key_char));
}

#[test]
fn name_key_iv_is_hex_digest_then_token() {
    assert_eq!(name_key_iv_text(&[0xab, 0x01], "tok"), "ab01tok");
}

#[test]
fn decrypt_name_t_hashes_twice() {
    assert_eq!(
        decrypt_name_t("alice".to_string(), "t1".to_string()),
        "ac9d7ed79a01e994a6a514973056dc62"
    );
    assert_eq!(decrypt_name_t(String::new(), String::new()), "74be16979710d4c4e7c6647856088456");
    assert_eq!(
        decrypt_name_t("节点".to_string(), "x".to_string()),
        "878d249e0a574da11c4f208fbd6137de"
    );
}

#[test]
fn decrypt_name_t_is_32_lowercase_hex_digits() {
    let k = decrypt_name_t("some name".to_string(), "some token".to_string());
    assert_eq!(k.len(), 32);
    assert!(k.chars().all(|c| c.is_ascii_digit() || ('a'..='f').contains(&c)));
}
