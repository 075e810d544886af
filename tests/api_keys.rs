use mintora_auth::api_key::{
    api_key_from_bytes, generate_api_key, hash_api_key, has_prefix, validate_api_key_format,
    verify_api_key,
};

#[test]
fn test_api_key_generation() {
    let generated = generate_api_key(true).unwrap();

    assert!(generated.key.starts_with("mnt_live_"));
    assert!(verify_api_key(&generated.key, &generated.key_hash));
    assert!(!verify_api_key("wrong_key", &generated.key_hash));
}

#[test]
fn test_api_key_format_validation() {
    assert!(validate_api_key_format(
        "mnt_live_1234567890abcdef1234567890abcdef"
    ));
    assert!(validate_api_key_format(
        "mnt_test_1234567890abcdef1234567890abcdef"
    ));
    assert!(!validate_api_key_format("invalid_key"));
    assert!(!validate_api_key_format("mnt_live_short"));
}

#[test]
fn format_length_boundary() {
    let just_enough = format!("mnt_test_{}", "a".repeat(31));
    assert_eq!(just_enough.chars().count(), 40);
    assert!(validate_api_key_format(&just_enough));
    let one_short = format!("mnt_test_{}", "a".repeat(30));
    assert!(!validate_api_key_format(&one_short));
    let other_prefix = format!("mnt_prod_{}", "a".repeat(40));
    assert!(!validate_api_key_format(&other_prefix));
    assert!(!validate_api_key_format(""));
}

#[test]
fn hash_is_hex_sha256() {
    assert_eq!(
        hash_api_key("abc"),
        "ba7816bf8f01cfea414140de5dae2223b00361a396177a9cb410ff61f20015ad"
    );
    assert_eq!(hash_api_key("abc"), hash_api_key("abc"));
}

#[test]
fn altered_key_does_not_verify() {
    let g = generate_api_key(false).unwrap();
    assert!(verify_api_key(&g.key, &hash_api_key(&g.key)));
    let mut altered: Vec<char> = g.key.chars().collect();
    let last = altered.len() - 1;
    altered[last] = if altered[last] == '0' { '1' } else { '0' };
    let altered: String = altered.into_iter().collect();
    assert!(!verify_api_key(&altered, &g.key_hash));
}

#[test]
fn key_from_known_bytes() {
    let bytes: Vec<u8> = (0u8..32).collect();
    let g = api_key_from_bytes(false, &bytes);
    assert_eq!(
        g.key,
        "mnt_test_000102030405060708090a0b0c0d0e0f101112131415161718191a1b1c1d1e1f"
    );
    assert_eq!(g.key_prefix, "mnt_test_0001020");
    assert_eq!(g.key_hash, hash_api_key(&g.key));
    assert!(validate_api_key_format(&g.key));
}

#[test]
fn generated_keys_have_fixed_shape() {
    let live = generate_api_key(true).unwrap();
    assert_eq!(live.key.len(), 9 + 64);
    assert_eq!(live.key_prefix.len(), 16);
    assert!(live.key.starts_with(&live.key_prefix));
    assert!(validate_api_key_format(&live.key));
    let test = generate_api_key(false).unwrap();
    assert!(test.key_prefix.starts_with("mnt_test_"));
    assert_ne!(live.key, test.key);
}

#[test]
fn prefix_check() {
    assert!(has_prefix("abcdef", "abc"));
    assert!(has_prefix("abc", ""));
    assert!(!has_prefix("ab", "abc"));
    assert!(!has_prefix("abd", "abc"));
}
