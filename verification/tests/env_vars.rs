use rivetr::env_vars::is_valid_env_key;

#[test]
fn test_valid_env_keys() {
    assert!(is_valid_env_key("DATABASE_URL"));
    assert!(is_valid_env_key("_PRIVATE_VAR"));
    assert!(is_valid_env_key("API_KEY_123"));
    assert!(is_valid_env_key("MY_VAR"));
}

#[test]
fn test_invalid_env_keys() {
    assert!(!is_valid_env_key(""));
    assert!(!is_valid_env_key("123_VAR")); // starts with number
    assert!(!is_valid_env_key("MY-VAR")); // contains hyphen
    assert!(!is_valid_env_key("MY VAR")); // contains space
    assert!(!is_valid_env_key("MY.VAR")); // contains period
}
