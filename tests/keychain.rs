use gopener::keychain::keys;
use gopener::keychain::CredentialKey;

#[test]
fn test_key_constants_are_unique() {
    let all_keys = [
        keys::ACCESS_TOKEN,
        keys::REFRESH_TOKEN,
        keys::TOKEN_EXPIRY,
        keys::CUSTOM_CLIENT_ID,
        keys::CUSTOM_CLIENT_SECRET,
        keys::PKCE_VERIFIER,
    ];

    let mut unique = std::collections::HashSet::new();
    for key in &all_keys {
        assert!(unique.insert(key), "Duplicate key found: {}", key);
    }
}

#[test]
fn test_key_constants_not_empty() {
    assert!(!keys::ACCESS_TOKEN.is_empty());
    assert!(!keys::REFRESH_TOKEN.is_empty());
    assert!(!keys::TOKEN_EXPIRY.is_empty());
    assert!(!keys::CUSTOM_CLIENT_ID.is_empty());
    assert!(!keys::CUSTOM_CLIENT_SECRET.is_empty());
    assert!(!keys::PKCE_VERIFIER.is_empty());
}

#[test]
fn key_names_match_constants() {
    assert_eq!(CredentialKey::AccessToken.name(), "access_token");
    assert_eq!(CredentialKey::RefreshToken.name(), "refresh_token");
    assert_eq!(CredentialKey::TokenExpiry.name(), "token_expiry");
    assert_eq!(CredentialKey::CustomClientId.name(), "custom_client_id");
    assert_eq!(CredentialKey::CustomClientSecret.name(), "custom_client_secret");
    assert_eq!(CredentialKey::PkceVerifier.name(), "pkce_verifier");
}
