use base64::engine::general_purpose::URL_SAFE_NO_PAD;
use base64::Engine;
use gopener::pkce::{generate_pkce, pkce_from_bytes};
use sha2::{Digest, Sha256};

#[test]
fn pkce_from_known_bytes() {
    let bytes: Vec<u8> = (0u8..32).collect();
    let (verifier, challenge) = pkce_from_bytes(&bytes);
    assert_eq!(verifier, "AAECAwQFBgcICQoLDA0ODxAREhMUFRYXGBkaGxwdHh8");
    assert_eq!(challenge, "6oZqdX5MOLq_qBJ8vppAnT4fk6AP8UiP9zX8-Rev_9A");
}

#[test]
fn generated_pair_is_consistent() {
    let (verifier, challenge) = generate_pkce();
    assert_eq!(URL_SAFE_NO_PAD.decode(&verifier).unwrap().len(), 32);
    let digest = Sha256::digest(verifier.as_bytes());
    assert_eq!(URL_SAFE_NO_PAD.decode(&challenge).unwrap(), digest.to_vec());
    assert!(!verifier.contains('=') && !verifier.contains('+') && !verifier.contains('/'));
}

#[test]
fn successive_verifiers_differ() {
    let (a, _) = generate_pkce();
    let (b, _) = generate_pkce();
    assert_ne!(a, b);
}

#[test]
fn pkce_texts_are_43_url_safe_characters() {
    let url_safe = |t: &str| t.chars().all(|c| c.is_ascii_alphanumeric() || c == '-' || c == '_');
    let (verifier, challenge) = generate_pkce();
    assert_eq!(verifier.len(), 43);
    assert_eq!(challenge.len(), 43);
    assert!(url_safe(&verifier));
    assert!(url_safe(&challenge));
    let (short, _) = pkce_from_bytes(&[0xfb, 0xff]);
    assert_eq!(short, "-_8");
}
