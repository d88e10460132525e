use adeploy::auth::Auth;
use adeploy::error::{AdeployError, ErrorKind};

fn key_pair() -> (Auth, String) {
    let generated = Auth::generate_key_pair();
    let key = Auth::load_key_pair(&generated.private_key).unwrap();
    (Auth::with_key_pair(key), generated.public_key)
}

#[test]
fn test_ed25519_signature_verification() {
    let (auth, public_key) = key_pair();
    let test_data = b"test data for signing";

    let signature = auth.sign_data(test_data).unwrap();
    assert_eq!(signature.len(), 64);

    let verification_result = Auth::verify_signature(&public_key, test_data, &signature);
    assert!(verification_result.is_ok());
    assert!(verification_result.unwrap());

    let wrong_signature = vec![0; 64];
    let verification_result = Auth::verify_signature(&public_key, test_data, &wrong_signature);
    assert!(verification_result.is_ok());
    assert!(!verification_result.unwrap());
}

#[test]
fn generated_public_key_is_base64_of_32_bytes() {
    let generated = Auth::generate_key_pair();
    assert_eq!(generated.private_key.len(), 32);
    assert_eq!(generated.public_key.len(), 44);
    assert!(generated.public_key.ends_with('='));
}

#[test]
fn signature_does_not_verify_under_another_key() {
    let (auth, _) = key_pair();
    let (_, other_public) = key_pair();
    let data = b"archive bytes";
    let signature = auth.sign_data(data).unwrap();
    assert!(!Auth::verify_signature(&other_public, data, &signature).unwrap());
}

#[test]
fn signature_does_not_verify_for_other_data() {
    let (auth, public_key) = key_pair();
    let signature = auth.sign_data(b"one").unwrap();
    assert!(!Auth::verify_signature(&public_key, b"two", &signature).unwrap());
}

#[test]
fn signatures_are_deterministic() {
    let generated = Auth::generate_key_pair();
    let a = Auth::with_key_pair(Auth::load_key_pair(&generated.private_key).unwrap());
    let b = Auth::with_key_pair(Auth::load_key_pair(&generated.private_key).unwrap());
    assert_eq!(a.sign_data(b"x").unwrap(), b.sign_data(b"x").unwrap());
}

#[test]
fn public_key_with_surrounding_whitespace_verifies() {
    let (auth, public_key) = key_pair();
    let signature = auth.sign_data(b"data").unwrap();
    let padded = format!("  {}\n", public_key);
    assert!(Auth::verify_signature(&padded, b"data", &signature).unwrap());
}

#[test]
fn malformed_public_key_is_an_auth_error() {
    let err = Auth::verify_signature("not base64!", b"data", &[0u8; 64]).unwrap_err();
    assert_eq!(err.kind(), ErrorKind::Auth);
    assert!(err.text().starts_with("Authentication error: Failed to decode public key: "));
}

#[test]
fn short_public_key_is_an_auth_error() {
    let err = Auth::verify_signature("AAAA", b"data", &[0u8; 64]).unwrap_err();
    assert!(matches!(err, AdeployError::Auth(ref m) if m == "Failed to convert public key bytes"));
}

#[test]
fn signature_of_wrong_length_is_an_auth_error() {
    let (_, public_key) = key_pair();
    let err = Auth::verify_signature(&public_key, b"data", &[0u8; 63]).unwrap_err();
    assert!(matches!(err, AdeployError::Auth(ref m) if m == "Failed to convert signature bytes"));
}

#[test]
fn signing_without_key_fails() {
    let auth = Auth::new();
    let err = auth.sign_data(b"data").unwrap_err();
    assert!(matches!(err, AdeployError::Auth(ref m) if m == "No keypair available for signing"));
}

#[test]
fn private_key_must_have_32_bytes() {
    assert!(Auth::load_key_pair(&[7u8; 31]).is_err());
    assert!(Auth::load_key_pair(&[7u8; 33]).is_err());
    let err = Auth::load_key_pair(&[]).err().unwrap();
    assert_eq!(err.text(), "Authentication error: Invalid private key length");
    let key = Auth::load_key_pair(&[7u8; 32]).unwrap();
    assert_eq!(key.to_bytes(), vec![7u8; 32]);
}

#[test]
fn public_key_file_contents_are_trimmed() {
    assert_eq!(Auth::load_public_key("  abc=\n"), "abc=");
    assert_eq!(Auth::load_public_key("\t\n"), "");
}

#[test]
fn default_auth_holds_no_key() {
    assert!(Auth::default().sign_data(b"x").is_err());
    assert_eq!(adeploy::deploy::DeployManager::default().deploy_id.len(), 36);
}
