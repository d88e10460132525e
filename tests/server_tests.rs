use adeploy::auth::Auth;
use adeploy::config::{ConfigSnapshot, ServerConfig, ServerPackageConfig, ServerSettings};
use adeploy::client::prepare_request;
use adeploy::digest::archive_hash;
use adeploy::error::RpcCode;
use adeploy::protocol::DeployRequest;
use adeploy::server::{
    admission_code_of, admit_request, bind_address, is_key_allowed, resolve_message_limit,
};

fn package() -> ServerPackageConfig {
    ServerPackageConfig {
        deploy_path: "/srv/app".to_string(),
        before_deploy_script: None,
        after_deploy_script: None,
        backup_enabled: false,
        backup_path: None,
    }
}

fn signed_request(data: Vec<u8>) -> (DeployRequest, String) {
    let generated = Auth::generate_key_pair();
    let auth = Auth::with_key_pair(Auth::load_key_pair(&generated.private_key).unwrap());
    let hash = archive_hash(&data);
    let req = prepare_request(&auth, &generated.public_key, "app", data, hash, 0).unwrap();
    (req, generated.public_key)
}

fn snapshot(keys: Vec<String>, max: u64, pkg: Option<ServerPackageConfig>) -> ConfigSnapshot {
    ConfigSnapshot { allowed_keys: keys, package: pkg, max_file_size: max }
}

#[test]
fn authorised_request_is_admitted() {
    let (req, key) = signed_request(b"payload".to_vec());
    let admitted = admit_request(&snapshot(vec![key], 10485760, Some(package())), &req).unwrap();
    assert_eq!(admitted.deploy_path, "/srv/app");
}

#[test]
fn unauthorised_key_is_unauthenticated() {
    let (req, _) = signed_request(b"payload".to_vec());
    let status = admit_request(&snapshot(vec!["invalid-test-key".to_string()], 0, Some(package())), &req).unwrap_err();
    assert_eq!(status.code, RpcCode::Unauthenticated);
    assert!(status.message.contains("Client public key not allowed"));
}

#[test]
fn malformed_signature_is_invalid_argument() {
    let (mut req, key) = signed_request(b"payload".to_vec());
    req.signature = "invalid_base64!".to_string();
    let status = admit_request(&snapshot(vec![key], 0, Some(package())), &req).unwrap_err();
    assert_eq!(status.code, RpcCode::InvalidArgument);
    assert!(status.message.contains("Invalid signature"));
}

#[test]
fn forged_signature_is_unauthenticated() {
    let (mut req, key) = signed_request(b"payload".to_vec());
    req.file_data[0] ^= 1;
    let status = admit_request(&snapshot(vec![key], 0, Some(package())), &req).unwrap_err();
    assert_eq!(status.code, RpcCode::Unauthenticated);
    assert_eq!(status.message, "Invalid Ed25519 signature");
}

#[test]
fn missing_package_is_not_found() {
    let (req, key) = signed_request(b"payload".to_vec());
    let status = admit_request(&snapshot(vec![key], 0, None), &req).unwrap_err();
    assert_eq!(status.code, RpcCode::NotFound);
    assert_eq!(status.message, "Package 'app' not configured");
}

#[test]
fn oversize_payload_is_resource_exhausted() {
    let (req, key) = signed_request(vec![0u8; 11 * 1024 * 1024]);
    let status = admit_request(&snapshot(vec![key], 10485760, Some(package())), &req).unwrap_err();
    assert_eq!(status.code, RpcCode::ResourceExhausted);
    assert_eq!(status.message, "Archive size exceeds configured max_file_size (10485760 bytes)");
}

#[test]
fn zero_limit_means_no_limit() {
    let (req, key) = signed_request(vec![1u8; 4096]);
    assert!(admit_request(&snapshot(vec![key], 0, Some(package())), &req).is_ok());
}

#[test]
fn allow_list_compares_trimmed_keys() {
    let keys = vec!["  AAAA= \n".to_string(), "BBBB=".to_string()];
    assert!(is_key_allowed(&keys, "AAAA="));
    assert!(is_key_allowed(&keys, " BBBB=\t"));
    assert!(!is_key_allowed(&keys, "AAAA"));
    assert!(!is_key_allowed(&Vec::new(), "AAAA="));
}

#[test]
fn config_snapshot_reads_one_package() {
    let config = ServerConfig {
        packages: vec![("app".to_string(), package())],
        server: ServerSettings { port: 6060, max_file_size: 5, allowed_keys: vec!["k".to_string()] },
    };
    let s = config.snapshot("app");
    assert_eq!(s.allowed_keys, vec!["k".to_string()]);
    assert_eq!(s.max_file_size, 5);
    assert!(s.package.is_some());
    assert!(config.snapshot("other").package.is_none());
}

#[test]
fn message_limits_and_address() {
    assert_eq!(resolve_message_limit(0), 104857600);
    assert_eq!(resolve_message_limit(10), 10);
    assert_eq!(bind_address(6060), "0.0.0.0:6060");
    assert_eq!(bind_address(0), "0.0.0.0:0");
}

#[test]
fn admission_checks_run_in_order() {
    assert_eq!(admission_code_of(false, false, false, 99, 1, false), Some(RpcCode::InvalidArgument));
    assert_eq!(admission_code_of(true, false, true, 0, 0, true), Some(RpcCode::Unauthenticated));
    assert_eq!(admission_code_of(true, true, false, 0, 0, true), Some(RpcCode::Unauthenticated));
    assert_eq!(admission_code_of(true, true, true, 11, 10, false), Some(RpcCode::ResourceExhausted));
    assert_eq!(admission_code_of(true, true, true, 10, 10, false), Some(RpcCode::NotFound));
    assert_eq!(admission_code_of(true, true, true, 11, 0, true), None);
}
