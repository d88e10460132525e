use adeploy::auth::Auth;
use adeploy::client::{
    clamp_message_limit, effective_timeout, endpoint_uri, enforce_client_archive_size,
    interpret_response, prepare_request, rejection_hint, resolve_remote_configuration,
    resolved_max_file_size, select_packages,
};
use adeploy::config::{get_remote_config, ClientConfig, ClientPackageConfig, KeyPairPaths, RemoteConfig};
use adeploy::deploy::{archive_step, finish_package, ArchiveStep, SourceKind};
use adeploy::digest::archive_hash;
use adeploy::error::{AdeployError, ErrorKind, RpcCode, RpcStatus};
use adeploy::protocol::DeployResponse;

fn remote(port: u16, max: Option<u64>) -> RemoteConfig {
    RemoteConfig { port, timeout: 30, max_file_size: max }
}

fn config() -> ClientConfig {
    ClientConfig {
        packages: vec![
            ("web".to_string(), ClientPackageConfig { sources: vec!["dist".to_string()] }),
            ("api".to_string(), ClientPackageConfig { sources: vec!["a.txt".to_string(), "b".to_string()] }),
        ],
        remotes: vec![
            ("10.0.0.1".to_string(), remote(7070, Some(5))),
            ("default".to_string(), remote(6060, None)),
        ],
    }
}

#[test]
fn remote_lookup_falls_back_to_default() {
    let c = config();
    assert_eq!(get_remote_config(&c, "10.0.0.1").unwrap().port, 7070);
    assert_eq!(get_remote_config(&c, "10.0.0.2").unwrap().port, 6060);
    let mut no_default = config();
    no_default.remotes.pop();
    assert!(get_remote_config(&no_default, "10.0.0.2").is_none());
    let err = resolve_remote_configuration(&no_default, "10.0.0.2").unwrap_err();
    assert_eq!(err.text(), "Configuration error: No server configuration found for host: 10.0.0.2");
}

#[test]
fn max_file_size_defaults_to_100_mib() {
    assert_eq!(resolved_max_file_size(&remote(1, None)), 104857600);
    assert_eq!(resolved_max_file_size(&remote(1, Some(0))), 104857600);
    assert_eq!(resolved_max_file_size(&remote(1, Some(42))), 42);
    assert_eq!(clamp_message_limit(42), 42);
}

#[test]
fn client_refuses_oversize_archive() {
    assert!(enforce_client_archive_size(&[0u8; 10], 10).is_ok());
    assert!(enforce_client_archive_size(&[0u8; 10], 0).is_ok());
    let err = enforce_client_archive_size(&[0u8; 11], 10).unwrap_err();
    assert!(matches!(err, AdeployError::Deploy(ref m) if m == "Archive size 11 exceeds configured max_file_size 10"));
}

#[test]
fn timeout_zero_disables() {
    assert_eq!(effective_timeout(0), None);
    assert_eq!(effective_timeout(30), Some(30));
}

#[test]
fn endpoint_text() {
    assert_eq!(endpoint_uri("127.0.0.1", 6060), "http://127.0.0.1:6060");
}

#[test]
fn packages_are_selected_in_request_order() {
    let c = config();
    let picked = select_packages(&c, Some(vec!["api".to_string(), "nope".to_string(), "web".to_string()])).unwrap();
    assert_eq!(picked.len(), 2);
    assert_eq!(picked[0].0, "api");
    assert_eq!(picked[0].1.sources, vec!["a.txt".to_string(), "b".to_string()]);
    assert_eq!(picked[1].0, "web");
}

#[test]
fn no_known_package_is_a_config_error() {
    let c = config();
    let err = select_packages(&c, Some(vec!["nope".to_string()])).unwrap_err();
    assert_eq!(err.text(), "Configuration error: No packages found to deploy");
    assert!(select_packages(&c, None).is_err());
    assert!(select_packages(&c, Some(Vec::new())).is_err());
}

#[test]
fn request_carries_signed_archive() {
    let generated = Auth::generate_key_pair();
    let auth = Auth::with_key_pair(Auth::load_key_pair(&generated.private_key).unwrap());
    let data = b"tarball".to_vec();
    let (data, hash) = finish_package(data);
    assert_eq!(hash, archive_hash(b"tarball"));
    let req = prepare_request(&auth, &generated.public_key, "web", data.clone(), hash.clone(), 100).unwrap();
    assert_eq!(req.package_name, "web");
    assert_eq!(req.version, "1.0.0");
    assert_eq!(req.file_data, data);
    assert_eq!(req.file_hash, hash);
    assert_eq!(req.public_key, generated.public_key);
    assert_eq!(req.signature.len(), 88);
    assert!(req.metadata.is_empty());
}

#[test]
fn request_over_limit_or_without_key_fails() {
    let generated = Auth::generate_key_pair();
    let auth = Auth::with_key_pair(Auth::load_key_pair(&generated.private_key).unwrap());
    let err = prepare_request(&auth, "k", "web", vec![0u8; 5], String::new(), 4).err().unwrap();
    assert_eq!(err.kind(), ErrorKind::Deploy);
    let err = prepare_request(&Auth::new(), "k", "web", vec![0u8; 5], String::new(), 0).err().unwrap();
    assert_eq!(
        err.text(),
        "Authentication error: Failed to sign data: Authentication error: No keypair available for signing"
    );
}

#[test]
fn in_band_failure_becomes_deploy_error() {
    let ok = DeployResponse { success: true, message: String::new(), deploy_id: "id".to_string(), logs: Vec::new() };
    assert!(interpret_response("web", &ok).is_ok());
    let bad = DeployResponse { success: false, message: "boom".to_string(), deploy_id: "id".to_string(), logs: Vec::new() };
    let err = interpret_response("web", &bad).unwrap_err();
    assert_eq!(err.text(), "Deploy error: Package web deployment failed: boom");
}

#[test]
fn unauthenticated_answer_prints_own_key() {
    let status = RpcStatus { code: RpcCode::Unauthenticated, message: "Client public key not allowed".to_string() };
    let hint = rejection_hint(&status, " KEY=\n").unwrap();
    assert!(hint.ends_with("`allowed_keys`: KEY="));
    let other = RpcStatus { code: RpcCode::NotFound, message: String::new() };
    assert!(rejection_hint(&other, "KEY=").is_none());
    assert_eq!(
        AdeployError::Grpc(status).text(),
        "gRPC error (code: Unauthenticated, message: Client public key not allowed)"
    );
}

#[test]
fn sources_enter_archive_by_kind() {
    match archive_step("dir/test1.txt", SourceKind::File).unwrap() {
        ArchiveStep::AddFile { path, name } => {
            assert_eq!(path, "dir/test1.txt");
            assert_eq!(name, "test1.txt");
        }
        _ => panic!("expected a file"),
    }
    assert!(matches!(archive_step("dist", SourceKind::Directory).unwrap(), ArchiveStep::AddDirectoryContents { .. }));
    assert!(matches!(archive_step("fifo", SourceKind::Other).unwrap(), ArchiveStep::Skip));
    let err = archive_step("gone", SourceKind::Missing).err().unwrap();
    assert_eq!(err.text(), "File system error: Source path 'gone' does not exist");
}

#[test]
fn key_pair_paths_hold_both_paths() {
    let p = KeyPairPaths::new("/k/id_ed25519".to_string(), "/k/id_ed25519.pub".to_string());
    assert_eq!(p.private_key, "/k/id_ed25519");
    assert_eq!(p.public_key, "/k/id_ed25519.pub");
}
