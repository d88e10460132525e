use adeploy::config::ServerPackageConfig;
use adeploy::deploy::{backup_folder_name, DeployManager, HookOutput, UtcStamp};
use adeploy::deploy_log::{DeployLogEntry, LogLevel};
use adeploy::digest::archive_hash;
use adeploy::engine::{Action, DeployEngine, HookReport};
use adeploy::error::AdeployError;

fn stamp() -> UtcStamp {
    UtcStamp { year: 2024, month: 3, day: 9, hour: 7, minute: 5, second: 1 }
}

fn manager() -> DeployManager {
    DeployManager::with_identity("0b6c1c4e-6d8e-4c7a-9a57-5b8a2f0e6a11".to_string(), stamp())
}

fn package(pre: Option<&str>, post: Option<&str>, backup: bool) -> ServerPackageConfig {
    ServerPackageConfig {
        deploy_path: "/srv/app".to_string(),
        before_deploy_script: pre.map(|s| s.to_string()),
        after_deploy_script: post.map(|s| s.to_string()),
        backup_enabled: backup,
        backup_path: Some("/var/backups/app".to_string()),
    }
}

fn ran(code: i32, stdout: &str, stderr: &str) -> HookReport {
    HookReport::Ran(HookOutput {
        exit_code: Some(code),
        stdout: stdout.to_string(),
        stderr: stderr.to_string(),
    })
}

fn texts(logs: &[DeployLogEntry]) -> Vec<String> {
    logs.iter().map(|e| e.message.clone()).collect()
}

fn start(pkg: ServerPackageConfig) -> DeployEngine {
    let archive = b"archive bytes".to_vec();
    let hash = archive_hash(&archive);
    DeployEngine::start(&manager(), "app".to_string(), pkg, archive, &hash, Some("/opt/adeploy".to_string()))
}

#[test]
fn backup_folder_is_named_after_start_time() {
    assert_eq!(backup_folder_name(&stamp()), "backup_20240309_070501");
    let far = UtcStamp { year: 12345, month: 12, day: 31, hour: 23, minute: 59, second: 59 };
    assert_eq!(backup_folder_name(&far), "backup_+123451231_235959");
}

#[test]
fn fresh_manager_has_uuid_id() {
    let m = DeployManager::new();
    assert_eq!(m.deploy_id.len(), 36);
    let id: Vec<char> = m.deploy_id.chars().collect();
    for (i, c) in id.iter().enumerate() {
        if [8, 13, 18, 23].contains(&i) {
            assert_eq!(*c, '-');
        } else {
            assert!(c.is_ascii_hexdigit() && !c.is_ascii_uppercase());
        }
    }
    assert_eq!(id[14], '4');
    assert!(['8', '9', 'a', 'b'].contains(&id[19]));
    assert!(m.start_time.year >= 1970);
    assert!((1..=12).contains(&m.start_time.month));
}

#[test]
fn happy_path_with_backup() {
    let mut engine = start(package(Some("touch pre"), Some("touch post"), true));
    match engine.next_action() {
        Action::RunHook { command } => assert_eq!(command, "touch pre"),
        _ => panic!("expected the pre-hook"),
    }
    engine.hook_finished(ran(0, "made\n", ""));
    match engine.next_action() {
        Action::Backup { deploy_path, backup_root, snapshot_path } => {
            assert_eq!(deploy_path, "/srv/app");
            assert_eq!(backup_root, "/var/backups/app");
            assert_eq!(snapshot_path, "/var/backups/app/backup_20240309_070501");
        }
        _ => panic!("expected the backup"),
    }
    engine.backup_finished(Ok(true));
    match engine.next_action() {
        Action::Extract { deploy_path } => assert_eq!(deploy_path, "/srv/app"),
        _ => panic!("expected the extraction"),
    }
    assert_eq!(engine.archive(), &b"archive bytes".to_vec());
    engine.extract_finished(Ok(()));
    match engine.next_action() {
        Action::RunHook { command } => assert_eq!(command, "touch post"),
        _ => panic!("expected the post-hook"),
    }
    engine.hook_finished(ran(0, "", ""));
    assert!(matches!(engine.next_action(), Action::Finish));
    let response = engine.finish();
    assert!(response.success);
    assert_eq!(response.message, "Deployment completed successfully");
    assert_eq!(response.deploy_id, "0b6c1c4e-6d8e-4c7a-9a57-5b8a2f0e6a11");
    assert_eq!(
        texts(&response.logs),
        vec![
            "[0b6c1c4e-6d8e-4c7a-9a57-5b8a2f0e6a11] Starting deployment execution",
            "Archive hash verified",
            "Running Before-deploy script...",
            "made",
            "Before-deploy script succeeded",
            "Creating backup snapshot",
            "Backup stored at /var/backups/app/backup_20240309_070501",
            "Extracting files...",
            "Files extracted and deployed successfully",
            "Running After-deploy script...",
            "After-deploy script succeeded",
            "[0b6c1c4e-6d8e-4c7a-9a57-5b8a2f0e6a11] Deployment completed successfully",
        ]
    );
    assert!(response.logs.iter().all(|e| e.level == LogLevel::Info));
}

#[test]
fn pre_hook_failure_stops_before_backup() {
    let mut engine = start(package(Some("sh -c \"exit 1\""), None, true));
    engine.hook_finished(ran(1, "", "boom\n"));
    assert!(matches!(engine.next_action(), Action::Finish));
    let response = engine.finish();
    assert!(!response.success);
    assert_eq!(response.logs[0].level, LogLevel::Error);
    assert!(response.logs[0].message.starts_with("Deployment failed: "));
    let last = response.logs.last().unwrap();
    assert_eq!(last.level, LogLevel::Error);
    assert!(last.message.contains("exit code: 1"));
    assert!(response.logs.iter().any(|e| e.level == LogLevel::Warn && e.message == "STDERR: boom"));
    assert!(!texts(&response.logs).iter().any(|m| m.contains("backup snapshot")));
    assert_eq!(
        response.message,
        "Deploy error: Script 'sh -c \"exit 1\"' execution failed with exit code: 1"
    );
}

#[test]
fn post_hook_failure_still_succeeds() {
    let mut engine = start(package(None, Some("sh -c \"exit 1\""), false));
    assert!(matches!(engine.next_action(), Action::Extract { .. }));
    engine.extract_finished(Ok(()));
    engine.hook_finished(ran(1, "", ""));
    let response = engine.finish();
    assert!(response.success);
    assert!(response.logs.iter().any(|e| e.level == LogLevel::Error
        && e.message.starts_with("After-deploy script failed: ")
        && e.message.contains("exit code: 1")));
}

#[test]
fn corrupted_archive_fails_before_any_hook() {
    let archive = b"archive bytes".to_vec();
    let hash = archive_hash(&archive);
    let mut tampered = archive.clone();
    tampered[3] ^= 0x80;
    let engine = DeployEngine::start(&manager(), "app".to_string(), package(Some("touch pre"), None, true), tampered, &hash, None);
    assert!(matches!(engine.next_action(), Action::Finish));
    let response = engine.finish();
    assert!(!response.success);
    let first_error = response.logs.iter().find(|e| e.level == LogLevel::Error).unwrap();
    assert!(first_error.message.contains("Hash verification failed"));
    assert!(response.logs.iter().any(|e| e.message.starts_with("Details: Hash verification failed")));
}

#[test]
fn missing_hooks_are_skipped_with_a_note() {
    let mut engine = start(package(None, None, false));
    engine.extract_finished(Ok(()));
    let response = engine.finish();
    assert!(response.success);
    let t = texts(&response.logs);
    assert!(t.contains(&"No Before-deploy script configured".to_string()));
    assert!(t.contains(&"No After-deploy script configured".to_string()));
}

#[test]
fn hook_that_cannot_start_fails_the_deploy() {
    let mut engine = start(package(Some("run"), None, false));
    engine.hook_finished(HookReport::NotStarted("no such shell".to_string()));
    let response = engine.finish();
    assert!(!response.success);
    assert_eq!(response.message, "Deploy error: Failed to execute script 'run': no such shell");
}

#[test]
fn backup_failure_and_absent_deploy_dir() {
    let mut engine = start(package(None, None, true));
    engine.backup_finished(Ok(false));
    engine.extract_finished(Ok(()));
    assert!(texts(&engine.finish().logs).contains(&"No existing deployment at /srv/app; skipping backup".to_string()));

    let mut engine = start(package(None, None, true));
    engine.backup_finished(Err(AdeployError::FileSystem("disk full".to_string())));
    let response = engine.finish();
    assert!(!response.success);
    assert_eq!(response.message, "File system error: disk full");
    assert_eq!(response.logs[0].message, "Deployment failed: File system error: disk full");
    assert_eq!(response.logs[1].message, "[0b6c1c4e-6d8e-4c7a-9a57-5b8a2f0e6a11] Starting deployment execution");
    assert_eq!(response.logs.last().unwrap().message, "Backup failed: File system error: disk full");
}

#[test]
fn default_backup_root_sits_beside_the_executable() {
    let mut pkg = package(None, None, true);
    pkg.backup_path = None;
    let engine = start(pkg);
    match engine.next_action() {
        Action::Backup { backup_root, snapshot_path, .. } => {
            assert_eq!(backup_root, "/opt/adeploy/app");
            assert_eq!(snapshot_path, "/opt/adeploy/app/backup_20240309_070501");
        }
        _ => panic!("expected the backup"),
    }
}

#[test]
fn extraction_failure_fails_the_deploy() {
    let mut engine = start(package(None, Some("touch post"), false));
    engine.extract_finished(Err(AdeployError::Deploy("Failed to extract archive: bad gzip".to_string())));
    assert!(matches!(engine.next_action(), Action::Finish));
    let response = engine.finish();
    assert!(!response.success);
    assert_eq!(response.logs[0].level, LogLevel::Error);
    assert_eq!(
        response.logs[0].message,
        "Deployment failed: Deploy error: Failed to extract archive: bad gzip"
    );
    assert_eq!(response.logs[1].message, "Details: Failed to extract archive: bad gzip");
    assert_eq!(
        response.logs.last().unwrap().message,
        "File extraction failed: Deploy error: Failed to extract archive: bad gzip"
    );
}
