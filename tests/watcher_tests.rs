use adeploy::config::{ServerConfig, ServerSettings};
use adeploy::deploy_log::{DeployLogEntry, LogLevel};
use adeploy::platform_functions::{stop_process, HostPlatform};
use adeploy::service::{format_service_status, service_arguments, ServiceState};
use adeploy::watcher::{pin_port, ConfigWatcher, Probe};

fn server_config(port: u16, keys: &[&str]) -> ServerConfig {
    ServerConfig {
        packages: Vec::new(),
        server: ServerSettings { port, max_file_size: 0, allowed_keys: keys.iter().map(|k| k.to_string()).collect() },
    }
}

#[test]
fn newer_file_is_reloaded_with_new_keys_and_old_port() {
    let mut w = ConfigWatcher::new(Some(100));
    assert!(!w.observe("cfg.toml", Probe::Modified(100)).reload);
    assert!(w.observe("cfg.toml", Probe::Modified(101)).reload);
    let (published, notes) = w.reloaded("cfg.toml", 101, Ok(server_config(7000, &["NEWKEY="])), 6060);
    let published = published.unwrap();
    assert_eq!(published.server.port, 6060);
    assert_eq!(published.server.allowed_keys, vec!["NEWKEY=".to_string()]);
    assert_eq!(notes[0].level, LogLevel::Warn);
    assert_eq!(notes[0].message, "Ignoring server port change from 6060 to 7000 in cfg.toml");
    assert_eq!(notes[1].message, "Reloaded server config from cfg.toml");
    assert_eq!(w.last_modified, Some(101));
    assert!(!w.observe("cfg.toml", Probe::Modified(101)).reload);
}

#[test]
fn failed_reload_keeps_previous_and_logs_once() {
    let mut w = ConfigWatcher::new(None);
    assert!(w.observe("cfg.toml", Probe::Modified(5)).reload);
    let (published, notes) = w.reloaded("cfg.toml", 5, Err("bad toml".to_string()), 6060);
    assert!(published.is_none());
    assert_eq!(notes.len(), 1);
    assert_eq!(notes[0].message, "Failed to reload server config: bad toml");
    assert_eq!(w.last_modified, None);
    let (_, notes) = w.reloaded("cfg.toml", 5, Err("bad toml".to_string()), 6060);
    assert!(notes.is_empty());
}

#[test]
fn unreadable_metadata_is_logged_once() {
    let mut w = ConfigWatcher::new(Some(1));
    let first = w.observe("cfg.toml", Probe::MetadataUnavailable("gone".to_string()));
    assert!(!first.reload);
    assert_eq!(first.notes.len(), 1);
    let second = w.observe("cfg.toml", Probe::MetadataUnavailable("gone".to_string()));
    assert!(second.notes.is_empty());
    let back = w.observe("cfg.toml", Probe::Modified(2));
    assert!(back.reload);
    assert_eq!(back.notes[0].message, "Server config file cfg.toml became available again");
}

#[test]
fn port_is_pinned() {
    let (c, changed) = pin_port(server_config(1, &["a"]), 2);
    assert!(changed);
    assert_eq!(c.server.port, 2);
    let (_, changed) = pin_port(server_config(2, &["a"]), 2);
    assert!(!changed);
}

#[test]
fn service_status_texts() {
    assert_eq!(format_service_status(&ServiceState::NotInstalled), "not installed");
    assert_eq!(format_service_status(&ServiceState::Running), "running");
    assert_eq!(format_service_status(&ServiceState::Stopped(None)), "stopped");
    assert_eq!(format_service_status(&ServiceState::Stopped(Some("exit 3".to_string()))), "stopped (exit 3)");
    assert_eq!(service_arguments("adeploy"), vec!["server", "run", "--service-label", "adeploy"]);
}

#[test]
fn stop_process_is_not_available() {
    assert_eq!(
        stop_process(HostPlatform::Linux, "nginx".to_string()),
        Err("stop_process not yet implemented for Linux for process: nginx".to_string())
    );
    assert_eq!(
        stop_process(HostPlatform::MacOs, "x".to_string()),
        Err("stop_process not yet implemented for macOS for process: x".to_string())
    );
    assert_eq!(
        stop_process(HostPlatform::Other, "x".to_string()),
        Err("stop_process is not supported on this OS for process: x".to_string())
    );
}

#[test]
fn log_entry_constructors() {
    let e = DeployLogEntry::warn("w".to_string());
    assert_eq!(e.level, LogLevel::Warn);
    assert_eq!(e.message, "w");
    assert_eq!(DeployLogEntry::info("i".to_string()).level, LogLevel::Info);
    assert_eq!(DeployLogEntry::error("e".to_string()).level, LogLevel::Error);
    assert_eq!(DeployLogEntry::new(LogLevel::Error, "x".to_string()).message, "x");
    assert_eq!(LogLevel::Warn.wire_code(), 1);
    assert_eq!(LogLevel::from_wire_code(2), LogLevel::Error);
    assert_eq!(LogLevel::from_wire_code(9), LogLevel::Info);
}

#[test]
fn persistent_parse_error_is_logged_once_across_polls() {
    let mut w = ConfigWatcher::new(Some(1));
    assert!(w.observe("cfg.toml", Probe::Modified(2)).reload);
    let (_, notes) = w.reloaded("cfg.toml", 2, Err("bad toml".to_string()), 6060);
    assert_eq!(notes.len(), 1);
    for _ in 0..3 {
        let d = w.observe("cfg.toml", Probe::Modified(2));
        assert!(d.reload);
        assert!(d.notes.is_empty());
        let (published, notes) = w.reloaded("cfg.toml", 2, Err("bad toml".to_string()), 6060);
        assert!(published.is_none());
        assert!(notes.is_empty());
    }
    let (_, notes) = w.reloaded("cfg.toml", 2, Err("other".to_string()), 6060);
    assert_eq!(notes[0].message, "Failed to reload server config: other");
    let (published, _) = w.reloaded("cfg.toml", 3, Ok(server_config(6060, &["K="])), 6060);
    assert!(published.is_some());
    assert!(w.last_error.is_none());
}

#[test]
fn modified_time_error_is_not_cleared_by_readable_metadata() {
    let mut w = ConfigWatcher::new(Some(1));
    let first = w.observe("cfg.toml", Probe::ModifiedUnavailable("unsupported".to_string()));
    assert_eq!(first.notes.len(), 1);
    let again = w.observe("cfg.toml", Probe::ModifiedUnavailable("unsupported".to_string()));
    assert!(again.notes.is_empty());
}
