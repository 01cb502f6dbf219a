use ai_agents::portcl::monitor::metrics::parse_millidegrees;
use ai_agents::candle_server::{health_response, inference_response, list_models};
use ai_agents::portcl::actions::Action;
use ai_agents::portcl::service::{next_overall_status, status_settled, ServiceStatus};

#[test]
fn candle_replies() {
    let h = health_response();
    assert_eq!(h.status, "healthy");
    assert_eq!(h.models_loaded, vec!["default".to_string()]);
    assert_eq!(list_models(), vec!["default".to_string()]);
    let r = inference_response("hi");
    assert_eq!(r.text, "Response to: hi");
    assert_eq!(r.model, "default");
}

#[test]
fn config_check_names_the_parent_of_the_data_directory() {
    let mut config = ai_agents::portcl::config::settings::PortageConfig::default();
    config.monitoring.portage_path = "/".to_string();
    config.general.data_directory = "/nonexistent-portcl-root/state/data".to_string();
    match ai_agents::portcl::config::validation::validate_config(&config) {
        Err(ai_agents::portcl::error::PortCLError::Validation(m)) => {
            assert_eq!(m, "Parent directory does not exist: /nonexistent-portcl-root/state")
        }
        other => panic!("unexpected {:?}", other),
    }
    config.general.data_directory = "/tmp/portcl-data".to_string();
    assert!(ai_agents::portcl::config::validation::validate_config(&config).is_ok());
}

#[test]
fn snapshot_ids_are_fresh_uuids() {
    let mut manager = ai_agents::portcl::actions::safety::RollbackManager::new();
    let a = manager.create_snapshot(&ai_agents::portcl::actions::Action::NoOp).unwrap();
    let b = manager.create_snapshot(&ai_agents::portcl::actions::Action::NoOp).unwrap();
    assert_ne!(a, b);
    for id in [&a, &b] {
        assert_eq!(id.len(), "snapshot_".len() + 36);
        assert!(id.starts_with("snapshot_"));
        assert!(id["snapshot_".len()..].chars().all(|c| c.is_ascii_hexdigit() && !c.is_ascii_uppercase() || c == '-'));
    }
}

#[test]
fn whitespace_is_trimmed_around_numbers() {
    assert_eq!(ai_agents::portcl::monitor::metrics::parse_millidegrees(" \t42000\n"), Some(42000));
    assert_eq!(ai_agents::portcl::monitor::metrics::parse_millidegrees("42 000"), None);
}

#[test]
fn snapshots_record_the_simulated_system() {
    let mut manager = ai_agents::portcl::actions::safety::RollbackManager::new();
    let id = manager.create_snapshot(&ai_agents::portcl::actions::Action::CleanObsoletePackages { force: true }).unwrap();
    let s = manager.get_snapshot(&id).unwrap();
    assert_eq!(s.package_database.len(), 2);
    assert_eq!(s.package_database[0].0, "sys-apps/portage");
    assert_eq!(s.package_database[0].1.version, "3.0.56");
    assert_eq!(s.config_files[1].0, "/etc/portage/package.use");
    assert_eq!(s.disk_usage, 50 * 1024 * 1024 * 1024);
    assert_eq!(s.memory_usage, 8 * 1024 * 1024 * 1024);
    assert!(s.metadata.is_empty());
}

#[test]
fn unicode_white_space_is_trimmed() {
    assert_eq!(parse_millidegrees("\u{3000}7\u{85}\u{a0}\u{2028}"), Some(7));
    assert_eq!(parse_millidegrees("\u{200b}7"), None);
    for c in ['\u{1680}', '\u{2000}', '\u{200a}', '\u{202f}', '\u{205f}', '\u{0b}', '\u{0c}'] {
        assert!(c.is_whitespace());
        assert_eq!(parse_millidegrees(&format!("{}5{}", c, c)), Some(5));
    }
}

#[test]
fn events_are_stamped_with_the_current_time() {
    let mut tracker = ai_agents::portcl::monitor::events::EventTracker::new(
        ai_agents::portcl::config::settings::MonitoringConfig::default(),
    );
    let before = std::time::SystemTime::now().duration_since(std::time::UNIX_EPOCH).unwrap().as_micros() as i64;
    tracker.track_event(ai_agents::portcl::monitor::events::EventType::Info, "t".to_string()).unwrap();
    let after = std::time::SystemTime::now().duration_since(std::time::UNIX_EPOCH).unwrap().as_micros() as i64;
    let e = &tracker.get_recent_events(Some(1))[0];
    assert!(before <= e.timestamp && e.timestamp <= after);
    assert_eq!(e.id.len(), 36);
    assert_eq!(e.id.as_bytes()[14], b'4');
}

#[test]
fn recording_steps_use_the_given_uuid() {
    let mut manager = ai_agents::portcl::actions::safety::RollbackManager::new();
    let id = manager.record_snapshot(&Action::NoOp, "fixed-uuid".to_string());
    assert_eq!(id, "snapshot_fixed-uuid");
    assert_eq!(manager.current_snapshot().as_deref(), Some("snapshot_fixed-uuid"));
    assert!(manager.get_snapshot(&id).is_some());

    let mut tracker = ai_agents::portcl::monitor::events::EventTracker::new(
        ai_agents::portcl::config::settings::MonitoringConfig::default(),
    );
    tracker.record_event("e-1".to_string(), ai_agents::portcl::monitor::events::EventType::Error, "boom".to_string());
    let e = &tracker.get_recent_events(Some(1))[0];
    assert_eq!(e.id, "e-1");
    assert_eq!(e.details, "boom");

    let mut executor = ai_agents::portcl::actions::executor::ActionExecutor::new();
    let started = executor.start_with_id(&Action::NoOp, "u1".to_string()).unwrap();
    assert_eq!(started, "NoOp_u1");
    assert!(executor.is_action_type_active("NoOp"));
    assert!(executor.start_with_id(&Action::AdjustParallelism { jobs: 0 }, "u2".to_string()).is_err());
    assert_eq!(executor.active_action_count(), 1);
}

#[test]
fn a_failed_total_settles_the_service_status() {
    let failed = next_overall_status(ServiceStatus::Running, ServiceStatus::Failed);
    assert!(status_settled(failed));
    assert!(!status_settled(ServiceStatus::Stopped));
}

#[test]
fn uuids_carry_version_and_variant() {
    let mut tracker = ai_agents::portcl::monitor::events::EventTracker::new(
        ai_agents::portcl::config::settings::MonitoringConfig::default(),
    );
    for _ in 0..50 {
        tracker.track_event(ai_agents::portcl::monitor::events::EventType::Info, "x".to_string()).unwrap();
    }
    for e in tracker.get_recent_events(Some(50)) {
        let b = e.id.as_bytes();
        assert_eq!(b[14], b'4');
        assert!(matches!(b[19], b'8' | b'9' | b'a' | b'b'));
        assert!(b[8] == b'-' && b[13] == b'-' && b[18] == b'-' && b[23] == b'-');
    }
}
