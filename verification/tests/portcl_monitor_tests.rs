use ai_agents::portcl::config::settings::{MonitoringConfig, PortageConfig};
use ai_agents::portcl::config::validation::{validate_config_with, validate_system_requirements_with};
use ai_agents::portcl::error::PortCLError;
use ai_agents::portcl::monitor::events::{EventQuery, EventSeverity, EventSource, EventTracker, EventType};
use ai_agents::portcl::monitor::metrics::{parse_du_bytes, parse_millidegrees, parse_parallel_jobs, NetworkIo};
use ai_agents::portcl::monitor::portage::{
    count_output_lines, parse_last_sync, parse_portage_version, search_command, PackageQuery,
    PortageMonitor,
};
use ai_agents::portcl::service::{
    aggregate_status, status_from_rc_status, status_from_systemd, OpenRCServiceManager,
    ServiceStatus, SystemdServiceManager,
};

#[test]
fn test_event_tracking() {
    let config = MonitoringConfig::default();
    let mut tracker = EventTracker::new(config);
    let event_id = tracker.track_event(EventType::Info, "Test event".to_string()).unwrap();
    let events = tracker.get_recent_events(Some(1));
    assert_eq!(events.len(), 1);
    assert_eq!(events[0].id, event_id);
    assert_eq!(events[0].details, "Test event");
}

#[test]
fn test_event_statistics() {
    let config = MonitoringConfig::default();
    let mut tracker = EventTracker::new(config);
    tracker.track_event(EventType::CompileSuccess, "Package compiled".to_string()).unwrap();
    tracker.track_event(EventType::CompileFailed, "Package failed".to_string()).unwrap();
    tracker.track_event(EventType::SyncComplete, "Sync successful".to_string()).unwrap();
    let stats = tracker.get_event_statistics();
    assert_eq!(stats.total_events, 3);
    let success = stats.count_of_type(EventType::CompileSuccess) as f64;
    let failed = stats.count_of_type(EventType::CompileFailed) as f64;
    assert_eq!(success / (success + failed) * 100.0, 50.0);
    let synced = stats.count_of_type(EventType::SyncComplete) as f64;
    let sync_failed = stats.count_of_type(EventType::SyncFailed) as f64;
    assert_eq!(synced / (synced + sync_failed) * 100.0, 100.0);
}

#[test]
fn event_store_keeps_the_last_thousand() {
    let mut tracker = EventTracker::new(MonitoringConfig::default());
    for i in 0..1005u32 {
        tracker.track_event(EventType::PackageInstall, format!("pkg-{}", i)).unwrap();
    }
    assert_eq!(tracker.event_count(), 1000);
    let recent = tracker.get_recent_events(None);
    assert_eq!(recent.len(), 100);
    assert_eq!(recent[0].details, "pkg-1004");
    assert_eq!(recent[0].severity, EventSeverity::Low);
    assert_eq!(recent[0].source, EventSource::Portage);
    let hits = tracker.get_package_events("pkg-1003");
    assert_eq!(hits.len(), 1);
    assert!(tracker.get_package_events("pkg-3").is_empty() == false);
    let old = tracker.get_package_events("pkg-4 ");
    assert!(old.is_empty());
}

#[test]
fn event_queries() {
    let mut tracker = EventTracker::new(MonitoringConfig::default());
    tracker.track_event(EventType::Error, "boom".to_string()).unwrap();
    tracker.track_event(EventType::CompileStart, "gcc".to_string()).unwrap();
    tracker.track_event(EventType::Warning, "careful".to_string()).unwrap();
    assert_eq!(tracker.get_error_events().len(), 1);
    assert_eq!(tracker.get_compilation_events().len(), 1);
    assert_eq!(tracker.get_events_by_severity(EventSeverity::Medium).len(), 1);
    assert_eq!(tracker.select(&EventQuery::OfType(EventType::Warning))[0].details, "careful");
    assert_eq!(tracker.get_events_in_timerange(i64::MIN, i64::MAX).len(), 3);
    let stats = tracker.get_event_statistics();
    let total: usize = stats.events_by_type.iter().map(|(_, n)| *n).sum();
    assert_eq!(total, stats.total_events);
}

#[test]
fn portage_parsers() {
    let m = PortageMonitor::with_portage_check(MonitoringConfig::default(), true).unwrap();
    let (c, n) = m.parse_package_name("sys-apps/portage").unwrap();
    assert_eq!((c.as_str(), n.as_str()), ("sys-apps", "portage"));
    match m.parse_package_name("portage") {
        Err(PortCLError::Portage(msg)) => assert_eq!(msg, "Package name must include category: portage"),
        _ => panic!("a category is needed"),
    }
    assert_eq!(m.parse_installed_version("sys-apps/portage-3.0.30\nx").unwrap(), "3.0.30");
    assert!(m.parse_installed_version("").is_err());
    let meta = "Description: A package manager \nHomepage: https://x\nSize: 1234 Bytes\nSlot: 0";
    let info = m.parse_package_metadata("sys-apps", "portage", "3.0", meta);
    assert_eq!(info.description, Some("A package manager".to_string()));
    assert_eq!(info.installed_size, Some(1234));
    assert_eq!(info.slot, Some("0".to_string()));
    assert_eq!(info.license, None);
    let found = m.parse_search_results("*  sys-apps/portage\nsys-apps/portage-3.0 [masked]\n\nbadline\n");
    assert_eq!(found.len(), 1);
    assert_eq!(found[0].category, "sys-apps");
    assert_eq!(found[0].name, "portage-3.0");
    assert_eq!(found[0].version, "unknown");
    let list = m.parse_package_list("dev-lang/rust-1.75.0\nnoslash\nsys-apps/portage-3.0.56");
    assert_eq!(list.len(), 2);
    assert_eq!(list[0].name, "rust");
    assert_eq!(list[0].version, "1.75.0");
    assert!(PortageMonitor::with_portage_check(MonitoringConfig::default(), false).is_err());
}

#[test]
fn portage_output_helpers() {
    assert_eq!(count_output_lines("a\nb\nc\n"), 3);
    let log = "1700000000 === Sync completed\n1700000100 >>> emerge\nbad === Sync completed";
    assert_eq!(parse_last_sync(log), Some(1700000000));
    assert_eq!(parse_last_sync("1700000000: === Sync completed"), None);
    assert_eq!(parse_last_sync("nothing"), None);
    assert_eq!(parse_portage_version("Portage 3.0.30 (python 3.11)").unwrap(), "3.0.30");
    assert_eq!(parse_portage_version("Portage").unwrap(), "unknown");
    assert!(parse_portage_version("").is_err());
    let q = PackageQuery {
        name: "portage".to_string(),
        category: Some("sys-apps".to_string()),
        slot: None,
        repository: Some("gentoo".to_string()),
        version_constraint: None,
    };
    assert_eq!(
        search_command(&q).unwrap(),
        vec!["emerge", "--search", "--quiet", "--repository", "gentoo", "sys-apps/portage"]
    );
    let none = PackageQuery {
        name: String::new(),
        category: None,
        slot: None,
        repository: None,
        version_constraint: None,
    };
    assert!(search_command(&none).is_none());
}

#[test]
fn metric_parsers() {
    assert_eq!(parse_parallel_jobs("-j8 -l4"), 8);
    assert_eq!(parse_parallel_jobs("--quiet -j"), 1);
    assert_eq!(parse_parallel_jobs("-jx"), 1);
    assert_eq!(parse_parallel_jobs(""), 1);
    assert_eq!(parse_millidegrees(" 45000\n"), Some(45000));
    assert_eq!(parse_du_bytes("4096\t/var/tmp"), 4096);
    assert_eq!(parse_du_bytes(""), 0);
    let t = NetworkIo::total(&vec![
        NetworkIo { bytes_received: 1, bytes_transmitted: 2, packets_received: 3, packets_transmitted: 4 },
        NetworkIo { bytes_received: 10, bytes_transmitted: 20, packets_received: 30, packets_transmitted: 40 },
    ]);
    assert_eq!(t.bytes_received, 11);
    assert_eq!(t.packets_transmitted, 44);
}

#[test]
fn service_statuses() {
    assert_eq!(status_from_systemd(Some(0), ""), ServiceStatus::Running);
    assert_eq!(status_from_systemd(Some(3), ""), ServiceStatus::Stopped);
    assert_eq!(status_from_systemd(Some(4), "Unit x not found."), ServiceStatus::NotInstalled);
    assert_eq!(status_from_systemd(None, ""), ServiceStatus::Failed);
    assert_eq!(status_from_rc_status(" * status: started"), ServiceStatus::Running);
    assert_eq!(status_from_rc_status("crashed"), ServiceStatus::Failed);
    assert_eq!(status_from_rc_status(""), ServiceStatus::NotInstalled);
    assert_eq!(
        aggregate_status(&vec![ServiceStatus::Stopped, ServiceStatus::Running]),
        ServiceStatus::Running
    );
    assert_eq!(
        aggregate_status(&vec![ServiceStatus::Failed, ServiceStatus::Running]),
        ServiceStatus::Failed
    );
    assert_eq!(aggregate_status(&vec![]), ServiceStatus::NotInstalled);
    assert_eq!(SystemdServiceManager::new().service_files().len(), 2);
    assert_eq!(OpenRCServiceManager::new().service_files()[0], "portcl-agent");
}

#[test]
fn config_checks() {
    let config = PortageConfig::default();
    assert!(config.validate().is_ok());
    assert!(validate_config_with(&config, true, Some(("/var/lib".to_string(), true))).is_ok());
    match validate_config_with(&config, false, None) {
        Err(PortCLError::Validation(m)) => assert_eq!(m, "Portage binary not found at: /usr/bin/portage"),
        _ => panic!("a missing binary is refused"),
    }
    match validate_config_with(&config, true, Some(("/var/lib".to_string(), false))) {
        Err(PortCLError::Validation(m)) => assert_eq!(m, "Parent directory does not exist: /var/lib"),
        _ => panic!("a missing parent is refused"),
    }
    let mut bad = PortageConfig::default();
    bad.general.log_level = "loud".to_string();
    match validate_config_with(&bad, true, None) {
        Err(PortCLError::Validation(m)) => assert_eq!(
            m,
            "Invalid log level: loud. Must be one of: [\"trace\", \"debug\", \"info\", \"warn\", \"error\"]"
        ),
        _ => panic!("an unknown level is refused"),
    }
    let mut bad = PortageConfig::default();
    bad.rl.learning_rate = f64::NAN.to_bits();
    assert!(bad.validate().is_err());
    assert!(validate_system_requirements_with(true, true, Some("0\n".to_string())).is_ok());
    assert!(validate_system_requirements_with(true, true, Some("1000\n".to_string())).is_err());
    assert!(validate_system_requirements_with(false, true, None).is_err());
}
