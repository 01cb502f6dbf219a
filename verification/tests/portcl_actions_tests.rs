use ai_agents::portcl::actions::executor::{
    io_operations, network_calls, simulated_duration_ms, simulated_output, ActionExecutor, simulate_success,
    ExecutorConfig,
};
use ai_agents::portcl::actions::portage_actions::{
    ActionParams, PortageAction, PortageActionBuilder, PortageActionType,
};
use ai_agents::portcl::actions::safety::{
    CheckOutcomes, RollbackManager, SafetyCheckType, SafetyChecker, SafetyConfig, SafetySeverity,
};
use ai_agents::portcl::actions::Action;
use ai_agents::portcl::error::PortCLError;
use ai_agents::portcl::rl_engine::{action_to_index, index_to_action};

#[test]
fn test_executor_creation() {
    let executor = ActionExecutor::new();
    assert_eq!(executor.active_action_count(), 0);
}

#[test]
fn test_noop_execution() {
    let mut executor = ActionExecutor::new();
    let id = executor.begin_action(&Action::NoOp).unwrap();
    assert!(id.starts_with("NoOp_"));
    assert_eq!(executor.active_action_count(), 1);
    assert!(simulated_duration_ms(&Action::NoOp) > 0);
    assert_eq!(simulated_output(&Action::NoOp), "No operation performed");
    executor.finish_action(&id);
    assert_eq!(executor.active_action_count(), 0);
}

#[test]
fn test_adjust_parallelism() {
    let mut executor = ActionExecutor::new();
    let action = Action::AdjustParallelism { jobs: 4 };
    let id = executor.begin_action(&action).unwrap();
    assert!(executor.is_action_type_active("AdjustParallelism"));
    assert!(simulated_output(&action).contains("4"));
    executor.finish_action(&id);
    assert!(!executor.is_action_type_active("AdjustParallelism"));
}

#[test]
fn test_invalid_parallelism() {
    let mut executor = ActionExecutor::new();
    let result = executor.begin_action(&Action::AdjustParallelism { jobs: 0 });
    assert!(result.is_err());
    match result.unwrap_err() {
        PortCLError::Validation(msg) => assert!(msg.contains("between 1 and 32")),
        _ => panic!("Expected validation error"),
    }
    assert_eq!(executor.active_action_count(), 0);
}

#[test]
fn test_concurrent_action_limit() {
    let config = ExecutorConfig {
        max_concurrent_actions: 1,
        ..Default::default()
    };
    let mut executor = ActionExecutor::with_config(config);
    let long_action = Action::CleanObsoletePackages { force: false };
    let _running = executor.begin_action(&long_action).unwrap();
    let result = executor.begin_action(&Action::NoOp);
    assert!(result.is_err());
    match result.unwrap_err() {
        PortCLError::Resource(msg) => assert!(msg.contains("Maximum concurrent actions")),
        _ => panic!("Expected resource error"),
    }
}

#[test]
fn test_action_timeout() {
    let config = ExecutorConfig {
        action_timeout_ms: 50,
        ..Default::default()
    };
    let executor = ActionExecutor::with_config(config);
    let action = Action::CleanObsoletePackages { force: false };
    assert!(simulated_duration_ms(&action) > executor.config().action_timeout_ms);
    match executor.timeout_error() {
        PortCLError::Timeout(msg) => {
            assert!(msg.contains("timed out"));
            assert_eq!(msg, "Action timed out after 50ms");
        }
        _ => panic!("Expected timeout error"),
    }
}

#[test]
fn executor_limits_and_cancel() {
    let mut executor = ActionExecutor::new();
    let empty = Action::OptimizeBuildOrder { package_list: vec![] };
    match executor.begin_action(&empty).unwrap_err() {
        PortCLError::Validation(m) => assert_eq!(m, "Package list cannot be empty"),
        _ => panic!("an empty list is refused"),
    }
    match executor
        .begin_action(&Action::ScheduleOperation { delay_seconds: 3601 })
        .unwrap_err()
    {
        PortCLError::Validation(m) => assert_eq!(m, "Delay cannot exceed 1 hour"),
        _ => panic!("a long delay is refused"),
    }
    executor.begin_action(&Action::NoOp).unwrap();
    executor.begin_action(&Action::NoOp).unwrap();
    assert_eq!(executor.cancel_all_actions(), 2);
    assert_eq!(executor.active_action_count(), 0);
    let list = Action::OptimizeBuildOrder {
        package_list: vec!["a".to_string(), "b".to_string()],
    };
    assert_eq!(simulated_duration_ms(&list), 110);
    assert_eq!(io_operations(&list), 4);
    assert_eq!(network_calls(&Action::PreFetchDependencies { packages: vec![] }), 10);
}

#[test]
fn action_descriptions() {
    assert_eq!(
        Action::AdjustParallelism { jobs: 4 }.description(),
        "Adjust compilation parallelism to 4 jobs"
    );
    assert_eq!(
        Action::CleanObsoletePackages { force: true }.description(),
        "Clean obsolete packages (force: true)"
    );
    assert!(!Action::CleanObsoletePackages { force: true }.is_safe());
    assert!(!Action::AdjustParallelism { jobs: 33 }.is_safe());
    assert_eq!(Action::NoOp.action_type(), "NoOp");
}

#[test]
fn action_slots_round_trip() {
    for i in 0..6usize {
        let a = index_to_action(i).unwrap();
        assert_eq!(action_to_index(&a), i);
    }
    match index_to_action(6) {
        Err(PortCLError::RLEngine(m)) => assert_eq!(m, "Invalid action index: 6"),
        _ => panic!("past the last action"),
    }
}

#[test]
fn test_install_action_creation() {
    let packages = vec!["sys-apps/portage".to_string()];
    let use_flags = vec!["-X".to_string(), "python".to_string()];
    let params = ActionParams::InstallParams {
        packages: packages.clone(),
        use_flags,
        verbose: false,
        pretend: true,
    };
    let action = PortageAction::new(PortageActionType::Install, params);
    assert!(action.is_safe());
    assert!(action.description().contains("1 packages"));
    assert!(action.estimated_duration_ms() > 0);
}

#[test]
fn portage_actions_test_action_validation() {
    let params = ActionParams::SearchParams {
        query: "portage".to_string(),
        search_desc: true,
        regex: false,
    };
    let action = PortageAction::new(PortageActionType::Search, params);
    assert!(action.validate().is_ok());

    let params = ActionParams::InstallParams {
        packages: vec![],
        use_flags: vec![],
        verbose: false,
        pretend: false,
    };
    let action = PortageAction::new(PortageActionType::Install, params);
    assert!(action.validate().is_err());
}

#[test]
fn test_builder_pattern() {
    let action = PortageActionBuilder::new()
        .action_type(PortageActionType::Sync)
        .params(ActionParams::SyncParams {
            repos: vec!["gentoo".to_string()],
            quiet: true,
        })
        .priority(8)
        .timeout_ms(60000)
        .build()
        .unwrap();
    assert_eq!(action.action_type, PortageActionType::Sync);
    assert_eq!(action.priority, 8);
    assert_eq!(action.timeout_ms, 60000);
}

#[test]
fn test_unsafe_actions() {
    let params = ActionParams::UninstallParams {
        packages: vec!["old-package".to_string()],
        clean_deps: true,
        config_files: "ask".to_string(),
    };
    let action = PortageAction::new(PortageActionType::Uninstall, params);
    assert!(!action.is_safe());
    let params = ActionParams::MaskParams {
        packages: vec!["risky-package".to_string()],
    };
    let action = PortageAction::new(PortageActionType::Mask, params);
    assert!(!action.is_safe());
}

fn validation_message(a: &PortageAction) -> String {
    match a.validate() {
        Err(PortCLError::Validation(m)) => m,
        _ => panic!("expected a validation error"),
    }
}

#[test]
fn portage_validation_messages() {
    let a = PortageAction::new(
        PortageActionType::Install,
        ActionParams::InstallParams {
            packages: vec!["a".to_string()],
            use_flags: vec!["ok_flag".to_string(), "bad flag".to_string(), "x/y".to_string()],
            verbose: false,
            pretend: false,
        },
    );
    assert_eq!(validation_message(&a), "Invalid USE flag: bad flag");
    let a = PortageAction::new(
        PortageActionType::Search,
        ActionParams::SearchParams {
            query: "é".repeat(101),
            search_desc: false,
            regex: false,
        },
    );
    assert_eq!(validation_message(&a), "Search query too long (max 200 chars)");
    let a = PortageAction::new(
        PortageActionType::Emerge,
        ActionParams::EmergeParams {
            packages: vec!["a".to_string()],
            use_flags: vec![],
            features: vec![],
            jobs: Some(8),
            load_average: Some(100.5f64.to_bits()),
        },
    );
    assert_eq!(validation_message(&a), "Load average must be between 0.0 and 100.0");
    let a = PortageAction::with_config(
        PortageActionType::Info,
        ActionParams::InfoParams {
            packages: vec!["a".to_string()],
            verbose: true,
        },
        11,
        5000,
    );
    assert_eq!(validation_message(&a), "Priority must be between 1 and 10");
    let b = PortageActionBuilder::new().build();
    match b {
        Err(PortCLError::Validation(m)) => assert_eq!(m, "Action type is required"),
        _ => panic!("a type is required"),
    }
    let sync = PortageAction::new(
        PortageActionType::Sync,
        ActionParams::SyncParams {
            repos: vec![],
            quiet: false,
        },
    );
    assert_eq!(sync.description(), "Sync all repositories");
    assert_eq!(sync.estimated_duration_ms(), 30000);
}

#[test]
fn test_safety_checker_creation() {
    let checker = SafetyChecker::new();
    assert!(!checker.config().strict_mode);
}

#[test]
fn safety_test_action_validation() {
    let checker = SafetyChecker::new();
    let action = Action::NoOp;
    let checks = checker.validate_action(&action).unwrap();
    assert!(!checks.is_empty());
    let passed_checks = checks.iter().filter(|c| c.passed).count();
    assert!(passed_checks > 0);
}

#[test]
fn safety_checks_by_outcome() {
    let checker = SafetyChecker::new();
    let all_pass = CheckOutcomes {
        system_integrity: true,
        resource_availability: true,
        package_consistency: true,
        filesystem_safety: true,
    };
    let checks = checker.validate_with(all_pass).unwrap();
    assert_eq!(checks.len(), 4);
    assert_eq!(checks[0].check_type, SafetyCheckType::SystemIntegrity);
    assert_eq!(checks[1].check_type, SafetyCheckType::ResourceAvailability);
    assert_eq!(checks[2].check_type, SafetyCheckType::PackageConsistency);
    assert_eq!(checks[3].check_type, SafetyCheckType::FileSystemSafety);
    let some_fail = CheckOutcomes {
        system_integrity: false,
        ..all_pass
    };
    let checks = checker.validate_with(some_fail).unwrap();
    assert_eq!(checks[0].severity, SafetySeverity::Critical);
    assert_eq!(checks[0].message, "System integrity check failed");
    assert_eq!(checks[0].recommendations, vec!["Check system logs for errors".to_string()]);
    let blocked = CheckOutcomes {
        filesystem_safety: false,
        ..all_pass
    };
    match checker.validate_with(blocked) {
        Err(PortCLError::Safety(m)) => assert_eq!(m, "Action blocked by 1 safety check(s)"),
        _ => panic!("a failed filesystem check blocks"),
    }
}

#[test]
fn test_snapshot_creation() {
    let mut manager = RollbackManager::new();
    let action = Action::CleanObsoletePackages { force: false };
    let snapshot_id = manager.create_snapshot(&action).unwrap();
    assert!(!snapshot_id.is_empty());
    assert!(*manager.current_snapshot() == Some(snapshot_id.clone()));
    assert!(manager.get_snapshot(&snapshot_id).is_some());
}

#[test]
fn test_rollback() {
    let mut manager = RollbackManager::new();
    let action = Action::CleanObsoletePackages { force: false };
    let snapshot_id = manager.create_snapshot(&action).unwrap();
    assert!(manager.rollback_to_snapshot(&snapshot_id).is_ok());
}

#[test]
fn test_critical_action_backup() {
    let mut checker = SafetyChecker::with_config(SafetyConfig {
        backup_before_critical: true,
        ..Default::default()
    });
    let action = Action::CleanObsoletePackages { force: false };
    let snapshot_id = checker.prepare_action(&action).unwrap();
    assert!(snapshot_id.is_some());
}

#[test]
fn test_safety_config_default() {
    let config = SafetyConfig::default();
    assert!(config.enable_system_checks);
    assert!(config.auto_rollback_on_failure);
    assert_eq!(config.max_backup_size_mb, 1024);
}

#[test]
fn rollback_errors_and_cleanup() {
    let mut manager = RollbackManager::new();
    match manager.rollback_to_latest() {
        Err(PortCLError::Validation(m)) => assert_eq!(m, "No snapshot available for rollback"),
        _ => panic!("nothing to roll back to"),
    }
    match manager.rollback_to_snapshot("nope") {
        Err(PortCLError::Validation(m)) => assert_eq!(m, "Snapshot nope not found"),
        _ => panic!("unknown snapshot"),
    }
    let a = manager.create_snapshot(&Action::NoOp).unwrap();
    let b = manager.create_snapshot(&Action::NoOp).unwrap();
    let c = manager.create_snapshot(&Action::NoOp).unwrap();
    assert_eq!(manager.list_snapshots().len(), 3);
    manager.rollback_to_snapshot(&a).unwrap();
    let removed = manager.cleanup_old_snapshots(1);
    assert_eq!(removed, 1);
    assert!(manager.get_snapshot(&a).is_some());
    assert!(manager.get_snapshot(&b).is_none());
    assert!(manager.get_snapshot(&c).is_some());
    assert!(manager.rollback_to_latest().is_ok());
    assert_eq!(*manager.current_snapshot(), Some(a));
}

#[test]
fn validation_never_blocks_and_filesystem_checks_pass() {
    let mut checker = SafetyChecker::new();
    let mut failed_reports = 0;
    for _ in 0..2000 {
        let checks = checker.validate_action(&Action::NoOp).unwrap();
        assert_eq!(checks.len(), 4);
        assert_eq!(checks[3].check_type, SafetyCheckType::FileSystemSafety);
        assert!(checks[3].passed);
        failed_reports += checks.iter().filter(|c| !c.passed).count();
    }
    // The other checks still fail now and then, reported but not blocking.
    assert!(failed_reports > 0);
    for _ in 0..200 {
        let id = checker.prepare_action(&Action::CleanObsoletePackages { force: false }).unwrap().unwrap();
        assert!(checker.rollback_manager().get_snapshot(&id).is_some());
        assert_eq!(checker.prepare_action(&Action::NoOp).unwrap(), None);
    }
}

#[test]
fn simulated_runs_always_succeed() {
    assert!((0..1000).all(|_| simulate_success()));
}
