use ai_agents::btrmind::model_command::{list_backups_command, rollback_plan, train_plan, ModelPlan};
use ai_agents::btrmind::actions::{Action, ActionExecutor, ActionStep, SnapshotPlan, TempCleanup};
use ai_agents::btrmind::btrfs::{BtrfsMonitor, ModelLoad};
use ai_agents::btrmind::config::{ActionConfig, Config};
use ai_agents::btrmind::fragmentation_model::{FragmentationModel, ModelMetadata};
use ai_agents::btrmind::learning::count_actions;
use ai_agents::btrmind::agent::{candidate_actions, cleanup_actions, usage_level, UsageLevel};

fn action_config(temp: bool, all: bool, temp_paths: Vec<String>) -> ActionConfig {
    ActionConfig {
        enable_compression: all,
        enable_balance: all,
        enable_snapshot_cleanup: all,
        enable_temp_cleanup: temp,
        temp_paths,
        snapshot_keep_count: 10,
    }
}

#[test]
fn test_action_enum() {
    assert_eq!(Action::from_id(0), Some(Action::NoOperation));
    assert_eq!(Action::from_id(1), Some(Action::DeleteTempFiles));
    assert_eq!(Action::from_id(5), None);
    assert_eq!(Action::action_count(), 5);
}

#[test]
fn test_dry_run_mode() {
    let config = action_config(true, true, vec!["/tmp".to_string()]);
    let executor = ActionExecutor::new(config, true);
    match executor.decide_action(Action::DeleteTempFiles) {
        ActionStep::Finished { success, message } => {
            assert!(success);
            assert!(message.contains("Dry run"));
        }
        ActionStep::Perform(_) => panic!("a dry run performs nothing"),
    }
}

#[test]
fn test_snapshot_paths_parsing() {
    let sample = "ID 257 gen 10 top level 5 path @home/.snapshots/1/snapshot\n\
        ID 258 gen 11 top level 5 path @.snapshots/2/snapshot";
    let paths = ActionExecutor::parse_snapshot_paths(sample);
    assert_eq!(
        paths,
        vec!["/@home/.snapshots/1/snapshot", "/@.snapshots/2/snapshot",]
    );
}

#[test]
fn test_cleanup_path_rejects_unsafe_path() {
    assert!(matches!(
        ActionExecutor::cleanup_plan("/etc; rm -rf /"),
        TempCleanup::Refused(_)
    ));
    assert!(matches!(
        ActionExecutor::cleanup_plan("/tmp/../etc"),
        TempCleanup::Refused(_)
    ));
}

#[test]
fn test_cleanup_path_ignores_non_allowed_dir() {
    assert!(matches!(ActionExecutor::cleanup_plan("/home"), TempCleanup::Skipped));
}

#[test]
fn test_no_operation() {
    let config = action_config(true, true, vec![]);
    let executor = ActionExecutor::new(config, false);
    match executor.decide_action(Action::NoOperation) {
        ActionStep::Finished { success, message } => {
            assert!(success);
            assert_eq!(message, "No action taken");
        }
        ActionStep::Perform(_) => panic!("no operation performs nothing"),
    }
}

#[test]
fn cleanup_plans_for_allowed_paths() {
    assert!(matches!(
        ActionExecutor::cleanup_plan("/tmp"),
        TempCleanup::DeleteOlderThan(7)
    ));
    assert!(matches!(
        ActionExecutor::cleanup_plan("/var/tmp"),
        TempCleanup::DeleteOlderThan(7)
    ));
    assert!(matches!(
        ActionExecutor::cleanup_plan("/var/cache"),
        TempCleanup::SystemCaches
    ));
    assert!(matches!(
        ActionExecutor::cleanup_plan("/home/*/.cache"),
        TempCleanup::UserCaches
    ));
    match ActionExecutor::cleanup_plan("/srv/*") {
        TempCleanup::Refused(m) => assert_eq!(m, "Unsupported glob pattern: /srv/*"),
        _ => panic!("an unknown glob is refused"),
    }
}

#[test]
fn disabled_actions_finish_early() {
    let executor = ActionExecutor::new(action_config(false, false, vec![]), false);
    match executor.decide_action(Action::CompressFiles) {
        ActionStep::Finished { message, .. } => assert_eq!(message, "Compression disabled in config"),
        _ => panic!("disabled compression does not run"),
    }
    let executor = ActionExecutor::new(action_config(true, true, vec![]), false);
    assert!(matches!(
        executor.decide_action(Action::BalanceMetadata),
        ActionStep::Perform(Action::BalanceMetadata)
    ));
}

#[test]
fn snapshot_cleanup_plan_keeps_newest() {
    let paths: Vec<String> = vec!["/a".to_string(), "/b;x".to_string(), "/c".to_string()];
    match ActionExecutor::plan_snapshot_cleanup(&paths, 1) {
        SnapshotPlan::Delete { to_delete, unsafe_paths } => {
            assert_eq!(to_delete, vec!["/a".to_string()]);
            assert_eq!(unsafe_paths, vec!["/b;x".to_string()]);
        }
        SnapshotPlan::KeepAll(_) => panic!("one is kept of three"),
    }
    match ActionExecutor::plan_snapshot_cleanup(&paths, 3) {
        SnapshotPlan::KeepAll(m) => assert_eq!(m, "No snapshots to clean (keeping 3 snapshots)"),
        _ => panic!("nothing to delete"),
    }
}

#[test]
fn test_invalid_path() {
    let result = BtrfsMonitor::new("/nonexistent/path");
    assert!(result.is_err());
}

#[test]
fn monitor_assembly_follows_model_outcome() {
    let m = BtrfsMonitor::assemble("/", true, None, false, ModelLoad::Loaded, true, false).unwrap();
    assert!(m.use_fragmentation_model());
    let e = BtrfsMonitor::assemble(
        "/",
        true,
        None,
        false,
        ModelLoad::Failed("bad model".to_string()),
        true,
        false,
    );
    assert_eq!(e.err().unwrap(), "bad model");
    let m = BtrfsMonitor::assemble(
        "/",
        true,
        None,
        false,
        ModelLoad::Failed("bad model".to_string()),
        true,
        true,
    )
    .unwrap();
    assert!(!m.use_fragmentation_model());
    let e = BtrfsMonitor::assemble("/x", false, None, false, ModelLoad::NotRequested, false, true);
    assert_eq!(e.err().unwrap(), "Target path does not exist: /x");
}

#[test]
fn df_output_is_read() {
    let linux = "Filesystem     1M-blocks  Used Available Use% Mounted on\n/dev/sda1 100000M 60000M 40000M 60% /";
    let f = BtrfsMonitor::df_fields(linux, false).unwrap();
    assert_eq!(f.total, "100000");
    assert_eq!(f.used, "60000");
    assert_eq!(f.free, "40000");
    let mac = "Filesystem 1M-blocks Used Available Capacity\n/dev/disk1 500 200 300 40% /";
    let f = BtrfsMonitor::df_fields(mac, true).unwrap();
    assert_eq!(f.total, "500");
    assert_eq!(
        BtrfsMonitor::df_fields("only one line", false).err().unwrap(),
        "Unexpected df output format"
    );
}

#[test]
fn percent_candidates_are_found() {
    let out = "Data, single: total=10.00GiB, used=5.00GiB 50%\nMetadata, DUP: 3%";
    let c = BtrfsMonitor::percent_candidates(out);
    assert_eq!(c, vec!["50".to_string()]);
    assert!(BtrfsMonitor::metadata_usage_reported("Metadata, DUP: total=1GiB, used=0.5GiB"));
    assert!(!BtrfsMonitor::metadata_usage_reported("Data only"));
}

#[test]
fn test_default_config() {
    let config = Config::default();
    assert!(config.validate().is_ok());
    assert_eq!(f64::from_bits(config.thresholds.warning_level), 85.0);
    assert_eq!(f64::from_bits(config.thresholds.critical_level), 95.0);
    assert_eq!(f64::from_bits(config.thresholds.emergency_level), 98.0);
}

#[test]
fn test_invalid_thresholds() {
    let mut config = Config::default();
    config.thresholds.warning_level = 95.0f64.to_bits();
    config.thresholds.critical_level = 85.0f64.to_bits();
    assert!(config.validate().is_err());
}

fn test_model() -> FragmentationModel {
    FragmentationModel {
        coefficients: vec![0.5, -0.3, 0.2, 0.1, -0.1, 0.05]
            .into_iter()
            .map(|x: f64| x.to_bits())
            .collect(),
        intercept: 10.0f64.to_bits(),
        feature_means: vec![50.0, 5000.0, 5.0, 8.0, 2.0, 1.0]
            .into_iter()
            .map(|x: f64| x.to_bits())
            .collect(),
        feature_scales: vec![20.0, 2000.0, 2.0, 3.0, 1.0, 0.5]
            .into_iter()
            .map(|x: f64| x.to_bits())
            .collect(),
        feature_names: vec![
            "disk_usage_percent".to_string(),
            "free_space_mb".to_string(),
            "metadata_usage_percent".to_string(),
            "file_count_log".to_string(),
            "avg_file_size_log".to_string(),
            "write_frequency_log".to_string(),
        ],
        metadata: ModelMetadata {
            model_type: "linear_regression".to_string(),
            training_date: "2024-01-01T00:00:00Z".to_string(),
            framework: "scikit-learn".to_string(),
            algorithm: "MLE with Gaussian noise".to_string(),
        },
    }
}

#[test]
fn test_model_validation() {
    let model = test_model();
    assert!(model.validate().is_ok());
    let mut invalid_model = model.clone();
    invalid_model.feature_scales[0] = 0.0f64.to_bits();
    assert!(invalid_model.validate().is_err());
    assert_eq!(
        invalid_model.validate().err().unwrap(),
        "Feature scale at index 0 is zero"
    );
    let mut negative_zero = test_model();
    negative_zero.feature_scales[2] = (-0.0f64).to_bits();
    assert_eq!(
        negative_zero.validate().err().unwrap(),
        "Feature scale at index 2 is zero"
    );
}

#[test]
fn test_model_info() {
    let model = test_model();
    let info = model.info();
    assert_eq!(info.model_type, "linear_regression");
    assert_eq!(info.n_features, 6);
    assert_eq!(info.feature_names.len(), 6);
}

#[test]
fn action_counts_add_up() {
    let history = vec![
        Action::NoOperation,
        Action::DeleteTempFiles,
        Action::NoOperation,
        Action::CleanupSnapshots,
    ];
    let counts = count_actions(&history);
    let total: usize = counts.iter().map(|(_, n)| *n).sum();
    assert_eq!(total, 4);
    assert!(counts.contains(&(Action::NoOperation, 2)));
    assert!(counts.contains(&(Action::CompressFiles, 0)));
}

#[test]
fn usage_levels_against_default_thresholds() {
    let t = Config::default().thresholds;
    assert_eq!(usage_level(&t, 50.0f64.to_bits()), UsageLevel::Normal);
    assert_eq!(usage_level(&t, 85.0f64.to_bits()), UsageLevel::Warning);
    assert_eq!(usage_level(&t, 96.5f64.to_bits()), UsageLevel::Critical);
    assert_eq!(usage_level(&t, 98.0f64.to_bits()), UsageLevel::Emergency);
    assert_eq!(usage_level(&t, f64::NAN.to_bits()), UsageLevel::Normal);
    assert_eq!(usage_level(&t, (-0.0f64).to_bits()), UsageLevel::Normal);
    assert_eq!(
        cleanup_actions(false),
        vec![Action::DeleteTempFiles, Action::CleanupSnapshots]
    );
    assert_eq!(cleanup_actions(true).len(), 4);
}

#[test]
fn learner_candidates_by_usage() {
    assert_eq!(
        candidate_actions(0.99f64.to_bits()),
        vec![Action::DeleteTempFiles, Action::CleanupSnapshots]
    );
    assert_eq!(candidate_actions(0.95f64.to_bits()).len(), 3);
    assert_eq!(candidate_actions(0.9f64.to_bits()).len(), 4);
    assert_eq!(
        candidate_actions(0.5f64.to_bits()),
        vec![Action::NoOperation, Action::BalanceMetadata, Action::CleanupSnapshots]
    );
}

#[test]
fn model_commands_plan_the_script_arguments() {
    let script = "scripts/train_fragmentation_model.py".to_string();
    match train_plan("/d.csv", "/m.json", &Some("2".to_string()), true, true, false) {
        ModelPlan::Run(a) => assert_eq!(
            a,
            vec![script.clone(), "--data".into(), "/d.csv".into(), "--output".into(), "/m.json".into(),
                 "--version".into(), "2".into(), "--validate".into()]
        ),
        other => panic!("unexpected {:?}", other),
    }
    match train_plan("/d.csv", "/m.json", &None, false, true, true) {
        ModelPlan::DryRun(a) => assert_eq!(a.last().unwrap(), "--verbose"),
        other => panic!("unexpected {:?}", other),
    }
    assert!(matches!(train_plan("/d.csv", "/m.json", &None, false, false, false), ModelPlan::Missing(p) if p == "/d.csv"));
    match rollback_plan("/b.json", "/m.json", true, false) {
        ModelPlan::Run(a) => assert_eq!(a, vec![script.clone(), "--rollback".into(), "/b.json".into(), "--output".into(), "/m.json".into()]),
        other => panic!("unexpected {:?}", other),
    }
    assert!(matches!(rollback_plan("/b.json", "/m.json", false, true), ModelPlan::Missing(_)));
    assert_eq!(list_backups_command("/m.json"), vec![script, "--list-backups".into(), "--output".into(), "/m.json".into()]);
}
