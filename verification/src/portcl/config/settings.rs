//! The settings of PortCL. Paths are held as text, and the floating-point settings as
//! the IEEE 754 bits of their `f64` values.
use vstd::prelude::*;

use crate::binary64::{f64_gt, f64_in_closed, f64_le, le, lt};
use crate::portcl::error::PortCLError;

verus! {

/// All of PortCL's settings.
#[derive(Debug, Clone)]
pub struct PortageConfig {
    pub monitoring: MonitoringConfig,
    pub rl: RLConfig,
    pub actions: ActionConfig,
    pub safety: SafetyConfig,
    pub general: GeneralConfig,
}

/// How Portage is watched.
#[derive(Debug, Clone)]
pub struct MonitoringConfig {
    pub poll_interval: u64,
    pub portage_path: String,
    pub log_path: String,
    pub metrics_retention_days: u32,
    pub enable_event_tracking: bool,
}

/// The learning agent's settings; rates and weights are `f64` bits.
#[derive(Debug, Clone)]
pub struct RLConfig {
    pub learning_rate: u64,
    pub discount_factor: u64,
    pub exploration_rate: u64,
    pub exploration_decay: u64,
    pub memory_size: usize,
    pub batch_size: usize,
    pub target_update_freq: usize,
    pub training_freq: usize,
    pub save_freq: usize,
    pub model_path: String,
    pub enable_continual_learning: bool,
    pub ewc_importance: u64,
}

/// How actions are run.
#[derive(Debug, Clone, Copy, PartialEq, Eq, Structural)]
pub struct ActionConfig {
    pub enable_dry_run: bool,
    pub max_concurrent_actions: usize,
    pub action_timeout: u64,
    pub rollback_enabled: bool,
    pub safe_actions_only: bool,
}

/// The limits that keep actions safe; usages and sizes are `f64` bits.
#[derive(Debug, Clone)]
pub struct SafetyConfig {
    pub max_cpu_usage: u64,
    pub max_memory_usage: u64,
    pub min_disk_space_gb: u64,
    pub critical_packages: Vec<String>,
    pub enable_system_checks: bool,
    pub backup_before_actions: bool,
}

/// Logging, data and the service's user.
#[derive(Debug, Clone)]
pub struct GeneralConfig {
    pub log_level: String,
    pub data_directory: String,
    pub user: String,
    pub group: String,
    pub enable_metrics_collection: bool,
}

/// 0.0, 1.0 and 100.0 as `f64` bits.
pub open spec fn zero_bits() -> u64 {
    0
}

pub open spec fn one_bits() -> u64 {
    0x3ff0_0000_0000_0000
}

pub open spec fn hundred_bits() -> u64 {
    0x4059_0000_0000_0000
}

impl MonitoringConfig {
    pub open spec fn is_default(&self) -> bool {
        &&& self.poll_interval == 30
        &&& self.portage_path@ == "/usr/bin/portage"@
        &&& self.log_path@ == "/var/log/portcl.log"@
        &&& self.metrics_retention_days == 30
        &&& self.enable_event_tracking
    }
}

impl Default for MonitoringConfig {
    /// A 30 s poll of `/usr/bin/portage`, logging to `/var/log/portcl.log`, keeping
    /// metrics for 30 days, with event tracking.
    fn default() -> (c: Self)
        ensures
            c.is_default(),
    {
        MonitoringConfig {
            poll_interval: 30,
            portage_path: String::from_str("/usr/bin/portage"),
            log_path: String::from_str("/var/log/portcl.log"),
            metrics_retention_days: 30,
            enable_event_tracking: true,
        }
    }
}

impl RLConfig {
    pub open spec fn is_default(&self) -> bool {
        &&& self.learning_rate == 0x3f50_624d_d2f1_a9fc
        &&& self.discount_factor == 0x3fee_6666_6666_6666
        &&& self.exploration_rate == 0x3fb9_9999_9999_999a
        &&& self.exploration_decay == 0x3fef_d70a_3d70_a3d7
        &&& self.memory_size == 10000
        &&& self.batch_size == 32
        &&& self.target_update_freq == 100
        &&& self.training_freq == 10
        &&& self.save_freq == 1000
        &&& self.model_path@ == "/var/lib/portcl/model.pt"@
        &&& self.enable_continual_learning
        &&& self.ewc_importance == 0x408f_4000_0000_0000
    }
}

impl Default for RLConfig {
    /// Learning rate 0.001, discount 0.95, exploration 0.1 decaying by 0.995, a memory
    /// of 10000 with batches of 32, continual learning with EWC weight 1000.
    fn default() -> (c: Self)
        ensures
            c.is_default(),
    {
        RLConfig {
            learning_rate: 0x3f50_624d_d2f1_a9fc,
            discount_factor: 0x3fee_6666_6666_6666,
            exploration_rate: 0x3fb9_9999_9999_999a,
            exploration_decay: 0x3fef_d70a_3d70_a3d7,
            memory_size: 10000,
            batch_size: 32,
            target_update_freq: 100,
            training_freq: 10,
            save_freq: 1000,
            model_path: String::from_str("/var/lib/portcl/model.pt"),
            enable_continual_learning: true,
            ewc_importance: 0x408f_4000_0000_0000,
        }
    }
}

impl Default for ActionConfig {
    /// Dry runs, three concurrent actions, a 300 s timeout, rollback, safe actions only.
    fn default() -> (c: Self)
        ensures
            c == (ActionConfig {
                enable_dry_run: true,
                max_concurrent_actions: 3,
                action_timeout: 300,
                rollback_enabled: true,
                safe_actions_only: true,
            }),
    {
        ActionConfig {
            enable_dry_run: true,
            max_concurrent_actions: 3,
            action_timeout: 300,
            rollback_enabled: true,
            safe_actions_only: true,
        }
    }
}

impl SafetyConfig {
    pub open spec fn is_default(&self) -> bool {
        &&& self.max_cpu_usage == 0x4056_8000_0000_0000
        &&& self.max_memory_usage == 0x4054_0000_0000_0000
        &&& self.min_disk_space_gb == 0x4014_0000_0000_0000
        &&& self.critical_packages.len() == 3
        &&& self.critical_packages@[0]@ == "sys-kernel/gentoo-kernel"@
        &&& self.critical_packages@[1]@ == "sys-apps/systemd"@
        &&& self.critical_packages@[2]@ == "sys-apps/portage"@
        &&& self.enable_system_checks
        &&& self.backup_before_actions
    }
}

impl Default for SafetyConfig {
    /// CPU up to 90%, memory up to 80%, at least 5 GB of disk; the kernel, systemd and
    /// Portage are critical; system checks and backups on.
    fn default() -> (c: Self)
        ensures
            c.is_default(),
    {
        let mut critical_packages: Vec<String> = Vec::new();
        critical_packages.push(String::from_str("sys-kernel/gentoo-kernel"));
        critical_packages.push(String::from_str("sys-apps/systemd"));
        critical_packages.push(String::from_str("sys-apps/portage"));
        SafetyConfig {
            max_cpu_usage: 0x4056_8000_0000_0000,
            max_memory_usage: 0x4054_0000_0000_0000,
            min_disk_space_gb: 0x4014_0000_0000_0000,
            critical_packages,
            enable_system_checks: true,
            backup_before_actions: true,
        }
    }
}

impl GeneralConfig {
    pub open spec fn is_default(&self) -> bool {
        &&& self.log_level@ == "info"@
        &&& self.data_directory@ == "/var/lib/portcl"@
        &&& self.user@ == "portcl"@
        &&& self.group@ == "portcl"@
        &&& self.enable_metrics_collection
    }
}

impl Default for GeneralConfig {
    /// Level `info`, data under `/var/lib/portcl`, user and group `portcl`, metrics on.
    fn default() -> (c: Self)
        ensures
            c.is_default(),
    {
        GeneralConfig {
            log_level: String::from_str("info"),
            data_directory: String::from_str("/var/lib/portcl"),
            user: String::from_str("portcl"),
            group: String::from_str("portcl"),
            enable_metrics_collection: true,
        }
    }
}

impl PortageConfig {
    pub open spec fn is_default(&self) -> bool {
        &&& self.monitoring.is_default()
        &&& self.rl.is_default()
        &&& self.actions == ActionConfig::default_spec()
        &&& self.safety.is_default()
        &&& self.general.is_default()
    }
}

impl ActionConfig {
    pub open spec fn default_spec() -> ActionConfig {
        ActionConfig {
            enable_dry_run: true,
            max_concurrent_actions: 3,
            action_timeout: 300,
            rollback_enabled: true,
            safe_actions_only: true,
        }
    }
}

impl Default for PortageConfig {
    /// Every part at its default.
    fn default() -> (c: Self)
        ensures
            c.is_default(),
    {
        PortageConfig {
            monitoring: MonitoringConfig::default(),
            rl: RLConfig::default(),
            actions: ActionConfig::default(),
            safety: SafetyConfig::default(),
            general: GeneralConfig::default(),
        }
    }
}

/// The first problem that `PortageConfig::validate` finds.
pub open spec fn settings_problem(c: PortageConfig) -> Option<Seq<char>> {
    if c.monitoring.poll_interval == 0 {
        Some("Poll interval must be greater than 0"@)
    } else if !(le(zero_bits(), c.rl.learning_rate) && le(c.rl.learning_rate, one_bits())) {
        Some("Learning rate must be between 0 and 1"@)
    } else if !(le(zero_bits(), c.rl.discount_factor) && le(c.rl.discount_factor, one_bits())) {
        Some("Discount factor must be between 0 and 1"@)
    } else if c.rl.batch_size > c.rl.memory_size {
        Some("Batch size cannot be larger than memory size"@)
    } else if le(c.safety.max_cpu_usage, zero_bits()) || lt(hundred_bits(), c.safety.max_cpu_usage) {
        Some("Max CPU usage must be between 0 and 100"@)
    } else {
        None
    }
}

impl PortageConfig {
    /// Checks the poll interval, the learning and discount rates, the batch size
    /// against the memory, and the CPU limit, in that order.
    pub fn validate(&self) -> (r: Result<(), PortCLError>)
        ensures
            match r {
                Ok(_) => settings_problem(*self) is None,
                Err(e) => e matches PortCLError::Validation(m) && settings_problem(*self) == Some(
                    m@,
                ),
            },
    {
        if self.monitoring.poll_interval == 0 {
            return Err(
                PortCLError::Validation(String::from_str("Poll interval must be greater than 0")),
            );
        }
        if !f64_in_closed(self.rl.learning_rate, 0, 0x3ff0_0000_0000_0000) {
            return Err(
                PortCLError::Validation(String::from_str("Learning rate must be between 0 and 1")),
            );
        }
        if !f64_in_closed(self.rl.discount_factor, 0, 0x3ff0_0000_0000_0000) {
            return Err(
                PortCLError::Validation(String::from_str("Discount factor must be between 0 and 1")),
            );
        }
        if self.rl.batch_size > self.rl.memory_size {
            return Err(
                PortCLError::Validation(
                    String::from_str("Batch size cannot be larger than memory size"),
                ),
            );
        }
        if f64_le(self.safety.max_cpu_usage, 0) || f64_gt(
            self.safety.max_cpu_usage,
            0x4059_0000_0000_0000,
        ) {
            return Err(
                PortCLError::Validation(String::from_str("Max CPU usage must be between 0 and 100")),
            );
        }
        Ok(())
    }
}

/// The law of the default settings: they pass `PortageConfig::validate`.
pub proof fn lemma_default_settings_valid(c: PortageConfig)
    requires
        c.is_default(),
    ensures
        settings_problem(c) is None,
{
}

} // verus!
