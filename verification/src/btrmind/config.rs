//! BtrMind's configuration, with its defaults and its validation.
//!
//! Numbers that the configuration file writes as floating point are held here as the
//! bit patterns of IEEE-754 binary64 values (`f64::to_bits`); `crate::binary64`
//! compares them exactly as `f64` comparisons do.
use vstd::prelude::*;

use crate::binary64::{f64_ge, f64_gt, f64_le, f64_lt, is_nan, le, lt, order_key};
use crate::platform::path_exists;
use crate::text::{concat2, string_views};

verus! {

/// 100.0
pub const F64_HUNDRED: u64 = 0x4059_0000_0000_0000;

/// 1.0
pub const F64_ONE: u64 = 0x3FF0_0000_0000_0000;

/// 0.0
pub const F64_ZERO: u64 = 0;

#[derive(Debug, Clone)]
pub struct MonitoringConfig {
    pub target_path: String,
    pub poll_interval: u64,
    pub trend_analysis_window: u64,
}

/// Disk usage levels in percent, as binary64 bit patterns.
#[derive(Debug, Clone)]
pub struct ThresholdConfig {
    pub warning_level: u64,
    pub critical_level: u64,
    pub emergency_level: u64,
}

#[derive(Debug, Clone)]
pub struct ActionConfig {
    pub enable_compression: bool,
    pub enable_balance: bool,
    pub enable_snapshot_cleanup: bool,
    pub enable_temp_cleanup: bool,
    pub temp_paths: Vec<String>,
    pub snapshot_keep_count: usize,
}

/// Learning parameters; the rates are binary64 bit patterns.
#[derive(Debug, Clone)]
pub struct LearningConfig {
    pub model_path: String,
    pub model_update_interval: u64,
    pub reward_smoothing: u64,
    pub exploration_rate: u64,
    pub learning_rate: u64,
    pub discount_factor: u64,
}

#[derive(Debug, Clone)]
pub struct Config {
    pub monitoring: MonitoringConfig,
    pub thresholds: ThresholdConfig,
    pub actions: ActionConfig,
    pub learning: LearningConfig,
    pub dry_run: bool,
}

pub fn default_target_path() -> (s: String)
    ensures
        s@ == "/"@,
{
    String::from_str("/")
}

pub fn default_poll_interval() -> (n: u64)
    ensures
        n == 60,
{
    60
}

pub fn default_trend_window() -> (n: u64)
    ensures
        n == 24,
{
    24
}

/// 85.0
pub fn default_warning_level() -> (b: u64)
    ensures
        b == 0x4055_4000_0000_0000,
{
    0x4055_4000_0000_0000
}

/// 95.0
pub fn default_critical_level() -> (b: u64)
    ensures
        b == 0x4057_C000_0000_0000,
{
    0x4057_C000_0000_0000
}

/// 98.0
pub fn default_emergency_level() -> (b: u64)
    ensures
        b == 0x4058_8000_0000_0000,
{
    0x4058_8000_0000_0000
}

pub fn default_true() -> (b: bool)
    ensures
        b,
{
    true
}

pub open spec fn default_temp_paths_spec() -> Seq<Seq<char>> {
    seq!["/tmp"@, "/var/tmp"@, "/var/cache"@, "/home/*/.cache"@]
}

pub fn default_temp_paths() -> (v: Vec<String>)
    ensures
        string_views(v@) == default_temp_paths_spec(),
{
    let mut v: Vec<String> = Vec::new();
    v.push(String::from_str("/tmp"));
    v.push(String::from_str("/var/tmp"));
    v.push(String::from_str("/var/cache"));
    v.push(String::from_str("/home/*/.cache"));
    assert(string_views(v@) =~= default_temp_paths_spec());
    v
}

pub fn default_snapshot_keep() -> (n: usize)
    ensures
        n == 10,
{
    10
}

pub fn default_model_path() -> (s: String)
    ensures
        s@ == "/var/lib/btrmind/model.safetensors"@,
{
    String::from_str("/var/lib/btrmind/model.safetensors")
}

pub fn default_model_update_interval() -> (n: u64)
    ensures
        n == 3600,
{
    3600
}

/// 0.95
pub fn default_reward_smoothing() -> (b: u64)
    ensures
        b == 0x3FEE_6666_6666_6666,
{
    0x3FEE_6666_6666_6666
}

/// 0.1
pub fn default_exploration_rate() -> (b: u64)
    ensures
        b == 0x3FB9_9999_9999_999A,
{
    0x3FB9_9999_9999_999A
}

/// 0.001
pub fn default_learning_rate() -> (b: u64)
    ensures
        b == 0x3F50_624D_D2F1_A9FC,
{
    0x3F50_624D_D2F1_A9FC
}

/// 0.99
pub fn default_discount_factor() -> (b: u64)
    ensures
        b == 0x3FEF_AE14_7AE1_47AE,
{
    0x3FEF_AE14_7AE1_47AE
}

/// The default configuration, field by field.
pub open spec fn is_default_config(c: Config) -> bool {
    &&& c.monitoring.target_path@ == "/"@
    &&& c.monitoring.poll_interval == 60
    &&& c.monitoring.trend_analysis_window == 24
    &&& c.thresholds.warning_level == 0x4055_4000_0000_0000u64
    &&& c.thresholds.critical_level == 0x4057_C000_0000_0000u64
    &&& c.thresholds.emergency_level == 0x4058_8000_0000_0000u64
    &&& c.actions.enable_compression
    &&& c.actions.enable_balance
    &&& c.actions.enable_snapshot_cleanup
    &&& c.actions.enable_temp_cleanup
    &&& string_views(c.actions.temp_paths@) == default_temp_paths_spec()
    &&& c.actions.snapshot_keep_count == 10
    &&& c.learning.model_path@ == "/var/lib/btrmind/model.safetensors"@
    &&& c.learning.model_update_interval == 3600
    &&& c.learning.reward_smoothing == 0x3FEE_6666_6666_6666u64
    &&& c.learning.exploration_rate == 0x3FB9_9999_9999_999Au64
    &&& c.learning.learning_rate == 0x3F50_624D_D2F1_A9FCu64
    &&& c.learning.discount_factor == 0x3FEF_AE14_7AE1_47AEu64
    &&& !c.dry_run
}

impl Default for Config {
    fn default() -> (c: Self)
        ensures
            is_default_config(c),
    {
        Config {
            monitoring: MonitoringConfig {
                target_path: default_target_path(),
                poll_interval: default_poll_interval(),
                trend_analysis_window: default_trend_window(),
            },
            thresholds: ThresholdConfig {
                warning_level: default_warning_level(),
                critical_level: default_critical_level(),
                emergency_level: default_emergency_level(),
            },
            actions: ActionConfig {
                enable_compression: default_true(),
                enable_balance: default_true(),
                enable_snapshot_cleanup: default_true(),
                enable_temp_cleanup: default_true(),
                temp_paths: default_temp_paths(),
                snapshot_keep_count: default_snapshot_keep(),
            },
            learning: LearningConfig {
                model_path: default_model_path(),
                model_update_interval: default_model_update_interval(),
                reward_smoothing: default_reward_smoothing(),
                exploration_rate: default_exploration_rate(),
                learning_rate: default_learning_rate(),
                discount_factor: default_discount_factor(),
            },
            dry_run: false,
        }
    }
}

/// The first problem that validation reports for `c`, given whether the target path
/// exists; `None` when there is none. Comparisons with a NaN are false, so a NaN
/// passes the numeric checks as it does in `f64` code.
pub open spec fn config_problem(c: Config, target_exists: bool) -> Option<Seq<char>> {
    let t = c.thresholds;
    let l = c.learning;
    if le(t.critical_level, t.warning_level) {
        Some("Warning level must be less than critical level"@)
    } else if le(t.emergency_level, t.critical_level) {
        Some("Critical level must be less than emergency level"@)
    } else if le(0x4059_0000_0000_0000u64, t.emergency_level) {
        Some("Emergency level must be less than 100%"@)
    } else if le(l.learning_rate, 0u64) || lt(0x3FF0_0000_0000_0000u64, l.learning_rate) {
        Some("Learning rate must be between 0 and 1"@)
    } else if lt(l.discount_factor, 0u64) || lt(0x3FF0_0000_0000_0000u64, l.discount_factor) {
        Some("Discount factor must be between 0 and 1"@)
    } else if lt(l.exploration_rate, 0u64) || lt(0x3FF0_0000_0000_0000u64, l.exploration_rate) {
        Some("Exploration rate must be between 0 and 1"@)
    } else if !target_exists {
        Some("Target path does not exist: "@ + c.monitoring.target_path@)
    } else {
        None
    }
}

impl Config {
    /// Validation with the existence of the target path already known.
    pub fn validate_with(&self, target_exists: bool) -> (r: Result<(), String>)
        ensures
            match r {
                Ok(()) => config_problem(*self, target_exists) is None,
                Err(m) => config_problem(*self, target_exists) == Some(m@),
            },
    {
        let t = &self.thresholds;
        let l = &self.learning;
        if f64_ge(t.warning_level, t.critical_level) {
            return Err(String::from_str("Warning level must be less than critical level"));
        }
        if f64_ge(t.critical_level, t.emergency_level) {
            return Err(String::from_str("Critical level must be less than emergency level"));
        }
        if f64_ge(t.emergency_level, F64_HUNDRED) {
            return Err(String::from_str("Emergency level must be less than 100%"));
        }
        if f64_le(l.learning_rate, F64_ZERO) || f64_gt(l.learning_rate, F64_ONE) {
            return Err(String::from_str("Learning rate must be between 0 and 1"));
        }
        if f64_lt(l.discount_factor, F64_ZERO) || f64_gt(l.discount_factor, F64_ONE) {
            return Err(String::from_str("Discount factor must be between 0 and 1"));
        }
        if f64_lt(l.exploration_rate, F64_ZERO) || f64_gt(l.exploration_rate, F64_ONE) {
            return Err(String::from_str("Exploration rate must be between 0 and 1"));
        }
        if !target_exists {
            return Err(concat2("Target path does not exist: ", self.monitoring.target_path.as_str()));
        }
        Ok(())
    }

    /// Checks the thresholds and learning parameters, then that the target path exists
    /// on this machine.
    pub fn validate(&self) -> (r: Result<(), String>)
        ensures
            r is Ok ==> config_problem(*self, true) is None,
            r matches Err(m) ==> (config_problem(*self, true) == Some(m@) || config_problem(
                *self,
                false,
            ) == Some(m@)),
    {
        let exists = path_exists(self.monitoring.target_path.as_str());
        self.validate_with(exists)
    }
}

/// The law of validation: a configuration passes only when its levels rise from
/// warning to critical to emergency and stay below 100%, its learning rate lies in
/// (0, 1], its discount factor and exploration rate in [0, 1], and its target path
/// exists. Comparisons with a NaN are false, so a NaN is not caught by a range check.
pub proof fn lemma_valid_config_in_ranges(c: Config, target_exists: bool)
    requires
        config_problem(c, target_exists) is None,
    ensures
        target_exists,
        !is_nan(c.thresholds.warning_level) && !is_nan(c.thresholds.critical_level) ==> order_key(
            c.thresholds.warning_level,
        ) < order_key(c.thresholds.critical_level),
        !is_nan(c.thresholds.critical_level) && !is_nan(c.thresholds.emergency_level) ==> order_key(
            c.thresholds.critical_level,
        ) < order_key(c.thresholds.emergency_level),
        !is_nan(c.thresholds.emergency_level) ==> order_key(c.thresholds.emergency_level)
            < order_key(0x4059_0000_0000_0000u64),
        !is_nan(c.learning.learning_rate) ==> 0 < order_key(c.learning.learning_rate) <= order_key(
            0x3FF0_0000_0000_0000u64,
        ),
        !is_nan(c.learning.discount_factor) ==> 0 <= order_key(c.learning.discount_factor)
            <= order_key(0x3FF0_0000_0000_0000u64),
        !is_nan(c.learning.exploration_rate) ==> 0 <= order_key(c.learning.exploration_rate)
            <= order_key(0x3FF0_0000_0000_0000u64),
{
}

/// The law of the discount factor: of two configurations that differ at most in their
/// discount factor and model settings, where the first passes validation, the second
/// is refused with the discount factor message exactly when its discount factor is a
/// number below 0 or above 1.
pub proof fn lemma_discount_out_of_range_refused(c: Config, c2: Config, target_exists: bool)
    requires
        config_problem(c, target_exists) is None,
        c2.thresholds == c.thresholds,
        c2.learning.learning_rate == c.learning.learning_rate,
        c2.learning.exploration_rate == c.learning.exploration_rate,
        c2.monitoring.target_path@ == c.monitoring.target_path@,
    ensures
        (!is_nan(c2.learning.discount_factor) && (order_key(c2.learning.discount_factor) < 0
            || order_key(c2.learning.discount_factor) > order_key(0x3FF0_0000_0000_0000u64)))
            <==> config_problem(c2, target_exists) == Some(
            "Discount factor must be between 0 and 1"@,
        ),
        config_problem(c2, target_exists) is None || config_problem(c2, target_exists) == Some(
            "Discount factor must be between 0 and 1"@,
        ),
{
    reveal_strlit("Discount factor must be between 0 and 1");
    reveal_strlit("Exploration rate must be between 0 and 1");
    reveal_strlit("Target path does not exist: ");
}

/// The law of the default configuration: it passes every check but the existence of
/// its target path, which is `/`.
pub proof fn lemma_default_config_valid(c: Config)
    requires
        is_default_config(c),
    ensures
        config_problem(c, true) is None,
{
}

} // verus!
