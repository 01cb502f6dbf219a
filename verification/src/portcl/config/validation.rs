//! The full check of a configuration, including the paths it names, and the check of
//! the system PortCL runs on.
use vstd::prelude::*;

use crate::binary64::{f64_gt, f64_in_closed, f64_le, f64_lt, is_nan, le, lt, order_key};
use crate::platform::{path_exists, path_parent, path_parent_text};
use crate::portcl::config::settings::{hundred_bits, one_bits, zero_bits, PortageConfig};
use crate::portcl::error::PortCLError;
use crate::text::{is_blank, str_eq, trim, trim_chars, chars_of};

verus! {

/// The log levels a configuration may name.
pub open spec fn known_log_level(l: Seq<char>) -> bool {
    l == "trace"@ || l == "debug"@ || l == "info"@ || l == "warn"@ || l == "error"@
}

/// The first problem with the configuration's values, paths aside.
pub open spec fn value_problem(c: PortageConfig) -> Option<Seq<char>> {
    if c.monitoring.poll_interval < 10 {
        Some("Poll interval must be at least 10 seconds"@)
    } else if !(le(zero_bits(), c.rl.learning_rate) && le(c.rl.learning_rate, one_bits())) {
        Some("Learning rate must be between 0.0 and 1.0"@)
    } else if !(le(zero_bits(), c.rl.discount_factor) && le(c.rl.discount_factor, one_bits())) {
        Some("Discount factor must be between 0.0 and 1.0"@)
    } else if lt(c.rl.exploration_rate, zero_bits()) || lt(one_bits(), c.rl.exploration_rate) {
        Some("Exploration rate must be between 0.0 and 1.0"@)
    } else if c.rl.batch_size == 0 {
        Some("Batch size must be greater than 0"@)
    } else if c.rl.memory_size < c.rl.batch_size {
        Some("Memory size must be greater than or equal to batch size"@)
    } else if c.actions.max_concurrent_actions == 0 {
        Some("Max concurrent actions must be greater than 0"@)
    } else if c.actions.action_timeout == 0 {
        Some("Action timeout must be greater than 0"@)
    } else if le(c.safety.max_cpu_usage, zero_bits()) || lt(hundred_bits(), c.safety.max_cpu_usage) {
        Some("Max CPU usage must be between 0.0 and 100.0"@)
    } else if le(c.safety.max_memory_usage, zero_bits()) || lt(
        hundred_bits(),
        c.safety.max_memory_usage,
    ) {
        Some("Max memory usage must be between 0.0 and 100.0"@)
    } else if lt(c.safety.min_disk_space_gb, zero_bits()) {
        Some("Min disk space must be non-negative"@)
    } else if c.safety.critical_packages.len() == 0 {
        Some("At least one critical package must be specified"@)
    } else if c.general.data_directory@.len() == 0 {
        Some("Data directory cannot be empty"@)
    } else if !known_log_level(c.general.log_level@) {
        Some(
            "Invalid log level: "@ + c.general.log_level@
                + ". Must be one of: [\"trace\", \"debug\", \"info\", \"warn\", \"error\"]"@,
        )
    } else {
        None
    }
}

/// The first problem with the configuration, given whether the Portage binary exists
/// and, when the data directory has a parent, that parent and whether it exists.
pub open spec fn config_problem(
    c: PortageConfig,
    portage_found: bool,
    data_parent: Option<(Seq<char>, bool)>,
) -> Option<Seq<char>> {
    if !portage_found {
        Some("Portage binary not found at: "@ + c.monitoring.portage_path@)
    } else if value_problem(c) is Some {
        value_problem(c)
    } else {
        match data_parent {
            Some((p, found)) => if !found {
                Some("Parent directory does not exist: "@ + p)
            } else {
                None
            },
            None => None,
        }
    }
}

fn value_check(config: &PortageConfig) -> (r: Option<String>)
    ensures
        match r {
            Some(m) => value_problem(*config) == Some(m@),
            None => value_problem(*config) is None,
        },
{
    let c = config;
    if c.monitoring.poll_interval < 10 {
        return Some(String::from_str("Poll interval must be at least 10 seconds"));
    }
    if !f64_in_closed(c.rl.learning_rate, 0, 0x3ff0_0000_0000_0000) {
        return Some(String::from_str("Learning rate must be between 0.0 and 1.0"));
    }
    if !f64_in_closed(c.rl.discount_factor, 0, 0x3ff0_0000_0000_0000) {
        return Some(String::from_str("Discount factor must be between 0.0 and 1.0"));
    }
    if f64_lt(c.rl.exploration_rate, 0) || f64_gt(c.rl.exploration_rate, 0x3ff0_0000_0000_0000) {
        return Some(String::from_str("Exploration rate must be between 0.0 and 1.0"));
    }
    if c.rl.batch_size == 0 {
        return Some(String::from_str("Batch size must be greater than 0"));
    }
    if c.rl.memory_size < c.rl.batch_size {
        return Some(String::from_str("Memory size must be greater than or equal to batch size"));
    }
    if c.actions.max_concurrent_actions == 0 {
        return Some(String::from_str("Max concurrent actions must be greater than 0"));
    }
    if c.actions.action_timeout == 0 {
        return Some(String::from_str("Action timeout must be greater than 0"));
    }
    if f64_le(c.safety.max_cpu_usage, 0) || f64_gt(c.safety.max_cpu_usage, 0x4059_0000_0000_0000) {
        return Some(String::from_str("Max CPU usage must be between 0.0 and 100.0"));
    }
    if f64_le(c.safety.max_memory_usage, 0) || f64_gt(
        c.safety.max_memory_usage,
        0x4059_0000_0000_0000,
    ) {
        return Some(String::from_str("Max memory usage must be between 0.0 and 100.0"));
    }
    if f64_lt(c.safety.min_disk_space_gb, 0) {
        return Some(String::from_str("Min disk space must be non-negative"));
    }
    if c.safety.critical_packages.len() == 0 {
        return Some(String::from_str("At least one critical package must be specified"));
    }
    if chars_of(c.general.data_directory.as_str()).len() == 0 {
        return Some(String::from_str("Data directory cannot be empty"));
    }
    let l = c.general.log_level.as_str();
    if !(str_eq(l, "trace") || str_eq(l, "debug") || str_eq(l, "info") || str_eq(l, "warn")
        || str_eq(l, "error")) {
        let mut m = String::from_str("Invalid log level: ");
        m.append(l);
        m.append(". Must be one of: [\"trace\", \"debug\", \"info\", \"warn\", \"error\"]");
        return Some(m);
    }
    None
}

/// Checks a configuration (see `config_problem`), given what is known of its paths.
pub fn validate_config_with(
    config: &PortageConfig,
    portage_found: bool,
    data_parent: Option<(String, bool)>,
) -> (r: Result<(), PortCLError>)
    ensures
        ({
            let dp = match data_parent {
                Some((p, f)) => Some((p@, f)),
                None => None::<(Seq<char>, bool)>,
            };
            match r {
                Ok(_) => config_problem(*config, portage_found, dp) is None,
                Err(e) => e matches PortCLError::Validation(m) && config_problem(
                    *config,
                    portage_found,
                    dp,
                ) == Some(m@),
            }
        }),
{
    if !portage_found {
        let mut m = String::from_str("Portage binary not found at: ");
        m.append(config.monitoring.portage_path.as_str());
        return Err(PortCLError::Validation(m));
    }
    match value_check(config) {
        Some(m) => {
            return Err(PortCLError::Validation(m));
        },
        None => {},
    }
    match data_parent {
        Some((p, found)) => {
            if !found {
                let mut m = String::from_str("Parent directory does not exist: ");
                m.append(p.as_str());
                return Err(PortCLError::Validation(m));
            }
            Ok(())
        },
        None => Ok(()),
    }
}

/// Checks a configuration against this machine: that the Portage binary exists, the
/// values (see `value_problem`), and that the data directory's parent exists.
pub fn validate_config(config: &PortageConfig) -> (r: Result<(), PortCLError>)
    ensures
        match r {
            Ok(_) => value_problem(*config) is None,
            Err(e) => e matches PortCLError::Validation(m) && (value_problem(*config) == Some(m@)
                || (exists|found: bool, dp: Option<(Seq<char>, bool)>|
                config_problem(*config, found, dp) == Some(m@) && (!found || (dp matches Some((p, b))
                    && path_parent_text(config.general.data_directory@) == Some(p))))),
        },
{
    let portage_found = path_exists(config.monitoring.portage_path.as_str());
    let data_parent = match path_parent(config.general.data_directory.as_str()) {
        Some(p) => {
            let found = path_exists(p.as_str());
            Some((p, found))
        },
        None => None,
    };
    let ghost dp = match &data_parent {
        Some(pf) => Some((pf.0@, pf.1)),
        None => None::<(Seq<char>, bool)>,
    };
    let r = validate_config_with(config, portage_found, data_parent);
    proof {
        if r is Err && value_problem(*config) is None {
            assert(config_problem(*config, portage_found, dp) is Some);
        }
    }
    r
}

/// Why this system cannot run PortCL, given whether it is Linux, whether Portage or
/// emerge is installed, and the output of `id -u` when it ran and was UTF-8.
pub open spec fn requirements_problem(
    is_linux: bool,
    portage_found: bool,
    uid_output: Option<Seq<char>>,
) -> Option<Seq<char>> {
    if !is_linux {
        Some("PortCL can only run on Linux systems"@)
    } else if !portage_found {
        Some("Portage/emerge not found in system"@)
    } else if uid_output matches Some(u) && trim(u) != "0"@ {
        Some("PortCL requires root privileges or portcl group membership"@)
    } else {
        None
    }
}

/// Checks the system PortCL runs on (see `requirements_problem`).
pub fn validate_system_requirements_with(
    is_linux: bool,
    portage_found: bool,
    uid_output: Option<String>,
) -> (r: Result<(), PortCLError>)
    ensures
        ({
            let u = match uid_output {
                Some(s) => Some(s@),
                None => None::<Seq<char>>,
            };
            match r {
                Ok(_) => requirements_problem(is_linux, portage_found, u) is None,
                Err(e) => e matches PortCLError::Validation(m) && requirements_problem(
                    is_linux,
                    portage_found,
                    u,
                ) == Some(m@),
            }
        }),
{
    if !is_linux {
        return Err(PortCLError::Validation(String::from_str("PortCL can only run on Linux systems")));
    }
    if !portage_found {
        return Err(PortCLError::Validation(String::from_str("Portage/emerge not found in system")));
    }
    match uid_output {
        Some(s) => {
            let t = trim_chars(&chars_of(s.as_str()));
            let zero = chars_of("0");
            proof {
                reveal_strlit("0");
            }
            if !(t.len() == 1 && t[0] == '0') {
                assert(t@ != "0"@) by {
                    if t@ == "0"@ {
                        assert(t@.len() == 1 && t@[0] == '0');
                    }
                }
                return Err(
                    PortCLError::Validation(
                        String::from_str("PortCL requires root privileges or portcl group membership"),
                    ),
                );
            }
            assert(t@ =~= "0"@);
            Ok(())
        },
        None => Ok(()),
    }
}

/// The law of validation: a configuration passes only when Portage is found, the
/// parent of its data directory (if it has one) exists, and every value lies in its
/// documented range: a poll interval of at least 10 seconds; learning rate and
/// discount factor numbers in [0, 1]; an exploration rate in [0, 1]; positive batch
/// size, concurrency and timeout, a memory at least the batch size; CPU and memory
/// limits in (0, 100]; a non-negative disk minimum; some critical package; a data
/// directory; and a known log level. Comparisons with a NaN are false, so a NaN fails
/// a check written as "within" and passes one written as "not outside".
pub proof fn lemma_valid_config_in_ranges(
    c: PortageConfig,
    portage_found: bool,
    data_parent: Option<(Seq<char>, bool)>,
)
    requires
        config_problem(c, portage_found, data_parent) is None,
    ensures
        portage_found,
        data_parent matches Some((_, found)) ==> found,
        c.monitoring.poll_interval >= 10,
        !is_nan(c.rl.learning_rate) && 0 <= order_key(c.rl.learning_rate) <= order_key(
            0x3ff0_0000_0000_0000u64,
        ),
        !is_nan(c.rl.discount_factor) && 0 <= order_key(c.rl.discount_factor) <= order_key(
            0x3ff0_0000_0000_0000u64,
        ),
        !is_nan(c.rl.exploration_rate) ==> 0 <= order_key(c.rl.exploration_rate) <= order_key(
            0x3ff0_0000_0000_0000u64,
        ),
        c.rl.batch_size > 0,
        c.rl.memory_size >= c.rl.batch_size,
        c.actions.max_concurrent_actions > 0,
        c.actions.action_timeout > 0,
        !is_nan(c.safety.max_cpu_usage) ==> 0 < order_key(c.safety.max_cpu_usage) <= order_key(
            0x4059_0000_0000_0000u64,
        ),
        !is_nan(c.safety.max_memory_usage) ==> 0 < order_key(c.safety.max_memory_usage)
            <= order_key(0x4059_0000_0000_0000u64),
        !is_nan(c.safety.min_disk_space_gb) ==> 0 <= order_key(c.safety.min_disk_space_gb),
        c.safety.critical_packages.len() > 0,
        c.general.data_directory@.len() > 0,
        c.general.log_level@ == "trace"@ || c.general.log_level@ == "debug"@ || c.general.log_level@
            == "info"@ || c.general.log_level@ == "warn"@ || c.general.log_level@ == "error"@,
{
}

/// The law of the default configuration: its values pass the full check, so only its
/// paths can fail it on a machine.
pub proof fn lemma_default_values_valid(c: PortageConfig)
    requires
        c.is_default(),
    ensures
        value_problem(c) is None,
{
    reveal_strlit("/var/lib/portcl");
}

} // verus!
