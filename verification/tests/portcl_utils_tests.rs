use ai_agents::portcl::error::PortCLError;
use ai_agents::portcl::utils::error::{
    error_severity, handle_error, is_retryable_error, log_result, ErrorSeverity,
};
use ai_agents::portcl::utils::logging::{log_level_for, LogLevel};
use ai_agents::portcl::utils::{
    format_bytes, format_duration, parse_package_name, validate_package_name,
};

#[test]
fn test_format_duration() {
    assert_eq!(format_duration(30), "30s");
    assert_eq!(format_duration(90), "1m 30s");
    assert_eq!(format_duration(3661), "1h 1m 1s");
}

#[test]
fn format_duration_edges() {
    assert_eq!(format_duration(0), "0s");
    assert_eq!(format_duration(59), "59s");
    assert_eq!(format_duration(60), "1m 0s");
    assert_eq!(format_duration(3599), "59m 59s");
    assert_eq!(format_duration(3600), "1h 0m 0s");
}

#[test]
fn test_format_bytes() {
    assert_eq!(format_bytes(512), "512 B");
    assert_eq!(format_bytes(1536), "1.5 KB");
    assert_eq!(format_bytes(1048576), "1.0 MB");
}

/// The same size, computed in floating point the way the text describes.
fn bytes_by_float(bytes: u64) -> String {
    let units = ["B", "KB", "MB", "GB", "TB"];
    let mut size = bytes as f64;
    let mut unit_index = 0;
    while size >= 1024.0 && unit_index < units.len() - 1 {
        size /= 1024.0;
        unit_index += 1;
    }
    if unit_index == 0 {
        format!("{} {}", bytes, units[unit_index])
    } else {
        format!("{:.1} {}", size, units[unit_index])
    }
}

#[test]
fn format_bytes_matches_float_formatting() {
    let mut samples: Vec<u64> = vec![
        0,
        1,
        1023,
        1024,
        1075,
        1126,
        1177,
        1228,
        1997,
        1048575,
        1048576,
        1073741823,
        1073741824,
        1099511627775,
        1099511627776,
        u64::MAX,
        u64::MAX - 1024,
        (1u64 << 53) + 1,
        (1u64 << 53) + 3,
        (1u64 << 60) + (1u64 << 7),
        (1u64 << 60) + (3u64 << 7),
    ];
    let mut x: u64 = 0x9E37_79B9_7F4A_7C15;
    for _ in 0..2000 {
        x ^= x << 13;
        x ^= x >> 7;
        x ^= x << 17;
        samples.push(x >> (x % 60));
    }
    for k in 1..5u32 {
        let d = 1u64 << (10 * k);
        for t in 0..200u64 {
            samples.push(d * t / 20 + d / 20);
            samples.push(d + t * d / 10 + d / 20);
        }
    }
    for b in samples {
        assert_eq!(format_bytes(b), bytes_by_float(b), "size {}", b);
    }
}

#[test]
fn test_parse_package_name() {
    assert!(parse_package_name("sys-apps/portage").is_ok());
    assert!(parse_package_name("invalid-package-name").is_err());
    assert!(parse_package_name("sys-apps/portage-3.0.30").is_ok());
}

#[test]
fn parse_package_name_parts() {
    let (c, n) = parse_package_name("sys-apps/portage-3.0.30").unwrap();
    assert_eq!(c, "sys-apps");
    assert_eq!(n, "portage-3.0.30");
    let (c, n) = parse_package_name("a/b/c").unwrap();
    assert_eq!(c, "a");
    assert_eq!(n, "b/c");
    match parse_package_name("nocategory") {
        Err(PortCLError::Validation(m)) => assert_eq!(
            m,
            "Invalid package name format: nocategory. Expected category/name"
        ),
        _ => panic!("a name without category is refused"),
    }
}

#[test]
fn test_validate_package_name() {
    assert!(validate_package_name("sys-apps/portage"));
    assert!(validate_package_name("dev-lang/rust"));
    assert!(!validate_package_name("invalid_package"));
    assert!(!validate_package_name("Sys-Apps/Portage"));
    assert!(!validate_package_name("sys-apps/"));
}

#[test]
fn validated_names_parse_back() {
    for p in ["sys-apps/portage", "dev-lang/rust_1", "x11-libs/gtk-3"] {
        assert!(validate_package_name(p));
        let (c, n) = parse_package_name(p).unwrap();
        assert_eq!(format!("{}/{}", c, n), p);
    }
    assert!(!validate_package_name("a/b/c"));
    assert!(validate_package_name("/portage"));
    assert!(!validate_package_name("cat_x/name"));
}

#[test]
fn handle_error_hands_the_error_back() {
    let e = PortCLError::Network("down".to_string());
    match handle_error(&e) {
        Err(PortCLError::Network(m)) => assert_eq!(m, "down"),
        _ => panic!("the same error comes back"),
    }
    let r: Result<u32, PortCLError> = Ok(7);
    assert_eq!(log_result(r, "op").unwrap(), 7);
}

#[test]
fn retryable_errors() {
    assert!(is_retryable_error(&PortCLError::Timeout("x".to_string())));
    assert!(is_retryable_error(&PortCLError::Portage("network unreachable".to_string())));
    assert!(!is_retryable_error(&PortCLError::Portage("bad atom".to_string())));
    assert!(is_retryable_error(&PortCLError::System("device busy".to_string())));
    assert!(!is_retryable_error(&PortCLError::Validation("timeout".to_string())));
}

#[test]
fn severities() {
    assert_eq!(
        error_severity(&PortCLError::Configuration("x".to_string())),
        ErrorSeverity::Critical
    );
    assert_eq!(error_severity(&PortCLError::Json("x".to_string())), ErrorSeverity::Low);
    assert_eq!(ErrorSeverity::Medium.as_str(), "medium");
    assert_eq!(
        PortCLError::Validation("bad".to_string()).to_string(),
        "Validation error: bad"
    );
}

#[test]
fn log_levels() {
    assert_eq!(log_level_for("debug"), LogLevel::Debug);
    assert_eq!(log_level_for("info"), LogLevel::Info);
    assert_eq!(log_level_for("invalid"), LogLevel::Info);
}
