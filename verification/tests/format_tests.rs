use gosh::format::{color_enabled, format_duration, format_size, format_speed};

#[test]
fn test_format_speed_zero() {
    assert_eq!(format_speed(0), "0 B");
}

#[test]
fn test_format_speed_bytes() {
    assert_eq!(format_speed(500), "500 B");
}

#[test]
fn test_format_speed_kb() {
    assert_eq!(format_speed(1024), "1.0 KB");
    assert_eq!(format_speed(1536), "1.5 KB");
}

#[test]
fn test_format_speed_mb() {
    assert_eq!(format_speed(1024 * 1024), "1.0 MB");
    assert_eq!(format_speed(5 * 1024 * 1024), "5.0 MB");
}

#[test]
fn test_format_speed_gb() {
    assert_eq!(format_speed(1024 * 1024 * 1024), "1.00 GB");
}

#[test]
fn test_format_size_zero() {
    assert_eq!(format_size(0), "0 B");
}

#[test]
fn test_format_size_bytes() {
    assert_eq!(format_size(100), "100 B");
}

#[test]
fn test_format_size_kb() {
    assert_eq!(format_size(2048), "2.0 KB");
}

#[test]
fn test_format_size_mb() {
    assert_eq!(format_size(10 * 1024 * 1024), "10.00 MB");
}

#[test]
fn test_format_size_gb() {
    assert_eq!(format_size(3 * 1024 * 1024 * 1024), "3.00 GB");
}

#[test]
fn test_format_duration_zero() {
    assert_eq!(format_duration(0), "--");
}

#[test]
fn test_format_duration_short() {
    assert_eq!(format_duration(65), "1:05");
    assert_eq!(format_duration(30), "0:30");
}

#[test]
fn test_format_duration_hours() {
    assert_eq!(format_duration(3661), "1:01:01");
}

#[test]
fn rounding_is_half_to_even() {
    // 1792 B is 17.5 tenths of a KB: the tie rounds to the even 18.
    assert_eq!(format_speed(1792), "1.8 KB");
    // 1280 B is 12.5 tenths of a KB: the tie rounds to the even 12.
    assert_eq!(format_speed(1280), "1.2 KB");
}

#[test]
fn color_choice_follows_force_then_environment() {
    assert!(color_enabled(Some(true), true));
    assert!(!color_enabled(Some(false), false));
    assert!(!color_enabled(None, true));
    assert!(color_enabled(None, false));
}

#[test]
fn size_units_at_their_boundaries() {
    assert_eq!(format_size(1023), "1023 B");
    assert_eq!(format_size(1024 * 1024 - 1), "1024.0 KB");
    assert_eq!(format_size(1024 * 1024 * 1024 - 1), "1024.00 MB");
    assert_eq!(format_size(u64::MAX), "17179869184.00 GB");
}
