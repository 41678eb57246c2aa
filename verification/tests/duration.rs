use idle_render::error::RenderError;
use idle_render::{parse_duration_secs, Duration};

#[test]
fn parses_seconds_suffix() {
    assert_eq!(parse_duration_secs("10s").unwrap(), Duration::from_secs(10));
}

#[test]
fn parses_minutes() {
    assert_eq!(parse_duration_secs("2m").unwrap(), Duration::from_secs(120));
}

#[test]
fn parses_hours() {
    assert_eq!(parse_duration_secs("1h").unwrap(), Duration::from_secs(3600));
}

#[test]
fn bare_number_is_seconds() {
    assert_eq!(parse_duration_secs("10").unwrap(), Duration::from_secs(10));
}

#[test]
fn rejects_zero() {
    assert!(parse_duration_secs("0s").is_err());
}

#[test]
fn rejects_empty() {
    assert!(parse_duration_secs("  ").is_err());
}

#[test]
fn parses_days_and_trims_case() {
    assert_eq!(parse_duration_secs(" 1D ").unwrap().as_secs(), 86_400);
    assert_eq!(parse_duration_secs("3M").unwrap().as_secs(), 180);
}

#[test]
fn bare_and_suffixed_seconds_agree() {
    for n in [1u64, 7, 59, 3600, 123_456] {
        let a = parse_duration_secs(&n.to_string()).unwrap();
        let b = parse_duration_secs(&format!("{n}s")).unwrap();
        assert_eq!(a, b);
        assert_eq!(a.as_secs(), n);
    }
}

#[test]
fn zero_rejected_in_every_unit() {
    for s in ["0", "0s", "0m", "0h", "0d", "000"] {
        assert!(matches!(parse_duration_secs(s), Err(RenderError::Duration(_))), "{s}");
    }
}

#[test]
fn rejects_garbage_and_overflow() {
    assert!(matches!(parse_duration_secs("ten"), Err(RenderError::Duration(_))));
    assert!(matches!(parse_duration_secs("5x"), Err(RenderError::Duration(_))));
    assert!(matches!(parse_duration_secs("18446744073709551615d"), Err(RenderError::Duration(_))));
}
