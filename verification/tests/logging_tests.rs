use doppelganger::digest::digest_hex;
use doppelganger::logging::{log_filter, record_decoration, LogFilter, LogLevel};

#[test]
fn filter_from_verbosity() {
    assert_eq!(log_filter(0), LogFilter::Info);
    assert_eq!(log_filter(1), LogFilter::Debug);
    assert_eq!(log_filter(2), LogFilter::Trace);
    assert_eq!(log_filter(255), LogFilter::Trace);
}

#[test]
fn decorations() {
    assert_eq!(record_decoration(LogLevel::Warn), ("\x1b[33m[WARN] ", "\x1b[0m"));
    assert_eq!(record_decoration(LogLevel::Error), ("\x1b[91m[ERROR] ", "\x1b[0m"));
    assert_eq!(record_decoration(LogLevel::Info), ("", ""));
    assert_eq!(record_decoration(LogLevel::Debug), ("", ""));
    assert_eq!(record_decoration(LogLevel::Trace), ("", ""));
}

#[test]
fn digest_hex_of_bytes() {
    let mut h = [0u8; 32];
    h[0] = 0x1f;
    h[31] = 0xa0;
    let s = digest_hex(&h);
    assert_eq!(s.len(), 64);
    assert!(s.starts_with("1f00"));
    assert!(s.ends_with("00a0"));
}
