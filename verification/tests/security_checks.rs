use tmc::security::{
    contains_injection_patterns, is_valid_hex_color, sanitize_hotkey, sanitize_process_name,
    sanitize_string, RateLimiter,
};
use tmc::text::decimal_string;

#[test]
fn sanitizers() {
    assert_eq!(sanitize_string("a\u{0}b\u{7}c\nd\u{7F}", 100), "abc\nd");
    assert_eq!(sanitize_string("a\nb\tc\0d\x07e", 100), "a\nb\tcde");
    assert_eq!(sanitize_string("abcdef", 3), "abc");
    assert_eq!(sanitize_string("héllo", 2), "hé");
    assert_eq!(sanitize_process_name("  My App!.EXE  "), "myapp.exe");
    assert_eq!(sanitize_process_name("a b-c_d"), "ab-c_d");
    assert_eq!(sanitize_hotkey("Ctrl + Alt + N;"), "Ctrl + Alt + N");
    assert_eq!(sanitize_hotkey(&"K".repeat(60)).len(), 50);
}

#[test]
fn hex_color_validation() {
    assert!(is_valid_hex_color("#1A2B3C"));
    assert!(is_valid_hex_color("  1a2b3c "));
    assert!(is_valid_hex_color("##1a2b3c"));
    assert!(!is_valid_hex_color("#1A2B3"));
    assert!(!is_valid_hex_color("#1A2B3G"));
}

#[test]
fn injection_patterns() {
    assert!(contains_injection_patterns("<SCRIPT>alert(1)"));
    assert!(contains_injection_patterns("Ctrl+Shift+K"));
    assert!(contains_injection_patterns("powershell -c"));
    assert!(!contains_injection_patterns("Ctrl+Alt+N"));
    assert!(!contains_injection_patterns("notepad.exe"));
}

#[test]
fn rate_limiter_limits_each_identifier() {
    const SEC: u64 = 1_000_000_000;
    let mut rl = RateLimiter::new(2, 60 * SEC);
    assert!(rl.check_rate_limit_at("a", 0));
    assert!(rl.check_rate_limit_at("a", 10));
    assert!(!rl.check_rate_limit_at("a", 20));
    assert!(rl.check_rate_limit_at("b", 20));
    // At 60 s - 1 ns the first request still counts; at 60 s it is a full
    // window old and no longer does.
    assert!(!rl.check_rate_limit_at("a", 60 * SEC - 1));
    assert!(rl.check_rate_limit_at("a", 60 * SEC));
    assert!(!rl.check_rate_limit_at("a", 60 * SEC + 1));
    let mut live = RateLimiter::new(1, 60 * SEC);
    assert!(live.check_rate_limit("x"));
    assert!(!live.check_rate_limit("x"));
}

#[test]
fn decimal_numbers() {
    assert_eq!(decimal_string(0), "0");
    assert_eq!(decimal_string(10), "10");
    assert_eq!(decimal_string(u64::MAX), "18446744073709551615");
}

#[test]
fn hotkeys_are_well_formed_or_not() {
    assert!(tmc::hotkeys::is_well_formed_hotkey("Ctrl+Shift+M"));
    assert!(tmc::hotkeys::is_well_formed_hotkey("Ctrl + Alt + N"));
    assert!(tmc::hotkeys::is_well_formed_hotkey("Win+F5"));
    assert!(!tmc::hotkeys::is_well_formed_hotkey("Ctrl+Shift"));
    assert!(!tmc::hotkeys::is_well_formed_hotkey("M+Ctrl"));
    assert!(!tmc::hotkeys::is_well_formed_hotkey("Ctrl+Alt+cmd /c del"));
    assert!(!tmc::hotkeys::is_well_formed_hotkey("Ctrl+bash"));
    assert!(!tmc::hotkeys::is_well_formed_hotkey("Ctrl++M"));
}

#[test]
fn whitespace_matches_std() {
    for n in 0u32..0x3100 {
        if let Some(c) = char::from_u32(n) {
            let s = c.to_string();
            assert_eq!(tmc::text::trim_str(&s).is_empty(), c.is_whitespace(), "{:#x}", n);
        }
    }
}

#[test]
fn area_names_one_per_area() {
    for bits in 0u32..256 {
        let names = tmc::memory::types::Areas::from_bits_truncate(bits).get_names();
        assert_eq!(names.len() as u32, bits.count_ones());
        let mut sorted = names.clone();
        sorted.sort();
        sorted.dedup();
        assert_eq!(sorted.len(), names.len());
    }
}

#[test]
fn rate_limiter_clock_never_goes_back() {
    const SEC: u64 = 1_000_000_000;
    let mut rl = RateLimiter::new(1, 10 * SEC);
    assert!(rl.check_rate_limit_at("a", 20 * SEC));
    // An earlier time counts as the latest one seen (20 s): still refused.
    assert!(!rl.check_rate_limit_at("a", 25 * SEC));
    assert!(!rl.check_rate_limit_at("a", 5 * SEC));
    assert!(rl.check_rate_limit_at("a", 30 * SEC));
}
