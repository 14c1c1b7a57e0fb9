use portal_reset::logging::LogLevel;
use portal_reset::logging::format_pid;
use portal_reset::logging::u64_to_dec;

#[test]
fn style_info() {
    let (prefix, color, symbol) = LogLevel::Info.style();
    assert_eq!(prefix, "INFO");
    assert_eq!(color, "\x1b[94m");
    assert_eq!(symbol, "ℹ");
}

#[test]
fn style_success() {
    let (prefix, color, symbol) = LogLevel::Success.style();
    assert_eq!(prefix, "OK");
    assert_eq!(color, "\x1b[92m");
    assert_eq!(symbol, "✓");
}

#[test]
fn style_warning() {
    let (prefix, color, symbol) = LogLevel::Warning.style();
    assert_eq!(prefix, "WARN");
    assert_eq!(color, "\x1b[93m");
    assert_eq!(symbol, "⚠");
}

#[test]
fn style_error() {
    let (prefix, color, symbol) = LogLevel::Error.style();
    assert_eq!(prefix, "ERROR");
    assert_eq!(color, "\x1b[91m");
    assert_eq!(symbol, "✗");
}

#[test]
fn style_process() {
    let (prefix, color, symbol) = LogLevel::Process.style();
    assert_eq!(prefix, "LOG");
    assert_eq!(color, "\x1b[96m");
    assert_eq!(symbol, "→");
}

#[test]
fn style_action() {
    let (prefix, color, symbol) = LogLevel::Action.style();
    assert_eq!(prefix, "RUN");
    assert_eq!(color, "\x1b[95m");
    assert_eq!(symbol, "⚡");
}

#[test]
fn decimal_of_zero() {
    assert_eq!(u64_to_dec(0), "0");
}

#[test]
fn decimal_of_single_digit() {
    assert_eq!(u64_to_dec(7), "7");
}

#[test]
fn decimal_of_round_number() {
    assert_eq!(u64_to_dec(10), "10");
}

#[test]
fn decimal_of_large_number() {
    assert_eq!(u64_to_dec(907), "907");
    assert_eq!(u64_to_dec(u64::MAX), "18446744073709551615");
}

#[test]
fn format_pid_styles_the_number() {
    assert_eq!(format_pid(1234), "\x1b[2m(\x1b[0mPID: \x1b[1m1234\x1b[2m");
}

#[test]
fn format_pid_zero() {
    assert_eq!(format_pid(0), "\x1b[2m(\x1b[0mPID: \x1b[1m0\x1b[2m");
}

#[test]
fn format_pid_negative() {
    assert_eq!(format_pid(-5), "\x1b[2m(\x1b[0mPID: \x1b[1m-5\x1b[2m");
    assert_eq!(
        format_pid(i32::MIN),
        "\x1b[2m(\x1b[0mPID: \x1b[1m-2147483648\x1b[2m"
    );
}
