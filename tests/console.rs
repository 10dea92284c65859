use runtime_ops::console::{
    console_size_from_winsize, console_size_probe, os_error_code, ConsoleSize, ProbeError, EINVAL,
};

#[test]
fn probe_falls_back_to_stderr() {
    let size = ConsoleSize { cols: 120, rows: 40 };
    let r = console_size_probe(Err(ProbeError::Os(25)), Err(ProbeError::BadResource), Ok(size));
    assert_eq!(r, Ok(size));
}

#[test]
fn probe_takes_first_success() {
    let a = ConsoleSize { cols: 80, rows: 24 };
    let b = ConsoleSize { cols: 100, rows: 30 };
    assert_eq!(console_size_probe(Ok(a), Ok(b), Err(ProbeError::Os(9))), Ok(a));
    assert_eq!(console_size_probe(Err(ProbeError::Os(25)), Ok(b), Ok(a)), Ok(b));
}

#[test]
fn probe_reports_last_failure() {
    let r = console_size_probe(Err(ProbeError::Os(25)), Err(ProbeError::Os(9)), Err(ProbeError::Os(22)));
    assert_eq!(r, Err(ProbeError::Os(22)));
}

#[test]
fn missing_error_code_defaults_to_einval() {
    assert_eq!(os_error_code(None), EINVAL);
    assert_eq!(os_error_code(None), 22);
    assert_eq!(os_error_code(Some(25)), 25);
}

#[test]
fn winsize_is_widened() {
    assert_eq!(console_size_from_winsize(65535, 3), ConsoleSize { cols: 65535, rows: 3 });
}
