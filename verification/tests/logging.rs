use rclrs_logging::errors::foreign_call_result;
use rclrs_logging::CText;
use rclrs_logging::GlobalLogState;
use rclrs_logging::InitDecision;
use rclrs_logging::LogContext;
use rclrs_logging::LogSeverity;
use rclrs_logging::LoggingError;

/// Runs one full initialize attempt the way the surrounding process does
/// under its lock: decide, invoke the (stand-in) foreign configure primitive
/// only when required, and complete the attempt. `configure_calls` counts the
/// foreign invocations; `configure_ret` is what the foreign call reports.
fn run_initialize(
    state: &mut GlobalLogState,
    configure_calls: &mut u32,
    configure_ret: i32,
) -> Result<(), LoggingError> {
    match LogContext::init_decision(state) {
        InitDecision::AlreadyInitialized => Ok(()),
        InitDecision::ConfigureRequired => {
            *configure_calls += 1;
            LogContext::init(state, configure_ret)
        }
    }
}

#[test]
fn severity_codes_match_foreign_codes() {
    assert_eq!(LogSeverity::Debug.code(), 10);
    assert_eq!(LogSeverity::Info.code(), 20);
    assert_eq!(LogSeverity::Warn.code(), 30);
    assert_eq!(LogSeverity::Error.code(), 40);
    assert_eq!(LogSeverity::Fatal.code(), 50);
}

#[test]
fn severity_order_is_wire_compatible() {
    let ordered = [
        LogSeverity::Debug,
        LogSeverity::Info,
        LogSeverity::Warn,
        LogSeverity::Error,
        LogSeverity::Fatal,
    ];
    for pair in ordered.windows(2) {
        assert!(pair[0].code() < pair[1].code());
    }
}

#[test]
fn ctext_appends_terminator() {
    let t = CText::new("abc").unwrap();
    assert_eq!(t.bytes, b"abc\0".to_vec());
}

#[test]
fn ctext_empty_text_is_just_terminator() {
    let t = CText::new("").unwrap();
    assert_eq!(t.bytes, b"\0".to_vec());
}

#[test]
fn ctext_rejects_embedded_terminator() {
    let r = CText::new("a\0b");
    assert!(matches!(r, Err(LoggingError::StringConversion)));
}

#[test]
fn foreign_result_zero_is_success() {
    assert_eq!(foreign_call_result(0), Ok(()));
}

#[test]
fn foreign_result_nonzero_is_failure() {
    assert_eq!(
        foreign_call_result(-3),
        Err(LoggingError::ForeignFailure(-3))
    );
}

#[test]
fn initialize_configures_exactly_once() {
    let mut state = GlobalLogState::new();
    let mut configure_calls: u32 = 0;
    for _ in 0..5 {
        let r = run_initialize(&mut state, &mut configure_calls, 0);
        assert_eq!(r, Ok(()));
    }
    assert_eq!(configure_calls, 1);
    assert!(state.is_initialized());
}

#[test]
fn initialize_failure_surfaces_code_and_leaves_uninitialized() {
    let mut state = GlobalLogState::new();
    let mut configure_calls: u32 = 0;
    let r = run_initialize(&mut state, &mut configure_calls, 42);
    assert_eq!(r, Err(LoggingError::ForeignFailure(42)));
    assert!(!state.is_initialized());
    // Emission stays dropped after the failed attempt.
    let req = LogContext::log(&state, "f", "file.ext", 1, "logger", LogSeverity::Info, "x");
    assert!(req.is_none());
    // A later attempt whose configure call succeeds still works.
    let r = run_initialize(&mut state, &mut configure_calls, 0);
    assert_eq!(r, Ok(()));
    assert!(state.is_initialized());
    assert_eq!(configure_calls, 2);
}

#[test]
fn is_initialized_follows_the_lifecycle() {
    let mut state = GlobalLogState::new();
    assert!(!state.is_initialized());
    let mut configure_calls: u32 = 0;
    run_initialize(&mut state, &mut configure_calls, 0).unwrap();
    assert!(state.is_initialized());
    let call_finalize = state.teardown();
    assert!(call_finalize);
    assert!(!state.is_initialized());
}

#[test]
fn teardown_is_idempotent() {
    let mut state = GlobalLogState::new();
    // Teardown of a never-initialized state is a silent no-op.
    assert!(!state.teardown());
    let mut configure_calls: u32 = 0;
    run_initialize(&mut state, &mut configure_calls, 0).unwrap();
    assert!(state.teardown());
    // The second teardown finds the state uninitialized and calls nothing.
    assert!(!state.teardown());
    assert!(!state.is_initialized());
}

#[test]
fn reinitialize_after_teardown_reenables_emission() {
    let mut state = GlobalLogState::new();
    let mut configure_calls: u32 = 0;
    run_initialize(&mut state, &mut configure_calls, 0).unwrap();
    state.teardown();
    assert!(!state.is_initialized());
    let r = run_initialize(&mut state, &mut configure_calls, 0);
    assert_eq!(r, Ok(()));
    assert!(state.is_initialized());
    assert_eq!(configure_calls, 2);
    let req = LogContext::log(&state, "f", "file.ext", 1, "logger", LogSeverity::Info, "x");
    assert!(req.is_some());
}

#[test]
fn emit_while_uninitialized_is_a_silent_noop() {
    let state = GlobalLogState::new();
    let req = LogContext::log(&state, "", "", u32::MAX, "", LogSeverity::Fatal, "");
    assert!(req.is_none());
    let req = LogContext::log(
        &state,
        "f",
        "file.ext",
        42,
        "logger",
        LogSeverity::Warn,
        "hello",
    );
    assert!(req.is_none());
    // Text that would be rejected while initialized is still dropped quietly.
    let req = LogContext::log(&state, "f\0n", "a\0b", 7, "l\0g", LogSeverity::Debug, "m\0g");
    assert!(req.is_none());
}

#[test]
fn emit_carries_exact_arguments() {
    let mut state = GlobalLogState::new();
    let mut configure_calls: u32 = 0;
    run_initialize(&mut state, &mut configure_calls, 0).unwrap();
    let req = LogContext::log(
        &state,
        "f",
        "file.ext",
        42,
        "logger",
        LogSeverity::Warn,
        "hello",
    )
    .unwrap();
    assert_eq!(req.location.function_name.bytes, b"f\0".to_vec());
    assert_eq!(req.location.file_name.bytes, b"file.ext\0".to_vec());
    assert_eq!(req.location.line_number, 42usize);
    assert_eq!(req.severity_code, 30);
    assert_eq!(req.logger_name.bytes, b"logger\0".to_vec());
    assert_eq!(req.message.bytes, b"hello\0".to_vec());
}

#[test]
fn emit_requests_stay_separate_per_call() {
    let mut state = GlobalLogState::new();
    let mut configure_calls: u32 = 0;
    run_initialize(&mut state, &mut configure_calls, 0).unwrap();
    let first = LogContext::log(&state, "fa", "a.ext", 1, "la", LogSeverity::Info, "ma").unwrap();
    let second = LogContext::log(&state, "fb", "b.ext", 2, "lb", LogSeverity::Error, "mb").unwrap();
    assert_eq!(first.location.function_name.bytes, b"fa\0".to_vec());
    assert_eq!(first.logger_name.bytes, b"la\0".to_vec());
    assert_eq!(first.message.bytes, b"ma\0".to_vec());
    assert_eq!(first.severity_code, 20);
    assert_eq!(second.location.function_name.bytes, b"fb\0".to_vec());
    assert_eq!(second.logger_name.bytes, b"lb\0".to_vec());
    assert_eq!(second.message.bytes, b"mb\0".to_vec());
    assert_eq!(second.severity_code, 40);
}

#[test]
fn set_level_builds_two_calls_in_order() {
    let mut requests = Vec::new();
    requests.push(LogContext::set_logger_level("logger.a", LogSeverity::Error).unwrap());
    requests.push(LogContext::set_logger_level("logger.a", LogSeverity::Debug).unwrap());
    assert_eq!(requests.len(), 2);
    assert_eq!(requests[0].logger_name.bytes, b"logger.a\0".to_vec());
    assert_eq!(requests[0].severity_code, 40);
    assert_eq!(requests[1].logger_name.bytes, b"logger.a\0".to_vec());
    assert_eq!(requests[1].severity_code, 10);
}

#[test]
fn set_level_rejects_embedded_terminator() {
    let r = LogContext::set_logger_level("logger\0a", LogSeverity::Error);
    // Conversion fails before any foreign call could be built.
    assert!(matches!(r, Err(LoggingError::StringConversion)));
}
