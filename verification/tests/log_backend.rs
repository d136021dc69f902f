//! Messages on their way to the log backend.

use err_trail::{Backend, Backends, Dispatcher, ErrContext, NoneContext};

/// Whether some queued delivery carries a text that contains `expected`.
fn logs_contain(sink: &Dispatcher, expected: &str) -> bool {
    sink.queued().iter().any(|delivery| delivery.text.contains(expected))
}

#[test]
fn log_test_error() {
    let mut sink = Dispatcher::new(Backends::only(Backend::Log));
    let result: Result<(), &str> = Err("error");
    let _ = result.log_error_msg(&mut sink, "An error occurred");

    assert!(logs_contain(&sink, "An error occurred"));
}

#[test]
fn log_test_warn() {
    let mut sink = Dispatcher::new(Backends::only(Backend::Log));
    let result: Result<(), &str> = Err("warning");
    let _ = result.log_warn_msg(&mut sink, "A warning occurred");

    assert!(logs_contain(&sink, "A warning occurred"));
}

#[test]
fn log_test_with_error() {
    let mut sink = Dispatcher::new(Backends::only(Backend::Log));
    let result: Result<(), &str> = Err("error");
    let _ = result.log_error_with(&mut sink, |e| format!("An error occurred: `{}`", e));

    assert!(logs_contain(&sink, "An error occurred: `error`"));
}

#[test]
fn log_test_with_warn() {
    let mut sink = Dispatcher::new(Backends::only(Backend::Log));
    let result: Result<(), &str> = Err("warning");
    let _ = result.log_warn_with(&mut sink, |e| format!("A warning occurred: `{}`", e));

    assert!(logs_contain(&sink, "A warning occurred: `warning`"));
}

#[test]
fn log_test_ok_as_error() {
    let mut sink = Dispatcher::new(Backends::only(Backend::Log));
    let result: Result<(), &str> = Err("consumed error");
    let _ = result.log_error(&mut sink);

    assert!(logs_contain(&sink, "consumed error"));
}

#[test]
fn log_test_ok_as_warn() {
    let mut sink = Dispatcher::new(Backends::only(Backend::Log));
    let result: Result<(), &str> = Err("consumed warning");
    let _ = result.log_warn(&mut sink);

    assert!(logs_contain(&sink, "consumed warning"));
}

#[test]
fn log_test_option_error() {
    let mut sink = Dispatcher::new(Backends::only(Backend::Log));
    let option: Option<()> = None;
    let _ = option.log_error_msg(&mut sink, "Option was none");

    assert!(logs_contain(&sink, "Option was none"));
}

#[test]
fn log_test_option_warn() {
    let mut sink = Dispatcher::new(Backends::only(Backend::Log));
    let option: Option<()> = None;
    let _ = option.log_warn_msg(&mut sink, "Option was none");

    assert!(logs_contain(&sink, "Option was none"));
}

#[test]
fn log_test_option_with_error() {
    let mut sink = Dispatcher::new(Backends::only(Backend::Log));
    let option: Option<()> = None;
    let _ = option.log_error_with(&mut sink, || "Lazy error context");

    assert!(logs_contain(&sink, "Lazy error context"));
}

#[test]
fn log_test_option_with_warn() {
    let mut sink = Dispatcher::new(Backends::only(Backend::Log));
    let option: Option<()> = None;
    let _ = option.log_warn_with(&mut sink, || "Lazy warn context");

    assert!(logs_contain(&sink, "Lazy warn context"));
}

#[test]
fn log_test_info() {
    let mut sink = Dispatcher::new(Backends::only(Backend::Log));
    let result: Result<(), &str> = Err("info");
    let _ = result.log_info_msg(&mut sink, "An info occurred");

    assert!(logs_contain(&sink, "An info occurred"));
}

#[test]
fn log_test_debug() {
    let mut sink = Dispatcher::new(Backends::only(Backend::Log));
    let result: Result<(), &str> = Err("debug");
    let _ = result.log_debug_msg(&mut sink, "A debug occurred");

    assert!(logs_contain(&sink, "A debug occurred"));
}

#[test]
fn log_test_trace() {
    let mut sink = Dispatcher::new(Backends::only(Backend::Log));
    let result: Result<(), &str> = Err("trace");
    let _ = result.log_trace_msg(&mut sink, "A trace occurred");

    assert!(logs_contain(&sink, "A trace occurred"));
}

#[test]
fn log_test_with_info() {
    let mut sink = Dispatcher::new(Backends::only(Backend::Log));
    let result: Result<(), &str> = Err("info");
    let _ = result.log_info_with(&mut sink, |e| format!("An info occurred: `{}`", e));

    assert!(logs_contain(&sink, "An info occurred: `info`"));
}

#[test]
fn log_test_with_debug() {
    let mut sink = Dispatcher::new(Backends::only(Backend::Log));
    let result: Result<(), &str> = Err("debug");
    let _ = result.log_debug_with(&mut sink, |e| format!("A debug occurred: `{}`", e));

    assert!(logs_contain(&sink, "A debug occurred: `debug`"));
}

#[test]
fn log_test_with_trace() {
    let mut sink = Dispatcher::new(Backends::only(Backend::Log));
    let result: Result<(), &str> = Err("trace");
    let _ = result.log_trace_with(&mut sink, |e| format!("A trace occurred: `{}`", e));

    assert!(logs_contain(&sink, "A trace occurred: `trace`"));
}

#[test]
fn log_test_option_info() {
    let mut sink = Dispatcher::new(Backends::only(Backend::Log));
    let option: Option<()> = None;
    let _ = option.log_info_msg(&mut sink, "Option was none");

    assert!(logs_contain(&sink, "Option was none"));
}

#[test]
fn log_test_option_debug() {
    let mut sink = Dispatcher::new(Backends::only(Backend::Log));
    let option: Option<()> = None;
    let _ = option.log_debug_msg(&mut sink, "Option was none");

    assert!(logs_contain(&sink, "Option was none"));
}

#[test]
fn log_test_option_trace() {
    let mut sink = Dispatcher::new(Backends::only(Backend::Log));
    let option: Option<()> = None;
    let _ = option.log_trace_msg(&mut sink, "Option was none");

    assert!(logs_contain(&sink, "Option was none"));
}

#[test]
fn log_test_option_with_info() {
    let mut sink = Dispatcher::new(Backends::only(Backend::Log));
    let option: Option<()> = None;
    let _ = option.log_info_with(&mut sink, || "Lazy info context");

    assert!(logs_contain(&sink, "Lazy info context"));
}

#[test]
fn log_test_option_with_debug() {
    let mut sink = Dispatcher::new(Backends::only(Backend::Log));
    let option: Option<()> = None;
    let _ = option.log_debug_with(&mut sink, || "Lazy debug context");

    assert!(logs_contain(&sink, "Lazy debug context"));
}

#[test]
fn log_test_option_with_trace() {
    let mut sink = Dispatcher::new(Backends::only(Backend::Log));
    let option: Option<()> = None;
    let _ = option.log_trace_with(&mut sink, || "Lazy trace context");

    assert!(logs_contain(&sink, "Lazy trace context"));
}
