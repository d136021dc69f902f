//! Logging on the failure branch of a `Result`.
//!
//! Every operation hands the container back as it came. If the container is
//! a failure, one message goes to the dispatcher at the chosen severity; if
//! it is a success, nothing happens, and a producer that was passed is not
//! called.

use vstd::prelude::*;
use crate::backend::Backend;
use crate::dispatch::{lemma_received_record, record_of, Dispatcher};
use crate::displayable::Displayable;
use crate::sealed::Sealed;
use crate::severity::Severity;

verus! {

/// What an operation that logs a finished `text` leaves behind: if `outcome`
/// is a failure and a backend category is enabled, `after` is `before` with
/// that one message received at `severity`; in every other case `after` is
/// `before`.
pub open spec fn failure_logged<T, E>(
    outcome: Result<T, E>,
    before: Dispatcher,
    after: Dispatcher,
    severity: Severity,
    text: Seq<char>,
) -> bool {
    if outcome is Err && before.backends().any() {
        after.received(before, severity, text)
    } else {
        after == before
    }
}

/// What an operation that logs the error payload's own text leaves behind:
/// as `failure_logged`, with the text that the payload renders to.
pub open spec fn failure_logged_as_is<T, E: Displayable>(
    outcome: Result<T, E>,
    before: Dispatcher,
    after: Dispatcher,
    severity: Severity,
) -> bool {
    match outcome {
        Err(e) => failure_logged(outcome, before, after, severity, e.text()),
        Ok(_) => after == before,
    }
}

/// Whether an operation on `outcome` calls its producer: only on a failure,
/// and only if a backend category is enabled to receive the result.
pub open spec fn calls_producer<T, E>(outcome: Result<T, E>, sink: Dispatcher) -> bool {
    outcome is Err && sink.backends().any()
}

/// What an operation that logs a produced message leaves behind: if the
/// producer is called, `after` is `before` with one message received at
/// `severity`, whose text is the rendering of a value that `f` returns for
/// the error payload; otherwise `after` is `before`.
pub open spec fn failure_logged_with<T, E, F: FnOnce(&E) -> D, D: Displayable>(
    outcome: Result<T, E>,
    f: F,
    before: Dispatcher,
    after: Dispatcher,
    severity: Severity,
) -> bool {
    if calls_producer(outcome, before) {
        outcome matches Err(e) && exists|d: D|
            f.ensures((&e,), d) && after.received(before, severity, d.text())
    } else {
        after == before
    }
}

/// If `outcome` is a failure, logs the error payload's own text at
/// `severity`.
pub fn log_failure<T, E: Displayable>(
    outcome: Result<T, E>,
    sink: &mut Dispatcher,
    severity: Severity,
) -> (out: Result<T, E>)
    ensures
        out == outcome,
        failure_logged_as_is(outcome, *old(sink), *final(sink), severity),
{
    if let Err(err) = &outcome {
        if !sink.is_silent() {
            let text = err.render();
            sink.emit(severity, text.as_str());
        }
    }
    outcome
}

/// If `outcome` is a failure, logs `msg` at `severity`; the error payload is
/// not looked at.
pub fn log_failure_msg<T, E, M: Displayable>(
    outcome: Result<T, E>,
    sink: &mut Dispatcher,
    severity: Severity,
    msg: M,
) -> (out: Result<T, E>)
    ensures
        out == outcome,
        failure_logged(outcome, *old(sink), *final(sink), severity, msg.text()),
{
    if outcome.is_err() && !sink.is_silent() {
        let text = msg.render();
        sink.emit(severity, text.as_str());
    }
    outcome
}

/// If `outcome` is a failure, calls `f` with the error payload and logs what
/// it returns at `severity`.
///
/// `f` is taken by value and can be called once at most. Its precondition is
/// owed only where it is called, so for a success, and where no backend
/// category is enabled, any `f` may be passed and none is called.
pub fn log_failure_with<T, E, F: FnOnce(&E) -> D, D: Displayable>(
    outcome: Result<T, E>,
    sink: &mut Dispatcher,
    severity: Severity,
    f: F,
) -> (out: Result<T, E>)
    requires
        calls_producer(outcome, *old(sink)) ==> (outcome matches Err(e) && f.requires((&e,))),
    ensures
        out == outcome,
        failure_logged_with(outcome, f, *old(sink), *final(sink), severity),
{
    if let Err(err) = &outcome {
        if !sink.is_silent() {
            let context = f(err);
            let text = context.render();
            sink.emit(severity, text.as_str());
        }
    }
    outcome
}

/// A finished message that is logged for a failure ends the record of every
/// enabled backend category at the chosen severity. It appears on no other
/// record, and for a success no record changes.
pub proof fn lemma_failure_logged_record<T, E>(
    outcome: Result<T, E>,
    before: Dispatcher,
    after: Dispatcher,
    at: Severity,
    text: Seq<char>,
    backend: Backend,
    severity: Severity,
)
    requires
        failure_logged(outcome, before, after, at, text),
    ensures
        record_of(after.pending(), backend, severity) == if outcome is Err
            && before.backends().has(backend) && at == severity {
            record_of(before.pending(), backend, severity).push(text)
        } else {
            record_of(before.pending(), backend, severity)
        },
{
    if outcome is Err && before.backends().any() {
        lemma_received_record(before, after, at, text, backend, severity);
    }
}

/// The text that is logged for a failure without a message is the text that
/// the error payload renders to, with nothing added: it ends the record of
/// every enabled backend category at the chosen severity.
pub proof fn lemma_failure_logged_as_is_record<T, E: Displayable>(
    outcome: Result<T, E>,
    before: Dispatcher,
    after: Dispatcher,
    at: Severity,
    backend: Backend,
    severity: Severity,
)
    requires
        failure_logged_as_is(outcome, before, after, at),
    ensures
        record_of(after.pending(), backend, severity) == match outcome {
            Err(e) => if before.backends().has(backend) && at == severity {
                record_of(before.pending(), backend, severity).push(e.text())
            } else {
                record_of(before.pending(), backend, severity)
            },
            Ok(_) => record_of(before.pending(), backend, severity),
        },
{
    match outcome {
        Err(e) => {
            lemma_failure_logged_record(outcome, before, after, at, e.text(), backend, severity);
        },
        Ok(_) => {},
    }
}

/// After an operation with a producer on a failure, the record of every
/// enabled backend category at the chosen severity ends with the rendering of
/// one value that the producer returns for the error payload. Every other
/// record, and for a success every record, is what it was before.
pub proof fn lemma_failure_logged_with_record<T, E, F: FnOnce(&E) -> D, D: Displayable>(
    outcome: Result<T, E>,
    f: F,
    before: Dispatcher,
    after: Dispatcher,
    at: Severity,
    backend: Backend,
    severity: Severity,
)
    requires
        failure_logged_with(outcome, f, before, after, at),
    ensures
        match outcome {
            Err(e) => if before.backends().has(backend) && at == severity {
                exists|d: D|
                    f.ensures((&e,), d) && record_of(after.pending(), backend, severity)
                        == record_of(before.pending(), backend, severity).push(d.text())
            } else {
                record_of(after.pending(), backend, severity) == record_of(
                    before.pending(),
                    backend,
                    severity,
                )
            },
            Ok(_) => record_of(after.pending(), backend, severity) == record_of(
                before.pending(),
                backend,
                severity,
            ),
        },
{
    match outcome {
        Err(e) => {
            if before.backends().any() {
                let d = choose|d: D|
                    f.ensures((&e,), d) && after.received(before, at, d.text());
                lemma_received_record(before, after, at, d.text(), backend, severity);
            }
        },
        Ok(_) => {},
    }
}

/// For logging a `Result` when it is a failure.
pub trait ErrContext<T, E>: Sealed + Sized {
    /// The container, as the `Result` it is.
    spec fn outcome(self) -> Result<T, E>;

    /// If a failure, logs the error payload's own text as an error.
    fn log_error(self, sink: &mut Dispatcher) -> (out: Result<T, E>) where E: Displayable
        ensures
            out == self.outcome(),
            failure_logged_as_is(self.outcome(), *old(sink), *final(sink), Severity::Error),
    ;

    /// If a failure, logs the error payload's own text as a warning.
    fn log_warn(self, sink: &mut Dispatcher) -> (out: Result<T, E>) where E: Displayable
        ensures
            out == self.outcome(),
            failure_logged_as_is(self.outcome(), *old(sink), *final(sink), Severity::Warn),
    ;

    /// If a failure, logs the error payload's own text as information.
    fn log_info(self, sink: &mut Dispatcher) -> (out: Result<T, E>) where E: Displayable
        ensures
            out == self.outcome(),
            failure_logged_as_is(self.outcome(), *old(sink), *final(sink), Severity::Info),
    ;

    /// If a failure, logs the error payload's own text as a debugging message.
    fn log_debug(self, sink: &mut Dispatcher) -> (out: Result<T, E>) where E: Displayable
        ensures
            out == self.outcome(),
            failure_logged_as_is(self.outcome(), *old(sink), *final(sink), Severity::Debug),
    ;

    /// If a failure, logs the error payload's own text as a trace message.
    fn log_trace(self, sink: &mut Dispatcher) -> (out: Result<T, E>) where E: Displayable
        ensures
            out == self.outcome(),
            failure_logged_as_is(self.outcome(), *old(sink), *final(sink), Severity::Trace),
    ;

    /// If a failure, logs `msg` as an error.
    fn log_error_msg<M: Displayable>(self, sink: &mut Dispatcher, msg: M) -> (out: Result<T, E>)
        ensures
            out == self.outcome(),
            failure_logged(
                self.outcome(),
                *old(sink),
                *final(sink),
                Severity::Error,
                msg.text(),
            ),
    ;

    /// If a failure, logs `msg` as a warning.
    fn log_warn_msg<M: Displayable>(self, sink: &mut Dispatcher, msg: M) -> (out: Result<T, E>)
        ensures
            out == self.outcome(),
            failure_logged(
                self.outcome(),
                *old(sink),
                *final(sink),
                Severity::Warn,
                msg.text(),
            ),
    ;

    /// If a failure, logs `msg` as information.
    fn log_info_msg<M: Displayable>(self, sink: &mut Dispatcher, msg: M) -> (out: Result<T, E>)
        ensures
            out == self.outcome(),
            failure_logged(
                self.outcome(),
                *old(sink),
                *final(sink),
                Severity::Info,
                msg.text(),
            ),
    ;

    /// If a failure, logs `msg` as a debugging message.
    fn log_debug_msg<M: Displayable>(self, sink: &mut Dispatcher, msg: M) -> (out: Result<T, E>)
        ensures
            out == self.outcome(),
            failure_logged(
                self.outcome(),
                *old(sink),
                *final(sink),
                Severity::Debug,
                msg.text(),
            ),
    ;

    /// If a failure, logs `msg` as a trace message.
    fn log_trace_msg<M: Displayable>(self, sink: &mut Dispatcher, msg: M) -> (out: Result<T, E>)
        ensures
            out == self.outcome(),
            failure_logged(
                self.outcome(),
                *old(sink),
                *final(sink),
                Severity::Trace,
                msg.text(),
            ),
    ;

    /// If a failure, lazily logs the result of `f` as an error.
    fn log_error_with<F: FnOnce(&E) -> D, D: Displayable>(
        self,
        sink: &mut Dispatcher,
        f: F,
    ) -> (out: Result<T, E>)
        requires
            calls_producer(self.outcome(), *old(sink)) ==> (self.outcome() matches Err(e)
                && f.requires((&e,))),
        ensures
            out == self.outcome(),
            failure_logged_with(self.outcome(), f, *old(sink), *final(sink), Severity::Error),
    ;

    /// If a failure, lazily logs the result of `f` as a warning.
    fn log_warn_with<F: FnOnce(&E) -> D, D: Displayable>(
        self,
        sink: &mut Dispatcher,
        f: F,
    ) -> (out: Result<T, E>)
        requires
            calls_producer(self.outcome(), *old(sink)) ==> (self.outcome() matches Err(e)
                && f.requires((&e,))),
        ensures
            out == self.outcome(),
            failure_logged_with(self.outcome(), f, *old(sink), *final(sink), Severity::Warn),
    ;

    /// If a failure, lazily logs the result of `f` as information.
    fn log_info_with<F: FnOnce(&E) -> D, D: Displayable>(
        self,
        sink: &mut Dispatcher,
        f: F,
    ) -> (out: Result<T, E>)
        requires
            calls_producer(self.outcome(), *old(sink)) ==> (self.outcome() matches Err(e)
                && f.requires((&e,))),
        ensures
            out == self.outcome(),
            failure_logged_with(self.outcome(), f, *old(sink), *final(sink), Severity::Info),
    ;

    /// If a failure, lazily logs the result of `f` as a debugging message.
    fn log_debug_with<F: FnOnce(&E) -> D, D: Displayable>(
        self,
        sink: &mut Dispatcher,
        f: F,
    ) -> (out: Result<T, E>)
        requires
            calls_producer(self.outcome(), *old(sink)) ==> (self.outcome() matches Err(e)
                && f.requires((&e,))),
        ensures
            out == self.outcome(),
            failure_logged_with(self.outcome(), f, *old(sink), *final(sink), Severity::Debug),
    ;

    /// If a failure, lazily logs the result of `f` as a trace message.
    fn log_trace_with<F: FnOnce(&E) -> D, D: Displayable>(
        self,
        sink: &mut Dispatcher,
        f: F,
    ) -> (out: Result<T, E>)
        requires
            calls_producer(self.outcome(), *old(sink)) ==> (self.outcome() matches Err(e)
                && f.requires((&e,))),
        ensures
            out == self.outcome(),
            failure_logged_with(self.outcome(), f, *old(sink), *final(sink), Severity::Trace),
    ;
}

impl<T, E> ErrContext<T, E> for Result<T, E> {
    open spec fn outcome(self) -> Result<T, E> {
        self
    }

    fn log_error(self, sink: &mut Dispatcher) -> (out: Result<T, E>) where E: Displayable {
        log_failure(self, sink, Severity::Error)
    }

    fn log_warn(self, sink: &mut Dispatcher) -> (out: Result<T, E>) where E: Displayable {
        log_failure(self, sink, Severity::Warn)
    }

    fn log_info(self, sink: &mut Dispatcher) -> (out: Result<T, E>) where E: Displayable {
        log_failure(self, sink, Severity::Info)
    }

    fn log_debug(self, sink: &mut Dispatcher) -> (out: Result<T, E>) where E: Displayable {
        log_failure(self, sink, Severity::Debug)
    }

    fn log_trace(self, sink: &mut Dispatcher) -> (out: Result<T, E>) where E: Displayable {
        log_failure(self, sink, Severity::Trace)
    }

    fn log_error_msg<M: Displayable>(self, sink: &mut Dispatcher, msg: M) -> (out: Result<T, E>) {
        log_failure_msg(self, sink, Severity::Error, msg)
    }

    fn log_warn_msg<M: Displayable>(self, sink: &mut Dispatcher, msg: M) -> (out: Result<T, E>) {
        log_failure_msg(self, sink, Severity::Warn, msg)
    }

    fn log_info_msg<M: Displayable>(self, sink: &mut Dispatcher, msg: M) -> (out: Result<T, E>) {
        log_failure_msg(self, sink, Severity::Info, msg)
    }

    fn log_debug_msg<M: Displayable>(self, sink: &mut Dispatcher, msg: M) -> (out: Result<T, E>) {
        log_failure_msg(self, sink, Severity::Debug, msg)
    }

    fn log_trace_msg<M: Displayable>(self, sink: &mut Dispatcher, msg: M) -> (out: Result<T, E>) {
        log_failure_msg(self, sink, Severity::Trace, msg)
    }

    fn log_error_with<F: FnOnce(&E) -> D, D: Displayable>(
        self,
        sink: &mut Dispatcher,
        f: F,
    ) -> (out: Result<T, E>) {
        log_failure_with(self, sink, Severity::Error, f)
    }

    fn log_warn_with<F: FnOnce(&E) -> D, D: Displayable>(
        self,
        sink: &mut Dispatcher,
        f: F,
    ) -> (out: Result<T, E>) {
        log_failure_with(self, sink, Severity::Warn, f)
    }

    fn log_info_with<F: FnOnce(&E) -> D, D: Displayable>(
        self,
        sink: &mut Dispatcher,
        f: F,
    ) -> (out: Result<T, E>) {
        log_failure_with(self, sink, Severity::Info, f)
    }

    fn log_debug_with<F: FnOnce(&E) -> D, D: Displayable>(
        self,
        sink: &mut Dispatcher,
        f: F,
    ) -> (out: Result<T, E>) {
        log_failure_with(self, sink, Severity::Debug, f)
    }

    fn log_trace_with<F: FnOnce(&E) -> D, D: Displayable>(
        self,
        sink: &mut Dispatcher,
        f: F,
    ) -> (out: Result<T, E>) {
        log_failure_with(self, sink, Severity::Trace, f)
    }
}

} // verus!
