//! Logging on the absent branch of an `Option`.
//!
//! Every operation hands the container back as it came. If the container
//! holds nothing, one message goes to the dispatcher at the chosen severity;
//! if it holds a value, nothing happens, and a producer that was passed is
//! not called.

use vstd::prelude::*;
use crate::backend::Backend;
use crate::dispatch::{lemma_received_record, record_of, Dispatcher};
use crate::displayable::Displayable;
use crate::sealed::Sealed;
use crate::severity::Severity;

verus! {

/// What an operation that logs a finished `text` leaves behind: if
/// `presence` holds nothing and a backend category is enabled, `after` is
/// `before` with that one message received at `severity`; in every other
/// case `after` is `before`.
pub open spec fn absence_logged<T>(
    presence: Option<T>,
    before: Dispatcher,
    after: Dispatcher,
    severity: Severity,
    text: Seq<char>,
) -> bool {
    if presence is None && before.backends().any() {
        after.received(before, severity, text)
    } else {
        after == before
    }
}

/// Whether an operation on `presence` calls its producer: only if nothing is
/// held, and only if a backend category is enabled to receive the result.
pub open spec fn calls_producer<T>(presence: Option<T>, sink: Dispatcher) -> bool {
    presence is None && sink.backends().any()
}

/// What an operation that logs a produced message leaves behind: if the
/// producer is called, `after` is `before` with one message received at
/// `severity`, whose text is the rendering of a value that `f` returns;
/// otherwise `after` is `before`.
pub open spec fn absence_logged_with<T, F: FnOnce() -> D, D: Displayable>(
    presence: Option<T>,
    f: F,
    before: Dispatcher,
    after: Dispatcher,
    severity: Severity,
) -> bool {
    if calls_producer(presence, before) {
        exists|d: D| f.ensures((), d) && after.received(before, severity, d.text())
    } else {
        after == before
    }
}

/// If `presence` holds nothing, logs `msg` at `severity`.
pub fn log_absence_msg<T, M: Displayable>(
    presence: Option<T>,
    sink: &mut Dispatcher,
    severity: Severity,
    msg: M,
) -> (out: Option<T>)
    ensures
        out == presence,
        absence_logged(presence, *old(sink), *final(sink), severity, msg.text()),
{
    if presence.is_none() && !sink.is_silent() {
        let text = msg.render();
        sink.emit(severity, text.as_str());
    }
    presence
}

/// If `presence` holds nothing, calls `f` and logs what it returns at
/// `severity`.
///
/// `f` is taken by value and can be called once at most. Its precondition is
/// owed only where it is called, so for a value that is present, and where no
/// backend category is enabled, any `f` may be passed and none is called.
pub fn log_absence_with<T, F: FnOnce() -> D, D: Displayable>(
    presence: Option<T>,
    sink: &mut Dispatcher,
    severity: Severity,
    f: F,
) -> (out: Option<T>)
    requires
        calls_producer(presence, *old(sink)) ==> f.requires(()),
    ensures
        out == presence,
        absence_logged_with(presence, f, *old(sink), *final(sink), severity),
{
    if presence.is_none() && !sink.is_silent() {
        let context = f();
        let text = context.render();
        sink.emit(severity, text.as_str());
    }
    presence
}

/// A finished message that is logged for an absent value ends the record of
/// every enabled backend category at the chosen severity. It appears on no
/// other record, and for a value that is present no record changes.
pub proof fn lemma_absence_logged_record<T>(
    presence: Option<T>,
    before: Dispatcher,
    after: Dispatcher,
    at: Severity,
    text: Seq<char>,
    backend: Backend,
    severity: Severity,
)
    requires
        absence_logged(presence, before, after, at, text),
    ensures
        record_of(after.pending(), backend, severity) == if presence is None
            && before.backends().has(backend) && at == severity {
            record_of(before.pending(), backend, severity).push(text)
        } else {
            record_of(before.pending(), backend, severity)
        },
{
    if presence is None && before.backends().any() {
        lemma_received_record(before, after, at, text, backend, severity);
    }
}

/// After an operation with a producer on an absent value, the record of every
/// enabled backend category at the chosen severity ends with the rendering of
/// one value that the producer returns. Every other record, and for a value
/// that is present every record, is what it was before.
pub proof fn lemma_absence_logged_with_record<T, F: FnOnce() -> D, D: Displayable>(
    presence: Option<T>,
    f: F,
    before: Dispatcher,
    after: Dispatcher,
    at: Severity,
    backend: Backend,
    severity: Severity,
)
    requires
        absence_logged_with(presence, f, before, after, at),
    ensures
        if presence is None && before.backends().has(backend) && at == severity {
            exists|d: D|
                f.ensures((), d) && record_of(after.pending(), backend, severity) == record_of(
                    before.pending(),
                    backend,
                    severity,
                ).push(d.text())
        } else {
            record_of(after.pending(), backend, severity) == record_of(
                before.pending(),
                backend,
                severity,
            )
        },
{
    if calls_producer(presence, before) {
        let d = choose|d: D| f.ensures((), d) && after.received(before, at, d.text());
        lemma_received_record(before, after, at, d.text(), backend, severity);
    }
}

/// For logging an `Option` when it holds nothing.
pub trait NoneContext<T>: Sealed + Sized {
    /// The container, as the `Option` it is.
    spec fn presence(self) -> Option<T>;

    /// If `None`, logs `context` as an error.
    fn log_error_msg<M: Displayable>(self, sink: &mut Dispatcher, context: M) -> (out: Option<T>)
        ensures
            out == self.presence(),
            absence_logged(
                self.presence(),
                *old(sink),
                *final(sink),
                Severity::Error,
                context.text(),
            ),
    ;

    /// If `None`, logs `context` as a warning.
    fn log_warn_msg<M: Displayable>(self, sink: &mut Dispatcher, context: M) -> (out: Option<T>)
        ensures
            out == self.presence(),
            absence_logged(
                self.presence(),
                *old(sink),
                *final(sink),
                Severity::Warn,
                context.text(),
            ),
    ;

    /// If `None`, logs `context` as information.
    fn log_info_msg<M: Displayable>(self, sink: &mut Dispatcher, context: M) -> (out: Option<T>)
        ensures
            out == self.presence(),
            absence_logged(
                self.presence(),
                *old(sink),
                *final(sink),
                Severity::Info,
                context.text(),
            ),
    ;

    /// If `None`, logs `context` as a debugging message.
    fn log_debug_msg<M: Displayable>(self, sink: &mut Dispatcher, context: M) -> (out: Option<T>)
        ensures
            out == self.presence(),
            absence_logged(
                self.presence(),
                *old(sink),
                *final(sink),
                Severity::Debug,
                context.text(),
            ),
    ;

    /// If `None`, logs `context` as a trace message.
    fn log_trace_msg<M: Displayable>(self, sink: &mut Dispatcher, context: M) -> (out: Option<T>)
        ensures
            out == self.presence(),
            absence_logged(
                self.presence(),
                *old(sink),
                *final(sink),
                Severity::Trace,
                context.text(),
            ),
    ;

    /// If `None`, lazily logs the result of `f` as an error.
    fn log_error_with<F: FnOnce() -> D, D: Displayable>(self, sink: &mut Dispatcher, f: F) -> (out:
        Option<T>)
        requires
            calls_producer(self.presence(), *old(sink)) ==> f.requires(()),
        ensures
            out == self.presence(),
            absence_logged_with(self.presence(), f, *old(sink), *final(sink), Severity::Error),
    ;

    /// If `None`, lazily logs the result of `f` as a warning.
    fn log_warn_with<F: FnOnce() -> D, D: Displayable>(self, sink: &mut Dispatcher, f: F) -> (out:
        Option<T>)
        requires
            calls_producer(self.presence(), *old(sink)) ==> f.requires(()),
        ensures
            out == self.presence(),
            absence_logged_with(self.presence(), f, *old(sink), *final(sink), Severity::Warn),
    ;

    /// If `None`, lazily logs the result of `f` as information.
    fn log_info_with<F: FnOnce() -> D, D: Displayable>(self, sink: &mut Dispatcher, f: F) -> (out:
        Option<T>)
        requires
            calls_producer(self.presence(), *old(sink)) ==> f.requires(()),
        ensures
            out == self.presence(),
            absence_logged_with(self.presence(), f, *old(sink), *final(sink), Severity::Info),
    ;

    /// If `None`, lazily logs the result of `f` as a debugging message.
    fn log_debug_with<F: FnOnce() -> D, D: Displayable>(self, sink: &mut Dispatcher, f: F) -> (out:
        Option<T>)
        requires
            calls_producer(self.presence(), *old(sink)) ==> f.requires(()),
        ensures
            out == self.presence(),
            absence_logged_with(self.presence(), f, *old(sink), *final(sink), Severity::Debug),
    ;

    /// If `None`, lazily logs the result of `f` as a trace message.
    fn log_trace_with<F: FnOnce() -> D, D: Displayable>(self, sink: &mut Dispatcher, f: F) -> (out:
        Option<T>)
        requires
            calls_producer(self.presence(), *old(sink)) ==> f.requires(()),
        ensures
            out == self.presence(),
            absence_logged_with(self.presence(), f, *old(sink), *final(sink), Severity::Trace),
    ;
}

impl<T> NoneContext<T> for Option<T> {
    open spec fn presence(self) -> Option<T> {
        self
    }

    fn log_error_msg<M: Displayable>(self, sink: &mut Dispatcher, context: M) -> (out: Option<T>) {
        log_absence_msg(self, sink, Severity::Error, context)
    }

    fn log_warn_msg<M: Displayable>(self, sink: &mut Dispatcher, context: M) -> (out: Option<T>) {
        log_absence_msg(self, sink, Severity::Warn, context)
    }

    fn log_info_msg<M: Displayable>(self, sink: &mut Dispatcher, context: M) -> (out: Option<T>) {
        log_absence_msg(self, sink, Severity::Info, context)
    }

    fn log_debug_msg<M: Displayable>(self, sink: &mut Dispatcher, context: M) -> (out: Option<T>) {
        log_absence_msg(self, sink, Severity::Debug, context)
    }

    fn log_trace_msg<M: Displayable>(self, sink: &mut Dispatcher, context: M) -> (out: Option<T>) {
        log_absence_msg(self, sink, Severity::Trace, context)
    }

    fn log_error_with<F: FnOnce() -> D, D: Displayable>(self, sink: &mut Dispatcher, f: F) -> (out:
        Option<T>) {
        log_absence_with(self, sink, Severity::Error, f)
    }

    fn log_warn_with<F: FnOnce() -> D, D: Displayable>(self, sink: &mut Dispatcher, f: F) -> (out:
        Option<T>) {
        log_absence_with(self, sink, Severity::Warn, f)
    }

    fn log_info_with<F: FnOnce() -> D, D: Displayable>(self, sink: &mut Dispatcher, f: F) -> (out:
        Option<T>) {
        log_absence_with(self, sink, Severity::Info, f)
    }

    fn log_debug_with<F: FnOnce() -> D, D: Displayable>(self, sink: &mut Dispatcher, f: F) -> (out:
        Option<T>) {
        log_absence_with(self, sink, Severity::Debug, f)
    }

    fn log_trace_with<F: FnOnce() -> D, D: Displayable>(self, sink: &mut Dispatcher, f: F) -> (out:
        Option<T>) {
        log_absence_with(self, sink, Severity::Trace, f)
    }
}

} // verus!
