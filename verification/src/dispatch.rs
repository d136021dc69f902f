//! Forwarding of a finished message to every enabled backend category.
//!
//! A `Dispatcher` does no output of its own. It decides which backend
//! categories receive a message and at which severity, and queues one
//! delivery for each; the host program takes the queue and performs the
//! deliveries.

use vstd::prelude::*;
use crate::backend::{Backend, Backends};
use crate::severity::Severity;

verus! {

/// One message on its way to one backend category.
#[derive(Debug, PartialEq, Eq)]
pub struct Delivery {
    pub backend: Backend,
    pub severity: Severity,
    pub text: String,
}

/// The mathematical value of a `Delivery`.
pub struct DeliveryView {
    pub backend: Backend,
    pub severity: Severity,
    pub text: Seq<char>,
}

impl View for Delivery {
    type V = DeliveryView;

    open spec fn view(&self) -> DeliveryView {
        DeliveryView { backend: self.backend, severity: self.severity, text: self.text@ }
    }
}

/// The values of a sequence of deliveries, in order.
pub open spec fn views(deliveries: Seq<Delivery>) -> Seq<DeliveryView> {
    deliveries.map_values(|d: Delivery| d@)
}

/// What one backend category receives of a message: the message if the
/// category is enabled, nothing otherwise.
pub open spec fn to_backend(
    enabled: bool,
    backend: Backend,
    severity: Severity,
    text: Seq<char>,
) -> Seq<DeliveryView> {
    if enabled {
        seq![DeliveryView { backend, severity, text }]
    } else {
        Seq::empty()
    }
}

/// The deliveries that one message at `severity` gives rise to: one for each
/// member of `backends`, each with the same severity and text.
pub open spec fn fan_out(
    backends: Backends,
    severity: Severity,
    text: Seq<char>,
) -> Seq<DeliveryView> {
    to_backend(backends.tracing, Backend::Tracing, severity, text) + to_backend(
        backends.log,
        Backend::Log,
        severity,
        text,
    ) + to_backend(backends.defmt, Backend::Defmt, severity, text)
}

/// The test for a delivery that goes to `backend` at `severity`.
pub open spec fn addressed_to(backend: Backend, severity: Severity) -> spec_fn(
    DeliveryView,
) -> bool {
    |d: DeliveryView| d.backend == backend && d.severity == severity
}

/// The function that gives a delivery's text.
pub open spec fn text_of() -> spec_fn(DeliveryView) -> Seq<char> {
    |d: DeliveryView| d.text
}

/// The record of `backend` at `severity`: the texts of the deliveries that
/// go to that category at that severity, in order.
pub open spec fn record_of(
    deliveries: Seq<DeliveryView>,
    backend: Backend,
    severity: Severity,
) -> Seq<Seq<char>> {
    deliveries.filter(addressed_to(backend, severity)).map_values(text_of())
}

/// The values of a sequence of strings, in order.
pub open spec fn texts_of(strings: Seq<String>) -> Seq<Seq<char>> {
    strings.map_values(|s: String| s@)
}

/// Forwards finished messages to a fixed set of backend categories.
#[derive(Debug)]
pub struct Dispatcher {
    backends: Backends,
    outbox: Vec<Delivery>,
}

impl Dispatcher {
    /// The backend categories this dispatcher forwards to.
    pub closed spec fn backends(&self) -> Backends {
        self.backends
    }

    /// The deliveries queued so far and not yet taken, oldest first.
    pub closed spec fn pending(&self) -> Seq<DeliveryView> {
        views(self.outbox@)
    }

    /// Whether `self` is `before` after one more message: the same backend
    /// categories, and behind what was queued one delivery of `text` at
    /// `severity` for each of them.
    pub open spec fn received(
        &self,
        before: Dispatcher,
        severity: Severity,
        text: Seq<char>,
    ) -> bool {
        &&& self.backends() == before.backends()
        &&& self.pending() == before.pending() + fan_out(before.backends(), severity, text)
    }

    /// A dispatcher that forwards to `backends`, with nothing queued.
    pub fn new(backends: Backends) -> (dispatcher: Dispatcher)
        ensures
            dispatcher.backends() == backends,
            dispatcher.pending() == Seq::<DeliveryView>::empty(),
    {
        let dispatcher = Dispatcher { backends, outbox: Vec::new() };
        dispatcher
    }

    /// The backend categories this dispatcher forwards to.
    pub fn enabled(&self) -> (backends: Backends)
        ensures
            backends == self.backends(),
    {
        self.backends
    }

    /// Whether no backend category is enabled, so that nothing is ever queued.
    pub fn is_silent(&self) -> (silent: bool)
        ensures
            silent == !self.backends().any(),
    {
        self.backends.is_empty()
    }

    /// Queues `text` at `severity` for `backend` if `enabled`.
    fn deliver(&mut self, enabled: bool, backend: Backend, severity: Severity, text: &str)
        ensures
            final(self).backends() == old(self).backends(),
            final(self).pending() == old(self).pending() + to_backend(
                enabled,
                backend,
                severity,
                text@,
            ),
    {
        if enabled {
            self.outbox.push(Delivery { backend, severity, text: text.to_owned() });
        }
        assert(self.pending() =~= old(self).pending() + to_backend(
            enabled,
            backend,
            severity,
            text@,
        ));
    }

    /// Forwards `text` at `severity` to every enabled backend category.
    pub fn emit(&mut self, severity: Severity, text: &str)
        ensures
            final(self).received(*old(self), severity, text@),
    {
        let backends = self.backends;
        self.deliver(backends.tracing, Backend::Tracing, severity, text);
        self.deliver(backends.log, Backend::Log, severity, text);
        self.deliver(backends.defmt, Backend::Defmt, severity, text);
        assert(self.pending() =~= old(self).pending() + fan_out(backends, severity, text@));
    }

    /// Forwards `text` as an error.
    pub fn error(&mut self, text: &str)
        ensures
            final(self).received(*old(self), Severity::Error, text@),
    {
        self.emit(Severity::Error, text)
    }

    /// Forwards `text` as a warning.
    pub fn warn(&mut self, text: &str)
        ensures
            final(self).received(*old(self), Severity::Warn, text@),
    {
        self.emit(Severity::Warn, text)
    }

    /// Forwards `text` as information.
    pub fn info(&mut self, text: &str)
        ensures
            final(self).received(*old(self), Severity::Info, text@),
    {
        self.emit(Severity::Info, text)
    }

    /// Forwards `text` as a debugging message.
    pub fn debug(&mut self, text: &str)
        ensures
            final(self).received(*old(self), Severity::Debug, text@),
    {
        self.emit(Severity::Debug, text)
    }

    /// Forwards `text` as a trace message.
    pub fn trace(&mut self, text: &str)
        ensures
            final(self).received(*old(self), Severity::Trace, text@),
    {
        self.emit(Severity::Trace, text)
    }

    /// The queued deliveries, oldest first, left in place.
    pub fn queued(&self) -> (deliveries: &Vec<Delivery>)
        ensures
            views(deliveries@) == self.pending(),
    {
        &self.outbox
    }

    /// The record of `backend` at `severity` among the queued deliveries.
    pub fn record(&self, backend: Backend, severity: Severity) -> (texts: Vec<String>)
        ensures
            texts_of(texts@) == record_of(self.pending(), backend, severity),
    {
        let mut texts: Vec<String> = Vec::new();
        let mut i: usize = 0;
        proof {
            lemma_record_of_empty(backend, severity);
            assert(views(self.outbox@.take(0)) =~= Seq::<DeliveryView>::empty());
        }
        while i < self.outbox.len()
            invariant
                i <= self.outbox.len(),
                texts_of(texts@) == record_of(
                    views(self.outbox@.take(i as int)),
                    backend,
                    severity,
                ),
            decreases self.outbox.len() - i,
        {
            let delivery = &self.outbox[i];
            proof {
                let seen = self.outbox@.take(i as int);
                assert(self.outbox@.take(i + 1) =~= seen.push(*delivery));
                assert(views(seen.push(*delivery)) =~= views(seen).push(delivery@));
                lemma_record_of_push(views(seen), delivery@, backend, severity);
            }
            if delivery.backend == backend && delivery.severity == severity {
                texts.push(delivery.text.clone());
            }
            i += 1;
        }
        assert(self.outbox@.take(i as int) =~= self.outbox@);
        texts
    }

    /// Hands the queued deliveries to the caller, oldest first, and leaves
    /// the queue empty.
    pub fn take(&mut self) -> (deliveries: Vec<Delivery>)
        ensures
            views(deliveries@) == old(self).pending(),
            final(self).pending() == Seq::<DeliveryView>::empty(),
            final(self).backends() == old(self).backends(),
    {
        let mut deliveries: Vec<Delivery> = Vec::new();
        core::mem::swap(&mut self.outbox, &mut deliveries);
        deliveries
    }
}

/// Nothing is on record where nothing was delivered.
proof fn lemma_record_of_empty(backend: Backend, severity: Severity)
    ensures
        record_of(Seq::<DeliveryView>::empty(), backend, severity) == Seq::<Seq<char>>::empty(),
{
    reveal(Seq::filter);
    let found = record_of(Seq::<DeliveryView>::empty(), backend, severity);
    assert(found =~= Seq::<Seq<char>>::empty());
}

/// One more delivery adds its text to the record it is addressed to, and
/// leaves every other record as it was.
proof fn lemma_record_of_push(
    deliveries: Seq<DeliveryView>,
    delivery: DeliveryView,
    backend: Backend,
    severity: Severity,
)
    ensures
        record_of(deliveries.push(delivery), backend, severity) == if delivery.backend
            == backend && delivery.severity == severity {
            record_of(deliveries, backend, severity).push(delivery.text)
        } else {
            record_of(deliveries, backend, severity)
        },
{
    let wanted = addressed_to(backend, severity);
    let kept = deliveries.filter(wanted);
    deliveries.lemma_filter_push(delivery, wanted);
    if wanted(delivery) {
        assert(kept.push(delivery).map_values(text_of()) =~= kept.map_values(text_of()).push(
            delivery.text,
        ));
    }
}

/// The record of two runs of deliveries, one after the other, is the record
/// of the first followed by the record of the second.
proof fn lemma_record_of_add(
    first: Seq<DeliveryView>,
    second: Seq<DeliveryView>,
    backend: Backend,
    severity: Severity,
)
    ensures
        record_of(first + second, backend, severity) == record_of(first, backend, severity)
            + record_of(second, backend, severity),
{
    let wanted = addressed_to(backend, severity);
    let kept_first = first.filter(wanted);
    let kept_second = second.filter(wanted);
    Seq::filter_distributes_over_add(first, second, wanted);
    assert((kept_first + kept_second).map_values(text_of()) =~= kept_first.map_values(text_of())
        + kept_second.map_values(text_of()));
}

/// What one category receives of a message is on its record at the
/// message's severity, and on no other record.
proof fn lemma_record_of_to_backend(
    enabled: bool,
    target: Backend,
    at: Severity,
    text: Seq<char>,
    backend: Backend,
    severity: Severity,
)
    ensures
        record_of(to_backend(enabled, target, at, text), backend, severity) == if enabled
            && target == backend && at == severity {
            seq![text]
        } else {
            Seq::<Seq<char>>::empty()
        },
{
    let nothing = Seq::<DeliveryView>::empty();
    lemma_record_of_empty(backend, severity);
    if enabled {
        let delivery = DeliveryView { backend: target, severity: at, text };
        assert(to_backend(enabled, target, at, text) =~= nothing.push(delivery));
        lemma_record_of_push(nothing, delivery, backend, severity);
        assert(Seq::<Seq<char>>::empty().push(text) =~= seq![text]);
    }
}

/// One message reaches every enabled backend category exactly once, at its
/// own severity and with its own text, and reaches nothing else: the record
/// of `backend` at `severity` holds the text alone if the category is
/// enabled and `severity` is the message's, and is empty otherwise.
pub proof fn lemma_fan_out_record(
    backends: Backends,
    at: Severity,
    text: Seq<char>,
    backend: Backend,
    severity: Severity,
)
    ensures
        record_of(fan_out(backends, at, text), backend, severity) == if backends.has(backend)
            && at == severity {
            seq![text]
        } else {
            Seq::<Seq<char>>::empty()
        },
{
    let tracing = to_backend(backends.tracing, Backend::Tracing, at, text);
    let log = to_backend(backends.log, Backend::Log, at, text);
    let defmt = to_backend(backends.defmt, Backend::Defmt, at, text);
    lemma_record_of_add(tracing + log, defmt, backend, severity);
    lemma_record_of_add(tracing, log, backend, severity);
    lemma_record_of_to_backend(backends.tracing, Backend::Tracing, at, text, backend, severity);
    lemma_record_of_to_backend(backends.log, Backend::Log, at, text, backend, severity);
    lemma_record_of_to_backend(backends.defmt, Backend::Defmt, at, text, backend, severity);
    let found = record_of(tracing, backend, severity) + record_of(log, backend, severity)
        + record_of(defmt, backend, severity);
    assert(found =~= if backends.has(backend) && at == severity {
        seq![text]
    } else {
        Seq::<Seq<char>>::empty()
    });
}

/// One message gives rise to as many deliveries as there are enabled backend
/// categories, and each of them carries the message's severity and text.
pub proof fn lemma_fan_out_deliveries(backends: Backends, severity: Severity, text: Seq<char>)
    ensures
        fan_out(backends, severity, text).len() == backends.count(),
        forall|i: int|
            0 <= i < fan_out(backends, severity, text).len() ==> {
                let delivery = #[trigger] fan_out(backends, severity, text)[i];
                &&& backends.has(delivery.backend)
                &&& delivery.severity == severity
                &&& delivery.text == text
            },
{
}

/// Severity routing: after a dispatcher has received a message at `at`, the
/// record of every enabled backend category at that severity ends with the
/// message's text, and every other record is what it was before.
pub proof fn lemma_received_record(
    before: Dispatcher,
    after: Dispatcher,
    at: Severity,
    text: Seq<char>,
    backend: Backend,
    severity: Severity,
)
    requires
        after.received(before, at, text),
    ensures
        record_of(after.pending(), backend, severity) == if before.backends().has(backend)
            && at == severity {
            record_of(before.pending(), backend, severity).push(text)
        } else {
            record_of(before.pending(), backend, severity)
        },
{
    let earlier = record_of(before.pending(), backend, severity);
    lemma_record_of_add(before.pending(), fan_out(before.backends(), at, text), backend, severity);
    lemma_fan_out_record(before.backends(), at, text, backend, severity);
    assert(earlier + seq![text] =~= earlier.push(text));
    assert(earlier + Seq::<Seq<char>>::empty() =~= earlier);
}

} // verus!
