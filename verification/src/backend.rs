//! The backend categories a message can be forwarded to, and sets of them.

use vstd::prelude::*;

verus! {

/// One category of logging backend.
///
/// The categories are independent sinks: a program may forward to none of
/// them, to one, or to several at once.
#[derive(Clone, Copy, Debug, PartialEq, Eq, Structural)]
pub enum Backend {
    /// A structured tracing subsystem.
    Tracing,
    /// A leveled text logger.
    Log,
    /// The formatted log of an embedded device.
    Defmt,
}

/// The set of backend categories that a dispatcher forwards to.
#[derive(Clone, Copy, Debug, PartialEq, Eq, Structural)]
pub struct Backends {
    pub tracing: bool,
    pub log: bool,
    pub defmt: bool,
}

impl Backends {
    /// Whether `backend` is a member of the set.
    pub open spec fn has(self, backend: Backend) -> bool {
        match backend {
            Backend::Tracing => self.tracing,
            Backend::Log => self.log,
            Backend::Defmt => self.defmt,
        }
    }

    /// Whether the set has at least one member.
    pub open spec fn any(self) -> bool {
        self.tracing || self.log || self.defmt
    }

    /// The number of members.
    pub open spec fn count(self) -> nat {
        let tracing: nat = if self.tracing { 1 } else { 0 };
        let log: nat = if self.log { 1 } else { 0 };
        let defmt: nat = if self.defmt { 1 } else { 0 };
        tracing + log + defmt
    }

    /// The empty set: nothing is forwarded anywhere.
    pub fn none() -> (set: Backends)
        ensures
            set == (Backends { tracing: false, log: false, defmt: false }),
    {
        Backends { tracing: false, log: false, defmt: false }
    }

    /// The set of all three categories.
    pub fn all() -> (set: Backends)
        ensures
            set == (Backends { tracing: true, log: true, defmt: true }),
    {
        Backends { tracing: true, log: true, defmt: true }
    }

    /// The set that holds `backend` and nothing else.
    pub open spec fn single(backend: Backend) -> Backends {
        Backends {
            tracing: backend == Backend::Tracing,
            log: backend == Backend::Log,
            defmt: backend == Backend::Defmt,
        }
    }

    /// This set with `backend` added.
    pub open spec fn including(self, backend: Backend) -> Backends {
        Backends {
            tracing: self.tracing || backend == Backend::Tracing,
            log: self.log || backend == Backend::Log,
            defmt: self.defmt || backend == Backend::Defmt,
        }
    }

    /// The set that holds `backend` and nothing else.
    pub fn only(backend: Backend) -> (set: Backends)
        ensures
            set == Backends::single(backend),
    {
        Backends::none().with(backend)
    }

    /// This set with `backend` added.
    pub fn with(self, backend: Backend) -> (set: Backends)
        ensures
            set == self.including(backend),
    {
        match backend {
            Backend::Tracing => Backends { tracing: true, log: self.log, defmt: self.defmt },
            Backend::Log => Backends { tracing: self.tracing, log: true, defmt: self.defmt },
            Backend::Defmt => Backends { tracing: self.tracing, log: self.log, defmt: true },
        }
    }

    /// Whether `backend` is a member of the set.
    pub fn contains(&self, backend: Backend) -> (found: bool)
        ensures
            found == self.has(backend),
    {
        match backend {
            Backend::Tracing => self.tracing,
            Backend::Log => self.log,
            Backend::Defmt => self.defmt,
        }
    }

    /// Whether the set has no member.
    pub fn is_empty(&self) -> (empty: bool)
        ensures
            empty == !self.any(),
    {
        !self.tracing && !self.log && !self.defmt
    }
}

} // verus!
