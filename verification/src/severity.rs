//! The five severities a message can be logged at.

use vstd::prelude::*;

verus! {

/// How severe a logged message is, from most to least.
#[derive(Clone, Copy, Debug, PartialEq, Eq, Structural)]
pub enum Severity {
    Error,
    Warn,
    Info,
    Debug,
    Trace,
}

} // verus!
