//! Leveled logging for the unhappy branch of `Result` and `Option` values.
//!
//! The extension traits [`ErrContext`] and [`NoneContext`] add logging
//! operations to `Result` and `Option`. An operation hands its container back
//! unchanged; if the container is a failure, or holds nothing, it sends one
//! message at a chosen severity to a [`Dispatcher`], which queues a delivery
//! for every enabled backend category. The message is a fixed text, the
//! result of a producer that is called only when it is needed, or the error
//! payload's own text.
//!
//! The library performs no output. A host program takes the queued
//! deliveries from the dispatcher and hands each to its backend.

pub mod backend;
pub mod dispatch;
pub mod displayable;
pub mod err_context;
pub mod none_context;
mod sealed;
pub mod severity;
pub mod test_error;

pub use backend::{Backend, Backends};
pub use dispatch::{Delivery, Dispatcher};
pub use displayable::Displayable;
pub use err_context::ErrContext;
pub use none_context::NoneContext;
pub use severity::Severity;
pub use test_error::TestError;
