//! Embedded-friendly pieces of an Ockam node: an echo worker and a
//! minimal tracing subscriber whose output lines are computed here.

pub mod echoer;
pub mod tracing_subscriber;

pub use echoer::Echoer;
pub use tracing_subscriber::{setup_tracing, EmbeddedSubscriber, EmbeddedVisitor, TracingSetupError};
