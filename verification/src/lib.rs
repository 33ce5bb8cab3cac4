//! Server-side rendering through an embedded script engine: the host's half.
//!
//! A render runs one script in an isolated environment of the engine. The
//! script hands its markup back by calling `proxy.setHtml(markup)`, and the
//! host reads it once the script has ended. This crate holds every decision
//! the host takes on the way: when the platform has to be set up, what the
//! bridge does with a call of `setHtml`, and what a finished run comes to.
//! The engine itself is driven from outside, and what it did comes in as
//! plain values.

pub mod bridge;
pub mod engine;
pub mod error;
pub mod laws;
pub mod platform;

pub use bridge::{set_html, Argument, ExecutionEnvironment, GlobalState};
pub use engine::{ReactSSR, ScriptRun};
pub use error::{Failure, RenderError};
pub use platform::{initialize, Platform};
