//! Outputs of a Windows event collector: which shared driver contexts a set of
//! subscriptions needs, what each output driver is built from, and how an
//! output describes itself.
//!
//! - [`settings`]: the settings that apply to every output.
//! - [`subscription`]: subscriptions, their outputs, and the configuration of
//!   each output driver.
//! - [`text`]: how a driver configuration is written out as text.
//! - [`output`]: the shared contexts and the outputs built on them.
//! - [`laws`]: what holds across calls.

pub mod laws;
pub mod output;
pub mod settings;
pub mod subscription;
pub mod text;
