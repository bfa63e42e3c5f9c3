//! A typed, verified layer over an on-screen-display windowing session.
//!
//! The native windowing library draws text, percentage bars and sliders in
//! an unmanaged transparent window. This crate holds everything around that
//! drawing that can be stated and checked: the validation of bounded
//! numeric inputs, the session's state machine, and the translation of the
//! native library's raw results into typed ones. The raw calls themselves
//! live with the driver that owns the native handle; they hand this library
//! plain values and take plain values back.

pub mod align;
pub mod command;
pub mod error;
pub mod native;
pub mod session;

pub use align::HorizontalAlign;
pub use align::VerticalAlign;
pub use command::Command;
pub use error::Error;
pub use session::Xosd;
