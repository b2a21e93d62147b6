//! A safe facade over a webview handle: who owns the handle, who merely
//! observes it, and which engine calls each operation turns into.
//!
//! The library decides; the embedding program carries out. Every operation
//! returns the engine calls it stands for as plain values, so that nothing
//! here touches a foreign handle.

pub mod bridge;
pub mod error;
pub mod owners;
pub mod script;
pub mod text;
pub mod webview;

pub use error::Error;
pub use webview::{SizeHint, Window};
