//! Verified core of a binding layer between futures-based callers and a
//! native, single-threaded browser engine.
//!
//! The native engine is reached only through opaque references and opaque
//! tokens. This crate holds what decides: the handle types, the dispatch
//! table that turns a token back into exactly one unit of work, the table of
//! spawned tasks that keeps one poll in flight at a time, the single-slot
//! result channel that brings a value back, the window lifecycle, and the
//! interpretation of the engine's JavaScript and navigation results.
pub mod bridge;
pub mod browser;
pub mod dispatch;
pub mod handle;
pub mod pending;
pub mod task;
pub mod window;
