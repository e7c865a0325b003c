//! The core of a binding between a native audio engine and a managed host runtime.
//!
//! The engine calls back from threads of its own, which may not run host code, and it
//! hands out bare addresses that it reuses. This library holds the two pieces of logic
//! that make such a binding sound: the callback bridge (`callback`), which brings
//! every call from an engine thread onto one host thread, and the handle registry
//! (`extern_struct_storage`), which keeps one wrapper for each engine object.
pub mod callback;
pub mod channel_control;
pub mod convert;
pub mod error;
pub mod extern_struct_storage;

pub use convert::{FromRuby, IntoRuby};
