//! Verified core of a binding to the `libmagic` content-type detection engine.
//!
//! The engine itself is reached through a C interface and is no part of this
//! crate. What is here is everything around the calls: the flags that
//! configure an engine instance ([`flags`]), the text that crosses the
//! boundary in either direction ([`marshal`]), and the handle that decides what
//! the engine's answers mean ([`cookie`]).

pub mod cookie;
pub mod flags;
pub mod marshal;

pub use cookie::{Cookie, OpenFailure, QueryFailure};
