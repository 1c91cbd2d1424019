//! A safe call boundary around an embedded scripting engine.
//!
//! The crate bridges values between the host's representation and the
//! engine's dynamic values, manages long-lived engine state (engines,
//! variable scopes, compiled programs) behind lock-protected handles,
//! and folds every engine failure into a closed taxonomy of error kinds.

pub mod ast;
pub mod bridge;
pub mod cell;
pub mod convert;
pub mod engine;
pub mod error;
pub mod raw;
pub mod scope;
pub mod value;
