//! Safe, verified layer over an operating system's mandatory-access-control
//! security-label interface.
//!
//! The library models a security context as a value type ([`Context`]) with a
//! colon-delimited string codec, keeps a byte-exact raw form ([`SCon`]) for
//! call sites that must round-trip the native representation untouched, maps
//! native status and OS error codes into a structured error taxonomy
//! ([`Error`]), and drives the access-decision cache through an explicit
//! lifecycle state machine ([`Avc`]).
//!
//! The native calls themselves happen outside this crate; every function here
//! is pure computation over plain values and carries a verified contract.

pub mod avc;
pub mod context;
pub mod error;
pub mod scon;
pub mod utils;

pub use avc::Avc;
pub use avc::AvcState;
pub use context::Context;
pub use context::ContextBuilder;
pub use error::Error;
pub use scon::SCon;
