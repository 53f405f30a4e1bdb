//! A late-bound invocation bridge to an automation object.
//!
//! The library takes every decision of a call and leaves the system calls to
//! its caller:
//! - [`value`]: the tagged value exchanged with the object, and its explicit
//!   conversions;
//! - [`slots`]: caller-owned output slots that by-reference values point at;
//! - [`dispatch`]: the per-connection cache of resolved method identifiers;
//! - [`engine`]: the call state machine (resolve once, invoke with the
//!   arguments in wire order, report the result or a typed error);
//! - [`configurator`]: the write-once record of the configurator entry point;
//! - [`lifecycle`]: pairing of runtime initialization, connection and teardown.
use vstd::prelude::*;

pub mod configurator;
pub mod dispatch;
pub mod engine;
pub mod error;
pub mod lifecycle;
pub mod methods;
pub mod slots;
pub mod text;
pub mod value;

verus! {

} // verus!
