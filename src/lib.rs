//! Adapters that stack in front of a request-processing stage and mediate between the
//! caller's representation and the wrapped stage's: a direct conversion, a byte-stream bridge,
//! a typed-channel bridge, a per-call handler exchange and a shared injected handler.
//!
//! The adapters that suspend are written as exchanges: a step function from the outcome of the
//! last action to the next action, which a driver performs on a runtime of its choice.

use vstd::prelude::*;

pub mod error;
pub mod helper;
pub mod http_service;
pub mod pattern_basic;
pub mod pattern_chan;
pub mod pattern_handler;
pub mod pattern_injected;
pub mod pattern_io;

verus! {

} // verus!
