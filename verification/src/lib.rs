//! Binding and handshake engine for the Odroid Show2, a USB
//! peripheral that displays text fed over bulk transfers.
//!
//! The engine is pure and fully verified: it matches a device by
//! vendor/product identifier over enumerated descriptors
//! ([`matcher`]), chooses the interface to claim and resolves its
//! bulk endpoints ([`session`], [`endpoints`]), and drives the
//! request/acknowledge handshake that must precede a payload
//! ([`protocol`]). The bulk transfers themselves — and every other
//! piece of I/O — belong to the embedding program, which performs
//! each transfer the engine prescribes and reports the outcome back
//! for judgment.

use vstd::prelude::*;

pub mod descriptor;
pub mod endpoints;
pub mod error;
pub mod matcher;
pub mod protocol;
pub mod session;

verus! {

/// Single-byte marker the Show2 wire protocol uses to signal
/// "request accepted", in both directions.
pub const ACKNOWLEDGE_BYTE: u8 = 0x06;

} // verus!
