//! Driver for the MCP454X/456X/464X/466X family of I2C digital potentiometers.
//!
//! The crate is organised leaves first: [`command`] packs the command byte,
//! [`tcon`] models the terminal control register as a set of flags,
//! [`wire`] states the framing of register writes and reads, [`bus`] is the
//! transport that the caller supplies, and [`device`] drives a device over
//! it.
#![allow(unused_imports)]

pub mod bus;
pub mod command;
pub mod device;
pub mod error;
pub mod tcon;
pub mod wire;

pub use bus::{Bus, Traced, Transaction};
pub use command::{Command, CommandView, Op, Regs};
pub use device::{verify_readback, Mcp4xxx};
pub use error::Mcp4xxxError;
pub use tcon::{Tcon, TconFlag};

use vstd::prelude::*;

verus! {

/// Bus address of a device whose three address pins are all tied low; set the
/// low three bits to match the pins of the part that is wired up.
pub const BASE_ADDR: u8 = 0b0101000;

} // verus!
