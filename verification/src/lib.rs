//! A simulated Raspberry Pi GPIO register bank.
//!
//! Two cooperating processes share one in-memory model of the GPIO
//! registers: a client shim exposing the familiar pin API, and a broker
//! that renders the bank and simulated peripherals (LEDs, buttons) and
//! injects user input back into it.  This crate holds the verified core:
//! the register bank with its bit-level and hex-codec contracts, the
//! pin-level access rules, the interrupt-detection engine, the
//! create-or-open protocol for the shared segment, and the declarative
//! board model.  Process plumbing (shared memory, terminals, timers)
//! lives outside the crate and hands plain values in and out.

use vstd::prelude::*;

pub mod board;
pub mod board_manager;
pub mod broker;
pub mod button;
pub mod color;
pub mod doc;
pub mod gpioregs;
pub mod hex;
pub mod help;
pub mod interrupt;
pub mod keys;
pub mod layout;
pub mod led;
pub mod part;
pub mod pin_api;
pub mod shared_bank;
pub mod strutil;

verus! {

/// Pin mode argument: configure a pin as an input.
pub const INPUT: u8 = 0;

/// Pin mode argument: configure a pin as an output.
pub const OUTPUT: u8 = 1;

/// Pin mode argument: accepted like `OUTPUT`; no waveform is generated.
pub const PWM_OUTPUT: u8 = 2;

/// Logic level low.
pub const LOW: u8 = 0;

/// Logic level high.
pub const HIGH: u8 = 1;

/// Interrupt mode: fire while the pin level is low.
pub const INT_EDGE_SETUP: u8 = 0;

/// Interrupt mode: fire on a falling edge.
pub const INT_EDGE_FALLING: u8 = 1;

/// Interrupt mode: fire on a rising edge.
pub const INT_EDGE_RISING: u8 = 2;

/// Interrupt mode: fire on any logical change.
pub const INT_EDGE_BOTH: u8 = 3;

/// Smallest user-addressable pin number.
pub const MIN_PIN_NUM: u8 = 2;

/// Largest user-addressable pin number.
pub const MAX_PIN_NUM: u8 = 27;

} // verus!
