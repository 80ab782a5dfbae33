//! The pin-level access rules of the client API: direction
//! configuration, output writes and input reads, and interrupt
//! registration, each over the shared register bank.
//!
//! Pins outside `MIN_PIN_NUM ..= MAX_PIN_NUM` are reserved: write
//! operations on them leave the bank unchanged and reads return the
//! sentinel `0xFF`.

use vstd::prelude::*;
use crate::gpioregs::{RegMemory, bit_of, spec_write_pin};
use crate::{INPUT, OUTPUT, PWM_OUTPUT, INT_EDGE_BOTH, INT_EDGE_FALLING, INT_EDGE_RISING};
use crate::{MAX_PIN_NUM, MIN_PIN_NUM};

verus! {

/// True iff `pin` is a user-addressable pin.
pub open spec fn pin_in_range(pin: u8) -> bool {
    MIN_PIN_NUM <= pin && pin <= MAX_PIN_NUM
}

/// Configure the direction of `pin`: `INPUT` sets its config bit,
/// `OUTPUT` and `PWM_OUTPUT` clear it (no waveform is generated for
/// `PWM_OUTPUT`).  An out-of-range pin or an unknown mode leaves the
/// bank unchanged.
pub fn pin_mode(regs: &mut RegMemory, pin: u8, pud: u8)
    ensures
        pin_in_range(pin) && (pud == INPUT || pud == OUTPUT || pud == PWM_OUTPUT) ==> {
            &&& final(regs).config@ == spec_write_pin(old(regs).config@, pin, pud == INPUT)
            &&& final(regs).input == old(regs).input
            &&& final(regs).output == old(regs).output
            &&& final(regs).inten == old(regs).inten
            &&& final(regs).int0 == old(regs).int0
            &&& final(regs).int1 == old(regs).int1
        },
        !(pin_in_range(pin) && (pud == INPUT || pud == OUTPUT || pud == PWM_OUTPUT))
            ==> *final(regs) == *old(regs),
{
    if pin >= MIN_PIN_NUM && pin <= MAX_PIN_NUM {
        if pud == INPUT || pud == OUTPUT {
            let mode: u8 = if pud == INPUT {
                1
            } else {
                0
            };
            regs.config.write_pin(pin, mode);
        } else if pud == PWM_OUTPUT {
            regs.config.write_pin(pin, 0);
        }
    }
}

/// Drive `pin` to `val != 0` in the OUTPUT register; an out-of-range
/// pin leaves the bank unchanged.
pub fn write_pin(regs: &mut RegMemory, pin: u8, val: u8)
    ensures
        pin_in_range(pin) ==> {
            &&& final(regs).output@ == spec_write_pin(old(regs).output@, pin, val != 0)
            &&& final(regs).input == old(regs).input
            &&& final(regs).config == old(regs).config
            &&& final(regs).inten == old(regs).inten
            &&& final(regs).int0 == old(regs).int0
            &&& final(regs).int1 == old(regs).int1
        },
        !pin_in_range(pin) ==> *final(regs) == *old(regs),
{
    if pin >= MIN_PIN_NUM && pin <= MAX_PIN_NUM {
        regs.output.write_pin(pin, val);
    }
}

/// The observed level of `pin` in the INPUT register as 0 or 1, or the
/// sentinel `0xFF` for an out-of-range pin.
pub fn read_pin(regs: &RegMemory, pin: u8) -> (r: u8)
    ensures
        pin_in_range(pin) ==> r == (if bit_of(regs.input@, pin) {
            1u8
        } else {
            0u8
        }),
        !pin_in_range(pin) ==> r == 0xFF,
{
    if pin >= MIN_PIN_NUM && pin <= MAX_PIN_NUM {
        regs.input.read_pin(pin)
    } else {
        0xFF
    }
}

/// The low interrupt-mode bit that `register` mode `mode` selects.
pub open spec fn spec_isr_int0(mode: u8) -> bool {
    mode == INT_EDGE_RISING || mode == INT_EDGE_BOTH
}

/// The high interrupt-mode bit that `register` mode `mode` selects.
pub open spec fn spec_isr_int1(mode: u8) -> bool {
    mode == INT_EDGE_RISING || mode == INT_EDGE_FALLING
}

/// Record an interrupt request for `pin`: set its INT0/INT1 bits per
/// the mode table (rising = both set, falling = high only, both edges =
/// low only, anything else = neither) and enable it in INTEN.  Returns
/// 0 on success, telling the caller to store the callback in its ISR
/// table; returns `0xFF` and leaves the bank unchanged for an
/// out-of-range pin.
pub fn define_isr_routine(regs: &mut RegMemory, pin: u8, mode: u8) -> (r: u8)
    ensures
        pin_in_range(pin) ==> {
            &&& r == 0
            &&& final(regs).int0@ == spec_write_pin(old(regs).int0@, pin, spec_isr_int0(mode))
            &&& final(regs).int1@ == spec_write_pin(old(regs).int1@, pin, spec_isr_int1(mode))
            &&& final(regs).inten@ == spec_write_pin(old(regs).inten@, pin, true)
            &&& final(regs).input == old(regs).input
            &&& final(regs).output == old(regs).output
            &&& final(regs).config == old(regs).config
        },
        !pin_in_range(pin) ==> r == 0xFF && *final(regs) == *old(regs),
{
    if pin >= MIN_PIN_NUM && pin <= MAX_PIN_NUM {
        let v_int0: u8 = if mode == INT_EDGE_RISING || mode == INT_EDGE_BOTH {
            1
        } else {
            0
        };
        let v_int1: u8 = if mode == INT_EDGE_RISING || mode == INT_EDGE_FALLING {
            1
        } else {
            0
        };
        regs.int0.write_pin(pin, v_int0);
        regs.int1.write_pin(pin, v_int1);
        regs.inten.write_pin(pin, 1);
        0
    } else {
        0xFF
    }
}

} // verus!
