//! The GPIO register model: one 32-bit register with bit-addressable
//! accessors, and the six-register bank with its reset semantics.

use vstd::prelude::*;
use crate::hex::{
    HexError, all_hex, hex_char_of, hex_val, is_hex_digit, lemma_hex_val_bound, spec_format,
    spec_format_digits, spec_nibble, strip_hex_prefix,
};
use vstd::arithmetic::power::{pow, lemma_pow_increases};

verus! {

/// The upper-case digit character with value `n`, as a one-character
/// string slice.
fn hex_digit_str(n: u32) -> (r: &'static str)
    requires
        n < 16,
    ensures
        r@ =~= seq![hex_char_of(n as int)],
{
    proof {
        reveal_strlit("0");
        reveal_strlit("1");
        reveal_strlit("2");
        reveal_strlit("3");
        reveal_strlit("4");
        reveal_strlit("5");
        reveal_strlit("6");
        reveal_strlit("7");
        reveal_strlit("8");
        reveal_strlit("9");
        reveal_strlit("A");
        reveal_strlit("B");
        reveal_strlit("C");
        reveal_strlit("D");
        reveal_strlit("E");
        reveal_strlit("F");
    }
    if n == 0 {
        "0"
    } else if n == 1 {
        "1"
    } else if n == 2 {
        "2"
    } else if n == 3 {
        "3"
    } else if n == 4 {
        "4"
    } else if n == 5 {
        "5"
    } else if n == 6 {
        "6"
    } else if n == 7 {
        "7"
    } else if n == 8 {
        "8"
    } else if n == 9 {
        "9"
    } else if n == 10 {
        "A"
    } else if n == 11 {
        "B"
    } else if n == 12 {
        "C"
    } else if n == 13 {
        "D"
    } else if n == 14 {
        "E"
    } else {
        "F"
    }
}

/// True iff bit `pin` of the word `w` is set.
pub open spec fn bit_of(w: u32, pin: u8) -> bool
    recommends
        pin < 32,
{
    (w >> (pin as u32)) & 1 == 1
}

/// The word `w` with bit `pin` set (when `set`) or cleared (otherwise).
pub open spec fn spec_write_pin(w: u32, pin: u8, set: bool) -> u32
    recommends
        pin < 32,
{
    if set {
        w | (1u32 << (pin as u32))
    } else {
        w & !(1u32 << (pin as u32))
    }
}

/// Writing one bit changes that bit to the written value and leaves every
/// other bit as it was.
pub proof fn lemma_write_pin_bit(w: u32, pin: u8, set: bool, q: u8)
    requires
        pin < 32,
        q < 32,
    ensures
        bit_of(spec_write_pin(w, pin, set), q) == (if q == pin {
            set
        } else {
            bit_of(w, q)
        }),
{
    assert(bit_of(spec_write_pin(w, pin, set), q) == (if q == pin {
        set
    } else {
        bit_of(w, q)
    })) by (bit_vector)
        requires
            pin < 32,
            q < 32,
    ;
}

/// For every pin below 32 and every value 0 or 1, writing the pin and
/// reading it back yields the value just written.
pub proof fn lemma_write_then_read_pin(w: u32, pin: u8, v: u8)
    requires
        pin < 32,
        v == 0 || v == 1,
    ensures
        (if bit_of(spec_write_pin(w, pin, v != 0), pin) {
            1u8
        } else {
            0u8
        }) == v,
{
    lemma_write_pin_bit(w, pin, v != 0, pin);
}

/// A single 32-bit GPIO register.
#[derive(Clone, Copy, PartialEq, Eq, Structural, Debug)]
pub struct Reg {
    value: u32,
}

impl View for Reg {
    type V = u32;

    closed spec fn view(&self) -> u32 {
        self.value
    }
}

impl Reg {
    /// A register holding zero.
    pub fn new() -> (r: Reg)
        ensures
            r@ == 0u32,
    {
        Reg { value: 0x00000000 }
    }

    /// A register holding the given word.
    pub fn from(val: u32) -> (r: Reg)
        ensures
            r@ == val,
    {
        Reg { value: val }
    }

    /// The whole 32-bit word.
    pub fn read(&self) -> (r: u32)
        ensures
            r == self@,
    {
        self.value
    }

    /// The value of bit `pin`, as 0 or 1.
    pub fn read_pin(&self, pin: u8) -> (r: u8)
        requires
            pin < 32,
        ensures
            r == (if bit_of(self@, pin) {
                1u8
            } else {
                0u8
            }),
    {
        proof {
            let w = self.value;
            assert(((w >> (pin as u32)) & 0x1 > 0) == ((w >> (pin as u32)) & 1 == 1))
                by (bit_vector);
        }
        if ((self.value >> (pin as u32)) & 0x1) > 0 {
            1
        } else {
            0
        }
    }

    /// Replace the whole word.
    pub fn write(&mut self, val: u32)
        ensures
            final(self)@ == val,
    {
        self.value = val;
    }

    /// Set bit `pin` iff `val != 0`, otherwise clear it; every other bit
    /// keeps its value.
    pub fn write_pin(&mut self, pin: u8, val: u8)
        requires
            pin < 32,
        ensures
            final(self)@ == spec_write_pin(old(self)@, pin, val != 0),
            forall|q: u8|
                q < 32 ==> #[trigger] bit_of(final(self)@, q) == (if q == pin {
                    val != 0
                } else {
                    bit_of(old(self)@, q)
                }),
    {
        if val > 0 {
            self.value = self.value | (0x1u32 << (pin as u32));
        } else {
            self.value = self.value & !(0x1u32 << (pin as u32));
        }
        proof {
            assert forall|q: u8| q < 32 implies #[trigger] bit_of(final(self)@, q) == (if q
                == pin {
                val != 0
            } else {
                bit_of(old(self)@, q)
            }) by {
                lemma_write_pin_bit(old(self)@, pin, val != 0, q);
            }
        }
    }

    /// Render the register as `0x` followed by eight upper-case hex
    /// digits.
    pub fn read_to_str(&self) -> (r: String)
        ensures
            r@ == spec_format(self@),
    {
        let mut s = String::from_str("0x");
        proof {
            reveal_strlit("0x");
            assert(s@ =~= seq!['0', 'x']);
            assert(s@ =~= seq!['0', 'x'] + spec_format_digits(self@).take(0));
        }
        let mut i: usize = 0;
        while i < 8
            invariant
                i <= 8,
                s@ =~= seq!['0', 'x'] + spec_format_digits(self@).take(i as int),
            decreases 8 - i,
        {
            let shift: u32 = 28 - 4 * (i as u32);
            let nib: u32 = (self.value >> shift) & 0xF;
            proof {
                let v = self.value;
                assert((v >> shift) & 0xF < 16) by (bit_vector);
                assert(shift == ((7 - i as int) * 4) as u32);
                assert(nib as int == spec_nibble(self@, i as int));
            }
            let d = hex_digit_str(nib);
            s.append(d);
            proof {
                assert(spec_format_digits(self@).take(i as int + 1) =~= spec_format_digits(
                    self@,
                ).take(i as int).push(spec_format_digits(self@)[i as int]));
                assert(s@ =~= seq!['0', 'x'] + spec_format_digits(self@).take(i as int + 1));
            }
            i = i + 1;
        }
        proof {
            assert(spec_format_digits(self@).take(8) =~= spec_format_digits(self@));
        }
        s
    }

    /// Read a string of at most eight hex digits (no prefix) as a word.
    /// Rejects strings that hold a non-ASCII character, and ASCII
    /// strings that hold a non-hex character; the empty string reads as
    /// zero.
    pub fn hex2uint(&self, raw: String) -> (r: Result<u32, HexError>)
        requires
            raw@.len() <= 8,
        ensures
            !vstd::string::string_is_ascii(&raw) ==> r == Err::<u32, HexError>(HexError::NonAscii),
            vstd::string::string_is_ascii(&raw) && all_hex(raw@) ==> (r matches Ok(v) && v
                == hex_val(raw@)),
            vstd::string::string_is_ascii(&raw) && !all_hex(raw@) ==> r == Err::<
                u32,
                HexError,
            >(HexError::InvalidToken),
    {
        if !raw.is_ascii() {
            return Err(HexError::NonAscii);
        }
        let n = raw.as_str().unicode_len();
        let mut ret: u32 = 0;
        let mut i: usize = 0;
        while i < n
            invariant
                i <= n,
                n == raw@.len() <= 8,
                vstd::string::string_is_ascii(&raw),
                all_hex(raw@.take(i as int)),
                ret == hex_val(raw@.take(i as int)),
            decreases n - i,
        {
            let c = raw.as_str().get_char(i);
            let u = c as u32;
            let v: u32 = if u >= 48 && u <= 57 {
                u - 48
            } else if u >= 65 && u <= 70 {
                u - 65 + 10
            } else if u >= 97 && u <= 102 {
                u - 97 + 10
            } else {
                proof {
                    assert(!is_hex_digit(raw@[i as int]));
                }
                return Err(HexError::InvalidToken);
            };
            proof {
                assert(is_hex_digit(c));
                assert(all_hex(raw@.take(i as int + 1))) by {
                    assert(forall|j: int|
                        0 <= j < i as int + 1 ==> raw@.take(i as int + 1)[j] == (if j < i as int {
                            raw@.take(i as int)[j]
                        } else {
                            raw@[i as int]
                        }));
                }
                lemma_hex_val_bound(raw@.take(i as int));
                lemma_pow_increases(16, i as nat, 7);
                assert(pow(16, 7) == 0x10000000) by {
                    reveal_with_fuel(pow, 8);
                }
                assert(raw@.take(i as int + 1).drop_last() =~= raw@.take(i as int));
                assert(raw@.take(i as int + 1).last() == raw@[i as int]);
            }
            ret = ret * 16 + v;
            i = i + 1;
        }
        proof {
            assert(raw@.take(n as int) =~= raw@);
        }
        Ok(ret)
    }

    /// Replace the register from a hex rendering: an optional `0x`
    /// prefix followed by exactly eight hex digits, either case.  On
    /// any rejection the register keeps its value and the error names
    /// the offending condition: a character outside ASCII, a non-hex
    /// character after the prefix, or an all-hex body that is not
    /// exactly eight digits long.
    pub fn write_from_str(&mut self, stri: String) -> (r: Result<(), HexError>)
        ensures
            !vstd::string::string_is_ascii(&stri) ==> r == Err::<(), HexError>(HexError::NonAscii)
                && final(self)@ == old(self)@,
            vstd::string::string_is_ascii(&stri) && !all_hex(strip_hex_prefix(stri@)) ==> r
                == Err::<(), HexError>(HexError::InvalidToken) && final(self)@ == old(self)@,
            vstd::string::string_is_ascii(&stri) && all_hex(strip_hex_prefix(stri@))
                && strip_hex_prefix(stri@).len() != 8 ==> r == Err::<(), HexError>(
                HexError::BadLength,
            ) && final(self)@ == old(self)@,
            vstd::string::string_is_ascii(&stri) && all_hex(strip_hex_prefix(stri@))
                && strip_hex_prefix(stri@).len() == 8 ==> (r matches Ok(u) && final(self)@
                == hex_val(strip_hex_prefix(stri@))),
    {
        if !stri.is_ascii() {
            return Err(HexError::NonAscii);
        }
        let n = stri.as_str().unicode_len();
        let body: &str = if n >= 2 && stri.as_str().get_char(0) == '0' && stri.as_str().get_char(1)
            == 'x' {
            stri.as_str().substring_ascii(2, n)
        } else {
            stri.as_str()
        };
        proof {
            assert(body@ =~= strip_hex_prefix(stri@));
        }
        if !crate::hex::all_hex_digits(body) {
            return Err(HexError::InvalidToken);
        }
        let m = body.unicode_len();
        if m != 8 {
            return Err(HexError::BadLength);
        }
        let owned = String::from_str(body);
        match self.hex2uint(owned) {
            Ok(num) => {
                self.value = num;
                Ok(())
            },
            Err(e) => Err(e),
        }
    }
}

/// The register bank: six 32-bit registers shared by every participant.
#[derive(Clone, Copy, PartialEq, Eq, Structural, Debug)]
pub struct RegMemory {
    /// Observed logic level at each pin, driven by peripherals.
    pub input: Reg,
    /// Logic level the program is driving.
    pub output: Reg,
    /// Per-pin direction: bit set means input, clear means output.
    pub config: Reg,
    /// Per-pin interrupt enable.
    pub inten: Reg,
    /// Low bit of the per-pin 2-bit interrupt mode.
    pub int0: Reg,
    /// High bit of the per-pin 2-bit interrupt mode.
    pub int1: Reg,
}

/// The reset state: every pin an input, every other register zero.
pub open spec fn is_reset_state(regs: RegMemory) -> bool {
    &&& regs.input@ == 0u32
    &&& regs.output@ == 0u32
    &&& regs.config@ == 0xFFFFFFFFu32
    &&& regs.inten@ == 0u32
    &&& regs.int0@ == 0u32
    &&& regs.int1@ == 0u32
}

impl RegMemory {
    /// A bank in its reset state.
    pub fn new() -> (r: RegMemory)
        ensures
            is_reset_state(r),
    {
        RegMemory {
            input: Reg::from(0x00000000),
            output: Reg::from(0x00000000),
            config: Reg::from(0xFFFFFFFF),
            inten: Reg::from(0x00000000),
            int0: Reg::from(0x00000000),
            int1: Reg::from(0x00000000),
        }
    }

    /// Restore the reset state, whatever the bank held before.
    pub fn reset(&mut self)
        ensures
            is_reset_state(*final(self)),
    {
        self.input.write(0x00000000);
        self.output.write(0x00000000);
        self.config.write(0xFFFFFFFF);
        self.inten.write(0x00000000);
        self.int0.write(0x00000000);
        self.int1.write(0x00000000);
    }
}

} // verus!
