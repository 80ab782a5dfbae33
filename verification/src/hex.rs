//! The fixed-width hexadecimal codec of a register: `0x` followed by
//! eight upper-case hex digits, parsed back case-insensitively.

use vstd::prelude::*;
use vstd::arithmetic::power::{pow, lemma_pow_increases};

verus! {

/// Why a hex string was rejected.
#[derive(Clone, Copy, PartialEq, Eq, Structural, Debug)]
pub enum HexError {
    /// The string holds a character outside ASCII.
    NonAscii,
    /// The string holds an ASCII character that is no hex digit.
    InvalidToken,
    /// The string is hex throughout but does not hold exactly eight
    /// digits after the optional `0x` prefix.
    BadLength,
}

impl HexError {
    /// The message that callers surface for this error.
    pub fn message(&self) -> (r: &'static str)
        ensures
            *self == HexError::NonAscii ==> r@ == "Provided string contains non-ASCII letters."@,
            *self == HexError::InvalidToken ==> r@ == "Invalid token in provided string!"@,
            *self == HexError::BadLength ==> r@ == "Expected exactly 8 hex digits."@,
    {
        match self {
            HexError::NonAscii => "Provided string contains non-ASCII letters.",
            HexError::InvalidToken => "Invalid token in provided string!",
            HexError::BadLength => "Expected exactly 8 hex digits.",
        }
    }
}

/// True iff `c` is a hex digit, either case.
pub open spec fn is_hex_digit(c: char) -> bool {
    (48 <= c as u32 && c as u32 <= 57)  // '0' ..= '9'
    || (65 <= c as u32 && c as u32 <= 70)  // 'A' ..= 'F'
    || (97 <= c as u32 && c as u32 <= 102)  // 'a' ..= 'f'
}

/// True iff `c` is a digit that the formatter emits: `0`-`9` or `A`-`F`.
pub open spec fn is_upper_hex_digit(c: char) -> bool {
    (48 <= c as u32 && c as u32 <= 57) || (65 <= c as u32 && c as u32 <= 70)
}

/// The numeric value of the hex digit `c`.
pub open spec fn hex_digit_val(c: char) -> int
    recommends
        is_hex_digit(c),
{
    if 48 <= c as u32 && c as u32 <= 57 {
        c as u32 - 48
    } else if 65 <= c as u32 && c as u32 <= 70 {
        c as u32 - 65 + 10
    } else {
        c as u32 - 97 + 10
    }
}

/// The upper-case hex digit with value `n`.
pub open spec fn hex_char_of(n: int) -> char
    recommends
        0 <= n < 16,
{
    if n == 0 {
        '0'
    } else if n == 1 {
        '1'
    } else if n == 2 {
        '2'
    } else if n == 3 {
        '3'
    } else if n == 4 {
        '4'
    } else if n == 5 {
        '5'
    } else if n == 6 {
        '6'
    } else if n == 7 {
        '7'
    } else if n == 8 {
        '8'
    } else if n == 9 {
        '9'
    } else if n == 10 {
        'A'
    } else if n == 11 {
        'B'
    } else if n == 12 {
        'C'
    } else if n == 13 {
        'D'
    } else if n == 14 {
        'E'
    } else {
        'F'
    }
}

/// True iff every character of `s` is a hex digit.
pub open spec fn all_hex(s: Seq<char>) -> bool {
    forall|i: int| 0 <= i < s.len() ==> is_hex_digit(#[trigger] s[i])
}

/// The value of the digit string `s`, read most significant digit first.
pub open spec fn hex_val(s: Seq<char>) -> int
    decreases s.len(),
{
    if s.len() == 0 {
        0
    } else {
        hex_val(s.drop_last()) * 16 + hex_digit_val(s.last())
    }
}

/// `s` without a single leading `0x`, if one is present.
pub open spec fn strip_hex_prefix(s: Seq<char>) -> Seq<char> {
    if s.len() >= 2 && s[0] == '0' && s[1] == 'x' {
        s.subrange(2, s.len() as int)
    } else {
        s
    }
}

/// Digit `i` (0 = most significant) of the word `v`.
pub open spec fn spec_nibble(v: u32, i: int) -> int
    recommends
        0 <= i < 8,
{
    ((v >> (((7 - i) * 4) as u32)) & 0xF) as int
}

/// The eight hex digits of `v`, most significant first.
pub open spec fn spec_format_digits(v: u32) -> Seq<char> {
    Seq::new(8, |i: int| hex_char_of(spec_nibble(v, i)))
}

/// The full formatted register: `0x` and then the eight digits of `v`.
pub open spec fn spec_format(v: u32) -> Seq<char> {
    seq!['0', 'x'] + spec_format_digits(v)
}

/// The digit table inverts itself: formatting a nibble and reading the
/// digit back yields the nibble, and the digit is upper-case hex.
pub proof fn lemma_hex_char_val(n: int)
    requires
        0 <= n < 16,
    ensures
        hex_digit_val(hex_char_of(n)) == n,
        is_upper_hex_digit(hex_char_of(n)),
        is_hex_digit(hex_char_of(n)),
{
}

/// A string of hex digits of length `n` has a value below `16^n`.
pub proof fn lemma_hex_val_bound(s: Seq<char>)
    requires
        all_hex(s),
    ensures
        0 <= hex_val(s) < pow(16, s.len() as nat),
    decreases s.len(),
{
    if s.len() == 0 {
        assert(pow(16, 0) == 1) by {
            reveal(pow);
        }
    } else {
        lemma_hex_val_bound(s.drop_last());
        assert(hex_val(s) == hex_val(s.drop_last()) * 16 + hex_digit_val(s.last()));
        let hv = hex_val(s.drop_last());
        let d = hex_digit_val(s.last());
        let p = pow(16, s.drop_last().len() as nat);
        assert(0 <= d < 16);
        assert(s.drop_last().len() as nat == (s.len() as nat - 1) as nat);
        assert(pow(16, s.len() as nat) == 16 * pow(16, (s.len() as nat - 1) as nat)) by {
            reveal(pow);
        }
        assert(pow(16, s.len() as nat) == 16 * p);
        assert(hv * 16 + d < 16 * p) by (nonlinear_arith)
            requires
                0 <= hv < p && 0 <= d < 16,
        ;
    }
}

/// The value of the first `k` digits of the formatted word `v` is `v`
/// shifted right past the digits not yet read.
proof fn lemma_format_digits_prefix(v: u32, k: int)
    requires
        1 <= k <= 8,
    ensures
        hex_val(spec_format_digits(v).take(k)) == v >> (((8 - k) * 4) as u32),
    decreases k,
{
    let digits = spec_format_digits(v);
    let s = ((8 - k) * 4) as u32;
    let n = spec_nibble(v, k - 1);
    assert(0 <= n < 16) by {
        assert((v >> s) & 0xF < 16) by (bit_vector);
    }
    lemma_hex_char_val(n);
    assert(digits.take(k).last() == hex_char_of(n));
    assert(digits.take(k).drop_last() =~= digits.take(k - 1));
    if k == 1 {
        assert(hex_val(digits.take(0)) == 0);
        assert(v >> 28 == (v >> 28) & 0xF) by (bit_vector);
    } else {
        lemma_format_digits_prefix(v, k - 1);
        let s4 = ((9 - k) * 4) as u32;
        assert((v >> s4) * 16 + ((v >> s) & 0xF) == v >> s) by (bit_vector)
            requires
                s <= 24 && s4 == s + 4,
        ;
    }
}

/// Parsing the formatted digits of `v` yields `v` again, and every
/// emitted digit is upper-case hex.
pub proof fn lemma_format_digits_value(v: u32)
    ensures
        hex_val(spec_format_digits(v)) == v,
        all_hex(spec_format_digits(v)),
        forall|i: int|
            0 <= i < 8 ==> is_upper_hex_digit(#[trigger] spec_format_digits(v)[i]),
{
    lemma_format_digits_prefix(v, 8);
    assert(spec_format_digits(v).take(8) =~= spec_format_digits(v));
    assert(v >> 0 == v) by (bit_vector);
    assert forall|i: int| 0 <= i < 8 implies is_upper_hex_digit(
        #[trigger] spec_format_digits(v)[i],
    ) by {
        assert(0 <= spec_nibble(v, i) < 16) by {
            let s = ((7 - i) * 4) as u32;
            assert((v >> s) & 0xF < 16) by (bit_vector);
        }
        lemma_hex_char_val(spec_nibble(v, i));
    }
}

/// The hex codec round trip: the formatted register is `0x` followed by
/// exactly eight upper-case hex digits, and parsing it back (after the
/// prefix is stripped) restores the word that was formatted.
pub proof fn lemma_hex_codec_round_trip(v: u32)
    ensures
        spec_format(v).len() == 10,
        spec_format(v)[0] == '0',
        spec_format(v)[1] == 'x',
        forall|i: int|
            2 <= i < 10 ==> is_upper_hex_digit(#[trigger] spec_format(v)[i]),
        strip_hex_prefix(spec_format(v)) =~= spec_format_digits(v),
        all_hex(spec_format_digits(v)),
        hex_val(spec_format_digits(v)) == v,
{
    lemma_format_digits_value(v);
    assert forall|i: int| 2 <= i < 10 implies is_upper_hex_digit(
        #[trigger] spec_format(v)[i],
    ) by {
        assert(spec_format(v)[i] == spec_format_digits(v)[i - 2]);
    }
}

/// Decide whether every character of `s` is a hex digit.
pub fn all_hex_digits(s: &str) -> (r: bool)
    ensures
        r == all_hex(s@),
{
    let n = s.unicode_len();
    let mut i: usize = 0;
    while i < n
        invariant
            i <= n,
            n == s@.len(),
            all_hex(s@.take(i as int)),
        decreases n - i,
    {
        let c = s.get_char(i);
        let u = c as u32;
        if !((u >= 48 && u <= 57) || (u >= 65 && u <= 70) || (u >= 97 && u <= 102)) {
            proof {
                assert(!is_hex_digit(s@[i as int]));
            }
            return false;
        }
        proof {
            assert(is_hex_digit(s@[i as int]));
            assert(all_hex(s@.take(i as int + 1))) by {
                assert(forall|j: int|
                    0 <= j < i as int + 1 ==> s@.take(i as int + 1)[j] == (if j < i as int {
                        s@.take(i as int)[j]
                    } else {
                        s@[i as int]
                    }));
            }
        }
        i = i + 1;
    }
    proof {
        assert(s@.take(n as int) =~= s@);
    }
    true
}

/// The formatter is injective: distinct words never share a rendering.
pub proof fn lemma_format_injective(v1: u32, v2: u32)
    requires
        spec_format(v1) == spec_format(v2),
    ensures
        v1 == v2,
{
    lemma_hex_codec_round_trip(v1);
    lemma_hex_codec_round_trip(v2);
    assert(strip_hex_prefix(spec_format(v1)) =~= strip_hex_prefix(spec_format(v2)));
    assert(hex_val(spec_format_digits(v1)) == hex_val(spec_format_digits(v2)));
}

} // verus!
