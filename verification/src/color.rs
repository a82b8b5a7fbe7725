//! Linear RGBA colors, held as the bit patterns of their four `f32`
//! channels. Every channel the framework stores lies in `[0, 1]`, which for
//! IEEE-754 single-precision patterns is exactly the range `0 ..= 0x3F80_0000`
//! (positive zero up to `1.0`). Keeping the raw patterns lets the picker's
//! save and cancel paths round-trip a color bit for bit, and lets the hex
//! readout be computed exactly: `floor(channel * 255)` is integer arithmetic
//! on the pattern's mantissa and exponent.

use vstd::prelude::*;
use vstd::arithmetic::power2::{pow2, lemma_pow2_strictly_increases, lemma2_to64};
use vstd::arithmetic::div_mod::{lemma_basic_div, lemma_div_is_ordered, lemma_div_multiples_vanish};
use vstd::bits::lemma_u64_shr_is_div;

verus! {

/// Bit pattern of `1.0f32`, the largest channel value a color may hold.
pub const CHANNEL_ONE_BITS: u32 = 0x3F80_0000;

/// A channel pattern is valid when the `f32` it encodes lies in `[0, 1]`:
/// for positive patterns the IEEE-754 order agrees with the integer order,
/// so this is exactly the patterns up to that of `1.0`.
pub open spec fn valid_channel_bits(bits: u32) -> bool {
    bits <= CHANNEL_ONE_BITS
}

/// Exponent field of a single-precision pattern.
pub open spec fn channel_exp(bits: u32) -> u32 {
    bits >> 23u32
}

/// Fraction field of a single-precision pattern.
pub open spec fn channel_frac(bits: u32) -> u32 {
    bits & 0x007F_FFFFu32
}

/// Integer mantissa of the encoded value: a subnormal pattern has no hidden
/// bit, a normal one prepends it.
pub open spec fn channel_mantissa(bits: u32) -> nat {
    if channel_exp(bits) == 0 {
        channel_frac(bits) as nat
    } else {
        channel_frac(bits) as nat + 0x0080_0000
    }
}

/// Binary scale of the encoded value: the pattern denotes
/// `mantissa / pow2(scale)`.
pub open spec fn channel_scale(bits: u32) -> nat {
    if channel_exp(bits) == 0 {
        149nat
    } else {
        (150 - channel_exp(bits) as int) as nat
    }
}

/// `floor(channel * 255)` of the value the pattern encodes, the per-channel
/// quantity shown by the hex readout.
pub open spec fn channel_byte_spec(bits: u32) -> nat {
    (255 * channel_mantissa(bits)) / pow2(channel_scale(bits))
}

/// Computes `floor(v * 255)` for the `f32` value `v` encoded by `bits`,
/// exactly, from the mantissa and exponent fields.
pub fn channel_byte(bits: u32) -> (b: u8)
    requires
        valid_channel_bits(bits),
    ensures
        b as nat == channel_byte_spec(bits),
        b <= 255,
{
    let exp: u32 = bits >> 23;
    let frac: u32 = bits & 0x007F_FFFF;
    proof {
        assert(bits <= 0x3F80_0000u32 ==> (bits >> 23u32) <= 127u32) by (bit_vector);
        assert((bits & 0x007F_FFFFu32) <= 0x007F_FFFFu32) by (bit_vector);
        assert((bits <= 0x3F80_0000u32 && (bits >> 23u32) == 127u32) ==> (bits
            & 0x007F_FFFFu32) == 0u32) by (bit_vector);
    }
    let m: u64 = if exp == 0 {
        frac as u64
    } else {
        (frac as u64) + 0x0080_0000
    };
    let scale: u32 = if exp == 0 {
        149
    } else {
        150 - exp
    };
    let prod: u64 = 255 * m;
    proof {
        assert(m as nat == channel_mantissa(bits));
        assert(scale as nat == channel_scale(bits));
        assert(23 <= scale <= 149);
        // The mantissa never exceeds the scale's power of two, so the
        // quotient fits in a byte.
        lemma2_to64();
        if exp == 127 {
            assert(m == 0x0080_0000 && scale == 23);
            assert(m as nat <= pow2(scale as nat));
        } else if exp == 0 {
            lemma_pow2_strictly_increases(23, 149);
            assert(m as nat <= pow2(scale as nat));
        } else {
            assert(scale >= 24);
            if scale > 24 {
                lemma_pow2_strictly_increases(24, scale as nat);
            }
            assert(m as nat <= pow2(scale as nat));
        }
    }
    if scale >= 64 {
        proof {
            lemma_pow2_strictly_increases(32, scale as nat);
            assert(prod < pow2(32));
            lemma_basic_div(prod as int, pow2(scale as nat) as int);
        }
        0
    } else {
        let sh: u64 = scale as u64;
        let b: u64 = prod >> sh;
        proof {
            lemma_u64_shr_is_div(prod, sh);
            let p2: int = pow2(scale as nat) as int;
            lemma_div_is_ordered(prod as int, 255 * p2, p2);
            lemma_div_multiples_vanish(255, p2);
            assert(p2 * 255 == 255 * p2);
            assert(b <= 255);
        }
        b as u8
    }
}

/// One uppercase hexadecimal digit.
pub open spec fn hex_digit(n: nat) -> char {
    if n == 0 { '0' }
    else if n == 1 { '1' }
    else if n == 2 { '2' }
    else if n == 3 { '3' }
    else if n == 4 { '4' }
    else if n == 5 { '5' }
    else if n == 6 { '6' }
    else if n == 7 { '7' }
    else if n == 8 { '8' }
    else if n == 9 { '9' }
    else if n == 10 { 'A' }
    else if n == 11 { 'B' }
    else if n == 12 { 'C' }
    else if n == 13 { 'D' }
    else if n == 14 { 'E' }
    else { 'F' }
}

/// The two uppercase hex digits of a byte.
pub open spec fn byte_hex(b: nat) -> Seq<char> {
    seq![hex_digit(b / 16), hex_digit(b % 16)]
}

/// The readout text for a color array: `#RRGGBB`, alpha omitted, each byte
/// being `floor(channel * 255)`.
pub open spec fn hex_readout_spec(r: u32, g: u32, b: u32) -> Seq<char> {
    seq!['#'] + byte_hex(channel_byte_spec(r)) + byte_hex(channel_byte_spec(g)) + byte_hex(
        channel_byte_spec(b),
    )
}

fn hex_digit_str(n: u8) -> (r: &'static str)
    requires
        n < 16,
    ensures
        r@ == seq![hex_digit(n as nat)],
{
    if n == 0 {
        proof { reveal_strlit("0"); assert("0"@ =~= seq![hex_digit(0)]); }
        "0"
    } else if n == 1 {
        proof { reveal_strlit("1"); assert("1"@ =~= seq![hex_digit(1)]); }
        "1"
    } else if n == 2 {
        proof { reveal_strlit("2"); assert("2"@ =~= seq![hex_digit(2)]); }
        "2"
    } else if n == 3 {
        proof { reveal_strlit("3"); assert("3"@ =~= seq![hex_digit(3)]); }
        "3"
    } else if n == 4 {
        proof { reveal_strlit("4"); assert("4"@ =~= seq![hex_digit(4)]); }
        "4"
    } else if n == 5 {
        proof { reveal_strlit("5"); assert("5"@ =~= seq![hex_digit(5)]); }
        "5"
    } else if n == 6 {
        proof { reveal_strlit("6"); assert("6"@ =~= seq![hex_digit(6)]); }
        "6"
    } else if n == 7 {
        proof { reveal_strlit("7"); assert("7"@ =~= seq![hex_digit(7)]); }
        "7"
    } else if n == 8 {
        proof { reveal_strlit("8"); assert("8"@ =~= seq![hex_digit(8)]); }
        "8"
    } else if n == 9 {
        proof { reveal_strlit("9"); assert("9"@ =~= seq![hex_digit(9)]); }
        "9"
    } else if n == 10 {
        proof { reveal_strlit("A"); assert("A"@ =~= seq![hex_digit(10)]); }
        "A"
    } else if n == 11 {
        proof { reveal_strlit("B"); assert("B"@ =~= seq![hex_digit(11)]); }
        "B"
    } else if n == 12 {
        proof { reveal_strlit("C"); assert("C"@ =~= seq![hex_digit(12)]); }
        "C"
    } else if n == 13 {
        proof { reveal_strlit("D"); assert("D"@ =~= seq![hex_digit(13)]); }
        "D"
    } else if n == 14 {
        proof { reveal_strlit("E"); assert("E"@ =~= seq![hex_digit(14)]); }
        "E"
    } else {
        proof { reveal_strlit("F"); assert("F"@ =~= seq![hex_digit(15)]); }
        "F"
    }
}

/// Builds the live `#RRGGBB` readout shown beside the picker's edit control.
pub fn hex_readout(colors: &[u32; 4]) -> (s: String)
    requires
        valid_channel_bits(colors[0]),
        valid_channel_bits(colors[1]),
        valid_channel_bits(colors[2]),
    ensures
        s@ == hex_readout_spec(colors[0], colors[1], colors[2]),
{
    let rb = channel_byte(colors[0]);
    let gb = channel_byte(colors[1]);
    let bb = channel_byte(colors[2]);
    let mut s = String::from_str("#");
    proof {
        reveal_strlit("#");
        assert("#"@ =~= seq!['#']);
    }
    s.append(hex_digit_str(rb / 16));
    s.append(hex_digit_str(rb % 16));
    s.append(hex_digit_str(gb / 16));
    s.append(hex_digit_str(gb % 16));
    s.append(hex_digit_str(bb / 16));
    s.append(hex_digit_str(bb % 16));
    proof {
        assert(s@ =~= hex_readout_spec(colors[0], colors[1], colors[2]));
    }
    s
}

/// A color in unmultiplied linear RGBA space, each channel the bit pattern
/// of an `f32` in `[0, 1]`.
#[derive(Clone, Copy, Debug, PartialEq, Eq, Structural)]
pub struct LinearRgba {
    pub red: u32,
    pub green: u32,
    pub blue: u32,
    pub alpha: u32,
}

impl LinearRgba {
    /// All four channel patterns encode values in `[0, 1]`.
    pub open spec fn wf(self) -> bool {
        valid_channel_bits(self.red) && valid_channel_bits(self.green) && valid_channel_bits(
            self.blue,
        ) && valid_channel_bits(self.alpha)
    }

    /// Opaque black: zero color channels, alpha one.
    pub open spec fn spec_opaque_black() -> LinearRgba {
        LinearRgba { red: 0, green: 0, blue: 0, alpha: CHANNEL_ONE_BITS }
    }

    pub fn opaque_black() -> (c: LinearRgba)
        ensures
            c == LinearRgba::spec_opaque_black(),
            c.wf(),
    {
        LinearRgba { red: 0, green: 0, blue: 0, alpha: CHANNEL_ONE_BITS }
    }
}

/// The four-channel editable array a color converts to when a picker opens.
pub open spec fn spec_color_array(c: LinearRgba) -> Seq<u32> {
    seq![c.red, c.green, c.blue, c.alpha]
}

/// The color read back from an edited four-channel array.
pub open spec fn spec_color_of_array(a: Seq<u32>) -> LinearRgba
    recommends
        a.len() == 4,
{
    LinearRgba { red: a[0], green: a[1], blue: a[2], alpha: a[3] }
}

/// Converts a color to the picker's editable four-channel array.
pub fn color_to_array(c: &LinearRgba) -> (a: [u32; 4])
    ensures
        a@ == spec_color_array(*c),
{
    let a = [c.red, c.green, c.blue, c.alpha];
    proof {
        assert(a@ =~= spec_color_array(*c));
    }
    a
}

/// Reads the color back from the picker's edited array.
pub fn array_to_color(a: &[u32; 4]) -> (c: LinearRgba)
    ensures
        c == spec_color_of_array(a@),
{
    LinearRgba { red: a[0], green: a[1], blue: a[2], alpha: a[3] }
}

/// Converting a color to the picker's editable array and back yields the
/// same color, bit for bit.
pub proof fn lemma_color_round_trip(c: LinearRgba)
    ensures
        spec_color_of_array(spec_color_array(c)) == c,
{
}

} // verus!
