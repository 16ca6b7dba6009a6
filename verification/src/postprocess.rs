//! From the matte that the network returns to a grayscale image.
//!
//! A sample is an IEEE-754 single-precision number, given by its bit
//! pattern: one sign bit, eight exponent bits, twenty-three fraction bits.

use vstd::prelude::*;
use vstd::arithmetic::power2::*;
use vstd::arithmetic::div_mod::*;
use crate::error::HarnessError;

verus! {

/// Whether the sign bit of a sample is set.
pub open spec fn sign_bit(bits: u32) -> bool {
    bits >= 0x8000_0000
}

/// The exponent field of a sample.
pub open spec fn exponent_field(bits: u32) -> nat {
    ((bits / 0x80_0000) % 256) as nat
}

/// The fraction field of a sample.
pub open spec fn fraction_field(bits: u32) -> nat {
    (bits % 0x80_0000) as nat
}

/// Whether a sample is not a number.
pub open spec fn is_nan(bits: u32) -> bool {
    exponent_field(bits) == 255 && fraction_field(bits) != 0
}

/// The significand of a finite sample: its value is the significand times
/// two to the power of `binary_exponent` minus 150.
pub open spec fn significand(bits: u32) -> nat {
    if exponent_field(bits) == 0 {
        fraction_field(bits)
    } else {
        fraction_field(bits) + 0x80_0000
    }
}

/// The exponent that scales the significand of a finite sample.
pub open spec fn binary_exponent(bits: u32) -> nat {
    if exponent_field(bits) == 0 {
        1
    } else {
        exponent_field(bits)
    }
}

/// Whether a sample is a number below zero.
pub open spec fn below_zero(bits: u32) -> bool {
    sign_bit(bits) && !is_nan(bits) && bits != 0x8000_0000
}

/// Whether a sample is a number above one (positive infinity included).
pub open spec fn above_one(bits: u32) -> bool {
    !sign_bit(bits) && !is_nan(bits) && bits > 0x3F80_0000
}

/// The gray level of a sample: the sample is clamped into the range from
/// zero to one, multiplied by 255 and rounded to the nearest integer, a half
/// being rounded up. A sample that is not a number gives zero.
pub open spec fn quantized(bits: u32) -> nat {
    if is_nan(bits) || sign_bit(bits) {
        0
    } else if exponent_field(bits) >= 127 {
        255
    } else {
        let unit = pow2((150 - binary_exponent(bits)) as nat);
        (2 * 255 * significand(bits) + unit) / (2 * unit)
    }
}

/// Two to the power of `exponent`.
fn power_of_two(exponent: u32) -> (power: u64)
    requires
        exponent <= 32,
    ensures
        power == pow2(exponent as nat),
        0 < power <= 0x1_0000_0000,
{
    let mut power: u64 = 1;
    let mut done: u32 = 0;
    proof {
        lemma2_to64();
    }
    while done < exponent
        invariant
            done <= exponent <= 32,
            power == pow2(done as nat),
            0 < power <= pow2(32),
            pow2(32) == 0x1_0000_0000,
        decreases exponent - done,
    {
        proof {
            lemma_pow2_unfold((done + 1) as nat);
            if done + 1 < 32 {
                lemma_pow2_strictly_increases((done + 1) as nat, 32);
            }
        }
        power = power * 2;
        done = done + 1;
    }
    power
}

/// The gray level of one sample of the matte.
pub fn quantize(bits: u32) -> (level: u8)
    ensures
        level == quantized(bits),
        below_zero(bits) ==> level == 0,
        above_one(bits) ==> level == 255,
{
    proof {
        lemma_outside_range_is_clamped(bits);
    }
    let exponent: u32 = (bits / 0x80_0000) % 256;
    let fraction: u32 = bits % 0x80_0000;
    if bits >= 0x8000_0000 || (exponent == 255 && fraction != 0) {
        return 0;
    }
    if exponent >= 127 {
        return 255;
    }
    let mantissa: u64 = if exponent == 0 {
        fraction as u64
    } else {
        fraction as u64 + 0x80_0000
    };
    let scale: u32 = if exponent == 0 {
        149
    } else {
        150 - exponent
    };
    let ghost unit = pow2(scale as nat);
    if scale > 32 {
        proof {
            lemma2_to64();
            lemma2_to64_rest();
            if scale > 33 {
                lemma_pow2_strictly_increases(33, scale as nat);
            }
            assert(2 * 255 * mantissa < 0x2_0000_0000) by (nonlinear_arith)
                requires
                    mantissa < 0x100_0000,
            ;
            assert(2 * 255 * mantissa + unit < 2 * unit);
            lemma_pow2_pos(scale as nat);
            lemma_basic_div((2 * 255 * mantissa + unit) as int, (2 * unit) as int);
        }
        return 0;
    }
    let unit_exec = power_of_two(scale);
    proof {
        lemma2_to64();
        if scale > 24 {
            lemma_pow2_strictly_increases(24, scale as nat);
        }
        assert(mantissa < unit_exec);
        assert(2 * 255 * mantissa < 0x2_0000_0000) by (nonlinear_arith)
            requires
                mantissa < 0x100_0000,
        ;
        assert((2 * 255 * mantissa + unit_exec) / (2 * unit_exec) <= 255) by (nonlinear_arith)
            requires
                0 <= mantissa < unit_exec,
        ;
    }
    let level: u64 = (2 * 255 * mantissa + unit_exec) / (2 * unit_exec);
    level as u8
}

/// A sample outside the range from zero to one is clamped, not wrapped: one
/// below zero gives the darkest level, one above one the brightest. No
/// sample gives a level above 255.
pub proof fn lemma_outside_range_is_clamped(bits: u32)
    ensures
        below_zero(bits) ==> quantized(bits) == 0,
        above_one(bits) ==> quantized(bits) == 255,
        quantized(bits) <= 255,
{
    if !is_nan(bits) && !sign_bit(bits) && exponent_field(bits) < 127 {
        let scale = (150 - binary_exponent(bits)) as nat;
        let unit = pow2(scale);
        let mantissa = significand(bits);
        lemma2_to64();
        if scale > 24 {
            lemma_pow2_strictly_increases(24, scale);
        }
        assert((2 * 255 * mantissa + unit) / (2 * unit) <= 255) by (nonlinear_arith)
            requires
                0 <= mantissa < unit,
        ;
    }
}

/// The gray level of a sample between zero and one is the integer nearest to
/// 255 times the sample: the two differ by a half at most, and by less than
/// a half upwards.
pub proof fn lemma_level_is_nearest(bits: u32)
    requires
        !is_nan(bits),
        !sign_bit(bits),
        exponent_field(bits) < 127,
    ensures
        (2 * quantized(bits) - 1) * pow2((150 - binary_exponent(bits)) as nat) <= 2 * 255
            * significand(bits),
        2 * 255 * significand(bits) < (2 * quantized(bits) + 1) * pow2(
            (150 - binary_exponent(bits)) as nat,
        ),
{
    let unit = pow2((150 - binary_exponent(bits)) as nat) as int;
    let scaled = (2 * 255 * significand(bits)) as int;
    let level = quantized(bits) as int;
    lemma_pow2_pos((150 - binary_exponent(bits)) as nat);
    lemma_fundamental_div_mod(scaled + unit, 2 * unit);
    lemma_mod_bound(scaled + unit, 2 * unit);
    assert(level == (scaled + unit) / (2 * unit));
    assert((2 * level - 1) * unit <= scaled && scaled < (2 * level + 1) * unit)
        by (nonlinear_arith)
        requires
            scaled + unit == (2 * unit) * level + (scaled + unit) % (2 * unit),
            0 <= (scaled + unit) % (2 * unit) < 2 * unit,
    ;
}

/// A grayscale image: `pixels` holds the gray levels row by row.
#[derive(Clone, Debug)]
pub struct MatteImage {
    pub width: usize,
    pub height: usize,
    pub pixels: Vec<u8>,
}

/// The gray levels of a matte, sample by sample.
pub open spec fn quantized_all(alpha: Seq<u32>) -> Seq<u8> {
    Seq::new(alpha.len(), |i: int| quantized(alpha[i]) as u8)
}

/// Turns the matte of a `width` by `height` frame, given row by row, into a
/// grayscale image of the same extents. A matte of any other length is
/// refused.
pub fn render_matte(alpha: &Vec<u32>, width: usize, height: usize) -> (rendered: Result<
    MatteImage,
    HarnessError,
>)
    ensures
        alpha@.len() == width * height ==> rendered.is_ok(),
        alpha@.len() != width * height ==> rendered is Err && rendered->Err_0
            == HarnessError::ShapeMismatch,
        rendered.is_ok() ==> {
            &&& rendered.unwrap().width == width
            &&& rendered.unwrap().height == height
            &&& rendered.unwrap().pixels@ == quantized_all(alpha@)
        },
{
    let samples = alpha.len();
    match width.checked_mul(height) {
        Some(count) => {
            if count != samples {
                return Err(HarnessError::ShapeMismatch);
            }
        },
        None => {
            return Err(HarnessError::ShapeMismatch);
        },
    }
    let mut pixels: Vec<u8> = Vec::with_capacity(alpha.len());
    let mut i: usize = 0;
    while i < alpha.len()
        invariant
            i <= alpha@.len(),
            pixels@.len() == i,
            forall|j: int| 0 <= j < i ==> pixels@[j] == quantized(alpha@[j]),
        decreases alpha@.len() - i,
    {
        pixels.push(quantize(alpha[i]));
        i = i + 1;
    }
    proof {
        lemma_levels_fit(alpha@);
        assert(pixels@ =~= quantized_all(alpha@));
    }
    Ok(MatteImage { width, height, pixels })
}

/// Every gray level of a matte is the level of its sample.
proof fn lemma_levels_fit(alpha: Seq<u32>)
    ensures
        forall|i: int|
            0 <= i < alpha.len() ==> #[trigger] quantized_all(alpha)[i] == quantized(alpha[i]),
{
    assert forall|i: int| 0 <= i < alpha.len() implies #[trigger] quantized_all(alpha)[i]
        == quantized(alpha[i]) by {
        lemma_outside_range_is_clamped(alpha[i]);
    }
}

} // verus!
