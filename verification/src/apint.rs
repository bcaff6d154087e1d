//! Integer attributes, computed with pliron's arbitrary-precision integers.

use crate::text::decimal;
use pliron::utils::apint::APInt;
use vstd::arithmetic::power2::pow2;
use vstd::prelude::*;

verus! {

/// `value` modulo two to the power of `width`.
pub open spec fn low_bits(value: int, width: nat) -> nat {
    (value % pow2(width) as int) as nat
}

/// `APInt::from_u128`, then `APInt::to_string_unsigned_decimal`: the low `width`
/// bits of `bits`, read as an unsigned number and written in decimal without
/// leading zeros.
#[verifier::external_body]
fn apint_unsigned_decimal(bits: u128, width: usize) -> (s: String)
    requires
        width > 0,
    ensures
        s@ == decimal(low_bits(bits as int, width as nat)),
{
    let width = core::num::NonZero::new(width).unwrap();
    APInt::from_u128(bits, width).to_string_unsigned_decimal()
}

/// `APInt::from_u128`, then `APInt::to_u32`: the low 32 of the low `width` bits
/// of `bits`.
#[verifier::external_body]
fn apint_to_u32(bits: u128, width: usize) -> (r: u32)
    requires
        width > 0,
    ensures
        r == low_bits(low_bits(bits as int, width as nat) as int, 32),
{
    let width = core::num::NonZero::new(width).unwrap();
    APInt::from_u128(bits, width).to_u32()
}

/// `APInt::from_i64`, then `APInt::to_u128`: `value` in two's complement, sign
/// extended or truncated to `width` bits.
#[verifier::external_body]
fn apint_from_i64(value: i64, width: usize) -> (bits: u128)
    requires
        0 < width <= 128,
    ensures
        bits == low_bits(value as int, width as nat),
{
    let width = core::num::NonZero::new(width).unwrap();
    APInt::from_i64(value, width).to_u128()
}

/// An integer attribute: `width` bits, given by a number whose low bits they are.
#[derive(Debug, Clone, Copy, PartialEq, Eq, Structural)]
pub struct IntegerAttr {
    /// The number whose low bits count.
    pub bits: u128,
    /// How many bits count.
    pub width: u32,
}

impl IntegerAttr {
    /// An attribute has at least one bit.
    pub open spec fn wf(self) -> bool {
        self.width > 0
    }

    /// The unsigned number that the attribute stands for.
    pub open spec fn unsigned(self) -> nat {
        low_bits(self.bits as int, self.width as nat)
    }

    /// The attribute that holds `value` in `width` bits.
    pub fn from_i64(value: i64, width: u32) -> (r: IntegerAttr)
        requires
            0 < width <= 128,
        ensures
            r.wf(),
            r.width == width,
            r.unsigned() == low_bits(value as int, width as nat),
    {
        let bits: u128 = apint_from_i64(value, width as usize);
        proof {
            vstd::arithmetic::power2::lemma_pow2_pos(width as nat);
            vstd::arithmetic::div_mod::lemma_mod_twice(value as int, pow2(width as nat) as int);
        }
        IntegerAttr { bits, width }
    }

    /// The unsigned number in decimal.
    pub fn to_string_unsigned_decimal(&self) -> (s: String)
        requires
            self.wf(),
        ensures
            s@ == decimal(self.unsigned()),
    {
        apint_unsigned_decimal(self.bits, self.width as usize)
    }

    /// The low 32 bits of the unsigned number.
    pub fn to_u32(&self) -> (r: u32)
        requires
            self.wf(),
        ensures
            r == low_bits(self.unsigned() as int, 32),
    {
        apint_to_u32(self.bits, self.width as usize)
    }
}

/// A number that fits the width is kept: reading an unsigned attribute gives
/// back what was written into it.
pub proof fn unsigned_gives_back_what_fits(value: nat, width: nat)
    requires
        value < pow2(width),
    ensures
        low_bits(value as int, width) == value,
{
    vstd::arithmetic::div_mod::lemma_small_mod(value, pow2(width));
}

/// A negative number that fits the width is read back as its two's complement.
pub proof fn negative_is_read_as_twos_complement(value: int, width: nat)
    requires
        -pow2(width) <= value < 0,
    ensures
        low_bits(value, width) == value + pow2(width),
{
    vstd::arithmetic::power2::lemma_pow2_pos(width);
    vstd::arithmetic::div_mod::lemma_mod_add_multiples_vanish(value, pow2(width) as int);
    vstd::arithmetic::div_mod::lemma_small_mod((value + pow2(width)) as nat, pow2(width));
}

}
