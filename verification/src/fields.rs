//! The register-field model: how each electrical attribute is packed into its
//! 32-bit configuration register, and the verified read-modify-write helpers
//! every transition is built from.
//!
//! A port packs one field per pin into each register: 2 bits per pin for the
//! mode, pull and speed registers, 1 bit per pin for the output-type register,
//! and 4 bits per pin for the two alternate-function registers (eight pins
//! each).

use vstd::prelude::*;

verus! {

/// Mode field value: general-purpose input.
pub const MODE_INPUT: u32 = 0b00;
/// Mode field value: general-purpose output.
pub const MODE_OUTPUT: u32 = 0b01;
/// Mode field value: alternate function.
pub const MODE_ALTERNATE: u32 = 0b10;
/// Mode field value: analog.
pub const MODE_ANALOG: u32 = 0b11;

/// Pull field value: no pull resistor (floating).
pub const PULL_FLOATING: u32 = 0b00;
/// Pull field value: pull-up resistor.
pub const PULL_UP: u32 = 0b01;
/// Pull field value: pull-down resistor.
pub const PULL_DOWN: u32 = 0b10;

/// Output-type field value: push-pull drive.
pub const TYPE_PUSH_PULL: u32 = 0b0;
/// Output-type field value: open-drain drive.
pub const TYPE_OPEN_DRAIN: u32 = 0b1;

/// Speed field value: low slew rate.
pub const SPEED_LOW: u32 = 0b00;
/// Speed field value: medium slew rate.
pub const SPEED_MEDIUM: u32 = 0b01;
/// Speed field value: fast slew rate.
pub const SPEED_FAST: u32 = 0b10;
/// Speed field value: high slew rate.
pub const SPEED_HIGH: u32 = 0b11;

/// The 1-bit field of pin `i` in a register that packs one bit per pin.
pub open spec fn field1_of(reg: u32, i: u32) -> u32 {
    (reg >> i) & 0x1
}

/// The 2-bit field of pin `i` in a register that packs two bits per pin.
pub open spec fn field2_of(reg: u32, i: u32) -> u32 {
    (reg >> ((2 * i) as u32)) & 0x3
}

/// The 4-bit field of slot `s` in an alternate-function register; the slot of
/// pin `i` is `i % 8`, in the low register when `i < 8`, else in the high one.
pub open spec fn field4_of(reg: u32, s: u32) -> u32 {
    (reg >> ((4 * s) as u32)) & 0xf
}

/// Whether bit `b` of `word` is set.
pub open spec fn bit_of(word: u32, b: u32) -> bool {
    (word >> b) & 0x1 == 1
}

/// A register forced to its power-on value holds every field at zero.
pub proof fn lemma_reset_register_fields()
    by (bit_vector)
    ensures
        forall|j: u32| j < 32 ==> field1_of(0u32, j) == 0,
        forall|j: u32| j < 16 ==> field2_of(0u32, j) == 0,
        forall|s: u32| s < 8 ==> field4_of(0u32, s) == 0,
{
}

/// Writing the 1-bit field of pin `i` leaves every other pin's field as it was.
pub proof fn lemma_set_field1(reg: u32, i: u32, v: u32, r: u32)
    by (bit_vector)
    requires
        i < 16,
        v < 2,
        r == (reg & !(0x1u32 << i)) | (v << i),
    ensures
        field1_of(r, i) == v,
        forall|j: u32| j < 16 && j != i ==> field1_of(r, j) == field1_of(reg, j),
{
}

/// Writing the 2-bit field of pin `i` leaves every other pin's field as it was.
pub proof fn lemma_set_field2(reg: u32, i: u32, v: u32, r: u32)
    by (bit_vector)
    requires
        i < 16,
        v < 4,
        r == (reg & !(0x3u32 << ((2 * i) as u32))) | (v << ((2 * i) as u32)),
    ensures
        field2_of(r, i) == v,
        forall|j: u32| j < 16 && j != i ==> field2_of(r, j) == field2_of(reg, j),
{
}

/// Writing the 4-bit field of slot `s` leaves every other slot's field as it was.
pub proof fn lemma_set_field4(reg: u32, s: u32, v: u32, r: u32)
    by (bit_vector)
    requires
        s < 8,
        v < 16,
        r == (reg & !(0xfu32 << ((4 * s) as u32))) | (v << ((4 * s) as u32)),
    ensures
        field4_of(r, s) == v,
        forall|t: u32| t < 8 && t != s ==> field4_of(r, t) == field4_of(reg, t),
{
}

/// Read-modify-write of the 1-bit field of pin `i`: clear the bit this pin
/// owns, then or in the new value shifted to the pin's offset. The exact
/// equation pins the whole result down, reserved upper bits included.
pub fn set_field1(reg: u32, i: u32, v: u32) -> (r: u32)
    requires
        i < 16,
        v < 2,
    ensures
        r == (reg & !(0x1u32 << i)) | (v << i),
        field1_of(r, i) == v,
        forall|j: u32| j < 16 && j != i ==> field1_of(r, j) == field1_of(reg, j),
{
    let r = (reg & !(0x1u32 << i)) | (v << i);
    proof {
        lemma_set_field1(reg, i, v, r);
    }
    r
}

/// Read-modify-write of the 2-bit field of pin `i`.
pub fn set_field2(reg: u32, i: u32, v: u32) -> (r: u32)
    requires
        i < 16,
        v < 4,
    ensures
        field2_of(r, i) == v,
        forall|j: u32| j < 16 && j != i ==> field2_of(r, j) == field2_of(reg, j),
{
    let offset: u32 = 2 * i;
    let r = (reg & !(0x3u32 << offset)) | (v << offset);
    proof {
        lemma_set_field2(reg, i, v, r);
    }
    r
}

/// Read-modify-write of the 4-bit field of slot `s`.
pub fn set_field4(reg: u32, s: u32, v: u32) -> (r: u32)
    requires
        s < 8,
        v < 16,
    ensures
        field4_of(r, s) == v,
        forall|t: u32| t < 8 && t != s ==> field4_of(r, t) == field4_of(reg, t),
{
    let offset: u32 = 4 * s;
    let r = (reg & !(0xfu32 << offset)) | (v << offset);
    proof {
        lemma_set_field4(reg, s, v, r);
    }
    r
}

/// Read-modify-writes of the 1-bit fields of two distinct pins commute: the
/// register ends at the same value whichever pin is written first.
pub proof fn lemma_field1_writes_commute(reg: u32, i: u32, j: u32, vi: u32, vj: u32)
    by (bit_vector)
    requires
        i < 16,
        j < 16,
        i != j,
        vi < 2,
        vj < 2,
    ensures
        (((reg & !(0x1u32 << i)) | (vi << i)) & !(0x1u32 << j)) | (vj << j) == (((reg & !(0x1u32
            << j)) | (vj << j)) & !(0x1u32 << i)) | (vi << i),
{
}

/// Setting one bit leaves every other bit as it was.
pub proof fn lemma_or_bit(reg: u32, i: u32, r: u32)
    by (bit_vector)
    requires
        i < 32,
        r == reg | (0x1u32 << i),
    ensures
        field1_of(r, i) == 1,
        forall|j: u32| j < 32 && j != i ==> field1_of(r, j) == field1_of(reg, j),
{
}

/// Clearing one bit leaves every other bit as it was.
pub proof fn lemma_clear_bit(reg: u32, i: u32, r: u32)
    by (bit_vector)
    requires
        i < 32,
        r == reg & !(0x1u32 << i),
    ensures
        field1_of(r, i) == 0,
        forall|j: u32| j < 32 && j != i ==> field1_of(r, j) == field1_of(reg, j),
{
}

/// Sets bit `i` of `reg`, leaving every other bit as it was.
pub fn or_bit(reg: u32, i: u32) -> (r: u32)
    requires
        i < 32,
    ensures
        field1_of(r, i) == 1,
        forall|j: u32| j < 32 && j != i ==> field1_of(r, j) == field1_of(reg, j),
        r == reg | (0x1u32 << i),
{
    let r = reg | (0x1u32 << i);
    proof {
        lemma_or_bit(reg, i, r);
    }
    r
}

/// Clears bit `i` of `reg`, leaving every other bit as it was.
pub fn clear_bit(reg: u32, i: u32) -> (r: u32)
    requires
        i < 32,
    ensures
        field1_of(r, i) == 0,
        forall|j: u32| j < 32 && j != i ==> field1_of(r, j) == field1_of(reg, j),
        r == reg & !(0x1u32 << i),
{
    let r = reg & !(0x1u32 << i);
    proof {
        lemma_clear_bit(reg, i, r);
    }
    r
}

} // verus!
