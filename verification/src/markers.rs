//! Zero-sized marker types for each axis of a pin's configuration, and the
//! traits that map each marker to the field value its register encoding uses.
//!
//! The markers compose into a pin's type: `Input<Floating>`,
//! `Output<PushPull, Low>`, `AltFn<AF7>`, `Analog`. A transition method is
//! only offered on the typestates it is valid for, so a program that tries an
//! invalid operation does not compile.

use core::marker::PhantomData;
use vstd::prelude::*;

use crate::fields::{
    MODE_ALTERNATE, MODE_ANALOG, MODE_INPUT, MODE_OUTPUT, PULL_DOWN, PULL_FLOATING, PULL_UP,
    SPEED_FAST, SPEED_HIGH, SPEED_LOW, SPEED_MEDIUM, TYPE_OPEN_DRAIN, TYPE_PUSH_PULL,
};

verus! {

/// A pull-resistor state, as the 2-bit value the pull register encodes it by.
pub trait PullType {
    /// The pull field value this marker stands for.
    spec fn spec_pull_bits() -> u32;

    /// The pull field value this marker stands for.
    fn pull_bits(self) -> (r: u32)
        ensures
            r == Self::spec_pull_bits(),
            r < 4,
    ;
}

/// No pull resistor (type state).
pub struct Floating;

impl PullType for Floating {
    open spec fn spec_pull_bits() -> u32 {
        PULL_FLOATING
    }

    fn pull_bits(self) -> u32 {
        PULL_FLOATING
    }
}

/// Pull-up resistor (type state).
pub struct PullUp;

impl PullType for PullUp {
    open spec fn spec_pull_bits() -> u32 {
        PULL_UP
    }

    fn pull_bits(self) -> u32 {
        PULL_UP
    }
}

/// Pull-down resistor (type state).
pub struct PullDown;

impl PullType for PullDown {
    open spec fn spec_pull_bits() -> u32 {
        PULL_DOWN
    }

    fn pull_bits(self) -> u32 {
        PULL_DOWN
    }
}

/// An output drive type, as the 1-bit value the output-type register encodes
/// it by.
pub trait OutputType {
    /// The output-type field value this marker stands for.
    spec fn spec_type_bit() -> u32;

    /// The output-type field value this marker stands for.
    fn type_bit(self) -> (r: u32)
        ensures
            r == Self::spec_type_bit(),
            r < 2,
    ;
}

/// Push-pull drive (type state).
pub struct PushPull;

impl OutputType for PushPull {
    open spec fn spec_type_bit() -> u32 {
        TYPE_PUSH_PULL
    }

    fn type_bit(self) -> u32 {
        TYPE_PUSH_PULL
    }
}

/// Open-drain drive (type state).
pub struct OpenDrain;

impl OutputType for OpenDrain {
    open spec fn spec_type_bit() -> u32 {
        TYPE_OPEN_DRAIN
    }

    fn type_bit(self) -> u32 {
        TYPE_OPEN_DRAIN
    }
}

/// An output slew rate, as the 2-bit value the speed register encodes it by.
pub trait Speed {
    /// The speed field value this marker stands for.
    spec fn spec_speed_bits() -> u32;

    /// The speed field value this marker stands for.
    fn to_speed_bits(self) -> (r: u32)
        ensures
            r == Self::spec_speed_bits(),
            r < 4,
    ;
}

/// Low slew rate (type state).
pub struct Low;

impl Speed for Low {
    open spec fn spec_speed_bits() -> u32 {
        SPEED_LOW
    }

    fn to_speed_bits(self) -> u32 {
        SPEED_LOW
    }
}

/// Medium slew rate (type state).
pub struct Medium;

impl Speed for Medium {
    open spec fn spec_speed_bits() -> u32 {
        SPEED_MEDIUM
    }

    fn to_speed_bits(self) -> u32 {
        SPEED_MEDIUM
    }
}

/// Fast slew rate (type state).
pub struct Fast;

impl Speed for Fast {
    open spec fn spec_speed_bits() -> u32 {
        SPEED_FAST
    }

    fn to_speed_bits(self) -> u32 {
        SPEED_FAST
    }
}

/// High slew rate (type state).
pub struct High;

impl Speed for High {
    open spec fn spec_speed_bits() -> u32 {
        SPEED_HIGH
    }

    fn to_speed_bits(self) -> u32 {
        SPEED_HIGH
    }
}

/// An alternate-function selector, as the 4-bit value the alternate-function
/// registers encode it by. The selector of each marker is a fixed constant,
/// matching the fixed silicon wiring of each function to each pin.
pub trait AltFnNum {
    /// The selector value this marker stands for.
    spec fn spec_af_bits() -> u32;

    /// The selector value this marker stands for.
    fn alt_fn_num(self) -> (r: u32)
        ensures
            r == Self::spec_af_bits(),
            r < 16,
    ;
}

/// Alternate function 0 (type state).
pub struct AF0;

/// Alternate function 1 (type state).
pub struct AF1;

/// Alternate function 2 (type state).
pub struct AF2;

/// Alternate function 3 (type state).
pub struct AF3;

/// Alternate function 4 (type state).
pub struct AF4;

/// Alternate function 5 (type state).
pub struct AF5;

/// Alternate function 6 (type state).
pub struct AF6;

/// Alternate function 7 (type state).
pub struct AF7;

/// Alternate function 8 (type state).
pub struct AF8;

/// Alternate function 9 (type state).
pub struct AF9;

/// Alternate function 10 (type state).
pub struct AF10;

/// Alternate function 11 (type state).
pub struct AF11;

/// Alternate function 12 (type state).
pub struct AF12;

/// Alternate function 13 (type state).
pub struct AF13;

/// Alternate function 14 (type state).
pub struct AF14;

/// Alternate function 15 (type state).
pub struct AF15;

impl AltFnNum for AF0 {
    open spec fn spec_af_bits() -> u32 {
        0
    }

    fn alt_fn_num(self) -> u32 {
        0
    }
}

impl AltFnNum for AF1 {
    open spec fn spec_af_bits() -> u32 {
        1
    }

    fn alt_fn_num(self) -> u32 {
        1
    }
}

impl AltFnNum for AF2 {
    open spec fn spec_af_bits() -> u32 {
        2
    }

    fn alt_fn_num(self) -> u32 {
        2
    }
}

impl AltFnNum for AF3 {
    open spec fn spec_af_bits() -> u32 {
        3
    }

    fn alt_fn_num(self) -> u32 {
        3
    }
}

impl AltFnNum for AF4 {
    open spec fn spec_af_bits() -> u32 {
        4
    }

    fn alt_fn_num(self) -> u32 {
        4
    }
}

impl AltFnNum for AF5 {
    open spec fn spec_af_bits() -> u32 {
        5
    }

    fn alt_fn_num(self) -> u32 {
        5
    }
}

impl AltFnNum for AF6 {
    open spec fn spec_af_bits() -> u32 {
        6
    }

    fn alt_fn_num(self) -> u32 {
        6
    }
}

impl AltFnNum for AF7 {
    open spec fn spec_af_bits() -> u32 {
        7
    }

    fn alt_fn_num(self) -> u32 {
        7
    }
}

impl AltFnNum for AF8 {
    open spec fn spec_af_bits() -> u32 {
        8
    }

    fn alt_fn_num(self) -> u32 {
        8
    }
}

impl AltFnNum for AF9 {
    open spec fn spec_af_bits() -> u32 {
        9
    }

    fn alt_fn_num(self) -> u32 {
        9
    }
}

impl AltFnNum for AF10 {
    open spec fn spec_af_bits() -> u32 {
        10
    }

    fn alt_fn_num(self) -> u32 {
        10
    }
}

impl AltFnNum for AF11 {
    open spec fn spec_af_bits() -> u32 {
        11
    }

    fn alt_fn_num(self) -> u32 {
        11
    }
}

impl AltFnNum for AF12 {
    open spec fn spec_af_bits() -> u32 {
        12
    }

    fn alt_fn_num(self) -> u32 {
        12
    }
}

impl AltFnNum for AF13 {
    open spec fn spec_af_bits() -> u32 {
        13
    }

    fn alt_fn_num(self) -> u32 {
        13
    }
}

impl AltFnNum for AF14 {
    open spec fn spec_af_bits() -> u32 {
        14
    }

    fn alt_fn_num(self) -> u32 {
        14
    }
}

impl AltFnNum for AF15 {
    open spec fn spec_af_bits() -> u32 {
        15
    }

    fn alt_fn_num(self) -> u32 {
        15
    }
}

/// A pin's direction or function, as the 2-bit value the mode register
/// encodes it by. Exactly one variant holds over a handle's lifetime;
/// transitions consume the handle and return one of the new typestate.
pub trait PinMode {
    /// The mode field value this typestate stands for.
    spec fn spec_mode_bits() -> u32;
}

/// Input mode (type state), with its pull-resistor state.
pub struct Input<PULL: PullType> {
    _pull: PhantomData<PULL>,
}

impl<PULL: PullType> PinMode for Input<PULL> {
    open spec fn spec_mode_bits() -> u32 {
        MODE_INPUT
    }
}

/// Output mode (type state), with its drive type and slew rate.
pub struct Output<OT: OutputType, OS: Speed> {
    _type: PhantomData<OT>,
    _speed: PhantomData<OS>,
}

impl<OT: OutputType, OS: Speed> PinMode for Output<OT, OS> {
    open spec fn spec_mode_bits() -> u32 {
        MODE_OUTPUT
    }
}

/// Alternate-function mode (type state), with its selector.
pub struct AltFn<AF: AltFnNum> {
    _num: PhantomData<AF>,
}

impl<AF: AltFnNum> PinMode for AltFn<AF> {
    open spec fn spec_mode_bits() -> u32 {
        MODE_ALTERNATE
    }
}

/// Analog mode (type state).
pub struct Analog;

impl PinMode for Analog {
    open spec fn spec_mode_bits() -> u32 {
        MODE_ANALOG
    }
}

} // verus!
