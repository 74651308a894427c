//! The exclusive per-pin handles and their typestate transitions.
//!
//! A `Pin` addresses one physical pin of one port and carries its current
//! configuration in its type. Every transition consumes the handle and the
//! handles of exactly the registers the new typestate depends on, performs a
//! verified read-modify-write that touches only this pin's fields, and returns
//! a handle of the new typestate. Output-typed pins additionally expose the
//! atomic set/clear path through the write-only bit-set/bit-reset register,
//! which needs no register handle because each write is a self-contained
//! single word.

use core::marker::PhantomData;
use vstd::prelude::*;

use crate::fields::{
    bit_of, field1_of, field2_of, field4_of, MODE_ALTERNATE, MODE_ANALOG, MODE_INPUT, MODE_OUTPUT,
    PULL_FLOATING, PULL_UP,
};
use crate::markers::{
    AltFn, AltFnNum, Analog, Floating, Input, Low, OpenDrain, Output, OutputType, PullDown,
    PullType, PullUp, PushPull, Speed, AF1, AF14, AF2, AF4, AF5, AF6, AF7,
};
use crate::port::{port_has_pin, PortId};
use crate::registers::{AltFnRegister, AFR, BSRR, MODER, OSPEEDR, OTYPER, PUPDR};

verus! {

/// The half of the pin range that pin `i`'s alternate-function selector sits
/// in: the low register covers pins 0 to 7, the high one pins 8 to 15.
pub open spec fn spec_afr_half(i: u32) -> AltFnRegister {
    if i < 8 {
        AltFnRegister::Low
    } else {
        AltFnRegister::High
    }
}

/// An exclusive handle over one physical pin, in the configuration `MODE`.
/// The identity — which port and which bit index the handle addresses — is
/// fixed at construction and never changes across transitions.
pub struct Pin<MODE> {
    port: PortId,
    index: u8,
    _mode: PhantomData<MODE>,
}

impl<MODE> Pin<MODE> {
    #[verifier::type_invariant]
    spec fn wf(self) -> bool {
        port_has_pin(self.port, self.index as u32)
    }

    /// Which port the pin belongs to.
    pub closed spec fn spec_port(&self) -> PortId {
        self.port
    }

    /// The pin's bit index within its port.
    pub closed spec fn spec_index(&self) -> u32 {
        self.index as u32
    }

    /// The pin's bit index within its port.
    pub fn index(&self) -> (r: u8)
        ensures
            r as u32 == self.spec_index(),
            r < 16,
    {
        proof {
            use_type_invariant(self);
        }
        self.index
    }

    /// Which port the pin belongs to.
    pub fn port(&self) -> (r: PortId)
        ensures
            r == self.spec_port(),
    {
        self.port
    }

    pub(crate) fn new(port: PortId, index: u8) -> (r: Pin<MODE>)
        requires
            port_has_pin(port, index as u32),
        ensures
            r.spec_port() == port,
            r.spec_index() == index as u32,
    {
        Pin { port, index, _mode: PhantomData }
    }

    /// Configures the pin as an input with the given pull state, writing its
    /// mode field and its pull field and no other pin's.
    pub fn into_input<NPT: PullType>(self, pull: NPT, moder: &mut MODER, pupdr: &mut PUPDR) -> (pin:
        Pin<Input<NPT>>)
        requires
            old(moder).spec_port() == self.spec_port(),
            old(pupdr).spec_port() == self.spec_port(),
        ensures
            pin.spec_port() == self.spec_port(),
            pin.spec_index() == self.spec_index(),
            final(moder).spec_port() == old(moder).spec_port(),
            final(pupdr).spec_port() == old(pupdr).spec_port(),
            field2_of(final(moder).spec_bits(), self.spec_index()) == MODE_INPUT,
            field2_of(final(pupdr).spec_bits(), self.spec_index()) == NPT::spec_pull_bits(),
            forall|j: u32|
                j < 16 && j != self.spec_index() ==> field2_of(final(moder).spec_bits(), j)
                    == field2_of(old(moder).spec_bits(), j),
            forall|j: u32|
                j < 16 && j != self.spec_index() ==> field2_of(final(pupdr).spec_bits(), j)
                    == field2_of(old(pupdr).spec_bits(), j),
    {
        proof {
            use_type_invariant(&self);
        }
        let i: u32 = self.index as u32;
        moder.write_field(i, MODE_INPUT);
        pupdr.write_field(i, pull.pull_bits());
        Pin { port: self.port, index: self.index, _mode: PhantomData }
    }

    /// Configures the pin to operate as a floating input pin.
    pub fn into_floating_input(self, moder: &mut MODER, pupdr: &mut PUPDR) -> (pin: Pin<
        Input<Floating>,
    >)
        requires
            old(moder).spec_port() == self.spec_port(),
            old(pupdr).spec_port() == self.spec_port(),
        ensures
            pin.spec_port() == self.spec_port(),
            pin.spec_index() == self.spec_index(),
            final(moder).spec_port() == old(moder).spec_port(),
            final(pupdr).spec_port() == old(pupdr).spec_port(),
            field2_of(final(moder).spec_bits(), self.spec_index()) == MODE_INPUT,
            field2_of(final(pupdr).spec_bits(), self.spec_index()) == PULL_FLOATING,
            forall|j: u32|
                j < 16 && j != self.spec_index() ==> field2_of(final(moder).spec_bits(), j)
                    == field2_of(old(moder).spec_bits(), j),
            forall|j: u32|
                j < 16 && j != self.spec_index() ==> field2_of(final(pupdr).spec_bits(), j)
                    == field2_of(old(pupdr).spec_bits(), j),
    {
        self.into_input(Floating, moder, pupdr)
    }

    /// Configures the pin to operate as a pulled up input pin.
    pub fn into_pull_up_input(self, moder: &mut MODER, pupdr: &mut PUPDR) -> (pin: Pin<
        Input<PullUp>,
    >)
        requires
            old(moder).spec_port() == self.spec_port(),
            old(pupdr).spec_port() == self.spec_port(),
        ensures
            pin.spec_port() == self.spec_port(),
            pin.spec_index() == self.spec_index(),
            final(moder).spec_port() == old(moder).spec_port(),
            final(pupdr).spec_port() == old(pupdr).spec_port(),
            field2_of(final(moder).spec_bits(), self.spec_index()) == MODE_INPUT,
            field2_of(final(pupdr).spec_bits(), self.spec_index()) == PULL_UP,
            forall|j: u32|
                j < 16 && j != self.spec_index() ==> field2_of(final(moder).spec_bits(), j)
                    == field2_of(old(moder).spec_bits(), j),
            forall|j: u32|
                j < 16 && j != self.spec_index() ==> field2_of(final(pupdr).spec_bits(), j)
                    == field2_of(old(pupdr).spec_bits(), j),
    {
        self.into_input(PullUp, moder, pupdr)
    }

    /// Configures the pin to operate as a pulled down input pin.
    pub fn into_pull_down_input(self, moder: &mut MODER, pupdr: &mut PUPDR) -> (pin: Pin<
        Input<PullDown>,
    >)
        requires
            old(moder).spec_port() == self.spec_port(),
            old(pupdr).spec_port() == self.spec_port(),
        ensures
            pin.spec_port() == self.spec_port(),
            pin.spec_index() == self.spec_index(),
            final(moder).spec_port() == old(moder).spec_port(),
            final(pupdr).spec_port() == old(pupdr).spec_port(),
            field2_of(final(moder).spec_bits(), self.spec_index()) == MODE_INPUT,
            field2_of(final(pupdr).spec_bits(), self.spec_index())
                == crate::fields::PULL_DOWN,
            forall|j: u32|
                j < 16 && j != self.spec_index() ==> field2_of(final(moder).spec_bits(), j)
                    == field2_of(old(moder).spec_bits(), j),
            forall|j: u32|
                j < 16 && j != self.spec_index() ==> field2_of(final(pupdr).spec_bits(), j)
                    == field2_of(old(pupdr).spec_bits(), j),
    {
        self.into_input(PullDown, moder, pupdr)
    }

    /// Configures the pin as an output with the given drive type and slew
    /// rate, writing its mode, output-type and speed fields and no other
    /// pin's.
    pub fn into_output<NOT: OutputType, NOS: Speed>(
        self,
        ot: NOT,
        speed: NOS,
        moder: &mut MODER,
        otyper: &mut OTYPER,
        ospeedr: &mut OSPEEDR,
    ) -> (pin: Pin<Output<NOT, NOS>>)
        requires
            old(moder).spec_port() == self.spec_port(),
            old(otyper).spec_port() == self.spec_port(),
            old(ospeedr).spec_port() == self.spec_port(),
        ensures
            pin.spec_port() == self.spec_port(),
            pin.spec_index() == self.spec_index(),
            final(moder).spec_port() == old(moder).spec_port(),
            final(otyper).spec_port() == old(otyper).spec_port(),
            final(ospeedr).spec_port() == old(ospeedr).spec_port(),
            field2_of(final(moder).spec_bits(), self.spec_index()) == MODE_OUTPUT,
            final(otyper).spec_bits() == (old(otyper).spec_bits() & !(0x1u32
                << self.spec_index())) | (NOT::spec_type_bit() << self.spec_index()),
            field1_of(final(otyper).spec_bits(), self.spec_index()) == NOT::spec_type_bit(),
            field2_of(final(ospeedr).spec_bits(), self.spec_index()) == NOS::spec_speed_bits(),
            forall|j: u32|
                j < 16 && j != self.spec_index() ==> field2_of(final(moder).spec_bits(), j)
                    == field2_of(old(moder).spec_bits(), j),
            forall|j: u32|
                j < 16 && j != self.spec_index() ==> field1_of(final(otyper).spec_bits(), j)
                    == field1_of(old(otyper).spec_bits(), j),
            forall|j: u32|
                j < 16 && j != self.spec_index() ==> field2_of(final(ospeedr).spec_bits(), j)
                    == field2_of(old(ospeedr).spec_bits(), j),
    {
        proof {
            use_type_invariant(&self);
        }
        let i: u32 = self.index as u32;
        moder.write_field(i, MODE_OUTPUT);
        otyper.write_field(i, ot.type_bit());
        ospeedr.write_field(i, speed.to_speed_bits());
        Pin { port: self.port, index: self.index, _mode: PhantomData }
    }

    /// Configures the pin to operate as a push-pull output pin, at the low
    /// slew rate the typestate advertises as the safe default.
    pub fn into_push_pull_output(
        self,
        moder: &mut MODER,
        otyper: &mut OTYPER,
        ospeedr: &mut OSPEEDR,
    ) -> (pin: Pin<Output<PushPull, Low>>)
        requires
            old(moder).spec_port() == self.spec_port(),
            old(otyper).spec_port() == self.spec_port(),
            old(ospeedr).spec_port() == self.spec_port(),
        ensures
            pin.spec_port() == self.spec_port(),
            pin.spec_index() == self.spec_index(),
            final(moder).spec_port() == old(moder).spec_port(),
            final(otyper).spec_port() == old(otyper).spec_port(),
            final(ospeedr).spec_port() == old(ospeedr).spec_port(),
            field2_of(final(moder).spec_bits(), self.spec_index()) == MODE_OUTPUT,
            final(otyper).spec_bits() == old(otyper).spec_bits() & !(0x1u32
                << self.spec_index()),
            field1_of(final(otyper).spec_bits(), self.spec_index())
                == crate::fields::TYPE_PUSH_PULL,
            field2_of(final(ospeedr).spec_bits(), self.spec_index())
                == crate::fields::SPEED_LOW,
            forall|j: u32|
                j < 16 && j != self.spec_index() ==> field2_of(final(moder).spec_bits(), j)
                    == field2_of(old(moder).spec_bits(), j),
            forall|j: u32|
                j < 16 && j != self.spec_index() ==> field1_of(final(otyper).spec_bits(), j)
                    == field1_of(old(otyper).spec_bits(), j),
            forall|j: u32|
                j < 16 && j != self.spec_index() ==> field2_of(final(ospeedr).spec_bits(), j)
                    == field2_of(old(ospeedr).spec_bits(), j),
    {
        let ghost i: u32 = self.spec_index();
        let ghost o: u32 = otyper.spec_bits();
        let pin = self.into_output(PushPull, Low, moder, otyper, ospeedr);
        proof {
            assert((o & !(0x1u32 << i)) | (0u32 << i) == o & !(0x1u32 << i)) by (bit_vector);
        }
        pin
    }

    /// Configures the pin to operate as an open-drain output pin, at the low
    /// slew rate the typestate advertises as the safe default.
    pub fn into_open_drain_output(
        self,
        moder: &mut MODER,
        otyper: &mut OTYPER,
        ospeedr: &mut OSPEEDR,
    ) -> (pin: Pin<Output<OpenDrain, Low>>)
        requires
            old(moder).spec_port() == self.spec_port(),
            old(otyper).spec_port() == self.spec_port(),
            old(ospeedr).spec_port() == self.spec_port(),
        ensures
            pin.spec_port() == self.spec_port(),
            pin.spec_index() == self.spec_index(),
            final(moder).spec_port() == old(moder).spec_port(),
            final(otyper).spec_port() == old(otyper).spec_port(),
            final(ospeedr).spec_port() == old(ospeedr).spec_port(),
            field2_of(final(moder).spec_bits(), self.spec_index()) == MODE_OUTPUT,
            final(otyper).spec_bits() == old(otyper).spec_bits() | (0x1u32 << self.spec_index()),
            field1_of(final(otyper).spec_bits(), self.spec_index())
                == crate::fields::TYPE_OPEN_DRAIN,
            field2_of(final(ospeedr).spec_bits(), self.spec_index())
                == crate::fields::SPEED_LOW,
            forall|j: u32|
                j < 16 && j != self.spec_index() ==> field2_of(final(moder).spec_bits(), j)
                    == field2_of(old(moder).spec_bits(), j),
            forall|j: u32|
                j < 16 && j != self.spec_index() ==> field1_of(final(otyper).spec_bits(), j)
                    == field1_of(old(otyper).spec_bits(), j),
            forall|j: u32|
                j < 16 && j != self.spec_index() ==> field2_of(final(ospeedr).spec_bits(), j)
                    == field2_of(old(ospeedr).spec_bits(), j),
    {
        let ghost i: u32 = self.spec_index();
        let ghost o: u32 = otyper.spec_bits();
        let pin = self.into_output(OpenDrain, Low, moder, otyper, ospeedr);
        proof {
            assert((o & !(0x1u32 << i)) | (0x1u32 << i) == o | (0x1u32 << i)) by (bit_vector);
        }
        pin
    }

    /// Configures the pin to operate as an analog pin, writing its mode field
    /// and no other pin's.
    pub fn into_analog(self, moder: &mut MODER) -> (pin: Pin<Analog>)
        requires
            old(moder).spec_port() == self.spec_port(),
        ensures
            pin.spec_port() == self.spec_port(),
            pin.spec_index() == self.spec_index(),
            final(moder).spec_port() == old(moder).spec_port(),
            field2_of(final(moder).spec_bits(), self.spec_index()) == MODE_ANALOG,
            forall|j: u32|
                j < 16 && j != self.spec_index() ==> field2_of(final(moder).spec_bits(), j)
                    == field2_of(old(moder).spec_bits(), j),
    {
        proof {
            use_type_invariant(&self);
        }
        let i: u32 = self.index as u32;
        moder.write_field(i, MODE_ANALOG);
        Pin { port: self.port, index: self.index, _mode: PhantomData }
    }

    /// Routes the given alternate function onto the pin: writes the mode
    /// field to alternate-function and writes the selector into the 4-bit
    /// field at offset `4 * (index % 8)` of the register covering this pin's
    /// half, leaving every other pin's fields unchanged.
    pub fn into_alt_fn<AF: AltFnNum>(self, af: AF, moder: &mut MODER, afr: &mut AFR) -> (pin: Pin<
        AltFn<AF>,
    >)
        requires
            old(moder).spec_port() == self.spec_port(),
            old(afr).spec_port() == self.spec_port(),
            old(afr).spec_half() == spec_afr_half(self.spec_index()),
        ensures
            pin.spec_port() == self.spec_port(),
            pin.spec_index() == self.spec_index(),
            final(moder).spec_port() == old(moder).spec_port(),
            final(afr).spec_port() == old(afr).spec_port(),
            final(afr).spec_half() == old(afr).spec_half(),
            field2_of(final(moder).spec_bits(), self.spec_index()) == MODE_ALTERNATE,
            field4_of(final(afr).spec_bits(), self.spec_index() % 8) == AF::spec_af_bits(),
            forall|j: u32|
                j < 16 && j != self.spec_index() ==> field2_of(final(moder).spec_bits(), j)
                    == field2_of(old(moder).spec_bits(), j),
            forall|t: u32|
                t < 8 && t != self.spec_index() % 8 ==> field4_of(final(afr).spec_bits(), t)
                    == field4_of(old(afr).spec_bits(), t),
    {
        proof {
            use_type_invariant(&self);
        }
        let i: u32 = self.index as u32;
        moder.write_field(i, MODE_ALTERNATE);
        afr.write_field(i % 8, af.alt_fn_num());
        Pin { port: self.port, index: self.index, _mode: PhantomData }
    }

    /// Configures the pin to serve as alternate function 1.
    pub fn into_af1(self, moder: &mut MODER, afr: &mut AFR) -> (pin: Pin<AltFn<AF1>>)
        requires
            old(moder).spec_port() == self.spec_port(),
            old(afr).spec_port() == self.spec_port(),
            old(afr).spec_half() == spec_afr_half(self.spec_index()),
        ensures
            pin.spec_port() == self.spec_port(),
            pin.spec_index() == self.spec_index(),
            final(moder).spec_port() == old(moder).spec_port(),
            final(afr).spec_port() == old(afr).spec_port(),
            final(afr).spec_half() == old(afr).spec_half(),
            field2_of(final(moder).spec_bits(), self.spec_index()) == MODE_ALTERNATE,
            field4_of(final(afr).spec_bits(), self.spec_index() % 8) == 1,
            forall|j: u32|
                j < 16 && j != self.spec_index() ==> field2_of(final(moder).spec_bits(), j)
                    == field2_of(old(moder).spec_bits(), j),
            forall|t: u32|
                t < 8 && t != self.spec_index() % 8 ==> field4_of(final(afr).spec_bits(), t)
                    == field4_of(old(afr).spec_bits(), t),
    {
        self.into_alt_fn(AF1, moder, afr)
    }

    /// Configures the pin to serve as alternate function 2.
    pub fn into_af2(self, moder: &mut MODER, afr: &mut AFR) -> (pin: Pin<AltFn<AF2>>)
        requires
            old(moder).spec_port() == self.spec_port(),
            old(afr).spec_port() == self.spec_port(),
            old(afr).spec_half() == spec_afr_half(self.spec_index()),
        ensures
            pin.spec_port() == self.spec_port(),
            pin.spec_index() == self.spec_index(),
            final(moder).spec_port() == old(moder).spec_port(),
            final(afr).spec_port() == old(afr).spec_port(),
            final(afr).spec_half() == old(afr).spec_half(),
            field2_of(final(moder).spec_bits(), self.spec_index()) == MODE_ALTERNATE,
            field4_of(final(afr).spec_bits(), self.spec_index() % 8) == 2,
            forall|j: u32|
                j < 16 && j != self.spec_index() ==> field2_of(final(moder).spec_bits(), j)
                    == field2_of(old(moder).spec_bits(), j),
            forall|t: u32|
                t < 8 && t != self.spec_index() % 8 ==> field4_of(final(afr).spec_bits(), t)
                    == field4_of(old(afr).spec_bits(), t),
    {
        self.into_alt_fn(AF2, moder, afr)
    }

    /// Configures the pin to serve as alternate function 4.
    pub fn into_af4(self, moder: &mut MODER, afr: &mut AFR) -> (pin: Pin<AltFn<AF4>>)
        requires
            old(moder).spec_port() == self.spec_port(),
            old(afr).spec_port() == self.spec_port(),
            old(afr).spec_half() == spec_afr_half(self.spec_index()),
        ensures
            pin.spec_port() == self.spec_port(),
            pin.spec_index() == self.spec_index(),
            final(moder).spec_port() == old(moder).spec_port(),
            final(afr).spec_port() == old(afr).spec_port(),
            final(afr).spec_half() == old(afr).spec_half(),
            field2_of(final(moder).spec_bits(), self.spec_index()) == MODE_ALTERNATE,
            field4_of(final(afr).spec_bits(), self.spec_index() % 8) == 4,
            forall|j: u32|
                j < 16 && j != self.spec_index() ==> field2_of(final(moder).spec_bits(), j)
                    == field2_of(old(moder).spec_bits(), j),
            forall|t: u32|
                t < 8 && t != self.spec_index() % 8 ==> field4_of(final(afr).spec_bits(), t)
                    == field4_of(old(afr).spec_bits(), t),
    {
        self.into_alt_fn(AF4, moder, afr)
    }

    /// Configures the pin to serve as alternate function 5.
    pub fn into_af5(self, moder: &mut MODER, afr: &mut AFR) -> (pin: Pin<AltFn<AF5>>)
        requires
            old(moder).spec_port() == self.spec_port(),
            old(afr).spec_port() == self.spec_port(),
            old(afr).spec_half() == spec_afr_half(self.spec_index()),
        ensures
            pin.spec_port() == self.spec_port(),
            pin.spec_index() == self.spec_index(),
            final(moder).spec_port() == old(moder).spec_port(),
            final(afr).spec_port() == old(afr).spec_port(),
            final(afr).spec_half() == old(afr).spec_half(),
            field2_of(final(moder).spec_bits(), self.spec_index()) == MODE_ALTERNATE,
            field4_of(final(afr).spec_bits(), self.spec_index() % 8) == 5,
            forall|j: u32|
                j < 16 && j != self.spec_index() ==> field2_of(final(moder).spec_bits(), j)
                    == field2_of(old(moder).spec_bits(), j),
            forall|t: u32|
                t < 8 && t != self.spec_index() % 8 ==> field4_of(final(afr).spec_bits(), t)
                    == field4_of(old(afr).spec_bits(), t),
    {
        self.into_alt_fn(AF5, moder, afr)
    }

    /// Configures the pin to serve as alternate function 6.
    pub fn into_af6(self, moder: &mut MODER, afr: &mut AFR) -> (pin: Pin<AltFn<AF6>>)
        requires
            old(moder).spec_port() == self.spec_port(),
            old(afr).spec_port() == self.spec_port(),
            old(afr).spec_half() == spec_afr_half(self.spec_index()),
        ensures
            pin.spec_port() == self.spec_port(),
            pin.spec_index() == self.spec_index(),
            final(moder).spec_port() == old(moder).spec_port(),
            final(afr).spec_port() == old(afr).spec_port(),
            final(afr).spec_half() == old(afr).spec_half(),
            field2_of(final(moder).spec_bits(), self.spec_index()) == MODE_ALTERNATE,
            field4_of(final(afr).spec_bits(), self.spec_index() % 8) == 6,
            forall|j: u32|
                j < 16 && j != self.spec_index() ==> field2_of(final(moder).spec_bits(), j)
                    == field2_of(old(moder).spec_bits(), j),
            forall|t: u32|
                t < 8 && t != self.spec_index() % 8 ==> field4_of(final(afr).spec_bits(), t)
                    == field4_of(old(afr).spec_bits(), t),
    {
        self.into_alt_fn(AF6, moder, afr)
    }

    /// Configures the pin to serve as alternate function 7.
    pub fn into_af7(self, moder: &mut MODER, afr: &mut AFR) -> (pin: Pin<AltFn<AF7>>)
        requires
            old(moder).spec_port() == self.spec_port(),
            old(afr).spec_port() == self.spec_port(),
            old(afr).spec_half() == spec_afr_half(self.spec_index()),
        ensures
            pin.spec_port() == self.spec_port(),
            pin.spec_index() == self.spec_index(),
            final(moder).spec_port() == old(moder).spec_port(),
            final(afr).spec_port() == old(afr).spec_port(),
            final(afr).spec_half() == old(afr).spec_half(),
            field2_of(final(moder).spec_bits(), self.spec_index()) == MODE_ALTERNATE,
            field4_of(final(afr).spec_bits(), self.spec_index() % 8) == 7,
            forall|j: u32|
                j < 16 && j != self.spec_index() ==> field2_of(final(moder).spec_bits(), j)
                    == field2_of(old(moder).spec_bits(), j),
            forall|t: u32|
                t < 8 && t != self.spec_index() % 8 ==> field4_of(final(afr).spec_bits(), t)
                    == field4_of(old(afr).spec_bits(), t),
    {
        self.into_alt_fn(AF7, moder, afr)
    }

    /// Configures the pin to serve as alternate function 14.
    pub fn into_af14(self, moder: &mut MODER, afr: &mut AFR) -> (pin: Pin<AltFn<AF14>>)
        requires
            old(moder).spec_port() == self.spec_port(),
            old(afr).spec_port() == self.spec_port(),
            old(afr).spec_half() == spec_afr_half(self.spec_index()),
        ensures
            pin.spec_port() == self.spec_port(),
            pin.spec_index() == self.spec_index(),
            final(moder).spec_port() == old(moder).spec_port(),
            final(afr).spec_port() == old(afr).spec_port(),
            final(afr).spec_half() == old(afr).spec_half(),
            field2_of(final(moder).spec_bits(), self.spec_index()) == MODE_ALTERNATE,
            field4_of(final(afr).spec_bits(), self.spec_index() % 8) == 14,
            forall|j: u32|
                j < 16 && j != self.spec_index() ==> field2_of(final(moder).spec_bits(), j)
                    == field2_of(old(moder).spec_bits(), j),
            forall|t: u32|
                t < 8 && t != self.spec_index() % 8 ==> field4_of(final(afr).spec_bits(), t)
                    == field4_of(old(afr).spec_bits(), t),
    {
        self.into_alt_fn(AF14, moder, afr)
    }
}

impl<PULL: PullType> Pin<Input<PULL>> {
    /// Changes only the pull state of an input pin, so it borrows only the
    /// pull register: writes this pin's pull field and no other pin's.
    pub fn pull_type<NPT: PullType>(self, pull: NPT, pupdr: &mut PUPDR) -> (pin: Pin<Input<NPT>>)
        requires
            old(pupdr).spec_port() == self.spec_port(),
        ensures
            pin.spec_port() == self.spec_port(),
            pin.spec_index() == self.spec_index(),
            final(pupdr).spec_port() == old(pupdr).spec_port(),
            field2_of(final(pupdr).spec_bits(), self.spec_index()) == NPT::spec_pull_bits(),
            forall|j: u32|
                j < 16 && j != self.spec_index() ==> field2_of(final(pupdr).spec_bits(), j)
                    == field2_of(old(pupdr).spec_bits(), j),
    {
        proof {
            use_type_invariant(&self);
        }
        let i: u32 = self.index as u32;
        pupdr.write_field(i, pull.pull_bits());
        Pin { port: self.port, index: self.index, _mode: PhantomData }
    }
}

impl<AF: AltFnNum> Pin<AltFn<AF>> {
    /// Configures the slew rate of an alternate-function pin, writing its
    /// speed field and no other pin's. The selector the typestate carries is
    /// unchanged.
    pub fn set_speed<NOS: Speed>(self, ospeedr: &mut OSPEEDR, speed: NOS) -> (pin: Pin<AltFn<AF>>)
        requires
            old(ospeedr).spec_port() == self.spec_port(),
        ensures
            pin.spec_port() == self.spec_port(),
            pin.spec_index() == self.spec_index(),
            final(ospeedr).spec_port() == old(ospeedr).spec_port(),
            field2_of(final(ospeedr).spec_bits(), self.spec_index()) == NOS::spec_speed_bits(),
            forall|j: u32|
                j < 16 && j != self.spec_index() ==> field2_of(final(ospeedr).spec_bits(), j)
                    == field2_of(old(ospeedr).spec_bits(), j),
    {
        proof {
            use_type_invariant(&self);
        }
        let i: u32 = self.index as u32;
        ospeedr.write_field(i, speed.to_speed_bits());
        Pin { port: self.port, index: self.index, _mode: PhantomData }
    }

    /// Configures the drive type of an alternate-function pin, writing its
    /// output-type bit and no other pin's. The selector the typestate carries
    /// is unchanged.
    pub fn output_type<NOT: OutputType>(self, ot: NOT, otyper: &mut OTYPER) -> (pin: Pin<
        AltFn<AF>,
    >)
        requires
            old(otyper).spec_port() == self.spec_port(),
        ensures
            pin.spec_port() == self.spec_port(),
            pin.spec_index() == self.spec_index(),
            final(otyper).spec_port() == old(otyper).spec_port(),
            final(otyper).spec_bits() == (old(otyper).spec_bits() & !(0x1u32
                << self.spec_index())) | (NOT::spec_type_bit() << self.spec_index()),
            field1_of(final(otyper).spec_bits(), self.spec_index()) == NOT::spec_type_bit(),
            forall|j: u32|
                j < 16 && j != self.spec_index() ==> field1_of(final(otyper).spec_bits(), j)
                    == field1_of(old(otyper).spec_bits(), j),
    {
        proof {
            use_type_invariant(&self);
        }
        let i: u32 = self.index as u32;
        otyper.write_field(i, ot.type_bit());
        Pin { port: self.port, index: self.index, _mode: PhantomData }
    }
}

impl<OT: OutputType, OS: Speed> Pin<Output<OT, OS>> {
    /// Configures the pin's drive type, writing its output-type bit and no
    /// other pin's; the new drive is carried in the returned handle's type.
    pub fn output_type<NOT: OutputType>(self, ot: NOT, otyper: &mut OTYPER) -> (pin: Pin<
        Output<NOT, OS>,
    >)
        requires
            old(otyper).spec_port() == self.spec_port(),
        ensures
            pin.spec_port() == self.spec_port(),
            pin.spec_index() == self.spec_index(),
            final(otyper).spec_port() == old(otyper).spec_port(),
            final(otyper).spec_bits() == (old(otyper).spec_bits() & !(0x1u32
                << self.spec_index())) | (NOT::spec_type_bit() << self.spec_index()),
            field1_of(final(otyper).spec_bits(), self.spec_index()) == NOT::spec_type_bit(),
            forall|j: u32|
                j < 16 && j != self.spec_index() ==> field1_of(final(otyper).spec_bits(), j)
                    == field1_of(old(otyper).spec_bits(), j),
    {
        proof {
            use_type_invariant(&self);
        }
        let i: u32 = self.index as u32;
        otyper.write_field(i, ot.type_bit());
        Pin { port: self.port, index: self.index, _mode: PhantomData }
    }

    /// Configures the pin's slew rate, writing its speed field and no other
    /// pin's; the new rate is carried in the returned handle's type.
    pub fn set_speed<NOS: Speed>(self, ospeedr: &mut OSPEEDR, speed: NOS) -> (pin: Pin<
        Output<OT, NOS>,
    >)
        requires
            old(ospeedr).spec_port() == self.spec_port(),
        ensures
            pin.spec_port() == self.spec_port(),
            pin.spec_index() == self.spec_index(),
            final(ospeedr).spec_port() == old(ospeedr).spec_port(),
            field2_of(final(ospeedr).spec_bits(), self.spec_index()) == NOS::spec_speed_bits(),
            forall|j: u32|
                j < 16 && j != self.spec_index() ==> field2_of(final(ospeedr).spec_bits(), j)
                    == field2_of(old(ospeedr).spec_bits(), j),
    {
        proof {
            use_type_invariant(&self);
        }
        let i: u32 = self.index as u32;
        ospeedr.write_field(i, speed.to_speed_bits());
        Pin { port: self.port, index: self.index, _mode: PhantomData }
    }

    /// Drives the pin high: hands the bit-set/bit-reset register the single
    /// word with only bit `index` set.
    pub fn set_high(&mut self, bsrr: &mut BSRR)
        requires
            old(bsrr).spec_port() == old(self).spec_port(),
        ensures
            *final(self) == *old(self),
            final(bsrr).spec_port() == old(bsrr).spec_port(),
            final(bsrr)@ == old(bsrr)@.push(0x1u32 << old(self).spec_index()),
    {
        proof {
            use_type_invariant(&*self);
        }
        let i: u32 = self.index as u32;
        bsrr.write_word(0x1u32 << i);
    }

    /// Drives the pin low: hands the bit-set/bit-reset register the single
    /// word with only bit `16 + index` set.
    pub fn set_low(&mut self, bsrr: &mut BSRR)
        requires
            old(bsrr).spec_port() == old(self).spec_port(),
        ensures
            *final(self) == *old(self),
            final(bsrr).spec_port() == old(bsrr).spec_port(),
            final(bsrr)@ == old(bsrr)@.push(0x1u32 << ((16 + old(self).spec_index()) as u32)),
    {
        proof {
            use_type_invariant(&*self);
        }
        let i: u32 = 16 + (self.index as u32);
        bsrr.write_word(0x1u32 << i);
    }

    /// Erases the pin's compile-time identity, keeping the output typestate.
    /// Useful for collecting pins that differ only in index into one
    /// homogeneous collection; the bit offset is then computed at run time on
    /// every set/clear. Irreversible: an erased pin offers no transitions.
    pub fn downgrade(self) -> (r: PXx<Output<OT, OS>>)
        ensures
            r.spec_port() == self.spec_port(),
            r.spec_index() == self.spec_index(),
    {
        proof {
            use_type_invariant(&self);
        }
        PXx { port: self.port, index: self.index, _mode: PhantomData }
    }
}

impl<OS: Speed> Pin<Output<OpenDrain, OS>> {
    /// Enables or disables the internal pull-up of an open-drain output pin,
    /// writing its pull field and no other pin's.
    pub fn internal_pull_up(&mut self, pupdr: &mut PUPDR, on: bool)
        requires
            old(pupdr).spec_port() == old(self).spec_port(),
        ensures
            *final(self) == *old(self),
            final(pupdr).spec_port() == old(pupdr).spec_port(),
            field2_of(final(pupdr).spec_bits(), old(self).spec_index()) == if on {
                PULL_UP
            } else {
                PULL_FLOATING
            },
            forall|j: u32|
                j < 16 && j != old(self).spec_index() ==> field2_of(final(pupdr).spec_bits(), j)
                    == field2_of(old(pupdr).spec_bits(), j),
    {
        proof {
            use_type_invariant(&*self);
        }
        let i: u32 = self.index as u32;
        let v: u32 = if on {
            PULL_UP
        } else {
            PULL_FLOATING
        };
        pupdr.write_field(i, v);
    }
}

/// A partially erased pin: the port and bit index are stored at run time, and
/// only the output typestate is kept, so differently-indexed output pins can
/// share one collection.
pub struct PXx<MODE> {
    port: PortId,
    index: u8,
    _mode: PhantomData<MODE>,
}

impl<MODE> PXx<MODE> {
    #[verifier::type_invariant]
    spec fn wf(self) -> bool {
        port_has_pin(self.port, self.index as u32)
    }

    /// Which port the pin belongs to.
    pub closed spec fn spec_port(&self) -> PortId {
        self.port
    }

    /// The pin's bit index within its port.
    pub closed spec fn spec_index(&self) -> u32 {
        self.index as u32
    }

    /// The pin's bit index within its port.
    pub fn index(&self) -> (r: u8)
        ensures
            r as u32 == self.spec_index(),
            r < 16,
    {
        proof {
            use_type_invariant(self);
        }
        self.index
    }

    /// Which port the pin belongs to.
    pub fn port(&self) -> (r: PortId)
        ensures
            r == self.spec_port(),
    {
        self.port
    }
}

impl<OT: OutputType, OS: Speed> PXx<Output<OT, OS>> {
    /// Drives the pin high: hands the bit-set/bit-reset register the single
    /// word with only bit `index` set, the offset computed at run time.
    pub fn set_high(&mut self, bsrr: &mut BSRR)
        requires
            old(bsrr).spec_port() == old(self).spec_port(),
        ensures
            *final(self) == *old(self),
            final(bsrr).spec_port() == old(bsrr).spec_port(),
            final(bsrr)@ == old(bsrr)@.push(0x1u32 << old(self).spec_index()),
    {
        proof {
            use_type_invariant(&*self);
        }
        let i: u32 = self.index as u32;
        bsrr.write_word(0x1u32 << i);
    }

    /// Drives the pin low: hands the bit-set/bit-reset register the single
    /// word with only bit `16 + index` set, the offset computed at run time.
    pub fn set_low(&mut self, bsrr: &mut BSRR)
        requires
            old(bsrr).spec_port() == old(self).spec_port(),
        ensures
            *final(self) == *old(self),
            final(bsrr).spec_port() == old(bsrr).spec_port(),
            final(bsrr)@ == old(bsrr)@.push(0x1u32 << ((16 + old(self).spec_index()) as u32)),
    {
        proof {
            use_type_invariant(&*self);
        }
        let i: u32 = 16 + (self.index as u32);
        bsrr.write_word(0x1u32 << i);
    }
}

/// Driving a pin high and then low hands the bit-set/bit-reset register two
/// independent single-bit words, never a combined read-modify-write: the first
/// word carries exactly bit `i`, the second exactly bit `16 + i`, and the two
/// never overlap.
pub proof fn lemma_level_words_single_bit(i: u32)
    by (bit_vector)
    requires
        i < 16,
    ensures
        bit_of(0x1u32 << i, i),
        forall|b: u32| b < 32 && b != i ==> !(#[trigger] bit_of(0x1u32 << i, b)),
        bit_of(0x1u32 << ((16 + i) as u32), (16 + i) as u32),
        forall|b: u32|
            b < 32 && b != 16 + i ==> !(#[trigger] bit_of(0x1u32 << ((16 + i) as u32), b)),
        (0x1u32 << i) & (0x1u32 << ((16 + i) as u32)) == 0,
{
}

/// Two output pins of distinct indices write to distinct bits of the
/// bit-set/bit-reset register, whatever order they are driven in: their words
/// differ and share no set bit.
pub proof fn lemma_distinct_pins_distinct_words(i: u32, j: u32)
    by (bit_vector)
    requires
        i < 16,
        j < 16,
        i != j,
    ensures
        (0x1u32 << i) != (0x1u32 << j),
        (0x1u32 << i) & (0x1u32 << j) == 0,
{
}

/// Collecting erased output pins and driving each high writes each pin's own
/// bit whatever order the pins are taken in: the register receives the same
/// two words either way round.
pub proof fn lemma_write_order_immaterial(s: Seq<u32>, i: u32, j: u32)
    ensures
        s.push(0x1u32 << i).push(0x1u32 << j).to_multiset() == s.push(0x1u32 << j).push(
            0x1u32 << i,
        ).to_multiset(),
{
    broadcast use vstd::seq_lib::group_to_multiset_ensures;

    let a = 0x1u32 << i;
    let b = 0x1u32 << j;
    assert(s.push(a).push(b).to_multiset() =~= s.to_multiset().insert(a).insert(b));
    assert(s.push(b).push(a).to_multiset() =~= s.to_multiset().insert(b).insert(a));
    assert(s.to_multiset().insert(a).insert(b) =~= s.to_multiset().insert(b).insert(a));
}

} // verus!
