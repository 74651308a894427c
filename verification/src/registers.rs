//! Shared register handles. Each handle grants the exclusive right to
//! read-modify-write one configuration register of one port, and owns that
//! register's modelled value; borrowing the handle into a transition is what
//! serializes access to the register within one thread of control.

use vstd::prelude::*;

use crate::fields::{
    clear_bit, field1_of, field2_of, field4_of, or_bit, set_field1, set_field2, set_field4,
};
use crate::port::PortId;

verus! {

/// Which half of the pin range an alternate-function register covers: the low
/// register carries the selectors of pins 0 to 7, the high one of pins 8 to 15.
#[derive(Clone, Copy, PartialEq, Eq, Structural, Debug)]
pub enum AltFnRegister {
    /// Selectors of pins 0 to 7.
    Low,
    /// Selectors of pins 8 to 15.
    High,
}

/// The mode register handle: a 2-bit direction/function field per pin.
pub struct MODER {
    port: PortId,
    bits: u32,
}

impl MODER {
    /// Which port's mode register this handle owns.
    pub closed spec fn spec_port(&self) -> PortId {
        self.port
    }

    /// The register's value.
    pub closed spec fn spec_bits(&self) -> u32 {
        self.bits
    }

    /// The register's value.
    pub fn bits(&self) -> (r: u32)
        ensures
            r == self.spec_bits(),
    {
        self.bits
    }

    pub(crate) fn new(port: PortId, bits: u32) -> (r: MODER)
        ensures
            r.spec_port() == port,
            r.spec_bits() == bits,
    {
        MODER { port, bits }
    }

    /// Read-modify-write of pin `i`'s mode field.
    pub(crate) fn write_field(&mut self, i: u32, v: u32)
        requires
            i < 16,
            v < 4,
        ensures
            final(self).spec_port() == old(self).spec_port(),
            field2_of(final(self).spec_bits(), i) == v,
            forall|j: u32|
                j < 16 && j != i ==> field2_of(final(self).spec_bits(), j) == field2_of(
                    old(self).spec_bits(),
                    j,
                ),
    {
        self.bits = set_field2(self.bits, i, v);
    }
}

/// The output-type register handle: a 1-bit drive-type field per pin.
pub struct OTYPER {
    port: PortId,
    bits: u32,
}

impl OTYPER {
    /// Which port's output-type register this handle owns.
    pub closed spec fn spec_port(&self) -> PortId {
        self.port
    }

    /// The register's value.
    pub closed spec fn spec_bits(&self) -> u32 {
        self.bits
    }

    /// The register's value.
    pub fn bits(&self) -> (r: u32)
        ensures
            r == self.spec_bits(),
    {
        self.bits
    }

    pub(crate) fn new(port: PortId, bits: u32) -> (r: OTYPER)
        ensures
            r.spec_port() == port,
            r.spec_bits() == bits,
    {
        OTYPER { port, bits }
    }

    /// Read-modify-write of pin `i`'s output-type bit. The exact equation
    /// pins the whole register down, reserved upper bits included.
    pub(crate) fn write_field(&mut self, i: u32, v: u32)
        requires
            i < 16,
            v < 2,
        ensures
            final(self).spec_port() == old(self).spec_port(),
            final(self).spec_bits() == (old(self).spec_bits() & !(0x1u32 << i)) | (v << i),
            field1_of(final(self).spec_bits(), i) == v,
            forall|j: u32|
                j < 16 && j != i ==> field1_of(final(self).spec_bits(), j) == field1_of(
                    old(self).spec_bits(),
                    j,
                ),
    {
        self.bits = set_field1(self.bits, i, v);
    }
}

/// The speed register handle: a 2-bit slew-rate field per pin.
pub struct OSPEEDR {
    port: PortId,
    bits: u32,
}

impl OSPEEDR {
    /// Which port's speed register this handle owns.
    pub closed spec fn spec_port(&self) -> PortId {
        self.port
    }

    /// The register's value.
    pub closed spec fn spec_bits(&self) -> u32 {
        self.bits
    }

    /// The register's value.
    pub fn bits(&self) -> (r: u32)
        ensures
            r == self.spec_bits(),
    {
        self.bits
    }

    pub(crate) fn new(port: PortId, bits: u32) -> (r: OSPEEDR)
        ensures
            r.spec_port() == port,
            r.spec_bits() == bits,
    {
        OSPEEDR { port, bits }
    }

    /// Read-modify-write of pin `i`'s speed field.
    pub(crate) fn write_field(&mut self, i: u32, v: u32)
        requires
            i < 16,
            v < 4,
        ensures
            final(self).spec_port() == old(self).spec_port(),
            field2_of(final(self).spec_bits(), i) == v,
            forall|j: u32|
                j < 16 && j != i ==> field2_of(final(self).spec_bits(), j) == field2_of(
                    old(self).spec_bits(),
                    j,
                ),
    {
        self.bits = set_field2(self.bits, i, v);
    }
}

/// The pull register handle: a 2-bit pull-resistor field per pin.
pub struct PUPDR {
    port: PortId,
    bits: u32,
}

impl PUPDR {
    /// Which port's pull register this handle owns.
    pub closed spec fn spec_port(&self) -> PortId {
        self.port
    }

    /// The register's value.
    pub closed spec fn spec_bits(&self) -> u32 {
        self.bits
    }

    /// The register's value.
    pub fn bits(&self) -> (r: u32)
        ensures
            r == self.spec_bits(),
    {
        self.bits
    }

    pub(crate) fn new(port: PortId, bits: u32) -> (r: PUPDR)
        ensures
            r.spec_port() == port,
            r.spec_bits() == bits,
    {
        PUPDR { port, bits }
    }

    /// Read-modify-write of pin `i`'s pull field.
    pub(crate) fn write_field(&mut self, i: u32, v: u32)
        requires
            i < 16,
            v < 4,
        ensures
            final(self).spec_port() == old(self).spec_port(),
            field2_of(final(self).spec_bits(), i) == v,
            forall|j: u32|
                j < 16 && j != i ==> field2_of(final(self).spec_bits(), j) == field2_of(
                    old(self).spec_bits(),
                    j,
                ),
    {
        self.bits = set_field2(self.bits, i, v);
    }
}

/// An alternate-function register handle: a 4-bit selector field for each of
/// the eight pins of one half of the port.
pub struct AFR {
    port: PortId,
    half: AltFnRegister,
    bits: u32,
}

impl AFR {
    /// Which port's alternate-function register this handle owns.
    pub closed spec fn spec_port(&self) -> PortId {
        self.port
    }

    /// Which half of the pin range this register covers.
    pub closed spec fn spec_half(&self) -> AltFnRegister {
        self.half
    }

    /// The register's value.
    pub closed spec fn spec_bits(&self) -> u32 {
        self.bits
    }

    /// The register's value.
    pub fn bits(&self) -> (r: u32)
        ensures
            r == self.spec_bits(),
    {
        self.bits
    }

    /// Which half of the pin range this register covers.
    pub fn half(&self) -> (r: AltFnRegister)
        ensures
            r == self.spec_half(),
    {
        self.half
    }

    pub(crate) fn new(port: PortId, half: AltFnRegister, bits: u32) -> (r: AFR)
        ensures
            r.spec_port() == port,
            r.spec_half() == half,
            r.spec_bits() == bits,
    {
        AFR { port, half, bits }
    }

    /// Read-modify-write of slot `s`'s selector field; the slot of pin `i` is
    /// `i % 8`.
    pub(crate) fn write_field(&mut self, s: u32, v: u32)
        requires
            s < 8,
            v < 16,
        ensures
            final(self).spec_port() == old(self).spec_port(),
            final(self).spec_half() == old(self).spec_half(),
            field4_of(final(self).spec_bits(), s) == v,
            forall|t: u32|
                t < 8 && t != s ==> field4_of(final(self).spec_bits(), t) == field4_of(
                    old(self).spec_bits(),
                    t,
                ),
    {
        self.bits = set_field4(self.bits, s, v);
    }
}

/// The write-only bit-set/bit-reset register, modelled as the log of the words
/// it has received. Writing bit `i` drives pin `i` high, writing bit `16 + i`
/// drives it low, and a zero bit is a no-op, so each write is a single
/// self-contained word and never a read-modify-write.
pub struct BSRR {
    port: PortId,
    writes: Vec<u32>,
}

impl View for BSRR {
    type V = Seq<u32>;

    closed spec fn view(&self) -> Seq<u32> {
        self.writes@
    }
}

impl BSRR {
    /// Which port's bit-set/bit-reset register this handle stands for.
    pub closed spec fn spec_port(&self) -> PortId {
        self.port
    }

    /// The words the register has received, oldest first.
    pub fn writes(&self) -> (r: &Vec<u32>)
        ensures
            r@ == self@,
    {
        &self.writes
    }

    pub(crate) fn new(port: PortId) -> (r: BSRR)
        ensures
            r.spec_port() == port,
            r@ == Seq::<u32>::empty(),
    {
        BSRR { port, writes: Vec::new() }
    }

    /// Hands the register one word.
    pub(crate) fn write_word(&mut self, w: u32)
        ensures
            final(self).spec_port() == old(self).spec_port(),
            final(self)@ == old(self)@.push(w),
    {
        self.writes.push(w);
    }
}

/// One operation received by the clock gate, with the bit position it drove:
/// setting a clock-enable bit, asserting a reset bit, or clearing a reset bit.
#[derive(Clone, Copy, PartialEq, Eq, Structural, Debug)]
pub enum GateOp {
    /// A clock-enable bit was set.
    Enable(u32),
    /// A reset bit was asserted.
    AssertReset(u32),
    /// A reset bit was cleared.
    ClearReset(u32),
}

/// The clock-gating collaborator: its enable register gates each port's clock
/// on, and its reset register holds each port in reset while the matching bit
/// is set. The splitter drives both, once, at split time; the handle keeps,
/// beside the two register values, the log of the operations it received,
/// oldest first, so a contract can state their order.
pub struct AHB {
    enr: u32,
    rstr: u32,
    ops: Vec<GateOp>,
}

impl AHB {
    /// The enable register's value.
    pub closed spec fn spec_enr(&self) -> u32 {
        self.enr
    }

    /// The reset register's value.
    pub closed spec fn spec_rstr(&self) -> u32 {
        self.rstr
    }

    /// The operations the clock gate has received, oldest first.
    pub closed spec fn spec_ops(&self) -> Seq<GateOp> {
        self.ops@
    }

    /// The operations the clock gate has received, oldest first.
    pub fn ops(&self) -> (r: &Vec<GateOp>)
        ensures
            r@ == self.spec_ops(),
    {
        &self.ops
    }

    /// A handle over the clock gate, with the two registers as they currently
    /// read and nothing received yet.
    pub fn new(enr: u32, rstr: u32) -> (r: AHB)
        ensures
            r.spec_enr() == enr,
            r.spec_rstr() == rstr,
            r.spec_ops() == Seq::<GateOp>::empty(),
    {
        AHB { enr, rstr, ops: Vec::new() }
    }

    /// The enable register's value.
    pub fn enr(&self) -> (r: u32)
        ensures
            r == self.spec_enr(),
    {
        self.enr
    }

    /// The reset register's value.
    pub fn rstr(&self) -> (r: u32)
        ensures
            r == self.spec_rstr(),
    {
        self.rstr
    }

    /// Sets one clock-enable bit, leaving every other gate untouched.
    pub(crate) fn enable(&mut self, bit: u32)
        requires
            bit < 32,
        ensures
            final(self).spec_enr() == old(self).spec_enr() | (0x1u32 << bit),
            field1_of(final(self).spec_enr(), bit) == 1,
            forall|j: u32|
                j < 32 && j != bit ==> field1_of(final(self).spec_enr(), j) == field1_of(
                    old(self).spec_enr(),
                    j,
                ),
            final(self).spec_rstr() == old(self).spec_rstr(),
            final(self).spec_ops() == old(self).spec_ops().push(GateOp::Enable(bit)),
    {
        self.enr = or_bit(self.enr, bit);
        self.ops.push(GateOp::Enable(bit));
    }

    /// Asserts one reset bit, leaving every other port untouched.
    pub(crate) fn assert_reset(&mut self, bit: u32)
        requires
            bit < 32,
        ensures
            final(self).spec_rstr() == old(self).spec_rstr() | (0x1u32 << bit),
            field1_of(final(self).spec_rstr(), bit) == 1,
            forall|j: u32|
                j < 32 && j != bit ==> field1_of(final(self).spec_rstr(), j) == field1_of(
                    old(self).spec_rstr(),
                    j,
                ),
            final(self).spec_enr() == old(self).spec_enr(),
            final(self).spec_ops() == old(self).spec_ops().push(GateOp::AssertReset(bit)),
    {
        self.rstr = or_bit(self.rstr, bit);
        self.ops.push(GateOp::AssertReset(bit));
    }

    /// Clears one reset bit, leaving every other port untouched.
    pub(crate) fn clear_reset(&mut self, bit: u32)
        requires
            bit < 32,
        ensures
            final(self).spec_rstr() == old(self).spec_rstr() & !(0x1u32 << bit),
            field1_of(final(self).spec_rstr(), bit) == 0,
            forall|j: u32|
                j < 32 && j != bit ==> field1_of(final(self).spec_rstr(), j) == field1_of(
                    old(self).spec_rstr(),
                    j,
                ),
            final(self).spec_enr() == old(self).spec_enr(),
            final(self).spec_ops() == old(self).spec_ops().push(GateOp::ClearReset(bit)),
    {
        self.rstr = clear_bit(self.rstr, bit);
        self.ops.push(GateOp::ClearReset(bit));
    }
}

} // verus!
