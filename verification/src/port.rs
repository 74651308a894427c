//! Port identities, the per-port constant table, and the splitter that turns
//! one port ownership token into exclusive pin handles and shared register
//! handles.

use vstd::prelude::*;

use crate::fields::{field1_of, field2_of, lemma_reset_register_fields};
use crate::markers::{Floating, Input};
use crate::pin::Pin;
use crate::registers::{AltFnRegister, GateOp, AFR, AHB, BSRR, MODER, OSPEEDR, OTYPER, PUPDR};

verus! {

/// Which of the six I/O ports a handle addresses. The ports differ only in
/// their base address (outside this model), their clock-gate bit, and which
/// pin indices exist: every port carries pins 0 to 15 but the sparse port F.
#[derive(Clone, Copy, PartialEq, Eq, Structural, Debug)]
pub enum PortId {
    A,
    B,
    C,
    D,
    E,
    F,
}

/// Whether the port has a pin at index `i`.
pub open spec fn port_has_pin(p: PortId, i: u32) -> bool {
    match p {
        PortId::F => i == 0 || i == 1 || i == 2 || i == 4 || i == 6 || i == 9 || i == 10,
        _ => i < 16,
    }
}

/// How many pins the port has.
pub open spec fn spec_pin_count(p: PortId) -> int {
    if p == PortId::F {
        7
    } else {
        16
    }
}

/// The index of the port's `k`-th pin, in ascending order.
pub open spec fn spec_pin_at(p: PortId, k: int) -> u32 {
    if p == PortId::F {
        if k == 0 {
            0
        } else if k == 1 {
            1
        } else if k == 2 {
            2
        } else if k == 3 {
            4
        } else if k == 4 {
            6
        } else if k == 5 {
            9
        } else {
            10
        }
    } else {
        k as u32
    }
}

/// The splitter hands out each pin exactly once: two distinct positions of the
/// pin list always carry distinct pin indices.
pub proof fn lemma_pins_distinct(p: PortId, k1: int, k2: int)
    requires
        0 <= k1 < spec_pin_count(p),
        0 <= k2 < spec_pin_count(p),
        k1 != k2,
    ensures
        spec_pin_at(p, k1) != spec_pin_at(p, k2),
{
}

/// Position of the port's clock-enable bit in the clock-gate's enable register.
pub open spec fn spec_clock_bit(p: PortId) -> u32 {
    match p {
        PortId::A => 17,
        PortId::B => 18,
        PortId::C => 19,
        PortId::D => 20,
        PortId::E => 21,
        PortId::F => 22,
    }
}

/// Position of the port's clock-enable bit; the port's reset bit sits at the
/// same position in the reset register.
pub fn clock_bit(p: PortId) -> (r: u32)
    ensures
        r == spec_clock_bit(p),
        r < 32,
{
    match p {
        PortId::A => 17,
        PortId::B => 18,
        PortId::C => 19,
        PortId::D => 20,
        PortId::E => 21,
        PortId::F => 22,
    }
}

/// Index of the port's `k`-th pin, matching `spec_pin_at`.
fn pin_index_at(p: PortId, k: u32) -> (r: u8)
    requires
        k < spec_pin_count(p),
    ensures
        r as u32 == spec_pin_at(p, k as int),
        port_has_pin(p, r as u32),
{
    match p {
        PortId::F => match k {
            0 => 0,
            1 => 1,
            2 => 2,
            3 => 4,
            4 => 6,
            5 => 9,
            _ => 10,
        },
        _ => k as u8,
    }
}

/// The pin handles and register handles of one port after the split. The
/// pins come in ascending index order; each register handle grants exclusive
/// right to read-modify-write its one register.
pub struct Parts {
    /// One exclusive handle per physical pin, each starting as floating input.
    pub pins: Vec<Pin<Input<Floating>>>,
    /// The mode register handle.
    pub moder: MODER,
    /// The output-type register handle.
    pub otyper: OTYPER,
    /// The speed register handle.
    pub ospeedr: OSPEEDR,
    /// The pull register handle.
    pub pupdr: PUPDR,
    /// The alternate-function register covering pins 0 to 7.
    pub afrl: AFR,
    /// The alternate-function register covering pins 8 to 15.
    pub afrh: AFR,
    /// The write-only bit-set/bit-reset register, as the log of words it
    /// received.
    pub bsrr: BSRR,
}

/// The unique ownership token for one port's whole peripheral block. Whoever
/// hands it out (the peripheral take-up, outside this model) must hand out at
/// most one per port.
pub struct Gpio {
    id: PortId,
}

/// Extension trait to split a port's peripheral block into independent pins
/// and registers.
pub trait GpioExt {
    /// What the block splits into.
    type Parts;

    /// What `split` promises of the clock gate it drove and of the parts it
    /// returned.
    spec fn split_ens(self, old_ahb: AHB, new_ahb: AHB, parts: Self::Parts) -> bool;

    /// Splits the peripheral block into independent pins and registers,
    /// enabling the port's clock and pulsing its reset on the way.
    fn split(self, ahb: &mut AHB) -> (parts: Self::Parts)
        ensures
            self.split_ens(*old(ahb), *final(ahb), parts),
    ;
}

impl Gpio {
    /// Which port this token owns.
    pub closed spec fn spec_id(&self) -> PortId {
        self.id
    }

    /// Takes up the ownership token for one port. The caller answers for
    /// taking each port up at most once: a second token for the same port
    /// would alias the same hardware registers.
    pub fn new(id: PortId) -> (g: Gpio)
        ensures
            g.spec_id() == id,
    {
        Gpio { id }
    }

    /// Which port this token owns.
    pub fn id(&self) -> (r: PortId)
        ensures
            r == self.spec_id(),
    {
        self.id
    }
}

/// Everything `split` promises: the clock gate received exactly the mandatory
/// sequence — the port's clock-enable, then its reset asserted, then its reset
/// cleared, once each, in that order, before any handle came back — so the
/// enable bit ends set, the reset bit ends clear and every other gate is
/// untouched; every configuration register holds its power-on value (all
/// fields zero, so every pin reads as floating input at minimum speed), the
/// bit-set register has received nothing, every handle belongs to this port,
/// and the port's pins come back exactly once each, in ascending index order.
pub open spec fn split_post(id: PortId, old_ahb: AHB, new_ahb: AHB, parts: Parts) -> bool {
    &&& new_ahb.spec_ops() == old_ahb.spec_ops().push(GateOp::Enable(spec_clock_bit(id))).push(
        GateOp::AssertReset(spec_clock_bit(id)),
    ).push(GateOp::ClearReset(spec_clock_bit(id)))
    &&& new_ahb.spec_enr() == old_ahb.spec_enr() | (0x1u32 << spec_clock_bit(id))
    &&& field1_of(new_ahb.spec_enr(), spec_clock_bit(id)) == 1
    &&& forall|j: u32|
        j < 32 && j != spec_clock_bit(id) ==> field1_of(new_ahb.spec_enr(), j) == field1_of(
            old_ahb.spec_enr(),
            j,
        )
    &&& new_ahb.spec_rstr() == old_ahb.spec_rstr() & !(0x1u32 << spec_clock_bit(id))
    &&& field1_of(new_ahb.spec_rstr(), spec_clock_bit(id)) == 0
    &&& forall|j: u32|
        j < 32 && j != spec_clock_bit(id) ==> field1_of(new_ahb.spec_rstr(), j) == field1_of(
            old_ahb.spec_rstr(),
            j,
        )
    &&& parts.moder.spec_port() == id && parts.moder.spec_bits() == 0
    &&& parts.otyper.spec_port() == id && parts.otyper.spec_bits() == 0
    &&& parts.ospeedr.spec_port() == id && parts.ospeedr.spec_bits() == 0
    &&& parts.pupdr.spec_port() == id && parts.pupdr.spec_bits() == 0
    &&& parts.afrl.spec_port() == id && parts.afrl.spec_half() == AltFnRegister::Low
        && parts.afrl.spec_bits() == 0
    &&& parts.afrh.spec_port() == id && parts.afrh.spec_half() == AltFnRegister::High
        && parts.afrh.spec_bits() == 0
    &&& parts.bsrr.spec_port() == id && parts.bsrr@ == Seq::<u32>::empty()
    &&& parts.pins@.len() == spec_pin_count(id)
    &&& forall|k: int|
        0 <= k < spec_pin_count(id) ==> (#[trigger] parts.pins@[k]).spec_index() == spec_pin_at(
            id,
            k,
        ) && parts.pins@[k].spec_port() == id
    &&& forall|k: int|
        0 <= k < spec_pin_count(id) ==> field2_of(
            parts.moder.spec_bits(),
            (#[trigger] parts.pins@[k]).spec_index(),
        ) == 0 && field2_of(parts.pupdr.spec_bits(), parts.pins@[k].spec_index()) == 0
}

impl GpioExt for Gpio {
    type Parts = Parts;

    open spec fn split_ens(self, old_ahb: AHB, new_ahb: AHB, parts: Parts) -> bool {
        split_post(self.spec_id(), old_ahb, new_ahb, parts)
    }

    fn split(self, ahb: &mut AHB) -> (parts: Parts) {
        let id = self.id;
        let gate: u32 = clock_bit(id);

        // The mandatory two-step take-up: gate the clock on, then assert and
        // at once clear the reset, forcing every configuration register to
        // its power-on value before any handle is handed out.
        ahb.enable(gate);
        ahb.assert_reset(gate);
        ahb.clear_reset(gate);

        let count: u32 = match id {
            PortId::F => 7,
            _ => 16,
        };
        let mut pins: Vec<Pin<Input<Floating>>> = Vec::new();
        let mut k: u32 = 0;
        while k < count
            invariant
                k <= count,
                count == spec_pin_count(id),
                pins@.len() == k,
                forall|t: int|
                    0 <= t < k ==> (#[trigger] pins@[t]).spec_index() == spec_pin_at(id, t)
                        && pins@[t].spec_port() == id,
            decreases count - k,
        {
            let idx = pin_index_at(id, k);
            pins.push(Pin::new(id, idx));
            k += 1;
        }

        proof {
            lemma_reset_register_fields();
            let r0 = old(ahb).spec_rstr();
            assert(((r0 | (0x1u32 << gate)) & !(0x1u32 << gate)) == r0 & !(0x1u32 << gate))
                by (bit_vector);
        }

        Parts {
            pins,
            moder: MODER::new(id, 0),
            otyper: OTYPER::new(id, 0),
            ospeedr: OSPEEDR::new(id, 0),
            pupdr: PUPDR::new(id, 0),
            afrl: AFR::new(id, AltFnRegister::Low, 0),
            afrh: AFR::new(id, AltFnRegister::High, 0),
            bsrr: BSRR::new(id),
        }
    }
}

} // verus!
