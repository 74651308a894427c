use gpio::markers::{AltFnNum, Fast, Floating, High, Low, Medium, OpenDrain, OutputType, PullDown, PullType, PullUp, PushPull, Speed, AF0, AF15, AF3};
use gpio::pin::PXx;
use gpio::port::{Gpio, GpioExt, PortId};
use gpio::registers::{AltFnRegister, GateOp, AHB};

fn field2(reg: u32, i: u32) -> u32 {
    (reg >> (2 * i)) & 0b11
}

fn field1(reg: u32, i: u32) -> u32 {
    (reg >> i) & 0b1
}

fn field4(reg: u32, slot: u32) -> u32 {
    (reg >> (4 * slot)) & 0b1111
}

#[test]
fn split_starts_every_pin_floating_input() {
    let mut ahb = AHB::new(0, 0);
    let parts = Gpio::new(PortId::A).split(&mut ahb);
    assert_eq!(parts.pins.len(), 16);
    assert_eq!(parts.moder.bits(), 0);
    assert_eq!(parts.pupdr.bits(), 0);
    for (k, pin) in parts.pins.iter().enumerate() {
        assert_eq!(pin.index() as usize, k);
        assert_eq!(pin.port(), PortId::A);
        assert_eq!(field2(parts.moder.bits(), k as u32), 0b00);
        assert_eq!(field2(parts.pupdr.bits(), k as u32), 0b00);
    }
    assert_eq!(parts.afrl.half(), AltFnRegister::Low);
    assert_eq!(parts.afrh.half(), AltFnRegister::High);
    assert!(parts.bsrr.writes().is_empty());
}

#[test]
fn split_port_f_hands_out_only_existing_pins() {
    let mut ahb = AHB::new(0, 0);
    let parts = Gpio::new(PortId::F).split(&mut ahb);
    let indices: Vec<u8> = parts.pins.iter().map(|p| p.index()).collect();
    assert_eq!(indices, vec![0, 1, 2, 4, 6, 9, 10]);
}

#[test]
fn split_runs_enable_then_reset_pulse() {
    let mut ahb = AHB::new(0, 0xffff_ffff);
    let _parts = Gpio::new(PortId::A).split(&mut ahb);
    // Port A's gate sits at bit 17; everything else is untouched.
    assert_eq!(ahb.enr(), 1 << 17);
    assert_eq!(ahb.rstr(), 0xffff_ffff & !(1 << 17));
    // Clock-enable first, then the reset pulse: assert, clear.
    assert_eq!(
        ahb.ops(),
        &vec![GateOp::Enable(17), GateOp::AssertReset(17), GateOp::ClearReset(17)]
    );

    let mut ahb_f = AHB::new(0, 0);
    let _parts_f = Gpio::new(PortId::F).split(&mut ahb_f);
    assert_eq!(ahb_f.enr(), 1 << 22);
    assert_eq!(ahb_f.rstr(), 0);
    assert_eq!(
        ahb_f.ops(),
        &vec![GateOp::Enable(22), GateOp::AssertReset(22), GateOp::ClearReset(22)]
    );
}

#[test]
fn transitions_write_expected_encodings_and_nothing_else() {
    let mut ahb = AHB::new(0, 0);
    let mut parts = Gpio::new(PortId::B).split(&mut ahb);

    // Pin 3 becomes a pulled-down input: mode 00, pull 10.
    let pin3 = parts.pins.remove(3);
    let _pin3 = pin3.into_pull_down_input(&mut parts.moder, &mut parts.pupdr);
    assert_eq!(field2(parts.moder.bits(), 3), 0b00);
    assert_eq!(field2(parts.pupdr.bits(), 3), 0b10);

    // Pin 5 becomes an open-drain output: mode 01, type 1, speed 00.
    let pin5 = parts.pins.remove(4); // pin 3 is gone, so pin 5 now sits at 4
    assert_eq!(pin5.index(), 5);
    let _pin5 = pin5.into_open_drain_output(&mut parts.moder, &mut parts.otyper, &mut parts.ospeedr);
    assert_eq!(field2(parts.moder.bits(), 5), 0b01);
    assert_eq!(field1(parts.otyper.bits(), 5), 0b1);
    assert_eq!(field2(parts.ospeedr.bits(), 5), 0b00);

    // Pin 3's fields and every other pin's fields are unchanged.
    for j in 0..16 {
        if j != 5 {
            assert_eq!(field2(parts.moder.bits(), j), 0b00);
            assert_eq!(field1(parts.otyper.bits(), j), 0b0);
        }
        if j != 3 {
            assert_eq!(field2(parts.pupdr.bits(), j), 0b00);
        }
    }
    assert_eq!(field2(parts.pupdr.bits(), 3), 0b10);
}

#[test]
fn chained_transitions_keep_registers_in_step() {
    let mut ahb = AHB::new(0, 0);
    let mut parts = Gpio::new(PortId::C).split(&mut ahb);
    let pin = parts.pins.remove(8);

    let pin = pin.into_push_pull_output(&mut parts.moder, &mut parts.otyper, &mut parts.ospeedr);
    assert_eq!(field2(parts.moder.bits(), 8), 0b01);
    assert_eq!(field1(parts.otyper.bits(), 8), 0b0);

    let pin = pin.into_analog(&mut parts.moder);
    assert_eq!(field2(parts.moder.bits(), 8), 0b11);

    let pin = pin.into_pull_up_input(&mut parts.moder, &mut parts.pupdr);
    assert_eq!(field2(parts.moder.bits(), 8), 0b00);
    assert_eq!(field2(parts.pupdr.bits(), 8), 0b01);

    let _pin = pin.into_af1(&mut parts.moder, &mut parts.afrh);
    assert_eq!(field2(parts.moder.bits(), 8), 0b10);
    assert_eq!(field4(parts.afrh.bits(), 0), 1);
}

#[test]
fn alt_fn_low_register_for_low_pins() {
    let mut ahb = AHB::new(0, 0);
    let mut parts = Gpio::new(PortId::A).split(&mut ahb);
    let pin5 = parts.pins.remove(5);
    let _pin5 = pin5.into_af7(&mut parts.moder, &mut parts.afrl);
    // Selector 7 lands in the 4-bit field at offset 4 * (5 % 8) of the low register.
    assert_eq!(field4(parts.afrl.bits(), 5), 7);
    assert_eq!(parts.afrl.bits(), 7 << 20);
    assert_eq!(parts.afrh.bits(), 0);
    assert_eq!(field2(parts.moder.bits(), 5), 0b10);
}

#[test]
fn alt_fn_high_register_for_high_pins() {
    let mut ahb = AHB::new(0, 0);
    let mut parts = Gpio::new(PortId::A).split(&mut ahb);
    let pin9 = parts.pins.remove(9);
    let _pin9 = pin9.into_af14(&mut parts.moder, &mut parts.afrh);
    // Selector 14 lands in the 4-bit field at offset 4 * (9 % 8) of the high register.
    assert_eq!(field4(parts.afrh.bits(), 1), 14);
    assert_eq!(parts.afrh.bits(), 14 << 4);
    assert_eq!(parts.afrl.bits(), 0);
    assert_eq!(field2(parts.moder.bits(), 9), 0b10);
}

#[test]
fn generic_alt_fn_takes_any_selector() {
    let mut ahb = AHB::new(0, 0);
    let mut parts = Gpio::new(PortId::D).split(&mut ahb);
    let pin2 = parts.pins.remove(2);
    let _pin2 = pin2.into_alt_fn(AF3, &mut parts.moder, &mut parts.afrl);
    assert_eq!(field4(parts.afrl.bits(), 2), 3);
}

#[test]
fn set_high_then_set_low_sends_two_single_bit_words() {
    let mut ahb = AHB::new(0, 0);
    let mut parts = Gpio::new(PortId::A).split(&mut ahb);
    let pin6 = parts.pins.remove(6);
    let mut out6 = pin6.into_push_pull_output(&mut parts.moder, &mut parts.otyper, &mut parts.ospeedr);
    out6.set_high(&mut parts.bsrr);
    out6.set_low(&mut parts.bsrr);
    assert_eq!(parts.bsrr.writes(), &vec![1u32 << 6, 1u32 << (16 + 6)]);
    for w in parts.bsrr.writes() {
        assert_eq!(w.count_ones(), 1);
    }
}

#[test]
fn downgraded_pins_write_their_own_bits_in_any_order() {
    let mut ahb = AHB::new(0, 0);
    let mut parts = Gpio::new(PortId::E).split(&mut ahb);
    let pin7 = parts.pins.remove(7);
    let pin2 = parts.pins.remove(2);
    let out7 = pin7.into_push_pull_output(&mut parts.moder, &mut parts.otyper, &mut parts.ospeedr);
    let out2 = pin2.into_push_pull_output(&mut parts.moder, &mut parts.otyper, &mut parts.ospeedr);

    let mut bus: Vec<PXx<_>> = vec![out2.downgrade(), out7.downgrade()];
    for pin in bus.iter_mut() {
        pin.set_high(&mut parts.bsrr);
    }
    assert_eq!(parts.bsrr.writes(), &vec![1u32 << 2, 1u32 << 7]);

    // The opposite insertion order writes the same two words, each still the
    // bit of its own pin.
    let mut ahb2 = AHB::new(0, 0);
    let mut parts2 = Gpio::new(PortId::E).split(&mut ahb2);
    let pin7b = parts2.pins.remove(7);
    let pin2b = parts2.pins.remove(2);
    let out7b = pin7b.into_push_pull_output(&mut parts2.moder, &mut parts2.otyper, &mut parts2.ospeedr);
    let out2b = pin2b.into_push_pull_output(&mut parts2.moder, &mut parts2.otyper, &mut parts2.ospeedr);
    let mut bus2: Vec<PXx<_>> = vec![out7b.downgrade(), out2b.downgrade()];
    for pin in bus2.iter_mut() {
        pin.set_high(&mut parts2.bsrr);
    }
    assert_eq!(parts2.bsrr.writes(), &vec![1u32 << 7, 1u32 << 2]);

    let mut sorted1 = parts.bsrr.writes().clone();
    let mut sorted2 = parts2.bsrr.writes().clone();
    sorted1.sort();
    sorted2.sort();
    assert_eq!(sorted1, sorted2);
    assert_ne!(1u32 << 2, 1u32 << 7);
    assert_eq!((1u32 << 2) & (1u32 << 7), 0);
}

#[test]
fn downgrade_keeps_identity() {
    let mut ahb = AHB::new(0, 0);
    let mut parts = Gpio::new(PortId::B).split(&mut ahb);
    let pin11 = parts.pins.remove(11);
    let out11 = pin11.into_open_drain_output(&mut parts.moder, &mut parts.otyper, &mut parts.ospeedr);
    let erased = out11.downgrade();
    assert_eq!(erased.index(), 11);
    assert_eq!(erased.port(), PortId::B);
}

#[test]
fn split_pin_five_output_set_high_scenario() {
    let mut ahb = AHB::new(0, 0);
    let mut parts = Gpio::new(PortId::A).split(&mut ahb);
    assert_eq!(parts.pins.len(), 16);
    let pin5 = parts.pins.remove(5);
    let mut out5 = pin5.into_push_pull_output(&mut parts.moder, &mut parts.otyper, &mut parts.ospeedr);
    out5.set_high(&mut parts.bsrr);
    // The bit-set register received exactly the word 1 << 5 ...
    assert_eq!(parts.bsrr.writes(), &vec![1u32 << 5]);
    assert_eq!(parts.bsrr.writes()[0], 32);
    // ... and the mode register's bits 10 and 11 read 01.
    assert_eq!((parts.moder.bits() >> 10) & 0b11, 0b01);
}

#[test]
fn set_speed_retypes_and_writes_speed_field() {
    let mut ahb = AHB::new(0, 0);
    let mut parts = Gpio::new(PortId::A).split(&mut ahb);
    let pin0 = parts.pins.remove(0);
    let out0 = pin0.into_push_pull_output(&mut parts.moder, &mut parts.otyper, &mut parts.ospeedr);
    assert_eq!(field2(parts.ospeedr.bits(), 0), 0b00);
    let out0 = out0.set_speed(&mut parts.ospeedr, Medium);
    assert_eq!(field2(parts.ospeedr.bits(), 0), 0b01);
    let out0 = out0.set_speed(&mut parts.ospeedr, Fast);
    assert_eq!(field2(parts.ospeedr.bits(), 0), 0b10);
    let _out0 = out0.set_speed(&mut parts.ospeedr, High);
    assert_eq!(field2(parts.ospeedr.bits(), 0), 0b11);
}

#[test]
fn internal_pull_up_toggles_pull_field_of_open_drain_output() {
    let mut ahb = AHB::new(0, 0);
    let mut parts = Gpio::new(PortId::C).split(&mut ahb);
    let pin4 = parts.pins.remove(4);
    let mut out4 = pin4.into_open_drain_output(&mut parts.moder, &mut parts.otyper, &mut parts.ospeedr);
    out4.internal_pull_up(&mut parts.pupdr, true);
    assert_eq!(field2(parts.pupdr.bits(), 4), 0b01);
    out4.internal_pull_up(&mut parts.pupdr, false);
    assert_eq!(field2(parts.pupdr.bits(), 4), 0b00);
}

#[test]
fn analog_mode_encoding() {
    let mut ahb = AHB::new(0, 0);
    let mut parts = Gpio::new(PortId::F).split(&mut ahb);
    // Port F's pin 9 sits at position 5 of its pin list.
    let pin9 = parts.pins.remove(5);
    assert_eq!(pin9.index(), 9);
    let _pin9 = pin9.into_analog(&mut parts.moder);
    assert_eq!(field2(parts.moder.bits(), 9), 0b11);
}

#[test]
fn marker_bit_values() {
    assert_eq!(Low.to_speed_bits(), 0b00);
    assert_eq!(Medium.to_speed_bits(), 0b01);
    assert_eq!(Fast.to_speed_bits(), 0b10);
    assert_eq!(High.to_speed_bits(), 0b11);

    assert_eq!(AF0.alt_fn_num(), 0);
    assert_eq!(AF3.alt_fn_num(), 3);
    assert_eq!(AF15.alt_fn_num(), 15);

    assert_eq!(PushPull.type_bit(), 0b0);
    assert_eq!(OpenDrain.type_bit(), 0b1);
    assert_eq!(Floating.pull_bits(), 0b00);
    assert_eq!(PullUp.pull_bits(), 0b01);
    assert_eq!(PullDown.pull_bits(), 0b10);
}

#[test]
fn pull_type_changes_only_the_pull_field() {
    let mut ahb = AHB::new(0, 0);
    let mut parts = Gpio::new(PortId::D).split(&mut ahb);
    let pin1 = parts.pins.remove(1);
    let pin1 = pin1.into_pull_down_input(&mut parts.moder, &mut parts.pupdr);
    assert_eq!(field2(parts.pupdr.bits(), 1), 0b10);
    let moder_before = parts.moder.bits();
    let _pin1 = pin1.pull_type(PullUp, &mut parts.pupdr);
    assert_eq!(field2(parts.pupdr.bits(), 1), 0b01);
    assert_eq!(parts.moder.bits(), moder_before);
    for j in 0..16 {
        if j != 1 {
            assert_eq!(field2(parts.pupdr.bits(), j), 0b00);
        }
    }
}

#[test]
fn output_type_changes_only_the_drive_bit() {
    let mut ahb = AHB::new(0, 0);
    let mut parts = Gpio::new(PortId::B).split(&mut ahb);
    let pin9 = parts.pins.remove(9);
    let out9 = pin9.into_push_pull_output(&mut parts.moder, &mut parts.otyper, &mut parts.ospeedr);
    assert_eq!(field1(parts.otyper.bits(), 9), 0b0);
    let moder_before = parts.moder.bits();
    let _out9 = out9.output_type(OpenDrain, &mut parts.otyper);
    assert_eq!(field1(parts.otyper.bits(), 9), 0b1);
    assert_eq!(parts.moder.bits(), moder_before);
    for j in 0..16 {
        if j != 9 {
            assert_eq!(field1(parts.otyper.bits(), j), 0b0);
        }
    }
}

#[test]
fn output_transitions_pin_the_whole_output_type_register() {
    let mut ahb = AHB::new(0, 0);
    let mut parts = Gpio::new(PortId::A).split(&mut ahb);
    let pin3 = parts.pins.remove(3);
    let out3 = pin3.into_open_drain_output(&mut parts.moder, &mut parts.otyper, &mut parts.ospeedr);
    // The exact equation: old | (1 << 3), reserved upper bits included.
    assert_eq!(parts.otyper.bits(), 1 << 3);
    let _out3 = out3.output_type(PushPull, &mut parts.otyper);
    // And back: old & !(1 << 3).
    assert_eq!(parts.otyper.bits(), 0);
}

#[test]
fn output_type_register_identical_in_either_order() {
    // Pins 4 and 12 transitioned in either order leave the same register
    // values, the output-type register's full value included.
    let mut ahb1 = AHB::new(0, 0);
    let mut parts1 = Gpio::new(PortId::B).split(&mut ahb1);
    let pin12 = parts1.pins.remove(12);
    let pin4 = parts1.pins.remove(4);
    let _a = pin4.into_open_drain_output(&mut parts1.moder, &mut parts1.otyper, &mut parts1.ospeedr);
    let _b = pin12.into_push_pull_output(&mut parts1.moder, &mut parts1.otyper, &mut parts1.ospeedr);

    let mut ahb2 = AHB::new(0, 0);
    let mut parts2 = Gpio::new(PortId::B).split(&mut ahb2);
    let pin12b = parts2.pins.remove(12);
    let pin4b = parts2.pins.remove(4);
    let _c = pin12b.into_push_pull_output(&mut parts2.moder, &mut parts2.otyper, &mut parts2.ospeedr);
    let _d = pin4b.into_open_drain_output(&mut parts2.moder, &mut parts2.otyper, &mut parts2.ospeedr);

    assert_eq!(parts1.otyper.bits(), parts2.otyper.bits());
    assert_eq!(parts1.moder.bits(), parts2.moder.bits());
    assert_eq!(parts1.ospeedr.bits(), parts2.ospeedr.bits());
    assert_eq!(parts1.otyper.bits(), 1 << 4);
}

#[test]
fn alt_fn_pin_keeps_speed_and_drive_configurable() {
    let mut ahb = AHB::new(0, 0);
    let mut parts = Gpio::new(PortId::A).split(&mut ahb);
    let pin10 = parts.pins.remove(10);
    let af = pin10.into_af4(&mut parts.moder, &mut parts.afrh);
    let af = af.set_speed(&mut parts.ospeedr, High);
    assert_eq!(field2(parts.ospeedr.bits(), 10), 0b11);
    let af = af.output_type(OpenDrain, &mut parts.otyper);
    assert_eq!(field1(parts.otyper.bits(), 10), 0b1);
    assert_eq!(parts.otyper.bits(), 1 << 10);
    // The selector and mode are untouched by either setter.
    assert_eq!(field4(parts.afrh.bits(), 2), 4);
    assert_eq!(field2(parts.moder.bits(), 10), 0b10);
    let _af = af.set_speed(&mut parts.ospeedr, Low);
    assert_eq!(field2(parts.ospeedr.bits(), 10), 0b00);
}
