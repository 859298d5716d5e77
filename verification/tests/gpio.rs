use embassy_mcxa::gpio::{AnyPin, Flex, GpioPin, Input, Output};
use embassy_mcxa::pcr::{
    mux_value, pcr_with_drive_strength, pcr_with_function, pcr_with_input_buffer, pcr_with_pull,
    pcr_with_slew_rate, PCR_DSE, PCR_IBE, PCR_PE, PCR_PS, PCR_SRE,
};
use embassy_mcxa::regs::{GpioRegisters, Registers};
use embassy_mcxa::types::{DriveStrength, Function, Level, Pull, SlewRate};

fn pin(port: usize, pin: usize) -> AnyPin {
    AnyPin::for_peripheral(port, pin).expect("pin exists")
}

#[test]
fn level_from_bool() {
    assert_eq!(Level::from(true), Level::High);
    assert_eq!(Level::from(false), Level::Low);
}

#[test]
fn mux_values_follow_function_number() {
    let fs = [
        Function::F0,
        Function::F1,
        Function::F2,
        Function::F3,
        Function::F4,
        Function::F5,
        Function::F6,
        Function::F7,
    ];
    for (i, f) in fs.iter().enumerate() {
        assert_eq!(mux_value(*f), i as u32);
    }
}

#[test]
fn pcr_function_writes_only_mux() {
    assert_eq!(pcr_with_function(0xFFFF_FFFF, Function::F3), 0xFFFF_F3FF);
    assert_eq!(pcr_with_function(0, Function::F7), 0x0000_0700);
    assert_eq!(pcr_with_function(0x0000_0503, Function::F0), 0x0000_0003);
}

#[test]
fn pcr_pull_settings() {
    assert_eq!(pcr_with_pull(0, Pull::Up), PCR_PE | PCR_PS);
    assert_eq!(pcr_with_pull(0xFFFF_FFFF, Pull::Down), 0xFFFF_FFFE);
    assert_eq!(pcr_with_pull(0x0000_0003, Pull::Disabled), 0x0000_0001);
    assert_eq!(pcr_with_pull(0x0000_0F00, Pull::Disabled), 0x0000_0F00);
}

#[test]
fn pcr_drive_slew_and_input_buffer() {
    assert_eq!(pcr_with_drive_strength(0, DriveStrength::Double), PCR_DSE);
    assert_eq!(pcr_with_drive_strength(0xFFFF_FFFF, DriveStrength::Normal), 0xFFFF_FFBF);
    assert_eq!(pcr_with_slew_rate(0, SlewRate::Fast), PCR_SRE);
    assert_eq!(pcr_with_slew_rate(0xFF, SlewRate::Slow), 0xF7);
    assert_eq!(pcr_with_input_buffer(0x0000_0102), 0x0000_1102);
    assert_eq!(pcr_with_input_buffer(PCR_IBE), PCR_IBE);
}

#[test]
fn any_pin_components() {
    let p = AnyPin::new(1, 7, 1);
    assert_eq!(p.port_index(), 1);
    assert_eq!(p.pin_index(), 7);
    assert_eq!(p.gpio(), 1);
    assert_eq!(p.mask(), 0x80);
    assert_eq!(p.pin_port(), 39);
    assert_eq!(p.port(), 1);
    assert_eq!(p.pin(), 7);
    assert_eq!(p.port_reg(), 1);
    assert_eq!(p.pcr_reg(), 39);
}

#[test]
fn degrade_renormalises_pin_number() {
    let p = AnyPin::new(0, 33, 4).degrade();
    assert_eq!(p.port_index(), 1);
    assert_eq!(p.pin_index(), 1);
    assert_eq!(p.gpio(), 4);
    let q = AnyPin::new(3, 31, 3).degrade();
    assert_eq!((q.port_index(), q.pin_index(), q.gpio()), (3, 31, 3));
}

#[test]
fn peripheral_pin_table() {
    assert!(AnyPin::for_peripheral(0, 7).is_some());
    assert!(AnyPin::for_peripheral(0, 8).is_none());
    assert!(AnyPin::for_peripheral(0, 11).is_none());
    assert!(AnyPin::for_peripheral(0, 12).is_some());
    assert!(AnyPin::for_peripheral(0, 27).is_some());
    assert!(AnyPin::for_peripheral(0, 28).is_none());
    assert!(AnyPin::for_peripheral(1, 19).is_some());
    assert!(AnyPin::for_peripheral(1, 20).is_none());
    assert!(AnyPin::for_peripheral(1, 28).is_none());
    assert!(AnyPin::for_peripheral(1, 29).is_some());
    assert!(AnyPin::for_peripheral(1, 31).is_some());
    assert!(AnyPin::for_peripheral(2, 26).is_some());
    assert!(AnyPin::for_peripheral(2, 27).is_none());
    assert!(AnyPin::for_peripheral(3, 0).is_some());
    assert!(AnyPin::for_peripheral(3, 31).is_some());
    assert!(AnyPin::for_peripheral(3, 32).is_none());
    assert!(AnyPin::for_peripheral(4, 7).is_some());
    assert!(AnyPin::for_peripheral(4, 8).is_none());
    assert!(AnyPin::for_peripheral(5, 0).is_none());
    let p = pin(2, 9);
    assert_eq!((p.port_index(), p.pin_index(), p.gpio()), (2, 9, 2));
}

#[test]
fn registers_start_zeroed() {
    let regs = Registers::new();
    assert_eq!(regs.pcr.len(), 160);
    assert_eq!(regs.gpio.len(), 5);
    assert!(regs.pcr.iter().all(|v| *v == 0));
    assert!(regs.gpio.iter().all(|g| *g == GpioRegisters { pdor: 0, pddr: 0, pdir: 0 }));
}

#[test]
fn gpio_block_write_registers() {
    let mut g = GpioRegisters { pdor: 0b1010, pddr: 7, pdir: 9 };
    g.write_psor(0b0101);
    assert_eq!(g.pdor, 0b1111);
    g.write_pcor(0b0011);
    assert_eq!(g.pdor, 0b1100);
    g.write_ptor(0b0110);
    assert_eq!(g.pdor, 0b1010);
    assert_eq!((g.pddr, g.pdir), (7, 9));
}

#[test]
fn pin_configuration_writes_its_pcr() {
    let mut regs = Registers::new();
    let p = pin(1, 7);
    p.set_function(Function::F5, &mut regs);
    assert_eq!(regs.pcr[39], 0x500);
    p.set_pull(Pull::Up, &mut regs);
    assert_eq!(regs.pcr[39], 0x503);
    p.set_drive_strength(DriveStrength::Double, &mut regs);
    p.set_slew_rate(SlewRate::Fast, &mut regs);
    p.set_enable_input_buffer(&mut regs);
    assert_eq!(regs.pcr[39], 0x154B);
    assert!(regs.pcr.iter().enumerate().all(|(i, v)| i == 39 || *v == 0));
}

#[test]
fn flex_new_leaves_registers_alone() {
    let regs = Registers::new();
    let f = Flex::new(pin(1, 7));
    assert!(!f.is_set_high(&regs));
    assert!(f.is_set_low(&regs));
    assert_eq!(regs.pcr[39], 0);
}

#[test]
fn flex_output_levels() {
    let mut regs = Registers::new();
    let mut f = Flex::new(pin(1, 7));
    f.set_high(&mut regs);
    assert_eq!(regs.gpio[1].pdor, 0x80);
    assert!(f.is_set_high(&regs));
    f.set_low(&mut regs);
    assert_eq!(regs.gpio[1].pdor, 0);
    assert!(f.is_set_low(&regs));
    f.toggle(&mut regs);
    assert!(f.is_set_high(&regs));
    f.toggle(&mut regs);
    assert!(f.is_set_low(&regs));
    f.set_level(Level::High, &mut regs);
    assert_eq!(regs.gpio[1].pdor, 0x80);
    f.set_level(Level::Low, &mut regs);
    assert_eq!(regs.gpio[1].pdor, 0);
}

#[test]
fn flex_reads_input_register() {
    let mut regs = Registers::new();
    let f = Flex::new(pin(3, 4));
    assert!(f.is_low(&regs));
    assert_eq!(f.get_level(&regs), Level::Low);
    regs.gpio[3].pdir = 0x10;
    assert!(f.is_high(&regs));
    assert!(!f.is_low(&regs));
    assert_eq!(f.get_level(&regs), Level::High);
    regs.gpio[3].pdir = !0x10;
    assert!(f.is_low(&regs));
}

#[test]
fn flex_as_output_and_input() {
    let mut regs = Registers::new();
    let mut f = Flex::new(pin(2, 3));
    regs.pcr[67] = 0x0000_0503;
    f.set_as_output(DriveStrength::Double, SlewRate::Slow, &mut regs);
    assert_eq!(regs.pcr[67], 0x0000_0541);
    assert_eq!(regs.gpio[2].pddr, 0x8);
    f.set_as_input(DriveStrength::Normal, SlewRate::Fast, &mut regs);
    assert_eq!(regs.pcr[67], 0x0000_1509);
    assert_eq!(regs.gpio[2].pddr, 0);
}

#[test]
fn set_as_input_keeps_pull() {
    let mut regs = Registers::new();
    let mut f = Flex::new(pin(0, 2));
    f.set_pull(Pull::Up, &mut regs);
    f.set_as_input(DriveStrength::Normal, SlewRate::Slow, &mut regs);
    assert_eq!(regs.pcr[2] & (PCR_PE | PCR_PS), PCR_PE | PCR_PS);
}

#[test]
fn flex_leaves_other_pins_alone() {
    let mut regs = Registers::new();
    let mut a = Flex::new(pin(1, 7));
    let mut b = Flex::new(pin(1, 8));
    b.set_high(&mut regs);
    b.set_as_output(DriveStrength::Double, SlewRate::Fast, &mut regs);
    let pcr_b = regs.pcr[40];
    a.set_as_output(DriveStrength::Normal, SlewRate::Slow, &mut regs);
    a.set_high(&mut regs);
    a.toggle(&mut regs);
    a.set_as_input(DriveStrength::Normal, SlewRate::Slow, &mut regs);
    assert!(b.is_set_high(&regs));
    assert_eq!(regs.gpio[1].pddr, 0x100);
    assert_eq!(regs.pcr[40], pcr_b);
}

#[test]
fn output_driver() {
    let mut regs = Registers::new();
    let mut out = Output::new(pin(4, 5), Level::High, DriveStrength::Normal, SlewRate::Fast, &mut regs);
    assert!(out.is_set_high(&regs));
    assert_eq!(regs.gpio[4].pddr, 0x20);
    assert_eq!(regs.pcr[133], PCR_SRE);
    out.set_low(&mut regs);
    assert!(out.is_set_low(&regs));
    out.toggle(&mut regs);
    assert!(out.is_set_high(&regs));
    out.set_level(Level::Low, &mut regs);
    assert!(!out.is_set_high(&regs));
    out.set_high(&mut regs);
    let flex = out.into_flex();
    assert!(flex.is_set_high(&regs));
}

#[test]
fn output_driver_starting_low() {
    let mut regs = Registers::new();
    regs.gpio[0].pdor = 0xFFFF_FFFF;
    let out = Output::new(pin(0, 0), Level::Low, DriveStrength::Double, SlewRate::Slow, &mut regs);
    assert!(out.is_set_low(&regs));
    assert_eq!(regs.gpio[0].pdor, 0xFFFF_FFFE);
    assert_eq!(regs.pcr[0], PCR_DSE);
}

#[test]
fn input_driver() {
    let mut regs = Registers::new();
    regs.gpio[1].pddr = 0xFFFF_FFFF;
    let input = Input::new(pin(1, 30), Level::Low, DriveStrength::Normal, SlewRate::Fast, &mut regs);
    assert_eq!(regs.gpio[1].pddr, 0xBFFF_FFFF);
    assert_eq!(regs.pcr[62], PCR_SRE | PCR_IBE);
    assert!(input.is_low(&regs));
    assert_eq!(input.get_level(&regs), Level::Low);
    regs.gpio[1].pdir = 1 << 30;
    assert!(input.is_high(&regs));
    assert_eq!(input.get_level(&regs), Level::High);
    let flex = input.into_flex();
    assert!(flex.is_high(&regs));
}

#[test]
fn toggle_twice_restores() {
    let mut regs = Registers::new();
    regs.gpio[2].pdor = 0x1234_5678;
    let mut f = Flex::new(pin(2, 26));
    f.toggle(&mut regs);
    assert_eq!(regs.gpio[2].pdor, 0x1634_5678);
    f.toggle(&mut regs);
    assert_eq!(regs.gpio[2].pdor, 0x1234_5678);
}

#[test]
fn last_level_wins() {
    let mut regs = Registers::new();
    let mut f = Flex::new(pin(3, 9));
    f.set_level(Level::High, &mut regs);
    f.set_level(Level::Low, &mut regs);
    assert!(f.is_set_low(&regs));
    f.set_level(Level::Low, &mut regs);
    f.set_level(Level::High, &mut regs);
    assert!(f.is_set_high(&regs));
    assert_eq!(regs.gpio[3].pdor, 1 << 9);
}
