//! GP driver built around a type-erased `Flex` pin.
//! The exported `Output`/`Input` drivers own a `Flex` so they do not depend on
//! the concrete pin.
//!
//! Every operation that touches hardware takes the register file it acts on;
//! its contract names the registers it changes and leaves all others equal.

use vstd::prelude::*;
use crate::bits::{
    agree_outside, bit_mask, lemma_agree_outside_bit, lemma_agree_outside_field, lemma_agree_outside_trans,
    lemma_bit_ops,
};
use crate::pcr::{
    pcr_drive_strength, pcr_input_buffer, pcr_mux, pcr_pull, pcr_slew_rate, pcr_with_drive_strength,
    pcr_with_function, pcr_with_input_buffer, pcr_with_pull, pcr_with_slew_rate, spec_mux_value,
    PCR_DSE, PCR_IBE, PCR_MUX, PCR_PE, PCR_PS, PCR_SRE,
};
use crate::regs::{GpioRegisters, RegisterFile, Registers, NUM_PORTS, PINS_PER_PORT};
use crate::types::{level_of, DriveStrength, Function, Level, Pull, SlewRate};

verus! {

/// Type-erased representation of a GP pin: its port, its pin number within
/// the port, and the GPIO block that drives it.
pub struct AnyPin {
    port: usize,
    pin: usize,
    gpio: usize,
}

impl AnyPin {
    pub closed spec fn spec_port(&self) -> usize {
        self.port
    }

    pub closed spec fn spec_pin(&self) -> usize {
        self.pin
    }

    pub closed spec fn spec_gpio(&self) -> usize {
        self.gpio
    }

    /// The pin's number over all ports: `port * 32 + pin`.
    pub open spec fn spec_pin_port(&self) -> int {
        self.spec_port() * 32 + self.spec_pin()
    }

    /// `pin_port` fits in a `usize`.
    pub open spec fn pin_port_fits(&self) -> bool {
        self.spec_pin_port() <= usize::MAX
    }

    /// The port that `pin_port` names exists, so the pin has a PCR.
    pub open spec fn has_pcr(&self) -> bool {
        &&& self.pin_port_fits()
        &&& self.spec_pin_port() / 32 < NUM_PORTS
    }

    /// The pin has a bit in an existing GPIO block.
    pub open spec fn has_gpio_bit(&self) -> bool {
        &&& self.spec_pin() < 32
        &&& self.spec_gpio() < NUM_PORTS
    }

    /// The pin can be configured and driven.
    pub open spec fn usable(&self) -> bool {
        self.has_pcr() && self.has_gpio_bit()
    }

    /// The pin's bit in its GPIO block's registers.
    pub open spec fn spec_mask(&self) -> u32 {
        bit_mask(self.spec_pin() as u32)
    }

    /// The index of the pin's PCR in [`Registers::pcr`].
    pub open spec fn pcr_index(&self) -> int {
        self.spec_pin_port()
    }

    /// The pin's GPIO block in `rf`.
    pub open spec fn block(&self, rf: RegisterFile) -> GpioRegisters {
        rf.gpio[self.spec_gpio() as int]
    }

    /// The pin's PCR in `rf`.
    pub open spec fn pcr(&self, rf: RegisterFile) -> u32 {
        rf.pcr[self.pcr_index()]
    }

    /// The level on the pin's input (`PDIR`) is high.
    pub open spec fn input_high(&self, rf: RegisterFile) -> bool {
        self.block(rf).pdir & self.spec_mask() != 0
    }

    /// The pin's output latch (`PDOR`) is high.
    pub open spec fn output_high(&self, rf: RegisterFile) -> bool {
        self.block(rf).pdor & self.spec_mask() != 0
    }

    /// The pin is an output (`PDDR`).
    pub open spec fn is_output(&self, rf: RegisterFile) -> bool {
        self.block(rf).pddr & self.spec_mask() != 0
    }

    /// `rf` after `PSOR` is written with the pin's mask.
    pub open spec fn after_set_high(&self, rf: RegisterFile) -> RegisterFile {
        self.with_block(rf, self.block(rf).after_psor(self.spec_mask()))
    }

    /// `rf` after `PCOR` is written with the pin's mask.
    pub open spec fn after_set_low(&self, rf: RegisterFile) -> RegisterFile {
        self.with_block(rf, self.block(rf).after_pcor(self.spec_mask()))
    }

    /// `rf` after `PTOR` is written with the pin's mask.
    pub open spec fn after_toggle(&self, rf: RegisterFile) -> RegisterFile {
        self.with_block(rf, self.block(rf).after_ptor(self.spec_mask()))
    }

    /// `rf` after the output latch is set to `level`.
    pub open spec fn after_set_level(&self, rf: RegisterFile, level: Level) -> RegisterFile {
        match level {
            Level::High => self.after_set_high(rf),
            Level::Low => self.after_set_low(rf),
        }
    }

    /// `rf` after the pin's `PDDR` bit is set (`output`) or cleared.
    pub open spec fn after_set_direction(&self, rf: RegisterFile, output: bool) -> RegisterFile {
        let block = self.block(rf);
        if output {
            self.with_block(rf, block.with_pddr(block.pddr | self.spec_mask()))
        } else {
            self.with_block(rf, block.with_pddr(block.pddr & !self.spec_mask()))
        }
    }

    /// Every register file in `h` from index `from` on holds the pin's
    /// output latch at `high`.
    pub open spec fn latch_held(&self, h: Seq<RegisterFile>, from: int, high: bool) -> bool {
        forall|i: int| from <= i < h.len() ==> #[trigger] self.output_high(h[i]) == high
    }

    /// Every register file in `h` from index `from` on, but the last, keeps
    /// the pin an output exactly when `output`.
    pub open spec fn direction_held_until_last(
        &self,
        h: Seq<RegisterFile>,
        from: int,
        output: bool,
    ) -> bool {
        forall|i: int| from <= i < h.len() - 1 ==> #[trigger] self.is_output(h[i]) == output
    }

    /// Every register file in `h` from index `from` on differs from `rf` at
    /// most in the pin's PCR and in the pin's own bits.
    pub open spec fn writes_change_only_own(
        &self,
        h: Seq<RegisterFile>,
        from: int,
        rf: RegisterFile,
    ) -> bool {
        forall|i: int| from <= i < h.len() ==> #[trigger] self.changes_only_own(rf, h[i])
    }

    /// Every register file in `h` from index `from` on has the same `PDOR`
    /// in the pin's GPIO block as `rf`.
    pub open spec fn pdor_held(&self, h: Seq<RegisterFile>, from: int, rf: RegisterFile) -> bool {
        forall|i: int| from <= i < h.len() ==> #[trigger] self.block(h[i]).pdor == self.block(rf).pdor
    }

    /// `rf` with the pin's GPIO block replaced by `block`.
    pub open spec fn with_block(&self, rf: RegisterFile, block: GpioRegisters) -> RegisterFile {
        rf.with_gpio(self.spec_gpio() as int, block)
    }

    /// Create an `AnyPin` from raw components.
    pub fn new(port: usize, pin: usize, gpio: usize) -> (r: Self)
        ensures
            r.spec_port() == port,
            r.spec_pin() == pin,
            r.spec_gpio() == gpio,
    {
        Self { port, pin, gpio }
    }

    /// The pin's bit in its GPIO block's registers.
    pub fn mask(&self) -> (r: u32)
        requires
            self.spec_pin() < 32,
        ensures
            r == self.spec_mask(),
    {
        1u32 << (self.pin as u32)
    }

    /// The GPIO block that drives the pin.
    pub fn gpio(&self) -> (r: usize)
        ensures
            r == self.spec_gpio(),
    {
        self.gpio
    }

    pub fn port_index(&self) -> (r: usize)
        ensures
            r == self.spec_port(),
    {
        self.port
    }

    pub fn pin_index(&self) -> (r: usize)
        ensures
            r == self.spec_pin(),
    {
        self.pin
    }

    /// The pin's number over all ports.
    pub fn pin_port(&self) -> (r: usize)
        requires
            self.pin_port_fits(),
        ensures
            r == self.spec_pin_port(),
    {
        self.port * 32 + self.pin
    }

    /// The port that `pin_port` names.
    pub fn port(&self) -> (r: usize)
        requires
            self.pin_port_fits(),
        ensures
            r == self.spec_pin_port() / 32,
    {
        self.pin_port() / 32
    }

    /// The pin within the port that `pin_port` names.
    pub fn pin(&self) -> (r: usize)
        requires
            self.pin_port_fits(),
        ensures
            r == self.spec_pin_port() % 32,
    {
        self.pin_port() % 32
    }

    /// The PORT block of the pin; only ports 0 to 4 exist.
    pub fn port_reg(&self) -> (r: usize)
        requires
            self.has_pcr(),
        ensures
            r == self.spec_pin_port() / 32,
            r < NUM_PORTS,
    {
        self.port()
    }

    /// The index of the pin's PCR in [`Registers::pcr`]: PCR `pin()` of
    /// PORT block `port_reg()`.
    pub fn pcr_reg(&self) -> (r: usize)
        requires
            self.has_pcr(),
        ensures
            r == self.pcr_index(),
            r < NUM_PORTS * PINS_PER_PORT,
            self.spec_pin() < 32 ==> r == self.spec_port() * PINS_PER_PORT + self.spec_pin(),
    {
        let port = self.port_reg();
        let pin = self.pin();
        assert(port * 32 + pin == self.spec_pin_port()) by {
            vstd::arithmetic::div_mod::lemma_fundamental_div_mod(self.spec_pin_port(), 32);
        }
        port * PINS_PER_PORT + pin
    }

    /// `rf2` is `rf1` with only the pin's PCR changed.
    pub open spec fn only_pcr_changed(&self, rf1: RegisterFile, rf2: RegisterFile) -> bool {
        rf2 == rf1.with_pcr(self.pcr_index(), self.pcr(rf2))
    }

    /// Select the pin's function.
    pub fn set_function(&self, function: Function, regs: &mut Registers)
        requires
            self.has_pcr(),
            old(regs)@.wf(),
        ensures
            self.only_pcr_changed(old(regs)@, final(regs)@),
            Registers::one_write(*old(regs), *final(regs)),
            pcr_mux(self.pcr(final(regs)@)) == spec_mux_value(function),
            agree_outside(self.pcr(final(regs)@), self.pcr(old(regs)@), PCR_MUX),
    {
        let i = self.pcr_reg();
        let v = pcr_with_function(regs.pcr[i], function);
        regs.write_pcr(i, v);
    }

    /// Configure the pin's pull resistor.
    pub fn set_pull(&self, pull: Pull, regs: &mut Registers)
        requires
            self.has_pcr(),
            old(regs)@.wf(),
        ensures
            self.only_pcr_changed(old(regs)@, final(regs)@),
            Registers::one_write(*old(regs), *final(regs)),
            pcr_pull(self.pcr(final(regs)@)) == pull,
            pull == Pull::Disabled ==> agree_outside(
                self.pcr(final(regs)@),
                self.pcr(old(regs)@),
                PCR_PE,
            ),
            agree_outside(self.pcr(final(regs)@), self.pcr(old(regs)@), PCR_PE | PCR_PS),
    {
        let i = self.pcr_reg();
        let v = pcr_with_pull(regs.pcr[i], pull);
        regs.write_pcr(i, v);
    }

    /// Configure the pin's drive strength.
    pub fn set_drive_strength(&self, strength: DriveStrength, regs: &mut Registers)
        requires
            self.has_pcr(),
            old(regs)@.wf(),
        ensures
            self.only_pcr_changed(old(regs)@, final(regs)@),
            Registers::one_write(*old(regs), *final(regs)),
            pcr_drive_strength(self.pcr(final(regs)@)) == strength,
            agree_outside(self.pcr(final(regs)@), self.pcr(old(regs)@), PCR_DSE),
    {
        let i = self.pcr_reg();
        let v = pcr_with_drive_strength(regs.pcr[i], strength);
        regs.write_pcr(i, v);
    }

    /// Configure the pin's slew rate.
    pub fn set_slew_rate(&self, slew_rate: SlewRate, regs: &mut Registers)
        requires
            self.has_pcr(),
            old(regs)@.wf(),
        ensures
            self.only_pcr_changed(old(regs)@, final(regs)@),
            Registers::one_write(*old(regs), *final(regs)),
            pcr_slew_rate(self.pcr(final(regs)@)) == slew_rate,
            agree_outside(self.pcr(final(regs)@), self.pcr(old(regs)@), PCR_SRE),
    {
        let i = self.pcr_reg();
        let v = pcr_with_slew_rate(regs.pcr[i], slew_rate);
        regs.write_pcr(i, v);
    }

    /// Enable the pin's input buffer.
    pub fn set_enable_input_buffer(&self, regs: &mut Registers)
        requires
            self.has_pcr(),
            old(regs)@.wf(),
        ensures
            self.only_pcr_changed(old(regs)@, final(regs)@),
            Registers::one_write(*old(regs), *final(regs)),
            pcr_input_buffer(self.pcr(final(regs)@)),
            agree_outside(self.pcr(final(regs)@), self.pcr(old(regs)@), PCR_IBE),
    {
        let i = self.pcr_reg();
        let v = pcr_with_input_buffer(regs.pcr[i]);
        regs.write_pcr(i, v);
    }
}

/// GP pin trait.
pub trait GpioPin: Sized {
    /// `degrade` is defined: the pin's number over all ports fits in a `usize`.
    spec fn degrade_defined(&self) -> bool;

    /// Type-erase the pin.
    fn degrade(self) -> AnyPin
        requires
            self.degrade_defined(),
    ;
}

impl GpioPin for AnyPin {
    open spec fn degrade_defined(&self) -> bool {
        self.pin_port_fits()
    }

    /// The pin named by `pin_port`, driven by the same GPIO block.
    fn degrade(self) -> (r: AnyPin)
        ensures
            r.spec_port() == self.spec_pin_port() / 32,
            r.spec_pin() == self.spec_pin_port() % 32,
            r.spec_gpio() == self.spec_gpio(),
    {
        AnyPin::new(self.port(), self.pin(), self.gpio())
    }
}

} // verus!

verus! {

/// A flexible pin that can be configured as input or output.
pub struct Flex {
    pin: AnyPin,
}

impl View for Flex {
    type V = AnyPin;

    closed spec fn view(&self) -> AnyPin {
        self.pin
    }
}

impl Flex {
    /// Wrap the pin in a `Flex`.
    ///
    /// The pin remains unmodified. The initial output level is unspecified, but
    /// can be changed before the pin is put into output mode.
    pub fn new(pin: AnyPin) -> (r: Self)
        ensures
            r@ == pin,
    {
        Self { pin }
    }

    fn gpio(&self) -> (r: usize)
        ensures
            r == self@.spec_gpio(),
    {
        self.pin.gpio()
    }

    fn mask(&self) -> (r: u32)
        requires
            self@.spec_pin() < 32,
        ensures
            r == self@.spec_mask(),
    {
        self.pin.mask()
    }

    /// Replace the pin's GPIO block by `block`.
    fn write_block(&self, block: GpioRegisters, regs: &mut Registers)
        requires
            self@.has_gpio_bit(),
            old(regs)@.wf(),
        ensures
            final(regs)@ == self@.with_block(old(regs)@, block),
            Registers::one_write(*old(regs), *final(regs)),
    {
        regs.write_gpio(self.gpio(), block);
    }

    /// Configure the pin's pull resistor.
    pub fn set_pull(&mut self, pull: Pull, regs: &mut Registers)
        requires
            old(self)@.has_pcr(),
            old(regs)@.wf(),
        ensures
            *final(self) == *old(self),
            old(self)@.only_pcr_changed(old(regs)@, final(regs)@),
            Registers::one_write(*old(regs), *final(regs)),
            pcr_pull(old(self)@.pcr(final(regs)@)) == pull,
            pull == Pull::Disabled ==> agree_outside(
                old(self)@.pcr(final(regs)@),
                old(self)@.pcr(old(regs)@),
                PCR_PE,
            ),
            agree_outside(old(self)@.pcr(final(regs)@), old(self)@.pcr(old(regs)@), PCR_PE | PCR_PS),
    {
        self.pin.set_pull(pull, regs);
    }

    /// Configure the pin's drive strength.
    pub fn set_drive_strength(&mut self, strength: DriveStrength, regs: &mut Registers)
        requires
            old(self)@.has_pcr(),
            old(regs)@.wf(),
        ensures
            *final(self) == *old(self),
            old(self)@.only_pcr_changed(old(regs)@, final(regs)@),
            Registers::one_write(*old(regs), *final(regs)),
            pcr_drive_strength(old(self)@.pcr(final(regs)@)) == strength,
            agree_outside(old(self)@.pcr(final(regs)@), old(self)@.pcr(old(regs)@), PCR_DSE),
    {
        self.pin.set_drive_strength(strength, regs);
    }

    /// Configure the pin's slew rate.
    pub fn set_slew_rate(&mut self, slew_rate: SlewRate, regs: &mut Registers)
        requires
            old(self)@.has_pcr(),
            old(regs)@.wf(),
        ensures
            *final(self) == *old(self),
            old(self)@.only_pcr_changed(old(regs)@, final(regs)@),
            Registers::one_write(*old(regs), *final(regs)),
            pcr_slew_rate(old(self)@.pcr(final(regs)@)) == slew_rate,
            agree_outside(old(self)@.pcr(final(regs)@), old(self)@.pcr(old(regs)@), PCR_SRE),
    {
        self.pin.set_slew_rate(slew_rate, regs);
    }

    /// Enable the pin's input buffer.
    pub fn set_enable_input_buffer(&mut self, regs: &mut Registers)
        requires
            old(self)@.has_pcr(),
            old(regs)@.wf(),
        ensures
            *final(self) == *old(self),
            old(self)@.only_pcr_changed(old(regs)@, final(regs)@),
            Registers::one_write(*old(regs), *final(regs)),
            pcr_input_buffer(old(self)@.pcr(final(regs)@)),
            agree_outside(old(self)@.pcr(final(regs)@), old(self)@.pcr(old(regs)@), PCR_IBE),
    {
        self.pin.set_enable_input_buffer(regs);
    }

    /// Put the pin into input mode.
    ///
    /// The pull setting is left unchanged.
    pub fn set_as_input(&mut self, strength: DriveStrength, slew_rate: SlewRate, regs: &mut Registers)
        requires
            old(self)@.usable(),
            old(regs)@.wf(),
        ensures
            *final(self) == *old(self),
            final(regs)@ == old(self)@.after_set_direction(
                old(regs)@.with_pcr(old(self)@.pcr_index(), old(self)@.pcr(final(regs)@)),
                false,
            ),
            Registers::more_writes(*old(regs), *final(regs)),
            old(self)@.latch_held(
                final(regs).history(),
                old(regs).history().len() as int,
                old(self)@.output_high(old(regs)@),
            ),
            old(self)@.direction_held_until_last(
                final(regs).history(),
                old(regs).history().len() as int,
                old(self)@.is_output(old(regs)@),
            ),
            old(self)@.writes_change_only_own(
                final(regs).history(),
                old(regs).history().len() as int,
                old(regs)@,
            ),
            old(self)@.pdor_held(final(regs).history(), old(regs).history().len() as int, old(regs)@),
            pcr_drive_strength(old(self)@.pcr(final(regs)@)) == strength,
            pcr_slew_rate(old(self)@.pcr(final(regs)@)) == slew_rate,
            pcr_input_buffer(old(self)@.pcr(final(regs)@)),
            agree_outside(
                old(self)@.pcr(final(regs)@),
                old(self)@.pcr(old(regs)@),
                PCR_DSE | PCR_SRE | PCR_IBE,
            ),
            pcr_pull(old(self)@.pcr(final(regs)@)) == pcr_pull(old(self)@.pcr(old(regs)@)),
            !old(self)@.is_output(final(regs)@),
    {
        let ghost p = self@;
        let ghost r0 = *regs;
        let ghost rf0 = regs@;
        let ghost pcr0 = p.pcr(regs@);
        let mask = self.mask();
        let g = self.gpio();
        self.set_drive_strength(strength, regs);
        let ghost pcr1 = p.pcr(regs@);
        let ghost s1 = regs@;
        self.set_slew_rate(slew_rate, regs);
        let ghost pcr2 = p.pcr(regs@);
        let ghost s2 = regs@;
        self.set_enable_input_buffer(regs);
        let ghost pcr3 = p.pcr(regs@);
        let ghost s3 = regs@;
        assert(regs@.pcr =~= rf0.pcr.update(p.pcr_index(), pcr3));
        assert(regs@ == rf0.with_pcr(p.pcr_index(), pcr3));
        let mut block = regs.gpio[g];
        block.pddr = block.pddr & !mask;
        self.write_block(block, regs);
        proof {
            lemma_configuration_history(p, r0.history(), rf0, s1, s2, s3, regs@, regs.history());
        }
        proof {
            lemma_bit_ops(p.block(rf0).pddr, p.spec_pin() as u32);
            assert(0x40u32 & (0x1000u32 | 0x8u32) == 0u32 && 0x8u32 & 0x1000u32 == 0u32
                && (0x1000u32 | 0x8u32) | 0x40u32 == (0x40u32 | 0x8u32) | 0x1000u32)
                by (bit_vector);
            lemma_agree_outside_trans(pcr3, pcr2, pcr1, PCR_IBE, PCR_SRE);
            lemma_agree_outside_field(pcr3, pcr1, PCR_IBE | PCR_SRE, PCR_DSE);
            lemma_agree_outside_field(pcr3, pcr2, PCR_IBE, PCR_SRE);
            lemma_agree_outside_trans(pcr3, pcr1, pcr0, PCR_IBE | PCR_SRE, PCR_DSE);
            assert(0x2u32 & ((0x40u32 | 0x8u32) | 0x1000u32) == 0u32
                && 0x1u32 & ((0x40u32 | 0x8u32) | 0x1000u32) == 0u32) by (bit_vector);
            lemma_agree_outside_field(pcr3, pcr0, PCR_DSE | PCR_SRE | PCR_IBE, PCR_PE);
            lemma_agree_outside_field(pcr3, pcr0, PCR_DSE | PCR_SRE | PCR_IBE, PCR_PS);
        }
    }

    /// Put the pin into output mode.
    ///
    /// The initial output level is left unchanged.
    pub fn set_as_output(&mut self, strength: DriveStrength, slew_rate: SlewRate, regs: &mut Registers)
        requires
            old(self)@.usable(),
            old(regs)@.wf(),
        ensures
            *final(self) == *old(self),
            final(regs)@ == old(self)@.after_set_direction(
                old(regs)@.with_pcr(old(self)@.pcr_index(), old(self)@.pcr(final(regs)@)),
                true,
            ),
            Registers::more_writes(*old(regs), *final(regs)),
            old(self)@.latch_held(
                final(regs).history(),
                old(regs).history().len() as int,
                old(self)@.output_high(old(regs)@),
            ),
            old(self)@.direction_held_until_last(
                final(regs).history(),
                old(regs).history().len() as int,
                old(self)@.is_output(old(regs)@),
            ),
            old(self)@.writes_change_only_own(
                final(regs).history(),
                old(regs).history().len() as int,
                old(regs)@,
            ),
            old(self)@.pdor_held(final(regs).history(), old(regs).history().len() as int, old(regs)@),
            pcr_pull(old(self)@.pcr(final(regs)@)) == Pull::Disabled,
            pcr_drive_strength(old(self)@.pcr(final(regs)@)) == strength,
            pcr_slew_rate(old(self)@.pcr(final(regs)@)) == slew_rate,
            agree_outside(
                old(self)@.pcr(final(regs)@),
                old(self)@.pcr(old(regs)@),
                PCR_PE | PCR_DSE | PCR_SRE,
            ),
            old(self)@.is_output(final(regs)@),
            old(self)@.output_high(final(regs)@) == old(self)@.output_high(old(regs)@),
    {
        let ghost p = self@;
        let ghost r0 = *regs;
        let ghost rf0 = regs@;
        let ghost pcr0 = p.pcr(regs@);
        let mask = self.mask();
        let g = self.gpio();
        self.set_pull(Pull::Disabled, regs);
        let ghost pcr1 = p.pcr(regs@);
        let ghost s1 = regs@;
        self.set_drive_strength(strength, regs);
        let ghost pcr2 = p.pcr(regs@);
        let ghost s2 = regs@;
        self.set_slew_rate(slew_rate, regs);
        let ghost pcr3 = p.pcr(regs@);
        let ghost s3 = regs@;
        assert(regs@.pcr =~= rf0.pcr.update(p.pcr_index(), pcr3));
        assert(regs@ == rf0.with_pcr(p.pcr_index(), pcr3));
        let mut block = regs.gpio[g];
        block.pddr = block.pddr | mask;
        self.write_block(block, regs);
        proof {
            lemma_configuration_history(p, r0.history(), rf0, s1, s2, s3, regs@, regs.history());
        }
        proof {
            lemma_bit_ops(p.block(rf0).pddr, p.spec_pin() as u32);
            assert(0x2u32 & (0x8u32 | 0x40u32) == 0u32 && 0x40u32 & 0x8u32 == 0u32
                && (0x8u32 | 0x40u32) | 0x2u32 == (0x2u32 | 0x40u32) | 0x8u32)
                by (bit_vector);
            lemma_agree_outside_trans(pcr3, pcr2, pcr1, PCR_SRE, PCR_DSE);
            lemma_agree_outside_field(pcr3, pcr1, PCR_SRE | PCR_DSE, PCR_PE);
            lemma_agree_outside_field(pcr3, pcr2, PCR_SRE, PCR_DSE);
            lemma_agree_outside_trans(pcr3, pcr1, pcr0, PCR_SRE | PCR_DSE, PCR_PE);
        }
    }

    /// Set output level to High.
    pub fn set_high(&mut self, regs: &mut Registers)
        requires
            old(self)@.has_gpio_bit(),
            old(regs)@.wf(),
        ensures
            *final(self) == *old(self),
            final(regs)@ == old(self)@.after_set_high(old(regs)@),
            Registers::one_write(*old(regs), *final(regs)),
            old(self)@.output_high(final(regs)@),
    {
        let g = self.gpio();
        let mut block = regs.gpio[g];
        block.write_psor(self.mask());
        self.write_block(block, regs);
        proof {
            lemma_bit_ops(self@.block(old(regs)@).pdor, self@.spec_pin() as u32);
        }
    }

    /// Set output level to Low.
    pub fn set_low(&mut self, regs: &mut Registers)
        requires
            old(self)@.has_gpio_bit(),
            old(regs)@.wf(),
        ensures
            *final(self) == *old(self),
            final(regs)@ == old(self)@.after_set_low(old(regs)@),
            Registers::one_write(*old(regs), *final(regs)),
            !old(self)@.output_high(final(regs)@),
    {
        let g = self.gpio();
        let mut block = regs.gpio[g];
        block.write_pcor(self.mask());
        self.write_block(block, regs);
        proof {
            lemma_bit_ops(self@.block(old(regs)@).pdor, self@.spec_pin() as u32);
        }
    }

    /// Set output level to the given `Level`.
    pub fn set_level(&mut self, level: Level, regs: &mut Registers)
        requires
            old(self)@.has_gpio_bit(),
            old(regs)@.wf(),
        ensures
            *final(self) == *old(self),
            final(regs)@ == old(self)@.after_set_level(old(regs)@, level),
            Registers::one_write(*old(regs), *final(regs)),
            old(self)@.output_high(final(regs)@) == (level == Level::High),
    {
        match level {
            Level::High => self.set_high(regs),
            Level::Low => self.set_low(regs),
        }
    }

    /// Toggle output level.
    pub fn toggle(&mut self, regs: &mut Registers)
        requires
            old(self)@.has_gpio_bit(),
            old(regs)@.wf(),
        ensures
            *final(self) == *old(self),
            final(regs)@ == old(self)@.after_toggle(old(regs)@),
            Registers::one_write(*old(regs), *final(regs)),
            old(self)@.output_high(final(regs)@) == !old(self)@.output_high(old(regs)@),
    {
        let g = self.gpio();
        let mut block = regs.gpio[g];
        block.write_ptor(self.mask());
        self.write_block(block, regs);
        proof {
            lemma_bit_ops(self@.block(old(regs)@).pdor, self@.spec_pin() as u32);
        }
    }

    /// Get whether the pin input level is high.
    pub fn is_high(&self, regs: &Registers) -> (r: bool)
        requires
            self@.has_gpio_bit(),
            regs@.wf(),
        ensures
            r == self@.input_high(regs@),
    {
        (regs.gpio[self.gpio()].pdir & self.mask()) != 0
    }

    /// Get whether the pin input level is low.
    pub fn is_low(&self, regs: &Registers) -> (r: bool)
        requires
            self@.has_gpio_bit(),
            regs@.wf(),
        ensures
            r == !self@.input_high(regs@),
    {
        !self.is_high(regs)
    }

    /// Is the output pin set as high?
    pub fn is_set_high(&self, regs: &Registers) -> (r: bool)
        requires
            self@.has_gpio_bit(),
            regs@.wf(),
        ensures
            r == self@.output_high(regs@),
    {
        (regs.gpio[self.gpio()].pdor & self.mask()) != 0
    }

    /// Is the output pin set as low?
    pub fn is_set_low(&self, regs: &Registers) -> (r: bool)
        requires
            self@.has_gpio_bit(),
            regs@.wf(),
        ensures
            r == !self@.output_high(regs@),
    {
        !self.is_set_high(regs)
    }

    /// The pin's input level.
    pub fn get_level(&self, regs: &Registers) -> (r: Level)
        requires
            self@.has_gpio_bit(),
            regs@.wf(),
        ensures
            r == level_of(self@.input_high(regs@)),
    {
        Level::from(self.is_high(regs))
    }
}

} // verus!

verus! {

/// GP output driver that owns a `Flex` pin.
pub struct Output {
    flex: Flex,
}

impl View for Output {
    type V = AnyPin;

    closed spec fn view(&self) -> AnyPin {
        self.flex@
    }
}

impl Output {
    /// Create a GPIO output driver for a pin with the provided [Level].
    pub fn new(
        pin: AnyPin,
        initial: Level,
        strength: DriveStrength,
        slew_rate: SlewRate,
        regs: &mut Registers,
    ) -> (r: Self)
        requires
            pin.usable(),
            old(regs)@.wf(),
        ensures
            r@ == pin,
            final(regs)@ == pin.after_set_direction(
                pin.after_set_level(old(regs)@, initial).with_pcr(
                    pin.pcr_index(),
                    pin.pcr(final(regs)@),
                ),
                true,
            ),
            pcr_pull(pin.pcr(final(regs)@)) == Pull::Disabled,
            pcr_drive_strength(pin.pcr(final(regs)@)) == strength,
            pcr_slew_rate(pin.pcr(final(regs)@)) == slew_rate,
            agree_outside(pin.pcr(final(regs)@), pin.pcr(old(regs)@), PCR_PE | PCR_DSE | PCR_SRE),
            pin.is_output(final(regs)@),
            pin.output_high(final(regs)@) == (initial == Level::High),
            Registers::more_writes(*old(regs), *final(regs)),
            pin.latch_held(
                final(regs).history(),
                old(regs).history().len() as int,
                initial == Level::High,
            ),
            pin.direction_held_until_last(
                final(regs).history(),
                old(regs).history().len() as int,
                pin.is_output(old(regs)@),
            ),
            pin.writes_change_only_own(final(regs).history(), old(regs).history().len() as int, old(regs)@),
    {
        let ghost r0 = *regs;
        let mut flex = Flex::new(pin);
        flex.set_level(initial, regs);
        let ghost r1 = *regs;
        flex.set_as_output(strength, slew_rate, regs);
        proof {
            lemma_level_then_configuration(pin, r0.history(), r0@, initial, r1@, regs.history());
        }
        Self { flex }
    }

    /// Set the output as high.
    pub fn set_high(&mut self, regs: &mut Registers)
        requires
            old(self)@.has_gpio_bit(),
            old(regs)@.wf(),
        ensures
            *final(self) == *old(self),
            final(regs)@ == old(self)@.after_set_high(old(regs)@),
            Registers::one_write(*old(regs), *final(regs)),
            old(self)@.output_high(final(regs)@),
    {
        self.flex.set_high(regs);
    }

    /// Set the output as low.
    pub fn set_low(&mut self, regs: &mut Registers)
        requires
            old(self)@.has_gpio_bit(),
            old(regs)@.wf(),
        ensures
            *final(self) == *old(self),
            final(regs)@ == old(self)@.after_set_low(old(regs)@),
            Registers::one_write(*old(regs), *final(regs)),
            !old(self)@.output_high(final(regs)@),
    {
        self.flex.set_low(regs);
    }

    /// Set the output level.
    pub fn set_level(&mut self, level: Level, regs: &mut Registers)
        requires
            old(self)@.has_gpio_bit(),
            old(regs)@.wf(),
        ensures
            *final(self) == *old(self),
            final(regs)@ == old(self)@.after_set_level(old(regs)@, level),
            Registers::one_write(*old(regs), *final(regs)),
            old(self)@.output_high(final(regs)@) == (level == Level::High),
    {
        self.flex.set_level(level, regs);
    }

    /// Toggle the output level.
    pub fn toggle(&mut self, regs: &mut Registers)
        requires
            old(self)@.has_gpio_bit(),
            old(regs)@.wf(),
        ensures
            *final(self) == *old(self),
            final(regs)@ == old(self)@.after_toggle(old(regs)@),
            Registers::one_write(*old(regs), *final(regs)),
            old(self)@.output_high(final(regs)@) == !old(self)@.output_high(old(regs)@),
    {
        self.flex.toggle(regs);
    }

    /// Is the output pin set as high?
    pub fn is_set_high(&self, regs: &Registers) -> (r: bool)
        requires
            self@.has_gpio_bit(),
            regs@.wf(),
        ensures
            r == self@.output_high(regs@),
    {
        self.flex.is_set_high(regs)
    }

    /// Is the output pin set as low?
    pub fn is_set_low(&self, regs: &Registers) -> (r: bool)
        requires
            self@.has_gpio_bit(),
            regs@.wf(),
        ensures
            r == !self@.output_high(regs@),
    {
        !self.is_set_high(regs)
    }

    /// Expose the inner `Flex` if callers need to reconfigure the pin.
    pub fn into_flex(self) -> (r: Flex)
        ensures
            r@ == self@,
    {
        self.flex
    }
}

/// GP input driver that owns a `Flex` pin.
pub struct Input {
    flex: Flex,
}

impl View for Input {
    type V = AnyPin;

    closed spec fn view(&self) -> AnyPin {
        self.flex@
    }
}

impl Input {
    /// Create a GPIO input driver for a pin.
    pub fn new(
        pin: AnyPin,
        initial: Level,
        strength: DriveStrength,
        slew_rate: SlewRate,
        regs: &mut Registers,
    ) -> (r: Self)
        requires
            pin.usable(),
            old(regs)@.wf(),
        ensures
            r@ == pin,
            final(regs)@ == pin.after_set_direction(
                pin.after_set_level(old(regs)@, initial).with_pcr(
                    pin.pcr_index(),
                    pin.pcr(final(regs)@),
                ),
                false,
            ),
            pcr_drive_strength(pin.pcr(final(regs)@)) == strength,
            pcr_slew_rate(pin.pcr(final(regs)@)) == slew_rate,
            pcr_input_buffer(pin.pcr(final(regs)@)),
            agree_outside(pin.pcr(final(regs)@), pin.pcr(old(regs)@), PCR_DSE | PCR_SRE | PCR_IBE),
            pcr_pull(pin.pcr(final(regs)@)) == pcr_pull(pin.pcr(old(regs)@)),
            !pin.is_output(final(regs)@),
            pin.output_high(final(regs)@) == (initial == Level::High),
            Registers::more_writes(*old(regs), *final(regs)),
            pin.latch_held(
                final(regs).history(),
                old(regs).history().len() as int,
                initial == Level::High,
            ),
            pin.direction_held_until_last(
                final(regs).history(),
                old(regs).history().len() as int,
                pin.is_output(old(regs)@),
            ),
            pin.writes_change_only_own(final(regs).history(), old(regs).history().len() as int, old(regs)@),
    {
        let ghost r0 = *regs;
        let mut flex = Flex::new(pin);
        flex.set_level(initial, regs);
        let ghost r1 = *regs;
        flex.set_as_input(strength, slew_rate, regs);
        proof {
            lemma_level_then_configuration(pin, r0.history(), r0@, initial, r1@, regs.history());
        }
        Self { flex }
    }

    /// Get whether the pin input level is high.
    pub fn is_high(&self, regs: &Registers) -> (r: bool)
        requires
            self@.has_gpio_bit(),
            regs@.wf(),
        ensures
            r == self@.input_high(regs@),
    {
        self.flex.is_high(regs)
    }

    /// Get whether the pin input level is low.
    pub fn is_low(&self, regs: &Registers) -> (r: bool)
        requires
            self@.has_gpio_bit(),
            regs@.wf(),
        ensures
            r == !self@.input_high(regs@),
    {
        self.flex.is_low(regs)
    }

    /// Expose the inner `Flex` if callers need to reconfigure the pin.
    pub fn into_flex(self) -> (r: Flex)
        ensures
            r@ == self@,
    {
        self.flex
    }

    /// The pin's input level.
    pub fn get_level(&self, regs: &Registers) -> (r: Level)
        requires
            self@.has_gpio_bit(),
            regs@.wf(),
        ensures
            r == level_of(self@.input_high(regs@)),
    {
        self.flex.get_level(regs)
    }
}

} // verus!

verus! {

/// The chip has pin `pin` of port `port`, and it has a peripheral of its own.
pub open spec fn pin_exists(port: usize, pin: usize) -> bool {
    if port == 0 {
        pin <= 7 || 12 <= pin <= 27
    } else if port == 1 {
        pin <= 19 || 29 <= pin <= 31
    } else if port == 2 {
        pin <= 26
    } else if port == 3 {
        pin <= 31
    } else if port == 4 {
        pin <= 7
    } else {
        false
    }
}

impl AnyPin {
    /// The type-erased handle that the peripheral of pin `pin` of port `port`
    /// degrades to: it is driven by GPIO block `port`. `None` where the chip
    /// has no such pin.
    pub fn for_peripheral(port: usize, pin: usize) -> (r: Option<AnyPin>)
        ensures
            r is Some <==> pin_exists(port, pin),
            r matches Some(p) ==> p.spec_port() == port && p.spec_pin() == pin && p.spec_gpio()
                == port,
    {
        let exists = if port == 0 {
            pin <= 7 || (12 <= pin && pin <= 27)
        } else if port == 1 {
            pin <= 19 || (29 <= pin && pin <= 31)
        } else if port == 2 {
            pin <= 26
        } else if port == 3 {
            pin <= 31
        } else if port == 4 {
            pin <= 7
        } else {
            false
        };
        if exists {
            Some(AnyPin::new(port, pin, port))
        } else {
            None
        }
    }

    /// `rf2` differs from `rf1` at most in the pin's PCR and in the pin's own
    /// bit of the registers of its GPIO block.
    pub open spec fn changes_only_own(&self, rf1: RegisterFile, rf2: RegisterFile) -> bool {
        let b1 = self.block(rf1);
        let b2 = self.block(rf2);
        &&& rf2 == self.with_block(rf1.with_pcr(self.pcr_index(), self.pcr(rf2)), b2)
        &&& agree_outside(b2.pdor, b1.pdor, self.spec_mask())
        &&& agree_outside(b2.pddr, b1.pddr, self.spec_mask())
        &&& agree_outside(b2.pdir, b1.pdir, self.spec_mask())
    }

    /// `self` and `other` are different pins: different PCRs, and different
    /// bits of the GPIO registers.
    pub open spec fn distinct(&self, other: AnyPin) -> bool {
        &&& self.pcr_index() != other.pcr_index()
        &&& (self.spec_gpio() != other.spec_gpio() || self.spec_pin() != other.spec_pin())
    }
}

/// Every pin that has a peripheral can be configured and driven, and
/// degrading it gives back the same pin.
pub proof fn law_peripheral_pins_usable(p: AnyPin)
    requires
        pin_exists(p.spec_port(), p.spec_pin()),
        p.spec_gpio() == p.spec_port(),
    ensures
        p.usable(),
        p.spec_pin_port() / 32 == p.spec_port(),
        p.spec_pin_port() % 32 == p.spec_pin(),
{
}

/// The PCR that a pin configures is PCR number `pin` of PORT block `port`:
/// its index among all PCRs is `port * PINS_PER_PORT + pin`. So pins that
/// differ in port or in pin number never share a PCR.
pub proof fn law_pcr_of_port_and_pin(p: AnyPin, q: AnyPin)
    requires
        p.spec_pin() < 32,
        q.spec_pin() < 32,
        p.has_pcr(),
        q.has_pcr(),
    ensures
        p.pcr_index() == p.spec_port() * PINS_PER_PORT + p.spec_pin(),
        p.spec_port() < NUM_PORTS,
        p.pcr_index() == q.pcr_index() <==> (p.spec_port() == q.spec_port() && p.spec_pin()
            == q.spec_pin()),
{
}

/// The pins that have a peripheral, port by port: port 0 has pins 0 to 7
/// and 12 to 27, port 1 pins 0 to 19 and 29 to 31, port 2 pins 0 to 26,
/// port 3 pins 0 to 31 and port 4 pins 0 to 7; no other port has any.
pub proof fn law_pin_table()
    ensures
        forall|pin: usize| pin <= 7 ==> #[trigger] pin_exists(0, pin),
        forall|pin: usize| 12 <= pin <= 27 ==> #[trigger] pin_exists(0, pin),
        forall|pin: usize| 8 <= pin <= 11 || 27 < pin ==> !#[trigger] pin_exists(0, pin),
        forall|pin: usize| pin <= 19 ==> #[trigger] pin_exists(1, pin),
        forall|pin: usize| 29 <= pin <= 31 ==> #[trigger] pin_exists(1, pin),
        forall|pin: usize| 20 <= pin <= 28 || 31 < pin ==> !#[trigger] pin_exists(1, pin),
        forall|pin: usize| pin <= 26 ==> #[trigger] pin_exists(2, pin),
        forall|pin: usize| 26 < pin ==> !#[trigger] pin_exists(2, pin),
        forall|pin: usize| pin <= 31 ==> #[trigger] pin_exists(3, pin),
        forall|pin: usize| 31 < pin ==> !#[trigger] pin_exists(3, pin),
        forall|pin: usize| pin <= 7 ==> #[trigger] pin_exists(4, pin),
        forall|pin: usize| 7 < pin ==> !#[trigger] pin_exists(4, pin),
        forall|port: usize, pin: usize| 4 < port ==> !#[trigger] pin_exists(port, pin),
{
}

/// A pin's single-bit mask holds its own bit and no other.
pub proof fn law_mask_is_own_bit(p: AnyPin, other: u32)
    requires
        p.spec_pin() < 32,
        other < 32,
    ensures
        (p.spec_mask() & bit_mask(other) != 0) <==> other == p.spec_pin(),
        p.spec_mask() & !bit_mask(p.spec_pin() as u32) == 0,
{
    let pin = p.spec_pin() as u32;
    assert(((1u32 << pin) & (1u32 << other) != 0u32) <==> other == pin) by (bit_vector)
        requires
            pin < 32u32,
            other < 32u32,
    ;
    assert((1u32 << pin) & !(1u32 << pin) == 0u32) by (bit_vector);
}

/// What a pin reads depends on its own bit of one register alone: its input
/// level on its `PDIR` bit, its output latch on its `PDOR` bit, and its
/// direction on its `PDDR` bit. Two register files that agree on such a bit
/// read the same, whatever else differs.
pub proof fn law_pin_reads_own_bits(p: AnyPin, rf1: RegisterFile, rf2: RegisterFile)
    requires
        p.has_gpio_bit(),
    ensures
        p.block(rf1).pdir & bit_mask(p.spec_pin() as u32) == p.block(rf2).pdir & bit_mask(
            p.spec_pin() as u32,
        ) ==> p.input_high(rf1) == p.input_high(rf2),
        p.block(rf1).pdor & bit_mask(p.spec_pin() as u32) == p.block(rf2).pdor & bit_mask(
            p.spec_pin() as u32,
        ) ==> p.output_high(rf1) == p.output_high(rf2),
        p.block(rf1).pddr & bit_mask(p.spec_pin() as u32) == p.block(rf2).pddr & bit_mask(
            p.spec_pin() as u32,
        ) ==> p.is_output(rf1) == p.is_output(rf2),
        p.input_high(rf1) == (rf1.gpio[p.spec_gpio() as int].pdir & (1u32 << (p.spec_pin() as u32))
            != 0),
{
}

/// Driving the output latch or changing the direction never changes the
/// input level that the pin reads.
pub proof fn law_input_level_unaffected_by_output(p: AnyPin, rf: RegisterFile, level: Level, output: bool)
    requires
        p.has_gpio_bit(),
        rf.wf(),
    ensures
        p.input_high(p.after_set_high(rf)) == p.input_high(rf),
        p.input_high(p.after_set_low(rf)) == p.input_high(rf),
        p.input_high(p.after_toggle(rf)) == p.input_high(rf),
        p.input_high(p.after_set_level(rf, level)) == p.input_high(rf),
        p.input_high(p.after_set_direction(rf, output)) == p.input_high(rf),
{
}

/// `port()` and `pin()` give back the port and the pin an `AnyPin` was made
/// with whenever the pin number is below 32: degrading such a pin is the
/// identity.
pub proof fn law_pin_port_round_trip(p: AnyPin)
    requires
        p.spec_pin() < 32,
        p.pin_port_fits(),
    ensures
        p.spec_pin_port() / 32 == p.spec_port(),
        p.spec_pin_port() % 32 == p.spec_pin(),
{
}

/// Toggling twice restores the registers.
pub proof fn law_toggle_twice(p: AnyPin, rf: RegisterFile)
    requires
        p.has_gpio_bit(),
        rf.wf(),
    ensures
        p.after_toggle(p.after_toggle(rf)) == rf,
{
    lemma_bit_ops(p.block(rf).pdor, p.spec_pin() as u32);
    assert(p.after_toggle(p.after_toggle(rf)).gpio =~= rf.gpio);
}

/// The latest output level wins: setting a level after any other setting of
/// the level gives the same registers as setting it alone, and the output
/// latch reads it back.
pub proof fn law_last_level_wins(p: AnyPin, rf: RegisterFile, first: Level, second: Level)
    requires
        p.has_gpio_bit(),
        rf.wf(),
    ensures
        p.after_set_level(p.after_set_level(rf, first), second) == p.after_set_level(rf, second),
        p.output_high(p.after_set_level(rf, second)) == (second == Level::High),
{
    let x = p.block(rf).pdor;
    let bit = p.spec_pin() as u32;
    lemma_bit_ops(x, bit);
    assert((x | (1u32 << bit)) & !(1u32 << bit) == x & !(1u32 << bit)
        && (x & !(1u32 << bit)) | (1u32 << bit) == x | (1u32 << bit)
        && (x | (1u32 << bit)) | (1u32 << bit) == x | (1u32 << bit)
        && (x & !(1u32 << bit)) & !(1u32 << bit) == x & !(1u32 << bit)) by (bit_vector);
    assert(p.after_set_level(p.after_set_level(rf, first), second).gpio
        =~= p.after_set_level(rf, second).gpio);
}

/// Each register update that the driver makes for a pin changes only that
/// pin's PCR and that pin's own bits.
pub proof fn law_updates_change_only_own(p: AnyPin, rf: RegisterFile, pcr: u32, output: bool)
    requires
        p.usable(),
        rf.wf(),
    ensures
        p.changes_only_own(rf, rf.with_pcr(p.pcr_index(), pcr)),
        p.changes_only_own(rf, p.after_set_high(rf)),
        p.changes_only_own(rf, p.after_set_low(rf)),
        p.changes_only_own(rf, p.after_toggle(rf)),
        p.changes_only_own(rf, p.after_set_direction(rf, output)),
{
    let b = p.block(rf);
    let bit = p.spec_pin() as u32;
    lemma_bit_ops(b.pdor, bit);
    lemma_bit_ops(b.pddr, bit);
    assert(rf.with_pcr(p.pcr_index(), pcr).pcr =~= rf.pcr.update(p.pcr_index(), pcr));
    assert(p.with_block(rf.with_pcr(p.pcr_index(), rf.pcr[p.pcr_index()]), b).gpio =~= rf.gpio);
    assert(p.with_block(rf.with_pcr(p.pcr_index(), rf.pcr[p.pcr_index()]), b).pcr =~= rf.pcr);
    assert(p.with_block(rf.with_pcr(p.pcr_index(), pcr), b).gpio =~= rf.gpio);
}

/// Configuring or driving one pin leaves every other pin as it was: its
/// configuration, its direction, its output latch and its input level.
pub proof fn law_other_pins_unchanged(p: AnyPin, q: AnyPin, rf1: RegisterFile, rf2: RegisterFile)
    requires
        p.usable(),
        q.usable(),
        p.distinct(q),
        rf1.wf(),
        p.changes_only_own(rf1, rf2),
    ensures
        q.pcr(rf2) == q.pcr(rf1),
        q.is_output(rf2) == q.is_output(rf1),
        q.output_high(rf2) == q.output_high(rf1),
        q.input_high(rf2) == q.input_high(rf1),
{
    if p.spec_gpio() == q.spec_gpio() {
        let (b1, b2) = (p.block(rf1), p.block(rf2));
        let (pb, qb) = (p.spec_pin() as u32, q.spec_pin() as u32);
        lemma_agree_outside_bit(b2.pdor, b1.pdor, pb, qb);
        lemma_agree_outside_bit(b2.pddr, b1.pddr, pb, qb);
        lemma_agree_outside_bit(b2.pdir, b1.pdir, pb, qb);
    }
}

} // verus!

verus! {

/// Changing only a pin's PCR twice changes only that PCR.
proof fn lemma_only_pcr_changed_trans(p: AnyPin, a: RegisterFile, b: RegisterFile, c: RegisterFile)
    requires
        p.has_pcr(),
        a.wf(),
        p.only_pcr_changed(a, b),
        p.only_pcr_changed(b, c),
    ensures
        p.only_pcr_changed(a, c),
{
    assert(c.pcr =~= a.pcr.update(p.pcr_index(), p.pcr(c)));
}

/// Changing only a pin's PCR and own bits twice changes only those.
proof fn lemma_changes_only_own_trans(p: AnyPin, a: RegisterFile, b: RegisterFile, c: RegisterFile)
    requires
        p.usable(),
        a.wf(),
        p.changes_only_own(a, b),
        p.changes_only_own(b, c),
    ensures
        p.changes_only_own(a, c),
{
    let m = p.spec_mask();
    let (ba, bb, bc) = (p.block(a), p.block(b), p.block(c));
    assert(c.pcr =~= a.pcr.update(p.pcr_index(), p.pcr(c)));
    assert(c.gpio =~= a.gpio.update(p.spec_gpio() as int, bc));
    assert(bc.pdor & !m == ba.pdor & !m);
    assert(bc.pddr & !m == ba.pddr & !m);
    assert(bc.pdir & !m == ba.pdir & !m);
}

/// The register files that three writes of a pin's PCR followed by a write
/// of its direction leave: the pin's output latch, and its block's `PDOR`,
/// stay as they were; its direction changes only in the last; each changes
/// only the pin's PCR and own bits.
proof fn lemma_configuration_history(
    p: AnyPin,
    h0: Seq<RegisterFile>,
    rf0: RegisterFile,
    s1: RegisterFile,
    s2: RegisterFile,
    s3: RegisterFile,
    fin: RegisterFile,
    h: Seq<RegisterFile>,
)
    requires
        p.usable(),
        rf0.wf(),
        p.only_pcr_changed(rf0, s1),
        p.only_pcr_changed(s1, s2),
        p.only_pcr_changed(s2, s3),
        fin == p.after_set_direction(rf0.with_pcr(p.pcr_index(), p.pcr(fin)), true) || fin
            == p.after_set_direction(rf0.with_pcr(p.pcr_index(), p.pcr(fin)), false),
        h == h0.push(s1).push(s2).push(s3).push(fin),
    ensures
        h.subrange(0, h0.len() as int) == h0,
        p.latch_held(h, h0.len() as int, p.output_high(rf0)),
        p.direction_held_until_last(h, h0.len() as int, p.is_output(rf0)),
        p.writes_change_only_own(h, h0.len() as int, rf0),
        p.pdor_held(h, h0.len() as int, rf0),
{
    let n = h0.len() as int;
    assert(h.subrange(0, n) =~= h0);
    lemma_only_pcr_changed_trans(p, rf0, s1, s2);
    lemma_only_pcr_changed_trans(p, rf0, s2, s3);
    let b = p.block(rf0);
    lemma_bit_ops(b.pddr, p.spec_pin() as u32);
    assert forall|i: int| n <= i < h.len() implies #[trigger] p.changes_only_own(rf0, h[i]) by {
        if i < n + 3 {
            assert(h[i] == s1 || h[i] == s2 || h[i] == s3);
            assert(h[i].gpio =~= rf0.gpio.update(p.spec_gpio() as int, b));
        } else {
            assert(h[i] == fin);
            assert(fin.pcr =~= rf0.pcr.update(p.pcr_index(), p.pcr(fin)));
        }
    }
    assert forall|i: int| n <= i < h.len() implies #[trigger] p.block(h[i]).pdor == b.pdor by {
        if i < n + 3 {
            assert(h[i] == s1 || h[i] == s2 || h[i] == s3);
        }
    }
    assert forall|i: int| n <= i < h.len() implies #[trigger] p.output_high(h[i]) == p.output_high(
        rf0,
    ) by {
        assert(p.block(h[i]).pdor == b.pdor);
    }
    assert forall|i: int| n <= i < h.len() - 1 implies #[trigger] p.is_output(h[i]) == p.is_output(
        rf0,
    ) by {
        assert(h[i] == s1 || h[i] == s2 || h[i] == s3);
    }
}

/// The register files left by a write of a pin's output level followed by
/// its configuration: from the first write on, the output latch holds
/// `level`; the direction changes only in the last write; each changes only
/// the pin's PCR and own bits.
proof fn lemma_level_then_configuration(
    p: AnyPin,
    h0: Seq<RegisterFile>,
    rf0: RegisterFile,
    level: Level,
    r1: RegisterFile,
    h: Seq<RegisterFile>,
)
    requires
        p.usable(),
        rf0.wf(),
        r1 == p.after_set_level(rf0, level),
        h0.len() + 1 < h.len(),
        h.subrange(0, h0.len() + 1 as int) == h0.push(r1),
        p.latch_held(h, h0.len() + 1 as int, p.output_high(r1)),
        p.direction_held_until_last(h, h0.len() + 1 as int, p.is_output(r1)),
        p.writes_change_only_own(h, h0.len() + 1 as int, r1),
    ensures
        h.subrange(0, h0.len() as int) == h0,
        p.latch_held(h, h0.len() as int, level == Level::High),
        p.direction_held_until_last(h, h0.len() as int, p.is_output(rf0)),
        p.writes_change_only_own(h, h0.len() as int, rf0),
{
    let n = h0.len() as int;
    assert(h.subrange(0, n) =~= h.subrange(0, n + 1).subrange(0, n));
    assert(h.subrange(0, n + 1).subrange(0, n) =~= h0);
    assert(h[n] == h.subrange(0, n + 1)[n]);
    lemma_bit_ops(p.block(rf0).pdor, p.spec_pin() as u32);
    law_updates_change_only_own(p, rf0, 0, true);
    assert(p.changes_only_own(rf0, r1));
    assert forall|i: int| n <= i < h.len() implies #[trigger] p.changes_only_own(rf0, h[i]) by {
        if i > n {
            lemma_changes_only_own_trans(p, rf0, r1, h[i]);
        }
    }
}

} // verus!
