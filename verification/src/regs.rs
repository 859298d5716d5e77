//! A model of the chip's PORT and GPIO register blocks as plain values.
//!
//! The driver in `gpio` reads and writes these registers exactly as it would
//! the memory-mapped ones; the write-only registers `PSOR`, `PCOR` and `PTOR`
//! set, clear and toggle bits of the data output register.

use vstd::prelude::*;

verus! {

/// Number of PORT/GPIO blocks (ports 0 to 4).
pub const NUM_PORTS: usize = 5;

/// Number of pin control registers in one PORT block.
pub const PINS_PER_PORT: usize = 32;

/// The registers of one GPIO block that this driver uses.
#[derive(Copy, Clone, Eq, PartialEq, Debug, Structural)]
pub struct GpioRegisters {
    /// `PDOR`: port data output.
    pub pdor: u32,
    /// `PDDR`: port data direction (a set bit makes the pin an output).
    pub pddr: u32,
    /// `PDIR`: port data input, the level seen on each pin.
    pub pdir: u32,
}

impl GpioRegisters {
    /// The block after `bits` is written to `PSOR`: those output bits are set.
    pub open spec fn after_psor(self, bits: u32) -> GpioRegisters {
        GpioRegisters { pdor: self.pdor | bits, ..self }
    }

    /// The block after `bits` is written to `PCOR`: those output bits are cleared.
    pub open spec fn after_pcor(self, bits: u32) -> GpioRegisters {
        GpioRegisters { pdor: self.pdor & !bits, ..self }
    }

    /// The block after `bits` is written to `PTOR`: those output bits are toggled.
    pub open spec fn after_ptor(self, bits: u32) -> GpioRegisters {
        GpioRegisters { pdor: self.pdor ^ bits, ..self }
    }

    /// The block with `PDDR` replaced by `pddr`.
    pub open spec fn with_pddr(self, pddr: u32) -> GpioRegisters {
        GpioRegisters { pddr, ..self }
    }

    /// Write `bits` to `PSOR`.
    pub fn write_psor(&mut self, bits: u32)
        ensures
            *final(self) == old(self).after_psor(bits),
    {
        self.pdor = self.pdor | bits;
    }

    /// Write `bits` to `PCOR`.
    pub fn write_pcor(&mut self, bits: u32)
        ensures
            *final(self) == old(self).after_pcor(bits),
    {
        self.pdor = self.pdor & !bits;
    }

    /// Write `bits` to `PTOR`.
    pub fn write_ptor(&mut self, bits: u32)
        ensures
            *final(self) == old(self).after_ptor(bits),
    {
        self.pdor = self.pdor ^ bits;
    }
}

/// The registers of all PORT and GPIO blocks.
///
/// `pcr[port * PINS_PER_PORT + pin]` is `PCR<pin>` of PORT `port`, and
/// `gpio[port]` is GPIO block `port`.
///
/// Besides the register contents, a `Registers` records the contents left by
/// each write made through [`Registers::write_pcr`] and
/// [`Registers::write_gpio`], in order, so that contracts can say in which
/// order a driver changes the registers. Changes made to the fields directly,
/// such as the input levels that the pins see in `pdir`, stand for the
/// outside world and are not recorded.
pub struct Registers {
    pub pcr: Vec<u32>,
    pub gpio: Vec<GpioRegisters>,
    pub writes: Ghost<Seq<RegisterFile>>,
}

/// The contents of [`Registers`].
pub struct RegisterFile {
    pub pcr: Seq<u32>,
    pub gpio: Seq<GpioRegisters>,
}

impl RegisterFile {
    /// Every PORT and GPIO block is there.
    pub open spec fn wf(self) -> bool {
        &&& self.pcr.len() == NUM_PORTS * PINS_PER_PORT
        &&& self.gpio.len() == NUM_PORTS
    }

    /// The register file with PCR number `index` replaced by `value`.
    pub open spec fn with_pcr(self, index: int, value: u32) -> RegisterFile {
        RegisterFile { pcr: self.pcr.update(index, value), ..self }
    }

    /// The register file with GPIO block `index` replaced by `block`.
    pub open spec fn with_gpio(self, index: int, block: GpioRegisters) -> RegisterFile {
        RegisterFile { gpio: self.gpio.update(index, block), ..self }
    }
}

impl View for Registers {
    type V = RegisterFile;

    open spec fn view(&self) -> RegisterFile {
        RegisterFile { pcr: self.pcr@, gpio: self.gpio@ }
    }
}

impl Registers {
    /// The register contents after each write so far, oldest first.
    pub open spec fn history(&self) -> Seq<RegisterFile> {
        self.writes@
    }

    /// `new` is `old` after exactly one more write, which left `new@`.
    pub open spec fn one_write(old: Registers, new: Registers) -> bool {
        new.history() == old.history().push(new@)
    }

    /// `new` is `old` after at least one more write, the last of which left
    /// `new@`.
    pub open spec fn more_writes(old: Registers, new: Registers) -> bool {
        &&& old.history().len() < new.history().len()
        &&& new.history().subrange(0, old.history().len() as int) == old.history()
        &&& new.history().last() == new@
    }

    /// All PORT and GPIO registers zero, and no write made yet.
    pub fn new() -> (r: Registers)
        ensures
            r@.wf(),
            r.history().len() == 0,
            forall|i: int| 0 <= i < r@.pcr.len() ==> r@.pcr[i] == 0,
            forall|i: int|
                0 <= i < r@.gpio.len() ==> r@.gpio[i] == (GpioRegisters { pdor: 0, pddr: 0, pdir: 0 }),
    {
        let mut pcr: Vec<u32> = Vec::new();
        let mut i: usize = 0;
        while i < NUM_PORTS * PINS_PER_PORT
            invariant
                i <= NUM_PORTS * PINS_PER_PORT,
                pcr@.len() == i,
                forall|j: int| 0 <= j < i ==> pcr@[j] == 0,
            decreases NUM_PORTS * PINS_PER_PORT - i,
        {
            pcr.push(0);
            i = i + 1;
        }
        let mut gpio: Vec<GpioRegisters> = Vec::new();
        let mut k: usize = 0;
        while k < NUM_PORTS
            invariant
                k <= NUM_PORTS,
                gpio@.len() == k,
                forall|j: int|
                    0 <= j < k ==> gpio@[j] == (GpioRegisters { pdor: 0, pddr: 0, pdir: 0 }),
            decreases NUM_PORTS - k,
        {
            gpio.push(GpioRegisters { pdor: 0, pddr: 0, pdir: 0 });
            k = k + 1;
        }
        Registers { pcr, gpio, writes: Ghost(Seq::empty()) }
    }

    /// Write `value` to PCR number `index`.
    pub fn write_pcr(&mut self, index: usize, value: u32)
        requires
            index < old(self)@.pcr.len(),
        ensures
            final(self)@ == old(self)@.with_pcr(index as int, value),
            Registers::one_write(*old(self), *final(self)),
    {
        self.pcr.set(index, value);
        proof {
            self.writes@ = self.writes@.push(self@);
        }
    }

    /// Replace GPIO block `index` by `block`.
    pub fn write_gpio(&mut self, index: usize, block: GpioRegisters)
        requires
            index < old(self)@.gpio.len(),
        ensures
            final(self)@ == old(self)@.with_gpio(index as int, block),
            Registers::one_write(*old(self), *final(self)),
    {
        self.gpio.set(index, block);
        proof {
            self.writes@ = self.writes@.push(self@);
        }
    }
}

} // verus!
