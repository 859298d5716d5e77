# embassy-mcxa GPIO, verified

GPIO driver for the MCX A family (`Flex`, `Input`, `Output`, `AnyPin`),
verified with Verus against a plain-value model of the PORT and GPIO
registers: the drivers act on that model, and no memory-mapped register is
accessed.

- `src/types.rs`: pin configuration values (`Function`, `Level`, `Pull`, ...).
- `src/pcr.rs`: the pin control register layout and the field updates.
- `src/regs.rs`: the PORT and GPIO register blocks as plain values.
- `src/gpio.rs`: the drivers, and the laws that relate their operations.
- `src/bits.rs`: single-bit mask facts used by the proofs.
- `app/lib.rs`: `embedded-hal` 1.0 traits over the drivers.
