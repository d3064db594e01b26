//! The board: its register configuration, the registry of claimed pins, and the
//! pin handles.
use crate::address::HardwareAddress;
use crate::chip::{
    chip_address, chip_clear_bit, chip_read, chip_set_bit, chip_write, ends_in_failure,
    failed_at, fails_during, op_register, open_chip, register_at, BusOp, Chip, RegisterAddress,
    REGISTER_COUNT,
};
use crate::error::{is_chip_error, PiFaceDigitalError};
use crate::interrupts::{
    interrupting_pins, level_in, level_of, pin_interrupt, pin_outcome, reported, InterruptMode,
    Level, PinPoll,
};
use rppal_mcp23s17::{ChipSelect, Mcp23s17, SpiBus, SpiMode};
use vstd::prelude::*;

verus! {

/// The value `init` gives `IOCON`: `BANK`, `MIRROR` and `ODR` off, sequential
/// addressing off (`SEQOP` set), slew-rate control on, hardware addressing on
/// (`HAEN`), interrupt output active low.
pub const IOCON_DEFAULT: u8 = 0x28;

/// The registers that `init` writes, with their values, in the order it writes
/// them. Port A drives the outputs, port B reads the inputs with pull-ups on, and no
/// pin raises interrupts.
pub open spec fn reset_table() -> Seq<(RegisterAddress, u8)> {
    seq![
        (RegisterAddress::IODIRA, 0x00u8),
        (RegisterAddress::IODIRB, 0xFFu8),
        (RegisterAddress::IPOLA, 0x00u8),
        (RegisterAddress::IPOLB, 0x00u8),
        (RegisterAddress::GPINTENA, 0x00u8),
        (RegisterAddress::GPINTENB, 0x00u8),
        (RegisterAddress::DEFVALA, 0x00u8),
        (RegisterAddress::DEFVALB, 0x00u8),
        (RegisterAddress::INTCONA, 0x00u8),
        (RegisterAddress::INTCONB, 0x00u8),
        (RegisterAddress::GPPUA, 0x00u8),
        (RegisterAddress::GPPUB, 0xFFu8),
        (RegisterAddress::GPIOA, 0x00u8),
    ]
}

/// The writes of a table of register values, in its order.
pub open spec fn writes_of(table: Seq<(RegisterAddress, u8)>) -> Seq<BusOp> {
    table.map_values(|e: (RegisterAddress, u8)| BusOp::Write(e.0, e.1))
}

/// The probe with which `init` looks for the chip: `IOCON` written, then read back
/// as `v`.
pub open spec fn probe_ops(v: u8) -> Seq<BusOp> {
    seq![BusOp::Write(RegisterAddress::IOCON, IOCON_DEFAULT), BusOp::Read(RegisterAddress::IOCON, v)]
}

/// The reads of every register in address order, giving `values`.
pub open spec fn register_reads(values: Seq<u8>) -> Seq<BusOp> {
    Seq::new(values.len(), |i: int| BusOp::Read(register_at(i), values[i]))
}

/// The snapshot taken after an edge: the flags of port B, then its capture.
pub open spec fn snapshot_ops(flags: u8, capture: u8) -> Seq<BusOp> {
    seq![BusOp::Read(RegisterAddress::INTFB, flags), BusOp::Read(RegisterAddress::INTCAPB, capture)]
}

/// From `before` to `after`, the registers were read in address order until a read
/// failed, and nothing was done after it.
pub open spec fn dump_failed(before: Seq<BusOp>, after: Seq<BusOp>) -> bool {
    exists|values: Seq<u8>|
        values.len() < REGISTER_COUNT && after == before + #[trigger] register_reads(values).push(
            BusOp::Failed(register_at(values.len() as int)),
        )
}

/// From `before` to `after`, the snapshot was started and one of its two reads
/// failed, and nothing was done after it.
pub open spec fn snapshot_failed(before: Seq<BusOp>, after: Seq<BusOp>) -> bool {
    ||| after == before.push(BusOp::Failed(RegisterAddress::INTFB))
    ||| exists|f: u8|
        after == #[trigger] before.push(BusOp::Read(RegisterAddress::INTFB, f)).push(
            BusOp::Failed(RegisterAddress::INTCAPB),
        )
}

/// Whether a claim of slot `n` in a registry is refused.
pub open spec fn claim_refused(taken: Seq<bool>, n: u8) -> bool {
    n >= 8 || taken[n as int]
}

/// The configuration of input pin `n`: a high-impedance input, or one with the
/// pull-up resistor on.
pub open spec fn input_setup_ops(n: u8, pull_up: bool) -> Seq<BusOp> {
    seq![
        BusOp::SetBit(RegisterAddress::IODIRB, n),
        if pull_up {
            BusOp::SetBit(RegisterAddress::GPPUB, n)
        } else {
            BusOp::ClearBit(RegisterAddress::GPPUB, n)
        },
    ]
}

/// Drives output pin `n` to a level.
pub open spec fn output_level_ops(n: u8, level: Level) -> Seq<BusOp> {
    match level {
        Level::High => seq![BusOp::SetBit(RegisterAddress::GPIOA, n)],
        Level::Low => seq![BusOp::ClearBit(RegisterAddress::GPIOA, n)],
    }
}

/// The configuration of output pin `n`, then its first level if one is given.
pub open spec fn output_setup_ops(n: u8, initial: Option<Level>) -> Seq<BusOp> {
    seq![BusOp::ClearBit(RegisterAddress::IODIRA, n), BusOp::ClearBit(RegisterAddress::GPPUA, n)]
        + match initial {
        Option::Some(level) => output_level_ops(n, level),
        Option::None => Seq::empty(),
    }
}

/// Disables interrupts of input pin `n`.
pub open spec fn clear_ops(n: u8) -> Seq<BusOp> {
    seq![BusOp::ClearBit(RegisterAddress::GPINTENB, n)]
}

/// Sets the interrupt mode of input pin `n`: `INTCONB` chooses between comparing
/// with `DEFVALB` and reacting to every change, `GPINTENB` enables the pin.
pub open spec fn interrupt_mode_ops(mode: InterruptMode, n: u8) -> Seq<BusOp> {
    match mode {
        InterruptMode::Off => clear_ops(n),
        InterruptMode::ActiveHigh => seq![
            BusOp::SetBit(RegisterAddress::INTCONB, n),
            BusOp::ClearBit(RegisterAddress::DEFVALB, n),
            BusOp::SetBit(RegisterAddress::GPINTENB, n),
        ],
        InterruptMode::ActiveLow => seq![
            BusOp::SetBit(RegisterAddress::INTCONB, n),
            BusOp::SetBit(RegisterAddress::DEFVALB, n),
            BusOp::SetBit(RegisterAddress::GPINTENB, n),
        ],
        InterruptMode::BothEdges => seq![
            BusOp::ClearBit(RegisterAddress::INTCONB, n),
            BusOp::SetBit(RegisterAddress::GPINTENB, n),
        ],
    }
}

/// What releasing input pin `n` does to the chip: interrupts that are still enabled
/// are disabled.
pub open spec fn release_ops(enabled: bool, n: u8) -> Seq<BusOp> {
    if enabled {
        clear_ops(n)
    } else {
        Seq::empty()
    }
}

/// The pin numbers of a list of input pins, in its order.
pub open spec fn pin_numbers(pins: Seq<&InputPin>) -> Seq<u8> {
    pins.map_values(|p: &InputPin| p.number())
}

/// What claiming input pin `pin` did, with the pull-up on or not, when it took
/// `before` to `after` and returned `r`. A refused claim changes nothing; a claim
/// that the chip failed leaves the slot free.
pub open spec fn input_claim(
    before: &PiFaceDigital,
    after: &PiFaceDigital,
    pin: u8,
    pull_up: bool,
    r: Result<InputPin, PiFaceDigitalError>,
) -> bool {
    &&& after.same_board(before)
    &&& after.outputs() == before.outputs()
    &&& (r == Err::<InputPin, PiFaceDigitalError>(PiFaceDigitalError::PinNotAvailable(pin)))
        <==> claim_refused(before.inputs(), pin)
    &&& claim_refused(before.inputs(), pin) ==> after.log() == before.log()
    &&& r matches Ok(p) ==> {
        &&& p.number() == pin
        &&& p.board() == before.chip()
        &&& !p.enabled()
        &&& after.inputs() == before.inputs().update(pin as int, true)
        &&& after.log() == before.log() + input_setup_ops(pin, pull_up)
    }
    &&& r matches Err(e) ==> {
        &&& after.inputs() == before.inputs()
        &&& (e == PiFaceDigitalError::PinNotAvailable(pin) || e is Mcp23s17Error)
    }
    &&& is_chip_error(r) <==> ends_in_failure(before.log(), after.log())
    &&& is_chip_error(r) ==> fails_during(before.log(), after.log(), input_setup_ops(pin, pull_up))
}

/// What claiming output pin `pin` did, with the first level `initial` if one is
/// given, when it took `before` to `after` and returned `r`.
pub open spec fn output_claim(
    before: &PiFaceDigital,
    after: &PiFaceDigital,
    pin: u8,
    initial: Option<Level>,
    r: Result<OutputPin, PiFaceDigitalError>,
) -> bool {
    &&& after.same_board(before)
    &&& after.inputs() == before.inputs()
    &&& (r == Err::<OutputPin, PiFaceDigitalError>(PiFaceDigitalError::PinNotAvailable(pin)))
        <==> claim_refused(before.outputs(), pin)
    &&& claim_refused(before.outputs(), pin) ==> after.log() == before.log()
    &&& r matches Ok(p) ==> {
        &&& p.number() == pin
        &&& p.board() == before.chip()
        &&& after.outputs() == before.outputs().update(pin as int, true)
        &&& after.log() == before.log() + output_setup_ops(pin, initial)
    }
    &&& r matches Err(e) ==> {
        &&& after.outputs() == before.outputs()
        &&& (e == PiFaceDigitalError::PinNotAvailable(pin) || e is Mcp23s17Error)
    }
    &&& is_chip_error(r) <==> ends_in_failure(before.log(), after.log())
    &&& is_chip_error(r) ==> fails_during(before.log(), after.log(), output_setup_ops(pin, initial))
}

fn reset_registers() -> (r: Vec<(RegisterAddress, u8)>)
    ensures
        r@ == reset_table(),
{
    let mut t: Vec<(RegisterAddress, u8)> = Vec::new();
    t.push((RegisterAddress::IODIRA, 0x00));
    t.push((RegisterAddress::IODIRB, 0xFF));
    t.push((RegisterAddress::IPOLA, 0x00));
    t.push((RegisterAddress::IPOLB, 0x00));
    t.push((RegisterAddress::GPINTENA, 0x00));
    t.push((RegisterAddress::GPINTENB, 0x00));
    t.push((RegisterAddress::DEFVALA, 0x00));
    t.push((RegisterAddress::DEFVALB, 0x00));
    t.push((RegisterAddress::INTCONA, 0x00));
    t.push((RegisterAddress::INTCONB, 0x00));
    t.push((RegisterAddress::GPPUA, 0x00));
    t.push((RegisterAddress::GPPUB, 0xFF));
    t.push((RegisterAddress::GPIOA, 0x00));
    assert(t@ == reset_table());
    t
}

/// Reads a register.
fn read_reg(chip: &mut Chip, reg: RegisterAddress) -> (r: Result<u8, PiFaceDigitalError>)
    ensures
        final(chip).driver() == old(chip).driver(),
        r matches Ok(v) ==> final(chip).log() == old(chip).log().push(BusOp::Read(reg, v)),
        r matches Err(e) ==> final(chip).log() == old(chip).log().push(BusOp::Failed(reg)) && e is Mcp23s17Error,
{
    match chip_read(chip, reg, reg.index()) {
        Ok(v) => Ok(v),
        Err(e) => Err(PiFaceDigitalError::from_chip(e)),
    }
}

/// Writes a register.
fn write_reg(chip: &mut Chip, reg: RegisterAddress, data: u8) -> (r: Result<(), PiFaceDigitalError>)
    ensures
        final(chip).driver() == old(chip).driver(),
        r is Ok ==> final(chip).log() == old(chip).log().push(BusOp::Write(reg, data)),
        r matches Err(e) ==> final(chip).log() == old(chip).log().push(BusOp::Failed(reg)) && e is Mcp23s17Error,
{
    match chip_write(chip, reg, reg.index(), data) {
        Ok(()) => Ok(()),
        Err(e) => Err(PiFaceDigitalError::from_chip(e)),
    }
}

/// The access that sets (`o.2`) or clears bit `o.1` of register `o.0`.
pub open spec fn bit_op(o: (RegisterAddress, u8, bool)) -> BusOp {
    if o.2 {
        BusOp::SetBit(o.0, o.1)
    } else {
        BusOp::ClearBit(o.0, o.1)
    }
}

/// The accesses of a list of bit changes, in its order.
pub open spec fn bit_op_seq(ops: Seq<(RegisterAddress, u8, bool)>) -> Seq<BusOp> {
    ops.map_values(|o: (RegisterAddress, u8, bool)| bit_op(o))
}

/// Sets or clears register bits in the order of `ops`, stopping at the first
/// failure.
fn put_bits(chip: &mut Chip, ops: &Vec<(RegisterAddress, u8, bool)>) -> (r: Result<
    (),
    PiFaceDigitalError,
>)
    requires
        forall|i: int| 0 <= i < ops@.len() ==> (#[trigger] ops@[i]).1 < 8,
    ensures
        final(chip).driver() == old(chip).driver(),
        r is Ok ==> final(chip).log() == old(chip).log() + bit_op_seq(ops@),
        r matches Err(e) ==> e is Mcp23s17Error && fails_during(
            old(chip).log(),
            final(chip).log(),
            bit_op_seq(ops@),
        ) && final(chip).log().last() is Failed && final(chip).log().len() > old(chip).log().len(),
{
    let ghost start = chip.log();
    let mut i: usize = 0;
    while i < ops.len()
        invariant
            i <= ops@.len(),
            forall|j: int| 0 <= j < ops@.len() ==> (#[trigger] ops@[j]).1 < 8,
            chip.driver() == old(chip).driver(),
            start == old(chip).log(),
            chip.log() == start + bit_op_seq(ops@.take(i as int)),
        decreases ops@.len() - i,
    {
        let (reg, bit, set) = ops[i];
        let done = if set {
            chip_set_bit(chip, reg, reg.index(), bit)
        } else {
            chip_clear_bit(chip, reg, reg.index(), bit)
        };
        if done.is_err() {
            proof {
                assert(bit_op_seq(ops@).take(i as int) =~= bit_op_seq(ops@.take(i as int)));
                assert(op_register(bit_op_seq(ops@)[i as int]) == reg);
                assert(chip.log() =~= start + bit_op_seq(ops@).take(i as int).push(
                    BusOp::Failed(reg),
                ));
                assert(failed_at(start, chip.log(), bit_op_seq(ops@), i as int));
            }
            return match done {
                Ok(()) => Ok(()),
                Err(e) => Err(PiFaceDigitalError::from_chip(e)),
            };
        }
        assert(bit_op_seq(ops@.take(i as int + 1)) =~= bit_op_seq(ops@.take(i as int)).push(
            bit_op(ops@[i as int]),
        ));
        assert(chip.log() =~= start + bit_op_seq(ops@.take(i as int + 1)));
        i = i + 1;
    }
    assert(ops@.take(ops@.len() as int) =~= ops@);
    Ok(())
}

/// A PiFace Digital board on the SPI bus.
///
/// The board owns the chip driver and the registry of claimed pins. Pin handles
/// carry their pin number and the identity of the board they came from, and act
/// through that board. Every register access goes through the driver, which keeps
/// the record of them that the contracts speak of.
///
/// The registry and the pin configuration are kept here rather than taken from the
/// driver's own `Pin` handles: the driver marks port-B pins as taken but its handles
/// only ever free port-A pins, so an input pin given back could never be claimed
/// again. The driver is used for register access alone.
pub struct PiFaceDigital {
    chip: Chip,
    spi_bus: SpiBus,
    address: HardwareAddress,
    inputs_taken: Vec<bool>,
    outputs_taken: Vec<bool>,
}

impl PiFaceDigital {
    /// The chip driver that the board talks through.
    pub closed spec fn chip(&self) -> Mcp23s17 {
        self.chip.driver()
    }

    /// The SPI bus the board was opened on.
    pub closed spec fn bus(&self) -> SpiBus {
        self.spi_bus
    }

    /// The hardware address the board was opened at.
    pub closed spec fn addr(&self) -> HardwareAddress {
        self.address
    }

    /// For each input pin, whether a live handle holds it.
    pub closed spec fn inputs(&self) -> Seq<bool> {
        self.inputs_taken@
    }

    /// For each output pin, whether a live handle holds it.
    pub closed spec fn outputs(&self) -> Seq<bool> {
        self.outputs_taken@
    }

    /// The register accesses made through this device, oldest first.
    pub closed spec fn log(&self) -> Seq<BusOp> {
        self.chip.log()
    }

    /// The registries have one slot for each of the eight pins of a port.
    pub open spec fn wf(&self) -> bool {
        self.inputs().len() == 8 && self.outputs().len() == 8
    }

    /// `self` is the board `before`, still well formed: only the log and the
    /// registries may differ.
    pub open spec fn same_board(&self, before: &Self) -> bool {
        &&& self.wf()
        &&& self.chip() == before.chip()
        &&& self.bus() == before.bus()
        &&& self.addr() == before.addr()
    }

    /// Opens the chip at `address` on the SPI bus. No register is touched and no pin
    /// is claimed.
    pub fn new(
        address: HardwareAddress,
        spi_bus: SpiBus,
        chip_select: ChipSelect,
        spi_clock: u32,
        spi_mode: SpiMode,
    ) -> (r: Result<Self, PiFaceDigitalError>)
        ensures
            r matches Ok(d) ==> {
                &&& d.wf()
                &&& d.bus() == spi_bus
                &&& d.addr() == address
                &&& d.inputs() == Seq::new(8, |j: int| false)
                &&& d.outputs() == Seq::new(8, |j: int| false)
                &&& d.log() == Seq::<BusOp>::empty()
            },
            r is Err ==> is_chip_error(r),
    {
        match open_chip(chip_address(address.value()), spi_bus, chip_select, spi_clock, spi_mode) {
            Ok(chip) => {
                let mut inputs_taken: Vec<bool> = Vec::new();
                let mut outputs_taken: Vec<bool> = Vec::new();
                let mut i: usize = 0;
                while i < 8
                    invariant
                        i <= 8,
                        inputs_taken@ == Seq::new(i as nat, |j: int| false),
                        outputs_taken@ == Seq::new(i as nat, |j: int| false),
                    decreases 8 - i,
                {
                    inputs_taken.push(false);
                    outputs_taken.push(false);
                    assert(inputs_taken@ == Seq::new((i + 1) as nat, |j: int| false));
                    assert(outputs_taken@ == Seq::new((i + 1) as nat, |j: int| false));
                    i = i + 1;
                }
                Ok(PiFaceDigital {
                    chip,
                    spi_bus,
                    address,
                    inputs_taken,
                    outputs_taken,
                })
            },
            Err(e) => Err(PiFaceDigitalError::from_chip(e)),
        }
    }

    /// Brings the chip's registers to the board's defaults.
    ///
    /// First `IOCON` is written and read back: SPI has no acknowledgement, so a
    /// value that does not come back means that no chip answers, and `init` stops
    /// with `NoHardwareDetected`. Then the registers of `reset_table` are written in
    /// its order, which leaves every chip-side interrupt disabled; only after that
    /// may the interrupt line of the Pi be armed.
    pub fn init(&mut self) -> (r: Result<(), PiFaceDigitalError>)
        requires
            old(self).wf(),
        ensures
            final(self).same_board(old(self)),
            final(self).inputs() == old(self).inputs(),
            final(self).outputs() == old(self).outputs(),
            r is Ok <==> final(self).log() == old(self).log() + probe_ops(IOCON_DEFAULT) + writes_of(
                reset_table(),
            ),
            r matches Err(PiFaceDigitalError::NoHardwareDetected { spi_bus, hardware_address })
                ==> {
                &&& spi_bus == old(self).bus()
                &&& hardware_address == old(self).addr()
                &&& exists|v: u8|
                    #![trigger probe_ops(v)]
                    v != IOCON_DEFAULT && final(self).log() == old(self).log() + probe_ops(v)
            },
            is_chip_error(r) <==> ends_in_failure(old(self).log(), final(self).log()),
            is_chip_error(r) ==> fails_during(
                old(self).log(),
                final(self).log(),
                probe_ops(IOCON_DEFAULT) + writes_of(reset_table()),
            ),
            r matches Err(e) ==> (e is Mcp23s17Error || e is NoHardwareDetected),
    {
        let ghost start = self.chip.log();
        let ghost ops = probe_ops(IOCON_DEFAULT) + writes_of(reset_table());
        let ghost full = start + probe_ops(IOCON_DEFAULT) + writes_of(reset_table());
        assert(full.len() == start.len() + 15);
        assert(ops[0] == BusOp::Write(RegisterAddress::IOCON, IOCON_DEFAULT));
        assert(ops[1] == BusOp::Read(RegisterAddress::IOCON, IOCON_DEFAULT));
        assert(full.last() == BusOp::Write(RegisterAddress::GPIOA, 0x00));
        let w = write_reg(&mut self.chip, RegisterAddress::IOCON, IOCON_DEFAULT);
        if w.is_err() {
            assert(self.chip.log().len() == start.len() + 1);
            assert(self.chip.log() =~= start + ops.take(0).push(BusOp::Failed(RegisterAddress::IOCON)));
            assert(failed_at(start, self.chip.log(), ops, 0));
            return w;
        }
        let v = match read_reg(&mut self.chip, RegisterAddress::IOCON) {
            Ok(v) => v,
            Err(e) => {
                assert(self.chip.log().len() == start.len() + 2);
                assert(self.chip.log() =~= start + ops.take(1).push(BusOp::Failed(RegisterAddress::IOCON)));
                assert(failed_at(start, self.chip.log(), ops, 1));
                return Err(e);
            },
        };
        assert(self.chip.log() =~= start + probe_ops(v));
        if v != IOCON_DEFAULT {
            assert(self.chip.log().len() == start.len() + 2);
            return Err(
                PiFaceDigitalError::NoHardwareDetected {
                    spi_bus: self.spi_bus,
                    hardware_address: self.address,
                },
            );
        }
        let table = reset_registers();
        let ghost probed = self.chip.log();
        let mut i: usize = 0;
        while i < table.len()
            invariant
                i <= table@.len(),
                table@ == reset_table(),
                probed == start + probe_ops(IOCON_DEFAULT),
                full == probed + writes_of(table@),
                ops == probe_ops(IOCON_DEFAULT) + writes_of(table@),
                full.last() == BusOp::Write(RegisterAddress::GPIOA, 0x00),
                start == old(self).log(),
                self.chip.driver() == old(self).chip.driver(),
                self.spi_bus == old(self).spi_bus,
                self.address == old(self).address,
                self.inputs_taken@ == old(self).inputs_taken@,
                self.outputs_taken@ == old(self).outputs_taken@,
                self.inputs_taken@.len() == 8,
                self.outputs_taken@.len() == 8,
                self.chip.log() == probed + writes_of(table@.subrange(0, i as int)),
            decreases table@.len() - i,
        {
            let (reg, data) = table[i];
            let r = write_reg(&mut self.chip, reg, data);
            if r.is_err() {
                assert(self.chip.log().last() != full.last());
                proof {
                    let k = i as int + 2;
                    assert(ops.take(k) =~= probe_ops(IOCON_DEFAULT) + writes_of(
                        table@.subrange(0, i as int),
                    ));
                    assert(ops[k] == BusOp::Write(reg, data));
                    assert(self.chip.log() =~= start + ops.take(k).push(BusOp::Failed(reg)));
                    assert(failed_at(start, self.chip.log(), ops, k));
                }
                return r;
            }
            assert(writes_of(table@.subrange(0, i as int + 1)) =~= writes_of(
                table@.subrange(0, i as int),
            ).push(BusOp::Write(reg, data)));
            assert(self.chip.log() =~= probed + writes_of(table@.subrange(0, i as int + 1)));
            i = i + 1;
        }
        assert(table@.subrange(0, table@.len() as int) =~= table@);
        assert(self.chip.log() =~= full);
        Ok(())
    }

    /// Reads every register of the chip, in address order, for a diagnostic dump.
    pub fn debug_current_state(&mut self) -> (r: Result<Vec<u8>, PiFaceDigitalError>)
        requires
            old(self).wf(),
        ensures
            final(self).wf(),
            final(self).bus() == old(self).bus(),
            final(self).addr() == old(self).addr(),
            final(self).inputs() == old(self).inputs(),
            final(self).outputs() == old(self).outputs(),
            r matches Ok(values) ==> values@.len() == REGISTER_COUNT && final(self).log() == old(
                self,
            ).log() + register_reads(values@),
            r is Err ==> is_chip_error(r),
            is_chip_error(r) <==> ends_in_failure(old(self).log(), final(self).log()),
            is_chip_error(r) ==> dump_failed(old(self).log(), final(self).log()),
    {
        let ghost start = self.chip.log();
        let mut values: Vec<u8> = Vec::new();
        let mut i: usize = 0;
        while i < REGISTER_COUNT
            invariant
                i <= REGISTER_COUNT,
                values@.len() == i,
                start == old(self).log(),
                self.spi_bus == old(self).spi_bus,
                self.address == old(self).address,
                self.inputs_taken@ == old(self).inputs_taken@,
                self.outputs_taken@ == old(self).outputs_taken@,
                self.inputs_taken@.len() == 8,
                self.outputs_taken@.len() == 8,
                self.chip.log() == start + register_reads(values@),
            decreases REGISTER_COUNT - i,
        {
            let reg = RegisterAddress::from_index(i);
            let v = read_reg(&mut self.chip, reg)?;
            values.push(v);
            assert(register_reads(values@) =~= register_reads(values@.drop_last()).push(
                BusOp::Read(reg, v),
            ));
            assert(self.chip.log() =~= start + register_reads(values@));
            i = i + 1;
        }
        assert(self.chip.log().last() == BusOp::Read(register_at(21), values@[21]));
        Ok(values)
    }

    fn claim_input(&mut self, pin: u8, pull_up: bool) -> (r: Result<InputPin, PiFaceDigitalError>)
        requires
            old(self).wf(),
        ensures
            input_claim(old(self), final(self), pin, pull_up, r),
    {
        if pin > 7 || self.inputs_taken[pin as usize] {
            return Err(PiFaceDigitalError::PinNotAvailable(pin));
        }
        let ops = vec![(RegisterAddress::IODIRB, pin, true), (RegisterAddress::GPPUB, pin, pull_up)];
        assert(bit_op_seq(ops@) =~= input_setup_ops(pin, pull_up));
        put_bits(&mut self.chip, &ops)?;
        self.inputs_taken.set(pin as usize, true);
        Ok(InputPin { pin, interrupts_enabled: false, board: Ghost(self.chip.driver()) })
    }

    fn claim_output(&mut self, pin: u8, initial: Option<Level>) -> (r: Result<
        OutputPin,
        PiFaceDigitalError,
    >)
        requires
            old(self).wf(),
        ensures
            output_claim(old(self), final(self), pin, initial, r),
    {
        if pin > 7 || self.outputs_taken[pin as usize] {
            return Err(PiFaceDigitalError::PinNotAvailable(pin));
        }
        let mut ops = vec![(RegisterAddress::IODIRA, pin, false), (RegisterAddress::GPPUA, pin, false)];
        match initial {
            Some(level) => {
                ops.push((RegisterAddress::GPIOA, pin, level == Level::High));
            },
            None => {},
        }
        assert(bit_op_seq(ops@) =~= output_setup_ops(pin, initial));
        put_bits(&mut self.chip, &ops)?;
        self.outputs_taken.set(pin as usize, true);
        Ok(OutputPin { pin, board: Ghost(self.chip.driver()) })
    }

    /// Claims input pin `pin` as a high-impedance input, with interrupts disabled.
    ///
    /// Fails with `PinNotAvailable` if `pin` is beyond 7 or a live handle holds it.
    /// Once the handle is released the pin can be claimed again.
    pub fn get_input_pin(&mut self, pin: u8) -> (r: Result<InputPin, PiFaceDigitalError>)
        requires
            old(self).wf(),
        ensures
            input_claim(old(self), final(self), pin, false, r),
    {
        self.claim_input(pin, false)
    }

    /// Claims input pin `pin` with its pull-up resistor on, with interrupts disabled.
    ///
    /// Fails with `PinNotAvailable` if `pin` is beyond 7 or a live handle holds it.
    pub fn get_pull_up_input_pin(&mut self, pin: u8) -> (r: Result<InputPin, PiFaceDigitalError>)
        requires
            old(self).wf(),
        ensures
            input_claim(old(self), final(self), pin, true, r),
    {
        self.claim_input(pin, true)
    }

    /// Claims output pin `pin`, leaving its level as it is.
    ///
    /// Fails with `PinNotAvailable` if `pin` is beyond 7 or a live handle holds it.
    pub fn get_output_pin(&mut self, pin: u8) -> (r: Result<OutputPin, PiFaceDigitalError>)
        requires
            old(self).wf(),
        ensures
            output_claim(old(self), final(self), pin, Option::None, r),
    {
        self.claim_output(pin, None)
    }

    /// Claims output pin `pin` and drives it high.
    pub fn get_output_pin_high(&mut self, pin: u8) -> (r: Result<OutputPin, PiFaceDigitalError>)
        requires
            old(self).wf(),
        ensures
            output_claim(old(self), final(self), pin, Option::Some(Level::High), r),
    {
        self.claim_output(pin, Some(Level::High))
    }

    /// Claims output pin `pin` and drives it low.
    pub fn get_output_pin_low(&mut self, pin: u8) -> (r: Result<OutputPin, PiFaceDigitalError>)
        requires
            old(self).wf(),
        ensures
            output_claim(old(self), final(self), pin, Option::Some(Level::Low), r),
    {
        self.claim_output(pin, Some(Level::Low))
    }

    /// Reads the flags and the capture of port B, in that order and with nothing in
    /// between: together the two reads clear the chip's interrupt latch.
    fn take_snapshot(&mut self) -> (r: Result<(u8, u8), PiFaceDigitalError>)
        requires
            old(self).wf(),
        ensures
            final(self).same_board(old(self)),
            final(self).inputs() == old(self).inputs(),
            final(self).outputs() == old(self).outputs(),
            r matches Ok((f, c)) ==> final(self).log() == old(self).log() + snapshot_ops(f, c),
            r is Err ==> is_chip_error(r),
            r is Err ==> snapshot_failed(old(self).log(), final(self).log()),
            is_chip_error(r) <==> ends_in_failure(old(self).log(), final(self).log()),
    {
        let ghost start = self.chip.log();
        let flags = match read_reg(&mut self.chip, RegisterAddress::INTFB) {
            Ok(v) => v,
            Err(e) => return Err(e),
        };
        let capture = match read_reg(&mut self.chip, RegisterAddress::INTCAPB) {
            Ok(v) => v,
            Err(e) => {
                assert(self.chip.log() == start.push(BusOp::Read(RegisterAddress::INTFB, flags)).push(
                    BusOp::Failed(RegisterAddress::INTCAPB),
                ));
                return Err(e);
            },
        };
        assert(self.chip.log() =~= start + snapshot_ops(flags, capture));
        Ok((flags, capture))
    }

    /// Handles one wake-up of the interrupt line for a set of input pins, all with
    /// interrupts enabled: `edge` is whether the line saw an edge before the wait
    /// ran out.
    ///
    /// Without an edge the result is `None` and no register is touched. After an
    /// edge the flags and the capture of port B are read once, and the result lists
    /// every pin of `pins` whose flag is set, in the order of `pins`, with the level
    /// it was captured at. The list may be empty: the edge then came from a pin
    /// outside `pins`, and its event is lost.
    pub fn poll_interrupts(&mut self, pins: &[&InputPin], edge: bool) -> (r: Result<
        Option<Vec<(u8, Level)>>,
        PiFaceDigitalError,
    >)
        requires
            old(self).wf(),
            forall|i: int| 0 <= i < pins@.len() ==> (#[trigger] pins@[i]).enabled(),
            forall|i: int| 0 <= i < pins@.len() ==> (#[trigger] pins@[i]).board() == old(self).chip(),
        ensures
            final(self).same_board(old(self)),
            final(self).inputs() == old(self).inputs(),
            final(self).outputs() == old(self).outputs(),
            !edge ==> r == Ok::<Option<Vec<(u8, Level)>>, PiFaceDigitalError>(Option::None)
                && final(self).log() == old(self).log(),
            edge ==> !(r matches Ok(Option::None)),
            r matches Ok(Option::Some(found)) ==> exists|f: u8, c: u8|
                final(self).log() == old(self).log() + #[trigger] snapshot_ops(f, c) && found@
                    == reported(f, c, pin_numbers(pins@)),
            r is Err ==> is_chip_error(r),
            is_chip_error(r) <==> ends_in_failure(old(self).log(), final(self).log()),
            is_chip_error(r) ==> snapshot_failed(old(self).log(), final(self).log()),
    {
        if !edge {
            return Ok(None);
        }
        let mut numbers: Vec<u8> = Vec::new();
        let mut i: usize = 0;
        while i < pins.len()
            invariant
                i <= pins@.len(),
                numbers@ == pin_numbers(pins@.subrange(0, i as int)),
                forall|j: int| 0 <= j < numbers@.len() ==> numbers@[j] < 8,
            decreases pins@.len() - i,
        {
            let n = pins[i].get_pin_number();
            numbers.push(n);
            assert(pin_numbers(pins@.subrange(0, i as int + 1)) =~= pin_numbers(
                pins@.subrange(0, i as int),
            ).push(n));
            i = i + 1;
        }
        assert(pins@.subrange(0, pins@.len() as int) =~= pins@);
        let (flags, capture) = match self.take_snapshot() {
            Ok(snapshot) => snapshot,
            Err(e) => return Err(e),
        };
        let found = interrupting_pins(flags, capture, numbers.as_slice());
        Ok(Some(found))
    }

    /// The chip driver underneath the board.
    pub fn mcp23s17(&self) -> (r: &Mcp23s17)
        ensures
            *r == self.chip(),
    {
        self.chip.mcp23s17()
    }
}

/// A claimed input pin of port B.
///
/// A handle acts through the board it was claimed from. It must be given back with
/// `release`, which also disables interrupts that are still enabled: a handle that
/// is dropped without it leaves the pin claimed and its interrupts as they were.
pub struct InputPin {
    pin: u8,
    interrupts_enabled: bool,
    board: Ghost<Mcp23s17>,
}

impl InputPin {
    #[verifier::type_invariant]
    spec fn pin_in_range(self) -> bool {
        self.pin < 8
    }

    /// The pin number, 0 to 7.
    pub closed spec fn number(&self) -> u8 {
        self.pin
    }

    /// The driver of the board that the pin was claimed from.
    pub closed spec fn board(&self) -> Mcp23s17 {
        self.board@
    }

    /// Whether the pin raises interrupts.
    pub closed spec fn enabled(&self) -> bool {
        self.interrupts_enabled
    }

    /// The pin number, 0 to 7.
    pub fn get_pin_number(&self) -> (r: u8)
        ensures
            r == self.number(),
            r < 8,
    {
        proof {
            use_type_invariant(self);
        }
        self.pin
    }

    /// Whether the pin raises interrupts.
    pub fn interrupts_enabled(&self) -> (r: bool)
        ensures
            r == self.enabled(),
    {
        self.interrupts_enabled
    }

    /// Reads the pin's level from port B.
    pub fn read(&self, pfd: &mut PiFaceDigital) -> (r: Result<Level, PiFaceDigitalError>)
        requires
            old(pfd).wf(),
            self.board() == old(pfd).chip(),
        ensures
            final(pfd).same_board(old(pfd)),
            final(pfd).inputs() == old(pfd).inputs(),
            final(pfd).outputs() == old(pfd).outputs(),
            r matches Ok(level) ==> exists|v: u8|
                final(pfd).log() == old(pfd).log().push(BusOp::Read(RegisterAddress::GPIOB, v))
                    && level == #[trigger] level_of(v, self.number()),
            r is Err ==> is_chip_error(r),
            is_chip_error(r) <==> ends_in_failure(old(pfd).log(), final(pfd).log()),
            is_chip_error(r) ==> final(pfd).log() == old(pfd).log().push(
                BusOp::Failed(RegisterAddress::GPIOB),
            ),
    {
        let n = self.get_pin_number();
        let v = read_reg(&mut pfd.chip, RegisterAddress::GPIOB)?;
        Ok(level_in(v, n))
    }

    /// Reads the pin and tells whether it is low.
    pub fn is_low(&self, pfd: &mut PiFaceDigital) -> (r: Result<bool, PiFaceDigitalError>)
        requires
            old(pfd).wf(),
            self.board() == old(pfd).chip(),
        ensures
            final(pfd).same_board(old(pfd)),
            final(pfd).inputs() == old(pfd).inputs(),
            final(pfd).outputs() == old(pfd).outputs(),
            r matches Ok(low) ==> exists|v: u8|
                final(pfd).log() == old(pfd).log().push(BusOp::Read(RegisterAddress::GPIOB, v))
                    && low == (#[trigger] level_of(v, self.number()) == Level::Low),
            r is Err ==> is_chip_error(r),
            is_chip_error(r) <==> ends_in_failure(old(pfd).log(), final(pfd).log()),
            is_chip_error(r) ==> final(pfd).log() == old(pfd).log().push(
                BusOp::Failed(RegisterAddress::GPIOB),
            ),
    {
        let level = self.read(pfd)?;
        Ok(level == Level::Low)
    }

    /// Reads the pin and tells whether it is high.
    pub fn is_high(&self, pfd: &mut PiFaceDigital) -> (r: Result<bool, PiFaceDigitalError>)
        requires
            old(pfd).wf(),
            self.board() == old(pfd).chip(),
        ensures
            final(pfd).same_board(old(pfd)),
            final(pfd).inputs() == old(pfd).inputs(),
            final(pfd).outputs() == old(pfd).outputs(),
            r matches Ok(high) ==> exists|v: u8|
                final(pfd).log() == old(pfd).log().push(BusOp::Read(RegisterAddress::GPIOB, v))
                    && high == (#[trigger] level_of(v, self.number()) == Level::High),
            r is Err ==> is_chip_error(r),
            is_chip_error(r) <==> ends_in_failure(old(pfd).log(), final(pfd).log()),
            is_chip_error(r) ==> final(pfd).log() == old(pfd).log().push(
                BusOp::Failed(RegisterAddress::GPIOB),
            ),
    {
        let level = self.read(pfd)?;
        Ok(level == Level::High)
    }

    /// Sets the edges on which the pin raises interrupts; `InterruptMode::Off`
    /// disables them. With several pins on the one interrupt line, `BothEdges` is
    /// the mode to use: with one edge, a level that is held cannot be told from a
    /// new event.
    ///
    /// The handle counts as enabled for every mode but `Off`, also when the chip
    /// failed, so that `release` still disables what may have been enabled.
    pub fn set_interrupt(&mut self, pfd: &mut PiFaceDigital, mode: InterruptMode) -> (r: Result<
        (),
        PiFaceDigitalError,
    >)
        requires
            old(pfd).wf(),
            self.board() == old(pfd).chip(),
        ensures
            final(self).number() == old(self).number(),
            final(self).board() == old(self).board(),
            final(self).enabled() == (mode != InterruptMode::Off),
            final(pfd).same_board(old(pfd)),
            final(pfd).inputs() == old(pfd).inputs(),
            final(pfd).outputs() == old(pfd).outputs(),
            r is Ok ==> final(pfd).log() == old(pfd).log() + interrupt_mode_ops(
                mode,
                old(self).number(),
            ),
            r is Err ==> is_chip_error(r),
            is_chip_error(r) <==> ends_in_failure(old(pfd).log(), final(pfd).log()),
            is_chip_error(r) ==> fails_during(
                old(pfd).log(),
                final(pfd).log(),
                interrupt_mode_ops(mode, old(self).number()),
            ),
    {
        let n = self.get_pin_number();
        self.interrupts_enabled = mode != InterruptMode::Off;
        let ops = match mode {
            InterruptMode::Off => vec![(RegisterAddress::GPINTENB, n, false)],
            InterruptMode::ActiveHigh => vec![
                (RegisterAddress::INTCONB, n, true),
                (RegisterAddress::DEFVALB, n, false),
                (RegisterAddress::GPINTENB, n, true),
            ],
            InterruptMode::ActiveLow => vec![
                (RegisterAddress::INTCONB, n, true),
                (RegisterAddress::DEFVALB, n, true),
                (RegisterAddress::GPINTENB, n, true),
            ],
            InterruptMode::BothEdges => vec![
                (RegisterAddress::INTCONB, n, false),
                (RegisterAddress::GPINTENB, n, true),
            ],
        };
        assert(bit_op_seq(ops@) =~= interrupt_mode_ops(mode, n));
        put_bits(&mut pfd.chip, &ops)?;
        Ok(())
    }

    /// Disables the pin's interrupts. A second call changes nothing more.
    pub fn clear_interrupt(&mut self, pfd: &mut PiFaceDigital) -> (r: Result<(), PiFaceDigitalError>)
        requires
            old(pfd).wf(),
            self.board() == old(pfd).chip(),
        ensures
            final(self).number() == old(self).number(),
            final(self).board() == old(self).board(),
            !final(self).enabled(),
            final(pfd).same_board(old(pfd)),
            final(pfd).inputs() == old(pfd).inputs(),
            final(pfd).outputs() == old(pfd).outputs(),
            r is Ok ==> final(pfd).log() == old(pfd).log() + clear_ops(old(self).number()),
            r is Err ==> is_chip_error(r),
            is_chip_error(r) <==> ends_in_failure(old(pfd).log(), final(pfd).log()),
            is_chip_error(r) ==> fails_during(
                old(pfd).log(),
                final(pfd).log(),
                clear_ops(old(self).number()),
            ),
    {
        let n = self.get_pin_number();
        self.interrupts_enabled = false;
        let ops = vec![(RegisterAddress::GPINTENB, n, false)];
        assert(bit_op_seq(ops@) =~= clear_ops(n));
        put_bits(&mut pfd.chip, &ops)?;
        Ok(())
    }

    /// Handles one wake-up of the interrupt line while waiting on this pin, which
    /// must have interrupts enabled: `edge` is whether the line saw an edge before
    /// the wait ran out.
    ///
    /// Without an edge the wait has timed out and no register is touched. After an
    /// edge the flags and the capture of port B are read once. If the pin's flag is
    /// set the result is the level captured with the edge, not a fresh read, which
    /// a later edge could have changed. Otherwise the edge came from another pin:
    /// the reads have cleared its event, which is lost, and the caller waits again.
    pub fn poll_interrupt(&self, pfd: &mut PiFaceDigital, edge: bool) -> (r: Result<
        PinPoll,
        PiFaceDigitalError,
    >)
        requires
            old(pfd).wf(),
            self.board() == old(pfd).chip(),
            self.enabled(),
        ensures
            final(pfd).same_board(old(pfd)),
            final(pfd).inputs() == old(pfd).inputs(),
            final(pfd).outputs() == old(pfd).outputs(),
            !edge ==> r == Ok::<PinPoll, PiFaceDigitalError>(PinPoll::TimedOut) && final(pfd).log()
                == old(pfd).log(),
            edge ==> (r matches Ok(outcome) ==> exists|f: u8, c: u8|
                final(pfd).log() == old(pfd).log() + #[trigger] snapshot_ops(f, c) && outcome
                    == pin_outcome(f, c, self.number())),
            r is Err ==> is_chip_error(r),
            is_chip_error(r) <==> ends_in_failure(old(pfd).log(), final(pfd).log()),
            is_chip_error(r) ==> snapshot_failed(old(pfd).log(), final(pfd).log()),
    {
        if !edge {
            return Ok(PinPoll::TimedOut);
        }
        let n = self.get_pin_number();
        let (flags, capture) = match pfd.take_snapshot() {
            Ok(snapshot) => snapshot,
            Err(e) => return Err(e),
        };
        Ok(pin_interrupt(flags, capture, n))
    }

    /// Gives the pin back to the board: interrupts still enabled are disabled
    /// first, and the pin can then be claimed again.
    ///
    /// The slot is freed also when disabling fails; the error then says that the
    /// chip may still raise interrupts for the pin.
    pub fn release(self, pfd: &mut PiFaceDigital) -> (r: Result<(), PiFaceDigitalError>)
        requires
            old(pfd).wf(),
            self.board() == old(pfd).chip(),
        ensures
            final(pfd).same_board(old(pfd)),
            final(pfd).inputs() == old(pfd).inputs().update(self.number() as int, false),
            final(pfd).outputs() == old(pfd).outputs(),
            r is Ok ==> final(pfd).log() == old(pfd).log() + release_ops(
                self.enabled(),
                self.number(),
            ),
            r is Err ==> is_chip_error(r),
            is_chip_error(r) <==> ends_in_failure(old(pfd).log(), final(pfd).log()),
            is_chip_error(r) ==> fails_during(
                old(pfd).log(),
                final(pfd).log(),
                release_ops(self.enabled(), self.number()),
            ),
            !self.enabled() ==> r is Ok && final(pfd).log() == old(pfd).log(),
    {
        let n = self.get_pin_number();
        let ghost start = pfd.chip.log();
        let mut result: Result<(), PiFaceDigitalError> = Ok(());
        if self.interrupts_enabled {
            let ops = vec![(RegisterAddress::GPINTENB, n, false)];
            assert(bit_op_seq(ops@) =~= release_ops(true, n));
            result = put_bits(&mut pfd.chip, &ops);
        }
        pfd.inputs_taken.set(n as usize, false);
        assert(!self.interrupts_enabled ==> pfd.chip.log() =~= start + release_ops(false, n));
        result
    }
}

/// A claimed output pin of port A.
///
/// A handle acts through the board it was claimed from. It must be given back with
/// `release`: a handle that is dropped without it leaves the pin claimed.
pub struct OutputPin {
    pin: u8,
    board: Ghost<Mcp23s17>,
}

impl OutputPin {
    #[verifier::type_invariant]
    spec fn pin_in_range(self) -> bool {
        self.pin < 8
    }

    /// The pin number, 0 to 7.
    pub closed spec fn number(&self) -> u8 {
        self.pin
    }

    /// The driver of the board that the pin was claimed from.
    pub closed spec fn board(&self) -> Mcp23s17 {
        self.board@
    }

    /// The pin number, 0 to 7.
    pub fn get_pin_number(&self) -> (r: u8)
        ensures
            r == self.number(),
            r < 8,
    {
        proof {
            use_type_invariant(self);
        }
        self.pin
    }

    /// Drives the pin to `level`.
    pub fn write(&self, pfd: &mut PiFaceDigital, level: Level) -> (r: Result<(), PiFaceDigitalError>)
        requires
            old(pfd).wf(),
            self.board() == old(pfd).chip(),
        ensures
            final(pfd).same_board(old(pfd)),
            final(pfd).inputs() == old(pfd).inputs(),
            final(pfd).outputs() == old(pfd).outputs(),
            r is Ok ==> final(pfd).log() == old(pfd).log() + output_level_ops(self.number(), level),
            r is Err ==> is_chip_error(r),
            is_chip_error(r) <==> ends_in_failure(old(pfd).log(), final(pfd).log()),
            is_chip_error(r) ==> fails_during(
                old(pfd).log(),
                final(pfd).log(),
                output_level_ops(self.number(), level),
            ),
    {
        let n = self.get_pin_number();
        let ops = vec![(RegisterAddress::GPIOA, n, level == Level::High)];
        assert(bit_op_seq(ops@) =~= output_level_ops(n, level));
        put_bits(&mut pfd.chip, &ops)?;
        Ok(())
    }

    /// Drives the pin high.
    pub fn set_high(&self, pfd: &mut PiFaceDigital) -> (r: Result<(), PiFaceDigitalError>)
        requires
            old(pfd).wf(),
            self.board() == old(pfd).chip(),
        ensures
            final(pfd).same_board(old(pfd)),
            final(pfd).inputs() == old(pfd).inputs(),
            final(pfd).outputs() == old(pfd).outputs(),
            r is Ok ==> final(pfd).log() == old(pfd).log() + output_level_ops(
                self.number(),
                Level::High,
            ),
            r is Err ==> is_chip_error(r),
            is_chip_error(r) <==> ends_in_failure(old(pfd).log(), final(pfd).log()),
            is_chip_error(r) ==> fails_during(
                old(pfd).log(),
                final(pfd).log(),
                output_level_ops(self.number(), Level::High),
            ),
    {
        self.write(pfd, Level::High)
    }

    /// Drives the pin low.
    pub fn set_low(&self, pfd: &mut PiFaceDigital) -> (r: Result<(), PiFaceDigitalError>)
        requires
            old(pfd).wf(),
            self.board() == old(pfd).chip(),
        ensures
            final(pfd).same_board(old(pfd)),
            final(pfd).inputs() == old(pfd).inputs(),
            final(pfd).outputs() == old(pfd).outputs(),
            r is Ok ==> final(pfd).log() == old(pfd).log() + output_level_ops(
                self.number(),
                Level::Low,
            ),
            r is Err ==> is_chip_error(r),
            is_chip_error(r) <==> ends_in_failure(old(pfd).log(), final(pfd).log()),
            is_chip_error(r) ==> fails_during(
                old(pfd).log(),
                final(pfd).log(),
                output_level_ops(self.number(), Level::Low),
            ),
    {
        self.write(pfd, Level::Low)
    }

    /// Reads the pin's level back from port A.
    pub fn read(&self, pfd: &mut PiFaceDigital) -> (r: Result<Level, PiFaceDigitalError>)
        requires
            old(pfd).wf(),
            self.board() == old(pfd).chip(),
        ensures
            final(pfd).same_board(old(pfd)),
            final(pfd).inputs() == old(pfd).inputs(),
            final(pfd).outputs() == old(pfd).outputs(),
            r matches Ok(level) ==> exists|v: u8|
                final(pfd).log() == old(pfd).log().push(BusOp::Read(RegisterAddress::GPIOA, v))
                    && level == #[trigger] level_of(v, self.number()),
            r is Err ==> is_chip_error(r),
            is_chip_error(r) <==> ends_in_failure(old(pfd).log(), final(pfd).log()),
            is_chip_error(r) ==> final(pfd).log() == old(pfd).log().push(
                BusOp::Failed(RegisterAddress::GPIOA),
            ),
    {
        let n = self.get_pin_number();
        let v = read_reg(&mut pfd.chip, RegisterAddress::GPIOA)?;
        Ok(level_in(v, n))
    }

    /// Gives the pin back to the board; it can then be claimed again. The pin keeps
    /// driving its last level.
    pub fn release(self, pfd: &mut PiFaceDigital)
        requires
            old(pfd).wf(),
            self.board() == old(pfd).chip(),
        ensures
            final(pfd).same_board(old(pfd)),
            final(pfd).inputs() == old(pfd).inputs(),
            final(pfd).outputs() == old(pfd).outputs().update(self.number() as int, false),
            final(pfd).log() == old(pfd).log(),
    {
        let n = self.get_pin_number();
        pfd.outputs_taken.set(n as usize, false);
    }
}

} // verus!
