//! The MCP23S17's register file as this crate sees it, and the calls into the chip
//! driver that reach it.
use rppal_mcp23s17::{
    HardwareAddress as ChipAddress, Mcp23s17, Mcp23s17Error, RegisterAddress as ChipRegister,
};
use vstd::prelude::*;

verus! {

#[verifier::external_type_specification]
#[verifier::external_body]
pub struct ExMcp23s17(rppal_mcp23s17::Mcp23s17);

#[verifier::external_type_specification]
#[verifier::external_body]
pub struct ExMcp23s17Error(rppal_mcp23s17::Mcp23s17Error);

#[verifier::external_type_specification]
#[verifier::external_body]
pub struct ExChipAddress(ChipAddress);

#[verifier::external_type_specification]
#[verifier::external_body]
pub struct ExChipRegister(ChipRegister);

#[verifier::external_type_specification]
#[verifier::external_body]
pub struct ExSpiBus(rppal::spi::Bus);

#[verifier::external_type_specification]
#[verifier::external_body]
pub struct ExSpiMode(rppal::spi::Mode);

#[verifier::external_type_specification]
#[verifier::external_body]
pub struct ExChipSelect(rppal_mcp23s17::ChipSelect);

/// The registers of the MCP23S17 with `IOCON.BANK` clear, in address order.
#[allow(non_camel_case_types)]
#[derive(Clone, Copy, Debug, PartialEq, Eq, Structural)]
pub enum RegisterAddress {
    IODIRA,
    IODIRB,
    IPOLA,
    IPOLB,
    GPINTENA,
    GPINTENB,
    DEFVALA,
    DEFVALB,
    INTCONA,
    INTCONB,
    IOCON,
    IOCON2,
    GPPUA,
    GPPUB,
    INTFA,
    INTFB,
    INTCAPA,
    INTCAPB,
    GPIOA,
    GPIOB,
    OLATA,
    OLATB,
}

/// Number of registers in the chip's register file.
pub const REGISTER_COUNT: usize = 22;

/// The order of the registers in the chip's address space.
pub open spec fn register_at(i: int) -> RegisterAddress {
    if i == 0 {
        RegisterAddress::IODIRA
    } else if i == 1 {
        RegisterAddress::IODIRB
    } else if i == 2 {
        RegisterAddress::IPOLA
    } else if i == 3 {
        RegisterAddress::IPOLB
    } else if i == 4 {
        RegisterAddress::GPINTENA
    } else if i == 5 {
        RegisterAddress::GPINTENB
    } else if i == 6 {
        RegisterAddress::DEFVALA
    } else if i == 7 {
        RegisterAddress::DEFVALB
    } else if i == 8 {
        RegisterAddress::INTCONA
    } else if i == 9 {
        RegisterAddress::INTCONB
    } else if i == 10 {
        RegisterAddress::IOCON
    } else if i == 11 {
        RegisterAddress::IOCON2
    } else if i == 12 {
        RegisterAddress::GPPUA
    } else if i == 13 {
        RegisterAddress::GPPUB
    } else if i == 14 {
        RegisterAddress::INTFA
    } else if i == 15 {
        RegisterAddress::INTFB
    } else if i == 16 {
        RegisterAddress::INTCAPA
    } else if i == 17 {
        RegisterAddress::INTCAPB
    } else if i == 18 {
        RegisterAddress::GPIOA
    } else if i == 19 {
        RegisterAddress::GPIOB
    } else if i == 20 {
        RegisterAddress::OLATA
    } else {
        RegisterAddress::OLATB
    }
}

impl RegisterAddress {
    /// The register's address on the chip.
    pub open spec fn spec_index(self) -> u8 {
        match self {
            RegisterAddress::IODIRA => 0x00,
            RegisterAddress::IODIRB => 0x01,
            RegisterAddress::IPOLA => 0x02,
            RegisterAddress::IPOLB => 0x03,
            RegisterAddress::GPINTENA => 0x04,
            RegisterAddress::GPINTENB => 0x05,
            RegisterAddress::DEFVALA => 0x06,
            RegisterAddress::DEFVALB => 0x07,
            RegisterAddress::INTCONA => 0x08,
            RegisterAddress::INTCONB => 0x09,
            RegisterAddress::IOCON => 0x0A,
            RegisterAddress::IOCON2 => 0x0B,
            RegisterAddress::GPPUA => 0x0C,
            RegisterAddress::GPPUB => 0x0D,
            RegisterAddress::INTFA => 0x0E,
            RegisterAddress::INTFB => 0x0F,
            RegisterAddress::INTCAPA => 0x10,
            RegisterAddress::INTCAPB => 0x11,
            RegisterAddress::GPIOA => 0x12,
            RegisterAddress::GPIOB => 0x13,
            RegisterAddress::OLATA => 0x14,
            RegisterAddress::OLATB => 0x15,
        }
    }

    /// The register's address on the chip.
    #[verifier::when_used_as_spec(spec_index)]
    pub fn index(self) -> (r: u8)
        ensures
            r == self.spec_index(),
            (r as usize) < REGISTER_COUNT,
            register_at(r as int) == self,
    {
        match self {
            RegisterAddress::IODIRA => 0x00,
            RegisterAddress::IODIRB => 0x01,
            RegisterAddress::IPOLA => 0x02,
            RegisterAddress::IPOLB => 0x03,
            RegisterAddress::GPINTENA => 0x04,
            RegisterAddress::GPINTENB => 0x05,
            RegisterAddress::DEFVALA => 0x06,
            RegisterAddress::DEFVALB => 0x07,
            RegisterAddress::INTCONA => 0x08,
            RegisterAddress::INTCONB => 0x09,
            RegisterAddress::IOCON => 0x0A,
            RegisterAddress::IOCON2 => 0x0B,
            RegisterAddress::GPPUA => 0x0C,
            RegisterAddress::GPPUB => 0x0D,
            RegisterAddress::INTFA => 0x0E,
            RegisterAddress::INTFB => 0x0F,
            RegisterAddress::INTCAPA => 0x10,
            RegisterAddress::INTCAPB => 0x11,
            RegisterAddress::GPIOA => 0x12,
            RegisterAddress::GPIOB => 0x13,
            RegisterAddress::OLATA => 0x14,
            RegisterAddress::OLATB => 0x15,
        }
    }

    /// The register at a given address on the chip.
    pub fn from_index(i: usize) -> (r: RegisterAddress)
        requires
            i < REGISTER_COUNT,
        ensures
            r == register_at(i as int),
            r.spec_index() == i,
    {
        match i {
            0 => RegisterAddress::IODIRA,
            1 => RegisterAddress::IODIRB,
            2 => RegisterAddress::IPOLA,
            3 => RegisterAddress::IPOLB,
            4 => RegisterAddress::GPINTENA,
            5 => RegisterAddress::GPINTENB,
            6 => RegisterAddress::DEFVALA,
            7 => RegisterAddress::DEFVALB,
            8 => RegisterAddress::INTCONA,
            9 => RegisterAddress::INTCONB,
            10 => RegisterAddress::IOCON,
            11 => RegisterAddress::IOCON2,
            12 => RegisterAddress::GPPUA,
            13 => RegisterAddress::GPPUB,
            14 => RegisterAddress::INTFA,
            15 => RegisterAddress::INTFB,
            16 => RegisterAddress::INTCAPA,
            17 => RegisterAddress::INTCAPB,
            18 => RegisterAddress::GPIOA,
            19 => RegisterAddress::GPIOB,
            20 => RegisterAddress::OLATA,
            _ => RegisterAddress::OLATB,
        }
    }
}

/// One register access that the library made, as the chip driver reported it.
#[derive(Clone, Copy, Debug, PartialEq, Eq, Structural)]
pub enum BusOp {
    /// The register was read and held the value.
    Read(RegisterAddress, u8),
    /// The value was written to the register.
    Write(RegisterAddress, u8),
    /// One bit of the register was set, the others kept.
    SetBit(RegisterAddress, u8),
    /// One bit of the register was cleared, the others kept.
    ClearBit(RegisterAddress, u8),
    /// An access to the register failed; what it did to the chip is unknown.
    Failed(RegisterAddress),
}

/// The accesses from `before` to `after` ended with a failed one.
pub open spec fn ends_in_failure(before: Seq<BusOp>, after: Seq<BusOp>) -> bool {
    after.len() > before.len() && after.last() is Failed
}

/// Whether bit `n` of `b` is set.
pub open spec fn bit_of(b: u8, n: u8) -> bool {
    b & (1u8 << n) != 0
}

/// The value that a bit of a register holds by the library's last access to it that
/// decided that bit, or `None` where no access in `log` decided it.
pub open spec fn written_bit(log: Seq<BusOp>, reg: RegisterAddress, bit: u8) -> Option<bool>
    decreases log.len(),
{
    if log.len() == 0 {
        None
    } else {
        match log.last() {
            BusOp::Write(r, v) if r == reg => Some(bit_of(v, bit)),
            BusOp::SetBit(r, b) if r == reg && b == bit => Some(true),
            BusOp::ClearBit(r, b) if r == reg && b == bit => Some(false),
            _ => written_bit(log.drop_last(), reg, bit),
        }
    }
}

/// The register that a recorded access went to.
pub open spec fn op_register(op: BusOp) -> RegisterAddress {
    match op {
        BusOp::Read(r, _) => r,
        BusOp::Write(r, _) => r,
        BusOp::SetBit(r, _) => r,
        BusOp::ClearBit(r, _) => r,
        BusOp::Failed(r) => r,
    }
}

/// From `before` to `after`, the accesses `ops` were made in order up to the `k`-th,
/// which failed; nothing was done after it.
pub open spec fn failed_at(before: Seq<BusOp>, after: Seq<BusOp>, ops: Seq<BusOp>, k: int) -> bool {
    &&& 0 <= k < ops.len()
    &&& after == before + ops.take(k).push(BusOp::Failed(op_register(ops[k])))
}

/// From `before` to `after`, the accesses `ops` were made in order until one of them
/// failed, and nothing was done after it.
pub open spec fn fails_during(before: Seq<BusOp>, after: Seq<BusOp>, ops: Seq<BusOp>) -> bool {
    exists|k: int| #[trigger] failed_at(before, after, ops, k)
}

/// The MCP23S17 driver, with the record of every register access made through it.
///
/// Only the functions below that call the driver extend the record, each with the
/// one access it made.
pub struct Chip {
    dev: Mcp23s17,
    log: Ghost<Seq<BusOp>>,
}

impl Chip {
    /// The register accesses made through the driver, oldest first.
    pub closed spec fn log(&self) -> Seq<BusOp> {
        self.log@
    }

    /// The driver itself.
    pub closed spec fn driver(&self) -> Mcp23s17 {
        self.dev
    }

    /// The driver itself.
    pub fn mcp23s17(&self) -> (r: &Mcp23s17)
        ensures
            *r == self.driver(),
    {
        &self.dev
    }
}

/// Relies on `rppal_mcp23s17::HardwareAddress::new`, which accepts every address up
/// to 7.
#[verifier::external_body]
pub(crate) fn chip_address(address: u8) -> (r: ChipAddress)
    requires
        address <= 7,
{
    ChipAddress::new(address).unwrap()
}

/// Relies on `Mcp23s17::new`: opens the SPI device for the chip at the address. No
/// register is accessed.
#[verifier::external_body]
pub(crate) fn open_chip(
    address: ChipAddress,
    spi_bus: rppal::spi::Bus,
    chip_select: rppal_mcp23s17::ChipSelect,
    spi_clock: u32,
    spi_mode: rppal::spi::Mode,
) -> (r: Result<Chip, Mcp23s17Error>)
    ensures
        r matches Ok(c) ==> c.log() == Seq::<BusOp>::empty(),
{
    let dev = Mcp23s17::new(address, spi_bus, chip_select, spi_clock, spi_mode)?;
    Ok(Chip { dev, log: Ghost(Seq::empty()) })
}

/// Relies on `Mcp23s17::read`: one SPI transfer that reads the register at address
/// `index`, which is `reg`; the driver's `RegisterAddress::try_from` names every
/// address below 22.
#[verifier::external_body]
pub(crate) fn chip_read(chip: &mut Chip, reg: RegisterAddress, index: u8) -> (r: Result<
    u8,
    Mcp23s17Error,
>)
    requires
        index == reg.spec_index(),
    ensures
        final(chip).driver() == old(chip).driver(),
        r matches Ok(v) ==> final(chip).log() == old(chip).log().push(BusOp::Read(reg, v)),
        r is Err ==> final(chip).log() == old(chip).log().push(BusOp::Failed(reg)),
{
    chip.dev.read(ChipRegister::try_from(index as usize).unwrap())
}

/// Relies on `Mcp23s17::write`: one SPI transfer that writes `data` to the register
/// at address `index`, which is `reg`.
#[verifier::external_body]
pub(crate) fn chip_write(chip: &mut Chip, reg: RegisterAddress, index: u8, data: u8) -> (r:
    Result<(), Mcp23s17Error>)
    requires
        index == reg.spec_index(),
    ensures
        final(chip).driver() == old(chip).driver(),
        r is Ok ==> final(chip).log() == old(chip).log().push(BusOp::Write(reg, data)),
        r is Err ==> final(chip).log() == old(chip).log().push(BusOp::Failed(reg)),
{
    chip.dev.write(ChipRegister::try_from(index as usize).unwrap(), data)
}

/// Relies on `Mcp23s17::set_bit`: reads the register at address `index`, which is
/// `reg`, and writes it back with the bit set. Beyond SPI failures it fails only on
/// a bit beyond 7, which `requires` leaves out.
#[verifier::external_body]
pub(crate) fn chip_set_bit(chip: &mut Chip, reg: RegisterAddress, index: u8, bit: u8) -> (r:
    Result<(), Mcp23s17Error>)
    requires
        index == reg.spec_index(),
        bit < 8,
    ensures
        final(chip).driver() == old(chip).driver(),
        r is Ok ==> final(chip).log() == old(chip).log().push(BusOp::SetBit(reg, bit)),
        r is Err ==> final(chip).log() == old(chip).log().push(BusOp::Failed(reg)),
{
    chip.dev.set_bit(ChipRegister::try_from(index as usize).unwrap(), bit)
}

/// Relies on `Mcp23s17::clear_bit`: reads the register at address `index`, which is
/// `reg`, and writes it back with the bit cleared. Beyond SPI failures it fails only
/// on a bit beyond 7, which `requires` leaves out.
#[verifier::external_body]
pub(crate) fn chip_clear_bit(chip: &mut Chip, reg: RegisterAddress, index: u8, bit: u8) -> (r:
    Result<(), Mcp23s17Error>)
    requires
        index == reg.spec_index(),
        bit < 8,
    ensures
        final(chip).driver() == old(chip).driver(),
        r is Ok ==> final(chip).log() == old(chip).log().push(BusOp::ClearBit(reg, bit)),
        r is Err ==> final(chip).log() == old(chip).log().push(BusOp::Failed(reg)),
{
    chip.dev.clear_bit(ChipRegister::try_from(index as usize).unwrap(), bit)
}

} // verus!
