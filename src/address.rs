use crate::error::PiFaceDigitalError;
use vstd::prelude::*;

verus! {

/// The hardware address of the board: the two address bits `A0` and `A1`, set with
/// the jumpers `JP1` and `JP2`.
#[derive(Clone, Copy, Debug, PartialEq, Eq, PartialOrd, Ord, Structural)]
pub struct HardwareAddress(u8);

impl HardwareAddress {
    #[verifier::type_invariant]
    spec fn in_range(self) -> bool {
        self.0 <= MAX_HARDWARE_ADDRESS
    }
}

/// The largest address that two address bits can express.
pub const MAX_HARDWARE_ADDRESS: u8 = 3;

impl View for HardwareAddress {
    type V = u8;

    closed spec fn view(&self) -> u8 {
        self.0
    }
}

impl HardwareAddress {
    /// The largest address that two address bits can express.
    pub const MAX_HARDWARE_ADDRESS: u8 = MAX_HARDWARE_ADDRESS;

    /// Creates an address, refusing values that do not fit in two bits.
    pub fn new(address: u8) -> (r: Result<Self, PiFaceDigitalError>)
        ensures
            address <= MAX_HARDWARE_ADDRESS ==> (r matches Ok(a) && a@ == address),
            address > MAX_HARDWARE_ADDRESS ==> r == Err::<Self, PiFaceDigitalError>(
                PiFaceDigitalError::HardwareAddressBoundsError(address),
            ),
    {
        if address <= Self::MAX_HARDWARE_ADDRESS {
            Ok(HardwareAddress(address))
        } else {
            Err(PiFaceDigitalError::HardwareAddressBoundsError(address))
        }
    }

    /// The address as a number in the range 0 to 3.
    pub fn value(&self) -> (r: u8)
        ensures
            r == self@,
            r <= MAX_HARDWARE_ADDRESS,
    {
        proof {
            use_type_invariant(self);
        }
        self.0
    }
}

impl TryFrom<u8> for HardwareAddress {
    type Error = PiFaceDigitalError;

    fn try_from(value: u8) -> (r: Result<Self, PiFaceDigitalError>)
        ensures
            value <= MAX_HARDWARE_ADDRESS ==> (r matches Ok(a) && a@ == value),
            value > MAX_HARDWARE_ADDRESS ==> r == Err::<Self, PiFaceDigitalError>(
                PiFaceDigitalError::HardwareAddressBoundsError(value),
            ),
    {
        HardwareAddress::new(value)
    }
}

impl vstd::std_specs::convert::TryFromSpecImpl<u8> for HardwareAddress {
    open spec fn obeys_try_from_spec() -> bool {
        true
    }

    closed spec fn try_from_spec(value: u8) -> Result<Self, PiFaceDigitalError> {
        if value <= MAX_HARDWARE_ADDRESS {
            Ok(HardwareAddress(value))
        } else {
            Err(PiFaceDigitalError::HardwareAddressBoundsError(value))
        }
    }
}

impl From<HardwareAddress> for u8 {
    fn from(addr: HardwareAddress) -> (r: u8) {
        addr.0
    }
}

impl vstd::std_specs::convert::FromSpecImpl<HardwareAddress> for u8 {
    open spec fn obeys_from_spec() -> bool {
        true
    }

    open spec fn from_spec(addr: HardwareAddress) -> u8 {
        addr@
    }
}

} // verus!
