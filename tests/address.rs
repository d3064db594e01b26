use rppal_pfd::{HardwareAddress, PiFaceDigitalError};

#[test]
fn good_hardware_address() {
    let addr = HardwareAddress::new(2).expect("Bad address");
    assert_eq!(2u8, addr.into(), "Unexpected address value");
}

#[test]
fn bad_hardware_address() {
    let addr = HardwareAddress::new(4);
    match addr {
        Err(PiFaceDigitalError::HardwareAddressBoundsError(4)) => (),
        _ => panic!("Unexpected return value: {addr:?}"),
    }
}

#[test]
fn try_into_good_hardware_address() {
    let addr: HardwareAddress = 3u8.try_into().expect("Bad address");
    assert_eq!(3u8, addr.into(), "Unexpected address value");
}

#[test]
fn try_into_bad_hardware_address() {
    let addr: Result<HardwareAddress, PiFaceDigitalError> = 8u8.try_into();
    match addr {
        Err(PiFaceDigitalError::HardwareAddressBoundsError(8)) => (),
        _ => panic!("Unexpected return value: {addr:?}"),
    }
}

#[test]
fn every_two_bit_address_is_accepted() {
    for a in 0u8..=3 {
        let addr = HardwareAddress::new(a).expect("two-bit address refused");
        assert_eq!(addr.value(), a);
    }
}

#[test]
fn largest_byte_is_refused() {
    match HardwareAddress::new(255) {
        Err(PiFaceDigitalError::HardwareAddressBoundsError(255)) => (),
        other => panic!("Unexpected return value: {other:?}"),
    }
}
