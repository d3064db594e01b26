use rppal_mcp23s17::RegisterAddress as Reg;
use rppal_pfd::{
    ChipSelect, HardwareAddress, InterruptMode, Level, PiFaceDigital, PiFaceDigitalError, PinPoll,
    SpiBus, SpiMode,
};

fn board(bus: SpiBus) -> PiFaceDigital {
    PiFaceDigital::new(
        HardwareAddress::new(0).unwrap(),
        bus,
        ChipSelect::Cs0,
        100_000,
        SpiMode::Mode0,
    )
    .expect("Failed to create PFD")
}

fn ready_board() -> PiFaceDigital {
    let mut pfd = board(SpiBus::Spi0);
    pfd.init().expect("Failed to initialise PFD");
    pfd
}

#[test]
fn pfd_input_pin_poll_interrupt() {
    let mut pfd = ready_board();

    let mut pin = pfd.get_input_pin(0).expect("Failed to get pin");
    pin.set_interrupt(&mut pfd, InterruptMode::BothEdges)
        .expect("Failed to enable interrupts");

    assert_eq!(
        pin.poll_interrupt(&mut pfd, false).expect("Bad poll"),
        PinPoll::TimedOut
    );
}

#[test]
fn pfd_input_pins_poll_interrupts() {
    let mut pfd = ready_board();

    let mut pin1 = pfd.get_input_pin(0).expect("Failed to get pin");
    pin1.set_interrupt(&mut pfd, InterruptMode::BothEdges)
        .expect("Failed to enable interrupts");
    let mut pin2 = pfd.get_input_pin(1).expect("Failed to get pin");
    pin2.set_interrupt(&mut pfd, InterruptMode::BothEdges)
        .expect("Failed to enable interrupts");

    let interrupt_pins = [&pin1, &pin2];
    if let Some(interrupting_pins) = pfd
        .poll_interrupts(&interrupt_pins, false)
        .expect("Bad poll")
    {
        panic!("Not expecting any interrupts! Got: {interrupting_pins:?}")
    }
}

#[test]
fn pfd_input_pin_enable_interrupts() {
    let mut pfd = ready_board();
    assert_eq!(
        pfd.mcp23s17().get_mock_data(Reg::GPINTENB),
        (0b0000_0000, 0, 1)
    );

    {
        let mut pin = pfd.get_input_pin(0).expect("Failed to get pin");
        pin.set_interrupt(&mut pfd, InterruptMode::BothEdges)
            .expect("Failed to enable interrupts");
        assert_eq!(
            pfd.mcp23s17().get_mock_data(Reg::GPINTENB),
            (0b0000_0001, 1, 2)
        );
        pin.release(&mut pfd).expect("Failed to release pin");
    }
    assert_eq!(
        pfd.mcp23s17().get_mock_data(Reg::GPINTENB),
        (0b0000_0000, 2, 3)
    );
}

#[test]
fn pfd_input_pin_read_levels() {
    let mut pfd = ready_board();

    let pin = pfd.get_input_pin(0).expect("Failed to get pin");
    assert!(pin.is_low(&mut pfd).expect("Bad pin access"));

    pfd.mcp23s17().set_mock_data(Reg::GPIOB, 0b0000_0001);
    assert!(pin.is_high(&mut pfd).expect("Bad pin access"));
}

#[test]
fn pfd_init() {
    let pfd = ready_board();

    // Sample a few of the registers for correct values.
    assert_eq!(
        pfd.mcp23s17().get_mock_data(Reg::IODIRA),
        (0x00, 0, 1),
        "Bad IODIRA"
    );
    assert_eq!(
        pfd.mcp23s17().get_mock_data(Reg::IODIRB),
        (0xFF, 0, 1),
        "Bad IODIRB"
    );
    assert_eq!(
        pfd.mcp23s17().get_mock_data(Reg::IOCON),
        (0x28, 1, 1),
        "Bad IOCON"
    );
    assert_eq!(
        pfd.mcp23s17().get_mock_data(Reg::GPPUB),
        (0xFF, 0, 1),
        "Bad GPPUB"
    );
}

#[test]
fn pfd_init_no_hardware() {
    // The simulated bus 6 has no chip on it: every read gives zero.
    let mut pfd = board(SpiBus::Spi6);
    let init_result = pfd.init();

    // Check we get the expected error.
    println!("{init_result:?}");
    match init_result {
        Err(PiFaceDigitalError::NoHardwareDetected {
            spi_bus: bus,
            hardware_address: address,
        }) => {
            assert_eq!(bus, SpiBus::Spi6);
            assert_eq!(address, 0.try_into().unwrap())
        }
        _ => panic!("Unexpected return result: {init_result:?}"),
    }
}

#[test]
fn no_hardware_stops_before_the_register_table() {
    let mut pfd = board(SpiBus::Spi6);
    assert!(pfd.init().is_err());
    assert_eq!(pfd.mcp23s17().get_mock_data(Reg::IODIRA).2, 0);
}

#[test]
fn no_hardware_reports_the_probed_address() {
    let mut pfd = PiFaceDigital::new(
        HardwareAddress::new(3).unwrap(),
        SpiBus::Spi6,
        ChipSelect::Cs0,
        100_000,
        SpiMode::Mode0,
    )
    .expect("Failed to create PFD");
    match pfd.init() {
        Err(PiFaceDigitalError::NoHardwareDetected {
            spi_bus,
            hardware_address,
        }) => {
            assert_eq!(spi_bus, SpiBus::Spi6);
            assert_eq!(hardware_address.value(), 3);
        }
        other => panic!("Unexpected return result: {other:?}"),
    }
}

#[test]
fn input_pin_cannot_be_claimed_twice_until_released() {
    let mut pfd = ready_board();
    for n in 0u8..8 {
        let pin = pfd.get_input_pin(n).expect("Failed to get pin");
        match pfd.get_pull_up_input_pin(n) {
            Err(PiFaceDigitalError::PinNotAvailable(m)) => assert_eq!(m, n),
            Err(e) => panic!("Unexpected error: {e:?}"),
            Ok(p) => panic!("Pin {} claimed twice", p.get_pin_number()),
        }
        pin.release(&mut pfd).expect("Failed to release pin");
        let again = pfd.get_input_pin(n).expect("Released pin not claimable");
        assert_eq!(again.get_pin_number(), n);
        again.release(&mut pfd).expect("Failed to release pin");
    }
}

#[test]
fn output_pin_cannot_be_claimed_twice_until_released() {
    let mut pfd = ready_board();
    let pin = pfd.get_output_pin(4).expect("Failed to get pin");
    assert!(matches!(
        pfd.get_output_pin_high(4),
        Err(PiFaceDigitalError::PinNotAvailable(4))
    ));
    // The input of the same number is a different slot.
    let input = pfd.get_input_pin(4).expect("Failed to get input pin");
    assert_eq!(input.get_pin_number(), 4);
    pin.release(&mut pfd);
    assert!(pfd.get_output_pin_low(4).is_ok());
}

#[test]
fn pin_beyond_seven_is_not_available() {
    let mut pfd = ready_board();
    assert!(matches!(
        pfd.get_input_pin(8),
        Err(PiFaceDigitalError::PinNotAvailable(8))
    ));
    assert!(matches!(
        pfd.get_output_pin(255),
        Err(PiFaceDigitalError::PinNotAvailable(255))
    ));
}

#[test]
fn new_input_pin_has_interrupts_disabled() {
    let mut pfd = ready_board();
    let pin = pfd.get_pull_up_input_pin(3).expect("Failed to get pin");
    assert!(!pin.interrupts_enabled());
    assert_eq!(pfd.mcp23s17().get_mock_data(Reg::GPPUB).0, 0xFF);
    assert_eq!(pfd.mcp23s17().get_mock_data(Reg::IODIRB).0, 0xFF);
}

#[test]
fn clear_interrupt_twice_leaves_same_state() {
    let mut pfd = ready_board();
    let mut pin = pfd.get_input_pin(2).expect("Failed to get pin");
    pin.set_interrupt(&mut pfd, InterruptMode::BothEdges)
        .expect("Failed to enable interrupts");
    pin.clear_interrupt(&mut pfd).expect("Failed to clear");
    let once = pfd.mcp23s17().get_mock_data(Reg::GPINTENB).0;
    pin.clear_interrupt(&mut pfd).expect("Failed to clear");
    let twice = pfd.mcp23s17().get_mock_data(Reg::GPINTENB).0;
    assert_eq!(once, 0);
    assert_eq!(once, twice);
    assert!(!pin.interrupts_enabled());
}

#[test]
fn release_after_both_edges_clears_enable_bit() {
    let mut pfd = ready_board();
    let mut pin = pfd.get_input_pin(5).expect("Failed to get pin");
    pin.set_interrupt(&mut pfd, InterruptMode::BothEdges)
        .expect("Failed to enable interrupts");
    assert_eq!(pfd.mcp23s17().get_mock_data(Reg::GPINTENB).0, 0b0010_0000);
    pin.release(&mut pfd).expect("Failed to release pin");
    assert_eq!(pfd.mcp23s17().get_mock_data(Reg::GPINTENB).0, 0);
}

#[test]
fn interrupt_modes_set_control_and_default_bits() {
    let mut pfd = ready_board();
    let mut pin = pfd.get_input_pin(1).expect("Failed to get pin");
    pin.set_interrupt(&mut pfd, InterruptMode::ActiveLow)
        .expect("Failed to enable interrupts");
    assert!(pin.interrupts_enabled());
    assert_eq!(pfd.mcp23s17().get_mock_data(Reg::INTCONB).0, 0b10);
    assert_eq!(pfd.mcp23s17().get_mock_data(Reg::DEFVALB).0, 0b10);
    assert_eq!(pfd.mcp23s17().get_mock_data(Reg::GPINTENB).0, 0b10);
    pin.set_interrupt(&mut pfd, InterruptMode::ActiveHigh)
        .expect("Failed to enable interrupts");
    assert_eq!(pfd.mcp23s17().get_mock_data(Reg::DEFVALB).0, 0);
    pin.set_interrupt(&mut pfd, InterruptMode::Off)
        .expect("Failed to disable interrupts");
    assert!(!pin.interrupts_enabled());
    assert_eq!(pfd.mcp23s17().get_mock_data(Reg::GPINTENB).0, 0);
}

#[test]
fn edge_on_watched_pin_gives_captured_level() {
    let mut pfd = ready_board();
    let mut pin = pfd.get_input_pin(0).expect("Failed to get pin");
    pin.set_interrupt(&mut pfd, InterruptMode::BothEdges)
        .expect("Failed to enable interrupts");
    pfd.mcp23s17().set_mock_data(Reg::INTFB, 0b0000_0001);
    pfd.mcp23s17().set_mock_data(Reg::INTCAPB, 0b0000_0000);
    // A fresh read of the port would say high: the captured level wins.
    pfd.mcp23s17().set_mock_data(Reg::GPIOB, 0b0000_0001);

    assert_eq!(
        pin.poll_interrupt(&mut pfd, true).expect("Bad poll"),
        PinPoll::Interrupt(Level::Low)
    );
    assert_eq!(pfd.mcp23s17().get_mock_data(Reg::INTFB).1, 1);
    assert_eq!(pfd.mcp23s17().get_mock_data(Reg::INTCAPB).1, 1);
    assert_eq!(pfd.mcp23s17().get_mock_data(Reg::GPIOB).1, 0);
    // Polling does not disable the pin's interrupts.
    assert_eq!(pfd.mcp23s17().get_mock_data(Reg::GPINTENB).0, 0b0000_0001);
    assert!(pin.interrupts_enabled());
}

#[test]
fn edge_on_other_pin_keeps_waiting() {
    let mut pfd = ready_board();
    let mut pin = pfd.get_input_pin(1).expect("Failed to get pin");
    pin.set_interrupt(&mut pfd, InterruptMode::BothEdges)
        .expect("Failed to enable interrupts");
    pfd.mcp23s17().set_mock_data(Reg::INTFB, 0b0000_0001);
    pfd.mcp23s17().set_mock_data(Reg::INTCAPB, 0b0000_0000);

    assert_eq!(
        pin.poll_interrupt(&mut pfd, true).expect("Bad poll"),
        PinPoll::Elsewhere
    );
}

#[test]
fn edge_on_two_watched_pins_reports_both_in_order() {
    let mut pfd = ready_board();
    let mut pin0 = pfd.get_input_pin(0).expect("Failed to get pin");
    pin0.set_interrupt(&mut pfd, InterruptMode::BothEdges)
        .expect("Failed to enable interrupts");
    let mut pin1 = pfd.get_input_pin(1).expect("Failed to get pin");
    pin1.set_interrupt(&mut pfd, InterruptMode::BothEdges)
        .expect("Failed to enable interrupts");
    pfd.mcp23s17().set_mock_data(Reg::INTFB, 0b0000_0011);
    pfd.mcp23s17().set_mock_data(Reg::INTCAPB, 0b0000_0010);

    let found = pfd
        .poll_interrupts(&[&pin0, &pin1], true)
        .expect("Bad poll");
    assert_eq!(found, Some(vec![(0, Level::Low), (1, Level::High)]));
    assert_eq!(pfd.mcp23s17().get_mock_data(Reg::INTFB).1, 1);
    assert_eq!(pfd.mcp23s17().get_mock_data(Reg::INTCAPB).1, 1);
}

#[test]
fn edge_from_unwatched_pin_gives_empty_list() {
    let mut pfd = ready_board();
    let mut pin = pfd.get_input_pin(2).expect("Failed to get pin");
    pin.set_interrupt(&mut pfd, InterruptMode::BothEdges)
        .expect("Failed to enable interrupts");
    pfd.mcp23s17().set_mock_data(Reg::INTFB, 0b0000_1000);

    assert_eq!(
        pfd.poll_interrupts(&[&pin], true).expect("Bad poll"),
        Some(vec![])
    );
}

#[test]
fn timeout_touches_no_register() {
    let mut pfd = ready_board();
    let mut pin = pfd.get_input_pin(0).expect("Failed to get pin");
    pin.set_interrupt(&mut pfd, InterruptMode::BothEdges)
        .expect("Failed to enable interrupts");
    pfd.mcp23s17().set_mock_data(Reg::INTFB, 0b0000_0001);

    assert_eq!(pin.poll_interrupt(&mut pfd, false).expect("Bad poll"), PinPoll::TimedOut);
    assert_eq!(pfd.poll_interrupts(&[&pin], false).expect("Bad poll"), None);
    assert_eq!(pfd.mcp23s17().get_mock_data(Reg::INTFB).1, 0);
    assert_eq!(pfd.mcp23s17().get_mock_data(Reg::INTCAPB).1, 0);
}

#[test]
fn output_pins_drive_port_a() {
    let mut pfd = ready_board();
    let high = pfd.get_output_pin_high(0).expect("Failed to get pin");
    assert_eq!(pfd.mcp23s17().get_mock_data(Reg::GPIOA).0, 0b0000_0001);
    let low = pfd.get_output_pin_low(1).expect("Failed to get pin");
    assert_eq!(pfd.mcp23s17().get_mock_data(Reg::GPIOA).0, 0b0000_0001);
    low.set_high(&mut pfd).expect("Bad pin write");
    assert_eq!(pfd.mcp23s17().get_mock_data(Reg::GPIOA).0, 0b0000_0011);
    high.write(&mut pfd, Level::Low).expect("Bad pin write");
    assert_eq!(pfd.mcp23s17().get_mock_data(Reg::GPIOA).0, 0b0000_0010);
    assert_eq!(low.read(&mut pfd).expect("Bad pin read"), Level::High);
    low.set_low(&mut pfd).expect("Bad pin write");
    assert_eq!(low.read(&mut pfd).expect("Bad pin read"), Level::Low);
}

#[test]
fn register_dump_reads_every_register_in_order() {
    let mut pfd = ready_board();
    let values = pfd.debug_current_state().expect("Bad dump");
    assert_eq!(values.len(), 22);
    assert_eq!(values[0x00], 0x00);
    assert_eq!(values[0x01], 0xFF);
    assert_eq!(values[0x0A], 0x28);
    assert_eq!(values[0x0D], 0xFF);
    assert_eq!(pfd.mcp23s17().get_mock_data(Reg::OLATB).1, 1);
}
