//! Properties that hold across several operations of the board.
use crate::chip::{written_bit, BusOp, RegisterAddress};
use crate::device::{
    clear_ops, input_claim, interrupt_mode_ops, release_ops, snapshot_ops, InputPin, PiFaceDigital,
};
use crate::error::PiFaceDigitalError;
use crate::interrupts::InterruptMode;
use vstd::prelude::*;

verus! {

/// An input pin is held by at most one handle. Once a claim of pin `n` has succeeded
/// (`first`), a second claim of it is refused with `PinNotAvailable` and changes
/// nothing (`second`). After the handle is released, which frees the slot, a new
/// claim of the pin is no longer refused, and when it succeeds the pin is held again
/// (`third`).
pub proof fn lemma_input_claim_exclusive(
    b0: &PiFaceDigital,
    b1: &PiFaceDigital,
    b2: &PiFaceDigital,
    b3: &PiFaceDigital,
    b4: &PiFaceDigital,
    n: u8,
    pull_ups: (bool, bool, bool),
    first: Result<InputPin, PiFaceDigitalError>,
    second: Result<InputPin, PiFaceDigitalError>,
    third: Result<InputPin, PiFaceDigitalError>,
)
    requires
        b0.wf(),
        input_claim(b0, b1, n, pull_ups.0, first),
        first is Ok,
        input_claim(b1, b2, n, pull_ups.1, second),
        b3.same_board(b1),
        b3.inputs() == b1.inputs().update(n as int, false),
        input_claim(b3, b4, n, pull_ups.2, third),
    ensures
        second == Err::<InputPin, PiFaceDigitalError>(PiFaceDigitalError::PinNotAvailable(n)),
        b2.inputs() == b1.inputs(),
        b2.log() == b1.log(),
        third != Err::<InputPin, PiFaceDigitalError>(PiFaceDigitalError::PinNotAvailable(n)),
        third is Ok ==> b4.inputs()[n as int],
{
    assert(n < 8);
    assert(b1.inputs()[n as int]);
    assert(!b3.inputs()[n as int]);
}

/// Disabling a pin's interrupts twice in a row leaves the chip as disabling them
/// once: every register bit that the library's accesses decide holds the same value.
pub proof fn lemma_clear_interrupt_idempotent(log: Seq<BusOp>, n: u8)
    ensures
        forall|reg: RegisterAddress, bit: u8|
            #[trigger] written_bit(log + clear_ops(n) + clear_ops(n), reg, bit) == written_bit(
                log + clear_ops(n),
                reg,
                bit,
            ),
{
    assert forall|reg: RegisterAddress, bit: u8|
        #[trigger] written_bit(log + clear_ops(n) + clear_ops(n), reg, bit) == written_bit(
            log + clear_ops(n),
            reg,
            bit,
        ) by {
        let once = log + clear_ops(n);
        let twice = once + clear_ops(n);
        assert(twice.drop_last() =~= once);
        assert(once.drop_last() =~= log);
        assert(twice.last() == BusOp::ClearBit(RegisterAddress::GPINTENB, n));
        assert(once.last() == BusOp::ClearBit(RegisterAddress::GPINTENB, n));
    }
}

/// Enabling interrupts on both edges and then releasing the handle leaves the pin's
/// bit of the interrupt-enable register cleared.
pub proof fn lemma_release_disables_interrupt(log: Seq<BusOp>, n: u8)
    ensures
        written_bit(
            log + interrupt_mode_ops(InterruptMode::BothEdges, n) + release_ops(true, n),
            RegisterAddress::GPINTENB,
            n,
        ) == Option::Some(false),
{
    let all = log + interrupt_mode_ops(InterruptMode::BothEdges, n) + release_ops(true, n);
    assert(all.last() == BusOp::ClearBit(RegisterAddress::GPINTENB, n));
}

/// Taking an interrupt snapshot changes no register bit that the library has
/// decided: in particular, polling leaves a pin's interrupts enabled.
pub proof fn lemma_poll_keeps_configuration(log: Seq<BusOp>, flags: u8, capture: u8)
    ensures
        forall|reg: RegisterAddress, bit: u8|
            #[trigger] written_bit(log + snapshot_ops(flags, capture), reg, bit) == written_bit(
                log,
                reg,
                bit,
            ),
{
    assert forall|reg: RegisterAddress, bit: u8|
        #[trigger] written_bit(log + snapshot_ops(flags, capture), reg, bit) == written_bit(
            log,
            reg,
            bit,
        ) by {
        let all = log + snapshot_ops(flags, capture);
        let mid = log.push(BusOp::Read(RegisterAddress::INTFB, flags));
        assert(all.drop_last() =~= mid);
        assert(mid.drop_last() =~= log);
        assert(written_bit(all, reg, bit) == written_bit(mid, reg, bit));
        assert(written_bit(mid, reg, bit) == written_bit(log, reg, bit));
    }
}

} // verus!
