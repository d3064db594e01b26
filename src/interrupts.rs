//! What one edge of the shared interrupt line means for the pins that watch it.
//!
//! The chip raises one line for all eight inputs. After an edge, the interrupt-flag
//! register says which inputs saw their configured edge and the interrupt-capture
//! register holds the level of every input at that moment. Reading the two registers
//! clears the chip's latch for all pins at once.
use crate::chip::bit_of;
use vstd::prelude::*;

verus! {

/// The logic level of a pin.
#[derive(Clone, Copy, Debug, PartialEq, Eq, Structural)]
pub enum Level {
    Low,
    High,
}

/// The edges on which an input pin raises an interrupt.
#[derive(Clone, Copy, Debug, PartialEq, Eq, Structural)]
pub enum InterruptMode {
    /// No interrupts.
    Off,
    /// On a change to high.
    ActiveHigh,
    /// On a change to low.
    ActiveLow,
    /// On every change.
    BothEdges,
}

/// What a single-pin wait makes of one wake-up of the interrupt line.
#[derive(Clone, Copy, Debug, PartialEq, Eq, Structural)]
pub enum PinPoll {
    /// The wait ran out before an edge.
    TimedOut,
    /// The pin raised the interrupt; the level it had when the chip latched it.
    Interrupt(Level),
    /// Another input raised the interrupt: its event is lost and the wait goes on.
    Elsewhere,
}

/// The level of pin `n` in a port byte.
pub open spec fn level_of(b: u8, n: u8) -> Level {
    if bit_of(b, n) {
        Level::High
    } else {
        Level::Low
    }
}

/// The pins among `pins`, in their order, whose flag is set, each with its captured
/// level.
pub open spec fn reported(flags: u8, capture: u8, pins: Seq<u8>) -> Seq<(u8, Level)>
    decreases pins.len(),
{
    if pins.len() == 0 {
        Seq::empty()
    } else {
        let earlier = reported(flags, capture, pins.drop_last());
        let n = pins.last();
        if bit_of(flags, n) {
            earlier.push((n, level_of(capture, n)))
        } else {
            earlier
        }
    }
}

/// What a single-pin wait on pin `n` makes of a snapshot of the flags and capture.
pub open spec fn pin_outcome(flags: u8, capture: u8, n: u8) -> PinPoll {
    if bit_of(flags, n) {
        PinPoll::Interrupt(level_of(capture, n))
    } else {
        PinPoll::Elsewhere
    }
}

/// Whether bit `n` of `b` is set.
pub fn bit_is_set(b: u8, n: u8) -> (r: bool)
    requires
        n < 8,
    ensures
        r == bit_of(b, n),
{
    b & (1u8 << n) != 0
}

/// The level of pin `n` in a port byte.
pub fn level_in(b: u8, n: u8) -> (r: Level)
    requires
        n < 8,
    ensures
        r == level_of(b, n),
{
    if bit_is_set(b, n) {
        Level::High
    } else {
        Level::Low
    }
}

/// The pins among `pins` that an edge with these flag and capture bytes reports, in
/// the order of `pins`, each with its captured level. A pin listed twice is reported
/// twice.
pub fn interrupting_pins(flags: u8, capture: u8, pins: &[u8]) -> (r: Vec<(u8, Level)>)
    requires
        forall|i: int| 0 <= i < pins@.len() ==> pins@[i] < 8,
    ensures
        r@ == reported(flags, capture, pins@),
{
    let mut found: Vec<(u8, Level)> = Vec::new();
    let mut i: usize = 0;
    while i < pins.len()
        invariant
            i <= pins@.len(),
            forall|j: int| 0 <= j < pins@.len() ==> pins@[j] < 8,
            found@ == reported(flags, capture, pins@.subrange(0, i as int)),
        decreases pins@.len() - i,
    {
        let n = pins[i];
        assert(pins@.subrange(0, i as int + 1).drop_last() == pins@.subrange(0, i as int));
        if bit_is_set(flags, n) {
            found.push((n, level_in(capture, n)));
        }
        i = i + 1;
    }
    assert(pins@.subrange(0, pins@.len() as int) == pins@);
    found
}

/// What a wait on pin `n` makes of one snapshot of the flag and capture bytes: the
/// captured level where the pin's flag is set, else the edge belonged to another pin.
pub fn pin_interrupt(flags: u8, capture: u8, n: u8) -> (r: PinPoll)
    requires
        n < 8,
    ensures
        r == pin_outcome(flags, capture, n),
{
    if bit_is_set(flags, n) {
        PinPoll::Interrupt(level_in(capture, n))
    } else {
        PinPoll::Elsewhere
    }
}

} // verus!
