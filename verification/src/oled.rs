//! The OLED display experiment: the reset pulse the display controller needs
//! before it is initialised.
use vstd::prelude::*;

verus! {

/// One level of the display's reset line and how long it is held, in milliseconds.
#[derive(PartialEq, Eq, Structural, Debug, Clone, Copy)]
pub struct LineHold {
    pub high: bool,
    pub hold_ms: u32,
}

/// The reset pulse: high for a millisecond, low for ten, then high for good.
pub open spec fn reset_pulse() -> Seq<LineHold> {
    seq![
        LineHold { high: true, hold_ms: 1 },
        LineHold { high: false, hold_ms: 10 },
        LineHold { high: true, hold_ms: 0 },
    ]
}

/// The levels to drive on the display's reset line, in order, each followed by its hold time.
pub fn display_reset_sequence() -> (steps: Vec<LineHold>)
    ensures
        steps@ == reset_pulse(),
{
    let mut steps: Vec<LineHold> = Vec::new();
    steps.push(LineHold { high: true, hold_ms: 1 });
    steps.push(LineHold { high: false, hold_ms: 10 });
    steps.push(LineHold { high: true, hold_ms: 0 });
    assert(steps@ =~= reset_pulse());
    steps
}

/// The reset line is pulsed low exactly once, between two high levels, and is left
/// high (released) when the sequence ends.
pub proof fn lemma_reset_pulse_shape()
    ensures
        reset_pulse().len() == 3,
        reset_pulse().first().high,
        reset_pulse().last().high,
        forall|i: int| 0 <= i < reset_pulse().len() && !(#[trigger] reset_pulse()[i]).high
            ==> i == 1 && reset_pulse()[i].hold_ms > 0,
{
}

} // verus!
