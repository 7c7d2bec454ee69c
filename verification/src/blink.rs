//! Status-LED behaviour of the blinking and push-button experiments.
use vstd::prelude::*;

verus! {

/// Time between two toggles of the blinking LED, in milliseconds.
pub const BLINK_INTERVAL_MS: u32 = 500;

/// The blinking LED: lit when started, then toggled once per interval.
pub struct Blinker {
    pub led_on: bool,
    /// Number of intervals that have passed since start-up.
    pub ticks: Ghost<nat>,
}

/// The LED level after `ticks` intervals, starting lit.
pub open spec fn level_after(ticks: nat) -> bool
    decreases ticks,
{
    if ticks == 0 {
        true
    } else {
        !level_after((ticks - 1) as nat)
    }
}

impl Blinker {
    /// The LED level is the one reached after the intervals counted so far.
    pub open spec fn wf(&self) -> bool {
        self.led_on == level_after(self.ticks@)
    }

    /// The blinker at start-up: the LED is driven high before the first interval.
    pub fn new() -> (blinker: Blinker)
        ensures
            blinker.led_on,
            blinker.ticks@ == 0,
            blinker.wf(),
    {
        Blinker { led_on: true, ticks: Ghost(0) }
    }

    /// One interval has passed: the LED toggles. Returns the new level to drive,
    /// which is lit exactly after an even number of intervals.
    pub fn tick(&mut self) -> (led_on: bool)
        requires
            old(self).wf(),
        ensures
            led_on == !old(self).led_on,
            final(self).led_on == led_on,
            final(self).ticks@ == old(self).ticks@ + 1,
            final(self).wf(),
            led_on == (final(self).ticks@ % 2 == 0),
    {
        self.led_on = !self.led_on;
        self.ticks = Ghost(self.ticks@ + 1);
        proof {
            lemma_blink_parity(self.ticks@);
        }
        self.led_on
    }
}

/// Starting lit and toggling once per interval, the LED is lit exactly after an
/// even number of intervals, so it blinks with a period of two intervals.
pub proof fn lemma_blink_parity(ticks: nat)
    ensures
        level_after(ticks) == (ticks % 2 == 0),
        level_after(ticks + 2) == level_after(ticks),
    decreases ticks,
{
    if ticks > 0 {
        lemma_blink_parity((ticks - 1) as nat);
    }
    assert(level_after(ticks + 2) == !level_after(ticks + 1));
    assert(level_after(ticks + 1) == !level_after(ticks));
}

/// Level of the button LED before the button is first read: off.
pub const BUTTON_LED_AT_START: bool = false;

/// The button LED mirrors the button: lit while the button input reads high.
pub fn led_for_button(button_high: bool) -> (led_high: bool)
    ensures
        led_high == button_high,
{
    button_high
}

} // verus!
