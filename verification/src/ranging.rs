//! Ultrasonic ranging: the trigger pulse, how an echo is judged, and when the
//! proximity LED is lit.
use vstd::prelude::*;

verus! {

/// Time the trigger is held low before a pulse, in microseconds.
pub const SETTLE_US: u64 = 2;

/// Length of the trigger pulse, in microseconds.
pub const PULSE_US: u64 = 10;

/// Echoes this long or longer carry no distance: the sensor's out-of-range answer.
pub const ECHO_LIMIT_US: u64 = 38000;

/// Round-trip echo time per centimetre of distance, in microseconds.
pub const US_PER_CM: u64 = 58;

/// Objects at this distance or closer light the LED, in centimetres.
pub const NEAR_CM: u64 = 5;

/// Pause after a reported measurement, in microseconds.
pub const COOLDOWN_US: u64 = 10000;

/// What an echo of a given length means.
#[derive(PartialEq, Eq, Structural, Debug, Clone, Copy)]
pub enum EchoVerdict {
    /// The echo is too long to be a distance; the cycle starts over at once.
    OutOfRange,
    /// A distance in whole centimetres, and whether the LED is lit for it.
    Measured { distance_cm: u64, led_on: bool },
}

/// The verdict for an echo of `duration_us` microseconds.
pub open spec fn echo_verdict(duration_us: u64) -> EchoVerdict {
    if duration_us >= ECHO_LIMIT_US {
        EchoVerdict::OutOfRange
    } else {
        EchoVerdict::Measured {
            distance_cm: duration_us / US_PER_CM,
            led_on: duration_us / US_PER_CM <= NEAR_CM,
        }
    }
}

/// Judges an echo of `duration_us` microseconds.
pub fn judge_echo(duration_us: u64) -> (verdict: EchoVerdict)
    ensures
        verdict == echo_verdict(duration_us),
{
    if duration_us >= ECHO_LIMIT_US {
        EchoVerdict::OutOfRange
    } else {
        let distance_cm = duration_us / US_PER_CM;
        EchoVerdict::Measured { distance_cm, led_on: distance_cm <= NEAR_CM }
    }
}

/// The LED is lit exactly for echoes shorter than six centimetres of round trip,
/// and every reported distance is below the sensor's range limit.
pub proof fn lemma_led_threshold(duration_us: u64)
    ensures
        echo_verdict(duration_us) matches EchoVerdict::Measured { led_on, .. }
            ==> (led_on <==> duration_us < (NEAR_CM + 1) * US_PER_CM),
        echo_verdict(duration_us) matches EchoVerdict::Measured { distance_cm, .. }
            ==> distance_cm * US_PER_CM <= duration_us < (distance_cm + 1) * US_PER_CM
                && distance_cm < ECHO_LIMIT_US / US_PER_CM + 1,
{
}

/// A longer echo never yields a shorter distance.
pub proof fn lemma_distance_monotone(shorter_us: u64, longer_us: u64)
    requires
        shorter_us <= longer_us,
        longer_us < ECHO_LIMIT_US,
    ensures
        echo_verdict(shorter_us) matches EchoVerdict::Measured { distance_cm: near, .. }
            && echo_verdict(longer_us) matches EchoVerdict::Measured { distance_cm: far, .. }
            && near <= far,
{
    assert(shorter_us / US_PER_CM <= longer_us / US_PER_CM) by (nonlinear_arith)
        requires shorter_us <= longer_us;
}

/// Where a measurement cycle stands.
#[derive(PartialEq, Eq, Structural, Debug, Clone, Copy)]
pub enum RangingPhase {
    /// Trigger low, settling before the pulse.
    Settle,
    /// Trigger high: the pulse.
    Pulse,
    /// Trigger back low, the pulse is over.
    EndPulse,
    /// Waiting for the echo line to rise.
    AwaitRise,
    /// Echo line high, waiting for it to fall; the echo is being timed.
    AwaitFall,
    /// A distance was measured; it is reported and the LED shows it during the cooldown.
    Report { distance_cm: u64, led_on: bool },
}

/// What the firmware does in a phase.
#[derive(PartialEq, Eq, Structural, Debug, Clone, Copy)]
pub enum RangingAction {
    /// Drive the trigger line, then wait.
    DriveTrigger { high: bool, hold_us: u64 },
    /// Wait until the echo line reaches a level.
    AwaitEcho { high: bool },
    /// Report the measured distance, drive the LED, then wait.
    ShowLed { distance_cm: u64, on: bool, hold_us: u64 },
}

/// What the firmware reports when a phase is done.
#[derive(PartialEq, Eq, Structural, Debug, Clone, Copy)]
pub enum RangingEvent {
    /// The action of the phase is complete.
    Done,
    /// The echo line fell; the echo lasted `duration_us` microseconds.
    EchoEnded { duration_us: u64 },
}

/// The action of each phase.
pub open spec fn phase_action(phase: RangingPhase) -> RangingAction {
    match phase {
        RangingPhase::Settle => RangingAction::DriveTrigger { high: false, hold_us: SETTLE_US },
        RangingPhase::Pulse => RangingAction::DriveTrigger { high: true, hold_us: PULSE_US },
        RangingPhase::EndPulse => RangingAction::DriveTrigger { high: false, hold_us: 0 },
        RangingPhase::AwaitRise => RangingAction::AwaitEcho { high: true },
        RangingPhase::AwaitFall => RangingAction::AwaitEcho { high: false },
        RangingPhase::Report { distance_cm, led_on } => RangingAction::ShowLed {
            distance_cm,
            on: led_on,
            hold_us: COOLDOWN_US,
        },
    }
}

/// The phase that follows `phase` on `event`. An event that does not belong to the
/// phase leaves the phase unchanged.
pub open spec fn next_phase(phase: RangingPhase, event: RangingEvent) -> RangingPhase {
    match (phase, event) {
        (RangingPhase::Settle, RangingEvent::Done) => RangingPhase::Pulse,
        (RangingPhase::Pulse, RangingEvent::Done) => RangingPhase::EndPulse,
        (RangingPhase::EndPulse, RangingEvent::Done) => RangingPhase::AwaitRise,
        (RangingPhase::AwaitRise, RangingEvent::Done) => RangingPhase::AwaitFall,
        (RangingPhase::AwaitFall, RangingEvent::EchoEnded { duration_us }) =>
            match echo_verdict(duration_us) {
                EchoVerdict::OutOfRange => RangingPhase::Settle,
                EchoVerdict::Measured { distance_cm, led_on } => RangingPhase::Report {
                    distance_cm,
                    led_on,
                },
            },
        (RangingPhase::Report { .. }, RangingEvent::Done) => RangingPhase::Settle,
        (p, _) => p,
    }
}

/// The first phase of the first cycle.
pub fn ranging_start() -> (phase: RangingPhase)
    ensures
        phase == RangingPhase::Settle,
{
    RangingPhase::Settle
}

/// What to do in `phase`.
pub fn ranging_action(phase: &RangingPhase) -> (action: RangingAction)
    ensures
        action == phase_action(*phase),
{
    match phase {
        RangingPhase::Settle => RangingAction::DriveTrigger { high: false, hold_us: SETTLE_US },
        RangingPhase::Pulse => RangingAction::DriveTrigger { high: true, hold_us: PULSE_US },
        RangingPhase::EndPulse => RangingAction::DriveTrigger { high: false, hold_us: 0 },
        RangingPhase::AwaitRise => RangingAction::AwaitEcho { high: true },
        RangingPhase::AwaitFall => RangingAction::AwaitEcho { high: false },
        RangingPhase::Report { distance_cm, led_on } => RangingAction::ShowLed {
            distance_cm: *distance_cm,
            on: *led_on,
            hold_us: COOLDOWN_US,
        },
    }
}

/// The phase after `phase` once `event` happened.
pub fn ranging_next(phase: RangingPhase, event: RangingEvent) -> (next: RangingPhase)
    ensures
        next == next_phase(phase, event),
{
    match (phase, event) {
        (RangingPhase::Settle, RangingEvent::Done) => RangingPhase::Pulse,
        (RangingPhase::Pulse, RangingEvent::Done) => RangingPhase::EndPulse,
        (RangingPhase::EndPulse, RangingEvent::Done) => RangingPhase::AwaitRise,
        (RangingPhase::AwaitRise, RangingEvent::Done) => RangingPhase::AwaitFall,
        (RangingPhase::AwaitFall, RangingEvent::EchoEnded { duration_us }) =>
            match judge_echo(duration_us) {
                EchoVerdict::OutOfRange => RangingPhase::Settle,
                EchoVerdict::Measured { distance_cm, led_on } => RangingPhase::Report {
                    distance_cm,
                    led_on,
                },
            },
        (RangingPhase::Report { .. }, RangingEvent::Done) => RangingPhase::Settle,
        (p, _) => p,
    }
}

/// Every echo is preceded by a full trigger pulse: the echo is awaited only after
/// the trigger was dropped, the trigger is dropped only after the pulse, and the
/// pulse only follows the settling time at the start of a cycle. Each of these
/// phases is entered from its predecessor alone (or by staying put).
pub proof fn lemma_pulse_precedes_echo(phase: RangingPhase, event: RangingEvent)
    ensures
        next_phase(phase, event) == RangingPhase::Pulse ==> phase == RangingPhase::Settle
            || phase == RangingPhase::Pulse,
        next_phase(phase, event) == RangingPhase::EndPulse ==> phase == RangingPhase::Pulse
            || phase == RangingPhase::EndPulse,
        next_phase(phase, event) == RangingPhase::AwaitRise ==> phase == RangingPhase::EndPulse
            || phase == RangingPhase::AwaitRise,
        next_phase(phase, event) == RangingPhase::AwaitFall ==> phase == RangingPhase::AwaitRise
            || phase == RangingPhase::AwaitFall,
{
}

/// An echo ends the timing phase: an out-of-range echo starts the next cycle at
/// once without touching the LED, any other echo reports its distance and shows its
/// LED level during the cooldown, after which a new cycle starts.
pub proof fn lemma_echo_outcome(duration_us: u64)
    ensures
        duration_us >= ECHO_LIMIT_US ==> next_phase(RangingPhase::AwaitFall,
            RangingEvent::EchoEnded { duration_us }) == RangingPhase::Settle,
        duration_us < ECHO_LIMIT_US ==> next_phase(RangingPhase::AwaitFall,
            RangingEvent::EchoEnded { duration_us }) == (RangingPhase::Report {
                distance_cm: duration_us / US_PER_CM,
                led_on: duration_us / US_PER_CM <= NEAR_CM,
            }),
        duration_us < ECHO_LIMIT_US ==> phase_action(next_phase(RangingPhase::AwaitFall,
            RangingEvent::EchoEnded { duration_us })) == (RangingAction::ShowLed {
                distance_cm: duration_us / US_PER_CM,
                on: duration_us / US_PER_CM <= NEAR_CM,
                hold_us: COOLDOWN_US,
            }),
        forall|distance_cm: u64, led_on: bool|
            #[trigger] next_phase(RangingPhase::Report { distance_cm, led_on }, RangingEvent::Done)
                == RangingPhase::Settle,
{
}

} // verus!
