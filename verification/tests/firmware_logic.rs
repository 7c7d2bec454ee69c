use esp32_experiments::blink::{led_for_button, Blinker, BLINK_INTERVAL_MS, BUTTON_LED_AT_START};
use esp32_experiments::decimal::push_decimal;
use esp32_experiments::oled::{display_reset_sequence, LineHold};
use esp32_experiments::p2p::{
    beacon_bytes, frame_payload, received_payload, Beacon, FRAME_CAPACITY, LISTEN_TIMEOUT_MS,
};
use esp32_experiments::ranging::{
    judge_echo, ranging_action, ranging_next, ranging_start, EchoVerdict, RangingAction,
    RangingEvent, RangingPhase, COOLDOWN_US,
};
use esp32_experiments::watering::{
    clock_ready, local_time_text, watering_action, watering_next, watering_start, ClockSync,
    WateringAction, WateringPhase, REST_MS, WATER_MS,
};
use esp32_experiments::wifi::{
    client_settings, wifi_after_pause, wifi_first_step, wifi_next_step, AuthMode, ConnectPolicy, SettingsError,
    WifiOp, WifiStep, RETRY_PAUSE_MS,
};

#[test]
fn blinker_starts_lit_and_toggles() {
    let mut blinker = Blinker::new();
    assert!(blinker.led_on);
    assert_eq!(blinker.tick(), false);
    assert_eq!(blinker.tick(), true);
    assert_eq!(blinker.tick(), false);
    assert!(!blinker.led_on);
    assert_eq!(BLINK_INTERVAL_MS, 500);
    assert_eq!(blinker.tick(), true);
}

#[test]
fn blinker_period_is_two_ticks() {
    let mut blinker = Blinker::new();
    let mut levels = Vec::new();
    for _ in 0..6 {
        levels.push(blinker.tick());
    }
    assert_eq!(levels, vec![false, true, false, true, false, true]);
}

#[test]
fn button_led_mirrors_button() {
    assert!(!BUTTON_LED_AT_START);
    assert!(led_for_button(true));
    assert!(!led_for_button(false));
}

#[test]
fn decimal_rendering() {
    let mut out = Vec::new();
    push_decimal(0, &mut out);
    assert_eq!(out, b"0".to_vec());
    let mut out = b"n=".to_vec();
    push_decimal(4096, &mut out);
    assert_eq!(out, b"n=4096".to_vec());
    let mut out = Vec::new();
    push_decimal(u64::MAX, &mut out);
    assert_eq!(out, b"18446744073709551615".to_vec());
}

#[test]
fn beacon_message_text() {
    assert_eq!(beacon_bytes(0), b"Hello Dude 0".to_vec());
    assert_eq!(beacon_bytes(42), b"Hello Dude 42".to_vec());
    assert_ne!(beacon_bytes(1), beacon_bytes(10));
}

#[test]
fn beacon_frame_layout() {
    let beacon = Beacon::new();
    let frame = beacon.next_frame();
    assert_eq!(frame.buffer.len(), FRAME_CAPACITY);
    assert_eq!(frame.len, 12);
    assert_eq!(&frame.buffer[..12], b"Hello Dude 0");
    assert!(frame.buffer[12..].iter().all(|b| *b == 0));
}

#[test]
fn frame_of_full_payload() {
    let payload = vec![7u8; 255];
    let frame = frame_payload(&payload);
    assert_eq!(frame.len, 255);
    assert_eq!(frame.buffer, payload);
    let empty = frame_payload(&[]);
    assert_eq!(empty.len, 0);
    assert_eq!(empty.buffer, vec![0u8; 255]);
}

#[test]
fn beacon_counts_only_accepted_frames() {
    let mut beacon = Beacon::new();
    assert_eq!(beacon.record_transmission(true), Some(0));
    assert_eq!(beacon.record_transmission(false), None);
    assert_eq!(beacon.record_transmission(true), Some(1));
    assert_eq!(beacon.packets_sent, 2);
    let frame = beacon.next_frame();
    assert_eq!(&frame.buffer[..frame.len], b"Hello Dude 2");
    assert_eq!(LISTEN_TIMEOUT_MS, 5);
}

#[test]
fn received_payload_keeps_reported_bytes() {
    let mut buffer = [0u8; 255];
    buffer[..5].copy_from_slice(b"hi yo");
    assert_eq!(received_payload(&buffer, 5), b"hi yo".to_vec());
    assert_eq!(received_payload(&buffer, 0), Vec::<u8>::new());
    assert_eq!(received_payload(&buffer, 255).len(), 255);
}

#[test]
fn echo_verdicts() {
    assert_eq!(judge_echo(38000), EchoVerdict::OutOfRange);
    assert_eq!(judge_echo(u64::MAX), EchoVerdict::OutOfRange);
    assert_eq!(judge_echo(37999), EchoVerdict::Measured { distance_cm: 655, led_on: false });
    assert_eq!(judge_echo(0), EchoVerdict::Measured { distance_cm: 0, led_on: true });
    assert_eq!(judge_echo(347), EchoVerdict::Measured { distance_cm: 5, led_on: true });
    assert_eq!(judge_echo(348), EchoVerdict::Measured { distance_cm: 6, led_on: false });
    assert_eq!(judge_echo(1160), EchoVerdict::Measured { distance_cm: 20, led_on: false });
}

#[test]
fn ranging_cycle_in_range() {
    let mut phase = ranging_start();
    assert_eq!(ranging_action(&phase), RangingAction::DriveTrigger { high: false, hold_us: 2 });
    phase = ranging_next(phase, RangingEvent::Done);
    assert_eq!(ranging_action(&phase), RangingAction::DriveTrigger { high: true, hold_us: 10 });
    phase = ranging_next(phase, RangingEvent::Done);
    assert_eq!(ranging_action(&phase), RangingAction::DriveTrigger { high: false, hold_us: 0 });
    phase = ranging_next(phase, RangingEvent::Done);
    assert_eq!(ranging_action(&phase), RangingAction::AwaitEcho { high: true });
    phase = ranging_next(phase, RangingEvent::Done);
    assert_eq!(ranging_action(&phase), RangingAction::AwaitEcho { high: false });
    phase = ranging_next(phase, RangingEvent::EchoEnded { duration_us: 290 });
    assert_eq!(phase, RangingPhase::Report { distance_cm: 5, led_on: true });
    assert_eq!(
        ranging_action(&phase),
        RangingAction::ShowLed { distance_cm: 5, on: true, hold_us: COOLDOWN_US }
    );
    phase = ranging_next(phase, RangingEvent::Done);
    assert_eq!(phase, RangingPhase::Settle);
}

#[test]
fn ranging_out_of_range_restarts_at_once() {
    let phase = ranging_next(RangingPhase::AwaitFall, RangingEvent::EchoEnded { duration_us: 40000 });
    assert_eq!(phase, RangingPhase::Settle);
    let far = ranging_next(RangingPhase::AwaitFall, RangingEvent::EchoEnded { duration_us: 5800 });
    assert_eq!(far, RangingPhase::Report { distance_cm: 100, led_on: false });
}

#[test]
fn ranging_ignores_foreign_events() {
    let phase = ranging_next(RangingPhase::AwaitRise, RangingEvent::EchoEnded { duration_us: 5 });
    assert_eq!(phase, RangingPhase::AwaitRise);
    let phase = ranging_next(RangingPhase::AwaitFall, RangingEvent::Done);
    assert_eq!(phase, RangingPhase::AwaitFall);
}

#[test]
fn display_reset_pulse() {
    assert_eq!(
        display_reset_sequence(),
        vec![
            LineHold { high: true, hold_ms: 1 },
            LineHold { high: false, hold_ms: 10 },
            LineHold { high: true, hold_ms: 0 },
        ]
    );
}

#[test]
fn client_settings_accepts_fitting_values() {
    let settings = client_settings("greenhouse", "secret-pass", AuthMode::Wpa2Personal).unwrap();
    assert_eq!(settings.ssid, "greenhouse");
    assert_eq!(settings.password, "secret-pass");
    assert_eq!(settings.auth, AuthMode::Wpa2Personal);
    let ssid = "s".repeat(32);
    let password = "p".repeat(64);
    assert!(client_settings(&ssid, &password, AuthMode::Wpa3Personal).is_ok());
}

#[test]
fn client_settings_rejects_long_values() {
    let long_ssid = "s".repeat(33);
    let long_password = "p".repeat(65);
    assert_eq!(
        client_settings(&long_ssid, "ok", AuthMode::Wpa2Personal).err(),
        Some(SettingsError::SsidTooLong)
    );
    assert_eq!(
        client_settings(&long_ssid, &long_password, AuthMode::Wpa2Personal).err(),
        Some(SettingsError::SsidTooLong)
    );
    assert_eq!(
        client_settings("net", &long_password, AuthMode::Wpa3Personal).err(),
        Some(SettingsError::PasswordTooLong)
    );
    // Capacity counts bytes, not characters: 17 two-byte characters exceed 32 bytes.
    let wide = "é".repeat(17);
    assert_eq!(
        client_settings(&wide, "ok", AuthMode::Wpa2Personal).err(),
        Some(SettingsError::SsidTooLong)
    );
}

#[test]
fn wifi_bring_up_in_order() {
    let mut step = wifi_first_step();
    let mut calls = Vec::new();
    while let WifiStep::Perform(op) = step {
        calls.push(op);
        step = wifi_next_step(ConnectPolicy::FailFast, op, true);
    }
    assert_eq!(step, WifiStep::Online);
    assert_eq!(
        calls,
        vec![WifiOp::SetConfiguration, WifiOp::Start, WifiOp::Connect, WifiOp::WaitNetifUp]
    );
}

#[test]
fn wifi_fail_fast_aborts_on_any_failure() {
    for op in [WifiOp::SetConfiguration, WifiOp::Start, WifiOp::Connect, WifiOp::WaitNetifUp] {
        assert_eq!(wifi_next_step(ConnectPolicy::FailFast, op, false), WifiStep::Abort(op));
    }
}

#[test]
fn wifi_retry_only_the_association() {
    assert_eq!(
        wifi_next_step(ConnectPolicy::RetryConnect, WifiOp::Connect, false),
        WifiStep::PauseThenConnect { pause_ms: RETRY_PAUSE_MS }
    );
    assert_eq!(RETRY_PAUSE_MS, 600_000);
    assert_eq!(wifi_after_pause(), WifiStep::Perform(WifiOp::Connect));
    assert_eq!(
        wifi_next_step(ConnectPolicy::RetryConnect, WifiOp::Start, false),
        WifiStep::Abort(WifiOp::Start)
    );
    assert_eq!(
        wifi_next_step(ConnectPolicy::RetryConnect, WifiOp::WaitNetifUp, false),
        WifiStep::Abort(WifiOp::WaitNetifUp)
    );
}

#[test]
fn clock_ready_only_when_completed() {
    assert!(clock_ready(ClockSync::Completed));
    assert!(!clock_ready(ClockSync::InProgress));
    assert!(!clock_ready(ClockSync::Reset));
}

#[test]
fn watering_cycle_repeats_every_three_phases() {
    let mut phase = watering_start();
    let mut actions = Vec::new();
    for _ in 0..6 {
        actions.push(watering_action(phase));
        phase = watering_next(phase);
    }
    let cycle = vec![
        WateringAction::ReportLocalTime,
        WateringAction::Pump { on: true, hold_ms: WATER_MS },
        WateringAction::Pump { on: false, hold_ms: REST_MS },
    ];
    assert_eq!(actions[..3], cycle[..]);
    assert_eq!(actions[3..], cycle[..]);
    assert_eq!(phase, WateringPhase::Report);
    assert_eq!(WATER_MS, 30_000);
    assert_eq!(REST_MS, 30_000);
}

#[test]
fn local_time_is_three_hours_behind_utc() {
    assert_eq!(local_time_text(0, 0).as_deref(), Some("31/12/1969 21:00:00"));
    assert_eq!(local_time_text(1_700_000_000, 0).as_deref(), Some("14/11/2023 19:13:20"));
    assert_eq!(local_time_text(1_700_000_000, 999_999_999).as_deref(), Some("14/11/2023 19:13:20"));
}

#[test]
fn local_time_outside_chrono_range() {
    assert_eq!(local_time_text(i64::MAX, 0), None);
    assert_eq!(local_time_text(i64::MIN, 0), None);
}

/// Drives the bring-up steps over the given call outcomes, as the firmware does,
/// and records the calls and pauses.
fn simulate_bring_up(policy: ConnectPolicy, outcomes: &[bool]) -> (Vec<String>, WifiStep) {
    let mut events = Vec::new();
    let mut step = wifi_first_step();
    let mut next = outcomes.iter();
    loop {
        step = match step {
            WifiStep::Perform(op) => match next.next() {
                Some(&ok) => {
                    events.push(format!("{:?}:{}", op, ok));
                    wifi_next_step(policy, op, ok)
                }
                None => return (events, step),
            },
            WifiStep::PauseThenConnect { pause_ms } => {
                events.push(format!("pause:{}", pause_ms));
                wifi_after_pause()
            }
            WifiStep::Online | WifiStep::Abort(_) => return (events, step),
        };
    }
}

#[test]
fn wifi_retry_run_pauses_once_per_failed_association() {
    let (events, end) =
        simulate_bring_up(ConnectPolicy::RetryConnect, &[true, true, false, false, true, true]);
    assert_eq!(end, WifiStep::Online);
    assert_eq!(
        events,
        vec![
            "SetConfiguration:true",
            "Start:true",
            "Connect:false",
            "pause:600000",
            "Connect:false",
            "pause:600000",
            "Connect:true",
            "WaitNetifUp:true",
        ]
    );
}

#[test]
fn wifi_retry_run_keeps_trying() {
    let (events, end) = simulate_bring_up(ConnectPolicy::RetryConnect, &[true, true, false, false, false]);
    assert_eq!(end, WifiStep::Perform(WifiOp::Connect));
    assert_eq!(events.iter().filter(|e| e.starts_with("pause")).count(), 3);
}

#[test]
fn wifi_fail_fast_run_stops_at_failed_association() {
    let (events, end) = simulate_bring_up(ConnectPolicy::FailFast, &[true, true, false, true]);
    assert_eq!(end, WifiStep::Abort(WifiOp::Connect));
    assert_eq!(events, vec!["SetConfiguration:true", "Start:true", "Connect:false"]);
}
