//! Wi-Fi station setup: validating the client settings and the order of the calls
//! that bring the station online, with or without retrying the association.
use vstd::prelude::*;

verus! {

/// Largest SSID the station configuration holds, in bytes.
pub const SSID_CAPACITY: usize = 32;

/// Largest passphrase the station configuration holds, in bytes.
pub const PASSWORD_CAPACITY: usize = 64;

/// Pause before retrying a failed association, in milliseconds (ten minutes).
pub const RETRY_PAUSE_MS: u32 = 600_000;

/// Authentication the station uses.
#[derive(PartialEq, Eq, Structural, Debug, Clone, Copy)]
pub enum AuthMode {
    Wpa2Personal,
    Wpa3Personal,
}

/// Station settings: network name, passphrase and authentication, with no fixed
/// access point and no fixed channel.
pub struct ClientSettings {
    pub ssid: String,
    pub password: String,
    pub auth: AuthMode,
}

/// Why the settings cannot be built.
#[derive(PartialEq, Eq, Structural, Debug, Clone, Copy)]
pub enum SettingsError {
    /// The SSID is longer than the configuration holds.
    SsidTooLong,
    /// The passphrase is longer than the configuration holds.
    PasswordTooLong,
}

/// Builds the station settings. The SSID is checked first, then the passphrase;
/// each must fit its capacity in UTF-8 bytes.
pub fn client_settings(ssid: &str, password: &str, auth: AuthMode) -> (settings: Result<
    ClientSettings,
    SettingsError,
>)
    ensures
        ssid.len() > SSID_CAPACITY ==> settings == Err::<ClientSettings, SettingsError>(
            SettingsError::SsidTooLong,
        ),
        ssid.len() <= SSID_CAPACITY && password.len() > PASSWORD_CAPACITY
            ==> settings == Err::<ClientSettings, SettingsError>(SettingsError::PasswordTooLong),
        ssid.len() <= SSID_CAPACITY && password.len() <= PASSWORD_CAPACITY
            ==> (settings matches Ok(s) && s.ssid@ == ssid@ && s.password@ == password@ && s.auth == auth),
{
    if ssid.len() > SSID_CAPACITY {
        return Err(SettingsError::SsidTooLong);
    }
    if password.len() > PASSWORD_CAPACITY {
        return Err(SettingsError::PasswordTooLong);
    }
    Ok(ClientSettings { ssid: ssid.to_owned(), password: password.to_owned(), auth })
}

/// The driver calls that bring the station online, in the order they are made.
#[derive(PartialEq, Eq, Structural, Debug, Clone, Copy)]
pub enum WifiOp {
    SetConfiguration,
    Start,
    Connect,
    WaitNetifUp,
}

/// What to do when a driver call fails.
#[derive(PartialEq, Eq, Structural, Debug, Clone, Copy)]
pub enum ConnectPolicy {
    /// Any failure stops the bring-up.
    FailFast,
    /// A failed association is retried after a pause; other failures stop the bring-up.
    RetryConnect,
}

/// The next step of the bring-up.
#[derive(PartialEq, Eq, Structural, Debug, Clone, Copy)]
pub enum WifiStep {
    /// Make this driver call.
    Perform(WifiOp),
    /// Wait this long, then make the association call again.
    PauseThenConnect { pause_ms: u32 },
    /// The network interface is up.
    Online,
    /// This call failed and the bring-up stops.
    Abort(WifiOp),
}

/// The call made after a successful `op`, or `Online` after the last one.
pub open spec fn after_success(op: WifiOp) -> WifiStep {
    match op {
        WifiOp::SetConfiguration => WifiStep::Perform(WifiOp::Start),
        WifiOp::Start => WifiStep::Perform(WifiOp::Connect),
        WifiOp::Connect => WifiStep::Perform(WifiOp::WaitNetifUp),
        WifiOp::WaitNetifUp => WifiStep::Online,
    }
}

/// The step after a failed `op` under `policy`.
pub open spec fn after_failure(policy: ConnectPolicy, op: WifiOp) -> WifiStep {
    if policy == ConnectPolicy::RetryConnect && op == WifiOp::Connect {
        WifiStep::PauseThenConnect { pause_ms: RETRY_PAUSE_MS }
    } else {
        WifiStep::Abort(op)
    }
}

/// The first step of the bring-up: configure the station.
pub fn wifi_first_step() -> (step: WifiStep)
    ensures
        step == WifiStep::Perform(WifiOp::SetConfiguration),
{
    WifiStep::Perform(WifiOp::SetConfiguration)
}

/// The step after the driver call `op` returned, `succeeded` telling whether it did.
pub fn wifi_next_step(policy: ConnectPolicy, op: WifiOp, succeeded: bool) -> (step: WifiStep)
    ensures
        step == step_after(policy, op, succeeded),
        succeeded ==> step == after_success(op),
        !succeeded ==> step == after_failure(policy, op),
{
    if succeeded {
        match op {
            WifiOp::SetConfiguration => WifiStep::Perform(WifiOp::Start),
            WifiOp::Start => WifiStep::Perform(WifiOp::Connect),
            WifiOp::Connect => WifiStep::Perform(WifiOp::WaitNetifUp),
            WifiOp::WaitNetifUp => WifiStep::Online,
        }
    } else {
        match (policy, op) {
            (ConnectPolicy::RetryConnect, WifiOp::Connect) => WifiStep::PauseThenConnect {
                pause_ms: RETRY_PAUSE_MS,
            },
            _ => WifiStep::Abort(op),
        }
    }
}

/// The step once the pause before a retry is over: associate again.
pub fn wifi_after_pause() -> (step: WifiStep)
    ensures
        step == WifiStep::Perform(WifiOp::Connect),
{
    WifiStep::Perform(WifiOp::Connect)
}

/// When every call succeeds, the bring-up configures, starts, associates and waits
/// for the interface, in that order, and is then online.
pub proof fn lemma_bring_up_order()
    ensures
        after_success(WifiOp::SetConfiguration) == WifiStep::Perform(WifiOp::Start),
        after_success(WifiOp::Start) == WifiStep::Perform(WifiOp::Connect),
        after_success(WifiOp::Connect) == WifiStep::Perform(WifiOp::WaitNetifUp),
        after_success(WifiOp::WaitNetifUp) == WifiStep::Online,
{
}

/// The bring-up is online only after the interface wait succeeded, and it aborts
/// only on the call that failed.
pub proof fn lemma_online_only_after_interface(policy: ConnectPolicy, op: WifiOp, succeeded: bool)
    ensures
        (if succeeded { after_success(op) } else { after_failure(policy, op) }) == WifiStep::Online
            <==> (succeeded && op == WifiOp::WaitNetifUp),
        (if succeeded { after_success(op) } else { after_failure(policy, op) }) matches WifiStep::Abort(failed)
            ==> !succeeded && failed == op,
{
}

/// Retrying: a failed association never stops the bring-up when retries are on,
/// while under fail-fast every failure stops it. Failures of the other calls stop
/// it under either policy.
pub proof fn lemma_retry_policy(op: WifiOp)
    ensures
        after_failure(ConnectPolicy::RetryConnect, WifiOp::Connect)
            == (WifiStep::PauseThenConnect { pause_ms: RETRY_PAUSE_MS }),
        after_failure(ConnectPolicy::FailFast, op) == WifiStep::Abort(op),
        op != WifiOp::Connect ==> after_failure(ConnectPolicy::RetryConnect, op) == WifiStep::Abort(op),
{
}

/// The step after the driver call `op` returned, as a function of its outcome.
pub open spec fn step_after(policy: ConnectPolicy, op: WifiOp, succeeded: bool) -> WifiStep {
    if succeeded {
        after_success(op)
    } else {
        after_failure(policy, op)
    }
}

/// What happens during a bring-up, in order: a driver call with its outcome, or a
/// pause before the association is retried.
#[derive(PartialEq, Eq, Structural, Debug, Clone, Copy)]
pub enum WifiEvent {
    Call { op: WifiOp, succeeded: bool },
    Pause { ms: u32 },
}

/// Runs the bring-up from `step`, the successive driver calls returning the
/// successive `outcomes`. Gives what happened and the step reached when the run
/// ended or the outcomes ran out.
pub open spec fn run_from(policy: ConnectPolicy, step: WifiStep, outcomes: Seq<bool>) -> (Seq<WifiEvent>, WifiStep)
    decreases outcomes.len(),
{
    match step {
        WifiStep::Perform(op) => {
            if outcomes.len() == 0 {
                (Seq::empty(), step)
            } else {
                let succeeded = outcomes[0];
                let call = WifiEvent::Call { op, succeeded };
                match step_after(policy, op, succeeded) {
                    WifiStep::PauseThenConnect { pause_ms } => {
                        let rest = run_from(policy, WifiStep::Perform(WifiOp::Connect), outcomes.drop_first());
                        (seq![call, WifiEvent::Pause { ms: pause_ms }] + rest.0, rest.1)
                    },
                    next => {
                        let rest = run_from(policy, next, outcomes.drop_first());
                        (seq![call] + rest.0, rest.1)
                    },
                }
            }
        },
        _ => (Seq::empty(), step),
    }
}

/// A whole bring-up: the run from the first step.
pub open spec fn bring_up_run(policy: ConnectPolicy, outcomes: Seq<bool>) -> (Seq<WifiEvent>, WifiStep) {
    run_from(policy, WifiStep::Perform(WifiOp::SetConfiguration), outcomes)
}

/// `k` failed associations, each followed by the retry pause.
pub open spec fn failed_associations(k: nat) -> Seq<WifiEvent>
    decreases k,
{
    if k == 0 {
        Seq::empty()
    } else {
        seq![
            WifiEvent::Call { op: WifiOp::Connect, succeeded: false },
            WifiEvent::Pause { ms: RETRY_PAUSE_MS },
        ] + failed_associations((k - 1) as nat)
    }
}

/// Number of pauses among `events`.
pub open spec fn pause_count(events: Seq<WifiEvent>) -> nat
    decreases events.len(),
{
    if events.len() == 0 {
        0
    } else {
        (if events[0] is Pause { 1nat } else { 0nat }) + pause_count(events.drop_first())
    }
}

/// Total time spent pausing among `events`, in milliseconds.
pub open spec fn pause_total_ms(events: Seq<WifiEvent>) -> nat
    decreases events.len(),
{
    if events.len() == 0 {
        0
    } else {
        (match events[0] {
            WifiEvent::Pause { ms } => ms as nat,
            _ => 0nat,
        }) + pause_total_ms(events.drop_first())
    }
}

/// `k` outcomes that are all failures.
pub open spec fn failures(k: nat) -> Seq<bool> {
    Seq::new(k, |i: int| false)
}

proof fn lemma_pause_counts_add(a: Seq<WifiEvent>, b: Seq<WifiEvent>)
    ensures
        pause_count(a + b) == pause_count(a) + pause_count(b),
        pause_total_ms(a + b) == pause_total_ms(a) + pause_total_ms(b),
    decreases a.len(),
{
    if a.len() > 0 {
        assert((a + b).drop_first() =~= a.drop_first() + b);
        lemma_pause_counts_add(a.drop_first(), b);
    } else {
        assert(a + b =~= b);
    }
}

/// `k` failed associations hold exactly `k` pauses of the retry length.
pub proof fn lemma_failed_associations_pauses(k: nat)
    ensures
        pause_count(failed_associations(k)) == k,
        pause_total_ms(failed_associations(k)) == k * RETRY_PAUSE_MS,
    decreases k,
{
    if k > 0 {
        lemma_failed_associations_pauses((k - 1) as nat);
        let head = seq![
            WifiEvent::Call { op: WifiOp::Connect, succeeded: false },
            WifiEvent::Pause { ms: RETRY_PAUSE_MS },
        ];
        lemma_pause_counts_add(head, failed_associations((k - 1) as nat));
        assert(head.drop_first().drop_first() =~= Seq::<WifiEvent>::empty());
        reveal_with_fuel(pause_count, 3);
        reveal_with_fuel(pause_total_ms, 3);
        assert(pause_count(head) == 1);
        assert(pause_total_ms(head) == RETRY_PAUSE_MS);
        assert(k * RETRY_PAUSE_MS == (k - 1) * RETRY_PAUSE_MS + RETRY_PAUSE_MS) by (nonlinear_arith)
            requires k >= 1;
    }
}

/// Under retries, `k` failed associations produce `k` association calls each
/// followed by one pause, and leave the run waiting to associate again.
proof fn lemma_retry_failed_associations(k: nat, tail: Seq<bool>)
    ensures
        run_from(ConnectPolicy::RetryConnect, WifiStep::Perform(WifiOp::Connect), failures(k) + tail).0
            == failed_associations(k) + run_from(ConnectPolicy::RetryConnect, WifiStep::Perform(WifiOp::Connect), tail).0,
        run_from(ConnectPolicy::RetryConnect, WifiStep::Perform(WifiOp::Connect), failures(k) + tail).1
            == run_from(ConnectPolicy::RetryConnect, WifiStep::Perform(WifiOp::Connect), tail).1,
    decreases k,
{
    if k == 0 {
        assert(failures(0) + tail =~= tail);
        assert(failed_associations(0) + run_from(ConnectPolicy::RetryConnect, WifiStep::Perform(WifiOp::Connect), tail).0
            =~= run_from(ConnectPolicy::RetryConnect, WifiStep::Perform(WifiOp::Connect), tail).0);
    } else {
        let s = failures(k) + tail;
        assert(s[0] == false);
        assert(s.drop_first() =~= failures((k - 1) as nat) + tail);
        lemma_retry_failed_associations((k - 1) as nat, tail);
        let rest = run_from(ConnectPolicy::RetryConnect, WifiStep::Perform(WifiOp::Connect), tail).0;
        let head = seq![
            WifiEvent::Call { op: WifiOp::Connect, succeeded: false },
            WifiEvent::Pause { ms: RETRY_PAUSE_MS },
        ];
        assert(head + (failed_associations((k - 1) as nat) + rest) =~= (head + failed_associations((k - 1) as nat)) + rest);
    }
}

/// A whole bring-up with retries. The configuration is set first and once, the
/// station started once before any association; every failed association is
/// followed by exactly one ten-minute pause and then another association; the
/// interface is awaited once, right after the first successful association; the
/// bring-up is online exactly when that wait succeeds. Failures of the
/// configuration or start calls stop it at once.
pub proof fn lemma_retry_bring_up(k: nat, netif_up: bool, rest: Seq<bool>)
    ensures
        ({
            let run = bring_up_run(ConnectPolicy::RetryConnect,
                seq![true, true] + failures(k) + seq![true, netif_up] + rest);
            &&& run.0 == seq![
                WifiEvent::Call { op: WifiOp::SetConfiguration, succeeded: true },
                WifiEvent::Call { op: WifiOp::Start, succeeded: true },
            ] + failed_associations(k) + seq![
                WifiEvent::Call { op: WifiOp::Connect, succeeded: true },
                WifiEvent::Call { op: WifiOp::WaitNetifUp, succeeded: netif_up },
            ]
            &&& run.1 == if netif_up { WifiStep::Online } else { WifiStep::Abort(WifiOp::WaitNetifUp) }
            &&& pause_count(run.0) == k
            &&& pause_total_ms(run.0) == k * RETRY_PAUSE_MS
        }),
        bring_up_run(ConnectPolicy::RetryConnect, seq![false] + rest) == (
            seq![WifiEvent::Call { op: WifiOp::SetConfiguration, succeeded: false }],
            WifiStep::Abort(WifiOp::SetConfiguration),
        ),
        bring_up_run(ConnectPolicy::RetryConnect, seq![true, false] + rest) == (
            seq![
                WifiEvent::Call { op: WifiOp::SetConfiguration, succeeded: true },
                WifiEvent::Call { op: WifiOp::Start, succeeded: false },
            ],
            WifiStep::Abort(WifiOp::Start),
        ),
{
    let p = ConnectPolicy::RetryConnect;
    let o = seq![true, true] + failures(k) + seq![true, netif_up] + rest;
    let tail = seq![true, netif_up] + rest;
    assert(o[0] && o[1]);
    assert(o.drop_first().drop_first() =~= failures(k) + tail);
    lemma_retry_failed_associations(k, tail);
    assert(tail[0] && tail[1] == netif_up);
    assert(tail.drop_first().drop_first() =~= rest);
    let after_wait = run_from(p, step_after(p, WifiOp::WaitNetifUp, netif_up), rest);
    assert(after_wait.0 =~= Seq::<WifiEvent>::empty());
    let wait_run = run_from(p, WifiStep::Perform(WifiOp::WaitNetifUp), tail.drop_first());
    assert(wait_run.0 =~= seq![WifiEvent::Call { op: WifiOp::WaitNetifUp, succeeded: netif_up }]);
    let conn_run = run_from(p, WifiStep::Perform(WifiOp::Connect), tail);
    assert(conn_run.0 =~= seq![
        WifiEvent::Call { op: WifiOp::Connect, succeeded: true },
        WifiEvent::Call { op: WifiOp::WaitNetifUp, succeeded: netif_up },
    ]);
    let run = bring_up_run(p, o);
    let expected = seq![
        WifiEvent::Call { op: WifiOp::SetConfiguration, succeeded: true },
        WifiEvent::Call { op: WifiOp::Start, succeeded: true },
    ] + failed_associations(k) + conn_run.0;
    let start_run = run_from(p, WifiStep::Perform(WifiOp::Start), o.drop_first());
    assert(start_run.0 =~= seq![WifiEvent::Call { op: WifiOp::Start, succeeded: true }] + (failed_associations(k) + conn_run.0));
    assert(run.0 =~= expected);
    let ends = seq![
        WifiEvent::Call { op: WifiOp::Connect, succeeded: true },
        WifiEvent::Call { op: WifiOp::WaitNetifUp, succeeded: netif_up },
    ];
    let firsts = seq![
        WifiEvent::Call { op: WifiOp::SetConfiguration, succeeded: true },
        WifiEvent::Call { op: WifiOp::Start, succeeded: true },
    ];
    lemma_failed_associations_pauses(k);
    lemma_pause_counts_add(firsts, failed_associations(k));
    lemma_pause_counts_add(firsts + failed_associations(k), ends);
    assert(firsts.drop_first().drop_first() =~= Seq::<WifiEvent>::empty());
    assert(ends.drop_first().drop_first() =~= Seq::<WifiEvent>::empty());
    reveal_with_fuel(pause_count, 3);
    reveal_with_fuel(pause_total_ms, 3);
    assert(pause_count(firsts) == 0 && pause_total_ms(firsts) == 0);
    assert(pause_count(ends) == 0 && pause_total_ms(ends) == 0);

    let o1 = seq![false] + rest;
    assert(o1[0] == false);
    assert(run_from(p, WifiStep::Abort(WifiOp::SetConfiguration), o1.drop_first()).0 =~= Seq::<WifiEvent>::empty());
    assert(bring_up_run(p, o1).0 =~= seq![WifiEvent::Call { op: WifiOp::SetConfiguration, succeeded: false }]);
    let o2 = seq![true, false] + rest;
    assert(o2[0] && !o2[1]);
    assert(o2.drop_first().drop_first() =~= rest);
    assert(run_from(p, WifiStep::Abort(WifiOp::Start), rest).0 =~= Seq::<WifiEvent>::empty());
    assert(run_from(p, WifiStep::Perform(WifiOp::Start), o2.drop_first()).0 =~= seq![
        WifiEvent::Call { op: WifiOp::Start, succeeded: false }]);
    assert(bring_up_run(p, o2).0 =~= seq![
        WifiEvent::Call { op: WifiOp::SetConfiguration, succeeded: true },
        WifiEvent::Call { op: WifiOp::Start, succeeded: false },
    ]);
}

/// With retries, a bring-up whose associations keep failing never ends: after `k`
/// failed associations it has paused `k` times and is about to associate again,
/// neither online nor aborted.
pub proof fn lemma_retry_never_gives_up(k: nat)
    ensures
        bring_up_run(ConnectPolicy::RetryConnect, seq![true, true] + failures(k)).0 == seq![
            WifiEvent::Call { op: WifiOp::SetConfiguration, succeeded: true },
            WifiEvent::Call { op: WifiOp::Start, succeeded: true },
        ] + failed_associations(k),
        bring_up_run(ConnectPolicy::RetryConnect, seq![true, true] + failures(k)).1
            == WifiStep::Perform(WifiOp::Connect),
{
    let p = ConnectPolicy::RetryConnect;
    let o = seq![true, true] + failures(k);
    assert(o[0] && o[1]);
    assert(o.drop_first().drop_first() =~= failures(k) + Seq::<bool>::empty());
    lemma_retry_failed_associations(k, Seq::<bool>::empty());
    let conn_run = run_from(p, WifiStep::Perform(WifiOp::Connect), failures(k) + Seq::<bool>::empty());
    assert(failed_associations(k) + Seq::<WifiEvent>::empty() =~= failed_associations(k));
    let start_run = run_from(p, WifiStep::Perform(WifiOp::Start), o.drop_first());
    assert(start_run.0 =~= seq![WifiEvent::Call { op: WifiOp::Start, succeeded: true }] + conn_run.0);
    assert(bring_up_run(p, o).0 =~= seq![
        WifiEvent::Call { op: WifiOp::SetConfiguration, succeeded: true },
        WifiEvent::Call { op: WifiOp::Start, succeeded: true },
    ] + failed_associations(k));
}

/// Under fail-fast a bring-up never pauses, and it stops at the first failure.
pub proof fn lemma_fail_fast_run(step: WifiStep, outcomes: Seq<bool>)
    ensures
        pause_count(run_from(ConnectPolicy::FailFast, step, outcomes).0) == 0,
        bring_up_run(ConnectPolicy::FailFast, seq![true, true, false] + outcomes) == (
            seq![
                WifiEvent::Call { op: WifiOp::SetConfiguration, succeeded: true },
                WifiEvent::Call { op: WifiOp::Start, succeeded: true },
                WifiEvent::Call { op: WifiOp::Connect, succeeded: false },
            ],
            WifiStep::Abort(WifiOp::Connect),
        ),
        bring_up_run(ConnectPolicy::FailFast, seq![true, true, true, true]) == (
            seq![
                WifiEvent::Call { op: WifiOp::SetConfiguration, succeeded: true },
                WifiEvent::Call { op: WifiOp::Start, succeeded: true },
                WifiEvent::Call { op: WifiOp::Connect, succeeded: true },
                WifiEvent::Call { op: WifiOp::WaitNetifUp, succeeded: true },
            ],
            WifiStep::Online,
        ),
    decreases outcomes.len(),
{
    let p = ConnectPolicy::FailFast;
    if let WifiStep::Perform(op) = step {
        if outcomes.len() > 0 {
            lemma_fail_fast_run(step_after(p, op, outcomes[0]), outcomes.drop_first());
            let rest = run_from(p, step_after(p, op, outcomes[0]), outcomes.drop_first()).0;
            let call = WifiEvent::Call { op, succeeded: outcomes[0] };
            assert((seq![call] + rest).drop_first() =~= rest);
        }
    }
    let o = seq![true, true, false] + outcomes;
    assert(o[0] && o[1] && !o[2]);
    assert(o.drop_first().drop_first().drop_first() =~= outcomes);
    assert(run_from(p, WifiStep::Abort(WifiOp::Connect), outcomes).0 =~= Seq::<WifiEvent>::empty());
    assert(run_from(p, WifiStep::Perform(WifiOp::Connect), o.drop_first().drop_first()).0 =~= seq![
        WifiEvent::Call { op: WifiOp::Connect, succeeded: false }]);
    assert(run_from(p, WifiStep::Perform(WifiOp::Start), o.drop_first()).0 =~= seq![
        WifiEvent::Call { op: WifiOp::Start, succeeded: true },
        WifiEvent::Call { op: WifiOp::Connect, succeeded: false }]);
    assert(bring_up_run(p, o).0 =~= seq![
        WifiEvent::Call { op: WifiOp::SetConfiguration, succeeded: true },
        WifiEvent::Call { op: WifiOp::Start, succeeded: true },
        WifiEvent::Call { op: WifiOp::Connect, succeeded: false },
    ]);
    let a = seq![true, true, true, true];
    assert(a.drop_first() =~= seq![true, true, true]);
    assert(a.drop_first().drop_first() =~= seq![true, true]);
    assert(a.drop_first().drop_first().drop_first() =~= seq![true]);
    assert(a.drop_first().drop_first().drop_first().drop_first() =~= Seq::<bool>::empty());
    assert(seq![true].drop_first() =~= Seq::<bool>::empty());
    assert(run_from(p, WifiStep::Online, Seq::<bool>::empty()).0 =~= Seq::<WifiEvent>::empty());
    assert(run_from(p, WifiStep::Perform(WifiOp::WaitNetifUp), seq![true]).0 =~= seq![
        WifiEvent::Call { op: WifiOp::WaitNetifUp, succeeded: true }]);
    assert(run_from(p, WifiStep::Perform(WifiOp::Connect), seq![true, true]).0 =~= seq![
        WifiEvent::Call { op: WifiOp::Connect, succeeded: true },
        WifiEvent::Call { op: WifiOp::WaitNetifUp, succeeded: true }]);
    assert(run_from(p, WifiStep::Perform(WifiOp::Start), seq![true, true, true]).0 =~= seq![
        WifiEvent::Call { op: WifiOp::Start, succeeded: true },
        WifiEvent::Call { op: WifiOp::Connect, succeeded: true },
        WifiEvent::Call { op: WifiOp::WaitNetifUp, succeeded: true }]);
    assert(bring_up_run(p, a).0 =~= seq![
        WifiEvent::Call { op: WifiOp::SetConfiguration, succeeded: true },
        WifiEvent::Call { op: WifiOp::Start, succeeded: true },
        WifiEvent::Call { op: WifiOp::Connect, succeeded: true },
        WifiEvent::Call { op: WifiOp::WaitNetifUp, succeeded: true },
    ]);
}

} // verus!
