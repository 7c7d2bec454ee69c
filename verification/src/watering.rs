//! Plant watering: the watering cycle, when the clock counts as synchronized, and
//! the local wall-clock text printed at the start of every cycle.
use vstd::prelude::*;
use std::fmt::Write;

verus! {

/// How long the pump runs in each cycle, in milliseconds.
pub const WATER_MS: u32 = 30_000;

/// How long the pump rests in each cycle, in milliseconds.
pub const REST_MS: u32 = 30_000;

/// Hours the local clock is behind UTC.
pub const HOURS_BEHIND_UTC: i64 = 3;

/// Seconds in an hour.
pub const SECS_PER_HOUR: i64 = 3600;

/// State of the network clock synchronization, as the time service reports it.
#[derive(PartialEq, Eq, Structural, Debug, Clone, Copy)]
pub enum ClockSync {
    Reset,
    InProgress,
    Completed,
}

/// The clock is usable once synchronization has completed; until then the firmware
/// keeps polling.
pub fn clock_ready(status: ClockSync) -> (ready: bool)
    ensures
        ready <==> status == ClockSync::Completed,
{
    match status {
        ClockSync::Completed => true,
        _ => false,
    }
}

/// Where a watering cycle stands.
#[derive(PartialEq, Eq, Structural, Debug, Clone, Copy)]
pub enum WateringPhase {
    /// Print the local time.
    Report,
    /// Pump on.
    Water,
    /// Pump off.
    Rest,
}

/// What the firmware does in a phase.
#[derive(PartialEq, Eq, Structural, Debug, Clone, Copy)]
pub enum WateringAction {
    /// Print the local wall-clock time.
    ReportLocalTime,
    /// Drive the pump, then hold that level for a while.
    Pump { on: bool, hold_ms: u32 },
}

/// The action of each phase.
pub open spec fn watering_action_of(phase: WateringPhase) -> WateringAction {
    match phase {
        WateringPhase::Report => WateringAction::ReportLocalTime,
        WateringPhase::Water => WateringAction::Pump { on: true, hold_ms: WATER_MS },
        WateringPhase::Rest => WateringAction::Pump { on: false, hold_ms: REST_MS },
    }
}

/// The phase after each phase.
pub open spec fn watering_next_of(phase: WateringPhase) -> WateringPhase {
    match phase {
        WateringPhase::Report => WateringPhase::Water,
        WateringPhase::Water => WateringPhase::Rest,
        WateringPhase::Rest => WateringPhase::Report,
    }
}

/// The phase `steps` phases after `phase`.
pub open spec fn watering_after(phase: WateringPhase, steps: nat) -> WateringPhase
    decreases steps,
{
    if steps == 0 {
        phase
    } else {
        watering_after(watering_next_of(phase), (steps - 1) as nat)
    }
}

/// The first phase once the clock is synchronized.
pub fn watering_start() -> (phase: WateringPhase)
    ensures
        phase == WateringPhase::Report,
{
    WateringPhase::Report
}

/// What to do in `phase`.
pub fn watering_action(phase: WateringPhase) -> (action: WateringAction)
    ensures
        action == watering_action_of(phase),
{
    match phase {
        WateringPhase::Report => WateringAction::ReportLocalTime,
        WateringPhase::Water => WateringAction::Pump { on: true, hold_ms: WATER_MS },
        WateringPhase::Rest => WateringAction::Pump { on: false, hold_ms: REST_MS },
    }
}

/// The phase after `phase`.
pub fn watering_next(phase: WateringPhase) -> (next: WateringPhase)
    ensures
        next == watering_next_of(phase),
{
    match phase {
        WateringPhase::Report => WateringPhase::Water,
        WateringPhase::Water => WateringPhase::Rest,
        WateringPhase::Rest => WateringPhase::Report,
    }
}

/// The cycle repeats every three phases: the time is reported, the pump runs for
/// its watering time, then rests for its resting time, and the pump is switched on
/// only in the watering phase.
pub proof fn lemma_watering_cycle(phase: WateringPhase, k: nat)
    ensures
        watering_after(phase, 3) == phase,
        watering_after(phase, k + 3) == watering_after(phase, k),
        watering_action_of(watering_after(WateringPhase::Report, 1))
            == (WateringAction::Pump { on: true, hold_ms: WATER_MS }),
        watering_action_of(watering_after(WateringPhase::Report, 2))
            == (WateringAction::Pump { on: false, hold_ms: REST_MS }),
        watering_action_of(phase) matches WateringAction::Pump { on, .. } ==> (on <==> phase
            == WateringPhase::Water),
    decreases k,
{
    reveal_with_fuel(watering_after, 4);
    if k > 0 {
        lemma_watering_cycle(watering_next_of(phase), (k - 1) as nat);
    }
}

/// Whether `year` is a leap year of the Gregorian calendar.
pub open spec fn is_leap_year(year: int) -> bool {
    (year % 4 == 0 && year % 100 != 0) || year % 400 == 0
}

/// Number of days in `year`.
pub open spec fn days_in_year(year: int) -> int {
    if is_leap_year(year) {
        366
    } else {
        365
    }
}

/// Number of days in `month` (1 to 12) of `year`.
pub open spec fn days_in_month(year: int, month: int) -> int {
    if month == 2 {
        if is_leap_year(year) {
            29
        } else {
            28
        }
    } else if month == 4 || month == 6 || month == 9 || month == 11 {
        30
    } else {
        31
    }
}

/// The year that holds day `day` counted from the first of January of `year`, and
/// the day within that year (from zero).
pub open spec fn year_and_day(year: int, day: nat) -> (int, nat)
    decreases day,
{
    if day < days_in_year(year) {
        (year, day)
    } else {
        year_and_day(year + 1, (day - days_in_year(year)) as nat)
    }
}

/// The month (from `month` on, at most 12) that holds day `day` counted from the
/// first of `month`, and the day within that month (from zero).
pub open spec fn month_and_day(year: int, month: int, day: nat) -> (int, nat)
    decreases 12 - month,
{
    if month >= 12 || day < days_in_month(year, month) {
        (month, day)
    } else {
        month_and_day(year, month + 1, (day - days_in_month(year, month)) as nat)
    }
}

/// The Gregorian date (year, month, day of month) of the day `days` days after
/// 1 January 1970.
pub open spec fn civil_date(days: nat) -> (int, int, int) {
    let (year, day_of_year) = year_and_day(1970, days);
    let (month, day_of_month) = month_and_day(year, 1, day_of_year);
    (year, month, day_of_month as int + 1)
}

/// The decimal digit `n` (0 to 9) as a character.
pub open spec fn digit_char(n: int) -> char {
    (48 + n) as char
}

/// `n` (0 to 99) in two digits.
pub open spec fn two_digit_text(n: int) -> Seq<char> {
    seq![digit_char(n / 10), digit_char(n % 10)]
}

/// `n` (0 to 9999) in four digits.
pub open spec fn four_digit_text(n: int) -> Seq<char> {
    seq![digit_char(n / 1000), digit_char(n / 100 % 10), digit_char(n / 10 % 10), digit_char(n % 10)]
}

/// The time of day `secs` seconds into a day (0 to 86399) as `HH:MM:SS`.
pub open spec fn time_of_day_text(secs: int) -> Seq<char> {
    two_digit_text(secs / 3600) + seq![':'] + two_digit_text(secs % 3600 / 60) + seq![':']
        + two_digit_text(secs % 60)
}

/// The UTC calendar reading of the instant `secs` seconds after the Unix epoch
/// (from 1970 to the end of year 9999), as `DD/MM/YYYY HH:MM:SS`.
pub open spec fn civil_clock_text(secs: int) -> Seq<char> {
    date_text((secs / 86400) as nat) + seq![' '] + time_of_day_text(secs % 86400)
}

/// The date `days` days after 1 January 1970 as `DD/MM/YYYY`.
pub open spec fn date_text(days: nat) -> Seq<char> {
    let (year, month, day) = civil_date(days);
    two_digit_text(day) + seq!['/'] + two_digit_text(month) + seq!['/'] + four_digit_text(year)
}

/// A calendar reading is its date, a space, and its time of day.
pub proof fn lemma_civil_clock_text_parts(secs: int)
    ensures
        civil_clock_text(secs).len() == 19,
        civil_clock_text(secs).take(10) == date_text((secs / 86400) as nat),
        civil_clock_text(secs)[10] == ' ',
        civil_clock_text(secs).skip(11) == time_of_day_text(secs % 86400),
{
    let d = date_text((secs / 86400) as nat);
    let t = time_of_day_text(secs % 86400);
    assert(d.len() == 10);
    assert(t.len() == 8);
    assert(civil_clock_text(secs).take(10) =~= d);
    assert(civil_clock_text(secs).skip(11) =~= t);
}

/// Day and time-of-day arithmetic of going back three hours.
proof fn lemma_three_hours_back_arith(secs: int)
    requires
        secs >= 86400,
    ensures
        secs % 86400 >= 10800 ==> (secs - 10800) / 86400 == secs / 86400 && (secs - 10800) % 86400
            == secs % 86400 - 10800,
        secs % 86400 < 10800 ==> (secs - 10800) / 86400 == (secs - 86400) / 86400 && (secs - 10800)
            % 86400 == secs % 86400 + 75600,
        (secs - 10800) % 86400 % 3600 == secs % 86400 % 3600,
        (secs - 10800) % 86400 % 60 == secs % 86400 % 60,
        (secs - 10800) % 86400 / 3600 == (secs % 86400 / 3600 + 21) % 24,
{
    let q = secs / 86400;
    let t = secs % 86400;
    assert(secs == q * 86400 + t && 0 <= t < 86400);
    if t >= 10800 {
        assert(secs - 10800 == q * 86400 + (t - 10800));
        vstd::arithmetic::div_mod::lemma_fundamental_div_mod_converse(secs - 10800, 86400, q, t - 10800);
    } else {
        assert(secs - 10800 == (q - 1) * 86400 + (t + 75600));
        vstd::arithmetic::div_mod::lemma_fundamental_div_mod_converse(secs - 10800, 86400, q - 1, t + 75600);
        assert(secs - 86400 == (q - 1) * 86400 + t);
        vstd::arithmetic::div_mod::lemma_fundamental_div_mod_converse(secs - 86400, 86400, q - 1, t);
    }
}

/// Local time is three hours behind UTC: the local reading of an instant shows the
/// UTC time of day three hours earlier, on the same UTC date when that UTC time of
/// day is three hours or more past midnight and on the UTC date of the day before
/// otherwise; minutes and seconds are unchanged.
pub proof fn lemma_local_clock_three_hours_behind(secs: int)
    requires
        86400 <= secs < YEAR_10000_SECS,
    ensures
        secs % 86400 >= 10800 ==> civil_clock_text(secs - 10800).take(10) == civil_clock_text(secs).take(10)
            && civil_clock_text(secs - 10800).skip(11) == time_of_day_text(secs % 86400 - 10800),
        secs % 86400 < 10800 ==> civil_clock_text(secs - 10800).take(10) == civil_clock_text(secs - 86400).take(10)
            && civil_clock_text(secs - 10800).skip(11) == time_of_day_text(secs % 86400 + 75600),
        civil_clock_text(secs - 10800).skip(11).take(2) == two_digit_text((secs % 86400 / 3600 + 21) % 24),
        civil_clock_text(secs - 10800).skip(14) == civil_clock_text(secs).skip(14),
{
    lemma_civil_clock_text_parts(secs);
    lemma_civil_clock_text_parts(secs - 10800);
    lemma_civil_clock_text_parts(secs - 86400);
    lemma_three_hours_back_arith(secs);
    let t = secs % 86400;
    let lt = (secs - 10800) % 86400;
    assert(time_of_day_text(lt).take(2) =~= two_digit_text(lt / 3600));
    assert(time_of_day_text(lt).skip(3) =~= time_of_day_text(t).skip(3));
    assert(civil_clock_text(secs - 10800).skip(14) =~= time_of_day_text(lt).skip(3));
    assert(civil_clock_text(secs).skip(14) =~= time_of_day_text(t).skip(3));
}

/// First instant of the year 10000, in seconds after the Unix epoch.
pub const YEAR_10000_SECS: i64 = 253_402_300_800;

/// The clock pattern applied to an instant from 1970 to the end of year 9999
/// outside a leap second: the case in which chrono's text is the calendar reading.
pub open spec fn renders_as_calendar(secs: i64, nanos: u32, pattern: Seq<char>) -> bool {
    &&& pattern == clock_pattern()
    &&& 0 <= secs < YEAR_10000_SECS
    &&& nanos < 1_000_000_000
}

/// The text chrono renders for the UTC instant `secs` seconds and `nanos`
/// nanoseconds after the Unix epoch under the strftime `pattern`; `None` where chrono
/// has no such instant or the pattern cannot be rendered.
pub uninterp spec fn chrono_utc_text(secs: i64, nanos: u32, pattern: Seq<char>) -> Option<Seq<char>>;

/// Renders a UTC instant with chrono: `DateTime::<Utc>::from_timestamp` builds the
/// instant and `DateTime::format` renders it. The contract claims that the outcome
/// is a function of the three arguments (named `chrono_utc_text`) and, for the
/// clock pattern `%d/%m/%Y %H:%M:%S` and an instant from 1970 to the end of year
/// 9999 outside a leap second, that the text is the instant's Gregorian calendar
/// reading: chrono writes day, month, hour, minute and second as two zero-padded
/// digits and years 1000 to 9999 as four digits. For other patterns and instants
/// the rendering is chrono's and is not stated.
#[verifier::external_body]
fn utc_text(secs: i64, nanos: u32, pattern: &str) -> (text: Option<String>)
    ensures
        match text {
            Some(t) => chrono_utc_text(secs, nanos, pattern@) == Some(t@),
            None => chrono_utc_text(secs, nanos, pattern@) is None,
        },
        renders_as_calendar(secs, nanos, pattern@)
            ==> text is Some && text.unwrap()@ == civil_clock_text(secs as int),
{
    match chrono::DateTime::<chrono::Utc>::from_timestamp(secs, nanos) {
        Some(instant) => {
            let mut text = String::new();
            match write!(text, "{}", instant.format(pattern)) {
                Ok(()) => Some(text),
                Err(_) => None,
            }
        },
        None => None,
    }
}

/// The pattern of the printed time: day/month/year hours:minutes:seconds.
pub open spec fn clock_pattern() -> Seq<char> {
    seq!['%', 'd', '/', '%', 'm', '/', '%', 'Y', ' ', '%', 'H', ':', '%', 'M', ':', '%', 'S']
}

/// The local wall-clock text for the instant `secs`/`nanos` after the Unix epoch:
/// the instant must exist for chrono, and it is shown shifted back by the local
/// offset from UTC.
pub open spec fn local_time_spec(secs: i64, nanos: u32) -> Option<Seq<char>> {
    if chrono_utc_text(secs, nanos, clock_pattern()) is None {
        None
    } else if secs - HOURS_BEHIND_UTC * SECS_PER_HOUR < i64::MIN {
        None
    } else {
        chrono_utc_text((secs - HOURS_BEHIND_UTC * SECS_PER_HOUR) as i64, nanos, clock_pattern())
    }
}

/// Wherever chrono renders both the instant and the instant three hours earlier,
/// the local text is chrono's rendering of the instant three hours earlier.
pub proof fn lemma_local_time_is_utc_three_hours_earlier(secs: i64, nanos: u32)
    requires
        secs >= i64::MIN + 10800,
        chrono_utc_text(secs, nanos, clock_pattern()) is Some,
    ensures
        local_time_spec(secs, nanos) == chrono_utc_text((secs - 10800) as i64, nanos, clock_pattern()),
{
}

/// The local wall-clock text for the instant `secs` seconds and `nanos` nanoseconds
/// after the Unix epoch (a wall-clock reading, so never inside a leap second), as
/// printed at the start of each watering cycle: the calendar reading of the instant
/// three hours earlier. `None` where the instant, or the instant shifted to local
/// time, lies outside the range of dates that chrono represents.
pub fn local_time_text(secs: i64, nanos: u32) -> (text: Option<String>)
    requires
        nanos < 1_000_000_000,
    ensures
        match text {
            Some(t) => local_time_spec(secs, nanos) == Some(t@),
            None => local_time_spec(secs, nanos) is None,
        },
        chrono_utc_text(secs, nanos, clock_pattern()) is Some && secs >= i64::MIN + 10800
            ==> (match text {
                Some(t) => chrono_utc_text((secs - 10800) as i64, nanos, clock_pattern()) == Some(t@),
                None => chrono_utc_text((secs - 10800) as i64, nanos, clock_pattern()) is None,
            }),
        10800 <= secs < YEAR_10000_SECS ==> (text matches Some(t) && t@ == civil_clock_text(
            secs - 10800,
        )),
{
    let pattern = "%d/%m/%Y %H:%M:%S";
    proof {
        reveal_strlit("%d/%m/%Y %H:%M:%S");
        assert(pattern@ =~= clock_pattern());
    }
    if utc_text(secs, nanos, pattern).is_none() {
        return None;
    }
    let offset: i64 = HOURS_BEHIND_UTC * SECS_PER_HOUR;
    match secs.checked_sub(offset) {
        Some(local) => utc_text(local, nanos, pattern),
        None => None,
    }
}

} // verus!
