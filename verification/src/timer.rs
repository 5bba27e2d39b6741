use vstd::prelude::*;
use crate::cancel::with_stopped;
use crate::clock::ClockReadings;
use crate::state::{preset_duration, timer_token, AppState, TimerPreset, TimerState};
use crate::text::{format_hours_minutes, hours_minutes_text};

verus! {

/// A countdown the caller must run: after `secs` seconds, unless `cancel` fires first,
/// the session ends.
pub struct TimerSchedule {
    pub secs: u64,
    pub cancel: tokio_util::sync::CancellationToken,
}

/// Seconds left of a session of `total` seconds after `elapsed` seconds.
pub open spec fn remaining_of(total: u64, elapsed: u64) -> u64 {
    if elapsed >= total {
        0
    } else {
        (total - elapsed) as u64
    }
}

/// The time left and the time elapsed make up the whole session until it runs out; after
/// that nothing is left. The time left never exceeds the session's length and never grows
/// as time passes.
pub proof fn lemma_remaining_counts_down(total: u64, e1: u64, e2: u64)
    requires
        e1 <= e2,
    ensures
        remaining_of(total, e1) <= total,
        e1 <= total ==> remaining_of(total, e1) + e1 == total,
        e1 >= total ==> remaining_of(total, e1) == 0,
        remaining_of(total, e2) <= remaining_of(total, e1),
{
}

/// Starts the session timer for `preset`, replacing (and cancelling) any timer already
/// running. The new timer has a fresh token, not among those cancelled. For a timed preset
/// the countdown to run is returned, on the new timer's token; an indefinite session needs
/// none.
pub fn start_timer(state: &mut AppState, preset: TimerPreset) -> (r: Option<TimerSchedule>)
    ensures
        final(state).timer matches Some(t) && t.preset == preset,
        r is Some <==> preset_duration(preset) is Some,
        r matches Some(s) ==> s.secs == preset_duration(preset)->0 && s.cancel == final(state).timer->0.cancel,
        !final(state).cancelled@.contains(final(state).timer->0.cancel),
        final(state).cancelled@ == with_stopped(old(state).cancelled@, timer_token(*old(state))),
        final(state).awake_mode == old(state).awake_mode,
        final(state).awake_guard == old(state).awake_guard,
        final(state).simulation == old(state).simulation,
        final(state).drive_alive == old(state).drive_alive,
{
    if let Some(t) = state.timer.take() {
        crate::cancel::cancel(&t.cancel, &mut state.cancelled);
    }
    let cancel = crate::cancel::new_token(&state.cancelled);
    let schedule = match preset.duration_secs() {
        Some(secs) => Some(TimerSchedule { secs, cancel: crate::cancel::share_token(&cancel) }),
        None => None,
    };
    state.timer = Some(TimerState { preset, started_at: crate::clock::now(), cancel });
    schedule
}

/// Stops the running timer, if any, and cancels its token.
pub fn cancel_timer(state: &mut AppState) -> (r: Result<(), String>)
    ensures
        r is Ok,
        final(state).timer is None,
        final(state).cancelled@ == with_stopped(old(state).cancelled@, timer_token(*old(state))),
        final(state).awake_mode == old(state).awake_mode,
        final(state).awake_guard == old(state).awake_guard,
        final(state).simulation == old(state).simulation,
        final(state).drive_alive == old(state).drive_alive,
{
    if let Some(t) = state.timer.take() {
        crate::cancel::cancel(&t.cancel, &mut state.cancelled);
    }
    Ok(())
}

/// Seconds left of a `preset` session after `elapsed` seconds: `None` for an indefinite
/// session, zero once the time is up.
pub fn remaining_after(preset: TimerPreset, elapsed: u64) -> (r: Option<u64>)
    ensures
        r == (match preset_duration(preset) {
            Some(total) => Some(remaining_of(total, elapsed)),
            None => None::<u64>,
        }),
{
    let total = match preset.duration_secs() {
        Some(t) => t,
        None => return None,
    };
    if elapsed >= total {
        Some(0)
    } else {
        Some(total - elapsed)
    }
}

/// Seconds left of the running timed session, read against the clock; `None` when no timer
/// runs or the session is indefinite. For a timed session the elapsed seconds since the
/// timer started are read once and appended to `readings`, and the result is the preset's
/// length less that reading (zero once it is used up); otherwise nothing is read.
pub fn remaining_secs_recorded(state: &AppState, readings: &mut ClockReadings) -> (r: Option<u64>)
    ensures
        state.timer matches Some(t) ==> (preset_duration(t.preset) matches Some(total) ==> {
            &&& final(readings)@.len() == old(readings)@.len() + 1
            &&& final(readings)@ == old(readings)@.push(final(readings)@.last())
            &&& r == Some(remaining_of(total, final(readings)@.last()))
        }),
        !(state.timer matches Some(t) && preset_duration(t.preset) is Some) ==> r is None
            && final(readings)@ == old(readings)@,
{
    match &state.timer {
        None => None,
        Some(t) => {
            if t.preset.duration_secs().is_none() {
                return None;
            }
            let elapsed = crate::clock::elapsed_secs(&t.started_at, readings);
            remaining_after(t.preset, elapsed)
        },
    }
}

/// Seconds left of the running timed session, read against the clock; `None` when no timer
/// runs or the session is indefinite. The value is the preset's length less some clock
/// reading, so it never exceeds the preset's length.
pub fn remaining_secs(state: &AppState) -> (r: Option<u64>)
    ensures
        r is Some <==> (state.timer matches Some(t) && preset_duration(t.preset) is Some),
        r matches Some(x) ==> x <= preset_duration(state.timer->0.preset)->0,
        r matches Some(x) ==> exists|e: u64| x == #[trigger] remaining_of(preset_duration(state.timer->0.preset)->0, e),
{
    let mut readings = ClockReadings::new();
    let r = remaining_secs_recorded(state, &mut readings);
    proof {
        if r is Some {
            let e = readings@.last();
            assert(r->0 == remaining_of(preset_duration(state.timer->0.preset)->0, e));
        }
    }
    r
}

/// Renders remaining seconds as `"{h}h {m}m"`, or `"{m}m"` under an hour.
pub fn format_remaining(secs: u64) -> (r: String)
    ensures
        r@ == hours_minutes_text(secs as nat),
{
    format_hours_minutes(secs)
}

} // verus!
