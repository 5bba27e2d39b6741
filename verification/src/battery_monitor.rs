use vstd::prelude::*;
use crate::awake::activation_outcome;
use crate::cancel::with_stopped;
use crate::state::{timer_token, AppState, AwakeMode};

verus! {

/// What to do when the battery runs low during a session.
#[derive(Debug, Clone, Copy, PartialEq, Eq, Structural)]
pub enum BatteryAction {
    Deactivate,
    SwitchToSystemOnly,
}

/// What a battery check leads to.
#[derive(Debug, Clone, Copy, PartialEq, Eq, Structural)]
pub enum BatteryResponse {
    Nothing,
    Deactivate,
    SwitchToSystemOnly,
}

/// The battery level is only read while a mode other than `Off` is in force.
pub fn needs_battery_check(mode: AwakeMode) -> (r: bool)
    ensures
        r == (mode != AwakeMode::Off),
{
    mode != AwakeMode::Off
}

/// The response to a battery reading: nothing while off or above the threshold (or with no
/// battery); below it, the configured action, except that switching to system-only is
/// skipped when already there.
pub open spec fn battery_response_spec(mode: AwakeMode, below_threshold: Option<bool>, action: BatteryAction) -> BatteryResponse {
    if mode == AwakeMode::Off || below_threshold != Some(true) {
        BatteryResponse::Nothing
    } else {
        match action {
            BatteryAction::Deactivate => BatteryResponse::Deactivate,
            BatteryAction::SwitchToSystemOnly => if mode != AwakeMode::SystemOnly {
                BatteryResponse::SwitchToSystemOnly
            } else {
                BatteryResponse::Nothing
            },
        }
    }
}

/// Decides what a battery reading leads to. `below_threshold` is `None` when the machine
/// has no battery.
pub fn battery_response(mode: AwakeMode, below_threshold: Option<bool>, action: BatteryAction) -> (r: BatteryResponse)
    ensures
        r == battery_response_spec(mode, below_threshold, action),
{
    if mode == AwakeMode::Off {
        return BatteryResponse::Nothing;
    }
    match below_threshold {
        Some(true) => match action {
            BatteryAction::Deactivate => BatteryResponse::Deactivate,
            BatteryAction::SwitchToSystemOnly => {
                if mode != AwakeMode::SystemOnly {
                    BatteryResponse::SwitchToSystemOnly
                } else {
                    BatteryResponse::Nothing
                }
            },
        },
        _ => BatteryResponse::Nothing,
    }
}

/// Applies one battery reading to the session and says whether the tray must be
/// refreshed: on `Deactivate` the session ends; on `SwitchToSystemOnly` the system-only
/// mode is requested (see [`crate::awake::activate`]).
pub fn battery_step(state: &mut AppState, below_threshold: Option<bool>, action: BatteryAction) -> (refresh: bool)
    ensures
        refresh == (battery_response_spec(old(state).awake_mode, below_threshold, action)
            != BatteryResponse::Nothing),
        !refresh ==> *final(state) == *old(state),
        battery_response_spec(old(state).awake_mode, below_threshold, action) == BatteryResponse::Deactivate
            ==> final(state).awake_mode == AwakeMode::Off && final(state).awake_guard is None
            && final(state).timer is None
            && final(state).cancelled@ == with_stopped(old(state).cancelled@, timer_token(*old(state))),
        battery_response_spec(old(state).awake_mode, below_threshold, action)
            == BatteryResponse::SwitchToSystemOnly ==> activation_outcome(*old(state), *final(state), AwakeMode::SystemOnly)
            && final(state).timer == old(state).timer && final(state).cancelled == old(state).cancelled,
        final(state).simulation == old(state).simulation,
        final(state).drive_alive == old(state).drive_alive,
        old(state).inv() ==> final(state).inv(),
{
    match battery_response(state.awake_mode, below_threshold, action) {
        BatteryResponse::Nothing => false,
        BatteryResponse::Deactivate => {
            let _ = crate::awake::deactivate(state);
            true
        },
        BatteryResponse::SwitchToSystemOnly => {
            let _ = crate::awake::activate(state, AwakeMode::SystemOnly);
            true
        },
    }
}

} // verus!
