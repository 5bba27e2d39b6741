use vstd::prelude::*;
use crate::awake::activation_outcome;
use crate::cancel::with_stopped;
use crate::state::{timer_token, AppState, AwakeMode, TimerPreset};
use crate::text::{has_substring, str_contains};

verus! {

/// A running process monitor and the token that stops it.
pub struct ProcessMonitorHandle {
    pub cancel: tokio_util::sync::CancellationToken,
}

/// The lower-case form of a text, as `str::to_lowercase` computes it (Unicode rules,
/// independent of locale).
pub uninterp spec fn lowercase(s: Seq<char>) -> Seq<char>;

/// The lower-case form of a string (`str::to_lowercase`).
#[verifier::external_body]
fn to_lowercase(s: &str) -> (r: String)
    ensures
        r@ == lowercase(s@),
{
    s.to_lowercase()
}

/// Whether a process name matches a watched name: the lower-cased watched name occurs
/// in the lower-cased process name.
pub open spec fn name_matches(name: Seq<char>, watched: Seq<char>) -> bool {
    has_substring(lowercase(name), lowercase(watched))
}

/// Whether any running process matches any watched name.
pub open spec fn any_process_matches(names: Seq<String>, watched: Seq<String>) -> bool {
    exists|i: int, j: int|
        0 <= i < names.len() && 0 <= j < watched.len() && #[trigger] name_matches(names[i]@, watched[j]@)
}

/// Whether any of the running processes `names` matches any of `watched`.
pub fn processes_match(names: &Vec<String>, watched: &Vec<String>) -> (r: bool)
    ensures
        r == any_process_matches(names@, watched@),
{
    let mut watched_lower: Vec<String> = Vec::new();
    let mut j: usize = 0;
    while j < watched.len()
        invariant
            j <= watched.len(),
            watched_lower@.len() == j,
            forall|k: int| 0 <= k < j ==> #[trigger] watched_lower@[k]@ == lowercase(watched@[k]@),
        decreases watched.len() - j,
    {
        watched_lower.push(to_lowercase(watched[j].as_str()));
        j = j + 1;
    }
    let mut i: usize = 0;
    while i < names.len()
        invariant
            i <= names.len(),
            watched_lower@.len() == watched@.len(),
            forall|k: int| 0 <= k < watched@.len() ==> #[trigger] watched_lower@[k]@ == lowercase(watched@[k]@),
            forall|a: int, b: int|
                0 <= a < i && 0 <= b < watched@.len() ==> !#[trigger] name_matches(names@[a]@, watched@[b]@),
        decreases names.len() - i,
    {
        let name = to_lowercase(names[i].as_str());
        let mut k: usize = 0;
        while k < watched_lower.len()
            invariant
                i < names.len(),
                k <= watched_lower@.len(),
                watched_lower@.len() == watched@.len(),
                name@ == lowercase(names@[i as int]@),
                forall|q: int| 0 <= q < watched@.len() ==> #[trigger] watched_lower@[q]@ == lowercase(watched@[q]@),
                forall|b: int| 0 <= b < k ==> !#[trigger] name_matches(names@[i as int]@, watched@[b]@),
            decreases watched_lower.len() - k,
        {
            if str_contains(name.as_str(), watched_lower[k].as_str()) {
                assert(name_matches(names@[i as int]@, watched@[k as int]@));
                return true;
            }
            k = k + 1;
        }
        i = i + 1;
    }
    false
}

/// What one round of the process monitor did.
pub struct ProcessStep {
    /// The tray must be refreshed.
    pub refresh: bool,
    /// The session is one the monitor started itself.
    pub auto_activated: bool,
}

/// One round of the process monitor. When a watched process runs and the mode is `Off`,
/// a display-and-system session with no time limit is started and remembered as started
/// by the monitor. When none runs and the monitor had started the session (and it is still
/// on), the session ends. Otherwise nothing changes; a session the user started is never
/// ended here.
pub fn process_step(state: &mut AppState, any_match: bool, auto_activated: bool) -> (r: ProcessStep)
    ensures
        any_match && old(state).awake_mode == AwakeMode::Off ==> r.refresh && r.auto_activated
            && (final(state).timer matches Some(t) && t.preset == TimerPreset::Indefinite)
            && activation_outcome(*old(state), *final(state), AwakeMode::DisplayAndSystem)
            && final(state).cancelled@ == with_stopped(old(state).cancelled@, timer_token(*old(state)))
            && !final(state).cancelled@.contains(final(state).timer->0.cancel),
        !any_match && auto_activated && old(state).awake_mode != AwakeMode::Off ==> r.refresh
            && !r.auto_activated && final(state).awake_mode == AwakeMode::Off
            && final(state).awake_guard is None && final(state).timer is None
            && final(state).cancelled@ == with_stopped(old(state).cancelled@, timer_token(*old(state))),
        !(any_match && old(state).awake_mode == AwakeMode::Off) && !(!any_match && auto_activated
            && old(state).awake_mode != AwakeMode::Off) ==> !r.refresh && r.auto_activated
            == auto_activated && *final(state) == *old(state),
        final(state).simulation == old(state).simulation,
        final(state).drive_alive == old(state).drive_alive,
        old(state).inv() ==> final(state).inv(),
{
    let mode = state.awake_mode;
    if any_match && mode == AwakeMode::Off {
        let _ = crate::awake::activate(state, AwakeMode::DisplayAndSystem);
        let _ = crate::timer::start_timer(state, TimerPreset::Indefinite);
        ProcessStep { refresh: true, auto_activated: true }
    } else if !any_match && auto_activated && mode != AwakeMode::Off {
        let _ = crate::awake::deactivate(state);
        ProcessStep { refresh: true, auto_activated: false }
    } else {
        ProcessStep { refresh: false, auto_activated }
    }
}

} // verus!
