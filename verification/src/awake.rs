use vstd::prelude::*;
use crate::cancel::with_stopped;
use crate::state::{timer_token, AppState, AwakeMode};

verus! {

#[verifier::external_type_specification]
#[verifier::external_body]
pub struct ExKeepAwake(keepawake::KeepAwake);

#[verifier::external_type_specification]
#[verifier::external_body]
pub struct ExKeepAwakeError(keepawake::Error);

/// What is asked of the operating system to keep the computer awake.
pub struct KeepAwakeRequest {
    /// Keep the display on too.
    pub display: bool,
    /// Prevent sleeping when idle.
    pub idle: bool,
    /// Prevent system sleep.
    pub sleep: bool,
    pub reason: String,
    pub app_name: String,
    pub app_reverse_domain: String,
}

/// What a keep-awake request asks of the operating system.
pub struct KeepAwakeOptions {
    pub display: bool,
    pub idle: bool,
    pub sleep: bool,
    pub reason: Seq<char>,
    pub app_name: Seq<char>,
    pub app_reverse_domain: Seq<char>,
}

impl View for KeepAwakeRequest {
    type V = KeepAwakeOptions;

    open spec fn view(&self) -> KeepAwakeOptions {
        KeepAwakeOptions {
            display: self.display,
            idle: self.idle,
            sleep: self.sleep,
            reason: self.reason@,
            app_name: self.app_name@,
            app_reverse_domain: self.app_reverse_domain@,
        }
    }
}

/// A held keep-awake guard, with what it was requested with. Keep-awake lasts until it is
/// dropped. Only [`create_keep_awake`] makes one.
pub struct AwakeGuard {
    guard: keepawake::KeepAwake,
    options: Ghost<KeepAwakeOptions>,
}

impl AwakeGuard {
    /// What the guard was requested with.
    pub closed spec fn options(&self) -> KeepAwakeOptions {
        self.options@
    }
}

/// What is asked for a mode: the display is kept on only in `DisplayAndSystem`; idle and
/// system sleep are always prevented; the reason depends on the mode; the application is
/// named "Vyv" (`com.vyv.app`).
pub open spec fn options_for(mode: AwakeMode) -> KeepAwakeOptions {
    KeepAwakeOptions {
        display: mode == AwakeMode::DisplayAndSystem,
        idle: true,
        sleep: true,
        reason: awake_reason(mode),
        app_name: "Vyv"@,
        app_reverse_domain: "com.vyv.app"@,
    }
}

/// The reason given to the operating system for a mode.
pub open spec fn awake_reason(mode: AwakeMode) -> Seq<char> {
    if mode == AwakeMode::DisplayAndSystem {
        "Vyv is keeping your computer awake"@
    } else {
        "Vyv is keeping your system awake (display may sleep)"@
    }
}

/// Prefix of the error returned when the operating system refuses.
pub open spec fn activation_error_prefix() -> Seq<char> {
    "Failed to activate keepawake: "@
}

/// The request made for an active mode: the display is kept on only in
/// `DisplayAndSystem`; idle and system sleep are always prevented.
pub fn keep_awake_request(mode: AwakeMode) -> (r: KeepAwakeRequest)
    requires
        mode != AwakeMode::Off,
    ensures
        r.display == (mode == AwakeMode::DisplayAndSystem),
        r.idle,
        r.sleep,
        r.reason@ == awake_reason(mode),
        r.app_name@ == "Vyv"@,
        r.app_reverse_domain@ == "com.vyv.app"@,
        r@ == options_for(mode),
{
    let display = match mode {
        AwakeMode::DisplayAndSystem => true,
        _ => false,
    };
    let reason = if display {
        String::from_str("Vyv is keeping your computer awake")
    } else {
        String::from_str("Vyv is keeping your system awake (display may sleep)")
    };
    KeepAwakeRequest {
        display,
        idle: true,
        sleep: true,
        reason,
        app_name: String::from_str("Vyv"),
        app_reverse_domain: String::from_str("com.vyv.app"),
    }
}

/// Asks the operating system to keep the computer awake: configures a
/// `keepawake::Builder` with the request's options and calls `Builder::create`. Whether it
/// succeeds depends on the system (D-Bus, IOKit, ...), so success is not claimed; a guard
/// it returns was requested with exactly these options (keepawake keeps them in the guard).
#[verifier::external_body]
fn create_keep_awake(request: &KeepAwakeRequest) -> (r: Result<AwakeGuard, keepawake::Error>)
    ensures
        r matches Ok(g) ==> g.options() == request@,
{
    match keepawake::Builder::default()
        .display(request.display)
        .idle(request.idle)
        .sleep(request.sleep)
        .reason(request.reason.as_str())
        .app_name(request.app_name.as_str())
        .app_reverse_domain(request.app_reverse_domain.as_str())
        .create()
    {
        Ok(guard) => Ok(AwakeGuard { guard, options: Ghost(request@) }),
        Err(e) => Err(e),
    }
}

/// The message of a keepawake error (its `Display`). The error is opaque here, so nothing
/// is claimed of the text.
#[verifier::external_body]
fn keep_awake_error_text(e: &keepawake::Error) -> (r: String) {
    e.to_string()
}

/// Records the outcome of a keep-awake request for `mode`: on success the guard is held
/// and `mode` is in force; on failure the previous mode stays, no guard is held, and the
/// error carries the system's message.
pub fn finish_activation(
    state: &mut AppState,
    mode: AwakeMode,
    created: Result<AwakeGuard, String>,
) -> (r: Result<(), String>)
    requires
        mode != AwakeMode::Off,
        old(state).awake_guard is None,
    ensures
        r is Ok <==> created is Ok,
        created is Ok ==> final(state).awake_guard == Some(created->Ok_0)
            && final(state).awake_mode == mode,
        created is Err ==> final(state).awake_guard is None
            && final(state).awake_mode == old(state).awake_mode
            && (r matches Err(e) && e@ == activation_error_prefix() + created->Err_0@),
        final(state).timer == old(state).timer,
        final(state).simulation == old(state).simulation,
        final(state).drive_alive == old(state).drive_alive,
        final(state).cancelled == old(state).cancelled,
        (created matches Ok(g) ==> g.options() == options_for(mode)) ==> final(state).inv(),
{
    match created {
        Ok(guard) => {
            state.awake_guard = Some(guard);
            state.awake_mode = mode;
            Ok(())
        },
        Err(msg) => {
            let mut text = String::from_str("Failed to activate keepawake: ");
            text.append(msg.as_str());
            Err(text)
        },
    }
}

/// `after` is `before` after asking for `mode`: with a guard held the mode is `mode` and
/// the guard was requested with the options for `mode`; otherwise the mode is what it was.
pub open spec fn activation_outcome(before: AppState, after: AppState, mode: AwakeMode) -> bool {
    &&& after.awake_guard matches Some(g) ==> after.awake_mode == mode && g.options() == options_for(mode)
    &&& after.awake_guard is None ==> after.awake_mode == before.awake_mode
}

/// Switches to `mode`. Any guard already held is released first. `Off` always succeeds;
/// another mode asks the operating system for [`options_for`] `mode` (see
/// [`keep_awake_request`]) and succeeds exactly when it grants the request, in which case
/// `mode` is in force with a guard held that was requested with those options; when it
/// refuses, no guard is held, the previous mode stays and the error says why.
pub fn activate(state: &mut AppState, mode: AwakeMode) -> (r: Result<(), String>)
    ensures
        mode == AwakeMode::Off ==> r is Ok && final(state).awake_mode == AwakeMode::Off,
        mode != AwakeMode::Off ==> (r is Ok <==> final(state).awake_guard is Some),
        r is Ok ==> final(state).awake_mode == mode,
        r is Err ==> final(state).awake_mode == old(state).awake_mode,
        mode != AwakeMode::Off ==> activation_outcome(*old(state), *final(state), mode),
        r matches Err(e) ==> activation_error_prefix().is_prefix_of(e@),
        mode == AwakeMode::Off || r is Err ==> final(state).awake_guard is None,
        final(state).timer == old(state).timer,
        final(state).simulation == old(state).simulation,
        final(state).drive_alive == old(state).drive_alive,
        final(state).cancelled == old(state).cancelled,
        final(state).inv(),
{
    state.awake_guard = None;
    match mode {
        AwakeMode::Off => {
            state.awake_mode = AwakeMode::Off;
            Ok(())
        },
        _ => {
            let request = keep_awake_request(mode);
            let created = match create_keep_awake(&request) {
                Ok(guard) => Ok(guard),
                Err(e) => Err(keep_awake_error_text(&e)),
            };
            let r = finish_activation(state, mode, created);
            proof {
                if r is Err {
                    let e = r->Err_0;
                    assert(activation_error_prefix().is_prefix_of(e@)) by {
                        assert(e@.subrange(0, activation_error_prefix().len() as int)
                            =~= activation_error_prefix());
                    }
                }
            }
            r
        },
    }
}

/// Ends keep-awake: the guard is released, the mode becomes `Off`, and a running timer is
/// stopped and its token cancelled.
pub fn deactivate(state: &mut AppState) -> (r: Result<(), String>)
    ensures
        r is Ok,
        final(state).awake_guard is None,
        final(state).awake_mode == AwakeMode::Off,
        final(state).timer is None,
        final(state).simulation == old(state).simulation,
        final(state).drive_alive == old(state).drive_alive,
        final(state).cancelled@ == with_stopped(old(state).cancelled@, timer_token(*old(state))),
        final(state).inv(),
{
    state.awake_guard = None;
    state.awake_mode = AwakeMode::Off;
    if let Some(t) = state.timer.take() {
        crate::cancel::cancel(&t.cancel, &mut state.cancelled);
    }
    Ok(())
}

} // verus!
