use vstd::prelude::*;

verus! {

/// A user-defined simulation profile.
#[derive(Debug, Clone, PartialEq, Eq)]
pub struct CustomProfile {
    pub name: String,
    pub mouse_movement: bool,
    pub keyboard_input: bool,
    pub interval_min_ms: u64,
    pub interval_max_ms: u64,
}

/// What kind of activity is simulated, and how often.
#[derive(Debug, Clone, PartialEq, Eq)]
pub enum SimProfile {
    Slack,
    Teams,
    Zoom,
    Custom(CustomProfile),
}

/// The name of a profile.
pub open spec fn profile_label(p: SimProfile) -> Seq<char> {
    match p {
        SimProfile::Slack => "Slack"@,
        SimProfile::Teams => "Teams"@,
        SimProfile::Zoom => "Zoom"@,
        SimProfile::Custom(c) => c.name@,
    }
}

/// Whether a profile moves the mouse.
pub open spec fn profile_mouse(p: SimProfile) -> bool {
    match p {
        SimProfile::Custom(c) => c.mouse_movement,
        _ => true,
    }
}

/// Whether a profile presses a key.
pub open spec fn profile_keyboard(p: SimProfile) -> bool {
    match p {
        SimProfile::Teams => true,
        SimProfile::Custom(c) => c.keyboard_input,
        _ => false,
    }
}

/// The bounds, in milliseconds, of the pause between two actions.
pub open spec fn profile_interval(p: SimProfile) -> (u64, u64) {
    match p {
        SimProfile::Slack => (60_000, 120_000),
        SimProfile::Teams => (45_000, 90_000),
        SimProfile::Zoom => (30_000, 60_000),
        SimProfile::Custom(c) => (c.interval_min_ms, c.interval_max_ms),
    }
}

impl SimProfile {
    /// The profile's name.
    pub fn label(&self) -> (r: &str)
        ensures
            r@ == profile_label(*self),
    {
        match self {
            SimProfile::Slack => "Slack",
            SimProfile::Teams => "Teams",
            SimProfile::Zoom => "Zoom",
            SimProfile::Custom(p) => p.name.as_str(),
        }
    }

    /// Whether the profile moves the mouse.
    pub fn mouse_movement(&self) -> (r: bool)
        ensures
            r == profile_mouse(*self),
    {
        match self {
            SimProfile::Slack => true,
            SimProfile::Teams => true,
            SimProfile::Zoom => true,
            SimProfile::Custom(p) => p.mouse_movement,
        }
    }

    /// Whether the profile presses a key.
    pub fn keyboard_input(&self) -> (r: bool)
        ensures
            r == profile_keyboard(*self),
    {
        match self {
            SimProfile::Slack => false,
            SimProfile::Teams => true,
            SimProfile::Zoom => false,
            SimProfile::Custom(p) => p.keyboard_input,
        }
    }

    /// Returns `(min_ms, max_ms)`, the bounds of the pause between actions.
    pub fn interval_range(&self) -> (r: (u64, u64))
        ensures
            r == profile_interval(*self),
    {
        match self {
            SimProfile::Slack => (60_000, 120_000),
            SimProfile::Teams => (45_000, 90_000),
            SimProfile::Zoom => (30_000, 60_000),
            SimProfile::Custom(p) => (p.interval_min_ms, p.interval_max_ms),
        }
    }

    /// A copy of the profile.
    pub fn duplicate(&self) -> (r: SimProfile)
        ensures
            r == *self,
    {
        match self {
            SimProfile::Slack => SimProfile::Slack,
            SimProfile::Teams => SimProfile::Teams,
            SimProfile::Zoom => SimProfile::Zoom,
            SimProfile::Custom(p) => SimProfile::Custom(CustomProfile {
                name: p.name.clone(),
                mouse_movement: p.mouse_movement,
                keyboard_input: p.keyboard_input,
                interval_min_ms: p.interval_min_ms,
                interval_max_ms: p.interval_max_ms,
            }),
        }
    }

    /// The profiles that come with the application: Slack, Teams, Zoom.
    pub fn builtin_profiles() -> (r: Vec<SimProfile>)
        ensures
            r@ == seq![SimProfile::Slack, SimProfile::Teams, SimProfile::Zoom],
    {
        let mut v = Vec::new();
        v.push(SimProfile::Slack);
        v.push(SimProfile::Teams);
        v.push(SimProfile::Zoom);
        v
    }
}

} // verus!
