use vstd::prelude::*;

verus! {

/// How the computer is kept awake.
#[derive(Debug, Clone, Copy, PartialEq, Eq, Structural)]
pub enum AwakeMode {
    Off,
    SystemOnly,
    DisplayAndSystem,
}

/// Text shown for a mode.
pub open spec fn awake_mode_text(mode: AwakeMode) -> Seq<char> {
    match mode {
        AwakeMode::Off => "Off"@,
        AwakeMode::SystemOnly => "System Only"@,
        AwakeMode::DisplayAndSystem => "Display + System"@,
    }
}

impl AwakeMode {
    /// The human-readable name of the mode.
    pub fn to_string(&self) -> (r: String)
        ensures
            r@ == awake_mode_text(*self),
    {
        match self {
            AwakeMode::Off => String::from_str("Off"),
            AwakeMode::SystemOnly => String::from_str("System Only"),
            AwakeMode::DisplayAndSystem => String::from_str("Display + System"),
        }
    }
}

/// Length of a keep-awake session.
#[derive(Debug, Clone, Copy, PartialEq, Eq, Structural)]
pub enum TimerPreset {
    Min5,
    Min10,
    Min15,
    Min30,
    Min45,
    Hour1,
    Hour2,
    Hour4,
    Hour8,
    Indefinite,
}

/// The label of a preset.
pub open spec fn timer_preset_label(p: TimerPreset) -> Seq<char> {
    match p {
        TimerPreset::Min5 => "5 minutes"@,
        TimerPreset::Min10 => "10 minutes"@,
        TimerPreset::Min15 => "15 minutes"@,
        TimerPreset::Min30 => "30 minutes"@,
        TimerPreset::Min45 => "45 minutes"@,
        TimerPreset::Hour1 => "1 hour"@,
        TimerPreset::Hour2 => "2 hours"@,
        TimerPreset::Hour4 => "4 hours"@,
        TimerPreset::Hour8 => "8 hours"@,
        TimerPreset::Indefinite => "Indefinite"@,
    }
}

/// Length of a preset in seconds; `None` for an open-ended session.
pub open spec fn preset_duration(p: TimerPreset) -> Option<u64> {
    match p {
        TimerPreset::Min5 => Some(300),
        TimerPreset::Min10 => Some(600),
        TimerPreset::Min15 => Some(900),
        TimerPreset::Min30 => Some(1800),
        TimerPreset::Min45 => Some(2700),
        TimerPreset::Hour1 => Some(3600),
        TimerPreset::Hour2 => Some(7200),
        TimerPreset::Hour4 => Some(14400),
        TimerPreset::Hour8 => Some(28800),
        TimerPreset::Indefinite => None,
    }
}

impl TimerPreset {
    /// The label shown for the preset.
    pub fn label(&self) -> (r: &'static str)
        ensures
            r@ == timer_preset_label(*self),
    {
        match self {
            TimerPreset::Min5 => "5 minutes",
            TimerPreset::Min10 => "10 minutes",
            TimerPreset::Min15 => "15 minutes",
            TimerPreset::Min30 => "30 minutes",
            TimerPreset::Min45 => "45 minutes",
            TimerPreset::Hour1 => "1 hour",
            TimerPreset::Hour2 => "2 hours",
            TimerPreset::Hour4 => "4 hours",
            TimerPreset::Hour8 => "8 hours",
            TimerPreset::Indefinite => "Indefinite",
        }
    }

    /// Length of the session in seconds, `None` when it runs until stopped.
    pub fn duration_secs(&self) -> (r: Option<u64>)
        ensures
            r == preset_duration(*self),
    {
        match self {
            TimerPreset::Min5 => Some(5 * 60),
            TimerPreset::Min10 => Some(10 * 60),
            TimerPreset::Min15 => Some(15 * 60),
            TimerPreset::Min30 => Some(30 * 60),
            TimerPreset::Min45 => Some(45 * 60),
            TimerPreset::Hour1 => Some(60 * 60),
            TimerPreset::Hour2 => Some(2 * 60 * 60),
            TimerPreset::Hour4 => Some(4 * 60 * 60),
            TimerPreset::Hour8 => Some(8 * 60 * 60),
            TimerPreset::Indefinite => None,
        }
    }
}

/// A running session timer.
pub struct TimerState {
    pub preset: TimerPreset,
    pub started_at: std::time::Instant,
    pub cancel: tokio_util::sync::CancellationToken,
}

/// A running input simulation.
pub struct SimulationState {
    pub cancel: tokio_util::sync::CancellationToken,
    pub profile_name: String,
}

/// Drives being kept spinning.
pub struct DriveAliveState {
    pub cancel: tokio_util::sync::CancellationToken,
    pub drives: Vec<String>,
}

/// Everything the application tracks about the current session.
pub struct AppState {
    /// The active or preferred mode.
    pub awake_mode: AwakeMode,
    pub timer: Option<TimerState>,
    /// Held while the system is being kept awake.
    pub awake_guard: Option<crate::awake::AwakeGuard>,
    pub simulation: Option<SimulationState>,
    pub drive_alive: Option<DriveAliveState>,
    /// The tokens of the background tasks stopped so far.
    pub cancelled: crate::cancel::CancelLog,
}

/// The token of the running timer, if any.
pub open spec fn timer_token(s: AppState) -> Option<tokio_util::sync::CancellationToken> {
    match s.timer {
        Some(t) => Some(t.cancel),
        None => None,
    }
}

/// The token of the running simulation, if any.
pub open spec fn simulation_token(s: AppState) -> Option<tokio_util::sync::CancellationToken> {
    match s.simulation {
        Some(t) => Some(t.cancel),
        None => None,
    }
}

/// The token of the running drive task, if any.
pub open spec fn drive_token(s: AppState) -> Option<tokio_util::sync::CancellationToken> {
    match s.drive_alive {
        Some(t) => Some(t.cancel),
        None => None,
    }
}

impl AppState {
    /// A keep-awake guard is only held while a mode other than `Off` is in force, and it
    /// was requested with the options for that mode.
    pub open spec fn inv(&self) -> bool {
        self.awake_guard matches Some(g) ==> self.awake_mode != AwakeMode::Off && g.options()
            == crate::awake::options_for(self.awake_mode)
    }

    /// A session is active exactly while the keep-awake guard is held.
    pub open spec fn is_active(&self) -> bool {
        self.awake_guard is Some
    }

    /// The initial state: off, nothing running.
    pub fn new() -> (s: Self)
        ensures
            s.awake_mode == AwakeMode::Off,
            s.timer is None,
            s.awake_guard is None,
            s.simulation is None,
            s.drive_alive is None,
            s.cancelled@ == Set::<tokio_util::sync::CancellationToken>::empty(),
            s.inv(),
    {
        AppState {
            awake_mode: AwakeMode::Off,
            timer: None,
            awake_guard: None,
            simulation: None,
            drive_alive: None,
            cancelled: crate::cancel::CancelLog::new(),
        }
    }
}

} // verus!
