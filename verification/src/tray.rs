use vstd::prelude::*;
use crate::awake::activation_outcome;
use crate::state::{awake_mode_text, AppState, AwakeMode};
use crate::stats::{contains_text, dosage_name, dosage_rank, StatsTracker};
use crate::state::{drive_token, preset_duration, simulation_token, timer_token, DriveAliveState, SimulationState, TimerPreset};
use crate::cancel::with_stopped;
use crate::profiles::{profile_label, SimProfile};
use crate::simulation::SimulationHandle;
use crate::stats::session_ended;
use crate::timer::TimerSchedule;
use crate::text::{str_eq, str_starts_with};
use crate::text::texts;
use crate::text::{decimal_text, hours_minutes_text, total_time_text};

verus! {

/// The kind of a line of the tray menu. Submenus are written flat: their entries stand
/// between a `SubmenuStart` and the matching `SubmenuEnd`.
#[derive(Debug, Clone, Copy, PartialEq, Eq, Structural)]
pub enum MenuEntryKind {
    Item,
    Check,
    Separator,
    SubmenuStart,
    SubmenuEnd,
}

/// One line of the tray menu.
pub struct MenuEntry {
    pub kind: MenuEntryKind,
    pub id: String,
    pub label: String,
    pub enabled: bool,
    pub checked: bool,
}

/// The content of a [`MenuEntry`].
pub struct MenuEntryView {
    pub kind: MenuEntryKind,
    pub id: Seq<char>,
    pub label: Seq<char>,
    pub enabled: bool,
    pub checked: bool,
}

impl View for MenuEntry {
    type V = MenuEntryView;

    open spec fn view(&self) -> MenuEntryView {
        MenuEntryView {
            kind: self.kind,
            id: self.id@,
            label: self.label@,
            enabled: self.enabled,
            checked: self.checked,
        }
    }
}

/// The contents of a sequence of entries.
pub open spec fn entries_view(v: Seq<MenuEntry>) -> Seq<MenuEntryView> {
    v.map_values(|e: MenuEntry| e@)
}

pub open spec fn item_view(id: Seq<char>, label: Seq<char>, enabled: bool) -> MenuEntryView {
    MenuEntryView { kind: MenuEntryKind::Item, id, label, enabled, checked: false }
}

pub open spec fn check_view(id: Seq<char>, label: Seq<char>, checked: bool) -> MenuEntryView {
    MenuEntryView { kind: MenuEntryKind::Check, id, label, enabled: true, checked }
}

pub open spec fn separator_view() -> MenuEntryView {
    MenuEntryView { kind: MenuEntryKind::Separator, id: Seq::empty(), label: Seq::empty(), enabled: true, checked: false }
}

pub open spec fn submenu_start_view(id: Seq<char>, label: Seq<char>) -> MenuEntryView {
    MenuEntryView { kind: MenuEntryKind::SubmenuStart, id, label, enabled: true, checked: false }
}

pub open spec fn submenu_end_view() -> MenuEntryView {
    MenuEntryView { kind: MenuEntryKind::SubmenuEnd, id: Seq::empty(), label: Seq::empty(), enabled: true, checked: false }
}

fn push_item(v: &mut Vec<MenuEntry>, id: &str, label: &str, enabled: bool)
    ensures
        entries_view(final(v)@) == entries_view(old(v)@).push(item_view(id@, label@, enabled)),
{
    let ghost before = v@;
    v.push(MenuEntry {
        kind: MenuEntryKind::Item,
        id: String::from_str(id),
        label: String::from_str(label),
        enabled,
        checked: false,
    });
    assert(entries_view(v@) =~= entries_view(before).push(item_view(id@, label@, enabled)));
}

fn push_check(v: &mut Vec<MenuEntry>, id: &str, label: &str, checked: bool)
    ensures
        entries_view(final(v)@) == entries_view(old(v)@).push(check_view(id@, label@, checked)),
{
    let ghost before = v@;
    v.push(MenuEntry {
        kind: MenuEntryKind::Check,
        id: String::from_str(id),
        label: String::from_str(label),
        enabled: true,
        checked,
    });
    assert(entries_view(v@) =~= entries_view(before).push(check_view(id@, label@, checked)));
}

fn push_separator(v: &mut Vec<MenuEntry>)
    ensures
        entries_view(final(v)@) == entries_view(old(v)@).push(separator_view()),
{
    let ghost before = v@;
    v.push(MenuEntry {
        kind: MenuEntryKind::Separator,
        id: String::new(),
        label: String::new(),
        enabled: true,
        checked: false,
    });
    assert(entries_view(v@) =~= entries_view(before).push(separator_view()));
}

fn push_submenu_start(v: &mut Vec<MenuEntry>, id: &str, label: &str)
    ensures
        entries_view(final(v)@) == entries_view(old(v)@).push(submenu_start_view(id@, label@)),
{
    let ghost before = v@;
    v.push(MenuEntry {
        kind: MenuEntryKind::SubmenuStart,
        id: String::from_str(id),
        label: String::from_str(label),
        enabled: true,
        checked: false,
    });
    assert(entries_view(v@) =~= entries_view(before).push(submenu_start_view(id@, label@)));
}

fn push_submenu_end(v: &mut Vec<MenuEntry>)
    ensures
        entries_view(final(v)@) == entries_view(old(v)@).push(submenu_end_view()),
{
    let ghost before = v@;
    v.push(MenuEntry {
        kind: MenuEntryKind::SubmenuEnd,
        id: String::new(),
        label: String::new(),
        enabled: true,
        checked: false,
    });
    assert(entries_view(v@) =~= entries_view(before).push(submenu_end_view()));
}

/// The first line of the menu: `"Vyv: {mode} — {time left}"` during a session (the time
/// left is `"Indefinite"` without a limit), `"Vyv: Off"` otherwise.
pub open spec fn status_text_spec(is_active: bool, mode: AwakeMode, remaining: Option<u64>) -> Seq<char> {
    if is_active {
        "Vyv: "@ + awake_mode_text(mode) + " \u{2014} "@ + match remaining {
            Some(secs) => hours_minutes_text(secs as nat),
            None => "Indefinite"@,
        }
    } else {
        "Vyv: Off"@
    }
}

/// During a session the status line names the mode in force: whatever time is left, it
/// begins with `"Vyv: "`, the name of the mode and a dash.
pub proof fn lemma_status_names_mode(mode: AwakeMode, remaining: Option<u64>)
    ensures
        ("Vyv: "@ + awake_mode_text(mode) + " \u{2014} "@).is_prefix_of(status_text_spec(true, mode, remaining)),
{
    let head = "Vyv: "@ + awake_mode_text(mode) + " \u{2014} "@;
    let line = status_text_spec(true, mode, remaining);
    assert(line.subrange(0, head.len() as int) =~= head);
}

/// The status line of the menu. During a session the mode is never `Off`, and the line
/// begins with the name of the mode in force.
pub fn status_text(is_active: bool, mode: AwakeMode, remaining: Option<u64>) -> (r: String)
    requires
        is_active ==> mode != AwakeMode::Off,
    ensures
        r@ == status_text_spec(is_active, mode, remaining),
        is_active ==> ("Vyv: "@ + awake_mode_text(mode) + " \u{2014} "@).is_prefix_of(r@),
{
    proof {
        lemma_status_names_mode(mode, remaining);
    }
    if is_active {
        let mut s = String::from_str("Vyv: ");
        let name = mode.to_string();
        s.append(name.as_str());
        s.append(" \u{2014} ");
        match remaining {
            Some(secs) => {
                let t = crate::timer::format_remaining(secs);
                s.append(t.as_str());
            },
            None => {
                s.append("Indefinite");
            },
        }
        s
    } else {
        String::from_str("Vyv: Off")
    }
}

/// The tray tooltip: `"Vyv — Off"` when off, otherwise the mode and the time left (or
/// `"Indefinite"`) in parentheses.
pub open spec fn tooltip_text_spec(mode: AwakeMode, remaining: Option<u64>) -> Seq<char> {
    if mode == AwakeMode::Off {
        "Vyv \u{2014} Off"@
    } else {
        "Vyv \u{2014} "@ + awake_mode_text(mode) + " ("@ + match remaining {
            Some(secs) => hours_minutes_text(secs as nat),
            None => "Indefinite"@,
        } + ")"@
    }
}

/// Outside `Off` the tooltip names the mode in force: whatever time is left, it begins
/// with `"Vyv — "`, the name of the mode and an opening parenthesis.
pub proof fn lemma_tooltip_names_mode(mode: AwakeMode, remaining: Option<u64>)
    requires
        mode != AwakeMode::Off,
    ensures
        ("Vyv \u{2014} "@ + awake_mode_text(mode) + " ("@).is_prefix_of(tooltip_text_spec(mode, remaining)),
{
    let head = "Vyv \u{2014} "@ + awake_mode_text(mode) + " ("@;
    let line = tooltip_text_spec(mode, remaining);
    assert(line.subrange(0, head.len() as int) =~= head);
}

/// The tray tooltip for a mode and the time left.
pub fn tooltip_text(mode: AwakeMode, remaining: Option<u64>) -> (r: String)
    ensures
        r@ == tooltip_text_spec(mode, remaining),
        mode != AwakeMode::Off ==> ("Vyv \u{2014} "@ + awake_mode_text(mode) + " ("@).is_prefix_of(r@),
{
    proof {
        if mode != AwakeMode::Off {
            lemma_tooltip_names_mode(mode, remaining);
        }
    }
    match mode {
        AwakeMode::Off => String::from_str("Vyv \u{2014} Off"),
        _ => {
            let mut s = String::from_str("Vyv \u{2014} ");
            let name = mode.to_string();
            s.append(name.as_str());
            s.append(" (");
            match remaining {
                Some(secs) => {
                    let t = crate::timer::format_remaining(secs);
                    s.append(t.as_str());
                },
                None => {
                    s.append("Indefinite");
                },
            }
            s.append(")");
            s
        },
    }
}

/// The tray shows the active icon exactly when a mode other than `Off` is in force.
pub fn icon_active(mode: AwakeMode) -> (r: bool)
    ensures
        r == (mode != AwakeMode::Off),
{
    mode != AwakeMode::Off
}

/// The part of the menu that starts or ends a session: "End Session" during a session,
/// otherwise the session lengths to choose from.
pub open spec fn session_section(is_active: bool) -> Seq<MenuEntryView> {
    if is_active {
        seq![item_view("end_session"@, "End Session"@, true)]
    } else {
        seq![
            item_view("start_header"@, "Start New Session:"@, false),
            item_view("timer_indefinite"@, "  Indefinitely"@, true),
            submenu_start_view("minutes_sub"@, "  Minutes"@),
            item_view("timer_min5"@, "5 Minutes"@, true),
            item_view("timer_min10"@, "10 Minutes"@, true),
            item_view("timer_min15"@, "15 Minutes"@, true),
            item_view("timer_min30"@, "30 Minutes"@, true),
            item_view("timer_min45"@, "45 Minutes"@, true),
            submenu_end_view(),
            submenu_start_view("hours_sub"@, "  Hours"@),
            item_view("timer_hour1"@, "1 Hour"@, true),
            item_view("timer_hour2"@, "2 Hours"@, true),
            item_view("timer_hour4"@, "4 Hours"@, true),
            item_view("timer_hour8"@, "8 Hours"@, true),
            submenu_end_view(),
        ]
    }
}

/// The menu id of the entry for a drive.
pub open spec fn drive_entry_id(name: Seq<char>) -> Seq<char> {
    "da_drive_"@ + name
}

/// One checkable entry per available drive, checked when the drive is being kept alive;
/// a disabled notice when there is none.
pub open spec fn drive_entries(available: Seq<Seq<char>>, active: Seq<Seq<char>>) -> Seq<MenuEntryView> {
    if available.len() == 0 {
        seq![item_view("da_none"@, "No external drives found"@, false)]
    } else {
        available.map_values(|name: Seq<char>| check_view(drive_entry_id(name), name, active.contains(name)))
    }
}

/// The settings submenu.
pub open spec fn settings_section(
    keep_display: bool,
    clamshell: bool,
    jiggle: bool,
    available: Seq<Seq<char>>,
    active: Seq<Seq<char>>,
) -> Seq<MenuEntryView> {
    seq![
        submenu_start_view("settings_submenu"@, "Settings"@),
        check_view("qs_keep_display"@, "Keep display awake"@, keep_display),
        check_view("qs_prevent_clamshell"@, "Prevent sleep when lid closed"@, clamshell),
        check_view("qs_jiggle"@, "Jiggle mouse to prevent idle"@, jiggle),
        submenu_start_view("drive_alive_sub"@, "Drive Alive"@),
    ] + drive_entries(available, active) + seq![submenu_end_view(), submenu_end_view()]
}

/// The usage line: `"Total: {total} ({dosage})"`.
pub open spec fn stats_label(total: Seq<char>, dosage: Seq<char>) -> Seq<char> {
    "Total: "@ + total + " ("@ + dosage + ")"@
}

/// What the menu is built from.
pub struct MenuInputs {
    /// A keep-awake guard is held.
    pub is_active: bool,
    pub mode: AwakeMode,
    /// Seconds left of a timed session.
    pub remaining: Option<u64>,
    pub sim_active: bool,
    pub clamshell_enabled: bool,
    /// Drives being kept alive.
    pub active_drives: Vec<String>,
    /// Drives that could be kept alive.
    pub available_drives: Vec<String>,
    pub total_time: String,
    pub dosage: String,
}

/// The whole tray menu, top to bottom.
pub open spec fn menu_spec(m: MenuInputs) -> Seq<MenuEntryView> {
    seq![item_view("status"@, status_text_spec(m.is_active, m.mode, m.remaining), false), separator_view()]
        + session_section(m.is_active) + seq![separator_view()] + settings_section(
        m.mode == AwakeMode::DisplayAndSystem,
        m.clamshell_enabled,
        m.sim_active,
        texts(m.available_drives@),
        texts(m.active_drives@),
    ) + seq![
        separator_view(),
        item_view("stats"@, stats_label(m.total_time@, m.dosage@), false),
        separator_view(),
        item_view("quit"@, "Quit Vyv"@, true),
    ]
}

fn push_session_section(v: &mut Vec<MenuEntry>, is_active: bool)
    ensures
        entries_view(final(v)@) == entries_view(old(v)@) + session_section(is_active),
{
    let ghost before = entries_view(v@);
    if is_active {
        push_item(v, "end_session", "End Session", true);
    } else {
        push_item(v, "start_header", "Start New Session:", false);
        push_item(v, "timer_indefinite", "  Indefinitely", true);
        push_submenu_start(v, "minutes_sub", "  Minutes");
        push_item(v, "timer_min5", "5 Minutes", true);
        push_item(v, "timer_min10", "10 Minutes", true);
        push_item(v, "timer_min15", "15 Minutes", true);
        push_item(v, "timer_min30", "30 Minutes", true);
        push_item(v, "timer_min45", "45 Minutes", true);
        push_submenu_end(v);
        push_submenu_start(v, "hours_sub", "  Hours");
        push_item(v, "timer_hour1", "1 Hour", true);
        push_item(v, "timer_hour2", "2 Hours", true);
        push_item(v, "timer_hour4", "4 Hours", true);
        push_item(v, "timer_hour8", "8 Hours", true);
        push_submenu_end(v);
    }
    assert(entries_view(v@) =~= before + session_section(is_active));
}

fn push_drive_entries(v: &mut Vec<MenuEntry>, available: &Vec<String>, active: &Vec<String>)
    ensures
        entries_view(final(v)@) == entries_view(old(v)@) + drive_entries(texts(available@), texts(active@)),
{
    let ghost before = entries_view(v@);
    let ghost names = texts(available@);
    let ghost spec_entries = drive_entries(names, texts(active@));
    if available.len() == 0 {
        push_item(v, "da_none", "No external drives found", false);
        assert(entries_view(v@) =~= before + spec_entries);
        return;
    }
    let mut i: usize = 0;
    while i < available.len()
        invariant
            i <= available.len(),
            available.len() > 0,
            names == texts(available@),
            spec_entries == drive_entries(names, texts(active@)),
            entries_view(v@) == before + spec_entries.take(i as int),
        decreases available.len() - i,
    {
        let name = available[i].as_str();
        let mut id = String::from_str("da_drive_");
        id.append(name);
        let checked = contains_text(active, name);
        let ghost prev = v@;
        v.push(MenuEntry { kind: MenuEntryKind::Check, id, label: String::from_str(name), enabled: true, checked });
        proof {
            assert(names[i as int] == available@[i as int]@);
            assert(spec_entries[i as int] == check_view(drive_entry_id(names[i as int]), names[i as int], texts(active@).contains(names[i as int])));
            assert(entries_view(v@) =~= entries_view(prev).push(spec_entries[i as int]));
            assert(spec_entries.take(i + 1) =~= spec_entries.take(i as int).push(spec_entries[i as int]));
        }
        i = i + 1;
    }
    assert(spec_entries.take(i as int) =~= spec_entries);
}

fn push_settings_section(v: &mut Vec<MenuEntry>, m: &MenuInputs)
    ensures
        entries_view(final(v)@) == entries_view(old(v)@) + settings_section(
            m.mode == AwakeMode::DisplayAndSystem,
            m.clamshell_enabled,
            m.sim_active,
            texts(m.available_drives@),
            texts(m.active_drives@),
        ),
{
    let ghost before = entries_view(v@);
    push_submenu_start(v, "settings_submenu", "Settings");
    let keep_display = match m.mode {
        AwakeMode::DisplayAndSystem => true,
        _ => false,
    };
    push_check(v, "qs_keep_display", "Keep display awake", keep_display);
    push_check(v, "qs_prevent_clamshell", "Prevent sleep when lid closed", m.clamshell_enabled);
    push_check(v, "qs_jiggle", "Jiggle mouse to prevent idle", m.sim_active);
    push_submenu_start(v, "drive_alive_sub", "Drive Alive");
    push_drive_entries(v, &m.available_drives, &m.active_drives);
    push_submenu_end(v);
    push_submenu_end(v);
    assert(entries_view(v@) =~= before + settings_section(
        m.mode == AwakeMode::DisplayAndSystem,
        m.clamshell_enabled,
        m.sim_active,
        texts(m.available_drives@),
        texts(m.active_drives@),
    ));
}

fn push_stats_section(v: &mut Vec<MenuEntry>, total_time: &String, dosage: &String)
    ensures
        entries_view(final(v)@) == entries_view(old(v)@) + seq![
            separator_view(),
            item_view("stats"@, stats_label(total_time@, dosage@), false),
            separator_view(),
            item_view("quit"@, "Quit Vyv"@, true),
        ],
{
    let ghost before = entries_view(v@);
    push_separator(v);
    let mut label = String::from_str("Total: ");
    label.append(total_time.as_str());
    label.append(" (");
    label.append(dosage.as_str());
    label.append(")");
    push_item(v, "stats", label.as_str(), false);
    push_separator(v);
    push_item(v, "quit", "Quit Vyv", true);
    assert(entries_view(v@) =~= before + seq![
        separator_view(),
        item_view("stats"@, stats_label(total_time@, dosage@), false),
        separator_view(),
        item_view("quit"@, "Quit Vyv"@, true),
    ]);
}

/// Builds the tray menu from its inputs. During a session the mode is never `Off`.
pub fn menu_entries(m: &MenuInputs) -> (r: Vec<MenuEntry>)
    requires
        m.is_active ==> m.mode != AwakeMode::Off,
    ensures
        entries_view(r@) == menu_spec(*m),
{
    let mut v: Vec<MenuEntry> = Vec::new();
    let status = status_text(m.is_active, m.mode, m.remaining);
    push_item(&mut v, "status", status.as_str(), false);
    push_separator(&mut v);
    let ghost head = entries_view(v@);
    push_session_section(&mut v, m.is_active);
    push_separator(&mut v);
    push_settings_section(&mut v, m);
    push_stats_section(&mut v, &m.total_time, &m.dosage);
    assert(head =~= seq![item_view("status"@, status_text_spec(m.is_active, m.mode, m.remaining), false), separator_view()]);
    assert(entries_view(v@) =~= menu_spec(*m));
    v
}

/// The drives being kept alive, as texts.
pub open spec fn active_drive_names(state: AppState) -> Seq<Seq<char>> {
    match state.drive_alive {
        Some(d) => texts(d.drives@),
        None => Seq::empty(),
    }
}

/// `m` holds what the menu shows for `state` and `stats`: the session flags and drives as
/// they are; the time left and the usage figures as read from the clock (a usage total of
/// at least the recorded one, exactly it when no session runs).
pub open spec fn inputs_of(
    m: MenuInputs,
    state: AppState,
    stats: StatsTracker,
    available: Seq<String>,
    clamshell_enabled: bool,
) -> bool {
    &&& m.is_active == state.awake_guard is Some
    &&& m.mode == state.awake_mode
    &&& (m.remaining is Some <==> (state.timer matches Some(t) && preset_duration(t.preset) is Some))
    &&& (m.remaining matches Some(x) ==> x <= preset_duration(state.timer->0.preset)->0)
    &&& m.sim_active == state.simulation is Some
    &&& m.clamshell_enabled == clamshell_enabled
    &&& texts(m.active_drives@) == active_drive_names(state)
    &&& texts(m.available_drives@) == texts(available)
    &&& exists|t: u64|
        t >= stats.stats.total_seconds && (stats.session_start is None ==> t == stats.stats.total_seconds)
            && m.total_time@ == #[trigger] total_time_text(t as nat)
    &&& exists|t: u64|
        t >= stats.stats.total_seconds && (stats.session_start is None ==> t == stats.stats.total_seconds)
            && m.dosage@ == #[trigger] dosage_name(dosage_rank(t / 3600))
}

/// The menu offers to end the session exactly during a session, and to start one
/// otherwise; its first line says "Vyv: Off" exactly outside a session.
pub proof fn lemma_menu_matches_session(m: MenuInputs)
    requires
        m.is_active ==> m.mode != AwakeMode::Off,
    ensures
        menu_spec(m)[2] == (if m.is_active {
            item_view("end_session"@, "End Session"@, true)
        } else {
            item_view("start_header"@, "Start New Session:"@, false)
        }),
        m.is_active <==> menu_spec(m)[0].label != "Vyv: Off"@,
{
    reveal_strlit("Vyv: Off");
    reveal_strlit("Vyv: ");
    if m.is_active {
        let l = status_text_spec(m.is_active, m.mode, m.remaining);
        assert(l.len() > 8) by {
            reveal_strlit(" \u{2014} ");
            reveal_strlit("Off");
            reveal_strlit("System Only");
            reveal_strlit("Display + System");
        }
        assert(menu_spec(m)[0].label == l);
    }
}

/// Gathers what the menu shows. `available_drives` are the names of the drives that could
/// be kept alive; `clamshell_enabled` says whether lid-closed sleep is prevented.
pub fn menu_inputs(
    state: &AppState,
    stats: &StatsTracker,
    available_drives: &Vec<String>,
    clamshell_enabled: bool,
) -> (m: MenuInputs)
    ensures
        inputs_of(m, *state, *stats, available_drives@, clamshell_enabled),
{
    let active_drives = match &state.drive_alive {
        Some(d) => crate::text::copy_strings(&d.drives),
        None => Vec::new(),
    };
    proof {
        if state.drive_alive is None {
            assert(texts(active_drives@) =~= Seq::<Seq<char>>::empty());
        }
    }
    let dosage = String::from_str(stats.get_dosage_level());
    MenuInputs {
        is_active: state.awake_guard.is_some(),
        mode: state.awake_mode,
        remaining: crate::timer::remaining_secs(state),
        sim_active: state.simulation.is_some(),
        clamshell_enabled,
        active_drives,
        available_drives: crate::text::copy_strings(available_drives),
        total_time: stats.format_total(),
        dosage,
    }
}

/// Builds the tray menu for the current session.
pub fn build_menu(
    state: &AppState,
    stats: &StatsTracker,
    available_drives: &Vec<String>,
    clamshell_enabled: bool,
) -> (r: Vec<MenuEntry>)
    requires
        state.inv(),
    ensures
        exists|m: MenuInputs|
            #[trigger] inputs_of(m, *state, *stats, available_drives@, clamshell_enabled)
                && entries_view(r@) == menu_spec(m),
{
    let m = menu_inputs(state, stats, available_drives, clamshell_enabled);
    menu_entries(&m)
}

/// What a click on a menu entry asks for.
pub enum MenuCommand {
    EndSession,
    Quit,
    ToggleKeepDisplay,
    ToggleClamshell,
    ToggleJiggle,
    /// Start or stop keeping the named drive alive.
    ToggleDrive(String),
    /// Start a session of the given length.
    StartSession(TimerPreset),
    /// An entry that does nothing.
    Ignore,
}

/// The content of a [`MenuCommand`].
pub enum MenuCommandView {
    EndSession,
    Quit,
    ToggleKeepDisplay,
    ToggleClamshell,
    ToggleJiggle,
    ToggleDrive(Seq<char>),
    StartSession(TimerPreset),
    Ignore,
}

impl View for MenuCommand {
    type V = MenuCommandView;

    open spec fn view(&self) -> MenuCommandView {
        match self {
            MenuCommand::EndSession => MenuCommandView::EndSession,
            MenuCommand::Quit => MenuCommandView::Quit,
            MenuCommand::ToggleKeepDisplay => MenuCommandView::ToggleKeepDisplay,
            MenuCommand::ToggleClamshell => MenuCommandView::ToggleClamshell,
            MenuCommand::ToggleJiggle => MenuCommandView::ToggleJiggle,
            MenuCommand::ToggleDrive(name) => MenuCommandView::ToggleDrive(name@),
            MenuCommand::StartSession(p) => MenuCommandView::StartSession(*p),
            MenuCommand::Ignore => MenuCommandView::Ignore,
        }
    }
}

/// The preset named by the part of a timer entry's id after `"timer_"`.
pub open spec fn preset_for_key(key: Seq<char>) -> Option<TimerPreset> {
    if key == "min5"@ {
        Some(TimerPreset::Min5)
    } else if key == "min10"@ {
        Some(TimerPreset::Min10)
    } else if key == "min15"@ {
        Some(TimerPreset::Min15)
    } else if key == "min30"@ {
        Some(TimerPreset::Min30)
    } else if key == "min45"@ {
        Some(TimerPreset::Min45)
    } else if key == "hour1"@ {
        Some(TimerPreset::Hour1)
    } else if key == "hour2"@ {
        Some(TimerPreset::Hour2)
    } else if key == "hour4"@ {
        Some(TimerPreset::Hour4)
    } else if key == "hour8"@ {
        Some(TimerPreset::Hour8)
    } else if key == "indefinite"@ {
        Some(TimerPreset::Indefinite)
    } else {
        None
    }
}

/// The key of a preset's timer entry, built from its length: `"min{n}"` for `n` minutes
/// under an hour, `"hour{n}"` for `n` whole hours, `"indefinite"` without a limit.
pub open spec fn timer_key(p: TimerPreset) -> Seq<char> {
    match preset_duration(p) {
        None => "indefinite"@,
        Some(d) => if d < 3600 {
            "min"@ + decimal_text((d / 60) as nat)
        } else {
            "hour"@ + decimal_text((d / 3600) as nat)
        },
    }
}

proof fn lemma_timer_key_texts()
    ensures
        timer_key(TimerPreset::Min5) == "min5"@,
        timer_key(TimerPreset::Min10) == "min10"@,
        timer_key(TimerPreset::Min15) == "min15"@,
        timer_key(TimerPreset::Min30) == "min30"@,
        timer_key(TimerPreset::Min45) == "min45"@,
        timer_key(TimerPreset::Hour1) == "hour1"@,
        timer_key(TimerPreset::Hour2) == "hour2"@,
        timer_key(TimerPreset::Hour4) == "hour4"@,
        timer_key(TimerPreset::Hour8) == "hour8"@,
        timer_key(TimerPreset::Indefinite) == "indefinite"@,
{
    reveal_strlit("min");
    reveal_strlit("hour");
    reveal_strlit("min5");
    reveal_strlit("min10");
    reveal_strlit("min15");
    reveal_strlit("min30");
    reveal_strlit("min45");
    reveal_strlit("hour1");
    reveal_strlit("hour2");
    reveal_strlit("hour4");
    reveal_strlit("hour8");
    assert(decimal_text(1) == seq!['1']);
    assert(decimal_text(3) == seq!['3']);
    assert(decimal_text(4) == seq!['4']);
    assert(decimal_text(10) == seq!['1', '0']);
    assert(decimal_text(15) == seq!['1', '5']);
    assert(decimal_text(30) == seq!['3', '0']);
    assert(decimal_text(45) == seq!['4', '5']);
    assert(timer_key(TimerPreset::Min5) =~= "min5"@);
    assert(timer_key(TimerPreset::Min10) =~= "min10"@);
    assert(timer_key(TimerPreset::Min15) =~= "min15"@);
    assert(timer_key(TimerPreset::Min30) =~= "min30"@);
    assert(timer_key(TimerPreset::Min45) =~= "min45"@);
    assert(timer_key(TimerPreset::Hour1) =~= "hour1"@);
    assert(timer_key(TimerPreset::Hour2) =~= "hour2"@);
    assert(timer_key(TimerPreset::Hour4) =~= "hour4"@);
    assert(timer_key(TimerPreset::Hour8) =~= "hour8"@);
}

/// A timer entry starts the session its key names, and no other: `key` gives the preset
/// `p` exactly when it is `p`'s key, so `"hour2"` starts a session of two hours and
/// `"min45"` one of forty-five minutes.
pub proof fn lemma_timer_key_names_preset(key: Seq<char>, p: TimerPreset)
    ensures
        preset_for_key(key) == Some(p) <==> key == timer_key(p),
{
    lemma_timer_key_texts();
    reveal_strlit("min5");
    reveal_strlit("min10");
    reveal_strlit("min15");
    reveal_strlit("min30");
    reveal_strlit("min45");
    reveal_strlit("hour1");
    reveal_strlit("hour2");
    reveal_strlit("hour4");
    reveal_strlit("hour8");
    reveal_strlit("indefinite");
    let lits = seq!["min5"@, "min10"@, "min15"@, "min30"@, "min45"@, "hour1"@, "hour2"@, "hour4"@, "hour8"@];
    assert forall|i: int, j: int| 0 <= i < j < lits.len() implies lits[i] != lits[j] by {
        if lits[i].len() == lits[j].len() {
            assert(lits[i][lits[i].len() - 1] != lits[j][lits[j].len() - 1] || lits[i][3] != lits[j][3] || lits[i][0] != lits[j][0]);
        }
    }
    assert("indefinite"@.len() == 10);
}

/// Clicking the timer entry of a preset, `"timer_"` followed by the preset's key, starts a
/// session of that preset.
pub proof fn lemma_timer_entry_starts_preset(p: TimerPreset)
    ensures
        command_for_id("timer_"@ + timer_key(p)) == MenuCommandView::StartSession(p),
{
    lemma_timer_key_texts();
    lemma_timer_key_names_preset(timer_key(p), p);
    reveal_strlit("timer_");
    reveal_strlit("end_session");
    reveal_strlit("quit");
    reveal_strlit("qs_keep_display");
    reveal_strlit("qs_prevent_clamshell");
    reveal_strlit("qs_jiggle");
    reveal_strlit("da_drive_");
    reveal_strlit("min5");
    reveal_strlit("min10");
    reveal_strlit("min15");
    reveal_strlit("min30");
    reveal_strlit("min45");
    reveal_strlit("hour1");
    reveal_strlit("hour2");
    reveal_strlit("hour4");
    reveal_strlit("hour8");
    reveal_strlit("indefinite");
    let key = timer_key(p);
    let id = "timer_"@ + key;
    assert(key.len() >= 4);
    assert(id[0] == 't');
    assert(id.subrange(0, 6) =~= "timer_"@);
    assert(id.subrange(6, id.len() as int) =~= key);
    assert(id != "end_session"@ && id != "quit"@ && id != "qs_keep_display"@);
    assert(id != "qs_prevent_clamshell"@ && id != "qs_jiggle"@);
    assert(!"da_drive_"@.is_prefix_of(id)) by {
        if "da_drive_"@.is_prefix_of(id) {
            assert(id.subrange(0, 9)[0] == 'd');
        }
    }
}

/// The label under which a session length is offered: `"{n} Minutes"` under an hour,
/// `"1 Hour"`, `"{n} Hours"` for more whole hours, `"  Indefinitely"` without a limit.
pub open spec fn length_label(d: Option<u64>) -> Seq<char> {
    match d {
        None => "  Indefinitely"@,
        Some(secs) => if secs < 3600 {
            decimal_text((secs / 60) as nat) + " Minutes"@
        } else if secs == 3600 {
            "1 Hour"@
        } else {
            decimal_text((secs / 3600) as nat) + " Hours"@
        },
    }
}

/// Every session length the menu offers starts a session of the length its label gives:
/// the entry labelled "2 Hours" starts one of 7200 seconds, "45 Minutes" one of 2700, and
/// "Indefinitely" one without a limit.
pub proof fn lemma_menu_lengths_match_labels(i: int)
    requires
        0 <= i < session_section(false).len(),
        "timer_"@.is_prefix_of(session_section(false)[i].id),
    ensures
        command_for_id(session_section(false)[i].id) matches MenuCommandView::StartSession(p)
            && session_section(false)[i].label == length_label(preset_duration(p)),
{
    let sec = session_section(false);
    lemma_timer_key_texts();
    reveal_strlit("timer_");
    reveal_strlit("start_header");
    reveal_strlit("minutes_sub");
    reveal_strlit("hours_sub");
    reveal_strlit("timer_indefinite");
    reveal_strlit("timer_min5");
    reveal_strlit("timer_min10");
    reveal_strlit("timer_min15");
    reveal_strlit("timer_min30");
    reveal_strlit("timer_min45");
    reveal_strlit("timer_hour1");
    reveal_strlit("timer_hour2");
    reveal_strlit("timer_hour4");
    reveal_strlit("timer_hour8");
    reveal_strlit("min5");
    reveal_strlit("min10");
    reveal_strlit("min15");
    reveal_strlit("min30");
    reveal_strlit("min45");
    reveal_strlit("hour1");
    reveal_strlit("hour2");
    reveal_strlit("hour4");
    reveal_strlit("hour8");
    reveal_strlit("indefinite");
    reveal_strlit(" Minutes");
    reveal_strlit(" Hours");
    reveal_strlit("5 Minutes");
    reveal_strlit("10 Minutes");
    reveal_strlit("15 Minutes");
    reveal_strlit("30 Minutes");
    reveal_strlit("45 Minutes");
    reveal_strlit("2 Hours");
    reveal_strlit("4 Hours");
    reveal_strlit("8 Hours");
    assert(decimal_text(1) == seq!['1']);
    assert(decimal_text(3) == seq!['3']);
    assert(decimal_text(4) == seq!['4']);
    assert(decimal_text(10) == seq!['1', '0']);
    assert(decimal_text(15) == seq!['1', '5']);
    assert(decimal_text(30) == seq!['3', '0']);
    assert(decimal_text(45) == seq!['4', '5']);
    assert(sec.len() == 15);
    if i == 0 || i == 2 || i == 8 || i == 9 || i == 14 {
        assert("timer_"@[0] == sec[i].id.subrange(0, 6)[0]);
    } else if i == 1 {
        assert(sec[i].id =~= "timer_"@ + timer_key(TimerPreset::Indefinite));
        lemma_timer_entry_starts_preset(TimerPreset::Indefinite);
        assert(sec[i].label =~= length_label(preset_duration(TimerPreset::Indefinite)));
    } else if i == 3 {
        assert(sec[i].id =~= "timer_"@ + timer_key(TimerPreset::Min5));
        lemma_timer_entry_starts_preset(TimerPreset::Min5);
        assert(sec[i].label =~= length_label(preset_duration(TimerPreset::Min5)));
    } else if i == 4 {
        assert(sec[i].id =~= "timer_"@ + timer_key(TimerPreset::Min10));
        lemma_timer_entry_starts_preset(TimerPreset::Min10);
        assert(sec[i].label =~= length_label(preset_duration(TimerPreset::Min10)));
    } else if i == 5 {
        assert(sec[i].id =~= "timer_"@ + timer_key(TimerPreset::Min15));
        lemma_timer_entry_starts_preset(TimerPreset::Min15);
        assert(sec[i].label =~= length_label(preset_duration(TimerPreset::Min15)));
    } else if i == 6 {
        assert(sec[i].id =~= "timer_"@ + timer_key(TimerPreset::Min30));
        lemma_timer_entry_starts_preset(TimerPreset::Min30);
        assert(sec[i].label =~= length_label(preset_duration(TimerPreset::Min30)));
    } else if i == 7 {
        assert(sec[i].id =~= "timer_"@ + timer_key(TimerPreset::Min45));
        lemma_timer_entry_starts_preset(TimerPreset::Min45);
        assert(sec[i].label =~= length_label(preset_duration(TimerPreset::Min45)));
    } else if i == 10 {
        assert(sec[i].id =~= "timer_"@ + timer_key(TimerPreset::Hour1));
        lemma_timer_entry_starts_preset(TimerPreset::Hour1);
        assert(sec[i].label =~= length_label(preset_duration(TimerPreset::Hour1)));
    } else if i == 11 {
        assert(sec[i].id =~= "timer_"@ + timer_key(TimerPreset::Hour2));
        lemma_timer_entry_starts_preset(TimerPreset::Hour2);
        assert(sec[i].label =~= length_label(preset_duration(TimerPreset::Hour2)));
    } else if i == 12 {
        assert(sec[i].id =~= "timer_"@ + timer_key(TimerPreset::Hour4));
        lemma_timer_entry_starts_preset(TimerPreset::Hour4);
        assert(sec[i].label =~= length_label(preset_duration(TimerPreset::Hour4)));
    } else if i == 13 {
        assert(sec[i].id =~= "timer_"@ + timer_key(TimerPreset::Hour8));
        lemma_timer_entry_starts_preset(TimerPreset::Hour8);
        assert(sec[i].label =~= length_label(preset_duration(TimerPreset::Hour8)));
    }
}

/// The command of a menu entry id.
pub open spec fn command_for_id(id: Seq<char>) -> MenuCommandView {
    if id == "end_session"@ {
        MenuCommandView::EndSession
    } else if id == "quit"@ {
        MenuCommandView::Quit
    } else if id == "qs_keep_display"@ {
        MenuCommandView::ToggleKeepDisplay
    } else if id == "qs_prevent_clamshell"@ {
        MenuCommandView::ToggleClamshell
    } else if id == "qs_jiggle"@ {
        MenuCommandView::ToggleJiggle
    } else if "da_drive_"@.is_prefix_of(id) {
        MenuCommandView::ToggleDrive(id.subrange("da_drive_"@.len() as int, id.len() as int))
    } else if "timer_"@.is_prefix_of(id) {
        match preset_for_key(id.subrange("timer_"@.len() as int, id.len() as int)) {
            Some(p) => MenuCommandView::StartSession(p),
            None => MenuCommandView::Ignore,
        }
    } else {
        MenuCommandView::Ignore
    }
}

/// The preset named by `key`, if any.
pub fn preset_from_key(key: &str) -> (r: Option<TimerPreset>)
    ensures
        r == preset_for_key(key@),
{
    if str_eq(key, "min5") {
        Some(TimerPreset::Min5)
    } else if str_eq(key, "min10") {
        Some(TimerPreset::Min10)
    } else if str_eq(key, "min15") {
        Some(TimerPreset::Min15)
    } else if str_eq(key, "min30") {
        Some(TimerPreset::Min30)
    } else if str_eq(key, "min45") {
        Some(TimerPreset::Min45)
    } else if str_eq(key, "hour1") {
        Some(TimerPreset::Hour1)
    } else if str_eq(key, "hour2") {
        Some(TimerPreset::Hour2)
    } else if str_eq(key, "hour4") {
        Some(TimerPreset::Hour4)
    } else if str_eq(key, "hour8") {
        Some(TimerPreset::Hour8)
    } else if str_eq(key, "indefinite") {
        Some(TimerPreset::Indefinite)
    } else {
        None
    }
}

/// What clicking the menu entry `id` asks for.
pub fn parse_menu_id(id: &str) -> (r: MenuCommand)
    ensures
        r@ == command_for_id(id@),
{
    if str_eq(id, "end_session") {
        return MenuCommand::EndSession;
    }
    if str_eq(id, "quit") {
        return MenuCommand::Quit;
    }
    if str_eq(id, "qs_keep_display") {
        return MenuCommand::ToggleKeepDisplay;
    }
    if str_eq(id, "qs_prevent_clamshell") {
        return MenuCommand::ToggleClamshell;
    }
    if str_eq(id, "qs_jiggle") {
        return MenuCommand::ToggleJiggle;
    }
    let n = id.unicode_len();
    let drive_prefix = "da_drive_";
    if str_starts_with(id, drive_prefix) {
        let start = drive_prefix.unicode_len();
        let name = id.substring_char(start, n);
        return MenuCommand::ToggleDrive(String::from_str(name));
    }
    let timer_prefix = "timer_";
    if str_starts_with(id, timer_prefix) {
        let start = timer_prefix.unicode_len();
        let key = id.substring_char(start, n);
        return match preset_from_key(key) {
            Some(p) => MenuCommand::StartSession(p),
            None => MenuCommand::Ignore,
        };
    }
    MenuCommand::Ignore
}

/// `d` with every occurrence of `n` removed.
pub open spec fn without(d: Seq<Seq<char>>, n: Seq<char>) -> Seq<Seq<char>>
    decreases d.len(),
{
    if d.len() == 0 {
        d
    } else {
        let rest = without(d.drop_last(), n);
        if d.last() == n {
            rest
        } else {
            rest.push(d.last())
        }
    }
}

/// The drive list after clicking drive `n`: removed if listed, appended otherwise.
pub open spec fn toggled(d: Seq<Seq<char>>, n: Seq<char>) -> Seq<Seq<char>> {
    if d.contains(n) {
        without(d, n)
    } else {
        d.push(n)
    }
}

proof fn lemma_without(d: Seq<Seq<char>>, n: Seq<char>)
    ensures
        forall|x: Seq<char>| without(d, n).contains(x) <==> (x != n && d.contains(x)),
        !d.contains(n) ==> without(d, n) == d,
        d.no_duplicates() ==> without(d, n).no_duplicates(),
    decreases d.len(),
{
    if d.len() > 0 {
        let front = d.drop_last();
        lemma_without(front, n);
        let rest = without(front, n);
        assert forall|x: Seq<char>| without(d, n).contains(x) <==> (x != n && d.contains(x)) by {
            let w = without(d, n);
            if d.contains(x) && x != n {
                let k = choose|k: int| 0 <= k < d.len() && d[k] == x;
                if k < front.len() {
                    assert(front[k] == x);
                    assert(front.contains(x));
                    assert(rest.contains(x));
                    let q = choose|q: int| 0 <= q < rest.len() && rest[q] == x;
                    if d.last() == n {
                        assert(w == rest);
                    } else {
                        assert(w[q] == x);
                    }
                    assert(w.contains(x));
                } else {
                    assert(d.last() == x);
                    assert(w[w.len() - 1] == x);
                }
            }
            if w.contains(x) {
                let k = choose|k: int| 0 <= k < w.len() && w[k] == x;
                if k < rest.len() {
                    assert(rest[k] == x);
                    assert(rest.contains(x));
                    assert(front.contains(x));
                    let j = choose|j: int| 0 <= j < front.len() && front[j] == x;
                    assert(d[j] == front[j]);
                } else {
                    assert(d[d.len() - 1] == x);
                }
            }
        }
        if !d.contains(n) {
            assert(!front.contains(n)) by {
                if front.contains(n) {
                    let j = choose|j: int| 0 <= j < front.len() && front[j] == n;
                    assert(d[j] == n);
                }
            }
            assert(d.last() != n) by {
                assert(d[d.len() - 1] == d.last());
            }
            assert(d =~= front.push(d.last()));
        }
        if d.no_duplicates() {
            assert(front.no_duplicates()) by {
                assert forall|i: int, j: int| 0 <= i < front.len() && 0 <= j < front.len() && i != j implies front[i] != front[j] by {
                    assert(front[i] == d[i] && front[j] == d[j]);
                }
            }
            if d.last() != n {
                assert(!rest.contains(d.last())) by {
                    if rest.contains(d.last()) {
                        assert(front.contains(d.last()));
                        let j = choose|j: int| 0 <= j < front.len() && front[j] == d.last();
                        assert(d[j] == d[d.len() - 1]);
                    }
                }
                let w = without(d, n);
                assert forall|i: int, j: int| 0 <= i < w.len() && 0 <= j < w.len() && i != j implies w[i] != w[j] by {
                    if i < rest.len() && j < rest.len() {
                        assert(w[i] == rest[i] && w[j] == rest[j]);
                    } else if i < rest.len() {
                        assert(w[i] == rest[i]);
                        assert(rest.contains(w[i]));
                    } else if j < rest.len() {
                        assert(w[j] == rest[j]);
                        assert(rest.contains(w[j]));
                    }
                }
            }
        }
    }
}

proof fn lemma_toggle_once(d: Seq<Seq<char>>, n: Seq<char>)
    ensures
        toggled(d, n).contains(n) <==> !d.contains(n),
        forall|x: Seq<char>| x != n ==> (toggled(d, n).contains(x) <==> d.contains(x)),
        d.no_duplicates() ==> toggled(d, n).no_duplicates(),
        !d.contains(n) ==> toggled(toggled(d, n), n) == d,
{
    lemma_without(d, n);
    lemma_without(d.push(n), n);
    if !d.contains(n) {
        assert(d.push(n).contains(n)) by {
            assert(d.push(n)[d.len() as int] == n);
        }
        assert(d.push(n).drop_last() =~= d);
        assert(toggled(toggled(d, n), n) == without(d.push(n), n));
        assert(without(d.push(n), n) == without(d, n));
        assert forall|x: Seq<char>| x != n implies (toggled(d, n).contains(x) <==> d.contains(x)) by {
            if d.contains(x) {
                let k = choose|k: int| 0 <= k < d.len() && d[k] == x;
                assert(d.push(n)[k] == x);
            }
            if d.push(n).contains(x) {
                let k = choose|k: int| 0 <= k < d.push(n).len() && d.push(n)[k] == x;
                assert(k < d.len());
                assert(d[k] == x);
            }
        }
        assert(toggled(d, n).contains(n)) by {
            assert(d.push(n)[d.len() as int] == n);
        }
        if d.no_duplicates() {
            let p = d.push(n);
            assert forall|i: int, j: int| 0 <= i < p.len() && 0 <= j < p.len() && i != j implies p[i] != p[j] by {
                if i < d.len() && j < d.len() {
                } else if i < d.len() {
                    assert(d.contains(p[i]));
                } else {
                    assert(d.contains(p[j]));
                }
            }
        }
    }
}

/// Clicking a drive flips whether it is kept alive and leaves the others alone; a list
/// without repeats stays without repeats; clicking the same drive twice gives back the same
/// set of drives, and, for a drive that was not listed, the very list one started with.
pub proof fn lemma_toggle_drive(d: Seq<Seq<char>>, n: Seq<char>)
    ensures
        toggled(d, n).contains(n) <==> !d.contains(n),
        forall|x: Seq<char>| x != n ==> (toggled(d, n).contains(x) <==> d.contains(x)),
        d.no_duplicates() ==> toggled(d, n).no_duplicates(),
        forall|x: Seq<char>| toggled(toggled(d, n), n).contains(x) <==> d.contains(x),
        !d.contains(n) ==> toggled(toggled(d, n), n) == d,
{
    lemma_toggle_once(d, n);
    lemma_toggle_once(toggled(d, n), n);
}

/// The drive list after clicking drive `name`.
pub fn toggled_drives(drives: &Vec<String>, name: &str) -> (r: Vec<String>)
    ensures
        texts(r@) == toggled(texts(drives@), name@),
{
    if !contains_text(drives, name) {
        let mut out = crate::text::copy_strings(drives);
        let ghost before = out@;
        out.push(String::from_str(name));
        assert(texts(out@) =~= texts(before).push(name@));
        return out;
    }
    let mut out: Vec<String> = Vec::new();
    let mut i: usize = 0;
    while i < drives.len()
        invariant
            i <= drives.len(),
            texts(out@) == without(texts(drives@).take(i as int), name@),
        decreases drives.len() - i,
    {
        let ghost prefix = texts(drives@).take(i + 1);
        assert(prefix.drop_last() =~= texts(drives@).take(i as int));
        assert(prefix.last() == drives@[i as int]@);
        if !str_eq(drives[i].as_str(), name) {
            let ghost before = out@;
            out.push(drives[i].clone());
            assert(texts(out@) =~= texts(before).push(drives@[i as int]@));
        }
        i = i + 1;
    }
    assert(texts(drives@).take(i as int) =~= texts(drives@));
    out
}

/// The mount point of a drive: `"/Volumes/{name}"`.
pub open spec fn volume_path_spec(name: Seq<char>) -> Seq<char> {
    "/Volumes/"@ + name
}

/// The mount points of the named drives.
pub fn volume_paths(names: &Vec<String>) -> (r: Vec<String>)
    ensures
        texts(r@) == texts(names@).map_values(|n: Seq<char>| volume_path_spec(n)),
{
    let mut out: Vec<String> = Vec::new();
    let mut i: usize = 0;
    while i < names.len()
        invariant
            i <= names.len(),
            texts(out@) == texts(names@).take(i as int).map_values(|n: Seq<char>| volume_path_spec(n)),
        decreases names.len() - i,
    {
        let mut p = String::from_str("/Volumes/");
        p.append(names[i].as_str());
        let ghost before = out@;
        out.push(p);
        assert(texts(out@) =~= texts(before).push(volume_path_spec(names@[i as int]@)));
        assert(texts(names@).take(i + 1).map_values(|n: Seq<char>| volume_path_spec(n))
            =~= texts(names@).take(i as int).map_values(|n: Seq<char>| volume_path_spec(n)).push(
            volume_path_spec(names@[i as int]@),
        ));
        i = i + 1;
    }
    assert(texts(names@).take(i as int) =~= texts(names@));
    out
}

/// Drives to keep alive and the token that stops the task.
pub struct DriveAliveTask {
    /// Mount points of the drives.
    pub paths: Vec<String>,
    pub cancel: tokio_util::sync::CancellationToken,
}

/// Outside work a menu command asks the caller to do.
pub enum TrayEffect {
    /// Let the system sleep with the lid closed again.
    DisableClamshell,
    /// Keep the system awake with the lid closed.
    EnableClamshell,
    /// Rebuild the tray menu, tooltip and icon.
    UpdateTray,
    /// Quit the application.
    Exit,
    /// Run the session countdown.
    ScheduleTimer(TimerSchedule),
    /// Run the input simulation.
    StartSimulation(SimulationHandle),
    /// Run the drive keep-alive task.
    StartDriveAlive(DriveAliveTask),
}

/// The content of a [`TrayEffect`].
pub enum TrayEffectView {
    DisableClamshell,
    EnableClamshell,
    UpdateTray,
    Exit,
    ScheduleTimer { secs: u64, cancel: tokio_util::sync::CancellationToken },
    StartSimulation { profile: SimProfile, cancel: tokio_util::sync::CancellationToken },
    StartDriveAlive { paths: Seq<Seq<char>>, cancel: tokio_util::sync::CancellationToken },
}

impl View for TrayEffect {
    type V = TrayEffectView;

    open spec fn view(&self) -> TrayEffectView {
        match self {
            TrayEffect::DisableClamshell => TrayEffectView::DisableClamshell,
            TrayEffect::EnableClamshell => TrayEffectView::EnableClamshell,
            TrayEffect::UpdateTray => TrayEffectView::UpdateTray,
            TrayEffect::Exit => TrayEffectView::Exit,
            TrayEffect::ScheduleTimer(s) => TrayEffectView::ScheduleTimer { secs: s.secs, cancel: s.cancel },
            TrayEffect::StartSimulation(h) => TrayEffectView::StartSimulation { profile: h.profile, cancel: h.cancel },
            TrayEffect::StartDriveAlive(t) => TrayEffectView::StartDriveAlive {
                paths: texts(t.paths@),
                cancel: t.cancel,
            },
        }
    }
}

/// The contents of a sequence of effects.
pub open spec fn effects_view(v: Seq<TrayEffect>) -> Seq<TrayEffectView> {
    v.map_values(|e: TrayEffect| e@)
}

/// The countdown to run for a preset, if it is timed, on the timer's token `cancel`.
pub open spec fn timer_effects(preset: TimerPreset, cancel: tokio_util::sync::CancellationToken) -> Seq<TrayEffectView> {
    match preset_duration(preset) {
        Some(secs) => seq![TrayEffectView::ScheduleTimer { secs, cancel }],
        None => Seq::empty(),
    }
}

fn push_effect(v: &mut Vec<TrayEffect>, e: TrayEffect)
    ensures
        effects_view(final(v)@) == effects_view(old(v)@).push(e@),
{
    let ghost before = v@;
    v.push(e);
    assert(effects_view(v@) =~= effects_view(before).push(e@));
}

fn push_schedule(
    v: &mut Vec<TrayEffect>,
    schedule: Option<TimerSchedule>,
    preset: TimerPreset,
    cancel: Ghost<tokio_util::sync::CancellationToken>,
)
    requires
        schedule is Some <==> preset_duration(preset) is Some,
        schedule matches Some(s) ==> s.secs == preset_duration(preset)->0 && s.cancel == cancel@,
    ensures
        effects_view(final(v)@) == effects_view(old(v)@) + timer_effects(preset, cancel@),
{
    let ghost before = effects_view(v@);
    if let Some(s) = schedule {
        push_effect(v, TrayEffect::ScheduleTimer(s));
    }
    assert(effects_view(v@) =~= before + timer_effects(preset, cancel@));
}

/// Stops the input simulation, if one runs, and cancels its token.
pub fn stop_simulation(state: &mut AppState)
    ensures
        final(state).simulation is None,
        final(state).cancelled@ == with_stopped(old(state).cancelled@, simulation_token(*old(state))),
        final(state).awake_mode == old(state).awake_mode,
        final(state).awake_guard == old(state).awake_guard,
        final(state).timer == old(state).timer,
        final(state).drive_alive == old(state).drive_alive,
{
    if let Some(sim) = state.simulation.take() {
        crate::cancel::cancel(&sim.cancel, &mut state.cancelled);
    }
}

/// Starts simulating `profile`, replacing (and cancelling) any simulation already running;
/// the returned handle, on the new simulation's token, is what the caller runs.
pub fn start_simulation(state: &mut AppState, profile: &SimProfile) -> (r: SimulationHandle)
    ensures
        r.profile == *profile,
        final(state).simulation matches Some(s) && s.profile_name@ == profile_label(*profile),
        r.cancel == final(state).simulation->0.cancel,
        !final(state).cancelled@.contains(r.cancel),
        final(state).cancelled@ == with_stopped(old(state).cancelled@, simulation_token(*old(state))),
        final(state).awake_mode == old(state).awake_mode,
        final(state).awake_guard == old(state).awake_guard,
        final(state).timer == old(state).timer,
        final(state).drive_alive == old(state).drive_alive,
{
    stop_simulation(state);
    let cancel = crate::cancel::new_token(&state.cancelled);
    let handle = SimulationHandle { profile: profile.duplicate(), cancel: crate::cancel::share_token(&cancel) };
    state.simulation = Some(SimulationState { cancel, profile_name: String::from_str(profile.label()) });
    handle
}

/// Stops keeping drives alive and cancels the task's token.
pub fn stop_drive_alive(state: &mut AppState)
    ensures
        final(state).drive_alive is None,
        final(state).cancelled@ == with_stopped(old(state).cancelled@, drive_token(*old(state))),
        final(state).awake_mode == old(state).awake_mode,
        final(state).awake_guard == old(state).awake_guard,
        final(state).timer == old(state).timer,
        final(state).simulation == old(state).simulation,
{
    if let Some(old_task) = state.drive_alive.take() {
        crate::cancel::cancel(&old_task.cancel, &mut state.cancelled);
    }
}

/// Flips whether drive `name` is kept alive. The running task is stopped and its token
/// cancelled; if drives remain selected, a new task for all of them, on the new token, is
/// returned for the caller to run.
pub fn toggle_drive_alive(state: &mut AppState, name: &str) -> (r: Option<DriveAliveTask>)
    ensures
        final(state).cancelled@ == with_stopped(old(state).cancelled@, drive_token(*old(state))),
        r matches Some(t) ==> t.cancel == final(state).drive_alive->0.cancel
            && !final(state).cancelled@.contains(t.cancel),
        active_drive_names(*final(state)) == toggled(active_drive_names(*old(state)), name@),
        final(state).drive_alive is Some <==> toggled(active_drive_names(*old(state)), name@).len() > 0,
        r is Some <==> final(state).drive_alive is Some,
        r matches Some(t) ==> texts(t.paths@) == toggled(active_drive_names(*old(state)), name@).map_values(
            |n: Seq<char>| volume_path_spec(n),
        ),
        final(state).awake_mode == old(state).awake_mode,
        final(state).awake_guard == old(state).awake_guard,
        final(state).timer == old(state).timer,
        final(state).simulation == old(state).simulation,
{
    let current = match &state.drive_alive {
        Some(d) => crate::text::copy_strings(&d.drives),
        None => Vec::new(),
    };
    proof {
        if state.drive_alive is None {
            assert(texts(current@) =~= Seq::<Seq<char>>::empty());
        }
    }
    let drives = toggled_drives(&current, name);
    stop_drive_alive(state);
    if drives.len() == 0 {
        assert(texts(drives@) =~= Seq::<Seq<char>>::empty());
        return None;
    }
    let cancel = crate::cancel::new_token(&state.cancelled);
    let paths = volume_paths(&drives);
    let task = DriveAliveTask { paths, cancel: crate::cancel::share_token(&cancel) };
    state.drive_alive = Some(DriveAliveState { cancel, drives });
    Some(task)
}

/// The preset of the running timer, or `Indefinite` when none runs.
pub open spec fn current_preset(state: AppState) -> TimerPreset {
    match state.timer {
        Some(t) => t.preset,
        None => TimerPreset::Indefinite,
    }
}

/// The preset of the running timer, or `Indefinite` when none runs.
pub fn current_or_default_preset(state: &AppState) -> (r: TimerPreset)
    ensures
        r == current_preset(*state),
{
    match &state.timer {
        Some(t) => t.preset,
        None => TimerPreset::Indefinite,
    }
}

/// The mode the "Keep display awake" entry switches to.
pub open spec fn flipped_display_mode(mode: AwakeMode) -> AwakeMode {
    if mode == AwakeMode::DisplayAndSystem {
        AwakeMode::SystemOnly
    } else {
        AwakeMode::DisplayAndSystem
    }
}

/// "Keep display awake" never switches keep-awake off, and clicking it twice during a
/// session comes back to the mode one started from.
pub proof fn lemma_flip_display_twice(mode: AwakeMode)
    ensures
        flipped_display_mode(mode) != AwakeMode::Off,
        mode != AwakeMode::Off ==> flipped_display_mode(flipped_display_mode(mode)) == mode,
{
}

/// The mode a new session runs in: the preferred one, or display-and-system when none is
/// preferred.
pub open spec fn session_mode(preferred: AwakeMode) -> AwakeMode {
    if preferred == AwakeMode::Off {
        AwakeMode::DisplayAndSystem
    } else {
        preferred
    }
}

/// The tokens `after` records as cancelled when the simulation, the drive task and the timer
/// of `before` have all been stopped.
pub open spec fn all_tasks_stopped(before: AppState) -> Set<tokio_util::sync::CancellationToken> {
    with_stopped(
        with_stopped(with_stopped(before.cancelled@, simulation_token(before)), drive_token(before)),
        timer_token(before),
    )
}

/// Ends the session (or quits): the simulation and the drive task stop (their tokens
/// cancelled), the session is recorded in the usage figures, lid-closed sleep is allowed
/// again and keep-awake ends (the timer's token cancelled).
pub fn end_session_command(state: &mut AppState, stats: &mut StatsTracker, quit: bool) -> (r: Vec<TrayEffect>)
    ensures
        final(state).simulation is None,
        final(state).drive_alive is None,
        final(state).awake_mode == AwakeMode::Off,
        final(state).awake_guard is None,
        final(state).timer is None,
        final(state).cancelled@ == all_tasks_stopped(*old(state)),
        session_ended(*old(stats), *final(stats)),
        effects_view(r@) == seq![
            TrayEffectView::DisableClamshell,
            if quit { TrayEffectView::Exit } else { TrayEffectView::UpdateTray },
        ],
{
    stop_simulation(state);
    stop_drive_alive(state);
    stats.end_session();
    let mut effects: Vec<TrayEffect> = Vec::new();
    push_effect(&mut effects, TrayEffect::DisableClamshell);
    let _ = crate::awake::deactivate(state);
    if quit {
        push_effect(&mut effects, TrayEffect::Exit);
    } else {
        push_effect(&mut effects, TrayEffect::UpdateTray);
    }
    assert(effects_view(effects@) =~= seq![
        TrayEffectView::DisableClamshell,
        if quit { TrayEffectView::Exit } else { TrayEffectView::UpdateTray },
    ]);
    effects
}

/// "Keep display awake": during a session (any mode but `Off`) the session switches
/// between display-and-system and system-only and its timer restarts with the same
/// preset (the old timer's token cancelled, the countdown on the new one); otherwise only
/// the preferred mode becomes display-and-system.
pub fn toggle_keep_display(state: &mut AppState) -> (r: Vec<TrayEffect>)
    ensures
        old(state).awake_mode != AwakeMode::Off ==> activation_outcome(
            *old(state),
            *final(state),
            flipped_display_mode(old(state).awake_mode),
        ) && (final(state).timer matches Some(t) && t.preset == current_preset(*old(state)))
            && final(state).cancelled@ == with_stopped(old(state).cancelled@, timer_token(*old(state)))
            && !final(state).cancelled@.contains(final(state).timer->0.cancel)
            && effects_view(r@) == timer_effects(current_preset(*old(state)), final(state).timer->0.cancel).push(
            TrayEffectView::UpdateTray,
        ),
        old(state).awake_mode == AwakeMode::Off ==> final(state).awake_mode == AwakeMode::DisplayAndSystem
            && final(state).awake_guard == old(state).awake_guard && final(state).timer == old(state).timer
            && final(state).cancelled == old(state).cancelled
            && effects_view(r@) == seq![TrayEffectView::UpdateTray],
        final(state).simulation == old(state).simulation,
        final(state).drive_alive == old(state).drive_alive,
        old(state).inv() ==> final(state).inv(),
{
    let current = state.awake_mode;
    let new_mode = match current {
        AwakeMode::DisplayAndSystem => AwakeMode::SystemOnly,
        _ => AwakeMode::DisplayAndSystem,
    };
    let mut effects: Vec<TrayEffect> = Vec::new();
    if current != AwakeMode::Off {
        let preset = current_or_default_preset(state);
        let _ = crate::awake::activate(state, new_mode);
        let schedule = crate::timer::start_timer(state, preset);
        push_schedule(&mut effects, schedule, preset, Ghost(state.timer->0.cancel));
    } else {
        state.awake_mode = new_mode;
    }
    push_effect(&mut effects, TrayEffect::UpdateTray);
    proof {
        if current == AwakeMode::Off {
            assert(effects_view(effects@) =~= seq![TrayEffectView::UpdateTray]);
        }
    }
    effects
}

/// "Prevent sleep when lid closed": flips the setting.
pub fn toggle_clamshell(clamshell_enabled: bool) -> (r: Vec<TrayEffect>)
    ensures
        effects_view(r@) == seq![
            if clamshell_enabled { TrayEffectView::DisableClamshell } else { TrayEffectView::EnableClamshell },
            TrayEffectView::UpdateTray,
        ],
{
    let mut effects: Vec<TrayEffect> = Vec::new();
    if clamshell_enabled {
        push_effect(&mut effects, TrayEffect::DisableClamshell);
    } else {
        push_effect(&mut effects, TrayEffect::EnableClamshell);
    }
    push_effect(&mut effects, TrayEffect::UpdateTray);
    assert(effects_view(effects@) =~= seq![
        if clamshell_enabled { TrayEffectView::DisableClamshell } else { TrayEffectView::EnableClamshell },
        TrayEffectView::UpdateTray,
    ]);
    effects
}

/// "Jiggle mouse": stops the simulation if one runs (cancelling its token), otherwise
/// starts the Slack profile.
pub fn toggle_jiggle(state: &mut AppState) -> (r: Vec<TrayEffect>)
    ensures
        old(state).simulation is Some ==> final(state).simulation is None && effects_view(r@) == seq![
            TrayEffectView::UpdateTray,
        ],
        old(state).simulation is None ==> (final(state).simulation matches Some(s) && s.profile_name@
            == profile_label(SimProfile::Slack)) && !final(state).cancelled@.contains(
            final(state).simulation->0.cancel,
        ) && effects_view(r@) == seq![
            TrayEffectView::StartSimulation { profile: SimProfile::Slack, cancel: final(state).simulation->0.cancel },
            TrayEffectView::UpdateTray,
        ],
        final(state).cancelled@ == with_stopped(old(state).cancelled@, simulation_token(*old(state))),
        final(state).awake_mode == old(state).awake_mode,
        final(state).awake_guard == old(state).awake_guard,
        final(state).timer == old(state).timer,
        final(state).drive_alive == old(state).drive_alive,
{
    let mut effects: Vec<TrayEffect> = Vec::new();
    if state.simulation.is_some() {
        stop_simulation(state);
        push_effect(&mut effects, TrayEffect::UpdateTray);
        assert(effects_view(effects@) =~= seq![TrayEffectView::UpdateTray]);
    } else {
        let handle = start_simulation(state, &SimProfile::Slack);
        push_effect(&mut effects, TrayEffect::StartSimulation(handle));
        push_effect(&mut effects, TrayEffect::UpdateTray);
        assert(effects_view(effects@) =~= seq![
            TrayEffectView::StartSimulation { profile: SimProfile::Slack, cancel: state.simulation->0.cancel },
            TrayEffectView::UpdateTray,
        ]);
    }
    effects
}

/// The drive task to run, on token `cancel`, after a drive entry is clicked, if any drive
/// remains selected.
pub open spec fn drive_effects(names: Seq<Seq<char>>, cancel: tokio_util::sync::CancellationToken) -> Seq<TrayEffectView> {
    if names.len() > 0 {
        seq![
            TrayEffectView::StartDriveAlive {
                paths: names.map_values(|n: Seq<char>| volume_path_spec(n)),
                cancel,
            },
        ]
    } else {
        Seq::empty()
    }
}

/// A drive entry: flips whether the drive is kept alive (the old task's token cancelled).
pub fn toggle_drive(state: &mut AppState, name: &str) -> (r: Vec<TrayEffect>)
    ensures
        active_drive_names(*final(state)) == toggled(active_drive_names(*old(state)), name@),
        effects_view(r@) == drive_effects(
            toggled(active_drive_names(*old(state)), name@),
            final(state).drive_alive->0.cancel,
        ).push(TrayEffectView::UpdateTray),
        final(state).cancelled@ == with_stopped(old(state).cancelled@, drive_token(*old(state))),
        final(state).drive_alive is Some ==> !final(state).cancelled@.contains(final(state).drive_alive->0.cancel),
        final(state).awake_mode == old(state).awake_mode,
        final(state).awake_guard == old(state).awake_guard,
        final(state).timer == old(state).timer,
        final(state).simulation == old(state).simulation,
{
    let mut effects: Vec<TrayEffect> = Vec::new();
    let task = toggle_drive_alive(state, name);
    if let Some(t) = task {
        push_effect(&mut effects, TrayEffect::StartDriveAlive(t));
    }
    push_effect(&mut effects, TrayEffect::UpdateTray);
    assert(effects_view(effects@) =~= drive_effects(
        toggled(active_drive_names(*old(state)), name@),
        state.drive_alive->0.cancel,
    ).push(TrayEffectView::UpdateTray));
    effects
}

/// A session length entry: the usage session starts, keep-awake is requested in the
/// preferred mode (display-and-system when none is preferred) and the timer starts (the
/// old timer's token cancelled, the countdown on the new one).
pub fn start_session(state: &mut AppState, stats: &mut StatsTracker, preset: TimerPreset) -> (r: Vec<TrayEffect>)
    ensures
        final(stats).session_start is Some,
        final(stats).stats == old(stats).stats,
        activation_outcome(*old(state), *final(state), session_mode(old(state).awake_mode)),
        final(state).timer matches Some(t) && t.preset == preset,
        final(state).cancelled@ == with_stopped(old(state).cancelled@, timer_token(*old(state))),
        !final(state).cancelled@.contains(final(state).timer->0.cancel),
        effects_view(r@) == timer_effects(preset, final(state).timer->0.cancel).push(TrayEffectView::UpdateTray),
        final(state).simulation == old(state).simulation,
        final(state).drive_alive == old(state).drive_alive,
        final(state).inv(),
{
    stats.start_session();
    let preferred = state.awake_mode;
    let mode = match preferred {
        AwakeMode::Off => AwakeMode::DisplayAndSystem,
        _ => preferred,
    };
    let _ = crate::awake::activate(state, mode);
    let schedule = crate::timer::start_timer(state, preset);
    let mut effects: Vec<TrayEffect> = Vec::new();
    push_schedule(&mut effects, schedule, preset, Ghost(state.timer->0.cancel));
    push_effect(&mut effects, TrayEffect::UpdateTray);
    effects
}

/// Carries out a menu command on the session and the usage figures, and returns the
/// outside work left for the caller, in order. `clamshell_enabled` says whether lid-closed
/// sleep is currently prevented. Every background task that is stopped or replaced has its
/// token cancelled; every task handed back runs on the token stored for it.
pub fn handle_command(
    state: &mut AppState,
    stats: &mut StatsTracker,
    cmd: MenuCommand,
    clamshell_enabled: bool,
) -> (r: Vec<TrayEffect>)
    ensures
        old(state).inv() ==> final(state).inv(),
        match cmd@ {
            MenuCommandView::EndSession | MenuCommandView::Quit => {
                &&& final(state).simulation is None
                &&& final(state).drive_alive is None
                &&& final(state).awake_mode == AwakeMode::Off
                &&& final(state).awake_guard is None
                &&& final(state).timer is None
                &&& final(state).cancelled@ == all_tasks_stopped(*old(state))
                &&& session_ended(*old(stats), *final(stats))
                &&& effects_view(r@) == seq![
                    TrayEffectView::DisableClamshell,
                    if cmd@ is Quit { TrayEffectView::Exit } else { TrayEffectView::UpdateTray },
                ]
            },
            MenuCommandView::ToggleKeepDisplay => {
                &&& old(state).awake_mode != AwakeMode::Off ==> activation_outcome(
                    *old(state),
                    *final(state),
                    flipped_display_mode(old(state).awake_mode),
                ) && (final(state).timer matches Some(t) && t.preset == current_preset(*old(state)))
                    && final(state).cancelled@ == with_stopped(old(state).cancelled@, timer_token(*old(state)))
                    && !final(state).cancelled@.contains(final(state).timer->0.cancel)
                    && effects_view(r@) == timer_effects(
                    current_preset(*old(state)),
                    final(state).timer->0.cancel,
                ).push(TrayEffectView::UpdateTray)
                &&& old(state).awake_mode == AwakeMode::Off ==> final(state).awake_mode
                    == AwakeMode::DisplayAndSystem && final(state).awake_guard == old(state).awake_guard
                    && final(state).timer == old(state).timer && final(state).cancelled == old(state).cancelled
                    && effects_view(r@) == seq![TrayEffectView::UpdateTray]
                &&& final(state).simulation == old(state).simulation
                &&& final(state).drive_alive == old(state).drive_alive
                &&& *final(stats) == *old(stats)
            },
            MenuCommandView::ToggleClamshell => {
                &&& *final(state) == *old(state)
                &&& *final(stats) == *old(stats)
                &&& effects_view(r@) == seq![
                    if clamshell_enabled {
                        TrayEffectView::DisableClamshell
                    } else {
                        TrayEffectView::EnableClamshell
                    },
                    TrayEffectView::UpdateTray,
                ]
            },
            MenuCommandView::ToggleJiggle => {
                &&& old(state).simulation is Some ==> final(state).simulation is None && effects_view(r@)
                    == seq![TrayEffectView::UpdateTray]
                &&& old(state).simulation is None ==> (final(state).simulation matches Some(s)
                    && s.profile_name@ == profile_label(SimProfile::Slack)) && !final(state).cancelled@.contains(
                    final(state).simulation->0.cancel,
                ) && effects_view(r@) == seq![
                    TrayEffectView::StartSimulation {
                        profile: SimProfile::Slack,
                        cancel: final(state).simulation->0.cancel,
                    },
                    TrayEffectView::UpdateTray,
                ]
                &&& final(state).cancelled@ == with_stopped(old(state).cancelled@, simulation_token(*old(state)))
                &&& final(state).awake_mode == old(state).awake_mode
                &&& final(state).awake_guard == old(state).awake_guard
                &&& final(state).timer == old(state).timer
                &&& final(state).drive_alive == old(state).drive_alive
                &&& *final(stats) == *old(stats)
            },
            MenuCommandView::ToggleDrive(name) => {
                &&& active_drive_names(*final(state)) == toggled(active_drive_names(*old(state)), name)
                &&& effects_view(r@) == drive_effects(
                    toggled(active_drive_names(*old(state)), name),
                    final(state).drive_alive->0.cancel,
                ).push(TrayEffectView::UpdateTray)
                &&& final(state).cancelled@ == with_stopped(old(state).cancelled@, drive_token(*old(state)))
                &&& final(state).drive_alive is Some ==> !final(state).cancelled@.contains(
                    final(state).drive_alive->0.cancel,
                )
                &&& final(state).awake_mode == old(state).awake_mode
                &&& final(state).awake_guard == old(state).awake_guard
                &&& final(state).timer == old(state).timer
                &&& final(state).simulation == old(state).simulation
                &&& *final(stats) == *old(stats)
            },
            MenuCommandView::StartSession(preset) => {
                &&& final(stats).session_start is Some
                &&& final(stats).stats == old(stats).stats
                &&& activation_outcome(*old(state), *final(state), session_mode(old(state).awake_mode))
                &&& final(state).timer matches Some(t) && t.preset == preset
                &&& final(state).cancelled@ == with_stopped(old(state).cancelled@, timer_token(*old(state)))
                &&& !final(state).cancelled@.contains(final(state).timer->0.cancel)
                &&& effects_view(r@) == timer_effects(preset, final(state).timer->0.cancel).push(
                    TrayEffectView::UpdateTray,
                )
                &&& final(state).simulation == old(state).simulation
                &&& final(state).drive_alive == old(state).drive_alive
            },
            MenuCommandView::Ignore => {
                &&& *final(state) == *old(state)
                &&& *final(stats) == *old(stats)
                &&& r@.len() == 0
            },
        },
{
    match cmd {
        MenuCommand::EndSession => end_session_command(state, stats, false),
        MenuCommand::Quit => end_session_command(state, stats, true),
        MenuCommand::ToggleKeepDisplay => toggle_keep_display(state),
        MenuCommand::ToggleClamshell => toggle_clamshell(clamshell_enabled),
        MenuCommand::ToggleJiggle => toggle_jiggle(state),
        MenuCommand::ToggleDrive(name) => toggle_drive(state, name.as_str()),
        MenuCommand::StartSession(preset) => start_session(state, stats, preset),
        MenuCommand::Ignore => Vec::new(),
    }
}

/// The panic hotkey: stops the simulation and ends keep-awake, cancelling the tokens of the
/// simulation and of the timer.
pub fn panic_stop(state: &mut AppState) -> (r: Vec<TrayEffect>)
    ensures
        final(state).simulation is None,
        final(state).awake_mode == AwakeMode::Off,
        final(state).awake_guard is None,
        final(state).timer is None,
        final(state).drive_alive == old(state).drive_alive,
        final(state).cancelled@ == with_stopped(
            with_stopped(old(state).cancelled@, simulation_token(*old(state))),
            timer_token(*old(state)),
        ),
        effects_view(r@) == seq![TrayEffectView::UpdateTray],
{
    stop_simulation(state);
    let _ = crate::awake::deactivate(state);
    let mut effects: Vec<TrayEffect> = Vec::new();
    push_effect(&mut effects, TrayEffect::UpdateTray);
    assert(effects_view(effects@) =~= seq![TrayEffectView::UpdateTray]);
    effects
}

/// A session timer ran out: keep-awake ends (the timer's token cancelled).
pub fn timer_expired(state: &mut AppState) -> (r: Vec<TrayEffect>)
    ensures
        final(state).awake_mode == AwakeMode::Off,
        final(state).awake_guard is None,
        final(state).timer is None,
        final(state).simulation == old(state).simulation,
        final(state).drive_alive == old(state).drive_alive,
        final(state).cancelled@ == with_stopped(old(state).cancelled@, timer_token(*old(state))),
        effects_view(r@) == seq![TrayEffectView::UpdateTray],
{
    let _ = crate::awake::deactivate(state);
    let mut effects: Vec<TrayEffect> = Vec::new();
    push_effect(&mut effects, TrayEffect::UpdateTray);
    assert(effects_view(effects@) =~= seq![TrayEffectView::UpdateTray]);
    effects
}

} // verus!
