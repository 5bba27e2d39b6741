use vyv::awake::{activate, deactivate, finish_activation, keep_awake_request};
use vyv::profiles::SimProfile;
use vyv::state::{AppState, AwakeMode, TimerPreset};
use vyv::stats::StatsTracker;
use vyv::tray::{
    build_menu, current_or_default_preset, handle_command, icon_active, menu_entries, panic_stop, parse_menu_id,
    status_text, timer_expired, toggled_drives, tooltip_text, volume_paths, MenuCommand, MenuEntryKind, MenuInputs,
    TrayEffect,
};

fn strings(v: &[&str]) -> Vec<String> {
    v.iter().map(|s| s.to_string()).collect()
}

fn kinds(effects: &[TrayEffect]) -> Vec<&'static str> {
    effects
        .iter()
        .map(|e| match e {
            TrayEffect::DisableClamshell => "disable_clamshell",
            TrayEffect::EnableClamshell => "enable_clamshell",
            TrayEffect::UpdateTray => "update",
            TrayEffect::Exit => "exit",
            TrayEffect::ScheduleTimer(_) => "schedule",
            TrayEffect::StartSimulation(_) => "simulate",
            TrayEffect::StartDriveAlive(_) => "drives",
        })
        .collect()
}

#[test]
fn keep_awake_requests() {
    let r = keep_awake_request(AwakeMode::DisplayAndSystem);
    assert!(r.display && r.idle && r.sleep);
    assert_eq!(r.reason, "Vyv is keeping your computer awake");
    assert_eq!(r.app_name, "Vyv");
    assert_eq!(r.app_reverse_domain, "com.vyv.app");
    let r = keep_awake_request(AwakeMode::SystemOnly);
    assert!(!r.display && r.idle && r.sleep);
    assert_eq!(r.reason, "Vyv is keeping your system awake (display may sleep)");
}

#[test]
fn refused_activation_keeps_mode() {
    let mut s = AppState::new();
    let r = finish_activation(&mut s, AwakeMode::SystemOnly, Err("no bus".to_string()));
    assert_eq!(r, Err("Failed to activate keepawake: no bus".to_string()));
    assert_eq!(s.awake_mode, AwakeMode::Off);
    assert!(s.awake_guard.is_none());
}

#[test]
fn activation_against_the_system() {
    let mut s = AppState::new();
    match activate(&mut s, AwakeMode::DisplayAndSystem) {
        Ok(()) => {
            assert!(s.awake_guard.is_some());
            assert_eq!(s.awake_mode, AwakeMode::DisplayAndSystem);
        }
        Err(e) => {
            assert!(e.starts_with("Failed to activate keepawake: "));
            assert!(e.len() > "Failed to activate keepawake: ".len());
            assert!(s.awake_guard.is_none());
            assert_eq!(s.awake_mode, AwakeMode::Off);
        }
    }
    assert_eq!(activate(&mut s, AwakeMode::Off), Ok(()));
    assert!(s.awake_guard.is_none());
    assert_eq!(s.awake_mode, AwakeMode::Off);
}

#[test]
fn deactivation_stops_timer() {
    let mut s = AppState::new();
    s.awake_mode = AwakeMode::SystemOnly;
    vyv::timer::start_timer(&mut s, TimerPreset::Min5);
    let token = s.timer.as_ref().unwrap().cancel.clone();
    assert_eq!(deactivate(&mut s), Ok(()));
    assert_eq!(s.awake_mode, AwakeMode::Off);
    assert!(s.timer.is_none());
    assert!(token.is_cancelled());
}

#[test]
fn menu_ids() {
    assert!(matches!(parse_menu_id("end_session"), MenuCommand::EndSession));
    assert!(matches!(parse_menu_id("quit"), MenuCommand::Quit));
    assert!(matches!(parse_menu_id("qs_keep_display"), MenuCommand::ToggleKeepDisplay));
    assert!(matches!(parse_menu_id("qs_prevent_clamshell"), MenuCommand::ToggleClamshell));
    assert!(matches!(parse_menu_id("qs_jiggle"), MenuCommand::ToggleJiggle));
    match parse_menu_id("da_drive_My Disk") {
        MenuCommand::ToggleDrive(n) => assert_eq!(n, "My Disk"),
        _ => panic!("expected a drive"),
    }
    assert!(matches!(parse_menu_id("timer_min5"), MenuCommand::StartSession(TimerPreset::Min5)));
    assert!(matches!(parse_menu_id("timer_hour8"), MenuCommand::StartSession(TimerPreset::Hour8)));
    assert!(matches!(parse_menu_id("timer_indefinite"), MenuCommand::StartSession(TimerPreset::Indefinite)));
    assert!(matches!(parse_menu_id("timer_min6"), MenuCommand::Ignore));
    assert!(matches!(parse_menu_id("status"), MenuCommand::Ignore));
}

#[test]
fn status_and_tooltip_texts() {
    assert_eq!(status_text(false, AwakeMode::Off, None), "Vyv: Off");
    assert_eq!(status_text(true, AwakeMode::DisplayAndSystem, Some(6420)), "Vyv: Display + System \u{2014} 1h 47m");
    assert_eq!(status_text(true, AwakeMode::SystemOnly, None), "Vyv: System Only \u{2014} Indefinite");
    assert_eq!(tooltip_text(AwakeMode::Off, Some(5)), "Vyv \u{2014} Off");
    assert_eq!(tooltip_text(AwakeMode::SystemOnly, Some(300)), "Vyv \u{2014} System Only (5m)");
    assert_eq!(tooltip_text(AwakeMode::DisplayAndSystem, None), "Vyv \u{2014} Display + System (Indefinite)");
    assert!(icon_active(AwakeMode::SystemOnly));
    assert!(!icon_active(AwakeMode::Off));
}

#[test]
fn menu_layout_outside_session() {
    let m = MenuInputs {
        is_active: false,
        mode: AwakeMode::Off,
        remaining: None,
        sim_active: true,
        clamshell_enabled: false,
        active_drives: strings(&["B"]),
        available_drives: strings(&["A", "B"]),
        total_time: "23h 0m".to_string(),
        dosage: "Casual user".to_string(),
    };
    let v = menu_entries(&m);
    let ids: Vec<&str> = v.iter().map(|e| e.id.as_str()).collect();
    assert_eq!(
        ids,
        vec![
            "status", "", "start_header", "timer_indefinite", "minutes_sub", "timer_min5", "timer_min10",
            "timer_min15", "timer_min30", "timer_min45", "", "hours_sub", "timer_hour1", "timer_hour2",
            "timer_hour4", "timer_hour8", "", "", "settings_submenu", "qs_keep_display", "qs_prevent_clamshell",
            "qs_jiggle", "drive_alive_sub", "da_drive_A", "da_drive_B", "", "", "", "stats", "", "quit",
        ]
    );
    assert_eq!(v[0].label, "Vyv: Off");
    assert!(!v[0].enabled);
    assert_eq!(v[1].kind, MenuEntryKind::Separator);
    assert!(!v[2].enabled);
    assert_eq!(v[3].label, "  Indefinitely");
    assert_eq!(v[4].kind, MenuEntryKind::SubmenuStart);
    assert_eq!(v[10].kind, MenuEntryKind::SubmenuEnd);
    assert!(!v[19].checked && !v[20].checked && v[21].checked);
    assert!(!v[23].checked && v[24].checked);
    assert_eq!(v[24].label, "B");
    assert_eq!(v[28].label, "Total: 23h 0m (Casual user)");
    assert_eq!(v[30].label, "Quit Vyv");
}

#[test]
fn menu_layout_during_session() {
    let m = MenuInputs {
        is_active: true,
        mode: AwakeMode::DisplayAndSystem,
        remaining: Some(600),
        sim_active: false,
        clamshell_enabled: true,
        active_drives: vec![],
        available_drives: vec![],
        total_time: "0m".to_string(),
        dosage: "First timer".to_string(),
    };
    let v = menu_entries(&m);
    assert_eq!(v[0].label, "Vyv: Display + System \u{2014} 10m");
    assert_eq!(v[2].id, "end_session");
    assert_eq!(v[2].label, "End Session");
    assert_eq!(v[5].id, "qs_keep_display");
    assert!(v[5].checked);
    assert!(v[6].checked);
    assert_eq!(v[9].id, "da_none");
    assert_eq!(v[9].label, "No external drives found");
    assert!(!v[9].enabled);
    assert_eq!(v.len(), 16);
}

#[test]
fn menu_from_state() {
    let s = AppState::new();
    let stats = StatsTracker::new(None);
    let v = build_menu(&s, &stats, &strings(&["X"]), false);
    assert_eq!(v[0].label, "Vyv: Off");
    let last_stats = v.iter().find(|e| e.id == "stats").unwrap();
    assert_eq!(last_stats.label, "Total: 0m (First timer)");
}

#[test]
fn drive_toggling() {
    let d = strings(&["A", "B"]);
    assert_eq!(toggled_drives(&d, "C"), strings(&["A", "B", "C"]));
    assert_eq!(toggled_drives(&d, "A"), strings(&["B"]));
    assert_eq!(toggled_drives(&toggled_drives(&d, "C"), "C"), d);
    assert_eq!(toggled_drives(&strings(&["A", "B", "A"]), "A"), strings(&["B"]));
    // Clicking a listed drive twice gives back the same set of drives.
    assert_eq!(toggled_drives(&toggled_drives(&d, "A"), "A"), strings(&["B", "A"]));
    assert_eq!(volume_paths(&d), strings(&["/Volumes/A", "/Volumes/B"]));
}

#[test]
fn session_commands() {
    let mut s = AppState::new();
    let mut stats = StatsTracker::new(None);
    let eff = handle_command(&mut s, &mut stats, parse_menu_id("timer_min30"), false);
    assert_eq!(kinds(&eff), vec!["schedule", "update"]);
    match &eff[0] {
        TrayEffect::ScheduleTimer(t) => {
            assert_eq!(t.secs, 1800);
            assert!(t.cancel == s.timer.as_ref().unwrap().cancel);
        }
        _ => panic!("expected a countdown"),
    }
    let first_timer = s.timer.as_ref().unwrap().cancel.clone();
    assert!(stats.session_start.is_some());
    assert_eq!(current_or_default_preset(&s), TimerPreset::Min30);
    if s.awake_guard.is_some() {
        assert_eq!(s.awake_mode, AwakeMode::DisplayAndSystem);
    } else {
        assert_eq!(s.awake_mode, AwakeMode::Off);
    }
    let eff = handle_command(&mut s, &mut stats, MenuCommand::ToggleJiggle, false);
    assert_eq!(kinds(&eff), vec!["simulate", "update"]);
    match &eff[0] {
        TrayEffect::StartSimulation(h) => assert_eq!(h.profile, SimProfile::Slack),
        _ => panic!("expected a simulation"),
    }
    assert_eq!(s.simulation.as_ref().unwrap().profile_name, "Slack");
    let sim_token = s.simulation.as_ref().unwrap().cancel.clone();
    let eff = handle_command(&mut s, &mut stats, MenuCommand::ToggleDrive("Backup".to_string()), false);
    assert_eq!(kinds(&eff), vec!["drives", "update"]);
    match &eff[0] {
        TrayEffect::StartDriveAlive(t) => {
            assert_eq!(t.paths, strings(&["/Volumes/Backup"]));
            assert!(t.cancel == s.drive_alive.as_ref().unwrap().cancel);
        }
        _ => panic!("expected drives"),
    }
    let drive_token = s.drive_alive.as_ref().unwrap().cancel.clone();
    assert!(!first_timer.is_cancelled() && !sim_token.is_cancelled() && !drive_token.is_cancelled());
    let eff = handle_command(&mut s, &mut stats, MenuCommand::EndSession, true);
    assert!(first_timer.is_cancelled() && sim_token.is_cancelled() && drive_token.is_cancelled());
    assert_eq!(kinds(&eff), vec!["disable_clamshell", "update"]);
    assert!(s.simulation.is_none() && s.drive_alive.is_none() && s.timer.is_none() && s.awake_guard.is_none());
    assert_eq!(s.awake_mode, AwakeMode::Off);
    assert!(stats.session_start.is_none());
    let eff = handle_command(&mut s, &mut stats, MenuCommand::Quit, false);
    assert_eq!(kinds(&eff), vec!["disable_clamshell", "exit"]);
}

#[test]
fn settings_commands() {
    let mut s = AppState::new();
    let mut stats = StatsTracker::new(None);
    // Outside a session the display toggle only sets the preference.
    let eff = handle_command(&mut s, &mut stats, MenuCommand::ToggleKeepDisplay, false);
    assert_eq!(kinds(&eff), vec!["update"]);
    assert_eq!(s.awake_mode, AwakeMode::DisplayAndSystem);
    assert!(s.awake_guard.is_none());
    assert_eq!(kinds(&handle_command(&mut s, &mut stats, MenuCommand::ToggleClamshell, true)), vec![
        "disable_clamshell",
        "update"
    ]);
    assert_eq!(kinds(&handle_command(&mut s, &mut stats, MenuCommand::ToggleClamshell, false)), vec![
        "enable_clamshell",
        "update"
    ]);
    assert!(handle_command(&mut s, &mut stats, MenuCommand::Ignore, false).is_empty());
    // Toggling a drive twice stops keeping it alive.
    handle_command(&mut s, &mut stats, MenuCommand::ToggleDrive("A".to_string()), false);
    let eff = handle_command(&mut s, &mut stats, MenuCommand::ToggleDrive("A".to_string()), false);
    assert_eq!(kinds(&eff), vec!["update"]);
    assert!(s.drive_alive.is_none());
    // Toggling the jiggle twice stops it.
    handle_command(&mut s, &mut stats, MenuCommand::ToggleJiggle, false);
    let token = s.simulation.as_ref().unwrap().cancel.clone();
    handle_command(&mut s, &mut stats, MenuCommand::ToggleJiggle, false);
    assert!(s.simulation.is_none());
    assert!(token.is_cancelled());
}

#[test]
fn panic_and_expiry() {
    let mut s = AppState::new();
    let mut stats = StatsTracker::new(None);
    handle_command(&mut s, &mut stats, MenuCommand::ToggleJiggle, false);
    let sim_token = s.simulation.as_ref().unwrap().cancel.clone();
    s.awake_mode = AwakeMode::SystemOnly;
    let eff = panic_stop(&mut s);
    assert!(sim_token.is_cancelled());
    assert_eq!(kinds(&eff), vec!["update"]);
    assert!(s.simulation.is_none());
    assert_eq!(s.awake_mode, AwakeMode::Off);
    s.awake_mode = AwakeMode::SystemOnly;
    let countdown = vyv::timer::start_timer(&mut s, TimerPreset::Min5).unwrap();
    assert!(countdown.cancel == s.timer.as_ref().unwrap().cancel);
    let eff = timer_expired(&mut s);
    assert!(countdown.cancel.is_cancelled());
    assert_eq!(kinds(&eff), vec!["update"]);
    assert_eq!(s.awake_mode, AwakeMode::Off);
    assert!(s.timer.is_none());
}

#[test]
fn keep_display_toggle_during_session() {
    let mut s = AppState::new();
    let mut stats = StatsTracker::new(None);
    s.awake_mode = AwakeMode::SystemOnly;
    vyv::timer::start_timer(&mut s, TimerPreset::Hour2);
    let eff = handle_command(&mut s, &mut stats, MenuCommand::ToggleKeepDisplay, false);
    // The timer restarts with the same preset.
    assert_eq!(kinds(&eff), vec!["schedule", "update"]);
    assert_eq!(current_or_default_preset(&s), TimerPreset::Hour2);
    if s.awake_guard.is_some() {
        assert_eq!(s.awake_mode, AwakeMode::DisplayAndSystem);
        handle_command(&mut s, &mut stats, MenuCommand::ToggleKeepDisplay, false);
        if s.awake_guard.is_some() {
            assert_eq!(s.awake_mode, AwakeMode::SystemOnly);
        }
    } else {
        assert_eq!(s.awake_mode, AwakeMode::SystemOnly);
    }
}

#[test]
fn replaced_tasks_get_fresh_tokens() {
    let mut s = AppState::new();
    let mut stats = StatsTracker::new(None);
    handle_command(&mut s, &mut stats, MenuCommand::ToggleDrive("A".to_string()), false);
    let first = s.drive_alive.as_ref().unwrap().cancel.clone();
    let eff = handle_command(&mut s, &mut stats, MenuCommand::ToggleDrive("B".to_string()), false);
    let second = s.drive_alive.as_ref().unwrap().cancel.clone();
    assert!(first.is_cancelled());
    assert!(!second.is_cancelled());
    match &eff[0] {
        TrayEffect::StartDriveAlive(t) => {
            assert!(t.cancel == second);
            assert_eq!(t.paths, strings(&["/Volumes/A", "/Volumes/B"]));
        }
        _ => panic!("expected drives"),
    }
    let eff = handle_command(&mut s, &mut stats, parse_menu_id("timer_min5"), false);
    match &eff[0] {
        TrayEffect::ScheduleTimer(t) => assert!(!t.cancel.is_cancelled()),
        _ => panic!("expected a countdown"),
    }
}
