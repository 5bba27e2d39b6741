use vyv::battery_monitor::{battery_response, battery_step, needs_battery_check, BatteryAction, BatteryResponse};
use vyv::process_monitor::{process_step, processes_match};
use vyv::profiles::{CustomProfile, SimProfile};
use vyv::simulation::{next_delay_ms, plan_action, simulate_action, SimStep};
use vyv::state::{AppState, AwakeMode, TimerPreset};

fn strings(v: &[&str]) -> Vec<String> {
    v.iter().map(|s| s.to_string()).collect()
}

#[test]
fn battery_decisions() {
    assert!(!needs_battery_check(AwakeMode::Off));
    assert!(needs_battery_check(AwakeMode::SystemOnly));
    assert_eq!(battery_response(AwakeMode::Off, Some(true), BatteryAction::Deactivate), BatteryResponse::Nothing);
    assert_eq!(battery_response(AwakeMode::DisplayAndSystem, None, BatteryAction::Deactivate), BatteryResponse::Nothing);
    assert_eq!(battery_response(AwakeMode::DisplayAndSystem, Some(false), BatteryAction::Deactivate), BatteryResponse::Nothing);
    assert_eq!(battery_response(AwakeMode::DisplayAndSystem, Some(true), BatteryAction::Deactivate), BatteryResponse::Deactivate);
    assert_eq!(
        battery_response(AwakeMode::DisplayAndSystem, Some(true), BatteryAction::SwitchToSystemOnly),
        BatteryResponse::SwitchToSystemOnly
    );
    assert_eq!(battery_response(AwakeMode::SystemOnly, Some(true), BatteryAction::SwitchToSystemOnly), BatteryResponse::Nothing);
}

#[test]
fn low_battery_ends_session() {
    let mut s = AppState::new();
    s.awake_mode = AwakeMode::SystemOnly;
    vyv::timer::start_timer(&mut s, TimerPreset::Hour1);
    assert!(!battery_step(&mut s, Some(false), BatteryAction::Deactivate));
    assert_eq!(s.awake_mode, AwakeMode::SystemOnly);
    assert!(battery_step(&mut s, Some(true), BatteryAction::Deactivate));
    assert_eq!(s.awake_mode, AwakeMode::Off);
    assert!(s.timer.is_none());
    assert!(!battery_step(&mut s, Some(true), BatteryAction::Deactivate));
}

#[test]
fn process_names_match_ignoring_case() {
    let running = strings(&["systemd", "ZoomVideo", "bash"]);
    assert!(processes_match(&running, &strings(&["zoom"])));
    assert!(processes_match(&running, &strings(&["VIDEO"])));
    assert!(!processes_match(&running, &strings(&["slack"])));
    assert!(!processes_match(&running, &vec![]));
    assert!(!processes_match(&vec![], &strings(&["zoom"])));
}

#[test]
fn process_monitor_only_ends_its_own_sessions() {
    let mut s = AppState::new();
    let step = process_step(&mut s, true, false);
    assert!(step.refresh && step.auto_activated);
    assert_eq!(s.timer.as_ref().map(|t| t.preset), Some(TimerPreset::Indefinite));
    if s.awake_guard.is_some() {
        assert_eq!(s.awake_mode, AwakeMode::DisplayAndSystem);
    }
    // A session the user started is left alone.
    let mut user = AppState::new();
    user.awake_mode = AwakeMode::SystemOnly;
    let step = process_step(&mut user, false, false);
    assert!(!step.refresh && !step.auto_activated);
    assert_eq!(user.awake_mode, AwakeMode::SystemOnly);
    // One the monitor started ends when the process goes away.
    let step = process_step(&mut user, false, true);
    assert!(step.refresh && !step.auto_activated);
    assert_eq!(user.awake_mode, AwakeMode::Off);
}

#[test]
fn action_plans() {
    let p = plan_action(true, true, 2, -3, 60, 150, 40);
    assert_eq!(
        p,
        vec![
            SimStep::MoveMouse { dx: 2, dy: -3 },
            SimStep::Pause { ms: 60 },
            SimStep::MoveMouse { dx: -2, dy: 3 },
            SimStep::Pause { ms: 150 },
            SimStep::PressShift,
            SimStep::Pause { ms: 40 },
            SimStep::ReleaseShift,
        ]
    );
    assert!(plan_action(false, false, 0, 0, 50, 100, 30).is_empty());
    assert_eq!(
        plan_action(true, false, 40, -7, 10, 0, 0),
        vec![SimStep::MoveMouse { dx: 40, dy: -7 }, SimStep::Pause { ms: 10 }, SimStep::MoveMouse { dx: -40, dy: 7 }]
    );
}

#[test]
fn random_actions_stay_in_range_and_return_pointer() {
    for _ in 0..200 {
        let steps = simulate_action(true, true);
        assert_eq!(steps.len(), 7);
        let (mut x, mut y) = (0i32, 0i32);
        for s in &steps {
            match *s {
                SimStep::MoveMouse { dx, dy } => {
                    assert!((-3..=3).contains(&dx) && (-3..=3).contains(&dy));
                    x += dx;
                    y += dy;
                }
                SimStep::Pause { ms } => assert!((30..300).contains(&ms)),
                _ => {}
            }
        }
        assert_eq!((x, y), (0, 0));
    }
    assert_eq!(simulate_action(false, true).len(), 4);
}

#[test]
fn delays_within_profile_bounds() {
    for _ in 0..200 {
        let d = next_delay_ms(&SimProfile::Slack);
        assert!((60_000..=120_000).contains(&d));
    }
    let fixed = SimProfile::Custom(CustomProfile {
        name: "fixed".to_string(),
        mouse_movement: true,
        keyboard_input: false,
        interval_min_ms: 7,
        interval_max_ms: 7,
    });
    assert_eq!(next_delay_ms(&fixed), 7);
}
