use vyv::state::{AppState, AwakeMode, TimerPreset};
use vyv::text::{decimal_string, format_hours_minutes, str_contains, str_eq, str_starts_with, chars_of, copy_strings};
use vyv::timer::{format_remaining, remaining_after, remaining_secs, start_timer, cancel_timer};

#[test]
fn awake_mode_names() {
    assert_eq!(AwakeMode::Off.to_string(), "Off");
    assert_eq!(AwakeMode::SystemOnly.to_string(), "System Only");
    assert_eq!(AwakeMode::DisplayAndSystem.to_string(), "Display + System");
}

#[test]
fn preset_labels_and_durations() {
    assert_eq!(TimerPreset::Min5.label(), "5 minutes");
    assert_eq!(TimerPreset::Hour1.label(), "1 hour");
    assert_eq!(TimerPreset::Hour8.label(), "8 hours");
    assert_eq!(TimerPreset::Indefinite.label(), "Indefinite");
    assert_eq!(TimerPreset::Min5.duration_secs(), Some(300));
    assert_eq!(TimerPreset::Min45.duration_secs(), Some(2700));
    assert_eq!(TimerPreset::Hour2.duration_secs(), Some(7200));
    assert_eq!(TimerPreset::Hour8.duration_secs(), Some(28800));
    assert_eq!(TimerPreset::Indefinite.duration_secs(), None);
}

#[test]
fn decimal_rendering() {
    assert_eq!(decimal_string(0), "0");
    assert_eq!(decimal_string(7), "7");
    assert_eq!(decimal_string(10), "10");
    assert_eq!(decimal_string(1234567890), "1234567890");
    assert_eq!(decimal_string(u64::MAX), u64::MAX.to_string());
}

#[test]
fn hours_and_minutes() {
    assert_eq!(format_hours_minutes(0), "0m");
    assert_eq!(format_hours_minutes(59), "0m");
    assert_eq!(format_hours_minutes(60), "1m");
    assert_eq!(format_hours_minutes(3599), "59m");
    assert_eq!(format_hours_minutes(3600), "1h 0m");
    // 1 hour, 47 minutes and some seconds: seconds never show.
    assert_eq!(format_hours_minutes(3600 + 47 * 60 + 12), "1h 47m");
    assert_eq!(format_remaining(23 * 3600 + 5 * 60), "23h 5m");
    assert_eq!(format_remaining(100 * 3600), "100h 0m");
}

#[test]
fn string_helpers() {
    assert!(str_eq("abc", "abc"));
    assert!(!str_eq("abc", "abd"));
    assert!(!str_eq("abc", "ab"));
    assert!(str_contains("SleepDisabled 1", "Disabled"));
    assert!(str_contains("abc", ""));
    assert!(!str_contains("ab", "abc"));
    assert!(str_starts_with("da_drive_X", "da_drive_"));
    assert!(!str_starts_with("da_driv", "da_drive_"));
    assert_eq!(chars_of("h\u{e9}!"), vec!['h', '\u{e9}', '!']);
    let v = vec!["a".to_string(), "b".to_string()];
    assert_eq!(copy_strings(&v), v);
}

#[test]
fn remaining_time_counts_down() {
    assert_eq!(remaining_after(TimerPreset::Min5, 0), Some(300));
    assert_eq!(remaining_after(TimerPreset::Min5, 100), Some(200));
    assert_eq!(remaining_after(TimerPreset::Min5, 300), Some(0));
    assert_eq!(remaining_after(TimerPreset::Min5, 10_000), Some(0));
    assert_eq!(remaining_after(TimerPreset::Indefinite, 5), None);
}

#[test]
fn new_state_is_off() {
    let s = AppState::new();
    assert_eq!(s.awake_mode, AwakeMode::Off);
    assert!(s.timer.is_none());
    assert!(s.awake_guard.is_none());
    assert!(s.simulation.is_none());
    assert!(s.drive_alive.is_none());
}

#[test]
fn timer_start_replace_and_cancel() {
    let mut s = AppState::new();
    assert_eq!(remaining_secs(&s), None);
    let sched = start_timer(&mut s, TimerPreset::Min10);
    assert_eq!(sched.as_ref().map(|x| x.secs), Some(600));
    assert_eq!(s.timer.as_ref().map(|t| t.preset), Some(TimerPreset::Min10));
    let r = remaining_secs(&s).unwrap();
    assert!(r <= 600 && r >= 590);
    // Replacing the timer cancels the old countdown.
    let old_token = sched.unwrap().cancel;
    let sched2 = start_timer(&mut s, TimerPreset::Indefinite);
    assert!(old_token.is_cancelled());
    // The new timer's token is fresh.
    assert!(!s.timer.as_ref().unwrap().cancel.is_cancelled());
    assert!(!(s.timer.as_ref().unwrap().cancel == old_token));
    assert!(sched2.is_none());
    assert_eq!(remaining_secs(&s), None);
    let token = s.timer.as_ref().unwrap().cancel.clone();
    assert!(cancel_timer(&mut s).is_ok());
    assert!(s.timer.is_none());
    assert!(token.is_cancelled());
}
