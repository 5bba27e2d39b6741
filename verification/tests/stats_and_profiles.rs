use vyv::profiles::{CustomProfile, SimProfile};
use vyv::stats::{check_milestones, contains_text, dosage_level_for_hours, StatsTracker, UptimeStats};

fn names(v: &[&str]) -> Vec<String> {
    v.iter().map(|s| s.to_string()).collect()
}

#[test]
fn milestones_in_table_order() {
    assert_eq!(check_milestones(0, &vec![]), Vec::<String>::new());
    assert_eq!(check_milestones(1, &vec![]), names(&["First Hour"]));
    assert_eq!(check_milestones(200, &vec![]), names(&["First Hour", "24 Hours", "100 Hours", "1 Week"]));
    assert_eq!(
        check_milestones(5000, &vec![]),
        names(&["First Hour", "24 Hours", "100 Hours", "1 Week", "500 Hours", "1 Month", "1,000 Hours \u{2014} Seek help"])
    );
}

#[test]
fn milestones_skip_seen() {
    let seen = names(&["First Hour", "100 Hours"]);
    assert_eq!(check_milestones(100, &seen), names(&["24 Hours"]));
    assert!(contains_text(&seen, "100 Hours"));
    assert!(!contains_text(&seen, "24 Hours"));
}

#[test]
fn adding_sessions_announces_each_milestone_once() {
    let mut t = StatsTracker::new(None);
    t.add_session(3599);
    assert_eq!(t.stats.total_seconds, 3599);
    assert!(t.stats.milestones_seen.is_empty());
    t.add_session(1);
    assert_eq!(t.stats.milestones_seen, names(&["First Hour"]));
    t.add_session(23 * 3600);
    assert_eq!(t.stats.milestones_seen, names(&["First Hour", "24 Hours"]));
    t.add_session(0);
    assert_eq!(t.stats.milestones_seen, names(&["First Hour", "24 Hours"]));
    assert_eq!(t.stats.total_seconds, 24 * 3600);
}

#[test]
fn dosage_levels() {
    assert_eq!(dosage_level_for_hours(0), "First timer");
    assert_eq!(dosage_level_for_hours(1), "Casual user");
    assert_eq!(dosage_level_for_hours(22), "Casual user");
    assert_eq!(dosage_level_for_hours(23), "Regular dose");
    assert_eq!(dosage_level_for_hours(24), "Regular dose");
    assert_eq!(dosage_level_for_hours(99), "Regular dose");
    assert_eq!(dosage_level_for_hours(100), "Heavy usage");
    assert_eq!(dosage_level_for_hours(499), "Heavy usage");
    assert_eq!(dosage_level_for_hours(500), "Prescription strength");
    assert_eq!(dosage_level_for_hours(999), "Prescription strength");
    assert_eq!(dosage_level_for_hours(1000), "Heroic dose");
}

#[test]
fn tracker_from_persisted_figures() {
    let p = UptimeStats { total_seconds: 23 * 3600 + 60, milestones_seen: names(&["First Hour"]) };
    let t = StatsTracker::new(Some(p));
    assert!(t.session_start.is_none());
    assert_eq!(t.format_total(), "23h 1m");
    assert_eq!(t.get_dosage_level(), "Regular dose");
    let s = t.get_stats();
    assert_eq!(s.total_seconds, 23 * 3600 + 60);
    assert_eq!(s.milestones_seen, names(&["First Hour"]));
    let d = UptimeStats::default();
    assert_eq!(d.total_seconds, 0);
    assert!(d.milestones_seen.is_empty());
    assert_eq!(StatsTracker::new(None).format_total(), "0m");
    assert_eq!(StatsTracker::new(None).get_dosage_level(), "First timer");
}

#[test]
fn total_line_of_the_menu() {
    // "Total: 23h (Regular dose)".
    let t = StatsTracker::new(Some(UptimeStats { total_seconds: 82800, milestones_seen: vec![] }));
    assert_eq!(t.format_total(), "23h");
    assert_eq!(t.get_dosage_level(), "Regular dose");
    assert_eq!(vyv::text::format_total_time(3600 + 300), "1h 5m");
    assert_eq!(vyv::text::format_total_time(45 * 60), "45m");
    assert_eq!(vyv::text::format_total_time(2 * 3600 + 59), "2h");
}

#[test]
fn sessions_against_the_clock() {
    let mut t = StatsTracker::new(None);
    t.end_session();
    assert_eq!(t.stats.total_seconds, 0);
    t.start_session();
    assert!(t.session_start.is_some());
    assert!(t.get_stats().total_seconds < 5);
    assert_eq!(t.stats_with_current(90).total_seconds, 90);
    t.end_session();
    assert!(t.session_start.is_none());
    assert!(t.stats.total_seconds < 5);
    assert!(t.stats.milestones_seen.is_empty());
}

#[test]
fn builtin_profile_settings() {
    let b = SimProfile::builtin_profiles();
    assert_eq!(b, vec![SimProfile::Slack, SimProfile::Teams, SimProfile::Zoom]);
    assert_eq!(SimProfile::Slack.label(), "Slack");
    assert_eq!(SimProfile::Teams.label(), "Teams");
    assert_eq!(SimProfile::Zoom.label(), "Zoom");
    assert!(SimProfile::Slack.mouse_movement() && !SimProfile::Slack.keyboard_input());
    assert!(SimProfile::Teams.mouse_movement() && SimProfile::Teams.keyboard_input());
    assert!(SimProfile::Zoom.mouse_movement() && !SimProfile::Zoom.keyboard_input());
    assert_eq!(SimProfile::Slack.interval_range(), (60_000, 120_000));
    assert_eq!(SimProfile::Teams.interval_range(), (45_000, 90_000));
    assert_eq!(SimProfile::Zoom.interval_range(), (30_000, 60_000));
}

#[test]
fn custom_profile_settings() {
    let c = SimProfile::Custom(CustomProfile {
        name: "Mine".to_string(),
        mouse_movement: false,
        keyboard_input: true,
        interval_min_ms: 10,
        interval_max_ms: 20,
    });
    assert_eq!(c.label(), "Mine");
    assert!(!c.mouse_movement());
    assert!(c.keyboard_input());
    assert_eq!(c.interval_range(), (10, 20));
    assert_eq!(c.duplicate(), c);
}
