use vyv::clamshell::{
    install_outcome, pmset_outcome, escape_for_applescript, install_failure_message, install_script, is_sudoers_installed, pmset_args,
    pmset_failure_message, sleep_disabled_in,
};
use vyv::drive_alive::{
    info_describes_disk_image, is_candidate_volume_name, keepalive_path, ping_contents, sort_drive_names,
};

#[test]
fn applescript_escaping() {
    assert_eq!(escape_for_applescript("a\nb\"c"), "a\\nb\\\"c");
    assert_eq!(escape_for_applescript("plain"), "plain");
    let content = "Cmnd_Alias PMSET_VYV= /usr/bin/pmset -a disablesleep 1, /usr/bin/pmset -a disablesleep 0\n%admin ALL=(ALL) NOPASSWD: PMSET_VYV\n";
    let expected = format!(
        r#"do shell script "echo '{}' | sudo tee {} > /dev/null && sudo chmod 440 {}" with administrator privileges"#,
        content.replace('\n', "\\n").replace('"', r#"\""#),
        "/etc/sudoers.d/vyv_power",
        "/etc/sudoers.d/vyv_power"
    );
    assert_eq!(install_script(), expected);
    assert!(!install_script().contains('\n'));
}

#[test]
fn install_errors() {
    assert_eq!(install_failure_message("execution error: User canceled. (-128)"), "User cancelled the authorization");
    assert_eq!(install_failure_message("error -128"), "User cancelled the authorization");
    assert_eq!(install_failure_message("disk full"), "Failed to install sudoers: disk full");
    assert_eq!(pmset_failure_message("denied"), "pmset failed: denied");
}

#[test]
fn pmset_arguments() {
    assert_eq!(pmset_args(true), vec!["/usr/bin/pmset", "-a", "disablesleep", "1"]);
    assert_eq!(pmset_args(false), vec!["/usr/bin/pmset", "-a", "disablesleep", "0"]);
}

#[test]
fn pmset_output_parsing() {
    assert!(sleep_disabled_in("System-wide power settings:\n SleepDisabled\t\t1\n"));
    assert!(sleep_disabled_in(" SleepDisabled 1  \r\nother 0"));
    assert!(!sleep_disabled_in(" SleepDisabled\t\t0\n"));
    assert!(!sleep_disabled_in("sleep 1\nSleepDisabled 0"));
    assert!(!sleep_disabled_in(""));
    assert!(sleep_disabled_in("x\nSleepDisabled 1"));
}

#[test]
fn sudoers_not_installed_here() {
    assert!(!is_sudoers_installed());
}

#[test]
fn volume_names() {
    assert!(is_candidate_volume_name("Macintosh HD"));
    assert!(is_candidate_volume_name("Backup"));
    assert!(!is_candidate_volume_name(".hidden"));
    assert!(!is_candidate_volume_name("dmg.AbC123"));
    assert!(is_candidate_volume_name("dmgfoo"));
    assert!(info_describes_disk_image("   Protocol: Disk Image\n"));
    assert!(!info_describes_disk_image("   Protocol: USB\n"));
}

#[test]
fn keepalive_files() {
    assert_eq!(keepalive_path("/Volumes/Backup"), "/Volumes/Backup/.vyv_keepalive");
    assert_eq!(keepalive_path("/"), "/.vyv_keepalive");
    assert_eq!(ping_contents(1700000000), "1700000000");
}

#[test]
fn drive_names_sorted() {
    let v: Vec<String> = ["Zed", "Backup", "Macintosh HD", "backup", "B"].iter().map(|s| s.to_string()).collect();
    let mut expected = v.clone();
    expected.sort();
    assert_eq!(sort_drive_names(v), expected);
    assert!(sort_drive_names(vec![]).is_empty());
}

#[test]
fn run_outcomes() {
    assert_eq!(install_outcome(true, "ignored"), Ok(()));
    assert_eq!(install_outcome(false, "User canceled."), Err("User cancelled the authorization".to_string()));
    assert_eq!(install_outcome(false, "no space"), Err("Failed to install sudoers: no space".to_string()));
    assert_eq!(pmset_outcome(true, ""), Ok(()));
    assert_eq!(pmset_outcome(false, "denied"), Err("pmset failed: denied".to_string()));
}
