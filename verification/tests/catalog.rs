use hardening_engine::catalog::{
    c12_ensure_secure_screensaver_corners, c17_disable_remote_login, c1_enable_os_autoupdate,
    c22_disable_airdrop, c25_enable_firewall, c34_configure_sleep_settings_based_on_cpu,
    c36_disable_powernap_based_on_cpu, c38_configure_auditing_flags,
    c39_configure_install_log_retention, c40_configure_auditing_retention,
    c46_secure_home_folders, c48_ensure_permissions_for_system_apps,
    c64_remove_password_hints, c71_enable_show_all_filename_extensions,
    c74_enable_cross_site_tracking_prevention, c78_disable_bluetooth_sharing,
    c79_set_login_window_banner, c80_restart_wazuh_agent, c8_show_bluetooth_status,
};
use hardening_engine::errors::EngineError;

fn strings(xs: &[&str]) -> Vec<String> {
    xs.iter().map(|x| x.to_string()).collect()
}

#[test]
fn c1_fields_are_pinned() {
    let c = c1_enable_os_autoupdate();
    assert_eq!(c.name, "c1_enable_os_autoupdate");
    assert_eq!(c.description, "1.6 Ensure Install of macOS Updates Is Enabled");
    assert_eq!(c.executable, "sudo");
    assert_eq!(
        c.args,
        strings(&[
            "/usr/bin/defaults",
            "write",
            "/Library/Preferences/com.apple.SoftwareUpdate",
            "AutomaticallyInstallMacOSUpdates",
            "-bool",
            "true",
        ])
    );
    assert!(c.dynamic_args.is_none());
    assert!(!c.needs_interactive_input);
}

#[test]
fn c25_firewall_args() {
    let c = c25_enable_firewall();
    assert_eq!(
        c.args,
        strings(&[
            "/usr/bin/defaults",
            "write",
            "/Library/Preferences/com.apple.alfglobalstate",
            "-int",
            "1",
        ])
    );
}

#[test]
fn c17_is_the_only_interactive_action() {
    assert!(c17_disable_remote_login().needs_interactive_input);
    assert!(!c1_enable_os_autoupdate().needs_interactive_input);
    assert!(!c25_enable_firewall().needs_interactive_input);
    assert!(!c79_set_login_window_banner().needs_interactive_input);
}

#[test]
fn c79_writes_the_banner_through_sh() {
    let c = c79_set_login_window_banner();
    assert_eq!(c.executable, "sh");
    assert_eq!(c.args[0], "-c");
    assert!(c.args[1].starts_with("sudo tee /Library/Security/PolicyBanner.txt"));
    assert!(c.args[1].contains("This system is the property of [ORGANIZATION]."));
}

#[test]
fn c8_one_action_per_user() {
    let users = strings(&["alice", "bob"]);
    let cs = c8_show_bluetooth_status(&users);
    assert_eq!(cs.len(), 2);
    assert_eq!(cs[0].name, "c8_show_bluetooth_status_for_everyuser");
    assert_eq!(
        cs[0].args,
        strings(&[
            "-u",
            "alice",
            "defaults",
            "-currentHost",
            "write",
            "com.apple.controlcenter.plist",
            "Bluetooth",
            "-int",
            "18",
        ])
    );
    assert_eq!(cs[1].args[1], "bob");
}

#[test]
fn per_entity_rule_over_zero_entities_yields_zero_actions() {
    let none: Vec<String> = Vec::new();
    assert_eq!(c22_disable_airdrop(&none).len(), 0);
    assert_eq!(c8_show_bluetooth_status(&none).len(), 0);
    assert_eq!(c12_ensure_secure_screensaver_corners(&none).len(), 0);
    assert_eq!(c46_secure_home_folders(&none).len(), 0);
}

#[test]
fn c12_four_corners_per_user() {
    let users = strings(&["alice"]);
    let cs = c12_ensure_secure_screensaver_corners(&users);
    assert_eq!(cs.len(), 4);
    let keys: Vec<&str> = cs.iter().map(|c| c.args[5].as_str()).collect();
    assert_eq!(
        keys,
        vec!["wvous-tl-corner", "wvous-bl-corner", "wvous-tr-corner", "wvous-br-corner"]
    );
    for c in &cs {
        assert_eq!(c.name, "c12_secure_top_left_corner_for_everyuser");
        assert_eq!(c.args[1], "alice");
        assert_eq!(c.args[4], "com.apple.dock");
    }
}

#[test]
fn c46_home_folder_paths_are_interpolated() {
    let users = strings(&["alice", "bob"]);
    let cs = c46_secure_home_folders(&users);
    assert_eq!(cs.len(), 2);
    assert_eq!(cs[0].args, strings(&["/bin/chmod", "-R", "og-rwx", "/Users/alice"]));
    assert_eq!(cs[1].args, strings(&["/bin/chmod", "-R", "og-rwx", "/Users/bob"]));
}

#[test]
fn c64_password_hint_paths() {
    let users = strings(&["carol"]);
    let cs = c64_remove_password_hints(&users);
    assert_eq!(cs[0].args, strings(&["/usr/bin/dscl", ".", "-delete", "/Users/carol", "hint"]));
}

#[test]
fn c71_root_then_users_then_finder() {
    let users = strings(&["alice"]);
    let cs = c71_enable_show_all_filename_extensions(&users);
    assert_eq!(cs.len(), 3);
    assert_eq!(cs[0].name, "c71_enable_show_all_extensions_root");
    assert_eq!(cs[1].name, "c71_enable_show_all_extensions_for_everyuser");
    assert_eq!(
        cs[1].args[4],
        "/Users/alice/Library/Preferences/.GlobalPreferences.plist"
    );
    assert_eq!(cs[2].name, "c71_kill_finder");
    assert_eq!(cs[2].args, strings(&["killall", "Finder"]));
}

#[test]
fn c74_three_probes_per_user() {
    let users = strings(&["dave"]);
    let cs = c74_enable_cross_site_tracking_prevention(&users);
    assert_eq!(cs.len(), 3);
    assert_eq!(cs[0].name, "c74_block_storage_policy_for_everyuser");
    assert_eq!(cs[1].name, "c74_storage_blocking_policy_for_everyuser");
    assert_eq!(cs[2].name, "c74_webkit_storage_blocking_policy_for_everyuser");
    assert_eq!(
        cs[0].args[4],
        "/Users/dave/Library/Containers/com.apple.Safari/Data/Library/Preferences/com.apple.Safari"
    );
}

#[test]
fn c78_two_root_actions_then_users() {
    let users = strings(&["erin"]);
    let cs = c78_disable_bluetooth_sharing(&users);
    assert_eq!(cs.len(), 3);
    assert_eq!(cs[0].name, "c78_disable_bluetooth_sharing_root");
    assert_eq!(cs[1].name, "c78_disable_bluetooth_sharing_root_byhost");
    assert_eq!(cs[2].name, "c78_disable_bluetooth_sharing_for_everyuser");
    assert_eq!(cs[2].args[1], "erin");
}

#[test]
fn c48_one_chmod_per_found_path() {
    let apps = strings(&["/Applications/A.app", "/Applications/B.app"]);
    let cs = c48_ensure_permissions_for_system_apps(&apps);
    assert_eq!(cs.len(), 2);
    assert_eq!(cs[0].args, strings(&["/bin/chmod", "-R", "o-w", "/Applications/A.app"]));
    assert_eq!(cs[1].args[3], "/Applications/B.app");
    let none: Vec<String> = Vec::new();
    assert_eq!(c48_ensure_permissions_for_system_apps(&none).len(), 0);
}

#[test]
fn c36_selects_branch_from_cpu_brand() {
    let apple = c36_disable_powernap_based_on_cpu("Apple M2 Max");
    assert_eq!(apple.executable, "echo");
    assert_eq!(apple.args, strings(&["No action required for Apple CPUs."]));

    let intel = c36_disable_powernap_based_on_cpu("Intel(R) Core(TM) i9-9980HK");
    assert_eq!(intel.executable, "sudo");
    assert_eq!(intel.args, strings(&["/usr/bin/pmset", "-a", "powernap", "0"]));

    let unknown = c36_disable_powernap_based_on_cpu("Snapdragon");
    assert_eq!(unknown.executable, "echo");
    assert_eq!(unknown.name, "c36_disable_powernap_for_intel");
}

#[test]
fn c34_apple_branch_three_settings() {
    let cs = c34_configure_sleep_settings_based_on_cpu("Apple M1");
    assert_eq!(cs.len(), 3);
    assert_eq!(cs[0].args, strings(&["/usr/bin/pmset", "-a", "sleep", "10"]));
    assert_eq!(cs[1].args, strings(&["/usr/bin/pmset", "-a", "displaysleep", "15"]));
    assert_eq!(cs[2].args, strings(&["/usr/bin/pmset", "-a", "hibernatemode", "25"]));
}

#[test]
fn c34_intel_branch_five_settings() {
    let cs = c34_configure_sleep_settings_based_on_cpu("Intel(R) Xeon(R)");
    assert_eq!(cs.len(), 5);
    assert_eq!(cs[0].args[2], "standbydelaylow");
    assert_eq!(cs[3].args, strings(&["/usr/bin/pmset", "-a", "destroyfvkeyonstandby", "1"]));
}

#[test]
fn c34_unknown_branch_is_a_noop_not_an_error() {
    let cs = c34_configure_sleep_settings_based_on_cpu("some future cpu");
    assert_eq!(cs.len(), 1);
    assert_eq!(cs[0].executable, "echo");
    assert_eq!(cs[0].args, strings(&["CPU Model not identified"]));
}

#[test]
fn c38_missing_file_is_an_error() {
    match c38_configure_auditing_flags(None) {
        Err(e) => assert_eq!(e.label(), "ProbeError"),
        Ok(_) => panic!("expected ProbeError"),
    }
}

#[test]
fn c38_no_flags_line_is_informational() {
    let c = c38_configure_auditing_flags(Some("dir:/var/audit\n".to_string())).unwrap();
    assert_eq!(c.executable, "echo");
    assert_eq!(
        c.args,
        strings(&["Target line starting with 'flags:' not found in the file."])
    );
}

#[test]
fn c38_compliant_line_is_a_noop_twice() {
    let content = "dir:/var/audit\nflags:-fm,ad,-ex,aa,-fr,lo,-fw\n".to_string();
    for _ in 0..2 {
        let c = c38_configure_auditing_flags(Some(content.clone())).unwrap();
        assert_eq!(c.executable, "echo");
        assert_eq!(c.args, strings(&["The auditing flags are already configured correctly."]));
    }
}

#[test]
fn c38_differing_line_is_corrected_by_sed() {
    let c = c38_configure_auditing_flags(Some("flags:lo\n".to_string())).unwrap();
    assert_eq!(c.executable, "sudo");
    assert_eq!(
        c.args,
        strings(&[
            "sed",
            "-i",
            "''",
            "s/^flags:.*$/flags:-fm,ad,-ex,aa,-fr,lo,-fw/",
            "/etc/security/audit_control",
        ])
    );
}

#[test]
fn c39_appends_only_missing_tokens() {
    let content = "* file /var/log/install.log rotate=seq compress ttl=30\n".to_string();
    let c = c39_configure_install_log_retention(Some(content)).unwrap();
    assert_eq!(c.executable, "sudo");
    assert_eq!(
        c.args[3],
        "'s|^.*file /var/log/install.log.*$|* file /var/log/install.log rotate=seq compress ttl=30 file_max=50M size_only ttl=365|'"
    );
    assert_eq!(c.args[4], "/etc/asl/com.apple.install");
}

#[test]
fn c39_complete_line_is_a_noop_twice() {
    let content =
        "* file /var/log/install.log rotate=seq compress file_max=50M size_only ttl=365\n"
            .to_string();
    for _ in 0..2 {
        let c = c39_configure_install_log_retention(Some(content.clone())).unwrap();
        assert_eq!(c.executable, "echo");
        assert_eq!(c.args, strings(&["All required flags are already present."]));
    }
}

#[test]
fn c39_missing_target_is_informational() {
    let c = c39_configure_install_log_retention(Some("# empty\n".to_string())).unwrap();
    assert_eq!(c.executable, "echo");
    assert_eq!(c.args, strings(&["Target line not found in the file."]));
}

#[test]
fn c39_missing_file_is_an_error() {
    assert!(matches!(
        c39_configure_install_log_retention(None),
        Err(EngineError::ProbeError)
    ));
}

#[test]
fn c40_compliant_line_is_a_noop_twice() {
    let content = "expire-after:60d\n".to_string();
    for _ in 0..2 {
        let c = c40_configure_auditing_retention(Some(content.clone())).unwrap();
        assert_eq!(c.executable, "echo");
        assert_eq!(c.args, strings(&["Auditing retention already configured."]));
    }
}

#[test]
fn c40_differing_line_is_corrected() {
    let differing = c40_configure_auditing_retention(Some("expire-after:7d\n".to_string()))
        .unwrap();
    assert_eq!(differing.executable, "sudo");
    assert_eq!(differing.args[3], "s|^expire-after:.*$|expire-after:60d|");
    assert_eq!(differing.args[4], "/etc/security/audit_control");
}

#[test]
fn c40_missing_line_is_informational() {
    let missing = c40_configure_auditing_retention(Some("dir:/var/audit\n".to_string())).unwrap();
    assert_eq!(missing.executable, "echo");
    assert_eq!(
        missing.args,
        strings(&["Target line starting with 'expire-after:' not found in the file."])
    );
}

#[test]
fn c80_branches_on_file_presence() {
    let found = c80_restart_wazuh_agent(true);
    assert_eq!(found.name, "c80_restart_wazuh_agent");
    assert_eq!(found.args, strings(&["/Library/Ossec/bin/wazuh-control", "restart"]));
    let absent = c80_restart_wazuh_agent(false);
    assert_eq!(absent.name, "c80_wazuh_agent_not_found");
    assert_eq!(absent.executable, "echo");
    assert_eq!(absent.args, strings(&["Wazuh Agent control file not found."]));
}
