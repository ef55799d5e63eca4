//! The rule catalog: one constructor per hardening step.
//!
//! Most rules are static actions — a fixed program and argument list.
//! Per-entity rules take the discovered entity list and yield one action
//! per user.  Conditional rules take the probed fact (a CPU brand string,
//! a file's presence) and select a branch.  Idempotent patch rules take
//! the text of the configuration file they govern and plan an
//! informational no-op, an "already compliant" no-op, or a corrective
//! in-place substitution.  Every constructor pins the action it builds,
//! field by field.

use vstd::prelude::*;

use crate::action::BashCommand;
use crate::errors::EngineError;
use crate::planner::{spec_all_contained, spec_patched_line, PatchPlan, exact_patch_plan,
    flag_patch_plan, spec_cpu_branch, cpu_branch, CpuBranch};
use crate::probe::{spec_first_match_by, LinePredicate, first_matching_line};
use crate::textscan::{spec_contains, spec_starts_with, spec_lines, split_lines};

verus! {

/// Holds when `c` is exactly the action `name`, described by `desc`, that
/// spawns `executable` with `args`, has no argument resolver, and needs
/// interactive input only when `needs_input` says so.
pub open spec fn spec_cmd(
    c: BashCommand,
    name: Seq<char>,
    desc: Seq<char>,
    executable: Seq<char>,
    args: Seq<Seq<char>>,
    needs_input: bool,
) -> bool {
    &&& c.name@ == name
    &&& c.description@ == desc
    &&& c.executable@ == executable
    &&& c.args.deep_view() =~= args
    &&& c.dynamic_args is None
    &&& c.needs_interactive_input == needs_input
}

/// Holds when `c` is the explanatory no-op `name`: it prints `msg` and
/// changes nothing.
pub open spec fn spec_echo_noop(c: BashCommand, name: Seq<char>, desc: Seq<char>, msg: Seq<char>) -> bool {
    spec_cmd(c, name, desc, "echo"@, seq![msg], false)
}

/// Builds one owned argument string.
fn arg(x: &str) -> (r: String)
    ensures
        r@ == x@,
{
    String::from_str(x)
}

/// 1.6 Ensure Install of macOS Updates Is Enabled.
pub fn c1_enable_os_autoupdate() -> (c: BashCommand)
    ensures
        spec_cmd(
            c,
            "c1_enable_os_autoupdate"@,
            "1.6 Ensure Install of macOS Updates Is Enabled"@,
            "sudo"@,
            seq![
                "/usr/bin/defaults"@,
                "write"@,
                "/Library/Preferences/com.apple.SoftwareUpdate"@,
                "AutomaticallyInstallMacOSUpdates"@,
                "-bool"@,
                "true"@,
            ],
            false,
        ),
{
    BashCommand::new(
        "c1_enable_os_autoupdate",
        "1.6 Ensure Install of macOS Updates Is Enabled",
        "sudo",
        vec![
            arg("/usr/bin/defaults"),
            arg("write"),
            arg("/Library/Preferences/com.apple.SoftwareUpdate"),
            arg("AutomaticallyInstallMacOSUpdates"),
            arg("-bool"),
            arg("true"),
        ],
        false,
    )
}

/// 1.1 Ensure All Apple-provided Software Is Current.
pub fn c2_ensure_apple_software_is_current() -> (c: BashCommand)
    ensures
        spec_cmd(
            c,
            "c2_ensure_apple_software_is_current"@,
            "1.1 Ensure All Apple-provided Software Is Current."@,
            "sudo"@,
            seq!["/usr/sbin/softwareupdate"@, "-l"@],
            false,
        ),
{
    BashCommand::new(
        "c2_ensure_apple_software_is_current",
        "1.1 Ensure All Apple-provided Software Is Current.",
        "sudo",
        vec![arg("/usr/sbin/softwareupdate"), arg("-l")],
        false,
    )
}

/// 1.2 Ensure Auto Update Is Enabled.
pub fn c3_enable_auto_update() -> (c: BashCommand)
    ensures
        spec_cmd(
            c,
            "c3_enable_auto_update"@,
            "1.2 Ensure Auto Update Is Enabled."@,
            "sudo"@,
            seq![
                "/usr/bin/defaults"@,
                "write"@,
                "/Library/Preferences/com.apple.SoftwareUpdate"@,
                "AutomaticCheckEnabled"@,
                "-bool"@,
                "true"@,
            ],
            false,
        ),
{
    BashCommand::new(
        "c3_enable_auto_update",
        "1.2 Ensure Auto Update Is Enabled.",
        "sudo",
        vec![
            arg("/usr/bin/defaults"),
            arg("write"),
            arg("/Library/Preferences/com.apple.SoftwareUpdate"),
            arg("AutomaticCheckEnabled"),
            arg("-bool"),
            arg("true"),
        ],
        false,
    )
}

/// 1.3 Ensure Download New Updates When Available Is Enabled.
pub fn c4_enable_download_new_updates() -> (c: BashCommand)
    ensures
        spec_cmd(
            c,
            "c4_enable_download_new_updates"@,
            "1.3 Ensure Download New Updates When Available Is Enabled."@,
            "sudo"@,
            seq![
                "/usr/bin/defaults"@,
                "write"@,
                "/Library/Preferences/com.apple.SoftwareUpdate"@,
                "AutomaticDownload"@,
                "-bool"@,
                "true"@,
            ],
            false,
        ),
{
    BashCommand::new(
        "c4_enable_download_new_updates",
        "1.3 Ensure Download New Updates When Available Is Enabled.",
        "sudo",
        vec![
            arg("/usr/bin/defaults"),
            arg("write"),
            arg("/Library/Preferences/com.apple.SoftwareUpdate"),
            arg("AutomaticDownload"),
            arg("-bool"),
            arg("true"),
        ],
        false,
    )
}

/// 1.4 Ensure Installation of App Update Is Enabled.
pub fn c5_enable_app_update_installation() -> (c: BashCommand)
    ensures
        spec_cmd(
            c,
            "c5_enable_app_update_installation"@,
            "1.4 Ensure Installation of App Update Is Enabled."@,
            "sudo"@,
            seq![
                "/usr/bin/defaults"@,
                "write"@,
                "/Library/Preferences/com.apple.commerce"@,
                "AutoUpdate"@,
                "-bool"@,
                "true"@,
            ],
            false,
        ),
{
    BashCommand::new(
        "c5_enable_app_update_installation",
        "1.4 Ensure Installation of App Update Is Enabled.",
        "sudo",
        vec![
            arg("/usr/bin/defaults"),
            arg("write"),
            arg("/Library/Preferences/com.apple.commerce"),
            arg("AutoUpdate"),
            arg("-bool"),
            arg("true"),
        ],
        false,
    )
}

/// 1.5.1 Ensure System Data Files Are Downloaded Automatically.
pub fn c6_1_enable_system_data_files() -> (c: BashCommand)
    ensures
        spec_cmd(
            c,
            "c6_1_enable_system_data_files"@,
            "1.5.1 Ensure System Data Files Are Downloaded Automatically."@,
            "sudo"@,
            seq![
                "/usr/bin/defaults"@,
                "write"@,
                "/Library/Preferences/com.apple.SoftwareUpdate"@,
                "ConfigDataInstall"@,
                "-bool"@,
                "true"@,
            ],
            false,
        ),
{
    BashCommand::new(
        "c6_1_enable_system_data_files",
        "1.5.1 Ensure System Data Files Are Downloaded Automatically.",
        "sudo",
        vec![
            arg("/usr/bin/defaults"),
            arg("write"),
            arg("/Library/Preferences/com.apple.SoftwareUpdate"),
            arg("ConfigDataInstall"),
            arg("-bool"),
            arg("true"),
        ],
        false,
    )
}

/// 1.5.2 Ensure Security Updates Are Downloaded Automatically.
pub fn c6_2_enable_security_updates() -> (c: BashCommand)
    ensures
        spec_cmd(
            c,
            "c6_2_enable_security_updates"@,
            "1.5.2 Ensure Security Updates Are Downloaded Automatically."@,
            "sudo"@,
            seq![
                "/usr/bin/defaults"@,
                "write"@,
                "/Library/Preferences/com.apple.SoftwareUpdate"@,
                "CriticalUpdateInstall"@,
                "-bool"@,
                "true"@,
            ],
            false,
        ),
{
    BashCommand::new(
        "c6_2_enable_security_updates",
        "1.5.2 Ensure Security Updates Are Downloaded Automatically.",
        "sudo",
        vec![
            arg("/usr/bin/defaults"),
            arg("write"),
            arg("/Library/Preferences/com.apple.SoftwareUpdate"),
            arg("CriticalUpdateInstall"),
            arg("-bool"),
            arg("true"),
        ],
        false,
    )
}

/// 1.5.1 Ensure Bluetooth is disabled if no devices are paired.
pub fn c7_1_disable_bluetooth() -> (c: BashCommand)
    ensures
        spec_cmd(
            c,
            "c7_1_disable_bluetooth"@,
            "1.5.1 Ensure Bluetooth is disabled if no devices are paired."@,
            "sudo"@,
            seq![
                "/usr/bin/defaults"@,
                "write"@,
                "/Library/Preferences/com.apple.Bluetooth"@,
                "ControllerPowerState"@,
                "-int"@,
                "0"@,
            ],
            false,
        ),
{
    BashCommand::new(
        "c7_1_disable_bluetooth",
        "1.5.1 Ensure Bluetooth is disabled if no devices are paired.",
        "sudo",
        vec![
            arg("/usr/bin/defaults"),
            arg("write"),
            arg("/Library/Preferences/com.apple.Bluetooth"),
            arg("ControllerPowerState"),
            arg("-int"),
            arg("0"),
        ],
        false,
    )
}

/// 1.5.2 Restart the Bluetooth daemon.
pub fn c7_2_restart_bluetooth_daemon() -> (c: BashCommand)
    ensures
        spec_cmd(
            c,
            "c7_2_restart_bluetooth_daemon"@,
            "1.5.2 Restart the Bluetooth daemon."@,
            "sudo"@,
            seq![
                "killall"@,
                "-HUP"@,
                "bluetoothd"@,
            ],
            false,
        ),
{
    BashCommand::new(
        "c7_2_restart_bluetooth_daemon",
        "1.5.2 Restart the Bluetooth daemon.",
        "sudo",
        vec![
            arg("killall"),
            arg("-HUP"),
            arg("bluetoothd"),
        ],
        false,
    )
}

/// 2.2.1 Ensure Set Timezone to America/Sao_Paulo.
pub fn c9_1_set_timezone() -> (c: BashCommand)
    ensures
        spec_cmd(
            c,
            "c9_1_set_timezone"@,
            "2.2.1 Ensure Set Timezone to America/Sao_Paulo."@,
            "sudo"@,
            seq![
                "/usr/sbin/systemsetup"@,
                "-settimezone"@,
                "America/Sao_Paulo"@,
            ],
            false,
        ),
{
    BashCommand::new(
        "c9_1_set_timezone",
        "2.2.1 Ensure Set Timezone to America/Sao_Paulo.",
        "sudo",
        vec![
            arg("/usr/sbin/systemsetup"),
            arg("-settimezone"),
            arg("America/Sao_Paulo"),
        ],
        false,
    )
}

/// 2.2.1 Ensure Set Network Time Server to time.apple.com.
pub fn c9_2_set_network_time_server() -> (c: BashCommand)
    ensures
        spec_cmd(
            c,
            "c9_2_set_network_time_server"@,
            "2.2.1 Ensure Set Network Time Server to time.apple.com."@,
            "sudo"@,
            seq![
                "/usr/sbin/systemsetup"@,
                "-setnetworktimeserver"@,
                "time.apple.com"@,
            ],
            false,
        ),
{
    BashCommand::new(
        "c9_2_set_network_time_server",
        "2.2.1 Ensure Set Network Time Server to time.apple.com.",
        "sudo",
        vec![
            arg("/usr/sbin/systemsetup"),
            arg("-setnetworktimeserver"),
            arg("time.apple.com"),
        ],
        false,
    )
}

/// 2.2.1 Ensure Using Network Time is Enabled.
pub fn c9_3_enable_network_time() -> (c: BashCommand)
    ensures
        spec_cmd(
            c,
            "c9_3_enable_network_time"@,
            "2.2.1 Ensure Using Network Time is Enabled."@,
            "sudo"@,
            seq![
                "/usr/sbin/systemsetup"@,
                "-setusingnetworktime"@,
                "on"@,
            ],
            false,
        ),
{
    BashCommand::new(
        "c9_3_enable_network_time",
        "2.2.1 Ensure Using Network Time is Enabled.",
        "sudo",
        vec![
            arg("/usr/sbin/systemsetup"),
            arg("-setusingnetworktime"),
            arg("on"),
        ],
        false,
    )
}

/// 2.2.2 Ensure Time Is Set Within Appropriate Limits.
pub fn c10_sync_time() -> (c: BashCommand)
    ensures
        spec_cmd(
            c,
            "c10_sync_time"@,
            "2.2.2 Ensure Time Is Set Within Appropriate Limits."@,
            "sudo"@,
            seq![
                "sntp"@,
                "-sS"@,
                "time.apple.com"@,
            ],
            false,
        ),
{
    BashCommand::new(
        "c10_sync_time",
        "2.2.2 Ensure Time Is Set Within Appropriate Limits.",
        "sudo",
        vec![
            arg("sntp"),
            arg("-sS"),
            arg("time.apple.com"),
        ],
        false,
    )
}

/// 2.4.1 Ensure Remote Apple Events is Disabled.
pub fn c13_disable_remote_apple_events() -> (c: BashCommand)
    ensures
        spec_cmd(
            c,
            "c13_disable_remote_apple_events"@,
            "2.4.1 Ensure Remote Apple Events is Disabled."@,
            "sudo"@,
            seq![
                "systemsetup"@,
                "-setremoteappleevents"@,
                "off"@,
            ],
            false,
        ),
{
    BashCommand::new(
        "c13_disable_remote_apple_events",
        "2.4.1 Ensure Remote Apple Events is Disabled.",
        "sudo",
        vec![
            arg("systemsetup"),
            arg("-setremoteappleevents"),
            arg("off"),
        ],
        false,
    )
}

/// 2.4.2 Ensure Internet Sharing is Disabled.
pub fn c14_disable_internet_sharing() -> (c: BashCommand)
    ensures
        spec_cmd(
            c,
            "c14_disable_internet_sharing"@,
            "2.4.2 Ensure Internet Sharing is Disabled."@,
            "sudo"@,
            seq![
                "defaults"@,
                "write"@,
                "/Library/Preferences/SystemConfiguration/com.apple.nat"@,
                "NAT"@,
                "-dict"@,
                "Enabled"@,
                "-int"@,
                "0"@,
            ],
            false,
        ),
{
    BashCommand::new(
        "c14_disable_internet_sharing",
        "2.4.2 Ensure Internet Sharing is Disabled.",
        "sudo",
        vec![
            arg("defaults"),
            arg("write"),
            arg("/Library/Preferences/SystemConfiguration/com.apple.nat"),
            arg("NAT"),
            arg("-dict"),
            arg("Enabled"),
            arg("-int"),
            arg("0"),
        ],
        false,
    )
}

/// 2.4.3 Ensure Screen Sharing is Disabled.
pub fn c15_disable_screen_sharing() -> (c: BashCommand)
    ensures
        spec_cmd(
            c,
            "c15_disable_screen_sharing"@,
            "2.4.3 Ensure Screen Sharing is Disabled."@,
            "sudo"@,
            seq![
                "launchctl"@,
                "disable"@,
                "system/com.apple.screensharing"@,
            ],
            false,
        ),
{
    BashCommand::new(
        "c15_disable_screen_sharing",
        "2.4.3 Ensure Screen Sharing is Disabled.",
        "sudo",
        vec![
            arg("launchctl"),
            arg("disable"),
            arg("system/com.apple.screensharing"),
        ],
        false,
    )
}

/// 2.4.4 Ensure Printer Sharing is Disabled.
pub fn c16_disable_printer_sharing() -> (c: BashCommand)
    ensures
        spec_cmd(
            c,
            "c16_disable_printer_sharing"@,
            "2.4.4 Ensure Printer Sharing is Disabled."@,
            "sudo"@,
            seq![
                "cupsctl"@,
                "--no-share-printers"@,
            ],
            false,
        ),
{
    BashCommand::new(
        "c16_disable_printer_sharing",
        "2.4.4 Ensure Printer Sharing is Disabled.",
        "sudo",
        vec![
            arg("cupsctl"),
            arg("--no-share-printers"),
        ],
        false,
    )
}

/// 2.4.5 Ensure Remote Login is Disabled.
pub fn c17_disable_remote_login() -> (c: BashCommand)
    ensures
        spec_cmd(
            c,
            "c17_disable_remote_login"@,
            "2.4.5 Ensure Remote Login is Disabled."@,
            "sudo"@,
            seq![
                "/usr/sbin/systemsetup"@,
                "-setremotelogin"@,
                "off"@,
            ],
            true,
        ),
{
    BashCommand::new(
        "c17_disable_remote_login",
        "2.4.5 Ensure Remote Login is Disabled.",
        "sudo",
        vec![
            arg("/usr/sbin/systemsetup"),
            arg("-setremotelogin"),
            arg("off"),
        ],
        true,
    )
}

/// 2.4.6 Ensure DVD or CD Sharing is Disabled.
pub fn c18_disable_dvd_cd_sharing() -> (c: BashCommand)
    ensures
        spec_cmd(
            c,
            "c18_disable_dvd_cd_sharing"@,
            "2.4.6 Ensure DVD or CD Sharing is Disabled."@,
            "sudo"@,
            seq![
                "launchctl"@,
                "disable"@,
                "system/com.apple.ODSAgent"@,
            ],
            false,
        ),
{
    BashCommand::new(
        "c18_disable_dvd_cd_sharing",
        "2.4.6 Ensure DVD or CD Sharing is Disabled.",
        "sudo",
        vec![
            arg("launchctl"),
            arg("disable"),
            arg("system/com.apple.ODSAgent"),
        ],
        false,
    )
}

/// 2.4.8 Ensure File Sharing is Disabled.
pub fn c19_disable_file_sharing() -> (c: BashCommand)
    ensures
        spec_cmd(
            c,
            "c19_disable_file_sharing"@,
            "2.4.8 Ensure File Sharing is Disabled."@,
            "sudo"@,
            seq![
                "launchctl"@,
                "disable"@,
                "system/com.apple.smbd"@,
            ],
            false,
        ),
{
    BashCommand::new(
        "c19_disable_file_sharing",
        "2.4.8 Ensure File Sharing is Disabled.",
        "sudo",
        vec![
            arg("launchctl"),
            arg("disable"),
            arg("system/com.apple.smbd"),
        ],
        false,
    )
}

/// 2.4.9 Ensure Remote Management is Disabled.
pub fn c20_disable_remote_management() -> (c: BashCommand)
    ensures
        spec_cmd(
            c,
            "c20_disable_remote_management"@,
            "2.4.9 Ensure Remote Management is Disabled."@,
            "sudo"@,
            seq![
                "/System/Library/CoreServices/RemoteManagement/ARDAgent.app/Contents/Resources/kickstart"@,
                "-deactivate"@,
                "-stop"@,
            ],
            false,
        ),
{
    BashCommand::new(
        "c20_disable_remote_management",
        "2.4.9 Ensure Remote Management is Disabled.",
        "sudo",
        vec![
            arg("/System/Library/CoreServices/RemoteManagement/ARDAgent.app/Contents/Resources/kickstart"),
            arg("-deactivate"),
            arg("-stop"),
        ],
        false,
    )
}

/// 2.4.10 Ensure Content Caching is Disabled.
pub fn c21_disable_content_caching() -> (c: BashCommand)
    ensures
        spec_cmd(
            c,
            "c21_disable_content_caching"@,
            "2.4.10 Ensure Content Caching is Disabled."@,
            "sudo"@,
            seq![
                "AssetCacheManagerUtil"@,
                "deactivate"@,
            ],
            false,
        ),
{
    BashCommand::new(
        "c21_disable_content_caching",
        "2.4.10 Ensure Content Caching is Disabled.",
        "sudo",
        vec![
            arg("AssetCacheManagerUtil"),
            arg("deactivate"),
        ],
        false,
    )
}

/// 2.5.2.1 Ensure Firewall is Enabled.
pub fn c25_enable_firewall() -> (c: BashCommand)
    ensures
        spec_cmd(
            c,
            "c25_enable_firewall"@,
            "2.5.2.1 Ensure Firewall is Enabled."@,
            "sudo"@,
            seq![
                "/usr/bin/defaults"@,
                "write"@,
                "/Library/Preferences/com.apple.alfglobalstate"@,
                "-int"@,
                "1"@,
            ],
            false,
        ),
{
    BashCommand::new(
        "c25_enable_firewall",
        "2.5.2.1 Ensure Firewall is Enabled.",
        "sudo",
        vec![
            arg("/usr/bin/defaults"),
            arg("write"),
            arg("/Library/Preferences/com.apple.alfglobalstate"),
            arg("-int"),
            arg("1"),
        ],
        false,
    )
}

/// 2.5.2.2 Ensure Firewall Stealth Mode is Enabled.
pub fn c26_enable_firewall_stealth_mode() -> (c: BashCommand)
    ensures
        spec_cmd(
            c,
            "c26_enable_firewall_stealth_mode"@,
            "2.5.2.2 Ensure Firewall Stealth Mode is Enabled."@,
            "sudo"@,
            seq![
                "/usr/libexec/ApplicationFirewall/socketfilterfw"@,
                "--setstealthmode"@,
                "on"@,
            ],
            false,
        ),
{
    BashCommand::new(
        "c26_enable_firewall_stealth_mode",
        "2.5.2.2 Ensure Firewall Stealth Mode is Enabled.",
        "sudo",
        vec![
            arg("/usr/libexec/ApplicationFirewall/socketfilterfw"),
            arg("--setstealthmode"),
            arg("on"),
        ],
        false,
    )
}

/// 2.5.3 Ensure Location Services is Enabled (Part 1).
pub fn c27_1_enable_location_services() -> (c: BashCommand)
    ensures
        spec_cmd(
            c,
            "c27_1_enable_location_services"@,
            "2.5.3 Ensure Location Services is Enabled (Part 1)."@,
            "sudo"@,
            seq![
                "/usr/bin/defaults"@,
                "write"@,
                "/var/db/locationd/Library/Preferences/ByHost/com.apple.locationd"@,
                "LocationServicesEnabled"@,
                "-bool"@,
                "true"@,
            ],
            false,
        ),
{
    BashCommand::new(
        "c27_1_enable_location_services",
        "2.5.3 Ensure Location Services is Enabled (Part 1).",
        "sudo",
        vec![
            arg("/usr/bin/defaults"),
            arg("write"),
            arg("/var/db/locationd/Library/Preferences/ByHost/com.apple.locationd"),
            arg("LocationServicesEnabled"),
            arg("-bool"),
            arg("true"),
        ],
        false,
    )
}

/// 2.5.3 Ensure Location Services is Enabled (Part 2).
pub fn c27_2_restart_location_services() -> (c: BashCommand)
    ensures
        spec_cmd(
            c,
            "c27_2_restart_location_services"@,
            "2.5.3 Ensure Location Services is Enabled (Part 2)."@,
            "sudo"@,
            seq![
                "/bin/launchctl"@,
                "kickstart"@,
                "-k"@,
                "system/com.apple.locationd"@,
            ],
            false,
        ),
{
    BashCommand::new(
        "c27_2_restart_location_services",
        "2.5.3 Ensure Location Services is Enabled (Part 2).",
        "sudo",
        vec![
            arg("/bin/launchctl"),
            arg("kickstart"),
            arg("-k"),
            arg("system/com.apple.locationd"),
        ],
        false,
    )
}

/// 2.5.5 Ensure Sending Diagnostic and Usage Data to Apple is Disabled (Global Settings).
pub fn c28_1_disable_diagnostic_data() -> (c: BashCommand)
    ensures
        spec_cmd(
            c,
            "c28_1_disable_diagnostic_data"@,
            "2.5.5 Ensure Sending Diagnostic and Usage Data to Apple is Disabled (Global Settings)."@,
            "sudo"@,
            seq![
                "/usr/bin/defaults"@,
                "write"@,
                "/Library/Application Support/CrashReporter/DiagnosticMessagesHistory.plist"@,
                "AutoSubmit"@,
                "-bool"@,
                "false"@,
            ],
            false,
        ),
{
    BashCommand::new(
        "c28_1_disable_diagnostic_data",
        "2.5.5 Ensure Sending Diagnostic and Usage Data to Apple is Disabled (Global Settings).",
        "sudo",
        vec![
            arg("/usr/bin/defaults"),
            arg("write"),
            arg("/Library/Application Support/CrashReporter/DiagnosticMessagesHistory.plist"),
            arg("AutoSubmit"),
            arg("-bool"),
            arg("false"),
        ],
        false,
    )
}

/// 2.5.7 Ensure Gatekeeper is Enabled.
pub fn c30_enable_gatekeeper() -> (c: BashCommand)
    ensures
        spec_cmd(
            c,
            "c30_enable_gatekeeper"@,
            "2.5.7 Ensure Gatekeeper is Enabled."@,
            "sudo"@,
            seq![
                "/usr/sbin/spctl"@,
                "--master-enable"@,
            ],
            false,
        ),
{
    BashCommand::new(
        "c30_enable_gatekeeper",
        "2.5.7 Ensure Gatekeeper is Enabled.",
        "sudo",
        vec![
            arg("/usr/sbin/spctl"),
            arg("--master-enable"),
        ],
        false,
    )
}

/// 2.5.8 Ensure a Custom Message for the Login Screen is Enabled.
pub fn c31_enable_custom_login_message() -> (c: BashCommand)
    ensures
        spec_cmd(
            c,
            "c31_enable_custom_login_message"@,
            "2.5.8 Ensure a Custom Message for the Login Screen is Enabled."@,
            "sudo"@,
            seq![
                "/usr/bin/defaults"@,
                "write"@,
                "/Library/Preferences/com.apple.loginwindow"@,
                "LoginwindowText"@,
                "Access for authorized personnel only. \\nThis system is being monitored."@,
            ],
            false,
        ),
{
    BashCommand::new(
        "c31_enable_custom_login_message",
        "2.5.8 Ensure a Custom Message for the Login Screen is Enabled.",
        "sudo",
        vec![
            arg("/usr/bin/defaults"),
            arg("write"),
            arg("/Library/Preferences/com.apple.loginwindow"),
            arg("LoginwindowText"),
            arg("Access for authorized personnel only. \\nThis system is being monitored."),
        ],
        false,
    )
}

/// 2.5.9 Ensure an Administrator Password is Required to Access System-Wide Preferences.
pub fn c32_ensure_admin_password_for_system_preferences() -> (c: BashCommand)
    ensures
        spec_cmd(
            c,
            "c32_ensure_admin_password_for_system_preferences"@,
            "2.5.9 Ensure an Administrator Password is Required to Access System-Wide Preferences."@,
            "sh"@,
            seq![
                "-c"@,
                "/usr/bin/sudo /usr/bin/security authorizationdb read system.preferences > /$HOME/Desktop/system.preferences.plist 2>&1 && /usr/bin/sudo plutil -replace shared -bool false \"$HOME/Desktop/system.preferences.plist\" && /usr/bin/sudo /usr/bin/security authorizationdb write system.preferences < /$HOME/Desktop/system.preferences.plist 2>&1"@,
            ],
            false,
        ),
{
    BashCommand::new(
        "c32_ensure_admin_password_for_system_preferences",
        "2.5.9 Ensure an Administrator Password is Required to Access System-Wide Preferences.",
        "sh",
        vec![
            arg("-c"),
            arg("/usr/bin/sudo /usr/bin/security authorizationdb read system.preferences > /$HOME/Desktop/system.preferences.plist 2>&1 && /usr/bin/sudo plutil -replace shared -bool false \"$HOME/Desktop/system.preferences.plist\" && /usr/bin/sudo /usr/bin/security authorizationdb write system.preferences < /$HOME/Desktop/system.preferences.plist 2>&1"),
        ],
        false,
    )
}

/// 2.5.9 Ensure a Password is Required to Wake the Computer From Sleep or Screen Saver is Enabled.
pub fn c33_require_password_to_wake() -> (c: BashCommand)
    ensures
        spec_cmd(
            c,
            "c33_require_password_to_wake"@,
            "2.5.9 Ensure a Password is Required to Wake the Computer From Sleep or Screen Saver is Enabled."@,
            "sudo"@,
            seq![
                "/usr/sbin/sysadminctl"@,
                "-screenLock"@,
                "5"@,
                "seconds"@,
            ],
            false,
        ),
{
    BashCommand::new(
        "c33_require_password_to_wake",
        "2.5.9 Ensure a Password is Required to Wake the Computer From Sleep or Screen Saver is Enabled.",
        "sudo",
        vec![
            arg("/usr/sbin/sysadminctl"),
            arg("-screenLock"),
            arg("5"),
            arg("seconds"),
        ],
        false,
    )
}

/// 2.8.2 Ensure Wake for Network Access is Disabled.
pub fn c35_disable_wake_for_network_access() -> (c: BashCommand)
    ensures
        spec_cmd(
            c,
            "c35_disable_wake_for_network_access"@,
            "2.8.2 Ensure Wake for Network Access is Disabled."@,
            "sudo"@,
            seq![
                "/usr/bin/pmset"@,
                "-a"@,
                "womp"@,
                "0"@,
            ],
            false,
        ),
{
    BashCommand::new(
        "c35_disable_wake_for_network_access",
        "2.8.2 Ensure Wake for Network Access is Disabled.",
        "sudo",
        vec![
            arg("/usr/bin/pmset"),
            arg("-a"),
            arg("womp"),
            arg("0"),
        ],
        false,
    )
}

/// 3.1 Ensure Security Auditing is Enabled.
pub fn c37_enable_security_auditing() -> (c: BashCommand)
    ensures
        spec_cmd(
            c,
            "c37_enable_security_auditing"@,
            "3.1 Ensure Security Auditing is Enabled."@,
            "sudo"@,
            seq![
                "/bin/launchctl"@,
                "load"@,
                "-w"@,
                "/System/Library/LaunchDaemons/com.apple.auditd.plist"@,
            ],
            false,
        ),
{
    BashCommand::new(
        "c37_enable_security_auditing",
        "3.1 Ensure Security Auditing is Enabled.",
        "sudo",
        vec![
            arg("/bin/launchctl"),
            arg("load"),
            arg("-w"),
            arg("/System/Library/LaunchDaemons/com.apple.auditd.plist"),
        ],
        false,
    )
}

/// Ensure audit_control is owned by root:wheel.
pub fn c41_1_chown_audit_control() -> (c: BashCommand)
    ensures
        spec_cmd(
            c,
            "c41_1_chown_audit_control"@,
            "Ensure audit_control is owned by root:wheel."@,
            "sudo"@,
            seq![
                "/usr/sbin/chown"@,
                "-R"@,
                "root:wheel"@,
                "/etc/security/audit_control"@,
            ],
            false,
        ),
{
    BashCommand::new(
        "c41_1_chown_audit_control",
        "Ensure audit_control is owned by root:wheel.",
        "sudo",
        vec![
            arg("/usr/sbin/chown"),
            arg("-R"),
            arg("root:wheel"),
            arg("/etc/security/audit_control"),
        ],
        false,
    )
}

/// Ensure audit_control permissions are set to prevent access by others.
pub fn c41_2_chmod_audit_control() -> (c: BashCommand)
    ensures
        spec_cmd(
            c,
            "c41_2_chmod_audit_control"@,
            "Ensure audit_control permissions are set to prevent access by others."@,
            "sudo"@,
            seq![
                "/bin/chmod"@,
                "-R"@,
                "o-rw"@,
                "/etc/security/audit_control"@,
            ],
            false,
        ),
{
    BashCommand::new(
        "c41_2_chmod_audit_control",
        "Ensure audit_control permissions are set to prevent access by others.",
        "sudo",
        vec![
            arg("/bin/chmod"),
            arg("-R"),
            arg("o-rw"),
            arg("/etc/security/audit_control"),
        ],
        false,
    )
}

/// Ensure /var/audit is owned by root:wheel.
pub fn c41_3_chown_var_audit() -> (c: BashCommand)
    ensures
        spec_cmd(
            c,
            "c41_3_chown_var_audit"@,
            "Ensure /var/audit is owned by root:wheel."@,
            "sudo"@,
            seq![
                "/usr/sbin/chown"@,
                "-R"@,
                "root:wheel"@,
                "/var/audit/"@,
            ],
            false,
        ),
{
    BashCommand::new(
        "c41_3_chown_var_audit",
        "Ensure /var/audit is owned by root:wheel.",
        "sudo",
        vec![
            arg("/usr/sbin/chown"),
            arg("-R"),
            arg("root:wheel"),
            arg("/var/audit/"),
        ],
        false,
    )
}

/// Ensure /var/audit permissions are set to prevent access by others.
pub fn c41_4_chmod_var_audit() -> (c: BashCommand)
    ensures
        spec_cmd(
            c,
            "c41_4_chmod_var_audit"@,
            "Ensure /var/audit permissions are set to prevent access by others."@,
            "sudo"@,
            seq![
                "/bin/chmod"@,
                "-R"@,
                "o-rw"@,
                "/var/audit/"@,
            ],
            false,
        ),
{
    BashCommand::new(
        "c41_4_chmod_var_audit",
        "Ensure /var/audit permissions are set to prevent access by others.",
        "sudo",
        vec![
            arg("/bin/chmod"),
            arg("-R"),
            arg("o-rw"),
            arg("/var/audit/"),
        ],
        false,
    )
}

/// Ensure Logging Mode is Enabled.
pub fn c42_1_enable_logging_mode() -> (c: BashCommand)
    ensures
        spec_cmd(
            c,
            "c42_1_enable_logging_mode"@,
            "Ensure Logging Mode is Enabled."@,
            "sudo"@,
            seq![
                "/usr/libexec/ApplicationFirewall/socketfilterfw"@,
                "--setloggingmode"@,
                "on"@,
            ],
            false,
        ),
{
    BashCommand::new(
        "c42_1_enable_logging_mode",
        "Ensure Logging Mode is Enabled.",
        "sudo",
        vec![
            arg("/usr/libexec/ApplicationFirewall/socketfilterfw"),
            arg("--setloggingmode"),
            arg("on"),
        ],
        false,
    )
}

/// Ensure Logging is Configured to Detail Mode.
pub fn c42_2_configure_logging_detail() -> (c: BashCommand)
    ensures
        spec_cmd(
            c,
            "c42_2_configure_logging_detail"@,
            "Ensure Logging is Configured to Detail Mode."@,
            "sudo"@,
            seq![
                "/usr/libexec/ApplicationFirewall/socketfilterfw"@,
                "--setloggingopt"@,
                "detail"@,
            ],
            false,
        ),
{
    BashCommand::new(
        "c42_2_configure_logging_detail",
        "Ensure Logging is Configured to Detail Mode.",
        "sudo",
        vec![
            arg("/usr/libexec/ApplicationFirewall/socketfilterfw"),
            arg("--setloggingopt"),
            arg("detail"),
        ],
        false,
    )
}

/// 4.1 Ensure Bonjour Advertising Services is Disabled.
pub fn c43_disable_bonjour_advertising() -> (c: BashCommand)
    ensures
        spec_cmd(
            c,
            "c43_disable_bonjour_advertising"@,
            "4.1 Ensure Bonjour Advertising Services is Disabled."@,
            "sudo"@,
            seq![
                "/usr/bin/defaults"@,
                "write"@,
                "/Library/Preferences/com.apple.mDNSResponder.plist"@,
                "NoMulticastAdvertisements"@,
                "-bool"@,
                "true"@,
            ],
            false,
        ),
{
    BashCommand::new(
        "c43_disable_bonjour_advertising",
        "4.1 Ensure Bonjour Advertising Services is Disabled.",
        "sudo",
        vec![
            arg("/usr/bin/defaults"),
            arg("write"),
            arg("/Library/Preferences/com.apple.mDNSResponder.plist"),
            arg("NoMulticastAdvertisements"),
            arg("-bool"),
            arg("true"),
        ],
        false,
    )
}

/// 4.2 Ensure HTTP Server is Disabled.
pub fn c44_disable_http_server() -> (c: BashCommand)
    ensures
        spec_cmd(
            c,
            "c44_disable_http_server"@,
            "4.2 Ensure HTTP Server is Disabled."@,
            "sudo"@,
            seq![
                "/bin/launchctl"@,
                "unload"@,
                "-w"@,
                "/System/Library/LaunchDaemons/org.apache.httpd.plist"@,
            ],
            false,
        ),
{
    BashCommand::new(
        "c44_disable_http_server",
        "4.2 Ensure HTTP Server is Disabled.",
        "sudo",
        vec![
            arg("/bin/launchctl"),
            arg("unload"),
            arg("-w"),
            arg("/System/Library/LaunchDaemons/org.apache.httpd.plist"),
        ],
        false,
    )
}

/// 4.3 Ensure NFS Server is Disabled.
pub fn c45_disable_nfs_server() -> (c: BashCommand)
    ensures
        spec_cmd(
            c,
            "c45_disable_nfs_server"@,
            "4.3 Ensure NFS Server is Disabled."@,
            "sudo"@,
            seq![
                "/bin/launchctl"@,
                "disable"@,
                "system/com.apple.nfsd"@,
                "&&"@,
                "/bin/rm"@,
                "/etc/exports"@,
            ],
            false,
        ),
{
    BashCommand::new(
        "c45_disable_nfs_server",
        "4.3 Ensure NFS Server is Disabled.",
        "sudo",
        vec![
            arg("/bin/launchctl"),
            arg("disable"),
            arg("system/com.apple.nfsd"),
            arg("&&"),
            arg("/bin/rm"),
            arg("/etc/exports"),
        ],
        false,
    )
}

/// 5.1.3 Ensure Apple Mobile File Integrity (AMFI) is Enabled.
pub fn c47_enable_amfi() -> (c: BashCommand)
    ensures
        spec_cmd(
            c,
            "c47_enable_amfi"@,
            "5.1.3 Ensure Apple Mobile File Integrity (AMFI) is Enabled."@,
            "sudo"@,
            seq![
                "/usr/sbin/nvram"@,
                "boot-args="@,
            ],
            false,
        ),
{
    BashCommand::new(
        "c47_enable_amfi",
        "5.1.3 Ensure Apple Mobile File Integrity (AMFI) is Enabled.",
        "sudo",
        vec![
            arg("/usr/sbin/nvram"),
            arg("boot-args="),
        ],
        false,
    )
}

/// Ensure Library Validation is Enabled.
pub fn c47_1_enable_library_validation() -> (c: BashCommand)
    ensures
        spec_cmd(
            c,
            "c47_1_enable_library_validation"@,
            "Ensure Library Validation is Enabled."@,
            "sudo"@,
            seq![
                "/usr/bin/defaults"@,
                "write"@,
                "/Library/Preferences/com.apple.security.libraryvalidation.plist"@,
                "DisableLibraryValidation"@,
                "-bool"@,
                "false"@,
            ],
            false,
        ),
{
    BashCommand::new(
        "c47_1_enable_library_validation",
        "Ensure Library Validation is Enabled.",
        "sudo",
        vec![
            arg("/usr/bin/defaults"),
            arg("write"),
            arg("/Library/Preferences/com.apple.security.libraryvalidation.plist"),
            arg("DisableLibraryValidation"),
            arg("-bool"),
            arg("false"),
        ],
        false,
    )
}

/// 5.2.1 Ensure Password Account Lockout Threshold is Configured.
pub fn c51_configure_password_account_lockout() -> (c: BashCommand)
    ensures
        spec_cmd(
            c,
            "c51_configure_password_account_lockout"@,
            "5.2.1 Ensure Password Account Lockout Threshold is Configured."@,
            "sudo"@,
            seq![
                "/usr/bin/pwpolicy"@,
                "-n"@,
                "/Local/Default"@,
                "-setglobalpolicy"@,
                "maxFailedLoginAttempts=5"@,
            ],
            false,
        ),
{
    BashCommand::new(
        "c51_configure_password_account_lockout",
        "5.2.1 Ensure Password Account Lockout Threshold is Configured.",
        "sudo",
        vec![
            arg("/usr/bin/pwpolicy"),
            arg("-n"),
            arg("/Local/Default"),
            arg("-setglobalpolicy"),
            arg("maxFailedLoginAttempts=5"),
        ],
        false,
    )
}

/// 5.2.1 Ensure Password Minimum Length is Configured.
pub fn c52_configure_password_min_length() -> (c: BashCommand)
    ensures
        spec_cmd(
            c,
            "c52_configure_password_min_length"@,
            "5.2.1 Ensure Password Minimum Length is Configured."@,
            "sudo"@,
            seq![
                "/usr/bin/pwpolicy"@,
                "-n"@,
                "/Local/Default"@,
                "-setglobalpolicy"@,
                "minChars=12"@,
            ],
            false,
        ),
{
    BashCommand::new(
        "c52_configure_password_min_length",
        "5.2.1 Ensure Password Minimum Length is Configured.",
        "sudo",
        vec![
            arg("/usr/bin/pwpolicy"),
            arg("-n"),
            arg("/Local/Default"),
            arg("-setglobalpolicy"),
            arg("minChars=12"),
        ],
        false,
    )
}

/// 5.2.3 Ensure Complex Password Must Contain Alphabetic Characters is Configured.
pub fn c53_configure_password_requires_alpha() -> (c: BashCommand)
    ensures
        spec_cmd(
            c,
            "c53_configure_password_requires_alpha"@,
            "5.2.3 Ensure Complex Password Must Contain Alphabetic Characters is Configured."@,
            "sudo"@,
            seq![
                "/usr/bin/pwpolicy"@,
                "-n"@,
                "/Local/Default"@,
                "-setglobalpolicy"@,
                "requiresAlpha=1"@,
            ],
            false,
        ),
{
    BashCommand::new(
        "c53_configure_password_requires_alpha",
        "5.2.3 Ensure Complex Password Must Contain Alphabetic Characters is Configured.",
        "sudo",
        vec![
            arg("/usr/bin/pwpolicy"),
            arg("-n"),
            arg("/Local/Default"),
            arg("-setglobalpolicy"),
            arg("requiresAlpha=1"),
        ],
        false,
    )
}

/// 5.2.4 Ensure Complex Password Must Contain Numeric Character is Configured.
pub fn c54_configure_password_requires_numeric() -> (c: BashCommand)
    ensures
        spec_cmd(
            c,
            "c54_configure_password_requires_numeric"@,
            "5.2.4 Ensure Complex Password Must Contain Numeric Character is Configured."@,
            "sudo"@,
            seq![
                "/usr/bin/pwpolicy"@,
                "-n"@,
                "/Local/Default"@,
                "-setglobalpolicy"@,
                "requiresNumeric=2"@,
            ],
            false,
        ),
{
    BashCommand::new(
        "c54_configure_password_requires_numeric",
        "5.2.4 Ensure Complex Password Must Contain Numeric Character is Configured.",
        "sudo",
        vec![
            arg("/usr/bin/pwpolicy"),
            arg("-n"),
            arg("/Local/Default"),
            arg("-setglobalpolicy"),
            arg("requiresNumeric=2"),
        ],
        false,
    )
}

/// 5.2.5 Ensure Complex Password Must Contain Special Character is Configured.
pub fn c55_configure_password_requires_symbol() -> (c: BashCommand)
    ensures
        spec_cmd(
            c,
            "c55_configure_password_requires_symbol"@,
            "5.2.5 Ensure Complex Password Must Contain Special Character is Configured."@,
            "sudo"@,
            seq![
                "/usr/bin/pwpolicy"@,
                "-n"@,
                "/Local/Default"@,
                "-setglobalpolicy"@,
                "requiresSymbol=1"@,
            ],
            false,
        ),
{
    BashCommand::new(
        "c55_configure_password_requires_symbol",
        "5.2.5 Ensure Complex Password Must Contain Special Character is Configured.",
        "sudo",
        vec![
            arg("/usr/bin/pwpolicy"),
            arg("-n"),
            arg("/Local/Default"),
            arg("-setglobalpolicy"),
            arg("requiresSymbol=1"),
        ],
        false,
    )
}

/// 5.2.6 Ensure Complex Password Must Contain Uppercase and Lowercase Characters is Configured.
pub fn c56_configure_password_requires_mixed_case() -> (c: BashCommand)
    ensures
        spec_cmd(
            c,
            "c56_configure_password_requires_mixed_case"@,
            "5.2.6 Ensure Complex Password Must Contain Uppercase and Lowercase Characters is Configured."@,
            "sudo"@,
            seq![
                "/usr/bin/pwpolicy"@,
                "-n"@,
                "/Local/Default"@,
                "-setglobalpolicy"@,
                "requiresMixedCase=1"@,
            ],
            false,
        ),
{
    BashCommand::new(
        "c56_configure_password_requires_mixed_case",
        "5.2.6 Ensure Complex Password Must Contain Uppercase and Lowercase Characters is Configured.",
        "sudo",
        vec![
            arg("/usr/bin/pwpolicy"),
            arg("-n"),
            arg("/Local/Default"),
            arg("-setglobalpolicy"),
            arg("requiresMixedCase=1"),
        ],
        false,
    )
}

/// 5.2.7 Ensure Password Age is Configured.
pub fn c57_configure_password_age() -> (c: BashCommand)
    ensures
        spec_cmd(
            c,
            "c57_configure_password_age"@,
            "5.2.7 Ensure Password Age is Configured."@,
            "sudo"@,
            seq![
                "/usr/bin/pwpolicy"@,
                "-n"@,
                "/Local/Default"@,
                "-setglobalpolicy"@,
                "maxMinutesUntilChangePassword=259200"@,
            ],
            false,
        ),
{
    BashCommand::new(
        "c57_configure_password_age",
        "5.2.7 Ensure Password Age is Configured.",
        "sudo",
        vec![
            arg("/usr/bin/pwpolicy"),
            arg("-n"),
            arg("/Local/Default"),
            arg("-setglobalpolicy"),
            arg("maxMinutesUntilChangePassword=259200"),
        ],
        false,
    )
}

/// 5.2.8 Ensure Password History is Configured.
pub fn c58_configure_password_history() -> (c: BashCommand)
    ensures
        spec_cmd(
            c,
            "c58_configure_password_history"@,
            "5.2.8 Ensure Password History is Configured."@,
            "sudo"@,
            seq![
                "/usr/bin/pwpolicy"@,
                "-n"@,
                "/Local/Default"@,
                "-setglobalpolicy"@,
                "usingHistory=15"@,
            ],
            false,
        ),
{
    BashCommand::new(
        "c58_configure_password_history",
        "5.2.8 Ensure Password History is Configured.",
        "sudo",
        vec![
            arg("/usr/bin/pwpolicy"),
            arg("-n"),
            arg("/Local/Default"),
            arg("-setglobalpolicy"),
            arg("usingHistory=15"),
        ],
        false,
    )
}

/// Ensure Sudo Timeout Period and Separate Timestamp are Configured.
pub fn c59_configure_sudo_settings() -> (c: BashCommand)
    ensures
        spec_cmd(
            c,
            "c59_configure_sudo_settings"@,
            "Ensure Sudo Timeout Period and Separate Timestamp are Configured."@,
            "sh"@,
            seq![
                "-c"@,
                "{ echo 'Defaults timestamp_timeout=0'; echo 'Defaults timestamp_type=tty'; } | sudo tee /etc/sudoers.d/10_cissudoconfiguration > /dev/null"@,
            ],
            false,
        ),
{
    BashCommand::new(
        "c59_configure_sudo_settings",
        "Ensure Sudo Timeout Period and Separate Timestamp are Configured.",
        "sh",
        vec![
            arg("-c"),
            arg("{ echo 'Defaults timestamp_timeout=0'; echo 'Defaults timestamp_type=tty'; } | sudo tee /etc/sudoers.d/10_cissudoconfiguration > /dev/null"),
        ],
        false,
    )
}

/// Update Progress for Sudo Timeout and Separate Timestamp Configuration.
pub fn c60_update_progress() -> (c: BashCommand)
    ensures
        spec_cmd(
            c,
            "c60_update_progress"@,
            "Update Progress for Sudo Timeout and Separate Timestamp Configuration."@,
            "echo"@,
            seq![
                "Progress updated."@,
            ],
            false,
        ),
{
    BashCommand::new(
        "c60_update_progress",
        "Update Progress for Sudo Timeout and Separate Timestamp Configuration.",
        "echo",
        vec![
            arg("Progress updated."),
        ],
        false,
    )
}

/// 5.5 Ensure the 'root' Account is Disabled.
pub fn c61_disable_root_account() -> (c: BashCommand)
    ensures
        spec_cmd(
            c,
            "c61_disable_root_account"@,
            "5.5 Ensure the 'root' Account is Disabled."@,
            "sudo"@,
            seq![
                "/usr/sbin/dsenableroot"@,
                "-d"@,
            ],
            false,
        ),
{
    BashCommand::new(
        "c61_disable_root_account",
        "5.5 Ensure the 'root' Account is Disabled.",
        "sudo",
        vec![
            arg("/usr/sbin/dsenableroot"),
            arg("-d"),
        ],
        false,
    )
}

/// 5.6 Ensure Automatic Login is Disabled.
pub fn c62_disable_automatic_login() -> (c: BashCommand)
    ensures
        spec_cmd(
            c,
            "c62_disable_automatic_login"@,
            "5.6 Ensure Automatic Login is Disabled."@,
            "sudo"@,
            seq![
                "/usr/bin/defaults"@,
                "delete"@,
                "/Library/Preferences/com.apple.loginwindow"@,
                "autoLoginUser"@,
            ],
            false,
        ),
{
    BashCommand::new(
        "c62_disable_automatic_login",
        "5.6 Ensure Automatic Login is Disabled.",
        "sudo",
        vec![
            arg("/usr/bin/defaults"),
            arg("delete"),
            arg("/Library/Preferences/com.apple.loginwindow"),
            arg("autoLoginUser"),
        ],
        false,
    )
}

/// 5.7 Ensure an Administrator Account Cannot Log in to Another User's Active and Locked Session.
pub fn c63_prevent_admin_login_to_locked_session() -> (c: BashCommand)
    ensures
        spec_cmd(
            c,
            "c63_prevent_admin_login_to_locked_session"@,
            "5.7 Ensure an Administrator Account Cannot Log in to Another User's Active and Locked Session."@,
            "sudo"@,
            seq![
                "/usr/bin/security"@,
                "authorizationdb"@,
                "write"@,
                "system.login.screensaver"@,
                "use-login-window-ui"@,
            ],
            false,
        ),
{
    BashCommand::new(
        "c63_prevent_admin_login_to_locked_session",
        "5.7 Ensure an Administrator Account Cannot Log in to Another User's Active and Locked Session.",
        "sudo",
        vec![
            arg("/usr/bin/security"),
            arg("authorizationdb"),
            arg("write"),
            arg("system.login.screensaver"),
            arg("use-login-window-ui"),
        ],
        false,
    )
}

/// Ensure Fast User Switching is Disabled.
pub fn c63_1_disable_fast_user_switching() -> (c: BashCommand)
    ensures
        spec_cmd(
            c,
            "c63_1_disable_fast_user_switching"@,
            "Ensure Fast User Switching is Disabled."@,
            "sudo"@,
            seq![
                "/usr/bin/defaults"@,
                "write"@,
                "/Library/Preferences/.GlobalPreferences"@,
                "MultipleSessionEnabled"@,
                "-bool"@,
                "false"@,
            ],
            false,
        ),
{
    BashCommand::new(
        "c63_1_disable_fast_user_switching",
        "Ensure Fast User Switching is Disabled.",
        "sudo",
        vec![
            arg("/usr/bin/defaults"),
            arg("write"),
            arg("/Library/Preferences/.GlobalPreferences"),
            arg("MultipleSessionEnabled"),
            arg("-bool"),
            arg("false"),
        ],
        false,
    )
}

/// Ensure Login Windows Displays as Name and Password is Enabled.
pub fn c66_enable_login_name_password_display() -> (c: BashCommand)
    ensures
        spec_cmd(
            c,
            "c66_enable_login_name_password_display"@,
            "Ensure Login Windows Displays as Name and Password is Enabled."@,
            "sudo"@,
            seq![
                "/usr/bin/defaults"@,
                "write"@,
                "/Library/Preferences/com.apple.loginwindow"@,
                "SHOWFULLNAME"@,
                "-bool"@,
                "true"@,
            ],
            false,
        ),
{
    BashCommand::new(
        "c66_enable_login_name_password_display",
        "Ensure Login Windows Displays as Name and Password is Enabled.",
        "sudo",
        vec![
            arg("/usr/bin/defaults"),
            arg("write"),
            arg("/Library/Preferences/com.apple.loginwindow"),
            arg("SHOWFULLNAME"),
            arg("-bool"),
            arg("true"),
        ],
        false,
    )
}

/// Ensure Show Password Hints is Disabled.
pub fn c67_disable_password_hints() -> (c: BashCommand)
    ensures
        spec_cmd(
            c,
            "c67_disable_password_hints"@,
            "Ensure Show Password Hints is Disabled."@,
            "sudo"@,
            seq![
                "/usr/bin/defaults"@,
                "write"@,
                "/Library/Preferences/com.apple.loginwindow"@,
                "RetriesUntilHint"@,
                "-int"@,
                "0"@,
            ],
            false,
        ),
{
    BashCommand::new(
        "c67_disable_password_hints",
        "Ensure Show Password Hints is Disabled.",
        "sudo",
        vec![
            arg("/usr/bin/defaults"),
            arg("write"),
            arg("/Library/Preferences/com.apple.loginwindow"),
            arg("RetriesUntilHint"),
            arg("-int"),
            arg("0"),
        ],
        false,
    )
}

/// Ensure Guest Account is Disabled.
pub fn c68_disable_guest_account() -> (c: BashCommand)
    ensures
        spec_cmd(
            c,
            "c68_disable_guest_account"@,
            "Ensure Guest Account is Disabled."@,
            "sudo"@,
            seq![
                "/usr/bin/defaults"@,
                "write"@,
                "/Library/Preferences/com.apple.loginwindow"@,
                "GuestEnabled"@,
                "-bool"@,
                "false"@,
            ],
            false,
        ),
{
    BashCommand::new(
        "c68_disable_guest_account",
        "Ensure Guest Account is Disabled.",
        "sudo",
        vec![
            arg("/usr/bin/defaults"),
            arg("write"),
            arg("/Library/Preferences/com.apple.loginwindow"),
            arg("GuestEnabled"),
            arg("-bool"),
            arg("false"),
        ],
        false,
    )
}

/// Ensure Guest Access to Shared Folders is Disabled.
pub fn c69_disable_guest_shared_folders_access() -> (c: BashCommand)
    ensures
        spec_cmd(
            c,
            "c69_disable_guest_shared_folders_access"@,
            "Ensure Guest Access to Shared Folders is Disabled."@,
            "sudo"@,
            seq![
                "/usr/sbin/sysadminctl"@,
                "-smbGuestAccess"@,
                "off"@,
            ],
            false,
        ),
{
    BashCommand::new(
        "c69_disable_guest_shared_folders_access",
        "Ensure Guest Access to Shared Folders is Disabled.",
        "sudo",
        vec![
            arg("/usr/sbin/sysadminctl"),
            arg("-smbGuestAccess"),
            arg("off"),
        ],
        false,
    )
}

/// 6.1.5 Ensure the Guest home Folder Does Not Exist.
pub fn c70_remove_guest_home_folder() -> (c: BashCommand)
    ensures
        spec_cmd(
            c,
            "c70_remove_guest_home_folder"@,
            "6.1.5 Ensure the Guest home Folder Does Not Exist."@,
            "sudo"@,
            seq![
                "/bin/rm"@,
                "-R"@,
                "/Users/Guest"@,
            ],
            false,
        ),
{
    BashCommand::new(
        "c70_remove_guest_home_folder",
        "6.1.5 Ensure the Guest home Folder Does Not Exist.",
        "sudo",
        vec![
            arg("/bin/rm"),
            arg("-R"),
            arg("/Users/Guest"),
        ],
        false,
    )
}

/// 5.8 Ensure a Login Window Banner Exists.
pub fn c79_set_login_window_banner() -> (c: BashCommand)
    ensures
        spec_cmd(
            c,
            "c79_set_login_window_banner"@,
            "5.8 Ensure a Login Window Banner Exists."@,
            "sh"@,
            seq![
                "-c"@,
                "sudo tee /Library/Security/PolicyBanner.txt > /dev/null <<EOL\n=================================================================\n                                                        LOGIN NOTICE\n=================================================================\n\nThis system is the property of [ORGANIZATION].\n\nUnauthorized use of this system is prohibited. By logging in, you\nacknowledge that you have the proper authorization to access this\nsystem and agree to comply with all applicable policies and regulations\nof the [ORGANIZATION]. Any misuse or unauthorized use of this system is\nstrictly forbidden.\n\nAll system activities are monitored and recorded. Any violation of\nthe policies may result in disciplinary or legal actions, as appropriate.\n\n                                                        [ORGANIZATION]\nEOL"@,
            ],
            false,
        ),
{
    BashCommand::new(
        "c79_set_login_window_banner",
        "5.8 Ensure a Login Window Banner Exists.",
        "sh",
        vec![
            arg("-c"),
            arg("sudo tee /Library/Security/PolicyBanner.txt > /dev/null <<EOL\n=================================================================\n                                                        LOGIN NOTICE\n=================================================================\n\nThis system is the property of [ORGANIZATION].\n\nUnauthorized use of this system is prohibited. By logging in, you\nacknowledge that you have the proper authorization to access this\nsystem and agree to comply with all applicable policies and regulations\nof the [ORGANIZATION]. Any misuse or unauthorized use of this system is\nstrictly forbidden.\n\nAll system activities are monitored and recorded. Any violation of\nthe policies may result in disciplinary or legal actions, as appropriate.\n\n                                                        [ORGANIZATION]\nEOL"),
        ],
        false,
    )
}

/// The per-user path `/Users/{user}{tail}`.
fn home_path(user: &str, tail: &str) -> (r: String)
    ensures
        r@ == "/Users/"@ + user@ + tail@,
{
    let mut p = String::from_str("/Users/");
    p.append(user);
    p.append(tail);
    p
}

/// The per-user home directory path `/Users/{user}`.
fn user_home(user: &str) -> (r: String)
    ensures
        r@ == "/Users/"@ + user@,
{
    let mut p = String::from_str("/Users/");
    p.append(user);
    p
}

/// 1.5 Ensure Show Bluetooth Status in Menu Bar is Enabled.  One action per discovered user, in entity-list order; zero
/// users yield zero actions, which is not an error.
pub fn c8_show_bluetooth_status(users: &Vec<String>) -> (cs: Vec<BashCommand>)
    ensures
        cs@.len() == users@.len(),
        forall|k: int| 0 <= k < users@.len() ==> spec_cmd(
            #[trigger] cs@[k],
            "c8_show_bluetooth_status_for_everyuser"@,
            "1.5 Ensure Show Bluetooth Status in Menu Bar is Enabled."@,
            "sudo"@,
            seq![
                "-u"@,
                users.deep_view()[k],
                "defaults"@,
                "-currentHost"@,
                "write"@,
                "com.apple.controlcenter.plist"@,
                "Bluetooth"@,
                "-int"@,
                "18"@,
            ],
            false,
        ),
{
    let mut cs: Vec<BashCommand> = Vec::new();
    let mut i: usize = 0;
    while i < users.len()
        invariant
            i <= users.len(),
            cs@.len() == i,
            forall|k: int| 0 <= k < i ==> spec_cmd(
                #[trigger] cs@[k],
                "c8_show_bluetooth_status_for_everyuser"@,
                "1.5 Ensure Show Bluetooth Status in Menu Bar is Enabled."@,
                "sudo"@,
                seq![
                "-u"@,
                users.deep_view()[k],
                "defaults"@,
                "-currentHost"@,
                "write"@,
                "com.apple.controlcenter.plist"@,
                "Bluetooth"@,
                "-int"@,
                "18"@,
                ],
                false,
            ),
        decreases users.len() - i,
    {
        let c = BashCommand::new(
            "c8_show_bluetooth_status_for_everyuser",
            "1.5 Ensure Show Bluetooth Status in Menu Bar is Enabled.",
            "sudo",
            vec![
                arg("-u"),
                users[i].clone(),
                arg("defaults"),
                arg("-currentHost"),
                arg("write"),
                arg("com.apple.controlcenter.plist"),
                arg("Bluetooth"),
                arg("-int"),
                arg("18"),
            ],
            false,
        );
        proof {
            assert(spec_cmd(
                c,
                "c8_show_bluetooth_status_for_everyuser"@,
                "1.5 Ensure Show Bluetooth Status in Menu Bar is Enabled."@,
                "sudo"@,
                seq![
                "-u"@,
                users.deep_view()[i as int],
                "defaults"@,
                "-currentHost"@,
                "write"@,
                "com.apple.controlcenter.plist"@,
                "Bluetooth"@,
                "-int"@,
                "18"@,
                ],
                false,
            ));
        }
        cs.push(c);
        i = i + 1;
    }
    cs
}

/// 2.3.1 Ensure an Inactivity Interval of 20 Minutes Or Less for the Screen Saver Is Enabled.  One action per discovered user, in entity-list order; zero
/// users yield zero actions, which is not an error.
pub fn c11_set_screensaver_inactivity_interval(users: &Vec<String>) -> (cs: Vec<BashCommand>)
    ensures
        cs@.len() == users@.len(),
        forall|k: int| 0 <= k < users@.len() ==> spec_cmd(
            #[trigger] cs@[k],
            "c11_set_screensaver_inactivity_for_everyuser"@,
            "2.3.1 Ensure an Inactivity Interval of 20 Minutes Or Less for the Screen Saver Is Enabled."@,
            "sudo"@,
            seq![
                "-u"@,
                users.deep_view()[k],
                "/usr/bin/defaults"@,
                "-currentHost"@,
                "write"@,
                "com.apple.screensaver"@,
                "idleTime"@,
                "-int"@,
                "600"@,
            ],
            false,
        ),
{
    let mut cs: Vec<BashCommand> = Vec::new();
    let mut i: usize = 0;
    while i < users.len()
        invariant
            i <= users.len(),
            cs@.len() == i,
            forall|k: int| 0 <= k < i ==> spec_cmd(
                #[trigger] cs@[k],
                "c11_set_screensaver_inactivity_for_everyuser"@,
                "2.3.1 Ensure an Inactivity Interval of 20 Minutes Or Less for the Screen Saver Is Enabled."@,
                "sudo"@,
                seq![
                "-u"@,
                users.deep_view()[k],
                "/usr/bin/defaults"@,
                "-currentHost"@,
                "write"@,
                "com.apple.screensaver"@,
                "idleTime"@,
                "-int"@,
                "600"@,
                ],
                false,
            ),
        decreases users.len() - i,
    {
        let c = BashCommand::new(
            "c11_set_screensaver_inactivity_for_everyuser",
            "2.3.1 Ensure an Inactivity Interval of 20 Minutes Or Less for the Screen Saver Is Enabled.",
            "sudo",
            vec![
                arg("-u"),
                users[i].clone(),
                arg("/usr/bin/defaults"),
                arg("-currentHost"),
                arg("write"),
                arg("com.apple.screensaver"),
                arg("idleTime"),
                arg("-int"),
                arg("600"),
            ],
            false,
        );
        proof {
            assert(spec_cmd(
                c,
                "c11_set_screensaver_inactivity_for_everyuser"@,
                "2.3.1 Ensure an Inactivity Interval of 20 Minutes Or Less for the Screen Saver Is Enabled."@,
                "sudo"@,
                seq![
                "-u"@,
                users.deep_view()[i as int],
                "/usr/bin/defaults"@,
                "-currentHost"@,
                "write"@,
                "com.apple.screensaver"@,
                "idleTime"@,
                "-int"@,
                "600"@,
                ],
                false,
            ));
        }
        cs.push(c);
        i = i + 1;
    }
    cs
}

/// 2.4.11 Ensure AirDrop is Disabled.  One action per discovered user, in entity-list order; zero
/// users yield zero actions, which is not an error.
pub fn c22_disable_airdrop(users: &Vec<String>) -> (cs: Vec<BashCommand>)
    ensures
        cs@.len() == users@.len(),
        forall|k: int| 0 <= k < users@.len() ==> spec_cmd(
            #[trigger] cs@[k],
            "c22_disable_airdrop_for_everyuser"@,
            "2.4.11 Ensure AirDrop is Disabled."@,
            "sudo"@,
            seq![
                "-u"@,
                users.deep_view()[k],
                "defaults"@,
                "write"@,
                "com.apple.NetworkBrowser"@,
                "DisableAirDrop"@,
                "-bool"@,
                "true"@,
            ],
            false,
        ),
{
    let mut cs: Vec<BashCommand> = Vec::new();
    let mut i: usize = 0;
    while i < users.len()
        invariant
            i <= users.len(),
            cs@.len() == i,
            forall|k: int| 0 <= k < i ==> spec_cmd(
                #[trigger] cs@[k],
                "c22_disable_airdrop_for_everyuser"@,
                "2.4.11 Ensure AirDrop is Disabled."@,
                "sudo"@,
                seq![
                "-u"@,
                users.deep_view()[k],
                "defaults"@,
                "write"@,
                "com.apple.NetworkBrowser"@,
                "DisableAirDrop"@,
                "-bool"@,
                "true"@,
                ],
                false,
            ),
        decreases users.len() - i,
    {
        let c = BashCommand::new(
            "c22_disable_airdrop_for_everyuser",
            "2.4.11 Ensure AirDrop is Disabled.",
            "sudo",
            vec![
                arg("-u"),
                users[i].clone(),
                arg("defaults"),
                arg("write"),
                arg("com.apple.NetworkBrowser"),
                arg("DisableAirDrop"),
                arg("-bool"),
                arg("true"),
            ],
            false,
        );
        proof {
            assert(spec_cmd(
                c,
                "c22_disable_airdrop_for_everyuser"@,
                "2.4.11 Ensure AirDrop is Disabled."@,
                "sudo"@,
                seq![
                "-u"@,
                users.deep_view()[i as int],
                "defaults"@,
                "write"@,
                "com.apple.NetworkBrowser"@,
                "DisableAirDrop"@,
                "-bool"@,
                "true"@,
                ],
                false,
            ));
        }
        cs.push(c);
        i = i + 1;
    }
    cs
}

/// 2.4.12 Ensure Media Sharing is Disabled.  One action per discovered user, in entity-list order; zero
/// users yield zero actions, which is not an error.
pub fn c23_disable_media_sharing(users: &Vec<String>) -> (cs: Vec<BashCommand>)
    ensures
        cs@.len() == users@.len(),
        forall|k: int| 0 <= k < users@.len() ==> spec_cmd(
            #[trigger] cs@[k],
            "c23_disable_media_sharing_for_everyuser"@,
            "2.4.12 Ensure Media Sharing is Disabled."@,
            "sudo"@,
            seq![
                "-u"@,
                users.deep_view()[k],
                "defaults"@,
                "write"@,
                "com.apple.amp.mediasharingd"@,
                "home-sharing-enabled"@,
                "-int"@,
                "0"@,
            ],
            false,
        ),
{
    let mut cs: Vec<BashCommand> = Vec::new();
    let mut i: usize = 0;
    while i < users.len()
        invariant
            i <= users.len(),
            cs@.len() == i,
            forall|k: int| 0 <= k < i ==> spec_cmd(
                #[trigger] cs@[k],
                "c23_disable_media_sharing_for_everyuser"@,
                "2.4.12 Ensure Media Sharing is Disabled."@,
                "sudo"@,
                seq![
                "-u"@,
                users.deep_view()[k],
                "defaults"@,
                "write"@,
                "com.apple.amp.mediasharingd"@,
                "home-sharing-enabled"@,
                "-int"@,
                "0"@,
                ],
                false,
            ),
        decreases users.len() - i,
    {
        let c = BashCommand::new(
            "c23_disable_media_sharing_for_everyuser",
            "2.4.12 Ensure Media Sharing is Disabled.",
            "sudo",
            vec![
                arg("-u"),
                users[i].clone(),
                arg("defaults"),
                arg("write"),
                arg("com.apple.amp.mediasharingd"),
                arg("home-sharing-enabled"),
                arg("-int"),
                arg("0"),
            ],
            false,
        );
        proof {
            assert(spec_cmd(
                c,
                "c23_disable_media_sharing_for_everyuser"@,
                "2.4.12 Ensure Media Sharing is Disabled."@,
                "sudo"@,
                seq![
                "-u"@,
                users.deep_view()[i as int],
                "defaults"@,
                "write"@,
                "com.apple.amp.mediasharingd"@,
                "home-sharing-enabled"@,
                "-int"@,
                "0"@,
                ],
                false,
            ));
        }
        cs.push(c);
        i = i + 1;
    }
    cs
}

/// 2.4.13 Ensure AirPlay Receiver is Disabled.  One action per discovered user, in entity-list order; zero
/// users yield zero actions, which is not an error.
pub fn c24_disable_airplay_receiver(users: &Vec<String>) -> (cs: Vec<BashCommand>)
    ensures
        cs@.len() == users@.len(),
        forall|k: int| 0 <= k < users@.len() ==> spec_cmd(
            #[trigger] cs@[k],
            "c24_disable_airplay_receiver_for_everyuser"@,
            "2.4.13 Ensure AirPlay Receiver is Disabled."@,
            "sudo"@,
            seq![
                "-u"@,
                users.deep_view()[k],
                "defaults"@,
                "-currentHost"@,
                "write"@,
                "com.apple.controlcenter.plist"@,
                "AirplayRecieverEnabled"@,
                "-bool"@,
                "false"@,
            ],
            false,
        ),
{
    let mut cs: Vec<BashCommand> = Vec::new();
    let mut i: usize = 0;
    while i < users.len()
        invariant
            i <= users.len(),
            cs@.len() == i,
            forall|k: int| 0 <= k < i ==> spec_cmd(
                #[trigger] cs@[k],
                "c24_disable_airplay_receiver_for_everyuser"@,
                "2.4.13 Ensure AirPlay Receiver is Disabled."@,
                "sudo"@,
                seq![
                "-u"@,
                users.deep_view()[k],
                "defaults"@,
                "-currentHost"@,
                "write"@,
                "com.apple.controlcenter.plist"@,
                "AirplayRecieverEnabled"@,
                "-bool"@,
                "false"@,
                ],
                false,
            ),
        decreases users.len() - i,
    {
        let c = BashCommand::new(
            "c24_disable_airplay_receiver_for_everyuser",
            "2.4.13 Ensure AirPlay Receiver is Disabled.",
            "sudo",
            vec![
                arg("-u"),
                users[i].clone(),
                arg("defaults"),
                arg("-currentHost"),
                arg("write"),
                arg("com.apple.controlcenter.plist"),
                arg("AirplayRecieverEnabled"),
                arg("-bool"),
                arg("false"),
            ],
            false,
        );
        proof {
            assert(spec_cmd(
                c,
                "c24_disable_airplay_receiver_for_everyuser"@,
                "2.4.13 Ensure AirPlay Receiver is Disabled."@,
                "sudo"@,
                seq![
                "-u"@,
                users.deep_view()[i as int],
                "defaults"@,
                "-currentHost"@,
                "write"@,
                "com.apple.controlcenter.plist"@,
                "AirplayRecieverEnabled"@,
                "-bool"@,
                "false"@,
                ],
                false,
            ));
        }
        cs.push(c);
        i = i + 1;
    }
    cs
}

/// Ensure Secure Keyboard Entry in Terminal.app is Enabled.  One action per discovered user, in entity-list order; zero
/// users yield zero actions, which is not an error.
pub fn c65_enable_secure_keyboard_entry(users: &Vec<String>) -> (cs: Vec<BashCommand>)
    ensures
        cs@.len() == users@.len(),
        forall|k: int| 0 <= k < users@.len() ==> spec_cmd(
            #[trigger] cs@[k],
            "c65_enable_secure_keyboard_entry_for_everyuser"@,
            "Ensure Secure Keyboard Entry in Terminal.app is Enabled."@,
            "sudo"@,
            seq![
                "-u"@,
                users.deep_view()[k],
                "/usr/bin/defaults"@,
                "write"@,
                "-app"@,
                "Terminal"@,
                "SecureKeyboardEntry"@,
                "-bool"@,
                "true"@,
            ],
            false,
        ),
{
    let mut cs: Vec<BashCommand> = Vec::new();
    let mut i: usize = 0;
    while i < users.len()
        invariant
            i <= users.len(),
            cs@.len() == i,
            forall|k: int| 0 <= k < i ==> spec_cmd(
                #[trigger] cs@[k],
                "c65_enable_secure_keyboard_entry_for_everyuser"@,
                "Ensure Secure Keyboard Entry in Terminal.app is Enabled."@,
                "sudo"@,
                seq![
                "-u"@,
                users.deep_view()[k],
                "/usr/bin/defaults"@,
                "write"@,
                "-app"@,
                "Terminal"@,
                "SecureKeyboardEntry"@,
                "-bool"@,
                "true"@,
                ],
                false,
            ),
        decreases users.len() - i,
    {
        let c = BashCommand::new(
            "c65_enable_secure_keyboard_entry_for_everyuser",
            "Ensure Secure Keyboard Entry in Terminal.app is Enabled.",
            "sudo",
            vec![
                arg("-u"),
                users[i].clone(),
                arg("/usr/bin/defaults"),
                arg("write"),
                arg("-app"),
                arg("Terminal"),
                arg("SecureKeyboardEntry"),
                arg("-bool"),
                arg("true"),
            ],
            false,
        );
        proof {
            assert(spec_cmd(
                c,
                "c65_enable_secure_keyboard_entry_for_everyuser"@,
                "Ensure Secure Keyboard Entry in Terminal.app is Enabled."@,
                "sudo"@,
                seq![
                "-u"@,
                users.deep_view()[i as int],
                "/usr/bin/defaults"@,
                "write"@,
                "-app"@,
                "Terminal"@,
                "SecureKeyboardEntry"@,
                "-bool"@,
                "true"@,
                ],
                false,
            ));
        }
        cs.push(c);
        i = i + 1;
    }
    cs
}

/// 2.5.5 Ensure Sending Diagnostic and Usage Data to Apple is Disabled (Per User).  One action per discovered user, in entity-list order; zero
/// users yield zero actions, which is not an error.
pub fn c28_2_disable_diagnostic_data_per_user(users: &Vec<String>) -> (cs: Vec<BashCommand>)
    ensures
        cs@.len() == users@.len(),
        forall|k: int| 0 <= k < users@.len() ==> spec_cmd(
            #[trigger] cs@[k],
            "c28_2_disable_diagnostic_data_for_everyuser"@,
            "2.5.5 Ensure Sending Diagnostic and Usage Data to Apple is Disabled (Per User)."@,
            "sudo"@,
            seq![
                "-u"@,
                users.deep_view()[k],
                "/usr/bin/defaults"@,
                "write"@,
                "/Users/"@ + users.deep_view()[k] + "/Library/Preferences/com.apple.assistant.support"@,
                "'Siri Data Sharing Opt-In Status'"@,
                "-int"@,
                "2"@,
            ],
            false,
        ),
{
    let mut cs: Vec<BashCommand> = Vec::new();
    let mut i: usize = 0;
    while i < users.len()
        invariant
            i <= users.len(),
            cs@.len() == i,
            forall|k: int| 0 <= k < i ==> spec_cmd(
                #[trigger] cs@[k],
                "c28_2_disable_diagnostic_data_for_everyuser"@,
                "2.5.5 Ensure Sending Diagnostic and Usage Data to Apple is Disabled (Per User)."@,
                "sudo"@,
                seq![
                "-u"@,
                users.deep_view()[k],
                "/usr/bin/defaults"@,
                "write"@,
                "/Users/"@ + users.deep_view()[k] + "/Library/Preferences/com.apple.assistant.support"@,
                "'Siri Data Sharing Opt-In Status'"@,
                "-int"@,
                "2"@,
                ],
                false,
            ),
        decreases users.len() - i,
    {
        let c = BashCommand::new(
            "c28_2_disable_diagnostic_data_for_everyuser",
            "2.5.5 Ensure Sending Diagnostic and Usage Data to Apple is Disabled (Per User).",
            "sudo",
            vec![
                arg("-u"),
                users[i].clone(),
                arg("/usr/bin/defaults"),
                arg("write"),
                home_path(users[i].as_str(), "/Library/Preferences/com.apple.assistant.support"),
                arg("'Siri Data Sharing Opt-In Status'"),
                arg("-int"),
                arg("2"),
            ],
            false,
        );
        proof {
            assert(spec_cmd(
                c,
                "c28_2_disable_diagnostic_data_for_everyuser"@,
                "2.5.5 Ensure Sending Diagnostic and Usage Data to Apple is Disabled (Per User)."@,
                "sudo"@,
                seq![
                "-u"@,
                users.deep_view()[i as int],
                "/usr/bin/defaults"@,
                "write"@,
                "/Users/"@ + users.deep_view()[i as int] + "/Library/Preferences/com.apple.assistant.support"@,
                "'Siri Data Sharing Opt-In Status'"@,
                "-int"@,
                "2"@,
                ],
                false,
            ));
        }
        cs.push(c);
        i = i + 1;
    }
    cs
}

/// 2.5.6 Ensure Limit Ad Tracking is Enabled.  One action per discovered user, in entity-list order; zero
/// users yield zero actions, which is not an error.
pub fn c29_enable_limit_ad_tracking(users: &Vec<String>) -> (cs: Vec<BashCommand>)
    ensures
        cs@.len() == users@.len(),
        forall|k: int| 0 <= k < users@.len() ==> spec_cmd(
            #[trigger] cs@[k],
            "c29_enable_limit_ad_tracking_for_everyuser"@,
            "2.5.6 Ensure Limit Ad Tracking is Enabled."@,
            "sudo"@,
            seq![
                "-u"@,
                users.deep_view()[k],
                "/usr/bin/defaults"@,
                "write"@,
                "/Users/"@ + users.deep_view()[k] + "/Library/Preferences/com.apple.Adlib.plist"@,
                "allowApplePersonalizedAdvertising"@,
                "-bool"@,
                "false"@,
            ],
            false,
        ),
{
    let mut cs: Vec<BashCommand> = Vec::new();
    let mut i: usize = 0;
    while i < users.len()
        invariant
            i <= users.len(),
            cs@.len() == i,
            forall|k: int| 0 <= k < i ==> spec_cmd(
                #[trigger] cs@[k],
                "c29_enable_limit_ad_tracking_for_everyuser"@,
                "2.5.6 Ensure Limit Ad Tracking is Enabled."@,
                "sudo"@,
                seq![
                "-u"@,
                users.deep_view()[k],
                "/usr/bin/defaults"@,
                "write"@,
                "/Users/"@ + users.deep_view()[k] + "/Library/Preferences/com.apple.Adlib.plist"@,
                "allowApplePersonalizedAdvertising"@,
                "-bool"@,
                "false"@,
                ],
                false,
            ),
        decreases users.len() - i,
    {
        let c = BashCommand::new(
            "c29_enable_limit_ad_tracking_for_everyuser",
            "2.5.6 Ensure Limit Ad Tracking is Enabled.",
            "sudo",
            vec![
                arg("-u"),
                users[i].clone(),
                arg("/usr/bin/defaults"),
                arg("write"),
                home_path(users[i].as_str(), "/Library/Preferences/com.apple.Adlib.plist"),
                arg("allowApplePersonalizedAdvertising"),
                arg("-bool"),
                arg("false"),
            ],
            false,
        );
        proof {
            assert(spec_cmd(
                c,
                "c29_enable_limit_ad_tracking_for_everyuser"@,
                "2.5.6 Ensure Limit Ad Tracking is Enabled."@,
                "sudo"@,
                seq![
                "-u"@,
                users.deep_view()[i as int],
                "/usr/bin/defaults"@,
                "write"@,
                "/Users/"@ + users.deep_view()[i as int] + "/Library/Preferences/com.apple.Adlib.plist"@,
                "allowApplePersonalizedAdvertising"@,
                "-bool"@,
                "false"@,
                ],
                false,
            ));
        }
        cs.push(c);
        i = i + 1;
    }
    cs
}

/// 7.2.1 Ensure Automatic Opening of Safe Files in Safari is Disabled.  One action per discovered user, in entity-list order; zero
/// users yield zero actions, which is not an error.
pub fn c72_disable_auto_open_safe_files(users: &Vec<String>) -> (cs: Vec<BashCommand>)
    ensures
        cs@.len() == users@.len(),
        forall|k: int| 0 <= k < users@.len() ==> spec_cmd(
            #[trigger] cs@[k],
            "c72_disable_auto_open_safe_files_for_everyuser"@,
            "7.2.1 Ensure Automatic Opening of Safe Files in Safari is Disabled."@,
            "sudo"@,
            seq![
                "-u"@,
                users.deep_view()[k],
                "/usr/bin/defaults"@,
                "read"@,
                "/Users/"@ + users.deep_view()[k] + "/Library/Containers/com.apple.Safari/Data/Library/Preferences/com.apple.Safari"@,
                "AutoOpenSafeDownloads"@,
            ],
            false,
        ),
{
    let mut cs: Vec<BashCommand> = Vec::new();
    let mut i: usize = 0;
    while i < users.len()
        invariant
            i <= users.len(),
            cs@.len() == i,
            forall|k: int| 0 <= k < i ==> spec_cmd(
                #[trigger] cs@[k],
                "c72_disable_auto_open_safe_files_for_everyuser"@,
                "7.2.1 Ensure Automatic Opening of Safe Files in Safari is Disabled."@,
                "sudo"@,
                seq![
                "-u"@,
                users.deep_view()[k],
                "/usr/bin/defaults"@,
                "read"@,
                "/Users/"@ + users.deep_view()[k] + "/Library/Containers/com.apple.Safari/Data/Library/Preferences/com.apple.Safari"@,
                "AutoOpenSafeDownloads"@,
                ],
                false,
            ),
        decreases users.len() - i,
    {
        let c = BashCommand::new(
            "c72_disable_auto_open_safe_files_for_everyuser",
            "7.2.1 Ensure Automatic Opening of Safe Files in Safari is Disabled.",
            "sudo",
            vec![
                arg("-u"),
                users[i].clone(),
                arg("/usr/bin/defaults"),
                arg("read"),
                home_path(users[i].as_str(), "/Library/Containers/com.apple.Safari/Data/Library/Preferences/com.apple.Safari"),
                arg("AutoOpenSafeDownloads"),
            ],
            false,
        );
        proof {
            assert(spec_cmd(
                c,
                "c72_disable_auto_open_safe_files_for_everyuser"@,
                "7.2.1 Ensure Automatic Opening of Safe Files in Safari is Disabled."@,
                "sudo"@,
                seq![
                "-u"@,
                users.deep_view()[i as int],
                "/usr/bin/defaults"@,
                "read"@,
                "/Users/"@ + users.deep_view()[i as int] + "/Library/Containers/com.apple.Safari/Data/Library/Preferences/com.apple.Safari"@,
                "AutoOpenSafeDownloads"@,
                ],
                false,
            ));
        }
        cs.push(c);
        i = i + 1;
    }
    cs
}

/// 7.2.4 Ensure Warn When Visiting A Fraudulent Website in Safari Is Enabled.  One action per discovered user, in entity-list order; zero
/// users yield zero actions, which is not an error.
pub fn c73_enable_warn_about_fraudulent_websites(users: &Vec<String>) -> (cs: Vec<BashCommand>)
    ensures
        cs@.len() == users@.len(),
        forall|k: int| 0 <= k < users@.len() ==> spec_cmd(
            #[trigger] cs@[k],
            "c73_warn_about_fraudulent_websites_for_everyuser"@,
            "7.2.4 Ensure Warn When Visiting A Fraudulent Website in Safari Is Enabled."@,
            "sudo"@,
            seq![
                "-u"@,
                users.deep_view()[k],
                "/usr/bin/defaults"@,
                "read"@,
                "/Users/"@ + users.deep_view()[k] + "/Library/Containers/com.apple.Safari/Data/Library/Preferences/com.apple.Safari"@,
                "WarnAboutFraudulentWebsites"@,
            ],
            false,
        ),
{
    let mut cs: Vec<BashCommand> = Vec::new();
    let mut i: usize = 0;
    while i < users.len()
        invariant
            i <= users.len(),
            cs@.len() == i,
            forall|k: int| 0 <= k < i ==> spec_cmd(
                #[trigger] cs@[k],
                "c73_warn_about_fraudulent_websites_for_everyuser"@,
                "7.2.4 Ensure Warn When Visiting A Fraudulent Website in Safari Is Enabled."@,
                "sudo"@,
                seq![
                "-u"@,
                users.deep_view()[k],
                "/usr/bin/defaults"@,
                "read"@,
                "/Users/"@ + users.deep_view()[k] + "/Library/Containers/com.apple.Safari/Data/Library/Preferences/com.apple.Safari"@,
                "WarnAboutFraudulentWebsites"@,
                ],
                false,
            ),
        decreases users.len() - i,
    {
        let c = BashCommand::new(
            "c73_warn_about_fraudulent_websites_for_everyuser",
            "7.2.4 Ensure Warn When Visiting A Fraudulent Website in Safari Is Enabled.",
            "sudo",
            vec![
                arg("-u"),
                users[i].clone(),
                arg("/usr/bin/defaults"),
                arg("read"),
                home_path(users[i].as_str(), "/Library/Containers/com.apple.Safari/Data/Library/Preferences/com.apple.Safari"),
                arg("WarnAboutFraudulentWebsites"),
            ],
            false,
        );
        proof {
            assert(spec_cmd(
                c,
                "c73_warn_about_fraudulent_websites_for_everyuser"@,
                "7.2.4 Ensure Warn When Visiting A Fraudulent Website in Safari Is Enabled."@,
                "sudo"@,
                seq![
                "-u"@,
                users.deep_view()[i as int],
                "/usr/bin/defaults"@,
                "read"@,
                "/Users/"@ + users.deep_view()[i as int] + "/Library/Containers/com.apple.Safari/Data/Library/Preferences/com.apple.Safari"@,
                "WarnAboutFraudulentWebsites"@,
                ],
                false,
            ));
        }
        cs.push(c);
        i = i + 1;
    }
    cs
}

/// 7.2.6 Ensure Automatic Opening of Safe Files in Safari is Disabled.  One action per discovered user, in entity-list order; zero
/// users yield zero actions, which is not an error.
pub fn c75_disable_automatic_opening_of_safe_files(users: &Vec<String>) -> (cs: Vec<BashCommand>)
    ensures
        cs@.len() == users@.len(),
        forall|k: int| 0 <= k < users@.len() ==> spec_cmd(
            #[trigger] cs@[k],
            "c75_disable_auto_open_safe_files_for_everyuser"@,
            "7.2.6 Ensure Automatic Opening of Safe Files in Safari is Disabled."@,
            "sudo"@,
            seq![
                "-u"@,
                users.deep_view()[k],
                "/usr/bin/defaults"@,
                "write"@,
                "/Users/"@ + users.deep_view()[k] + "/Library/Containers/com.apple.Safari/Data/Library/Preferences/com.apple.Safari"@,
                "WBSPrivacyProxyAvailabilityTraffic"@,
                "-int"@,
                "3300"@,
            ],
            false,
        ),
{
    let mut cs: Vec<BashCommand> = Vec::new();
    let mut i: usize = 0;
    while i < users.len()
        invariant
            i <= users.len(),
            cs@.len() == i,
            forall|k: int| 0 <= k < i ==> spec_cmd(
                #[trigger] cs@[k],
                "c75_disable_auto_open_safe_files_for_everyuser"@,
                "7.2.6 Ensure Automatic Opening of Safe Files in Safari is Disabled."@,
                "sudo"@,
                seq![
                "-u"@,
                users.deep_view()[k],
                "/usr/bin/defaults"@,
                "write"@,
                "/Users/"@ + users.deep_view()[k] + "/Library/Containers/com.apple.Safari/Data/Library/Preferences/com.apple.Safari"@,
                "WBSPrivacyProxyAvailabilityTraffic"@,
                "-int"@,
                "3300"@,
                ],
                false,
            ),
        decreases users.len() - i,
    {
        let c = BashCommand::new(
            "c75_disable_auto_open_safe_files_for_everyuser",
            "7.2.6 Ensure Automatic Opening of Safe Files in Safari is Disabled.",
            "sudo",
            vec![
                arg("-u"),
                users[i].clone(),
                arg("/usr/bin/defaults"),
                arg("write"),
                home_path(users[i].as_str(), "/Library/Containers/com.apple.Safari/Data/Library/Preferences/com.apple.Safari"),
                arg("WBSPrivacyProxyAvailabilityTraffic"),
                arg("-int"),
                arg("3300"),
            ],
            false,
        );
        proof {
            assert(spec_cmd(
                c,
                "c75_disable_auto_open_safe_files_for_everyuser"@,
                "7.2.6 Ensure Automatic Opening of Safe Files in Safari is Disabled."@,
                "sudo"@,
                seq![
                "-u"@,
                users.deep_view()[i as int],
                "/usr/bin/defaults"@,
                "write"@,
                "/Users/"@ + users.deep_view()[i as int] + "/Library/Containers/com.apple.Safari/Data/Library/Preferences/com.apple.Safari"@,
                "WBSPrivacyProxyAvailabilityTraffic"@,
                "-int"@,
                "3300"@,
                ],
                false,
            ));
        }
        cs.push(c);
        i = i + 1;
    }
    cs
}

/// 7.2.7 Ensure Private Click Measurement in Safari is Disabled.  One action per discovered user, in entity-list order; zero
/// users yield zero actions, which is not an error.
pub fn c76_disable_private_click_measurement(users: &Vec<String>) -> (cs: Vec<BashCommand>)
    ensures
        cs@.len() == users@.len(),
        forall|k: int| 0 <= k < users@.len() ==> spec_cmd(
            #[trigger] cs@[k],
            "c76_disable_private_click_measurement_for_everyuser"@,
            "7.2.7 Ensure Private Click Measurement in Safari is Disabled."@,
            "sudo"@,
            seq![
                "-u"@,
                users.deep_view()[k],
                "/usr/bin/defaults"@,
                "write"@,
                "/Users/"@ + users.deep_view()[k] + "/Library/Containers/com.apple.Safari/Data/Library/Preferences/com.apple.Safari"@,
                "WebKitPreferences.privateClickMeasurementEnabled"@,
                "-bool"@,
                "false"@,
            ],
            false,
        ),
{
    let mut cs: Vec<BashCommand> = Vec::new();
    let mut i: usize = 0;
    while i < users.len()
        invariant
            i <= users.len(),
            cs@.len() == i,
            forall|k: int| 0 <= k < i ==> spec_cmd(
                #[trigger] cs@[k],
                "c76_disable_private_click_measurement_for_everyuser"@,
                "7.2.7 Ensure Private Click Measurement in Safari is Disabled."@,
                "sudo"@,
                seq![
                "-u"@,
                users.deep_view()[k],
                "/usr/bin/defaults"@,
                "write"@,
                "/Users/"@ + users.deep_view()[k] + "/Library/Containers/com.apple.Safari/Data/Library/Preferences/com.apple.Safari"@,
                "WebKitPreferences.privateClickMeasurementEnabled"@,
                "-bool"@,
                "false"@,
                ],
                false,
            ),
        decreases users.len() - i,
    {
        let c = BashCommand::new(
            "c76_disable_private_click_measurement_for_everyuser",
            "7.2.7 Ensure Private Click Measurement in Safari is Disabled.",
            "sudo",
            vec![
                arg("-u"),
                users[i].clone(),
                arg("/usr/bin/defaults"),
                arg("write"),
                home_path(users[i].as_str(), "/Library/Containers/com.apple.Safari/Data/Library/Preferences/com.apple.Safari"),
                arg("WebKitPreferences.privateClickMeasurementEnabled"),
                arg("-bool"),
                arg("false"),
            ],
            false,
        );
        proof {
            assert(spec_cmd(
                c,
                "c76_disable_private_click_measurement_for_everyuser"@,
                "7.2.7 Ensure Private Click Measurement in Safari is Disabled."@,
                "sudo"@,
                seq![
                "-u"@,
                users.deep_view()[i as int],
                "/usr/bin/defaults"@,
                "write"@,
                "/Users/"@ + users.deep_view()[i as int] + "/Library/Containers/com.apple.Safari/Data/Library/Preferences/com.apple.Safari"@,
                "WebKitPreferences.privateClickMeasurementEnabled"@,
                "-bool"@,
                "false"@,
                ],
                false,
            ));
        }
        cs.push(c);
        i = i + 1;
    }
    cs
}

/// 7.2.8 Ensure Show Full Website Address in Safari is Enabled.  One action per discovered user, in entity-list order; zero
/// users yield zero actions, which is not an error.
pub fn c77_enable_show_full_website_address(users: &Vec<String>) -> (cs: Vec<BashCommand>)
    ensures
        cs@.len() == users@.len(),
        forall|k: int| 0 <= k < users@.len() ==> spec_cmd(
            #[trigger] cs@[k],
            "c77_enable_full_website_address_for_everyuser"@,
            "7.2.8 Ensure Show Full Website Address in Safari is Enabled."@,
            "sudo"@,
            seq![
                "-u"@,
                users.deep_view()[k],
                "/usr/bin/defaults"@,
                "read"@,
                "/Users/"@ + users.deep_view()[k] + "/Library/Containers/com.apple.Safari/Data/Library/Preferences/com.apple.Safari"@,
                "ShowFullURLInSmartSearchField"@,
            ],
            false,
        ),
{
    let mut cs: Vec<BashCommand> = Vec::new();
    let mut i: usize = 0;
    while i < users.len()
        invariant
            i <= users.len(),
            cs@.len() == i,
            forall|k: int| 0 <= k < i ==> spec_cmd(
                #[trigger] cs@[k],
                "c77_enable_full_website_address_for_everyuser"@,
                "7.2.8 Ensure Show Full Website Address in Safari is Enabled."@,
                "sudo"@,
                seq![
                "-u"@,
                users.deep_view()[k],
                "/usr/bin/defaults"@,
                "read"@,
                "/Users/"@ + users.deep_view()[k] + "/Library/Containers/com.apple.Safari/Data/Library/Preferences/com.apple.Safari"@,
                "ShowFullURLInSmartSearchField"@,
                ],
                false,
            ),
        decreases users.len() - i,
    {
        let c = BashCommand::new(
            "c77_enable_full_website_address_for_everyuser",
            "7.2.8 Ensure Show Full Website Address in Safari is Enabled.",
            "sudo",
            vec![
                arg("-u"),
                users[i].clone(),
                arg("/usr/bin/defaults"),
                arg("read"),
                home_path(users[i].as_str(), "/Library/Containers/com.apple.Safari/Data/Library/Preferences/com.apple.Safari"),
                arg("ShowFullURLInSmartSearchField"),
            ],
            false,
        );
        proof {
            assert(spec_cmd(
                c,
                "c77_enable_full_website_address_for_everyuser"@,
                "7.2.8 Ensure Show Full Website Address in Safari is Enabled."@,
                "sudo"@,
                seq![
                "-u"@,
                users.deep_view()[i as int],
                "/usr/bin/defaults"@,
                "read"@,
                "/Users/"@ + users.deep_view()[i as int] + "/Library/Containers/com.apple.Safari/Data/Library/Preferences/com.apple.Safari"@,
                "ShowFullURLInSmartSearchField"@,
                ],
                false,
            ));
        }
        cs.push(c);
        i = i + 1;
    }
    cs
}

/// 5.1.1 Ensure Home Folders Are Secure.  One action per discovered user, in entity-list order; zero
/// users yield zero actions, which is not an error.
pub fn c46_secure_home_folders(users: &Vec<String>) -> (cs: Vec<BashCommand>)
    ensures
        cs@.len() == users@.len(),
        forall|k: int| 0 <= k < users@.len() ==> spec_cmd(
            #[trigger] cs@[k],
            "c46_secure_home_folder_for_everyuser"@,
            "5.1.1 Ensure Home Folders Are Secure."@,
            "sudo"@,
            seq![
                "/bin/chmod"@,
                "-R"@,
                "og-rwx"@,
                "/Users/"@ + users.deep_view()[k],
            ],
            false,
        ),
{
    let mut cs: Vec<BashCommand> = Vec::new();
    let mut i: usize = 0;
    while i < users.len()
        invariant
            i <= users.len(),
            cs@.len() == i,
            forall|k: int| 0 <= k < i ==> spec_cmd(
                #[trigger] cs@[k],
                "c46_secure_home_folder_for_everyuser"@,
                "5.1.1 Ensure Home Folders Are Secure."@,
                "sudo"@,
                seq![
                "/bin/chmod"@,
                "-R"@,
                "og-rwx"@,
                "/Users/"@ + users.deep_view()[k],
                ],
                false,
            ),
        decreases users.len() - i,
    {
        let c = BashCommand::new(
            "c46_secure_home_folder_for_everyuser",
            "5.1.1 Ensure Home Folders Are Secure.",
            "sudo",
            vec![
                arg("/bin/chmod"),
                arg("-R"),
                arg("og-rwx"),
                user_home(users[i].as_str()),
            ],
            false,
        );
        proof {
            assert(spec_cmd(
                c,
                "c46_secure_home_folder_for_everyuser"@,
                "5.1.1 Ensure Home Folders Are Secure."@,
                "sudo"@,
                seq![
                "/bin/chmod"@,
                "-R"@,
                "og-rwx"@,
                "/Users/"@ + users.deep_view()[i as int],
                ],
                false,
            ));
        }
        cs.push(c);
        i = i + 1;
    }
    cs
}

/// Ensure User Accounts Do Not Have a Password Hint.  One action per discovered user, in entity-list order; zero
/// users yield zero actions, which is not an error.
pub fn c64_remove_password_hints(users: &Vec<String>) -> (cs: Vec<BashCommand>)
    ensures
        cs@.len() == users@.len(),
        forall|k: int| 0 <= k < users@.len() ==> spec_cmd(
            #[trigger] cs@[k],
            "c64_remove_password_hint_for_everyuser"@,
            "Ensure User Accounts Do Not Have a Password Hint."@,
            "sudo"@,
            seq![
                "/usr/bin/dscl"@,
                "."@,
                "-delete"@,
                "/Users/"@ + users.deep_view()[k],
                "hint"@,
            ],
            false,
        ),
{
    let mut cs: Vec<BashCommand> = Vec::new();
    let mut i: usize = 0;
    while i < users.len()
        invariant
            i <= users.len(),
            cs@.len() == i,
            forall|k: int| 0 <= k < i ==> spec_cmd(
                #[trigger] cs@[k],
                "c64_remove_password_hint_for_everyuser"@,
                "Ensure User Accounts Do Not Have a Password Hint."@,
                "sudo"@,
                seq![
                "/usr/bin/dscl"@,
                "."@,
                "-delete"@,
                "/Users/"@ + users.deep_view()[k],
                "hint"@,
                ],
                false,
            ),
        decreases users.len() - i,
    {
        let c = BashCommand::new(
            "c64_remove_password_hint_for_everyuser",
            "Ensure User Accounts Do Not Have a Password Hint.",
            "sudo",
            vec![
                arg("/usr/bin/dscl"),
                arg("."),
                arg("-delete"),
                user_home(users[i].as_str()),
                arg("hint"),
            ],
            false,
        );
        proof {
            assert(spec_cmd(
                c,
                "c64_remove_password_hint_for_everyuser"@,
                "Ensure User Accounts Do Not Have a Password Hint."@,
                "sudo"@,
                seq![
                "/usr/bin/dscl"@,
                "."@,
                "-delete"@,
                "/Users/"@ + users.deep_view()[i as int],
                "hint"@,
                ],
                false,
            ));
        }
        cs.push(c);
        i = i + 1;
    }
    cs
}

/// Ensure Appropriate Permissions Are Enabled for System Wide Applications.  One corrective action per path: the world-writable application bundles found under /Applications,
/// as reported by the search the application runs; zero paths yield zero
/// actions.
pub fn c48_ensure_permissions_for_system_apps(apps: &Vec<String>) -> (cs: Vec<BashCommand>)
    ensures
        cs@.len() == apps@.len(),
        forall|k: int| 0 <= k < apps@.len() ==> spec_cmd(
            #[trigger] cs@[k],
            "c48_fix_permissions_for_every_systemdwide_apps"@,
            "Ensure Appropriate Permissions Are Enabled for System Wide Applications."@,
            "sudo"@,
            seq![
                "/bin/chmod"@,
                "-R"@,
                "o-w"@,
                apps.deep_view()[k],
            ],
            false,
        ),
{
    let mut cs: Vec<BashCommand> = Vec::new();
    let mut i: usize = 0;
    while i < apps.len()
        invariant
            i <= apps.len(),
            cs@.len() == i,
            forall|k: int| 0 <= k < i ==> spec_cmd(
                #[trigger] cs@[k],
                "c48_fix_permissions_for_every_systemdwide_apps"@,
                "Ensure Appropriate Permissions Are Enabled for System Wide Applications."@,
                "sudo"@,
                seq![
                    "/bin/chmod"@,
                    "-R"@,
                    "o-w"@,
                    apps.deep_view()[k],
                ],
                false,
            ),
        decreases apps.len() - i,
    {
        let c = BashCommand::new(
            "c48_fix_permissions_for_every_systemdwide_apps",
            "Ensure Appropriate Permissions Are Enabled for System Wide Applications.",
            "sudo",
            vec![
                arg("/bin/chmod"),
                arg("-R"),
                arg("o-w"),
                apps[i].clone(),
            ],
            false,
        );
        proof {
            assert(spec_cmd(
                c,
                "c48_fix_permissions_for_every_systemdwide_apps"@,
                "Ensure Appropriate Permissions Are Enabled for System Wide Applications."@,
                "sudo"@,
                seq![
                    "/bin/chmod"@,
                    "-R"@,
                    "o-w"@,
                    apps.deep_view()[i as int],
                ],
                false,
            ));
        }
        cs.push(c);
        i = i + 1;
    }
    cs
}

/// 5.1.6 Ensure No World Writable Files Exist in the System Folder.  One corrective action per path: the world-writable directories found in the System folder,
/// as reported by the search the application runs; zero paths yield zero
/// actions.
pub fn c49_fix_world_writable_system_files(paths: &Vec<String>) -> (cs: Vec<BashCommand>)
    ensures
        cs@.len() == paths@.len(),
        forall|k: int| 0 <= k < paths@.len() ==> spec_cmd(
            #[trigger] cs@[k],
            "c49_fix_permissions_for_every_world_writable_system_files"@,
            "5.1.6 Ensure No World Writable Files Exist in the System Folder."@,
            "sudo"@,
            seq![
                "/bin/chmod"@,
                "-R"@,
                "o-w"@,
                paths.deep_view()[k],
            ],
            false,
        ),
{
    let mut cs: Vec<BashCommand> = Vec::new();
    let mut i: usize = 0;
    while i < paths.len()
        invariant
            i <= paths.len(),
            cs@.len() == i,
            forall|k: int| 0 <= k < i ==> spec_cmd(
                #[trigger] cs@[k],
                "c49_fix_permissions_for_every_world_writable_system_files"@,
                "5.1.6 Ensure No World Writable Files Exist in the System Folder."@,
                "sudo"@,
                seq![
                    "/bin/chmod"@,
                    "-R"@,
                    "o-w"@,
                    paths.deep_view()[k],
                ],
                false,
            ),
        decreases paths.len() - i,
    {
        let c = BashCommand::new(
            "c49_fix_permissions_for_every_world_writable_system_files",
            "5.1.6 Ensure No World Writable Files Exist in the System Folder.",
            "sudo",
            vec![
                arg("/bin/chmod"),
                arg("-R"),
                arg("o-w"),
                paths[i].clone(),
            ],
            false,
        );
        proof {
            assert(spec_cmd(
                c,
                "c49_fix_permissions_for_every_world_writable_system_files"@,
                "5.1.6 Ensure No World Writable Files Exist in the System Folder."@,
                "sudo"@,
                seq![
                    "/bin/chmod"@,
                    "-R"@,
                    "o-w"@,
                    paths.deep_view()[i as int],
                ],
                false,
            ));
        }
        cs.push(c);
        i = i + 1;
    }
    cs
}

/// 5.1.7 Ensure No World Writable Files Exist in the Library Folder.  One corrective action per path: the world-writable directories found in the Library folder,
/// as reported by the search the application runs; zero paths yield zero
/// actions.
pub fn c50_fix_world_writable_library_files(paths: &Vec<String>) -> (cs: Vec<BashCommand>)
    ensures
        cs@.len() == paths@.len(),
        forall|k: int| 0 <= k < paths@.len() ==> spec_cmd(
            #[trigger] cs@[k],
            "c50_fix_permissions_every_world_writable_library_files"@,
            "5.1.7 Ensure No World Writable Files Exist in the Library Folder."@,
            "sudo"@,
            seq![
                "/bin/chmod"@,
                "-R"@,
                "o-w"@,
                paths.deep_view()[k],
            ],
            false,
        ),
{
    let mut cs: Vec<BashCommand> = Vec::new();
    let mut i: usize = 0;
    while i < paths.len()
        invariant
            i <= paths.len(),
            cs@.len() == i,
            forall|k: int| 0 <= k < i ==> spec_cmd(
                #[trigger] cs@[k],
                "c50_fix_permissions_every_world_writable_library_files"@,
                "5.1.7 Ensure No World Writable Files Exist in the Library Folder."@,
                "sudo"@,
                seq![
                    "/bin/chmod"@,
                    "-R"@,
                    "o-w"@,
                    paths.deep_view()[k],
                ],
                false,
            ),
        decreases paths.len() - i,
    {
        let c = BashCommand::new(
            "c50_fix_permissions_every_world_writable_library_files",
            "5.1.7 Ensure No World Writable Files Exist in the Library Folder.",
            "sudo",
            vec![
                arg("/bin/chmod"),
                arg("-R"),
                arg("o-w"),
                paths[i].clone(),
            ],
            false,
        );
        proof {
            assert(spec_cmd(
                c,
                "c50_fix_permissions_every_world_writable_library_files"@,
                "5.1.7 Ensure No World Writable Files Exist in the Library Folder."@,
                "sudo"@,
                seq![
                    "/bin/chmod"@,
                    "-R"@,
                    "o-w"@,
                    paths.deep_view()[i as int],
                ],
                false,
            ));
        }
        cs.push(c);
        i = i + 1;
    }
    cs
}


/// Holds when `c` sets the screen-saver hot corner `key` to the secure
/// value for `user`.
pub open spec fn spec_corner_cmd(
    c: BashCommand,
    user: Seq<char>,
    key: Seq<char>,
    desc: Seq<char>,
) -> bool {
    spec_cmd(
        c,
        "c12_secure_top_left_corner_for_everyuser"@,
        desc,
        "sudo"@,
        seq![
            "-u"@,
            user,
            "/usr/bin/defaults"@,
            "write"@,
            "com.apple.dock"@,
            key,
            "-int"@,
            "0"@,
        ],
        false,
    )
}

/// Builds one hot-corner action for one user.
fn corner_cmd(user: &String, key: &str, desc: &str) -> (c: BashCommand)
    ensures
        spec_corner_cmd(c, user@, key@, desc@),
{
    BashCommand::new(
        "c12_secure_top_left_corner_for_everyuser",
        desc,
        "sudo",
        vec![
            arg("-u"),
            user.clone(),
            arg("/usr/bin/defaults"),
            arg("write"),
            arg("com.apple.dock"),
            arg(key),
            arg("-int"),
            arg("0"),
        ],
        false,
    )
}

/// 2.3.2 Ensure Screen Saver Corners Are Secure.  Four actions per
/// discovered user — top-left, bottom-left, top-right, bottom-right — in
/// entity-list order; zero users yield zero actions.
pub fn c12_ensure_secure_screensaver_corners(users: &Vec<String>) -> (cs: Vec<BashCommand>)
    ensures
        cs@.len() == 4 * users@.len(),
        forall|k: int|
            0 <= k < users@.len() ==> {
                &&& spec_corner_cmd(
                    cs@[4 * k],
                    #[trigger] users.deep_view()[k],
                    "wvous-tl-corner"@,
                    "2.3.2 Ensure Screen Saver Top-Left Corner Is Secure."@,
                )
                &&& spec_corner_cmd(
                    cs@[4 * k + 1],
                    users.deep_view()[k],
                    "wvous-bl-corner"@,
                    "2.3.2 Ensure Screen Saver Bottom-Left Corner Is Secure."@,
                )
                &&& spec_corner_cmd(
                    cs@[4 * k + 2],
                    users.deep_view()[k],
                    "wvous-tr-corner"@,
                    "2.3.2 Ensure Screen Saver Top-Right Corner Is Secure."@,
                )
                &&& spec_corner_cmd(
                    cs@[4 * k + 3],
                    users.deep_view()[k],
                    "wvous-br-corner"@,
                    "2.3.2 Ensure Screen Saver Bottom-Right Corner Is Secure."@,
                )
            },
{
    let mut cs: Vec<BashCommand> = Vec::new();
    let mut i: usize = 0;
    while i < users.len()
        invariant
            i <= users.len(),
            cs@.len() == 4 * i,
            forall|k: int|
                0 <= k < i ==> {
                    &&& spec_corner_cmd(
                        cs@[4 * k],
                        #[trigger] users.deep_view()[k],
                        "wvous-tl-corner"@,
                        "2.3.2 Ensure Screen Saver Top-Left Corner Is Secure."@,
                    )
                    &&& spec_corner_cmd(
                        cs@[4 * k + 1],
                        users.deep_view()[k],
                        "wvous-bl-corner"@,
                        "2.3.2 Ensure Screen Saver Bottom-Left Corner Is Secure."@,
                    )
                    &&& spec_corner_cmd(
                        cs@[4 * k + 2],
                        users.deep_view()[k],
                        "wvous-tr-corner"@,
                        "2.3.2 Ensure Screen Saver Top-Right Corner Is Secure."@,
                    )
                    &&& spec_corner_cmd(
                        cs@[4 * k + 3],
                        users.deep_view()[k],
                        "wvous-br-corner"@,
                        "2.3.2 Ensure Screen Saver Bottom-Right Corner Is Secure."@,
                    )
                },
        decreases users.len() - i,
    {
        let c0 = corner_cmd(
            &users[i],
            "wvous-tl-corner",
            "2.3.2 Ensure Screen Saver Top-Left Corner Is Secure.",
        );
        let c1 = corner_cmd(
            &users[i],
            "wvous-bl-corner",
            "2.3.2 Ensure Screen Saver Bottom-Left Corner Is Secure.",
        );
        let c2 = corner_cmd(
            &users[i],
            "wvous-tr-corner",
            "2.3.2 Ensure Screen Saver Top-Right Corner Is Secure.",
        );
        let c3 = corner_cmd(
            &users[i],
            "wvous-br-corner",
            "2.3.2 Ensure Screen Saver Bottom-Right Corner Is Secure.",
        );
        cs.push(c0);
        cs.push(c1);
        cs.push(c2);
        cs.push(c3);
        proof {
            assert(cs@[4 * i as int] == c0);
            assert(cs@[4 * i as int + 1] == c1);
            assert(cs@[4 * i as int + 2] == c2);
            assert(cs@[4 * i as int + 3] == c3);
            assert(users[i as int]@ == users.deep_view()[i as int]);
        }
        i = i + 1;
    }
    cs
}

/// Holds when `c` reads the Safari preference `key` for `user`, under one
/// of the cross-site-tracking action names.
pub open spec fn spec_tracking_cmd(
    c: BashCommand,
    user: Seq<char>,
    name: Seq<char>,
    key: Seq<char>,
) -> bool {
    spec_cmd(
        c,
        name,
        "7.2.5 Ensure Prevent Cross-site Tracking in Safari is Enabled."@,
        "sudo"@,
        seq![
            "-u"@,
            user,
            "/usr/bin/defaults"@,
            "read"@,
            "/Users/"@ + user
                + "/Library/Containers/com.apple.Safari/Data/Library/Preferences/com.apple.Safari"@,
            key,
        ],
        false,
    )
}

/// Builds one cross-site-tracking probe action for one user.
fn tracking_cmd(user: &String, name: &str, key: &str) -> (c: BashCommand)
    ensures
        spec_tracking_cmd(c, user@, name@, key@),
{
    BashCommand::new(
        name,
        "7.2.5 Ensure Prevent Cross-site Tracking in Safari is Enabled.",
        "sudo",
        vec![
            arg("-u"),
            user.clone(),
            arg("/usr/bin/defaults"),
            arg("read"),
            home_path(
                user.as_str(),
                "/Library/Containers/com.apple.Safari/Data/Library/Preferences/com.apple.Safari",
            ),
            arg(key),
        ],
        false,
    )
}

/// 7.2.5 Ensure Prevent Cross-site Tracking in Safari is Enabled.  Three
/// actions per discovered user, one per storage-blocking preference, in
/// entity-list order; zero users yield zero actions.
pub fn c74_enable_cross_site_tracking_prevention(users: &Vec<String>) -> (cs: Vec<BashCommand>)
    ensures
        cs@.len() == 3 * users@.len(),
        forall|k: int|
            0 <= k < users@.len() ==> {
                &&& spec_tracking_cmd(
                    cs@[3 * k],
                    #[trigger] users.deep_view()[k],
                    "c74_block_storage_policy_for_everyuser"@,
                    "BlockStoragePolicy"@,
                )
                &&& spec_tracking_cmd(
                    cs@[3 * k + 1],
                    users.deep_view()[k],
                    "c74_storage_blocking_policy_for_everyuser"@,
                    "WebKitPreferences.storageBlockingPolicy"@,
                )
                &&& spec_tracking_cmd(
                    cs@[3 * k + 2],
                    users.deep_view()[k],
                    "c74_webkit_storage_blocking_policy_for_everyuser"@,
                    "WebKitStorageBlockingPolicy"@,
                )
            },
{
    let mut cs: Vec<BashCommand> = Vec::new();
    let mut i: usize = 0;
    while i < users.len()
        invariant
            i <= users.len(),
            cs@.len() == 3 * i,
            forall|k: int|
                0 <= k < i ==> {
                    &&& spec_tracking_cmd(
                        cs@[3 * k],
                        #[trigger] users.deep_view()[k],
                        "c74_block_storage_policy_for_everyuser"@,
                        "BlockStoragePolicy"@,
                    )
                    &&& spec_tracking_cmd(
                        cs@[3 * k + 1],
                        users.deep_view()[k],
                        "c74_storage_blocking_policy_for_everyuser"@,
                        "WebKitPreferences.storageBlockingPolicy"@,
                    )
                    &&& spec_tracking_cmd(
                        cs@[3 * k + 2],
                        users.deep_view()[k],
                        "c74_webkit_storage_blocking_policy_for_everyuser"@,
                        "WebKitStorageBlockingPolicy"@,
                    )
                },
        decreases users.len() - i,
    {
        let c0 = tracking_cmd(
            &users[i],
            "c74_block_storage_policy_for_everyuser",
            "BlockStoragePolicy",
        );
        let c1 = tracking_cmd(
            &users[i],
            "c74_storage_blocking_policy_for_everyuser",
            "WebKitPreferences.storageBlockingPolicy",
        );
        let c2 = tracking_cmd(
            &users[i],
            "c74_webkit_storage_blocking_policy_for_everyuser",
            "WebKitStorageBlockingPolicy",
        );
        cs.push(c0);
        cs.push(c1);
        cs.push(c2);
        proof {
            assert(cs@[3 * i as int] == c0);
            assert(cs@[3 * i as int + 1] == c1);
            assert(cs@[3 * i as int + 2] == c2);
            assert(users[i as int]@ == users.deep_view()[i as int]);
        }
        i = i + 1;
    }
    cs
}


/// Holds when `c` enables showing all filename extensions for `user`.
pub open spec fn spec_extensions_user_cmd(c: BashCommand, user: Seq<char>) -> bool {
    spec_cmd(
        c,
        "c71_enable_show_all_extensions_for_everyuser"@,
        "6.2 Ensure Show All Filename Extensions Setting is Enabled."@,
        "sudo"@,
        seq![
            "-u"@,
            user,
            "/usr/bin/defaults"@,
            "write"@,
            "/Users/"@ + user + "/Library/Preferences/.GlobalPreferences.plist"@,
            "AppleShowAllExtensions"@,
            "-bool"@,
            "true"@,
        ],
        false,
    )
}

/// 6.2 Ensure Show All Filename Extensions Setting is Enabled.  One
/// action for root, one per discovered user, and a final action that
/// restarts Finder so the setting takes effect.
pub fn c71_enable_show_all_filename_extensions(users: &Vec<String>) -> (cs: Vec<BashCommand>)
    ensures
        cs@.len() == users@.len() + 2,
        spec_cmd(
            cs@[0],
            "c71_enable_show_all_extensions_root"@,
            "6.2 Ensure Show All Filename Extensions Setting is Enabled for root."@,
            "sudo"@,
            seq![
                "defaults"@,
                "write"@,
                "/var/root/Library/Preferences/.GlobalPreferences.plist"@,
                "AppleShowAllExtensions"@,
                "-bool"@,
                "true"@,
            ],
            false,
        ),
        forall|k: int|
            0 <= k < users@.len() ==> spec_extensions_user_cmd(
                cs@[k + 1],
                #[trigger] users.deep_view()[k],
            ),
        spec_cmd(
            cs@[users@.len() as int + 1],
            "c71_kill_finder"@,
            "Restart Finder to apply Show All Extensions."@,
            "sudo"@,
            seq!["killall"@, "Finder"@],
            false,
        ),
{
    let mut cs: Vec<BashCommand> = Vec::new();
    let root_cmd = BashCommand::new(
        "c71_enable_show_all_extensions_root",
        "6.2 Ensure Show All Filename Extensions Setting is Enabled for root.",
        "sudo",
        vec![
            arg("defaults"),
            arg("write"),
            arg("/var/root/Library/Preferences/.GlobalPreferences.plist"),
            arg("AppleShowAllExtensions"),
            arg("-bool"),
            arg("true"),
        ],
        false,
    );
    cs.push(root_cmd);
    let mut i: usize = 0;
    while i < users.len()
        invariant
            i <= users.len(),
            cs@.len() == i + 1,
            spec_cmd(
                cs@[0],
                "c71_enable_show_all_extensions_root"@,
                "6.2 Ensure Show All Filename Extensions Setting is Enabled for root."@,
                "sudo"@,
                seq![
                    "defaults"@,
                    "write"@,
                    "/var/root/Library/Preferences/.GlobalPreferences.plist"@,
                    "AppleShowAllExtensions"@,
                    "-bool"@,
                    "true"@,
                ],
                false,
            ),
            forall|k: int|
                0 <= k < i ==> spec_extensions_user_cmd(
                    cs@[k + 1],
                    #[trigger] users.deep_view()[k],
                ),
        decreases users.len() - i,
    {
        let c = BashCommand::new(
            "c71_enable_show_all_extensions_for_everyuser",
            "6.2 Ensure Show All Filename Extensions Setting is Enabled.",
            "sudo",
            vec![
                arg("-u"),
                users[i].clone(),
                arg("/usr/bin/defaults"),
                arg("write"),
                home_path(users[i].as_str(), "/Library/Preferences/.GlobalPreferences.plist"),
                arg("AppleShowAllExtensions"),
                arg("-bool"),
                arg("true"),
            ],
            false,
        );
        proof {
            assert(spec_extensions_user_cmd(c, users.deep_view()[i as int]));
        }
        cs.push(c);
        i = i + 1;
    }
    let finder_cmd = BashCommand::new(
        "c71_kill_finder",
        "Restart Finder to apply Show All Extensions.",
        "sudo",
        vec![arg("killall"), arg("Finder")],
        false,
    );
    cs.push(finder_cmd);
    cs
}

/// Holds when `c` disables Bluetooth sharing for `user`.
pub open spec fn spec_bt_sharing_user_cmd(c: BashCommand, user: Seq<char>) -> bool {
    spec_cmd(
        c,
        "c78_disable_bluetooth_sharing_for_everyuser"@,
        "2.4.7 Ensure Bluetooth Sharing Is Disabled."@,
        "sudo"@,
        seq![
            "-u"@,
            user,
            "/usr/bin/defaults"@,
            "-currentHost"@,
            "write"@,
            "com.apple.Bluetooth"@,
            "PrefKeyServicesEnabled"@,
            "-bool"@,
            "false"@,
        ],
        false,
    )
}

/// 2.4.7 Ensure Bluetooth Sharing Is Disabled.  Two actions for root —
/// the plain and the by-host preference — then one per discovered user,
/// in entity-list order.
pub fn c78_disable_bluetooth_sharing(users: &Vec<String>) -> (cs: Vec<BashCommand>)
    ensures
        cs@.len() == users@.len() + 2,
        spec_cmd(
            cs@[0],
            "c78_disable_bluetooth_sharing_root"@,
            "2.4.7 Ensure Bluetooth Sharing Is Disabled for root."@,
            "sudo"@,
            seq![
                "defaults"@,
                "write"@,
                "/var/root/Library/Preferences/com.apple.Bluetooth"@,
                "PrefKeyServicesEnabled"@,
                "-bool"@,
                "false"@,
            ],
            false,
        ),
        spec_cmd(
            cs@[1],
            "c78_disable_bluetooth_sharing_root_byhost"@,
            "2.4.7 Ensure Bluetooth Sharing Is Disabled for root (ByHost)."@,
            "sudo"@,
            seq![
                "defaults"@,
                "write"@,
                "/var/root/Library/Preferences/ByHost/com.apple.Bluetooth"@,
                "PrefKeyServicesEnabled"@,
                "-bool"@,
                "false"@,
            ],
            false,
        ),
        forall|k: int|
            0 <= k < users@.len() ==> spec_bt_sharing_user_cmd(
                cs@[k + 2],
                #[trigger] users.deep_view()[k],
            ),
{
    let mut cs: Vec<BashCommand> = Vec::new();
    let root_cmd = BashCommand::new(
        "c78_disable_bluetooth_sharing_root",
        "2.4.7 Ensure Bluetooth Sharing Is Disabled for root.",
        "sudo",
        vec![
            arg("defaults"),
            arg("write"),
            arg("/var/root/Library/Preferences/com.apple.Bluetooth"),
            arg("PrefKeyServicesEnabled"),
            arg("-bool"),
            arg("false"),
        ],
        false,
    );
    cs.push(root_cmd);
    let byhost_cmd = BashCommand::new(
        "c78_disable_bluetooth_sharing_root_byhost",
        "2.4.7 Ensure Bluetooth Sharing Is Disabled for root (ByHost).",
        "sudo",
        vec![
            arg("defaults"),
            arg("write"),
            arg("/var/root/Library/Preferences/ByHost/com.apple.Bluetooth"),
            arg("PrefKeyServicesEnabled"),
            arg("-bool"),
            arg("false"),
        ],
        false,
    );
    cs.push(byhost_cmd);
    let mut i: usize = 0;
    while i < users.len()
        invariant
            i <= users.len(),
            cs@.len() == i + 2,
            spec_cmd(
                cs@[0],
                "c78_disable_bluetooth_sharing_root"@,
                "2.4.7 Ensure Bluetooth Sharing Is Disabled for root."@,
                "sudo"@,
                seq![
                    "defaults"@,
                    "write"@,
                    "/var/root/Library/Preferences/com.apple.Bluetooth"@,
                    "PrefKeyServicesEnabled"@,
                    "-bool"@,
                    "false"@,
                ],
                false,
            ),
            spec_cmd(
                cs@[1],
                "c78_disable_bluetooth_sharing_root_byhost"@,
                "2.4.7 Ensure Bluetooth Sharing Is Disabled for root (ByHost)."@,
                "sudo"@,
                seq![
                    "defaults"@,
                    "write"@,
                    "/var/root/Library/Preferences/ByHost/com.apple.Bluetooth"@,
                    "PrefKeyServicesEnabled"@,
                    "-bool"@,
                    "false"@,
                ],
                false,
            ),
            forall|k: int|
                0 <= k < i ==> spec_bt_sharing_user_cmd(
                    cs@[k + 2],
                    #[trigger] users.deep_view()[k],
                ),
        decreases users.len() - i,
    {
        let c = BashCommand::new(
            "c78_disable_bluetooth_sharing_for_everyuser",
            "2.4.7 Ensure Bluetooth Sharing Is Disabled.",
            "sudo",
            vec![
                arg("-u"),
                users[i].clone(),
                arg("/usr/bin/defaults"),
                arg("-currentHost"),
                arg("write"),
                arg("com.apple.Bluetooth"),
                arg("PrefKeyServicesEnabled"),
                arg("-bool"),
                arg("false"),
            ],
            false,
        );
        proof {
            assert(spec_bt_sharing_user_cmd(c, users.deep_view()[i as int]));
        }
        cs.push(c);
        i = i + 1;
    }
    cs
}


/// 2.8.1 Ensure the OS is Not Active When Resuming from Sleep and Display
/// Sleep, Configured Based on CPU Type.  The probed CPU brand string
/// selects the branch: Apple silicon gets three power-management
/// settings, Intel gets five, and an unrecognized brand gets a defined
/// explanatory no-op — never an error.
pub fn c34_configure_sleep_settings_based_on_cpu(cpu_model: &str) -> (cs: Vec<BashCommand>)
    ensures
        ({
            let b = spec_cpu_branch(cpu_model@);
            match b {
                CpuBranch::Apple => {
                    &&& cs@.len() == 3
                    &&& spec_sleep_setting_cmd(cs@[0], "sleep"@, "10"@)
                    &&& spec_sleep_setting_cmd(cs@[1], "displaysleep"@, "15"@)
                    &&& spec_sleep_setting_cmd(cs@[2], "hibernatemode"@, "25"@)
                },
                CpuBranch::Intel => {
                    &&& cs@.len() == 5
                    &&& spec_sleep_setting_cmd(cs@[0], "standbydelaylow"@, "900"@)
                    &&& spec_sleep_setting_cmd(cs@[1], "standbydelayhigh"@, "900"@)
                    &&& spec_sleep_setting_cmd(cs@[2], "highstandbythreshold"@, "600"@)
                    &&& spec_sleep_setting_cmd(cs@[3], "destroyfvkeyonstandby"@, "1"@)
                    &&& spec_sleep_setting_cmd(cs@[4], "hibernatemode"@, "25"@)
                },
                CpuBranch::Unknown => {
                    &&& cs@.len() == 1
                    &&& spec_echo_noop(
                        cs@[0],
                        "c34_configure_sleep_settings_based_on_cpu"@,
                        "2.8.1 Ensure the OS is Not Active When Resuming from Sleep and Display Sleep, Configured Based on CPU Type."@,
                        "CPU Model not identified"@,
                    )
                },
            }
        }),
{
    let mut cs: Vec<BashCommand> = Vec::new();
    match cpu_branch(cpu_model) {
        CpuBranch::Apple => {
            cs.push(sleep_setting_cmd("sleep", "10"));
            cs.push(sleep_setting_cmd("displaysleep", "15"));
            cs.push(sleep_setting_cmd("hibernatemode", "25"));
        },
        CpuBranch::Intel => {
            cs.push(sleep_setting_cmd("standbydelaylow", "900"));
            cs.push(sleep_setting_cmd("standbydelayhigh", "900"));
            cs.push(sleep_setting_cmd("highstandbythreshold", "600"));
            cs.push(sleep_setting_cmd("destroyfvkeyonstandby", "1"));
            cs.push(sleep_setting_cmd("hibernatemode", "25"));
        },
        CpuBranch::Unknown => {
            cs.push(BashCommand::new(
                "c34_configure_sleep_settings_based_on_cpu",
                "2.8.1 Ensure the OS is Not Active When Resuming from Sleep and Display Sleep, Configured Based on CPU Type.",
                "echo",
                vec![arg("CPU Model not identified")],
                false,
            ));
        },
    }
    cs
}

/// Holds when `c` applies the power-management setting `key` = `value`
/// system-wide, as one step of the sleep-configuration rule.
pub open spec fn spec_sleep_setting_cmd(c: BashCommand, key: Seq<char>, value: Seq<char>) -> bool {
    spec_cmd(
        c,
        "c34_configure_sleep_settings_based_on_cpu"@,
        "2.8.1 Ensure the OS is Not Active When Resuming from Sleep and Display Sleep, Configured Based on CPU Type."@,
        "sudo"@,
        seq!["/usr/bin/pmset"@, "-a"@, key, value],
        false,
    )
}

/// Builds one power-management setting action.
fn sleep_setting_cmd(key: &str, value: &str) -> (c: BashCommand)
    ensures
        spec_sleep_setting_cmd(c, key@, value@),
{
    BashCommand::new(
        "c34_configure_sleep_settings_based_on_cpu",
        "2.8.1 Ensure the OS is Not Active When Resuming from Sleep and Display Sleep, Configured Based on CPU Type.",
        "sudo",
        vec![arg("/usr/bin/pmset"), arg("-a"), arg(key), arg(value)],
        false,
    )
}

/// 2.8.3 Ensure Power Nap is Disabled for Intel Macs.  The probed CPU
/// brand string selects the branch: Intel gets the corrective
/// power-management action, while Apple silicon and any unrecognized
/// brand get the explanatory no-op — never an error.
pub fn c36_disable_powernap_based_on_cpu(cpu_model: &str) -> (c: BashCommand)
    ensures
        spec_cpu_branch(cpu_model@) is Intel ==> spec_cmd(
            c,
            "c36_disable_powernap_for_intel"@,
            "2.8.3 Ensure Power Nap is Disabled for Intel Macs."@,
            "sudo"@,
            seq!["/usr/bin/pmset"@, "-a"@, "powernap"@, "0"@],
            false,
        ),
        !(spec_cpu_branch(cpu_model@) is Intel) ==> spec_echo_noop(
            c,
            "c36_disable_powernap_for_intel"@,
            "2.8.3 Ensure Power Nap is Disabled for Intel Macs."@,
            "No action required for Apple CPUs."@,
        ),
{
    match cpu_branch(cpu_model) {
        CpuBranch::Intel => BashCommand::new(
            "c36_disable_powernap_for_intel",
            "2.8.3 Ensure Power Nap is Disabled for Intel Macs.",
            "sudo",
            vec![arg("/usr/bin/pmset"), arg("-a"), arg("powernap"), arg("0")],
            false,
        ),
        _ => BashCommand::new(
            "c36_disable_powernap_for_intel",
            "2.8.3 Ensure Power Nap is Disabled for Intel Macs.",
            "echo",
            vec![arg("No action required for Apple CPUs.")],
            false,
        ),
    }
}

/// Restart Wazuh Agent if the control file is found.  The action depends
/// on a probed fact — whether the agent's control file exists — and an
/// absent file selects the explanatory no-op.
pub fn c80_restart_wazuh_agent(control_file_exists: bool) -> (c: BashCommand)
    ensures
        control_file_exists ==> spec_cmd(
            c,
            "c80_restart_wazuh_agent"@,
            "Restart Wazuh Agent if the control file is found."@,
            "sudo"@,
            seq!["/Library/Ossec/bin/wazuh-control"@, "restart"@],
            false,
        ),
        !control_file_exists ==> spec_echo_noop(
            c,
            "c80_wazuh_agent_not_found"@,
            "Notify that Wazuh Agent control file was not found."@,
            "Wazuh Agent control file not found."@,
        ),
{
    if control_file_exists {
        BashCommand::new(
            "c80_restart_wazuh_agent",
            "Restart Wazuh Agent if the control file is found.",
            "sudo",
            vec![arg("/Library/Ossec/bin/wazuh-control"), arg("restart")],
            false,
        )
    } else {
        BashCommand::new(
            "c80_wazuh_agent_not_found",
            "Notify that Wazuh Agent control file was not found.",
            "echo",
            vec![arg("Wazuh Agent control file not found.")],
            false,
        )
    }
}


/// 3.2 Ensure Security Auditing Flags for User-Attributable Events Are
/// Configured.  An idempotent text patch over the audit configuration:
/// `content` carries the file's text, or `None` when it could not be
/// read, which is fatal to the rule.  The first line starting with
/// `flags:` is authoritative; no such line yields an explanatory no-op, a
/// line already equal to the desired setting yields an
/// "already compliant" no-op, and anything else yields the in-place
/// substitution, run as a subprocess like every other action.
pub fn c38_configure_auditing_flags(content: Option<String>) -> (r: Result<
    BashCommand,
    EngineError,
>)
    ensures
        content is None ==> (r matches Err(e) && e is ProbeError),
        content matches Some(text) ==> (r matches Ok(c) && {
            let m = spec_first_match_by(
                spec_lines(text@),
                |l: Seq<char>| spec_starts_with(l, "flags:"@),
            );
            match m {
                Option::None => spec_echo_noop(
                    c,
                    "c38_configure_auditing_flags"@,
                    "3.2 Ensure Security Auditing Flags for User-Attributable Events Are Configured."@,
                    "Target line starting with 'flags:' not found in the file."@,
                ),
                Option::Some(l) => if l == "flags:-fm,ad,-ex,aa,-fr,lo,-fw"@ {
                    spec_echo_noop(
                        c,
                        "c38_configure_auditing_flags"@,
                        "3.2 Ensure Security Auditing Flags for User-Attributable Events Are Configured."@,
                        "The auditing flags are already configured correctly."@,
                    )
                } else {
                    spec_cmd(
                        c,
                        "c38_configure_auditing_flags"@,
                        "3.2 Ensure Security Auditing Flags for User-Attributable Events Are Configured."@,
                        "sudo"@,
                        seq![
                            "sed"@,
                            "-i"@,
                            "''"@,
                            "s/^flags:.*$/flags:-fm,ad,-ex,aa,-fr,lo,-fw/"@,
                            "/etc/security/audit_control"@,
                        ],
                        false,
                    )
                },
            }
        }),
{
    match content {
        None => Err(EngineError::ProbeError),
        Some(text) => {
            let lines = split_lines(text.as_str());
            let pred = LinePredicate::StartsWith(arg("flags:"));
            let found = first_matching_line(&lines, &pred);
            proof {
                assert((|l: Seq<char>| pred.spec_holds(l)) =~= (
                |l: Seq<char>| spec_starts_with(l, "flags:"@)));
            }
            let plan = exact_patch_plan(found, "flags:-fm,ad,-ex,aa,-fr,lo,-fw");
            let c = match plan {
                PatchPlan::TargetMissing => BashCommand::new(
                    "c38_configure_auditing_flags",
                    "3.2 Ensure Security Auditing Flags for User-Attributable Events Are Configured.",
                    "echo",
                    vec![arg("Target line starting with 'flags:' not found in the file.")],
                    false,
                ),
                PatchPlan::AlreadyCompliant => BashCommand::new(
                    "c38_configure_auditing_flags",
                    "3.2 Ensure Security Auditing Flags for User-Attributable Events Are Configured.",
                    "echo",
                    vec![arg("The auditing flags are already configured correctly.")],
                    false,
                ),
                PatchPlan::Rewrite(_) => BashCommand::new(
                    "c38_configure_auditing_flags",
                    "3.2 Ensure Security Auditing Flags for User-Attributable Events Are Configured.",
                    "sudo",
                    vec![
                        arg("sed"),
                        arg("-i"),
                        arg("''"),
                        arg("s/^flags:.*$/flags:-fm,ad,-ex,aa,-fr,lo,-fw/"),
                        arg("/etc/security/audit_control"),
                    ],
                    false,
                ),
            };
            Ok(c)
        },
    }
}

/// 3.2 Ensure Security Auditing Retention is Enabled.  An idempotent
/// text patch over the audit configuration: the first line starting with
/// `expire-after:` is authoritative.  No such line yields an explanatory
/// no-op — the rule's target not being found is informational, not
/// actionable; a line already equal to the desired setting yields the
/// "already compliant" no-op; a differing line yields the in-place
/// substitution.
pub fn c40_configure_auditing_retention(content: Option<String>) -> (r: Result<
    BashCommand,
    EngineError,
>)
    ensures
        content is None ==> (r matches Err(e) && e is ProbeError),
        content matches Some(text) ==> (r matches Ok(c) && {
            let m = spec_first_match_by(
                spec_lines(text@),
                |l: Seq<char>| spec_starts_with(l, "expire-after:"@),
            );
            match m {
                Option::None => spec_echo_noop(
                    c,
                    "c40_configure_auditing_retention"@,
                    "3.2 Ensure Security Auditing Retention is Enabled."@,
                    "Target line starting with 'expire-after:' not found in the file."@,
                ),
                Option::Some(l) => if l == "expire-after:60d"@ {
                    spec_echo_noop(
                        c,
                        "c40_configure_auditing_retention"@,
                        "3.2 Ensure Security Auditing Retention is Enabled."@,
                        "Auditing retention already configured."@,
                    )
                } else {
                    spec_cmd(
                        c,
                        "c40_configure_auditing_retention"@,
                        "3.2 Ensure Security Auditing Retention is Enabled."@,
                        "sudo"@,
                        seq![
                            "sed"@,
                            "-i"@,
                            "''"@,
                            "s|^expire-after:.*$|expire-after:60d|"@,
                            "/etc/security/audit_control"@,
                        ],
                        false,
                    )
                },
            }
        }),
{
    match content {
        None => Err(EngineError::ProbeError),
        Some(text) => {
            let lines = split_lines(text.as_str());
            let pred = LinePredicate::StartsWith(arg("expire-after:"));
            let found = first_matching_line(&lines, &pred);
            proof {
                assert((|l: Seq<char>| pred.spec_holds(l)) =~= (
                |l: Seq<char>| spec_starts_with(l, "expire-after:"@)));
            }
            let plan = exact_patch_plan(found, "expire-after:60d");
            let c = match plan {
                PatchPlan::TargetMissing => BashCommand::new(
                    "c40_configure_auditing_retention",
                    "3.2 Ensure Security Auditing Retention is Enabled.",
                    "echo",
                    vec![arg("Target line starting with 'expire-after:' not found in the file.")],
                    false,
                ),
                PatchPlan::AlreadyCompliant => BashCommand::new(
                    "c40_configure_auditing_retention",
                    "3.2 Ensure Security Auditing Retention is Enabled.",
                    "echo",
                    vec![arg("Auditing retention already configured.")],
                    false,
                ),
                PatchPlan::Rewrite(_) => BashCommand::new(
                    "c40_configure_auditing_retention",
                    "3.2 Ensure Security Auditing Retention is Enabled.",
                    "sudo",
                    vec![
                        arg("sed"),
                        arg("-i"),
                        arg("''"),
                        arg("s|^expire-after:.*$|expire-after:60d|"),
                        arg("/etc/security/audit_control"),
                    ],
                    false,
                ),
            };
            Ok(c)
        },
    }
}

/// The tokens the install-log retention line must carry.
pub open spec fn spec_retention_tokens() -> Seq<Seq<char>> {
    seq!["rotate=seq"@, "compress"@, "file_max=50M"@, "size_only"@, "ttl=365"@]
}

/// 3.3 Ensure install.log is Retained for 365 or More Days and No
/// Maximum Size.  A flag-list idempotent patch: the first line containing
/// the install-log target is authoritative, each required token is
/// checked by substring containment, and only the missing tokens are
/// appended — existing tokens and their order are preserved.  No target
/// line yields an explanatory no-op; a line already holding every token
/// yields an "already compliant" no-op.
pub fn c39_configure_install_log_retention(content: Option<String>) -> (r: Result<
    BashCommand,
    EngineError,
>)
    ensures
        content is None ==> (r matches Err(e) && e is ProbeError),
        content matches Some(text) ==> (r matches Ok(c) && {
            let m = spec_first_match_by(
                spec_lines(text@),
                |l: Seq<char>| spec_contains(l, "* file /var/log/install.log"@),
            );
            match m {
                Option::None => spec_echo_noop(
                    c,
                    "c39_configure_install_log_retention"@,
                    "3.3 Ensure install.log is Retained for 365 or More Days and No Maximum Size."@,
                    "Target line not found in the file."@,
                ),
                Option::Some(l) => if spec_all_contained(l, spec_retention_tokens()) {
                    spec_echo_noop(
                        c,
                        "c39_configure_install_log_retention"@,
                        "3.3 Ensure install.log is Retained for 365 or More Days and No Maximum Size."@,
                        "All required flags are already present."@,
                    )
                } else {
                    spec_cmd(
                        c,
                        "c39_configure_install_log_retention"@,
                        "3.3 Ensure install.log is Retained for 365 or More Days and No Maximum Size."@,
                        "sudo"@,
                        seq![
                            "sed"@,
                            "-i"@,
                            "''"@,
                            "'s|^.*file /var/log/install.log.*$|"@ + spec_patched_line(
                                l,
                                spec_retention_tokens(),
                            ) + "|'"@,
                            "/etc/asl/com.apple.install"@,
                        ],
                        false,
                    )
                },
            }
        }),
{
    match content {
        None => Err(EngineError::ProbeError),
        Some(text) => {
            let lines = split_lines(text.as_str());
            let pred = LinePredicate::Contains(arg("* file /var/log/install.log"));
            let found = first_matching_line(&lines, &pred);
            proof {
                assert((|l: Seq<char>| pred.spec_holds(l)) =~= (
                |l: Seq<char>| spec_contains(l, "* file /var/log/install.log"@)));
            }
            let required = vec![
                arg("rotate=seq"),
                arg("compress"),
                arg("file_max=50M"),
                arg("size_only"),
                arg("ttl=365"),
            ];
            proof {
                assert(required.deep_view() =~= spec_retention_tokens());
            }
            let plan = flag_patch_plan(found, &required);
            let c = match plan {
                PatchPlan::TargetMissing => BashCommand::new(
                    "c39_configure_install_log_retention",
                    "3.3 Ensure install.log is Retained for 365 or More Days and No Maximum Size.",
                    "echo",
                    vec![arg("Target line not found in the file.")],
                    false,
                ),
                PatchPlan::AlreadyCompliant => BashCommand::new(
                    "c39_configure_install_log_retention",
                    "3.3 Ensure install.log is Retained for 365 or More Days and No Maximum Size.",
                    "echo",
                    vec![arg("All required flags are already present.")],
                    false,
                ),
                PatchPlan::Rewrite(updated) => {
                    let mut pattern = String::from_str("'s|^.*file /var/log/install.log.*$|");
                    pattern.append(updated.as_str());
                    pattern.append("|'");
                    BashCommand::new(
                        "c39_configure_install_log_retention",
                        "3.3 Ensure install.log is Retained for 365 or More Days and No Maximum Size.",
                        "sudo",
                        vec![
                            arg("sed"),
                            arg("-i"),
                            arg("''"),
                            pattern,
                            arg("/etc/asl/com.apple.install"),
                        ],
                        false,
                    )
                },
            };
            Ok(c)
        },
    }
}

} // verus!
