use vpnht::command::{CommandOutput, Command};
use vpnht::firewall::{sanitize_interface_name, FIREWALL_RULE_ALLOW_WG, FIREWALL_RULE_BLOCK};
use vpnht::killswitch::{Action, KillSwitch, Platform};

fn ok_output(stdout: &str) -> Result<CommandOutput, String> {
    Ok(CommandOutput { success: true, stdout: stdout.as_bytes().to_vec(), stderr: Vec::new() })
}

fn args_of(cmd: &Command) -> Vec<&str> {
    cmd.args.iter().map(|a| a.as_str()).collect()
}

fn expect_run(action: Action) -> Command {
    match action {
        Action::Run(cmd) => cmd,
        Action::Finished(r) => panic!("expected a command, got {:?}", r),
    }
}

fn expect_finished(action: Action) -> Result<(), String> {
    match action {
        Action::Finished(r) => r,
        Action::Run(cmd) => panic!("expected the end, got {} {:?}", cmd.program, cmd.args),
    }
}

#[test]
fn test_sanitize_interface_name_valid() {
    assert_eq!(sanitize_interface_name("wg0"), Ok("wg0".to_string()));
    assert_eq!(sanitize_interface_name("WireGuard-1"), Ok("WireGuard-1".to_string()));
    assert_eq!(sanitize_interface_name("vpn_test"), Ok("vpn_test".to_string()));
}

#[test]
fn test_sanitize_interface_name_too_long() {
    let long_name = "this_interface_name_is_way_too_long";
    assert!(sanitize_interface_name(long_name).is_err());
}

#[test]
fn test_sanitize_interface_name_invalid_chars() {
    assert!(sanitize_interface_name("wg 0").is_err()); // space
    assert!(sanitize_interface_name("wg@0").is_err()); // @
    assert!(sanitize_interface_name("wg.0").is_err()); // .
}

#[test]
fn test_killswitch_new() {
    let ks = KillSwitch::new();
    assert!(!ks.is_enabled());
}

#[test]
fn test_firewall_rule_names() {
    assert_eq!(FIREWALL_RULE_BLOCK, "VPNht Kill Switch Block");
    assert_eq!(FIREWALL_RULE_ALLOW_WG, "VPNht Kill Switch Allow WireGuard");
}

#[test]
fn sanitize_counts_bytes_and_names_each_error() {
    assert_eq!(sanitize_interface_name("abcdefghijklmno"), Ok("abcdefghijklmno".to_string()));
    assert_eq!(sanitize_interface_name("abcdefghijklmnop"), Err("Interface name too long".to_string()));
    // eight characters, sixteen bytes
    assert_eq!(sanitize_interface_name("éééééééé"), Err("Interface name too long".to_string()));
    assert_eq!(sanitize_interface_name("wgé"), Ok("wgé".to_string()));
    assert_eq!(sanitize_interface_name("wg.0"), Err("Invalid interface name".to_string()));
    assert_eq!(sanitize_interface_name(""), Ok(String::new()));
}

#[test]
fn new_switch_keeps_nothing() {
    let ks = KillSwitch::new();
    assert!(ks.firewall_rules().is_empty());
    assert_eq!(ks.wireguard_interface(), None);
}

#[test]
fn linux_enable_then_disable_round_trip() {
    let mut ks = KillSwitch::new();
    let (mut job, action) = ks.enable(Platform::Linux);
    let cmd = expect_run(action);
    assert_eq!(cmd.program, "iptables");
    assert!(cmd.privileged);
    assert_eq!(args_of(&cmd), vec!["-L", "-n", "-v"]);
    assert!(!ks.is_enabled());
    let listing = "Chain OUTPUT (policy ACCEPT)\r\n-A OUTPUT -j DROP  /* vpnht-killswitch */\nother rule\n";
    let end = expect_finished(ks.resume(&mut job, ok_output(listing)));
    assert_eq!(end, Ok(()));
    assert!(ks.is_enabled());
    assert!(!job.is_pending());
    assert_eq!(
        ks.firewall_rules(),
        &vec![
            "Chain OUTPUT (policy ACCEPT)".to_string(),
            "-A OUTPUT -j DROP  /* vpnht-killswitch */".to_string(),
            "other rule".to_string(),
        ]
    );

    let (mut job, action) = ks.disable(Platform::Linux);
    let cmd = expect_run(action);
    assert_eq!(cmd.program, "iptables");
    assert!(cmd.privileged);
    assert_eq!(args_of(&cmd), vec!["-A", "OUTPUT", "-j", "DROP", "/*", "vpnht-killswitch", "*/"]);
    let end = expect_finished(ks.resume(&mut job, ok_output("")));
    assert_eq!(end, Ok(()));
    assert!(!ks.is_enabled());
    assert!(ks.firewall_rules().is_empty());
}

#[test]
fn enable_twice_runs_nothing_the_second_time() {
    let mut ks = KillSwitch::new();
    let (mut job, action) = ks.enable(Platform::Linux);
    expect_run(action);
    assert_eq!(expect_finished(ks.resume(&mut job, ok_output("x\n"))), Ok(()));
    let (job, action) = ks.enable(Platform::Linux);
    assert_eq!(expect_finished(action), Ok(()));
    assert!(!job.is_pending());
    assert!(ks.is_enabled());
    assert_eq!(ks.firewall_rules(), &vec!["x".to_string()]);
}

#[test]
fn disabled_switch_ignores_disable_and_disconnect() {
    let mut ks = KillSwitch::new();
    let (_, action) = ks.disable(Platform::Linux);
    assert_eq!(expect_finished(action), Ok(()));
    let (_, action) = ks.on_vpn_disconnect(Platform::Linux);
    assert_eq!(expect_finished(action), Ok(()));
    assert!(!ks.is_enabled());
}

#[test]
fn failed_save_leaves_switch_off() {
    let mut ks = KillSwitch::new();
    let (mut job, action) = ks.enable(Platform::Linux);
    expect_run(action);
    let end = expect_finished(ks.resume(&mut job, Err("Failed to run privileged command: denied".to_string())));
    assert_eq!(end, Err("Failed to run privileged command: denied".to_string()));
    assert!(!ks.is_enabled());
    assert!(ks.firewall_rules().is_empty());
}

#[test]
fn failed_restore_keeps_switch_on_and_rules_kept() {
    let mut ks = KillSwitch::new();
    let (mut job, action) = ks.enable(Platform::Linux);
    expect_run(action);
    ks.resume(&mut job, ok_output("a vpnht-killswitch\nb vpnht-killswitch\n"));
    let (mut job, action) = ks.disable(Platform::Linux);
    assert_eq!(args_of(&expect_run(action)), vec!["a", "vpnht-killswitch"]);
    let cmd = expect_run(ks.resume(&mut job, ok_output("")));
    assert_eq!(args_of(&cmd), vec!["b", "vpnht-killswitch"]);
    let end = expect_finished(ks.resume(&mut job, Err("boom".to_string())));
    assert_eq!(end, Err("boom".to_string()));
    assert!(ks.is_enabled());
    assert_eq!(ks.firewall_rules().len(), 2);
}

#[test]
fn linux_disconnect_blocks_unmarked_traffic() {
    let mut ks = KillSwitch::new();
    let (mut job, action) = ks.enable(Platform::Linux);
    expect_run(action);
    ks.resume(&mut job, ok_output(""));
    let (mut job, action) = ks.on_vpn_disconnect(Platform::Linux);
    let out = expect_run(action);
    assert_eq!(
        args_of(&out),
        vec![
            "-A", "OUTPUT", "-m", "mark", "!", "--mark", "0xca6c", "-m", "addrtype", "!", "--dst-type",
            "LOCAL", "-j", "DROP", "-m", "comment", "--comment", "vpnht-killswitch"
        ]
    );
    let inbound = expect_run(ks.resume(&mut job, ok_output("")));
    assert_eq!(
        args_of(&inbound),
        vec!["-A", "INPUT", "-m", "mark", "!", "--mark", "0xca6c", "-j", "DROP", "-m", "comment", "--comment", "vpnht-killswitch"]
    );
    assert_eq!(expect_finished(ks.resume(&mut job, ok_output(""))), Ok(()));
    assert!(ks.is_enabled());
}

#[test]
fn disconnect_failure_is_reported() {
    let mut ks = KillSwitch::new();
    let (mut job, action) = ks.enable(Platform::Linux);
    expect_run(action);
    ks.resume(&mut job, ok_output(""));
    let (mut job, action) = ks.on_vpn_disconnect(Platform::Linux);
    expect_run(action);
    assert_eq!(expect_finished(ks.resume(&mut job, Err("no iptables".to_string()))), Err("no iptables".to_string()));
    assert!(ks.is_enabled());
}

#[test]
fn windows_enable_runs_every_rule_in_order() {
    let mut ks = KillSwitch::new();
    let (mut job, action) = ks.enable(Platform::Windows);
    let check = expect_run(action);
    assert_eq!(check.program, "powershell");
    assert_eq!(check.args[..3], ["-NoProfile", "-NonInteractive", "-Command"]);
    assert!(check.args[3].contains("IsInRole"));

    // the elevation answer only informs
    let remove_block = expect_run(ks.resume(&mut job, Err("no powershell".to_string())));
    assert_eq!(args_of(&remove_block), vec!["advfirewall", "firewall", "delete", "rule", "name=VPNht Kill Switch Block"]);
    let remove_allow = expect_run(ks.resume(&mut job, Err("ignored".to_string())));
    assert_eq!(
        remove_allow.args[3],
        "Remove-NetFirewallRule -DisplayName 'VPNht Kill Switch Allow WireGuard' -ErrorAction SilentlyContinue"
    );
    let find = expect_run(ks.resume(&mut job, ok_output("")));
    assert!(find.args[3].contains("Get-NetAdapter"));
    let block = expect_run(ks.resume(&mut job, ok_output("  wg0 \r\n")));
    assert_eq!(block.program, "netsh");
    assert!(!block.privileged);
    assert_eq!(
        args_of(&block),
        vec![
            "advfirewall", "firewall", "add", "rule", "name=VPNht Kill Switch Block", "dir=out",
            "action=block", "remoteip=any", "enable=yes", "profile=any"
        ]
    );
    assert_eq!(ks.wireguard_interface(), None);
    let allow = expect_run(ks.resume(&mut job, ok_output("")));
    assert_eq!(
        allow.args[3],
        "New-NetFirewallRule -DisplayName 'VPNht Kill Switch Allow WireGuard' -Direction Outbound -Action Allow -InterfaceAlias 'wg0' -Enabled True -Profile Any"
    );
    assert_eq!(ks.wireguard_interface(), Some("wg0".to_string()));
    let unsuccessful = CommandOutput { success: false, stdout: Vec::new(), stderr: Vec::new() };
    let dhcp = expect_run(ks.resume(&mut job, Ok(unsuccessful)));
    assert_eq!(
        args_of(&dhcp),
        vec![
            "advfirewall", "firewall", "add", "rule", "name=VPNht Kill Switch DHCP Out", "dir=out",
            "action=allow", "protocol=udp", "localport=68", "remoteport=67", "enable=yes"
        ]
    );
    let dns = expect_run(ks.resume(&mut job, ok_output("")));
    assert_eq!(
        args_of(&dns),
        vec![
            "advfirewall", "firewall", "add", "rule", "name=VPNht Kill Switch DNS Out", "dir=out",
            "action=allow", "protocol=any", "remoteport=53", "enable=yes"
        ]
    );
    assert!(!ks.is_enabled());
    assert_eq!(expect_finished(ks.resume(&mut job, ok_output(""))), Ok(()));
    assert!(ks.is_enabled());

    let shutdown = ks.shutdown_commands(Platform::Windows);
    assert_eq!(shutdown.len(), 2);
    assert_eq!(shutdown[0].program, "netsh");
    assert_eq!(shutdown[1].program, "powershell");
    assert!(ks.shutdown_commands(Platform::Linux).is_empty());

    let (mut job, action) = ks.disable(Platform::Windows);
    assert_eq!(args_of(&expect_run(action))[2], "delete");
    expect_run(ks.resume(&mut job, Err("ignored".to_string())));
    assert_eq!(expect_finished(ks.resume(&mut job, Err("ignored".to_string()))), Ok(()));
    assert!(!ks.is_enabled());
    assert!(ks.shutdown_commands(Platform::Windows).is_empty());
}

#[test]
fn windows_without_adapter_skips_allow_rule() {
    let mut ks = KillSwitch::new();
    let (mut job, action) = ks.enable(Platform::Windows);
    expect_run(action);
    expect_run(ks.resume(&mut job, ok_output("True")));
    expect_run(ks.resume(&mut job, ok_output("")));
    expect_run(ks.resume(&mut job, ok_output("")));
    expect_run(ks.resume(&mut job, ok_output(" \n ")));
    let next = expect_run(ks.resume(&mut job, ok_output("")));
    assert_eq!(next.args[4], "name=VPNht Kill Switch DHCP Out");
    assert_eq!(ks.wireguard_interface(), None);
}

#[test]
fn windows_block_rule_failure_ends_enable() {
    let mut ks = KillSwitch::new();
    let (mut job, action) = ks.enable(Platform::Windows);
    expect_run(action);
    for _ in 0..3 {
        expect_run(ks.resume(&mut job, ok_output("")));
    }
    expect_run(ks.resume(&mut job, ok_output("wg0")));
    let refused = CommandOutput { success: false, stdout: Vec::new(), stderr: b"access denied".to_vec() };
    let end = expect_finished(ks.resume(&mut job, Ok(refused)));
    assert_eq!(end, Err("Failed to create block rule: access denied".to_string()));
    assert!(!ks.is_enabled());
    assert_eq!(ks.wireguard_interface(), None);
}

#[test]
fn windows_find_interface_failure_ends_enable() {
    let mut ks = KillSwitch::new();
    let (mut job, action) = ks.enable(Platform::Windows);
    expect_run(action);
    for _ in 0..3 {
        expect_run(ks.resume(&mut job, ok_output("")));
    }
    let end = expect_finished(ks.resume(&mut job, Err("Failed to run PowerShell: missing".to_string())));
    assert_eq!(end, Err("Failed to run PowerShell: missing".to_string()));
    assert!(!ks.is_enabled());
}

#[test]
fn other_platforms_only_keep_state() {
    let mut ks = KillSwitch::new();
    let (job, action) = ks.enable(Platform::Other);
    assert_eq!(expect_finished(action), Ok(()));
    assert!(!job.is_pending());
    assert!(ks.is_enabled());
    let (_, action) = ks.on_vpn_disconnect(Platform::Other);
    assert_eq!(expect_finished(action), Ok(()));
    let (_, action) = ks.disable(Platform::Other);
    assert_eq!(expect_finished(action), Ok(()));
    assert!(!ks.is_enabled());
}
