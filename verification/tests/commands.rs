use vpnht::command::{launch_error, needs_elevation, osascript, pkexec, powershell, shell_escape, Command, CommandOutput};
use vpnht::firewall::{block_rule_failure_message, interface_from_output, is_elevated};

fn cmd(program: &str, args: &[&str]) -> Command {
    Command { program: program.to_string(), args: args.iter().map(|a| a.to_string()).collect(), privileged: true }
}

#[test]
fn shell_escape_quotes_and_escapes_single_quotes() {
    assert_eq!(shell_escape("iptables"), "'iptables'");
    assert_eq!(shell_escape("it's"), "'it'\\''s'");
    assert_eq!(shell_escape(""), "''");
    assert_eq!(shell_escape("a b; rm -rf /"), "'a b; rm -rf /'");
}

#[test]
fn osascript_runs_quoted_command_as_administrator() {
    let c = osascript(&cmd("pfctl", &["-e", "it's"]));
    assert_eq!(c.program, "osascript");
    assert!(!c.privileged);
    assert_eq!(c.args, vec![
        "-e".to_string(),
        "do shell script 'pfctl' '-e' 'it'\\''s' with administrator privileges".to_string(),
    ]);
}

#[test]
fn pkexec_prefixes_the_program() {
    let c = pkexec(&cmd("iptables", &["-L", "-n"]));
    assert_eq!(c.program, "pkexec");
    assert!(!c.privileged);
    assert_eq!(c.args, vec!["iptables".to_string(), "-L".to_string(), "-n".to_string()]);
}

#[test]
fn elevation_is_needed_after_failure_only() {
    let ok = Ok(CommandOutput { success: true, stdout: Vec::new(), stderr: Vec::new() });
    let bad = Ok(CommandOutput { success: false, stdout: Vec::new(), stderr: Vec::new() });
    assert!(!needs_elevation(&ok));
    assert!(needs_elevation(&bad));
    assert!(needs_elevation(&Err("not found".to_string())));
}

#[test]
fn powershell_is_non_interactive() {
    let c = powershell("Get-Date");
    assert_eq!(c.program, "powershell");
    assert_eq!(c.args, vec!["-NoProfile", "-NonInteractive", "-Command", "Get-Date"]);
}

#[test]
fn elevation_answer_is_read_from_trimmed_output() {
    let out = |s: &str| Ok(CommandOutput { success: true, stdout: s.as_bytes().to_vec(), stderr: Vec::new() });
    assert!(is_elevated(&out("True\r\n")));
    assert!(is_elevated(&out("  True")));
    assert!(!is_elevated(&out("False\r\n")));
    assert!(!is_elevated(&out("true")));
    assert!(!is_elevated(&Err("no powershell".to_string())));
}

#[test]
fn interface_is_trimmed_output_if_any() {
    assert_eq!(interface_from_output(&b"\r\n  wg0\r\n".to_vec()), Some("wg0".to_string()));
    assert_eq!(interface_from_output(&b"WireGuard Tunnel".to_vec()), Some("WireGuard Tunnel".to_string()));
    assert_eq!(interface_from_output(&b" \t\n".to_vec()), None);
    assert_eq!(interface_from_output(&Vec::new()), None);
}

#[test]
fn launch_errors_name_the_route() {
    assert_eq!(launch_error(&cmd("iptables", &[]), "denied"), "Failed to run privileged command: denied");
    assert_eq!(launch_error(&powershell("x"), "missing"), "Failed to run PowerShell: missing");
    let netsh = Command { program: "netsh".to_string(), args: vec![], privileged: false };
    assert_eq!(launch_error(&netsh, "missing"), "Failed to run command 'netsh': missing");
}

#[test]
fn block_rule_failure_decodes_stderr() {
    assert_eq!(block_rule_failure_message(&b"denied".to_vec()), "Failed to create block rule: denied");
    assert_eq!(block_rule_failure_message(&vec![b'x', 0xff]), "Failed to create block rule: x\u{fffd}");
}
