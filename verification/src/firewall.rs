//! The firewall steps of the kill switch, the command each one runs, and
//! how their output is read.

use vstd::prelude::*;
use crate::command::{self, Command, CommandView};
use crate::text;

verus! {

/// Name of the Windows firewall rule that blocks all outbound traffic.
pub const FIREWALL_RULE_BLOCK: &'static str = "VPNht Kill Switch Block";

/// Name of the Windows firewall rule that lets the WireGuard interface through.
pub const FIREWALL_RULE_ALLOW_WG: &'static str = "VPNht Kill Switch Allow WireGuard";

/// The comment that marks the kill switch's own iptables rules.
pub const KILLSWITCH_MARKER: &'static str = "vpnht-killswitch";

/// PowerShell test of whether the process runs as administrator.
pub const ELEVATION_SCRIPT: &'static str = "(New-Object Security.Principal.WindowsPrincipal([Security.Principal.WindowsIdentity]::GetCurrent())).IsInRole([Security.Principal.WindowsBuiltInRole]::Administrator)";

/// PowerShell script that prints the name of the first WireGuard adapter.
pub const FIND_INTERFACE_SCRIPT: &'static str = r#"
            $adapters = Get-NetAdapter | Where-Object { 
                $_.InterfaceDescription -like "*WireGuard*" -or 
                $_.Name -like "wg*" -or 
                $_.Name -like "*WireGuard*"
            }
            if ($adapters) {
                $adapters[0].Name
            }
        "#;

/// One firewall action of the kill switch.
pub enum Step {
    /// Ask whether the process runs as administrator (answer only informs).
    CheckElevation,
    /// Delete the Windows block rule, if there is one.
    RemoveBlockRule,
    /// Delete the Windows WireGuard allow rule, if there is one.
    RemoveAllowRule,
    /// Look for the WireGuard adapter.
    FindInterface,
    /// Add the Windows rule that blocks all outbound traffic.
    AddBlockRule,
    /// Let traffic through the named WireGuard adapter.
    AllowInterface(String),
    /// Let DHCP through.
    AllowDhcp,
    /// Let DNS through.
    AllowDns,
    /// List the current iptables rules, to keep them.
    SaveRules,
    /// Run iptables with the words of a kept rule.
    RestoreRule(Vec<String>),
    /// Drop outbound traffic that is not marked as VPN traffic.
    BlockOutbound,
    /// Drop inbound traffic that is not marked as VPN traffic.
    BlockInbound,
}

/// The mathematical value of a [`Step`].
pub enum StepView {
    CheckElevation,
    RemoveBlockRule,
    RemoveAllowRule,
    FindInterface,
    AddBlockRule,
    AllowInterface(Seq<char>),
    AllowDhcp,
    AllowDns,
    SaveRules,
    RestoreRule(Seq<Seq<char>>),
    BlockOutbound,
    BlockInbound,
}

impl View for Step {
    type V = StepView;

    open spec fn view(&self) -> StepView {
        match self {
            Step::CheckElevation => StepView::CheckElevation,
            Step::RemoveBlockRule => StepView::RemoveBlockRule,
            Step::RemoveAllowRule => StepView::RemoveAllowRule,
            Step::FindInterface => StepView::FindInterface,
            Step::AddBlockRule => StepView::AddBlockRule,
            Step::AllowInterface(i) => StepView::AllowInterface(i@),
            Step::AllowDhcp => StepView::AllowDhcp,
            Step::AllowDns => StepView::AllowDns,
            Step::SaveRules => StepView::SaveRules,
            Step::RestoreRule(args) => StepView::RestoreRule(text::views(args@)),
            Step::BlockOutbound => StepView::BlockOutbound,
            Step::BlockInbound => StepView::BlockInbound,
        }
    }
}

/// The views of a list of steps.
pub open spec fn steps_view(v: Seq<Step>) -> Seq<StepView> {
    v.map_values(|s: Step| s@)
}

// ---------------------------------------------------------------------------
// The command of each step
// ---------------------------------------------------------------------------

/// An `iptables` call with administrator rights.
pub open spec fn iptables(args: Seq<Seq<char>>) -> CommandView {
    CommandView { program: "iptables"@, args, privileged: true }
}

/// A `netsh` call.
pub open spec fn netsh(args: Seq<Seq<char>>) -> CommandView {
    CommandView { program: "netsh"@, args, privileged: false }
}

/// `name=` followed by the block rule's name.
pub open spec fn block_rule_name() -> Seq<char> {
    "name="@ + FIREWALL_RULE_BLOCK@
}

/// Arguments that delete the block rule.
pub open spec fn delete_block_args() -> Seq<Seq<char>> {
    seq!["advfirewall"@, "firewall"@, "delete"@, "rule"@, block_rule_name()]
}

/// Arguments that add the block rule.
pub open spec fn add_block_args() -> Seq<Seq<char>> {
    seq![
        "advfirewall"@, "firewall"@, "add"@, "rule"@, block_rule_name(), "dir=out"@,
        "action=block"@, "remoteip=any"@, "enable=yes"@, "profile=any"@,
    ]
}

/// Arguments that let DHCP out.
pub open spec fn dhcp_args() -> Seq<Seq<char>> {
    seq![
        "advfirewall"@, "firewall"@, "add"@, "rule"@, "name=VPNht Kill Switch DHCP Out"@,
        "dir=out"@, "action=allow"@, "protocol=udp"@, "localport=68"@, "remoteport=67"@,
        "enable=yes"@,
    ]
}

/// Arguments that let DNS out.
pub open spec fn dns_args() -> Seq<Seq<char>> {
    seq![
        "advfirewall"@, "firewall"@, "add"@, "rule"@, "name=VPNht Kill Switch DNS Out"@,
        "dir=out"@, "action=allow"@, "protocol=any"@, "remoteport=53"@, "enable=yes"@,
    ]
}

/// The PowerShell line that deletes the WireGuard allow rule.
pub open spec fn remove_allow_script() -> Seq<char> {
    "Remove-NetFirewallRule -DisplayName '"@ + FIREWALL_RULE_ALLOW_WG@
        + "' -ErrorAction SilentlyContinue"@
}

/// The PowerShell line that lets traffic through adapter `iface`.
pub open spec fn allow_script(iface: Seq<char>) -> Seq<char> {
    "New-NetFirewallRule -DisplayName '"@ + FIREWALL_RULE_ALLOW_WG@
        + "' -Direction Outbound -Action Allow -InterfaceAlias '"@ + iface
        + "' -Enabled True -Profile Any"@
}

/// Arguments that list the iptables rules.
pub open spec fn list_rules_args() -> Seq<Seq<char>> {
    seq!["-L"@, "-n"@, "-v"@]
}

/// Arguments that drop unmarked outbound traffic.
pub open spec fn block_outbound_args() -> Seq<Seq<char>> {
    seq![
        "-A"@, "OUTPUT"@, "-m"@, "mark"@, "!"@, "--mark"@, "0xca6c"@, "-m"@, "addrtype"@, "!"@,
        "--dst-type"@, "LOCAL"@, "-j"@, "DROP"@, "-m"@, "comment"@, "--comment"@,
        "vpnht-killswitch"@,
    ]
}

/// Arguments that drop unmarked inbound traffic.
pub open spec fn block_inbound_args() -> Seq<Seq<char>> {
    seq![
        "-A"@, "INPUT"@, "-m"@, "mark"@, "!"@, "--mark"@, "0xca6c"@, "-j"@, "DROP"@, "-m"@,
        "comment"@, "--comment"@, "vpnht-killswitch"@,
    ]
}

/// The command that step `s` runs.
pub open spec fn step_command(s: StepView) -> CommandView {
    match s {
        StepView::CheckElevation => command::powershell_spec(ELEVATION_SCRIPT@),
        StepView::RemoveBlockRule => netsh(delete_block_args()),
        StepView::RemoveAllowRule => command::powershell_spec(remove_allow_script()),
        StepView::FindInterface => command::powershell_spec(FIND_INTERFACE_SCRIPT@),
        StepView::AddBlockRule => netsh(add_block_args()),
        StepView::AllowInterface(i) => command::powershell_spec(allow_script(i)),
        StepView::AllowDhcp => netsh(dhcp_args()),
        StepView::AllowDns => netsh(dns_args()),
        StepView::SaveRules => iptables(list_rules_args()),
        StepView::RestoreRule(args) => iptables(args),
        StepView::BlockOutbound => iptables(block_outbound_args()),
        StepView::BlockInbound => iptables(block_inbound_args()),
    }
}

/// The arguments that delete the block rule.
fn delete_block_list() -> (r: Vec<String>)
    ensures
        crate::text::views(r@) == delete_block_args(),
{
    let name = text::appended("name=", FIREWALL_RULE_BLOCK);
    let mut a: Vec<String> = Vec::new();
    command::push_arg(&mut a, "advfirewall");
    command::push_arg(&mut a, "firewall");
    command::push_arg(&mut a, "delete");
    command::push_arg(&mut a, "rule");
    command::push_arg(&mut a, name.as_str());
    assert(text::views(a@) =~= delete_block_args());
    a
}

/// The arguments that add the block rule.
fn add_block_list() -> (r: Vec<String>)
    ensures
        crate::text::views(r@) == add_block_args(),
{
    let name = text::appended("name=", FIREWALL_RULE_BLOCK);
    let mut a: Vec<String> = Vec::new();
    command::push_arg(&mut a, "advfirewall");
    command::push_arg(&mut a, "firewall");
    command::push_arg(&mut a, "add");
    command::push_arg(&mut a, "rule");
    command::push_arg(&mut a, name.as_str());
    command::push_arg(&mut a, "dir=out");
    command::push_arg(&mut a, "action=block");
    command::push_arg(&mut a, "remoteip=any");
    command::push_arg(&mut a, "enable=yes");
    command::push_arg(&mut a, "profile=any");
    assert(text::views(a@) =~= add_block_args());
    a
}

/// The arguments that let DHCP out.
fn dhcp_list() -> (r: Vec<String>)
    ensures
        crate::text::views(r@) == dhcp_args(),
{
    let mut a: Vec<String> = Vec::new();
    command::push_arg(&mut a, "advfirewall");
    command::push_arg(&mut a, "firewall");
    command::push_arg(&mut a, "add");
    command::push_arg(&mut a, "rule");
    command::push_arg(&mut a, "name=VPNht Kill Switch DHCP Out");
    command::push_arg(&mut a, "dir=out");
    command::push_arg(&mut a, "action=allow");
    command::push_arg(&mut a, "protocol=udp");
    command::push_arg(&mut a, "localport=68");
    command::push_arg(&mut a, "remoteport=67");
    command::push_arg(&mut a, "enable=yes");
    assert(text::views(a@) =~= dhcp_args());
    a
}

/// The arguments that let DNS out.
fn dns_list() -> (r: Vec<String>)
    ensures
        crate::text::views(r@) == dns_args(),
{
    let mut a: Vec<String> = Vec::new();
    command::push_arg(&mut a, "advfirewall");
    command::push_arg(&mut a, "firewall");
    command::push_arg(&mut a, "add");
    command::push_arg(&mut a, "rule");
    command::push_arg(&mut a, "name=VPNht Kill Switch DNS Out");
    command::push_arg(&mut a, "dir=out");
    command::push_arg(&mut a, "action=allow");
    command::push_arg(&mut a, "protocol=any");
    command::push_arg(&mut a, "remoteport=53");
    command::push_arg(&mut a, "enable=yes");
    assert(text::views(a@) =~= dns_args());
    a
}

/// The arguments that list the iptables rules.
fn list_rules_list() -> (r: Vec<String>)
    ensures
        crate::text::views(r@) == list_rules_args(),
{
    let mut a: Vec<String> = Vec::new();
    command::push_arg(&mut a, "-L");
    command::push_arg(&mut a, "-n");
    command::push_arg(&mut a, "-v");
    assert(text::views(a@) =~= list_rules_args());
    a
}

/// The arguments that drop unmarked outbound traffic.
fn block_outbound_list() -> (r: Vec<String>)
    ensures
        crate::text::views(r@) == block_outbound_args(),
{
    let mut a: Vec<String> = Vec::new();
    command::push_arg(&mut a, "-A");
    command::push_arg(&mut a, "OUTPUT");
    command::push_arg(&mut a, "-m");
    command::push_arg(&mut a, "mark");
    command::push_arg(&mut a, "!");
    command::push_arg(&mut a, "--mark");
    command::push_arg(&mut a, "0xca6c");
    command::push_arg(&mut a, "-m");
    command::push_arg(&mut a, "addrtype");
    command::push_arg(&mut a, "!");
    command::push_arg(&mut a, "--dst-type");
    command::push_arg(&mut a, "LOCAL");
    command::push_arg(&mut a, "-j");
    command::push_arg(&mut a, "DROP");
    command::push_arg(&mut a, "-m");
    command::push_arg(&mut a, "comment");
    command::push_arg(&mut a, "--comment");
    command::push_arg(&mut a, "vpnht-killswitch");
    assert(text::views(a@) =~= block_outbound_args());
    a
}

/// The arguments that drop unmarked inbound traffic.
fn block_inbound_list() -> (r: Vec<String>)
    ensures
        crate::text::views(r@) == block_inbound_args(),
{
    let mut a: Vec<String> = Vec::new();
    command::push_arg(&mut a, "-A");
    command::push_arg(&mut a, "INPUT");
    command::push_arg(&mut a, "-m");
    command::push_arg(&mut a, "mark");
    command::push_arg(&mut a, "!");
    command::push_arg(&mut a, "--mark");
    command::push_arg(&mut a, "0xca6c");
    command::push_arg(&mut a, "-j");
    command::push_arg(&mut a, "DROP");
    command::push_arg(&mut a, "-m");
    command::push_arg(&mut a, "comment");
    command::push_arg(&mut a, "--comment");
    command::push_arg(&mut a, "vpnht-killswitch");
    assert(text::views(a@) =~= block_inbound_args());
    a
}

/// A copy of a list of strings.
fn copy_strings(v: &Vec<String>) -> (r: Vec<String>)
    ensures
        crate::text::views(r@) == crate::text::views(v@),
{
    let mut r: Vec<String> = Vec::new();
    let mut i: usize = 0;
    while i < v.len()
        invariant
            i <= v.len(),
            text::views(r@) == text::views(v@).take(i as int),
        decreases v.len() - i,
    {
        command::push_arg(&mut r, v[i].as_str());
        i = i + 1;
        assert(text::views(r@) =~= text::views(v@).take(i as int));
    }
    assert(text::views(v@).take(i as int) =~= text::views(v@));
    r
}

/// An `iptables` call with administrator rights.
fn iptables_command(args: Vec<String>) -> (r: Command)
    ensures
        r@ == iptables(crate::text::views(args@)),
{
    Command { program: "iptables".to_owned(), args, privileged: true }
}

/// The command that `step` runs.
pub fn command_for(step: &Step) -> (r: Command)
    ensures
        r@ == step_command(step@),
{
    match step {
        Step::CheckElevation => command::powershell(ELEVATION_SCRIPT),
        Step::RemoveBlockRule => command::plain("netsh", delete_block_list()),
        Step::RemoveAllowRule => {
            let head = text::appended("Remove-NetFirewallRule -DisplayName '", FIREWALL_RULE_ALLOW_WG);
            let script = text::appended(head.as_str(), "' -ErrorAction SilentlyContinue");
            command::powershell(script.as_str())
        },
        Step::FindInterface => command::powershell(FIND_INTERFACE_SCRIPT),
        Step::AddBlockRule => command::plain("netsh", add_block_list()),
        Step::AllowInterface(iface) => {
            let a = text::appended("New-NetFirewallRule -DisplayName '", FIREWALL_RULE_ALLOW_WG);
            let b = text::appended(a.as_str(), "' -Direction Outbound -Action Allow -InterfaceAlias '");
            let c = text::appended(b.as_str(), iface.as_str());
            let script = text::appended(c.as_str(), "' -Enabled True -Profile Any");
            command::powershell(script.as_str())
        },
        Step::AllowDhcp => command::plain("netsh", dhcp_list()),
        Step::AllowDns => command::plain("netsh", dns_list()),
        Step::SaveRules => iptables_command(list_rules_list()),
        Step::RestoreRule(args) => iptables_command(copy_strings(args)),
        Step::BlockOutbound => iptables_command(block_outbound_list()),
        Step::BlockInbound => iptables_command(block_inbound_list()),
    }
}

// ---------------------------------------------------------------------------
// Reading what the steps report
// ---------------------------------------------------------------------------

/// A character that may stand in a network interface name.
pub open spec fn interface_char(c: char) -> bool {
    text::unicode_alphanumeric(c) || c == '-' || c == '_'
}

/// What `sanitize_interface_name` answers for `name`: names longer than
/// 15 bytes in UTF-8 are too long; names with a character that is not
/// alphanumeric, `-` or `_` are invalid; any other name comes back as is.
pub open spec fn sanitized(name: Seq<char>) -> Result<Seq<char>, Seq<char>> {
    if vstd::utf8::encode_utf8(name).len() > 15 {
        Err("Interface name too long"@)
    } else if exists|i: int| 0 <= i < name.len() && !interface_char(#[trigger] name[i]) {
        Err("Invalid interface name"@)
    } else {
        Ok(name)
    }
}

/// The view of a result that holds strings on both sides.
pub open spec fn text_result(r: Result<String, String>) -> Result<Seq<char>, Seq<char>> {
    match r {
        Ok(s) => Ok(s@),
        Err(e) => Err(e@),
    }
}

/// Checks that `name` is usable as a network interface name.
pub fn sanitize_interface_name(name: &str) -> (r: Result<String, String>)
    ensures
        text_result(r) == sanitized(name@),
{
    // The byte length of `name`, as `str::len` reports it.
    let byte_len = name.as_bytes().len();
    if byte_len > 15 {
        return Err("Interface name too long".to_owned());
    }
    let cs = text::chars_vec(name);
    let mut i: usize = 0;
    while i < cs.len()
        invariant
            cs@ == name@,
            i <= cs.len(),
            vstd::utf8::encode_utf8(name@).len() <= 15,
            forall|k: int| 0 <= k < i ==> interface_char(#[trigger] name@[k]),
        decreases cs.len() - i,
    {
        let c = cs[i];
        if !(text::char_is_alphanumeric(c) || c == '-' || c == '_') {
            assert(!interface_char(name@[i as int]));
            return Err("Invalid interface name".to_owned());
        }
        i = i + 1;
    }
    Ok(name.to_owned())
}

/// The WireGuard adapter that the search script printed: its output without
/// surrounding white space, if anything is left.
pub open spec fn found_interface(stdout: Seq<u8>) -> Option<Seq<char>> {
    let name = text::trim(text::lossy_utf8(stdout));
    if name.len() == 0 {
        None
    } else {
        Some(name)
    }
}

/// The WireGuard adapter that the search script printed on `stdout`.
pub fn interface_from_output(stdout: &Vec<u8>) -> (r: Option<String>)
    ensures
        r matches Some(s) ==> found_interface(stdout@) == Some(s@),
        r is None ==> found_interface(stdout@) is None,
{
    let out = text::decode_lossy(stdout.as_slice());
    let name = text::trimmed(out.as_str());
    if name.unicode_len() == 0 {
        None
    } else {
        Some(name)
    }
}

/// Whether the elevation check reports administrator rights: it ran, and
/// its output, without surrounding white space, is `True`.
pub open spec fn reports_elevated(outcome: Result<command::OutputView, Seq<char>>) -> bool {
    match outcome {
        Ok(out) => text::trim(text::lossy_utf8(out.stdout)) == "True"@,
        Err(_) => false,
    }
}

/// Whether the elevation check reports administrator rights.
pub fn is_elevated(outcome: &Result<command::CommandOutput, String>) -> (r: bool)
    ensures
        r == reports_elevated(command::outcome_view(*outcome)),
{
    match outcome {
        Ok(out) => {
            let printed = text::decode_lossy(out.stdout.as_slice());
            let answer = text::trimmed(printed.as_str());
            text::same_text(answer.as_str(), "True")
        },
        Err(_) => false,
    }
}

/// The message when the block rule could not be added.
pub open spec fn block_rule_failure(stderr: Seq<u8>) -> Seq<char> {
    "Failed to create block rule: "@ + text::lossy_utf8(stderr)
}

/// The message when the block rule could not be added.
pub fn block_rule_failure_message(stderr: &Vec<u8>) -> (r: String)
    ensures
        r@ == block_rule_failure(stderr@),
{
    let detail = text::decode_lossy(stderr.as_slice());
    text::appended("Failed to create block rule: ", detail.as_str())
}

/// The kept iptables listing lines that the kill switch wrote.
pub open spec fn marked(rules: Seq<Seq<char>>) -> Seq<Seq<char>> {
    rules.filter(|r: Seq<char>| text::contains(r, KILLSWITCH_MARKER@))
}

/// The steps that put back the kill switch's kept rules: one iptables call
/// per kept line that holds the marker, in order, with the line's words as
/// arguments.
pub open spec fn restore_steps(rules: Seq<Seq<char>>) -> Seq<StepView> {
    marked(rules).map_values(|r: Seq<char>| StepView::RestoreRule(text::words(r)))
}

/// The steps that put back the kill switch's kept rules.
pub fn restore_plan(rules: &Vec<String>) -> (r: Vec<Step>)
    ensures
        steps_view(r@) == restore_steps(crate::text::views(rules@)),
{
    let ghost all = text::views(rules@);
    let mut r: Vec<Step> = Vec::new();
    let mut i: usize = 0;
    while i < rules.len()
        invariant
            i <= rules.len(),
            all == text::views(rules@),
            steps_view(r@) == restore_steps(all.take(i as int)),
        decreases rules.len() - i,
    {
        let ghost before = r@;
        proof {
            reveal(Seq::filter);
            assert(all.take(i + 1).drop_last() =~= all.take(i as int));
        }
        if text::has_substring(rules[i].as_str(), KILLSWITCH_MARKER) {
            let words = text::split_words(rules[i].as_str());
            r.push(Step::RestoreRule(words));
            proof {
                assert(marked(all.take(i + 1)) == marked(all.take(i as int)).push(all[i as int]));
                assert(steps_view(r@) =~= steps_view(before).push(StepView::RestoreRule(text::words(all[i as int]))));
                assert(restore_steps(all.take(i + 1)) =~= restore_steps(all.take(i as int)).push(
                    StepView::RestoreRule(text::words(all[i as int]))));
            }
        } else {
            assert(marked(all.take(i + 1)) == marked(all.take(i as int)));
        }
        i = i + 1;
    }
    assert(all.take(i as int) =~= all);
    r
}

} // verus!
