//! What holds of every run of a kill switch operation.

use vstd::prelude::*;
use crate::command::{self, CommandView, OutputView};
use crate::firewall::{self, StepView};
use crate::killswitch::{
    self, ActionView, JobView, KillSwitchView, Operation, Platform,
};
use crate::text;

verus! {

/// The switch's `enabled` flag after operation `op` succeeded on a switch
/// whose flag was `was`: on after enabling, off after disabling, unchanged
/// after a disconnect.
pub open spec fn target(op: Operation, was: bool) -> bool {
    match op {
        Operation::Enable => true,
        Operation::Disable => false,
        Operation::VpnDisconnect => was,
    }
}

/// Feeding the results in `outcomes` to a job, one per command it asks for,
/// until it finishes or the results run out.
pub open spec fn drive(
    ks: KillSwitchView,
    job: JobView,
    act: ActionView,
    outcomes: Seq<Result<OutputView, Seq<char>>>,
) -> (KillSwitchView, JobView, ActionView)
    decreases outcomes.len(),
{
    if outcomes.len() == 0 || act is Finished {
        (ks, job, act)
    } else {
        let (ks2, job2, act2) = killswitch::resume(ks, job, outcomes[0]);
        drive(ks2, job2, act2, outcomes.drop_first())
    }
}

/// The job has finished with success.
pub open spec fn succeeded(act: ActionView) -> bool {
    act matches ActionView::Finished(Ok(_))
}

/// The steps that operation `op` may run.
pub open spec fn step_fits(op: Operation, s: StepView) -> bool {
    match op {
        Operation::Enable => !(s is RestoreRule || s is BlockOutbound || s is BlockInbound),
        Operation::Disable => s is RestoreRule || s is RemoveBlockRule || s is RemoveAllowRule,
        Operation::VpnDisconnect => s is BlockOutbound || s is BlockInbound,
    }
}

/// Where a run of operation `op` on platform `platform`, started on switch
/// `ks0`, can stand: while a command is out, the flag is as it was, a
/// disconnect has changed nothing and a disable has kept the listing; once
/// finished, success left the target
/// flag (and, for a Linux disable of an enabled switch, no kept listing),
/// failure left the flag as it was.
pub open spec fn on_track(
    ks0: KillSwitchView,
    op: Operation,
    platform: Platform,
    ks: KillSwitchView,
    job: JobView,
    act: ActionView,
) -> bool {
    &&& job.operation == op
    &&& job.platform == platform
    &&& (op is VpnDisconnect ==> ks == ks0)
    &&& (op is Disable && !succeeded(act) ==> ks.rules == ks0.rules)
    &&& match act {
        ActionView::Run(_) => {
            &&& job.steps.len() > 0
            &&& forall|i: int| 0 <= i < job.steps.len() ==> step_fits(op, #[trigger] job.steps[i])
            &&& ks.enabled == ks0.enabled
            &&& !killswitch::settled(ks0, op)
        },
        ActionView::Finished(Ok(_)) => {
            &&& ks.enabled == target(op, ks0.enabled)
            &&& (op is Disable && platform is Linux && ks0.enabled ==> ks.rules.len() == 0)
        },
        ActionView::Finished(Err(_)) => ks.enabled == ks0.enabled,
    }
}

proof fn lemma_advance_on_track(
    ks0: KillSwitchView,
    op: Operation,
    platform: Platform,
    ks: KillSwitchView,
    job: JobView,
)
    requires
        job.operation == op,
        job.platform == platform,
        op is VpnDisconnect ==> ks == ks0,
        op is Disable ==> ks.rules == ks0.rules,
        forall|i: int| 0 <= i < job.steps.len() ==> step_fits(op, #[trigger] job.steps[i]),
        ks.enabled == ks0.enabled,
        !killswitch::settled(ks0, op),
    ensures
        ({
            let (ks2, job2, act2) = killswitch::advance(ks, job);
            on_track(ks0, op, platform, ks2, job2, act2)
        }),
{
    if job.steps.len() > 0 {
        assert(step_fits(op, job.steps[0]));
    }
}

/// Starting an operation puts the run on track.
proof fn lemma_begin_on_track(ks0: KillSwitchView, op: Operation, platform: Platform)
    ensures
        ({
            let (ks, job, act) = killswitch::begin(ks0, op, platform);
            on_track(ks0, op, platform, ks, job, act)
        }),
{
    if !killswitch::settled(ks0, op) {
        let steps = killswitch::plan(ks0, op, platform);
        if op is Disable && platform is Linux {
            assert forall|i: int| 0 <= i < steps.len() implies step_fits(op, #[trigger] steps[i]) by {
                assert(steps == firewall::marked(ks0.rules).map_values(
                    |r: Seq<char>| StepView::RestoreRule(text::words(r)),
                ));
            }
        }
        lemma_advance_on_track(
            ks0,
            op,
            platform,
            ks0,
            JobView { operation: op, platform, steps, interface: None },
        );
    }
}

/// Handing in a command's result keeps the run on track.
proof fn lemma_resume_on_track(
    ks0: KillSwitchView,
    op: Operation,
    platform: Platform,
    ks: KillSwitchView,
    job: JobView,
    act: ActionView,
    outcome: Result<OutputView, Seq<char>>,
)
    requires
        on_track(ks0, op, platform, ks, job, act),
        act is Run,
    ensures
        ({
            let (ks2, job2, act2) = killswitch::resume(ks, job, outcome);
            on_track(ks0, op, platform, ks2, job2, act2)
        }),
{
    assert(step_fits(op, job.steps[0]));
    let rest = job.steps.drop_first();
    assert forall|i: int| 0 <= i < rest.len() implies step_fits(op, #[trigger] rest[i]) by {
        assert(rest[i] == job.steps[i + 1]);
    }
    match killswitch::react(ks, job, outcome) {
        Err(_) => {},
        Ok((ks2, job2)) => {
            if let StepView::AddBlockRule = job.steps[0] {
                if let Some(i) = job.interface {
                    let s2 = seq![StepView::AllowInterface(i)] + rest;
                    assert forall|k: int| 0 <= k < s2.len() implies step_fits(op, #[trigger] s2[k]) by {
                        if k > 0 {
                            assert(s2[k] == rest[k - 1]);
                        }
                    }
                }
            }
            lemma_advance_on_track(ks0, op, platform, ks2, job2);
        },
    }
}

/// Feeding results to a run on track keeps it on track.
proof fn lemma_drive_on_track(
    ks0: KillSwitchView,
    op: Operation,
    platform: Platform,
    ks: KillSwitchView,
    job: JobView,
    act: ActionView,
    outcomes: Seq<Result<OutputView, Seq<char>>>,
)
    requires
        on_track(ks0, op, platform, ks, job, act),
    ensures
        ({
            let (ks2, job2, act2) = drive(ks, job, act, outcomes);
            on_track(ks0, op, platform, ks2, job2, act2)
        }),
    decreases outcomes.len(),
{
    if outcomes.len() > 0 && act is Run {
        lemma_resume_on_track(ks0, op, platform, ks, job, act, outcomes[0]);
        let (ks2, job2, act2) = killswitch::resume(ks, job, outcomes[0]);
        lemma_drive_on_track(ks0, op, platform, ks2, job2, act2, outcomes.drop_first());
    }
}

/// Every run of a kill switch operation, whatever its commands report:
/// - when it succeeds, enabling leaves the switch on, disabling leaves it
///   off, and a disconnect leaves it as it was;
/// - when it fails, or while a command is still out, the switch is on or
///   off as it was before the operation;
/// - a disconnect never changes the switch;
/// - disabling an enabled switch on Linux, when it succeeds, forgets the
///   kept iptables listing; a disable that fails, or has a command out,
///   keeps the listing as it was.
pub proof fn law_operation_outcome(
    ks: KillSwitchView,
    op: Operation,
    platform: Platform,
    outcomes: Seq<Result<OutputView, Seq<char>>>,
)
    ensures
        ({
            let (ks1, job1, act1) = killswitch::begin(ks, op, platform);
            let (ks2, job2, act2) = drive(ks1, job1, act1, outcomes);
            &&& succeeded(act2) ==> ks2.enabled == target(op, ks.enabled)
            &&& !succeeded(act2) ==> ks2.enabled == ks.enabled
            &&& op is VpnDisconnect ==> ks2 == ks
            &&& (op is Disable && platform is Linux && ks.enabled && succeeded(act2))
                ==> ks2.rules.len() == 0
            &&& (op is Disable && !succeeded(act2)) ==> ks2.rules == ks.rules
        }),
{
    lemma_begin_on_track(ks, op, platform);
    let (ks1, job1, act1) = killswitch::begin(ks, op, platform);
    lemma_drive_on_track(ks, op, platform, ks1, job1, act1, outcomes);
    let (ks2, job2, act2) = drive(ks1, job1, act1, outcomes);
    assert(on_track(ks, op, platform, ks2, job2, act2));
}

/// An operation with nothing to do (enabling an enabled switch, disabling
/// a disabled one, a disconnect while disabled) runs no command, succeeds,
/// and leaves the switch as it is.
pub proof fn law_settled_operation_is_noop(ks: KillSwitchView, op: Operation, platform: Platform)
    requires
        killswitch::settled(ks, op),
    ensures
        ({
            let (ks1, job1, act1) = killswitch::begin(ks, op, platform);
            &&& ks1 == ks
            &&& job1.steps.len() == 0
            &&& act1 == ActionView::Finished(Ok(()))
        }),
{
}

/// A command that fails, and a step whose result the switch rejects, end
/// the job with that message and leave the switch as it was.
pub proof fn law_failure_changes_nothing(
    ks: KillSwitchView,
    job: JobView,
    outcome: Result<OutputView, Seq<char>>,
)
    requires
        job.steps.len() > 0,
        killswitch::react(ks, job, outcome) is Err,
    ensures
        ({
            let (ks2, job2, act2) = killswitch::resume(ks, job, outcome);
            &&& ks2 == ks
            &&& job2.steps.len() == 0
            &&& act2 == ActionView::Finished(Err(killswitch::react(ks, job, outcome)->Err_0))
        }),
{
}

/// Enabling a disabled switch on Linux runs `iptables -L -n -v` with
/// administrator rights; once that has run, the switch is on and keeps the
/// lines of what it printed.
pub proof fn law_linux_enable_keeps_listing(ks: KillSwitchView, out: OutputView)
    requires
        !ks.enabled,
    ensures
        ({
            let (ks1, job1, act1) = killswitch::begin(ks, Operation::Enable, Platform::Linux);
            let (ks2, job2, act2) = killswitch::resume(ks1, job1, Ok(out));
            &&& act1 == ActionView::Run(firewall::iptables(firewall::list_rules_args()))
            &&& act2 == ActionView::Finished(Ok(()))
            &&& ks2 == KillSwitchView {
                enabled: true,
                rules: text::lines(text::lossy_utf8(out.stdout)),
                ..ks
            }
        }),
{
    let (ks1, job1, act1) = killswitch::begin(ks, Operation::Enable, Platform::Linux);
    assert(job1.steps.drop_first() =~= Seq::<StepView>::empty());
}

/// The number of block-rule steps among `steps`.
pub open spec fn block_rule_steps(steps: Seq<StepView>) -> nat
    decreases steps.len(),
{
    if steps.len() == 0 {
        0
    } else {
        (if steps[0] is AddBlockRule { 1nat } else { 0nat }) + block_rule_steps(steps.drop_first())
    }
}

/// The most commands a job can still ask for: one per step, and one more
/// for each block rule, after which an allow rule may follow.
pub open spec fn commands_left(job: JobView) -> nat {
    job.steps.len() + block_rule_steps(job.steps)
}

/// A list without block-rule steps counts none.
proof fn lemma_no_block_rule_steps(steps: Seq<StepView>)
    requires
        forall|i: int| 0 <= i < steps.len() ==> !(#[trigger] steps[i] is AddBlockRule),
    ensures
        block_rule_steps(steps) == 0,
    decreases steps.len(),
{
    if steps.len() > 0 {
        assert forall|i: int| 0 <= i < steps.drop_first().len() implies !(
        #[trigger] steps.drop_first()[i] is AddBlockRule) by {
            assert(steps.drop_first()[i] == steps[i + 1]);
        }
        lemma_no_block_rule_steps(steps.drop_first());
    }
}

/// Handing in a result leaves the job with fewer commands to ask for, and
/// a job that asks for a command has a step out.
proof fn lemma_resume_shrinks(ks: KillSwitchView, job: JobView, outcome: Result<OutputView, Seq<char>>)
    requires
        job.steps.len() > 0,
    ensures
        ({
            let (ks2, job2, act2) = killswitch::resume(ks, job, outcome);
            &&& commands_left(job2) < commands_left(job)
            &&& act2 is Run ==> job2.steps.len() > 0
        }),
{
    let rest = job.steps.drop_first();
    match killswitch::react(ks, job, outcome) {
        Err(_) => {},
        Ok((ks2, job2)) => {
            if job.steps[0] is AddBlockRule {
                if let Some(i) = job.interface {
                    let s2 = seq![StepView::AllowInterface(i)] + rest;
                    assert(s2.drop_first() =~= rest);
                }
            }
        },
    }
}

/// Feeding a pending job at least as many results as it has commands left
/// brings it to its end.
proof fn lemma_drive_ends(
    ks: KillSwitchView,
    job: JobView,
    act: ActionView,
    outcomes: Seq<Result<OutputView, Seq<char>>>,
)
    requires
        act is Run ==> job.steps.len() > 0,
        outcomes.len() >= commands_left(job),
    ensures
        drive(ks, job, act, outcomes).2 is Finished,
    decreases outcomes.len(),
{
    if act is Run {
        lemma_resume_shrinks(ks, job, outcomes[0]);
        let (ks2, job2, act2) = killswitch::resume(ks, job, outcomes[0]);
        lemma_drive_ends(ks2, job2, act2, outcomes.drop_first());
    }
}

/// Every operation ends: whatever its commands report, it asks for at most
/// one command per planned step, plus one when a WireGuard adapter is let
/// through, and then finishes.
pub proof fn law_operation_ends(
    ks: KillSwitchView,
    op: Operation,
    platform: Platform,
    outcomes: Seq<Result<OutputView, Seq<char>>>,
)
    requires
        outcomes.len() >= killswitch::plan(ks, op, platform).len() + 1,
    ensures
        ({
            let (ks1, job1, act1) = killswitch::begin(ks, op, platform);
            drive(ks1, job1, act1, outcomes).2 is Finished
        }),
{
    let steps = killswitch::plan(ks, op, platform);
    if op is Enable && platform is Windows {
        let d1 = steps.drop_first();
        let d2 = d1.drop_first();
        let d3 = d2.drop_first();
        let d4 = d3.drop_first();
        let d5 = d4.drop_first();
        assert(d5 =~= seq![StepView::AllowDhcp, StepView::AllowDns]);
        lemma_no_block_rule_steps(d5);
        assert(d4[0] is AddBlockRule);
        assert(block_rule_steps(d4) == 1);
        assert(block_rule_steps(d3) == 1);
        assert(block_rule_steps(d2) == 1);
        assert(block_rule_steps(d1) == 1);
        assert(block_rule_steps(steps) == 1);
    } else {
        assert forall|i: int| 0 <= i < steps.len() implies !(#[trigger] steps[i] is AddBlockRule) by {
            if op is Disable && platform is Linux {
                assert(steps == firewall::marked(ks.rules).map_values(
                    |r: Seq<char>| StepView::RestoreRule(text::words(r)),
                ));
            }
        }
        lemma_no_block_rule_steps(steps);
    }
    let (ks1, job1, act1) = killswitch::begin(ks, op, platform);
    lemma_drive_ends(ks1, job1, act1, outcomes);
}

/// Every iptables step (keeping the listing, restoring a kept line, both
/// block rules) runs `iptables` with administrator rights.
pub proof fn law_iptables_steps_are_privileged(s: StepView)
    requires
        s is SaveRules || s is RestoreRule || s is BlockOutbound || s is BlockInbound,
    ensures
        firewall::step_command(s).program == "iptables"@,
        firewall::step_command(s).privileged,
{
}

/// Every Windows step runs `netsh` or PowerShell as the user, never through
/// the elevation route.
pub proof fn law_windows_steps_are_not_elevated(s: StepView)
    requires
        !(s is SaveRules || s is RestoreRule || s is BlockOutbound || s is BlockInbound),
    ensures
        !firewall::step_command(s).privileged,
        firewall::step_command(s).program == "netsh"@ || firewall::step_command(s).program
            == "powershell"@,
{
}

/// The rule that drops outbound traffic not marked as VPN traffic.
pub open spec fn outbound_drop() -> CommandView {
    CommandView {
        program: "iptables"@,
        args: seq![
            "-A"@, "OUTPUT"@, "-m"@, "mark"@, "!"@, "--mark"@, "0xca6c"@, "-m"@, "addrtype"@, "!"@,
            "--dst-type"@, "LOCAL"@, "-j"@, "DROP"@, "-m"@, "comment"@, "--comment"@,
            "vpnht-killswitch"@,
        ],
        privileged: true,
    }
}

/// The rule that drops inbound traffic not marked as VPN traffic.
pub open spec fn inbound_drop() -> CommandView {
    CommandView {
        program: "iptables"@,
        args: seq![
            "-A"@, "INPUT"@, "-m"@, "mark"@, "!"@, "--mark"@, "0xca6c"@, "-j"@, "DROP"@, "-m"@,
            "comment"@, "--comment"@, "vpnht-killswitch"@,
        ],
        privileged: true,
    }
}

/// A VPN disconnect on an enabled Linux switch runs, with administrator
/// rights, first the outbound drop rule, then (if that ran) the inbound
/// drop rule, and succeeds once both ran; a rule that could not run ends
/// it with that message. The switch itself never changes.
pub proof fn law_linux_disconnect_blocks_traffic(
    ks: KillSwitchView,
    first: Result<OutputView, Seq<char>>,
    second: Result<OutputView, Seq<char>>,
)
    requires
        ks.enabled,
    ensures
        ({
            let (ks1, job1, act1) = killswitch::begin(ks, Operation::VpnDisconnect, Platform::Linux);
            let (ks2, job2, act2) = killswitch::resume(ks1, job1, first);
            let (ks3, job3, act3) = killswitch::resume(ks2, job2, second);
            &&& ks1 == ks && ks2 == ks
            &&& act1 == ActionView::Run(outbound_drop())
            &&& first matches Err(e) ==> act2 == ActionView::Finished(Err(e))
            &&& first is Ok ==> act2 == ActionView::Run(inbound_drop())
            &&& first is Ok && second is Ok ==> succeeded(act3) && ks3 == ks
            &&& first is Ok ==> (second matches Err(e) ==> act3 == ActionView::Finished(Err(e)))
        }),
{
    let (ks1, job1, act1) = killswitch::begin(ks, Operation::VpnDisconnect, Platform::Linux);
    assert(job1.steps.drop_first() =~= seq![StepView::BlockInbound]);
    let (ks2, job2, act2) = killswitch::resume(ks1, job1, first);
    if first is Ok {
        assert(job2.steps.drop_first() =~= Seq::<StepView>::empty());
    }
}

/// The netsh call that deletes the block rule.
pub open spec fn delete_block_rule() -> CommandView {
    CommandView {
        program: "netsh"@,
        args: seq!["advfirewall"@, "firewall"@, "delete"@, "rule"@, "name=VPNht Kill Switch Block"@],
        privileged: false,
    }
}

/// The PowerShell call that deletes the WireGuard allow rule.
pub open spec fn delete_allow_rule() -> CommandView {
    CommandView {
        program: "powershell"@,
        args: seq![
            "-NoProfile"@,
            "-NonInteractive"@,
            "-Command"@,
            "Remove-NetFirewallRule -DisplayName 'VPNht Kill Switch Allow WireGuard' -ErrorAction SilentlyContinue"@,
        ],
        privileged: false,
    }
}

/// Disabling an enabled Windows switch deletes the block rule, then the
/// WireGuard allow rule, whatever either deletion reports, and then the
/// switch is off.
pub proof fn law_windows_disable_removes_both_rules(
    ks: KillSwitchView,
    first: Result<OutputView, Seq<char>>,
    second: Result<OutputView, Seq<char>>,
)
    requires
        ks.enabled,
    ensures
        ({
            let (ks1, job1, act1) = killswitch::begin(ks, Operation::Disable, Platform::Windows);
            let (ks2, job2, act2) = killswitch::resume(ks1, job1, first);
            let (ks3, job3, act3) = killswitch::resume(ks2, job2, second);
            &&& act1 == ActionView::Run(delete_block_rule())
            &&& act2 == ActionView::Run(delete_allow_rule())
            &&& succeeded(act3)
            &&& ks3 == KillSwitchView { enabled: false, ..ks }
        }),
{
    reveal_strlit("name=");
    reveal_strlit("VPNht Kill Switch Block");
    reveal_strlit("name=VPNht Kill Switch Block");
    reveal_strlit("Remove-NetFirewallRule -DisplayName '");
    reveal_strlit("VPNht Kill Switch Allow WireGuard");
    reveal_strlit("' -ErrorAction SilentlyContinue");
    reveal_strlit(
        "Remove-NetFirewallRule -DisplayName 'VPNht Kill Switch Allow WireGuard' -ErrorAction SilentlyContinue",
    );
    assert(firewall::block_rule_name() =~= "name=VPNht Kill Switch Block"@);
    assert(firewall::remove_allow_script()
        =~= "Remove-NetFirewallRule -DisplayName 'VPNht Kill Switch Allow WireGuard' -ErrorAction SilentlyContinue"@);
    assert(firewall::delete_block_args() =~= delete_block_rule().args);
    assert(command::powershell_args(firewall::remove_allow_script()) =~= delete_allow_rule().args);
    let (ks1, job1, act1) = killswitch::begin(ks, Operation::Disable, Platform::Windows);
    assert(job1.steps.drop_first() =~= seq![StepView::RemoveAllowRule]);
    let (ks2, job2, act2) = killswitch::resume(ks1, job1, first);
    assert(job2.steps.drop_first() =~= Seq::<StepView>::empty());
}

/// A listing whose every line satisfies `pred` passes through the filter
/// unchanged.
proof fn lemma_filter_keeps_all(rules: Seq<Seq<char>>, pred: spec_fn(Seq<char>) -> bool)
    requires
        forall|j: int| 0 <= j < rules.len() ==> pred(#[trigger] rules[j]),
    ensures
        rules.filter(pred) == rules,
    decreases rules.len(),
{
    reveal(Seq::filter);
    if rules.len() > 0 {
        let init = rules.drop_last();
        assert forall|j: int| 0 <= j < init.len() implies pred(#[trigger] init[j]) by {
            assert(init[j] == rules[j]);
        }
        lemma_filter_keeps_all(init, pred);
        assert(pred(rules[rules.len() - 1]));
        assert(rules.filter(pred) =~= init.filter(pred).push(rules.last()));
        assert(init.push(rules.last()) =~= rules);
    }
}

/// The privileged `iptables` call that puts back a kept line.
pub open spec fn restore_line(line: Seq<char>) -> CommandView {
    CommandView { program: "iptables"@, args: text::words(line), privileged: true }
}

/// Step `s` runs a privileged `iptables` call with the words of a line of
/// `rules` that carries the kill switch's marker.
pub open spec fn restored_from_marked(rules: Seq<Seq<char>>, s: StepView) -> bool {
    exists|r: Seq<char>| {
        &&& rules.contains(r)
        &&& text::contains(r, firewall::KILLSWITCH_MARKER@)
        &&& firewall::step_command(s) == #[trigger] restore_line(r)
    }
}

/// Disabling on Linux puts back only kept lines that carry the kill
/// switch's marker: each command is a privileged `iptables` call whose
/// arguments are the words of such a line; every marked line is put back;
/// and when every kept line carries the marker, each is put back once, in
/// order.
pub proof fn law_linux_disable_restores_marked_lines(ks: KillSwitchView)
    ensures
        ({
            let steps = killswitch::plan(ks, Operation::Disable, Platform::Linux);
            &&& forall|i: int| 0 <= i < steps.len() ==> #[trigger] restored_from_marked(ks.rules, steps[i])
            &&& forall|j: int| 0 <= j < ks.rules.len() && text::contains(#[trigger] ks.rules[j], firewall::KILLSWITCH_MARKER@)
                ==> steps.contains(StepView::RestoreRule(text::words(ks.rules[j])))
            &&& (forall|j: int| 0 <= j < ks.rules.len() ==> text::contains(#[trigger] ks.rules[j], firewall::KILLSWITCH_MARKER@))
                ==> steps.len() == ks.rules.len() && forall|i: int| 0 <= i < steps.len() ==>
                    #[trigger] firewall::step_command(steps[i]) == restore_line(ks.rules[i])
        }),
{
    let pred = |r: Seq<char>| text::contains(r, firewall::KILLSWITCH_MARKER@);
    let kept = ks.rules.filter(pred);
    assert(firewall::marked(ks.rules) == kept);
    let steps = killswitch::plan(ks, Operation::Disable, Platform::Linux);
    broadcast use vstd::seq_lib::group_filter_ensures;
    assert(steps.len() == kept.len());
    assert forall|i: int| 0 <= i < steps.len() implies #[trigger] restored_from_marked(ks.rules, steps[i]) by {
        let r = kept[i];
        assert(pred(r));
        assert(kept.contains(r));
        ks.rules.lemma_filter_contains_rev(pred, r);
        assert(steps[i] == StepView::RestoreRule(text::words(r)));
        assert(firewall::step_command(steps[i]) == restore_line(r));
    }
    assert forall|j: int| 0 <= j < ks.rules.len() && text::contains(#[trigger] ks.rules[j], firewall::KILLSWITCH_MARKER@)
        implies steps.contains(StepView::RestoreRule(text::words(ks.rules[j]))) by {
        assert(0 <= j < ks.rules.len());
        assert(pred(ks.rules[j]));
        assert(kept.contains(ks.rules[j]));
        let k = choose|k: int| 0 <= k < kept.len() && kept[k] == ks.rules[j];
        assert(steps[k] == StepView::RestoreRule(text::words(ks.rules[j])));
    }
    if forall|j: int| 0 <= j < ks.rules.len() ==> text::contains(#[trigger] ks.rules[j], firewall::KILLSWITCH_MARKER@) {
        assert forall|j: int| 0 <= j < ks.rules.len() implies pred(#[trigger] ks.rules[j]) by {}
        lemma_filter_keeps_all(ks.rules, pred);
        assert(kept == ks.rules);
        assert(steps.len() == ks.rules.len());
        assert forall|i: int| 0 <= i < steps.len() implies
            #[trigger] firewall::step_command(steps[i]) == restore_line(ks.rules[i]) by {
            assert(steps[i] == StepView::RestoreRule(text::words(kept[i])));
        }
    }
}

/// The netsh call that adds the rule blocking all outbound traffic.
pub open spec fn add_block_rule() -> CommandView {
    CommandView {
        program: "netsh"@,
        args: seq![
            "advfirewall"@, "firewall"@, "add"@, "rule"@, "name=VPNht Kill Switch Block"@,
            "dir=out"@, "action=block"@, "remoteip=any"@, "enable=yes"@, "profile=any"@,
        ],
        privileged: false,
    }
}

/// The netsh call that lets DHCP out.
pub open spec fn allow_dhcp() -> CommandView {
    CommandView {
        program: "netsh"@,
        args: seq![
            "advfirewall"@, "firewall"@, "add"@, "rule"@, "name=VPNht Kill Switch DHCP Out"@,
            "dir=out"@, "action=allow"@, "protocol=udp"@, "localport=68"@, "remoteport=67"@,
            "enable=yes"@,
        ],
        privileged: false,
    }
}

/// The netsh call that lets DNS out.
pub open spec fn allow_dns() -> CommandView {
    CommandView {
        program: "netsh"@,
        args: seq![
            "advfirewall"@, "firewall"@, "add"@, "rule"@, "name=VPNht Kill Switch DNS Out"@,
            "dir=out"@, "action=allow"@, "protocol=any"@, "remoteport=53"@, "enable=yes"@,
        ],
        privileged: false,
    }
}

/// The PowerShell call that lets outbound traffic through adapter `iface`.
pub open spec fn allow_adapter(iface: Seq<char>) -> CommandView {
    command::powershell_spec(
        "New-NetFirewallRule -DisplayName 'VPNht Kill Switch Allow WireGuard' -Direction Outbound -Action Allow -InterfaceAlias '"@
            + iface + "' -Enabled True -Profile Any"@,
    )
}

/// Enabling a disabled Windows switch checks for administrator rights,
/// deletes any rules left from an earlier session (whatever that reports),
/// looks for a WireGuard adapter, adds the outbound block rule, lets the
/// adapter found (if any) through and records it, then lets DHCP and DNS
/// out; once all of that ran, the switch is on.
pub proof fn law_windows_enable_sequence(
    ks: KillSwitchView,
    elevation: Result<OutputView, Seq<char>>,
    old_block: Result<OutputView, Seq<char>>,
    old_allow: Result<OutputView, Seq<char>>,
    search: OutputView,
    block: OutputView,
    adapter: OutputView,
    dhcp: OutputView,
    dns: OutputView,
)
    requires
        !ks.enabled,
        block.success,
    ensures
        ({
            let (ks1, job1, act1) = killswitch::begin(ks, Operation::Enable, Platform::Windows);
            let (ks2, job2, act2) = killswitch::resume(ks1, job1, elevation);
            let (ks3, job3, act3) = killswitch::resume(ks2, job2, old_block);
            let (ks4, job4, act4) = killswitch::resume(ks3, job3, old_allow);
            let (ks5, job5, act5) = killswitch::resume(ks4, job4, Ok(search));
            let (ks6, job6, act6) = killswitch::resume(ks5, job5, Ok(block));
            &&& act1 == ActionView::Run(command::powershell_spec(firewall::ELEVATION_SCRIPT@))
            &&& act2 == ActionView::Run(delete_block_rule())
            &&& act3 == ActionView::Run(delete_allow_rule())
            &&& act4 == ActionView::Run(command::powershell_spec(firewall::FIND_INTERFACE_SCRIPT@))
            &&& act5 == ActionView::Run(add_block_rule())
            &&& match firewall::found_interface(search.stdout) {
                None => {
                    let (ks7, job7, act7) = killswitch::resume(ks6, job6, Ok(dhcp));
                    let (ks8, job8, act8) = killswitch::resume(ks7, job7, Ok(dns));
                    &&& act6 == ActionView::Run(allow_dhcp())
                    &&& act7 == ActionView::Run(allow_dns())
                    &&& succeeded(act8)
                    &&& ks8 == KillSwitchView { enabled: true, ..ks }
                },
                Some(i) => {
                    let (ks7, job7, act7) = killswitch::resume(ks6, job6, Ok(adapter));
                    let (ks8, job8, act8) = killswitch::resume(ks7, job7, Ok(dhcp));
                    let (ks9, job9, act9) = killswitch::resume(ks8, job8, Ok(dns));
                    &&& act6 == ActionView::Run(allow_adapter(i))
                    &&& act7 == ActionView::Run(allow_dhcp())
                    &&& act8 == ActionView::Run(allow_dns())
                    &&& succeeded(act9)
                    &&& ks9 == KillSwitchView { enabled: true, interface: Some(i), ..ks }
                },
            }
        }),
{
    reveal_strlit("name=");
    reveal_strlit("VPNht Kill Switch Block");
    reveal_strlit("name=VPNht Kill Switch Block");
    reveal_strlit("Remove-NetFirewallRule -DisplayName '");
    reveal_strlit("VPNht Kill Switch Allow WireGuard");
    reveal_strlit("' -ErrorAction SilentlyContinue");
    reveal_strlit(
        "Remove-NetFirewallRule -DisplayName 'VPNht Kill Switch Allow WireGuard' -ErrorAction SilentlyContinue",
    );
    reveal_strlit("New-NetFirewallRule -DisplayName '");
    reveal_strlit("' -Direction Outbound -Action Allow -InterfaceAlias '");
    reveal_strlit(
        "New-NetFirewallRule -DisplayName 'VPNht Kill Switch Allow WireGuard' -Direction Outbound -Action Allow -InterfaceAlias '",
    );
    assert(firewall::block_rule_name() =~= "name=VPNht Kill Switch Block"@);
    assert(firewall::remove_allow_script()
        =~= "Remove-NetFirewallRule -DisplayName 'VPNht Kill Switch Allow WireGuard' -ErrorAction SilentlyContinue"@);
    assert(firewall::delete_block_args() =~= delete_block_rule().args);
    assert(command::powershell_args(firewall::remove_allow_script()) =~= delete_allow_rule().args);
    assert(firewall::add_block_args() =~= add_block_rule().args);
    assert forall|i: Seq<char>| #[trigger] firewall::allow_script(i)
        == "New-NetFirewallRule -DisplayName 'VPNht Kill Switch Allow WireGuard' -Direction Outbound -Action Allow -InterfaceAlias '"@
            + i + "' -Enabled True -Profile Any"@ by {
        assert("New-NetFirewallRule -DisplayName '"@ + firewall::FIREWALL_RULE_ALLOW_WG@
            + "' -Direction Outbound -Action Allow -InterfaceAlias '"@
            =~= "New-NetFirewallRule -DisplayName 'VPNht Kill Switch Allow WireGuard' -Direction Outbound -Action Allow -InterfaceAlias '"@);
    }
    let (ks1, job1, act1) = killswitch::begin(ks, Operation::Enable, Platform::Windows);
    let (ks2, job2, act2) = killswitch::resume(ks1, job1, elevation);
    let (ks3, job3, act3) = killswitch::resume(ks2, job2, old_block);
    let (ks4, job4, act4) = killswitch::resume(ks3, job3, old_allow);
    let (ks5, job5, act5) = killswitch::resume(ks4, job4, Ok(search));
    let (ks6, job6, act6) = killswitch::resume(ks5, job5, Ok(block));
    let tail = seq![StepView::AllowDhcp, StepView::AllowDns];
    assert(job1.steps.drop_first() =~= seq![
        StepView::RemoveBlockRule, StepView::RemoveAllowRule, StepView::FindInterface,
        StepView::AddBlockRule,
    ] + tail);
    assert(job2.steps.drop_first() =~= seq![StepView::RemoveAllowRule, StepView::FindInterface, StepView::AddBlockRule] + tail);
    assert(job3.steps.drop_first() =~= seq![StepView::FindInterface, StepView::AddBlockRule] + tail);
    assert(job4.steps.drop_first() =~= seq![StepView::AddBlockRule] + tail);
    assert(job5.steps.drop_first() =~= tail);
    assert(job5.interface == firewall::found_interface(search.stdout));
    match firewall::found_interface(search.stdout) {
        None => {
            assert(job6.steps == tail);
            let (ks7, job7, act7) = killswitch::resume(ks6, job6, Ok(dhcp));
            assert(job6.steps.drop_first() =~= seq![StepView::AllowDns]);
            assert(job7.steps.drop_first() =~= Seq::<StepView>::empty());
        },
        Some(i) => {
            assert(job6.steps == seq![StepView::AllowInterface(i)] + tail);
            assert(job6.steps.drop_first() =~= tail);
            let (ks7, job7, act7) = killswitch::resume(ks6, job6, Ok(adapter));
            let (ks8, job8, act8) = killswitch::resume(ks7, job7, Ok(dhcp));
            assert(job7.steps.drop_first() =~= seq![StepView::AllowDns]);
            assert(job8.steps.drop_first() =~= Seq::<StepView>::empty());
        },
    }
}

} // verus!
