//! The kill switch: which firewall commands each operation runs, in what
//! order, and what the switch records from their results.
//!
//! An operation (enable, disable, VPN disconnect) starts with a call that
//! returns a [`Job`] and the first [`Action`]. While the action is
//! [`Action::Run`], the caller runs the command and hands the result to
//! [`KillSwitch::resume`], which returns the next action. The job ends with
//! [`Action::Finished`], holding the operation's result.

use vstd::prelude::*;
use crate::command::{self, Command, CommandOutput, CommandView, OutputView};
use crate::firewall::{self, Step, StepView};
use crate::text;

verus! {

/// The operating system whose firewall the kill switch drives. On `Other`
/// systems the kill switch only keeps its state.
#[derive(Clone, Copy, Debug)]
pub enum Platform {
    Linux,
    Windows,
    Other,
}

/// What a job does.
#[derive(Clone, Copy, Debug)]
pub enum Operation {
    Enable,
    Disable,
    VpnDisconnect,
}

/// The state of the kill switch: whether it is on, the iptables listing it
/// kept when it was turned on (Linux), and the WireGuard adapter it let
/// through (Windows).
pub struct KillSwitch {
    enabled: bool,
    firewall_rules: Vec<String>,
    wireguard_interface: Option<String>,
}

/// The mathematical value of a [`KillSwitch`].
pub struct KillSwitchView {
    pub enabled: bool,
    pub rules: Seq<Seq<char>>,
    pub interface: Option<Seq<char>>,
}

/// The view of an optional string.
pub open spec fn opt_text(o: Option<String>) -> Option<Seq<char>> {
    match o {
        Some(s) => Some(s@),
        None => None,
    }
}

impl View for KillSwitch {
    type V = KillSwitchView;

    closed spec fn view(&self) -> KillSwitchView {
        KillSwitchView {
            enabled: self.enabled,
            rules: text::views(self.firewall_rules@),
            interface: opt_text(self.wireguard_interface),
        }
    }
}

/// An operation in progress: the steps still to run (the first one's
/// command is the one out), and the WireGuard adapter found so far.
pub struct Job {
    operation: Operation,
    platform: Platform,
    steps: Vec<Step>,
    interface: Option<String>,
}

/// The mathematical value of a [`Job`].
pub struct JobView {
    pub operation: Operation,
    pub platform: Platform,
    pub steps: Seq<StepView>,
    pub interface: Option<Seq<char>>,
}

impl View for Job {
    type V = JobView;

    closed spec fn view(&self) -> JobView {
        JobView {
            operation: self.operation,
            platform: self.platform,
            steps: firewall::steps_view(self.steps@),
            interface: opt_text(self.interface),
        }
    }
}

/// What the caller has to do next: run a command, or take the operation's
/// result.
pub enum Action {
    Run(Command),
    Finished(Result<(), String>),
}

/// The mathematical value of an [`Action`].
pub enum ActionView {
    Run(CommandView),
    Finished(Result<(), Seq<char>>),
}

impl View for Action {
    type V = ActionView;

    open spec fn view(&self) -> ActionView {
        match self {
            Action::Run(c) => ActionView::Run(c@),
            Action::Finished(Ok(())) => ActionView::Finished(Ok(())),
            Action::Finished(Err(e)) => ActionView::Finished(Err(e@)),
        }
    }
}

// ---------------------------------------------------------------------------
// The specification of each transition
// ---------------------------------------------------------------------------

/// The operation has nothing to do: enabling an enabled switch, disabling
/// or reacting to a disconnect with a disabled one.
pub open spec fn settled(ks: KillSwitchView, op: Operation) -> bool {
    match op {
        Operation::Enable => ks.enabled,
        Operation::Disable => !ks.enabled,
        Operation::VpnDisconnect => !ks.enabled,
    }
}

/// The steps that the operation runs on the platform.
pub open spec fn plan(ks: KillSwitchView, op: Operation, platform: Platform) -> Seq<StepView> {
    match (op, platform) {
        (Operation::Enable, Platform::Linux) => seq![StepView::SaveRules],
        (Operation::Enable, Platform::Windows) => seq![
            StepView::CheckElevation,
            StepView::RemoveBlockRule,
            StepView::RemoveAllowRule,
            StepView::FindInterface,
            StepView::AddBlockRule,
            StepView::AllowDhcp,
            StepView::AllowDns,
        ],
        (Operation::Disable, Platform::Linux) => firewall::restore_steps(ks.rules),
        (Operation::Disable, Platform::Windows) => seq![
            StepView::RemoveBlockRule,
            StepView::RemoveAllowRule,
        ],
        (Operation::VpnDisconnect, Platform::Linux) => seq![
            StepView::BlockOutbound,
            StepView::BlockInbound,
        ],
        _ => Seq::empty(),
    }
}

/// The switch once every step of the job has succeeded.
pub open spec fn finish(ks: KillSwitchView, job: JobView) -> KillSwitchView {
    match job.operation {
        Operation::Enable => KillSwitchView { enabled: true, ..ks },
        Operation::Disable => KillSwitchView {
            enabled: false,
            rules: if job.platform is Linux {
                Seq::empty()
            } else {
                ks.rules
            },
            ..ks
        },
        Operation::VpnDisconnect => ks,
    }
}

/// Moving on to the job's next step: run its command (letting a WireGuard
/// adapter through records it first), or finish when none is left.
pub open spec fn advance(ks: KillSwitchView, job: JobView) -> (KillSwitchView, JobView, ActionView) {
    if job.steps.len() == 0 {
        (finish(ks, job), job, ActionView::Finished(Ok(())))
    } else {
        let ks2 = match job.steps[0] {
            StepView::AllowInterface(i) => KillSwitchView { interface: Some(i), ..ks },
            _ => ks,
        };
        (ks2, job, ActionView::Run(firewall::step_command(job.steps[0])))
    }
}

/// Starting operation `op`.
pub open spec fn begin(ks: KillSwitchView, op: Operation, platform: Platform) -> (
    KillSwitchView,
    JobView,
    ActionView,
) {
    if settled(ks, op) {
        (
            ks,
            JobView { operation: op, platform, steps: Seq::empty(), interface: None },
            ActionView::Finished(Ok(())),
        )
    } else {
        advance(ks, JobView { operation: op, platform, steps: plan(ks, op, platform), interface: None })
    }
}

/// What the result of the first step's command does: the operation fails
/// with a message, or the switch and the job move on.
pub open spec fn react(ks: KillSwitchView, job: JobView, outcome: Result<OutputView, Seq<char>>) -> Result<
    (KillSwitchView, JobView),
    Seq<char>,
> {
    let rest = job.steps.drop_first();
    let next = JobView { steps: rest, ..job };
    match job.steps[0] {
        StepView::CheckElevation => Ok((ks, next)),
        StepView::RemoveBlockRule => Ok((ks, next)),
        StepView::RemoveAllowRule => Ok((ks, next)),
        StepView::FindInterface => match outcome {
            Err(e) => Err(e),
            Ok(out) => Ok((ks, JobView { interface: firewall::found_interface(out.stdout), ..next })),
        },
        StepView::AddBlockRule => match outcome {
            Err(e) => Err(e),
            Ok(out) => if !out.success {
                Err(firewall::block_rule_failure(out.stderr))
            } else {
                let steps = match job.interface {
                    Some(i) => seq![StepView::AllowInterface(i)] + rest,
                    None => rest,
                };
                Ok((ks, JobView { steps, ..next }))
            },
        },
        StepView::SaveRules => match outcome {
            Err(e) => Err(e),
            Ok(out) => Ok(
                (KillSwitchView { rules: text::lines(text::lossy_utf8(out.stdout)), ..ks }, next),
            ),
        },
        _ => match outcome {
            Err(e) => Err(e),
            Ok(_) => Ok((ks, next)),
        },
    }
}

/// Taking the result of the first step's command: on failure the job ends
/// with the message and the switch as it is; else the job moves on.
pub open spec fn resume(ks: KillSwitchView, job: JobView, outcome: Result<OutputView, Seq<char>>) -> (
    KillSwitchView,
    JobView,
    ActionView,
) {
    match react(ks, job, outcome) {
        Err(e) => (ks, JobView { steps: Seq::empty(), ..job }, ActionView::Finished(Err(e))),
        Ok((ks2, job2)) => advance(ks2, job2),
    }
}

// ---------------------------------------------------------------------------
// The kill switch
// ---------------------------------------------------------------------------

impl Job {
    /// Whether a command of the job is still out.
    pub fn is_pending(&self) -> (r: bool)
        ensures
            r == (self@.steps.len() > 0),
    {
        self.steps.len() > 0
    }

    /// The operation that the job carries out.
    pub fn operation(&self) -> (r: Operation)
        ensures
            r == self@.operation,
    {
        self.operation
    }
}

impl KillSwitch {
    /// A disabled kill switch that has kept nothing.
    pub fn new() -> (r: Self)
        ensures
            r@ == (KillSwitchView { enabled: false, rules: Seq::empty(), interface: None }),
    {
        let r = KillSwitch { enabled: false, firewall_rules: Vec::new(), wireguard_interface: None };
        assert(r@.rules =~= Seq::<Seq<char>>::empty());
        r
    }

    /// Whether the kill switch is on.
    pub fn is_enabled(&self) -> (r: bool)
        ensures
            r == self@.enabled,
    {
        self.enabled
    }

    /// The iptables listing kept when the switch was turned on.
    pub fn firewall_rules(&self) -> (r: &Vec<String>)
        ensures
            text::views(r@) == self@.rules,
    {
        &self.firewall_rules
    }

    /// The WireGuard adapter that the switch let through.
    pub fn wireguard_interface(&self) -> (r: Option<String>)
        ensures
            opt_text(r) == self@.interface,
    {
        match &self.wireguard_interface {
            Some(i) => Some(i.clone()),
            None => None,
        }
    }

    /// Records that every step of `job` succeeded.
    fn finish(&mut self, job: &Job)
        ensures
            final(self)@ == finish(old(self)@, job@),
    {
        match job.operation {
            Operation::Enable => {
                self.enabled = true;
            },
            Operation::Disable => {
                self.enabled = false;
                if let Platform::Linux = job.platform {
                    self.firewall_rules = Vec::new();
                    assert(self@.rules =~= Seq::<Seq<char>>::empty());
                }
            },
            Operation::VpnDisconnect => {},
        }
    }

    /// Moves on to the next step of `job`.
    fn advance(&mut self, job: &Job) -> (r: Action)
        ensures
            (final(self)@, job@, r@) == advance(old(self)@, job@),
    {
        if job.steps.len() == 0 {
            self.finish(job);
            Action::Finished(Ok(()))
        } else {
            let step = &job.steps[0];
            assert(job@.steps[0] == job.steps@[0]@);
            if let Step::AllowInterface(i) = step {
                self.wireguard_interface = Some(i.clone());
            }
            Action::Run(firewall::command_for(step))
        }
    }

    /// Starts operation `op`.
    fn begin(&mut self, op: Operation, platform: Platform) -> (r: (Job, Action))
        ensures
            (final(self)@, r.0@, r.1@) == begin(old(self)@, op, platform),
    {
        let done = match op {
            Operation::Enable => self.enabled,
            Operation::Disable => !self.enabled,
            Operation::VpnDisconnect => !self.enabled,
        };
        if done {
            let job = Job { operation: op, platform, steps: Vec::new(), interface: None };
            assert(job@.steps =~= Seq::<StepView>::empty());
            return (job, Action::Finished(Ok(())));
        }
        let steps = self.plan(op, platform);
        let job = Job { operation: op, platform, steps, interface: None };
        let action = self.advance(&job);
        (job, action)
    }

    /// The steps of operation `op` on the platform.
    fn plan(&self, op: Operation, platform: Platform) -> (r: Vec<Step>)
        ensures
            firewall::steps_view(r@) == plan(self@, op, platform),
    {
        let mut r: Vec<Step> = Vec::new();
        match (op, platform) {
            (Operation::Enable, Platform::Linux) => {
                r.push(Step::SaveRules);
            },
            (Operation::Enable, Platform::Windows) => {
                r.push(Step::CheckElevation);
                r.push(Step::RemoveBlockRule);
                r.push(Step::RemoveAllowRule);
                r.push(Step::FindInterface);
                r.push(Step::AddBlockRule);
                r.push(Step::AllowDhcp);
                r.push(Step::AllowDns);
            },
            (Operation::Disable, Platform::Linux) => {
                r = firewall::restore_plan(&self.firewall_rules);
            },
            (Operation::Disable, Platform::Windows) => {
                r.push(Step::RemoveBlockRule);
                r.push(Step::RemoveAllowRule);
            },
            (Operation::VpnDisconnect, Platform::Linux) => {
                r.push(Step::BlockOutbound);
                r.push(Step::BlockInbound);
            },
            _ => {},
        }
        assert(firewall::steps_view(r@) =~= plan(self@, op, platform));
        r
    }

    /// Turns the kill switch on: nothing to do if it is on; else, on Linux,
    /// keep the current iptables listing; on Windows, clear old rules, find
    /// the WireGuard adapter, block all outbound traffic, let the adapter,
    /// DHCP and DNS through. The switch is on once every step succeeded.
    pub fn enable(&mut self, platform: Platform) -> (r: (Job, Action))
        ensures
            (final(self)@, r.0@, r.1@) == begin(old(self)@, Operation::Enable, platform),
    {
        self.begin(Operation::Enable, platform)
    }

    /// Turns the kill switch off: nothing to do if it is off; else, on
    /// Linux, run iptables with each kept listing line that carries the
    /// kill switch marker, and forget the listing; on Windows, remove the
    /// two rules. The switch is off once every step succeeded.
    pub fn disable(&mut self, platform: Platform) -> (r: (Job, Action))
        ensures
            (final(self)@, r.0@, r.1@) == begin(old(self)@, Operation::Disable, platform),
    {
        self.begin(Operation::Disable, platform)
    }

    /// Reacts to the VPN going down: nothing to do if the switch is off;
    /// else, on Linux, drop all traffic not marked as VPN traffic.
    pub fn on_vpn_disconnect(&self, platform: Platform) -> (r: (Job, Action))
        ensures
            begin(self@, Operation::VpnDisconnect, platform) == (self@, r.0@, r.1@),
    {
        let mut steps: Vec<Step> = Vec::new();
        if self.enabled {
            if let Platform::Linux = platform {
                steps.push(Step::BlockOutbound);
                steps.push(Step::BlockInbound);
            }
        }
        let job = Job { operation: Operation::VpnDisconnect, platform, steps, interface: None };
        assert(job@.steps =~= (if self@.enabled { plan(self@, Operation::VpnDisconnect, platform) } else { Seq::empty() }));
        if job.steps.len() == 0 {
            (job, Action::Finished(Ok(())))
        } else {
            let action = Action::Run(firewall::command_for(&job.steps[0]));
            assert(job@.steps[0] == job.steps@[0]@);
            (job, action)
        }
    }

    /// Hands the result of the job's outstanding command to the switch, and
    /// returns what to do next.
    pub fn resume(&mut self, job: &mut Job, outcome: Result<CommandOutput, String>) -> (r: Action)
        requires
            old(job)@.steps.len() > 0,
        ensures
            (final(self)@, final(job)@, r@) == resume(old(self)@, old(job)@, command::outcome_view(outcome)),
    {
        let ghost before = job@;
        let step = job.steps.remove(0);
        assert(job@.steps =~= before.steps.drop_first());
        assert(step@ == before.steps[0]);
        let failure: Option<String> = match step {
            Step::FindInterface => match outcome {
                Err(e) => Some(e),
                Ok(out) => {
                    job.interface = firewall::interface_from_output(&out.stdout);
                    None
                },
            },
            Step::AddBlockRule => match outcome {
                Err(e) => Some(e),
                Ok(out) => {
                    if !out.success {
                        Some(firewall::block_rule_failure_message(&out.stderr))
                    } else {
                        if let Some(i) = &job.interface {
                            let ghost rest = job@.steps;
                            job.steps.insert(0, Step::AllowInterface(i.clone()));
                            assert(job@.steps =~= seq![StepView::AllowInterface(i@)] + rest);
                        }
                        None
                    }
                },
            },
            Step::SaveRules => match outcome {
                Err(e) => Some(e),
                Ok(out) => {
                    let listing = text::decode_lossy(out.stdout.as_slice());
                    self.firewall_rules = text::split_lines(listing.as_str());
                    None
                },
            },
            Step::CheckElevation => None,
            Step::RemoveBlockRule => None,
            Step::RemoveAllowRule => None,
            _ => match outcome {
                Err(e) => Some(e),
                Ok(_) => None,
            },
        };
        match failure {
            Some(e) => {
                job.steps = Vec::new();
                assert(job@.steps =~= Seq::<StepView>::empty());
                Action::Finished(Err(e))
            },
            None => self.advance(job),
        }
    }

    /// The commands to run when the switch goes away: on Windows, an
    /// enabled switch removes its two firewall rules; otherwise none.
    pub fn shutdown_commands(&self, platform: Platform) -> (r: Vec<Command>)
        ensures
            text_commands(r@) == shutdown_spec(self@, platform),
    {
        let mut r: Vec<Command> = Vec::new();
        if self.enabled {
            if let Platform::Windows = platform {
                r.push(firewall::command_for(&Step::RemoveBlockRule));
                r.push(firewall::command_for(&Step::RemoveAllowRule));
            }
        }
        assert(text_commands(r@) =~= shutdown_spec(self@, platform));
        r
    }
}

/// The views of a list of commands.
pub open spec fn text_commands(v: Seq<Command>) -> Seq<CommandView> {
    v.map_values(|c: Command| c@)
}

/// The commands that tear the switch down when it goes away.
pub open spec fn shutdown_spec(ks: KillSwitchView, platform: Platform) -> Seq<CommandView> {
    if ks.enabled && platform is Windows {
        seq![
            firewall::step_command(StepView::RemoveBlockRule),
            firewall::step_command(StepView::RemoveAllowRule),
        ]
    } else {
        Seq::empty()
    }
}

} // verus!
