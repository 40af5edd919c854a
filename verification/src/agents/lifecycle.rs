//! The cycle of one agent as a state machine.
//!
//! A cycle runs `Idle -> Deciding -> Executing -> Verifying -> Idle`, and
//! `Faulted` is where an agent stays once it has failed too often. What only
//! the outside can do (fetch a market snapshot, submit a trade or a
//! withdrawal) is not done here: [`AgentSlot::step`] takes what happened
//! outside as an event and answers with the next state and with a command for
//! the caller to carry out. An agent rests in `Deciding` while its snapshot is
//! fetched and in `Executing` while its instruction is with the actuator. It
//! never rests in `Verifying`: the step that applies an action checks the
//! invariant before it returns, so nothing can come between the two.

use vstd::prelude::*;
use crate::agents::ml_agent::{
    rebalancer_decision, risk_manager_action, snapshot_well_formed, unscored, DecisionView,
    MLDecision, MarketAnalyzerAgent, MarketData, RebalancerAgent, RiskManagerAgent,
    StrategyOptimizerAgent,
};
use crate::agents::{
    applied, instruction_of, invariant_verdict, ActionView, Agent, AgentAction, AgentState,
    AutonomousAgent, Instruction, InstructionView,
};
use crate::error::{AgentError, FeedFailure, ManusError};

verus! {

/// Where an agent stands in its cycle.
#[derive(Debug, Clone, Copy, PartialEq, Eq, Structural)]
pub enum Phase {
    /// Between cycles.
    Idle,
    /// Waiting for the market snapshot to decide on.
    Deciding,
    /// Waiting for the actuator to answer.
    Executing,
    /// Checking the invariant on the state that the action left.
    Verifying,
    /// Out of service until an operator resumes the agent.
    Faulted,
}

/// The role of an agent with its settings, in millionths.
pub enum Role {
    Autonomous,
    Rebalancer { min_confidence: int },
    StrategyOptimizer,
    RiskManager { max_drawdown: int },
    MarketAnalyzer,
}

/// An agent of any role.
#[derive(Debug)]
pub enum AgentKind {
    Autonomous(AutonomousAgent),
    Rebalancer(RebalancerAgent),
    StrategyOptimizer(StrategyOptimizerAgent),
    RiskManager(RiskManagerAgent),
    MarketAnalyzer(MarketAnalyzerAgent),
}

/// What the policy of a role decides on a snapshot. Only the rebalancer reads
/// the snapshot, and it refuses one that is not well-formed; the risk manager
/// goes by its own drawdown; the other roles hold.
pub open spec fn decision_of(role: Role, state: AgentState, data: MarketData) -> Result<
    DecisionView,
    AgentError,
> {
    match role {
        Role::Rebalancer { min_confidence } => {
            if snapshot_well_formed(data) {
                Ok(rebalancer_decision(data, min_confidence, state.risk_tolerance@))
            } else {
                Err(AgentError::Decision)
            }
        },
        Role::RiskManager { max_drawdown } => Ok(
            unscored(
                risk_manager_action(
                    state.capital as int,
                    state.initial_capital as int,
                    max_drawdown,
                ),
            ),
        ),
        _ => Ok(unscored(ActionView::Hold)),
    }
}

/// A decision, or the failure to reach one, as a mathematical value.
pub open spec fn decided_view(r: Result<MLDecision, AgentError>) -> Result<
    DecisionView,
    AgentError,
> {
    match r {
        Ok(d) => Ok(d@),
        Err(e) => Err(e),
    }
}

impl AgentKind {
    /// The role of this agent.
    pub open spec fn role(&self) -> Role {
        match *self {
            AgentKind::Autonomous(_) => Role::Autonomous,
            AgentKind::Rebalancer(a) => Role::Rebalancer {
                min_confidence: a.spec_min_confidence(),
            },
            AgentKind::StrategyOptimizer(_) => Role::StrategyOptimizer,
            AgentKind::RiskManager(a) => Role::RiskManager { max_drawdown: a.spec_max_drawdown() },
            AgentKind::MarketAnalyzer(_) => Role::MarketAnalyzer,
        }
    }

    /// The state that this agent owns.
    pub open spec fn spec_state(&self) -> AgentState {
        match *self {
            AgentKind::Autonomous(a) => a.spec_state(),
            AgentKind::Rebalancer(a) => a.spec_state(),
            AgentKind::StrategyOptimizer(a) => a.spec_state(),
            AgentKind::RiskManager(a) => a.spec_state(),
            AgentKind::MarketAnalyzer(a) => a.spec_state(),
        }
    }

    /// Get agent ID.
    pub fn id(&self) -> (id: &str)
        ensures
            id@ == self.spec_state().id@,
    {
        match self {
            AgentKind::Autonomous(a) => a.id(),
            AgentKind::Rebalancer(a) => a.id(),
            AgentKind::StrategyOptimizer(a) => a.id(),
            AgentKind::RiskManager(a) => a.id(),
            AgentKind::MarketAnalyzer(a) => a.id(),
        }
    }

    /// Get current state.
    pub fn state(&self) -> (state: &AgentState)
        ensures
            *state == self.spec_state(),
    {
        match self {
            AgentKind::Autonomous(a) => a.state(),
            AgentKind::Rebalancer(a) => a.state(),
            AgentKind::StrategyOptimizer(a) => a.state(),
            AgentKind::RiskManager(a) => a.state(),
            AgentKind::MarketAnalyzer(a) => a.state(),
        }
    }

    /// Decide on a snapshot, by the policy of the role.
    pub fn decide_on(&self, data: &MarketData) -> (r: Result<MLDecision, AgentError>)
        ensures
            decided_view(r) == decision_of(self.role(), self.spec_state(), *data),
    {
        match self {
            AgentKind::Rebalancer(a) => match a.analyze(data) {
                Ok(d) => Ok(d),
                Err(ManusError::Agent(e)) => Err(e),
                Err(_) => Err(AgentError::Decision),
            },
            AgentKind::RiskManager(a) => match a.decide_on(data) {
                Ok(d) => Ok(d),
                Err(_) => Err(AgentError::Decision),
            },
            _ => Ok(MLDecision::unscored(AgentAction::Hold)),
        }
    }

    /// Execute an action: apply it to the state, then check the invariant.
    /// The role and its settings stay as they are.
    pub fn execute(&mut self, action: AgentAction) -> (r: Result<(), AgentError>)
        ensures
            final(self).role() == old(self).role(),
            final(self).spec_state() == applied(old(self).spec_state(), action@),
            r == invariant_verdict(final(self).spec_state()),
    {
        let outcome = match self {
            AgentKind::Autonomous(a) => a.execute(action),
            AgentKind::Rebalancer(a) => a.execute(action),
            AgentKind::StrategyOptimizer(a) => a.execute(action),
            AgentKind::RiskManager(a) => a.execute(action),
            AgentKind::MarketAnalyzer(a) => a.execute(action),
        };
        match outcome {
            Ok(()) => Ok(()),
            Err(ManusError::Agent(e)) => Err(e),
            Err(_) => Err(AgentError::Execution),
        }
    }
}

/// When an agent is taken out of service.
#[derive(Debug, Clone, Copy, PartialEq, Eq, Structural)]
pub struct FaultPolicy {
    /// How many failing cycles in a row take an agent out of service.
    pub max_consecutive_failures: u32,
    /// Whether one invariant violation does so at once.
    pub violation_is_fatal: bool,
    /// Whether a cycle without a snapshot counts as failing.
    pub count_feed_failures: bool,
}

/// How many failing cycles in a row an agent is allowed, unless told
/// otherwise.
pub const DEFAULT_MAX_CONSECUTIVE_FAILURES: u32 = 3;

impl Default for FaultPolicy {
    /// Three failing cycles in a row, or one invariant violation; a missing
    /// snapshot does not count.
    fn default() -> (policy: Self)
        ensures
            policy.max_consecutive_failures == DEFAULT_MAX_CONSECUTIVE_FAILURES,
            policy.violation_is_fatal,
            !policy.count_feed_failures,
    {
        FaultPolicy {
            max_consecutive_failures: DEFAULT_MAX_CONSECUTIVE_FAILURES,
            violation_is_fatal: true,
            count_feed_failures: false,
        }
    }
}

/// What happened outside since the last step.
#[derive(Debug, Clone, PartialEq, Eq)]
pub enum CycleEvent {
    /// The tick driver starts a cycle.
    Begin,
    /// The market data provider answered.
    Snapshot(MarketData),
    /// The market data provider failed or timed out.
    FeedFailed(FeedFailure),
    /// The actuator accepted the instruction.
    ActuatorConfirmed,
    /// The actuator rejected the instruction.
    ActuatorRejected,
    /// The cycle ran past its deadline and is cancelled.
    DeadlineExceeded,
}

/// What the caller is to do next for the agent.
#[derive(Debug, Clone, PartialEq, Eq)]
pub enum Command {
    /// Nothing: the agent is at rest.
    Nothing,
    /// Fetch a market snapshot and hand it in.
    FetchSnapshot,
    /// Hand the instruction to its actuator and hand in the answer.
    Submit(Instruction),
}

/// A command as a mathematical value.
pub enum CommandView {
    Nothing,
    FetchSnapshot,
    Submit(InstructionView),
}

impl View for Command {
    type V = CommandView;

    open spec fn view(&self) -> CommandView {
        match *self {
            Command::Nothing => CommandView::Nothing,
            Command::FetchSnapshot => CommandView::FetchSnapshot,
            Command::Submit(instruction) => CommandView::Submit(instruction@),
        }
    }
}

/// What one step did.
#[derive(Debug, Clone, PartialEq, Eq)]
pub struct CycleReport {
    /// Whether the event was taken; an event that does not fit the agent's
    /// phase is not, and changes nothing.
    pub handled: bool,
    /// What the caller is to do next.
    pub command: Command,
    /// The decision reached in this step.
    pub decision: Option<MLDecision>,
    /// The failure of the feed, of the decision or of the execution.
    pub failure: Option<AgentError>,
    /// The invariant violation found in this step.
    pub violation: Option<AgentError>,
}

/// A report as a mathematical value.
pub struct ReportView {
    pub handled: bool,
    pub command: CommandView,
    pub decision: Option<DecisionView>,
    pub failure: Option<AgentError>,
    pub violation: Option<AgentError>,
}

impl View for CycleReport {
    type V = ReportView;

    open spec fn view(&self) -> ReportView {
        ReportView {
            handled: self.handled,
            command: self.command@,
            decision: match self.decision {
                Some(d) => Some(d@),
                None => None,
            },
            failure: self.failure,
            violation: self.violation,
        }
    }
}

/// An agent under supervision: the agent, where it stands in its cycle, and
/// its record of failures.
#[derive(Debug)]
pub struct AgentSlot {
    agent: AgentKind,
    phase: Phase,
    pending: Option<AgentAction>,
    failures: u32,
    paused: bool,
}

/// A supervised agent as a mathematical value.
pub struct SlotView {
    pub role: Role,
    pub state: AgentState,
    pub phase: Phase,
    /// The decided action that is with the actuator.
    pub pending: Option<ActionView>,
    /// How many cycles in a row have failed.
    pub failures: u32,
    pub paused: bool,
}

/// A slot after a step, and the report of the step.
pub struct StepView {
    pub slot: SlotView,
    pub report: ReportView,
}

/// One more failure, as far as the counter goes.
pub open spec fn bump(failures: u32) -> u32 {
    if failures < u32::MAX {
        (failures + 1) as u32
    } else {
        failures
    }
}

/// The report of a step that did nothing.
pub open spec fn silent(handled: bool) -> ReportView {
    ReportView {
        handled,
        command: CommandView::Nothing,
        decision: None,
        failure: None,
        violation: None,
    }
}

/// An event that does not fit the phase: nothing changes.
pub open spec fn ignored(pre: SlotView) -> StepView {
    StepView { slot: pre, report: silent(false) }
}

/// A cycle that ends without an action applied: the state stays as it is and
/// the invariant is not checked. The failure counts.
pub open spec fn failed(pre: SlotView, failure: AgentError, policy: FaultPolicy) -> StepView {
    StepView {
        slot: SlotView {
            phase: if bump(pre.failures) >= policy.max_consecutive_failures {
                Phase::Faulted
            } else {
                Phase::Idle
            },
            pending: None,
            failures: bump(pre.failures),
            ..pre
        },
        report: ReportView { failure: Some(failure), ..silent(true) },
    }
}

/// A cycle that ends with an action applied and the invariant checked on what
/// results. The cycle fails where the decision had failed or the invariant is
/// violated; a cycle that does not fail clears the record of failures.
pub open spec fn settled(
    pre: SlotView,
    action: ActionView,
    decision: Option<DecisionView>,
    failure: Option<AgentError>,
    policy: FaultPolicy,
) -> StepView {
    let state = applied(pre.state, action);
    let verdict = invariant_verdict(state);
    let failing = failure is Some || verdict is Err;
    let failures = if failing {
        bump(pre.failures)
    } else {
        0
    };
    StepView {
        slot: SlotView {
            state,
            phase: if verdict is Err && policy.violation_is_fatal {
                Phase::Faulted
            } else if failing && failures >= policy.max_consecutive_failures {
                Phase::Faulted
            } else {
                Phase::Idle
            },
            pending: None,
            failures,
            ..pre
        },
        report: ReportView {
            decision,
            failure,
            violation: match verdict {
                Ok(_) => None,
                Err(e) => Some(e),
            },
            ..silent(true)
        },
    }
}

/// A cycle without a snapshot: nothing is decided and the state stays as it
/// is. The failure counts only where the policy says so.
pub open spec fn unfed(pre: SlotView, failure: FeedFailure, policy: FaultPolicy) -> StepView {
    if policy.count_feed_failures {
        failed(pre, AgentError::DataFeed(failure), policy)
    } else {
        StepView {
            slot: SlotView { phase: Phase::Idle, pending: None, ..pre },
            report: ReportView { failure: Some(AgentError::DataFeed(failure)), ..silent(true) },
        }
    }
}

/// A snapshot has come: the policy decides. An action for an actuator waits
/// for its answer; any other is applied at once. A decision that cannot be
/// reached falls back to holding.
pub open spec fn decided(pre: SlotView, data: MarketData, policy: FaultPolicy) -> StepView {
    match decision_of(pre.role, pre.state, data) {
        Ok(d) => {
            if instruction_of(d.action) is Nothing {
                settled(pre, d.action, Some(d), None, policy)
            } else {
                StepView {
                    slot: SlotView { phase: Phase::Executing, pending: Some(d.action), ..pre },
                    report: ReportView {
                        command: CommandView::Submit(instruction_of(d.action)),
                        decision: Some(d),
                        ..silent(true)
                    },
                }
            }
        },
        Err(e) => settled(pre, ActionView::Hold, None, Some(e), policy),
    }
}

/// The transition function of the cycle: the slot after the event, and the
/// report.
pub open spec fn step_spec(pre: SlotView, event: CycleEvent, policy: FaultPolicy) -> StepView {
    match event {
        CycleEvent::Begin => {
            if pre.phase == Phase::Idle && !pre.paused {
                StepView {
                    slot: SlotView { phase: Phase::Deciding, ..pre },
                    report: ReportView { command: CommandView::FetchSnapshot, ..silent(true) },
                }
            } else {
                ignored(pre)
            }
        },
        CycleEvent::Snapshot(data) => {
            if pre.phase == Phase::Deciding {
                decided(pre, data, policy)
            } else {
                ignored(pre)
            }
        },
        CycleEvent::FeedFailed(failure) => {
            if pre.phase == Phase::Deciding {
                unfed(pre, failure, policy)
            } else {
                ignored(pre)
            }
        },
        CycleEvent::ActuatorConfirmed => {
            if pre.phase == Phase::Executing && pre.pending is Some {
                settled(pre, pre.pending->0, None, None, policy)
            } else {
                ignored(pre)
            }
        },
        CycleEvent::ActuatorRejected => {
            if pre.phase == Phase::Executing {
                failed(pre, AgentError::Execution, policy)
            } else {
                ignored(pre)
            }
        },
        CycleEvent::DeadlineExceeded => {
            if pre.phase == Phase::Deciding {
                failed(pre, AgentError::Decision, policy)
            } else if pre.phase == Phase::Executing {
                failed(pre, AgentError::Execution, policy)
            } else {
                ignored(pre)
            }
        },
    }
}

impl View for AgentSlot {
    type V = SlotView;

    closed spec fn view(&self) -> SlotView {
        SlotView {
            role: self.agent.role(),
            state: self.agent.spec_state(),
            phase: self.phase,
            pending: match self.pending {
                Some(action) => Some(action@),
                None => None,
            },
            failures: self.failures,
            paused: self.paused,
        }
    }
}

impl AgentSlot {
    /// Takes an agent under supervision: idle, with no failure on record.
    pub fn new(agent: AgentKind) -> (slot: Self)
        ensures
            slot@ == (SlotView {
                role: agent.role(),
                state: agent.spec_state(),
                phase: Phase::Idle,
                pending: None,
                failures: 0,
                paused: false,
            }),
    {
        AgentSlot { agent, phase: Phase::Idle, pending: None, failures: 0, paused: false }
    }

    /// Releases the agent from supervision.
    pub fn into_agent(self) -> (agent: AgentKind)
        ensures
            agent.role() == self@.role,
            agent.spec_state() == self@.state,
    {
        self.agent
    }

    /// Get agent ID.
    pub fn id(&self) -> (id: &str)
        ensures
            id@ == self@.state.id@,
    {
        self.agent.id()
    }

    /// Get current state.
    pub fn state(&self) -> (state: &AgentState)
        ensures
            *state == self@.state,
    {
        self.agent.state()
    }

    /// Where the agent stands in its cycle.
    pub fn phase(&self) -> (phase: Phase)
        ensures
            phase == self@.phase,
    {
        self.phase
    }

    /// How many cycles in a row have failed.
    pub fn consecutive_failures(&self) -> (failures: u32)
        ensures
            failures == self@.failures,
    {
        self.failures
    }

    /// Whether the agent is kept out of the ticks.
    pub fn is_paused(&self) -> (paused: bool)
        ensures
            paused == self@.paused,
    {
        self.paused
    }

    /// Keeps the agent out of the ticks to come. A cycle under way goes on.
    pub fn pause(&mut self)
        ensures
            final(self)@ == (SlotView { paused: true, ..old(self)@ }),
    {
        self.paused = true;
    }

    /// Lets the agent into the ticks again. A faulted agent goes back to idle
    /// with its record of failures cleared.
    pub fn resume(&mut self)
        ensures
            final(self)@ == resumed(old(self)@),
    {
        self.paused = false;
        if self.phase == Phase::Faulted {
            self.phase = Phase::Idle;
            self.failures = 0;
        }
    }

    /// One more failure on record; the phase that the agent rests in after it.
    fn record_failure(&mut self, policy: &FaultPolicy)
        ensures
            final(self).agent == old(self).agent,
            final(self).paused == old(self).paused,
            final(self).pending == old(self).pending,
            final(self).failures == bump(old(self).failures),
            final(self).phase == if bump(old(self).failures) >= policy.max_consecutive_failures {
                Phase::Faulted
            } else {
                Phase::Idle
            },
    {
        if self.failures < u32::MAX {
            self.failures = self.failures + 1;
        }
        if self.failures >= policy.max_consecutive_failures {
            self.phase = Phase::Faulted;
        } else {
            self.phase = Phase::Idle;
        }
    }

    /// Ends a cycle without an action applied.
    fn fail(&mut self, failure: AgentError, policy: &FaultPolicy) -> (report: CycleReport)
        ensures
            final(self)@ == failed(old(self)@, failure, *policy).slot,
            report@ == failed(old(self)@, failure, *policy).report,
    {
        self.pending = None;
        self.record_failure(policy);
        CycleReport {
            handled: true,
            command: Command::Nothing,
            decision: None,
            failure: Some(failure),
            violation: None,
        }
    }

    /// Ends a cycle with an action applied and the invariant checked.
    fn settle(
        &mut self,
        action: AgentAction,
        decision: Option<MLDecision>,
        failure: Option<AgentError>,
        policy: &FaultPolicy,
    ) -> (report: CycleReport)
        ensures
            final(self)@ == settled(
                old(self)@,
                action@,
                match decision {
                    Some(d) => Some(d@),
                    None => None,
                },
                failure,
                *policy,
            ).slot,
            report@ == settled(
                old(self)@,
                action@,
                match decision {
                    Some(d) => Some(d@),
                    None => None,
                },
                failure,
                *policy,
            ).report,
    {
        self.pending = None;
        self.phase = Phase::Verifying;
        let verdict = self.agent.execute(action);
        let violated = verdict.is_err();
        if failure.is_some() || violated {
            self.record_failure(policy);
        } else {
            self.failures = 0;
            self.phase = Phase::Idle;
        }
        if violated && policy.violation_is_fatal {
            self.phase = Phase::Faulted;
        }
        CycleReport {
            handled: true,
            command: Command::Nothing,
            decision,
            failure,
            violation: match verdict {
                Ok(_) => None,
                Err(e) => Some(e),
            },
        }
    }

    /// A report that nothing was done.
    fn pass() -> (report: CycleReport)
        ensures
            report@ == silent(false),
    {
        CycleReport {
            handled: false,
            command: Command::Nothing,
            decision: None,
            failure: None,
            violation: None,
        }
    }

    /// Takes one event: moves the agent on in its cycle and says what the
    /// caller is to do next. An event that does not fit the phase is not
    /// taken; a faulted agent takes none.
    pub fn step(&mut self, event: CycleEvent, policy: &FaultPolicy) -> (report: CycleReport)
        ensures
            final(self)@ == step_spec(old(self)@, event, *policy).slot,
            report@ == step_spec(old(self)@, event, *policy).report,
    {
        match event {
            CycleEvent::Begin => {
                if self.phase == Phase::Idle && !self.paused {
                    self.phase = Phase::Deciding;
                    CycleReport {
                        handled: true,
                        command: Command::FetchSnapshot,
                        decision: None,
                        failure: None,
                        violation: None,
                    }
                } else {
                    Self::pass()
                }
            },
            CycleEvent::Snapshot(data) => {
                if self.phase == Phase::Deciding {
                    match self.agent.decide_on(&data) {
                        Ok(d) => {
                            let instruction = d.action.instruction();
                            match instruction {
                                Instruction::Nothing => {
                                    let action = crate::agents::copy_action(&d.action);
                                    self.settle(action, Some(d), None, policy)
                                },
                                _ => {
                                    self.phase = Phase::Executing;
                                    self.pending = Some(crate::agents::copy_action(&d.action));
                                    CycleReport {
                                        handled: true,
                                        command: Command::Submit(instruction),
                                        decision: Some(d),
                                        failure: None,
                                        violation: None,
                                    }
                                },
                            }
                        },
                        Err(e) => self.settle(AgentAction::Hold, None, Some(e), policy),
                    }
                } else {
                    Self::pass()
                }
            },
            CycleEvent::FeedFailed(failure) => {
                if self.phase == Phase::Deciding {
                    if policy.count_feed_failures {
                        self.fail(AgentError::DataFeed(failure), policy)
                    } else {
                        self.phase = Phase::Idle;
                        self.pending = None;
                        CycleReport {
                            handled: true,
                            command: Command::Nothing,
                            decision: None,
                            failure: Some(AgentError::DataFeed(failure)),
                            violation: None,
                        }
                    }
                } else {
                    Self::pass()
                }
            },
            CycleEvent::ActuatorConfirmed => {
                if self.phase == Phase::Executing {
                    match self.pending.take() {
                        Some(action) => self.settle(action, None, None, policy),
                        None => Self::pass(),
                    }
                } else {
                    Self::pass()
                }
            },
            CycleEvent::ActuatorRejected => {
                if self.phase == Phase::Executing {
                    self.fail(AgentError::Execution, policy)
                } else {
                    Self::pass()
                }
            },
            CycleEvent::DeadlineExceeded => {
                if self.phase == Phase::Deciding {
                    self.fail(AgentError::Decision, policy)
                } else if self.phase == Phase::Executing {
                    self.fail(AgentError::Execution, policy)
                } else {
                    Self::pass()
                }
            },
        }
    }
}

/// The slot after an operator resumes it.
pub open spec fn resumed(pre: SlotView) -> SlotView {
    if pre.phase == Phase::Faulted {
        SlotView { paused: false, phase: Phase::Idle, failures: 0, ..pre }
    } else {
        SlotView { paused: false, ..pre }
    }
}

/// A faulted agent takes no event: whatever comes, it stays as it is, nothing
/// is decided, and nothing is handed to the outside.
pub proof fn lemma_faulted_takes_no_event(pre: SlotView, event: CycleEvent, policy: FaultPolicy)
    requires
        pre.phase == Phase::Faulted,
    ensures
        step_spec(pre, event, policy) == ignored(pre),
{
}

/// A paused agent starts no cycle.
pub proof fn lemma_paused_starts_no_cycle(pre: SlotView, policy: FaultPolicy)
    requires
        pre.paused,
    ensures
        step_spec(pre, CycleEvent::Begin, policy) == ignored(pre),
{
}

/// The step that applies an action checks the invariant on the state it
/// leaves: the report names a violation exactly when that state breaks the
/// invariant, and under a policy that takes a violation as fatal the agent is
/// then faulted.
pub proof fn lemma_applied_action_is_checked(
    pre: SlotView,
    action: ActionView,
    decision: Option<DecisionView>,
    failure: Option<AgentError>,
    policy: FaultPolicy,
)
    ensures
        settled(pre, action, decision, failure, policy).slot.state == applied(pre.state, action),
        settled(pre, action, decision, failure, policy).report.violation is Some
            <==> !crate::agents::capital_preserved(applied(pre.state, action)),
        policy.violation_is_fatal && !crate::agents::capital_preserved(applied(pre.state, action))
            ==> settled(pre, action, decision, failure, policy).slot.phase == Phase::Faulted,
{
}

/// Under a policy that does not take a violation as fatal, a cycle that ends
/// in a violation counts as one failing cycle, and the agent is faulted
/// exactly when its failing cycles in a row reach the limit of the policy.
pub proof fn lemma_violations_fault_at_the_limit(
    pre: SlotView,
    action: ActionView,
    decision: Option<DecisionView>,
    failure: Option<AgentError>,
    policy: FaultPolicy,
)
    requires
        !policy.violation_is_fatal,
        !crate::agents::capital_preserved(applied(pre.state, action)),
    ensures
        settled(pre, action, decision, failure, policy).slot.failures == bump(pre.failures),
        settled(pre, action, decision, failure, policy).slot.phase == Phase::Faulted <==> bump(
            pre.failures,
        ) >= policy.max_consecutive_failures,
        settled(pre, action, decision, failure, policy).slot.phase == Phase::Idle <==> bump(
            pre.failures,
        ) < policy.max_consecutive_failures,
{
}

/// A cycle that ends without failure clears the record of failures and
/// leaves the agent idle.
pub proof fn lemma_success_clears_failures(
    pre: SlotView,
    action: ActionView,
    decision: Option<DecisionView>,
    policy: FaultPolicy,
)
    requires
        crate::agents::capital_preserved(applied(pre.state, action)),
    ensures
        settled(pre, action, decision, None, policy).slot.failures == 0,
        settled(pre, action, decision, None, policy).slot.phase == Phase::Idle,
        settled(pre, action, decision, None, policy).report.violation is None,
{
}

/// A rejected instruction leaves the state as it was, and no invariant check
/// is reported.
pub proof fn lemma_rejection_leaves_state(pre: SlotView, policy: FaultPolicy)
    requires
        pre.phase == Phase::Executing,
    ensures
        step_spec(pre, CycleEvent::ActuatorRejected, policy).slot.state == pre.state,
        step_spec(pre, CycleEvent::ActuatorRejected, policy).report.violation is None,
        step_spec(pre, CycleEvent::ActuatorRejected, policy).report.failure == Some(
            AgentError::Execution,
        ),
{
}

} // verus!
