//! Autonomous agents for capital management.
//!
//! An agent owns one [`AgentState`], decides on an [`AgentAction`], applies it,
//! and checks after every application that its holdings are still worth at
//! least its initial capital.

use vstd::prelude::*;
use crate::error::{AgentError, ManusError};
use crate::fixed::{clamp_unit, Fixed, SCALE};
use crate::wide::Wide;

pub mod lifecycle;
pub mod orchestrator;
pub mod ml_agent;

verus! {

/// Trading position.
#[derive(Debug, Clone, PartialEq, Eq)]
pub struct Position {
    /// Asset identifier.
    pub asset: String,
    /// Amount held.
    pub amount: u64,
    /// Entry price.
    pub entry_price: Fixed,
}

/// Agent state.
#[derive(Debug, Clone, PartialEq, Eq)]
pub struct AgentState {
    /// Agent ID.
    pub id: String,
    /// Current capital, in base units.
    pub capital: u64,
    /// Initial capital, the floor of the capital-preservation invariant.
    pub initial_capital: u64,
    /// Current positions.
    pub positions: Vec<Position>,
    /// Risk tolerance, in the unit interval.
    pub risk_tolerance: Fixed,
}

/// What the positions are worth at their entry prices, in millionths of a base
/// unit.
pub open spec fn positions_value(positions: Seq<Position>) -> int
    decreases positions.len(),
{
    if positions.len() == 0 {
        0
    } else {
        positions_value(positions.drop_last()) + positions.last().amount
            * positions.last().entry_price@
    }
}

/// What the state is worth: capital plus positions, in millionths of a base
/// unit.
pub open spec fn total_value(state: AgentState) -> int {
    state.capital * SCALE + positions_value(state.positions@)
}

/// The capital-preservation invariant: the state is worth its initial capital
/// or more.
pub open spec fn capital_preserved(state: AgentState) -> bool {
    total_value(state) >= state.initial_capital * SCALE
}

/// The worth of the state in whole base units: fractions dropped, and zero
/// where the worth is negative.
pub open spec fn observed_total_value(state: AgentState) -> int {
    if total_value(state) < 0 {
        0
    } else {
        total_value(state) / (SCALE as int)
    }
}

/// What the invariant check answers for a state.
pub open spec fn invariant_verdict(state: AgentState) -> Result<(), AgentError> {
    if capital_preserved(state) {
        Ok(())
    } else {
        Err(
            AgentError::InvariantViolation {
                initial_capital: state.initial_capital,
                observed_total_value: observed_total_value(state) as u64,
            },
        )
    }
}

/// Checks the capital-preservation invariant. The answer depends on the state
/// alone, and the state is only read.
pub fn check_invariant(state: &AgentState) -> (r: Result<(), AgentError>)
    ensures
        r == invariant_verdict(*state),
{
    assert(state.capital * SCALE <= 0xffff_ffff_ffff_ffff * 1_000_000) by (nonlinear_arith)
        requires
            state.capital <= 0xffff_ffff_ffff_ffff,
            SCALE == 1_000_000,
    ;
    assert(state.initial_capital * SCALE <= 0xffff_ffff_ffff_ffff * 1_000_000)
        by (nonlinear_arith)
        requires
            state.initial_capital <= 0xffff_ffff_ffff_ffff,
            SCALE == 1_000_000,
    ;
    let mut gains: Wide = Wide::from_u128((state.capital as u128) * (SCALE as u128));
    let mut losses: Wide = Wide::from_u128(0);
    let n: usize = state.positions.len();
    let mut i: usize = 0;
    assert(state.positions@.take(0) =~= Seq::<Position>::empty());
    while i < n
        invariant
            i <= n,
            n == state.positions.len(),
            gains.hi <= i,
            losses.hi <= i,
            gains@ - losses@ == state.capital * SCALE + positions_value(
                state.positions@.take(i as int),
            ),
        decreases n - i,
    {
        let amount: u128 = state.positions[i].amount as u128;
        let price: i64 = state.positions[i].entry_price.micros;
        proof {
            let s = state.positions@.take(i as int + 1);
            assert(s.drop_last() =~= state.positions@.take(i as int));
            assert(s.last() == state.positions@[i as int]);
        }
        if price >= 0 {
            let p: u128 = price as u128;
            assert(amount * p <= 0xffff_ffff_ffff_ffff * 0x8000_0000_0000_0000)
                by (nonlinear_arith)
                requires
                    amount <= 0xffff_ffff_ffff_ffff,
                    p <= 0x8000_0000_0000_0000,
            ;
            gains = gains.plus(amount * p);
        } else {
            let p: u128 = (-(price as i128)) as u128;
            assert(amount * p <= 0xffff_ffff_ffff_ffff * 0x8000_0000_0000_0000)
                by (nonlinear_arith)
                requires
                    amount <= 0xffff_ffff_ffff_ffff,
                    p <= 0x8000_0000_0000_0000,
            ;
            assert(amount * price == -(amount * p)) by (nonlinear_arith)
                requires
                    p == -price,
            ;
            losses = losses.plus(amount * p);
        }
        i = i + 1;
    }
    assert(state.positions@.take(n as int) =~= state.positions@);
    let floor: u128 = (state.initial_capital as u128) * (SCALE as u128);
    if gains.below(losses) {
        return Err(
            AgentError::InvariantViolation {
                initial_capital: state.initial_capital,
                observed_total_value: 0,
            },
        );
    }
    let worth: Wide = gains.minus(losses);
    if worth.hi > 0 || worth.lo >= floor {
        Ok(())
    } else {
        let whole: u128 = worth.lo / (SCALE as u128);
        Err(
            AgentError::InvariantViolation {
                initial_capital: state.initial_capital,
                observed_total_value: whole as u64,
            },
        )
    }
}

/// Agent action.
#[derive(Debug, Clone, PartialEq, Eq)]
pub enum AgentAction {
    /// Rebalance the portfolio.
    Rebalance {
        /// Target allocations: asset and weight, the weights summing to one.
        targets: Vec<(String, Fixed)>,
    },
    /// Adjust risk parameters.
    AdjustRisk {
        /// New risk tolerance.
        new_tolerance: Fixed,
    },
    /// Emergency withdraw.
    EmergencyWithdraw,
    /// No action.
    Hold,
}

/// An action as a mathematical value: names as character sequences, numbers in
/// millionths.
pub enum ActionView {
    Rebalance { targets: Seq<(Seq<char>, int)> },
    AdjustRisk { new_tolerance: int },
    EmergencyWithdraw,
    Hold,
}

/// A list of targets as a mathematical value.
pub open spec fn targets_view(targets: Seq<(String, Fixed)>) -> Seq<(Seq<char>, int)> {
    targets.map_values(|t: (String, Fixed)| (t.0@, t.1@))
}

impl View for AgentAction {
    type V = ActionView;

    open spec fn view(&self) -> ActionView {
        match *self {
            AgentAction::Rebalance { targets } => ActionView::Rebalance {
                targets: targets_view(targets@),
            },
            AgentAction::AdjustRisk { new_tolerance } => ActionView::AdjustRisk {
                new_tolerance: new_tolerance@,
            },
            AgentAction::EmergencyWithdraw => ActionView::EmergencyWithdraw,
            AgentAction::Hold => ActionView::Hold,
        }
    }
}

/// The sum of the weights of a list of targets, in millionths.
pub open spec fn weight_sum(targets: Seq<(Seq<char>, int)>) -> int
    decreases targets.len(),
{
    if targets.len() == 0 {
        0
    } else {
        weight_sum(targets.drop_last()) + targets.last().1
    }
}

/// Whether an action is one that the data model admits: the weights of a
/// rebalance sum to one, give or take one millionth for each target, and a new
/// risk tolerance lies in the unit interval.
pub open spec fn action_well_formed(action: ActionView) -> bool {
    match action {
        ActionView::Rebalance { targets } => {
            SCALE - targets.len() <= weight_sum(targets) <= SCALE + targets.len()
        },
        ActionView::AdjustRisk { new_tolerance } => 0 <= new_tolerance <= SCALE,
        ActionView::EmergencyWithdraw => true,
        ActionView::Hold => true,
    }
}

/// What an executed action leaves for an outside collaborator to carry out.
#[derive(Debug, Clone, PartialEq, Eq)]
pub enum Instruction {
    /// Nothing leaves the agent.
    Nothing,
    /// The trade executor is to bring the portfolio to these targets.
    SubmitTrade {
        /// Target allocations.
        targets: Vec<(String, Fixed)>,
    },
    /// The withdrawal service is to withdraw the agent's funds.
    SubmitWithdrawal,
}

/// An instruction as a mathematical value.
pub enum InstructionView {
    Nothing,
    SubmitTrade { targets: Seq<(Seq<char>, int)> },
    SubmitWithdrawal,
}

impl View for Instruction {
    type V = InstructionView;

    open spec fn view(&self) -> InstructionView {
        match *self {
            Instruction::Nothing => InstructionView::Nothing,
            Instruction::SubmitTrade { targets } => InstructionView::SubmitTrade {
                targets: targets_view(targets@),
            },
            Instruction::SubmitWithdrawal => InstructionView::SubmitWithdrawal,
        }
    }
}

/// What an action hands to the outside: a rebalance its targets, an emergency
/// withdrawal the request to withdraw, the others nothing.
pub open spec fn instruction_of(action: ActionView) -> InstructionView {
    match action {
        ActionView::Rebalance { targets } => InstructionView::SubmitTrade { targets },
        ActionView::EmergencyWithdraw => InstructionView::SubmitWithdrawal,
        ActionView::AdjustRisk { .. } => InstructionView::Nothing,
        ActionView::Hold => InstructionView::Nothing,
    }
}

/// The state after an action is applied to it. Only an adjustment of risk
/// changes it: a rebalance moves no funds, and an emergency withdrawal leaves
/// the capital as it is until the outside confirms.
pub open spec fn applied(state: AgentState, action: ActionView) -> AgentState {
    match action {
        ActionView::AdjustRisk { new_tolerance } => AgentState {
            risk_tolerance: Fixed { micros: clamp_unit(new_tolerance) as i64 },
            ..state
        },
        _ => state,
    }
}

/// An agent's failure as an error of the backend.
pub open spec fn agent_result(r: Result<(), AgentError>) -> Result<(), ManusError> {
    match r {
        Ok(()) => Ok(()),
        Err(e) => Err(ManusError::Agent(e)),
    }
}

/// A copy of a list of targets.
pub fn copy_targets(targets: &Vec<(String, Fixed)>) -> (r: Vec<(String, Fixed)>)
    ensures
        targets_view(r@) == targets_view(targets@),
{
    let mut r: Vec<(String, Fixed)> = Vec::new();
    let mut i: usize = 0;
    while i < targets.len()
        invariant
            i <= targets.len(),
            r.len() == i,
            forall|j: int| 0 <= j < i ==> r[j].0@ == targets[j].0@ && r[j].1 == targets[j].1,
        decreases targets.len() - i,
    {
        r.push((targets[i].0.clone(), targets[i].1));
        i = i + 1;
    }
    assert(targets_view(r@) =~= targets_view(targets@));
    r
}

/// A copy of an action.
pub fn copy_action(action: &AgentAction) -> (r: AgentAction)
    ensures
        r@ == action@,
{
    match action {
        AgentAction::Rebalance { targets } => AgentAction::Rebalance {
            targets: copy_targets(targets),
        },
        AgentAction::AdjustRisk { new_tolerance } => AgentAction::AdjustRisk {
            new_tolerance: *new_tolerance,
        },
        AgentAction::EmergencyWithdraw => AgentAction::EmergencyWithdraw,
        AgentAction::Hold => AgentAction::Hold,
    }
}

impl AgentAction {
    /// What this action hands to the outside.
    pub fn instruction(&self) -> (r: Instruction)
        ensures
            r@ == instruction_of(self@),
    {
        match self {
            AgentAction::Rebalance { targets } => Instruction::SubmitTrade {
                targets: copy_targets(targets),
            },
            AgentAction::EmergencyWithdraw => Instruction::SubmitWithdrawal,
            AgentAction::AdjustRisk { .. } => Instruction::Nothing,
            AgentAction::Hold => Instruction::Nothing,
        }
    }
}

/// Applies an action to a state.
pub fn apply_action(state: &mut AgentState, action: &AgentAction)
    ensures
        *final(state) == applied(*old(state), action@),
{
    match action {
        AgentAction::AdjustRisk { new_tolerance } => {
            state.risk_tolerance = new_tolerance.clamp_unit();
        },
        _ => {},
    }
}

/// Applies an action to a state and checks the invariant on what results.
pub fn execute_action(state: &mut AgentState, action: &AgentAction) -> (r: Result<
    (),
    AgentError,
>)
    ensures
        *final(state) == applied(*old(state), action@),
        r == invariant_verdict(*final(state)),
{
    apply_action(state, action);
    check_invariant(state)
}

/// The contract that every agent role meets.
pub trait Agent: Sized {
    /// The state that the agent owns.
    spec fn spec_state(&self) -> AgentState;

    /// The action that `decide` chooses.
    spec fn choice(&self) -> ActionView;

    /// Get agent ID.
    fn id(&self) -> (id: &str)
        ensures
            id@ == self.spec_state().id@,
    ;

    /// Get current state.
    fn state(&self) -> (state: &AgentState)
        ensures
            *state == self.spec_state(),
    ;

    /// Decide next action. The agent is left as it was.
    fn decide(&mut self) -> (r: Result<AgentAction, ManusError>)
        ensures
            *final(self) == *old(self),
            r matches Ok(action) && action@ == old(self).choice(),
    ;

    /// Execute action: apply it to the state, then check the invariant.
    fn execute(&mut self, action: AgentAction) -> (r: Result<(), ManusError>)
        ensures
            final(self).spec_state() == applied(old(self).spec_state(), action@),
            r == agent_result(invariant_verdict(final(self).spec_state())),
    ;

    /// Verify invariants.
    fn verify_invariants(&self) -> (r: Result<(), ManusError>)
        ensures
            r == agent_result(invariant_verdict(self.spec_state())),
    {
        match check_invariant(self.state()) {
            Ok(()) => Ok(()),
            Err(e) => Err(ManusError::Agent(e)),
        }
    }
}

/// Basic autonomous agent implementation: it always holds.
#[derive(Debug)]
pub struct AutonomousAgent {
    state: AgentState,
}

impl AutonomousAgent {
    /// Create a new autonomous agent.
    pub fn new(id: String, initial_capital: u64, risk_tolerance: Fixed) -> (agent: Self)
        ensures
            agent.spec_state().id == id,
            agent.spec_state().capital == initial_capital,
            agent.spec_state().initial_capital == initial_capital,
            agent.spec_state().positions@.len() == 0,
            agent.spec_state().risk_tolerance == risk_tolerance,
    {
        Self {
            state: AgentState {
                id,
                capital: initial_capital,
                initial_capital,
                positions: Vec::new(),
                risk_tolerance,
            },
        }
    }

    /// An agent that takes up a state as it stands.
    pub fn with_state(state: AgentState) -> (agent: Self)
        ensures
            agent.spec_state() == state,
    {
        Self { state }
    }
}

impl Agent for AutonomousAgent {
    closed spec fn spec_state(&self) -> AgentState {
        self.state
    }

    open spec fn choice(&self) -> ActionView {
        ActionView::Hold
    }

    fn id(&self) -> (id: &str) {
        self.state.id.as_str()
    }

    fn state(&self) -> (state: &AgentState) {
        &self.state
    }

    fn decide(&mut self) -> (r: Result<AgentAction, ManusError>) {
        Ok(AgentAction::Hold)
    }

    fn execute(&mut self, action: AgentAction) -> (r: Result<(), ManusError>) {
        match execute_action(&mut self.state, &action) {
            Ok(()) => Ok(()),
            Err(e) => Err(ManusError::Agent(e)),
        }
    }
}

} // verus!
