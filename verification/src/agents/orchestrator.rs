//! The orchestrator: the roster of agents and the control surface.
//!
//! The orchestrator owns every agent. The tick driver outside asks it which
//! agents start a cycle, does the fetching and submitting for each of them,
//! and hands every outcome in by the agent's ID. An event reaches the one
//! agent it names and leaves every other agent as it was: no failure of one
//! agent touches another.

use vstd::prelude::*;
use vstd::string::StringExecFns;
use crate::agents::copy_action;
use crate::agents::lifecycle::{
    resumed, step_spec, AgentKind, AgentSlot, CycleEvent, CycleReport, FaultPolicy, Phase,
    ReportView, Role, SlotView,
};
use crate::agents::{ActionView, AgentAction, AgentState};
use crate::error::AgentError;
use crate::fixed::Fixed;

verus! {

/// One entry of the stream of decisions.
#[derive(Debug, Clone, PartialEq, Eq)]
pub struct DecisionRecord {
    pub agent_id: String,
    pub timestamp: u64,
    pub action: AgentAction,
    pub confidence: Fixed,
    pub risk_score: Fixed,
    pub predicted_return: Fixed,
}

/// The event that reports a broken capital-preservation invariant.
#[derive(Debug, Clone, PartialEq, Eq)]
pub struct InvariantViolationEvent {
    pub agent_id: String,
    pub initial_capital: u64,
    pub observed_total_value: u64,
    pub timestamp: u64,
}

/// What the orchestrator answers to an event: the report of the agent's step,
/// with the agent and the time it belongs to.
#[derive(Debug, Clone, PartialEq, Eq)]
pub struct Dispatch {
    pub agent_id: String,
    pub timestamp: u64,
    pub report: CycleReport,
}

/// A decision record as a mathematical value.
pub struct RecordView {
    pub agent_id: Seq<char>,
    pub timestamp: u64,
    pub action: ActionView,
    pub confidence: int,
    pub risk_score: int,
    pub predicted_return: int,
}

impl View for DecisionRecord {
    type V = RecordView;

    open spec fn view(&self) -> RecordView {
        RecordView {
            agent_id: self.agent_id@,
            timestamp: self.timestamp,
            action: self.action@,
            confidence: self.confidence@,
            risk_score: self.risk_score@,
            predicted_return: self.predicted_return@,
        }
    }
}

/// The decision record that a report gives rise to: one for each decision
/// reached, and none where none was.
pub open spec fn record_of(agent_id: Seq<char>, timestamp: u64, report: ReportView) -> Option<
    RecordView,
> {
    match report.decision {
        Some(d) => Some(
            RecordView {
                agent_id,
                timestamp,
                action: d.action,
                confidence: d.confidence,
                risk_score: d.risk_score,
                predicted_return: d.predicted_return,
            },
        ),
        None => None,
    }
}

impl Dispatch {
    /// The entry that this answer adds to the stream of decisions.
    pub fn decision_record(&self) -> (r: Option<DecisionRecord>)
        ensures
            match r {
                Some(record) => Some(record@) == record_of(
                    self.agent_id@,
                    self.timestamp,
                    self.report@,
                ),
                None => record_of(self.agent_id@, self.timestamp, self.report@) is None,
            },
    {
        match &self.report.decision {
            Some(d) => Some(
                DecisionRecord {
                    agent_id: self.agent_id.clone(),
                    timestamp: self.timestamp,
                    action: copy_action(&d.action),
                    confidence: d.confidence,
                    risk_score: d.risk_score,
                    predicted_return: d.predicted_return,
                },
            ),
            None => None,
        }
    }

    /// The violation event that this answer raises: one where the step found
    /// the invariant broken, and none where it did not.
    pub fn violation_event(&self) -> (r: Option<InvariantViolationEvent>)
        ensures
            match r {
                Some(event) => event.agent_id@ == self.agent_id@ && event.timestamp
                    == self.timestamp && self.report.violation == Some(
                    AgentError::InvariantViolation {
                        initial_capital: event.initial_capital,
                        observed_total_value: event.observed_total_value,
                    },
                ),
                None => !(self.report.violation matches Some(
                    AgentError::InvariantViolation { .. },
                )),
            },
    {
        match self.report.violation {
            Some(AgentError::InvariantViolation { initial_capital, observed_total_value }) => Some(
                InvariantViolationEvent {
                    agent_id: self.agent_id.clone(),
                    initial_capital,
                    observed_total_value,
                    timestamp: self.timestamp,
                },
            ),
            _ => None,
        }
    }
}

/// The place of the first agent with the given ID in a roster, or the length
/// of the roster where there is none.
pub open spec fn position(roster: Seq<SlotView>, id: Seq<char>) -> int
    decreases roster.len(),
{
    if roster.len() == 0 {
        0
    } else if roster[0].state.id@ == id {
        0
    } else {
        1 + position(roster.drop_first(), id)
    }
}

/// The roster after every agent has been offered the start of a cycle.
pub open spec fn begun(roster: Seq<SlotView>, policy: FaultPolicy) -> Seq<SlotView> {
    roster.map_values(|slot: SlotView| step_spec(slot, CycleEvent::Begin, policy).slot)
}

/// The IDs of the agents that start a cycle when offered one, in the order of
/// the roster: the idle ones that are not paused.
pub open spec fn starters(roster: Seq<SlotView>) -> Seq<Seq<char>>
    decreases roster.len(),
{
    if roster.len() == 0 {
        Seq::empty()
    } else {
        let rest = starters(roster.drop_last());
        if roster.last().phase == Phase::Idle && !roster.last().paused {
            rest.push(roster.last().state.id@)
        } else {
            rest
        }
    }
}

/// The IDs of a list of strings.
pub open spec fn names(ids: Seq<String>) -> Seq<Seq<char>> {
    ids.map_values(|id: String| id@)
}

/// The roster of agents with the policy that takes them out of service.
#[derive(Debug)]
pub struct AgentOrchestrator {
    slots: Vec<AgentSlot>,
    policy: FaultPolicy,
}

impl View for AgentOrchestrator {
    type V = Seq<SlotView>;

    closed spec fn view(&self) -> Seq<SlotView> {
        self.slots@.map_values(|slot: AgentSlot| slot@)
    }
}

impl AgentOrchestrator {
    /// The policy that takes agents out of service.
    pub closed spec fn spec_policy(&self) -> FaultPolicy {
        self.policy
    }

    /// An orchestrator without agents.
    pub fn new(policy: FaultPolicy) -> (orchestrator: Self)
        ensures
            orchestrator@ == Seq::<SlotView>::empty(),
            orchestrator.spec_policy() == policy,
    {
        let orchestrator = AgentOrchestrator { slots: Vec::new(), policy };
        assert(orchestrator@ =~= Seq::<SlotView>::empty());
        orchestrator
    }

    /// The policy that takes agents out of service.
    pub fn policy(&self) -> (policy: FaultPolicy)
        ensures
            policy == self.spec_policy(),
    {
        self.policy
    }

    /// How many agents are on the roster.
    pub fn len(&self) -> (n: usize)
        ensures
            n == self@.len(),
    {
        self.slots.len()
    }

    /// The place of the first agent with the given ID, or the length of the
    /// roster.
    fn find(&self, agent_id: &String) -> (i: usize)
        ensures
            i == position(self@, agent_id@),
            i <= self@.len(),
            i < self@.len() ==> self@[i as int].state.id@ == agent_id@,
    {
        let mut i: usize = 0;
        assert(self@.skip(0) =~= self@);
        while i < self.slots.len()
            invariant
                i <= self.slots.len(),
                position(self@, agent_id@) == i + position(self@.skip(i as int), agent_id@),
            decreases self.slots.len() - i,
        {
            proof {
                let rest = self@.skip(i as int);
                assert(rest[0] == self@[i as int]);
                assert(rest.drop_first() =~= self@.skip(i as int + 1));
            }
            if self.slots[i].state().id == *agent_id {
                return i;
            }
            i = i + 1;
        }
        i
    }

    /// Whether an agent with the given ID is on the roster.
    pub fn contains(&self, agent_id: &str) -> (found: bool)
        ensures
            found == (position(self@, agent_id@) < self@.len()),
    {
        let id = String::from_str(agent_id);
        self.find(&id) < self.slots.len()
    }

    /// Puts an agent on the roster, idle and with no failure on record. An
    /// agent whose ID is on the roster already is handed back.
    pub fn register(&mut self, agent: AgentKind) -> (r: Result<(), AgentKind>)
        ensures
            final(self).spec_policy() == old(self).spec_policy(),
            match r {
                Ok(_) => position(old(self)@, agent.spec_state().id@) == old(self)@.len()
                    && final(self)@ == old(self)@.push(
                    SlotView {
                        role: agent.role(),
                        state: agent.spec_state(),
                        phase: Phase::Idle,
                        pending: None,
                        failures: 0,
                        paused: false,
                    },
                ),
                Err(back) => position(old(self)@, agent.spec_state().id@) < old(self)@.len()
                    && final(self)@ == old(self)@ && back == agent,
            },
    {
        let id = agent.state().id.clone();
        if self.find(&id) < self.slots.len() {
            return Err(agent);
        }
        let slot = AgentSlot::new(agent);
        self.slots.push(slot);
        assert(self@ =~= old(self)@.push(slot@));
        Ok(())
    }

    /// Takes the agent with the given ID off the roster and hands it back.
    pub fn deregister(&mut self, agent_id: &str) -> (r: Option<AgentKind>)
        ensures
            final(self).spec_policy() == old(self).spec_policy(),
            match r {
                Some(agent) => {
                    let i = position(old(self)@, agent_id@);
                    i < old(self)@.len() && final(self)@ == old(self)@.remove(i) && agent.role()
                        == old(self)@[i].role && agent.spec_state() == old(self)@[i].state
                },
                None => position(old(self)@, agent_id@) == old(self)@.len() && final(self)@ == old(
                    self,
                )@,
            },
    {
        let id = String::from_str(agent_id);
        let i = self.find(&id);
        if i < self.slots.len() {
            let slot = self.slots.remove(i);
            assert(self@ =~= old(self)@.remove(i as int));
            Some(slot.into_agent())
        } else {
            None
        }
    }

    /// Keeps the agent with the given ID out of the ticks to come. Answers
    /// whether there is such an agent.
    pub fn pause(&mut self, agent_id: &str) -> (found: bool)
        ensures
            final(self).spec_policy() == old(self).spec_policy(),
            found == (position(old(self)@, agent_id@) < old(self)@.len()),
            found ==> final(self)@ == old(self)@.update(
                position(old(self)@, agent_id@),
                SlotView { paused: true, ..old(self)@[position(old(self)@, agent_id@)] },
            ),
            !found ==> final(self)@ == old(self)@,
    {
        let id = String::from_str(agent_id);
        let i = self.find(&id);
        if i < self.slots.len() {
            let mut slot = self.slots.remove(i);
            slot.pause();
            self.slots.insert(i, slot);
            assert(self@ =~= old(self)@.update(i as int, slot@));
            true
        } else {
            false
        }
    }

    /// Lets the agent with the given ID into the ticks again, and brings it
    /// back from `Faulted`. Answers whether there is such an agent.
    pub fn resume(&mut self, agent_id: &str) -> (found: bool)
        ensures
            final(self).spec_policy() == old(self).spec_policy(),
            found == (position(old(self)@, agent_id@) < old(self)@.len()),
            found ==> final(self)@ == old(self)@.update(
                position(old(self)@, agent_id@),
                resumed(old(self)@[position(old(self)@, agent_id@)]),
            ),
            !found ==> final(self)@ == old(self)@,
    {
        let id = String::from_str(agent_id);
        let i = self.find(&id);
        if i < self.slots.len() {
            let mut slot = self.slots.remove(i);
            slot.resume();
            self.slots.insert(i, slot);
            assert(self@ =~= old(self)@.update(i as int, slot@));
            true
        } else {
            false
        }
    }

    /// Where the agent with the given ID stands in its cycle.
    pub fn phase_of(&self, agent_id: &str) -> (r: Option<Phase>)
        ensures
            match r {
                Some(phase) => position(self@, agent_id@) < self@.len() && phase
                    == self@[position(self@, agent_id@)].phase,
                None => position(self@, agent_id@) == self@.len(),
            },
    {
        let id = String::from_str(agent_id);
        let i = self.find(&id);
        if i < self.slots.len() {
            Some(self.slots[i].phase())
        } else {
            None
        }
    }

    /// The state of the agent with the given ID, to read.
    pub fn state_of(&self, agent_id: &str) -> (r: Option<&AgentState>)
        ensures
            match r {
                Some(state) => position(self@, agent_id@) < self@.len() && *state
                    == self@[position(self@, agent_id@)].state,
                None => position(self@, agent_id@) == self@.len(),
            },
    {
        let id = String::from_str(agent_id);
        let i = self.find(&id);
        if i < self.slots.len() {
            Some(self.slots[i].state())
        } else {
            None
        }
    }

    /// Starts a tick: every idle agent that is not paused goes to `Deciding`,
    /// and every other one stays as it is. Answers the IDs of those that
    /// started, for which a market snapshot is to be fetched.
    pub fn begin_tick(&mut self) -> (started: Vec<String>)
        ensures
            final(self).spec_policy() == old(self).spec_policy(),
            final(self)@ == begun(old(self)@, old(self).spec_policy()),
            names(started@) == starters(old(self)@),
    {
        let mut started: Vec<String> = Vec::new();
        let mut done: Vec<AgentSlot> = Vec::new();
        let n: usize = self.slots.len();
        let policy = self.policy;
        let ghost before = self@;
        assert(names(started@) =~= starters(before.take(0)));
        while self.slots.len() > 0
            invariant
                self.policy == policy,
                done.len() + self.slots.len() == n,
                n == before.len(),
                done@.map_values(|slot: AgentSlot| slot@) == begun(
                    before.take(done.len() as int),
                    policy,
                ),
                self@ == before.skip(done.len() as int),
                names(started@) == starters(before.take(done.len() as int)),
            decreases self.slots.len(),
        {
            let ghost k = done.len() as int;
            let ghost rest = self@;
            let ghost waiting = self.slots@;
            let ghost served = done@;
            let mut slot = self.slots.remove(0);
            assert(slot@ == rest[0]);
            assert(slot@ == before[k]);
            assert(self@ =~= before.skip(k + 1)) by {
                assert forall|j: int| 0 <= j < self.slots@.len() implies self@[j] == before.skip(
                    k + 1,
                )[j] by {
                    assert(self.slots@[j] == waiting[j + 1]);
                    assert(rest[j + 1] == before.skip(k)[j + 1]);
                }
            }
            let report = slot.step(CycleEvent::Begin, &policy);
            proof {
                let upto = before.take(k + 1);
                assert(upto.drop_last() =~= before.take(k));
                assert(upto.last() == before[k]);
            }
            if report.handled {
                started.push(slot.id().to_string());
                assert(names(started@) =~= starters(before.take(k)).push(before[k].state.id@));
            }
            done.push(slot);
            proof {
                let views = done@.map_values(|slot: AgentSlot| slot@);
                let target = begun(before.take(k + 1), policy);
                let earlier = served.map_values(|slot: AgentSlot| slot@);
                assert forall|j: int| 0 <= j < k + 1 implies #[trigger] views[j] == target[j] by {
                    if j < k {
                        assert(done@[j] == served[j]);
                        assert(earlier[j] == begun(before.take(k), policy)[j]);
                        assert(before.take(k)[j] == before.take(k + 1)[j]);
                    }
                }
                assert(views =~= target);
            }
        }
        assert(before.take(n as int) =~= before);
        self.slots = done;
        started
    }

    /// Hands an event to the agent with the given ID: that agent takes one
    /// step, and every other agent stays as it is. Answers with the report of
    /// the step, or with nothing where there is no such agent.
    pub fn dispatch(&mut self, agent_id: &str, event: CycleEvent, timestamp: u64) -> (r: Option<
        Dispatch,
    >)
        ensures
            final(self).spec_policy() == old(self).spec_policy(),
            match r {
                Some(d) => {
                    let i = position(old(self)@, agent_id@);
                    &&& i < old(self)@.len()
                    &&& final(self)@ == old(self)@.update(
                        i,
                        step_spec(old(self)@[i], event, old(self).spec_policy()).slot,
                    )
                    &&& d.agent_id@ == agent_id@
                    &&& d.timestamp == timestamp
                    &&& d.report@ == step_spec(old(self)@[i], event, old(self).spec_policy()).report
                },
                None => position(old(self)@, agent_id@) == old(self)@.len() && final(self)@ == old(
                    self,
                )@,
            },
    {
        let id = String::from_str(agent_id);
        let i = self.find(&id);
        if i < self.slots.len() {
            let policy = self.policy;
            let mut slot = self.slots.remove(i);
            let report = slot.step(event, &policy);
            self.slots.insert(i, slot);
            assert(self@ =~= old(self)@.update(i as int, slot@));
            Some(Dispatch { agent_id: id, timestamp, report })
        } else {
            None
        }
    }
}

/// Fault isolation: an event handed to one agent leaves every other agent on
/// the roster exactly as it was, whatever the event and however the step
/// ends.
pub proof fn lemma_dispatch_touches_one_agent(
    roster: Seq<SlotView>,
    id: Seq<char>,
    event: CycleEvent,
    policy: FaultPolicy,
    other: int,
)
    requires
        position(roster, id) < roster.len(),
        0 <= other < roster.len(),
        other != position(roster, id),
    ensures
        roster.update(
            position(roster, id),
            step_spec(roster[position(roster, id)], event, policy).slot,
        )[other] == roster[other],
{
    lemma_position_in_range(roster, id);
    lemma_update_keeps_others(
        roster,
        position(roster, id),
        step_spec(roster[position(roster, id)], event, policy).slot,
        other,
    );
}

/// A place in a roster is never negative and never beyond its length, and an
/// agent found has the ID that was looked for.
pub proof fn lemma_position_in_range(roster: Seq<SlotView>, id: Seq<char>)
    ensures
        0 <= position(roster, id) <= roster.len(),
        position(roster, id) < roster.len() ==> roster[position(roster, id)].state.id@ == id,
    decreases roster.len(),
{
    if roster.len() > 0 && roster[0].state.id@ != id {
        lemma_position_in_range(roster.drop_first(), id);
    }
}

/// Replacing one entry of a roster leaves the others.
proof fn lemma_update_keeps_others(roster: Seq<SlotView>, i: int, slot: SlotView, other: int)
    requires
        0 <= i < roster.len(),
        0 <= other < roster.len(),
        other != i,
    ensures
        roster.update(i, slot)[other] == roster[other],
{
}

/// A faulted agent is left out of a tick: it does not start a cycle, and stays
/// as it is.
pub proof fn lemma_faulted_is_left_out(roster: Seq<SlotView>, policy: FaultPolicy, i: int)
    requires
        0 <= i < roster.len(),
        roster[i].phase == Phase::Faulted,
    ensures
        begun(roster, policy)[i] == roster[i],
{
}

} // verus!
