use manus_backend::agents::lifecycle::{
    AgentKind, AgentSlot, Command, CycleEvent, CycleReport, FaultPolicy, Phase,
};
use manus_backend::agents::ml_agent::{
    MLDecision, MarketAnalyzerAgent, MarketData, RebalancerAgent, RiskManagerAgent,
    StrategyOptimizerAgent,
};
use manus_backend::agents::orchestrator::{
    AgentOrchestrator, DecisionRecord, InvariantViolationEvent,
};
use manus_backend::agents::{AgentAction, AgentState, AutonomousAgent, Instruction};
use manus_backend::error::{AgentError, FeedFailure};
use manus_backend::fixed::Fixed;

fn fx(x: f64) -> Fixed {
    Fixed::from_micros((x * 1_000_000.0).round() as i64)
}

fn fxs(xs: &[f64]) -> Vec<Fixed> {
    xs.iter().map(|x| fx(*x)).collect()
}

fn bullish() -> MarketData {
    MarketData {
        prices: fxs(&[1.0, 1.05, 1.10, 1.15, 1.20]),
        volumes: fxs(&[1000.0, 1200.0, 1400.0, 1600.0, 1800.0]),
        volatility: fx(0.10),
        liquidity: fx(10000.0),
    }
}

fn quiet() -> MarketData {
    MarketData {
        prices: fxs(&[1.0, 1.0]),
        volumes: fxs(&[1.0, 1.0]),
        volatility: fx(0.3),
        liquidity: fx(1000.0),
    }
}

fn malformed() -> MarketData {
    MarketData { prices: vec![], volumes: vec![], volatility: fx(-1.0), liquidity: fx(0.0) }
}

fn state(id: &str, capital: u64, initial_capital: u64) -> AgentState {
    AgentState {
        id: id.to_string(),
        capital,
        initial_capital,
        positions: vec![],
        risk_tolerance: fx(0.5),
    }
}

fn losing(id: &str) -> AgentKind {
    AgentKind::Autonomous(AutonomousAgent::with_state(state(id, 900, 1000)))
}

fn rebalancer(id: &str) -> AgentKind {
    AgentKind::Rebalancer(RebalancerAgent::new(id.to_string(), 1_000_000))
}

fn calm_targets() -> Vec<(String, Fixed)> {
    vec![("SUI".to_string(), fx(0.6)), ("USDC".to_string(), fx(0.4))]
}

fn silent(handled: bool) -> CycleReport {
    CycleReport { handled, command: Command::Nothing, decision: None, failure: None, violation: None }
}

#[test]
fn full_cycle_of_a_rebalancer() {
    let policy = FaultPolicy::default();
    let mut slot = AgentSlot::new(rebalancer("r"));
    assert_eq!(slot.phase(), Phase::Idle);
    assert_eq!(slot.id(), "r");

    let begin = slot.step(CycleEvent::Begin, &policy);
    assert_eq!(begin, CycleReport { command: Command::FetchSnapshot, ..silent(true) });
    assert_eq!(slot.phase(), Phase::Deciding);

    let decided = slot.step(CycleEvent::Snapshot(bullish()), &policy);
    assert!(decided.handled);
    assert_eq!(
        decided.command,
        Command::Submit(Instruction::SubmitTrade { targets: calm_targets() })
    );
    let decision = decided.decision.unwrap();
    assert_eq!(decision.action, AgentAction::Rebalance { targets: calm_targets() });
    assert_eq!(decision.confidence, fx(0.9));
    assert_eq!(decision.predicted_return, fx(1000.3));
    assert_eq!(decided.failure, None);
    assert_eq!(decided.violation, None);
    assert_eq!(slot.phase(), Phase::Executing);

    let settled = slot.step(CycleEvent::ActuatorConfirmed, &policy);
    assert_eq!(settled, silent(true));
    assert_eq!(slot.phase(), Phase::Idle);
    assert_eq!(slot.consecutive_failures(), 0);
    assert_eq!(slot.state().capital, 1_000_000);
}

#[test]
fn actions_without_actuator_settle_at_once() {
    let policy = FaultPolicy::default();
    let mut slot = AgentSlot::new(rebalancer("r"));
    slot.step(CycleEvent::Begin, &policy);
    let risky = MarketData {
        prices: vec![],
        volumes: vec![],
        volatility: fx(0.4),
        liquidity: fx(0.0),
    };
    let report = slot.step(CycleEvent::Snapshot(risky), &policy);
    assert_eq!(report.command, Command::Nothing);
    assert_eq!(
        report.decision.unwrap().action,
        AgentAction::AdjustRisk { new_tolerance: fx(0.4) }
    );
    assert_eq!(slot.phase(), Phase::Idle);
    assert_eq!(slot.state().risk_tolerance, fx(0.4));

    let mut analyzer = AgentSlot::new(AgentKind::MarketAnalyzer(MarketAnalyzerAgent::new("a".to_string(), 5)));
    analyzer.step(CycleEvent::Begin, &policy);
    let held = analyzer.step(CycleEvent::Snapshot(malformed()), &policy);
    assert_eq!(held.decision, Some(MLDecision::unscored(AgentAction::Hold)));
    assert_eq!(held.failure, None);
    assert_eq!(analyzer.phase(), Phase::Idle);

    let mut optimizer =
        AgentSlot::new(AgentKind::StrategyOptimizer(StrategyOptimizerAgent::new("o".to_string(), 5)));
    optimizer.step(CycleEvent::Begin, &policy);
    assert_eq!(
        optimizer.step(CycleEvent::Snapshot(quiet()), &policy).decision,
        Some(MLDecision::unscored(AgentAction::Hold))
    );
}

#[test]
fn risk_manager_withdraws_through_the_actuator() {
    let policy = FaultPolicy::default();
    let manager = RiskManagerAgent::with_state(state("m", 800, 1000), fx(0.2));
    let mut slot = AgentSlot::new(AgentKind::RiskManager(manager));
    slot.step(CycleEvent::Begin, &policy);
    let report = slot.step(CycleEvent::Snapshot(malformed()), &policy);
    assert_eq!(report.command, Command::Submit(Instruction::SubmitWithdrawal));
    assert_eq!(slot.phase(), Phase::Executing);
    let settled = slot.step(CycleEvent::ActuatorConfirmed, &policy);
    assert_eq!(
        settled.violation,
        Some(AgentError::InvariantViolation { initial_capital: 1000, observed_total_value: 800 })
    );
    assert_eq!(slot.phase(), Phase::Faulted);
    assert_eq!(slot.state().capital, 800);
}

#[test]
fn events_out_of_phase_are_ignored() {
    let policy = FaultPolicy::default();
    let mut slot = AgentSlot::new(rebalancer("r"));
    for event in [
        CycleEvent::Snapshot(bullish()),
        CycleEvent::FeedFailed(FeedFailure::Timeout),
        CycleEvent::ActuatorConfirmed,
        CycleEvent::ActuatorRejected,
        CycleEvent::DeadlineExceeded,
    ] {
        assert_eq!(slot.step(event, &policy), silent(false));
        assert_eq!(slot.phase(), Phase::Idle);
    }
    slot.step(CycleEvent::Begin, &policy);
    for event in [CycleEvent::Begin, CycleEvent::ActuatorConfirmed, CycleEvent::ActuatorRejected] {
        assert_eq!(slot.step(event, &policy), silent(false));
        assert_eq!(slot.phase(), Phase::Deciding);
    }
}

#[test]
fn feed_failures_do_not_count_unless_told() {
    let mut slot = AgentSlot::new(rebalancer("r"));
    let policy = FaultPolicy::default();
    for _ in 0..5 {
        slot.step(CycleEvent::Begin, &policy);
        let report = slot.step(CycleEvent::FeedFailed(FeedFailure::Timeout), &policy);
        assert_eq!(
            report,
            CycleReport { failure: Some(AgentError::DataFeed(FeedFailure::Timeout)), ..silent(true) }
        );
        assert_eq!(slot.phase(), Phase::Idle);
        assert_eq!(slot.consecutive_failures(), 0);
    }
    let counting = FaultPolicy { count_feed_failures: true, ..FaultPolicy::default() };
    for tick in 1..=3u32 {
        slot.step(CycleEvent::Begin, &counting);
        let report = slot.step(CycleEvent::FeedFailed(FeedFailure::Network), &counting);
        assert_eq!(report.failure, Some(AgentError::DataFeed(FeedFailure::Network)));
        assert_eq!(slot.consecutive_failures(), tick);
    }
    assert_eq!(slot.phase(), Phase::Faulted);
}

#[test]
fn decision_failure_falls_back_to_hold() {
    let policy = FaultPolicy::default();
    let mut slot = AgentSlot::new(rebalancer("r"));
    for tick in 1..=2u32 {
        slot.step(CycleEvent::Begin, &policy);
        let report = slot.step(CycleEvent::Snapshot(malformed()), &policy);
        assert_eq!(report, CycleReport { failure: Some(AgentError::Decision), ..silent(true) });
        assert_eq!(slot.phase(), Phase::Idle);
        assert_eq!(slot.consecutive_failures(), tick);
        assert_eq!(slot.state().risk_tolerance, fx(0.5));
    }
    slot.step(CycleEvent::Begin, &policy);
    slot.step(CycleEvent::Snapshot(quiet()), &policy);
    assert_eq!(slot.consecutive_failures(), 0);
    for _ in 0..3 {
        slot.step(CycleEvent::Begin, &policy);
        slot.step(CycleEvent::Snapshot(malformed()), &policy);
    }
    assert_eq!(slot.phase(), Phase::Faulted);
    assert_eq!(slot.consecutive_failures(), 3);
}

#[test]
fn rejection_leaves_state_and_skips_the_check() {
    let policy = FaultPolicy::default();
    let mut slot = AgentSlot::new(AgentKind::Rebalancer(RebalancerAgent::with_state(
        state("r", 900, 1000),
        fx(0.8),
    )));
    slot.step(CycleEvent::Begin, &policy);
    slot.step(CycleEvent::Snapshot(bullish()), &policy);
    let report = slot.step(CycleEvent::ActuatorRejected, &policy);
    assert_eq!(report, CycleReport { failure: Some(AgentError::Execution), ..silent(true) });
    assert_eq!(slot.phase(), Phase::Idle);
    assert_eq!(slot.consecutive_failures(), 1);
    assert_eq!(*slot.state(), state("r", 900, 1000));
}

#[test]
fn deadline_cancels_a_cycle() {
    let policy = FaultPolicy { max_consecutive_failures: 2, ..FaultPolicy::default() };
    let mut slot = AgentSlot::new(rebalancer("r"));
    slot.step(CycleEvent::Begin, &policy);
    assert_eq!(
        slot.step(CycleEvent::DeadlineExceeded, &policy),
        CycleReport { failure: Some(AgentError::Decision), ..silent(true) }
    );
    assert_eq!(slot.phase(), Phase::Idle);
    slot.step(CycleEvent::Begin, &policy);
    slot.step(CycleEvent::Snapshot(bullish()), &policy);
    assert_eq!(
        slot.step(CycleEvent::DeadlineExceeded, &policy),
        CycleReport { failure: Some(AgentError::Execution), ..silent(true) }
    );
    assert_eq!(slot.phase(), Phase::Faulted);
    assert_eq!(slot.step(CycleEvent::ActuatorConfirmed, &policy), silent(false));
}

#[test]
fn pause_and_resume() {
    let policy = FaultPolicy::default();
    let mut slot = AgentSlot::new(losing("l"));
    slot.pause();
    assert!(slot.is_paused());
    assert_eq!(slot.step(CycleEvent::Begin, &policy), silent(false));
    slot.resume();
    assert!(!slot.is_paused());
    slot.step(CycleEvent::Begin, &policy);
    slot.step(CycleEvent::Snapshot(quiet()), &policy);
    assert_eq!(slot.phase(), Phase::Faulted);
    assert_eq!(slot.consecutive_failures(), 1);
    assert_eq!(slot.step(CycleEvent::Begin, &policy), silent(false));
    slot.resume();
    assert_eq!(slot.phase(), Phase::Idle);
    assert_eq!(slot.consecutive_failures(), 0);
}

#[test]
fn default_fault_policy() {
    let policy = FaultPolicy::default();
    assert_eq!(policy.max_consecutive_failures, 3);
    assert!(policy.violation_is_fatal);
    assert!(!policy.count_feed_failures);
}

fn run_tick(
    orchestrator: &mut AgentOrchestrator,
    tick: u64,
    snapshot: &MarketData,
    rejected: &str,
    records: &mut Vec<DecisionRecord>,
    violations: &mut Vec<InvariantViolationEvent>,
) -> Vec<String> {
    let started = orchestrator.begin_tick();
    for id in &started {
        let answer = orchestrator.dispatch(id, CycleEvent::Snapshot(snapshot.clone()), tick).unwrap();
        records.extend(answer.decision_record());
        violations.extend(answer.violation_event());
        if let Command::Submit(_) = answer.report.command {
            let outcome = if id == rejected {
                CycleEvent::ActuatorRejected
            } else {
                CycleEvent::ActuatorConfirmed
            };
            let settled = orchestrator.dispatch(id, outcome, tick).unwrap();
            violations.extend(settled.violation_event());
        }
    }
    started
}

#[test]
fn failing_agent_does_not_block_a_healthy_one() {
    let mut orchestrator = AgentOrchestrator::new(FaultPolicy::default());
    assert!(orchestrator.register(rebalancer("rejected")).is_ok());
    assert!(orchestrator.register(rebalancer("healthy")).is_ok());
    let mut records = Vec::new();
    let mut violations = Vec::new();
    for tick in 1..=10u64 {
        let started =
            run_tick(&mut orchestrator, tick, &bullish(), "rejected", &mut records, &mut violations);
        assert!(started.contains(&"healthy".to_string()));
        let healthy: Vec<u64> =
            records.iter().filter(|r| r.agent_id == "healthy").map(|r| r.timestamp).collect();
        assert_eq!(healthy, (1..=tick).collect::<Vec<u64>>());
        assert_eq!(orchestrator.phase_of("healthy"), Some(Phase::Idle));
    }
    assert!(violations.is_empty());
    assert_eq!(orchestrator.phase_of("rejected"), Some(Phase::Faulted));
    let rejected: Vec<u64> =
        records.iter().filter(|r| r.agent_id == "rejected").map(|r| r.timestamp).collect();
    assert_eq!(rejected, vec![1, 2, 3]);
    assert_eq!(orchestrator.state_of("healthy").unwrap().capital, 1_000_000);
}

#[test]
fn patient_policy_keeps_the_failing_agent_trying() {
    let policy = FaultPolicy { max_consecutive_failures: 100, ..FaultPolicy::default() };
    let mut orchestrator = AgentOrchestrator::new(policy);
    orchestrator.register(rebalancer("rejected")).unwrap();
    orchestrator.register(rebalancer("healthy")).unwrap();
    let mut records = Vec::new();
    let mut violations = Vec::new();
    for tick in 1..=10u64 {
        run_tick(&mut orchestrator, tick, &bullish(), "rejected", &mut records, &mut violations);
    }
    assert_eq!(records.iter().filter(|r| r.agent_id == "healthy").count(), 10);
    assert_eq!(records.iter().filter(|r| r.agent_id == "rejected").count(), 10);
    assert_eq!(orchestrator.phase_of("rejected"), Some(Phase::Idle));
}

#[test]
fn three_violations_fault_once_under_a_tolerant_policy() {
    let policy = FaultPolicy { violation_is_fatal: false, ..FaultPolicy::default() };
    let mut orchestrator = AgentOrchestrator::new(policy);
    orchestrator.register(losing("loser")).unwrap();
    orchestrator.register(rebalancer("healthy")).unwrap();
    let mut records = Vec::new();
    let mut violations = Vec::new();
    let mut faulted_after = Vec::new();
    for tick in 1..=4u64 {
        let started = run_tick(&mut orchestrator, tick, &bullish(), "", &mut records, &mut violations);
        assert_eq!(started.contains(&"loser".to_string()), tick <= 3);
        faulted_after.push(orchestrator.phase_of("loser") == Some(Phase::Faulted));
        assert_eq!(violations.len() as u64, tick.min(3));
    }
    assert_eq!(faulted_after, vec![false, false, true, true]);
    let expected: Vec<InvariantViolationEvent> = (1..=3u64)
        .map(|tick| InvariantViolationEvent {
            agent_id: "loser".to_string(),
            initial_capital: 1000,
            observed_total_value: 900,
            timestamp: tick,
        })
        .collect();
    assert_eq!(violations, expected);
    assert_eq!(records.iter().filter(|r| r.agent_id == "healthy").count(), 4);
}

#[test]
fn one_violation_is_fatal_by_default() {
    let mut orchestrator = AgentOrchestrator::new(FaultPolicy::default());
    orchestrator.register(losing("loser")).unwrap();
    let mut records = Vec::new();
    let mut violations = Vec::new();
    for tick in 1..=4u64 {
        let started = run_tick(&mut orchestrator, tick, &quiet(), "", &mut records, &mut violations);
        assert_eq!(started.is_empty(), tick > 1);
        assert_eq!(orchestrator.phase_of("loser"), Some(Phase::Faulted));
    }
    assert_eq!(
        violations,
        vec![InvariantViolationEvent {
            agent_id: "loser".to_string(),
            initial_capital: 1000,
            observed_total_value: 900,
            timestamp: 1,
        }]
    );
    assert_eq!(records.len(), 1);
    assert!(orchestrator.resume("loser"));
    assert_eq!(orchestrator.phase_of("loser"), Some(Phase::Idle));
    assert_eq!(orchestrator.begin_tick(), vec!["loser".to_string()]);
}

#[test]
fn control_surface() {
    let mut orchestrator = AgentOrchestrator::new(FaultPolicy::default());
    assert_eq!(orchestrator.len(), 0);
    assert_eq!(orchestrator.policy(), FaultPolicy::default());
    assert!(orchestrator.register(rebalancer("a")).is_ok());
    assert!(orchestrator.register(losing("b")).is_ok());
    assert!(orchestrator.register(rebalancer("b")).is_err());
    assert_eq!(orchestrator.len(), 2);
    assert!(orchestrator.contains("a"));
    assert!(!orchestrator.contains("c"));
    assert_eq!(orchestrator.phase_of("c"), None);
    assert!(orchestrator.state_of("c").is_none());
    assert!(orchestrator.dispatch("c", CycleEvent::Begin, 0).is_none());
    assert!(!orchestrator.pause("c"));
    assert!(!orchestrator.resume("c"));
    assert!(orchestrator.deregister("c").is_none());

    assert!(orchestrator.pause("a"));
    assert_eq!(orchestrator.begin_tick(), vec!["b".to_string()]);
    assert_eq!(orchestrator.phase_of("a"), Some(Phase::Idle));
    assert_eq!(orchestrator.phase_of("b"), Some(Phase::Deciding));
    assert!(orchestrator.resume("a"));
    assert_eq!(orchestrator.begin_tick(), vec!["a".to_string()]);

    let answer = orchestrator.dispatch("b", CycleEvent::FeedFailed(FeedFailure::Network), 9).unwrap();
    assert_eq!(answer.agent_id, "b");
    assert_eq!(answer.timestamp, 9);
    assert_eq!(answer.report.failure, Some(AgentError::DataFeed(FeedFailure::Network)));
    assert_eq!(answer.decision_record(), None);
    assert_eq!(answer.violation_event(), None);
    assert_eq!(orchestrator.phase_of("a"), Some(Phase::Deciding));

    let gone = orchestrator.deregister("a").unwrap();
    assert_eq!(gone.id(), "a");
    assert_eq!(gone.state().capital, 1_000_000);
    assert_eq!(orchestrator.len(), 1);
    assert!(!orchestrator.contains("a"));
    assert!(orchestrator.contains("b"));
}
