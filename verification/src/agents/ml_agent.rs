//! Agent roles and their decision policies.
//!
//! The scoring is a fixed linear heuristic over four features of a market
//! snapshot. Its coefficients and thresholds are policy, stated here once in
//! the specification functions and computed by the executable ones.

use vstd::prelude::*;
use vstd::string::StringExecFns;
use crate::agents::{
    execute_action, targets_view, ActionView, Agent, AgentAction, AgentState,
    action_well_formed, weight_sum,
};
use crate::error::{AgentError, ManusError};
use crate::fixed::{nearest, relative_change, round_div, saturate, Fixed, SCALE};

verus! {

/// Market data: one snapshot of a trading pair.
#[derive(Debug, Clone, PartialEq, Eq)]
pub struct MarketData {
    /// Price history, oldest first.
    pub prices: Vec<Fixed>,
    /// Volume history, oldest first.
    pub volumes: Vec<Fixed>,
    /// Volatility, not negative.
    pub volatility: Fixed,
    /// Liquidity depth, not negative.
    pub liquidity: Fixed,
}

/// A scored decision.
#[derive(Debug, Clone, PartialEq, Eq)]
pub struct MLDecision {
    /// Recommended action.
    pub action: AgentAction,
    /// Confidence score, in the unit interval.
    pub confidence: Fixed,
    /// Predicted return.
    pub predicted_return: Fixed,
    /// Risk assessment, in the unit interval.
    pub risk_score: Fixed,
}

/// A scored decision as a mathematical value.
pub struct DecisionView {
    pub action: ActionView,
    pub confidence: int,
    pub predicted_return: int,
    pub risk_score: int,
}

impl View for MLDecision {
    type V = DecisionView;

    open spec fn view(&self) -> DecisionView {
        DecisionView {
            action: self.action@,
            confidence: self.confidence@,
            predicted_return: self.predicted_return@,
            risk_score: self.risk_score@,
        }
    }
}

/// The features that the policy reads off a snapshot.
#[derive(Debug, Clone, Copy, PartialEq, Eq, Structural)]
pub struct Features {
    /// Relative price change over the last five points.
    pub momentum: Fixed,
    /// Relative volume change over the whole history.
    pub volume_change: Fixed,
    /// The snapshot's volatility.
    pub volatility: Fixed,
    /// The snapshot's liquidity.
    pub liquidity: Fixed,
}

/// The market regimes that the analyzer tells apart.
#[derive(Debug, Clone, Copy, PartialEq, Eq, Structural)]
pub enum Regime {
    Volatile,
    Ranging,
    Trending,
    Unknown,
}

/// How many price points the momentum looks back over.
pub const MOMENTUM_WINDOW: usize = 5;

/// The least confidence at which a rebalancer acts, unless told otherwise:
/// 0.8.
pub const DEFAULT_MIN_CONFIDENCE: i64 = 800_000;

/// The risk tolerance that every role starts with: 0.5.
pub const DEFAULT_RISK_TOLERANCE: i64 = 500_000;

/// The risk score above which a rebalancer lowers its risk tolerance: 0.8.
pub const RISK_ALERT: i64 = 800_000;

/// The volatility below which the allocation leans to the risk asset: 0.2.
pub const CALM_VOLATILITY: i64 = 200_000;

/// The volatility above which the market counts as volatile: 0.3.
pub const VOLATILE_ABOVE: i64 = 300_000;

/// The price band within which the market counts as ranging: 0.01.
pub const RANGING_BAND: i64 = 10_000;

/// How many parameters the strategy optimizer returns.
pub const PARAMETER_COUNT: usize = 3;

/// Whether a snapshot is one that a policy can be computed from: neither
/// volatility nor liquidity is negative.
pub open spec fn snapshot_well_formed(data: MarketData) -> bool {
    data.volatility@ >= 0 && data.liquidity@ >= 0
}

/// Momentum: the relative change over the last five prices, and zero where
/// there are fewer or the first of them is zero.
pub open spec fn momentum(prices: Seq<Fixed>) -> int {
    if prices.len() >= MOMENTUM_WINDOW {
        relative_change(prices[prices.len() - MOMENTUM_WINDOW]@, prices[prices.len() - 1]@)
    } else {
        0
    }
}

/// Volume change: the relative change from the first volume to the last, and
/// zero where there are fewer than two or the first is zero.
pub open spec fn volume_change(volumes: Seq<Fixed>) -> int {
    if volumes.len() >= 2 {
        relative_change(volumes[0]@, volumes[volumes.len() - 1]@)
    } else {
        0
    }
}

/// The smaller of two integers.
pub open spec fn least(a: int, b: int) -> int {
    if a < b {
        a
    } else {
        b
    }
}

/// `0.4 momentum + 0.3 volume_change - 0.2 volatility + 0.1 liquidity`.
pub open spec fn predicted_return(
    momentum: int,
    volume_change: int,
    volatility: int,
    liquidity: int,
) -> int {
    saturate(round_div(4 * momentum + 3 * volume_change - 2 * volatility + liquidity, 10))
}

/// `min(liquidity / 1000, 1)`, in thousandths of a millionth.
pub open spec fn liquidity_factor(liquidity: int) -> int {
    least(liquidity, 1000 * SCALE)
}

/// `1 - min(volatility / 0.5, 1)`, in millionths.
pub open spec fn volatility_factor(volatility: int) -> int {
    SCALE - least(2 * volatility, SCALE as int)
}

/// `(liquidity_factor + volatility_factor) / 2`.
pub open spec fn confidence(volatility: int, liquidity: int) -> int {
    saturate(
        round_div(liquidity_factor(liquidity) + 1000 * volatility_factor(volatility), 2000),
    )
}

/// `min(volatility / 0.3, 1)`, in thirds of a millionth.
pub open spec fn volatility_risk(volatility: int) -> int {
    least(10 * volatility, 3 * SCALE)
}

/// `1 - min(liquidity / 1000, 1)`, in thousandths of a millionth.
pub open spec fn liquidity_risk(liquidity: int) -> int {
    1000 * SCALE - liquidity_factor(liquidity)
}

/// `(volatility_risk + liquidity_risk) / 2`.
pub open spec fn risk_score(volatility: int, liquidity: int) -> int {
    saturate(
        round_div(1000 * volatility_risk(volatility) + 3 * liquidity_risk(liquidity), 6000),
    )
}

/// The allocation table: 60% risk asset and 40% stable asset while volatility
/// is below 0.2, else 30% and 70%.
pub open spec fn allocation_table(volatility: int) -> Seq<(Seq<char>, int)> {
    if volatility < CALM_VOLATILITY {
        seq![("SUI"@, 600_000int), ("USDC"@, 400_000int)]
    } else {
        seq![("SUI"@, 300_000int), ("USDC"@, 700_000int)]
    }
}

/// The risk tolerance that an adjustment of risk proposes: four fifths of the
/// current one.
pub open spec fn lowered_tolerance(risk_tolerance: int) -> int {
    saturate(round_div(4 * risk_tolerance, 5))
}

/// The decision rule of the rebalancer, its conditions tried in this order.
pub open spec fn rebalancer_action(
    confidence: int,
    predicted_return: int,
    risk_score: int,
    volatility: int,
    min_confidence: int,
    risk_tolerance: int,
) -> ActionView {
    if confidence > min_confidence && predicted_return > 0 {
        ActionView::Rebalance { targets: allocation_table(volatility) }
    } else if risk_score > RISK_ALERT {
        ActionView::AdjustRisk { new_tolerance: lowered_tolerance(risk_tolerance) }
    } else {
        ActionView::Hold
    }
}

/// The action that a rebalancer with the given settings decides on a snapshot.
pub open spec fn rebalancer_choice(
    prices: Seq<Fixed>,
    volumes: Seq<Fixed>,
    volatility: int,
    liquidity: int,
    min_confidence: int,
    risk_tolerance: int,
) -> ActionView {
    rebalancer_action(
        confidence(volatility, liquidity),
        predicted_return(momentum(prices), volume_change(volumes), volatility, liquidity),
        risk_score(volatility, liquidity),
        volatility,
        min_confidence,
        risk_tolerance,
    )
}

/// Whether a decision is the one that a rebalancer with the given settings
/// reaches on a snapshot: the three scores by their formulas, and the action
/// by the decision rule.
pub open spec fn scored_as(
    d: MLDecision,
    data: MarketData,
    min_confidence: int,
    risk_tolerance: int,
) -> bool {
    d@ == rebalancer_decision(data, min_confidence, risk_tolerance)
}

/// The decision that a rebalancer with the given settings reaches on a
/// well-formed snapshot.
pub open spec fn rebalancer_decision(
    data: MarketData,
    min_confidence: int,
    risk_tolerance: int,
) -> DecisionView {
    DecisionView {
        action: rebalancer_choice(
            data.prices@,
            data.volumes@,
            data.volatility@,
            data.liquidity@,
            min_confidence,
            risk_tolerance,
        ),
        confidence: confidence(data.volatility@, data.liquidity@),
        predicted_return: predicted_return(
            momentum(data.prices@),
            volume_change(data.volumes@),
            data.volatility@,
            data.liquidity@,
        ),
        risk_score: risk_score(data.volatility@, data.liquidity@),
    }
}

/// The decision of a role that does not score the market: the given action,
/// with every score at zero.
pub open spec fn unscored(action: ActionView) -> DecisionView {
    DecisionView { action, confidence: 0, predicted_return: 0, risk_score: 0 }
}

/// Whether `drawdown = 1 - capital / initial_capital` is below `max_drawdown`.
/// Without initial capital the drawdown is undefined: the limits then hold
/// while there is any capital at all.
pub open spec fn within_risk_limits(capital: int, initial_capital: int, max_drawdown: int) -> bool {
    if initial_capital > 0 {
        (initial_capital - capital) * SCALE < max_drawdown * initial_capital
    } else {
        capital > 0
    }
}

/// The action of the risk manager: withdraw once the limits are reached.
pub open spec fn risk_manager_action(
    capital: int,
    initial_capital: int,
    max_drawdown: int,
) -> ActionView {
    if within_risk_limits(capital, initial_capital, max_drawdown) {
        ActionView::Hold
    } else {
        ActionView::EmergencyWithdraw
    }
}

/// The regime of a market: volatile above a volatility of 0.3; else, with two
/// price points or more, ranging where the last price is within 0.01 of the
/// first and trending where it is not; else unknown.
pub open spec fn regime(prices: Seq<Fixed>, volatility: int) -> Regime {
    if volatility > VOLATILE_ABOVE {
        Regime::Volatile
    } else if prices.len() >= 2 {
        let trend = prices[prices.len() - 1]@ - prices[0]@;
        if -RANGING_BAND < trend < RANGING_BAND {
            Regime::Ranging
        } else {
            Regime::Trending
        }
    } else {
        Regime::Unknown
    }
}

/// The name of a regime.
pub open spec fn regime_label(regime: Regime) -> Seq<char> {
    match regime {
        Regime::Volatile => "volatile"@,
        Regime::Ranging => "ranging"@,
        Regime::Trending => "trending"@,
        Regime::Unknown => "unknown"@,
    }
}

/// The prices of the snapshot that a rebalancer decides on when it is given
/// none.
pub open spec fn reference_prices() -> Seq<Fixed> {
    seq![
        Fixed { micros: 1_000_000 },
        Fixed { micros: 1_050_000 },
        Fixed { micros: 1_030_000 },
        Fixed { micros: 1_070_000 },
        Fixed { micros: 1_100_000 },
    ]
}

/// The volumes of that snapshot.
pub open spec fn reference_volumes() -> Seq<Fixed> {
    seq![
        Fixed { micros: 1_000_000_000 },
        Fixed { micros: 1_200_000_000 },
        Fixed { micros: 1_100_000_000 },
        Fixed { micros: 1_300_000_000 },
        Fixed { micros: 1_400_000_000 },
    ]
}

/// Its volatility: 0.15.
pub const REFERENCE_VOLATILITY: i64 = 150_000;

/// Its liquidity: 5000.
pub const REFERENCE_LIQUIDITY: i64 = 5_000_000_000;

impl MarketData {
    /// Whether a policy can be computed from this snapshot.
    pub fn is_well_formed(&self) -> (b: bool)
        ensures
            b == snapshot_well_formed(*self),
    {
        self.volatility.micros >= 0 && self.liquidity.micros >= 0
    }

    /// The snapshot that a rebalancer decides on when it is given none.
    pub fn reference() -> (data: MarketData)
        ensures
            data.prices@ == reference_prices(),
            data.volumes@ == reference_volumes(),
            data.volatility@ == REFERENCE_VOLATILITY,
            data.liquidity@ == REFERENCE_LIQUIDITY,
    {
        let mut prices: Vec<Fixed> = Vec::new();
        prices.push(Fixed { micros: 1_000_000 });
        prices.push(Fixed { micros: 1_050_000 });
        prices.push(Fixed { micros: 1_030_000 });
        prices.push(Fixed { micros: 1_070_000 });
        prices.push(Fixed { micros: 1_100_000 });
        let mut volumes: Vec<Fixed> = Vec::new();
        volumes.push(Fixed { micros: 1_000_000_000 });
        volumes.push(Fixed { micros: 1_200_000_000 });
        volumes.push(Fixed { micros: 1_100_000_000 });
        volumes.push(Fixed { micros: 1_300_000_000 });
        volumes.push(Fixed { micros: 1_400_000_000 });
        assert(prices@ =~= reference_prices());
        assert(volumes@ =~= reference_volumes());
        MarketData {
            prices,
            volumes,
            volatility: Fixed { micros: REFERENCE_VOLATILITY },
            liquidity: Fixed { micros: REFERENCE_LIQUIDITY },
        }
    }
}

/// Extracts the features of a snapshot.
pub fn extract_features(data: &MarketData) -> (f: Features)
    ensures
        f.momentum@ == momentum(data.prices@),
        f.volume_change@ == volume_change(data.volumes@),
        f.volatility == data.volatility,
        f.liquidity == data.liquidity,
{
    let n: usize = data.prices.len();
    let momentum = if n >= MOMENTUM_WINDOW {
        Fixed::relative_change(data.prices[n - MOMENTUM_WINDOW], data.prices[n - 1])
    } else {
        Fixed::zero()
    };
    let k: usize = data.volumes.len();
    let volume_change = if k >= 2 {
        Fixed::relative_change(data.volumes[0], data.volumes[k - 1])
    } else {
        Fixed::zero()
    };
    Features { momentum, volume_change, volatility: data.volatility, liquidity: data.liquidity }
}

/// Predicts the expected return from the features.
pub fn predict_return(features: &Features) -> (r: Fixed)
    ensures
        r@ == predicted_return(
            features.momentum@,
            features.volume_change@,
            features.volatility@,
            features.liquidity@,
        ),
{
    let sum: i128 = 4 * (features.momentum.micros as i128) + 3 * (
    features.volume_change.micros as i128) - 2 * (features.volatility.micros as i128) + (
    features.liquidity.micros as i128);
    Fixed::saturating(nearest(sum, 10))
}

/// Scores the confidence in a decision: higher with more liquidity and with
/// less volatility.
pub fn calculate_confidence(volatility: Fixed, liquidity: Fixed) -> (r: Fixed)
    ensures
        r@ == confidence(volatility@, liquidity@),
{
    let cap: i128 = 1000 * (SCALE as i128);
    let l: i128 = liquidity.micros as i128;
    let liquidity_part: i128 = if l < cap { l } else { cap };
    let twice: i128 = 2 * (volatility.micros as i128);
    let volatility_part: i128 = if twice < SCALE as i128 {
        SCALE as i128 - twice
    } else {
        0
    };
    Fixed::saturating(nearest(liquidity_part + 1000 * volatility_part, 2000))
}

/// Scores the risk of the market: higher with more volatility and with less
/// liquidity.
pub fn assess_risk(volatility: Fixed, liquidity: Fixed) -> (r: Fixed)
    ensures
        r@ == risk_score(volatility@, liquidity@),
{
    let cap: i128 = 1000 * (SCALE as i128);
    let l: i128 = liquidity.micros as i128;
    let liquidity_part: i128 = if l < cap { cap - l } else { 0 };
    let tenfold: i128 = 10 * (volatility.micros as i128);
    let volatility_part: i128 = if tenfold < 3 * (SCALE as i128) {
        tenfold
    } else {
        3 * (SCALE as i128)
    };
    Fixed::saturating(nearest(1000 * volatility_part + 3 * liquidity_part, 6000))
}

/// Looks up the allocation for a volatility.
pub fn calculate_optimal_allocation(volatility: Fixed) -> (targets: Vec<(String, Fixed)>)
    ensures
        targets_view(targets@) == allocation_table(volatility@),
{
    let mut targets: Vec<(String, Fixed)> = Vec::new();
    if volatility.micros < CALM_VOLATILITY {
        targets.push((String::from_str("SUI"), Fixed { micros: 600_000 }));
        targets.push((String::from_str("USDC"), Fixed { micros: 400_000 }));
    } else {
        targets.push((String::from_str("SUI"), Fixed { micros: 300_000 }));
        targets.push((String::from_str("USDC"), Fixed { micros: 700_000 }));
    }
    assert(targets_view(targets@) =~= allocation_table(volatility@));
    targets
}

/// Rebalancer agent: scores the market and moves the portfolio between a risk
/// asset and a stable asset.
#[derive(Debug)]
pub struct RebalancerAgent {
    state: AgentState,
    min_confidence: Fixed,
}

impl RebalancerAgent {
    /// The least confidence at which this agent acts.
    pub closed spec fn spec_min_confidence(&self) -> int {
        self.min_confidence@
    }

    /// Create a new rebalancer agent.
    pub fn new(id: String, initial_capital: u64) -> (agent: Self)
        ensures
            agent.spec_state().id == id,
            agent.spec_state().capital == initial_capital,
            agent.spec_state().initial_capital == initial_capital,
            agent.spec_state().positions@.len() == 0,
            agent.spec_state().risk_tolerance@ == DEFAULT_RISK_TOLERANCE,
            agent.spec_min_confidence() == DEFAULT_MIN_CONFIDENCE,
    {
        Self {
            state: AgentState {
                id,
                capital: initial_capital,
                initial_capital,
                positions: Vec::new(),
                risk_tolerance: Fixed { micros: DEFAULT_RISK_TOLERANCE },
            },
            min_confidence: Fixed { micros: DEFAULT_MIN_CONFIDENCE },
        }
    }

    /// A rebalancer that takes up a state as it stands.
    pub fn with_state(state: AgentState, min_confidence: Fixed) -> (agent: Self)
        ensures
            agent.spec_state() == state,
            agent.spec_min_confidence() == min_confidence@,
    {
        Self { state, min_confidence }
    }

    /// The least confidence at which this agent acts.
    pub fn min_confidence(&self) -> (r: Fixed)
        ensures
            r@ == self.spec_min_confidence(),
    {
        self.min_confidence
    }

    /// Analyze a snapshot: score it and choose the action. A snapshot that is
    /// not well-formed is refused; every other one is decided.
    pub fn analyze(&self, market_data: &MarketData) -> (r: Result<MLDecision, ManusError>)
        ensures
            match r {
                Ok(d) => snapshot_well_formed(*market_data) && scored_as(
                    d,
                    *market_data,
                    self.spec_min_confidence(),
                    self.spec_state().risk_tolerance@,
                ),
                Err(e) => !snapshot_well_formed(*market_data) && e == ManusError::Agent(
                    AgentError::Decision,
                ),
            },
    {
        if !market_data.is_well_formed() {
            return Err(ManusError::Agent(AgentError::Decision));
        }
        let features = extract_features(market_data);
        let prediction = predict_return(&features);
        let confidence = calculate_confidence(market_data.volatility, market_data.liquidity);
        let risk_score = assess_risk(market_data.volatility, market_data.liquidity);
        let action = if confidence.micros > self.min_confidence.micros && prediction.micros > 0 {
            AgentAction::Rebalance {
                targets: calculate_optimal_allocation(market_data.volatility),
            }
        } else if risk_score.micros > RISK_ALERT {
            AgentAction::AdjustRisk { new_tolerance: self.state.risk_tolerance.scale(4, 5) }
        } else {
            AgentAction::Hold
        };
        Ok(MLDecision { action, confidence, predicted_return: prediction, risk_score })
    }
}

impl Agent for RebalancerAgent {
    closed spec fn spec_state(&self) -> AgentState {
        self.state
    }

    open spec fn choice(&self) -> ActionView {
        rebalancer_choice(
            reference_prices(),
            reference_volumes(),
            REFERENCE_VOLATILITY as int,
            REFERENCE_LIQUIDITY as int,
            self.spec_min_confidence(),
            self.spec_state().risk_tolerance@,
        )
    }

    fn id(&self) -> (id: &str) {
        self.state.id.as_str()
    }

    fn state(&self) -> (state: &AgentState) {
        &self.state
    }

    fn decide(&mut self) -> (r: Result<AgentAction, ManusError>) {
        let data = MarketData::reference();
        match self.analyze(&data) {
            Ok(decision) => Ok(decision.action),
            Err(e) => Err(e),
        }
    }

    fn execute(&mut self, action: AgentAction) -> (r: Result<(), ManusError>)
        ensures
            final(self).spec_min_confidence() == old(self).spec_min_confidence(),
    {
        match execute_action(&mut self.state, &action) {
            Ok(()) => Ok(()),
            Err(e) => Err(ManusError::Agent(e)),
        }
    }
}

/// Whether a decision is that of a role which does not score the market: the
/// given action, with every score at zero.
pub open spec fn unscored_as(d: MLDecision, action: ActionView) -> bool {
    d@ == unscored(action)
}

impl MLDecision {
    /// The decision of a role that does not score the market: its action, with
    /// every score at zero.
    pub fn unscored(action: AgentAction) -> (d: MLDecision)
        ensures
            d.action == action,
            unscored_as(d, action@),
    {
        MLDecision {
            action,
            confidence: Fixed::zero(),
            predicted_return: Fixed::zero(),
            risk_score: Fixed::zero(),
        }
    }
}

/// Strategy optimizer agent: returns the parameters of the strategy. The
/// values are fixed; a search over past snapshots is to take their place.
#[derive(Debug)]
pub struct StrategyOptimizerAgent {
    state: AgentState,
}

/// The parameters that the optimizer returns, in millionths.
pub open spec fn optimized_parameters() -> Seq<int> {
    seq![500_000int, 300_000int, 200_000int]
}

impl StrategyOptimizerAgent {
    /// Create a new strategy optimizer agent.
    pub fn new(id: String, initial_capital: u64) -> (agent: Self)
        ensures
            agent.spec_state().id == id,
            agent.spec_state().capital == initial_capital,
            agent.spec_state().initial_capital == initial_capital,
            agent.spec_state().positions@.len() == 0,
            agent.spec_state().risk_tolerance@ == DEFAULT_RISK_TOLERANCE,
    {
        Self {
            state: AgentState {
                id,
                capital: initial_capital,
                initial_capital,
                positions: Vec::new(),
                risk_tolerance: Fixed { micros: DEFAULT_RISK_TOLERANCE },
            },
        }
    }

    /// An optimizer that takes up a state as it stands.
    pub fn with_state(state: AgentState) -> (agent: Self)
        ensures
            agent.spec_state() == state,
    {
        Self { state }
    }

    /// Optimize strategy parameters. The result has `PARAMETER_COUNT` entries,
    /// whatever history it is given.
    pub fn optimize_parameters(&self, historical_data: &[MarketData]) -> (r: Result<
        Vec<Fixed>,
        ManusError,
    >)
        ensures
            r matches Ok(parameters) && parameters@.len() == PARAMETER_COUNT
                && parameters@.map_values(|p: Fixed| p@) == optimized_parameters(),
    {
        let mut parameters: Vec<Fixed> = Vec::new();
        parameters.push(Fixed { micros: 500_000 });
        parameters.push(Fixed { micros: 300_000 });
        parameters.push(Fixed { micros: 200_000 });
        assert(parameters@.map_values(|p: Fixed| p@) =~= optimized_parameters());
        Ok(parameters)
    }

    /// The decision for a cycle: hold, whatever the snapshot.
    pub fn decide_on(&self, market_data: &MarketData) -> (r: Result<MLDecision, ManusError>)
        ensures
            r matches Ok(d) && unscored_as(d, ActionView::Hold),
    {
        Ok(MLDecision::unscored(AgentAction::Hold))
    }
}

impl Agent for StrategyOptimizerAgent {
    closed spec fn spec_state(&self) -> AgentState {
        self.state
    }

    open spec fn choice(&self) -> ActionView {
        ActionView::Hold
    }

    fn id(&self) -> (id: &str) {
        self.state.id.as_str()
    }

    fn state(&self) -> (state: &AgentState) {
        &self.state
    }

    fn decide(&mut self) -> (r: Result<AgentAction, ManusError>) {
        Ok(AgentAction::Hold)
    }

    fn execute(&mut self, action: AgentAction) -> (r: Result<(), ManusError>) {
        match execute_action(&mut self.state, &action) {
            Ok(()) => Ok(()),
            Err(e) => Err(ManusError::Agent(e)),
        }
    }
}

/// Risk manager agent: watches the drawdown and withdraws once it reaches the
/// limit.
#[derive(Debug)]
pub struct RiskManagerAgent {
    state: AgentState,
    max_drawdown: Fixed,
}

impl RiskManagerAgent {
    /// The drawdown at which this agent withdraws.
    pub closed spec fn spec_max_drawdown(&self) -> int {
        self.max_drawdown@
    }

    /// Create a new risk manager agent.
    pub fn new(id: String, initial_capital: u64, max_drawdown: Fixed) -> (agent: Self)
        ensures
            agent.spec_state().id == id,
            agent.spec_state().capital == initial_capital,
            agent.spec_state().initial_capital == initial_capital,
            agent.spec_state().positions@.len() == 0,
            agent.spec_state().risk_tolerance@ == DEFAULT_RISK_TOLERANCE,
            agent.spec_max_drawdown() == max_drawdown@,
    {
        Self {
            state: AgentState {
                id,
                capital: initial_capital,
                initial_capital,
                positions: Vec::new(),
                risk_tolerance: Fixed { micros: DEFAULT_RISK_TOLERANCE },
            },
            max_drawdown,
        }
    }

    /// A risk manager that takes up a state as it stands.
    pub fn with_state(state: AgentState, max_drawdown: Fixed) -> (agent: Self)
        ensures
            agent.spec_state() == state,
            agent.spec_max_drawdown() == max_drawdown@,
    {
        Self { state, max_drawdown }
    }

    /// Check the risk limits: whether the drawdown is below the limit.
    pub fn check_risk_limits(&self) -> (r: Result<bool, ManusError>)
        ensures
            r == Ok::<bool, ManusError>(
                within_risk_limits(
                    self.spec_state().capital as int,
                    self.spec_state().initial_capital as int,
                    self.spec_max_drawdown(),
                ),
            ),
    {
        let capital: i128 = self.state.capital as i128;
        let initial: i128 = self.state.initial_capital as i128;
        if initial == 0 {
            return Ok(capital > 0);
        }
        let lost: i128 = initial - capital;
        let limit: i128 = self.max_drawdown.micros as i128;
        assert(-0xffff_ffff_ffff_ffff * 1_000_000 <= lost * SCALE <= 0xffff_ffff_ffff_ffff
            * 1_000_000) by (nonlinear_arith)
            requires
                -0xffff_ffff_ffff_ffff <= lost <= 0xffff_ffff_ffff_ffff,
                SCALE == 1_000_000,
        ;
        assert(-0x8000_0000_0000_0000 * 0xffff_ffff_ffff_ffff <= limit * initial
            <= 0x8000_0000_0000_0000 * 0xffff_ffff_ffff_ffff) by (nonlinear_arith)
            requires
                -0x8000_0000_0000_0000 <= limit <= 0x8000_0000_0000_0000,
                0 <= initial <= 0xffff_ffff_ffff_ffff,
        ;
        Ok(lost * (SCALE as i128) < limit * initial)
    }

    /// The decision for a cycle: withdraw once the limits are reached, else
    /// hold, whatever the snapshot.
    pub fn decide_on(&self, market_data: &MarketData) -> (r: Result<MLDecision, ManusError>)
        ensures
            r matches Ok(d) && unscored_as(d, self.choice()),
    {
        let within = match self.check_risk_limits() {
            Ok(b) => b,
            Err(_) => true,
        };
        if within {
            Ok(MLDecision::unscored(AgentAction::Hold))
        } else {
            Ok(MLDecision::unscored(AgentAction::EmergencyWithdraw))
        }
    }
}

impl Agent for RiskManagerAgent {
    closed spec fn spec_state(&self) -> AgentState {
        self.state
    }

    open spec fn choice(&self) -> ActionView {
        risk_manager_action(
            self.spec_state().capital as int,
            self.spec_state().initial_capital as int,
            self.spec_max_drawdown(),
        )
    }

    fn id(&self) -> (id: &str) {
        self.state.id.as_str()
    }

    fn state(&self) -> (state: &AgentState) {
        &self.state
    }

    fn decide(&mut self) -> (r: Result<AgentAction, ManusError>) {
        let within = match self.check_risk_limits() {
            Ok(b) => b,
            Err(_) => true,
        };
        if within {
            Ok(AgentAction::Hold)
        } else {
            Ok(AgentAction::EmergencyWithdraw)
        }
    }

    fn execute(&mut self, action: AgentAction) -> (r: Result<(), ManusError>)
        ensures
            final(self).spec_max_drawdown() == old(self).spec_max_drawdown(),
    {
        match execute_action(&mut self.state, &action) {
            Ok(()) => Ok(()),
            Err(e) => Err(ManusError::Agent(e)),
        }
    }
}

impl Regime {
    /// The name of this regime.
    pub fn label(self) -> (name: &'static str)
        ensures
            name@ == regime_label(self),
    {
        match self {
            Regime::Volatile => "volatile",
            Regime::Ranging => "ranging",
            Regime::Trending => "trending",
            Regime::Unknown => "unknown",
        }
    }
}

/// Classifies the market of a snapshot.
pub fn classify_regime(data: &MarketData) -> (r: Regime)
    ensures
        r == regime(data.prices@, data.volatility@),
{
    let n: usize = data.prices.len();
    if data.volatility.micros > VOLATILE_ABOVE {
        Regime::Volatile
    } else if n >= 2 {
        let trend: i128 = data.prices[n - 1].micros as i128 - data.prices[0].micros as i128;
        if -(RANGING_BAND as i128) < trend && trend < RANGING_BAND as i128 {
            Regime::Ranging
        } else {
            Regime::Trending
        }
    } else {
        Regime::Unknown
    }
}

/// Market analyzer agent: classifies market conditions. It changes no state.
#[derive(Debug)]
pub struct MarketAnalyzerAgent {
    state: AgentState,
}

impl MarketAnalyzerAgent {
    /// Create a new market analyzer agent.
    pub fn new(id: String, initial_capital: u64) -> (agent: Self)
        ensures
            agent.spec_state().id == id,
            agent.spec_state().capital == initial_capital,
            agent.spec_state().initial_capital == initial_capital,
            agent.spec_state().positions@.len() == 0,
            agent.spec_state().risk_tolerance@ == DEFAULT_RISK_TOLERANCE,
    {
        Self {
            state: AgentState {
                id,
                capital: initial_capital,
                initial_capital,
                positions: Vec::new(),
                risk_tolerance: Fixed { micros: DEFAULT_RISK_TOLERANCE },
            },
        }
    }

    /// An analyzer that takes up a state as it stands.
    pub fn with_state(state: AgentState) -> (agent: Self)
        ensures
            agent.spec_state() == state,
    {
        Self { state }
    }

    /// Analyze market regime: the name of the regime of the snapshot.
    pub fn analyze_regime(&self, data: &MarketData) -> (label: String)
        ensures
            label@ == regime_label(regime(data.prices@, data.volatility@)),
    {
        String::from_str(classify_regime(data).label())
    }

    /// The decision for a cycle: hold, whatever the snapshot.
    pub fn decide_on(&self, market_data: &MarketData) -> (r: Result<MLDecision, ManusError>)
        ensures
            r matches Ok(d) && unscored_as(d, ActionView::Hold),
    {
        Ok(MLDecision::unscored(AgentAction::Hold))
    }
}

impl Agent for MarketAnalyzerAgent {
    closed spec fn spec_state(&self) -> AgentState {
        self.state
    }

    open spec fn choice(&self) -> ActionView {
        ActionView::Hold
    }

    fn id(&self) -> (id: &str) {
        self.state.id.as_str()
    }

    fn state(&self) -> (state: &AgentState) {
        &self.state
    }

    fn decide(&mut self) -> (r: Result<AgentAction, ManusError>) {
        Ok(AgentAction::Hold)
    }

    fn execute(&mut self, action: AgentAction) -> (r: Result<(), ManusError>) {
        match execute_action(&mut self.state, &action) {
            Ok(()) => Ok(()),
            Err(e) => Err(ManusError::Agent(e)),
        }
    }
}

/// Confidence and risk score lie in the unit interval for every snapshot whose
/// volatility lies in the unit interval and whose liquidity is not negative.
pub proof fn lemma_scores_in_unit_interval(volatility: int, liquidity: int)
    requires
        0 <= volatility <= SCALE,
        liquidity >= 0,
    ensures
        0 <= confidence(volatility, liquidity) <= SCALE,
        0 <= risk_score(volatility, liquidity) <= SCALE,
{
}

/// With positive momentum, positive volume change, no volatility and positive
/// liquidity, the predicted return is positive.
pub proof fn lemma_gains_predict_gain(
    momentum: int,
    volume_change: int,
    volatility: int,
    liquidity: int,
)
    requires
        momentum > 0,
        volume_change > 0,
        volatility == 0,
        liquidity > 0,
    ensures
        predicted_return(momentum, volume_change, volatility, liquidity) > 0,
{
}

/// The risk manager withdraws exactly when the drawdown
/// `1 - capital / initial_capital` has reached `max_drawdown`; a drawdown equal
/// to the limit counts as reached.
pub proof fn lemma_withdraw_iff_drawdown_reached(
    capital: int,
    initial_capital: int,
    max_drawdown: int,
)
    requires
        initial_capital > 0,
    ensures
        risk_manager_action(capital, initial_capital, max_drawdown)
            == ActionView::EmergencyWithdraw <==> (initial_capital - capital) * SCALE
            >= max_drawdown * initial_capital,
        risk_manager_action(capital, initial_capital, max_drawdown) == ActionView::Hold <==> (
        initial_capital - capital) * SCALE < max_drawdown * initial_capital,
{
}

/// Every action that a rebalancer decides is one that the data model admits,
/// provided its risk tolerance lies in the unit interval.
pub proof fn lemma_rebalancer_choice_well_formed(
    prices: Seq<Fixed>,
    volumes: Seq<Fixed>,
    volatility: int,
    liquidity: int,
    min_confidence: int,
    risk_tolerance: int,
)
    requires
        0 <= risk_tolerance <= SCALE,
    ensures
        action_well_formed(
            rebalancer_choice(
                prices,
                volumes,
                volatility,
                liquidity,
                min_confidence,
                risk_tolerance,
            ),
        ),
{
    lemma_allocation_balanced(volatility);
    let action = rebalancer_choice(
        prices,
        volumes,
        volatility,
        liquidity,
        min_confidence,
        risk_tolerance,
    );
    match action {
        ActionView::Rebalance { targets } => {
            assert(targets == allocation_table(volatility));
        },
        ActionView::AdjustRisk { new_tolerance } => {
            assert(new_tolerance == lowered_tolerance(risk_tolerance));
            assert(0 <= round_div(4 * risk_tolerance, 5) <= SCALE);
        },
        _ => {},
    }
}

/// The weights of every row of the allocation table sum to one.
pub proof fn lemma_allocation_balanced(volatility: int)
    ensures
        allocation_table(volatility).len() == 2,
        weight_sum(allocation_table(volatility)) == SCALE,
{
    let table = allocation_table(volatility);
    assert(table.len() == 2);
    let head = table.drop_last();
    assert(head.len() == 1);
    assert(head.drop_last().len() == 0);
    assert(weight_sum(head.drop_last()) == 0);
    assert(weight_sum(head) == head.last().1);
    assert(head.last() == table[0]);
    assert(weight_sum(table) == table[0].1 + table[1].1);
}

} // verus!
