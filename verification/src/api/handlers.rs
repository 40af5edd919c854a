//! What the request handlers answer. The transport stands outside this
//! crate: a handler here takes plain values and gives plain values back.

use vstd::prelude::*;
use vstd::string::StringExecFns;
use crate::fixed::Fixed;

verus! {

/// Health check response.
#[derive(Debug, Clone, PartialEq, Eq)]
pub struct HealthResponse {
    pub status: String,
    pub version: String,
}

/// Vault information.
#[derive(Debug, Clone, PartialEq, Eq)]
pub struct VaultInfo {
    pub id: String,
    pub total_value: u64,
    pub total_shares: u64,
    pub strategy: String,
}

/// Deposit request.
#[derive(Debug, Clone, PartialEq, Eq)]
pub struct DepositRequest {
    pub vault_id: String,
    pub amount: u64,
}

/// Deposit response.
#[derive(Debug, Clone, PartialEq, Eq)]
pub struct DepositResponse {
    pub transaction_digest: String,
    pub shares_minted: u64,
}

/// Withdrawal request.
#[derive(Debug, Clone, PartialEq, Eq)]
pub struct WithdrawRequest {
    pub vault_id: String,
    pub shares: u64,
}

/// Withdrawal response.
#[derive(Debug, Clone, PartialEq, Eq)]
pub struct WithdrawResponse {
    pub transaction_digest: String,
    pub amount_withdrawn: u64,
}

/// Strategy information.
#[derive(Debug, Clone, PartialEq, Eq)]
pub struct StrategyInfo {
    pub id: String,
    pub name: String,
    pub description: String,
    pub performance: Fixed,
}

/// Platform metrics.
#[derive(Debug, Clone, Copy, PartialEq, Eq, Structural)]
pub struct Metrics {
    pub total_value_locked: u64,
    pub total_users: u64,
    pub gas_efficiency: Fixed,
    pub uptime: Fixed,
}

/// Why a handler has no answer.
#[derive(Debug, Clone, Copy, PartialEq, Eq, Structural)]
pub enum HandlerError {
    /// The handler is not implemented yet.
    NotImplemented,
}

/// The gas efficiency that the platform reports: 0.67.
pub const REPORTED_GAS_EFFICIENCY: i64 = 670_000;

/// The uptime that the platform reports: 0.9999.
pub const REPORTED_UPTIME: i64 = 999_900;

/// Health check: the service is healthy, at the given version.
pub fn health_check(version: &str) -> (response: HealthResponse)
    ensures
        response.status@ == "healthy"@,
        response.version@ == version@,
{
    HealthResponse { status: String::from_str("healthy"), version: String::from_str(version) }
}

/// List all vaults: none yet.
pub fn list_vaults() -> (vaults: Vec<VaultInfo>)
    ensures
        vaults@.len() == 0,
{
    Vec::new()
}

/// Get vault by ID: not implemented yet.
pub fn get_vault(id: &str) -> (r: Result<VaultInfo, HandlerError>)
    ensures
        r == Err::<VaultInfo, HandlerError>(HandlerError::NotImplemented),
{
    Err(HandlerError::NotImplemented)
}

/// Handle deposit: not implemented yet.
pub fn deposit(request: &DepositRequest) -> (r: Result<DepositResponse, HandlerError>)
    ensures
        r == Err::<DepositResponse, HandlerError>(HandlerError::NotImplemented),
{
    Err(HandlerError::NotImplemented)
}

/// Handle withdrawal: not implemented yet.
pub fn withdraw(request: &WithdrawRequest) -> (r: Result<WithdrawResponse, HandlerError>)
    ensures
        r == Err::<WithdrawResponse, HandlerError>(HandlerError::NotImplemented),
{
    Err(HandlerError::NotImplemented)
}

/// List all strategies: none yet.
pub fn list_strategies() -> (strategies: Vec<StrategyInfo>)
    ensures
        strategies@.len() == 0,
{
    Vec::new()
}

/// Get platform metrics.
pub fn get_metrics() -> (metrics: Metrics)
    ensures
        metrics.total_value_locked == 0,
        metrics.total_users == 0,
        metrics.gas_efficiency@ == REPORTED_GAS_EFFICIENCY,
        metrics.uptime@ == REPORTED_UPTIME,
{
    Metrics {
        total_value_locked: 0,
        total_users: 0,
        gas_efficiency: Fixed { micros: REPORTED_GAS_EFFICIENCY },
        uptime: Fixed { micros: REPORTED_UPTIME },
    }
}

} // verus!
