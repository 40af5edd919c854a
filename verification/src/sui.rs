//! Sui blockchain integration. No operation reaches the chain yet: each one
//! answers that it is not implemented.

use vstd::prelude::*;
use vstd::string::StringExecFns;
use crate::error::ManusError;

verus! {

/// Sui client.
#[derive(Debug, Clone, Copy, PartialEq, Eq, Structural)]
pub struct SuiClient {}

/// Vault information from the Sui blockchain.
#[derive(Debug, Clone, PartialEq, Eq)]
pub struct VaultInfo {
    /// Vault ID.
    pub id: String,
    /// Total value locked.
    pub total_value: u64,
    /// Total shares.
    pub total_shares: u64,
    /// Strategy name.
    pub strategy: String,
}

/// Whether an error is the one that an operation gives which is not
/// implemented.
pub open spec fn not_implemented(e: ManusError) -> bool {
    e matches ManusError::Sui(message) && message@ == "Not implemented"@
}

impl SuiClient {
    /// Create a new Sui client.
    pub fn new(network_url: &str) -> (r: Result<Self, ManusError>)
        ensures
            r is Ok,
    {
        Ok(SuiClient {  })
    }

    /// Get vault information.
    pub fn get_vault(&self, vault_id: &str) -> (r: Result<VaultInfo, ManusError>)
        ensures
            r matches Err(e) && not_implemented(e),
    {
        Err(ManusError::Sui(String::from_str("Not implemented")))
    }

    /// Execute deposit transaction.
    pub fn deposit(&self, vault_id: &str, amount: u64) -> (r: Result<String, ManusError>)
        ensures
            r matches Err(e) && not_implemented(e),
    {
        Err(ManusError::Sui(String::from_str("Not implemented")))
    }

    /// Execute withdrawal transaction.
    pub fn withdraw(&self, vault_id: &str, shares: u64) -> (r: Result<String, ManusError>)
        ensures
            r matches Err(e) && not_implemented(e),
    {
        Err(ManusError::Sui(String::from_str("Not implemented")))
    }
}

} // verus!
