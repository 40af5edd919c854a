//! Configuration of the backend.

use vstd::prelude::*;
use vstd::string::StringExecFns;
use crate::fixed::Fixed;

verus! {

/// Main configuration structure.
#[derive(Debug, Clone, PartialEq, Eq)]
pub struct Config {
    /// Server configuration.
    pub server: ServerConfig,
    /// Sui network configuration.
    pub sui: SuiConfig,
    /// Database configuration.
    pub database: DatabaseConfig,
    /// AI agent configuration.
    pub agents: AgentConfig,
    /// Security configuration.
    pub security: SecurityConfig,
}

/// Server configuration.
#[derive(Debug, Clone, PartialEq, Eq)]
pub struct ServerConfig {
    /// Host address.
    pub host: String,
    /// Port number.
    pub port: u16,
    /// Enable TLS.
    pub tls_enabled: bool,
}

/// Sui network configuration.
#[derive(Debug, Clone, PartialEq, Eq)]
pub struct SuiConfig {
    /// Network URL (testnet, devnet, mainnet).
    pub network_url: String,
    /// Wallet address.
    pub wallet_address: Option<String>,
    /// Package ID for deployed contracts.
    pub package_id: Option<String>,
}

/// Database configuration.
#[derive(Debug, Clone, PartialEq, Eq)]
pub struct DatabaseConfig {
    /// PostgreSQL connection URL.
    pub url: String,
    /// Maximum connections.
    pub max_connections: u32,
}

/// AI agent configuration.
#[derive(Debug, Clone, Copy, PartialEq, Eq, Structural)]
pub struct AgentConfig {
    /// Enable autonomous agents.
    pub enabled: bool,
    /// Rebalancing interval, in seconds.
    pub rebalance_interval: u64,
    /// Risk tolerance, in the unit interval.
    pub risk_tolerance: Fixed,
}

/// Security configuration.
#[derive(Debug, Clone, Copy, PartialEq, Eq, Structural)]
pub struct SecurityConfig {
    /// Enable post-quantum cryptography.
    pub pqc_enabled: bool,
    /// Enable hardware enclaves.
    pub hardware_enclaves_enabled: bool,
    /// Enable ZK proofs.
    pub zk_proofs_enabled: bool,
}

/// The port that the server listens on, unless told otherwise.
pub const DEFAULT_PORT: u16 = 8080;

/// How many database connections are kept, unless told otherwise.
pub const DEFAULT_MAX_CONNECTIONS: u32 = 10;

/// The seconds between two rebalancing ticks, unless told otherwise: five
/// minutes.
pub const DEFAULT_REBALANCE_INTERVAL: u64 = 300;

impl Default for Config {
    /// The configuration that is used where none is loaded.
    fn default() -> (config: Self)
        ensures
            config.server.host@ == "0.0.0.0"@,
            config.server.port == DEFAULT_PORT,
            config.server.tls_enabled,
            config.sui.network_url@ == "https://fullnode.testnet.sui.io:443"@,
            config.sui.wallet_address is None,
            config.sui.package_id is None,
            config.database.url@ == "postgres://localhost/manus_liquidity"@,
            config.database.max_connections == DEFAULT_MAX_CONNECTIONS,
            config.agents.enabled,
            config.agents.rebalance_interval == DEFAULT_REBALANCE_INTERVAL,
            config.agents.risk_tolerance@ == 500_000,
            config.security.pqc_enabled,
            !config.security.hardware_enclaves_enabled,
            config.security.zk_proofs_enabled,
    {
        Config {
            server: ServerConfig {
                host: String::from_str("0.0.0.0"),
                port: DEFAULT_PORT,
                tls_enabled: true,
            },
            sui: SuiConfig {
                network_url: String::from_str("https://fullnode.testnet.sui.io:443"),
                wallet_address: None,
                package_id: None,
            },
            database: DatabaseConfig {
                url: String::from_str("postgres://localhost/manus_liquidity"),
                max_connections: DEFAULT_MAX_CONNECTIONS,
            },
            agents: AgentConfig {
                enabled: true,
                rebalance_interval: DEFAULT_REBALANCE_INTERVAL,
                risk_tolerance: Fixed { micros: 500_000 },
            },
            security: SecurityConfig {
                pqc_enabled: true,
                hardware_enclaves_enabled: false,
                zk_proofs_enabled: true,
            },
        }
    }
}

} // verus!
