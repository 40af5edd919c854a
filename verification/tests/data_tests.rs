use manus_backend::api::handlers::{
    deposit, get_metrics, get_vault, health_check, list_strategies, list_vaults, withdraw,
    DepositRequest, HandlerError, WithdrawRequest,
};
use manus_backend::config::Config;
use manus_backend::error::ManusError;
use manus_backend::fixed::Fixed;
use manus_backend::sui::SuiClient;
use manus_backend::wasm::{PluginResult, StrategyPlugin};

#[test]
fn default_configuration() {
    let config = Config::default();
    assert_eq!(config.server.host, "0.0.0.0");
    assert_eq!(config.server.port, 8080);
    assert!(config.server.tls_enabled);
    assert_eq!(config.sui.network_url, "https://fullnode.testnet.sui.io:443");
    assert_eq!(config.sui.wallet_address, None);
    assert_eq!(config.sui.package_id, None);
    assert_eq!(config.database.url, "postgres://localhost/manus_liquidity");
    assert_eq!(config.database.max_connections, 10);
    assert!(config.agents.enabled);
    assert_eq!(config.agents.rebalance_interval, 300);
    assert_eq!(config.agents.risk_tolerance, Fixed::from_micros(500_000));
    assert!(config.security.pqc_enabled);
    assert!(!config.security.hardware_enclaves_enabled);
    assert!(config.security.zk_proofs_enabled);
}

#[test]
fn handlers_answer() {
    let health = health_check("0.1.0");
    assert_eq!(health.status, "healthy");
    assert_eq!(health.version, "0.1.0");
    assert!(list_vaults().is_empty());
    assert!(list_strategies().is_empty());
    assert_eq!(get_vault("SUI"), Err(HandlerError::NotImplemented));
    let request = DepositRequest { vault_id: "SUI".to_string(), amount: 1_000_000 };
    assert_eq!(deposit(&request), Err(HandlerError::NotImplemented));
    let request = WithdrawRequest { vault_id: "SUI".to_string(), shares: 500_000 };
    assert_eq!(withdraw(&request), Err(HandlerError::NotImplemented));
    let metrics = get_metrics();
    assert_eq!(metrics.total_value_locked, 0);
    assert_eq!(metrics.total_users, 0);
    assert_eq!(metrics.gas_efficiency.micros, 670_000);
    assert_eq!(metrics.uptime.micros, 999_900);
}

#[test]
fn sui_client_is_not_implemented() {
    let client = SuiClient::new("https://fullnode.testnet.sui.io:443").unwrap();
    let expected = ManusError::Sui("Not implemented".to_string());
    assert_eq!(client.get_vault("SUI"), Err(expected.clone()));
    assert_eq!(client.deposit("SUI", 1_000_000), Err(expected.clone()));
    assert_eq!(client.withdraw("SUI", 500_000), Err(expected));
}

#[test]
fn plugin_values() {
    let result = PluginResult::empty_success();
    assert!(result.success);
    assert_eq!(result.data, "{}");
    assert_eq!(result.error, None);
    let plugin = StrategyPlugin {
        name: "test_strategy".to_string(),
        version: "1.0.0".to_string(),
        wasm_bytes: vec![0, 1, 2, 3],
    };
    assert_eq!(plugin.clone(), plugin);
}
