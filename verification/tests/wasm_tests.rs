use manus_backend::error::{ManusError, WasmError};
use manus_backend::wasm::{
    execution_answer, instantiation_answer, validation_answer, PluginResult, StrategyPlugin,
    WasmPluginManager,
};

const EMPTY_MODULE: [u8; 8] = [0x00, 0x61, 0x73, 0x6d, 0x01, 0x00, 0x00, 0x00];

const STRATEGY_MODULE: [u8; 41] = [
    0x00, 0x61, 0x73, 0x6d, 0x01, 0x00, 0x00, 0x00, 0x01, 0x04, 0x01, 0x60, 0x00, 0x00, 0x03, 0x02,
    0x01, 0x00, 0x07, 0x14, 0x01, 0x10, 0x65, 0x78, 0x65, 0x63, 0x75, 0x74, 0x65, 0x5f, 0x73, 0x74,
    0x72, 0x61, 0x74, 0x65, 0x67, 0x79, 0x00, 0x00, 0x0a,
];

fn strategy_module() -> Vec<u8> {
    let mut bytes = STRATEGY_MODULE.to_vec();
    bytes.extend_from_slice(&[0x04, 0x01, 0x02, 0x00, 0x0b]);
    bytes
}

fn plugin(wasm_bytes: Vec<u8>) -> StrategyPlugin {
    StrategyPlugin { name: "test_strategy".to_string(), version: "1.0.0".to_string(), wasm_bytes }
}

#[test]
fn test_plugin_manager_creation() {
    let manager = WasmPluginManager::new();
    assert_eq!(manager.list_plugins().len(), 0);
}

#[test]
fn test_validate_invalid_wasm() {
    let manager = WasmPluginManager::new();
    let invalid_wasm = vec![0, 1, 2, 3];
    assert!(manager.validate_plugin(&invalid_wasm).is_err());
}

#[test]
fn validation_tells_modules_from_noise() {
    let manager = WasmPluginManager::default();
    assert_eq!(manager.validate_plugin(&EMPTY_MODULE), Ok(true));
    assert_eq!(manager.validate_plugin(&strategy_module()), Ok(true));
    assert_eq!(
        manager.validate_plugin(b"mock wasm content"),
        Err(ManusError::Wasm(WasmError::InvalidModule))
    );
    assert_eq!(manager.validate_plugin(&[]), Err(ManusError::Wasm(WasmError::InvalidModule)));
    assert_eq!(validation_answer(true), Ok(true));
    assert_eq!(validation_answer(false), Err(ManusError::Wasm(WasmError::InvalidModule)));
}

#[test]
fn strategies_load_and_run() {
    let mut manager = WasmPluginManager::new();
    assert_eq!(
        manager.load_strategy(&plugin(vec![0, 1, 2, 3])).err(),
        Some(ManusError::Wasm(WasmError::InvalidModule))
    );
    let instance = manager.load_strategy(&plugin(strategy_module())).unwrap();
    assert_eq!(manager.execute_strategy(&instance, "{}"), Ok(PluginResult::empty_success()));
    let bare = manager.load_strategy(&plugin(EMPTY_MODULE.to_vec())).unwrap();
    assert_eq!(
        manager.execute_strategy(&bare, "{}"),
        Err(ManusError::Wasm(WasmError::MissingExport))
    );
    assert!(instantiation_answer(Some(bare)).is_ok());
    assert_eq!(
        instantiation_answer(None).err(),
        Some(ManusError::Wasm(WasmError::InstantiationFailed))
    );
    assert_eq!(execution_answer(true), Ok(PluginResult::empty_success()));
    assert_eq!(execution_answer(false), Err(ManusError::Wasm(WasmError::MissingExport)));
}

const IMPORTING_MODULE: [u8; 25] = [
    0x00, 0x61, 0x73, 0x6d, 0x01, 0x00, 0x00, 0x00, 0x01, 0x04, 0x01, 0x60, 0x00, 0x00, 0x02, 0x09,
    0x01, 0x03, 0x65, 0x6e, 0x76, 0x01, 0x66, 0x00, 0x00,
];

#[test]
fn module_with_unmet_import_is_not_instantiated() {
    let mut manager = WasmPluginManager::new();
    assert_eq!(manager.validate_plugin(&IMPORTING_MODULE), Ok(true));
    assert_eq!(
        manager.load_strategy(&plugin(IMPORTING_MODULE.to_vec())).err(),
        Some(ManusError::Wasm(WasmError::InstantiationFailed))
    );
}
