//! Strategy plugins on the Wasmer runtime.
//!
//! Compiling, instantiating and looking up exports is the runtime's work and
//! is taken on trust, with nothing claimed of its outcome. What is verified is
//! the order of the steps and the error that answers each step that fails.

use vstd::prelude::*;
use vstd::string::StringExecFns;
use crate::error::{ManusError, WasmError};

verus! {

/// Makes `wasmer::Store` known as a type whose inside is not looked into.
#[verifier::external_type_specification]
#[verifier::external_body]
pub struct ExStore(wasmer::Store);

/// Makes `wasmer::Module` known as a type whose inside is not looked into.
#[verifier::external_type_specification]
#[verifier::external_body]
pub struct ExModule(wasmer::Module);

/// Makes `wasmer::Instance` known as a type whose inside is not looked into.
#[verifier::external_type_specification]
#[verifier::external_body]
pub struct ExInstance(wasmer::Instance);

/// The name of the function that a strategy plugin exports.
pub const STRATEGY_EXPORT: &'static str = "execute_strategy";

/// Calls `wasmer::Store::default`: a store on the default engine.
#[verifier::external_body]
fn default_store() -> (store: wasmer::Store) {
    wasmer::Store::default()
}

/// Calls `wasmer::Module::new`: the compiled module, or nothing where the
/// runtime refuses the bytes. Nothing is claimed of which bytes it takes.
#[verifier::external_body]
fn compile(store: &wasmer::Store, wasm_bytes: &[u8]) -> (module: Option<wasmer::Module>) {
    match wasmer::Module::new(store, wasm_bytes) {
        Ok(module) => Some(module),
        Err(_) => None,
    }
}

/// Calls `wasmer::Instance::new` with no imports: the instance, or nothing
/// where the runtime cannot make one. Nothing is claimed of which modules it
/// instantiates.
#[verifier::external_body]
fn instantiate(store: &mut wasmer::Store, module: &wasmer::Module) -> (instance: Option<
    wasmer::Instance,
>) {
    match wasmer::Instance::new(store, module, &wasmer::Imports::new()) {
        Ok(instance) => Some(instance),
        Err(_) => None,
    }
}

/// Calls `wasmer::Exports::get_function` on the exports of an instance:
/// whether it exports a function of the given name.
#[verifier::external_body]
fn exports_function(instance: &wasmer::Instance, name: &str) -> (found: bool) {
    instance.exports.get_function(name).is_ok()
}

/// Strategy plugin.
#[derive(Debug, Clone, PartialEq, Eq)]
pub struct StrategyPlugin {
    /// Plugin name.
    pub name: String,
    /// Plugin version.
    pub version: String,
    /// WASM module bytes.
    pub wasm_bytes: Vec<u8>,
}

/// Plugin execution result.
#[derive(Debug, Clone, PartialEq, Eq)]
pub struct PluginResult {
    /// Success status.
    pub success: bool,
    /// Result data (JSON).
    pub data: String,
    /// Error message, if any.
    pub error: Option<String>,
}

impl PluginResult {
    /// The result of a strategy that ran and had nothing to say: success,
    /// with an empty JSON object.
    pub fn empty_success() -> (result: PluginResult)
        ensures
            result.success,
            result.data@ == "{}"@,
            result.error is None,
    {
        PluginResult { success: true, data: String::from_str("{}"), error: None }
    }
}

/// WASM plugin manager.
pub struct WasmPluginManager {
    store: wasmer::Store,
}

/// What validating answers for what compiling gave: `true` for a module that
/// compiled, and an error for one that did not.
pub fn validation_answer(compiled: bool) -> (r: Result<bool, ManusError>)
    ensures
        r == if compiled {
            Ok::<bool, ManusError>(true)
        } else {
            Err::<bool, ManusError>(ManusError::Wasm(WasmError::InvalidModule))
        },
{
    if compiled {
        Ok(true)
    } else {
        Err(ManusError::Wasm(WasmError::InvalidModule))
    }
}

/// What running a strategy answers for what looking up its function gave:
/// the empty success where the function is exported, and an error where it
/// is not.
pub fn execution_answer(exported: bool) -> (r: Result<PluginResult, ManusError>)
    ensures
        match r {
            Ok(result) => exported && result.success && result.data@ == "{}"@
                && result.error is None,
            Err(e) => !exported && e == ManusError::Wasm(WasmError::MissingExport),
        },
{
    if exported {
        Ok(PluginResult::empty_success())
    } else {
        Err(ManusError::Wasm(WasmError::MissingExport))
    }
}

/// What loading answers for what instantiating gave: the instance where
/// there is one, and an error where the runtime made none.
pub fn instantiation_answer(instance: Option<wasmer::Instance>) -> (r: Result<
    wasmer::Instance,
    ManusError,
>)
    ensures
        match instance {
            Some(made) => r == Ok::<wasmer::Instance, ManusError>(made),
            None => r == Err::<wasmer::Instance, ManusError>(
                ManusError::Wasm(WasmError::InstantiationFailed),
            ),
        },
{
    match instance {
        Some(made) => Ok(made),
        None => Err(ManusError::Wasm(WasmError::InstantiationFailed)),
    }
}

impl WasmPluginManager {
    /// Create a new WASM plugin manager.
    pub fn new() -> (manager: Self) {
        Self { store: default_store() }
    }

    /// Load a strategy plugin from WASM bytes: compile the module, then
    /// instantiate it without imports.
    pub fn load_strategy(&mut self, plugin: &StrategyPlugin) -> (r: Result<
        wasmer::Instance,
        ManusError,
    >)
        ensures
            r matches Err(e) ==> e == ManusError::Wasm(WasmError::InvalidModule) || e
                == ManusError::Wasm(WasmError::InstantiationFailed),
    {
        match compile(&self.store, plugin.wasm_bytes.as_slice()) {
            Some(module) => instantiation_answer(instantiate(&mut self.store, &module)),
            None => Err(ManusError::Wasm(WasmError::InvalidModule)),
        }
    }

    /// Execute a strategy plugin. The market data is not handed to the plugin
    /// yet: a plugin that exports the strategy function answers with the
    /// empty success.
    pub fn execute_strategy(&mut self, instance: &wasmer::Instance, market_data: &str) -> (r:
        Result<PluginResult, ManusError>)
        ensures
            match r {
                Ok(result) => result.success && result.data@ == "{}"@ && result.error is None,
                Err(e) => e == ManusError::Wasm(WasmError::MissingExport),
            },
    {
        execution_answer(exports_function(instance, STRATEGY_EXPORT))
    }

    /// Validate a WASM plugin before loading.
    pub fn validate_plugin(&self, wasm_bytes: &[u8]) -> (r: Result<bool, ManusError>)
        ensures
            match r {
                Ok(valid) => valid,
                Err(e) => e == ManusError::Wasm(WasmError::InvalidModule),
            },
    {
        validation_answer(compile(&self.store, wasm_bytes).is_some())
    }

    /// List loaded plugins: none is tracked yet.
    pub fn list_plugins(&self) -> (plugins: Vec<String>)
        ensures
            plugins@.len() == 0,
    {
        Vec::new()
    }
}

impl Default for WasmPluginManager {
    fn default() -> (manager: Self) {
        Self::new()
    }
}

} // verus!
