//! Error types of the backend.

use vstd::prelude::*;

verus! {

/// Why a market snapshot could not be had.
#[derive(Debug, Clone, Copy, PartialEq, Eq, Structural)]
pub enum FeedFailure {
    /// The provider could not be reached or answered with an error.
    Network,
    /// The provider did not answer in time.
    Timeout,
}

/// Why one phase of an agent's cycle failed.
#[derive(Debug, Clone, Copy, PartialEq, Eq, Structural)]
pub enum AgentError {
    /// No market snapshot this cycle; transient.
    DataFeed(FeedFailure),
    /// The policy could not be computed from the snapshot it was given.
    Decision,
    /// The outside actuator rejected the action.
    Execution,
    /// The agent's holdings are worth less than its initial capital.
    InvariantViolation {
        /// The capital the agent started with, in base units.
        initial_capital: u64,
        /// What its holdings are worth, in whole base units.
        observed_total_value: u64,
    },
}

/// Why a proof could not be generated or checked.
#[derive(Debug, Clone, Copy, PartialEq, Eq, Structural)]
pub enum ProofError {
    /// More transactions than the circuit takes.
    TooManyTransactions {
        /// How many were given.
        count: usize,
        /// How many the circuit takes.
        limit: usize,
    },
    /// The proof holds no bytes.
    EmptyProof,
    /// The proof holds no public inputs.
    EmptyPublicInputs,
    /// The system clock stands before the Unix epoch.
    ClockBeforeEpoch,
}

/// Why a cryptographic operation failed.
#[derive(Debug, Clone, Copy, PartialEq, Eq, Structural)]
pub enum CryptoError {
    /// A key does not have the length of its kind.
    BadKeyLength {
        /// How many bytes such a key has.
        expected: usize,
        /// How many bytes were given.
        actual: usize,
    },
    /// A ciphertext does not have the length of its kind.
    BadCiphertextLength {
        /// How many bytes such a ciphertext has.
        expected: usize,
        /// How many bytes were given.
        actual: usize,
    },
    /// The signature on a signed message does not hold under the key.
    VerificationFailed,
}

/// Why a plugin could not be used.
#[derive(Debug, Clone, Copy, PartialEq, Eq, Structural)]
pub enum WasmError {
    /// The bytes are no WebAssembly module that the runtime takes.
    InvalidModule,
    /// The module could not be instantiated.
    InstantiationFailed,
    /// The instance does not export the function that runs a strategy.
    MissingExport,
}

/// Main error type of the backend.
#[derive(Debug, Clone, PartialEq, Eq)]
pub enum ManusError {
    /// Sui blockchain interaction error.
    Sui(String),
    /// Cryptography error.
    Crypto(CryptoError),
    /// AI agent error.
    Agent(AgentError),
    /// Database error.
    Database(String),
    /// Configuration error.
    Config(String),
    /// API error.
    Api(String),
    /// ZK proof error.
    ZkProof(ProofError),
    /// WebAssembly plugin error.
    Wasm(WasmError),
    /// Generic error.
    Internal(String),
}

} // verus!
