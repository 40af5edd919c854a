//! Proofs of state compression and of agent decisions.
//!
//! A proof here is a digest that stands where the proof of a real proving
//! system is to stand: the SHA-256 digest of a fixed prefix and the input. The
//! digest itself is computed outside this crate and is taken on trust; what
//! is hashed, and what the proof is assembled from, is verified.

use vstd::prelude::*;
use vstd::string::StringExecFns;
use crate::error::{ManusError, ProofError};
use crate::fixed::{nearest, round_div, saturate, Fixed, SCALE};

verus! {

/// A proof with its public inputs.
#[derive(Debug, Clone, PartialEq, Eq)]
pub struct StateCompressionProof {
    /// The proof data.
    pub proof: Vec<u8>,
    /// Public inputs.
    pub public_inputs: Vec<u8>,
    /// Proof metadata.
    pub metadata: ProofMetadata,
}

/// Metadata for a proof.
#[derive(Debug, Clone, PartialEq, Eq)]
pub struct ProofMetadata {
    /// When the proof was generated, in seconds since the Unix epoch.
    pub timestamp: u64,
    /// Proof system version.
    pub version: String,
    /// Circuit identifier.
    pub circuit_id: String,
}

/// An agent decision that can be proven.
#[derive(Debug, Clone, PartialEq, Eq)]
pub struct AgentDecision {
    /// Agent identifier.
    pub agent_id: String,
    /// Decision action.
    pub action: String,
    /// Confidence score, 0 to 100.
    pub confidence: u8,
    /// Digest of the input parameters.
    pub input_hash: [u8; 32],
    /// Timestamp.
    pub timestamp: u64,
}

/// Circuit configuration.
#[derive(Debug, Clone, Copy, PartialEq, Eq, Structural)]
pub struct CircuitConfig {
    /// Maximum number of transactions to compress.
    pub max_transactions: usize,
    /// Enable privacy mode.
    pub privacy_enabled: bool,
}

/// Gas savings estimation.
#[derive(Debug, Clone, Copy, PartialEq, Eq, Structural)]
pub struct GasSavings {
    /// Gas cost without compression.
    pub uncompressed_gas: usize,
    /// Gas cost with compression.
    pub compressed_gas: usize,
    /// Gas saved.
    pub savings: usize,
    /// Savings in percent of the cost without compression.
    pub savings_percentage: Fixed,
}

/// Proof generator.
#[derive(Debug)]
pub struct ZkProofGenerator {
    config: CircuitConfig,
}

/// How many transactions a circuit takes, unless told otherwise.
pub const DEFAULT_MAX_TRANSACTIONS: usize = 1000;

/// How many bytes a digest has.
pub const DIGEST_LEN: usize = 32;

/// Gas for one transaction that is not compressed.
pub const GAS_PER_TRANSACTION: usize = 21_000;

/// Gas for checking one proof.
pub const GAS_PER_PROOF: usize = 200_000;

/// Gas for checking one transaction under a proof.
pub const GAS_PER_COMPRESSED_TRANSACTION: usize = 5_000;

/// The SHA-256 digest of a sequence of bytes.
pub uninterp spec fn sha256_digest(data: Seq<u8>) -> Seq<u8>;

/// Calls `sha2::Sha256::digest`, which hashes all of `data` at once. The
/// result is taken to be the SHA-256 digest of `data`, 32 bytes long.
#[verifier::external_body]
fn sha256(data: &[u8]) -> (digest: Vec<u8>)
    ensures
        digest@ == sha256_digest(data@),
        digest@.len() == DIGEST_LEN,
{
    <sha2::Sha256 as sha2::Digest>::digest(data).to_vec()
}

/// Calls `std::time::SystemTime::elapsed` on the Unix epoch: the seconds that
/// have passed since, or nothing where the clock stands before it. Nothing is
/// claimed of the result.
#[verifier::external_body]
fn seconds_since_epoch() -> (now: Option<u64>) {
    match std::time::UNIX_EPOCH.elapsed() {
        Ok(elapsed) => Some(elapsed.as_secs()),
        Err(_) => None,
    }
}

/// All transactions one after another.
pub open spec fn concatenated(transactions: Seq<Vec<u8>>) -> Seq<u8>
    decreases transactions.len(),
{
    if transactions.len() == 0 {
        Seq::empty()
    } else {
        concatenated(transactions.drop_last()) + transactions.last()@
    }
}

/// The root that stands for a list of transactions: 32 zero bytes for the
/// empty list, else the digest of all transactions one after another.
pub open spec fn merkle_root(transactions: Seq<Vec<u8>>) -> Seq<u8> {
    if transactions.len() == 0 {
        Seq::new(DIGEST_LEN as nat, |i: int| 0u8)
    } else {
        sha256_digest(concatenated(transactions))
    }
}

/// The bytes `sp1_proof_` that go before the input of every proof.
pub open spec fn proof_prefix() -> Seq<u8> {
    seq![0x73u8, 0x70u8, 0x31u8, 0x5fu8, 0x70u8, 0x72u8, 0x6fu8, 0x6fu8, 0x66u8, 0x5fu8]
}

/// The proof data for an input: the digest of the prefix and the input.
pub open spec fn proof_data(input: Seq<u8>) -> Seq<u8> {
    sha256_digest(proof_prefix() + input)
}

/// Whether a proof is the one assembled from the given parts under the given
/// circuit.
pub open spec fn assembled_as(
    proof: StateCompressionProof,
    data: Seq<u8>,
    public_inputs: Seq<u8>,
    timestamp: u64,
    circuit_id: Seq<char>,
) -> bool {
    &&& proof.proof@ == data
    &&& proof.public_inputs@ == public_inputs
    &&& proof.metadata.timestamp == timestamp
    &&& proof.metadata.version@ == "sp1-v1.0"@
    &&& proof.metadata.circuit_id@ == circuit_id
}

/// Whether a proof is the state compression proof of the given transactions,
/// generated at the given time.
pub open spec fn compresses(
    proof: StateCompressionProof,
    transactions: Seq<Vec<u8>>,
    timestamp: u64,
) -> bool {
    assembled_as(
        proof,
        proof_data(merkle_root(transactions)),
        merkle_root(transactions),
        timestamp,
        "state_compression_v1"@,
    )
}

/// What checking a proof answers: a proof without data or without public
/// inputs is refused, in this order; every other proof passes.
pub open spec fn checked(proof: StateCompressionProof) -> Result<bool, ManusError> {
    if proof.proof@.len() == 0 {
        Err(ManusError::ZkProof(ProofError::EmptyProof))
    } else if proof.public_inputs@.len() == 0 {
        Err(ManusError::ZkProof(ProofError::EmptyPublicInputs))
    } else {
        Ok(true)
    }
}

/// The gas that `n` transactions cost without compression.
pub open spec fn uncompressed_gas(n: int) -> int {
    n * GAS_PER_TRANSACTION
}

/// The gas that `n` transactions cost under one proof.
pub open spec fn compressed_gas(n: int) -> int {
    GAS_PER_PROOF + n * GAS_PER_COMPRESSED_TRANSACTION
}

/// The gas that compression saves on `n` transactions, and zero where it
/// saves none.
pub open spec fn gas_saved(n: int) -> int {
    if uncompressed_gas(n) > compressed_gas(n) {
        uncompressed_gas(n) - compressed_gas(n)
    } else {
        0
    }
}

/// The saving in percent of the cost without compression, in millionths of a
/// percent, and zero where there is no cost.
pub open spec fn gas_saved_percent(n: int) -> int {
    if uncompressed_gas(n) > 0 {
        saturate(round_div(gas_saved(n) * 100 * SCALE, uncompressed_gas(n)))
    } else {
        0
    }
}

impl Default for CircuitConfig {
    /// A circuit for a thousand transactions, with privacy mode on.
    fn default() -> (config: Self)
        ensures
            config.max_transactions == DEFAULT_MAX_TRANSACTIONS,
            config.privacy_enabled,
    {
        CircuitConfig { max_transactions: DEFAULT_MAX_TRANSACTIONS, privacy_enabled: true }
    }
}

/// The bytes of a list of transactions, one transaction after another.
pub fn concatenate(transactions: &[Vec<u8>]) -> (bytes: Vec<u8>)
    ensures
        bytes@ == concatenated(transactions@),
{
    let mut bytes: Vec<u8> = Vec::new();
    let mut i: usize = 0;
    assert(transactions@.take(0) =~= Seq::<Vec<u8>>::empty());
    while i < transactions.len()
        invariant
            i <= transactions.len(),
            bytes@ == concatenated(transactions@.take(i as int)),
        decreases transactions.len() - i,
    {
        let transaction = &transactions[i];
        let ghost before = bytes@;
        let mut j: usize = 0;
        while j < transaction.len()
            invariant
                j <= transaction.len(),
                bytes@ == before + transaction@.take(j as int),
            decreases transaction.len() - j,
        {
            bytes.push(transaction[j]);
            assert(transaction@.take(j as int + 1) =~= transaction@.take(j as int).push(
                transaction@[j as int],
            ));
            j = j + 1;
        }
        proof {
            assert(transaction@.take(transaction.len() as int) =~= transaction@);
            let upto = transactions@.take(i as int + 1);
            assert(upto.drop_last() =~= transactions@.take(i as int));
            assert(upto.last() == transactions@[i as int]);
        }
        i = i + 1;
    }
    assert(transactions@.take(transactions.len() as int) =~= transactions@);
    bytes
}

/// Computes the root that stands for a list of transactions.
pub fn compute_merkle_root(transactions: &[Vec<u8>]) -> (root: Vec<u8>)
    ensures
        root@ == merkle_root(transactions@),
        root@.len() == DIGEST_LEN,
{
    if transactions.len() == 0 {
        let mut root: Vec<u8> = Vec::new();
        let mut i: usize = 0;
        while i < DIGEST_LEN
            invariant
                i <= DIGEST_LEN,
                root.len() == i,
                forall|j: int| 0 <= j < i ==> root[j] == 0u8,
            decreases DIGEST_LEN - i,
        {
            root.push(0u8);
            i = i + 1;
        }
        assert(root@ =~= Seq::new(DIGEST_LEN as nat, |i: int| 0u8));
        root
    } else {
        let bytes = concatenate(transactions);
        sha256(bytes.as_slice())
    }
}

/// Generates the proof data for an input.
pub fn generate_proof_data(input: &[u8]) -> (data: Vec<u8>)
    ensures
        data@ == proof_data(input@),
        data@.len() == DIGEST_LEN,
{
    let mut bytes: Vec<u8> = Vec::new();
    bytes.push(0x73u8);
    bytes.push(0x70u8);
    bytes.push(0x31u8);
    bytes.push(0x5fu8);
    bytes.push(0x70u8);
    bytes.push(0x72u8);
    bytes.push(0x6fu8);
    bytes.push(0x6fu8);
    bytes.push(0x66u8);
    bytes.push(0x5fu8);
    assert(bytes@ =~= proof_prefix());
    let mut j: usize = 0;
    while j < input.len()
        invariant
            j <= input.len(),
            bytes@ == proof_prefix() + input@.take(j as int),
        decreases input.len() - j,
    {
        bytes.push(input[j]);
        assert(input@.take(j as int + 1) =~= input@.take(j as int).push(input@[j as int]));
        j = j + 1;
    }
    assert(input@.take(input.len() as int) =~= input@);
    sha256(bytes.as_slice())
}

/// Assembles a proof from its parts.
pub fn assemble_proof(
    data: Vec<u8>,
    public_inputs: Vec<u8>,
    timestamp: u64,
    circuit_id: &str,
) -> (proof: StateCompressionProof)
    ensures
        assembled_as(proof, data@, public_inputs@, timestamp, circuit_id@),
{
    StateCompressionProof {
        proof: data,
        public_inputs,
        metadata: ProofMetadata {
            timestamp,
            version: String::from_str("sp1-v1.0"),
            circuit_id: String::from_str(circuit_id),
        },
    }
}

impl ZkProofGenerator {
    /// The circuit configuration.
    pub closed spec fn spec_config(&self) -> CircuitConfig {
        self.config
    }

    /// Create a new proof generator.
    pub fn new(config: CircuitConfig) -> (generator: Self)
        ensures
            generator.spec_config() == config,
    {
        Self { config }
    }

    /// The circuit configuration.
    pub fn config(&self) -> (config: CircuitConfig)
        ensures
            config == self.spec_config(),
    {
        self.config
    }

    /// Generates the state compression proof of the transactions, as of the
    /// given time. More transactions than the circuit takes are refused.
    pub fn state_compression_proof_at(&self, transactions: &[Vec<u8>], timestamp: u64) -> (r:
        Result<StateCompressionProof, ManusError>)
        ensures
            match r {
                Ok(proof) => transactions@.len() <= self.spec_config().max_transactions
                    && compresses(proof, transactions@, timestamp) && proof.proof@.len()
                    == DIGEST_LEN && proof.public_inputs@.len() == DIGEST_LEN,
                Err(e) => transactions@.len() > self.spec_config().max_transactions && e
                    == ManusError::ZkProof(
                    ProofError::TooManyTransactions {
                        count: transactions@.len() as usize,
                        limit: self.spec_config().max_transactions,
                    },
                ),
            },
    {
        if transactions.len() > self.config.max_transactions {
            return Err(
                ManusError::ZkProof(
                    ProofError::TooManyTransactions {
                        count: transactions.len(),
                        limit: self.config.max_transactions,
                    },
                ),
            );
        }
        let root = compute_merkle_root(transactions);
        let data = generate_proof_data(root.as_slice());
        Ok(assemble_proof(data, root, timestamp, "state_compression_v1"))
    }

    /// Generate a state compression proof, stamped with the time of the
    /// system clock. More transactions than the circuit takes are refused;
    /// so is a clock that stands before the Unix epoch.
    pub fn generate_state_compression_proof(&self, transactions: &[Vec<u8>]) -> (r: Result<
        StateCompressionProof,
        ManusError,
    >)
        ensures
            match r {
                Ok(proof) => transactions@.len() <= self.spec_config().max_transactions
                    && compresses(proof, transactions@, proof.metadata.timestamp)
                    && proof.proof@.len() == DIGEST_LEN && proof.public_inputs@.len()
                    == DIGEST_LEN,
                Err(e) => if transactions@.len() > self.spec_config().max_transactions {
                    e == ManusError::ZkProof(
                        ProofError::TooManyTransactions {
                            count: transactions@.len() as usize,
                            limit: self.spec_config().max_transactions,
                        },
                    )
                } else {
                    e == ManusError::ZkProof(ProofError::ClockBeforeEpoch)
                },
            },
    {
        if transactions.len() > self.config.max_transactions {
            return Err(
                ManusError::ZkProof(
                    ProofError::TooManyTransactions {
                        count: transactions.len(),
                        limit: self.config.max_transactions,
                    },
                ),
            );
        }
        match seconds_since_epoch() {
            Some(now) => self.state_compression_proof_at(transactions, now),
            None => Err(ManusError::ZkProof(ProofError::ClockBeforeEpoch)),
        }
    }

    /// Generate a proof for an agent decision: the proof data of the
    /// decision's input digest, with the serialized decision as public input
    /// and the decision's own timestamp.
    pub fn generate_agent_decision_proof(
        &self,
        decision: &AgentDecision,
        decision_bytes: Vec<u8>,
    ) -> (r: Result<StateCompressionProof, ManusError>)
        ensures
            r matches Ok(proof) && assembled_as(
                proof,
                proof_data(decision.input_hash@),
                decision_bytes@,
                decision.timestamp,
                "agent_decision_v1"@,
            ) && proof.proof@.len() == DIGEST_LEN,
    {
        let data = generate_proof_data(decision.input_hash.as_slice());
        Ok(assemble_proof(data, decision_bytes, decision.timestamp, "agent_decision_v1"))
    }

    /// Verify a proof.
    pub fn verify_proof(&self, proof: &StateCompressionProof) -> (r: Result<bool, ManusError>)
        ensures
            r == checked(*proof),
    {
        if proof.proof.len() == 0 {
            return Err(ManusError::ZkProof(ProofError::EmptyProof));
        }
        if proof.public_inputs.len() == 0 {
            return Err(ManusError::ZkProof(ProofError::EmptyPublicInputs));
        }
        Ok(true)
    }

    /// Estimate gas savings from compression.
    pub fn estimate_gas_savings(&self, num_transactions: usize) -> (savings: GasSavings)
        requires
            num_transactions * GAS_PER_TRANSACTION <= usize::MAX,
        ensures
            savings.uncompressed_gas == uncompressed_gas(num_transactions as int),
            savings.compressed_gas == compressed_gas(num_transactions as int),
            savings.savings == gas_saved(num_transactions as int),
            savings.savings_percentage@ == gas_saved_percent(num_transactions as int),
    {
        let uncompressed: usize = num_transactions * GAS_PER_TRANSACTION;
        let compressed: usize = GAS_PER_PROOF + num_transactions * GAS_PER_COMPRESSED_TRANSACTION;
        let saved: usize = if uncompressed > compressed {
            uncompressed - compressed
        } else {
            0
        };
        let percentage = if uncompressed > 0 {
            assert(saved * 100 * SCALE <= 0xffff_ffff_ffff_ffff * 100_000_000) by (nonlinear_arith)
                requires
                    0 <= saved <= 0xffff_ffff_ffff_ffff,
                    SCALE == 1_000_000,
            ;
            Fixed::saturating(
                nearest((saved as i128) * 100 * (SCALE as i128), uncompressed as i128),
            )
        } else {
            Fixed::zero()
        };
        GasSavings {
            uncompressed_gas: uncompressed,
            compressed_gas: compressed,
            savings: saved,
            savings_percentage: percentage,
        }
    }
}

/// Every proof that the generator makes passes its own check.
pub proof fn lemma_generated_proof_passes(
    proof: StateCompressionProof,
    data: Seq<u8>,
    public_inputs: Seq<u8>,
    timestamp: u64,
    circuit_id: Seq<char>,
)
    requires
        assembled_as(proof, data, public_inputs, timestamp, circuit_id),
        data.len() > 0,
        public_inputs.len() > 0,
    ensures
        checked(proof) == Ok::<bool, ManusError>(true),
{
}

} // verus!
