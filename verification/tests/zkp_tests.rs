use manus_backend::error::{ManusError, ProofError};
use manus_backend::zkp::{
    compute_merkle_root, concatenate, generate_proof_data, AgentDecision, CircuitConfig,
    ProofMetadata, StateCompressionProof, ZkProofGenerator,
};

const ROOT_OF_ONE_TO_NINE: [u8; 32] = [
    71, 228, 238, 127, 33, 31, 115, 38, 93, 209, 118, 88, 246, 226, 28, 19, 24, 189, 108, 129, 243,
    117, 152, 226, 10, 39, 86, 41, 149, 66, 239, 207,
];

const PROOF_OF_ONE_TO_NINE: [u8; 32] = [
    240, 218, 243, 194, 54, 6, 170, 90, 28, 84, 53, 137, 251, 227, 100, 163, 92, 52, 67, 234, 197,
    136, 109, 145, 79, 144, 164, 207, 107, 33, 119, 207,
];

const PROOF_OF_ZERO_HASH: [u8; 32] = [
    209, 249, 2, 16, 194, 249, 230, 119, 27, 122, 111, 164, 65, 92, 174, 223, 175, 187, 120, 237,
    116, 153, 129, 111, 158, 37, 86, 9, 169, 245, 206, 61,
];

#[test]
fn test_state_compression_proof() {
    let generator = ZkProofGenerator::new(CircuitConfig::default());

    let transactions = vec![vec![1, 2, 3], vec![4, 5, 6], vec![7, 8, 9]];

    let proof = generator.generate_state_compression_proof(&transactions).unwrap();
    assert!(!proof.proof.is_empty());
    assert!(!proof.public_inputs.is_empty());
}

#[test]
fn test_agent_decision_proof() {
    let generator = ZkProofGenerator::new(CircuitConfig::default());

    let decision = AgentDecision {
        agent_id: "rebalancer_001".to_string(),
        action: "rebalance".to_string(),
        confidence: 92,
        input_hash: [0u8; 32],
        timestamp: 1234567890,
    };
    let decision_bytes = format!(
        "{{\"agent_id\":\"{}\",\"action\":\"{}\",\"confidence\":{},\"timestamp\":{}}}",
        decision.agent_id, decision.action, decision.confidence, decision.timestamp
    )
    .into_bytes();

    let proof = generator
        .generate_agent_decision_proof(&decision, decision_bytes.clone())
        .unwrap();
    assert!(!proof.proof.is_empty());
    assert_eq!(proof.proof, PROOF_OF_ZERO_HASH.to_vec());
    assert_eq!(proof.public_inputs, decision_bytes);
    assert_eq!(proof.metadata.timestamp, 1234567890);
    assert_eq!(proof.metadata.version, "sp1-v1.0");
    assert_eq!(proof.metadata.circuit_id, "agent_decision_v1");
}

#[test]
fn test_verify_proof() {
    let generator = ZkProofGenerator::new(CircuitConfig::default());

    let transactions = vec![vec![1, 2, 3]];
    let proof = generator.generate_state_compression_proof(&transactions).unwrap();

    let valid = generator.verify_proof(&proof).unwrap();
    assert!(valid);
}

#[test]
fn test_gas_savings() {
    let generator = ZkProofGenerator::new(CircuitConfig::default());

    let savings = generator.estimate_gas_savings(100);
    assert!(savings.savings > 0);
    assert!(savings.savings_percentage.micros > 0);
}

#[test]
fn gas_savings_exact_values() {
    let generator = ZkProofGenerator::new(CircuitConfig::default());
    let savings = generator.estimate_gas_savings(100);
    assert_eq!(savings.uncompressed_gas, 2_100_000);
    assert_eq!(savings.compressed_gas, 700_000);
    assert_eq!(savings.savings, 1_400_000);
    assert_eq!(savings.savings_percentage.micros, 66_666_667);
}

#[test]
fn gas_savings_without_gain() {
    let generator = ZkProofGenerator::new(CircuitConfig::default());
    let none = generator.estimate_gas_savings(0);
    assert_eq!(none.uncompressed_gas, 0);
    assert_eq!(none.compressed_gas, 200_000);
    assert_eq!(none.savings, 0);
    assert_eq!(none.savings_percentage.micros, 0);
    let few = generator.estimate_gas_savings(12);
    assert_eq!(few.uncompressed_gas, 252_000);
    assert_eq!(few.compressed_gas, 260_000);
    assert_eq!(few.savings, 0);
    let break_even = generator.estimate_gas_savings(13);
    assert_eq!(break_even.savings, 8_000);
}

#[test]
fn state_compression_proof_is_digest_of_concatenation() {
    let generator = ZkProofGenerator::new(CircuitConfig::default());
    let transactions = vec![vec![1, 2, 3], vec![4, 5, 6], vec![7, 8, 9]];
    let proof = generator.state_compression_proof_at(&transactions, 42).unwrap();
    assert_eq!(proof.public_inputs, ROOT_OF_ONE_TO_NINE.to_vec());
    assert_eq!(proof.proof, PROOF_OF_ONE_TO_NINE.to_vec());
    assert_eq!(
        proof.metadata,
        ProofMetadata {
            timestamp: 42,
            version: "sp1-v1.0".to_string(),
            circuit_id: "state_compression_v1".to_string(),
        }
    );
}

#[test]
fn merkle_root_does_not_depend_on_the_split() {
    let split = compute_merkle_root(&[vec![1, 2, 3], vec![4, 5, 6], vec![7, 8, 9]]);
    let whole = compute_merkle_root(&[vec![1, 2, 3, 4, 5, 6, 7, 8, 9]]);
    assert_eq!(split, whole);
    assert_eq!(split, ROOT_OF_ONE_TO_NINE.to_vec());
}

#[test]
fn merkle_root_of_nothing_is_zero() {
    let none: Vec<Vec<u8>> = Vec::new();
    assert_eq!(compute_merkle_root(&none), vec![0u8; 32]);
    let generator = ZkProofGenerator::new(CircuitConfig::default());
    let proof = generator.state_compression_proof_at(&none, 7).unwrap();
    assert_eq!(proof.public_inputs, vec![0u8; 32]);
    assert_eq!(proof.proof, PROOF_OF_ZERO_HASH.to_vec());
}

#[test]
fn concatenate_keeps_order() {
    assert_eq!(concatenate(&[vec![9, 8], vec![], vec![7]]), vec![9, 8, 7]);
    let none: Vec<Vec<u8>> = Vec::new();
    assert_eq!(concatenate(&none), Vec::<u8>::new());
}

#[test]
fn proof_data_differs_from_its_input() {
    let input = [0u8; 32];
    let data = generate_proof_data(&input);
    assert_eq!(data.len(), 32);
    assert_ne!(data, input.to_vec());
    assert_eq!(data, PROOF_OF_ZERO_HASH.to_vec());
}

#[test]
fn too_many_transactions_are_refused() {
    let generator =
        ZkProofGenerator::new(CircuitConfig { max_transactions: 2, privacy_enabled: false });
    let transactions = vec![vec![1], vec![2], vec![3]];
    let expected = ManusError::ZkProof(ProofError::TooManyTransactions { count: 3, limit: 2 });
    assert_eq!(generator.generate_state_compression_proof(&transactions), Err(expected.clone()));
    assert_eq!(generator.state_compression_proof_at(&transactions, 1), Err(expected));
    assert!(generator.state_compression_proof_at(&transactions[..2], 1).is_ok());
}

#[test]
fn empty_proofs_are_refused() {
    let generator = ZkProofGenerator::new(CircuitConfig::default());
    let metadata = ProofMetadata {
        timestamp: 0,
        version: "sp1-v1.0".to_string(),
        circuit_id: "state_compression_v1".to_string(),
    };
    let no_proof = StateCompressionProof {
        proof: vec![],
        public_inputs: vec![],
        metadata: metadata.clone(),
    };
    assert_eq!(
        generator.verify_proof(&no_proof),
        Err(ManusError::ZkProof(ProofError::EmptyProof))
    );
    let no_inputs = StateCompressionProof { proof: vec![1], public_inputs: vec![], metadata: metadata.clone() };
    assert_eq!(
        generator.verify_proof(&no_inputs),
        Err(ManusError::ZkProof(ProofError::EmptyPublicInputs))
    );
    let full = StateCompressionProof { proof: vec![1], public_inputs: vec![2], metadata };
    assert_eq!(generator.verify_proof(&full), Ok(true));
}

#[test]
fn default_circuit_config() {
    let config = CircuitConfig::default();
    assert_eq!(config.max_transactions, 1000);
    assert!(config.privacy_enabled);
    assert_eq!(ZkProofGenerator::new(config).config(), config);
}
