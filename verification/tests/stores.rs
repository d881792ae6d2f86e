use frosty_functions::repository::deploy_function;
use frosty_functions::signer::{
    derivation_path_for_caller, derivation_path_for_function, derivation_path_for_wallet,
    eth_address, key_id,
};
use frosty_functions::{
    Address, Chain, Commit, DeployResult, EvmChain, FunctionDefinition, FunctionRepository,
    FunctionState, JobRequest, JobStatus, JobStore, SimulationSigner,
};

fn request(on_chain_id: u64) -> JobRequest {
    JobRequest {
        chain: Chain::Evm(EvmChain::Localhost),
        block_hash: Some(vec![1u8; 32]),
        block_number: Some(10),
        transaction_hash: Some(vec![2u8; 32]),
        on_chain_id: Some(on_chain_id),
        caller: Address::EvmAddress(vec![3u8; 20]),
        function_hash: vec![4u8; 32],
        data: Vec::new(),
        gas_payment: 1000,
    }
}

fn definition(binary: Vec<u8>) -> FunctionDefinition {
    FunctionDefinition {
        binary,
        source: "export function main(): void {}".to_string(),
        compiler: "asc 0.27".to_string(),
    }
}

#[test]
fn chains_report_their_ids_and_networks() {
    assert_eq!(frosty_functions::chain::evm_chain_id(EvmChain::ArbitrumOne), 42161);
    assert_eq!(frosty_functions::chain::evm_chain_id(EvmChain::ArbitrumSepolia), 421614);
    assert_eq!(frosty_functions::chain::evm_chain_id(EvmChain::Localhost), 31337);
    assert!(!EvmChain::ArbitrumOne.is_testnet());
    assert!(EvmChain::ArbitrumSepolia.is_testnet());
    assert!(EvmChain::Localhost.is_testnet());
    assert!(Chain::Evm(EvmChain::Localhost).is_testnet());
    assert!(!Chain::Evm(EvmChain::ArbitrumOne).is_testnet());
}

#[test]
fn repository_stores_and_returns_functions() {
    let mut repo = FunctionRepository::new();
    let state = FunctionState {
        definition: definition(vec![0, 1, 2]),
        hash: vec![9u8; 32],
        deployed_at: 5,
        is_verified: false,
    };
    assert!(repo.get_function(&vec![9u8; 32]).is_none());
    assert!(repo.store_function(vec![9u8; 32], state).is_none());
    let found = repo.get_function(&vec![9u8; 32]).unwrap();
    assert_eq!(found.deployed_at, 5);
    assert_eq!(found.definition.binary, vec![0, 1, 2]);

    // Replacing under the same id returns the previous entry.
    let newer = FunctionState {
        definition: definition(vec![7]),
        hash: vec![9u8; 32],
        deployed_at: 6,
        is_verified: true,
    };
    let previous = repo.store_function(vec![9u8; 32], newer).unwrap();
    assert_eq!(previous.deployed_at, 5);
    assert_eq!(repo.get_function(&vec![9u8; 32]).unwrap().deployed_at, 6);
}

#[test]
fn deploying_hashes_the_binary_and_refuses_duplicates() {
    let mut repo = FunctionRepository::new();
    // Keccak-256 of the empty byte string.
    let empty_hash =
        hex::decode("c5d2460186f7233c927e7db2dcc703c0e500b653ca82273b7bfad8045d85a470").unwrap();
    match deploy_function(&mut repo, definition(Vec::new()), 77) {
        DeployResult::Success(id) => assert_eq!(id, empty_hash),
        other => panic!("expected success, got {:?}", other),
    }
    let stored = repo.get_function(&empty_hash).unwrap();
    assert_eq!(stored.deployed_at, 77);
    assert!(!stored.is_verified);
    assert_eq!(stored.hash, empty_hash);

    match deploy_function(&mut repo, definition(Vec::new()), 78) {
        DeployResult::Duplicate(id) => assert_eq!(id, empty_hash),
        other => panic!("expected duplicate, got {:?}", other),
    }
}

#[test]
fn job_store_creates_once_per_key() {
    let mut store = JobStore::new();
    assert!(store.create_job(request(1), 100));
    assert!(!store.create_job(request(1), 101));
    assert!(store.create_job(request(2), 102));

    let job = store.get_job(Chain::Evm(EvmChain::Localhost), 1).unwrap();
    assert_eq!(job.created_at, 100);
    assert!(matches!(job.status, JobStatus::Pending));
    assert_eq!(job.fees, 0);
    assert!(store.get_job(Chain::Evm(EvmChain::Localhost), 3).is_none());
    assert!(store.get_job(Chain::Evm(EvmChain::ArbitrumOne), 1).is_none());
}

#[test]
fn job_store_updates_status_and_records_commits() {
    let mut store = JobStore::new();
    let req = request(5);
    assert!(store.create_job(req.clone(), 100));
    store.update_job_status(&req, JobStatus::Executing);
    let job = store.get_job(Chain::Evm(EvmChain::Localhost), 5).unwrap();
    assert!(matches!(job.status, JobStatus::Executing));
    assert_eq!(job.created_at, 100);

    let commit = Commit {
        timestamp: 1,
        title: "main()".to_string(),
        logs: Vec::new(),
        instructions: 10,
        fees: 10,
    };
    let id = store.store_commit(&req, commit);
    assert_eq!(id, 0);
    let job = store.get_job(Chain::Evm(EvmChain::Localhost), 5).unwrap();
    assert_eq!(job.commit_ids, vec![0]);

    let commit2 = Commit {
        timestamp: 2,
        title: "Resolving Promise #1: x".to_string(),
        logs: Vec::new(),
        instructions: 20,
        fees: 0,
    };
    assert_eq!(store.store_commit(&req, commit2), 1);
    let job = store.get_job(Chain::Evm(EvmChain::Localhost), 5).unwrap();
    assert_eq!(job.commit_ids, vec![0, 1]);
}

#[test]
fn derivation_paths_scope_keys_by_owner() {
    let snowflake: Vec<u8> = vec![0xe2, 0x9d, 0x84, 0xef, 0xb8, 0x8f];
    let mut function_scope = snowflake.clone();
    function_scope.extend_from_slice(b"/function");
    let mut caller_scope = snowflake.clone();
    caller_scope.extend_from_slice(b"/caller");
    let mut wallet_scope = snowflake.clone();
    wallet_scope.extend_from_slice(b"/wallet");

    let function_id = vec![0xabu8; 32];
    let path = derivation_path_for_function(function_id.clone(), None);
    assert_eq!(path.len(), 2);
    assert_eq!(path[0], function_scope);
    assert_eq!(path[1], function_id);

    let path = derivation_path_for_function(function_id.clone(), Some(vec![1, 2]));
    assert_eq!(path.len(), 3);
    assert_eq!(path[2], vec![1, 2]);

    let caller = Address::EvmAddress(vec![0x11u8; 20]);
    let path = derivation_path_for_caller(&caller, None);
    assert_eq!(path.len(), 2);
    assert_eq!(path[0], caller_scope);
    assert_eq!(path[1], vec![0x11u8; 20]);

    let path = derivation_path_for_wallet(&caller);
    assert_eq!(path.len(), 2);
    assert_eq!(path[0], wallet_scope);
    assert_eq!(path[1], vec![0x11u8; 20]);
}

#[test]
fn key_id_maps_networks_to_root_keys() {
    assert_eq!(key_id("local").as_deref(), Some("dfx_test_key"));
    assert_eq!(key_id("ic").as_deref(), Some("key_1"));
    assert_eq!(key_id("testnet"), None);
    assert_eq!(key_id(""), None);
}

#[test]
fn simulation_signer_produces_the_fixed_dummy_signature() {
    let signer = SimulationSigner::new(vec![b"scope".to_vec()]);
    let sig = signer.sign_with_ecdsa(vec![0u8; 32]).unwrap();
    assert_eq!(sig, vec![42u8; 64]);
    // Stable across calls and across signers.
    let signer2 = SimulationSigner::new(Vec::new());
    assert_eq!(signer2.sign_with_ecdsa(vec![1u8; 32]).unwrap(), sig);
}

#[test]
fn job_cost_accounting_stays_within_the_payment() {
    let mut job = frosty_functions::Job::new(request(8), 50);
    assert_eq!(job.total_cost(), 0);
    assert_eq!(job.remaining_gas(), 1000);
    job.fees = 300;
    job.gas = 200;
    assert_eq!(job.total_cost(), 500);
    assert_eq!(job.remaining_gas(), 500);
}

#[test]
fn eth_address_hashes_the_uncompressed_point() {
    // The generator point (the public key of secret key one) and its
    // well-known Ethereum address.
    let x = hex::decode("79be667ef9dcbbac55a06295ce870b07029bfcdb2dce28d959f2815b16f81798")
        .unwrap();
    let y = hex::decode("483ada7726a3c4655da4fbfc0e1108a8fd17b448a68554199c47d08ffb10d4b8")
        .unwrap();
    let mut key = vec![0x04u8];
    key.extend_from_slice(&x);
    key.extend_from_slice(&y);
    let expected = hex::decode("7e5f4552091a69125d5dfcb7b8c2659029395bdf").unwrap();
    match eth_address(&key).unwrap() {
        Address::EvmAddress(bytes) => assert_eq!(bytes, expected),
    }

    // Wrong length and compressed encodings are refused.
    assert!(eth_address(&vec![0x04u8; 64]).is_none());
    assert!(eth_address(&vec![0x02u8; 65]).is_none());
}
