use frosty_functions::runtime::run_simulated_task;
use frosty_functions::{
    Address, CallOutcome, CallbackKind, Chain, EvmChain, Execution, FailureReason, HostError,
    JobRequest, LogType, Phase, SimulationEnv,
};

fn request_with(data: Vec<u8>, gas_payment: u128) -> JobRequest {
    JobRequest {
        chain: Chain::Evm(EvmChain::Localhost),
        block_hash: None,
        block_number: None,
        transaction_hash: None,
        on_chain_id: Some(7),
        caller: Address::EvmAddress(vec![0u8; 20]),
        function_hash: vec![0u8; 32],
        data,
        gas_payment,
    }
}

fn utf16le(s: &str) -> Vec<u8> {
    s.encode_utf16().flat_map(|u| u.to_le_bytes()).collect()
}

#[test]
fn plain_job_produces_one_main_commit() {
    let request = request_with(b"hello".to_vec(), 1_000_000_000);
    let env = SimulationEnv::new(request);
    let mut exec = Execution::new(env);
    exec.instantiated();

    assert_eq!(exec.calldata(), b"hello".to_vec());
    assert_eq!(exec.calldata_size().unwrap(), 5);
    exec.console_log(&utf16le("hi")).unwrap();
    exec.main_returned(CallOutcome::Completed, 500, 1111);

    let tasks = exec.take_pending();
    assert!(tasks.is_empty());
    exec.finish();
    assert_eq!(exec.phase(), Phase::Completed);

    let commits = exec.env_ref().commit_log();
    assert_eq!(commits.len(), 1);
    assert_eq!(commits[0].title, "main()");
    assert_eq!(commits[0].timestamp, 1111);
    assert_eq!(commits[0].instructions, 500);
    assert_eq!(commits[0].logs.len(), 1);
    assert_eq!(commits[0].logs[0].message, "hi");
    assert!(matches!(commits[0].logs[0].level, LogType::Default));
}

#[test]
fn raw_rand_job_produces_resolve_commit_with_32_byte_payload() {
    let request = request_with(Vec::new(), 1_000_000_000);
    let env = SimulationEnv::new(request);
    let mut exec = Execution::new(env);
    exec.instantiated();

    exec.ic_raw_rand(1).unwrap();
    exec.main_returned(CallOutcome::Completed, 100, 10);

    let tasks = exec.take_pending();
    assert_eq!(tasks.len(), 1);
    let task = tasks.into_iter().next().unwrap();
    let result = run_simulated_task(task).unwrap();
    assert_eq!(result.result.as_ref().unwrap().len(), 32);

    let call = exec.callback_begin(result);
    assert!(matches!(call.kind, CallbackKind::Resolve));
    assert_eq!(call.promise_id, 1);
    assert_eq!(call.payload_len, 32);

    let payload = exec.copy_shared_buffer().unwrap();
    assert_eq!(payload.len(), 32);
    exec.console_log(&utf16le("32")).unwrap();
    exec.callback_returned(CallOutcome::Completed, 50, 20);

    assert!(exec.take_pending().is_empty());
    exec.finish();

    let commits = exec.env_ref().commit_log();
    assert_eq!(commits.len(), 2);
    assert_eq!(commits[0].title, "main()");
    // The main commit is billed the raw_rand fee plus its instructions.
    assert_eq!(commits[0].fees, 1_000_000 + 100);
    assert_eq!(commits[0].instructions, 100);
    assert_eq!(
        commits[1].title,
        "Resolving Promise #1: Retrieve verifiable randomness"
    );
    assert_eq!(commits[1].logs.len(), 1);
    assert_eq!(commits[1].logs[0].message, "32");
    assert_eq!(commits[1].instructions, 50);
}

#[test]
fn missing_export_fails_before_any_commit() {
    let request = request_with(Vec::new(), 1_000_000_000);
    let env = SimulationEnv::new(request);
    let mut exec = Execution::new(env);
    // The driver found no reject export while instantiating.
    exec.instantiation_failed();
    assert_eq!(
        exec.phase(),
        Phase::Failed(FailureReason::InvalidModule)
    );
    assert!(exec.env_ref().commit_log().is_empty());
}

#[test]
fn fuel_exhaustion_in_main_is_out_of_gas_with_no_callbacks() {
    let request = request_with(Vec::new(), 1_000_000_000);
    let env = SimulationEnv::new(request);
    let mut exec = Execution::new(env);
    exec.instantiated();
    exec.console_log(&utf16le("before the end")).unwrap();
    exec.main_returned(CallOutcome::OutOfFuel, 1_000_000, 5);

    assert_eq!(exec.phase(), Phase::Failed(FailureReason::OutOfGas));
    let commits = exec.env_ref().commit_log();
    // The main commit itself is still persisted, and no callback ever ran.
    assert_eq!(commits.len(), 1);
    assert_eq!(commits[0].title, "main()");
    assert_eq!(commits[0].instructions, 1_000_000);
}

#[test]
fn fuel_exhaustion_in_callback_preserves_finalized_commits() {
    let request = request_with(Vec::new(), 1_000_000_000);
    let env = SimulationEnv::new(request);
    let mut exec = Execution::new(env);
    exec.instantiated();
    exec.ic_raw_rand(4).unwrap();
    exec.main_returned(CallOutcome::Completed, 100, 1);

    let task = exec.take_pending().into_iter().next().unwrap();
    let result = run_simulated_task(task).unwrap();
    exec.callback_begin(result);
    exec.callback_returned(CallOutcome::OutOfFuel, 1_000_000, 2);

    assert_eq!(exec.phase(), Phase::Failed(FailureReason::OutOfGas));
    let commits = exec.env_ref().commit_log();
    assert_eq!(commits.len(), 2);
    assert_eq!(commits[0].title, "main()");
    assert_eq!(
        commits[1].title,
        "Resolving Promise #4: Retrieve verifiable randomness"
    );
}

#[test]
fn guest_trap_is_uncaught_exception() {
    let request = request_with(Vec::new(), 1_000_000_000);
    let env = SimulationEnv::new(request);
    let mut exec = Execution::new(env);
    exec.instantiated();
    exec.main_returned(CallOutcome::Trapped, 10, 1);
    assert_eq!(
        exec.phase(),
        Phase::Failed(FailureReason::UncaughtException)
    );
    assert_eq!(exec.env_ref().commit_log().len(), 1);
}

#[test]
fn failed_charge_leaves_task_queue_empty() {
    // Payment far below the raw_rand fee: the charge fails synchronously
    // and nothing is queued.
    let request = request_with(Vec::new(), 10);
    let env = SimulationEnv::new(request);
    let mut exec = Execution::new(env);
    exec.instantiated();

    assert_eq!(exec.ic_raw_rand(1), Err(HostError::InsufficientFunds));
    assert_eq!(exec.pending_count(), 0);
    assert_eq!(
        exec.evm_caller_wallet_sign_message(vec![1, 2, 3], 2),
        Err(HostError::InsufficientFunds)
    );
    assert_eq!(exec.pending_count(), 0);
    assert_eq!(
        exec.evm_caller_wallet_deposit(1_000_000, 3),
        Err(HostError::InsufficientFunds)
    );
    assert_eq!(exec.pending_count(), 0);

    // The job itself can still complete without async work.
    exec.main_returned(CallOutcome::Completed, 0, 1);
    assert!(exec.take_pending().is_empty());
    exec.finish();
    assert_eq!(exec.phase(), Phase::Completed);

    // No partial side effect: the failed charges left no spawn log and
    // no fee in the main commit.
    let commits = exec.env_ref().commit_log();
    assert_eq!(commits[0].logs.len(), 0);
    assert_eq!(commits[0].fees, 0);
}

#[test]
fn deposit_amount_overflow_is_insufficient_funds() {
    let request = request_with(Vec::new(), u128::MAX);
    let env = SimulationEnv::new(request);
    let mut exec = Execution::new(env);
    exec.instantiated();
    assert_eq!(
        exec.evm_caller_wallet_deposit(u64::MAX, 1),
        Err(HostError::InsufficientFunds)
    );
    assert_eq!(exec.pending_count(), 0);
}

#[test]
fn rejected_task_invokes_reject_with_error_bytes() {
    let request = request_with(Vec::new(), 1_000_000_000);
    let env = SimulationEnv::new(request);
    let mut exec = Execution::new(env);
    exec.instantiated();
    exec.ic_raw_rand(9).unwrap();
    exec.main_returned(CallOutcome::Completed, 100, 1);
    let task = exec.take_pending().into_iter().next().unwrap();

    // The driver reports the task as failed.
    let failed = frosty_functions::AsyncResult {
        promise_id: task.promise_id,
        description: task.description,
        result: Err("boom".to_string()),
    };
    let call = exec.callback_begin(failed);
    assert!(matches!(call.kind, CallbackKind::Reject));
    assert_eq!(call.payload_len, 4);
    assert_eq!(exec.copy_shared_buffer().unwrap(), b"boom".to_vec());
    exec.callback_returned(CallOutcome::Completed, 10, 2);
    exec.finish();

    let commits = exec.env_ref().commit_log();
    assert_eq!(commits.len(), 2);
    assert_eq!(
        commits[1].title,
        "Rejecting Promise #9: Retrieve verifiable randomness"
    );
    assert_eq!(
        commits[1].logs[0].message,
        "Promise rejected with error: boom"
    );
    assert!(matches!(commits[1].logs[0].level, LogType::System));
}

#[test]
fn host_functions_fail_loudly_without_open_commit() {
    let request = request_with(Vec::new(), 1_000_000_000);
    let env = SimulationEnv::new(request);
    let mut exec = Execution::new(env);
    exec.instantiated();
    exec.main_returned(CallOutcome::Completed, 0, 1);
    // Between commits no commit is open: host functions must refuse.
    assert_eq!(
        exec.console_log(&utf16le("late")),
        Err(HostError::NoOpenCommit)
    );
    assert_eq!(exec.copy_shared_buffer(), Err(HostError::NoOpenCommit));
    assert_eq!(exec.ic_raw_rand(1), Err(HostError::NoOpenCommit));
}

#[test]
fn invalid_utf16_is_rejected_not_substituted() {
    let request = request_with(Vec::new(), 1_000_000_000);
    let env = SimulationEnv::new(request);
    let mut exec = Execution::new(env);
    exec.instantiated();
    // A lone high surrogate (0xD800, little-endian).
    assert_eq!(
        exec.console_log(&vec![0x00, 0xd8]),
        Err(HostError::InvalidString)
    );
    exec.main_returned(CallOutcome::Completed, 0, 1);
    let commits = exec.env_ref().commit_log();
    assert_eq!(commits[0].logs.len(), 0);
}

fn run_simulation_with_all_ops() -> (Vec<String>, Vec<Vec<u8>>) {
    let request = request_with(b"x".to_vec(), u64::MAX as u128);
    let env = SimulationEnv::new(request);
    let mut exec = Execution::new(env);
    exec.instantiated();
    exec.ic_raw_rand(1).unwrap();
    exec.evm_caller_wallet_deposit(1234, 2).unwrap();
    exec.evm_caller_wallet_sign_message(vec![0xde, 0xad], 3).unwrap();
    exec.main_returned(CallOutcome::Completed, 100, 1);
    let tasks = exec.take_pending();
    let mut titles = Vec::new();
    let mut payloads = Vec::new();
    for task in tasks {
        titles.push(task.description.clone());
        let result = run_simulated_task(task).unwrap();
        payloads.push(result.result.as_ref().unwrap().clone());
        let _ = exec.callback_begin(result);
        exec.callback_returned(CallOutcome::Completed, 10, 2);
    }
    exec.finish();
    for c in exec.env_ref().commit_log() {
        titles.push(c.title.clone());
    }
    (titles, payloads)
}

#[test]
fn simulation_is_deterministic_and_uses_dummy_values() {
    let (titles_a, payloads_a) = run_simulation_with_all_ops();
    let (titles_b, payloads_b) = run_simulation_with_all_ops();
    assert_eq!(titles_a, titles_b);
    assert_eq!(payloads_a, payloads_b);
    // The dummy values themselves are fixed: zeroed randomness and
    // transaction hash, a 64-byte 0x2a signature.
    assert_eq!(payloads_a[0], vec![0u8; 32]);
    assert_eq!(payloads_a[1], vec![0u8; 32]);
    assert_eq!(payloads_a[2], vec![42u8; 64]);
}

#[test]
fn queued_tasks_log_spawn_lines_and_descriptions() {
    let request = request_with(Vec::new(), u64::MAX as u128);
    let env = SimulationEnv::new(request);
    let mut exec = Execution::new(env);
    exec.instantiated();
    exec.evm_caller_wallet_deposit(1234, 5).unwrap();
    exec.evm_caller_wallet_sign_message(vec![0xde, 0xad, 0xbe, 0xef], -2).unwrap();
    exec.main_returned(CallOutcome::Completed, 100, 1);

    let tasks = exec.take_pending();
    assert_eq!(tasks[0].description, "CallerWallet.deposit(1234)");
    assert_eq!(
        tasks[1].description,
        "CallerWallet.signMessage(0xdeadbeef)"
    );

    let commits = exec.env_ref().commit_log();
    assert_eq!(
        commits[0].logs[0].message,
        "Spawned Promise #5: CallerWallet.deposit(1234)"
    );
    assert_eq!(
        commits[0].logs[1].message,
        "Spawned Promise #-2: CallerWallet.signMessage(0xdeadbeef)"
    );
    assert!(matches!(commits[0].logs[0].level, LogType::System));
}

#[test]
fn wallet_address_is_utf16le_of_dummy_address_in_simulation() {
    let request = request_with(Vec::new(), 1_000_000_000);
    let env = SimulationEnv::new(request);
    let exec = Execution::new(env);
    let bytes = exec.evm_caller_wallet_address();
    let expected: Vec<u8> = "0x0000000000000000000000000000000000000000"
        .encode_utf16()
        .flat_map(|u| u.to_le_bytes())
        .collect();
    assert_eq!(bytes, expected);
}

#[test]
fn on_chain_id_and_chain_id_report_job_identity() {
    let mut request = request_with(Vec::new(), 1);
    request.on_chain_id = Some(99);
    let exec = Execution::new(SimulationEnv::new(request));
    assert_eq!(exec.on_chain_id(), 99);
    assert_eq!(exec.evm_chain_id(), 31337);

    let mut request2 = request_with(Vec::new(), 1);
    request2.on_chain_id = None;
    request2.chain = Chain::Evm(EvmChain::ArbitrumOne);
    let exec2 = Execution::new(SimulationEnv::new(request2));
    assert_eq!(exec2.on_chain_id(), -1);
    assert_eq!(exec2.evm_chain_id(), 42161);
}
