//! The execution orchestrator: a state machine that drives one job from
//! module instantiation through `main()` and then through one callback per
//! completed asynchronous task, producing exactly one commit per batch.
//!
//! The orchestrator never runs the interpreter or awaits anything itself:
//! an outer driver performs the guest calls and the asynchronous
//! operations, and reports each outcome through the step methods here.
//! Every decision — commit boundaries, fee charging, failure
//! classification, callback selection — is made and verified here.

use vstd::prelude::*;
use vstd::string::StrSliceExecFns;
use vstd::string::StringExecFns;
use vstd::utf8::encode_utf8;

use crate::context::{spawn_message, AsyncOp, AsyncResult, AsyncTask, CommitContext, ExecutionContext};
use crate::env::RuntimeEnvironment;
use crate::job::{Commit, FailureReason, JobRequest, LogEntry, LogType};
use crate::chain::{spec_evm_chain_id, Chain};
use crate::text::{
    bytes_to_utf16le, clip_string, clipped, dec_digits, dec_int, hex_encode, hex_of,
    i64_to_string, le_bytes_to_utf16_units, u64_to_string, utf16_chars, utf16_to_string,
    utf16_units_of, valid_utf16_units,
};

verus! {

/// The deterministic instruction budget for one batch of guest execution.
/// Fuel is replenished to this budget before every top-level invocation
/// and does not carry over between batches.
pub const FUEL_PER_BATCH: u64 = 1_000_000;

/// How one guest call ended, as reported by the interpreter driver.
#[derive(Debug, Clone, Copy, PartialEq, Eq, Structural)]
pub enum CallOutcome {
    /// The call returned normally.
    Completed,
    /// The call exhausted its fuel budget.
    OutOfFuel,
    /// The call trapped, including through the guest's abort convention.
    Trapped,
}

/// Where the orchestrator stands in the lifecycle of one job.
#[derive(Debug, Clone, Copy, PartialEq, Eq, Structural)]
pub enum Phase {
    /// The module is being loaded and its start sequence run, inside the
    /// commit that will become the `main()` commit.
    Instantiating,
    /// `main()` is being executed.
    RunningMain,
    /// Between guest calls: waiting for queued tasks to complete.
    Draining,
    /// A resolve or reject callback is being executed.
    Callback,
    /// All tasks drained; the job succeeded.
    Completed,
    /// The job failed; no further steps are taken.
    Failed(FailureReason),
}

/// Which guest entry point a callback invocation must use.
#[derive(Debug, Clone, Copy, PartialEq, Eq, Structural)]
pub enum CallbackKind {
    /// The task succeeded: call the resolve export.
    Resolve,
    /// The task failed: call the reject export.
    Reject,
}

/// Instructions for the driver: which callback export to invoke and with
/// which arguments. The payload itself is already in the shared buffer.
#[derive(Debug, Clone, Copy, PartialEq, Eq, Structural)]
pub struct CallbackInvocation {
    pub kind: CallbackKind,
    pub promise_id: i32,
    pub payload_len: i32,
}

/// The outcome of one finished execution, for reporting.
#[derive(Debug)]
pub struct ExecutionResult {
    /// The commits the job produced, in order.
    pub commits: Vec<Commit>,
    /// `None` on success, otherwise why the job failed.
    pub failure: Option<FailureReason>,
}

/// The title of the first commit of every job.
pub open spec fn main_title() -> Seq<char> {
    ("main()")@
}

/// The title of a commit produced by a resolve callback.
pub open spec fn resolve_title(promise_id: int, description: Seq<char>) -> Seq<char> {
    ("Resolving Promise #")@ + dec_int(promise_id) + (": ")@ + description
}

/// The title of a commit produced by a reject callback.
pub open spec fn reject_title(promise_id: int, description: Seq<char>) -> Seq<char> {
    ("Rejecting Promise #")@ + dec_int(promise_id) + (": ")@ + description
}

/// The system log line recording that a task's failure is being delivered.
pub open spec fn reject_log_message(error: Seq<char>) -> Seq<char> {
    ("Promise rejected with error: ")@ + error
}

/// Runtime state for one job execution. All methods are synchronous; the
/// caller is expected to schedule guest calls and asynchronous operations
/// between them.
pub struct Execution<E: RuntimeEnvironment> {
    env: E,
    ctx: ExecutionContext,
    phase: Phase,
    cb_promise_id: i32,
    cb_description: String,
    cb_success: bool,
    callbacks_done: Ghost<int>,
}

impl<E: RuntimeEnvironment> Execution<E> {
    /// The current phase of the state machine.
    pub closed spec fn spec_phase(&self) -> Phase {
        self.phase
    }

    /// The commits persisted so far.
    pub closed spec fn commits(&self) -> Seq<Commit> {
        self.env.commits()
    }

    /// How many callback batches have been finalized.
    pub closed spec fn callbacks_completed(&self) -> int {
        self.callbacks_done@
    }

    /// The tasks queued and not yet handed to the driver.
    pub closed spec fn pending(&self) -> Seq<AsyncTask> {
        self.ctx.pending_tasks()
    }

    /// Whether a commit is currently open.
    pub closed spec fn commit_open(&self) -> bool {
        self.ctx.commit_open()
    }

    /// The currently open commit.
    pub closed spec fn open_commit(&self) -> CommitContext {
        self.ctx.commit_ctx()
    }

    /// Whether this run is a simulation.
    pub closed spec fn sim(&self) -> bool {
        self.env.sim()
    }

    /// The job request being executed.
    pub closed spec fn job(&self) -> JobRequest {
        self.env.job()
    }

    /// The remaining chargeable part of the job's gas payment.
    pub closed spec fn balance(&self) -> int {
        self.env.balance()
    }

    /// Total execution fees charged so far.
    pub closed spec fn fees_charged(&self) -> int {
        self.env.fees_charged()
    }

    /// Total gas charged so far.
    pub closed spec fn gas_charged(&self) -> int {
        self.env.gas_charged()
    }

    /// The caller's wallet address, as text bytes.
    pub closed spec fn wallet_address(&self) -> Seq<u8> {
        self.env.wallet_address()
    }

    /// The promise id of the callback currently being executed.
    pub closed spec fn cb_id(&self) -> int {
        self.cb_promise_id as int
    }

    /// The description of the callback currently being executed.
    pub closed spec fn cb_desc(&self) -> Seq<char> {
        self.cb_description@
    }

    /// Whether the callback currently being executed resolves (rather
    /// than rejects) its promise.
    pub closed spec fn cb_resolving(&self) -> bool {
        self.cb_success
    }

    /// The orchestrator's invariant. Among other things: commits that
    /// were persisted are never taken back, the count of persisted
    /// commits is pinned to the phase and the number of finalized
    /// callbacks, charges balance against the job's payment, and in
    /// simulation mode every queued task is a dummy.
    pub closed spec fn wf(&self) -> bool {
        &&& self.env.fees_charged() >= 0
        &&& self.env.gas_charged() >= 0
        &&& self.env.balance() >= 0
        &&& self.env.fees_charged() + self.env.gas_charged() + self.env.balance()
            == self.env.job().gas_payment
        &&& self.callbacks_done@ >= 0
        &&& match self.phase {
            Phase::Instantiating | Phase::RunningMain => {
                &&& self.ctx.commit_open()
                &&& self.ctx.commit_ctx().instructions == 0
                &&& self.env.commits().len() == 0
                &&& self.callbacks_done@ == 0
            },
            Phase::Draining => {
                &&& !self.ctx.commit_open()
                &&& self.env.commits().len() == 1 + self.callbacks_done@
            },
            Phase::Callback => {
                &&& self.ctx.commit_open()
                &&& self.ctx.commit_ctx().instructions == 0
                &&& self.env.commits().len() == 1 + self.callbacks_done@
            },
            Phase::Completed => {
                &&& !self.ctx.commit_open()
                &&& self.env.commits().len() == 1 + self.callbacks_done@
                &&& self.ctx.pending_tasks().len() == 0
            },
            Phase::Failed(reason) => {
                &&& !self.ctx.commit_open()
                &&& if reason is InvalidModule {
                    self.env.commits().len() == 0
                } else {
                    self.env.commits().len() == 1 + self.callbacks_done@
                }
            },
        }
        &&& (self.ctx.commit_open() ==> self.ctx.commit_ctx().fees <= self.env.fees_charged())
        &&& forall|i: int|
            0 <= i < self.ctx.pending_tasks().len() && self.env.sim()
                ==> (#[trigger] self.ctx.pending_tasks()[i]).op is Simulated
    }

    /// Starts an execution for a fresh environment: a commit is opened for
    /// the batch that will run module initialization and `main()`.
    pub fn new(env: E) -> (r: Execution<E>)
        requires
            env.commits().len() == 0,
            env.fees_charged() == 0,
            env.gas_charged() == 0,
            env.balance() == env.job().gas_payment,
        ensures
            r.wf(),
            r.spec_phase() is Instantiating,
            r.commits().len() == 0,
            r.pending().len() == 0,
            r.callbacks_completed() == 0,
            r.commit_open(),
            r.open_commit().logs@ == Seq::<LogEntry>::empty(),
            r.sim() == env.sim(),
            r.job() == env.job(),
            r.balance() == env.balance(),
    {
        let mut ctx = ExecutionContext::new();
        ctx.commit_begin();
        Execution {
            env,
            ctx,
            phase: Phase::Instantiating,
            cb_promise_id: 0,
            cb_description: String::new(),
            cb_success: false,
            callbacks_done: Ghost(0),
        }
    }

    /// The current phase, for the driver.
    pub fn phase(&self) -> (r: Phase)
        ensures
            r == self.spec_phase(),
    {
        self.phase
    }

    /// How many tasks are queued and not yet handed out.
    pub fn pending_count(&self) -> (r: usize)
        ensures
            r == self.pending().len(),
    {
        self.ctx.pending_count()
    }

    /// The environment, for reading the collected state back out.
    pub fn env_ref(&self) -> (r: &E)
        ensures
            r.commits() == self.commits(),
            r.sim() == self.sim(),
            r.job() == self.job(),
    {
        &self.env
    }

    /// Module loading or initialization failed: the job fails with
    /// `InvalidModule` before any commit is produced. The commit that was
    /// open for the batch is discarded, not persisted.
    pub fn instantiation_failed(&mut self)
        requires
            old(self).wf(),
            old(self).spec_phase() is Instantiating,
        ensures
            final(self).wf(),
            final(self).spec_phase() == Phase::Failed(FailureReason::InvalidModule),
            final(self).commits() == old(self).commits(),
            final(self).commits().len() == 0,
            final(self).callbacks_completed() == 0,
    {
        self.ctx.discard_commit();
        self.phase = Phase::Failed(FailureReason::InvalidModule);
    }

    /// Module loading and initialization succeeded: `main()` is about to
    /// run, in the batch that is already open.
    pub fn instantiated(&mut self)
        requires
            old(self).wf(),
            old(self).spec_phase() is Instantiating,
        ensures
            final(self).wf(),
            final(self).spec_phase() is RunningMain,
            final(self).commits() == old(self).commits(),
            final(self).open_commit() == old(self).open_commit(),
            final(self).pending() == old(self).pending(),
            final(self).balance() == old(self).balance(),
            final(self).sim() == old(self).sim(),
            final(self).job() == old(self).job(),
    {
        self.phase = Phase::RunningMain;
    }

    /// `main()` returned: the batch is closed into the `"main()"` commit,
    /// which is persisted even if the batch failed; the instruction cost
    /// is charged as a fee as far as the payment covers it. Fuel
    /// exhaustion fails the job with `OutOfGas` before any callback has
    /// run; a trap fails it with `UncaughtException`; a payment that
    /// cannot cover the consumed instructions fails it with `OutOfGas`.
    pub fn main_returned(&mut self, outcome: CallOutcome, fuel_used: u64, timestamp: u64)
        requires
            old(self).wf(),
            old(self).spec_phase() is RunningMain,
        ensures
            final(self).wf(),
            final(self).commits().len() == 1,
            final(self).commits().drop_last() == old(self).commits(),
            final(self).commits().last().title@ == main_title(),
            final(self).commits().last().timestamp == timestamp,
            final(self).commits().last().logs@ == old(self).open_commit().logs@,
            final(self).commits().last().instructions == fuel_used,
            final(self).commits().last().fees == old(self).open_commit().fees
                + if old(self).balance() >= fuel_used { fuel_used as int } else { 0 },
            final(self).callbacks_completed() == 0,
            final(self).pending() == old(self).pending(),
            !final(self).commit_open(),
            final(self).spec_phase() == (if outcome is OutOfFuel {
                Phase::Failed(FailureReason::OutOfGas)
            } else if old(self).balance() < fuel_used {
                Phase::Failed(FailureReason::OutOfGas)
            } else if outcome is Trapped {
                Phase::Failed(FailureReason::UncaughtException)
            } else {
                Phase::Draining
            }),
            old(self).balance() >= fuel_used ==> final(self).balance() == old(self).balance()
                - fuel_used,
            old(self).balance() < fuel_used ==> final(self).balance() == old(self).balance(),
            final(self).sim() == old(self).sim(),
            final(self).job() == old(self).job(),
    {
        self.ctx.add_instructions(fuel_used);
        let charged = self.env.charge_fee(fuel_used);
        if charged.is_ok() {
            proof {
                assert(self.ctx.commit_ctx().fees + fuel_used <= self.env.fees_charged());
            }
            self.ctx.add_fee(fuel_used as u128);
        }
        let title = String::from_str("main()");
        let commit = self.ctx.commit_end(title, timestamp);
        self.env.commit(commit);
        self.phase = if let CallOutcome::OutOfFuel = outcome {
            Phase::Failed(FailureReason::OutOfGas)
        } else if charged.is_err() {
            Phase::Failed(FailureReason::OutOfGas)
        } else if let CallOutcome::Trapped = outcome {
            Phase::Failed(FailureReason::UncaughtException)
        } else {
            Phase::Draining
        };
    }

    /// Hands every queued task to the driver, which moves them into its
    /// unordered completion pool. In simulation mode every handed-out
    /// task is a dummy.
    pub fn take_pending(&mut self) -> (r: Vec<AsyncTask>)
        requires
            old(self).wf(),
            old(self).spec_phase() is Draining,
        ensures
            final(self).wf(),
            r@ == old(self).pending(),
            final(self).pending().len() == 0,
            final(self).spec_phase() == old(self).spec_phase(),
            final(self).commits() == old(self).commits(),
            final(self).callbacks_completed() == old(self).callbacks_completed(),
            final(self).balance() == old(self).balance(),
            final(self).sim() == old(self).sim(),
            final(self).job() == old(self).job(),
            forall|i: int|
                0 <= i < r@.len() && old(self).sim() ==> (#[trigger] r@[i]).op is Simulated,
    {
        self.ctx.take_pending()
    }

    /// A task completed: opens the callback batch, places the payload (or
    /// the error text's bytes) into the shared buffer, logs a rejection
    /// line for failed tasks, and tells the driver which guest export to
    /// invoke.
    pub fn callback_begin(&mut self, result: AsyncResult) -> (call: CallbackInvocation)
        requires
            old(self).wf(),
            old(self).spec_phase() is Draining,
            result.result matches Ok(p) ==> p@.len() <= i32::MAX,
            result.result matches Err(e) ==> encode_utf8(e@).len() <= i32::MAX,
        ensures
            final(self).wf(),
            final(self).spec_phase() is Callback,
            final(self).commits() == old(self).commits(),
            final(self).callbacks_completed() == old(self).callbacks_completed(),
            final(self).pending() == old(self).pending(),
            final(self).balance() == old(self).balance(),
            final(self).sim() == old(self).sim(),
            final(self).job() == old(self).job(),
            final(self).commit_open(),
            final(self).cb_id() == result.promise_id as int,
            final(self).cb_desc() == result.description@,
            final(self).cb_resolving() == result.result is Ok,
            call.promise_id == result.promise_id,
            result.result matches Ok(p) ==> {
                &&& call.kind is Resolve
                &&& call.payload_len == p@.len()
                &&& final(self).open_commit().shared_buffer@ == p@
                &&& final(self).open_commit().logs@ == Seq::<LogEntry>::empty()
            },
            result.result matches Err(e) ==> {
                &&& call.kind is Reject
                &&& call.payload_len == encode_utf8(e@).len()
                &&& final(self).open_commit().shared_buffer@ == encode_utf8(e@)
                &&& final(self).open_commit().logs@.len() == 1
                &&& final(self).open_commit().logs@[0].level is System
                &&& final(self).open_commit().logs@[0].message@ == reject_log_message(e@)
            },
    {
        self.ctx.commit_begin();
        self.cb_promise_id = result.promise_id;
        self.cb_description = result.description;
        self.phase = Phase::Callback;
        match result.result {
            Ok(payload) => {
                self.cb_success = true;
                let len = payload.len();
                self.ctx.set_shared_buffer(payload);
                CallbackInvocation {
                    kind: CallbackKind::Resolve,
                    promise_id: self.cb_promise_id,
                    payload_len: len as i32,
                }
            },
            Err(error) => {
                self.cb_success = false;
                let mut message = String::from_str("Promise rejected with error: ");
                message.append(error.as_str());
                self.ctx.log(message);
                let bytes = error.as_str().as_bytes_vec();
                let len = bytes.len();
                self.ctx.set_shared_buffer(bytes);
                CallbackInvocation {
                    kind: CallbackKind::Reject,
                    promise_id: self.cb_promise_id,
                    payload_len: len as i32,
                }
            },
        }
    }

    /// The resolve or reject call returned: the callback batch is closed
    /// into its commit, which is persisted even if the batch failed, and
    /// the instruction cost is charged as far as the payment covers it.
    /// Commits already finalized are preserved whatever happens here.
    pub fn callback_returned(&mut self, outcome: CallOutcome, fuel_used: u64, timestamp: u64)
        requires
            old(self).wf(),
            old(self).spec_phase() is Callback,
        ensures
            final(self).wf(),
            final(self).commits().len() == old(self).commits().len() + 1,
            final(self).commits().drop_last() == old(self).commits(),
            final(self).commits().last().title@ == (if old(self).cb_resolving() {
                resolve_title(old(self).cb_id(), old(self).cb_desc())
            } else {
                reject_title(old(self).cb_id(), old(self).cb_desc())
            }),
            final(self).commits().last().timestamp == timestamp,
            final(self).commits().last().logs@ == old(self).open_commit().logs@,
            final(self).commits().last().instructions == fuel_used,
            final(self).commits().last().fees == old(self).open_commit().fees
                + if old(self).balance() >= fuel_used { fuel_used as int } else { 0 },
            final(self).callbacks_completed() == old(self).callbacks_completed() + 1,
            final(self).pending() == old(self).pending(),
            !final(self).commit_open(),
            final(self).spec_phase() == (if outcome is OutOfFuel {
                Phase::Failed(FailureReason::OutOfGas)
            } else if old(self).balance() < fuel_used {
                Phase::Failed(FailureReason::OutOfGas)
            } else if outcome is Trapped {
                Phase::Failed(FailureReason::UncaughtException)
            } else {
                Phase::Draining
            }),
            final(self).sim() == old(self).sim(),
            final(self).job() == old(self).job(),
    {
        self.ctx.add_instructions(fuel_used);
        let charged = self.env.charge_fee(fuel_used);
        if charged.is_ok() {
            self.ctx.add_fee(fuel_used as u128);
        }
        let title = if self.cb_success {
            let mut t = String::from_str("Resolving Promise #");
            t.append(i64_to_string(self.cb_promise_id as i64).as_str());
            t.append(": ");
            t.append(self.cb_description.as_str());
            t
        } else {
            let mut t = String::from_str("Rejecting Promise #");
            t.append(i64_to_string(self.cb_promise_id as i64).as_str());
            t.append(": ");
            t.append(self.cb_description.as_str());
            t
        };
        let commit = self.ctx.commit_end(title, timestamp);
        self.env.commit(commit);
        proof {
            self.callbacks_done@ = self.callbacks_done@ + 1;
        }
        self.phase = if let CallOutcome::OutOfFuel = outcome {
            Phase::Failed(FailureReason::OutOfGas)
        } else if charged.is_err() {
            Phase::Failed(FailureReason::OutOfGas)
        } else if let CallOutcome::Trapped = outcome {
            Phase::Failed(FailureReason::UncaughtException)
        } else {
            Phase::Draining
        };
    }

    /// The completion pool is empty and no tasks are queued: the job is
    /// complete.
    pub fn finish(&mut self)
        requires
            old(self).wf(),
            old(self).spec_phase() is Draining,
            old(self).pending().len() == 0,
        ensures
            final(self).wf(),
            final(self).spec_phase() is Completed,
            final(self).commits() == old(self).commits(),
            final(self).callbacks_completed() == old(self).callbacks_completed(),
    {
        self.phase = Phase::Completed;
    }
}

/// Executes a dummy task: the fixed payload decided when it was queued is
/// its successful outcome. Returns nothing for real operations, which only
/// the driver can perform.
pub fn run_simulated_task(task: AsyncTask) -> (r: Option<AsyncResult>)
    ensures
        r is Some <==> task.op is Simulated,
        r matches Some(res) ==> {
            &&& res.promise_id == task.promise_id
            &&& res.description == task.description
            &&& res.result matches Ok(p) && task.op matches AsyncOp::Simulated { payload }
                && p == payload
        },
{
    match task.op {
        AsyncOp::Simulated { payload } => Some(
            AsyncResult {
                promise_id: task.promise_id,
                description: task.description,
                result: Ok(payload),
            },
        ),
        _ => None,
    }
}

/// The fixed fee charged when `raw_rand` queues its task.
pub const RAW_RAND_FEE: u64 = 1_000_000;

/// The fixed fee charged when a message signature is requested.
pub const SIGN_MESSAGE_FEE: u64 = 10_000_000;

/// The upper-bound gas estimate charged for one deposit transaction on
/// the calling chain, on top of the deposited amount.
pub const DEPOSIT_GAS_ESTIMATE: u64 = 21_000;

/// Ways a host function call can fail. These are synchronous: they are
/// raised before any task is queued or side effect performed.
#[derive(Debug, Clone, Copy, PartialEq, Eq, Structural)]
pub enum HostError {
    /// A host function that needs an open commit was called outside one.
    NoOpenCommit,
    /// A buffer's declared length exceeds the call site's maximum.
    BufferTooLong,
    /// A buffer lies outside guest linear memory.
    BufferOutOfBounds,
    /// A guest string is not valid UTF-16.
    InvalidString,
    /// The job's payload does not fit the guest-visible size word.
    PayloadTooLarge,
    /// The job's remaining payment cannot cover the operation's fee.
    InsufficientFunds,
}

/// The randomness handed out by simulated runs: 32 zero bytes, stable
/// across runs.
pub open spec fn simulated_random_bytes() -> Seq<u8> {
    Seq::new(32, |i: int| 0u8)
}

/// The transaction hash handed out by simulated deposits: 32 zero bytes,
/// stable across runs.
pub open spec fn simulated_transaction_hash() -> Seq<u8> {
    Seq::new(32, |i: int| 0u8)
}

/// The signature handed out by simulated signing: 64 bytes of 0x2a,
/// stable across runs.
pub open spec fn simulated_signature() -> Seq<u8> {
    Seq::new(64, |i: int| 42u8)
}

/// The description logged for a `raw_rand` task.
pub open spec fn raw_rand_description() -> Seq<char> {
    ("Retrieve verifiable randomness")@
}

/// The description logged for a deposit task.
pub open spec fn deposit_description(amount: int) -> Seq<char> {
    ("CallerWallet.deposit(")@ + dec_digits(amount) + (")")@
}

/// The description logged for a signing task. The message is shown in
/// hexadecimal, clipped to 100 characters.
pub open spec fn sign_message_description(message: Seq<u8>) -> Seq<char> {
    ("CallerWallet.signMessage(0x")@ + clipped(hex_of(message), 100) + (")")@
}

fn repeat_byte(byte: u8, count: usize) -> (r: Vec<u8>)
    ensures
        r@ == Seq::new(count as nat, |i: int| byte),
{
    let mut r: Vec<u8> = Vec::new();
    let mut i: usize = 0;
    while i < count
        invariant
            i <= count,
            r@.len() == i,
            forall|j: int| 0 <= j < i ==> r@[j] == byte,
        decreases count - i,
    {
        r.push(byte);
        i = i + 1;
    }
    proof {
        assert(r@ =~= Seq::new(count as nat, |i: int| byte));
    }
    r
}

impl<E: RuntimeEnvironment> Execution<E> {
    /// The value of the link-time constant telling the guest how many
    /// bytes `calldata` will write, so it can size its buffer first.
    pub fn calldata_size(&self) -> (r: Result<i32, HostError>)
        ensures
            r matches Ok(n) ==> self.job().data@.len() <= i32::MAX && n == self.job().data@.len(),
            r is Err ==> self.job().data@.len() > i32::MAX,
            r matches Err(e) ==> e is PayloadTooLarge,
    {
        let data_len = self.env.job_request().data.len();
        if data_len > i32::MAX as usize {
            Err(HostError::PayloadTooLarge)
        } else {
            Ok(data_len as i32)
        }
    }

    /// `calldata`: the job's opaque payload, for the driver to copy into
    /// the guest buffer.
    pub fn calldata(&self) -> (r: Vec<u8>)
        ensures
            r@ == self.job().data@,
    {
        self.env.job_request().data.clone()
    }

    /// `on_chain_id`: the job's on-chain identifier as a 64-bit integer,
    /// or -1 if the job has none.
    pub fn on_chain_id(&self) -> (r: i64)
        ensures
            self.job().on_chain_id matches Some(id) ==> r == id as i64,
            self.job().on_chain_id is None ==> r == -1,
    {
        match self.env.job_request().on_chain_id {
            Some(id) => id as i64,
            None => -1,
        }
    }

    /// `evm_chain_id`: the canonical numeric identifier of the calling
    /// chain.
    pub fn evm_chain_id(&self) -> (r: u64)
        ensures
            (self.job().chain matches Chain::Evm(c) && r == spec_evm_chain_id(c)),
    {
        match &self.env.job_request().chain {
            Chain::Evm(chain) => crate::chain::evm_chain_id(chain.clone()),
        }
    }

    /// `console_log`: decodes the guest's UTF-16LE message bytes and
    /// appends the message to the open commit as a guest log line.
    /// Invalid UTF-16 is rejected with an error, never truncated or
    /// substituted.
    pub fn console_log(&mut self, message_bytes: &Vec<u8>) -> (r: Result<(), HostError>)
        requires
            old(self).wf(),
        ensures
            final(self).wf(),
            final(self).spec_phase() == old(self).spec_phase(),
            final(self).commit_open() == old(self).commit_open(),
            final(self).sim() == old(self).sim(),
            final(self).job() == old(self).job(),
            final(self).callbacks_completed() == old(self).callbacks_completed(),
            !old(self).commit_open() ==> r == Err::<(), HostError>(HostError::NoOpenCommit),
            old(self).commit_open() && !valid_utf16_units(utf16_units_of(message_bytes@))
                ==> r == Err::<(), HostError>(HostError::InvalidString),
            old(self).commit_open() && valid_utf16_units(utf16_units_of(message_bytes@))
                ==> r is Ok,
            r is Err ==> *final(self) == *old(self),
            r is Ok ==> {
                &&& old(self).commit_open()
                &&& valid_utf16_units(utf16_units_of(message_bytes@))
                &&& final(self).open_commit().logs@.len() == old(self).open_commit().logs@.len()
                    + 1
                &&& final(self).open_commit().logs@.drop_last()
                    == old(self).open_commit().logs@
                &&& final(self).open_commit().logs@.last().level is Default
                &&& final(self).open_commit().logs@.last().message@ == utf16_chars(
                    utf16_units_of(message_bytes@),
                )
                &&& final(self).open_commit().shared_buffer
                    == old(self).open_commit().shared_buffer
                &&& final(self).open_commit().fees == old(self).open_commit().fees
                &&& final(self).pending() == old(self).pending()
                &&& final(self).commits() == old(self).commits()
                &&& final(self).spec_phase() == old(self).spec_phase()
                &&& final(self).balance() == old(self).balance()
            },
    {
        if !self.ctx.has_open_commit() {
            return Err(HostError::NoOpenCommit);
        }
        let units = le_bytes_to_utf16_units(message_bytes);
        match utf16_to_string(&units) {
            Some(message) => {
                self.ctx.log_user(message);
                Ok(())
            },
            None => Err(HostError::InvalidString),
        }
    }

    /// `copy_shared_buffer`: the most recent asynchronous result's
    /// payload, for the driver to copy into the guest buffer. Valid only
    /// within a commit (in practice, a resolve or reject callback).
    pub fn copy_shared_buffer(&self) -> (r: Result<Vec<u8>, HostError>)
        ensures
            !self.commit_open() ==> r == Err::<Vec<u8>, HostError>(HostError::NoOpenCommit),
            self.commit_open() ==> (r matches Ok(b) && b@ == self.open_commit().shared_buffer@),
    {
        if !self.ctx.has_open_commit() {
            return Err(HostError::NoOpenCommit);
        }
        let mut copy: Vec<u8> = Vec::new();
        let shared = &self.ctx.commit_context().shared_buffer;
        let len = shared.len();
        let mut i: usize = 0;
        while i < len
            invariant
                len == shared@.len(),
                i <= len,
                copy@.len() == i,
                forall|j: int| 0 <= j < i ==> copy@[j] == shared@[j],
            decreases len - i,
        {
            copy.push(shared[i]);
            i = i + 1;
        }
        proof {
            assert(copy@ =~= self.open_commit().shared_buffer@);
        }
        Ok(copy)
    }

    /// `evm_caller_wallet_address`: the caller wallet's address as
    /// UTF-16LE bytes, for the driver to copy into the guest buffer.
    pub fn evm_caller_wallet_address(&self) -> (r: Vec<u8>)
        ensures
            r@.len() == 2 * self.wallet_address().len(),
            forall|i: int| 0 <= i < self.wallet_address().len()
                ==> r@[2 * i] == self.wallet_address()[i],
            forall|i: int| 0 <= i < self.wallet_address().len()
                ==> #[trigger] r@[2 * i + 1] == 0u8,
    {
        let address = self.env.caller_wallet_address();
        bytes_to_utf16le(&address)
    }

    /// `raw_rand`: queues a task that resolves to a verifiable random
    /// byte string, charging its fixed fee first. A failed charge queues
    /// nothing. In simulation the task carries fixed dummy randomness.
    pub fn ic_raw_rand(&mut self, promise_id: i32) -> (r: Result<(), HostError>)
        requires
            old(self).wf(),
        ensures
            final(self).wf(),
            final(self).spec_phase() == old(self).spec_phase(),
            final(self).commit_open() == old(self).commit_open(),
            final(self).sim() == old(self).sim(),
            final(self).job() == old(self).job(),
            final(self).callbacks_completed() == old(self).callbacks_completed(),
            !old(self).commit_open() ==> r == Err::<(), HostError>(HostError::NoOpenCommit),
            old(self).commit_open() && old(self).balance() < RAW_RAND_FEE
                ==> r == Err::<(), HostError>(HostError::InsufficientFunds),
            old(self).commit_open() && old(self).balance() >= RAW_RAND_FEE ==> r is Ok,
            r is Err ==> final(self).pending() == old(self).pending()
                && final(self).balance() == old(self).balance()
                && final(self).fees_charged() == old(self).fees_charged()
                && final(self).gas_charged() == old(self).gas_charged()
                && final(self).commits() == old(self).commits()
                && (old(self).commit_open() ==> final(self).open_commit() == old(
                    self,
                ).open_commit()),
            r is Ok ==> {
                &&& old(self).commit_open() && old(self).balance() >= RAW_RAND_FEE
                &&& final(self).balance() == old(self).balance() - RAW_RAND_FEE
                &&& final(self).fees_charged() == old(self).fees_charged() + RAW_RAND_FEE
                &&& final(self).gas_charged() == old(self).gas_charged()
                &&& final(self).open_commit().shared_buffer
                    == old(self).open_commit().shared_buffer
                &&& final(self).pending().len() == old(self).pending().len() + 1
                &&& final(self).pending().drop_last() == old(self).pending()
                &&& final(self).pending().last().promise_id == promise_id
                &&& final(self).pending().last().description@ == raw_rand_description()
                &&& (final(self).sim() ==> (final(self).pending().last().op
                    matches AsyncOp::Simulated { payload } && payload@
                    == simulated_random_bytes()))
                &&& (!final(self).sim() ==> final(self).pending().last().op is RawRand)
                &&& final(self).open_commit().fees == old(self).open_commit().fees
                    + RAW_RAND_FEE
                &&& final(self).open_commit().logs@.len() == old(self).open_commit().logs@.len()
                    + 1
                &&& final(self).open_commit().logs@.drop_last()
                    == old(self).open_commit().logs@
                &&& final(self).open_commit().logs@.last().level is System
                &&& final(self).open_commit().logs@.last().message@ == spawn_message(
                    promise_id as int,
                    raw_rand_description(),
                )
                &&& final(self).commits() == old(self).commits()
                &&& final(self).spec_phase() == old(self).spec_phase()
            },
    {
        if !self.ctx.has_open_commit() {
            return Err(HostError::NoOpenCommit);
        }
        match self.env.charge_fee(RAW_RAND_FEE) {
            Err(_) => Err(HostError::InsufficientFunds),
            Ok(()) => {
                self.ctx.add_fee(RAW_RAND_FEE as u128);
                let op = if self.env.is_simulation() {
                    let payload = repeat_byte(0, 32);
                    AsyncOp::Simulated { payload }
                } else {
                    AsyncOp::RawRand
                };
                let description = String::from_str("Retrieve verifiable randomness");
                self.ctx.queue_task(promise_id, description, op);
                Ok(())
            },
        }
    }

    /// `evm_caller_wallet_deposit`: transfers gas tokens to the caller
    /// wallet on the calling chain. The deposited amount plus an
    /// upper-bound transaction estimate is charged as gas before the task
    /// is queued; a failed charge queues nothing. In simulation the task
    /// carries a fixed dummy transaction hash.
    pub fn evm_caller_wallet_deposit(&mut self, amount: u64, promise_id: i32) -> (r: Result<
        (),
        HostError,
    >)
        requires
            old(self).wf(),
        ensures
            final(self).wf(),
            final(self).spec_phase() == old(self).spec_phase(),
            final(self).commit_open() == old(self).commit_open(),
            final(self).sim() == old(self).sim(),
            final(self).job() == old(self).job(),
            final(self).callbacks_completed() == old(self).callbacks_completed(),
            !old(self).commit_open() ==> r == Err::<(), HostError>(HostError::NoOpenCommit),
            old(self).commit_open() && (amount + DEPOSIT_GAS_ESTIMATE > u64::MAX
                || old(self).balance() < amount + DEPOSIT_GAS_ESTIMATE)
                ==> r == Err::<(), HostError>(HostError::InsufficientFunds),
            old(self).commit_open() && amount + DEPOSIT_GAS_ESTIMATE <= u64::MAX
                && old(self).balance() >= amount + DEPOSIT_GAS_ESTIMATE ==> r is Ok,
            r is Err ==> final(self).pending() == old(self).pending()
                && final(self).balance() == old(self).balance()
                && final(self).fees_charged() == old(self).fees_charged()
                && final(self).gas_charged() == old(self).gas_charged()
                && final(self).commits() == old(self).commits()
                && (old(self).commit_open() ==> final(self).open_commit() == old(
                    self,
                ).open_commit()),
            r is Ok ==> {
                &&& old(self).commit_open()
                &&& old(self).balance() >= amount + DEPOSIT_GAS_ESTIMATE
                &&& final(self).balance() == old(self).balance() - amount
                    - DEPOSIT_GAS_ESTIMATE
                &&& final(self).gas_charged() == old(self).gas_charged() + amount
                    + DEPOSIT_GAS_ESTIMATE
                &&& final(self).fees_charged() == old(self).fees_charged()
                &&& final(self).open_commit().fees == old(self).open_commit().fees
                &&& final(self).open_commit().shared_buffer
                    == old(self).open_commit().shared_buffer
                &&& final(self).pending().len() == old(self).pending().len() + 1
                &&& final(self).pending().drop_last() == old(self).pending()
                &&& final(self).pending().last().promise_id == promise_id
                &&& final(self).pending().last().description@ == deposit_description(
                    amount as int,
                )
                &&& (final(self).sim() ==> (final(self).pending().last().op
                    matches AsyncOp::Simulated { payload } && payload@
                    == simulated_transaction_hash()))
                &&& (!final(self).sim() ==> (final(self).pending().last().op
                    matches AsyncOp::Deposit { chain, amount: a }
                    && old(self).job().chain == Chain::Evm(chain) && a == amount))
                &&& final(self).open_commit().logs@.len() == old(self).open_commit().logs@.len()
                    + 1
                &&& final(self).open_commit().logs@.drop_last()
                    == old(self).open_commit().logs@
                &&& final(self).open_commit().logs@.last().level is System
                &&& final(self).open_commit().logs@.last().message@ == spawn_message(
                    promise_id as int,
                    deposit_description(amount as int),
                )
                &&& final(self).commits() == old(self).commits()
                &&& final(self).spec_phase() == old(self).spec_phase()
            },
    {
        if !self.ctx.has_open_commit() {
            return Err(HostError::NoOpenCommit);
        }
        let chain = match &self.env.job_request().chain {
            Chain::Evm(chain) => chain.clone(),
        };
        let total = match amount.checked_add(DEPOSIT_GAS_ESTIMATE) {
            Some(total) => total,
            None => {
                return Err(HostError::InsufficientFunds);
            },
        };
        match self.env.charge_gas(total) {
            Err(_) => Err(HostError::InsufficientFunds),
            Ok(()) => {
                let op = if self.env.is_simulation() {
                    let payload = repeat_byte(0, 32);
                    AsyncOp::Simulated { payload }
                } else {
                    AsyncOp::Deposit { chain, amount }
                };
                let mut description = String::from_str("CallerWallet.deposit(");
                description.append(u64_to_string(amount).as_str());
                description.append(")");
                self.ctx.queue_task(promise_id, description, op);
                Ok(())
            },
        }
    }

    /// `evm_caller_wallet_sign_message`: signs a message with the caller
    /// wallet's key. The signing fee is charged before the task is
    /// queued; a failed charge queues nothing. In simulation the task
    /// carries a fixed dummy signature.
    pub fn evm_caller_wallet_sign_message(&mut self, message: Vec<u8>, promise_id: i32) -> (r:
        Result<(), HostError>)
        requires
            old(self).wf(),
        ensures
            final(self).wf(),
            final(self).spec_phase() == old(self).spec_phase(),
            final(self).commit_open() == old(self).commit_open(),
            final(self).sim() == old(self).sim(),
            final(self).job() == old(self).job(),
            final(self).callbacks_completed() == old(self).callbacks_completed(),
            !old(self).commit_open() ==> r == Err::<(), HostError>(HostError::NoOpenCommit),
            old(self).commit_open() && old(self).balance() < SIGN_MESSAGE_FEE
                ==> r == Err::<(), HostError>(HostError::InsufficientFunds),
            old(self).commit_open() && old(self).balance() >= SIGN_MESSAGE_FEE ==> r is Ok,
            r is Err ==> final(self).pending() == old(self).pending()
                && final(self).balance() == old(self).balance()
                && final(self).fees_charged() == old(self).fees_charged()
                && final(self).gas_charged() == old(self).gas_charged()
                && final(self).commits() == old(self).commits()
                && (old(self).commit_open() ==> final(self).open_commit() == old(
                    self,
                ).open_commit()),
            r is Ok ==> {
                &&& old(self).commit_open() && old(self).balance() >= SIGN_MESSAGE_FEE
                &&& final(self).balance() == old(self).balance() - SIGN_MESSAGE_FEE
                &&& final(self).fees_charged() == old(self).fees_charged() + SIGN_MESSAGE_FEE
                &&& final(self).gas_charged() == old(self).gas_charged()
                &&& final(self).open_commit().shared_buffer
                    == old(self).open_commit().shared_buffer
                &&& final(self).pending().len() == old(self).pending().len() + 1
                &&& final(self).pending().drop_last() == old(self).pending()
                &&& final(self).pending().last().promise_id == promise_id
                &&& final(self).pending().last().description@ == sign_message_description(
                    message@,
                )
                &&& (final(self).sim() ==> (final(self).pending().last().op
                    matches AsyncOp::Simulated { payload } && payload@
                    == simulated_signature()))
                &&& (!final(self).sim() ==> (final(self).pending().last().op
                    matches AsyncOp::SignMessage { message: m } && m@ == message@))
                &&& final(self).open_commit().fees == old(self).open_commit().fees
                    + SIGN_MESSAGE_FEE
                &&& final(self).open_commit().logs@.len() == old(self).open_commit().logs@.len()
                    + 1
                &&& final(self).open_commit().logs@.drop_last()
                    == old(self).open_commit().logs@
                &&& final(self).open_commit().logs@.last().level is System
                &&& final(self).open_commit().logs@.last().message@ == spawn_message(
                    promise_id as int,
                    sign_message_description(message@),
                )
                &&& final(self).commits() == old(self).commits()
                &&& final(self).spec_phase() == old(self).spec_phase()
            },
    {
        if !self.ctx.has_open_commit() {
            return Err(HostError::NoOpenCommit);
        }
        match self.env.charge_fee(SIGN_MESSAGE_FEE) {
            Err(_) => Err(HostError::InsufficientFunds),
            Ok(()) => {
                self.ctx.add_fee(SIGN_MESSAGE_FEE as u128);
                let mut description = String::from_str("CallerWallet.signMessage(0x");
                let hex = hex_encode(&message);
                description.append(clip_string(hex.as_str(), 100).as_str());
                description.append(")");
                let op = if self.env.is_simulation() {
                    let payload = repeat_byte(42, 64);
                    AsyncOp::Simulated { payload }
                } else {
                    AsyncOp::SignMessage { message }
                };
                self.ctx.queue_task(promise_id, description, op);
                Ok(())
            },
        }
    }
}

// ---------------------------------------------------------------------------
// Laws
// ---------------------------------------------------------------------------

/// Once the `main()` batch has been committed, the number of commits
/// persisted equals one (for `main()`) plus the number of callback batches
/// finalized; before that, none has been persisted. Failing at
/// instantiation persists nothing.
pub proof fn lemma_commit_count<E: RuntimeEnvironment>(e: &Execution<E>)
    requires
        e.wf(),
    ensures
        (match e.spec_phase() {
            Phase::Draining | Phase::Callback | Phase::Completed => true,
            Phase::Failed(reason) => !(reason is InvalidModule),
            _ => false,
        }) ==> e.commits().len() == 1 + e.callbacks_completed(),
        (match e.spec_phase() {
            Phase::Instantiating | Phase::RunningMain => true,
            Phase::Failed(reason) => reason is InvalidModule,
            _ => false,
        }) ==> e.commits().len() == 0,
{
}

/// Simulation mode never queues a real operation: every pending task of a
/// simulated execution carries a fixed dummy payload, so draining the
/// queue performs no signer or transfer call.
pub proof fn lemma_simulation_tasks_are_dummies<E: RuntimeEnvironment>(e: &Execution<E>)
    requires
        e.wf(),
        e.sim(),
    ensures
        forall|i: int| 0 <= i < e.pending().len() ==> (#[trigger] e.pending()[i]).op is Simulated,
{
}

} // verus!
