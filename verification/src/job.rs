//! Job requests, job state, and the commit audit trail.

use vstd::prelude::*;

use crate::chain::{Address, Chain};

verus! {

/// Immutable description of why an execution was triggered.
///
/// Jobs are created from on-chain events; block provenance is absent only
/// for synthetic or simulated jobs. The on-chain job id is unique on-chain
/// but may repeat across chain reorganisations, so it is not a strict
/// primary key at this layer.
#[derive(Debug, Clone)]
pub struct JobRequest {
    /// Chain that this job request originates from.
    pub chain: Chain,
    /// Hash of the block the triggering log was found in (32 bytes).
    pub block_hash: Option<Vec<u8>>,
    /// Number of the block the triggering log was found in.
    pub block_number: Option<u64>,
    /// Hash of the transaction that emitted the triggering log (32 bytes).
    pub transaction_hash: Option<Vec<u8>>,
    /// On-chain job id, if the job came from a chain event.
    pub on_chain_id: Option<u64>,
    /// Caller address.
    pub caller: Address,
    /// Hash (32 bytes) of the wasm of the function that should be executed.
    pub function_hash: Vec<u8>,
    /// Arbitrary payload passed to the function.
    pub data: Vec<u8>,
    /// Gas payment forwarded with the call, in the native currency of the
    /// calling chain.
    pub gas_payment: u128,
}

impl JobRequest {
    /// Hashes have their fixed widths and the caller address is well formed.
    pub open spec fn wf(&self) -> bool {
        &&& self.caller.wf()
        &&& self.function_hash@.len() == 32
        &&& (self.block_hash matches Some(h) ==> h@.len() == 32)
        &&& (self.transaction_hash matches Some(h) ==> h@.len() == 32)
    }
}

/// A job together with its execution metadata.
#[derive(Debug, Clone)]
pub struct Job {
    /// The request that created this job.
    pub request: JobRequest,
    /// Current status of the job.
    pub status: JobStatus,
    /// Timestamp when the job was created (Unix nanoseconds).
    pub created_at: u64,
    /// Execution is split into a series of commits; the ids of all commits
    /// stored for this job so far.
    pub commit_ids: Vec<u64>,
    /// Fees charged for the execution of this job, excluding gas.
    pub fees: u64,
    /// Gas used for transactions on the calling chain.
    pub gas: u64,
}

impl Job {
    /// Everything charged so far stays within the job's gas payment and
    /// within the machine word that totals are reported in.
    pub open spec fn wf(&self) -> bool {
        &&& self.fees + self.gas <= self.request.gas_payment
        &&& self.fees + self.gas <= u64::MAX
    }

    /// A freshly created job: pending, nothing charged, no commits.
    pub fn new(request: JobRequest, now: u64) -> (job: Job)
        ensures
            job.request == request,
            job.status is Pending,
            job.created_at == now,
            job.commit_ids@.len() == 0,
            job.fees == 0,
            job.gas == 0,
            job.wf(),
    {
        Job {
            request,
            status: JobStatus::Pending,
            created_at: now,
            commit_ids: Vec::new(),
            fees: 0,
            gas: 0,
        }
    }

    /// Total amount charged to the job so far (fees plus gas).
    pub fn total_cost(&self) -> (r: u64)
        requires
            self.wf(),
        ensures
            r == self.fees + self.gas,
    {
        self.fees + self.gas
    }

    /// The gas payment that is not yet used up by fees or gas charges.
    pub fn remaining_gas(&self) -> (r: u128)
        requires
            self.wf(),
        ensures
            r == self.request.gas_payment - (self.fees + self.gas),
    {
        self.request.gas_payment - (self.fees as u128 + self.gas as u128)
    }
}

/// Lifecycle status of a job.
#[derive(Debug, Clone)]
pub enum JobStatus {
    /// Job was added to the queue, but not yet processed.
    Pending,
    /// Job is currently being executed.
    Executing,
    /// Job is waiting for a timer to wake it up again.
    Waiting,
    /// Job completed without errors.
    Completed,
    /// Job execution failed, with a human-readable reason.
    Failed(FailureReason),
}

/// The terminal ways an execution can fail. None of these is retried by
/// the runtime itself.
#[derive(Debug, Clone, Copy, PartialEq, Eq, Structural)]
pub enum FailureReason {
    /// No binary is stored for the job's function hash.
    FunctionNotFound,
    /// The wasm binary is malformed, fails to initialize, or misses a
    /// required export. Fatal at load time.
    InvalidModule,
    /// The instruction budget was exhausted during a batch.
    OutOfGas,
    /// The guest trapped, including through its own abort convention.
    UncaughtException,
}

/// Append-only record of one atomic batch of guest execution.
#[derive(Debug, Clone)]
pub struct Commit {
    /// Time the batch was finalized (Unix nanoseconds).
    pub timestamp: u64,
    /// Human-readable title of the batch.
    pub title: String,
    /// Log lines emitted during the batch, in order.
    pub logs: Vec<LogEntry>,
    /// Guest instructions consumed by the batch.
    pub instructions: u64,
    /// Fees charged during the batch.
    pub fees: u128,
}

/// One log line, with its severity class.
#[derive(Debug, Clone)]
pub struct LogEntry {
    pub level: LogType,
    pub message: String,
}

/// Log severity classes.
#[derive(Debug, Clone, Copy, PartialEq, Eq, Structural)]
pub enum LogType {
    /// Emitted by the host runtime itself.
    System,
    /// Emitted by the guest through `console_log`.
    Default,
}

} // verus!
