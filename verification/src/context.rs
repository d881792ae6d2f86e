//! Per-job mutable state shared between host functions and the
//! orchestrator: the currently open commit, and the queue of asynchronous
//! tasks requested by the guest during the current commit.

use vstd::prelude::*;
use vstd::string::StringExecFns;

use crate::chain::EvmChain;
use crate::job::{Commit, LogEntry, LogType};
use crate::text::dec_int;
use crate::text::i64_to_string;

verus! {

/// The asynchronous operations a guest can request. Simulated runs queue
/// [`AsyncOp::Simulated`] with the dummy payload already decided, so that
/// draining them never performs a real side effect.
#[derive(Debug, Clone)]
pub enum AsyncOp {
    /// Retrieve a verifiable random byte string.
    RawRand,
    /// Transfer gas tokens to the caller wallet on the calling chain.
    Deposit { chain: EvmChain, amount: u64 },
    /// Sign a message with the caller wallet's key.
    SignMessage { message: Vec<u8> },
    /// A dummy operation whose outcome is already fixed.
    Simulated { payload: Vec<u8> },
}

/// A deferred operation requested by the guest: its guest-assigned id, a
/// human-readable description for the logs, and the operation to perform.
#[derive(Debug, Clone)]
pub struct AsyncTask {
    pub promise_id: i32,
    pub description: String,
    pub op: AsyncOp,
}

/// The outcome of one completed asynchronous task: a byte payload on
/// success, an error message on failure. Consumed exactly once, producing
/// one resolve or reject callback into the guest.
#[derive(Debug)]
pub struct AsyncResult {
    pub promise_id: i32,
    pub description: String,
    pub result: Result<Vec<u8>, String>,
}

/// Scoped state for exactly one batch of guest execution: its log lines,
/// the shared buffer holding the latest asynchronous result, and the fee
/// and instruction counters of the batch.
#[derive(Debug)]
pub struct CommitContext {
    /// Logs written during the current commit.
    pub logs: Vec<LogEntry>,
    /// Buffer that the guest can read back using `copy_shared_buffer`.
    pub shared_buffer: Vec<u8>,
    /// Fees charged during the current commit.
    pub fees: u128,
    /// Guest instructions consumed during the current commit.
    pub instructions: u64,
}

impl CommitContext {
    /// An empty batch: no logs, empty shared buffer, nothing counted.
    pub fn new() -> (r: CommitContext)
        ensures
            r.logs@ == Seq::<LogEntry>::empty(),
            r.shared_buffer@ == Seq::<u8>::empty(),
            r.fees == 0,
            r.instructions == 0,
    {
        CommitContext { logs: Vec::new(), shared_buffer: Vec::new(), fees: 0, instructions: 0 }
    }
}

/// The system log line recording that a task was queued.
pub open spec fn spawn_message(promise_id: int, description: Seq<char>) -> Seq<char> {
    ("Spawned Promise #")@ + dec_int(promise_id) + (": ")@ + description
}

/// The mutable state reachable from every host function call during one
/// job: the currently open commit, if any, and the tasks queued during it.
///
/// Exactly one `ExecutionContext` exists per job; the orchestrator owns it
/// and threads it through host functions explicitly.
#[derive(Debug)]
pub struct ExecutionContext {
    commit: Option<CommitContext>,
    pending: Vec<AsyncTask>,
}

impl ExecutionContext {
    /// Whether a commit is currently open.
    pub closed spec fn commit_open(&self) -> bool {
        self.commit is Some
    }

    /// The currently open commit.
    pub closed spec fn commit_ctx(&self) -> CommitContext
        recommends
            self.commit_open(),
    {
        self.commit->0
    }

    /// The queue of not-yet-started tasks.
    pub closed spec fn pending_tasks(&self) -> Seq<AsyncTask> {
        self.pending@
    }

    /// A fresh context: no commit open, no tasks pending.
    pub fn new() -> (r: ExecutionContext)
        ensures
            !r.commit_open(),
            r.pending_tasks() == Seq::<AsyncTask>::empty(),
    {
        ExecutionContext { commit: None, pending: Vec::new() }
    }

    /// Whether a commit is currently open. Host functions that need one
    /// must fail loudly when this is false.
    pub fn has_open_commit(&self) -> (r: bool)
        ensures
            r == self.commit_open(),
    {
        self.commit.is_some()
    }

    /// A read-only view of the open commit.
    pub fn commit_context(&self) -> (r: &CommitContext)
        requires
            self.commit_open(),
        ensures
            *r == self.commit_ctx(),
    {
        match &self.commit {
            Some(c) => c,
            None => vstd::pervasive::unreached(),
        }
    }

    /// Opens a new, empty commit. Opening a second commit while one is
    /// open is a programming error and excluded by contract.
    pub fn commit_begin(&mut self)
        requires
            !old(self).commit_open(),
        ensures
            final(self).commit_open(),
            final(self).commit_ctx().logs@ == Seq::<LogEntry>::empty(),
            final(self).commit_ctx().shared_buffer@ == Seq::<u8>::empty(),
            final(self).commit_ctx().fees == 0,
            final(self).commit_ctx().instructions == 0,
            final(self).pending_tasks() == old(self).pending_tasks(),
    {
        self.commit = Some(CommitContext::new());
    }

    /// Closes the open commit into an immutable [`Commit`] carrying
    /// exactly the logs, fees and instructions accumulated since it was
    /// opened.
    pub fn commit_end(&mut self, title: String, timestamp: u64) -> (c: Commit)
        requires
            old(self).commit_open(),
        ensures
            !final(self).commit_open(),
            final(self).pending_tasks() == old(self).pending_tasks(),
            c.title == title,
            c.timestamp == timestamp,
            c.logs@ == old(self).commit_ctx().logs@,
            c.fees == old(self).commit_ctx().fees,
            c.instructions == old(self).commit_ctx().instructions,
    {
        let ctx = self.take_commit();
        Commit {
            timestamp,
            title,
            logs: ctx.logs,
            instructions: ctx.instructions,
            fees: ctx.fees,
        }
    }

    fn take_commit(&mut self) -> (r: CommitContext)
        requires
            old(self).commit_open(),
        ensures
            !final(self).commit_open(),
            final(self).pending_tasks() == old(self).pending_tasks(),
            r == old(self).commit_ctx(),
    {
        let mut taken: Option<CommitContext> = None;
        core::mem::swap(&mut self.commit, &mut taken);
        match taken {
            Some(c) => c,
            None => vstd::pervasive::unreached(),
        }
    }

    /// Appends a system log line to the open commit.
    pub fn log(&mut self, message: String)
        requires
            old(self).commit_open(),
        ensures
            final(self).commit_open(),
            final(self).commit_ctx().logs@ == old(self).commit_ctx().logs@.push(
                LogEntry { level: LogType::System, message },
            ),
            final(self).commit_ctx().shared_buffer == old(self).commit_ctx().shared_buffer,
            final(self).commit_ctx().fees == old(self).commit_ctx().fees,
            final(self).commit_ctx().instructions == old(self).commit_ctx().instructions,
            final(self).pending_tasks() == old(self).pending_tasks(),
    {
        self.push_log(LogEntry { level: LogType::System, message });
    }

    /// Appends a guest log line to the open commit.
    pub fn log_user(&mut self, message: String)
        requires
            old(self).commit_open(),
        ensures
            final(self).commit_open(),
            final(self).commit_ctx().logs@ == old(self).commit_ctx().logs@.push(
                LogEntry { level: LogType::Default, message },
            ),
            final(self).commit_ctx().shared_buffer == old(self).commit_ctx().shared_buffer,
            final(self).commit_ctx().fees == old(self).commit_ctx().fees,
            final(self).commit_ctx().instructions == old(self).commit_ctx().instructions,
            final(self).pending_tasks() == old(self).pending_tasks(),
    {
        self.push_log(LogEntry { level: LogType::Default, message });
    }

    fn push_log(&mut self, entry: LogEntry)
        requires
            old(self).commit_open(),
        ensures
            final(self).commit_open(),
            final(self).commit_ctx().logs@ == old(self).commit_ctx().logs@.push(entry),
            final(self).commit_ctx().shared_buffer == old(self).commit_ctx().shared_buffer,
            final(self).commit_ctx().fees == old(self).commit_ctx().fees,
            final(self).commit_ctx().instructions == old(self).commit_ctx().instructions,
            final(self).pending_tasks() == old(self).pending_tasks(),
    {
        match &mut self.commit {
            Some(c) => c.logs.push(entry),
            None => {},
        }
    }

    /// Stores the payload of a completed asynchronous task so that the
    /// guest can read it back during the coming callback.
    pub fn set_shared_buffer(&mut self, payload: Vec<u8>)
        requires
            old(self).commit_open(),
        ensures
            final(self).commit_open(),
            final(self).commit_ctx().shared_buffer@ == payload@,
            final(self).commit_ctx().logs == old(self).commit_ctx().logs,
            final(self).commit_ctx().fees == old(self).commit_ctx().fees,
            final(self).commit_ctx().instructions == old(self).commit_ctx().instructions,
            final(self).pending_tasks() == old(self).pending_tasks(),
    {
        match &mut self.commit {
            Some(c) => c.shared_buffer = payload,
            None => {},
        }
    }

    /// Records a fee charge in the open commit's counters.
    pub fn add_fee(&mut self, amount: u128)
        requires
            old(self).commit_open(),
            old(self).commit_ctx().fees + amount <= u128::MAX,
        ensures
            final(self).commit_open(),
            final(self).commit_ctx().fees == old(self).commit_ctx().fees + amount,
            final(self).commit_ctx().logs == old(self).commit_ctx().logs,
            final(self).commit_ctx().shared_buffer == old(self).commit_ctx().shared_buffer,
            final(self).commit_ctx().instructions == old(self).commit_ctx().instructions,
            final(self).pending_tasks() == old(self).pending_tasks(),
    {
        match &mut self.commit {
            Some(c) => c.fees = c.fees + amount,
            None => {},
        }
    }

    /// Records the guest instructions consumed by the batch.
    pub fn add_instructions(&mut self, amount: u64)
        requires
            old(self).commit_open(),
            old(self).commit_ctx().instructions + amount <= u64::MAX,
        ensures
            final(self).commit_open(),
            final(self).commit_ctx().instructions == old(self).commit_ctx().instructions + amount,
            final(self).commit_ctx().logs == old(self).commit_ctx().logs,
            final(self).commit_ctx().shared_buffer == old(self).commit_ctx().shared_buffer,
            final(self).commit_ctx().fees == old(self).commit_ctx().fees,
            final(self).pending_tasks() == old(self).pending_tasks(),
    {
        match &mut self.commit {
            Some(c) => c.instructions = c.instructions + amount,
            None => {},
        }
    }

    /// Queues a deferred operation and logs that it was spawned. Host
    /// functions never await: the orchestrator drains the queue between
    /// commits.
    pub fn queue_task(&mut self, promise_id: i32, description: String, op: AsyncOp)
        requires
            old(self).commit_open(),
        ensures
            final(self).pending_tasks() == old(self).pending_tasks().push(
                AsyncTask { promise_id, description, op },
            ),
            final(self).commit_open(),
            final(self).commit_ctx().logs@.len() == old(self).commit_ctx().logs@.len() + 1,
            final(self).commit_ctx().logs@.drop_last() == old(self).commit_ctx().logs@,
            final(self).commit_ctx().logs@.last().level is System,
            final(self).commit_ctx().logs@.last().message@ == spawn_message(
                promise_id as int,
                description@,
            ),
            final(self).commit_ctx().shared_buffer == old(self).commit_ctx().shared_buffer,
            final(self).commit_ctx().fees == old(self).commit_ctx().fees,
            final(self).commit_ctx().instructions == old(self).commit_ctx().instructions,
    {
        let message = build_spawn_message(promise_id, &description);
        self.log(message);
        self.pending.push(AsyncTask { promise_id, description, op });
    }

    /// How many tasks are queued.
    pub fn pending_count(&self) -> (r: usize)
        ensures
            r == self.pending_tasks().len(),
    {
        self.pending.len()
    }

    /// Drops the open commit without producing a [`Commit`]: used when a
    /// job dies before its first batch can be attributed.
    pub fn discard_commit(&mut self)
        requires
            old(self).commit_open(),
        ensures
            !final(self).commit_open(),
            final(self).pending_tasks() == old(self).pending_tasks(),
    {
        self.commit = None;
    }

    /// Removes and returns all queued tasks, for the orchestrator to move
    /// into its completion pool.
    pub fn take_pending(&mut self) -> (r: Vec<AsyncTask>)
        ensures
            r@ == old(self).pending_tasks(),
            final(self).pending_tasks() == Seq::<AsyncTask>::empty(),
            final(self).commit_open() == old(self).commit_open(),
            old(self).commit_open() ==> final(self).commit_ctx() == old(self).commit_ctx(),
    {
        let mut taken: Vec<AsyncTask> = Vec::new();
        core::mem::swap(&mut self.pending, &mut taken);
        taken
    }
}

/// Builds the system log line recording that a task was queued.
pub fn build_spawn_message(promise_id: i32, description: &String) -> (r: String)
    ensures
        r@ == spawn_message(promise_id as int, description@),
{
    let mut s = String::from_str("Spawned Promise #");
    s.append(i64_to_string(promise_id as i64).as_str());
    s.append(": ");
    s.append(description.as_str());
    s
}

} // verus!
