//! A metered, sandboxed execution host for small guest programs compiled to
//! WebAssembly, triggered by blockchain events and billed per instruction.
//!
//! The crate models one job execution as a sequence of checkpointed, atomic
//! batches ("commits"): the initial `main()` call of the guest, then one
//! commit per completed asynchronous task, delivered back to the guest
//! through resolve/reject callbacks. Host functions, fee charging, the
//! guest memory buffer protocol and the orchestrating state machine are
//! verified; the WebAssembly interpreter and the asynchronous services are
//! driven by an unverified shell that feeds events into the state machine.

pub mod buffer;
pub mod chain;
pub mod context;
pub mod env;
pub mod job;
pub mod repository;
pub mod runtime;
pub mod signer;
pub mod storage;
pub mod text;

pub use chain::{Address, Chain, EvmChain};
pub use context::{AsyncOp, AsyncResult, AsyncTask, CommitContext, ExecutionContext};
pub use env::{InsufficientFunds, LiveEnv, RuntimeEnvironment, SimulationEnv, SimulationResult};
pub use job::{Commit, FailureReason, Job, JobRequest, JobStatus, LogEntry, LogType};
pub use repository::{DeployResult, FunctionDefinition, FunctionRepository, FunctionState};
pub use runtime::{
    CallOutcome, CallbackInvocation, CallbackKind, Execution, ExecutionResult, HostError, Phase,
};
pub use signer::{IcpSignerId, SimulationSigner, ThresholdSigner};
pub use storage::{JobKey, JobStore};
