//! The runtime environment capability: the seam between the execution
//! core and the outside world.
//!
//! The orchestrator calls this interface but does not implement it; a live
//! implementation persists commits and charges real balances, while
//! [`SimulationEnv`] keeps everything in memory and substitutes
//! deterministic dummy identities.

use vstd::prelude::*;
use vstd::string::StringExecFns;

use crate::job::{Commit, JobRequest};

verus! {

/// A synchronous charge was refused because the job's remaining gas
/// payment cannot cover it.
#[derive(Debug, Clone, Copy, PartialEq, Eq, Structural)]
pub struct InsufficientFunds;

/// Capabilities the execution core needs from its surroundings: the job
/// being executed, fee and gas charging against the job's payment, commit
/// persistence, and whether this run is a simulation.
///
/// Charges are strictly synchronous: a charge either succeeds and deducts
/// immediately, or fails with [`InsufficientFunds`] and changes nothing.
pub trait RuntimeEnvironment: Sized {
    /// The part of the job's gas payment not yet consumed by charges.
    spec fn balance(&self) -> int;

    /// Total execution fees charged so far.
    spec fn fees_charged(&self) -> int;

    /// Total gas charged so far for transactions on the calling chain.
    spec fn gas_charged(&self) -> int;

    /// The commits persisted so far, in order.
    spec fn commits(&self) -> Seq<Commit>;

    /// Whether this run is a simulation.
    spec fn sim(&self) -> bool;

    /// The job request driving this execution.
    spec fn job(&self) -> JobRequest;

    /// The caller's wallet address, as text bytes.
    spec fn wallet_address(&self) -> Seq<u8>;

    /// When true, signer and transfer host functions must substitute
    /// deterministic dummy results instead of performing side effects.
    fn is_simulation(&self) -> (r: bool)
        ensures
            r == self.sim(),
    ;

    /// The job request that triggered the current execution.
    fn job_request(&self) -> (r: &JobRequest)
        ensures
            *r == self.job(),
    ;

    /// The wallet address of the job's caller, as text bytes.
    fn caller_wallet_address(&self) -> (r: Vec<u8>)
        ensures
            r@ == self.wallet_address(),
    ;

    /// Charges an execution fee against the job's remaining payment.
    /// Succeeds exactly when the payment covers the amount.
    fn charge_fee(&mut self, amount: u64) -> (r: Result<(), InsufficientFunds>)
        ensures
            r is Ok <==> old(self).balance() >= amount,
            r is Ok ==> final(self).balance() == old(self).balance() - amount
                && final(self).fees_charged() == old(self).fees_charged() + amount,
            r is Err ==> final(self).balance() == old(self).balance()
                && final(self).fees_charged() == old(self).fees_charged(),
            final(self).gas_charged() == old(self).gas_charged(),
            final(self).commits() == old(self).commits(),
            final(self).sim() == old(self).sim(),
            final(self).job() == old(self).job(),
            final(self).wallet_address() == old(self).wallet_address(),
    ;

    /// Charges gas for a transaction on the calling chain against the
    /// job's remaining payment. Succeeds exactly when the payment covers
    /// the amount.
    fn charge_gas(&mut self, amount: u64) -> (r: Result<(), InsufficientFunds>)
        ensures
            r is Ok <==> old(self).balance() >= amount,
            r is Ok ==> final(self).balance() == old(self).balance() - amount
                && final(self).gas_charged() == old(self).gas_charged() + amount,
            r is Err ==> final(self).balance() == old(self).balance()
                && final(self).gas_charged() == old(self).gas_charged(),
            final(self).fees_charged() == old(self).fees_charged(),
            final(self).commits() == old(self).commits(),
            final(self).sim() == old(self).sim(),
            final(self).job() == old(self).job(),
            final(self).wallet_address() == old(self).wallet_address(),
    ;

    /// Persists a finished commit. Called exactly once per commit, never
    /// batched, never skipped.
    fn commit(&mut self, c: Commit)
        ensures
            final(self).commits() == old(self).commits().push(c),
            final(self).balance() == old(self).balance(),
            final(self).fees_charged() == old(self).fees_charged(),
            final(self).gas_charged() == old(self).gas_charged(),
            final(self).sim() == old(self).sim(),
            final(self).job() == old(self).job(),
            final(self).wallet_address() == old(self).wallet_address(),
    ;
}

/// The environment of a live (non-simulated) execution: commits are
/// collected for the caller to persist, charges are tracked against the
/// request's gas payment, and the caller wallet address comes from the
/// signing collaborator.
pub struct LiveEnv {
    request: JobRequest,
    wallet: Vec<u8>,
    commits: Vec<Commit>,
    fees: u128,
    gas: u128,
}

impl LiveEnv {
    /// A fresh live environment: no commits, nothing charged.
    pub fn new(request: JobRequest, caller_wallet_address: Vec<u8>) -> (r: LiveEnv)
        ensures
            !r.sim(),
            r.job() == request,
            r.commits() == Seq::<Commit>::empty(),
            r.balance() == request.gas_payment,
            r.fees_charged() == 0,
            r.gas_charged() == 0,
            r.wallet_address() == caller_wallet_address@,
    {
        LiveEnv { request, wallet: caller_wallet_address, commits: Vec::new(), fees: 0, gas: 0 }
    }

    /// The commits collected so far, for persisting once the run is over.
    pub fn commit_log(&self) -> (r: &Vec<Commit>)
        ensures
            r@ == self.commits(),
    {
        &self.commits
    }
}

impl RuntimeEnvironment for LiveEnv {
    closed spec fn balance(&self) -> int {
        self.request.gas_payment - self.fees - self.gas
    }

    closed spec fn fees_charged(&self) -> int {
        self.fees as int
    }

    closed spec fn gas_charged(&self) -> int {
        self.gas as int
    }

    closed spec fn commits(&self) -> Seq<Commit> {
        self.commits@
    }

    closed spec fn sim(&self) -> bool {
        false
    }

    closed spec fn job(&self) -> JobRequest {
        self.request
    }

    closed spec fn wallet_address(&self) -> Seq<u8> {
        self.wallet@
    }

    fn is_simulation(&self) -> (r: bool) {
        false
    }

    fn job_request(&self) -> (r: &JobRequest) {
        &self.request
    }

    fn caller_wallet_address(&self) -> (r: Vec<u8>) {
        let mut copy: Vec<u8> = Vec::new();
        let len = self.wallet.len();
        let mut i: usize = 0;
        while i < len
            invariant
                len == self.wallet@.len(),
                i <= len,
                copy@.len() == i,
                forall|j: int| 0 <= j < i ==> copy@[j] == self.wallet@[j],
            decreases len - i,
        {
            copy.push(self.wallet[i]);
            i = i + 1;
        }
        proof {
            assert(copy@ =~= self.wallet@);
        }
        copy
    }

    fn charge_fee(&mut self, amount: u64) -> (r: Result<(), InsufficientFunds>) {
        match self.fees.checked_add(self.gas) {
            None => Err(InsufficientFunds),
            Some(used) => {
                if used <= self.request.gas_payment
                    && amount as u128 <= self.request.gas_payment - used {
                    self.fees = self.fees + amount as u128;
                    Ok(())
                } else {
                    Err(InsufficientFunds)
                }
            },
        }
    }

    fn charge_gas(&mut self, amount: u64) -> (r: Result<(), InsufficientFunds>) {
        match self.fees.checked_add(self.gas) {
            None => Err(InsufficientFunds),
            Some(used) => {
                if used <= self.request.gas_payment
                    && amount as u128 <= self.request.gas_payment - used {
                    self.gas = self.gas + amount as u128;
                    Ok(())
                } else {
                    Err(InsufficientFunds)
                }
            },
        }
    }

    fn commit(&mut self, c: Commit) {
        self.commits.push(c);
    }
}

/// What a simulated run produced: the commits of the job, and the error
/// that ended it early, if any.
#[derive(Debug)]
pub struct SimulationResult {
    /// The commits the simulated job produced, in order.
    pub commits: Vec<Commit>,
    /// `None` if the simulation completed, otherwise what failed.
    pub error: Option<String>,
}

/// The caller wallet address used in simulations: the all-zero address,
/// stable across runs.
pub open spec fn simulated_wallet_address() -> Seq<u8> {
    Seq::new(42, |i: int| if i == 1 { 120u8 } else { 48u8 })
}

/// An in-memory environment for simulated runs: commits are collected in a
/// vector, charges are tracked against the request's gas payment, and the
/// caller identity is a deterministic dummy.
pub struct SimulationEnv {
    request: JobRequest,
    commits: Vec<Commit>,
    fees: u128,
    gas: u128,
}

impl SimulationEnv {
    /// A fresh simulation environment for the given request: no commits,
    /// nothing charged.
    pub fn new(request: JobRequest) -> (r: SimulationEnv)
        ensures
            r.sim(),
            r.job() == request,
            r.commits() == Seq::<Commit>::empty(),
            r.balance() == request.gas_payment,
            r.fees_charged() == 0,
            r.gas_charged() == 0,
    {
        SimulationEnv { request, commits: Vec::new(), fees: 0, gas: 0 }
    }

    /// The commits collected so far, for reporting once the run is over.
    pub fn commit_log(&self) -> (r: &Vec<Commit>)
        ensures
            r@ == self.commits(),
    {
        &self.commits
    }
}

impl RuntimeEnvironment for SimulationEnv {
    closed spec fn balance(&self) -> int {
        self.request.gas_payment - self.fees - self.gas
    }

    closed spec fn fees_charged(&self) -> int {
        self.fees as int
    }

    closed spec fn gas_charged(&self) -> int {
        self.gas as int
    }

    closed spec fn commits(&self) -> Seq<Commit> {
        self.commits@
    }

    closed spec fn sim(&self) -> bool {
        true
    }

    closed spec fn job(&self) -> JobRequest {
        self.request
    }

    closed spec fn wallet_address(&self) -> Seq<u8> {
        simulated_wallet_address()
    }

    fn is_simulation(&self) -> (r: bool) {
        true
    }

    fn job_request(&self) -> (r: &JobRequest) {
        &self.request
    }

    fn caller_wallet_address(&self) -> (r: Vec<u8>) {
        let mut r: Vec<u8> = Vec::new();
        r.push(48);
        r.push(120);
        let mut i: usize = 0;
        while i < 40
            invariant
                i <= 40,
                r@.len() == i + 2,
                forall|j: int|
                    0 <= j < r@.len() ==> r@[j] == (if j == 1 { 120u8 } else { 48u8 }),
            decreases 40 - i,
        {
            r.push(48);
            i = i + 1;
        }
        proof {
            assert(r@ =~= simulated_wallet_address());
        }
        r
    }

    fn charge_fee(&mut self, amount: u64) -> (r: Result<(), InsufficientFunds>) {
        match self.fees.checked_add(self.gas) {
            None => Err(InsufficientFunds),
            Some(used) => {
                if used <= self.request.gas_payment
                    && amount as u128 <= self.request.gas_payment - used {
                    self.fees = self.fees + amount as u128;
                    Ok(())
                } else {
                    Err(InsufficientFunds)
                }
            },
        }
    }

    fn charge_gas(&mut self, amount: u64) -> (r: Result<(), InsufficientFunds>) {
        match self.fees.checked_add(self.gas) {
            None => Err(InsufficientFunds),
            Some(used) => {
                if used <= self.request.gas_payment
                    && amount as u128 <= self.request.gas_payment - used {
                    self.gas = self.gas + amount as u128;
                    Ok(())
                } else {
                    Err(InsufficientFunds)
                }
            },
        }
    }

    fn commit(&mut self, c: Commit) {
        self.commits.push(c);
    }
}

} // verus!
