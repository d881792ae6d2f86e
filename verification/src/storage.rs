//! The job store: jobs keyed by their cross-chain id, and the append-only
//! commit log. The durable layout behind this interface belongs to the
//! persistence collaborator; the keying and uniqueness rules live here.

use vstd::prelude::*;

use crate::chain::Chain;
use crate::job::{Commit, Job, JobRequest, JobStatus};

verus! {

/// Cross-chain job id: the chain a job came from plus its on-chain id.
/// Not a strict primary key across reorganisations, but unique within
/// this store.
#[derive(Debug, Clone, Copy, PartialEq, Eq, Structural)]
pub struct JobKey {
    pub chain: Chain,
    pub on_chain_id: u64,
}

/// The store key of a request: only jobs with an on-chain id are stored.
pub open spec fn spec_job_key(request: JobRequest) -> Option<JobKey> {
    match request.on_chain_id {
        Some(id) => Some(JobKey { chain: request.chain, on_chain_id: id }),
        None => None,
    }
}

/// The store key of a request, if it has one.
pub fn job_key(request: &JobRequest) -> (r: Option<JobKey>)
    ensures
        r == spec_job_key(*request),
{
    match request.on_chain_id {
        Some(id) => Some(JobKey { chain: request.chain, on_chain_id: id }),
        None => None,
    }
}

/// The job stored under a key in a list of keyed entries; the latest
/// entry wins.
pub open spec fn jobs_get(entries: Seq<(JobKey, Job)>, key: JobKey) -> Option<Job>
    decreases entries.len(),
{
    if entries.len() == 0 {
        None
    } else if entries.last().0 == key {
        Some(entries.last().1)
    } else {
        jobs_get(entries.drop_last(), key)
    }
}

proof fn lemma_jobs_get_absent(entries: Seq<(JobKey, Job)>, key: JobKey)
    requires
        forall|j: int| 0 <= j < entries.len() ==> (#[trigger] entries[j]).0 != key,
    ensures
        jobs_get(entries, key) is None,
    decreases entries.len(),
{
    if entries.len() > 0 {
        lemma_jobs_get_absent(entries.drop_last(), key);
    }
}

proof fn lemma_jobs_get_found(entries: Seq<(JobKey, Job)>, i: int)
    requires
        0 <= i < entries.len(),
        forall|j: int, k: int|
            0 <= j < k < entries.len() ==> (#[trigger] entries[j]).0 != (#[trigger] entries[k]).0,
    ensures
        jobs_get(entries, entries[i].0) == Some(entries[i].1),
    decreases entries.len(),
{
    if i == entries.len() - 1 {
    } else {
        assert(entries.last().0 != entries[i].0);
        lemma_jobs_get_found(entries.drop_last(), i);
    }
}

proof fn lemma_jobs_get_remove(entries: Seq<(JobKey, Job)>, i: int, other: JobKey)
    requires
        0 <= i < entries.len(),
        entries[i].0 != other,
    ensures
        jobs_get(entries.remove(i), other) == jobs_get(entries, other),
    decreases entries.len(),
{
    entries.remove_ensures(i);
    if i == entries.len() - 1 {
        assert(entries.remove(i) =~= entries.drop_last());
    } else {
        assert(entries.remove(i).last() == entries.last());
        assert(entries.remove(i).drop_last() =~= entries.drop_last().remove(i));
        if entries.last().0 != other {
            lemma_jobs_get_remove(entries.drop_last(), i, other);
        }
    }
}

/// Storage for jobs and their commits.
pub struct JobStore {
    jobs: Vec<(JobKey, Job)>,
    commits: Vec<Commit>,
}

impl JobStore {
    /// The job stored under a key, if any.
    pub closed spec fn spec_get(&self, key: JobKey) -> Option<Job> {
        jobs_get(self.jobs@, key)
    }

    /// The commit log: every commit stored so far, in order; a commit's
    /// id is its position.
    pub closed spec fn commit_log(&self) -> Seq<Commit> {
        self.commits@
    }

    /// Each key occurs at most once.
    pub closed spec fn wf(&self) -> bool {
        forall|i: int, j: int|
            0 <= i < j < self.jobs@.len() ==> (#[trigger] self.jobs@[i]).0 != (
            #[trigger] self.jobs@[j]).0
    }

    /// An empty store.
    pub fn new() -> (r: JobStore)
        ensures
            r.wf(),
            forall|key: JobKey| r.spec_get(key) is None,
            r.commit_log() == Seq::<Commit>::empty(),
    {
        JobStore { jobs: Vec::new(), commits: Vec::new() }
    }

    /// How many commits the log holds; the next commit gets this id.
    pub fn commit_count(&self) -> (r: usize)
        ensures
            r == self.commit_log().len(),
    {
        self.commits.len()
    }

    fn find(&self, key: JobKey) -> (r: Option<usize>)
        requires
            self.wf(),
        ensures
            r matches Some(i) ==> i < self.jobs@.len() && self.jobs@[i as int].0 == key
                && self.spec_get(key) == Some(self.jobs@[i as int].1),
            r is None ==> self.spec_get(key) is None,
            r is None ==> forall|j: int|
                0 <= j < self.jobs@.len() ==> (#[trigger] self.jobs@[j]).0 != key,
    {
        let len = self.jobs.len();
        let mut i: usize = 0;
        while i < len
            invariant
                self.wf(),
                len == self.jobs@.len(),
                i <= len,
                forall|j: int| 0 <= j < i ==> (#[trigger] self.jobs@[j]).0 != key,
            decreases len - i,
        {
            if self.jobs[i].0 == key {
                proof {
                    lemma_jobs_get_found(self.jobs@, i as int);
                }
                return Some(i);
            }
            i = i + 1;
        }
        proof {
            lemma_jobs_get_absent(self.jobs@, key);
        }
        None
    }

    /// Replaces the job under a key, keeping keys unique and the commit
    /// log unchanged.
    fn put(&mut self, key: JobKey, job: Job)
        requires
            old(self).wf(),
        ensures
            final(self).wf(),
            final(self).spec_get(key) == Some(job),
            forall|other: JobKey|
                other != key ==> final(self).spec_get(other) == old(self).spec_get(other),
            final(self).commit_log() == old(self).commit_log(),
    {
        let ghost old_jobs = self.jobs@;
        match self.find(key) {
            Some(i) => {
                let _previous = self.jobs.remove(i);
                let ghost removed = self.jobs@;
                self.jobs.push((key, job));
                proof {
                    old_jobs.remove_ensures(i as int);
                    assert(self.jobs@.drop_last() =~= removed);
                    assert forall|other: JobKey| other != key implies jobs_get(self.jobs@, other)
                        == jobs_get(old_jobs, other) by {
                        lemma_jobs_get_remove(old_jobs, i as int, other);
                    }
                    assert forall|a: int, b: int| 0 <= a < b < self.jobs@.len() implies (
                    #[trigger] self.jobs@[a]).0 != (#[trigger] self.jobs@[b]).0 by {
                        if b < self.jobs@.len() - 1 {
                            if a < i && b < i {
                                assert(old_jobs[a].0 != old_jobs[b].0);
                            } else if a < i {
                                assert(old_jobs[a].0 != old_jobs[b + 1].0);
                            } else {
                                assert(old_jobs[a + 1].0 != old_jobs[b + 1].0);
                            }
                        } else {
                            if a < i {
                                assert(old_jobs[a].0 != old_jobs[i as int].0);
                            } else {
                                assert(old_jobs[i as int].0 != old_jobs[a + 1].0);
                            }
                        }
                    }
                }
            },
            None => {
                self.jobs.push((key, job));
                proof {
                    assert(self.jobs@.drop_last() =~= old_jobs);
                    assert forall|a: int, b: int| 0 <= a < b < self.jobs@.len() implies (
                    #[trigger] self.jobs@[a]).0 != (#[trigger] self.jobs@[b]).0 by {
                        if b == self.jobs@.len() - 1 {
                            assert(old_jobs[a].0 != key);
                        } else {
                            assert(old_jobs[a].0 != old_jobs[b].0);
                        }
                    }
                }
            },
        }
    }

    /// Creates a job for a request unless one already exists under its
    /// key. Returns whether a job was created. Only requests with an
    /// on-chain id can be stored.
    pub fn create_job(&mut self, request: JobRequest, now: u64) -> (created: bool)
        requires
            old(self).wf(),
            spec_job_key(request) is Some,
        ensures
            final(self).wf(),
            created == (old(self).spec_get(spec_job_key(request)->0) is None),
            !created ==> *final(self) == *old(self),
            created ==> {
                &&& final(self).spec_get(spec_job_key(request)->0) matches Some(job)
                    && job.request == request && job.status is Pending && job.created_at == now
                    && job.fees == 0 && job.gas == 0 && job.commit_ids@.len() == 0
                &&& forall|other: JobKey|
                    other != spec_job_key(request)->0 ==> final(self).spec_get(other) == old(
                        self,
                    ).spec_get(other)
                &&& final(self).commit_log() == old(self).commit_log()
            },
    {
        let key = match job_key(&request) {
            Some(key) => key,
            None => vstd::pervasive::unreached(),
        };
        match self.find(key) {
            Some(_) => false,
            None => {
                let job = Job::new(request, now);
                self.put(key, job);
                true
            },
        }
    }

    /// The job stored under a cross-chain id, if any.
    pub fn get_job(&self, chain: Chain, job_id: u64) -> (r: Option<&Job>)
        requires
            self.wf(),
        ensures
            r matches Some(job) ==> self.spec_get(JobKey { chain, on_chain_id: job_id })
                == Some(*job),
            r is None ==> self.spec_get(JobKey { chain, on_chain_id: job_id }) is None,
    {
        match self.find(JobKey { chain, on_chain_id: job_id }) {
            Some(i) => Some(&self.jobs[i].1),
            None => None,
        }
    }

    /// Sets the status of a stored job, leaving everything else as it
    /// was.
    pub fn update_job_status(&mut self, request: &JobRequest, status: JobStatus)
        requires
            old(self).wf(),
            spec_job_key(*request) is Some,
            old(self).spec_get(spec_job_key(*request)->0) is Some,
        ensures
            final(self).wf(),
            final(self).spec_get(spec_job_key(*request)->0) matches Some(job) && {
                let old_job = old(self).spec_get(spec_job_key(*request)->0)->0;
                &&& job.status == status
                &&& job.request == old_job.request
                &&& job.created_at == old_job.created_at
                &&& job.commit_ids == old_job.commit_ids
                &&& job.fees == old_job.fees
                &&& job.gas == old_job.gas
            },
            forall|other: JobKey|
                other != spec_job_key(*request)->0 ==> final(self).spec_get(other) == old(
                    self,
                ).spec_get(other),
            final(self).commit_log() == old(self).commit_log(),
    {
        let key = match job_key(request) {
            Some(key) => key,
            None => vstd::pervasive::unreached(),
        };
        let i = match self.find(key) {
            Some(i) => i,
            None => vstd::pervasive::unreached(),
        };
        let ghost prior = self.jobs@;
        let (_, mut job) = self.jobs.remove(i);
        job.status = status;
        self.put_back(key, job, Ghost(prior), Ghost(i as int));
    }

    /// Appends a commit to the log and records its id on the job it
    /// belongs to. Returns the commit's id: its position in the log.
    pub fn store_commit(&mut self, request: &JobRequest, commit: Commit) -> (id: u64)
        requires
            old(self).wf(),
            spec_job_key(*request) is Some,
            old(self).spec_get(spec_job_key(*request)->0) is Some,
            old(self).commit_log().len() < u64::MAX,
        ensures
            final(self).wf(),
            id == old(self).commit_log().len(),
            final(self).commit_log() == old(self).commit_log().push(commit),
            final(self).spec_get(spec_job_key(*request)->0) matches Some(job) && {
                let old_job = old(self).spec_get(spec_job_key(*request)->0)->0;
                &&& job.commit_ids@ == old_job.commit_ids@.push(id)
                &&& job.status == old_job.status
                &&& job.request == old_job.request
                &&& job.created_at == old_job.created_at
                &&& job.fees == old_job.fees
                &&& job.gas == old_job.gas
            },
            forall|other: JobKey|
                other != spec_job_key(*request)->0 ==> final(self).spec_get(other) == old(
                    self,
                ).spec_get(other),
    {
        let key = match job_key(request) {
            Some(key) => key,
            None => vstd::pervasive::unreached(),
        };
        let i = match self.find(key) {
            Some(i) => i,
            None => vstd::pervasive::unreached(),
        };
        let id = self.commits.len() as u64;
        self.commits.push(commit);
        let ghost prior = self.jobs@;
        let (_, mut job) = self.jobs.remove(i);
        job.commit_ids.push(id);
        self.put_back(key, job, Ghost(prior), Ghost(i as int));
        id
    }

    /// Reinserts a job whose entry was just removed at the given index.
    fn put_back(
        &mut self,
        key: JobKey,
        job: Job,
        prior: Ghost<Seq<(JobKey, Job)>>,
        removed_at: Ghost<int>,
    )
        requires
            0 <= removed_at@ < prior@.len(),
            old(self).jobs@ == prior@.remove(removed_at@),
            prior@[removed_at@].0 == key,
            forall|a: int, b: int|
                0 <= a < b < prior@.len() ==> (#[trigger] prior@[a]).0 != (#[trigger] prior@[b]).0,
        ensures
            final(self).wf(),
            final(self).spec_get(key) == Some(job),
            forall|other: JobKey|
                other != key ==> final(self).spec_get(other) == jobs_get(prior@, other),
            final(self).commit_log() == old(self).commit_log(),
    {
        self.jobs.push((key, job));
        proof {
            let i = removed_at@;
            prior@.remove_ensures(i);
            assert(self.jobs@.drop_last() =~= old(self).jobs@);
            assert forall|other: JobKey| other != key implies jobs_get(self.jobs@, other)
                == jobs_get(prior@, other) by {
                lemma_jobs_get_remove(prior@, i, other);
            }
            assert forall|a: int, b: int| 0 <= a < b < self.jobs@.len() implies (
            #[trigger] self.jobs@[a]).0 != (#[trigger] self.jobs@[b]).0 by {
                if b < self.jobs@.len() - 1 {
                    if a < i && b < i {
                        assert(prior@[a].0 != prior@[b].0);
                    } else if a < i {
                        assert(prior@[a].0 != prior@[b + 1].0);
                    } else {
                        assert(prior@[a + 1].0 != prior@[b + 1].0);
                    }
                } else {
                    if a < i {
                        assert(prior@[a].0 != prior@[i].0);
                    } else {
                        assert(prior@[i].0 != prior@[a + 1].0);
                    }
                }
            }
        }
    }
}

} // verus!
