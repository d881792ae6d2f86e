//! The function repository: guest binaries stored under their content
//! hash, with deployment checking for duplicates.

use vstd::prelude::*;

use crate::buffer::bytes_eq;

verus! {

/// A guest function as deployed: the compiled wasm, its source text and
/// the compiler that produced it.
#[derive(Debug, Clone)]
pub struct FunctionDefinition {
    /// The compiled WebAssembly binary.
    pub binary: Vec<u8>,
    /// The source the binary was compiled from.
    pub source: String,
    /// The compiler (name and version) that produced the binary.
    pub compiler: String,
}

/// A deployed function together with its repository metadata.
#[derive(Debug, Clone)]
pub struct FunctionState {
    pub definition: FunctionDefinition,
    /// Keccak-256 hash (32 bytes) of the function binary.
    pub hash: Vec<u8>,
    /// Deployment timestamp in Unix nanoseconds.
    pub deployed_at: u64,
    /// Whether the binary has been checked against its source.
    pub is_verified: bool,
}

/// The outcome of a deployment attempt.
#[derive(Debug)]
pub enum DeployResult {
    /// The function was stored under the returned id.
    Success(Vec<u8>),
    /// A function with the same binary already exists under this id.
    Duplicate(Vec<u8>),
    /// The function could not be stored.
    Error(String),
}

/// The Keccak-256 digest of a byte string.
pub uninterp spec fn keccak256_of(bytes: Seq<u8>) -> Seq<u8>;

/// Relies on `alloy_primitives::keccak256`: the Keccak-256 digest,
/// 32 bytes, a function of the input alone.
#[verifier::external_body]
pub fn keccak256(bytes: &Vec<u8>) -> (r: Vec<u8>)
    ensures
        r@ == keccak256_of(bytes@),
        r@.len() == 32,
{
    alloy_primitives::keccak256(bytes).to_vec()
}

/// The entry stored under an id in a list of keyed entries; the latest
/// entry wins.
pub open spec fn seq_get(entries: Seq<(Vec<u8>, FunctionState)>, id: Seq<u8>) -> Option<
    FunctionState,
>
    decreases entries.len(),
{
    if entries.len() == 0 {
        None
    } else if entries.last().0@ == id {
        Some(entries.last().1)
    } else {
        seq_get(entries.drop_last(), id)
    }
}

proof fn lemma_seq_get_absent(entries: Seq<(Vec<u8>, FunctionState)>, id: Seq<u8>)
    requires
        forall|j: int| 0 <= j < entries.len() ==> (#[trigger] entries[j]).0@ != id,
    ensures
        seq_get(entries, id) is None,
    decreases entries.len(),
{
    if entries.len() > 0 {
        lemma_seq_get_absent(entries.drop_last(), id);
    }
}

proof fn lemma_seq_get_found(entries: Seq<(Vec<u8>, FunctionState)>, i: int)
    requires
        0 <= i < entries.len(),
        forall|j: int, k: int|
            0 <= j < k < entries.len() ==> (#[trigger] entries[j]).0@ != (
            #[trigger] entries[k]).0@,
    ensures
        seq_get(entries, entries[i].0@) == Some(entries[i].1),
    decreases entries.len(),
{
    if i == entries.len() - 1 {
    } else {
        assert(entries.last().0@ != entries[i].0@);
        lemma_seq_get_found(entries.drop_last(), i);
    }
}

proof fn lemma_seq_get_remove(entries: Seq<(Vec<u8>, FunctionState)>, i: int, other: Seq<u8>)
    requires
        0 <= i < entries.len(),
        entries[i].0@ != other,
    ensures
        seq_get(entries.remove(i), other) == seq_get(entries, other),
    decreases entries.len(),
{
    entries.remove_ensures(i);
    if i == entries.len() - 1 {
        assert(entries.remove(i) =~= entries.drop_last());
    } else {
        assert(entries.remove(i).last() == entries.last());
        assert(entries.remove(i).drop_last() =~= entries.drop_last().remove(i));
        if entries.last().0@ != other {
            lemma_seq_get_remove(entries.drop_last(), i, other);
        }
    }
}

/// Storage for function definitions and binaries, keyed by content hash.
/// Ids are unique: storing under an existing id replaces the entry.
pub struct FunctionRepository {
    entries: Vec<(Vec<u8>, FunctionState)>,
}

impl FunctionRepository {
    /// The entry stored under an id, if any.
    pub closed spec fn spec_get(&self, id: Seq<u8>) -> Option<FunctionState> {
        seq_get(self.entries@, id)
    }

    /// Each id occurs at most once.
    pub closed spec fn wf(&self) -> bool {
        forall|i: int, j: int|
            0 <= i < j < self.entries@.len() ==> (#[trigger] self.entries@[i]).0@ != (
            #[trigger] self.entries@[j]).0@
    }

    /// An empty repository.
    pub fn new() -> (r: FunctionRepository)
        ensures
            r.wf(),
            forall|id: Seq<u8>| r.spec_get(id) is None,
    {
        FunctionRepository { entries: Vec::new() }
    }

    fn find(&self, id: &Vec<u8>) -> (r: Option<usize>)
        requires
            self.wf(),
        ensures
            r matches Some(i) ==> i < self.entries@.len() && self.entries@[i as int].0@ == id@
                && self.spec_get(id@) == Some(self.entries@[i as int].1),
            r is None ==> self.spec_get(id@) is None,
            r is None ==> forall|j: int|
                0 <= j < self.entries@.len() ==> (#[trigger] self.entries@[j]).0@ != id@,
    {
        let len = self.entries.len();
        let mut i: usize = 0;
        while i < len
            invariant
                self.wf(),
                len == self.entries@.len(),
                i <= len,
                forall|j: int| 0 <= j < i ==> (#[trigger] self.entries@[j]).0@ != id@,
            decreases len - i,
        {
            if bytes_eq(&self.entries[i].0, id) {
                proof {
                    lemma_seq_get_found(self.entries@, i as int);
                }
                return Some(i);
            }
            i = i + 1;
        }
        proof {
            lemma_seq_get_absent(self.entries@, id@);
        }
        None
    }

    /// Stores a function under an id, returning the entry previously
    /// stored under it, if any.
    pub fn store_function(&mut self, id: Vec<u8>, state: FunctionState) -> (r: Option<
        FunctionState,
    >)
        requires
            old(self).wf(),
        ensures
            final(self).wf(),
            r == old(self).spec_get(id@),
            final(self).spec_get(id@) == Some(state),
            forall|other: Seq<u8>|
                other != id@ ==> final(self).spec_get(other) == old(self).spec_get(other),
    {
        let ghost old_entries = self.entries@;
        match self.find(&id) {
            Some(i) => {
                let previous = self.entries.remove(i);
                let ghost removed = self.entries@;
                self.entries.push((id, state));
                proof {
                    old_entries.remove_ensures(i as int);
                    assert(self.entries@.drop_last() =~= removed);
                    assert forall|other: Seq<u8>| other != self.entries@.last().0@ implies
                        seq_get(self.entries@, other) == seq_get(old_entries, other) by {
                        lemma_seq_get_remove(old_entries, i as int, other);
                    }
                    assert forall|a: int, b: int|
                        0 <= a < b < self.entries@.len() implies (
                    #[trigger] self.entries@[a]).0@ != (#[trigger] self.entries@[b]).0@ by {
                        if b < self.entries@.len() - 1 {
                            if a < i && b < i {
                                assert(old_entries[a].0@ != old_entries[b].0@);
                            } else if a < i {
                                assert(old_entries[a].0@ != old_entries[b + 1].0@);
                            } else {
                                assert(old_entries[a + 1].0@ != old_entries[b + 1].0@);
                            }
                        } else {
                            if a < i {
                                assert(old_entries[a].0@ != old_entries[i as int].0@);
                            } else {
                                assert(old_entries[i as int].0@ != old_entries[a + 1].0@);
                            }
                        }
                    }
                }
                Some(previous.1)
            },
            None => {
                self.entries.push((id, state));
                proof {
                    assert(self.entries@.drop_last() =~= old_entries);
                    assert forall|a: int, b: int|
                        0 <= a < b < self.entries@.len() implies (
                    #[trigger] self.entries@[a]).0@ != (#[trigger] self.entries@[b]).0@ by {
                        if b == self.entries@.len() - 1 {
                            assert(old_entries[a].0@ != id@);
                        } else {
                            assert(old_entries[a].0@ != old_entries[b].0@);
                        }
                    }
                }
                None
            },
        }
    }

    /// The function stored under an id, if any.
    pub fn get_function(&self, id: &Vec<u8>) -> (r: Option<&FunctionState>)
        requires
            self.wf(),
        ensures
            r matches Some(s) ==> self.spec_get(id@) == Some(*s),
            r is None ==> self.spec_get(id@) is None,
    {
        match self.find(id) {
            Some(i) => Some(&self.entries[i].1),
            None => None,
        }
    }
}

/// Deploys a function: hashes its binary, refuses duplicates, and stores
/// it unverified otherwise. The id under which it is stored is the
/// Keccak-256 hash of the binary.
pub fn deploy_function(
    repo: &mut FunctionRepository,
    definition: FunctionDefinition,
    now: u64,
) -> (r: DeployResult)
    requires
        old(repo).wf(),
    ensures
        final(repo).wf(),
        r matches DeployResult::Duplicate(id) ==> {
            &&& id@ == keccak256_of(definition.binary@)
            &&& old(repo).spec_get(id@) is Some
            &&& *final(repo) == *old(repo)
        },
        r matches DeployResult::Success(id) ==> {
            &&& id@ == keccak256_of(definition.binary@)
            &&& old(repo).spec_get(id@) is None
            &&& (final(repo).spec_get(id@) matches Some(state) && state.definition == definition
                && state.hash@ == keccak256_of(definition.binary@) && state.deployed_at == now
                && !state.is_verified)
        },
        !(r is Error),
{
    let id = keccak256(&definition.binary);
    let duplicate = match repo.get_function(&id) {
        Some(_) => true,
        None => false,
    };
    if duplicate {
        return DeployResult::Duplicate(id);
    }
    let hash = keccak256(&definition.binary);
    let stored_id = keccak256(&definition.binary);
    let state = FunctionState { definition, hash, deployed_at: now, is_verified: false };
    repo.store_function(stored_id, state);
    DeployResult::Success(id)
}

} // verus!
