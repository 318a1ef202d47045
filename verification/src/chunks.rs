//! The accumulated set of verified chunks of one candidate, and the
//! reconstruction threshold.

use vstd::prelude::*;
use vstd::seq_lib::*;
use vstd::set_lib::*;
use crate::primitives::ErasureChunk;
use crate::primitives::ValidatorIndex;

verus! {

/// Minimum number of distinct verified chunks needed to decode data coded
/// for `n` validators: one more than the `floor((n - 1) / 3)` validators the
/// scheme tolerates being unavailable or faulty.
pub open spec fn recovery_threshold_spec(n: int) -> int {
    (n - 1) / 3 + 1
}

/// For a non-empty validator set the threshold is at least one chunk and
/// never more than the whole set.
pub proof fn lemma_threshold_bounds(n: int)
    requires
        n >= 1,
    ensures
        1 <= recovery_threshold_spec(n) <= n,
{
    assert((n - 1) / 3 >= 0);
    assert((n - 1) / 3 <= n - 1);
}

/// Minimum number of distinct verified chunks needed to decode data that was
/// coded for `n_validators` validators.
pub fn recovery_threshold(n_validators: usize) -> (t: usize)
    requires
        n_validators >= 1,
    ensures
        t == recovery_threshold_spec(n_validators as int),
        1 <= t <= n_validators,
{
    proof {
        lemma_threshold_bounds(n_validators as int);
    }
    (n_validators - 1) / 3 + 1
}

/// The chunks of one candidate that have already been received and whose
/// inclusion proofs verified against the erasure root. Only such chunks are
/// ever inserted, so membership here is what "counted toward the threshold"
/// means.
pub struct ChunkStore {
    chunks: Vec<ErasureChunk>,
}

impl ChunkStore {
    /// The chunks held, in order of acceptance.
    pub closed spec fn view(&self) -> Seq<ErasureChunk> {
        self.chunks@
    }

    /// Some held chunk has index `index`.
    pub open spec fn has_index(self, index: int) -> bool {
        exists|k: int| 0 <= k < self@.len() && (#[trigger] self@[k]).index == index
    }

    /// Every chunk index is a validator index below `n`, and no two held
    /// chunks share an index.
    pub open spec fn wf(self, n: int) -> bool {
        &&& forall|k: int| 0 <= k < self@.len() ==> (#[trigger] self@[k]).index < n
        &&& forall|k: int, l: int|
            0 <= k < l < self@.len() ==> (#[trigger] self@[k]).index != (#[trigger] self@[l]).index
    }

    /// An empty store.
    pub fn new() -> (s: ChunkStore)
        ensures
            s@ =~= Seq::<ErasureChunk>::empty(),
            forall|n: int| s.wf(n),
    {
        ChunkStore { chunks: Vec::new() }
    }

    /// How many verified chunks are held.
    pub fn len(&self) -> (n: usize)
        ensures
            n == self@.len(),
    {
        self.chunks.len()
    }

    /// Whether a chunk with this index is already held.
    pub fn contains_index(&self, index: ValidatorIndex) -> (b: bool)
        ensures
            b == self.has_index(index as int),
    {
        let mut k: usize = 0;
        while k < self.chunks.len()
            invariant
                k <= self.chunks.len(),
                forall|j: int| 0 <= j < k ==> (#[trigger] self.chunks@[j]).index != index,
            decreases self.chunks.len() - k,
        {
            if self.chunks[k].index == index {
                assert(self@[k as int].index == index);
                return true;
            }
            k = k + 1;
        }
        false
    }

    /// Accept a chunk whose proof verified. The caller has checked that no
    /// chunk with the same index is held yet.
    pub fn insert(&mut self, chunk: ErasureChunk)
        requires
            !old(self).has_index(chunk.index as int),
        ensures
            final(self)@ =~= old(self)@.push(chunk),
    {
        self.chunks.push(chunk);
    }

    /// A copy of the held chunks, for handing to the outside decoder.
    pub fn chunks(&self) -> (v: &Vec<ErasureChunk>)
        ensures
            v@ == self@,
    {
        &self.chunks
    }

    /// Inserting a fresh index preserves well-formedness.
    pub proof fn lemma_insert_wf(pre: ChunkStore, post: ChunkStore, chunk: ErasureChunk, n: int)
        requires
            pre.wf(n),
            !pre.has_index(chunk.index as int),
            0 <= chunk.index < n,
            post@ == pre@.push(chunk),
        ensures
            post.wf(n),
    {
        assert forall|k: int, l: int| 0 <= k < l < post@.len() implies (#[trigger] post@[k]).index
            != (#[trigger] post@[l]).index by {
            if l == post@.len() - 1 {
                assert(post@[k] == pre@[k]);
            }
        }
    }

    /// A well-formed store never holds more than `n` chunks: its indices are
    /// distinct values drawn from `0 .. n`.
    pub proof fn lemma_len_bounded(self, n: int)
        requires
            self.wf(n),
            n >= 0,
        ensures
            self@.len() <= n,
    {
        let indices = self@.map_values(|c: ErasureChunk| c.index as int);
        assert(indices.no_duplicates());
        indices.unique_seq_to_set();
        assert forall|x: int| indices.to_set().contains(x) implies set_int_range(0, n).contains(
            x,
        ) by {
            let k = choose|k: int| 0 <= k < indices.len() && indices[k] == x;
            assert(self@[k].index < n);
        }
        assert(indices.to_set().subset_of(set_int_range(0, n)));
        lemma_int_range(0, n);
        lemma_len_subset(indices.to_set(), set_int_range(0, n));
    }
}

} // verus!
