//! The mathematical content of a buffer: six plain values, the invariant that
//! ties them together, and what one more document makes of them.

use vstd::prelude::*;

verus! {

/// An array of `n` zeros: what every array of a fresh buffer holds.
pub open spec fn zeros(n: nat) -> Seq<u32> {
    Seq::new(n, |i: int| 0u32)
}

/// The sum of the first `n` entries of `lens`: the token slots taken by `n`
/// documents that are stored one behind the other.
pub open spec fn total_len(lens: Seq<u32>, n: int) -> int
    decreases n,
{
    if n <= 0 {
        0
    } else {
        total_len(lens, n - 1) + lens[n - 1]
    }
}

/// `base` with the entries of `tokens` written over it from slot `at` on.
pub open spec fn overwrite(base: Seq<u32>, at: int, tokens: Seq<u32>) -> Seq<u32> {
    Seq::new(
        base.len(),
        |k: int|
            if at <= k < at + tokens.len() {
                tokens[k - at]
            } else {
                base[k]
            },
    )
}

/// What a buffer holds, field by field.
pub struct BufferView {
    /// Number of token slots in each of the four arrays.
    pub capacity: nat,
    /// Topic assigned to each token slot.
    pub z: Seq<u32>,
    /// Word id held by each token slot.
    pub w: Seq<u32>,
    /// Token count of each document; entries from `n_docs` on mean nothing.
    pub d_len: Seq<u32>,
    /// First token slot of each document; entries from `n_docs` on mean nothing.
    pub d_idx: Seq<u32>,
    /// Number of documents loaded so far.
    pub n_docs: nat,
}

impl BufferView {
    /// The buffer as it is right after construction.
    pub open spec fn empty(capacity: nat) -> BufferView {
        BufferView {
            capacity,
            z: zeros(capacity),
            w: zeros(capacity),
            d_len: zeros(capacity),
            d_idx: zeros(capacity),
            n_docs: 0,
        }
    }

    /// Where document `i` starts when the documents before it are packed
    /// without gaps from slot 0.
    pub open spec fn offset(self, i: int) -> int {
        total_len(self.d_len, i)
    }

    /// Number of token slots taken by the loaded documents, which is also the
    /// slot at which the next document starts.
    pub open spec fn used(self) -> int {
        self.offset(self.n_docs as int)
    }

    /// The invariant: four arrays of `capacity` entries, at most `capacity`
    /// documents, each recorded at the slot where its predecessor ends, and
    /// all of them inside the arrays.
    pub open spec fn wf(self) -> bool {
        &&& self.z.len() == self.capacity
        &&& self.w.len() == self.capacity
        &&& self.d_len.len() == self.capacity
        &&& self.d_idx.len() == self.capacity
        &&& self.n_docs <= self.capacity
        &&& forall|i: int| 0 <= i < self.n_docs ==> #[trigger] self.d_idx[i] == self.offset(i)
        &&& self.used() <= self.capacity
    }

    /// The word ids of document `i`.
    pub open spec fn doc(self, i: int) -> Seq<u32> {
        self.w.subrange(self.d_idx[i] as int, self.d_idx[i] + self.d_len[i])
    }

    /// The topics of document `i`, slot for slot beside `doc(i)`.
    pub open spec fn doc_topics(self, i: int) -> Seq<u32> {
        self.z.subrange(self.d_idx[i] as int, self.d_idx[i] + self.d_len[i])
    }

    /// The loaded documents in the order in which they were appended.
    pub open spec fn docs(self) -> Seq<Seq<u32>> {
        Seq::new(self.n_docs, |i: int| self.doc(i))
    }

    /// Whether a document of `len` tokens can be appended: a free record in
    /// `d_len`/`d_idx`, enough free token slots, and a count, an offset and a
    /// length that each fit in 32 bits.
    pub open spec fn accepts(self, len: nat) -> bool {
        &&& self.n_docs < self.capacity
        &&& self.used() + len <= self.capacity
        &&& self.n_docs < u32::MAX
        &&& self.used() <= u32::MAX
        &&& len <= u32::MAX
    }

    /// The buffer after `tokens` has been appended as one more document.
    pub open spec fn append(self, tokens: Seq<u32>) -> BufferView {
        BufferView {
            capacity: self.capacity,
            z: self.z,
            w: overwrite(self.w, self.used(), tokens),
            d_len: self.d_len.update(self.n_docs as int, tokens.len() as u32),
            d_idx: self.d_idx.update(self.n_docs as int, self.used() as u32),
            n_docs: self.n_docs + 1,
        }
    }
}

} // verus!
