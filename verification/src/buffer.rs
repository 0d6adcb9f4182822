//! The buffer itself: one owner for four parallel arrays of equal length.

use crate::error::BufferError;
use crate::lemmas::{lemma_append_extends, lemma_document_bounds};
use crate::storage::{max_entries, try_zeroed, zeroed};
use crate::view::{overwrite, BufferView};
use vstd::prelude::*;
use vstd::slice::slice_subrange;

verus! {

/// A batch of tokenized documents in flattened form.
///
/// The buffer owns its four arrays. They are allocated together by the
/// constructors, never resized, and released together when the buffer goes
/// out of scope.
#[derive(Debug)]
pub struct Buffer {
    size: usize,
    z: Vec<u32>,
    w: Vec<u32>,
    d_len: Vec<u32>,
    d_idx: Vec<u32>,
    n_docs: u32,
}

impl View for Buffer {
    type V = BufferView;

    closed spec fn view(&self) -> BufferView {
        BufferView {
            capacity: self.size as nat,
            z: self.z@,
            w: self.w@,
            d_len: self.d_len@,
            d_idx: self.d_idx@,
            n_docs: self.n_docs as nat,
        }
    }
}

impl Buffer {
    /// Every buffer that the constructors hand out is well formed, and every
    /// operation keeps it so.
    pub open spec fn wf(&self) -> bool {
        self@.wf()
    }

    /// The largest capacity whose arrays can be addressed on this machine.
    pub open spec fn spec_max_capacity() -> usize {
        max_entries()
    }

    /// The largest capacity that `new` takes and `create` does not refuse
    /// outright.
    #[verifier::when_used_as_spec(spec_max_capacity)]
    pub fn max_capacity() -> (limit: usize)
        ensures
            limit == Self::spec_max_capacity(),
    {
        max_entries()
    }

    /// A buffer of `size` token slots with no documents and every slot zero.
    ///
    /// Stops the process if the allocator runs out of memory; `create`
    /// reports that as an error instead.
    pub fn new(size: usize) -> (buffer: Buffer)
        requires
            size <= Self::max_capacity(),
        ensures
            buffer.wf(),
            buffer@ == BufferView::empty(size as nat),
            buffer@.z.len() == size,
            buffer@.w.len() == size,
            buffer@.d_len.len() == size,
            buffer@.d_idx.len() == size,
    {
        Buffer {
            size,
            z: zeroed(size),
            w: zeroed(size),
            d_len: zeroed(size),
            d_idx: zeroed(size),
            n_docs: 0,
        }
    }

    /// A buffer of `size` token slots with no documents and every slot zero,
    /// or `AllocationFailure` if storage for one of the four arrays cannot be
    /// had. Arrays that were already allocated when a later one fails are
    /// released before the error is returned.
    ///
    /// A buffer without slots needs no storage and is always granted; one
    /// whose arrays could not be addressed is always refused. In between the
    /// allocator decides.
    pub fn create(size: usize) -> (result: Result<Buffer, BufferError>)
        ensures
            size == 0 ==> result is Ok,
            size > Self::max_capacity() ==> result is Err,
            result matches Ok(buffer) ==> {
                &&& buffer.wf()
                &&& buffer@ == BufferView::empty(size as nat)
                &&& buffer@.z.len() == size
                &&& buffer@.w.len() == size
                &&& buffer@.d_len.len() == size
                &&& buffer@.d_idx.len() == size
            },
            result matches Err(e) ==> e == BufferError::AllocationFailure,
    {
        if size > Self::max_capacity() {
            return Err(BufferError::AllocationFailure);
        }
        let z = match try_zeroed(size) {
            Ok(array) => array,
            Err(e) => return Err(e),
        };
        let w = match try_zeroed(size) {
            Ok(array) => array,
            Err(e) => return Err(e),
        };
        let d_len = match try_zeroed(size) {
            Ok(array) => array,
            Err(e) => return Err(e),
        };
        let d_idx = match try_zeroed(size) {
            Ok(array) => array,
            Err(e) => return Err(e),
        };
        Ok(Buffer { size, z, w, d_len, d_idx, n_docs: 0 })
    }

    /// Number of token slots in each array.
    pub fn capacity(&self) -> (capacity: usize)
        ensures
            capacity == self@.capacity,
    {
        self.size
    }

    /// Number of documents loaded so far.
    pub fn n_docs(&self) -> (n: u32)
        ensures
            n == self@.n_docs,
    {
        self.n_docs
    }

    /// The topic of every token slot.
    pub fn z(&self) -> (z: &[u32])
        ensures
            z@ == self@.z,
    {
        self.z.as_slice()
    }

    /// The word id of every token slot.
    pub fn w(&self) -> (w: &[u32])
        ensures
            w@ == self@.w,
    {
        self.w.as_slice()
    }

    /// The token counts of the loaded documents.
    pub fn d_len(&self) -> (d_len: &[u32])
        requires
            self.wf(),
        ensures
            d_len@ == self@.d_len.take(self@.n_docs as int),
    {
        slice_subrange(self.d_len.as_slice(), 0, self.n_docs as usize)
    }

    /// The first token slots of the loaded documents.
    pub fn d_idx(&self) -> (d_idx: &[u32])
        requires
            self.wf(),
        ensures
            d_idx@ == self@.d_idx.take(self@.n_docs as int),
    {
        slice_subrange(self.d_idx.as_slice(), 0, self.n_docs as usize)
    }

    /// The topics, for a sampler to rewrite in place. The buffer is what it
    /// was, with `z` as the borrower leaves it.
    pub fn z_mut(&mut self) -> (z: &mut [u32])
        ensures
            z@ == old(self)@.z,
            final(self)@ == (BufferView { z: final(z)@, ..old(self)@ }),
            old(self).wf() && final(z)@.len() == z@.len() ==> final(self).wf(),
    {
        self.z.as_mut_slice()
    }

    /// The word ids, to rewrite in place. The buffer is what it was, with
    /// `w` as the borrower leaves it.
    pub fn w_mut(&mut self) -> (w: &mut [u32])
        ensures
            w@ == old(self)@.w,
            final(self)@ == (BufferView { w: final(w)@, ..old(self)@ }),
            old(self).wf() && final(w)@.len() == w@.len() ==> final(self).wf(),
    {
        self.w.as_mut_slice()
    }

    /// Assigns `topic` to token slot `slot`, or rejects the write if the
    /// buffer has no such slot.
    pub fn set_z(&mut self, slot: usize, topic: u32) -> (result: Result<(), BufferError>)
        requires
            old(self).wf(),
        ensures
            final(self).wf(),
            slot < old(self)@.capacity ==> result is Ok && final(self)@ == (BufferView {
                z: old(self)@.z.update(slot as int, topic),
                ..old(self)@
            }),
            slot >= old(self)@.capacity ==> result == Err::<(), BufferError>(
                BufferError::CapacityExceeded,
            ) && final(self)@ == old(self)@,
    {
        if slot >= self.size {
            return Err(BufferError::CapacityExceeded);
        }
        self.z[slot] = topic;
        Ok(())
    }

    /// The word ids of document `i`, if there is one.
    pub fn document(&self, i: usize) -> (doc: Option<&[u32]>)
        requires
            self.wf(),
        ensures
            i < self@.n_docs ==> doc is Some && doc->Some_0@ == self@.doc(i as int),
            i >= self@.n_docs ==> doc is None,
    {
        if i >= self.n_docs as usize {
            return None;
        }
        proof {
            lemma_document_bounds(self@, i as int);
        }
        let start = self.d_idx[i] as usize;
        let end = start + self.d_len[i] as usize;
        Some(slice_subrange(self.w.as_slice(), start, end))
    }

    /// The topics of document `i`, if there is one.
    pub fn document_topics(&self, i: usize) -> (topics: Option<&[u32]>)
        requires
            self.wf(),
        ensures
            i < self@.n_docs ==> topics is Some && topics->Some_0@ == self@.doc_topics(i as int),
            i >= self@.n_docs ==> topics is None,
    {
        if i >= self.n_docs as usize {
            return None;
        }
        proof {
            lemma_document_bounds(self@, i as int);
        }
        let start = self.d_idx[i] as usize;
        let end = start + self.d_len[i] as usize;
        Some(slice_subrange(self.z.as_slice(), start, end))
    }

    /// Whether a document of `len` tokens can be appended.
    pub fn accepts(&self, len: usize) -> (accepted: bool)
        requires
            self.wf(),
        ensures
            accepted == self@.accepts(len as nat),
    {
        let used = self.used();
        let n = self.n_docs;
        (n as usize) < self.size && len <= self.size - used && n < u32::MAX && used
            <= u32::MAX as usize && len <= u32::MAX as usize
    }

    /// Number of token slots taken by the loaded documents: the slot at which
    /// the next document will start.
    pub fn used(&self) -> (used: usize)
        requires
            self.wf(),
        ensures
            used == self@.used(),
    {
        if self.n_docs == 0 {
            0
        } else {
            let last = (self.n_docs - 1) as usize;
            self.d_idx[last] as usize + self.d_len[last] as usize
        }
    }

    /// Appends `tokens` as one more document behind those already loaded.
    ///
    /// The word ids go into `w` from the first free slot on, that slot and
    /// the token count are recorded in `d_idx` and `d_len`, and `n_docs`
    /// grows by one. A document that the buffer cannot take is rejected
    /// before anything is written.
    pub fn append_document(&mut self, tokens: &[u32]) -> (result: Result<(), BufferError>)
        requires
            old(self).wf(),
        ensures
            final(self).wf(),
            match result {
                Ok(_) => {
                    &&& old(self)@.accepts(tokens@.len())
                    &&& final(self)@ == old(self)@.append(tokens@)
                    &&& final(self)@.docs() == old(self)@.docs().push(tokens@)
                    &&& final(self)@.used() == old(self)@.used() + tokens@.len()
                },
                Err(e) => {
                    &&& !old(self)@.accepts(tokens@.len())
                    &&& e == BufferError::CapacityExceeded
                    &&& final(self)@ == old(self)@
                },
            },
            old(self)@.used() + tokens@.len() > old(self)@.capacity ==> result is Err,
            old(self)@.n_docs >= old(self)@.capacity ==> result is Err,
    {
        let len = tokens.len();
        if !self.accepts(len) {
            return Err(BufferError::CapacityExceeded);
        }
        let used = self.used();
        let n = self.n_docs;
        let ghost before = self@;
        let mut k: usize = 0;
        while k < len
            invariant
                k <= len,
                len == tokens@.len(),
                used + len <= self.size,
                self.size == before.capacity,
                self.w@.len() == before.capacity,
                self.z@ == before.z,
                self.d_len@ == before.d_len,
                self.d_idx@ == before.d_idx,
                self.n_docs == before.n_docs,
                self.w@ == overwrite(before.w, used as int, tokens@.take(k as int)),
            decreases len - k,
        {
            self.w[used + k] = tokens[k];
            k += 1;
            assert(self.w@ =~= overwrite(before.w, used as int, tokens@.take(k as int)));
        }
        assert(tokens@.take(len as int) =~= tokens@);
        self.d_idx[n as usize] = used as u32;
        self.d_len[n as usize] = len as u32;
        self.n_docs = n + 1;
        proof {
            lemma_append_extends(before, tokens@);
        }
        Ok(())
    }
}

} // verus!
