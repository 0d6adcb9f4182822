//! What holds of every well-formed buffer, stated over its view and proved.

use crate::view::{overwrite, total_len, zeros, BufferView};
use vstd::prelude::*;

verus! {

/// Two length arrays that agree on their first `n` entries give the same
/// total for those entries.
pub proof fn lemma_total_len_agrees(a: Seq<u32>, b: Seq<u32>, n: int)
    requires
        forall|i: int| 0 <= i < n ==> a[i] == b[i],
    ensures
        total_len(a, n) == total_len(b, n),
    decreases n,
{
    if n > 0 {
        lemma_total_len_agrees(a, b, n - 1);
    }
}

/// The total never shrinks as more documents are counted.
pub proof fn lemma_total_len_monotonic(lens: Seq<u32>, i: int, j: int)
    requires
        i <= j,
    ensures
        total_len(lens, i) <= total_len(lens, j),
        0 <= total_len(lens, i),
    decreases j - i, i,
{
    if i > 0 {
        lemma_total_len_monotonic(lens, i - 1, i - 1);
    }
    if i < j {
        lemma_total_len_monotonic(lens, i, j - 1);
    }
}

/// A fresh buffer is well formed: its four arrays have `capacity` entries
/// each, and it holds no document and uses no slot.
pub proof fn lemma_empty_is_well_formed(capacity: nat)
    ensures
        BufferView::empty(capacity).wf(),
        BufferView::empty(capacity).z.len() == capacity,
        BufferView::empty(capacity).w.len() == capacity,
        BufferView::empty(capacity).d_len.len() == capacity,
        BufferView::empty(capacity).d_idx.len() == capacity,
        BufferView::empty(capacity).n_docs == 0,
        BufferView::empty(capacity).used() == 0,
        BufferView::empty(capacity).docs() == Seq::<Seq<u32>>::empty(),
{
    assert(BufferView::empty(capacity).docs() =~= Seq::<Seq<u32>>::empty());
}

/// Appending an accepted document keeps the buffer well formed, takes as
/// many slots as the document has tokens, leaves the earlier documents as
/// they were and adds the new one behind them.
pub proof fn lemma_append_extends(b: BufferView, tokens: Seq<u32>)
    requires
        b.wf(),
        b.accepts(tokens.len()),
    ensures
        b.append(tokens).wf(),
        b.append(tokens).used() == b.used() + tokens.len(),
        b.append(tokens).docs() == b.docs().push(tokens),
{
    let a = b.append(tokens);
    let n = b.n_docs as int;
    lemma_total_len_monotonic(b.d_len, 0, n);
    lemma_total_len_agrees(b.d_len, a.d_len, n);
    assert(a.used() == b.used() + tokens.len());
    assert forall|i: int| 0 <= i < a.n_docs implies #[trigger] a.d_idx[i] == a.offset(i) by {
        lemma_total_len_agrees(b.d_len, a.d_len, i);
    }
    assert forall|i: int| 0 <= i < a.n_docs implies #[trigger] a.docs()[i] == b.docs().push(
        tokens,
    )[i] by {
        if i < n {
            lemma_total_len_monotonic(b.d_len, i + 1, n);
            assert(a.doc(i) =~= b.doc(i));
        } else {
            assert(a.doc(i) =~= tokens);
        }
    }
    assert(a.docs() =~= b.docs().push(tokens));
}

/// Every loaded document lies inside the slots in use, and those inside the
/// arrays.
pub proof fn lemma_document_bounds(b: BufferView, i: int)
    requires
        b.wf(),
        0 <= i < b.n_docs,
    ensures
        0 <= b.d_idx[i],
        b.d_idx[i] + b.d_len[i] <= b.used(),
        b.used() <= b.capacity,
        b.doc(i).len() == b.d_len[i],
        b.doc_topics(i).len() == b.d_len[i],
{
    lemma_total_len_monotonic(b.d_len, i + 1, b.n_docs as int);
}

/// The first document starts at slot 0, and every later one starts in the
/// slot where its predecessor ends.
pub proof fn lemma_documents_packed(b: BufferView, i: int)
    requires
        b.wf(),
        0 <= i < b.n_docs,
    ensures
        i == 0 ==> b.d_idx[i] == 0,
        i > 0 ==> b.d_idx[i] == b.d_idx[i - 1] + b.d_len[i - 1],
{
}

/// Two loaded documents never share a token slot: the earlier one ends
/// before, or where, the later one starts.
pub proof fn lemma_documents_disjoint(b: BufferView, i: int, j: int)
    requires
        b.wf(),
        0 <= i < j < b.n_docs,
    ensures
        b.d_idx[i] + b.d_len[i] <= b.d_idx[j],
{
    lemma_total_len_monotonic(b.d_len, i + 1, j);
}

/// The first `k` documents, one behind the other, are the word slots up to
/// the start of document `k`.
proof fn lemma_prefix_in_order(b: BufferView, k: int)
    requires
        b.wf(),
        0 <= k <= b.n_docs,
    ensures
        b.docs().take(k).flatten() == b.w.subrange(0, b.offset(k)),
    decreases k,
{
    lemma_total_len_monotonic(b.d_len, k, b.n_docs as int);
    if k == 0 {
        assert(b.docs().take(0) =~= Seq::<Seq<u32>>::empty());
        assert(b.docs().take(0).flatten() =~= b.w.subrange(0, 0));
    } else {
        lemma_prefix_in_order(b, k - 1);
        lemma_total_len_monotonic(b.d_len, 0, k - 1);
        let before = b.docs().take(k - 1);
        assert(b.docs().take(k) =~= before.push(b.doc(k - 1)));
        before.lemma_flatten_push(b.doc(k - 1));
        assert(before.flatten() + b.doc(k - 1) =~= b.w.subrange(0, b.offset(k)));
    }
}

/// The slots of `w` that are in use hold the loaded documents one behind
/// the other, in the order in which they were appended.
pub proof fn lemma_words_in_order(b: BufferView)
    requires
        b.wf(),
    ensures
        b.docs().flatten() == b.w.subrange(0, b.used()),
{
    lemma_prefix_in_order(b, b.n_docs as int);
    assert(b.docs().take(b.n_docs as int) =~= b.docs());
}

/// A document that does not fit into the free token slots, or that finds no
/// free record, is not accepted.
pub proof fn lemma_overflow_is_rejected(b: BufferView, len: nat)
    requires
        b.n_docs >= b.capacity || b.used() + len > b.capacity,
    ensures
        !b.accepts(len),
{
}

/// A buffer without slots holds no document and accepts none, not even an
/// empty one.
pub proof fn lemma_zero_capacity_accepts_nothing(b: BufferView, len: nat)
    requires
        b.wf(),
        b.capacity == 0,
    ensures
        b.n_docs == 0,
        b.used() == 0,
        !b.accepts(len),
{
}

/// Where the capacity itself fits in 32 bits, a free record and enough free
/// token slots are all that a document needs to be accepted.
pub proof fn lemma_accepts_within_32_bits(b: BufferView, len: nat)
    requires
        b.wf(),
        b.capacity <= u32::MAX,
    ensures
        b.accepts(len) <==> (b.n_docs < b.capacity && b.used() + len <= b.capacity),
{
    lemma_total_len_monotonic(b.d_len, 0, b.n_docs as int);
}

/// Rewriting topics and word ids in place, slot by slot, keeps the buffer
/// well formed and moves no document: each keeps its start and its length.
pub proof fn lemma_rewrite_keeps_layout(b: BufferView, z: Seq<u32>, w: Seq<u32>)
    requires
        b.wf(),
        z.len() == b.capacity,
        w.len() == b.capacity,
    ensures
        (BufferView { z, w, ..b }).wf(),
        (BufferView { z, w, ..b }).used() == b.used(),
        (BufferView { z, w, ..b }).docs().len() == b.docs().len(),
{
    let c = BufferView { z, w, ..b };
    assert forall|i: int| 0 <= i < c.n_docs implies #[trigger] c.d_idx[i] == c.offset(i) by {
        assert(b.d_idx[i] == b.offset(i));
    }
}

} // verus!
