//! The active documents of a renderer: at most one frame per document,
//! drawn in the order of their layers.

use vstd::prelude::*;
use crate::api::{DocumentId, DocumentLayer};
use crate::internal_types::RenderedDocument;
use crate::tiling::{Frame, RenderPassKind, RenderTarget};

verus! {

/// A document with its name.
pub type ActiveDocument = (DocumentId, RenderedDocument);

/// The position of the first document named `id` at or after `start`, or
/// the number of documents when there is none.
pub open spec fn find_document(docs: Seq<ActiveDocument>, id: DocumentId, start: int) -> int
    decreases docs.len() - start,
{
    if start >= docs.len() {
        docs.len() as int
    } else if docs[start].0 == id {
        start
    } else {
        find_document(docs, id, start + 1)
    }
}

/// No two documents have the same name.
pub open spec fn ids_unique(docs: Seq<ActiveDocument>) -> bool {
    forall|i: int, j: int|
        0 <= i < docs.len() && 0 <= j < docs.len() && (#[trigger] docs[i]).0 == (
        #[trigger] docs[j]).0 ==> i == j
}

/// The first document named `id` at or after `start` lies between `start`
/// and the number of documents; if it is a document, it has the name and
/// none between `start` and it has; if it is not, none from `start` on has.
pub proof fn lemma_find_document(docs: Seq<ActiveDocument>, id: DocumentId, start: int)
    requires
        0 <= start <= docs.len(),
    ensures
        start <= find_document(docs, id, start) <= docs.len(),
        find_document(docs, id, start) < docs.len() ==> docs[find_document(docs, id, start)].0 == id,
        forall|j: int| start <= j < find_document(docs, id, start) ==> (#[trigger] docs[j]).0 != id,
    decreases docs.len() - start,
{
    if start < docs.len() && docs[start].0 != id {
        lemma_find_document(docs, id, start + 1);
    }
}

/// The position of the document named `id`, if there is one.
pub fn position_of(docs: &Vec<ActiveDocument>, id: DocumentId) -> (pos: Option<usize>)
    ensures
        match pos {
            Some(p) => p == find_document(docs@, id, 0) && p < docs@.len() && docs@[p as int].0
                == id,
            None => find_document(docs@, id, 0) == docs@.len() && forall|j: int|
                0 <= j < docs@.len() ==> (#[trigger] docs@[j]).0 != id,
        },
{
    proof {
        lemma_find_document(docs@, id, 0);
    }
    let mut i: usize = 0;
    while i < docs.len()
        invariant
            i <= docs@.len(),
            find_document(docs@, id, 0) == find_document(docs@, id, i as int),
        decreases docs@.len() - i,
    {
        if docs[i].0 == id {
            return Some(i);
        }
        i += 1;
    }
    None
}

/// The document draws to the window with the depth buffer: its last pass
/// is the window, and the window's target has opaque batches.
pub open spec fn needs_window_depth(frame: Frame) -> bool {
    frame.passes@.len() > 0 && match frame.passes@.last().kind {
        RenderPassKind::MainFramebuffer(target) => target.spec_needs_depth(),
        RenderPassKind::OffScreen { .. } => false,
    }
}

/// Whether the document draws to the window with the depth buffer.
pub fn check_needs_window_depth(frame: &Frame) -> (b: bool)
    ensures
        b == needs_window_depth(*frame),
{
    if frame.passes.len() == 0 {
        return false;
    }
    match &frame.passes[frame.passes.len() - 1].kind {
        RenderPassKind::MainFramebuffer(target) => target.needs_depth(),
        RenderPassKind::OffScreen { .. } => false,
    }
}

/// Two different documents that both use the depth buffer of the window
/// intersect on it.
pub open spec fn documents_intersect(docs: Seq<ActiveDocument>) -> bool {
    exists|i: int, j: int|
        0 <= i < j < docs.len() && needs_window_depth((#[trigger] docs[i]).1.frame)
            && needs_window_depth((#[trigger] docs[j]).1.frame)
            && docs[i].1.frame.inner_rect.intersects_spec(docs[j].1.frame.inner_rect)
}

/// Whether two of the documents that use the depth buffer of the window
/// overlap on it. If none do, the depth buffer can be cleared once for all
/// of them; otherwise each document clears its own part.
pub fn are_documents_intersecting_depth(docs: &Vec<ActiveDocument>) -> (b: bool)
    ensures
        b == documents_intersect(docs@),
{
    let mut i: usize = 0;
    while i < docs.len()
        invariant
            i <= docs@.len(),
            forall|a: int, b: int|
                0 <= a < i && a < b < docs@.len() ==> !(needs_window_depth(
                    (#[trigger] docs@[a]).1.frame,
                ) && needs_window_depth((#[trigger] docs@[b]).1.frame)
                    && docs@[a].1.frame.inner_rect.intersects_spec(docs@[b].1.frame.inner_rect)),
        decreases docs@.len() - i,
    {
        if check_needs_window_depth(&docs[i].1.frame) {
            let rect = docs[i].1.frame.inner_rect;
            let mut j: usize = i + 1;
            while j < docs.len()
                invariant
                    i < j <= docs@.len(),
                    rect == docs@[i as int].1.frame.inner_rect,
                    needs_window_depth(docs@[i as int].1.frame),
                    forall|b: int|
                        i < b < j ==> !(needs_window_depth((#[trigger] docs@[b]).1.frame)
                            && rect.intersects_spec(docs@[b].1.frame.inner_rect)),
                decreases docs@.len() - j,
            {
                if check_needs_window_depth(&docs[j].1.frame) && rect.overlaps(
                    &docs[j].1.frame.inner_rect,
                ) {
                    assert(needs_window_depth(docs@[i as int].1.frame) && needs_window_depth(
                        docs@[j as int].1.frame,
                    ) && docs@[i as int].1.frame.inner_rect.intersects_spec(
                        docs@[j as int].1.frame.inner_rect,
                    ));
                    return true;
                }
                j += 1;
            }
        }
        i += 1;
    }
    false
}

/// The number of leading documents of `docs` whose layer is at most
/// `layer`, looking from `start` on in a sequence sorted by layer: the
/// place where a document of that layer goes to keep the sequence sorted,
/// behind the documents of its own layer.
pub open spec fn insert_position(docs: Seq<ActiveDocument>, layer: DocumentLayer, start: int) -> int
    decreases docs.len() - start,
{
    if start >= docs.len() {
        docs.len() as int
    } else if docs[start].1.frame.layer > layer {
        start
    } else {
        insert_position(docs, layer, start + 1)
    }
}

/// The first `n` documents of `docs` in the order of their layers; documents
/// of one layer stay in the order that they have in `docs`.
pub open spec fn sorted_by_layer(docs: Seq<ActiveDocument>, n: nat) -> Seq<ActiveDocument>
    decreases n,
{
    if n == 0 {
        Seq::empty()
    } else {
        let before = sorted_by_layer(docs, (n - 1) as nat);
        before.insert(insert_position(before, docs[n - 1].1.frame.layer, 0), docs[n - 1])
    }
}

/// The layers of `docs` never decrease.
pub open spec fn layers_ascend(docs: Seq<ActiveDocument>) -> bool {
    forall|i: int, j: int|
        0 <= i <= j < docs.len() ==> (#[trigger] docs[i]).1.frame.layer <= (
        #[trigger] docs[j]).1.frame.layer
}

/// The insert position lies between `start` and the number of documents;
/// the documents between `start` and it have at most the layer, and the
/// document at it, if there is one, has a greater one.
pub proof fn lemma_insert_position(docs: Seq<ActiveDocument>, layer: DocumentLayer, start: int)
    requires
        0 <= start <= docs.len(),
    ensures
        start <= insert_position(docs, layer, start) <= docs.len(),
        forall|j: int|
            start <= j < insert_position(docs, layer, start) ==> (#[trigger] docs[j]).1.frame.layer
                <= layer,
        insert_position(docs, layer, start) < docs.len() ==> docs[insert_position(
            docs,
            layer,
            start,
        )].1.frame.layer > layer,
    decreases docs.len() - start,
{
    if start < docs.len() && docs[start].1.frame.layer <= layer {
        lemma_insert_position(docs, layer, start + 1);
    }
}

/// Sorting by layer keeps every document, loses none and adds none, and
/// the result is in the order of the layers.
pub proof fn lemma_sorted_by_layer(docs: Seq<ActiveDocument>, n: nat)
    requires
        n <= docs.len(),
    ensures
        sorted_by_layer(docs, n).len() == n,
        layers_ascend(sorted_by_layer(docs, n)),
        sorted_by_layer(docs, n).to_multiset() == docs.subrange(0, n as int).to_multiset(),
    decreases n,
{
    if n == 0 {
        assert(docs.subrange(0, 0) =~= Seq::<ActiveDocument>::empty());
    } else {
        lemma_sorted_by_layer(docs, (n - 1) as nat);
        let before = sorted_by_layer(docs, (n - 1) as nat);
        let doc = docs[n - 1];
        let pos = insert_position(before, doc.1.frame.layer, 0);
        lemma_insert_position(before, doc.1.frame.layer, 0);
        let after = before.insert(pos, doc);
        assert forall|i: int, j: int| 0 <= i <= j < after.len() implies (#[trigger] after[i]).1.frame.layer
            <= (#[trigger] after[j]).1.frame.layer by {
            if i < pos && j > pos {
                assert(before[i].1.frame.layer <= doc.1.frame.layer);
                assert(before[pos].1.frame.layer <= before[j - 1].1.frame.layer);
            } else if i < pos && j < pos {
                assert(before[i].1.frame.layer <= before[j].1.frame.layer);
            } else if i > pos {
                assert(before[i - 1].1.frame.layer <= before[j - 1].1.frame.layer);
            } else if i == pos && j > pos {
                assert(before[pos].1.frame.layer <= before[j - 1].1.frame.layer);
            }
        }
        assert(docs.subrange(0, n as int) =~= docs.subrange(0, n - 1).push(doc));
        vstd::seq_lib::to_multiset_insert(before, pos, doc);
        vstd::seq_lib::to_multiset_build(docs.subrange(0, n - 1), doc);
    }
}

/// Brings the documents into the order of their layers; documents of one
/// layer keep their order.
pub fn sort_by_layer(docs: &mut Vec<ActiveDocument>)
    ensures
        final(docs)@ == sorted_by_layer(old(docs)@, old(docs)@.len()),
{
    let mut sorted: Vec<ActiveDocument> = Vec::new();
    let mut rest: Vec<ActiveDocument> = Vec::new();
    std::mem::swap(docs, &mut rest);
    let ghost all = rest@;
    let mut n: usize = 0;
    let count = rest.len();
    while rest.len() > 0
        invariant
            n + rest@.len() == count,
            count == all.len(),
            rest@ == all.subrange(n as int, count as int),
            sorted@ == sorted_by_layer(all, n as nat),
        decreases rest@.len(),
    {
        let doc = rest.remove(0);
        assert(doc == all[n as int]);
        let layer = doc.1.frame.layer;
        let mut pos: usize = 0;
        proof {
            lemma_sorted_by_layer(all, n as nat);
        }
        while pos < sorted.len() && sorted[pos].1.frame.layer <= layer
            invariant
                pos <= sorted@.len(),
                insert_position(sorted@, layer, 0) == insert_position(sorted@, layer, pos as int),
            decreases sorted@.len() - pos,
        {
            pos += 1;
        }
        sorted.insert(pos, doc);
        n += 1;
        assert(rest@ =~= all.subrange(n as int, count as int));
    }
    *docs = sorted;
}


/// Every one of the first `n` documents is somewhere in the sorted
/// sequence.
pub proof fn lemma_sorted_keeps(docs: Seq<ActiveDocument>, n: nat, i: int)
    requires
        n <= docs.len(),
        0 <= i < n,
    ensures
        exists|k: int| 0 <= k < sorted_by_layer(docs, n).len() && #[trigger] sorted_by_layer(
            docs,
            n,
        )[k] == docs[i],
    decreases n,
{
    let before = sorted_by_layer(docs, (n - 1) as nat);
    let doc = docs[n - 1];
    let pos = insert_position(before, doc.1.frame.layer, 0);
    lemma_insert_position(before, doc.1.frame.layer, 0);
    let after = sorted_by_layer(docs, n);
    if i < n - 1 {
        lemma_sorted_keeps(docs, (n - 1) as nat, i);
        let k = choose|k: int| 0 <= k < before.len() && #[trigger] before[k] == docs[i];
        if k < pos {
            assert(after[k] == docs[i]);
        } else {
            assert(after[k + 1] == docs[i]);
        }
    } else {
        assert(after[pos] == docs[i]);
    }
}

/// Every document of the sorted sequence is one of the first `n`.
pub proof fn lemma_sorted_from(docs: Seq<ActiveDocument>, n: nat, k: int)
    requires
        n <= docs.len(),
        0 <= k < sorted_by_layer(docs, n).len(),
    ensures
        exists|i: int| 0 <= i < n && sorted_by_layer(docs, n)[k] == #[trigger] docs[i],
    decreases n,
{
    if n > 0 {
        let before = sorted_by_layer(docs, (n - 1) as nat);
        let doc = docs[n - 1];
        let pos = insert_position(before, doc.1.frame.layer, 0);
        lemma_insert_position(before, doc.1.frame.layer, 0);
        lemma_sorted_by_layer(docs, (n - 1) as nat);
        if k < pos {
            lemma_sorted_from(docs, (n - 1) as nat, k);
            let i = choose|i: int| 0 <= i < n - 1 && before[k] == #[trigger] docs[i];
            assert(sorted_by_layer(docs, n)[k] == docs[i]);
        } else if k == pos {
            assert(sorted_by_layer(docs, n)[k] == docs[n - 1]);
        } else {
            lemma_sorted_from(docs, (n - 1) as nat, k - 1);
            let i = choose|i: int| 0 <= i < n - 1 && before[k - 1] == #[trigger] docs[i];
            assert(sorted_by_layer(docs, n)[k] == docs[i]);
        }
    }
}

/// Sorting documents with different names leaves them with different
/// names.
pub proof fn lemma_sorted_unique(docs: Seq<ActiveDocument>, n: nat)
    requires
        n <= docs.len(),
        ids_unique(docs),
    ensures
        ids_unique(sorted_by_layer(docs, n)),
    decreases n,
{
    if n > 0 {
        lemma_sorted_unique(docs, (n - 1) as nat);
        lemma_sorted_by_layer(docs, (n - 1) as nat);
        let before = sorted_by_layer(docs, (n - 1) as nat);
        let doc = docs[n - 1];
        let pos = insert_position(before, doc.1.frame.layer, 0);
        lemma_insert_position(before, doc.1.frame.layer, 0);
        let after = sorted_by_layer(docs, n);
        assert forall|i: int, j: int|
            0 <= i < after.len() && 0 <= j < after.len() && (#[trigger] after[i]).0 == (
            #[trigger] after[j]).0 implies i == j by {
            let bi = if i < pos {
                i
            } else {
                i - 1
            };
            let bj = if j < pos {
                j
            } else {
                j - 1
            };
            if i != pos && j != pos {
                assert(after[i] == before[bi]);
                assert(after[j] == before[bj]);
            } else if i == pos && j != pos {
                assert(after[j] == before[bj]);
                lemma_sorted_from(docs, (n - 1) as nat, bj);
                let m = choose|m: int| 0 <= m < n - 1 && before[bj] == #[trigger] docs[m];
                assert(docs[m].0 == docs[n - 1].0);
            } else if j == pos && i != pos {
                assert(after[i] == before[bi]);
                lemma_sorted_from(docs, (n - 1) as nat, bi);
                let m = choose|m: int| 0 <= m < n - 1 && before[bi] == #[trigger] docs[m];
                assert(docs[m].0 == docs[n - 1].0);
            }
        }
    }
}

} // verus!
