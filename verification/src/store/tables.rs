//! The tables of the store, and how they change.
//!
//! The database has four tables: the entries, the inlined data, the inlined
//! outboards and the tags. [`Tables`] is what they hold; a [`TableOp`] is one
//! change of one row.

use crate::buf::bytes_content;
use crate::store::entry::EntryState;
use crate::store::hash::{BlobHash, HashAndFormat, Tag};
use bytes::Bytes;
use vstd::prelude::*;

verus! {

/// A change of one row.
#[derive(Debug)]
pub enum TableOp {
    InsertBlob(BlobHash, EntryState),
    RemoveBlob(BlobHash),
    InsertInlineData(BlobHash, Bytes),
    RemoveInlineData(BlobHash),
    InsertInlineOutboard(BlobHash, Bytes),
    RemoveInlineOutboard(BlobHash),
    InsertTag(Tag, HashAndFormat),
    RemoveTag(Tag),
}

/// What the tables hold.
#[verifier::ext_equal]
pub struct Tables {
    pub blobs: Map<BlobHash, EntryState>,
    pub inline_data: Map<BlobHash, Seq<u8>>,
    pub inline_outboard: Map<BlobHash, Seq<u8>>,
    pub tags: Map<Seq<u8>, HashAndFormat>,
}

/// The row of a key, if it has one.
pub open spec fn row<K, V>(m: Map<K, V>, k: K) -> Option<V> {
    if m.dom().contains(k) {
        Some(m[k])
    } else {
        None
    }
}

impl Tables {
    /// The tables after one change.
    pub open spec fn apply(self, op: TableOp) -> Tables {
        match op {
            TableOp::InsertBlob(h, e) => Tables { blobs: self.blobs.insert(h, e), ..self },
            TableOp::RemoveBlob(h) => Tables { blobs: self.blobs.remove(h), ..self },
            TableOp::InsertInlineData(h, d) => Tables {
                inline_data: self.inline_data.insert(h, bytes_content(d)),
                ..self
            },
            TableOp::RemoveInlineData(h) => Tables {
                inline_data: self.inline_data.remove(h),
                ..self
            },
            TableOp::InsertInlineOutboard(h, d) => Tables {
                inline_outboard: self.inline_outboard.insert(h, bytes_content(d)),
                ..self
            },
            TableOp::RemoveInlineOutboard(h) => Tables {
                inline_outboard: self.inline_outboard.remove(h),
                ..self
            },
            TableOp::InsertTag(t, c) => Tables { tags: self.tags.insert(t@, c), ..self },
            TableOp::RemoveTag(t) => Tables { tags: self.tags.remove(t@), ..self },
        }
    }

    /// The tables after a list of changes, in order.
    pub open spec fn apply_all(self, ops: Seq<TableOp>) -> Tables
        decreases ops.len(),
    {
        if ops.len() == 0 {
            self
        } else {
            self.apply_all(ops.drop_last()).apply(ops.last())
        }
    }

    /// What the entries say of inlined data and outboards is true: where an entry
    /// is inlined there is a row for it.
    pub open spec fn consistent(self) -> bool {
        &&& forall|h: BlobHash| #[trigger]
            self.blobs.dom().contains(h) && self.blobs[h].spec_inline_data()
                ==> self.inline_data.dom().contains(h)
        &&& forall|h: BlobHash| #[trigger]
            self.blobs.dom().contains(h) && self.blobs[h].spec_inline_outboard()
                ==> self.inline_outboard.dom().contains(h)
        &&& forall|h: BlobHash| #[trigger] self.blobs.dom().contains(h) ==> self.blobs[h].wf()
    }
}

/// Changes that are made one after the other come to the same as all of them.
pub proof fn lemma_apply_all_concat(t: Tables, a: Seq<TableOp>, b: Seq<TableOp>)
    ensures
        t.apply_all(a + b) == t.apply_all(a).apply_all(b),
    decreases b.len(),
{
    if b.len() == 0 {
        assert(a + b =~= a);
    } else {
        assert((a + b).drop_last() =~= a + b.drop_last());
        lemma_apply_all_concat(t, a, b.drop_last());
    }
}

/// One change.
pub proof fn lemma_apply_one(t: Tables, op: TableOp)
    ensures
        t.apply_all(seq![op]) == t.apply(op),
{
    assert(seq![op].drop_last() =~= Seq::empty());
    assert(t.apply_all(seq![op].drop_last()) == t);
}

} // verus!
