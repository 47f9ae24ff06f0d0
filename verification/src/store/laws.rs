//! What holds of the store as a whole.

use crate::buf::bytes_content;
use crate::store::actor::{
    complete_ops, completed_entry, delete_one_ops, delete_ops, exceeded_ops, import_ops, is_io_of,
    listed, open_plan, or_default, spec_data_location, status_of, tags_listed, CompletedStorage,
    LocationView, MemOrFile, RedbActor,
};
use crate::store::entry::{DataLocation, EntryState, EntryStatus, OutboardLocation};
use crate::store::error::{ActorError, StoreError};
use crate::store::hash::{BlobFormat, BlobHash, HashAndFormat, Tag};
use crate::store::import::{data_placed, finalized, FinalizedImport, ImportFile};
use crate::store::options::data_file;
use crate::store::run::{request_ops, Request};
use crate::store::tables::{lemma_apply_all_concat, lemma_apply_one, row, TableOp, Tables};
use bytes::Bytes;
use vstd::prelude::*;

verus! {

/// The rows that come with a request are those of the tables, and imported files
/// of the user are named.
pub open spec fn reads_tables(req: Request, t: Tables) -> bool {
    match req {
        Request::ImportEntry { hash, data_location, entry, .. } => {
            &&& entry == row(t.blobs, hash)
            &&& data_location matches DataLocation::External(paths, _) ==> paths@.len() > 0
        },
        Request::OnInlineSizeExceeded { hash, entry } => entry == row(t.blobs, hash),
        _ => true,
    }
}

/// The tables after an import.
pub(crate) proof fn lemma_import(
    t: Tables,
    hash: BlobHash,
    data_location: DataLocation<Bytes, u64>,
    outboard_location: OutboardLocation<Bytes>,
)
    ensures
        ({
            let entry = row(t.blobs, hash);
            let after = t.apply_all(import_ops(hash, data_location, outboard_location, entry));
            let imported = EntryState::Complete {
                data_location: data_location.spec_discard_inline_data(),
                outboard_location: outboard_location.spec_discard_extra_data(),
            };
            &&& after.blobs == t.blobs.insert(hash, or_default(entry).spec_union(imported))
            &&& after.inline_data == (match data_location {
                DataLocation::Inline(data) => t.inline_data.insert(hash, bytes_content(data)),
                _ => t.inline_data,
            })
            &&& after.inline_outboard == (match outboard_location {
                OutboardLocation::Inline(ob) => t.inline_outboard.insert(hash, bytes_content(ob)),
                _ => t.inline_outboard,
            })
            &&& after.tags == t.tags
        }),
{
    let entry = row(t.blobs, hash);
    let ops = import_ops(hash, data_location, outboard_location, entry);
    let data = match data_location {
        DataLocation::Inline(data) => seq![TableOp::InsertInlineData(hash, data)],
        _ => Seq::empty(),
    };
    let outboard = match outboard_location {
        OutboardLocation::Inline(ob) => seq![TableOp::InsertInlineOutboard(hash, ob)],
        _ => Seq::empty(),
    };
    lemma_apply_all_concat(t, data, outboard);
    if let DataLocation::Inline(d) = data_location {
        lemma_apply_one(t, TableOp::InsertInlineData(hash, d));
    }
    if let OutboardLocation::Inline(ob) = outboard_location {
        lemma_apply_one(t.apply_all(data), TableOp::InsertInlineOutboard(hash, ob));
    }
    assert(ops.drop_last() =~= data + outboard);
}

/// The tables after an entry was completed.
pub(crate) proof fn lemma_complete(t: Tables, hash: BlobHash, done: CompletedStorage)
    ensures
        ({
            let after = t.apply_all(complete_ops(hash, done));
            &&& after.blobs == t.blobs.insert(hash, completed_entry(done))
            &&& after.inline_data == (match done.data {
                MemOrFile::Mem(data) => t.inline_data.insert(hash, bytes_content(data)),
                _ => t.inline_data,
            })
            &&& after.inline_outboard == (match done.outboard {
                MemOrFile::Mem(ob) => t.inline_outboard.insert(hash, bytes_content(ob)),
                _ => t.inline_outboard,
            })
            &&& after.tags == t.tags
        }),
{
    let blob = seq![TableOp::InsertBlob(hash, completed_entry(done))];
    let data = match done.data {
        MemOrFile::Mem(data) => seq![TableOp::InsertInlineData(hash, data)],
        _ => Seq::empty(),
    };
    let outboard = match done.outboard {
        MemOrFile::Mem(ob) => seq![TableOp::InsertInlineOutboard(hash, ob)],
        _ => Seq::empty(),
    };
    lemma_apply_one(t, TableOp::InsertBlob(hash, completed_entry(done)));
    lemma_apply_all_concat(t, blob, data);
    lemma_apply_all_concat(t, blob + data, outboard);
    if let MemOrFile::Mem(d) = done.data {
        lemma_apply_one(t.apply_all(blob), TableOp::InsertInlineData(hash, d));
    }
    if let MemOrFile::Mem(ob) = done.outboard {
        lemma_apply_one(t.apply_all(blob + data), TableOp::InsertInlineOutboard(hash, ob));
    }
}

/// The tables after one blob was deleted.
proof fn lemma_delete_one(t: Tables, hash: BlobHash, entry: Option<EntryState>)
    ensures
        ({
            let after = t.apply_all(delete_one_ops(hash, entry));
            let inline_data = entry matches Some(e) && e.spec_inline_data();
            let inline_outboard = entry matches Some(e) && e.spec_inline_outboard();
            &&& after.blobs == t.blobs.remove(hash)
            &&& after.inline_data == (if inline_data {
                t.inline_data.remove(hash)
            } else {
                t.inline_data
            })
            &&& after.inline_outboard == (if inline_outboard {
                t.inline_outboard.remove(hash)
            } else {
                t.inline_outboard
            })
            &&& after.tags == t.tags
        }),
{
    let blob = seq![TableOp::RemoveBlob(hash)];
    lemma_apply_one(t, TableOp::RemoveBlob(hash));
    if let Some(EntryState::Complete { data_location, outboard_location }) = entry {
        let data = if data_location is Inline {
            seq![TableOp::RemoveInlineData(hash)]
        } else {
            Seq::empty()
        };
        let outboard = if outboard_location is Inline {
            seq![TableOp::RemoveInlineOutboard(hash)]
        } else {
            Seq::empty()
        };
        lemma_apply_all_concat(t, blob, data);
        lemma_apply_all_concat(t, blob + data, outboard);
        lemma_apply_one(t.apply_all(blob), TableOp::RemoveInlineData(hash));
        lemma_apply_one(t.apply_all(blob + data), TableOp::RemoveInlineOutboard(hash));
    }
}

/// Deleting keeps the tables consistent.
proof fn lemma_delete_consistent(
    t: Tables,
    hashes: Seq<BlobHash>,
    entries: Seq<Option<EntryState>>,
)
    requires
        t.consistent(),
    ensures
        t.apply_all(delete_ops(hashes, entries)).consistent(),
    decreases hashes.len(),
{
    if hashes.len() > 0 {
        let n = hashes.len() - 1;
        lemma_delete_consistent(t, hashes.drop_last(), entries);
        let before = delete_ops(hashes.drop_last(), entries);
        lemma_apply_all_concat(t, before, delete_one_ops(hashes[n], entries[n]));
        lemma_delete_one(t.apply_all(before), hashes[n], entries[n]);
    }
}

/// Whatever is asked of the store, what the entries say of inlined data and
/// outboards stays true: where an entry is inlined, there is a row for it.
pub proof fn requests_keep_tables_consistent(actor: RedbActor, req: Request, t: Tables)
    requires
        t.consistent(),
        reads_tables(req, t),
    ensures
        t.apply_all(request_ops(actor, req)).consistent(),
{
    let ops = request_ops(actor, req);
    match req {
        Request::ImportEntry { hash, data_location, outboard_location, entry } => {
            lemma_import(t, hash, data_location, outboard_location);
        },
        Request::OnInlineSizeExceeded { hash, entry } => {
            lemma_apply_one(t, exceeded_ops(hash, entry)[0]);
            assert(exceeded_ops(hash, entry) =~= seq![exceeded_ops(hash, entry)[0]]);
        },
        Request::OnComplete { hash, done: Some(done) } => {
            lemma_complete(t, hash, done);
        },
        Request::Delete { hashes, entries } => {
            lemma_delete_consistent(t, hashes@, entries@);
        },
        Request::SetTag { tag, value: Some(content) } => {
            lemma_apply_one(t, TableOp::InsertTag(tag, content));
        },
        Request::SetTag { tag, value: None } => {
            lemma_apply_one(t, TableOp::RemoveTag(tag));
        },
        Request::CreateTag { candidate, content, .. } => {
            lemma_apply_one(t, TableOp::InsertTag(candidate, content));
        },
        _ => {},
    }
}

/// On consistent tables no entry is ever found to lack its inlined data or
/// outboard: a handle can be made for every one that is not in external files.
pub proof fn consistent_entries_can_be_opened(data_path: Seq<char>, t: Tables, hash: BlobHash)
    requires
        t.consistent(),
        t.blobs.dom().contains(hash),
        !t.blobs[hash].is_external(),
    ensures
        open_plan(
            data_path,
            hash,
            t.blobs[hash],
            row(t.inline_data, hash),
            row(t.inline_outboard, hash),
        ) is Ok,
{
}

/// Where the data of a blob is, by the tables.
pub open spec fn located(t: Tables, data_path: Seq<char>, hash: BlobHash) -> Option<LocationView> {
    spec_data_location(data_path, hash, row(t.blobs, hash), row(t.inline_data, hash))
}

/// What is imported is found again: after the import of a blob that was not
/// complete, its data is where the import put it, and the blob counts as
/// complete. A blob that was complete already stays where it was; if its data is
/// inlined, and so is that of the import, it is what was imported last.
pub proof fn imported_data_is_found(
    actor: RedbActor,
    t: Tables,
    hash: BlobHash,
    data_location: DataLocation<Bytes, u64>,
    outboard_location: OutboardLocation<Bytes>,
)
    ensures
        ({
            let data_path = actor.options.data_path@;
            let entry = row(t.blobs, hash);
            let after = t.apply_all(import_ops(hash, data_location, outboard_location, entry));
            &&& row(after.blobs, hash) matches Some(e) && e is Complete
            &&& actor.cached(hash) is None ==> status_of(actor, hash, row(after.blobs, hash))
                == EntryStatus::Complete
            &&& !(entry matches Some(EntryState::Complete { .. })) ==> located(
                after,
                data_path,
                hash,
            ) == (match data_location {
                DataLocation::Inline(data) => Some(
                    MemOrFile::<Seq<u8>, (Seq<char>, u64, bool)>::Mem(bytes_content(data)),
                ),
                DataLocation::Owned(size) => Some(
                    MemOrFile::File((data_file(data_path, hash), size, true)),
                ),
                DataLocation::External(paths, size) => Some(
                    MemOrFile::File((paths@[0]@, size, false)),
                ),
            })
            &&& entry matches Some(EntryState::Complete { data_location: kept, .. }) ==> {
                &&& row(after.blobs, hash) == entry
                &&& located(after, data_path, hash) == (match (kept, data_location) {
                    (DataLocation::Inline(_), DataLocation::Inline(data)) => Some(
                        MemOrFile::<Seq<u8>, (Seq<char>, u64, bool)>::Mem(bytes_content(data)),
                    ),
                    _ => located(t, data_path, hash),
                })
            }
        }),
{
    lemma_import(t, hash, data_location, outboard_location);
}

/// What an import reads is what is read back: after the import of a blob that
/// was not complete, small data is in the table byte by byte, and other data is
/// in the file of the user or in the file of its hash, with its size.
///
/// `f` is the plan of the import, and `location` the place of the data after it
/// was carried out; `read` is what was read on the way.
pub proof fn imported_content_is_read_back(
    actor: RedbActor,
    t: Tables,
    file: ImportFile,
    format: BlobFormat,
    content: Seq<u8>,
    f: FinalizedImport,
    read: Option<Bytes>,
    location: DataLocation<Bytes, u64>,
    outboard_location: OutboardLocation<Bytes>,
)
    requires
        content.len() <= u64::MAX,
        finalized(actor.options, file, format, content, f),
        data_placed(f.data, read, location),
        file matches ImportFile::Memory(data) ==> bytes_content(data) == content,
        f.data is ReadExternal || f.data is ReadAndRemove ==> read is Some && bytes_content(read->0)
            == content,
        !(row(t.blobs, f.content.hash) matches Some(EntryState::Complete { .. })),
    ensures
        ({
            let hash = f.content.hash;
            let data_path = actor.options.data_path@;
            let ops = import_ops(hash, location, outboard_location, row(t.blobs, hash));
            located(t.apply_all(ops), data_path, hash) == Some(
                if content.len() <= actor.options.max_data_inlined {
                    MemOrFile::<Seq<u8>, (Seq<char>, u64, bool)>::Mem(content)
                } else {
                    match file {
                        ImportFile::External(path) => MemOrFile::File(
                            (path@, content.len() as u64, false),
                        ),
                        _ => MemOrFile::File(
                            (data_file(data_path, hash), content.len() as u64, true),
                        ),
                    }
                },
            )
        }),
{
    imported_data_is_found(actor, t, f.content.hash, location, outboard_location);
}

/// What is completed is found again: its data is in the table or in the file of
/// its hash, and the blob counts as complete.
pub proof fn completed_data_is_found(
    actor: RedbActor,
    t: Tables,
    hash: BlobHash,
    done: CompletedStorage,
)
    ensures
        ({
            let data_path = actor.options.data_path@;
            let after = t.apply_all(complete_ops(hash, done));
            &&& located(after, data_path, hash) == (match done.data {
                MemOrFile::Mem(data) => Some(
                    MemOrFile::<Seq<u8>, (Seq<char>, u64, bool)>::Mem(bytes_content(data)),
                ),
                MemOrFile::File(size) => Some(
                    MemOrFile::File((data_file(data_path, hash), size, true)),
                ),
            })
            &&& actor.cached(hash) is None ==> status_of(actor, hash, row(after.blobs, hash))
                == EntryStatus::Complete
        }),
{
    lemma_complete(t, hash, done);
}

/// The rows that blobs have when they are deleted one after the other.
#[verifier::opaque]
pub open spec fn rows_to_delete(
    t: Tables,
    hashes: Seq<BlobHash>,
    entries: Seq<Option<EntryState>>,
) -> bool {
    &&& entries.len() == hashes.len()
    &&& forall|i: int|
        0 <= i < hashes.len() ==> #[trigger] entries[i] == row(
            t.apply_all(delete_ops(hashes.take(i), entries)).blobs,
            hashes[i],
        )
}

/// Only the first part of the list of rows matters to the first part of the list
/// of hashes.
proof fn lemma_delete_ops_prefix(
    hashes: Seq<BlobHash>,
    entries: Seq<Option<EntryState>>,
    longer: Seq<Option<EntryState>>,
)
    requires
        hashes.len() <= entries.len(),
        hashes.len() <= longer.len(),
        forall|i: int| 0 <= i < hashes.len() ==> entries[i] == longer[i],
    ensures
        delete_ops(hashes, entries) == delete_ops(hashes, longer),
    decreases hashes.len(),
{
    if hashes.len() > 0 {
        lemma_delete_ops_prefix(hashes.drop_last(), entries, longer);
    }
}

/// The rows of a shorter list of blobs.
proof fn lemma_rows_to_delete_prefix(
    t: Tables,
    hashes: Seq<BlobHash>,
    entries: Seq<Option<EntryState>>,
)
    requires
        rows_to_delete(t, hashes, entries),
        hashes.len() > 0,
    ensures
        rows_to_delete(t, hashes.drop_last(), entries.drop_last()),
        delete_ops(hashes.drop_last(), entries.drop_last()) == delete_ops(
            hashes.drop_last(),
            entries,
        ),
{
    reveal(rows_to_delete);
    let front = hashes.drop_last();
    let rows = entries.drop_last();
    assert forall|i: int| 0 <= i < front.len() implies #[trigger] rows[i] == row(
        t.apply_all(delete_ops(front.take(i), rows)).blobs,
        front[i],
    ) by {
        assert(front.take(i) =~= hashes.take(i));
        lemma_delete_ops_prefix(front.take(i), rows, entries);
        assert(entries[i] == row(
            t.apply_all(delete_ops(hashes.take(i), entries)).blobs,
            hashes[i],
        ));
    }
    lemma_delete_ops_prefix(front, rows, entries);
}

/// The rows of one hash after deleting.
pub open spec fn rows_after_delete(
    t: Tables,
    after: Tables,
    deleted: bool,
    hash: BlobHash,
) -> bool {
    if deleted {
        &&& row(after.blobs, hash) is None
        &&& row(t.blobs, hash) matches Some(e) ==> {
            &&& e.spec_inline_data() ==> row(after.inline_data, hash) is None
            &&& e.spec_inline_outboard() ==> row(after.inline_outboard, hash) is None
        }
    } else {
        &&& row(after.blobs, hash) == row(t.blobs, hash)
        &&& row(after.inline_data, hash) == row(t.inline_data, hash)
        &&& row(after.inline_outboard, hash) == row(t.inline_outboard, hash)
    }
}

/// The tables after blobs were deleted.
proof fn lemma_deleted(
    t: Tables,
    hashes: Seq<BlobHash>,
    entries: Seq<Option<EntryState>>,
    hash: BlobHash,
)
    requires
        rows_to_delete(t, hashes, entries),
    ensures
        t.apply_all(delete_ops(hashes, entries)).tags == t.tags,
        rows_after_delete(
            t,
            t.apply_all(delete_ops(hashes, entries)),
            hashes.contains(hash),
            hash,
        ),
    decreases hashes.len(),
{
    if hashes.len() > 0 {
        let n = hashes.len() - 1;
        let front = hashes.drop_last();
        lemma_rows_to_delete_prefix(t, hashes, entries);
        lemma_deleted(t, front, entries.drop_last(), hash);
        let before = delete_ops(front, entries);
        let mid = t.apply_all(before);
        lemma_apply_all_concat(t, before, delete_one_ops(hashes[n], entries[n]));
        lemma_delete_one(mid, hashes[n], entries[n]);
        assert(hashes.take(n) =~= front);
        assert(entries[n] == row(mid.blobs, hashes[n])) by {
            reveal(rows_to_delete);
        }
        assert(hashes.contains(hash) <==> front.contains(hash) || hashes[n] == hash) by {
            if front.contains(hash) {
                let i = choose|i: int| 0 <= i < front.len() && front[i] == hash;
                assert(hashes[i] == hash);
            }
            if hashes.contains(hash) && hashes[n] != hash {
                let i = choose|i: int| 0 <= i < hashes.len() && hashes[i] == hash;
                assert(front[i] == hash);
            }
        }
    }
}

/// What is deleted is gone: none of the blobs has an entry afterwards, nor an
/// inlined part if its entry was inlined. Other blobs, and all tags, stay as
/// they are.
pub proof fn deleted_blobs_are_gone(
    actor: RedbActor,
    t: Tables,
    hashes: Seq<BlobHash>,
    entries: Seq<Option<EntryState>>,
    hash: BlobHash,
)
    requires
        rows_to_delete(t, hashes, entries),
    ensures
        ({
            let after = t.apply_all(delete_ops(hashes, entries));
            &&& after.tags == t.tags
            &&& rows_after_delete(t, after, hashes.contains(hash), hash)
            &&& hashes.contains(hash) ==> {
                &&& located(after, actor.options.data_path@, hash) is None
                &&& actor.cached(hash) is None ==> status_of(
                    actor,
                    hash,
                    row(after.blobs, hash),
                ) == EntryStatus::NotFound
            }
        }),
{
    lemma_deleted(t, hashes, entries, hash);
}

/// A tag that is set is there with its content, one that is removed is not, and
/// no other tag changes.
pub proof fn set_tag_changes_one_tag(
    actor: RedbActor,
    t: Tables,
    tag: Tag,
    value: Option<HashAndFormat>,
    other: Seq<u8>,
)
    ensures
        ({
            let after = t.apply_all(request_ops(actor, Request::SetTag { tag, value }));
            &&& row(after.tags, tag@) == value
            &&& other != tag@ ==> row(after.tags, other) == row(t.tags, other)
            &&& after.blobs == t.blobs
        }),
{
    match value {
        Some(content) => {
            lemma_apply_one(t, TableOp::InsertTag(tag, content));
        },
        None => {
            lemma_apply_one(t, TableOp::RemoveTag(tag));
        },
    }
}

/// Creating a tag never changes what another one stands for: every tag that was
/// there before stands for the same content.
pub proof fn created_tags_are_new(
    actor: RedbActor,
    t: Tables,
    candidate: Tag,
    content: HashAndFormat,
    other: Seq<u8>,
)
    requires
        t.tags.dom().contains(other),
    ensures
        ({
            let taken = t.tags.dom().contains(candidate@);
            let after = t.apply_all(
                request_ops(actor, Request::CreateTag { candidate, taken, content }),
            );
            &&& row(after.tags, other) == row(t.tags, other)
            &&& !taken ==> row(after.tags, candidate@) == Some(content)
        }),
{
    lemma_apply_one(t, TableOp::InsertTag(candidate, content));
}

/// Every entry is listed either as complete or as partial.
pub proof fn listings_cover_all_entries(
    rows: Seq<Result<(BlobHash, EntryState), ActorError>>,
    complete: Seq<Result<BlobHash, StoreError>>,
    partial: Seq<Result<BlobHash, StoreError>>,
)
    requires
        listed(rows, true, complete),
        listed(rows, false, partial),
        forall|i: int| 0 <= i < rows.len() ==> #[trigger] rows[i] is Ok,
    ensures
        complete.len() + partial.len() == rows.len(),
        forall|i: int|
            0 <= i < rows.len() ==> {
                let found = if (#[trigger] rows[i])->Ok_0.1 is Complete {
                    complete
                } else {
                    partial
                };
                found.contains(Ok::<BlobHash, StoreError>(rows[i]->Ok_0.0))
            },
    decreases rows.len(),
{
    if rows.len() > 0 {
        let last = rows.last();
        assert(last == rows[rows.len() - 1]);
        let front = rows.drop_last();
        assert forall|i: int| 0 <= i < front.len() implies #[trigger] front[i] is Ok by {
            assert(front[i] == rows[i]);
        }
        let is_complete = last->Ok_0.1 is Complete;
        let (c, p) = if is_complete {
            (complete.drop_last(), partial)
        } else {
            (complete, partial.drop_last())
        };
        listings_cover_all_entries(front, c, p);
        assert forall|i: int| 0 <= i < rows.len() implies ({
            let found = if (#[trigger] rows[i])->Ok_0.1 is Complete {
                complete
            } else {
                partial
            };
            found.contains(Ok::<BlobHash, StoreError>(rows[i]->Ok_0.0))
        }) by {
            let h = Ok::<BlobHash, StoreError>(rows[i]->Ok_0.0);
            let found = if rows[i]->Ok_0.1 is Complete {
                complete
            } else {
                partial
            };
            if i < front.len() {
                assert(front[i] == rows[i]);
                let part = if rows[i]->Ok_0.1 is Complete {
                    c
                } else {
                    p
                };
                assert(part.contains(h));
                let k = choose|k: int| 0 <= k < part.len() && part[k] == h;
                assert(found[k] == h);
            } else {
                assert(found[found.len() - 1] == h);
            }
        }
    }
}

/// A listing holds nothing but what was asked for: each hash that it names is that
/// of a row of the right kind, and a row of the other kind adds nothing.
pub proof fn listings_hold_only_what_was_asked_for(
    rows: Seq<Result<(BlobHash, EntryState), ActorError>>,
    complete: bool,
    r: Seq<Result<BlobHash, StoreError>>,
    k: int,
)
    requires
        listed(rows, complete, r),
        0 <= k < r.len(),
    ensures
        r.len() <= rows.len(),
        exists|i: int|
            0 <= i < rows.len() && match #[trigger] rows[i] {
                Ok((hash, entry)) => r[k] == Ok::<BlobHash, StoreError>(hash) && (entry is Complete
                    <==> complete),
                Err(_) => r[k] is Err,
            },
    decreases rows.len(),
{
    let front = rows.drop_last();
    let n = rows.len() - 1;
    let last = rows.last();
    assert(last == rows[n]);
    let adds = match last {
        Ok((_, entry)) => (entry is Complete) == complete,
        Err(_) => true,
    };
    let before = if adds {
        r.drop_last()
    } else {
        r
    };
    lemma_listed_len(front, complete, before);
    if adds && k == r.len() - 1 {
        assert(r[k] == r.last());
    } else {
        listings_hold_only_what_was_asked_for(front, complete, before, k);
        let i = choose|i: int|
            0 <= i < front.len() && match #[trigger] front[i] {
                Ok((hash, entry)) => before[k] == Ok::<BlobHash, StoreError>(hash) && (
                entry is Complete <==> complete),
                Err(_) => before[k] is Err,
            };
        assert(rows[i] == front[i]);
        assert(r[k] == before[k]);
    }
}

/// A listing is no longer than what is listed.
proof fn lemma_listed_len(
    rows: Seq<Result<(BlobHash, EntryState), ActorError>>,
    complete: bool,
    r: Seq<Result<BlobHash, StoreError>>,
)
    requires
        listed(rows, complete, r),
    ensures
        r.len() <= rows.len(),
    decreases rows.len(),
{
    if rows.len() > 0 {
        let adds = match rows.last() {
            Ok((_, entry)) => (entry is Complete) == complete,
            Err(_) => true,
        };
        lemma_listed_len(
            rows.drop_last(),
            complete,
            if adds {
                r.drop_last()
            } else {
                r
            },
        );
    }
}

/// A listing keeps the order: what two lists of rows come to, one after the other,
/// is what the rows together come to.
pub proof fn listings_keep_the_order(
    a: Seq<Result<(BlobHash, EntryState), ActorError>>,
    b: Seq<Result<(BlobHash, EntryState), ActorError>>,
    complete: bool,
    ra: Seq<Result<BlobHash, StoreError>>,
    rb: Seq<Result<BlobHash, StoreError>>,
)
    requires
        listed(a, complete, ra),
        listed(b, complete, rb),
    ensures
        listed(a + b, complete, ra + rb),
    decreases b.len(),
{
    if b.len() == 0 {
        assert(a + b =~= a);
        assert(ra + rb =~= ra);
    } else {
        let adds = match b.last() {
            Ok((_, entry)) => (entry is Complete) == complete,
            Err(_) => true,
        };
        assert((a + b).drop_last() =~= a + b.drop_last());
        assert((a + b).last() == b.last());
        if adds {
            listings_keep_the_order(a, b.drop_last(), complete, ra, rb.drop_last());
            assert((ra + rb).drop_last() =~= ra + rb.drop_last());
            assert((ra + rb).last() == rb.last());
        } else {
            listings_keep_the_order(a, b.drop_last(), complete, ra, rb);
        }
    }
}

/// All tags are listed, each as it is and in order, and nothing else.
pub proof fn all_tags_are_listed(
    tags: Seq<(Tag, HashAndFormat)>,
    r: Seq<Result<(Tag, HashAndFormat), StoreError>>,
)
    requires
        tags_listed(
            tags.map_values(|t: (Tag, HashAndFormat)| Ok::<(Tag, HashAndFormat), ActorError>(t)),
            r,
        ),
    ensures
        r == tags.map_values(|t: (Tag, HashAndFormat)| Ok::<(Tag, HashAndFormat), StoreError>(t)),
{
    let rows = tags.map_values(
        |t: (Tag, HashAndFormat)| Ok::<(Tag, HashAndFormat), ActorError>(t),
    );
    let expected = tags.map_values(
        |t: (Tag, HashAndFormat)| Ok::<(Tag, HashAndFormat), StoreError>(t),
    );
    assert forall|i: int| 0 <= i < r.len() implies r[i] == expected[i] by {
        assert(rows[i] == Ok::<(Tag, HashAndFormat), ActorError>(tags[i]));
    }
    assert(r =~= expected);
}

/// An error of a file stays what it is on its way through the actor, and any other
/// one is told in its words.
pub proof fn file_errors_stay_what_they_are(
    e: ActorError,
    io: StoreError,
    r: Result<BlobHash, StoreError>,
)
    requires
        is_io_of(e, r),
    ensures
        r is Err,
        e == ActorError::Io(io) ==> r == Err::<BlobHash, _>(io),
        !(e is Io) ==> (r matches Err(StoreError::Other(text)) && text@ == e.spec_text()),
{
}

/// A partial entry, and one that is not there, has no data anywhere.
pub proof fn only_complete_entries_are_located(t: Tables, data_path: Seq<char>, hash: BlobHash)
    requires
        t.consistent(),
    ensures
        located(t, data_path, hash) is Some <==> (row(t.blobs, hash) matches Some(
            EntryState::Complete { .. },
        )),
{
}

/// Every complete row is listed among the complete ones, also where some other row
/// could not be read.
pub proof fn complete_rows_are_listed(
    rows: Seq<Result<(BlobHash, EntryState), ActorError>>,
    complete: Seq<Result<BlobHash, StoreError>>,
    i: int,
)
    requires
        listed(rows, true, complete),
        0 <= i < rows.len(),
        rows[i] matches Ok((_, entry)) && entry is Complete,
    ensures
        complete.contains(Ok::<BlobHash, StoreError>(rows[i]->Ok_0.0)),
    decreases rows.len(),
{
    let named = Ok::<BlobHash, StoreError>(rows[i]->Ok_0.0);
    let adds = match rows.last() {
        Ok((_, entry)) => entry is Complete,
        Err(_) => true,
    };
    if i == rows.len() - 1 {
        assert(rows.last() == rows[i]);
        assert(complete[complete.len() - 1] == named);
    } else {
        let before = if adds {
            complete.drop_last()
        } else {
            complete
        };
        assert(rows.drop_last()[i] == rows[i]);
        complete_rows_are_listed(rows.drop_last(), before, i);
        let k = choose|k: int| 0 <= k < before.len() && before[k] == named;
        assert(complete[k] == named);
    }
}

/// A row that cannot be read is told as an error in every listing.
pub proof fn unreadable_rows_are_told(
    rows: Seq<Result<(BlobHash, EntryState), ActorError>>,
    complete: bool,
    r: Seq<Result<BlobHash, StoreError>>,
    i: int,
    io: StoreError,
)
    requires
        listed(rows, complete, r),
        0 <= i < rows.len(),
        rows[i] == Err::<(BlobHash, EntryState), _>(ActorError::Io(io)),
    ensures
        r.contains(Err::<BlobHash, StoreError>(io)),
    decreases rows.len(),
{
    let told = Err::<BlobHash, StoreError>(io);
    let adds = match rows.last() {
        Ok((_, entry)) => (entry is Complete) == complete,
        Err(_) => true,
    };
    if i == rows.len() - 1 {
        assert(rows.last() == rows[i]);
        assert(r[r.len() - 1] == told);
    } else {
        let before = if adds {
            r.drop_last()
        } else {
            r
        };
        assert(rows.drop_last()[i] == rows[i]);
        unreadable_rows_are_told(rows.drop_last(), complete, before, i, io);
        let k = choose|k: int| 0 <= k < before.len() && before[k] == told;
        assert(r[k] == told);
    }
}

} // verus!
