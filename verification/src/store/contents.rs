//! What holds of the bytes of blobs: what goes into the store comes out of it
//! again, through the tables and through the files.

use crate::buf::bytes_content;
use crate::store::actor::{
    delete_files, listed, lookup, open_plan, row_content, source_size, status_of, CachedHandle,
    CompletedStorage, GetStep, GetStepView, HandlePlan, HandlePlanView, LocationView, MemOrFile,
    RedbActor, Rows, SourceView,
};
use crate::store::complete::{completion, part_result, CompletePlan, PartPlan, Storage};
use crate::store::entry::{DataLocation, EntryState, EntryStatus, OutboardLocation};
use crate::store::error::{ActorError, StoreError};
use crate::store::hash::{BlobFormat, BlobHash, HashAndFormat, Tag};
use crate::store::import::{
    data_placed, finalized, outboard_placed, DataPlan, FinalizedImport, ImportFile, OutboardPlan,
};
use crate::store::laws::{completed_data_is_found, imported_data_is_found, located};
use crate::store::options::{data_file, files_are_distinct, outboard_file};
use crate::store::outboard::{computed, spec_raw_outboard_size};
use crate::store::run::{
    request_files, request_handles, request_ops, request_reply, request_stops, Reply, Request,
};
use crate::store::tables::{row, Tables};
use bytes::Bytes;
use vstd::prelude::*;

verus! {

/// What the files hold, by their paths.
pub type Files = Map<Seq<char>, Seq<u8>>;

/// The files after a plan for data was carried out.
pub open spec fn data_carried_out(files: Files, plan: DataPlan) -> Files {
    match plan {
        DataPlan::Inline(_) | DataPlan::ReadExternal { .. } | DataPlan::Reference { .. } => files,
        DataPlan::ReadAndRemove { path } => files.remove(path@),
        DataPlan::Rename { from, to, .. } => files.insert(to@, files[from@]).remove(from@),
        DataPlan::Write { path, data, .. } => files.insert(path@, bytes_content(data)),
    }
}

/// The files after a plan for an outboard was carried out.
pub open spec fn outboard_carried_out(files: Files, plan: OutboardPlan) -> Files {
    match plan {
        OutboardPlan::Write { path, data } => files.insert(path@, data@),
        OutboardPlan::Inline(_) | OutboardPlan::NotNeeded => files,
    }
}

/// The files after a plan for one part of a storage was carried out.
pub open spec fn part_carried_out(files: Files, plan: PartPlan) -> Files {
    match plan {
        PartPlan::KeepMem(_) | PartPlan::KeepFile { .. } => files,
        PartPlan::ReadAndRemove { path, .. } => files.remove(path@),
        PartPlan::Write { path, data, .. } => files.insert(path@, bytes_content(data)),
    }
}

/// What is read at a location, if there is anything.
pub open spec fn read_location(files: Files, l: LocationView) -> Option<Seq<u8>> {
    match l {
        MemOrFile::Mem(data) => Some(data),
        MemOrFile::File((path, _, _)) => row(files, path),
    }
}

/// What is read from a source, if there is anything.
pub open spec fn read_source(files: Files, s: SourceView) -> Option<Seq<u8>> {
    match s {
        MemOrFile::Mem(data) => Some(data),
        MemOrFile::File((path, _)) => row(files, path),
    }
}

/// What is to be imported.
pub open spec fn import_content(files: Files, file: ImportFile) -> Option<Seq<u8>> {
    match file {
        ImportFile::Memory(data) => Some(bytes_content(data)),
        ImportFile::TempFile(path) => row(files, path@),
        ImportFile::External(path) => row(files, path@),
    }
}

/// What a plan for data reads is what is in the file that it names.
pub open spec fn data_read(files: Files, plan: DataPlan, read: Option<Bytes>) -> bool {
    match plan {
        DataPlan::ReadExternal { path } | DataPlan::ReadAndRemove { path } => read is Some && Some(
            bytes_content(read->0),
        ) == row(files, path@),
        _ => true,
    }
}

/// What a plan for a part reads is what is in the file that it names.
pub open spec fn part_read(files: Files, plan: PartPlan, read: Option<Bytes>) -> bool {
    match plan {
        PartPlan::ReadAndRemove { path, .. } => read is Some && Some(bytes_content(read->0)) == row(
            files,
            path@,
        ),
        _ => true,
    }
}

/// What is imported is what is found afterwards, byte for byte, whether it came
/// from memory or from a file, and whether it is small or large: the data of the
/// hash is located where the imported content is, with its size. A file of the user
/// stays as it is, and so does every file that is neither the imported one nor one
/// of the hash.
///
/// `f` is the plan of the import, `read` what was read to carry it out, and
/// `location` the place of the data after that. The blob was not complete before.
pub proof fn imported_bytes_are_found(
    actor: RedbActor,
    t: Tables,
    files: Files,
    file: ImportFile,
    format: BlobFormat,
    content: Seq<u8>,
    f: FinalizedImport,
    read: Option<Bytes>,
    location: DataLocation<Bytes, u64>,
    outboard_location: OutboardLocation<Bytes>,
    other: Seq<char>,
)
    requires
        content.len() <= u64::MAX,
        import_content(files, file) == Some(content),
        finalized(actor.options, file, format, content, f),
        data_read(files, f.data, read),
        data_placed(f.data, read, location),
        file matches ImportFile::TempFile(path) ==> path@ != data_file(
            actor.options.data_path@,
            f.content.hash,
        ),
        !(row(t.blobs, f.content.hash) matches Some(EntryState::Complete { .. })),
    ensures
        ({
            let hash = f.content.hash;
            let entry = row(t.blobs, hash);
            let req = Request::ImportEntry {
                hash,
                data_location: location,
                outboard_location,
                entry,
            };
            let after = t.apply_all(request_ops(actor, req));
            let files_after = data_carried_out(files, f.data);
            let found = located(after, actor.options.data_path@, hash);
            &&& f.size == content.len()
            &&& f.content.format == format
            &&& found is Some
            &&& read_location(files_after, found->0) == Some(content)
            &&& found->0 is Mem <==> content.len() <= actor.options.max_data_inlined
            &&& found->0 matches MemOrFile::File((path, size, owned)) ==> {
                &&& size == content.len()
                &&& owned <==> !(file is External)
                &&& owned ==> path == data_file(actor.options.data_path@, hash)
            }
            &&& file matches ImportFile::External(path) ==> row(files_after, path@) == Some(content)
            &&& file matches ImportFile::TempFile(path) ==> !files_after.dom().contains(path@)
            &&& other != data_file(actor.options.data_path@, hash) && (
            file matches ImportFile::TempFile(path) ==> other != path@) ==> row(files_after, other)
                == row(files, other)
        }),
{
    imported_data_is_found(actor, t, f.content.hash, location, outboard_location);
}

/// A blob that was imported can be opened at once, unless it is in a file of the
/// user: the handle is made from complete data, which is the imported content with
/// its size, and from its outboard, which is the computed one, or nothing for
/// content that fits in one block.
///
/// `f` is the plan of the import, `read` what was read to carry it out, and
/// `location` the place of the data after that. The blob was not complete before.
pub proof fn imported_blobs_can_be_opened(
    actor: RedbActor,
    t: Tables,
    files: Files,
    file: ImportFile,
    format: BlobFormat,
    content: Seq<u8>,
    f: FinalizedImport,
    read: Option<Bytes>,
    location: DataLocation<Bytes, u64>,
)
    requires
        content.len() <= u64::MAX,
        import_content(files, file) == Some(content),
        finalized(actor.options, file, format, content, f),
        data_read(files, f.data, read),
        data_placed(f.data, read, location),
        file matches ImportFile::TempFile(path) ==> path@ != data_file(
            actor.options.data_path@,
            f.content.hash,
        ),
        !(row(t.blobs, f.content.hash) matches Some(EntryState::Complete { .. })),
        file is External ==> content.len() <= actor.options.max_data_inlined,
    ensures
        ({
            let hash = f.content.hash;
            let entry = row(t.blobs, hash);
            let req = Request::ImportEntry {
                hash,
                data_location: location,
                outboard_location: outboard_placed(f.outboard),
                entry,
            };
            let after = t.apply_all(request_ops(actor, req));
            let files_after = outboard_carried_out(data_carried_out(files, f.data), f.outboard);
            let plan = open_plan(
                actor.options.data_path@,
                hash,
                after.blobs[hash],
                row(after.inline_data, hash),
                row(after.inline_outboard, hash),
            );
            &&& hash.0@ == computed(content).0
            &&& row(after.blobs, hash) is Some
            &&& plan matches Ok(HandlePlanView::Complete { data, outboard }) && {
                &&& read_source(files_after, data) == Some(content)
                &&& source_size(data) == content.len()
                &&& content.len() > 16384 ==> read_source(files_after, outboard) == Some(
                    computed(content).1,
                ) && source_size(outboard) == spec_raw_outboard_size(content.len() as u64)
                &&& content.len() <= 16384 ==> read_source(files_after, outboard) == Some(
                    Seq::<u8>::empty(),
                )
            }
        }),
{
    let hash = f.content.hash;
    files_are_distinct(actor.options.data_path@, hash, hash);
    crate::store::laws::lemma_import(t, hash, location, outboard_placed(f.outboard));
}

/// What a storage holds: its data and its outboard. An outboard that is empty has
/// no file.
pub open spec fn storage_holds(
    files: Files,
    data_path: Seq<char>,
    hash: BlobHash,
    storage: Storage,
    data: Seq<u8>,
    outboard: Seq<u8>,
) -> bool {
    match storage {
        Storage::Complete => false,
        Storage::IncompleteMem { data: d, outboard: ob } => bytes_content(d) == data
            && bytes_content(ob) == outboard,
        Storage::IncompleteFile { data_size, outboard_size } => {
            &&& row(files, data_file(data_path, hash)) == Some(data)
            &&& data_size == data.len()
            &&& outboard_size == outboard.len()
            &&& outboard_size > 0 ==> row(files, outboard_file(data_path, hash)) == Some(outboard)
        },
    }
}

/// Completing a storage keeps its content: the bytes that it held, in memory or in
/// the files of its hash, are what is found afterwards, and they are what a handle
/// is made from, with the outboard that it held. Small parts are inlined and leave
/// no file behind.
///
/// `plan` is the plan for the storage, and `read_data` and `read_outboard` are what
/// was read to carry it out.
pub proof fn completed_bytes_are_kept(
    actor: RedbActor,
    t: Tables,
    files: Files,
    hash: BlobHash,
    storage: Storage,
    plan: CompletePlan,
    read_data: Option<Bytes>,
    read_outboard: Option<Bytes>,
    data: Seq<u8>,
    outboard: Seq<u8>,
)
    requires
        data.len() <= u64::MAX,
        outboard.len() <= u64::MAX,
        storage_holds(files, actor.options.data_path@, hash, storage, data, outboard),
        completion(actor.options, hash, storage, plan),
        part_read(files, plan.data, read_data),
        part_read(files, plan.outboard, read_outboard),
        actor.cached(hash) is Some,
    ensures
        ({
            let done = CompletedStorage {
                data: part_result(plan.data, read_data),
                outboard: part_result(plan.outboard, read_outboard),
            };
            let req = Request::OnComplete { hash, done: Some(done) };
            let after = t.apply_all(request_ops(actor, req));
            let files_after = part_carried_out(part_carried_out(files, plan.data), plan.outboard);
            let data_path = actor.options.data_path@;
            let found = located(after, data_path, hash);
            let opened = open_plan(
                data_path,
                hash,
                after.blobs[hash],
                row(after.inline_data, hash),
                row(after.inline_outboard, hash),
            );
            &&& found is Some
            &&& read_location(files_after, found->0) == Some(data)
            &&& found->0 is Mem <==> data.len() <= actor.options.max_data_inlined
            &&& found->0 matches MemOrFile::File((_, size, owned)) ==> size == data.len() && owned
            &&& found->0 is Mem && storage is IncompleteFile ==> !files_after.dom().contains(
                data_file(data_path, hash),
            )
            &&& row(after.blobs, hash) is Some
            &&& opened matches Ok(HandlePlanView::Complete { data: d, outboard: ob }) && {
                &&& read_source(files_after, d) == Some(data)
                &&& source_size(d) == data.len()
                &&& read_source(files_after, ob) == Some(outboard)
            }
        }),
{
    let done = CompletedStorage {
        data: part_result(plan.data, read_data),
        outboard: part_result(plan.outboard, read_outboard),
    };
    files_are_distinct(actor.options.data_path@, hash, hash);
    completed_data_is_found(actor, t, hash, done);
    crate::store::laws::lemma_complete(t, hash, done);
}

/// The rows are those that the tables hold for a hash.
pub open spec fn rows_of(t: Tables, hash: BlobHash, rows: Rows) -> bool {
    &&& rows.entry == row(t.blobs, hash)
    &&& row_content(rows.inline_data) == row(t.inline_data, hash)
    &&& row_content(rows.inline_outboard) == row(t.inline_outboard, hash)
}

/// Without an open handle, a complete entry is opened as a complete one: its data
/// is read from where the data of the blob is located, and its outboard, if it has
/// one, from its row or from its file, which has the size of an outboard for that
/// data. Only a partial entry is opened as a partial one.
pub proof fn complete_entries_are_opened_as_complete(
    actor: RedbActor,
    t: Tables,
    hash: BlobHash,
    rows: Rows,
    missing: GetStepView,
)
    requires
        t.consistent(),
        rows_of(t, hash, rows),
        actor.cached(hash) is None,
        row(t.blobs, hash) is Some,
        !(row(t.blobs, hash)->0.is_external()),
    ensures
        ({
            let data_path = actor.options.data_path@;
            let found = lookup(actor.cached(hash), data_path, hash, rows, missing);
            let entry = row(t.blobs, hash)->0;
            &&& entry is Partial <==> found == Ok::<_, StoreError>(
                GetStepView::Open(HandlePlanView::Partial),
            )
            &&& entry matches EntryState::Complete { outboard_location, .. } ==> {
                &&& found matches Ok(GetStepView::Open(HandlePlanView::Complete { data, outboard }))
                    && {
                    &&& match located(t, data_path, hash) {
                        Some(MemOrFile::Mem(bytes)) => data == MemOrFile::<
                            Seq<u8>,
                            (Seq<char>, u64),
                        >::Mem(bytes),
                        Some(MemOrFile::File((path, size, owned))) => owned && data
                            == MemOrFile::<Seq<u8>, (Seq<char>, u64)>::File((path, size)),
                        None => false,
                    }
                    &&& match outboard_location {
                        OutboardLocation::NotNeeded => outboard == MemOrFile::<
                            Seq<u8>,
                            (Seq<char>, u64),
                        >::Mem(Seq::empty()),
                        OutboardLocation::Inline(_) => outboard == MemOrFile::<
                            Seq<u8>,
                            (Seq<char>, u64),
                        >::Mem(t.inline_outboard[hash]),
                        OutboardLocation::Owned => outboard == MemOrFile::<
                            Seq<u8>,
                            (Seq<char>, u64),
                        >::File(
                            (
                                outboard_file(data_path, hash),
                                spec_raw_outboard_size(
                                    match data {
                                        MemOrFile::Mem(bytes) => bytes.len() as u64,
                                        MemOrFile::File((_, size)) => size,
                                    },
                                ),
                            ),
                        ),
                    }
                }
            }
        }),
{
}

/// Looking up an entry uses the open handle, if there is one, and says that there
/// is nothing exactly if there is neither a handle nor a row. Asking for an entry
/// that is not there yet starts a new one in memory. Only rows that are missing
/// make it fail.
pub proof fn lookups_find_what_is_there(
    actor: RedbActor,
    hash: BlobHash,
    rows: Rows,
    got: Result<Reply, StoreError>,
    created: Result<Reply, StoreError>,
)
    requires
        request_reply(actor, Request::Get { hash, rows }, got),
        request_reply(actor, Request::GetOrCreate { hash, rows }, created),
        actor.cached(hash) is None ==> rows.openable(),
    ensures
        actor.cached(hash) matches Some(handle) ==> got == Ok::<_, StoreError>(
            Reply::Handle(GetStep::Cached(handle.id)),
        ) && created == Ok::<_, StoreError>(Reply::Handle(GetStep::Cached(handle.id))),
        actor.cached(hash) is None && rows.entry is None ==> got == Ok::<_, StoreError>(
            Reply::Handle(GetStep::NotFound),
        ) && created == Ok::<_, StoreError>(Reply::Handle(GetStep::Open(HandlePlan::Mem))),
        actor.cached(hash) is None && rows.entry is Some ==> {
            &&& rows.entry->0 is Partial ==> got == Ok::<_, StoreError>(
                Reply::Handle(GetStep::Open(HandlePlan::Partial)),
            ) && created == Ok::<_, StoreError>(Reply::Handle(GetStep::Open(HandlePlan::Partial)))
            &&& got matches Ok(Reply::Handle(step)) ==> (step matches GetStep::Open(plan)
                && !(plan is Mem) && (plan is Partial <==> rows.entry->0 is Partial))
            &&& got is Err <==> created is Err
            &&& got is Err <==> (rows.entry->0.spec_inline_data() && rows.inline_data is None)
                || (rows.entry->0.spec_inline_outboard() && rows.inline_outboard is None)
        },
{
}

/// The status of an entry is what its open handle knows, and without one what its
/// row says.
pub proof fn an_open_handle_knows_best(
    actor: RedbActor,
    hash: BlobHash,
    entry: Option<EntryState>,
    r: Result<Reply, StoreError>,
)
    requires
        request_reply(actor, Request::EntryStatus { hash, entry }, r),
    ensures
        r matches Ok(Reply::Status(status)) && {
            &&& status == status_of(actor, hash, entry)
            &&& actor.cached(hash) matches Some(handle) ==> (status == EntryStatus::Complete
                <==> handle.complete) && (status == EntryStatus::Partial <==> !handle.complete)
            &&& actor.cached(hash) is None && entry is Some ==> (status == EntryStatus::Complete
                <==> entry->0 is Complete) && (status == EntryStatus::Partial <==> entry->0
                is Partial)
            &&& status == EntryStatus::NotFound <==> actor.cached(hash) is None && entry is None
        },
{
}

/// Deleting removes exactly the files that the store owns of the blobs that are
/// deleted: the data file of one whose data is owned, and the outboard file of one
/// whose outboard is. Files of the user are never removed.
pub proof fn deleting_removes_the_owned_files(
    data_path: Seq<char>,
    hashes: Seq<BlobHash>,
    entries: Seq<Option<EntryState>>,
    path: Seq<char>,
)
    requires
        hashes.len() == entries.len(),
    ensures
        delete_files(data_path, hashes, entries).contains(path) <==> exists|i: int|
            #![trigger hashes[i]]
            0 <= i < hashes.len() && (
            entries[i] matches Some(EntryState::Complete { data_location, outboard_location }) && ((
            data_location is Owned && path == data_file(data_path, hashes[i])) || (outboard_location
                is Owned && path == outboard_file(data_path, hashes[i])))),
{
    lemma_delete_files(data_path, hashes, entries, path);
}

/// The files that deleting removes, blob by blob.
proof fn lemma_delete_files(
    data_path: Seq<char>,
    hashes: Seq<BlobHash>,
    entries: Seq<Option<EntryState>>,
    path: Seq<char>,
)
    requires
        hashes.len() <= entries.len(),
    ensures
        delete_files(data_path, hashes, entries).contains(path) <==> exists|i: int|
            #![trigger hashes[i]]
            0 <= i < hashes.len() && owns_file(data_path, hashes[i], entries[i], path),
    decreases hashes.len(),
{
    if hashes.len() > 0 {
        let n = hashes.len() - 1;
        let front = hashes.drop_last();
        let before = delete_files(data_path, front, entries);
        let one = crate::store::actor::delete_one_files(data_path, hashes[n], entries[n]);
        lemma_delete_files(data_path, front, entries, path);
        assert(one.contains(path) <==> owns_file(data_path, hashes[n], entries[n], path)) by {
            match entries[n] {
                Some(EntryState::Complete { data_location, outboard_location }) => {
                    if data_location is Owned {
                        assert(one[0] == data_file(data_path, hashes[n]));
                    }
                    if outboard_location is Owned {
                        assert(one[one.len() - 1] == outboard_file(data_path, hashes[n]));
                    }
                },
                _ => {},
            }
        }
        let all = before + one;
        if before.contains(path) {
            let k = choose|k: int| 0 <= k < before.len() && before[k] == path;
            assert(all[k] == path);
            let i = choose|i: int|
                #![trigger front[i]]
                0 <= i < front.len() && owns_file(data_path, front[i], entries[i], path);
            assert(hashes[i] == front[i]);
        }
        if one.contains(path) {
            let k = choose|k: int| 0 <= k < one.len() && one[k] == path;
            assert(all[before.len() + k] == path);
        }
        if all.contains(path) {
            let k = choose|k: int| 0 <= k < all.len() && all[k] == path;
            if k < before.len() {
                assert(before[k] == path);
            } else {
                assert(one[k - before.len()] == path);
            }
        }
        if exists|i: int|
            #![trigger hashes[i]]
            0 <= i < hashes.len() && owns_file(data_path, hashes[i], entries[i], path) {
            let i = choose|i: int|
                #![trigger hashes[i]]
                0 <= i < hashes.len() && owns_file(data_path, hashes[i], entries[i], path);
            if i < n {
                assert(front[i] == hashes[i]);
            }
        }
    }
}

/// The store owns a file at this path for a blob with this row.
spec fn owns_file(
    data_path: Seq<char>,
    hash: BlobHash,
    entry: Option<EntryState>,
    path: Seq<char>,
) -> bool {
    entry matches Some(EntryState::Complete { data_location, outboard_location }) && ((data_location
        is Owned && path == data_file(data_path, hash)) || (outboard_location is Owned && path
        == outboard_file(data_path, hash)))
}

/// A request that only asks changes neither a row nor a file, only deleting
/// removes files, only completing an entry changes a handle, and only a shutdown
/// ends the loop.
pub proof fn asking_changes_nothing(actor: RedbActor, req: Request)
    ensures
        req is Get || req is GetOrCreate || req is DataLocation || req is EntryStatus
            || req is Blobs || req is PartialBlobs || req is Tags || req is Sync || req is Dump
            || req is Shutdown ==> request_ops(actor, req).len() == 0,
        request_stops(req) <==> req is Shutdown,
        !(req is Delete) ==> request_files(actor, req).len() == 0,
        !(req is OnComplete) ==> request_handles(actor, req) == actor.state@,
        req matches Request::Delete { hashes, entries } ==> request_files(actor, req)
            == delete_files(actor.options.data_path@, hashes@, entries@),
{
}

/// Completing an entry marks its open handle as complete, with the number that it
/// had, and leaves every other handle alone. Without an open handle nothing
/// changes, neither a handle nor a row.
pub proof fn completing_marks_the_handle(
    actor: RedbActor,
    hash: BlobHash,
    done: Option<CompletedStorage>,
    other: BlobHash,
)
    ensures
        ({
            let req = Request::OnComplete { hash, done };
            let before = actor.state@;
            let after = request_handles(actor, req);
            &&& before.dom().contains(hash) ==> after.dom().contains(hash) && after[hash] == (
            CachedHandle { id: before[hash].id, complete: true })
            &&& !before.dom().contains(hash) ==> !after.dom().contains(hash) && request_ops(
                actor,
                req,
            ).len() == 0
            &&& other != hash ==> (after.dom().contains(other) <==> before.dom().contains(other))
                && after[other] == before[other]
            &&& done is None ==> request_ops(actor, req).len() == 0
        }),
{
}

/// An entry that no longer fits in memory has a row from then on, and loses nothing
/// by it: one that was complete stays so, a size that was known stays known, and
/// neither the tags nor any other entry changes.
pub proof fn an_exceeded_entry_gets_a_row(
    actor: RedbActor,
    t: Tables,
    hash: BlobHash,
    other: BlobHash,
)
    ensures
        ({
            let req = Request::OnInlineSizeExceeded { hash, entry: row(t.blobs, hash) };
            let after = t.apply_all(request_ops(actor, req));
            &&& row(after.blobs, hash) is Some
            &&& row(t.blobs, hash) is Some ==> row(after.blobs, hash) == row(t.blobs, hash)
            &&& row(t.blobs, hash) is None ==> row(after.blobs, hash) == Some(
                EntryState::Partial { size: None },
            )
            &&& other != hash ==> row(after.blobs, other) == row(t.blobs, other)
            &&& after.inline_data == t.inline_data
            &&& after.inline_outboard == t.inline_outboard
            &&& after.tags == t.tags
        }),
{
    let entry = row(t.blobs, hash);
    let ops = crate::store::actor::exceeded_ops(hash, entry);
    crate::store::tables::lemma_apply_one(t, ops[0]);
    assert(ops =~= seq![ops[0]]);
}

/// Every request is answered: a change by its being done, a new tag by its name or
/// by the word that the name is taken, and only a lookup can fail.
pub proof fn requests_are_answered(actor: RedbActor, req: Request, r: Result<Reply, StoreError>)
    requires
        request_reply(actor, req, r),
    ensures
        r is Err ==> req is Get || req is GetOrCreate,
        req is ImportEntry || req is SetTag || req is Sync || req is Delete <==> r == Ok::<
            _,
            StoreError,
        >(Reply::Done),
        req matches Request::CreateTag { candidate, taken, .. } ==> if taken {
            r == Ok::<_, StoreError>(Reply::TagTaken)
        } else {
            r matches Ok(Reply::Tag(tag)) && tag@ == candidate@
        },
        req is DataLocation ==> r matches Ok(Reply::Location(_)),
        req is Blobs || req is PartialBlobs ==> r matches Ok(Reply::Hashes(_)),
        req is Tags ==> r matches Ok(Reply::Tags(_)),
        req is Dump ==> r == Ok::<_, StoreError>(Reply::Dump),
        req is OnInlineSizeExceeded || req is OnComplete || req is Shutdown <==> r == Ok::<
            _,
            StoreError,
        >(Reply::Silent),
{
}

/// A request to delete does so: of each blob that it names nothing is left in the
/// tables of entries, and the rows of all others, and the tags, stay.
pub proof fn delete_requests_delete(
    actor: RedbActor,
    t: Tables,
    hashes: Vec<BlobHash>,
    entries: Vec<Option<EntryState>>,
    hash: BlobHash,
)
    requires
        crate::store::laws::rows_to_delete(t, hashes@, entries@),
    ensures
        ({
            let after = t.apply_all(request_ops(actor, Request::Delete { hashes, entries }));
            &&& after.tags == t.tags
            &&& hashes@.contains(hash) ==> row(after.blobs, hash) is None
            &&& !hashes@.contains(hash) ==> row(after.blobs, hash) == row(t.blobs, hash) && row(
                after.inline_data,
                hash,
            ) == row(t.inline_data, hash) && row(after.inline_outboard, hash) == row(
                t.inline_outboard,
                hash,
            )
        }),
{
    crate::store::laws::deleted_blobs_are_gone(actor, t, hashes@, entries@, hash);
}

/// Importing and completing a blob touch the rows of that blob alone.
pub proof fn other_blobs_stay(
    actor: RedbActor,
    t: Tables,
    hash: BlobHash,
    data_location: DataLocation<Bytes, u64>,
    outboard_location: OutboardLocation<Bytes>,
    done: CompletedStorage,
    other: BlobHash,
)
    requires
        other != hash,
    ensures
        ({
            let import = Request::ImportEntry {
                hash,
                data_location,
                outboard_location,
                entry: row(t.blobs, hash),
            };
            let imported = t.apply_all(request_ops(actor, import));
            let completed = t.apply_all(
                request_ops(actor, Request::OnComplete { hash, done: Some(done) }),
            );
            &&& row(imported.blobs, other) == row(t.blobs, other)
            &&& row(imported.inline_data, other) == row(t.inline_data, other)
            &&& row(imported.inline_outboard, other) == row(t.inline_outboard, other)
            &&& imported.tags == t.tags
            &&& row(completed.blobs, other) == row(t.blobs, other)
            &&& row(completed.inline_data, other) == row(t.inline_data, other)
            &&& row(completed.inline_outboard, other) == row(t.inline_outboard, other)
            &&& completed.tags == t.tags
        }),
{
    crate::store::laws::lemma_import(t, hash, data_location, outboard_location);
    crate::store::laws::lemma_complete(t, hash, done);
}

/// A handle that was made is the one that is found from then on, and no later one
/// has its number. The handles on other hashes stay.
pub proof fn new_handles_are_found(
    a: RedbActor,
    hash: BlobHash,
    complete: bool,
    id: u64,
    b: RedbActor,
    other: BlobHash,
    next: u64,
    c: RedbActor,
)
    requires
        a.has_opened(hash, complete, id, b),
        b.has_opened(other, complete, next, c),
    ensures
        b.cached(hash) == Some(CachedHandle { id, complete }),
        other != hash ==> b.cached(other) == a.cached(other) && c.cached(hash) == b.cached(hash),
        next > id,
        b.options == a.options,
{
}

/// A listing names exactly the complete blobs: each of them, and nothing else. The
/// loop answers both requests for a listing with it.
pub proof fn listings_name_the_complete_blobs(
    actor: RedbActor,
    rows: Vec<Result<(BlobHash, EntryState), ActorError>>,
    r: Result<Reply, StoreError>,
    hash: BlobHash,
)
    requires
        request_reply(actor, Request::Blobs { rows }, r) || request_reply(
            actor,
            Request::PartialBlobs { rows },
            r,
        ),
        forall|i: int| 0 <= i < rows@.len() ==> #[trigger] rows@[i] is Ok,
    ensures
        r matches Ok(Reply::Hashes(hashes)) && (hashes@.contains(Ok::<BlobHash, StoreError>(hash))
            <==> exists|i: int|
            0 <= i < rows@.len() && (#[trigger] rows@[i])->Ok_0.0 == hash && rows@[i]->Ok_0.1
                is Complete),
{
    let hashes = r->Ok_0->Hashes_0@;
    let named = Ok::<BlobHash, StoreError>(hash);
    assert(listed(rows@, true, hashes));
    if hashes.contains(named) {
        let k = choose|k: int| 0 <= k < hashes.len() && hashes[k] == named;
        crate::store::laws::listings_hold_only_what_was_asked_for(rows@, true, hashes, k);
    }
    if exists|i: int|
        0 <= i < rows@.len() && (#[trigger] rows@[i])->Ok_0.0 == hash && rows@[i]->Ok_0.1
            is Complete {
        let i = choose|i: int|
            0 <= i < rows@.len() && (#[trigger] rows@[i])->Ok_0.0 == hash && rows@[i]->Ok_0.1
                is Complete;
        crate::store::laws::complete_rows_are_listed(rows@, hashes, i);
    }
}

/// A request for the tags is answered with all of them, and one for the location of
/// a blob with where its data is by the tables.
pub proof fn tags_and_locations_are_told(
    actor: RedbActor,
    t: Tables,
    hash: BlobHash,
    rows: Rows,
    located_at: Result<Reply, StoreError>,
    tag_rows: Vec<Result<(Tag, HashAndFormat), ActorError>>,
    told: Result<Reply, StoreError>,
    i: int,
)
    requires
        rows_of(t, hash, rows),
        request_reply(
            actor,
            Request::DataLocation { hash, entry: rows.entry, inline_data: rows.inline_data },
            located_at,
        ),
        request_reply(actor, Request::Tags { rows: tag_rows }, told),
        0 <= i < tag_rows@.len(),
    ensures
        located_at matches Ok(Reply::Location(l)) && match l {
            Some(MemOrFile::Mem(bytes)) => located(t, actor.options.data_path@, hash) == Some(
                MemOrFile::<Seq<u8>, (Seq<char>, u64, bool)>::Mem(bytes_content(bytes)),
            ),
            Some(MemOrFile::File((path, size, owned))) => located(
                t,
                actor.options.data_path@,
                hash,
            ) == Some(MemOrFile::<Seq<u8>, (Seq<char>, u64, bool)>::File((path@, size, owned))),
            None => located(t, actor.options.data_path@, hash) is None,
        },
        told matches Ok(Reply::Tags(tags)) && tags@.len() == tag_rows@.len() && (
        tag_rows@[i] matches Ok(tag) ==> tags@[i] == Ok::<(Tag, HashAndFormat), StoreError>(tag)) && (
        tag_rows@[i] matches Err(ActorError::Io(io)) ==> tags@[i] == Err::<
            (Tag, HashAndFormat),
            StoreError,
        >(io)),
{
}

} // verus!
