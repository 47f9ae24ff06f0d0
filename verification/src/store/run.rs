//! The loop of the store actor: which request is answered how, and which one
//! ends it.

use crate::store::actor::{
    complete_ops, delete_files, delete_ops, exceeded_ops, get_view, handles_completed, import_ops,
    listed, location_view, lookup, path_views, row_content, spec_data_location, status_of,
    tags_listed, CachedHandle, CompletedStorage, CreateTag, GetStep, GetStepView, HandlePlanView,
    Location, RedbActor, Rows,
};
use crate::store::entry::{DataLocation, EntryState, EntryStatus, OutboardLocation};
use crate::store::error::{ActorError, StoreError};
use crate::store::hash::{BlobHash, HashAndFormat, Tag};
use crate::store::tables::TableOp;
use bytes::Bytes;
use vstd::prelude::*;

verus! {

/// A request to the store, with the rows that were read for it.
#[allow(inconsistent_fields)]
#[derive(Debug)]
pub enum Request {
    Get { hash: BlobHash, rows: Rows },
    DataLocation { hash: BlobHash, entry: Option<EntryState>, inline_data: Option<Bytes> },
    GetOrCreate { hash: BlobHash, rows: Rows },
    OnInlineSizeExceeded { hash: BlobHash, entry: Option<EntryState> },
    /// The storage of the handle was completed, or was complete already.
    OnComplete { hash: BlobHash, done: Option<CompletedStorage> },
    ImportEntry {
        hash: BlobHash,
        data_location: DataLocation<Bytes, u64>,
        outboard_location: OutboardLocation<Bytes>,
        entry: Option<EntryState>,
    },
    EntryStatus { hash: BlobHash, entry: Option<EntryState> },
    Blobs { rows: Vec<Result<(BlobHash, EntryState), ActorError>> },
    PartialBlobs { rows: Vec<Result<(BlobHash, EntryState), ActorError>> },
    Tags { rows: Vec<Result<(Tag, HashAndFormat), ActorError>> },
    SetTag { tag: Tag, value: Option<HashAndFormat> },
    CreateTag { candidate: Tag, taken: bool, content: HashAndFormat },
    Sync,
    Dump,
    Delete { hashes: Vec<BlobHash>, entries: Vec<Option<EntryState>> },
    Shutdown,
}

/// What is sent back.
#[derive(Debug)]
pub enum Reply {
    /// Nothing is.
    Silent,
    Handle(GetStep),
    Location(Option<Location>),
    Status(EntryStatus),
    Hashes(Vec<Result<BlobHash, StoreError>>),
    Tags(Vec<Result<(Tag, HashAndFormat), StoreError>>),
    /// The name is taken; the request comes again with another one.
    TagTaken,
    Tag(Tag),
    /// It is done.
    Done,
    /// The tables are to be printed.
    Dump,
}

/// What a request comes to.
#[derive(Debug)]
pub struct Outcome {
    /// The changes to be committed.
    pub ops: Vec<TableOp>,
    /// The files to be removed.
    pub remove_files: Vec<String>,
    /// What is sent back.
    pub reply: Reply,
    /// The loop ends.
    pub stop: bool,
}

/// The request is one that the actor can work on: entries are well formed, those
/// that are to be opened are not in external files, and there is a row for each
/// blob that is to be deleted. An entry with an open handle is not opened again.
pub open spec fn request_ok(actor: RedbActor, req: Request) -> bool {
    match req {
        Request::Get { hash, rows } => actor.cached(hash) is None ==> rows.openable(),
        Request::GetOrCreate { hash, rows } => actor.cached(hash) is None ==> rows.openable(),
        Request::DataLocation { entry, .. } => entry matches Some(e) ==> e.wf(),
        Request::Delete { hashes, entries } => hashes@.len() == entries@.len(),
        _ => true,
    }
}

/// The changes that a request makes.
pub open spec fn request_ops(actor: RedbActor, req: Request) -> Seq<TableOp> {
    match req {
        Request::OnInlineSizeExceeded { hash, entry } => exceeded_ops(hash, entry),
        Request::OnComplete { hash, done: Some(done) } => if actor.cached(hash) is Some {
            complete_ops(hash, done)
        } else {
            Seq::empty()
        },
        Request::ImportEntry { hash, data_location, outboard_location, entry } => import_ops(
            hash,
            data_location,
            outboard_location,
            entry,
        ),
        Request::SetTag { tag, value: Some(content) } => seq![TableOp::InsertTag(tag, content)],
        Request::SetTag { tag, value: None } => seq![TableOp::RemoveTag(tag)],
        Request::CreateTag { candidate, taken, content } => if taken {
            Seq::empty()
        } else {
            seq![TableOp::InsertTag(candidate, content)]
        },
        Request::Delete { hashes, entries } => delete_ops(hashes@, entries@),
        _ => Seq::empty(),
    }
}

/// The answer to a request, where an error ends the loop.
///
/// The partial blobs are answered with the complete ones.
pub open spec fn request_reply(actor: RedbActor, req: Request, r: Result<Reply, StoreError>) -> bool {
    let data_path = actor.options.data_path@;
    match req {
        Request::Get { hash, rows } => {
            let found = lookup(actor.cached(hash), data_path, hash, rows, GetStepView::NotFound);
            match r {
                Ok(Reply::Handle(step)) => get_view(Ok(step)) == found,
                Err(e) => found == Err::<GetStepView, _>(e),
                _ => false,
            }
        },
        Request::GetOrCreate { hash, rows } => {
            let found = lookup(
                actor.cached(hash),
                data_path,
                hash,
                rows,
                GetStepView::Open(HandlePlanView::Mem),
            );
            match r {
                Ok(Reply::Handle(step)) => get_view(Ok(step)) == found,
                Err(e) => found == Err::<GetStepView, _>(e),
                _ => false,
            }
        },
        Request::DataLocation { hash, entry, inline_data } => r matches Ok(Reply::Location(l))
            && location_view(l) == spec_data_location(
            data_path,
            hash,
            entry,
            row_content(inline_data),
        ),
        Request::EntryStatus { hash, entry } => r == Ok::<_, StoreError>(
            Reply::Status(status_of(actor, hash, entry)),
        ),
        Request::Blobs { rows } => r matches Ok(Reply::Hashes(l)) && listed(rows@, true, l@),
        Request::PartialBlobs { rows } => r matches Ok(Reply::Hashes(l)) && listed(rows@, true, l@),
        Request::Tags { rows } => r matches Ok(Reply::Tags(l)) && tags_listed(rows@, l@),
        Request::CreateTag { candidate, taken, .. } => if taken {
            r == Ok::<_, StoreError>(Reply::TagTaken)
        } else {
            r matches Ok(Reply::Tag(tag)) && tag@ == candidate@
        },
        Request::OnInlineSizeExceeded { .. } | Request::OnComplete { .. } | Request::Shutdown => r
            == Ok::<_, StoreError>(Reply::Silent),
        Request::ImportEntry { .. } | Request::SetTag { .. } | Request::Sync | Request::Delete {
            ..
        } => r == Ok::<_, StoreError>(Reply::Done),
        Request::Dump => r == Ok::<_, StoreError>(Reply::Dump),
    }
}

/// The files that a request removes.
pub open spec fn request_files(actor: RedbActor, req: Request) -> Seq<Seq<char>> {
    match req {
        Request::Delete { hashes, entries } => delete_files(
            actor.options.data_path@,
            hashes@,
            entries@,
        ),
        _ => Seq::empty(),
    }
}

/// The request ends the loop.
pub open spec fn request_stops(req: Request) -> bool {
    req is Shutdown
}

/// The open handles after a request.
pub open spec fn request_handles(actor: RedbActor, req: Request) -> Map<BlobHash, CachedHandle> {
    match req {
        Request::OnComplete { hash, .. } => handles_completed(actor.state@, hash),
        _ => actor.state@,
    }
}

/// An outcome that changes nothing and goes on.
fn answer(reply: Reply) -> (r: Outcome)
    ensures
        r.ops@.len() == 0,
        r.remove_files@.len() == 0,
        r.reply == reply,
        !r.stop,
{
    Outcome { ops: Vec::new(), remove_files: Vec::new(), reply, stop: false }
}

impl RedbActor {
    /// One round of the actor's loop, on the next request or the end of the
    /// requests. An error ends the loop too.
    pub fn run(&mut self, req: Option<Request>) -> (r: Result<Outcome, StoreError>)
        requires
            old(self).wf(),
            req matches Some(q) ==> request_ok(*old(self), q),
        ensures
            final(self).wf(),
            final(self).options == old(self).options,
            final(self).next_id == old(self).next_id,
            match req {
                Some(q) => final(self).state@ == request_handles(*old(self), q),
                None => final(self).state@ == old(self).state@,
            },
            match req {
                None => r matches Ok(o) && o.stop && o.ops@.len() == 0 && o.remove_files@.len() == 0
                    && o.reply is Silent,
                Some(q) => {
                    &&& request_reply(
                        *old(self),
                        q,
                        match r {
                            Ok(o) => Ok(o.reply),
                            Err(e) => Err(e),
                        },
                    )
                    &&& r matches Ok(o) ==> {
                        &&& o.ops@ == request_ops(*old(self), q)
                        &&& path_views(o.remove_files@) == request_files(*old(self), q)
                        &&& o.stop == request_stops(q)
                    }
                },
            },
    {
        assert(path_views(Seq::<String>::empty()) =~= Seq::empty());
        let req = match req {
            Some(req) => req,
            None => {
                let mut o = answer(Reply::Silent);
                o.stop = true;
                return Ok(o);
            },
        };
        match req {
            Request::GetOrCreate { hash, rows } => {
                match self.get_or_create(hash, rows) {
                    Ok(step) => Ok(empty_files(answer(Reply::Handle(step)))),
                    Err(e) => Err(e),
                }
            },
            Request::ImportEntry { hash, data_location, outboard_location, entry } => {
                let mut o = answer(Reply::Done);
                o.ops = self.import_entry(hash, data_location, outboard_location, entry);
                Ok(empty_files(o))
            },
            Request::Get { hash, rows } => {
                match self.get(hash, rows) {
                    Ok(step) => Ok(empty_files(answer(Reply::Handle(step)))),
                    Err(e) => Err(e),
                }
            },
            Request::DataLocation { hash, entry, inline_data } => {
                let location = self.data_location(hash, &entry, inline_data);
                Ok(empty_files(answer(Reply::Location(location))))
            },
            Request::EntryStatus { hash, entry } => {
                let status = self.entry_status(hash, &entry);
                Ok(empty_files(answer(Reply::Status(status))))
            },
            Request::Blobs { rows } => {
                let hashes = self.blobs(rows);
                Ok(empty_files(answer(Reply::Hashes(hashes))))
            },
            Request::PartialBlobs { rows } => {
                let hashes = self.blobs(rows);
                Ok(empty_files(answer(Reply::Hashes(hashes))))
            },
            Request::Tags { rows } => {
                let tags = self.tags(rows);
                Ok(empty_files(answer(Reply::Tags(tags))))
            },
            Request::CreateTag { candidate, taken, content } => {
                match self.create_tag(candidate, taken, content) {
                    CreateTag::Taken => Ok(empty_files(answer(Reply::TagTaken))),
                    CreateTag::Created { tag, op } => {
                        let mut o = answer(Reply::Tag(tag));
                        o.ops.push(op);
                        Ok(empty_files(o))
                    },
                }
            },
            Request::SetTag { tag, value } => {
                let mut o = answer(Reply::Done);
                o.ops.push(self.set_tag(tag, value));
                Ok(empty_files(o))
            },
            Request::OnInlineSizeExceeded { hash, entry } => {
                let mut o = answer(Reply::Silent);
                o.ops = self.on_inline_size_exceeded(hash, entry);
                Ok(empty_files(o))
            },
            Request::OnComplete { hash, done } => {
                let mut o = answer(Reply::Silent);
                o.ops = self.on_complete(hash, done);
                Ok(empty_files(o))
            },
            Request::Dump => Ok(empty_files(answer(Reply::Dump))),
            Request::Sync => Ok(empty_files(answer(Reply::Done))),
            Request::Delete { hashes, entries } => {
                let deletion = self.delete(&hashes, &entries);
                let mut o = answer(Reply::Done);
                o.ops = deletion.ops;
                o.remove_files = deletion.remove_files;
                Ok(o)
            },
            Request::Shutdown => {
                let mut o = answer(Reply::Silent);
                o.stop = true;
                Ok(empty_files(o))
            },
        }
    }
}

/// An outcome that removes no files, as it is.
fn empty_files(o: Outcome) -> (r: Outcome)
    requires
        o.remove_files@.len() == 0,
    ensures
        r == o,
        path_views(r.remove_files@) == Seq::<Seq<char>>::empty(),
{
    assert(path_views(o.remove_files@) =~= Seq::empty());
    o
}

/// What a batch of requests does next.
#[derive(Debug, Clone, Copy, PartialEq, Eq, Structural)]
pub enum BatchStep {
    /// Wait for a request.
    Wait,
    /// Take a request if there is one.
    Try,
    /// The batch is done. It tells whether there was nothing more to take.
    Done { drained: bool },
}

/// What a batch got.
#[derive(Debug)]
pub enum BatchEvent {
    /// Nothing was asked for yet.
    Start,
    /// A request, which is in the batch now.
    Received,
    /// No request, now or ever.
    Nothing,
}

/// What a batch of up to `n` requests does next, with `taken` of them in it.
pub open spec fn batch_step(n: usize, taken: usize, event: BatchEvent) -> BatchStep {
    match event {
        BatchEvent::Start => BatchStep::Wait,
        BatchEvent::Nothing => BatchStep::Done { drained: true },
        BatchEvent::Received => if taken < n {
            BatchStep::Try
        } else {
            BatchStep::Done { drained: false }
        },
    }
}

/// Takes up to `n` requests that are there already, after waiting for a first
/// one. `taken` is the number in the batch.
pub fn recv_batch(n: usize, taken: usize, event: BatchEvent) -> (r: BatchStep)
    ensures
        r == batch_step(n, taken, event),
{
    match event {
        BatchEvent::Start => BatchStep::Wait,
        BatchEvent::Nothing => BatchStep::Done { drained: true },
        BatchEvent::Received => {
            if taken < n {
                BatchStep::Try
            } else {
                BatchStep::Done { drained: false }
            }
        },
    }
}

/// A batch waits for its first request and then takes what is there, until it is
/// full or nothing is left. It says which of the two ended it.
pub proof fn batches_end_when_full_or_drained(n: usize, taken: usize)
    ensures
        batch_step(n, taken, BatchEvent::Start) == BatchStep::Wait,
        batch_step(n, taken, BatchEvent::Received) == BatchStep::Try <==> taken < n,
        taken >= n <==> batch_step(n, taken, BatchEvent::Received) == (BatchStep::Done {
            drained: false,
        }),
        batch_step(n, taken, BatchEvent::Nothing) == (BatchStep::Done { drained: true }),
{
}

} // verus!
