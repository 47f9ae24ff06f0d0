//! The actor of the store: how it answers each request from the rows that it
//! reads, and which rows it changes.

use crate::buf::{bytes_content, bytes_from_vec, bytes_len};
use crate::keymap::KeyMap;
use crate::store::entry::{
    spec_default_entry, DataLocation, EntryState, EntryStatus, OutboardLocation,
};
use crate::store::error::{ActorError, StoreError};
use crate::store::hash::{BlobHash, HashAndFormat, Tag};
use crate::store::options::{data_file, outboard_file, Options};
use crate::store::outboard::{raw_outboard_size, spec_raw_outboard_size};
use crate::store::tables::TableOp;
use crate::vecs::reversed;
use bytes::Bytes;
use vstd::prelude::*;

verus! {

/// Something that is in memory or in a file.
#[derive(Debug)]
pub enum MemOrFile<M, F> {
    Mem(M),
    File(F),
}

/// Where a blob is read from: its bytes, or the path and size of a file.
pub type Source = MemOrFile<Bytes, (String, u64)>;

/// Where a blob is read from, with bytes and characters in place of what holds
/// them.
pub type SourceView = MemOrFile<Seq<u8>, (Seq<char>, u64)>;

/// A source with bytes and characters in place of what holds them.
pub open spec fn source_view(s: Source) -> SourceView {
    match s {
        MemOrFile::Mem(b) => MemOrFile::Mem(bytes_content(b)),
        MemOrFile::File((path, size)) => MemOrFile::File((path@, size)),
    }
}

/// The size of a source.
pub open spec fn source_size(s: SourceView) -> u64 {
    match s {
        MemOrFile::Mem(b) => b.len() as u64,
        MemOrFile::File((_, size)) => size,
    }
}

/// The content of an optional row.
pub open spec fn row_content(row: Option<Bytes>) -> Option<Seq<u8>> {
    match row {
        Some(b) => Some(bytes_content(b)),
        None => None,
    }
}

/// Where the data of a complete entry is read from. An inlined entry without its
/// row is an inconsistency. Nothing is said of external files, which cannot be
/// opened.
pub open spec fn spec_load_data(
    data_path: Seq<char>,
    location: DataLocation<(), u64>,
    hash: BlobHash,
    inline: Option<Seq<u8>>,
) -> Result<SourceView, StoreError> {
    match (location, inline) {
        (DataLocation::Inline(_), Some(data)) => Ok(MemOrFile::Mem(data)),
        (DataLocation::Inline(_), None) => Err(StoreError::MissingInlineData(hash)),
        (DataLocation::Owned(size), _) => Ok(MemOrFile::File((data_file(data_path, hash), size))),
        (DataLocation::External(_, _), _) => arbitrary(),
    }
}

/// Where the data of a complete entry is read from. `inline` is its row in the
/// table of inlined data.
///
/// Data in external files cannot be opened for sharing.
pub fn load_data(
    options: &Options,
    location: DataLocation<(), u64>,
    hash: &BlobHash,
    inline: Option<Bytes>,
) -> (r: Result<Source, StoreError>)
    requires
        !(location is External),
    ensures
        (match r {
            Ok(s) => Ok(source_view(s)),
            Err(e) => Err(e),
        }) == spec_load_data(options.data_path@, location, *hash, row_content(inline)),
{
    match location {
        DataLocation::Inline(_) => {
            match inline {
                Some(data) => Ok(MemOrFile::Mem(data)),
                None => Err(StoreError::MissingInlineData(*hash)),
            }
        },
        DataLocation::Owned(data_size) => Ok(
            MemOrFile::File((options.owned_data_path(hash), data_size)),
        ),
        DataLocation::External(_, _) => unreached(),
    }
}

/// Where the outboard of a complete entry of the given size is read from.
pub open spec fn spec_load_outboard(
    data_path: Seq<char>,
    location: OutboardLocation<()>,
    size: u64,
    hash: BlobHash,
    inline: Option<Seq<u8>>,
) -> Result<SourceView, StoreError> {
    match (location, inline) {
        (OutboardLocation::NotNeeded, _) => Ok(MemOrFile::Mem(Seq::empty())),
        (OutboardLocation::Inline(_), Some(outboard)) => Ok(MemOrFile::Mem(outboard)),
        (OutboardLocation::Inline(_), None) => Err(StoreError::MissingInlineOutboard(hash)),
        (OutboardLocation::Owned, _) => Ok(
            MemOrFile::File((outboard_file(data_path, hash), spec_raw_outboard_size(size))),
        ),
    }
}

/// Where the outboard of a complete entry of the given size is read from.
/// `inline` is its row in the table of inlined outboards.
pub fn load_outboard(
    options: &Options,
    location: OutboardLocation<()>,
    size: u64,
    hash: &BlobHash,
    inline: Option<Bytes>,
) -> (r: Result<Source, StoreError>)
    ensures
        (match r {
            Ok(s) => Ok(source_view(s)),
            Err(e) => Err(e),
        }) == spec_load_outboard(options.data_path@, location, size, *hash, row_content(inline)),
{
    match location {
        OutboardLocation::NotNeeded => Ok(MemOrFile::Mem(bytes_from_vec(Vec::new()))),
        OutboardLocation::Inline(_) => {
            match inline {
                Some(outboard) => Ok(MemOrFile::Mem(outboard)),
                None => Err(StoreError::MissingInlineOutboard(*hash)),
            }
        },
        OutboardLocation::Owned => Ok(
            MemOrFile::File((options.owned_outboard_path(hash), raw_outboard_size(size))),
        ),
    }
}

/// The rows of one hash.
#[derive(Debug)]
pub struct Rows {
    pub entry: Option<EntryState>,
    pub inline_data: Option<Bytes>,
    pub inline_outboard: Option<Bytes>,
}

impl Rows {
    /// The entry can be opened: it is not in external files.
    pub open spec fn openable(self) -> bool {
        self.entry matches Some(e) ==> !e.is_external()
    }
}

/// How a handle on an entry is made.
#[derive(Debug)]
pub enum HandlePlan {
    /// From complete data and its outboard.
    Complete { data: Source, outboard: Source },
    /// From the files of a partial entry.
    Partial,
    /// From nothing, in memory.
    Mem,
}

/// How a handle on an entry is made, with bytes and characters in place of what
/// holds them.
pub enum HandlePlanView {
    Complete { data: SourceView, outboard: SourceView },
    Partial,
    Mem,
}

/// A plan with bytes and characters in place of what holds them.
pub open spec fn plan_view(p: HandlePlan) -> HandlePlanView {
    match p {
        HandlePlan::Complete { data, outboard } => HandlePlanView::Complete {
            data: source_view(data),
            outboard: source_view(outboard),
        },
        HandlePlan::Partial => HandlePlanView::Partial,
        HandlePlan::Mem => HandlePlanView::Mem,
    }
}

/// How a handle on a stored entry is made.
pub open spec fn open_plan(
    data_path: Seq<char>,
    hash: BlobHash,
    entry: EntryState,
    inline_data: Option<Seq<u8>>,
    inline_outboard: Option<Seq<u8>>,
) -> Result<HandlePlanView, StoreError> {
    match entry {
        EntryState::Partial { .. } => Ok(HandlePlanView::Partial),
        EntryState::Complete { data_location, outboard_location } => match spec_load_data(
            data_path,
            data_location,
            hash,
            inline_data,
        ) {
            Err(e) => Err(e),
            Ok(data) => match spec_load_outboard(
                data_path,
                outboard_location,
                source_size(data),
                hash,
                inline_outboard,
            ) {
                Err(e) => Err(e),
                Ok(outboard) => Ok(HandlePlanView::Complete { data, outboard }),
            },
        },
    }
}

/// An open handle, as the actor knows it: its number, and whether all of its
/// data is there. A handle is complete from the start if it is made from
/// complete data, and becomes so when its entry is completed.
#[derive(Debug, Clone, Copy, PartialEq, Eq, Structural)]
pub struct CachedHandle {
    pub id: u64,
    pub complete: bool,
}

/// What looking up an entry comes to.
#[derive(Debug)]
pub enum GetStep {
    /// There is an open handle.
    Cached(u64),
    /// There is no such entry.
    NotFound,
    /// A handle has to be made.
    Open(HandlePlan),
}

/// What looking up an entry comes to, with bytes and characters in place of what
/// holds them.
pub enum GetStepView {
    Cached(u64),
    NotFound,
    Open(HandlePlanView),
}

/// The result of a lookup with bytes and characters in place of what holds them.
pub open spec fn get_view(r: Result<GetStep, StoreError>) -> Result<GetStepView, StoreError> {
    match r {
        Ok(GetStep::Cached(id)) => Ok(GetStepView::Cached(id)),
        Ok(GetStep::NotFound) => Ok(GetStepView::NotFound),
        Ok(GetStep::Open(p)) => Ok(GetStepView::Open(plan_view(p))),
        Err(e) => Err(e),
    }
}

/// What looking up an entry comes to. An open handle is used again; where there
/// is no entry, `missing` says what then.
pub open spec fn lookup(
    cached: Option<CachedHandle>,
    data_path: Seq<char>,
    hash: BlobHash,
    rows: Rows,
    missing: GetStepView,
) -> Result<GetStepView, StoreError> {
    match cached {
        Some(handle) => Ok(GetStepView::Cached(handle.id)),
        None => match rows.entry {
            None => Ok(missing),
            Some(entry) => match open_plan(
                data_path,
                hash,
                entry,
                row_content(rows.inline_data),
                row_content(rows.inline_outboard),
            ) {
                Ok(plan) => Ok(GetStepView::Open(plan)),
                Err(e) => Err(e),
            },
        },
    }
}

/// Where the data of a blob is: its bytes, or the path and size of a file and
/// whether the store owns it.
pub type Location = MemOrFile<Bytes, (String, u64, bool)>;

/// Where the data of a blob is, with bytes and characters in place of what holds
/// them.
pub type LocationView = MemOrFile<Seq<u8>, (Seq<char>, u64, bool)>;

/// A location with bytes and characters in place of what holds them.
pub open spec fn location_view(l: Option<Location>) -> Option<LocationView> {
    match l {
        Some(MemOrFile::Mem(b)) => Some(MemOrFile::Mem(bytes_content(b))),
        Some(MemOrFile::File((path, size, owned))) => Some(MemOrFile::File((path@, size, owned))),
        None => None,
    }
}

/// Where the data of a complete entry is; of any other, nowhere.
pub open spec fn spec_data_location(
    data_path: Seq<char>,
    hash: BlobHash,
    entry: Option<EntryState>,
    inline: Option<Seq<u8>>,
) -> Option<LocationView> {
    match entry {
        Some(EntryState::Complete { data_location, .. }) => match data_location {
            DataLocation::Inline(_) => match inline {
                Some(data) => Some(MemOrFile::Mem(data)),
                None => None,
            },
            DataLocation::External(paths, size) => Some(
                MemOrFile::File((paths@[0]@, size, false)),
            ),
            DataLocation::Owned(size) => Some(
                MemOrFile::File((data_file(data_path, hash), size, true)),
            ),
        },
        _ => None,
    }
}

/// An entry, or what is known of one that has no row.
pub open spec fn or_default(entry: Option<EntryState>) -> EntryState {
    match entry {
        Some(e) => e,
        None => spec_default_entry(),
    }
}

/// The changes that an import makes: the inlined parts get their rows, and the
/// entry becomes complete unless it was so already.
pub open spec fn import_ops(
    hash: BlobHash,
    data_location: DataLocation<Bytes, u64>,
    outboard_location: OutboardLocation<Bytes>,
    entry: Option<EntryState>,
) -> Seq<TableOp> {
    let data = match data_location {
        DataLocation::Inline(data) => seq![TableOp::InsertInlineData(hash, data)],
        _ => Seq::empty(),
    };
    let outboard = match outboard_location {
        OutboardLocation::Inline(ob) => seq![TableOp::InsertInlineOutboard(hash, ob)],
        _ => Seq::empty(),
    };
    let imported = EntryState::Complete {
        data_location: data_location.spec_discard_inline_data(),
        outboard_location: outboard_location.spec_discard_extra_data(),
    };
    (data + outboard).push(
        TableOp::InsertBlob(hash, or_default(entry).spec_union(imported)),
    )
}

/// The changes that an entry makes that no longer fits in memory: it has a row
/// from then on.
pub open spec fn exceeded_ops(hash: BlobHash, entry: Option<EntryState>) -> Seq<TableOp> {
    seq![
        TableOp::InsertBlob(
            hash,
            or_default(entry).spec_union(EntryState::Partial { size: None }),
        ),
    ]
}

/// Complete data and its outboard, each in memory or in a file of the store of
/// the given size.
#[derive(Debug)]
pub struct CompletedStorage {
    pub data: MemOrFile<Bytes, u64>,
    pub outboard: MemOrFile<Bytes, u64>,
}

/// The size of something in memory or in a file.
pub open spec fn stored_size(s: MemOrFile<Bytes, u64>) -> u64 {
    match s {
        MemOrFile::Mem(b) => bytes_content(b).len() as u64,
        MemOrFile::File(size) => size,
    }
}

/// The entry of completed data: what is in memory is inlined.
pub open spec fn completed_entry(done: CompletedStorage) -> EntryState {
    EntryState::Complete {
        data_location: match done.data {
            MemOrFile::Mem(_) => DataLocation::Inline(()),
            MemOrFile::File(size) => DataLocation::Owned(size),
        },
        outboard_location: if stored_size(done.outboard) == 0 {
            OutboardLocation::NotNeeded
        } else {
            match done.outboard {
                MemOrFile::Mem(_) => OutboardLocation::Inline(()),
                MemOrFile::File(_) => OutboardLocation::Owned,
            }
        },
    }
}

/// The changes that completing an entry makes.
pub open spec fn complete_ops(hash: BlobHash, done: CompletedStorage) -> Seq<TableOp> {
    let blob = seq![TableOp::InsertBlob(hash, completed_entry(done))];
    let data = match done.data {
        MemOrFile::Mem(data) => seq![TableOp::InsertInlineData(hash, data)],
        _ => Seq::empty(),
    };
    let outboard = match done.outboard {
        MemOrFile::Mem(ob) => seq![TableOp::InsertInlineOutboard(hash, ob)],
        _ => Seq::empty(),
    };
    blob + data + outboard
}

/// The changes that deleting one blob makes. `entry` is the row that it had.
pub open spec fn delete_one_ops(hash: BlobHash, entry: Option<EntryState>) -> Seq<TableOp> {
    let blob = seq![TableOp::RemoveBlob(hash)];
    match entry {
        Some(EntryState::Complete { data_location, outboard_location }) => {
            let data = if data_location is Inline {
                seq![TableOp::RemoveInlineData(hash)]
            } else {
                Seq::empty()
            };
            let outboard = if outboard_location is Inline {
                seq![TableOp::RemoveInlineOutboard(hash)]
            } else {
                Seq::empty()
            };
            blob + data + outboard
        },
        _ => blob,
    }
}

/// The files that deleting one blob removes: those that the store owns.
pub open spec fn delete_one_files(
    data_path: Seq<char>,
    hash: BlobHash,
    entry: Option<EntryState>,
) -> Seq<Seq<char>> {
    match entry {
        Some(EntryState::Complete { data_location, outboard_location }) => {
            let data = if data_location is Owned {
                seq![data_file(data_path, hash)]
            } else {
                Seq::empty()
            };
            let outboard = if outboard_location is Owned {
                seq![outboard_file(data_path, hash)]
            } else {
                Seq::empty()
            };
            data + outboard
        },
        _ => Seq::empty(),
    }
}

/// The changes that deleting blobs makes, one blob after the other.
pub open spec fn delete_ops(hashes: Seq<BlobHash>, entries: Seq<Option<EntryState>>) -> Seq<TableOp>
    decreases hashes.len(),
{
    if hashes.len() == 0 {
        Seq::empty()
    } else {
        let n = hashes.len() - 1;
        delete_ops(hashes.drop_last(), entries) + delete_one_ops(hashes[n], entries[n])
    }
}

/// The files that deleting blobs removes.
pub open spec fn delete_files(
    data_path: Seq<char>,
    hashes: Seq<BlobHash>,
    entries: Seq<Option<EntryState>>,
) -> Seq<Seq<char>>
    decreases hashes.len(),
{
    if hashes.len() == 0 {
        Seq::empty()
    } else {
        let n = hashes.len() - 1;
        delete_files(data_path, hashes.drop_last(), entries) + delete_one_files(
            data_path,
            hashes[n],
            entries[n],
        )
    }
}

/// The text of each path.
pub open spec fn path_views(paths: Seq<String>) -> Seq<Seq<char>> {
    paths.map_values(|p: String| p@)
}

/// What deleting blobs asks for.
#[derive(Debug)]
pub struct Deletion {
    pub ops: Vec<TableOp>,
    pub remove_files: Vec<String>,
}

/// What creating a tag comes to.
#[derive(Debug)]
pub enum CreateTag {
    /// The name is taken: try another one.
    Taken,
    /// The tag is created.
    Created { tag: Tag, op: TableOp },
}

/// The hashes of the rows whose completeness is as asked for, in order. A row
/// that cannot be read is an error in its place.
pub open spec fn listed(
    rows: Seq<Result<(BlobHash, EntryState), ActorError>>,
    complete: bool,
    r: Seq<Result<BlobHash, StoreError>>,
) -> bool
    decreases rows.len(),
{
    if rows.len() == 0 {
        r.len() == 0
    } else {
        match rows.last() {
            Ok((hash, entry)) => if (entry is Complete) == complete {
                r.len() > 0 && r.last() == Ok::<BlobHash, StoreError>(hash) && listed(
                    rows.drop_last(),
                    complete,
                    r.drop_last(),
                )
            } else {
                listed(rows.drop_last(), complete, r)
            },
            Err(e) => r.len() > 0 && is_io_of(e, r.last()) && listed(
                rows.drop_last(),
                complete,
                r.drop_last(),
            ),
        }
    }
}

/// `r` is the error `e` as an error of the store.
pub open spec fn is_io_of<T>(e: ActorError, r: Result<T, StoreError>) -> bool {
    match e {
        ActorError::Io(io) => r == Err::<T, _>(io),
        _ => r matches Err(StoreError::Other(text)) && text@ == e.spec_text(),
    }
}

/// Lists the rows whose completeness is as asked for.
fn list_rows(rows: Vec<Result<(BlobHash, EntryState), ActorError>>, complete: bool) -> (r: Vec<
    Result<BlobHash, StoreError>,
>)
    ensures
        listed(rows@, complete, r@),
{
    let ghost all = rows@;
    let mut rest = reversed(rows);
    let mut out: Vec<Result<BlobHash, StoreError>> = Vec::new();
    let ghost mut n: int = 0;
    assert(all.take(0) =~= Seq::empty());
    while rest.len() > 0
        invariant
            0 <= n <= all.len(),
            rest@ == all.subrange(n, all.len() as int).reverse(),
            listed(all.take(n), complete, out@),
        decreases rest@.len(),
    {
        let ghost before = rest@;
        let ghost done = out@;
        if let Some(item) = rest.pop() {
            proof {
                assert(item == all[n]);
                assert(rest@ =~= all.subrange(n + 1, all.len() as int).reverse());
                assert(all.take(n + 1).drop_last() =~= all.take(n));
            }
            match item {
                Ok((hash, entry)) => {
                    if entry.complete() == complete {
                        out.push(Ok(hash));
                        assert(out@.drop_last() =~= done);
                    }
                },
                Err(e) => {
                    out.push(Err(e.into_io()));
                    assert(out@.drop_last() =~= done);
                },
            }
            proof {
                n = n + 1;
            }
        }
    }
    assert(all.take(n) =~= all);
    out
}

/// The tags of the rows, in order. A row that cannot be read is an error in its
/// place.
pub open spec fn tags_listed(
    rows: Seq<Result<(Tag, HashAndFormat), ActorError>>,
    r: Seq<Result<(Tag, HashAndFormat), StoreError>>,
) -> bool {
    &&& r.len() == rows.len()
    &&& forall|i: int|
        0 <= i < rows.len() ==> match #[trigger] rows[i] {
            Ok(tag) => r[i] == Ok::<(Tag, HashAndFormat), StoreError>(tag),
            Err(e) => is_io_of(e, r[i]),
        }
}

/// Whether an entry is in the store: an open handle knows, and else its row.
pub open spec fn status_of(
    actor: RedbActor,
    hash: BlobHash,
    entry: Option<EntryState>,
) -> EntryStatus {
    let complete = match actor.cached(hash) {
        Some(handle) => Some(handle.complete),
        None => match entry {
            Some(e) => Some(e is Complete),
            None => None,
        },
    };
    match complete {
        Some(true) => EntryStatus::Complete,
        Some(false) => EntryStatus::Partial,
        None => EntryStatus::NotFound,
    }
}

/// The open handles after an entry was completed: the one on its hash, if there
/// is one, is complete from then on.
pub open spec fn handles_completed(
    state: Map<BlobHash, CachedHandle>,
    hash: BlobHash,
) -> Map<BlobHash, CachedHandle> {
    if state.dom().contains(hash) {
        state.insert(hash, CachedHandle { complete: true, ..state[hash] })
    } else {
        state
    }
}

/// The actor of the store.
#[derive(Debug)]
pub struct RedbActor {
    /// The open handles.
    pub state: KeyMap<BlobHash, CachedHandle>,
    /// The number of the next handle.
    pub next_id: u64,
    pub options: Options,
}

impl RedbActor {
    /// No hash has two handles.
    pub open spec fn wf(&self) -> bool {
        self.state.wf()
    }

    /// The open handle on a hash.
    pub open spec fn cached(&self, hash: BlobHash) -> Option<CachedHandle> {
        crate::store::tables::row(self.state@, hash)
    }

    /// An actor without open handles.
    pub fn new(options: Options) -> (r: Self)
        ensures
            r.wf(),
            r.state@ == Map::<BlobHash, CachedHandle>::empty(),
            r.next_id == 0,
            r.options == options,
    {
        RedbActor { state: KeyMap::new(), next_id: 0, options }
    }

    /// Whether an entry is in the store. `entry` is its row.
    pub fn entry_status(&self, hash: BlobHash, entry: &Option<EntryState>) -> (r: EntryStatus)
        requires
            self.wf(),
        ensures
            r == status_of(*self, hash, *entry),
    {
        if let Some(handle) = self.state.get(&hash) {
            return if handle.complete {
                EntryStatus::Complete
            } else {
                EntryStatus::Partial
            };
        }
        match entry {
            Some(e) => {
                if e.complete() {
                    EntryStatus::Complete
                } else {
                    EntryStatus::Partial
                }
            },
            None => EntryStatus::NotFound,
        }
    }

    /// How a handle on a stored entry is made.
    fn open(
        &self,
        hash: BlobHash,
        entry: EntryState,
        inline_data: Option<Bytes>,
        inline_outboard: Option<Bytes>,
    ) -> (r: Result<HandlePlan, StoreError>)
        requires
            !entry.is_external(),
        ensures
            (match r {
                Ok(p) => Ok(plan_view(p)),
                Err(e) => Err(e),
            }) == open_plan(
                self.options.data_path@,
                hash,
                entry,
                row_content(inline_data),
                row_content(inline_outboard),
            ),
    {
        match entry {
            EntryState::Complete { data_location, outboard_location } => {
                let data = match load_data(&self.options, data_location, &hash, inline_data) {
                    Ok(data) => data,
                    Err(e) => {
                        return Err(e);
                    },
                };
                let size: u64 = match &data {
                    MemOrFile::Mem(b) => bytes_len(b) as u64,
                    MemOrFile::File((_, size)) => *size,
                };
                match load_outboard(
                    &self.options,
                    outboard_location,
                    size,
                    &hash,
                    inline_outboard,
                ) {
                    Ok(outboard) => Ok(HandlePlan::Complete { data, outboard }),
                    Err(e) => Err(e),
                }
            },
            EntryState::Partial { .. } => Ok(HandlePlan::Partial),
        }
    }

    /// Looks up an entry.
    pub fn get(&self, hash: BlobHash, rows: Rows) -> (r: Result<GetStep, StoreError>)
        requires
            self.wf(),
            self.cached(hash) is None ==> rows.openable(),
        ensures
            get_view(r) == lookup(
                self.cached(hash),
                self.options.data_path@,
                hash,
                rows,
                GetStepView::NotFound,
            ),
    {
        if let Some(handle) = self.state.get(&hash) {
            return Ok(GetStep::Cached(handle.id));
        }
        match rows.entry {
            Some(entry) => {
                match self.open(hash, entry, rows.inline_data, rows.inline_outboard) {
                    Ok(plan) => Ok(GetStep::Open(plan)),
                    Err(e) => Err(e),
                }
            },
            None => Ok(GetStep::NotFound),
        }
    }

    /// Looks up an entry, and starts a new one in memory if there is none.
    pub fn get_or_create(&self, hash: BlobHash, rows: Rows) -> (r: Result<GetStep, StoreError>)
        requires
            self.wf(),
            self.cached(hash) is None ==> rows.openable(),
        ensures
            get_view(r) == lookup(
                self.cached(hash),
                self.options.data_path@,
                hash,
                rows,
                GetStepView::Open(HandlePlanView::Mem),
            ),
    {
        match self.get(hash, rows) {
            Ok(GetStep::NotFound) => Ok(GetStep::Open(HandlePlan::Mem)),
            r => r,
        }
    }

    /// The actor after a handle was made, which has the number `id`.
    pub open spec fn has_opened(
        self,
        hash: BlobHash,
        complete: bool,
        id: u64,
        after: RedbActor,
    ) -> bool {
        &&& id == self.next_id
        &&& after.next_id == self.next_id + 1
        &&& after.options == self.options
        &&& after.state@ == self.state@.insert(hash, CachedHandle { id, complete })
    }

    /// A handle was made. From now on it is the handle on its hash.
    pub fn opened(&mut self, hash: BlobHash, complete: bool) -> (id: u64)
        requires
            old(self).wf(),
            old(self).next_id < u64::MAX,
        ensures
            final(self).wf(),
            old(self).has_opened(hash, complete, id, *final(self)),
    {
        let id: u64 = self.next_id;
        self.next_id = id + 1;
        self.state.insert(hash, CachedHandle { id, complete });
        id
    }

    /// Where the data of a blob is. `entry` and `inline` are its rows.
    pub fn data_location(
        &self,
        hash: BlobHash,
        entry: &Option<EntryState>,
        inline: Option<Bytes>,
    ) -> (r: Option<Location>)
        requires
            entry matches Some(e) ==> e.wf(),
        ensures
            location_view(r) == spec_data_location(
                self.options.data_path@,
                hash,
                *entry,
                row_content(inline),
            ),
    {
        match entry {
            Some(EntryState::Complete { data_location, .. }) => {
                match data_location {
                    DataLocation::Inline(_) => {
                        match inline {
                            Some(data) => Some(MemOrFile::Mem(data)),
                            None => None,
                        }
                    },
                    DataLocation::External(paths, size) => Some(
                        MemOrFile::File((paths[0].clone(), *size, false)),
                    ),
                    DataLocation::Owned(size) => Some(
                        MemOrFile::File((self.options.owned_data_path(&hash), *size, true)),
                    ),
                }
            },
            _ => None,
        }
    }

    /// Stores an imported blob. `entry` is the row that it had.
    pub fn import_entry(
        &self,
        hash: BlobHash,
        data_location: DataLocation<Bytes, u64>,
        outboard_location: OutboardLocation<Bytes>,
        entry: Option<EntryState>,
    ) -> (r: Vec<TableOp>)
        ensures
            r@ == import_ops(hash, data_location, outboard_location, entry),
    {
        let ghost entry_before = entry;
        let mut ops: Vec<TableOp> = Vec::new();
        let data_place = match data_location {
            DataLocation::Inline(data) => {
                ops.push(TableOp::InsertInlineData(hash, data));
                DataLocation::Inline(())
            },
            DataLocation::Owned(size) => DataLocation::Owned(size),
            DataLocation::External(paths, size) => DataLocation::External(paths, size),
        };
        let outboard_place = match outboard_location {
            OutboardLocation::Inline(outboard) => {
                ops.push(TableOp::InsertInlineOutboard(hash, outboard));
                OutboardLocation::Inline(())
            },
            OutboardLocation::Owned => OutboardLocation::Owned,
            OutboardLocation::NotNeeded => OutboardLocation::NotNeeded,
        };
        let entry = match entry {
            Some(e) => e,
            None => EntryState::default(),
        };
        let entry = entry.union(
            EntryState::Complete { data_location: data_place, outboard_location: outboard_place },
        );
        ops.push(TableOp::InsertBlob(hash, entry));
        assert(ops@ =~= import_ops(hash, data_location, outboard_location, entry_before));
        ops
    }

    /// An entry in memory got too large: it has files, and a row, from now on.
    pub fn on_inline_size_exceeded(&self, hash: BlobHash, entry: Option<EntryState>) -> (r: Vec<
        TableOp,
    >)
        ensures
            r@ == exceeded_ops(hash, entry),
    {
        let entry = match entry {
            Some(e) => e,
            None => EntryState::default(),
        };
        let entry = entry.union(EntryState::Partial { size: None });
        let mut ops: Vec<TableOp> = Vec::new();
        ops.push(TableOp::InsertBlob(hash, entry));
        ops
    }

    /// The handle on an entry that is to be completed. Without an open handle
    /// there is nothing to complete.
    pub fn on_complete_handle(&self, hash: BlobHash) -> (r: Option<u64>)
        requires
            self.wf(),
        ensures
            r == (match self.cached(hash) {
                Some(handle) => Some(handle.id),
                None => None,
            }),
    {
        match self.state.get(&hash) {
            Some(handle) => Some(handle.id),
            None => None,
        }
    }

    /// An entry was completed, or was complete already. Without an open handle
    /// nothing was, and nothing changes.
    pub fn on_complete(&mut self, hash: BlobHash, done: Option<CompletedStorage>) -> (r: Vec<
        TableOp,
    >)
        requires
            old(self).wf(),
        ensures
            final(self).wf(),
            final(self).options == old(self).options,
            final(self).next_id == old(self).next_id,
            final(self).state@ == handles_completed(old(self).state@, hash),
            r@ == (match (old(self).cached(hash), done) {
                (Some(_), Some(done)) => complete_ops(hash, done),
                _ => Seq::empty(),
            }),
    {
        let id: u64 = match self.on_complete_handle(hash) {
            Some(id) => id,
            None => {
                return Vec::new();
            },
        };
        self.state.insert(hash, CachedHandle { id, complete: true });
        let mut ops: Vec<TableOp> = Vec::new();
        match done {
            Some(done) => {
                let ghost completed = done;
                let data_location = match &done.data {
                    MemOrFile::Mem(_) => DataLocation::Inline(()),
                    MemOrFile::File(size) => DataLocation::Owned(*size),
                };
                let outboard_size: u64 = match &done.outboard {
                    MemOrFile::Mem(b) => bytes_len(b) as u64,
                    MemOrFile::File(size) => *size,
                };
                let outboard_location = if outboard_size == 0 {
                    OutboardLocation::NotNeeded
                } else {
                    match &done.outboard {
                        MemOrFile::Mem(_) => OutboardLocation::Inline(()),
                        MemOrFile::File(_) => OutboardLocation::Owned,
                    }
                };
                ops.push(
                    TableOp::InsertBlob(
                        hash,
                        EntryState::Complete { data_location, outboard_location },
                    ),
                );
                if let MemOrFile::Mem(data) = done.data {
                    ops.push(TableOp::InsertInlineData(hash, data));
                }
                if let MemOrFile::Mem(outboard) = done.outboard {
                    ops.push(TableOp::InsertInlineOutboard(hash, outboard));
                }
                assert(ops@ =~= complete_ops(hash, completed));
            },
            None => {},
        }
        ops
    }

    /// Deletes blobs. `entries` are the rows that they had when their turn came.
    ///
    /// Inlined parts leave their tables, and files that the store owns are
    /// removed. Files of the user stay.
    pub fn delete(&self, hashes: &Vec<BlobHash>, entries: &Vec<Option<EntryState>>) -> (r: Deletion)
        requires
            entries@.len() == hashes@.len(),
        ensures
            r.ops@ == delete_ops(hashes@, entries@),
            path_views(r.remove_files@) == delete_files(
                self.options.data_path@,
                hashes@,
                entries@,
            ),
    {
        let ghost data_path = self.options.data_path@;
        let mut ops: Vec<TableOp> = Vec::new();
        let mut remove_files: Vec<String> = Vec::new();
        let mut i: usize = 0;
        assert(hashes@.take(0) =~= Seq::empty());
        assert(path_views(remove_files@) =~= Seq::empty());
        while i < hashes.len()
            invariant
                entries@.len() == hashes@.len(),
                data_path == self.options.data_path@,
                i <= hashes@.len(),
                ops@ == delete_ops(hashes@.take(i as int), entries@),
                path_views(remove_files@) == delete_files(
                    data_path,
                    hashes@.take(i as int),
                    entries@,
                ),
            decreases hashes@.len() - i,
        {
            let hash = hashes[i];
            let ghost ops_before = ops@;
            let ghost files_before = remove_files@;
            ops.push(TableOp::RemoveBlob(hash));
            if let Some(EntryState::Complete { data_location, outboard_location }) = &entries[i] {
                match data_location {
                    DataLocation::Inline(_) => {
                        ops.push(TableOp::RemoveInlineData(hash));
                    },
                    DataLocation::Owned(_) => {
                        remove_files.push(self.options.owned_data_path(&hash));
                    },
                    DataLocation::External(_, _) => {},
                }
                match outboard_location {
                    OutboardLocation::Inline(_) => {
                        ops.push(TableOp::RemoveInlineOutboard(hash));
                    },
                    OutboardLocation::Owned => {
                        remove_files.push(self.options.owned_outboard_path(&hash));
                    },
                    OutboardLocation::NotNeeded => {},
                }
            }
            proof {
                let n = i as int;
                assert(hashes@.take(n + 1).drop_last() =~= hashes@.take(n));
                assert(ops@ =~= ops_before + delete_one_ops(hash, entries@[n]));
                assert(path_views(remove_files@) =~= path_views(files_before) + delete_one_files(
                    data_path,
                    hash,
                    entries@[n],
                ));
            }
            i += 1;
        }
        assert(hashes@.take(i as int) =~= hashes@);
        Deletion { ops, remove_files }
    }

    /// The hashes of the complete entries. `rows` are all entries.
    pub fn blobs(&self, rows: Vec<Result<(BlobHash, EntryState), ActorError>>) -> (r: Vec<
        Result<BlobHash, StoreError>,
    >)
        ensures
            listed(rows@, true, r@),
    {
        list_rows(rows, true)
    }

    /// The hashes of the partial entries. `rows` are all entries.
    pub fn partial_blobs(&self, rows: Vec<Result<(BlobHash, EntryState), ActorError>>) -> (r: Vec<
        Result<BlobHash, StoreError>,
    >)
        ensures
            listed(rows@, false, r@),
    {
        list_rows(rows, false)
    }

    /// The tags. `rows` are all tags.
    pub fn tags(&self, rows: Vec<Result<(Tag, HashAndFormat), ActorError>>) -> (r: Vec<
        Result<(Tag, HashAndFormat), StoreError>,
    >)
        ensures
            tags_listed(rows@, r@),
    {
        let ghost all = rows@;
        let mut rest = reversed(rows);
        let mut out: Vec<Result<(Tag, HashAndFormat), StoreError>> = Vec::new();
        while rest.len() > 0
            invariant
                out@.len() <= all.len(),
                rest@ == all.subrange(out@.len() as int, all.len() as int).reverse(),
                tags_listed(all.take(out@.len() as int), out@),
            decreases rest@.len(),
        {
            let ghost n = out@.len() as int;
            let ghost done = out@;
            if let Some(item) = rest.pop() {
                proof {
                    assert(item == all[n]);
                    assert(rest@ =~= all.subrange(n + 1, all.len() as int).reverse());
                }
                match item {
                    Ok(tag) => {
                        out.push(Ok(tag));
                    },
                    Err(e) => {
                        out.push(Err(e.into_io()));
                    },
                }
                proof {
                    assert forall|i: int| 0 <= i < n + 1 implies match #[trigger] all.take(
                        n + 1,
                    )[i] {
                        Ok(tag) => out@[i] == Ok::<(Tag, HashAndFormat), StoreError>(tag),
                        Err(e) => is_io_of(e, out@[i]),
                    } by {
                        if i < n {
                            assert(all.take(n)[i] == all.take(n + 1)[i]);
                            assert(out@[i] == done[i]);
                        }
                    }
                }
            }
        }
        assert(all.take(out@.len() as int) =~= all);
        out
    }

    /// Gives a content a name of its own. A name that is taken is not used
    /// again.
    pub fn create_tag(&self, candidate: Tag, taken: bool, content: HashAndFormat) -> (r: CreateTag)
        ensures
            taken ==> r is Taken,
            !taken ==> {
                &&& r matches CreateTag::Created { tag, op } && tag@ == candidate@ && op
                    == TableOp::InsertTag(candidate, content)
            },
    {
        if taken {
            CreateTag::Taken
        } else {
            let tag = candidate.copy();
            CreateTag::Created { tag, op: TableOp::InsertTag(candidate, content) }
        }
    }

    /// Gives a name to a content, or takes a name away.
    pub fn set_tag(&self, tag: Tag, value: Option<HashAndFormat>) -> (r: TableOp)
        ensures
            r == (match value {
                Some(content) => TableOp::InsertTag(tag, content),
                None => TableOp::RemoveTag(tag),
            }),
    {
        match value {
            Some(value) => TableOp::InsertTag(tag, value),
            None => TableOp::RemoveTag(tag),
        }
    }
}

} // verus!
