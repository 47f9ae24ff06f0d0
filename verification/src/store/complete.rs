//! Completing an entry: data and outboard move to where complete ones belong.

use crate::buf::{bytes_content, bytes_from_vec, bytes_len};
use crate::store::actor::{completed_entry, CompletedStorage, MemOrFile};
use crate::store::entry::{DataLocation, EntryState, OutboardLocation};
use crate::store::hash::BlobHash;
use crate::store::options::{data_file, outboard_file, Options};
use bytes::Bytes;
use vstd::prelude::*;

verus! {

/// What the storage of an entry holds when it is to be completed.
#[derive(Debug)]
pub enum Storage {
    /// It is complete already.
    Complete,
    /// Everything is in memory.
    IncompleteMem { data: Bytes, outboard: Bytes },
    /// Everything is in the files of the store, of these sizes.
    IncompleteFile { data_size: u64, outboard_size: u64 },
}

impl Storage {
    /// The sizes of the data and of the outboard.
    pub open spec fn sizes(self) -> (u64, u64) {
        match self {
            Storage::Complete => (0, 0),
            Storage::IncompleteMem { data, outboard } => (
                bytes_content(data).len() as u64,
                bytes_content(outboard).len() as u64,
            ),
            Storage::IncompleteFile { data_size, outboard_size } => (data_size, outboard_size),
        }
    }
}

/// What happens to the data or the outboard of an entry that is completed.
#[derive(Debug)]
pub enum PartPlan {
    /// It stays in memory.
    KeepMem(Bytes),
    /// It is read from its file, of which nothing is left.
    ReadAndRemove { path: String, size: u64 },
    /// It is written to its file.
    Write { path: String, data: Bytes, size: u64 },
    /// It stays in its file.
    KeepFile { size: u64 },
}

/// What happens to a part, with bytes and characters in place of what holds
/// them.
pub enum PartPlanView {
    KeepMem(Seq<u8>),
    ReadAndRemove { path: Seq<char>, size: u64 },
    Write { path: Seq<char>, data: Seq<u8>, size: u64 },
    KeepFile { size: u64 },
}

/// A plan with bytes and characters in place of what holds them.
pub open spec fn part_view(p: PartPlan) -> PartPlanView {
    match p {
        PartPlan::KeepMem(b) => PartPlanView::KeepMem(bytes_content(b)),
        PartPlan::ReadAndRemove { path, size } => PartPlanView::ReadAndRemove { path: path@, size },
        PartPlan::Write { path, data, size } => PartPlanView::Write {
            path: path@,
            data: bytes_content(data),
            size,
        },
        PartPlan::KeepFile { size } => PartPlanView::KeepFile { size },
    }
}

/// What happens to a part of the given size: one of at most `max` bytes ends up
/// in memory, and a larger one in its file.
pub open spec fn part_plan(
    mem: Option<Seq<u8>>,
    size: u64,
    max: u64,
    path: Seq<char>,
) -> PartPlanView {
    match (size <= max, mem) {
        (true, Some(data)) => PartPlanView::KeepMem(data),
        (true, None) => PartPlanView::ReadAndRemove { path, size },
        (false, Some(data)) => PartPlanView::Write { path, data, size },
        (false, None) => PartPlanView::KeepFile { size },
    }
}

/// What happens to a part. `path` is its file.
fn plan_part(mem: Option<Bytes>, size: u64, max: u64, path: String) -> (r: PartPlan)
    ensures
        part_view(r) == part_plan(
            match mem {
                Some(b) => Some(bytes_content(b)),
                None => None,
            },
            size,
            max,
            path@,
        ),
{
    if size <= max {
        match mem {
            Some(data) => PartPlan::KeepMem(data),
            None => PartPlan::ReadAndRemove { path, size },
        }
    } else {
        match mem {
            Some(data) => PartPlan::Write { path, data, size },
            None => PartPlan::KeepFile { size },
        }
    }
}

/// What happens to an entry that is completed.
#[derive(Debug)]
pub struct CompletePlan {
    pub data: PartPlan,
    pub outboard: PartPlan,
}

/// The plan for a storage that is not complete: the data and the outboard are
/// planned by their sizes, and an empty outboard is not kept at all.
pub open spec fn completion(
    options: Options,
    hash: BlobHash,
    storage: Storage,
    plan: CompletePlan,
) -> bool {
    let (data_size, outboard_size) = storage.sizes();
    let (data, outboard) = match storage {
        Storage::IncompleteMem { data, outboard } => (
            Some(bytes_content(data)),
            Some(bytes_content(outboard)),
        ),
        _ => (None, None),
    };
    &&& part_view(plan.data) == part_plan(
        data,
        data_size,
        options.max_data_inlined,
        data_file(options.data_path@, hash),
    )
    &&& part_view(plan.outboard) == (if outboard_size == 0 {
        PartPlanView::KeepMem(Seq::empty())
    } else {
        part_plan(
            outboard,
            outboard_size,
            options.max_outboard_inlined,
            outboard_file(options.data_path@, hash),
        )
    })
}

/// Take a possibly incomplete storage and turn it into complete
///
/// Small data and small outboards end up in memory, to be inlined, and others in
/// the files of the store. An empty outboard is not kept at all. A storage that
/// is complete already needs nothing.
pub fn complete_storage(options: &Options, hash: &BlobHash, storage: Storage) -> (r: Option<
    CompletePlan,
>)
    ensures
        r is None <==> storage is Complete,
        r matches Some(plan) ==> completion(*options, *hash, storage, plan),
{
    let (data, outboard, data_size, outboard_size) = match storage {
        Storage::Complete => {
            return None;
        },
        Storage::IncompleteMem { data, outboard } => {
            let data_size: u64 = bytes_len(&data) as u64;
            let outboard_size: u64 = bytes_len(&outboard) as u64;
            (Some(data), Some(outboard), data_size, outboard_size)
        },
        Storage::IncompleteFile { data_size, outboard_size } => (
            None,
            None,
            data_size,
            outboard_size,
        ),
    };
    let data = plan_part(
        data,
        data_size,
        options.max_data_inlined,
        options.owned_data_path(hash),
    );
    let outboard = if outboard_size == 0 {
        PartPlan::KeepMem(bytes_from_vec(Vec::new()))
    } else {
        plan_part(
            outboard,
            outboard_size,
            options.max_outboard_inlined,
            options.owned_outboard_path(hash),
        )
    };
    Some(CompletePlan { data, outboard })
}

/// What a part is after its plan was carried out. `read` is what was read.
pub open spec fn part_result(plan: PartPlan, read: Option<Bytes>) -> MemOrFile<Bytes, u64> {
    match plan {
        PartPlan::KeepMem(data) => MemOrFile::Mem(data),
        PartPlan::ReadAndRemove { .. } => MemOrFile::Mem(read->0),
        PartPlan::Write { size, .. } => MemOrFile::File(size),
        PartPlan::KeepFile { size } => MemOrFile::File(size),
    }
}

/// What a part is after its plan was carried out. `read` is what was read, where
/// the plan was to read.
pub fn part_done(plan: PartPlan, read: Option<Bytes>) -> (r: MemOrFile<Bytes, u64>)
    requires
        plan matches PartPlan::ReadAndRemove { size, .. } ==> read is Some && bytes_content(
            read->0,
        ).len() == size,
    ensures
        r == part_result(plan, read),
{
    match plan {
        PartPlan::KeepMem(data) => MemOrFile::Mem(data),
        PartPlan::ReadAndRemove { size, .. } => {
            match read {
                Some(data) => MemOrFile::Mem(data),
                None => MemOrFile::File(size),
            }
        },
        PartPlan::Write { size, .. } => MemOrFile::File(size),
        PartPlan::KeepFile { size } => MemOrFile::File(size),
    }
}

/// Where a completed entry is kept depends on its sizes alone: data of at most
/// the inlining limit is inlined and else owned, an empty outboard is not
/// needed, and any other is inlined or owned by its own limit.
///
/// `plan` is the plan for the storage, and `data_read` and `outboard_read` are
/// what was read to carry it out.
pub proof fn completed_entry_by_size(
    options: Options,
    hash: BlobHash,
    storage: Storage,
    plan: CompletePlan,
    data_read: Option<Bytes>,
    outboard_read: Option<Bytes>,
)
    requires
        !(storage is Complete),
        completion(options, hash, storage, plan),
        plan.data matches PartPlan::ReadAndRemove { size, .. } ==> data_read is Some
            && bytes_content(data_read->0).len() == size,
        plan.outboard matches PartPlan::ReadAndRemove { size, .. } ==> outboard_read is Some
            && bytes_content(outboard_read->0).len() == size,
        storage matches Storage::IncompleteMem { data, outboard } ==> bytes_content(data).len()
            <= u64::MAX && bytes_content(outboard).len() <= u64::MAX,
    ensures
        completed_entry(
            CompletedStorage {
                data: part_result(plan.data, data_read),
                outboard: part_result(plan.outboard, outboard_read),
            },
        ) == (EntryState::Complete {
            data_location: if storage.sizes().0 <= options.max_data_inlined {
                DataLocation::Inline(())
            } else {
                DataLocation::Owned(storage.sizes().0)
            },
            outboard_location: if storage.sizes().1 == 0 {
                OutboardLocation::NotNeeded
            } else if storage.sizes().1 <= options.max_outboard_inlined {
                OutboardLocation::Inline(())
            } else {
                OutboardLocation::Owned
            },
        }),
{
}

} // verus!
