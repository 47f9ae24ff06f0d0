//! Exporting: how data leaves the store.

use crate::store::actor::{Location, MemOrFile};
use crate::store::error::StoreError;
use crate::store::hash::BlobHash;
use bytes::Bytes;
use vstd::prelude::*;

verus! {

/// How data is exported.
#[derive(Debug, Clone, Copy, PartialEq, Eq, Structural)]
pub enum ExportMode {
    /// Copy it.
    Copy,
    /// Let the exported file be the store's own, if possible.
    TryReference,
}

/// What has to be done to export data. The directory of the target is created
/// first.
#[derive(Debug)]
pub enum ExportPlan {
    /// Write the data to the target, which must not exist.
    WriteNew(Bytes),
    /// Report that nothing is done yet, copy the file, and report its size.
    Copy { source: String, size: u64 },
}

/// How a blob is exported, or why it cannot be.
pub open spec fn exported(
    hash: BlobHash,
    source: Option<Location>,
    target_is_absolute: bool,
    target_has_parent: bool,
) -> Result<ExportPlan, StoreError> {
    match source {
        None => Err(StoreError::HashNotFound(hash)),
        Some(source) => if !target_is_absolute {
            Err(StoreError::TargetNotAbsolute)
        } else if !target_has_parent {
            Err(StoreError::TargetNoParent)
        } else {
            Ok(
                match source {
                    MemOrFile::Mem(data) => ExportPlan::WriteNew(data),
                    MemOrFile::File((path, size, _)) => ExportPlan::Copy { source: path, size },
                },
            )
        },
    }
}

/// Plans the export of a blob. `source` is where its data is.
///
/// A file is copied in every mode, also one that the store owns: to move it, its
/// entry would have to change at the same moment.
pub fn export(
    hash: BlobHash,
    source: Option<Location>,
    target_is_absolute: bool,
    target_has_parent: bool,
    _mode: ExportMode,
) -> (r: Result<ExportPlan, StoreError>)
    ensures
        r == exported(hash, source, target_is_absolute, target_has_parent),
{
    let source = match source {
        Some(source) => source,
        None => {
            return Err(StoreError::HashNotFound(hash));
        },
    };
    if !target_is_absolute {
        return Err(StoreError::TargetNotAbsolute);
    }
    if !target_has_parent {
        return Err(StoreError::TargetNoParent);
    }
    match source {
        MemOrFile::Mem(data) => Ok(ExportPlan::WriteNew(data)),
        MemOrFile::File((path, size, _)) => Ok(ExportPlan::Copy { source: path, size }),
    }
}

/// What is exported is the data of the blob, from where it is: the bytes that are
/// in memory, or all of the file. It fails exactly if there is no data or the target
/// is no place for a file, and a blob that is not there is told first.
pub proof fn exports_give_the_data_of_the_blob(
    hash: BlobHash,
    source: Option<Location>,
    target_is_absolute: bool,
    target_has_parent: bool,
)
    ensures
        ({
            let r = exported(hash, source, target_is_absolute, target_has_parent);
            &&& r is Ok <==> source is Some && target_is_absolute && target_has_parent
            &&& r matches Ok(plan) ==> match source->0 {
                MemOrFile::Mem(data) => plan == ExportPlan::WriteNew(data),
                MemOrFile::File(file) => plan matches ExportPlan::Copy { source: path, size }
                    && path == file.0 && size == file.1,
            }
            &&& source is None <==> r == Err::<ExportPlan, _>(StoreError::HashNotFound(hash))
            &&& source is Some && !target_is_absolute ==> r == Err::<ExportPlan, _>(
                StoreError::TargetNotAbsolute,
            )
            &&& source is Some && target_is_absolute && !target_has_parent ==> r == Err::<
                ExportPlan,
                _,
            >(StoreError::TargetNoParent)
        }),
{
}

} // verus!
