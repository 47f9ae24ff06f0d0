//! Importing: how data comes into the store, and where it is put.

use crate::buf::{bytes_content, bytes_from_vec, bytes_len, bytes_to_vec};
use crate::store::actor::MemOrFile;
use crate::store::entry::{DataLocation, OutboardLocation};
use crate::store::error::StoreError;
use crate::store::hash::{BlobFormat, BlobHash, HashAndFormat};
use crate::store::options::{data_file, outboard_file, Options};
use crate::store::outboard::{
    compute_outboard, computed, raw_outboard_size, spec_raw_outboard_size, IROH_BLOCK_BYTES,
};
use bytes::Bytes;
use vstd::prelude::*;

verus! {

/// How a file is imported.
#[derive(Debug, Clone, Copy, PartialEq, Eq, Structural)]
pub enum ImportMode {
    /// Copy it.
    Copy,
    /// Leave it where it is, if possible.
    TryReference,
}

/// How far an import has come.
#[derive(Debug, PartialEq, Eq)]
pub enum ImportProgress {
    /// Something to import was found.
    Found { id: u64, name: String },
    /// So much was copied.
    CopyProgress { id: u64, offset: u64 },
    /// The size is known.
    Size { id: u64, size: u64 },
    /// So much was hashed.
    OutboardProgress { id: u64, offset: u64 },
    /// The hash is known.
    OutboardDone { id: u64, hash: BlobHash },
}

/// Data that is being imported.
#[derive(Debug)]
pub enum ImportFile {
    /// A file of the store's own, in the temp directory.
    TempFile(String),
    /// A file of the user.
    External(String),
    Memory(Bytes),
}

impl ImportFile {
    /// Where the data is.
    pub open spec fn spec_content(&self) -> MemOrFile<&Bytes, &String> {
        match *self {
            ImportFile::TempFile(path) => MemOrFile::File(&path),
            ImportFile::External(path) => MemOrFile::File(&path),
            ImportFile::Memory(data) => MemOrFile::Mem(&data),
        }
    }

    /// Where the data is.
    pub fn content(&self) -> (r: MemOrFile<&Bytes, &String>)
        ensures
            r == self.spec_content(),
    {
        match self {
            ImportFile::TempFile(path) => MemOrFile::File(path),
            ImportFile::External(path) => MemOrFile::File(path),
            ImportFile::Memory(data) => MemOrFile::Mem(data),
        }
    }

    /// The size of the data, unless it is in a file that has to be asked.
    pub open spec fn spec_len(self) -> Option<u64> {
        match self {
            ImportFile::Memory(data) => Some(bytes_content(data).len() as u64),
            _ => None,
        }
    }

    /// The size of the data, unless it is in a file that has to be asked.
    pub fn len(&self) -> (r: Option<u64>)
        ensures
            r == self.spec_len(),
    {
        match self {
            ImportFile::Memory(data) => Some(bytes_len(data) as u64),
            _ => None,
        }
    }
}

/// What becomes of a file that is to be imported.
#[derive(Debug, Clone, Copy, PartialEq, Eq, Structural)]
pub enum ImportSource {
    /// It is used where it is.
    Reference,
    /// It is read into memory.
    ReadToMemory,
    /// It is copied to a temp file first, since it is not stable.
    CopyToTemp,
}

/// What is wrong with a path that is to be imported, if anything is.
pub open spec fn path_checked(is_absolute: bool, is_file: bool, is_symlink: bool) -> Result<
    (),
    StoreError,
> {
    if !is_absolute {
        Err(StoreError::PathNotAbsolute)
    } else if !is_file && !is_symlink {
        Err(StoreError::PathNotFile)
    } else {
        Ok(())
    }
}

/// Checks that a path can be imported: it is absolute, and it is a file or a
/// symlink.
pub fn check_import_path(is_absolute: bool, is_file: bool, is_symlink: bool) -> (r: Result<
    (),
    StoreError,
>)
    ensures
        r == path_checked(is_absolute, is_file, is_symlink),
{
    if !is_absolute {
        return Err(StoreError::PathNotAbsolute);
    }
    if !is_file && !is_symlink {
        return Err(StoreError::PathNotFile);
    }
    Ok(())
}

/// What becomes of a file of the given size that is to be imported.
pub open spec fn import_source(options: Options, mode: ImportMode, size: u64) -> ImportSource {
    if mode is TryReference {
        ImportSource::Reference
    } else if size <= options.max_data_inlined {
        ImportSource::ReadToMemory
    } else {
        ImportSource::CopyToTemp
    }
}

/// What becomes of a file of the given size that is to be imported.
pub fn import_file_sync(options: &Options, mode: ImportMode, size: u64) -> (r: ImportSource)
    ensures
        r == import_source(*options, mode, size),
{
    match mode {
        ImportMode::TryReference => ImportSource::Reference,
        ImportMode::Copy => {
            if size <= options.max_data_inlined {
                ImportSource::ReadToMemory
            } else {
                ImportSource::CopyToTemp
            }
        },
    }
}

/// What has to be done to put imported data into its place.
#[derive(Debug)]
pub enum DataPlan {
    /// Nothing: it goes into the table.
    Inline(Bytes),
    /// Read this file of the user; what was read goes into the table.
    ReadExternal { path: String },
    /// Read this temp file and remove it; what was read goes into the table.
    ReadAndRemove { path: String },
    /// Nothing: this file of the user is used.
    Reference { path: String, size: u64 },
    /// Move a temp file into place.
    Rename { from: String, to: String, size: u64 },
    /// Write the data to its file.
    Write { path: String, data: Bytes, size: u64 },
}

/// What has to be done to put an outboard into its place.
#[derive(Debug)]
pub enum OutboardPlan {
    /// Nothing: it goes into the table.
    Inline(Bytes),
    /// Write it to its file.
    Write { path: String, data: Vec<u8> },
    /// There is none.
    NotNeeded,
}

/// Data of at most the limit is inlined, wherever it comes from. Larger data is
/// used where it is if it belongs to the user, and else gets the file of its
/// hash.
pub open spec fn data_planned(
    options: Options,
    hash: BlobHash,
    file: ImportFile,
    data_size: u64,
    r: DataPlan,
) -> bool {
    let to = data_file(options.data_path@, hash);
    match (file, data_size <= options.max_data_inlined) {
        (ImportFile::External(path), true) => r == DataPlan::ReadExternal { path },
        (ImportFile::External(path), false) => r == DataPlan::Reference { path, size: data_size },
        (ImportFile::TempFile(path), true) => r == DataPlan::ReadAndRemove { path },
        (ImportFile::TempFile(path), false) => r matches DataPlan::Rename { from, to: t, size }
            && from == path && t@ == to && size == data_size,
        (ImportFile::Memory(data), true) => r == DataPlan::Inline(data),
        (ImportFile::Memory(data), false) => r matches DataPlan::Write { path, data: d, size }
            && path@ == to && d == data && size == data_size,
    }
}

/// Where imported data of the given hash and size goes.
pub fn place_data(options: &Options, hash: &BlobHash, file: ImportFile, data_size: u64) -> (r:
    DataPlan)
    ensures
        data_planned(*options, *hash, file, data_size, r),
{
    let inline_data = data_size <= options.max_data_inlined;
    match file {
        ImportFile::External(path) => {
            if inline_data {
                DataPlan::ReadExternal { path }
            } else {
                DataPlan::Reference { path, size: data_size }
            }
        },
        ImportFile::TempFile(path) => {
            if inline_data {
                DataPlan::ReadAndRemove { path }
            } else {
                DataPlan::Rename {
                    from: path,
                    to: options.owned_data_path(hash),
                    size: data_size,
                }
            }
        },
        ImportFile::Memory(data) => {
            if inline_data {
                DataPlan::Inline(data)
            } else {
                DataPlan::Write { path: options.owned_data_path(hash), data, size: data_size }
            }
        },
    }
}

/// An outboard of at most the limit is inlined, and a larger one gets the file
/// of its hash.
pub open spec fn outboard_planned(
    options: Options,
    hash: BlobHash,
    outboard: Option<Seq<u8>>,
    data_size: u64,
    r: OutboardPlan,
) -> bool {
    match outboard {
        None => r is NotNeeded,
        Some(ob) => {
            let size = spec_raw_outboard_size(data_size);
            if size <= options.max_outboard_inlined && size != 0 {
                r matches OutboardPlan::Inline(b) && bytes_content(b) == ob
            } else {
                r matches OutboardPlan::Write { path, data } && path@ == outboard_file(
                    options.data_path@,
                    hash,
                ) && data@ == ob
            }
        },
    }
}

/// The bytes of an optional vector.
pub open spec fn opt_content(v: Option<Vec<u8>>) -> Option<Seq<u8>> {
    match v {
        Some(v) => Some(v@),
        None => None,
    }
}

/// Where the outboard of data of the given hash and size goes.
pub fn place_outboard(
    options: &Options,
    hash: &BlobHash,
    outboard: Option<Vec<u8>>,
    data_size: u64,
) -> (r: OutboardPlan)
    ensures
        outboard_planned(*options, *hash, opt_content(outboard), data_size, r),
{
    let outboard_size: u64 = raw_outboard_size(data_size);
    let inline_outboard = outboard_size <= options.max_outboard_inlined && outboard_size != 0;
    match outboard {
        Some(outboard) => {
            if inline_outboard {
                OutboardPlan::Inline(bytes_from_vec(outboard))
            } else {
                OutboardPlan::Write { path: options.owned_outboard_path(hash), data: outboard }
            }
        },
        None => OutboardPlan::NotNeeded,
    }
}

/// The place of imported data after its plan was carried out. `read` is what was
/// read.
pub open spec fn data_placed(
    plan: DataPlan,
    read: Option<Bytes>,
    r: DataLocation<Bytes, u64>,
) -> bool {
    match plan {
        DataPlan::Inline(data) => r == DataLocation::<Bytes, u64>::Inline(data),
        DataPlan::ReadExternal { .. } | DataPlan::ReadAndRemove { .. } => r == DataLocation::<
            Bytes,
            u64,
        >::Inline(read->0),
        DataPlan::Reference { path, size } => r matches DataLocation::External(paths, s) && paths@
            == seq![path] && s == size,
        DataPlan::Rename { size, .. } | DataPlan::Write { size, .. } => r == DataLocation::<
            Bytes,
            u64,
        >::Owned(size),
    }
}

/// The place of imported data after its plan was carried out. `read` is what was
/// read, where the plan was to read.
pub fn data_done(plan: DataPlan, read: Option<Bytes>) -> (r: DataLocation<Bytes, u64>)
    requires
        plan is ReadExternal || plan is ReadAndRemove ==> read is Some,
    ensures
        data_placed(plan, read, r),
{
    match plan {
        DataPlan::Inline(data) => DataLocation::Inline(data),
        DataPlan::ReadExternal { .. } | DataPlan::ReadAndRemove { .. } => {
            match read {
                Some(data) => DataLocation::Inline(data),
                None => DataLocation::Owned(0),
            }
        },
        DataPlan::Reference { path, size } => {
            let mut paths: Vec<String> = Vec::new();
            paths.push(path);
            DataLocation::External(paths, size)
        },
        DataPlan::Rename { size, .. } => DataLocation::Owned(size),
        DataPlan::Write { size, .. } => DataLocation::Owned(size),
    }
}

/// The place of an outboard after its plan was carried out.
pub open spec fn outboard_placed(plan: OutboardPlan) -> OutboardLocation<Bytes> {
    match plan {
        OutboardPlan::Inline(data) => OutboardLocation::Inline(data),
        OutboardPlan::Write { .. } => OutboardLocation::Owned,
        OutboardPlan::NotNeeded => OutboardLocation::NotNeeded,
    }
}

/// The place of an outboard after its plan was carried out.
pub fn outboard_done(plan: OutboardPlan) -> (r: OutboardLocation<Bytes>)
    ensures
        r == outboard_placed(plan),
{
    match plan {
        OutboardPlan::Inline(data) => OutboardLocation::Inline(data),
        OutboardPlan::Write { .. } => OutboardLocation::Owned,
        OutboardPlan::NotNeeded => OutboardLocation::NotNeeded,
    }
}

/// What an import comes to, once the data was hashed.
#[derive(Debug)]
pub struct FinalizedImport {
    /// What was imported. A temp tag protects it from here on.
    pub content: HashAndFormat,
    /// The size of the data.
    pub size: u64,
    /// What has to be done with the data.
    pub data: DataPlan,
    /// What has to be done with the outboard.
    pub outboard: OutboardPlan,
}

/// Plans what becomes of imported data, with its hash and outboard.
pub fn plan_import(
    options: &Options,
    file: ImportFile,
    format: BlobFormat,
    data_size: u64,
    hash: BlobHash,
    outboard: Option<Vec<u8>>,
) -> (r: FinalizedImport)
    ensures
        r.content == (HashAndFormat { hash, format }),
        r.size == data_size,
        data_planned(*options, hash, file, data_size, r.data),
        outboard_planned(*options, hash, opt_content(outboard), data_size, r.outboard),
{
    let data = place_data(options, &hash, file, data_size);
    let outboard = place_outboard(options, &hash, outboard, data_size);
    FinalizedImport { content: HashAndFormat { hash, format }, size: data_size, data, outboard }
}

/// What `plan_import` makes of data whose hash and outboard are the computed
/// ones.
pub open spec fn finalized(
    options: Options,
    file: ImportFile,
    format: BlobFormat,
    content: Seq<u8>,
    r: FinalizedImport,
) -> bool {
    let size = content.len() as u64;
    let hash = r.content.hash;
    &&& hash.0@ == computed(content).0
    &&& r.content.format == format
    &&& r.size == size
    &&& data_planned(options, hash, file, size, r.data)
    &&& outboard_planned(
        options,
        hash,
        if size > IROH_BLOCK_BYTES {
            Some(computed(content).1)
        } else {
            None
        },
        size,
        r.outboard,
    )
    &&& size > IROH_BLOCK_BYTES ==> computed(content).1.len() == spec_raw_outboard_size(size)
}

/// What an import comes to of data that had the size `data_size` when it began.
pub open spec fn import_finalized(
    options: Options,
    file: ImportFile,
    format: BlobFormat,
    data_size: u64,
    content: Seq<u8>,
    r: Result<FinalizedImport, StoreError>,
) -> bool {
    if spec_raw_outboard_size(data_size) > usize::MAX {
        r == Err::<FinalizedImport, _>(StoreError::SizeTooLarge)
    } else if content.len() != data_size {
        r == Err::<FinalizedImport, _>(
            StoreError::SizeChanged { expected: data_size, found: content.len() as u64 },
        )
    } else {
        &&& r is Ok
        &&& finalized(options, file, format, content, r->Ok_0)
    }
}

/// Hashes imported data and plans where it goes.
///
/// `content` is what the file holds, and `data_size` the size that it had when
/// the import began. If that has changed, an error will be returned.
pub fn finalize_import_sync(
    options: &Options,
    file: ImportFile,
    format: BlobFormat,
    data_size: u64,
    content: &[u8],
) -> (r: Result<FinalizedImport, StoreError>)
    ensures
        import_finalized(*options, file, format, data_size, content@, r),
{
    match compute_outboard(content, data_size) {
        Ok((hash, outboard)) => Ok(plan_import(options, file, format, data_size, hash, outboard)),
        Err(e) => Err(e),
    }
}

/// Imports data in memory.
pub fn import_bytes_sync(options: &Options, data: Bytes, format: BlobFormat) -> (r: Result<
    FinalizedImport,
    StoreError,
>)
    ensures
        spec_raw_outboard_size(bytes_content(data).len() as u64) > usize::MAX ==> r == Err::<
            FinalizedImport,
            _,
        >(StoreError::SizeTooLarge),
        spec_raw_outboard_size(bytes_content(data).len() as u64) <= usize::MAX ==> {
            &&& r is Ok
            &&& finalized(*options, ImportFile::Memory(data), format, bytes_content(data), r->Ok_0)
        },
{
    let content = bytes_to_vec(&data);
    let data_size: u64 = bytes_len(&data) as u64;
    finalize_import_sync(options, ImportFile::Memory(data), format, data_size, content.as_slice())
}

/// An import from a stream: how much was written to the temp file.
#[derive(Debug)]
pub struct StreamImport {
    pub id: u64,
    pub offset: u64,
}

impl StreamImport {
    /// An import of which nothing was written yet.
    pub fn new(id: u64) -> (r: Self)
        ensures
            r.id == id,
            r.offset == 0,
    {
        StreamImport { id, offset: 0 }
    }

    /// A chunk was written: the total is reported.
    pub fn on_chunk(&mut self, len: usize) -> (r: ImportProgress)
        requires
            old(self).offset + len <= u64::MAX,
        ensures
            final(self).id == old(self).id,
            final(self).offset == old(self).offset + len,
            r == (ImportProgress::CopyProgress { id: old(self).id, offset: final(self).offset }),
    {
        self.offset = self.offset + len as u64;
        ImportProgress::CopyProgress { id: self.id, offset: self.offset }
    }
}

/// A file is left where it is exactly if that was asked for. Else it is read if it
/// is small enough to be inlined, and copied if it is not, so that what is hashed
/// cannot change.
pub proof fn only_references_stay_in_place(options: Options, mode: ImportMode, size: u64)
    ensures
        import_source(options, mode, size) == ImportSource::Reference <==> mode
            == ImportMode::TryReference,
        import_source(options, mode, size) == ImportSource::ReadToMemory <==> mode
            == ImportMode::Copy && size <= options.max_data_inlined,
        import_source(options, mode, size) == ImportSource::CopyToTemp <==> mode
            == ImportMode::Copy && size > options.max_data_inlined,
{
}

/// A path can be imported exactly if it is absolute and is a file or a symlink, and
/// a relative path is told first.
pub proof fn importable_paths_are_absolute_files(
    is_absolute: bool,
    is_file: bool,
    is_symlink: bool,
)
    ensures
        path_checked(is_absolute, is_file, is_symlink) is Ok <==> is_absolute && (is_file
            || is_symlink),
        !is_absolute <==> path_checked(is_absolute, is_file, is_symlink) == Err::<(), _>(
            StoreError::PathNotAbsolute,
        ),
{
}

/// An outboard is inlined exactly if it is not empty and its size is within the
/// limit, and else it is written, byte for byte. Without one there is nothing to
/// place, and the place of one is where its plan puts it.
pub proof fn outboards_are_placed_by_size(
    options: Options,
    hash: BlobHash,
    outboard: Option<Seq<u8>>,
    data_size: u64,
    r: OutboardPlan,
)
    requires
        outboard_planned(options, hash, outboard, data_size, r),
    ensures
        outboard is None <==> r is NotNeeded,
        outboard is Some ==> (r is Inline <==> 0 < spec_raw_outboard_size(data_size)
            <= options.max_outboard_inlined),
        r matches OutboardPlan::Inline(b) ==> outboard == Some(bytes_content(b))
            && outboard_placed(r) == OutboardLocation::<Bytes>::Inline(b),
        r matches OutboardPlan::Write { path, data: written } ==> outboard == Some(written@)
            && path@ == outboard_file(options.data_path@, hash) && outboard_placed(r) is Owned,
        r is NotNeeded ==> outboard_placed(r) is NotNeeded,
{
}

/// An import goes through exactly if the data still has the size with which it
/// began and its outboard fits in memory, and it is then the import of all of the
/// data. A size that changed is told with both sizes.
pub proof fn only_unchanged_data_is_imported(
    options: Options,
    file: ImportFile,
    format: BlobFormat,
    data_size: u64,
    content: Seq<u8>,
    r: Result<FinalizedImport, StoreError>,
)
    requires
        import_finalized(options, file, format, data_size, content, r),
        content.len() <= u64::MAX,
    ensures
        r is Ok <==> content.len() == data_size && spec_raw_outboard_size(data_size) <= usize::MAX,
        r matches Ok(f) ==> f.size == content.len() && f.content.format == format
            && f.content.hash.0@ == computed(content).0,
        r is Err && spec_raw_outboard_size(data_size) <= usize::MAX ==> (r matches Err(
            StoreError::SizeChanged { expected, found },
        ) && expected == data_size && found == content.len()),
{
}

/// Data that is being imported is in memory or in the file that it was given as,
/// and only of data in memory the size is known.
pub proof fn imported_data_is_where_it_was_given(path: String, data: Bytes)
    requires
        bytes_content(data).len() <= u64::MAX,
    ensures
        ImportFile::TempFile(path).spec_content() matches MemOrFile::File(p) && *p == path,
        ImportFile::External(path).spec_content() matches MemOrFile::File(p) && *p == path,
        ImportFile::Memory(data).spec_content() matches MemOrFile::Mem(d) && *d == data,
        ImportFile::TempFile(path).spec_len() is None,
        ImportFile::External(path).spec_len() is None,
        ImportFile::Memory(data).spec_len() == Some(bytes_content(data).len() as u64),
{
}

} // verus!
