use bao_tree::io::outboard::PreOrderMemOutboard;
use bao_tree::{blake3, BlockSize};
use bytes::Bytes;
use iroh_core::store::actor::{
    load_data, load_outboard, CompletedStorage, CreateTag, GetStep, HandlePlan, MemOrFile,
    RedbActor, Rows,
};
use iroh_core::store::complete::{complete_storage, part_done, PartPlan, Storage};
use iroh_core::store::entry::{
    get_possibly_partial, BaoBlobSize, BaoFileHandle, DataLocation, Entry, EntryState, EntryStatus,
    OutboardLocation, PossiblyPartialEntry,
};
use iroh_core::io_kind::ErrorKind;
use iroh_core::store::error::{to_io_err, ActorError, DbError, OuterError, StoreError};
use iroh_core::store::export::{export, ExportMode, ExportPlan};
use iroh_core::store::hash::{BlobFormat, BlobHash, HashAndFormat, Tag};
use iroh_core::store::import::{
    check_import_path, data_done, finalize_import_sync, import_bytes_sync, import_file_sync,
    outboard_done, place_data, place_outboard, DataPlan, ImportFile, ImportMode, ImportProgress,
    ImportSource, OutboardPlan, StreamImport,
};
use iroh_core::store::live::State2;
use iroh_core::store::options::{join, Options};
use iroh_core::store::outboard::{compute_outboard, outboard_if_needed, raw_outboard_size};
use iroh_core::store::progress::ProgressReader2;
use iroh_core::store::run::{recv_batch, BatchEvent, BatchStep, Reply, Request};
use iroh_core::store::tables::TableOp;

const KB16: u64 = 16 * 1024;

fn hash(n: u8) -> BlobHash {
    BlobHash([n; 32])
}

fn options() -> Options {
    Options::create_default("/data".to_string(), "/temp".to_string())
}

fn actor() -> RedbActor {
    RedbActor::new(options())
}

fn complete(data: DataLocation<(), u64>, outboard: OutboardLocation<()>) -> EntryState {
    EntryState::Complete { data_location: data, outboard_location: outboard }
}

fn inline() -> EntryState {
    complete(DataLocation::Inline(()), OutboardLocation::Inline(()))
}

fn owned(size: u64) -> EntryState {
    complete(DataLocation::Owned(size), OutboardLocation::Owned)
}

fn external(size: u64) -> EntryState {
    complete(
        DataLocation::External(vec!["/home/file".to_string(), "/other".to_string()], size),
        OutboardLocation::Owned,
    )
}

fn partial(size: Option<u64>) -> EntryState {
    EntryState::Partial { size }
}

fn rows(entry: Option<EntryState>) -> Rows {
    Rows { entry, inline_data: None, inline_outboard: None }
}

fn test_data(n: usize) -> Vec<u8> {
    (0..n).map(|i| (i * 7 % 251) as u8).collect()
}

#[test]
fn hashes_in_hex() {
    let mut bytes = [0u8; 32];
    bytes[0] = 0x0f;
    bytes[1] = 0xa9;
    bytes[31] = 0xff;
    let expected = format!("0fa9{}ff", "00".repeat(29));
    assert_eq!(BlobHash(bytes).to_hex(), expected);
    assert_eq!(
        HashAndFormat::raw(hash(1)),
        HashAndFormat { hash: hash(1), format: BlobFormat::Raw }
    );
}

#[test]
fn paths_of_files() {
    let o = options();
    assert_eq!(o.owned_data_path(&hash(0x1a)), format!("/data/{}.data", "1a".repeat(32)));
    assert_eq!(o.owned_outboard_path(&hash(0x1a)), format!("/data/{}.obao4", "1a".repeat(32)));
    assert_eq!(o.temp_file_path("t.tmp"), "/temp/t.tmp");
    assert_eq!(join(&"a/".to_string(), "b"), "a/b");
    assert_eq!(join(&"a".to_string(), "b"), "a/b");
    assert_eq!(join(&"".to_string(), "b"), "b");
    assert_ne!(o.owned_data_path(&hash(1)), o.owned_data_path(&hash(2)));
    assert_ne!(o.owned_data_path(&hash(1)), o.owned_outboard_path(&hash(1)));
    let (o, db) = Options::load(&"/root".to_string());
    assert_eq!(db, "/root/meta/blobs.db");
    assert_eq!((o.data_path, o.temp_path), ("/root/data".to_string(), "/root/temp".to_string()));
    assert_eq!(
        (o.max_data_inlined, o.max_outboard_inlined, o.move_threshold),
        (KB16, KB16, KB16)
    );
}

#[test]
fn locations() {
    assert_eq!(DataLocation::<(), u64>::Inline(()).size(), None);
    assert_eq!(DataLocation::<(), u64>::Owned(4).size(), Some(4));
    assert_eq!(DataLocation::<(), u64>::External(vec!["p".to_string()], 5).size(), Some(5));
    let l: DataLocation<u8, u64> = DataLocation::External(vec!["p".to_string()], 5);
    assert_eq!(l.discard_extra_data(), DataLocation::External(vec!["p".to_string()], ()));
    let l: DataLocation<u8, u64> = DataLocation::Inline(1);
    assert_eq!(l.discard_inline_data(), DataLocation::Inline(()));
    let l: DataLocation<u8, u64> = DataLocation::Owned(6);
    assert_eq!(l.discard_inline_data(), DataLocation::Owned(6));
    assert_eq!(OutboardLocation::Inline(3u8).discard_extra_data(), OutboardLocation::Inline(()));
    assert_eq!(OutboardLocation::<u8>::Owned.discard_extra_data(), OutboardLocation::Owned);
    assert_eq!(
        OutboardLocation::<u8>::NotNeeded.discard_extra_data(),
        OutboardLocation::NotNeeded
    );
}

#[test]
fn unions_of_entries() {
    assert_eq!(EntryState::default(), partial(None));
    assert_eq!(owned(1).union(owned(2)), owned(1));
    assert_eq!(owned(1).union(partial(Some(3))), owned(1));
    assert_eq!(partial(Some(3)).union(owned(1)), owned(1));
    assert_eq!(partial(Some(3)).union(partial(Some(4))), partial(Some(3)));
    assert_eq!(partial(None).union(partial(Some(4))), partial(Some(4)));
    // associative
    let left = partial(None).union(partial(Some(1))).union(owned(2));
    let right = partial(None).union(partial(Some(1)).union(owned(2)));
    assert_eq!(left, right);
}

#[test]
fn entry_accessors() {
    assert!(inline().complete());
    assert!(!partial(None).complete());
    assert!(inline().inline_data() && inline().inline_outboard() && !inline().owned());
    assert!(!owned(1).inline_data() && !owned(1).inline_outboard() && owned(1).owned());
    assert!(!external(1).owned());
    assert!(partial(None).owned() && !partial(None).inline_data());
    let h = BaoFileHandle { hash: hash(1), current_size: 7, complete: true };
    let e = Entry(h);
    assert_eq!(e.hash(), hash(1));
    assert_eq!(e.size(), BaoBlobSize::Verified(7));
    assert!(e.is_complete());
    let p = Entry(BaoFileHandle { complete: false, ..h });
    assert_eq!(p.size(), BaoBlobSize::Unverified(7));
    assert!(matches!(get_possibly_partial(Some(e)), PossiblyPartialEntry::Complete(_)));
    assert!(matches!(get_possibly_partial(Some(p)), PossiblyPartialEntry::Partial(_)));
    assert!(matches!(get_possibly_partial(None), PossiblyPartialEntry::NotFound));
}

#[test]
fn errors() {
    let io = || StoreError::Io { kind: ErrorKind::NotFound, text: "gone".to_string() };
    assert_eq!(to_io_err(DbError::Io(io())), io());
    assert_eq!(
        to_io_err(DbError::Other("bad".to_string())),
        StoreError::Other("bad".to_string())
    );
    assert_eq!(ActorError::Io(io()).into_io(), io());
    let t = || "x".to_string();
    for (e, text) in [
        (ActorError::Table(t()), "table error: x"),
        (ActorError::Database(t()), "database error: x"),
        (ActorError::Transaction(t()), "transaction error: x"),
        (ActorError::Commit(t()), "commit error: x"),
        (ActorError::Storage(t()), "storage error: x"),
    ] {
        assert_eq!(e.into_io(), StoreError::Other(text.to_string()));
    }
    assert_eq!(OuterError::Inner(ActorError::Io(io())).into_io(), io());
    for (e, text) in [
        (OuterError::Inner(ActorError::Table(t())), "inner error: table error: x"),
        (OuterError::Send(t()), "send error: x"),
        (OuterError::Recv(t()), "recv error: x"),
        (OuterError::JoinTask(t()), "join error: x"),
    ] {
        assert_eq!(e.into_io(), StoreError::Other(text.to_string()));
    }
    assert_eq!(StoreError::PathNotAbsolute.kind(), ErrorKind::InvalidInput);
    assert_eq!(StoreError::SizeTooLarge.kind(), ErrorKind::InvalidInput);
    assert_eq!(StoreError::HashNotFound(hash(1)).kind(), ErrorKind::NotFound);
    assert_eq!(StoreError::MissingInlineData(hash(1)).kind(), ErrorKind::InvalidData);
    assert_eq!(StoreError::InvalidOutboard.kind(), ErrorKind::Other);
    assert_eq!(io().kind(), ErrorKind::NotFound);
    let full = StoreError::Io { kind: ErrorKind::StorageFull, text: String::new() };
    assert_eq!(full.kind(), ErrorKind::StorageFull);
    let changed = |found| StoreError::SizeChanged { expected: 5, found };
    assert_eq!(changed(4).kind(), ErrorKind::UnexpectedEof);
    assert_eq!(changed(6).kind(), ErrorKind::Other);
}

#[test]
fn outboard_sizes() {
    assert_eq!(raw_outboard_size(0), 0);
    assert_eq!(raw_outboard_size(1), 0);
    assert_eq!(raw_outboard_size(KB16), 0);
    assert_eq!(raw_outboard_size(KB16 + 1), 64);
    assert_eq!(raw_outboard_size(2 * KB16), 64);
    assert_eq!(raw_outboard_size(2 * KB16 + 1), 128);
    assert_eq!(raw_outboard_size(1024 * 1024), 63 * 64);
    for size in [0, 1, KB16, KB16 + 1, 10 * KB16, 10 * KB16 + 5, u64::MAX] {
        let with_prefix = bao_tree::io::outboard_size(size, BlockSize(4));
        assert_eq!(raw_outboard_size(size) + 8, with_prefix);
    }
    assert_eq!(outboard_if_needed(vec![]), None);
    assert_eq!(outboard_if_needed(vec![1]), Some(vec![1]));
}

#[test]
fn computed_outboards() {
    for n in [0, 1, 16384, 16385, 40000, 100000] {
        let data = test_data(n);
        let (h, outboard) = compute_outboard(&data, n as u64).unwrap();
        assert_eq!(h.0, *blake3::hash(&data).as_bytes());
        assert_eq!(outboard.is_some(), n > 16384);
        if let Some(ob) = outboard {
            assert_eq!(ob.len() as u64, raw_outboard_size(n as u64));
            let expected = PreOrderMemOutboard::create(&data, BlockSize(4)).into_inner();
            assert_eq!(ob, expected);
        }
    }
}

#[test]
fn changed_sizes_are_refused() {
    let data = test_data(100);
    assert_eq!(
        compute_outboard(&data, 101).unwrap_err(),
        StoreError::SizeChanged { expected: 101, found: 100 }
    );
    assert_eq!(
        compute_outboard(&data, 99).unwrap_err(),
        StoreError::SizeChanged { expected: 99, found: 100 }
    );
}

#[test]
fn progress_is_reported() {
    let mut r = ProgressReader2::new(7u8, |offset: u64| {
        if offset > 10 {
            Err(StoreError::Other(format!("{}", offset)))
        } else {
            Ok(())
        }
    });
    assert_eq!(*r.inner_mut(), 7);
    assert_eq!(r.on_read(4), Ok(4));
    assert_eq!(r.on_read(6), Ok(6));
    assert_eq!(r.on_read(2), Err(StoreError::Other("12".to_string())));
}

#[test]
fn temp_tags_and_live_blobs() {
    let mut s = State2::new();
    let raw = HashAndFormat::raw(hash(1));
    let seq = HashAndFormat { hash: hash(1), format: BlobFormat::HashSeq };
    assert!(!s.is_live(&hash(1)));
    s.on_clone(&raw);
    s.on_clone(&raw);
    s.on_clone(&seq);
    assert!(s.is_live(&hash(1)));
    let held = s.temp_tags();
    assert_eq!(held.len(), 2);
    assert_eq!((s.count(&raw), s.count(&seq)), (2, 1));
    assert!(held.contains(&raw) && held.contains(&seq));
    s.on_drop(&raw);
    s.on_drop(&raw);
    assert!(s.is_live(&hash(1)));
    s.on_drop(&seq);
    assert!(!s.is_live(&hash(1)));
    s.on_drop(&seq);
    assert!(!s.is_live(&hash(1)));
    s.add_live(&vec![hash(1), hash(2)]);
    s.add_live(&vec![hash(3)]);
    assert!(s.is_live(&hash(1)) && s.is_live(&hash(3)) && !s.is_live(&hash(4)));
    s.on_clone(&HashAndFormat::raw(hash(2)));
    s.clear_live();
    assert!(s.is_live(&hash(2)) && !s.is_live(&hash(1)));
}

#[test]
fn sources_of_entries() {
    let o = options();
    let data = Bytes::from_static(b"data");
    match load_data(&o, DataLocation::Inline(()), &hash(1), Some(data.clone())) {
        Ok(MemOrFile::Mem(d)) => assert_eq!(d, data),
        other => panic!("{:?}", other),
    }
    assert_eq!(
        load_data(&o, DataLocation::Inline(()), &hash(1), None).unwrap_err(),
        StoreError::MissingInlineData(hash(1))
    );
    match load_data(&o, DataLocation::Owned(9), &hash(1), None) {
        Ok(MemOrFile::File((path, 9))) => assert_eq!(path, o.owned_data_path(&hash(1))),
        other => panic!("{:?}", other),
    }
    match load_outboard(&o, OutboardLocation::NotNeeded, 5, &hash(1), None) {
        Ok(MemOrFile::Mem(d)) => assert!(d.is_empty()),
        other => panic!("{:?}", other),
    }
    assert_eq!(
        load_outboard(&o, OutboardLocation::Inline(()), 5, &hash(1), None).unwrap_err(),
        StoreError::MissingInlineOutboard(hash(1))
    );
    match load_outboard(&o, OutboardLocation::Owned, KB16 + 1, &hash(1), None) {
        Ok(MemOrFile::File((path, 64))) => assert_eq!(path, o.owned_outboard_path(&hash(1))),
        other => panic!("{:?}", other),
    }
}

#[test]
fn lookups() {
    let mut a = actor();
    assert!(matches!(a.get(hash(1), rows(None)), Ok(GetStep::NotFound)));
    assert!(matches!(
        a.get_or_create(hash(1), rows(None)),
        Ok(GetStep::Open(HandlePlan::Mem))
    ));
    assert!(matches!(
        a.get(hash(1), rows(Some(partial(None)))),
        Ok(GetStep::Open(HandlePlan::Partial))
    ));
    let full = Rows {
        entry: Some(inline()),
        inline_data: Some(Bytes::from_static(b"d")),
        inline_outboard: Some(Bytes::from_static(b"o")),
    };
    match a.get(hash(1), full) {
        Ok(GetStep::Open(HandlePlan::Complete {
            data: MemOrFile::Mem(d),
            outboard: MemOrFile::Mem(o),
        })) => assert_eq!((d, o), (Bytes::from_static(b"d"), Bytes::from_static(b"o"))),
        other => panic!("{:?}", other),
    }
    assert_eq!(
        a.get(hash(1), rows(Some(inline()))).unwrap_err(),
        StoreError::MissingInlineData(hash(1))
    );
    assert_eq!(a.entry_status(hash(1), &None), EntryStatus::NotFound);
    assert_eq!(a.entry_status(hash(1), &Some(partial(None))), EntryStatus::Partial);
    assert_eq!(a.entry_status(hash(1), &Some(inline())), EntryStatus::Complete);
    // an open handle is used again, and it knows the status
    let id = a.opened(hash(1), false);
    assert!(matches!(a.get(hash(1), rows(None)), Ok(GetStep::Cached(i)) if i == id));
    assert_eq!(a.entry_status(hash(1), &Some(inline())), EntryStatus::Partial);
    assert_ne!(a.opened(hash(2), true), id);
    assert_eq!(a.entry_status(hash(2), &None), EntryStatus::Complete);
}

#[test]
fn data_locations() {
    let a = actor();
    let data = Bytes::from_static(b"d");
    assert!(a.data_location(hash(1), &None, None).is_none());
    assert!(a.data_location(hash(1), &Some(partial(None)), None).is_none());
    assert!(a.data_location(hash(1), &Some(inline()), None).is_none());
    match a.data_location(hash(1), &Some(inline()), Some(data.clone())) {
        Some(MemOrFile::Mem(d)) => assert_eq!(d, data),
        other => panic!("{:?}", other),
    }
    match a.data_location(hash(1), &Some(owned(9)), None) {
        Some(MemOrFile::File((p, 9, true))) => {
            assert_eq!(p, options().owned_data_path(&hash(1)))
        }
        other => panic!("{:?}", other),
    }
    match a.data_location(hash(1), &Some(external(8)), None) {
        Some(MemOrFile::File((p, 8, false))) => assert_eq!(p, "/home/file"),
        other => panic!("{:?}", other),
    }
}

#[test]
fn imports_change_rows() {
    let a = actor();
    let ops = a.import_entry(
        hash(1),
        DataLocation::Inline(Bytes::from_static(b"d")),
        OutboardLocation::Inline(Bytes::from_static(b"o")),
        None,
    );
    match &ops[..] {
        [TableOp::InsertInlineData(_, d), TableOp::InsertInlineOutboard(_, o), TableOp::InsertBlob(h, e)] =>
        {
            assert_eq!(d, "d".as_bytes());
            assert_eq!(o, "o".as_bytes());
            assert_eq!(*h, hash(1));
            assert_eq!(*e, inline());
        }
        other => panic!("{:?}", other),
    }
    // what is complete stays
    let ops = a.import_entry(
        hash(1),
        DataLocation::Owned(5),
        OutboardLocation::NotNeeded,
        Some(external(5)),
    );
    match &ops[..] {
        [TableOp::InsertBlob(_, e)] => assert_eq!(*e, external(5)),
        other => panic!("{:?}", other),
    }
    match &a.on_inline_size_exceeded(hash(1), None)[..] {
        [TableOp::InsertBlob(_, e)] => assert_eq!(*e, partial(None)),
        other => panic!("{:?}", other),
    }
    match &a.on_inline_size_exceeded(hash(1), Some(inline()))[..] {
        [TableOp::InsertBlob(_, e)] => assert_eq!(*e, inline()),
        other => panic!("{:?}", other),
    }
}

#[test]
fn completing_entries() {
    let o = options();
    assert!(complete_storage(&o, &hash(1), Storage::Complete).is_none());
    // small data in memory stays there
    let small = Storage::IncompleteMem { data: Bytes::from_static(b"d"), outboard: Bytes::new() };
    let plan = complete_storage(&o, &hash(1), small).unwrap();
    assert!(matches!(plan.data, PartPlan::KeepMem(_)));
    assert!(matches!(plan.outboard, PartPlan::KeepMem(_)));
    // small data in a file is read
    let small = Storage::IncompleteFile { data_size: 10, outboard_size: 0 };
    let plan = complete_storage(&o, &hash(1), small).unwrap();
    match &plan.data {
        PartPlan::ReadAndRemove { path, size: 10 } => {
            assert_eq!(*path, o.owned_data_path(&hash(1)))
        }
        other => panic!("{:?}", other),
    }
    assert!(matches!(
        part_done(plan.data, Some(Bytes::from(vec![0; 10]))),
        MemOrFile::Mem(d) if d.len() == 10
    ));
    // large data in memory is written
    let n = 3 * KB16;
    let large = Storage::IncompleteMem {
        data: Bytes::from(vec![0; n as usize]),
        outboard: Bytes::from(vec![0; 128]),
    };
    let plan = complete_storage(&o, &hash(1), large).unwrap();
    assert!(matches!(plan.data, PartPlan::Write { size, .. } if size == n));
    assert!(matches!(plan.outboard, PartPlan::KeepMem(_)));
    assert!(matches!(part_done(plan.data, None), MemOrFile::File(size) if size == n));
    // large files stay where they are, but a small outboard is read
    let large = Storage::IncompleteFile { data_size: n, outboard_size: 128 };
    let plan = complete_storage(&o, &hash(1), large).unwrap();
    assert!(matches!(plan.data, PartPlan::KeepFile { size } if size == n));
    match &plan.outboard {
        PartPlan::ReadAndRemove { path, size: 128 } => {
            assert_eq!(*path, o.owned_outboard_path(&hash(1)))
        }
        other => panic!("{:?}", other),
    }
    let huge = 512 * KB16;
    let large = Storage::IncompleteFile {
        data_size: huge,
        outboard_size: raw_outboard_size(huge),
    };
    let plan = complete_storage(&o, &hash(1), large).unwrap();
    assert!(matches!(plan.outboard, PartPlan::KeepFile { .. }));
}

#[test]
fn completed_entries_get_rows() {
    let mut a = actor();
    assert_eq!(a.on_complete_handle(hash(1)), None);
    let id = a.opened(hash(1), false);
    assert_eq!(a.on_complete_handle(hash(1)), Some(id));
    let done = CompletedStorage {
        data: MemOrFile::Mem(Bytes::from_static(b"d")),
        outboard: MemOrFile::Mem(Bytes::new()),
    };
    let ops = a.on_complete(hash(1), Some(done));
    match &ops[..] {
        [TableOp::InsertBlob(_, e), TableOp::InsertInlineData(_, d), TableOp::InsertInlineOutboard(..)] =>
        {
            assert_eq!(*e, complete(DataLocation::Inline(()), OutboardLocation::NotNeeded));
            assert_eq!(d, "d".as_bytes());
        }
        other => panic!("{:?}", other),
    }
    assert_eq!(a.entry_status(hash(1), &None), EntryStatus::Complete);
    let done = CompletedStorage { data: MemOrFile::File(99999), outboard: MemOrFile::File(384) };
    match &a.on_complete(hash(1), Some(done))[..] {
        [TableOp::InsertBlob(_, e)] => assert_eq!(*e, owned(99999)),
        other => panic!("{:?}", other),
    }
    assert!(a.on_complete(hash(1), None).is_empty());
    // without a handle there is nothing to complete
    let done = CompletedStorage { data: MemOrFile::File(1), outboard: MemOrFile::File(0) };
    assert!(a.on_complete(hash(9), Some(done)).is_empty());
    assert_eq!(a.on_complete_handle(hash(9)), None);
}

#[test]
fn deleting_blobs() {
    let a = actor();
    let hashes = vec![hash(1), hash(2), hash(3), hash(4), hash(5)];
    let entries = vec![
        Some(inline()),
        Some(owned(3)),
        Some(external(3)),
        Some(partial(None)),
        None,
    ];
    let d = a.delete(&hashes, &entries);
    assert_eq!(
        d.remove_files,
        vec![
            options().owned_data_path(&hash(2)),
            options().owned_outboard_path(&hash(2)),
            options().owned_outboard_path(&hash(3)),
        ]
    );
    assert!(matches!(
        d.ops[..],
        [
            TableOp::RemoveBlob(_),
            TableOp::RemoveInlineData(_),
            TableOp::RemoveInlineOutboard(_),
            TableOp::RemoveBlob(_),
            TableOp::RemoveBlob(_),
            TableOp::RemoveBlob(_),
            TableOp::RemoveBlob(_),
        ]
    ));
}

#[test]
fn listings() {
    let a = actor();
    let all = || {
        vec![
            Ok((hash(1), inline())),
            Ok((hash(2), partial(None))),
            Err(ActorError::Storage("bad".to_string())),
            Ok((hash(3), owned(3))),
        ]
    };
    let bad = || Err(StoreError::Other("storage error: bad".to_string()));
    assert_eq!(a.blobs(all()), vec![Ok(hash(1)), bad(), Ok(hash(3))]);
    assert_eq!(a.partial_blobs(all()), vec![Ok(hash(2)), bad()]);
    let content = HashAndFormat::raw(hash(1));
    let tags = a.tags(vec![
        Ok((Tag(Bytes::from_static(b"t")), content)),
        Err(ActorError::Table("bad".to_string())),
    ]);
    assert_eq!(tags.len(), 2);
    assert_eq!(tags[0].as_ref().unwrap().1, content);
    assert_eq!(
        tags[1].as_ref().unwrap_err(),
        &StoreError::Other("table error: bad".to_string())
    );
}

#[test]
fn tags_are_set_and_created() {
    let a = actor();
    let tag = || Tag(Bytes::from_static(b"name"));
    let content = HashAndFormat::raw(hash(1));
    match a.set_tag(tag(), Some(content)) {
        TableOp::InsertTag(t, c) => {
            assert_eq!(t.0, Bytes::from_static(b"name"));
            assert_eq!(c, content);
        }
        other => panic!("{:?}", other),
    }
    assert!(matches!(a.set_tag(tag(), None), TableOp::RemoveTag(_)));
    assert!(matches!(a.create_tag(tag(), true, content), CreateTag::Taken));
    match a.create_tag(tag(), false, content) {
        CreateTag::Created { tag, op: TableOp::InsertTag(t, c) } => {
            assert_eq!(tag.0, t.0);
            assert_eq!(c, content);
        }
        other => panic!("{:?}", other),
    }
}

#[test]
fn requests_are_answered() {
    let mut a = actor();
    let o = a.run(Some(Request::Sync)).unwrap();
    assert!(matches!(o.reply, Reply::Done) && !o.stop && o.ops.is_empty());
    let o = a.run(Some(Request::Shutdown)).unwrap();
    assert!(o.stop);
    assert!(a.run(None).unwrap().stop);
    assert!(matches!(a.run(Some(Request::Dump)).unwrap().reply, Reply::Dump));
    assert!(matches!(
        a.run(Some(Request::Get { hash: hash(1), rows: rows(None) })).unwrap().reply,
        Reply::Handle(GetStep::NotFound)
    ));
    assert_eq!(
        a.run(Some(Request::Get { hash: hash(1), rows: rows(Some(inline())) })).unwrap_err(),
        StoreError::MissingInlineData(hash(1))
    );
    assert!(matches!(
        a.run(Some(Request::GetOrCreate { hash: hash(1), rows: rows(None) })).unwrap().reply,
        Reply::Handle(GetStep::Open(HandlePlan::Mem))
    ));
    let req = Request::EntryStatus { hash: hash(1), entry: Some(partial(None)) };
    assert!(matches!(a.run(Some(req)).unwrap().reply, Reply::Status(EntryStatus::Partial)));
    let req = Request::DataLocation { hash: hash(1), entry: None, inline_data: None };
    assert!(matches!(a.run(Some(req)).unwrap().reply, Reply::Location(None)));
    let all = || vec![Ok((hash(1), inline())), Ok((hash(2), partial(None)))];
    for req in [Request::Blobs { rows: all() }, Request::PartialBlobs { rows: all() }] {
        match a.run(Some(req)).unwrap().reply {
            Reply::Hashes(l) => assert_eq!(l, vec![Ok(hash(1))]),
            other => panic!("{:?}", other),
        }
    }
    assert!(matches!(
        a.run(Some(Request::Tags { rows: vec![] })).unwrap().reply,
        Reply::Tags(l) if l.is_empty()
    ));
    // without an open handle there is nothing to complete
    let done = || {
        Some(CompletedStorage { data: MemOrFile::File(99999), outboard: MemOrFile::File(384) })
    };
    let o = a.run(Some(Request::OnComplete { hash: hash(1), done: done() })).unwrap();
    assert!(o.ops.is_empty());
    a.opened(hash(1), false);
    let o = a.run(Some(Request::OnComplete { hash: hash(1), done: done() })).unwrap();
    assert_eq!(o.ops.len(), 1);
    let o = a
        .run(Some(Request::Delete { hashes: vec![hash(2)], entries: vec![Some(owned(1))] }))
        .unwrap();
    assert_eq!((o.ops.len(), o.remove_files.len()), (1, 2));
    let content = HashAndFormat::raw(hash(1));
    let tag = || Tag(Bytes::from_static(b"t"));
    let req = Request::SetTag { tag: tag(), value: Some(content) };
    assert_eq!(a.run(Some(req)).unwrap().ops.len(), 1);
    let req = Request::CreateTag { candidate: tag(), taken: true, content };
    assert!(matches!(a.run(Some(req)).unwrap().reply, Reply::TagTaken));
    let req = Request::CreateTag { candidate: tag(), taken: false, content };
    assert!(matches!(a.run(Some(req)).unwrap().reply, Reply::Tag(_)));
    let req = Request::OnInlineSizeExceeded { hash: hash(1), entry: None };
    assert_eq!(a.run(Some(req)).unwrap().ops.len(), 1);
    let req = Request::ImportEntry {
        hash: hash(1),
        data_location: DataLocation::Inline(Bytes::new()),
        outboard_location: OutboardLocation::NotNeeded,
        entry: None,
    };
    assert_eq!(a.run(Some(req)).unwrap().ops.len(), 2);
}

#[test]
fn batches() {
    assert_eq!(recv_batch(3, 0, BatchEvent::Start), BatchStep::Wait);
    assert_eq!(recv_batch(3, 1, BatchEvent::Received), BatchStep::Try);
    assert_eq!(recv_batch(3, 3, BatchEvent::Received), BatchStep::Done { drained: false });
    assert_eq!(recv_batch(1, 1, BatchEvent::Received), BatchStep::Done { drained: false });
    assert_eq!(recv_batch(3, 2, BatchEvent::Nothing), BatchStep::Done { drained: true });
}

#[test]
fn import_decisions() {
    let o = options();
    assert_eq!(check_import_path(false, true, false), Err(StoreError::PathNotAbsolute));
    assert_eq!(check_import_path(true, false, false), Err(StoreError::PathNotFile));
    assert_eq!(check_import_path(true, false, true), Ok(()));
    assert_eq!(check_import_path(true, true, false), Ok(()));
    assert_eq!(import_file_sync(&o, ImportMode::TryReference, 1), ImportSource::Reference);
    assert_eq!(import_file_sync(&o, ImportMode::Copy, KB16), ImportSource::ReadToMemory);
    assert_eq!(import_file_sync(&o, ImportMode::Copy, KB16 + 1), ImportSource::CopyToTemp);
    let mem = ImportFile::Memory(Bytes::from_static(b"abc"));
    assert_eq!(mem.len(), Some(3));
    assert!(matches!(mem.content(), MemOrFile::Mem(_)));
    let file = ImportFile::External("/x".to_string());
    assert_eq!(file.len(), None);
    assert!(matches!(file.content(), MemOrFile::File(p) if p == "/x"));
    let mut s = StreamImport::new(4);
    assert_eq!(s.on_chunk(10), ImportProgress::CopyProgress { id: 4, offset: 10 });
    assert_eq!(s.on_chunk(5), ImportProgress::CopyProgress { id: 4, offset: 15 });
}

#[test]
fn import_places() {
    let o = options();
    let ext = || ImportFile::External("/x".to_string());
    let temp = || ImportFile::TempFile("/t".to_string());
    let mem = || ImportFile::Memory(Bytes::from_static(b"abc"));
    let big = KB16 + 1;
    let path = o.owned_data_path(&hash(1));
    match place_data(&o, &hash(1), ext(), KB16) {
        DataPlan::ReadExternal { path } => assert_eq!(path, "/x"),
        other => panic!("{:?}", other),
    }
    let plan = place_data(&o, &hash(1), ext(), big);
    assert_eq!(data_done(plan, None), DataLocation::External(vec!["/x".to_string()], big));
    let plan = place_data(&o, &hash(1), temp(), KB16);
    assert!(matches!(&plan, DataPlan::ReadAndRemove { path } if path == "/t"));
    let read = Bytes::from_static(b"read");
    assert_eq!(data_done(plan, Some(read.clone())), DataLocation::Inline(read));
    match place_data(&o, &hash(1), temp(), big) {
        DataPlan::Rename { from, to, size } => {
            assert_eq!((from, to, size), ("/t".to_string(), path.clone(), big))
        }
        other => panic!("{:?}", other),
    }
    assert!(matches!(place_data(&o, &hash(1), mem(), 3), DataPlan::Inline(_)));
    let plan = place_data(&o, &hash(1), mem(), big);
    assert!(matches!(&plan, DataPlan::Write { path: p, .. } if *p == path));
    assert_eq!(data_done(plan, None), DataLocation::Owned(big));
    let plan = place_outboard(&o, &hash(1), Some(vec![1, 2]), big);
    assert_eq!(outboard_done(plan), OutboardLocation::Inline(Bytes::from_static(&[1, 2])));
    assert!(matches!(place_outboard(&o, &hash(1), None, 3), OutboardPlan::NotNeeded));
    let huge = 512 * KB16;
    let plan = place_outboard(&o, &hash(1), Some(vec![1, 2]), huge);
    assert!(
        matches!(&plan, OutboardPlan::Write { path, .. } if *path == o.owned_outboard_path(&hash(1)))
    );
    assert_eq!(outboard_done(plan), OutboardLocation::Owned);
}

#[test]
fn imported_bytes_are_found() {
    let a = actor();
    let data = test_data(1000);
    let f = import_bytes_sync(&a.options, Bytes::from(data.clone()), BlobFormat::Raw).unwrap();
    assert_eq!(f.content.hash.0, *blake3::hash(&data).as_bytes());
    assert_eq!(f.size, 1000);
    let h = f.content.hash;
    let ops = a.import_entry(h, data_done(f.data, None), outboard_done(f.outboard), None);
    let mut entry = None;
    let mut inline_data = None;
    for op in ops {
        match op {
            TableOp::InsertBlob(_, e) => entry = Some(e),
            TableOp::InsertInlineData(_, d) => inline_data = Some(d),
            other => panic!("{:?}", other),
        }
    }
    match a.data_location(h, &entry, inline_data) {
        Some(MemOrFile::Mem(d)) => assert_eq!(d, data),
        other => panic!("{:?}", other),
    }
}

#[test]
fn imports_of_large_files() {
    let o = options();
    let data = test_data(50000);
    let file = ImportFile::TempFile("/t".to_string());
    let f = finalize_import_sync(&o, file, BlobFormat::HashSeq, 50000, &data).unwrap();
    assert_eq!(f.content.format, BlobFormat::HashSeq);
    assert!(matches!(f.data, DataPlan::Rename { .. }));
    match f.outboard {
        OutboardPlan::Inline(ob) => {
            assert_eq!(ob, PreOrderMemOutboard::create(&data, BlockSize(4)).into_inner())
        }
        other => panic!("{:?}", other),
    }
    let file = ImportFile::TempFile("/t".to_string());
    assert_eq!(
        finalize_import_sync(&o, file, BlobFormat::Raw, 50001, &data).unwrap_err(),
        StoreError::SizeChanged { expected: 50001, found: 50000 }
    );
}

#[test]
fn exports() {
    let mem = || Some(MemOrFile::Mem(Bytes::from_static(b"d")));
    let mode = ExportMode::Copy;
    assert_eq!(
        export(hash(1), None, false, false, mode).unwrap_err(),
        StoreError::HashNotFound(hash(1))
    );
    assert_eq!(
        export(hash(1), mem(), false, true, mode).unwrap_err(),
        StoreError::TargetNotAbsolute
    );
    assert_eq!(
        export(hash(1), mem(), true, false, mode).unwrap_err(),
        StoreError::TargetNoParent
    );
    assert!(matches!(
        export(hash(1), mem(), true, true, mode),
        Ok(ExportPlan::WriteNew(d)) if d == Bytes::from_static(b"d")
    ));
    let file = Some(MemOrFile::File(("/data/x".to_string(), 1 << 20, true)));
    assert!(matches!(
        export(hash(1), file, true, true, ExportMode::TryReference),
        Ok(ExportPlan::Copy { source, size }) if source == "/data/x" && size == 1 << 20
    ));
}

#[test]
fn an_open_handle_is_used_whatever_the_rows_say() {
    let mut a = actor();
    let id = a.opened(hash(1), true);
    let external =
        || complete(DataLocation::External(vec!["/p".to_string()], 9), OutboardLocation::NotNeeded);
    assert!(matches!(
        a.get(hash(1), rows(Some(external()))),
        Ok(GetStep::Cached(found)) if found == id
    ));
    let req = Request::GetOrCreate { hash: hash(1), rows: rows(Some(external())) };
    let outcome = a.run(Some(req)).unwrap();
    assert!(matches!(outcome.reply, Reply::Handle(GetStep::Cached(found)) if found == id));
}
