//! Where the store keeps its files, and how large inlined data may be.

use crate::store::hash::{hex, hex_is_injective, BlobHash};
use vstd::prelude::*;

verus! {

/// The size up to which data and outboards are inlined by default.
pub const DEFAULT_INLINE_SIZE: u64 = 16384;

/// Options of the store.
#[derive(Debug)]
pub struct Options {
    /// Path to the directory where data and outboard files are stored.
    pub data_path: String,
    /// Path to the directory where temp files are stored.
    /// This *must* be on the same device as `data_path`, since we need to
    /// atomically move temp files into place.
    pub temp_path: String,
    /// Data of at most this size is inlined.
    pub max_data_inlined: u64,
    /// Outboards of at most this size are inlined.
    pub max_outboard_inlined: u64,
    /// Files of at least this size are moved rather than copied, where possible.
    pub move_threshold: u64,
}

/// A relative path below a directory.
pub open spec fn joined(base: Seq<char>, name: Seq<char>) -> Seq<char> {
    if base.len() == 0 {
        name
    } else if base.last() == '/' {
        base + name
    } else {
        base.push('/') + name
    }
}

/// A relative path below a directory.
pub fn join(base: &String, name: &str) -> (r: String)
    ensures
        r@ == joined(base@, name@),
{
    let mut out: String = String::new();
    out.append(base.as_str());
    let n: usize = base.as_str().unicode_len();
    proof {
        reveal_strlit("/");
    }
    if n > 0 && base.as_str().get_char(n - 1) != '/' {
        out.append("/");
    }
    out.append(name);
    assert(out@ =~= joined(base@, name@));
    out
}

/// The path of the data file of a blob.
pub open spec fn data_file(data_path: Seq<char>, hash: BlobHash) -> Seq<char> {
    joined(data_path, hex(hash.0@) + ".data"@)
}

/// The path of the outboard file of a blob.
pub open spec fn outboard_file(data_path: Seq<char>, hash: BlobHash) -> Seq<char> {
    joined(data_path, hex(hash.0@) + ".obao4"@)
}

impl Options {
    /// The path of the data file of a blob, where the store owns it.
    pub fn owned_data_path(&self, hash: &BlobHash) -> (r: String)
        ensures
            r@ == data_file(self.data_path@, *hash),
    {
        let mut name = hash.to_hex();
        name.append(".data");
        join(&self.data_path, name.as_str())
    }

    /// The path of the outboard file of a blob, where the store owns it.
    pub fn owned_outboard_path(&self, hash: &BlobHash) -> (r: String)
        ensures
            r@ == outboard_file(self.data_path@, *hash),
    {
        let mut name = hash.to_hex();
        name.append(".obao4");
        join(&self.data_path, name.as_str())
    }

    /// The path of a new temp file with the given name.
    pub fn temp_file_path(&self, temp_name: &str) -> (r: String)
        ensures
            r@ == joined(self.temp_path@, temp_name@),
    {
        join(&self.temp_path, temp_name)
    }

    /// The options are the default ones for a store below a directory, and this is
    /// the path of its database.
    pub open spec fn loaded(self, root: Seq<char>, db_path: Seq<char>) -> bool {
        &&& self.data_path@ == joined(root, "data"@)
        &&& self.temp_path@ == joined(root, "temp"@)
        &&& self.max_data_inlined == 16384
        &&& self.max_outboard_inlined == 16384
        &&& self.move_threshold == 16384
        &&& db_path == joined(joined(root, "meta"@), "blobs.db"@)
    }

    /// Options with the default sizes.
    pub fn create_default(data_path: String, temp_path: String) -> (r: Self)
        ensures
            r == (Options {
                data_path,
                temp_path,
                max_data_inlined: 16384,
                max_outboard_inlined: 16384,
                move_threshold: 16384,
            }),
    {
        Options {
            data_path,
            temp_path,
            max_data_inlined: DEFAULT_INLINE_SIZE,
            max_outboard_inlined: DEFAULT_INLINE_SIZE,
            move_threshold: DEFAULT_INLINE_SIZE,
        }
    }

    /// The options of a store below a directory, and the path of its database.
    pub fn load(root: &String) -> (r: (Self, String))
        ensures
            r.0.loaded(root@, r.1@),
    {
        let db_path = join(&join(root, "meta"), "blobs.db");
        (Self::create_default(join(root, "data"), join(root, "temp")), db_path)
    }
}

/// No two files of the store have the same path: neither the files of two blobs,
/// nor the data and the outboard of one.
pub proof fn files_are_distinct(data_path: Seq<char>, a: BlobHash, b: BlobHash)
    ensures
        data_file(data_path, a) == data_file(data_path, b) ==> a == b,
        outboard_file(data_path, a) == outboard_file(data_path, b) ==> a == b,
        data_file(data_path, a) != outboard_file(data_path, b),
{
    reveal_strlit(".data");
    reveal_strlit(".obao4");
    let da = hex(a.0@) + ".data"@;
    let db = hex(b.0@) + ".data"@;
    let oa = hex(a.0@) + ".obao4"@;
    let ob = hex(b.0@) + ".obao4"@;
    assert(hex(a.0@).len() == 64 && hex(b.0@).len() == 64);
    if data_file(data_path, a) == data_file(data_path, b) {
        lemma_joined_injective(data_path, da, db);
        assert(hex(a.0@) =~= da.take(64));
        assert(hex(b.0@) =~= db.take(64));
        hex_is_injective(a.0@, b.0@);
        assert(a.0 =~= b.0);
    }
    if outboard_file(data_path, a) == outboard_file(data_path, b) {
        lemma_joined_injective(data_path, oa, ob);
        assert(hex(a.0@) =~= oa.take(64));
        assert(hex(b.0@) =~= ob.take(64));
        hex_is_injective(a.0@, b.0@);
        assert(a.0 =~= b.0);
    }
    if data_file(data_path, a) == outboard_file(data_path, b) {
        lemma_joined_injective(data_path, da, ob);
        assert(da.len() == 69 && ob.len() == 70);
    }
}

/// The names below one directory are told apart by their paths.
proof fn lemma_joined_injective(base: Seq<char>, a: Seq<char>, b: Seq<char>)
    requires
        joined(base, a) == joined(base, b),
    ensures
        a == b,
{
    let p = joined(base, a);
    let n = p.len() - a.len();
    assert(p.len() - b.len() == n);
    assert(a =~= p.subrange(n, p.len() as int));
    assert(b =~= p.subrange(n, p.len() as int));
}

/// The files of a blob are named by the hexadecimal form of its hash and stand in
/// the directory of the store, which is where their paths begin.
pub proof fn files_are_named_by_their_hash(data_path: Seq<char>, hash: BlobHash)
    ensures
        data_path.is_prefix_of(data_file(data_path, hash)),
        data_path.is_prefix_of(outboard_file(data_path, hash)),
        (hex(hash.0@) + ".data"@).is_suffix_of(data_file(data_path, hash)),
        (hex(hash.0@) + ".obao4"@).is_suffix_of(outboard_file(data_path, hash)),
        data_path.len() > 0 && data_path.last() != '/' ==> data_file(data_path, hash) == data_path
            + seq!['/'] + hex(hash.0@) + ".data"@ && outboard_file(data_path, hash) == data_path
            + seq!['/'] + hex(hash.0@) + ".obao4"@,
{
    lemma_joined_parts(data_path, hex(hash.0@) + ".data"@);
    lemma_joined_parts(data_path, hex(hash.0@) + ".obao4"@);
    if data_path.len() > 0 && data_path.last() != '/' {
        assert(data_file(data_path, hash) =~= data_path + seq!['/'] + hex(hash.0@) + ".data"@);
        assert(outboard_file(data_path, hash) =~= data_path + seq!['/'] + hex(hash.0@) + ".obao4"@);
    }
}

/// A path below a directory begins with the directory and ends with the name.
proof fn lemma_joined_parts(base: Seq<char>, name: Seq<char>)
    ensures
        base.is_prefix_of(joined(base, name)),
        name.is_suffix_of(joined(base, name)),
{
    let p = joined(base, name);
    assert(base =~= p.subrange(0, base.len() as int));
    assert(name =~= p.subrange(p.len() - name.len(), p.len() as int));
}

/// A store keeps its data, its temp files and its database in three directories of
/// their own below its root, so that no temp file is ever taken for a file of a
/// blob.
pub proof fn stores_stay_below_their_root(options: Options, root: Seq<char>, db_path: Seq<char>)
    requires
        options.loaded(root, db_path),
        root.len() > 0,
        root.last() != '/',
    ensures
        options.data_path@ == root + "/data"@,
        options.temp_path@ == root + "/temp"@,
        db_path == root + "/meta/blobs.db"@,
        options.data_path@ != options.temp_path@,
        options.max_data_inlined == 16 * 1024,
        options.max_outboard_inlined == 16 * 1024,
        options.move_threshold == 16 * 1024,
{
    reveal_strlit("data");
    reveal_strlit("temp");
    reveal_strlit("meta");
    reveal_strlit("blobs.db");
    reveal_strlit("/data");
    reveal_strlit("/temp");
    reveal_strlit("/meta/blobs.db");
    assert(options.data_path@ =~= root + "/data"@);
    assert(options.temp_path@ =~= root + "/temp"@);
    assert(joined(root, "meta"@).last() == 'a');
    assert(db_path =~= root + "/meta/blobs.db"@);
    assert(options.data_path@[root.len() as int + 1] == 'd');
    assert(options.temp_path@[root.len() as int + 1] == 't');
}

} // verus!
