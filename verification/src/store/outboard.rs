//! Outboards: the hashes that validate parts of a blob.

use crate::store::error::StoreError;
use crate::store::hash::BlobHash;
use bao_tree::io::outboard::PostOrderMemOutboard;
use bao_tree::BlockSize;
use vstd::bytes::spec_u64_from_le_bytes;
use vstd::prelude::*;

verus! {

/// A block is 2^4 chunks of 1024 bytes: outboards do not go below that.
pub const IROH_BLOCK_LOG: u8 = 4;

/// The number of bytes in a block.
pub const IROH_BLOCK_BYTES: u64 = 16384;

/// The number of blocks of the given size that hold `size` bytes. Even an empty
/// blob has one.
pub open spec fn block_count(size: int, block: int) -> int {
    if size <= block {
        1
    } else {
        (size + block - 1) / block
    }
}

/// The size of an outboard: two hashes of 32 bytes for each block but one.
pub open spec fn outboard_len(size: int, block: int) -> int {
    64 * (block_count(size, block) - 1)
}

/// The number of bytes in a block of 2^`log` chunks.
pub open spec fn block_bytes(log: u8) -> int {
    1024 * vstd::arithmetic::power2::pow2(log as nat) as int
}

/// The root hash of data and its outboard in post order, with the size of the
/// data behind it.
pub uninterp spec fn post_order(data: Seq<u8>, block_log: u8) -> (Seq<u8>, Seq<u8>);

/// An outboard in pre order, by the same in post order with the size behind it.
pub uninterp spec fn pre_order(post: Seq<u8>, block_log: u8) -> Seq<u8>;

/// The number that the last eight bytes spell, the lowest one first.
pub open spec fn size_suffix(s: Seq<u8>) -> int {
    spec_u64_from_le_bytes(s.subrange(s.len() - 8, s.len() as int)) as int
}

/// An outboard has the length that the size behind it asks for.
pub open spec fn fits_its_size(post: Seq<u8>, block_log: u8) -> bool {
    post.len() >= 8 && post.len() == outboard_len(size_suffix(post), block_bytes(block_log)) + 8
}

/// `bao_tree::io::sync::outboard_post_order` on data in memory: the root hash,
/// and the pairs of hashes in post order followed by the size of the data in
/// eight bytes. What the hashes are is left to the names. Reading from memory
/// and writing to memory do not fail.
#[verifier::external_body]
fn outboard_post_order(data: &[u8], block_log: u8) -> (r: ([u8; 32], Vec<u8>))
    requires
        block_log <= 10,
    ensures
        (r.0@, r.1@) == post_order(data@, block_log),
        r.1@.len() == outboard_len(data@.len() as int, block_bytes(block_log)) + 8,
        size_suffix(r.1@) == data@.len(),
{
    let mut out: Vec<u8> = Vec::new();
    let size = data.len() as u64;
    let hash = bao_tree::io::sync::outboard_post_order(data, size, BlockSize(block_log), &mut out);
    let hash: [u8; 32] = hash.expect("in memory").into();
    (hash, out)
}

/// `PostOrderMemOutboard::load` of `bao_tree`, then `flip` and `into_inner`: the
/// same outboard in pre order, without the size. Loading fails exactly when the
/// length does not fit the size that stands behind the hashes. The root hash is
/// only carried along.
#[verifier::external_body]
fn flip_post_order(root: [u8; 32], post: &Vec<u8>, block_log: u8) -> (r: Option<Vec<u8>>)
    requires
        block_log <= 10,
    ensures
        r is Some <==> fits_its_size(post@, block_log),
        r matches Some(pre) ==> pre@ == pre_order(post@, block_log) && pre@.len() == post@.len()
            - 8,
{
    let loaded = PostOrderMemOutboard::load(root.into(), post, BlockSize(block_log));
    loaded.ok().map(|ob| ob.flip().into_inner())
}

/// The size of an outboard, without a length prefix.
pub open spec fn spec_raw_outboard_size(size: u64) -> u64 {
    outboard_len(size as int, IROH_BLOCK_BYTES as int) as u64
}

/// The size of an outboard, without a length prefix.
pub fn raw_outboard_size(size: u64) -> (r: u64)
    ensures
        r == outboard_len(size as int, IROH_BLOCK_BYTES as int),
        r == spec_raw_outboard_size(size),
{
    if size <= IROH_BLOCK_BYTES {
        return 0;
    }
    let blocks: u64 = (size - 1) / IROH_BLOCK_BYTES + 1;
    assert(blocks == (size + 16383) / 16384);
    64 * (blocks - 1)
}

/// An outboard is empty exactly if the data fits in one block.
pub proof fn small_blobs_need_no_outboard(size: u64)
    ensures
        spec_raw_outboard_size(size) == 0 <==> size <= IROH_BLOCK_BYTES,
        spec_raw_outboard_size(size) as int == outboard_len(size as int, IROH_BLOCK_BYTES as int),
{
}

/// An outboard, unless it is empty.
pub fn outboard_if_needed(outboard: Vec<u8>) -> (r: Option<Vec<u8>>)
    ensures
        r == (if outboard@.len() > 0 {
            Some(outboard)
        } else {
            None
        }),
{
    if !outboard.is_empty() {
        Some(outboard)
    } else {
        None
    }
}

/// The hash and the outboard of data.
pub open spec fn computed(data: Seq<u8>) -> (Seq<u8>, Seq<u8>) {
    let (root, post) = post_order(data, IROH_BLOCK_LOG);
    (root, pre_order(post, IROH_BLOCK_LOG))
}

/// What computing the outboard of data comes to that is to have `size` bytes.
pub open spec fn outboard_computed(
    data: Seq<u8>,
    size: u64,
    r: Result<(BlobHash, Option<Vec<u8>>), StoreError>,
) -> bool {
    if spec_raw_outboard_size(size) > usize::MAX {
        r == Err::<(BlobHash, Option<Vec<u8>>), _>(StoreError::SizeTooLarge)
    } else if data.len() != size {
        r == Err::<(BlobHash, Option<Vec<u8>>), _>(
            StoreError::SizeChanged { expected: size, found: data.len() as u64 },
        )
    } else {
        &&& r is Ok
        &&& r->Ok_0.0.0@ == computed(data).0
        &&& r->Ok_0.1 is Some <==> size > IROH_BLOCK_BYTES
        &&& r->Ok_0.1 matches Some(ob) ==> ob@ == computed(data).1 && ob@.len()
            == spec_raw_outboard_size(size)
    }
}

/// Compute the outboard of a blob that is to have `size` bytes, and return hash
/// and outboard.
///
/// If the size was changed in the meantime, an error will be returned.
///
/// The computed outboard is without length prefix. Data that fits in one block
/// has none.
pub fn compute_outboard(data: &[u8], size: u64) -> (r: Result<
    (BlobHash, Option<Vec<u8>>),
    StoreError,
>)
    ensures
        outboard_computed(data@, size, r),
{
    if raw_outboard_size(size) > usize::MAX as u64 {
        return Err(StoreError::SizeTooLarge);
    }
    let found: u64 = data.len() as u64;
    if found != size {
        return Err(StoreError::SizeChanged { expected: size, found });
    }
    proof {
        lemma_block_bytes();
    }
    let (root, post) = outboard_post_order(data, IROH_BLOCK_LOG);
    match flip_post_order(root, &post, IROH_BLOCK_LOG) {
        Some(pre) => Ok((BlobHash(root), outboard_if_needed(pre))),
        None => Err(StoreError::InvalidOutboard),
    }
}

/// The size of a block is what its logarithm says.
proof fn lemma_block_bytes()
    ensures
        block_bytes(IROH_BLOCK_LOG) == IROH_BLOCK_BYTES,
{
    vstd::arithmetic::power2::lemma2_to64();
}

/// The size of an outboard grows by two hashes with each block that begins: data
/// that ends in block number `k`, counted from one, has an outboard of 64 bytes for
/// each block before it.
pub proof fn outboards_grow_with_the_blocks(size: u64, k: int)
    requires
        k >= 1,
        size <= k * 16384,
        k == 1 || (k - 1) * 16384 < size,
    ensures
        spec_raw_outboard_size(size) == 64 * (k - 1),
{
    if size > 16384 {
        vstd::arithmetic::div_mod::lemma_fundamental_div_mod_converse(
            size + 16383,
            16384,
            k,
            size + 16383 - k * 16384,
        );
    } else {
        assert(k == 1);
    }
}

/// The hash and the outboard of data are those of blocks of sixteen chunks, which
/// is what the sizes go by: the hash is the root of the tree, and the outboard is
/// the same one turned from post order to pre order.
pub proof fn hashes_are_over_blocks_of_sixteen_chunks(data: Seq<u8>)
    ensures
        computed(data).0 == post_order(data, 4).0,
        computed(data).1 == pre_order(post_order(data, 4).1, 4),
        block_bytes(4) == 16384,
{
    lemma_block_bytes();
}

/// Data is hashed exactly if it has the size that it is to have and its outboard
/// fits in memory. A size that changed is told with both sizes. What comes of it is
/// the root hash of the data and, for more than one block, all of its outboard.
pub proof fn changed_data_is_not_hashed(
    data: Seq<u8>,
    size: u64,
    r: Result<(BlobHash, Option<Vec<u8>>), StoreError>,
)
    requires
        outboard_computed(data, size, r),
        data.len() <= u64::MAX,
    ensures
        r is Ok <==> data.len() == size && spec_raw_outboard_size(size) <= usize::MAX,
        spec_raw_outboard_size(size) <= usize::MAX && data.len() != size ==> (r matches Err(
            StoreError::SizeChanged { expected, found },
        ) && expected == size && found == data.len()),
        spec_raw_outboard_size(size) > usize::MAX ==> r == Err::<(BlobHash, Option<Vec<u8>>), _>(
            StoreError::SizeTooLarge,
        ),
        r matches Ok((hash, outboard)) ==> {
            &&& hash.0@ == post_order(data, 4).0
            &&& outboard is Some <==> data.len() > 16384
            &&& outboard matches Some(ob) ==> ob@ == pre_order(post_order(data, 4).1, 4)
                && ob@.len() == spec_raw_outboard_size(size)
        },
{
}

} // verus!
