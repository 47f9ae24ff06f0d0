//! Which blobs are protected from being deleted.

use crate::key::Key;
use crate::keymap::KeyMap;
use crate::store::hash::{BlobHash, BlobFormat, HashAndFormat};
use vstd::prelude::*;

verus! {

/// How many temp tags hold a content.
pub open spec fn tag_count(temp: Map<HashAndFormat, u64>, content: HashAndFormat) -> u64 {
    if temp.dom().contains(content) {
        temp[content]
    } else {
        0
    }
}

/// The counts with one more temp tag.
pub open spec fn after_clone(
    temp: Map<HashAndFormat, u64>,
    content: HashAndFormat,
) -> Map<HashAndFormat, u64> {
    temp.insert(content, (tag_count(temp, content) + 1) as u64)
}

/// The counts with one temp tag less. A content that is not held stays so.
pub open spec fn after_drop(
    temp: Map<HashAndFormat, u64>,
    content: HashAndFormat,
) -> Map<HashAndFormat, u64> {
    if tag_count(temp, content) > 1 {
        temp.insert(content, (tag_count(temp, content) - 1) as u64)
    } else {
        temp.remove(content)
    }
}

/// Only what is held is counted.
pub open spec fn only_held(temp: Map<HashAndFormat, u64>) -> bool {
    forall|c: HashAndFormat| #[trigger] temp.dom().contains(c) ==> temp[c] > 0
}

/// A temp tag holds the blob, in any format.
pub open spec fn tags_hold(temp: Map<HashAndFormat, u64>, hash: BlobHash) -> bool {
    exists|format: BlobFormat| #[trigger] tag_count(temp, HashAndFormat { hash, format }) > 0
}

/// A blob is in use.
pub open spec fn in_use(
    live: Set<BlobHash>,
    temp: Map<HashAndFormat, u64>,
    hash: BlobHash,
) -> bool {
    live.contains(hash) || tags_hold(temp, hash)
}

/// The blobs that are in use: those that are held by temp tags, with the number
/// of tags, and those that were found to be alive.
#[derive(Debug)]
pub struct State2 {
    temp: KeyMap<HashAndFormat, u64>,
    live: Vec<BlobHash>,
}

impl State2 {
    /// How many temp tags hold each content. None is held by none.
    pub closed spec fn temp(&self) -> Map<HashAndFormat, u64> {
        self.temp@
    }

    /// The blobs that were found to be alive.
    pub closed spec fn live(&self) -> Set<BlobHash> {
        self.live@.to_set()
    }

    /// Only content that is held is counted.
    pub closed spec fn wf(&self) -> bool {
        &&& self.temp.wf()
        &&& only_held(self.temp@)
    }

    /// Nothing is in use.
    pub fn new() -> (r: Self)
        ensures
            r.wf(),
            r.temp() == Map::<HashAndFormat, u64>::empty(),
            r.live() == Set::<BlobHash>::empty(),
    {
        let r = State2 { temp: KeyMap::new(), live: Vec::new() };
        assert(r.live() =~= Set::<BlobHash>::empty());
        r
    }

    /// How many temp tags hold a content.
    pub fn count(&self, content: &HashAndFormat) -> (r: u64)
        requires
            self.wf(),
        ensures
            r == tag_count(self.temp(), *content),
    {
        match self.temp.get(content) {
            Some(n) => *n,
            None => 0,
        }
    }

    /// One more temp tag holds a content.
    pub fn on_clone(&mut self, content: &HashAndFormat)
        requires
            old(self).wf(),
            tag_count(old(self).temp(), *content) < u64::MAX,
        ensures
            final(self).wf(),
            final(self).temp() == after_clone(old(self).temp(), *content),
            final(self).live() == old(self).live(),
    {
        let count: u64 = self.count(content);
        self.temp.insert(*content, count + 1);
    }

    /// One temp tag less holds a content. A content that is not held stays so.
    pub fn on_drop(&mut self, content: &HashAndFormat)
        requires
            old(self).wf(),
        ensures
            final(self).wf(),
            final(self).temp() == after_drop(old(self).temp(), *content),
            final(self).live() == old(self).live(),
    {
        let count: u64 = self.count(content);
        if count > 1 {
            self.temp.insert(*content, count - 1);
        } else {
            self.temp.remove(content);
        }
    }

    /// Forgets which blobs were found to be alive.
    pub fn clear_live(&mut self)
        requires
            old(self).wf(),
        ensures
            final(self).wf(),
            final(self).temp() == old(self).temp(),
            final(self).live() == Set::<BlobHash>::empty(),
    {
        self.live = Vec::new();
        assert(self.live() =~= Set::<BlobHash>::empty());
    }

    /// More blobs were found to be alive.
    pub fn add_live(&mut self, live: &Vec<BlobHash>)
        requires
            old(self).wf(),
        ensures
            final(self).wf(),
            final(self).temp() == old(self).temp(),
            final(self).live() == old(self).live().union(live@.to_set()),
    {
        let ghost before = self.live@;
        let ghost temp = self.temp;
        let mut i: usize = 0;
        assert(live@.take(0) =~= Seq::empty());
        assert(self.live@ =~= before + live@.take(0));
        while i < live.len()
            invariant
                self.temp == temp,
                i <= live@.len(),
                self.live@ == before + live@.take(i as int),
            decreases live@.len() - i,
        {
            self.live.push(live[i]);
            assert(self.live@ =~= before + live@.take(i + 1));
            i += 1;
        }
        proof {
            assert(live@.take(i as int) =~= live@);
            assert forall|h: BlobHash|
                #[trigger] (before + live@).to_set().contains(h) <==> before.to_set().union(
                    live@.to_set(),
                ).contains(h) by {
                if before.contains(h) {
                    let k = choose|k: int| 0 <= k < before.len() && before[k] == h;
                    assert((before + live@)[k] == h);
                }
                if live@.contains(h) {
                    let k = choose|k: int| 0 <= k < live@.len() && live@[k] == h;
                    assert((before + live@)[before.len() + k] == h);
                }
                if (before + live@).contains(h) {
                    let k = choose|k: int|
                        0 <= k < (before + live@).len() && (before + live@)[k] == h;
                    if k < before.len() {
                        assert(before[k] == h);
                    } else {
                        assert(live@[k - before.len()] == h);
                    }
                }
            }
            assert(self.live() =~= old(self).live().union(live@.to_set()));
        }
    }

    /// The contents that temp tags hold, each once.
    pub fn temp_tags(&self) -> (r: Vec<HashAndFormat>)
        requires
            self.wf(),
        ensures
            r@.no_duplicates(),
            forall|c: HashAndFormat| #[trigger] r@.contains(c) <==> tag_count(self.temp(), c) > 0,
    {
        self.temp.keys()
    }

    /// Whether a blob is in use: it was found to be alive, or a temp tag holds
    /// it.
    pub fn is_live(&self, hash: &BlobHash) -> (r: bool)
        requires
            self.wf(),
        ensures
            r == in_use(self.live(), self.temp(), *hash),
    {
        let mut i: usize = 0;
        while i < self.live.len()
            invariant
                i <= self.live@.len(),
                forall|j: int| 0 <= j < i ==> self.live@[j] != *hash,
            decreases self.live@.len() - i,
        {
            if self.live[i].same(hash) {
                assert(self.live@.contains(*hash));
                return true;
            }
            i += 1;
        }
        assert(!self.live@.contains(*hash));
        let raw = HashAndFormat { hash: *hash, format: BlobFormat::Raw };
        let seq = HashAndFormat { hash: *hash, format: BlobFormat::HashSeq };
        let r = self.temp.contains_key(&raw) || self.temp.contains_key(&seq);
        proof {
            let temp = self.temp();
            assert(tag_count(temp, raw) > 0 <==> temp.dom().contains(raw));
            assert(tag_count(temp, seq) > 0 <==> temp.dom().contains(seq));
            if tags_hold(temp, *hash) {
                let format = choose|format: BlobFormat| #[trigger]
                    tag_count(temp, HashAndFormat { hash: *hash, format }) > 0;
                assert(format is Raw || format is HashSeq);
            }
        }
        r
    }
}

/// A temp tag protects its blob for as long as it is there: after it is made the
/// blob is held, and dropping it again leaves every count as it was before.
pub proof fn temp_tags_hold_their_blob(temp: Map<HashAndFormat, u64>, content: HashAndFormat)
    requires
        only_held(temp),
        tag_count(temp, content) < u64::MAX,
    ensures
        tags_hold(after_clone(temp, content), content.hash),
        after_drop(after_clone(temp, content), content) == temp,
{
    let c = HashAndFormat { hash: content.hash, format: content.format };
    assert(c == content);
    assert(tag_count(
        after_clone(temp, content),
        HashAndFormat { hash: content.hash, format: content.format },
    ) > 0);
    assert(after_drop(after_clone(temp, content), content) =~= temp);
}

/// Temp tags are counted one by one: a content that two tags hold is still held
/// after one of them is dropped, a content that one tag holds is not held after
/// that, and the tags of one content do not count for another.
pub proof fn temp_tags_are_counted(
    temp: Map<HashAndFormat, u64>,
    content: HashAndFormat,
    other: HashAndFormat,
)
    requires
        only_held(temp),
        tag_count(temp, content) < u64::MAX,
        other != content,
    ensures
        tag_count(after_clone(temp, content), content) == tag_count(temp, content) + 1,
        tag_count(temp, content) > 0 ==> tag_count(after_drop(temp, content), content) == tag_count(
            temp,
            content,
        ) - 1,
        tag_count(temp, content) == 0 ==> tag_count(after_drop(temp, content), content) == 0,
        tag_count(after_clone(temp, content), other) == tag_count(temp, other),
        tag_count(after_drop(temp, content), other) == tag_count(temp, other),
        !temp.dom().contains(content) ==> tag_count(temp, content) == 0,
        temp.dom().contains(content) ==> tag_count(temp, content) == temp[content],
{
}

/// A blob is held exactly if a temp tag holds it in one of its two formats.
pub proof fn either_format_holds_the_blob(temp: Map<HashAndFormat, u64>, hash: BlobHash)
    ensures
        tags_hold(temp, hash) <==> (tag_count(
            temp,
            HashAndFormat { hash, format: BlobFormat::Raw },
        ) > 0 || tag_count(temp, HashAndFormat { hash, format: BlobFormat::HashSeq }) > 0),
{
    if tags_hold(temp, hash) {
        let format = choose|format: BlobFormat| #[trigger]
            tag_count(temp, HashAndFormat { hash, format }) > 0;
        assert(format is Raw || format is HashSeq);
    }
}

/// A blob that was found to be alive is in use, and so is one that a temp tag holds
/// in either format. No other one is.
pub proof fn live_and_tagged_blobs_are_in_use(
    live: Set<BlobHash>,
    temp: Map<HashAndFormat, u64>,
    hash: BlobHash,
)
    ensures
        in_use(live, temp, hash) <==> (live.contains(hash) || tag_count(
            temp,
            HashAndFormat { hash, format: BlobFormat::Raw },
        ) > 0 || tag_count(temp, HashAndFormat { hash, format: BlobFormat::HashSeq }) > 0),
{
    either_format_holds_the_blob(temp, hash);
}

} // verus!
