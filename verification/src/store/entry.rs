//! What the store knows about an entry.

use crate::store::hash::BlobHash;
use vstd::prelude::*;

verus! {

/// Location of the data.
///
/// Data can be inlined in the database, a file conceptually owned by the store,
/// or a number of external files conceptually owned by the user.
///
/// Only complete data can be inlined.
#[derive(Debug, PartialEq, Eq)]
pub enum DataLocation<I = (), E = ()> {
    /// Data is in the inline_data table.
    Inline(I),
    /// Data is in the canonical location in the data directory.
    Owned(E),
    /// Data is in several external locations. This should be a non-empty list.
    External(Vec<String>, E),
}

impl<X> DataLocation<X, u64> {
    /// The size of the data, where it is in a file.
    pub open spec fn spec_size(self) -> Option<u64> {
        match self {
            DataLocation::Inline(_) => None,
            DataLocation::Owned(size) => Some(size),
            DataLocation::External(_, size) => Some(size),
        }
    }

    /// The size of the data, where it is in a file.
    pub fn size(&self) -> (r: Option<u64>)
        ensures
            r == self.spec_size(),
    {
        match self {
            DataLocation::Inline(_) => None,
            DataLocation::Owned(size) => Some(*size),
            DataLocation::External(_, size) => Some(*size),
        }
    }
}

impl<I, E> DataLocation<I, E> {
    /// Just the place.
    pub open spec fn spec_discard_extra_data(self) -> DataLocation<(), ()> {
        match self {
            DataLocation::Inline(_) => DataLocation::Inline(()),
            DataLocation::Owned(_) => DataLocation::Owned(()),
            DataLocation::External(paths, _) => DataLocation::External(paths, ()),
        }
    }

    /// Just the place.
    pub fn discard_extra_data(self) -> (r: DataLocation<(), ()>)
        ensures
            r == self.spec_discard_extra_data(),
    {
        match self {
            DataLocation::Inline(_) => DataLocation::Inline(()),
            DataLocation::Owned(_) => DataLocation::Owned(()),
            DataLocation::External(paths, _) => DataLocation::External(paths, ()),
        }
    }

    /// The place without inlined data.
    pub open spec fn spec_discard_inline_data(self) -> DataLocation<(), E> {
        match self {
            DataLocation::Inline(_) => DataLocation::Inline(()),
            DataLocation::Owned(x) => DataLocation::Owned(x),
            DataLocation::External(paths, x) => DataLocation::External(paths, x),
        }
    }

    /// The place without inlined data.
    pub fn discard_inline_data(self) -> (r: DataLocation<(), E>)
        ensures
            r == self.spec_discard_inline_data(),
    {
        match self {
            DataLocation::Inline(_) => DataLocation::Inline(()),
            DataLocation::Owned(x) => DataLocation::Owned(x),
            DataLocation::External(paths, x) => DataLocation::External(paths, x),
        }
    }
}

/// Location of the outboard.
///
/// Outboard can be inlined in the database or a file conceptually owned by the store.
/// Outboards are implementation specific to the store and as such are always owned.
///
/// Only complete outboards can be inlined.
#[derive(Debug, PartialEq, Eq)]
pub enum OutboardLocation<I = ()> {
    /// Outboard is in the inline_outboard table.
    Inline(I),
    /// Outboard is in the canonical location in the data directory.
    Owned,
    /// Outboard is not needed,
    NotNeeded,
}

impl<I> OutboardLocation<I> {
    /// Just the place.
    pub open spec fn spec_discard_extra_data(self) -> OutboardLocation<()> {
        match self {
            OutboardLocation::Inline(_) => OutboardLocation::Inline(()),
            OutboardLocation::Owned => OutboardLocation::Owned,
            OutboardLocation::NotNeeded => OutboardLocation::NotNeeded,
        }
    }

    /// Just the place.
    pub fn discard_extra_data(self) -> (r: OutboardLocation<()>)
        ensures
            r == self.spec_discard_extra_data(),
    {
        match self {
            OutboardLocation::Inline(_) => OutboardLocation::Inline(()),
            OutboardLocation::Owned => OutboardLocation::Owned,
            OutboardLocation::NotNeeded => OutboardLocation::NotNeeded,
        }
    }
}

/// The information about an entry that we keep in the entry table for quick access.
#[derive(Debug, PartialEq, Eq)]
pub enum EntryState {
    /// For a complete entry we always know the size. It does not make much sense
    /// to write to a complete entry, so they are much easier to share.
    Complete {
        /// Location of the data.
        data_location: DataLocation<(), u64>,
        /// Location of the outboard.
        outboard_location: OutboardLocation<()>,
    },
    /// Partial entries are entries for which we know the hash, but don't have
    /// all the data. They are created when syncing from somewhere else by hash.
    ///
    /// As such they are always owned. There is also no inline storage for them.
    /// Non short lived partial entries always live in the file system, and for
    /// short lived ones we never create a database entry in the first place.
    Partial {
        /// Once we get the last chunk of a partial entry, we have validated
        /// the size of the entry despite it still being incomplete.
        ///
        /// E.g. a giant file where we just requested the last chunk.
        size: Option<u64>,
    },
}

impl Default for EntryState {
    fn default() -> (r: Self)
        ensures
            r == spec_default_entry(),
    {
        EntryState::Partial { size: None }
    }
}

/// An entry of which nothing is known.
pub open spec fn spec_default_entry() -> EntryState {
    EntryState::Partial { size: None }
}

impl EntryState {
    /// What two findings about an entry come to: a complete one wins over a
    /// partial one and the first over the second, and a size is kept.
    pub open spec fn spec_union(self, that: EntryState) -> EntryState {
        match (self, that) {
            (EntryState::Partial { .. }, EntryState::Complete { .. }) => that,
            (EntryState::Partial { size: None }, EntryState::Partial { .. }) => that,
            _ => self,
        }
    }

    /// What two findings about an entry come to.
    pub fn union(self, that: EntryState) -> (r: EntryState)
        ensures
            r == self.spec_union(that),
    {
        match self {
            EntryState::Complete { data_location, outboard_location } => EntryState::Complete {
                data_location,
                outboard_location,
            },
            EntryState::Partial { size: a_size } => {
                match that {
                    EntryState::Complete { data_location, outboard_location } => EntryState::Complete {
                        data_location,
                        outboard_location,
                    },
                    EntryState::Partial { size: b_size } => EntryState::Partial {
                        size: match a_size {
                            Some(size) => Some(size),
                            None => b_size,
                        },
                    },
                }
            },
        }
    }

    /// Whether all of the data is there.
    pub fn complete(&self) -> (r: bool)
        ensures
            r == (self is Complete),
    {
        matches!(self, EntryState::Complete { .. })
    }

    /// There should be a corresponding entry in the inline_outboard table.
    pub open spec fn spec_inline_outboard(self) -> bool {
        self matches EntryState::Complete { outboard_location: OutboardLocation::Inline(_), .. }
    }

    /// If this is true, there should be a corresponding entry in the inline_outboard table.
    ///
    /// It is false either if there is no outboard at all, or if it in a file.
    pub fn inline_outboard(&self) -> (r: bool)
        ensures
            r == self.spec_inline_outboard(),
    {
        matches!(
            self,
            EntryState::Complete { outboard_location: OutboardLocation::Inline(_), .. }
        )
    }

    /// There should be a corresponding entry in the inline_data table.
    pub open spec fn spec_inline_data(self) -> bool {
        self matches EntryState::Complete { data_location: DataLocation::Inline(_), .. }
    }

    /// If this is true, there should be a corresponding entry in the inline_data table.
    ///
    /// It is false either if the data is in an owned file or in one or more external files.
    pub fn inline_data(&self) -> (r: bool)
        ensures
            r == self.spec_inline_data(),
    {
        matches!(self, EntryState::Complete { data_location: DataLocation::Inline(_), .. })
    }

    /// The data is in a file of the store.
    pub open spec fn spec_owned(self) -> bool {
        match self {
            EntryState::Complete { data_location, .. } => data_location is Owned,
            EntryState::Partial { .. } => true,
        }
    }

    /// Whether the data is in a file of the store.
    pub fn owned(&self) -> (r: bool)
        ensures
            r == self.spec_owned(),
    {
        match self {
            EntryState::Complete { data_location, .. } => matches!(
                data_location,
                DataLocation::Owned(_)
            ),
            EntryState::Partial { .. } => true,
        }
    }

    /// The data is in files of the user.
    pub open spec fn is_external(self) -> bool {
        self matches EntryState::Complete { data_location: DataLocation::External(_, _), .. }
    }

    /// If there are external files, there is at least one.
    pub open spec fn wf(self) -> bool {
        self matches EntryState::Complete {
            data_location: DataLocation::External(paths, _),
            ..
        } ==> paths@.len() > 0
    }
}

/// Joining findings is associative and idempotent, an unknown entry adds
/// nothing, and nothing complete is ever lost.
pub proof fn union_laws(a: EntryState, b: EntryState, c: EntryState)
    ensures
        a.spec_union(b).spec_union(c) == a.spec_union(b.spec_union(c)),
        a.spec_union(a) == a,
        a.spec_union(spec_default_entry()) == a,
        spec_default_entry().spec_union(a) == a,
        a.spec_union(b) is Complete <==> a is Complete || b is Complete,
        a is Complete ==> a.spec_union(b) == a,
{
}

/// Whether an entry is in the store.
#[derive(Debug, Clone, Copy, PartialEq, Eq, Structural)]
pub enum EntryStatus {
    /// All of it is.
    Complete,
    /// Some of it may be.
    Partial,
    /// It is not.
    NotFound,
}

/// The size of a blob, and whether it was validated.
#[derive(Debug, Clone, Copy, PartialEq, Eq, Structural)]
pub enum BaoBlobSize {
    Unverified(u64),
    Verified(u64),
}

/// What is known of an open file of the store.
#[derive(Debug, Clone, Copy, PartialEq, Eq)]
pub struct BaoFileHandle {
    pub hash: BlobHash,
    /// The size of the data, as far as it is known.
    pub current_size: u64,
    /// All of the data is there.
    pub complete: bool,
}

/// An entry of the store.
#[derive(Debug, Clone, Copy, PartialEq, Eq)]
pub struct Entry(pub BaoFileHandle);

/// An entry that was looked up by its hash.
#[derive(Debug)]
pub enum PossiblyPartialEntry {
    Complete(Entry),
    Partial(Entry),
    NotFound,
}

impl Entry {
    /// The hash of the entry.
    pub fn hash(&self) -> (r: BlobHash)
        ensures
            r == self.0.hash,
    {
        self.0.hash
    }

    /// The size of the entry, which is validated if all of the data is there.
    pub open spec fn spec_size(self) -> BaoBlobSize {
        if self.0.complete {
            BaoBlobSize::Verified(self.0.current_size)
        } else {
            BaoBlobSize::Unverified(self.0.current_size)
        }
    }

    /// The size of the entry, which is validated if all of the data is there.
    pub fn size(&self) -> (r: BaoBlobSize)
        ensures
            r == self.spec_size(),
    {
        if self.is_complete() {
            BaoBlobSize::Verified(self.0.current_size)
        } else {
            BaoBlobSize::Unverified(self.0.current_size)
        }
    }

    /// Whether all of the data is there.
    pub fn is_complete(&self) -> (r: bool)
        ensures
            r == self.0.complete,
    {
        self.0.complete
    }
}

/// An entry that was looked up, complete or partial.
pub open spec fn possibly_partial(entry: Option<Entry>) -> PossiblyPartialEntry {
    match entry {
        Some(e) => if e.0.complete {
            PossiblyPartialEntry::Complete(e)
        } else {
            PossiblyPartialEntry::Partial(e)
        },
        None => PossiblyPartialEntry::NotFound,
    }
}

/// Tells a complete entry from a partial one.
pub fn get_possibly_partial(entry: Option<Entry>) -> (r: PossiblyPartialEntry)
    ensures
        r == possibly_partial(entry),
{
    match entry {
        Some(e) => {
            if e.is_complete() {
                PossiblyPartialEntry::Complete(e)
            } else {
                PossiblyPartialEntry::Partial(e)
            }
        },
        None => PossiblyPartialEntry::NotFound,
    }
}

/// Joining findings never loses what is known: of two sizes the first is kept, one
/// size is kept wherever it stands, and what is complete on either side comes out
/// as it was, the first of two.
pub proof fn union_keeps_what_is_known(a: EntryState, b: EntryState, x: u64, y: u64)
    ensures
        (EntryState::Partial { size: Some(x) }).spec_union(EntryState::Partial { size: Some(y) })
            == (EntryState::Partial { size: Some(x) }),
        (EntryState::Partial { size: None }).spec_union(EntryState::Partial { size: Some(y) }) == (
        EntryState::Partial { size: Some(y) }),
        (EntryState::Partial { size: Some(x) }).spec_union(EntryState::Partial { size: None }) == (
        EntryState::Partial { size: Some(x) }),
        a is Partial && b is Complete ==> a.spec_union(b) == b,
        a is Complete ==> a.spec_union(b) == a,
        spec_default_entry() == (EntryState::Partial { size: None }),
{
}

/// Leaving the inlined bytes out of a place changes nothing else of it, and an
/// entry says of itself where its parts are.
pub proof fn places_stay_without_their_bytes<I>(
    data: DataLocation<I, u64>,
    outboard: OutboardLocation<I>,
)
    ensures
        data is Inline <==> data.spec_discard_inline_data() is Inline,
        data matches DataLocation::Owned(size) ==> data.spec_discard_inline_data() == DataLocation::<
            (),
            u64,
        >::Owned(size),
        data matches DataLocation::External(paths, size) ==> data.spec_discard_inline_data()
            == DataLocation::<(), u64>::External(paths, size),
        data.spec_size() is None <==> data is Inline,
        data matches DataLocation::Owned(size) ==> data.spec_size() == Some(size),
        data matches DataLocation::External(_, size) ==> data.spec_size() == Some(size),
        data is Inline <==> data.spec_discard_extra_data() is Inline,
        data is Owned <==> data.spec_discard_extra_data() is Owned,
        data matches DataLocation::External(paths, _) ==> data.spec_discard_extra_data()
            == DataLocation::<(), ()>::External(paths, ()),
        outboard is Inline <==> outboard.spec_discard_extra_data() is Inline,
        outboard is Owned <==> outboard.spec_discard_extra_data() is Owned,
        outboard is NotNeeded <==> outboard.spec_discard_extra_data() is NotNeeded,
        ({
            let e = EntryState::Complete {
                data_location: data.spec_discard_inline_data(),
                outboard_location: outboard.spec_discard_extra_data(),
            };
            &&& e.spec_inline_data() <==> data is Inline
            &&& e.spec_inline_outboard() <==> outboard is Inline
            &&& e.is_external() <==> data is External
        }),
        forall|size: Option<u64>|
            !(#[trigger] (EntryState::Partial { size }).spec_inline_data()) && !(
            EntryState::Partial { size }).spec_inline_outboard() && !(EntryState::Partial {
                size,
            }).is_external(),
{
}

/// An entry that was found is never lost on the way: it comes out as complete
/// exactly if it is, with a size that counts as verified exactly then.
pub proof fn found_entries_are_told_apart(e: Entry, entry: EntryState)
    ensures
        e.0.complete ==> possibly_partial(Some(e)) == PossiblyPartialEntry::Complete(e)
            && e.spec_size() == BaoBlobSize::Verified(e.0.current_size),
        !e.0.complete ==> possibly_partial(Some(e)) == PossiblyPartialEntry::Partial(e)
            && e.spec_size() == BaoBlobSize::Unverified(e.0.current_size),
        possibly_partial(None) is NotFound,
        entry is Partial ==> entry.spec_owned(),
        entry is Complete ==> !(entry.spec_owned() && entry.spec_inline_data()) && !(
        entry.spec_owned() && entry.is_external()) && (entry.spec_owned()
            || entry.spec_inline_data() || entry.is_external()),
{
}

} // verus!
