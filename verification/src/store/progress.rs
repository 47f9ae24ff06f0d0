//! Reading with progress reports.

use crate::store::error::StoreError;
use vstd::prelude::*;

verus! {

/// A reader that reports how far it has read.
#[derive(Debug)]
pub struct ProgressReader2<R, F> {
    inner: R,
    offset: u64,
    cb: F,
}

impl<R, F> ProgressReader2<R, F> {
    /// The reader that is read from.
    pub closed spec fn inner(&self) -> R {
        self.inner
    }

    /// How much was read.
    pub closed spec fn offset(&self) -> u64 {
        self.offset
    }

    /// What progress is reported to.
    pub closed spec fn cb(&self) -> F {
        self.cb
    }

    /// A reader of which nothing was read yet.
    pub fn new(inner: R, cb: F) -> (r: Self)
        ensures
            r.inner() == inner,
            r.offset() == 0,
            r.cb() == cb,
    {
        ProgressReader2 { inner, offset: 0, cb }
    }

    /// The reader that is read from.
    pub fn inner_mut(&mut self) -> (r: &mut R)
        ensures
            *r == old(self).inner(),
            final(self).inner() == *final(r),
            final(self).offset() == old(self).offset(),
            final(self).cb() == old(self).cb(),
    {
        &mut self.inner
    }
}

impl<R, F: Fn(u64) -> Result<(), StoreError>> ProgressReader2<R, F> {
    /// Reports that `read` more bytes were read. The total is reported, and an
    /// error of the report is an error of the read.
    pub fn on_read(&mut self, read: usize) -> (r: Result<usize, StoreError>)
        requires
            old(self).offset() + read <= u64::MAX,
            call_requires(old(self).cb(), ((old(self).offset() + read) as u64,)),
        ensures
            final(self).inner() == old(self).inner(),
            final(self).offset() == old(self).offset() + read,
            final(self).cb() == old(self).cb(),
            exists|report: Result<(), StoreError>| #[trigger]
                call_ensures(old(self).cb(), ((old(self).offset() + read) as u64,), report) && r
                    == (match report {
                    Ok(_) => Ok(read),
                    Err(e) => Err(e),
                }),
    {
        self.offset = self.offset + read as u64;
        let report = (self.cb)(self.offset);
        match report {
            Ok(_) => Ok(read),
            Err(e) => Err(e),
        }
    }
}

} // verus!
