//! Half-open byte ranges inside a captured buffer.

use vstd::prelude::*;
use vstd::slice::slice_subrange;

verus! {

/// The bytes `start..end` of some buffer.
#[derive(Clone, Copy, Debug, PartialEq, Eq, Hash, Structural)]
pub struct Span {
    pub start: usize,
    pub end: usize,
}

impl Span {
    /// Whether the span lies inside a buffer of `len` bytes.
    pub open spec fn within(self, len: nat) -> bool {
        self.start <= self.end <= len
    }

    /// The span from `start` up to `end`.
    pub open spec fn spec_between(start: usize, end: nat) -> Span {
        Span { start, end: end as usize }
    }

    /// The bytes of `data` that the span covers.
    pub open spec fn of(self, data: Seq<u8>) -> Seq<u8> {
        data.subrange(self.start as int, self.end as int)
    }

    /// The same span seen from a buffer that begins `by` bytes earlier.
    pub open spec fn shifted(self, by: usize) -> Span {
        Span { start: (self.start + by) as usize, end: (self.end + by) as usize }
    }

    /// The number of bytes covered.
    pub fn len(&self) -> (n: usize)
        requires
            self.start <= self.end,
        ensures
            n == self.end - self.start,
    {
        self.end - self.start
    }

    /// Borrows the bytes of `data` that the span covers.
    pub fn slice<'a>(&self, data: &'a [u8]) -> (bytes: &'a [u8])
        requires
            self.within(data@.len()),
        ensures
            bytes@ == self.of(data@),
    {
        slice_subrange(data, self.start, self.end)
    }

    /// Borrows the covered bytes, or `None` where the span does not lie
    /// inside `data`.
    pub fn checked_slice<'a>(&self, data: &'a [u8]) -> (bytes: Option<&'a [u8]>)
        ensures
            self.within(data@.len()) ==> bytes.is_some() && bytes.unwrap()@ == self.of(data@),
            !self.within(data@.len()) ==> bytes.is_none(),
    {
        if self.start <= self.end && self.end <= data.len() {
            Some(slice_subrange(data, self.start, self.end))
        } else {
            None
        }
    }
}

} // verus!
