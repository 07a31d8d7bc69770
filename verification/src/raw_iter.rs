//! A double-ended cursor over an indexed collection: it yields indices
//! into a fixed-length sequence of engine-owned items, front to back or
//! back to front, and the surrounding code fetches each item by index.

use vstd::prelude::*;

verus! {

/// A half-open index window `[start, end)` over a collection of known
/// length.
#[derive(Clone, Copy, Debug)]
pub struct RawIter {
    pub start: usize,
    pub end: usize,
}

impl RawIter {
    /// The window is a well-formed range.
    pub open spec fn wf(self) -> bool {
        self.start <= self.end
    }

    /// A fresh cursor over a collection of the given length.
    pub fn new(len: usize) -> (r: RawIter)
        ensures
            r.start == 0,
            r.end == len,
            r.wf(),
    {
        RawIter { start: 0, end: len }
    }

    /// Yields the front index and moves past it; nothing once the window
    /// is empty.
    pub fn next(&mut self) -> (r: Option<usize>)
        requires
            old(self).wf(),
        ensures
            old(self).start < old(self).end ==> {
                &&& r == Some(old(self).start)
                &&& final(self).start == old(self).start + 1
                &&& final(self).end == old(self).end
            },
            old(self).start >= old(self).end ==> {
                &&& r is None
                &&& *final(self) == *old(self)
            },
            final(self).wf(),
    {
        if self.start < self.end {
            let index = self.start;
            self.start = self.start + 1;
            Some(index)
        } else {
            None
        }
    }

    /// Peeks the index `n` places past the front without moving the
    /// cursor.
    pub fn nth(&mut self, n: usize) -> (r: Option<usize>)
        requires
            old(self).start + n <= usize::MAX,
        ensures
            *final(self) == *old(self),
            old(self).start + n < old(self).end ==> r == Some((old(self).start + n) as usize),
            old(self).start + n >= old(self).end ==> r is None,
    {
        let index = self.start + n;
        if index < self.end {
            Some(index)
        } else {
            None
        }
    }

    /// How many indices remain, as an exact lower and upper bound.
    pub fn size_hint(&self) -> (r: (usize, Option<usize>))
        requires
            self.wf(),
        ensures
            r.0 == self.end - self.start,
            r.1 == Some((self.end - self.start) as usize),
    {
        let len = self.end - self.start;
        (len, Some(len))
    }

    /// Yields the back index and moves before it; nothing once the
    /// window is empty.
    pub fn next_back(&mut self) -> (r: Option<usize>)
        requires
            old(self).wf(),
        ensures
            old(self).start < old(self).end ==> {
                &&& r == Some((old(self).end - 1) as usize)
                &&& final(self).end == old(self).end - 1
                &&& final(self).start == old(self).start
            },
            old(self).start >= old(self).end ==> {
                &&& r is None
                &&& *final(self) == *old(self)
            },
            final(self).wf(),
    {
        if self.start < self.end {
            self.end = self.end - 1;
            Some(self.end)
        } else {
            None
        }
    }

    /// Peeks the index `n` places before the back without moving the
    /// cursor.
    pub fn nth_back(&mut self, n: usize) -> (r: Option<usize>)
        requires
            n < usize::MAX,
        ensures
            *final(self) == *old(self),
            (match r {
                Some(index) => {
                    &&& index == old(self).end - n - 1
                    &&& old(self).end >= n + 1
                    &&& old(self).start <= index
                }
                None => old(self).end < n + 1 || old(self).end - n - 1 < old(self).start,
            }),
    {
        if self.end >= n + 1 {
            let index = self.end - (n + 1);
            if self.start <= index {
                Some(index)
            } else {
                None
            }
        } else {
            None
        }
    }
}

} // verus!
