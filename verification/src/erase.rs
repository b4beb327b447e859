//! Chunked erase.
//!
//! A storage erase request spans an address range `[from, to)` that may
//! exceed the wrapped driver's single erase-unit granularity.  The adapter
//! does not forward the whole range as one call: it partitions the range
//! into consecutive sub-ranges of at most one erase unit each ([`chunks`]),
//! forwards them to the wrapped driver one by one, and yields once after
//! each successful sub-range.  The first failing sub-range aborts the whole
//! operation; completed sub-ranges are not rolled back.  [`EraseOp`] is the
//! state of one such operation in progress.

use vstd::prelude::*;
use vstd::math::min;
use vstd::arithmetic::div_mod::{lemma_basic_div, lemma_div_plus_one};
use vstd::arithmetic::mul::{lemma_mul_basics, lemma_mul_is_distributive_add_other_way};

verus! {

/// The end of the erase sub-range that starts at `start`: one full erase
/// unit of `erase_size` bytes, clipped so as not to pass `to`.
pub open spec fn chunk_end(start: u32, to: u32, erase_size: u32) -> u32 {
    if to - start < erase_size {
        to
    } else {
        (start + erase_size) as u32
    }
}

/// The consecutive sub-ranges into which an erase request over
/// `[start, to)` is partitioned: each starts where the previous one ended,
/// advancing in `erase_size` steps, with the last one clipped to end at
/// `to`.
pub open spec fn chunks(start: u32, to: u32, erase_size: u32) -> Seq<(u32, u32)>
    decreases to - start,
    when erase_size > 0
{
    if start >= to {
        Seq::empty()
    } else {
        seq![(start, chunk_end(start, to, erase_size))]
            + chunks(chunk_end(start, to, erase_size), to, erase_size)
    }
}

/// How many sub-ranges an erase request over `[start, to)` produces: the
/// length of the range divided by `erase_size`, rounded up.
pub open spec fn chunk_count(start: u32, to: u32, erase_size: u32) -> int {
    ((to - start) + erase_size - 1) / (erase_size as int)
}

/// `c` is an exact partition of `[from, to)` into consecutive erase
/// sub-ranges of granularity `erase_size`: exactly `ceil((to - from) /
/// erase_size)` of them, the `i`-th starting at `from + i * erase_size`,
/// each exactly `erase_size` long except possibly the last, which ends at
/// `to` — covering `[from, to)` with no gaps and no overlaps.
pub open spec fn is_exact_partition(c: Seq<(u32, u32)>, from: u32, to: u32, erase_size: u32) -> bool {
    &&& c.len() == chunk_count(from, to, erase_size)
    &&& forall|i: int| 0 <= i < c.len() ==> (#[trigger] c[i]).0 == from + i * erase_size
    &&& forall|i: int| 0 <= i < c.len() ==> (#[trigger] c[i]).1 == min(from + (i + 1) * erase_size, to as int)
    &&& forall|i: int| 0 <= i < c.len() ==> (#[trigger] c[i]).1 == chunk_end(c[i].0, to, erase_size)
    &&& forall|i: int| 0 <= i < c.len() ==> (#[trigger] c[i]).0 < c[i].1 <= to
    &&& forall|i: int| 0 <= i < c.len() - 1 ==> (#[trigger] c[i]).1 == c[i].0 + erase_size
    &&& forall|i: int| 0 < i < c.len() ==> (#[trigger] c[i]).0 == c[i - 1].1
    &&& c.len() > 0 ==> c[0].0 == from && c[c.len() - 1].1 == to
}

/// Erase chunking is an exact partition: the sub-ranges of an erase
/// request over `[from, to)` with granularity `erase_size` are exactly
/// `ceil((to - from) / erase_size)` consecutive ranges, each of length
/// `erase_size` except possibly the last, covering `[from, to)` with no
/// gaps and no overlaps.
pub proof fn lemma_chunks_partition(from: u32, to: u32, erase_size: u32)
    requires
        erase_size > 0,
        from <= to,
    ensures
        is_exact_partition(chunks(from, to, erase_size), from, to, erase_size),
    decreases to - from,
{
    let e = erase_size as int;
    let d = to - from;
    let c = chunks(from, to, erase_size);
    lemma_mul_basics(e);
    if from == to {
        lemma_basic_div(e - 1, e);
        assert(c.len() == 0);
    } else {
        let end = chunk_end(from, to, erase_size);
        lemma_chunks_partition(end, to, erase_size);
        let tail = chunks(end, to, erase_size);
        assert(c == seq![(from, end)] + tail);
        lemma_div_plus_one(d - 1, e);
        if d <= e {
            lemma_basic_div(d - 1, e);
            assert(end == to);
            assert(tail.len() == 0);
        } else {
            assert(end == from + erase_size);
            assert(tail.len() == chunk_count(end, to, erase_size));
        }
        assert(c.len() == chunk_count(from, to, erase_size));
        assert forall|i: int| 0 <= i < c.len() implies (#[trigger] c[i]).0 == from + i * erase_size by {
            if i > 0 {
                lemma_mul_is_distributive_add_other_way(e, i - 1, 1);
                assert(c[i] == tail[i - 1]);
            }
        }
        assert forall|i: int| 0 <= i < c.len() implies (#[trigger] c[i]).1 == min(
            from + (i + 1) * erase_size,
            to as int,
        ) by {
            lemma_mul_is_distributive_add_other_way(e, i, 1);
            if i > 0 {
                assert(c[i] == tail[i - 1]);
            }
        }
        assert forall|i: int| 0 <= i < c.len() implies (#[trigger] c[i]).1 == chunk_end(
            c[i].0,
            to,
            erase_size,
        ) by {
            if i > 0 {
                assert(c[i] == tail[i - 1]);
            }
        }
        assert forall|i: int| 0 <= i < c.len() implies (#[trigger] c[i]).0 < c[i].1 <= to by {
            if i > 0 {
                assert(c[i] == tail[i - 1]);
            }
        }
        assert forall|i: int| 0 <= i < c.len() - 1 implies (#[trigger] c[i]).1 == c[i].0
            + erase_size by {
            if i > 0 {
                assert(c[i] == tail[i - 1]);
            }
        }
        assert forall|i: int| 0 < i < c.len() implies (#[trigger] c[i]).0 == c[i - 1].1 by {
            assert(c[i] == tail[i - 1]);
            if i > 1 {
                assert(c[i - 1] == tail[i - 2]);
            }
        }
    }
}

/// A chunked erase in progress: the sub-ranges of the plan are issued in
/// order, one per successful driver call, and a failed driver call aborts
/// the whole operation, after which no further sub-range is issued.
pub struct EraseOp {
    pos: u32,
    to: u32,
    erase_size: u32,
    aborted: bool,
    from: Ghost<u32>,
    done: Ghost<nat>,
}

impl EraseOp {
    /// The request `[from, to)` this operation was created for.
    pub closed spec fn request(self) -> (u32, u32) {
        (self.from@, self.to)
    }

    /// The erase granularity of the wrapped driver.
    pub closed spec fn granularity(self) -> u32 {
        self.erase_size
    }

    /// The sub-ranges the wrapped driver is asked to erase, in order.
    pub open spec fn plan(self) -> Seq<(u32, u32)> {
        chunks(self.request().0, self.request().1, self.granularity())
    }

    /// How many sub-ranges the wrapped driver has erased so far.
    pub closed spec fn completed(self) -> nat {
        self.done@
    }

    /// Whether a failed sub-range has aborted the whole operation.
    pub closed spec fn aborted(self) -> bool {
        self.aborted
    }

    /// Internal consistency: the granularity is positive, the range is
    /// ordered, and the current position is where the first sub-range not
    /// yet erased starts (or the end of the range once all are done).
    pub closed spec fn wf(self) -> bool {
        &&& self.erase_size > 0
        &&& self.from@ <= self.to
        &&& self.done@ <= self.plan().len()
        &&& (self.done@ == self.plan().len() ==> self.pos == self.to)
        &&& (self.done@ < self.plan().len() ==> self.pos == self.plan()[self.done@ as int].0)
    }

    /// Begin a chunked erase of `[from, to)` at the wrapped driver's erase
    /// granularity: nothing erased yet, not aborted.
    pub fn new(from: u32, to: u32, erase_size: u32) -> (r: Self)
        requires
            erase_size > 0,
            from <= to,
        ensures
            r.wf(),
            r.request() == (from, to),
            r.granularity() == erase_size,
            r.completed() == 0,
            !r.aborted(),
    {
        let r = EraseOp {
            pos: from,
            to,
            erase_size,
            aborted: false,
            from: Ghost(from),
            done: Ghost(0nat),
        };
        proof {
            lemma_chunks_partition(from, to, erase_size);
            if from < to {
                assert(r.plan().len() > 0);
            }
        }
        r
    }

    /// The next sub-range to hand to the wrapped driver's erase operation:
    /// `None` once the operation has aborted or every sub-range of the
    /// plan is done, otherwise the first sub-range not yet erased.
    pub fn next_range(&self) -> (r: Option<(u32, u32)>)
        requires
            self.wf(),
        ensures
            self.aborted() || self.completed() == self.plan().len() ==> r is None,
            !self.aborted() && self.completed() < self.plan().len() ==> r == Some(
                self.plan()[self.completed() as int],
            ),
    {
        proof {
            lemma_chunks_partition(self.from@, self.to, self.erase_size);
        }
        if self.aborted || self.pos >= self.to {
            None
        } else {
            let remaining = self.to - self.pos;
            let len = if remaining < self.erase_size {
                remaining
            } else {
                self.erase_size
            };
            Some((self.pos, self.pos + len))
        }
    }

    /// Record that the wrapped driver erased the current sub-range
    /// successfully (the calling task yields once right after): move on to
    /// the next sub-range.
    pub fn advance(&mut self)
        requires
            old(self).wf(),
            !old(self).aborted(),
            old(self).completed() < old(self).plan().len(),
        ensures
            final(self).wf(),
            final(self).request() == old(self).request(),
            final(self).granularity() == old(self).granularity(),
            final(self).completed() == old(self).completed() + 1,
            !final(self).aborted(),
    {
        proof {
            lemma_chunks_partition(self.from@, self.to, self.erase_size);
        }
        let remaining = self.to - self.pos;
        let len = if remaining < self.erase_size {
            remaining
        } else {
            self.erase_size
        };
        self.pos = self.pos + len;
        self.done = Ghost(self.done@ + 1);
    }

    /// Record that the wrapped driver failed on the current sub-range: the
    /// whole operation aborts with that failure, no further sub-range is
    /// issued, and the sub-ranges already erased are not rolled back.
    pub fn abort(&mut self)
        requires
            old(self).wf(),
        ensures
            final(self).wf(),
            final(self).aborted(),
            final(self).request() == old(self).request(),
            final(self).granularity() == old(self).granularity(),
            final(self).completed() == old(self).completed(),
    {
        self.aborted = true;
    }
}

} // verus!
