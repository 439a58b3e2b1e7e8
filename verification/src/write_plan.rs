//! Short-write accounting: a write request of N bytes is complete only
//! when every one of the N bytes has been handed to the descriptor.
//!
//! The surrounding binary performs the actual write calls; each call may
//! transmit fewer bytes than asked. [`WriteProgress`] tracks how far into
//! the request the calls have come, tells the binary where the next call
//! must start, and reports completion exactly when all N bytes are
//! accounted for.

use vstd::prelude::*;

verus! {

/// Abstract accounting state of one write request.
pub struct ProgressModel {
    /// The size of the whole request.
    pub total: int,
    /// How many bytes the write calls have transmitted so far.
    pub written: int,
}

/// The effect of one write call that transmitted `count` bytes.
pub open spec fn advance_model(m: ProgressModel, count: int) -> ProgressModel {
    ProgressModel { written: m.written + count, ..m }
}

/// The effect of a whole sequence of write calls, first to last.
pub open spec fn feed_model(m: ProgressModel, counts: Seq<int>) -> ProgressModel
    decreases counts.len(),
{
    if counts.len() == 0 {
        m
    } else {
        feed_model(advance_model(m, counts[0]), counts.drop_first())
    }
}

/// The sum of a sequence of per-call byte counts.
pub open spec fn counts_total(counts: Seq<int>) -> int
    decreases counts.len(),
{
    if counts.len() == 0 {
        0
    } else {
        counts[0] + counts_total(counts.drop_first())
    }
}

/// Every call transmits at least zero bytes and no more than were still
/// outstanding when it ran.
pub open spec fn counts_admissible(m: ProgressModel, counts: Seq<int>) -> bool
    decreases counts.len(),
{
    if counts.len() == 0 {
        true
    } else {
        0 <= counts[0] <= m.total - m.written && counts_admissible(
            advance_model(m, counts[0]),
            counts.drop_first(),
        )
    }
}

/// No short writes: after any admissible sequence of write calls, the
/// bytes accounted for are exactly the sum of what the calls transmitted,
/// and the request counts as complete exactly when that sum covers every
/// outstanding byte — never sooner.
pub proof fn lemma_no_short_writes(m: ProgressModel, counts: Seq<int>)
    requires
        counts_admissible(m, counts),
    ensures
        feed_model(m, counts).total == m.total,
        feed_model(m, counts).written == m.written + counts_total(counts),
        feed_model(m, counts).written == m.total <==> counts_total(counts) == m.total - m.written,
    decreases counts.len(),
{
    if counts.len() > 0 {
        lemma_no_short_writes(advance_model(m, counts[0]), counts.drop_first());
    }
}

/// Concrete accounting for one write request of `total` bytes.
pub struct WriteProgress {
    /// The size of the whole request.
    pub total: usize,
    /// How many bytes the write calls have transmitted so far.
    pub written: usize,
}

impl WriteProgress {
    /// The abstract state this accounting is in.
    pub open spec fn model(self) -> ProgressModel {
        ProgressModel { total: self.total as int, written: self.written as int }
    }

    /// The accounting never runs past the end of the request.
    pub open spec fn wf(self) -> bool {
        self.written <= self.total
    }

    /// Start accounting for a request of `total` bytes.
    pub fn new(total: usize) -> (r: WriteProgress)
        ensures
            r.wf(),
            r.total == total,
            r.written == 0,
    {
        WriteProgress { total, written: 0 }
    }

    /// Where in the request's buffer the next write call must start.
    pub fn offset(&self) -> (n: usize)
        ensures
            n == self.written,
    {
        self.written
    }

    /// How many bytes are still outstanding.
    pub fn remaining(&self) -> (n: usize)
        requires
            self.wf(),
        ensures
            n == self.total - self.written,
    {
        self.total - self.written
    }

    /// Account for one write call that transmitted `count` bytes. A write
    /// call never transmits more than was outstanding, so the caller can
    /// always meet the bound.
    pub fn advance(&mut self, count: usize)
        requires
            old(self).wf(),
            count <= old(self).total - old(self).written,
        ensures
            final(self).wf(),
            final(self).model() == advance_model(old(self).model(), count as int),
            final(self).total == old(self).total,
            final(self).written == old(self).written + count,
    {
        self.written = self.written + count;
    }

    /// Is the whole request transmitted? True exactly when all `total`
    /// bytes are accounted for: success is never reported with fewer.
    pub fn is_complete(&self) -> (b: bool)
        ensures
            b == (self.written == self.total),
    {
        self.written == self.total
    }
}

} // verus!
