//! Scan ranges, their priorities, and how the engine cuts them into chunks.
use vstd::prelude::*;
use crate::error::Error;

verus! {

/// Number of blocks downloaded and scanned at once.
pub const BATCH_SIZE: u32 = 10_000;

/// Number of blocks that a wallet rewinds below the height of a detected reorg.
pub const REWIND_MARGIN: u32 = 10;

/// How urgently a range of blocks should be scanned, from least to most urgent.
#[derive(Clone, Copy, Debug, PartialEq, Eq, Structural)]
pub enum ScanPriority {
    Ignored,
    Historic,
    FoundNote,
    OpenAdjacent,
    ChainTip,
    Verify,
}

/// The rank of a priority in the total order `Verify > ChainTip > OpenAdjacent >
/// FoundNote > Historic > Ignored`.
pub open spec fn priority_rank(p: ScanPriority) -> int {
    match p {
        ScanPriority::Ignored => 0,
        ScanPriority::Historic => 1,
        ScanPriority::FoundNote => 2,
        ScanPriority::OpenAdjacent => 3,
        ScanPriority::ChainTip => 4,
        ScanPriority::Verify => 5,
    }
}

impl ScanPriority {
    pub fn rank(&self) -> (r: u8)
        ensures
            r as int == priority_rank(*self),
    {
        match self {
            ScanPriority::Ignored => 0,
            ScanPriority::Historic => 1,
            ScanPriority::FoundNote => 2,
            ScanPriority::OpenAdjacent => 3,
            ScanPriority::ChainTip => 4,
            ScanPriority::Verify => 5,
        }
    }

    /// Whether `self` is strictly more urgent than `other`.
    pub fn is_higher_than(&self, other: &ScanPriority) -> (r: bool)
        ensures
            r == (priority_rank(*self) > priority_rank(*other)),
    {
        self.rank() > other.rank()
    }
}

/// A half-open range `[start, end)` of block heights with a scan priority.
#[derive(Clone, Copy, Debug, PartialEq, Eq, Structural)]
pub struct ScanRange {
    pub start: u32,
    pub end: u32,
    pub priority: ScanPriority,
}

impl ScanRange {
    pub open spec fn wf(&self) -> bool {
        self.start <= self.end
    }

    pub open spec fn spec_len(&self) -> int {
        self.end - self.start
    }

    /// Builds a range; `None` when `start > end`.
    pub fn from_parts(start: u32, end: u32, priority: ScanPriority) -> (r: Option<ScanRange>)
        ensures
            r == (if start <= end {
                Some(ScanRange { start, end, priority })
            } else {
                None::<ScanRange>
            }),
    {
        if start <= end {
            Some(ScanRange { start, end, priority })
        } else {
            None
        }
    }

    pub fn len(&self) -> (r: u32)
        requires
            self.wf(),
        ensures
            r as int == self.spec_len(),
    {
        self.end - self.start
    }

    pub fn is_empty(&self) -> (r: bool)
        requires
            self.wf(),
        ensures
            r == (self.spec_len() == 0),
    {
        self.start == self.end
    }

    /// The inclusive bounds `(start, end - 1)` that the daemon's block-range request
    /// takes for this range; `None` for an empty range.
    pub fn request_bounds(&self) -> (r: Option<(u32, u32)>)
        requires
            self.wf(),
        ensures
            r == (if self.start < self.end {
                Some((self.start, (self.end - 1) as u32))
            } else {
                None::<(u32, u32)>
            }),
    {
        if self.start < self.end {
            Some((self.start, self.end - 1))
        } else {
            None
        }
    }
}

/// The number of chunks of at most `b` blocks that cover `len` blocks.
pub open spec fn chunk_count(len: int, b: int) -> int {
    (len + b - 1) / b
}

/// The `k`-th chunk of `r` when it is cut into windows of `b` blocks.
pub open spec fn chunk_at(r: ScanRange, b: int, k: int) -> ScanRange {
    let s = r.start + k * b;
    ScanRange {
        start: s as u32,
        end: (if s + b < r.end { s + b } else { r.end as int }) as u32,
        priority: r.priority,
    }
}

/// The chunks of `r`, in ascending order of height.
pub open spec fn chunks_of(r: ScanRange, b: int) -> Seq<ScanRange> {
    Seq::new(chunk_count(r.spec_len(), b) as nat, |k: int| chunk_at(r, b, k))
}

proof fn lemma_ceil_div(len: int, b: int, n: int)
    requires
        b > 0,
        0 <= len,
        0 <= n,
        len <= n * b,
        n == 0 || (n - 1) * b < len,
    ensures
        n == chunk_count(len, b),
{
    if n == 0 {
        assert(len == 0);
        assert((len + b - 1) / b == 0) by (nonlinear_arith)
            requires len == 0, b > 0;
    } else {
        assert((len + b - 1) / b == n) by (nonlinear_arith)
            requires len <= n * b, (n - 1) * b < len, b > 0, n > 0;
    }
}

/// Cuts `r` into consecutive chunks of `batch` blocks, the last one shorter if
/// the length is not a multiple of `batch`. An empty range gives no chunk.
pub fn split_into_chunks(r: &ScanRange, batch: u32) -> (out: Vec<ScanRange>)
    requires
        r.wf(),
        batch > 0,
    ensures
        out@ == chunks_of(*r, batch as int),
{
    let mut out: Vec<ScanRange> = Vec::new();
    let mut cur: u32 = r.start;
    assert(out@.len() == 0);
    assert(0 * (batch as int) == 0);
    while cur < r.end
        invariant
            r.wf(),
            batch > 0,
            r.start <= cur <= r.end,
            cur < r.end ==> cur == r.start + out.len() * batch,
            cur == r.end ==> r.spec_len() <= out.len() * batch,
            out.len() == 0 || (out.len() - 1) * batch < r.spec_len(),
            out.len() == 0 ==> cur == r.start,
            forall|k: int| 0 <= k < out.len() ==> out@[k] == chunk_at(*r, batch as int, k),
        decreases r.end - cur,
    {
        let next: u32 = if r.end - cur > batch { cur + batch } else { r.end };
        let ghost n = out.len() as int;
        out.push(ScanRange { start: cur, end: next, priority: r.priority });
        proof {
            assert(n * batch < r.spec_len());
            assert((n + 1) * batch == n * batch + batch) by (nonlinear_arith);
        }
        cur = next;
    }
    proof {
        lemma_ceil_div(r.spec_len(), batch as int, out.len() as int);
    }
    assert(out@ =~= chunks_of(*r, batch as int));
    out
}

/// Cutting a range into chunks covers it exactly: there are `⌈L / batch⌉` chunks,
/// none empty, the first starts where the range starts, each ends where the next
/// starts, the last ends where the range ends, and each keeps the range's priority.
pub proof fn lemma_chunks_cover_range(r: ScanRange, batch: int)
    requires
        r.wf(),
        batch > 0,
    ensures
        chunks_of(r, batch).len() == chunk_count(r.spec_len(), batch),
        forall|k: int|
            0 <= k < chunks_of(r, batch).len() ==> {
                let c = #[trigger] chunks_of(r, batch)[k];
                c.start < c.end && c.end - c.start <= batch && c.priority == r.priority
            },
        chunks_of(r, batch).len() > 0 ==> chunks_of(r, batch)[0].start == r.start,
        chunks_of(r, batch).len() > 0 ==> chunks_of(r, batch).last().end == r.end,
        forall|k: int|
            0 <= k < chunks_of(r, batch).len() - 1 ==> #[trigger] chunks_of(r, batch)[k].end
                == chunks_of(r, batch)[k + 1].start,
        r.spec_len() == 0 <==> chunks_of(r, batch).len() == 0,
{
    let len = r.spec_len();
    let n = chunk_count(len, batch);
    assert(0 <= n) by (nonlinear_arith)
        requires n == (len + batch - 1) / batch, len >= 0, batch > 0;
    assert(len > 0 ==> n > 0) by (nonlinear_arith)
        requires n == (len + batch - 1) / batch, len >= 0, batch > 0;
    assert(len == 0 ==> n == 0) by (nonlinear_arith)
        requires n == (len + batch - 1) / batch, len >= 0, batch > 0;
    assert forall|k: int| 0 <= k < n implies {
        let c = #[trigger] chunks_of(r, batch)[k];
        c.start < c.end && c.end - c.start <= batch && c.priority == r.priority
    } by {
        assert(k * batch < len) by (nonlinear_arith)
            requires n == (len + batch - 1) / batch, len >= 0, batch > 0, 0 <= k < n;
        assert(0 <= k * batch) by (nonlinear_arith)
            requires batch > 0, 0 <= k;
    }
    assert forall|k: int| 0 <= k < n - 1 implies #[trigger] chunks_of(r, batch)[k].end
        == chunks_of(r, batch)[k + 1].start by {
        assert((k + 1) * batch < len) by (nonlinear_arith)
            requires n == (len + batch - 1) / batch, len >= 0, batch > 0, 0 <= k < n - 1;
        assert((k + 1) * batch == k * batch + batch) by (nonlinear_arith);
        assert(0 <= k * batch) by (nonlinear_arith)
            requires batch > 0, 0 <= k;
    }
    assert(n > 0 ==> len <= n * batch && (n - 1) * batch == n * batch - batch) by (nonlinear_arith)
        requires n == (len + batch - 1) / batch, len >= 0, batch > 0;
}

/// The height to rewind the wallet to after a continuity error at `error_height`.
pub fn rewind_height(error_height: u32) -> (r: u32)
    ensures
        r == if error_height >= REWIND_MARGIN { error_height - REWIND_MARGIN } else { 0 },
{
    error_height.saturating_sub(REWIND_MARGIN)
}

/// How scanning a range of cached blocks failed.
#[derive(Clone, Debug, PartialEq, Eq)]
pub enum ScanFailure {
    /// The block at this height does not continue the wallet's chain: a reorg.
    Continuity(u32),
    /// Any other failure.
    Other(Error),
}

/// Recovers from a failed scan: a continuity error at height `h` is answered by a
/// rewind of the wallet and the cache to `h - REWIND_MARGIN` (at least 0), whose
/// height is returned; any other failure is passed on.
pub fn scan_recovery(f: ScanFailure) -> (r: Result<u32, Error>)
    ensures
        f is Continuity ==> r == Ok::<u32, Error>(
            if f->Continuity_0 >= REWIND_MARGIN { (f->Continuity_0 - REWIND_MARGIN) as u32 } else { 0 },
        ),
        f is Other ==> r == Err::<u32, Error>(f->Other_0),
{
    match f {
        ScanFailure::Continuity(h) => Ok(rewind_height(h)),
        ScanFailure::Other(e) => Err(e),
    }
}

/// Whether the wallet's new top suggestion is strictly more urgent than the range
/// that was just scanned.
pub fn priority_escalated(latest: &Vec<ScanRange>, scanned: &ScanRange) -> (r: bool)
    ensures
        r == (latest@.len() > 0 && priority_rank(latest@[0].priority) > priority_rank(
            scanned.priority,
        )),
{
    if latest.len() > 0 {
        latest[0].priority.is_higher_than(&scanned.priority)
    } else {
        false
    }
}

/// Sum of the lengths of `rs`.
pub open spec fn total_len(rs: Seq<ScanRange>) -> int
    decreases rs.len(),
{
    if rs.len() == 0 {
        0
    } else {
        total_len(rs.drop_last()) + rs.last().spec_len()
    }
}

/// The total work of a list of well-formed ranges, in blocks.
pub fn total_work(rs: &Vec<ScanRange>) -> (r: u64)
    requires
        forall|k: int| 0 <= k < rs@.len() ==> (#[trigger] rs@[k]).wf(),
        rs@.len() <= u32::MAX,
    ensures
        r as int == total_len(rs@),
{
    let mut sum: u64 = 0;
    let mut i: usize = 0;
    while i < rs.len()
        invariant
            forall|k: int| 0 <= k < rs@.len() ==> (#[trigger] rs@[k]).wf(),
            rs@.len() <= u32::MAX,
            0 <= i <= rs@.len(),
            sum as int == total_len(rs@.take(i as int)),
            sum <= i * (u32::MAX as int),
        decreases rs.len() - i,
    {
        assert(rs@.take(i as int + 1).drop_last() =~= rs@.take(i as int));
        let l = rs[i].len();
        assert(sum + l <= (i + 1) * (u32::MAX as int)) by (nonlinear_arith)
            requires sum <= i * (u32::MAX as int), l <= u32::MAX;
        assert((i + 1) * (u32::MAX as int) <= (u32::MAX as int) * (u32::MAX as int)) by (nonlinear_arith)
            requires i + 1 <= u32::MAX;
        sum = sum + l as u64;
        i = i + 1;
    }
    assert(rs@.take(i as int) =~= rs@);
    sum
}

} // verus!
