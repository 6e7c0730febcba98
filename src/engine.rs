//! The sync engine as a state machine: the caller performs each action (network,
//! database, scanning) and hands back the event it produced.
use vstd::prelude::*;
use crate::error::Error;
use crate::scan::{
    chunks_of, split_into_chunks, total_len, total_work, ScanPriority, ScanRange, BATCH_SIZE,
};

verus! {

/// Progress of a sync session.
#[derive(Clone, Debug, PartialEq, Eq)]
pub struct SyncStatus {
    pub current_step: u64,
    pub total_steps: u64,
    pub last_fully_scanned_block: Option<u32>,
    pub tip_height: u32,
    pub last_error: Option<String>,
}

/// Where the engine stands.
#[derive(Clone, Copy, Debug, PartialEq, Eq, Structural)]
pub enum Phase {
    SeedRoots,
    TipRefresh,
    TransparentPull,
    VerifyLoop,
    VerifyScanning,
    Planning,
    ScanLoop,
    Backfilling,
    MempoolWait,
    Done,
}

/// What the caller must do next.
#[derive(Clone, Debug, PartialEq, Eq)]
pub enum Action {
    /// Fetch the Sapling subtree roots and store them from index 0.
    SeedSubtreeRoots,
    /// Fetch the chain tip from the daemon.
    FetchTip,
    /// Record `tip` in the wallet, then pull the history of every transparent
    /// address up to `tip`.
    PullTransparent { tip: u32 },
    /// Read the wallet's suggested scan ranges and its fully scanned height.
    SuggestRanges,
    /// Report `status`, then download the blocks of `range` and scan them.
    DownloadAndScan { range: ScanRange, status: SyncStatus },
    /// Fetch the full shielded transactions that lack raw bytes, fill in fees and
    /// report new transactions.
    Backfill,
    /// Report `status`, then wait for the mempool stream or cancellation.
    WaitMempool(SyncStatus),
    /// The session is over with this status.
    Finish(SyncStatus),
    /// The session is over with this error.
    Fail(Error),
}

/// What the caller observed when it performed the last action.
#[derive(Clone, Debug, PartialEq, Eq)]
pub enum Event {
    RootsSeeded,
    /// The height that the daemon reported as its tip.
    Tip(u64),
    TransparentPulled,
    /// The wallet's suggested ranges, by descending priority, and its fully
    /// scanned height.
    Suggestions(Vec<ScanRange>, Option<u32>),
    /// A range was downloaded and scanned; `true` when the suggested ranges
    /// changed (a reorg was rewound or a more urgent range appeared).
    Scanned(bool),
    /// The backfill finished; the wallet's fully scanned height.
    BackfillDone(Option<u32>),
    /// The mempool stream signalled activity or ended.
    MempoolSignal,
    Cancelled,
    Failed(Error),
}

/// The chunks of all ranges of `rs`, in order.
pub open spec fn all_chunks(rs: Seq<ScanRange>) -> Seq<ScanRange>
    decreases rs.len(),
{
    if rs.len() == 0 {
        Seq::empty()
    } else {
        all_chunks(rs.drop_last()) + chunks_of(rs.last(), BATCH_SIZE as int)
    }
}

pub open spec fn all_wf(rs: Seq<ScanRange>) -> bool {
    forall|k: int| 0 <= k < rs.len() ==> (#[trigger] rs[k]).wf()
}

/// A fully scanned height as reported by the wallet, capped at the chain tip.
pub open spec fn capped(h: Option<u32>, tip: u32) -> Option<u32> {
    match h {
        Some(x) => Some(if x <= tip { x } else { tip }),
        None => None,
    }
}

pub fn cap_to_tip(h: Option<u32>, tip: u32) -> (r: Option<u32>)
    ensures
        r == capped(h, tip),
{
    match h {
        Some(x) => Some(if x <= tip { x } else { tip }),
        None => None,
    }
}

pub struct SyncEngine {
    pub phase: Phase,
    pub continually: bool,
    pub tip: u32,
    pub chunks: Vec<ScanRange>,
    pub next_chunk: usize,
    pub status: SyncStatus,
}

proof fn lemma_total_len_concat(a: Seq<ScanRange>, b: Seq<ScanRange>)
    ensures
        total_len(a + b) == total_len(a) + total_len(b),
    decreases b.len(),
{
    if b.len() == 0 {
        assert(a + b =~= a);
    } else {
        assert((a + b).drop_last() =~= a + b.drop_last());
        lemma_total_len_concat(a, b.drop_last());
    }
}

proof fn lemma_total_len_nonneg(s: Seq<ScanRange>)
    requires
        all_wf(s),
    ensures
        total_len(s) >= 0,
    decreases s.len(),
{
    if s.len() > 0 {
        assert(all_wf(s.drop_last()));
        lemma_total_len_nonneg(s.drop_last());
    }
}

proof fn lemma_chunks_len_prefix(r: ScanRange, b: int, k: int)
    requires
        r.wf(),
        b > 0,
        0 <= k <= chunks_of(r, b).len(),
    ensures
        total_len(chunks_of(r, b).take(k)) == (if k * b < r.spec_len() {
            k * b
        } else {
            r.spec_len()
        }),
    decreases k,
{
    crate::scan::lemma_chunks_cover_range(r, b);
    let len = r.spec_len();
    let n = chunks_of(r, b).len() as int;
    if k == 0 {
        assert(chunks_of(r, b).take(0) =~= Seq::<ScanRange>::empty());
    } else {
        lemma_chunks_len_prefix(r, b, k - 1);
        assert(chunks_of(r, b).take(k).drop_last() =~= chunks_of(r, b).take(k - 1));
        assert((k - 1) * b < len) by (nonlinear_arith)
            requires n == (len + b - 1) / b, len >= 0, b > 0, 1 <= k <= n;
        assert(k * b == (k - 1) * b + b) by (nonlinear_arith);
        assert(0 <= (k - 1) * b) by (nonlinear_arith)
            requires b > 0, k >= 1;
    }
}

/// Cutting a range into chunks keeps its total length.
pub proof fn lemma_chunks_total(r: ScanRange, b: int)
    requires
        r.wf(),
        b > 0,
    ensures
        total_len(chunks_of(r, b)) == r.spec_len(),
{
    crate::scan::lemma_chunks_cover_range(r, b);
    let n = chunks_of(r, b).len() as int;
    lemma_chunks_len_prefix(r, b, n);
    assert(chunks_of(r, b).take(n) =~= chunks_of(r, b));
    let len = r.spec_len();
    assert(len <= n * b) by (nonlinear_arith)
        requires n == (len + b - 1) / b, len >= 0, b > 0;
}

/// The chunks of a list of ranges are well formed and have the same total length
/// as the list: scanning every chunk does exactly the work that was counted.
pub proof fn lemma_all_chunks_total(rs: Seq<ScanRange>)
    requires
        all_wf(rs),
    ensures
        total_len(all_chunks(rs)) == total_len(rs),
        all_wf(all_chunks(rs)),
    decreases rs.len(),
{
    if rs.len() > 0 {
        assert(all_wf(rs.drop_last()));
        lemma_all_chunks_total(rs.drop_last());
        lemma_chunks_total(rs.last(), BATCH_SIZE as int);
        crate::scan::lemma_chunks_cover_range(rs.last(), BATCH_SIZE as int);
        lemma_total_len_concat(all_chunks(rs.drop_last()), chunks_of(rs.last(), BATCH_SIZE as int));
    }
}

/// Cuts every range of `rs` into chunks of `BATCH_SIZE` blocks.
pub fn plan_chunks(rs: &Vec<ScanRange>) -> (out: Vec<ScanRange>)
    requires
        all_wf(rs@),
    ensures
        out@ == all_chunks(rs@),
{
    let mut out: Vec<ScanRange> = Vec::new();
    let mut i: usize = 0;
    while i < rs.len()
        invariant
            all_wf(rs@),
            0 <= i <= rs@.len(),
            out@ == all_chunks(rs@.take(i as int)),
        decreases rs.len() - i,
    {
        assert(rs@.take(i as int + 1).drop_last() =~= rs@.take(i as int));
        let mut c = split_into_chunks(&rs[i], BATCH_SIZE);
        out.append(&mut c);
        i = i + 1;
    }
    assert(rs@.take(i as int) =~= rs@);
    out
}

impl SyncEngine {
    /// The engine's invariant: the plan of chunks is well formed and the status
    /// counts exactly the blocks of the chunks already scanned.
    pub open spec fn wf(&self) -> bool {
        &&& self.wf_plan()
        &&& (self.phase == Phase::ScanLoop || self.phase == Phase::Backfilling)
            ==> self.next_chunk < self.chunks@.len()
    }

    /// The invariant without the link between the phase and the next chunk.
    pub open spec fn wf_plan(&self) -> bool {
        &&& all_wf(self.chunks@)
        &&& self.next_chunk <= self.chunks@.len()
        &&& self.status.current_step as int == total_len(self.chunks@.take(self.next_chunk as int))
        &&& self.status.total_steps as int == total_len(self.chunks@)
        &&& self.status.current_step <= self.status.total_steps
        &&& self.status.last_error.is_none()
        &&& self.status.tip_height == self.tip
        &&& match self.status.last_fully_scanned_block {
            Some(h) => h <= self.status.tip_height,
            None => true,
        }
    }

    /// The action that ends a pass in which every chunk was scanned.
    pub open spec fn caught_up_action(&self) -> Action {
        if self.continually {
            Action::WaitMempool(self.status)
        } else {
            Action::Finish(self.status)
        }
    }

    /// The phase that follows `caught_up_action`.
    pub open spec fn caught_up_phase(&self) -> Phase {
        if self.continually {
            Phase::MempoolWait
        } else {
            Phase::Done
        }
    }


    /// A fresh engine; its first action is `SeedSubtreeRoots`.
    pub fn new(continually: bool) -> (e: SyncEngine)
        ensures
            e.wf(),
            e.phase == Phase::SeedRoots,
            e.continually == continually,
    {
        let e = SyncEngine {
            phase: Phase::SeedRoots,
            continually,
            tip: 0,
            chunks: Vec::new(),
            next_chunk: 0,
            status: SyncStatus {
                current_step: 0,
                total_steps: 0,
                last_fully_scanned_block: None,
                tip_height: 0,
                last_error: None,
            },
        };
        assert(e.chunks@.take(0) =~= e.chunks@);
        e
    }

    pub fn first_action(&self) -> (a: Action)
        ensures
            a == Action::SeedSubtreeRoots,
    {
        Action::SeedSubtreeRoots
    }

    fn status_copy(&self) -> (s: SyncStatus)
        ensures
            s.current_step == self.status.current_step,
            s.total_steps == self.status.total_steps,
            s.last_fully_scanned_block == self.status.last_fully_scanned_block,
            s.tip_height == self.status.tip_height,
            s.last_error.is_none(),
            self.status.last_error.is_none() ==> s == self.status,
    {
        SyncStatus {
            current_step: self.status.current_step,
            total_steps: self.status.total_steps,
            last_fully_scanned_block: self.status.last_fully_scanned_block,
            tip_height: self.status.tip_height,
            last_error: None,
        }
    }
}

impl SyncEngine {
    fn fail(&mut self, e: Error) -> (a: Action)
        requires
            old(self).wf(),
        ensures
            final(self).wf(),
            final(self).phase == Phase::Done,
            a == Action::Fail(e),
            final(self).tip == old(self).tip,
            final(self).status == old(self).status,
            final(self).chunks == old(self).chunks,
            final(self).next_chunk == old(self).next_chunk,
            final(self).continually == old(self).continually,
    {
        self.phase = Phase::Done;
        Action::Fail(e)
    }

    fn finish_pass(&mut self) -> (a: Action)
        requires
            old(self).wf_plan(),
        ensures
            final(self).wf(),
            a == old(self).caught_up_action(),
            final(self).phase == old(self).caught_up_phase(),
            final(self).status == old(self).status,
            final(self).continually == old(self).continually,
            final(self).chunks == old(self).chunks,
            final(self).next_chunk == old(self).next_chunk,
            final(self).tip == old(self).tip,
    {
        let st = self.status_copy();
        if self.continually {
            self.phase = Phase::MempoolWait;
            Action::WaitMempool(st)
        } else {
            self.phase = Phase::Done;
            Action::Finish(st)
        }
    }

    fn all_well_formed(rs: &Vec<ScanRange>) -> (r: bool)
        ensures
            r == all_wf(rs@),
    {
        let mut i: usize = 0;
        while i < rs.len()
            invariant
                0 <= i <= rs@.len(),
                forall|k: int| 0 <= k < i ==> (#[trigger] rs@[k]).wf(),
            decreases rs.len() - i,
        {
            if rs[i].start > rs[i].end {
                return false;
            }
            i = i + 1;
        }
        true
    }

    fn plan(&mut self, rs: Vec<ScanRange>, fully_scanned: Option<u32>) -> (a: Action)
        requires
            old(self).wf(),
            old(self).phase == Phase::Planning,
        ensures
            final(self).wf(),
            final(self).continually == old(self).continually,
            final(self).tip == old(self).tip,
            if !all_wf(rs@) || rs@.len() > u32::MAX {
                a is Fail && a->Fail_0 is InvalidArgument && final(self).phase == Phase::Done
            } else {
                &&& final(self).chunks@ == all_chunks(rs@)
                &&& final(self).status.total_steps == total_len(rs@)
                &&& final(self).status.current_step == 0
                &&& final(self).status.last_fully_scanned_block == capped(fully_scanned, old(self).tip)
                &&& final(self).status.tip_height == old(self).tip
                &&& if all_chunks(rs@).len() == 0 {
                    a == final(self).caught_up_action() && final(self).phase
                        == final(self).caught_up_phase()
                } else {
                    &&& final(self).next_chunk == 0
                    &&& a == Action::DownloadAndScan {
                        range: all_chunks(rs@)[0],
                        status: final(self).status,
                    }
                    &&& final(self).phase == Phase::ScanLoop
                }
            },
    {
            if !Self::all_well_formed(&rs) || rs.len() > u32::MAX as usize {
                return self.fail(
                    Error::InvalidArgument(String::from_str("malformed scan range")),
                );
            }
            let total = total_work(&rs);
            let chunks = plan_chunks(&rs);
            proof {
                lemma_all_chunks_total(rs@);
                assert(chunks@.take(0) =~= Seq::<ScanRange>::empty());
            }
            self.chunks = chunks;
            self.next_chunk = 0;
            self.status = SyncStatus {
                current_step: 0,
                total_steps: total,
                last_fully_scanned_block: cap_to_tip(fully_scanned, self.tip),
                tip_height: self.tip,
                last_error: None,
            };
            if self.chunks.len() == 0 {
                self.finish_pass()
            } else {
                self.phase = Phase::ScanLoop;
                Action::DownloadAndScan { range: self.chunks[0], status: self.status_copy() }
            }
    }

    fn chunk_done(&mut self, fully_scanned: Option<u32>) -> (a: Action)
        requires
            old(self).wf(),
            old(self).phase == Phase::Backfilling,
        ensures
            final(self).wf(),
            final(self).continually == old(self).continually,
            final(self).tip == old(self).tip,
            ({
                let n = old(self).next_chunk + 1;
                &&& final(self).next_chunk == n
                &&& final(self).chunks == old(self).chunks
                &&& final(self).status.current_step == old(self).status.current_step
                    + old(self).chunks@[old(self).next_chunk as int].spec_len()
                &&& final(self).status.total_steps == old(self).status.total_steps
                &&& final(self).status.last_fully_scanned_block == capped(fully_scanned, old(self).tip)
                &&& if n < old(self).chunks@.len() {
                    &&& a == Action::DownloadAndScan {
                        range: old(self).chunks@[n],
                        status: final(self).status,
                    }
                    &&& final(self).phase == Phase::ScanLoop
                } else {
                    &&& final(self).status.current_step == final(self).status.total_steps
                    &&& a == final(self).caught_up_action()
                    &&& final(self).phase == final(self).caught_up_phase()
                }
            }),
    {
            let i = self.next_chunk;
            let n_chunks = self.chunks.len();
            let len = self.chunks[i].len();
            proof {
                let c = self.chunks@;
                assert(c.take(i + 1).drop_last() =~= c.take(i as int));
                assert(c =~= c.take(i + 1) + c.skip(i + 1));
                lemma_total_len_concat(c.take(i + 1), c.skip(i + 1));
                assert(all_wf(c.skip(i + 1)));
                lemma_total_len_nonneg(c.skip(i + 1));
            }
            self.status.current_step = self.status.current_step + len as u64;
            self.status.last_fully_scanned_block = cap_to_tip(fully_scanned, self.tip);
            self.next_chunk = i + 1;
            if self.next_chunk < self.chunks.len() {
                self.phase = Phase::ScanLoop;
                Action::DownloadAndScan {
                    range: self.chunks[self.next_chunk],
                    status: self.status_copy(),
                }
            } else {
                proof {
                    assert(self.chunks@.take(self.next_chunk as int) =~= self.chunks@);
                }
                self.phase = Phase::TipRefresh;
                self.finish_pass()
            }
    }

    /// Advances the engine by one event and returns the next action.
    pub fn step(&mut self, ev: Event) -> (a: Action)
        requires
            old(self).wf(),
        ensures
            final(self).wf(),
            final(self).continually == old(self).continually,
            // Only planning and the end of a chunk change the plan and the progress;
            // only a new tip changes the tip.
            !(old(self).phase == Phase::Planning && ev is Suggestions) && !(old(self).phase
                == Phase::Backfilling && ev is BackfillDone) ==> {
                &&& final(self).chunks == old(self).chunks
                &&& final(self).next_chunk == old(self).next_chunk
                &&& final(self).status.current_step == old(self).status.current_step
                &&& final(self).status.total_steps == old(self).status.total_steps
                &&& !(old(self).phase == Phase::TipRefresh && ev is Tip)
                    ==> final(self).status.last_fully_scanned_block
                    == old(self).status.last_fully_scanned_block
            },
            !(old(self).phase == Phase::TipRefresh && ev is Tip) ==> final(self).tip == old(
                self,
            ).tip,
            // Cancellation and failures end the session at once.
            old(self).phase != Phase::Done && ev == Event::Cancelled ==> a == Action::Fail(
                Error::Cancelled,
            ) && final(self).phase == Phase::Done,
            old(self).phase != Phase::Done && ev is Failed ==> a == Action::Fail(
                ev->Failed_0,
            ) && final(self).phase == Phase::Done,
            old(self).phase == Phase::Done ==> a is Fail && final(self).phase == Phase::Done,
            // Subtree roots come first, then the tip.
            old(self).phase == Phase::SeedRoots && ev == Event::RootsSeeded ==> a
                == Action::FetchTip && final(self).phase == Phase::TipRefresh,
            old(self).phase == Phase::TipRefresh && ev is Tip ==> if ev->Tip_0 <= u32::MAX {
                &&& a == Action::PullTransparent { tip: ev->Tip_0 as u32 }
                &&& final(self).tip == ev->Tip_0
                &&& final(self).status.last_fully_scanned_block == capped(
                    old(self).status.last_fully_scanned_block,
                    ev->Tip_0 as u32,
                )
                &&& final(self).phase == Phase::TransparentPull
            } else {
                a == Action::Fail(Error::InvalidHeight) && final(self).phase == Phase::Done
            },
            old(self).phase == Phase::TransparentPull && ev == Event::TransparentPulled ==> a
                == Action::SuggestRanges && final(self).phase == Phase::VerifyLoop,
            // A Verify range at the head of the suggestions is scanned alone, before
            // anything else.
            old(self).phase == Phase::VerifyLoop && ev is Suggestions ==> {
                let rs = ev->Suggestions_0@;
                if !all_wf(rs) {
                    a is Fail && a->Fail_0 is InvalidArgument && final(self).phase == Phase::Done
                } else if rs.len() > 0 && rs[0].priority == ScanPriority::Verify {
                    &&& a == Action::DownloadAndScan { range: rs[0], status: final(self).status }
                    &&& final(self).phase == Phase::VerifyScanning
                } else {
                    a == Action::SuggestRanges && final(self).phase == Phase::Planning
                }
            },
            old(self).phase == Phase::VerifyScanning && ev is Scanned ==> {
                &&& a == Action::SuggestRanges
                &&& final(self).phase == if ev->Scanned_0 {
                    Phase::VerifyLoop
                } else {
                    Phase::Planning
                }
            },
            // The scan phase plans every suggested range in chunks and counts the work.
            old(self).phase == Phase::Planning && ev is Suggestions ==> {
                let rs = ev->Suggestions_0@;
                if !all_wf(rs) || rs.len() > u32::MAX {
                    a is Fail && a->Fail_0 is InvalidArgument && final(self).phase == Phase::Done
                } else {
                    &&& final(self).chunks@ == all_chunks(rs)
                    &&& final(self).status.total_steps == total_len(rs)
                    &&& final(self).status.current_step == 0
                    &&& final(self).status.last_fully_scanned_block == capped(ev->Suggestions_1, old(self).tip)
                    &&& final(self).status.tip_height == old(self).tip
                    &&& if all_chunks(rs).len() == 0 {
                        a == final(self).caught_up_action() && final(self).phase
                            == final(self).caught_up_phase()
                    } else {
                        &&& final(self).next_chunk == 0
                        &&& a == Action::DownloadAndScan {
                            range: all_chunks(rs)[0],
                            status: final(self).status,
                        }
                        &&& final(self).phase == Phase::ScanLoop
                    }
                }
            },
            // A reorg or a more urgent range restarts the pass at the tip.
            old(self).phase == Phase::ScanLoop && ev == Event::Scanned(true) ==> a
                == Action::FetchTip && final(self).phase == Phase::TipRefresh,
            old(self).phase == Phase::ScanLoop && ev == Event::Scanned(false) ==> a
                == Action::Backfill && final(self).phase == Phase::Backfilling,
            old(self).phase == Phase::Backfilling && ev is BackfillDone ==> {
                let n = old(self).next_chunk + 1;
                &&& final(self).next_chunk == n
                &&& final(self).chunks == old(self).chunks
                &&& final(self).status.current_step == old(self).status.current_step
                    + old(self).chunks@[old(self).next_chunk as int].spec_len()
                &&& final(self).status.total_steps == old(self).status.total_steps
                &&& final(self).status.last_fully_scanned_block == capped(ev->BackfillDone_0, old(self).tip)
                &&& if n < old(self).chunks@.len() {
                    &&& a == Action::DownloadAndScan {
                        range: old(self).chunks@[n],
                        status: final(self).status,
                    }
                    &&& final(self).phase == Phase::ScanLoop
                } else {
                    &&& final(self).status.current_step == final(self).status.total_steps
                    &&& a == final(self).caught_up_action()
                    &&& final(self).phase == final(self).caught_up_phase()
                }
            },
            old(self).phase == Phase::MempoolWait && ev == Event::MempoolSignal ==> a
                == Action::FetchTip && final(self).phase == Phase::TipRefresh,
    {
        if self.phase == Phase::Done {
            return Action::Fail(Error::Internal(String::from_str("the sync session is over")));
        }
        match ev {
            Event::Cancelled => self.fail(Error::Cancelled),
            Event::Failed(e) => self.fail(e),
            Event::RootsSeeded if self.phase == Phase::SeedRoots => {
                self.phase = Phase::TipRefresh;
                Action::FetchTip
            },
            Event::Tip(h) if self.phase == Phase::TipRefresh => {
                if h <= u32::MAX as u64 {
                    self.tip = h as u32;
                    self.status.tip_height = h as u32;
                    self.status.last_fully_scanned_block = cap_to_tip(
                        self.status.last_fully_scanned_block,
                        h as u32,
                    );
                    self.phase = Phase::TransparentPull;
                    Action::PullTransparent { tip: h as u32 }
                } else {
                    self.fail(Error::InvalidHeight)
                }
            },
            Event::TransparentPulled if self.phase == Phase::TransparentPull => {
                self.phase = Phase::VerifyLoop;
                Action::SuggestRanges
            },
            Event::Suggestions(rs, _) if self.phase == Phase::VerifyLoop => {
                if !Self::all_well_formed(&rs) {
                    self.fail(Error::InvalidArgument(String::from_str("malformed scan range")))
                } else if rs.len() > 0 && rs[0].priority == ScanPriority::Verify {
                    self.phase = Phase::VerifyScanning;
                    Action::DownloadAndScan { range: rs[0], status: self.status_copy() }
                } else {
                    self.phase = Phase::Planning;
                    Action::SuggestRanges
                }
            },
            Event::Scanned(changed) if self.phase == Phase::VerifyScanning => {
                self.phase = if changed {
                    Phase::VerifyLoop
                } else {
                    Phase::Planning
                };
                Action::SuggestRanges
            },
            Event::Suggestions(rs, fully_scanned) if self.phase == Phase::Planning => {
                self.plan(rs, fully_scanned)
            },
            Event::Scanned(changed) if self.phase == Phase::ScanLoop => {
                if changed {
                    self.phase = Phase::TipRefresh;
                    Action::FetchTip
                } else {
                    self.phase = Phase::Backfilling;
                    Action::Backfill
                }
            },
            Event::BackfillDone(fully_scanned) if self.phase == Phase::Backfilling => {
                self.chunk_done(fully_scanned)
            },
            Event::MempoolSignal if self.phase == Phase::MempoolWait => {
                self.phase = Phase::TipRefresh;
                Action::FetchTip
            },
            _ => self.fail(Error::Internal(String::from_str("unexpected event"))),
        }
    }
}

} // verus!
