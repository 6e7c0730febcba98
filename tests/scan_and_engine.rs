use nerdbank_zcash::engine::{Action, Event, Phase, SyncEngine, SyncStatus};
use nerdbank_zcash::error::Error;
use nerdbank_zcash::scan::{
    priority_escalated, rewind_height, scan_recovery, split_into_chunks, total_work, ScanFailure,
    ScanPriority, ScanRange, BATCH_SIZE,
};

fn range(start: u32, end: u32, priority: ScanPriority) -> ScanRange {
    ScanRange { start, end, priority }
}

#[test]
fn chunks_cover_range_without_gaps() {
    let r = range(100_000, 125_000, ScanPriority::Historic);
    let chunks = split_into_chunks(&r, BATCH_SIZE);
    assert_eq!(
        chunks,
        vec![
            range(100_000, 110_000, ScanPriority::Historic),
            range(110_000, 120_000, ScanPriority::Historic),
            range(120_000, 125_000, ScanPriority::Historic),
        ]
    );
}

#[test]
fn chunks_of_exact_multiple_and_empty() {
    let r = range(0, 20_000, ScanPriority::ChainTip);
    assert_eq!(split_into_chunks(&r, BATCH_SIZE).len(), 2);
    let e = range(500, 500, ScanPriority::ChainTip);
    assert!(split_into_chunks(&e, BATCH_SIZE).is_empty());
    let one = range(7, 8, ScanPriority::Verify);
    assert_eq!(split_into_chunks(&one, BATCH_SIZE), vec![one]);
}

#[test]
fn rewind_keeps_margin_and_saturates() {
    assert_eq!(rewind_height(100_075), 100_065);
    assert_eq!(rewind_height(10), 0);
    assert_eq!(rewind_height(3), 0);
}

#[test]
fn continuity_failure_rewinds_other_failure_propagates() {
    assert_eq!(scan_recovery(ScanFailure::Continuity(100_075)), Ok(100_065));
    assert_eq!(
        scan_recovery(ScanFailure::Other(Error::Scan("bad note commitment".to_string()))),
        Err(Error::Scan("bad note commitment".to_string()))
    );
}

#[test]
fn escalation_needs_strictly_higher_priority() {
    let scanned = range(0, 10, ScanPriority::Historic);
    assert!(priority_escalated(&vec![range(5, 9, ScanPriority::Verify)], &scanned));
    assert!(!priority_escalated(&vec![range(5, 9, ScanPriority::Historic)], &scanned));
    assert!(!priority_escalated(&vec![range(5, 9, ScanPriority::Ignored)], &scanned));
    assert!(!priority_escalated(&vec![], &scanned));
}

#[test]
fn total_work_sums_lengths() {
    let rs = vec![
        range(100_000, 100_100, ScanPriority::Historic),
        range(5, 15, ScanPriority::ChainTip),
    ];
    assert_eq!(total_work(&rs), 110);
    assert_eq!(range(3, 9, ScanPriority::Ignored).request_bounds(), Some((3, 8)));
    assert_eq!(range(3, 3, ScanPriority::Ignored).request_bounds(), None);
}

fn status(current: u64, total: u64, scanned: Option<u32>, tip: u32) -> SyncStatus {
    SyncStatus {
        current_step: current,
        total_steps: total,
        last_fully_scanned_block: scanned,
        tip_height: tip,
        last_error: None,
    }
}

fn to_verify_loop(e: &mut SyncEngine, tip: u64) {
    assert_eq!(e.first_action(), Action::SeedSubtreeRoots);
    assert_eq!(e.step(Event::RootsSeeded), Action::FetchTip);
    assert_eq!(e.step(Event::Tip(tip)), Action::PullTransparent { tip: tip as u32 });
    assert_eq!(e.step(Event::TransparentPulled), Action::SuggestRanges);
}

#[test]
fn first_sync_on_empty_wallet() {
    let mut e = SyncEngine::new(false);
    to_verify_loop(&mut e, 100_100);
    let historic = range(100_000, 100_100, ScanPriority::Historic);
    assert_eq!(e.step(Event::Suggestions(vec![historic], None)), Action::SuggestRanges);
    assert_eq!(
        e.step(Event::Suggestions(vec![historic], None)),
        Action::DownloadAndScan { range: historic, status: status(0, 100, None, 100_100) }
    );
    assert_eq!(e.step(Event::Scanned(false)), Action::Backfill);
    assert_eq!(
        e.step(Event::BackfillDone(Some(100_099))),
        Action::Finish(status(100, 100, Some(100_099), 100_100))
    );
    assert_eq!(e.phase, Phase::Done);
}

#[test]
fn verify_range_is_scanned_first() {
    let mut e = SyncEngine::new(false);
    to_verify_loop(&mut e, 200_000);
    let verify = range(100_040, 100_050, ScanPriority::Verify);
    let historic = range(100_000, 100_040, ScanPriority::Historic);
    match e.step(Event::Suggestions(vec![verify, historic], None)) {
        Action::DownloadAndScan { range, .. } => assert_eq!(range, verify),
        other => panic!("unexpected action {:?}", other),
    }
    // The scan rewound: the suggestions are read again, still in the verify phase.
    assert_eq!(e.step(Event::Scanned(true)), Action::SuggestRanges);
    assert_eq!(e.phase, Phase::VerifyLoop);
    match e.step(Event::Suggestions(vec![verify, historic], None)) {
        Action::DownloadAndScan { range, .. } => assert_eq!(range, verify),
        other => panic!("unexpected action {:?}", other),
    }
    assert_eq!(e.step(Event::Scanned(false)), Action::SuggestRanges);
    assert_eq!(e.phase, Phase::Planning);
}

#[test]
fn reorg_at_tip_restarts_from_tip() {
    let mut e = SyncEngine::new(false);
    to_verify_loop(&mut e, 100_080);
    let tip_range = range(100_050, 100_080, ScanPriority::ChainTip);
    assert_eq!(e.step(Event::Suggestions(vec![tip_range], Some(100_049))), Action::SuggestRanges);
    assert_eq!(
        e.step(Event::Suggestions(vec![tip_range], Some(100_049))),
        Action::DownloadAndScan { range: tip_range, status: status(0, 30, Some(100_049), 100_080) }
    );
    assert_eq!(scan_recovery(ScanFailure::Continuity(100_075)), Ok(100_065));
    assert_eq!(e.step(Event::Scanned(true)), Action::FetchTip);
    assert_eq!(e.step(Event::Tip(100_080)), Action::PullTransparent { tip: 100_080 });
}

#[test]
fn cancellation_mid_scan() {
    let mut e = SyncEngine::new(false);
    to_verify_loop(&mut e, 120_000);
    let historic = range(100_000, 120_000, ScanPriority::Historic);
    e.step(Event::Suggestions(vec![historic], None));
    assert_eq!(
        e.step(Event::Suggestions(vec![historic], None)),
        Action::DownloadAndScan {
            range: range(100_000, 110_000, ScanPriority::Historic),
            status: status(0, 20_000, None, 120_000)
        }
    );
    assert_eq!(e.step(Event::Cancelled), Action::Fail(Error::Cancelled));
    assert_eq!(e.phase, Phase::Done);
}

#[test]
fn continual_mode_waits_on_mempool_without_rescanning() {
    let mut e = SyncEngine::new(true);
    to_verify_loop(&mut e, 100_100);
    e.step(Event::Suggestions(vec![], Some(100_099)));
    assert_eq!(
        e.step(Event::Suggestions(vec![], Some(100_099))),
        Action::WaitMempool(status(0, 0, Some(100_099), 100_100))
    );
    assert_eq!(e.step(Event::MempoolSignal), Action::FetchTip);
    assert_eq!(e.step(Event::Tip(100_100)), Action::PullTransparent { tip: 100_100 });
    assert_eq!(e.step(Event::TransparentPulled), Action::SuggestRanges);
    assert_eq!(e.step(Event::Suggestions(vec![], Some(100_099))), Action::SuggestRanges);
    assert_eq!(
        e.step(Event::Suggestions(vec![], Some(100_099))),
        Action::WaitMempool(status(0, 0, Some(100_099), 100_100))
    );
}

#[test]
fn chunked_progress_counts_every_block() {
    let mut e = SyncEngine::new(false);
    to_verify_loop(&mut e, 125_000);
    let historic = range(100_000, 125_000, ScanPriority::Historic);
    e.step(Event::Suggestions(vec![historic], None));
    let mut scans = 0;
    let mut a = e.step(Event::Suggestions(vec![historic], None));
    loop {
        match a {
            Action::DownloadAndScan { range, .. } => {
                assert_eq!(range.start, 100_000 + scans * 10_000);
                scans += 1;
                assert_eq!(e.step(Event::Scanned(false)), Action::Backfill);
                a = e.step(Event::BackfillDone(Some(range.end - 1)));
            }
            Action::Finish(s) => {
                assert_eq!(s, status(25_000, 25_000, Some(124_999), 125_000));
                break;
            }
            other => panic!("unexpected action {:?}", other),
        }
    }
    assert_eq!(scans, 3);
}

#[test]
fn invalid_tip_and_malformed_ranges_fail() {
    let mut e = SyncEngine::new(false);
    e.step(Event::RootsSeeded);
    assert_eq!(e.step(Event::Tip(u64::MAX)), Action::Fail(Error::InvalidHeight));
    let mut e = SyncEngine::new(false);
    to_verify_loop(&mut e, 10);
    match e.step(Event::Suggestions(vec![range(9, 3, ScanPriority::Verify)], None)) {
        Action::Fail(Error::InvalidArgument(_)) => {}
        other => panic!("unexpected action {:?}", other),
    }
    let mut e = SyncEngine::new(false);
    assert_eq!(
        e.step(Event::Failed(Error::Transport("refused".to_string()))),
        Action::Fail(Error::Transport("refused".to_string()))
    );
}

#[test]
fn fully_scanned_height_never_exceeds_tip() {
    let mut e = SyncEngine::new(false);
    to_verify_loop(&mut e, 100_100);
    let historic = range(100_000, 100_100, ScanPriority::Historic);
    e.step(Event::Suggestions(vec![historic], Some(200_000)));
    assert_eq!(
        e.step(Event::Suggestions(vec![historic], Some(200_000))),
        Action::DownloadAndScan { range: historic, status: status(0, 100, Some(100_100), 100_100) }
    );
    e.step(Event::Scanned(false));
    assert_eq!(
        e.step(Event::BackfillDone(Some(150_000))),
        Action::Finish(status(100, 100, Some(100_100), 100_100))
    );
}
