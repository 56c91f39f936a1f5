use std::collections::BTreeMap;

use discv5_downgrade::Address;
use discv5_downgrade::BlockNumber;
use discv5_downgrade::PruneInterruptReason;
use discv5_downgrade::PruneMode;
use discv5_downgrade::PruneProgress;
use discv5_downgrade::PruneSegment;
use discv5_downgrade::PruneSegmentError;
use discv5_downgrade::ReceiptsLogPruneConfig;

fn addr(n: u64) -> Address {
    Address { hi: n, mid: 0, lo: 0 }
}

#[test]
fn group_by_block_consolidates() {
    let a = addr(1);
    let b = addr(2);
    let c = addr(3);
    let config = ReceiptsLogPruneConfig(vec![
        (a, PruneMode::Before(872)),
        (b, PruneMode::Before(500)),
        (c, PruneMode::Distance(128)),
    ]);
    let map: BTreeMap<BlockNumber, Vec<Address>> = config.group_by_block(1000, None).unwrap();
    assert_eq!(map.len(), 2);
    assert_eq!(map.get(&500), Some(&vec![b]));
    assert_eq!(map.get(&872), Some(&vec![a, c]));
}

#[test]
fn group_by_block_respects_checkpoint() {
    let a = addr(1);
    let config = ReceiptsLogPruneConfig(vec![(a, PruneMode::Before(500))]);
    // the checkpoint raises the start block past the mode's target
    let map = config.group_by_block(1000, Some(700)).unwrap();
    assert_eq!(map.get(&701), Some(&vec![a]));
}

#[test]
fn group_by_block_rejects_short_distance() {
    let config = ReceiptsLogPruneConfig(vec![(addr(1), PruneMode::Distance(64))]);
    assert_eq!(
        config.group_by_block(1000, None),
        Err(PruneSegmentError::Configuration(PruneSegment::ContractLogs))
    );
}

#[test]
fn group_by_block_keeps_contract_with_no_target() {
    let a = addr(1);
    // nothing to prune yet: grouped under block one
    let config = ReceiptsLogPruneConfig(vec![(a, PruneMode::Before(5000))]);
    let map = config.group_by_block(1000, None).unwrap();
    assert_eq!(map.get(&1), Some(&vec![a]));
}

#[test]
fn lowest_block_with_distance_takes_minimum() {
    let config = ReceiptsLogPruneConfig(vec![
        (addr(1), PruneMode::Distance(128)),
        (addr(2), PruneMode::Distance(300)),
        (addr(3), PruneMode::Before(500)),
    ]);
    // targets are 871 and 699; the before-mode contract does not count
    assert_eq!(config.lowest_block_with_distance(1000, None), Ok(Some(699)));
    // a pruned checkpoint raises the result
    assert_eq!(
        config.lowest_block_with_distance(1000, Some(800)),
        Ok(Some(800))
    );
}

#[test]
fn lowest_block_with_distance_none_without_distance_modes() {
    let config = ReceiptsLogPruneConfig(vec![(addr(1), PruneMode::Before(500))]);
    assert_eq!(config.lowest_block_with_distance(1000, None), Ok(None));
}

#[test]
fn prune_config_is_empty() {
    assert!(ReceiptsLogPruneConfig::default().is_empty());
    assert!(!ReceiptsLogPruneConfig(vec![(addr(1), PruneMode::Full)]).is_empty());
}

#[test]
fn prune_progress_construction() {
    assert_eq!(PruneProgress::new(true, false), PruneProgress::Finished);
    assert_eq!(PruneProgress::new(true, true), PruneProgress::Finished);
    assert_eq!(
        PruneProgress::new(false, true),
        PruneProgress::HasMoreData(PruneInterruptReason::Timeout)
    );
    assert_eq!(
        PruneProgress::new(false, false),
        PruneProgress::HasMoreData(PruneInterruptReason::LimitSegmentsDeleted)
    );
    assert_eq!(PruneProgress::finished(), PruneProgress::Finished);
    assert_eq!(
        PruneProgress::timed_out(),
        PruneProgress::HasMoreData(PruneInterruptReason::Timeout)
    );
    assert_eq!(
        PruneProgress::segment_limit_reached(),
        PruneProgress::HasMoreData(PruneInterruptReason::LimitSegmentsDeleted)
    );
}

#[test]
fn prune_progress_predicates() {
    assert!(PruneProgress::finished().is_done());
    assert!(!PruneProgress::timed_out().is_done());
    assert!(PruneProgress::timed_out().is_timed_out());
    assert!(!PruneProgress::finished().is_timed_out());
    assert!(PruneProgress::segment_limit_reached().is_segment_limit_reached());
    assert!(!PruneProgress::timed_out().is_segment_limit_reached());
    assert!(PruneInterruptReason::Timeout.is_timeout());
    assert!(!PruneInterruptReason::Timeout.is_segment_limit_reached());
    assert!(PruneInterruptReason::LimitSegmentsDeleted.is_segment_limit_reached());
    assert!(!PruneInterruptReason::LimitSegmentsDeleted.is_timeout());
}
