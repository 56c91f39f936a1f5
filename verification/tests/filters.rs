use discv5_downgrade::encode_fork_id;
use discv5_downgrade::FilterDiscovered;
use discv5_downgrade::FilterOutcome;
use discv5_downgrade::ForkId;
use discv5_downgrade::MustIncludeChain;
use discv5_downgrade::MustIncludeFork;
use discv5_downgrade::MustNotIncludeChains;
use discv5_downgrade::NodeRecord;

fn record_with(pairs: Vec<(&[u8], Vec<u8>)>) -> NodeRecord {
    let mut rec = NodeRecord::new(vec![0u8; 64], true, false);
    for (key, value) in pairs {
        rec.add_value_rlp(key.to_vec(), value);
    }
    rec
}

#[test]
fn fork_filter() {
    // rig test

    let fork = ForkId { hash: 0x9f3d2254, next: 0 };
    let filter = MustIncludeFork::new(b"eth".to_vec(), fork);

    // enr_1 advertises fork configured in filter
    let enr_1 = record_with(vec![(b"eth", encode_fork_id(&fork))]);

    // enr_2 advertises an older fork
    let older = ForkId { hash: 0xdce96c2d, next: 1710338135 };
    let enr_2 = record_with(vec![(b"eth", encode_fork_id(&older))]);

    // test

    assert!(matches!(filter.filter(&enr_1), FilterOutcome::OkReturnForkId(_)));
    assert!(matches!(filter.filter(&enr_2), FilterOutcome::Ignore { .. }));
}

#[test]
fn must_not_include_chain_filter() {
    // rig test

    let filter = MustNotIncludeChains::new(vec![b"eth".to_vec(), b"eth2".to_vec()]);

    // enr_1 advertises a fork from one of the chains configured in filter
    let enr_1 = record_with(vec![(b"eth", b"cancun".to_vec())]);

    // enr_2 advertises a fork from the other chain configured in filter
    let enr_2 = record_with(vec![(b"eth2", b"deneb".to_vec())]);

    // test

    assert!(matches!(filter.filter(&enr_1), FilterOutcome::Ignore { .. }));
    assert!(matches!(filter.filter(&enr_2), FilterOutcome::Ignore { .. }));
}

#[test]
fn chain_filter_requires_entry() {
    let filter = MustIncludeChain::default();
    let without = record_with(vec![(b"other", vec![1, 2, 3])]);
    match filter.filter(&without) {
        FilterOutcome::Ignore { reason } => assert_eq!(reason, "eth fork required"),
        other => panic!("expected an ignore, got {:?}", other),
    }
    let with = record_with(vec![(b"eth", vec![1, 2, 3])]);
    assert!(filter.filter(&with).is_ok());
}

#[test]
fn fork_filter_returns_exact_fork_id() {
    let fork = ForkId { hash: 0xfc64ec04, next: 0x118c30 };
    let filter = MustIncludeFork::new(b"eth".to_vec(), fork);
    let rec = record_with(vec![(b"eth", encode_fork_id(&fork))]);
    match filter.filter(&rec) {
        FilterOutcome::OkReturnForkId(decoded) => assert_eq!(decoded, fork),
        other => panic!("expected the decoded fork id, got {:?}", other),
    }
}

#[test]
fn fork_filter_ignores_missing_and_malformed() {
    let fork = ForkId { hash: 0xfc64ec04, next: 0x118c30 };
    let filter = MustIncludeFork::new(b"eth".to_vec(), fork);
    let missing = record_with(vec![]);
    match filter.filter(&missing) {
        FilterOutcome::Ignore { reason } => assert_eq!(reason, "eth fork required"),
        other => panic!("expected an ignore, got {:?}", other),
    }
    let malformed = record_with(vec![(b"eth", vec![0x01, 0x02])]);
    match filter.filter(&malformed) {
        FilterOutcome::Ignore { reason } => {
            assert_eq!(reason, "eth fork 0xfc64ec04/0x0000000000118c30 required")
        }
        other => panic!("expected an ignore, got {:?}", other),
    }
}

#[test]
fn disallow_filter_scenario() {
    let filter = MustNotIncludeChains::new(vec![b"eth".to_vec(), b"eth2".to_vec()]);
    let only_eth2 = record_with(vec![(b"eth2", b"deneb".to_vec())]);
    assert!(matches!(filter.filter(&only_eth2), FilterOutcome::Ignore { .. }));
    let neither = record_with(vec![(b"abc", vec![7])]);
    assert!(filter.filter(&neither).is_ok());
}

#[test]
fn beacon_chain_key_always_disallowed() {
    let filter = MustNotIncludeChains::new(vec![b"abc".to_vec()]);
    let advertises_beacon = record_with(vec![(b"eth2", b"deneb".to_vec())]);
    assert!(matches!(
        filter.filter(&advertises_beacon),
        FilterOutcome::Ignore { .. }
    ));
}

#[test]
fn disallow_filter_reason_lists_chains_once() {
    let filter =
        MustNotIncludeChains::new(vec![b"eth".to_vec(), b"eth2".to_vec(), b"eth".to_vec()]);
    assert_eq!(filter.ignore_reason(), "eth,eth2 forks not allowed");
}

#[test]
fn reason_decodes_chain_name_lossily() {
    // a chain key that is not valid text still yields a readable reason
    let filter = MustIncludeChain::new(vec![0xff]);
    assert_eq!(filter.ignore_reason(), "\u{fffd} fork required");
    // a valid text key appears verbatim
    let filter = MustIncludeChain::new(b"eth2".to_vec());
    assert_eq!(filter.ignore_reason(), "eth2 fork required");
}

#[test]
fn filter_evaluation_is_idempotent() {
    let fork = ForkId { hash: 0x9f3d2254, next: 0 };
    let fork_filter = MustIncludeFork::new(b"eth".to_vec(), fork);
    let chain_filter = MustIncludeChain::default();
    let disallow = MustNotIncludeChains::new(vec![b"eth2".to_vec()]);
    let records = vec![
        record_with(vec![]),
        record_with(vec![(b"eth", encode_fork_id(&fork))]),
        record_with(vec![(b"eth2", b"deneb".to_vec())]),
    ];
    for rec in &records {
        assert_eq!(fork_filter.filter(rec), fork_filter.filter(rec));
        assert_eq!(chain_filter.filter(rec), chain_filter.filter(rec));
        assert_eq!(disallow.filter(rec), disallow.filter(rec));
    }
}
