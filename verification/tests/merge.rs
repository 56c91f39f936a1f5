use discv5_downgrade::Discv5Event;
use discv5_downgrade::DiscoveryUpdate;
use discv5_downgrade::DiscoveryUpdateV5;
use discv5_downgrade::MergedPoll;
use discv5_downgrade::MergedUpdateStream;
use discv5_downgrade::NodeRecord;
use discv5_downgrade::StreamPoll;
use discv5_downgrade::SyncSignalSender;
use discv5_downgrade::UpdateStream;

fn merged(
    v5: Vec<Discv5Event>,
    v4: Vec<DiscoveryUpdate>,
    receiver_alive: bool,
) -> MergedUpdateStream {
    MergedUpdateStream::merge_discovery_streams(
        UpdateStream::new(v5, true),
        UpdateStream::new(v4, true),
        SyncSignalSender::new(receiver_alive),
    )
}

#[test]
fn merge_yields_all_events_in_per_source_order() {
    let rec = NodeRecord::new(vec![0u8; 64], true, false);
    let v5_events = vec![Discv5Event::NodeInserted, Discv5Event::Discovered(rec)];
    let v4_updates = vec![
        DiscoveryUpdate::Removed(vec![1]),
        DiscoveryUpdate::Removed(vec![2]),
    ];
    let mut engine = merged(v5_events, v4_updates, true);

    let mut seen_v5: Vec<u8> = Vec::new();
    let mut seen_v4: Vec<u8> = Vec::new();
    let mut yielded = 0;
    loop {
        match engine.poll_next() {
            MergedPoll::Ready(Some(DiscoveryUpdateV5::V5(e))) => {
                yielded += 1;
                seen_v5.push(match e {
                    Discv5Event::NodeInserted => 0,
                    Discv5Event::Discovered(_) => 1,
                    Discv5Event::SessionEstablished(_) => 2,
                });
            }
            MergedPoll::Ready(Some(DiscoveryUpdateV5::V4(u))) => {
                yielded += 1;
                seen_v4.push(match u {
                    DiscoveryUpdate::Removed(id) => id[0],
                    DiscoveryUpdate::Added(_) => 0xff,
                });
            }
            MergedPoll::Ready(None) => break,
            MergedPoll::Pending { .. } => panic!("closed sources must not suspend"),
        }
    }
    // all four events, exactly once, each source's order preserved
    assert_eq!(yielded, 4);
    assert_eq!(seen_v5, vec![0, 1]);
    assert_eq!(seen_v4, vec![1, 2]);
}

#[test]
fn merge_alternates_between_ready_sources() {
    let v5_events = vec![Discv5Event::NodeInserted, Discv5Event::NodeInserted];
    let v4_updates = vec![
        DiscoveryUpdate::Removed(vec![1]),
        DiscoveryUpdate::Removed(vec![2]),
    ];
    let mut engine = merged(v5_events, v4_updates, true);
    let mut tags: Vec<char> = Vec::new();
    for _ in 0..4 {
        match engine.poll_next() {
            MergedPoll::Ready(Some(DiscoveryUpdateV5::V5(_))) => tags.push('5'),
            MergedPoll::Ready(Some(DiscoveryUpdateV5::V4(_))) => tags.push('4'),
            other => panic!("expected an event, got {:?}", other),
        }
    }
    assert_eq!(tags, vec!['5', '4', '5', '4']);
}

#[test]
fn session_for_second_family_only_defers_without_emitting() {
    let unreachable_v4 = NodeRecord::new(vec![0u8; 64], false, true);
    let mut engine = merged(
        vec![Discv5Event::SessionEstablished(unreachable_v4)],
        vec![],
        true,
    );
    match engine.poll_next() {
        MergedPoll::Pending { wake_scheduled } => assert!(wake_scheduled),
        other => panic!("expected a deferral, got {:?}", other),
    }
    // no signal was queued for the deferred event
    assert!(!engine.discv5_kbuckets_change_tx.pending);
    // the event was consumed, not retried: both sources are now drained
    assert!(matches!(engine.poll_next(), MergedPoll::Ready(None)));
}

#[test]
fn session_for_first_family_emits_and_signals() {
    let reachable_v4 = NodeRecord::new(vec![0u8; 64], true, false);
    let mut engine = merged(
        vec![Discv5Event::SessionEstablished(reachable_v4)],
        vec![],
        true,
    );
    match engine.poll_next() {
        MergedPoll::Ready(Some(DiscoveryUpdateV5::V5(Discv5Event::SessionEstablished(_)))) => {}
        other => panic!("expected the session event, got {:?}", other),
    }
    // exactly one queued synchronization signal, consumed once
    assert!(engine.discv5_kbuckets_change_tx.take_signal());
    assert!(!engine.discv5_kbuckets_change_tx.take_signal());
}

#[test]
fn signal_delivery_failure_is_not_fatal() {
    let reachable = NodeRecord::new(vec![0u8; 64], true, true);
    let mut engine = merged(
        vec![Discv5Event::SessionEstablished(reachable)],
        vec![],
        false, // the receiver is gone
    );
    assert!(matches!(
        engine.poll_next(),
        MergedPoll::Ready(Some(DiscoveryUpdateV5::V5(_)))
    ));
    assert!(!engine.discv5_kbuckets_change_tx.pending);
}

#[test]
fn send_fails_only_without_receiver() {
    let mut dead = SyncSignalSender::new(false);
    assert!(dead.send().is_err());
    assert!(!dead.pending);
    let mut alive = SyncSignalSender::new(true);
    assert!(alive.send().is_ok());
    assert!(alive.send().is_ok()); // latest wins: the slot just stays filled
    assert!(alive.take_signal());
    assert!(!alive.take_signal());
}

#[test]
fn open_empty_source_suspends_without_wake() {
    let mut engine = MergedUpdateStream::merge_discovery_streams(
        UpdateStream::new(vec![], false),
        UpdateStream::new(vec![], true),
        SyncSignalSender::new(true),
    );
    match engine.poll_next() {
        MergedPoll::Pending { wake_scheduled } => assert!(!wake_scheduled),
        other => panic!("expected a suspension, got {:?}", other),
    }
}

#[test]
fn update_stream_lifts_and_preserves_order() {
    let mut stream = UpdateStream::new(
        vec![
            DiscoveryUpdate::Removed(vec![1]),
            DiscoveryUpdate::Removed(vec![2]),
        ],
        false,
    );
    assert!(matches!(
        stream.poll_next(),
        StreamPoll::Ready(Some(DiscoveryUpdateV5::V4(DiscoveryUpdate::Removed(_))))
    ));
    match stream.poll_next() {
        StreamPoll::Ready(Some(DiscoveryUpdateV5::V4(DiscoveryUpdate::Removed(id)))) => {
            assert_eq!(id, vec![2])
        }
        other => panic!("expected the second update, got {:?}", other),
    }
    assert!(matches!(stream.poll_next(), StreamPoll::Pending));
}
