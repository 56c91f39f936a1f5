use discv5_downgrade::encode_fork_id;
use discv5_downgrade::uncompressed_to_compressed_id;
use discv5_downgrade::Discv4;
use discv5_downgrade::Discv5;
use discv5_downgrade::Discv5WithDiscv4Downgrade;
use discv5_downgrade::ForkId;
use discv5_downgrade::IpAddress;
use discv5_downgrade::NodeFromExternalSource;
use discv5_downgrade::NodeRecord;

fn empty_handle() -> Discv5WithDiscv4Downgrade {
    Discv5WithDiscv4Downgrade::new(Discv5::new(), Discv4::new())
}

#[test]
fn identity_translation_known_vector() {
    let mut id = vec![0u8; 64];
    id[0] = 0xab;
    id[31] = 0xcd;
    id[63] = 0x03; // odd second coordinate
    let compressed = uncompressed_to_compressed_id(&id).unwrap();
    assert_eq!(compressed.len(), 33);
    assert_eq!(compressed[0], 3);
    assert_eq!(compressed[1], 0xab);
    assert_eq!(compressed[32], 0xcd);

    id[63] = 0x02; // even second coordinate
    assert_eq!(uncompressed_to_compressed_id(&id).unwrap()[0], 2);
}

#[test]
fn identity_translation_rejects_wrong_length() {
    assert!(uncompressed_to_compressed_id(&[1, 2, 3]).is_err());
    assert!(uncompressed_to_compressed_id(&vec![0u8; 33]).is_err());
}

#[test]
fn ban_with_untranslatable_identity_still_bans_ip() {
    let mut handle = empty_handle();
    let ip = IpAddress::V4(0x7f000001);
    let bad_identity = vec![1u8, 2, 3];
    handle.ban_peer_by_ip_and_node_id(bad_identity.clone(), ip);
    // the modern identity ban is skipped, the rest happens
    assert!(handle.discv5.banned_node_ids.is_empty());
    assert_eq!(handle.discv5.banned_ips, vec![ip]);
    assert_eq!(handle.discv4.banned_node_ids, vec![bad_identity]);
    assert_eq!(handle.discv4.banned_ips, vec![ip]);
}

#[test]
fn ban_with_good_identity_reaches_both() {
    let mut handle = empty_handle();
    let ip = IpAddress::V6(1);
    let identity = vec![7u8; 64];
    handle.ban_peer_by_ip_and_node_id(identity.clone(), ip);
    let compressed = uncompressed_to_compressed_id(&identity).unwrap();
    assert_eq!(handle.discv5.banned_node_ids, vec![compressed]);
    assert_eq!(handle.discv5.banned_ips, vec![ip]);
    assert_eq!(handle.discv4.banned_node_ids, vec![identity]);
    assert_eq!(handle.discv4.banned_ips, vec![ip]);
}

#[test]
fn ban_by_ip_reaches_both() {
    let mut handle = empty_handle();
    let ip = IpAddress::V4(0x0a000001);
    handle.ban_peer_by_ip(ip);
    assert_eq!(handle.discv5.banned_ips, vec![ip]);
    assert_eq!(handle.discv4.banned_ips, vec![ip]);
    assert!(handle.discv5.banned_node_ids.is_empty());
    assert!(handle.discv4.banned_node_ids.is_empty());
}

#[test]
fn add_node_converts_signed_record() {
    let mut handle = empty_handle();
    let mut rec = NodeRecord::new(vec![9u8; 64], true, false);
    rec.add_value_rlp(b"eth".to_vec(), vec![1, 2, 3]);
    assert!(handle
        .add_node_to_routing_table(NodeFromExternalSource::Enr(rec))
        .is_ok());
    assert_eq!(handle.discv5.table.len(), 1);
    let stored = &handle.discv5.table[0];
    assert_eq!(stored.identity.len(), 33);
    assert_eq!(stored.identity[0], 3); // 9 is odd
    assert_eq!(stored.pairs.len(), 1);
}

#[test]
fn add_node_rejects_incompatible_identity() {
    let mut handle = empty_handle();
    let rec = NodeRecord::new(vec![9u8; 10], true, false);
    assert!(handle
        .add_node_to_routing_table(NodeFromExternalSource::Enr(rec))
        .is_err());
    assert!(handle.discv5.table.is_empty());
}

#[test]
fn set_local_entry_reaches_both_when_key_is_text() {
    let mut handle = empty_handle();
    handle.set_eip868_in_local_enr(b"eth".to_vec(), vec![0xc0]);
    assert_eq!(handle.discv5.local_enr_entries.len(), 1);
    assert_eq!(handle.discv4.local_enr_entries.len(), 1);
    assert_eq!(handle.discv5.local_enr_entries[0].0, b"eth".to_vec());
    assert_eq!(handle.discv4.local_enr_entries[0].1, vec![0xc0]);
}

#[test]
fn set_local_entry_skips_modern_on_invalid_text() {
    let mut handle = empty_handle();
    handle.set_eip868_in_local_enr(vec![0xff, 0xfe], vec![0xc0]);
    assert!(handle.discv5.local_enr_entries.is_empty());
    assert_eq!(handle.discv4.local_enr_entries.len(), 1);
}

#[test]
fn encode_and_set_local_entry() {
    let mut handle = empty_handle();
    let fork = ForkId { hash: 0xfc64ec04, next: 0x118c30 };
    handle.encode_and_set_eip868_in_local_enr(b"eth".to_vec(), &fork);
    let expected = encode_fork_id(&fork);
    assert_eq!(handle.discv5.local_enr_entries[0].1, expected);
    assert_eq!(handle.discv4.local_enr_entries[0].1, expected);
}

#[test]
fn accessors_expose_subsystems() {
    let mut handle = empty_handle();
    let n = handle.with_discv5(|d5: &Discv5| d5.table.len());
    assert_eq!(n, 0);
    let m = handle.with_discv4(|d4: &Discv4| d4.banned_ips.len());
    assert_eq!(m, 0);
    handle.with_discv4_mut().ban_peer_by_ip(IpAddress::V4(1));
    assert_eq!(handle.discv4.banned_ips.len(), 1);
}
