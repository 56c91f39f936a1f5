use discv5_downgrade::decode_fork_id;
use discv5_downgrade::encode_fork_id;
use discv5_downgrade::ForkId;

#[test]
fn encode_known_vector() {
    let fork = ForkId { hash: 0xfc64ec04, next: 0x118c30 };
    assert_eq!(
        encode_fork_id(&fork),
        vec![0xc9, 0x84, 0xfc, 0x64, 0xec, 0x04, 0x83, 0x11, 0x8c, 0x30]
    );
}

#[test]
fn encode_zero_next() {
    let fork = ForkId { hash: 1, next: 0 };
    assert_eq!(encode_fork_id(&fork), vec![0xc6, 0x84, 0x00, 0x00, 0x00, 0x01, 0x80]);
}

#[test]
fn encode_small_next() {
    let fork = ForkId { hash: 0xdeadbeef, next: 0x42 };
    assert_eq!(encode_fork_id(&fork), vec![0xc6, 0x84, 0xde, 0xad, 0xbe, 0xef, 0x42]);
}

#[test]
fn decode_round_trip() {
    let forks = vec![
        ForkId { hash: 0, next: 0 },
        ForkId { hash: 0xfc64ec04, next: 0x118c30 },
        ForkId { hash: 0xffffffff, next: u64::MAX },
        ForkId { hash: 0x9f3d2254, next: 0x7f },
        ForkId { hash: 0x12345678, next: 0x80 },
    ];
    for fork in forks {
        let encoded = encode_fork_id(&fork);
        assert_eq!(decode_fork_id(&encoded), Ok(fork));
        // trailing bytes past the encoded list do not matter
        let mut with_rest = encoded.clone();
        with_rest.extend_from_slice(&[0xaa, 0xbb]);
        assert_eq!(decode_fork_id(&with_rest), Ok(fork));
    }
}

#[test]
fn decode_rejects_malformed() {
    // too short
    assert!(decode_fork_id(&[]).is_err());
    assert!(decode_fork_id(&[0xc6, 0x84, 0x00]).is_err());
    // not a short list of the right size
    assert!(decode_fork_id(&[0x84, 0x00, 0x00, 0x00, 0x01, 0x80, 0x00]).is_err());
    // hash must be a four-byte string
    assert!(decode_fork_id(&[0xc6, 0x83, 0x00, 0x00, 0x01, 0x80, 0x00]).is_err());
    // non-canonical: a small number must be a bare byte
    assert!(decode_fork_id(&[0xc7, 0x84, 0x00, 0x00, 0x00, 0x01, 0x81, 0x05]).is_err());
    // non-canonical: no leading zero byte in the number
    assert!(decode_fork_id(&[0xc8, 0x84, 0x00, 0x00, 0x00, 0x01, 0x82, 0x00, 0xff]).is_err());
    // list payload not fully consumed
    assert!(decode_fork_id(&[0xc8, 0x84, 0x00, 0x00, 0x00, 0x01, 0x80, 0x00, 0x00]).is_err());
}
