//! Translation between the two discovery subsystems' identity-key schemes:
//! the legacy scheme carries the sixty-four bytes of an uncompressed curve
//! point, the modern scheme a parity prefix followed by the point's first
//! coordinate.

use vstd::prelude::*;

verus! {

use crate::errors::RecordConversionError;
use crate::record::NodeRecord;
use crate::record::RecordView;

/// Whether an identity key can be translated into the modern scheme: it must
/// hold the sixty-four bytes of an uncompressed curve point.
pub open spec fn spec_convertible(id: Seq<u8>) -> bool {
    id.len() == 64
}

/// The compressed form of an uncompressed identity key: a parity prefix (two
/// for an even second coordinate, three for an odd one) followed by the
/// thirty-two bytes of the first coordinate. Deterministic and loss-free on
/// the first coordinate.
pub open spec fn spec_compressed_id(id: Seq<u8>) -> Seq<u8> {
    seq![
        if id[63] % 2 == 0 {
            2u8
        } else {
            3u8
        },
    ] + id.take(32)
}

/// Translates a legacy identity key into the modern subsystem's compressed
/// scheme; fails exactly when the key does not hold an uncompressed point.
pub fn uncompressed_to_compressed_id(peer_id: &[u8]) -> (r: Result<
    Vec<u8>,
    RecordConversionError,
>)
    ensures
        (match r {
            Result::Ok(c) => spec_convertible(peer_id@) && c@ == spec_compressed_id(peer_id@),
            Result::Err(_) => !spec_convertible(peer_id@),
        }),
{
    if peer_id.len() != 64 {
        return Result::Err(RecordConversionError);
    }
    let mut out: Vec<u8> = Vec::new();
    let prefix: u8 = if peer_id[63] % 2 == 0 {
        2
    } else {
        3
    };
    out.push(prefix);
    let mut i: usize = 0;
    while i < 32
        invariant
            i <= 32,
            peer_id@.len() == 64,
            out@.len() == 1 + i,
            out@[0] == (if peer_id@[63] % 2 == 0 {
                2u8
            } else {
                3u8
            }),
            forall|j: int| 0 <= j < i ==> out@[1 + j] == peer_id@[j],
        decreases 32 - i,
    {
        out.push(peer_id[i]);
        i += 1;
    }
    proof {
        assert(out@ =~= spec_compressed_id(peer_id@));
    }
    Result::Ok(out)
}

/// Converts a record into the modern subsystem's native form: the same
/// key-value pairs and reachability, with the identity key translated into
/// the compressed scheme; fails exactly when the identity-key scheme is
/// incompatible.
pub fn convert_enr(enr: NodeRecord) -> (r: Result<NodeRecord, RecordConversionError>)
    ensures
        (match r {
            Result::Ok(rec) => spec_convertible(enr@.identity) && rec@ == (RecordView {
                identity: spec_compressed_id(enr@.identity),
                ..enr@
            }),
            Result::Err(_) => !spec_convertible(enr@.identity),
        }),
{
    match uncompressed_to_compressed_id(enr.identity.as_slice()) {
        Result::Ok(compressed) => {
            let rec = NodeRecord {
                identity: compressed,
                pairs: enr.pairs,
                ipv4_contactable: enr.ipv4_contactable,
                ipv6_contactable: enr.ipv6_contactable,
            };
            Result::Ok(rec)
        },
        Result::Err(e) => Result::Err(e),
    }
}

} // verus!
