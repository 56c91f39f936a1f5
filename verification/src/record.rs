//! A peer's self-advertised signed record, modelled as the plain values that
//! the discovery layer reads from it: the identity key bytes, the application
//! key-value pairs, and under which addressing families the peer has a
//! contactable address.

use vstd::prelude::*;

verus! {

/// A network-layer address, as plain values: the four bytes of a legacy
/// address or the sixteen bytes of a modern one, big-endian in one integer.
#[derive(Clone, Copy, PartialEq, Eq, Structural, Debug, Hash)]
pub enum IpAddress {
    /// A 32-bit address.
    V4(u32),
    /// A 128-bit address.
    V6(u128),
}

/// The mathematical content of a record: what the filters and the discovery
/// handle may read.
pub struct RecordView {
    /// The identity key bytes advertised by the peer.
    pub identity: Seq<u8>,
    /// The application key-value pairs, in record order.
    pub pairs: Seq<(Seq<u8>, Seq<u8>)>,
    /// Whether the record holds a contactable address of the first family.
    pub ipv4_contactable: bool,
    /// Whether the record holds a contactable address of the second family.
    pub ipv6_contactable: bool,
}

/// The value listed first under `key`, if any.
pub open spec fn spec_lookup(pairs: Seq<(Seq<u8>, Seq<u8>)>, key: Seq<u8>) -> Option<Seq<u8>>
    decreases pairs.len(),
{
    if pairs.len() == 0 {
        Option::None
    } else if pairs[0].0 == key {
        Option::Some(pairs[0].1)
    } else {
        spec_lookup(pairs.drop_first(), key)
    }
}

impl RecordView {
    /// The value this record advertises under `key`, if any.
    pub open spec fn entry(self, key: Seq<u8>) -> Option<Seq<u8>> {
        spec_lookup(self.pairs, key)
    }

    /// Whether this record advertises any value under `key`.
    pub open spec fn has_entry(self, key: Seq<u8>) -> bool {
        self.entry(key) is Some
    }
}

/// A peer's self-advertised record. Immutable once received; built up once by
/// whoever accepted it from the wire.
#[derive(Debug, Clone)]
pub struct NodeRecord {
    /// The identity key bytes advertised by the peer; the legacy scheme uses
    /// the sixty-four bytes of an uncompressed curve point.
    pub identity: Vec<u8>,
    /// The application key-value pairs, in record order.
    pub pairs: Vec<(Vec<u8>, Vec<u8>)>,
    /// Whether the record holds a contactable address of the first family.
    pub ipv4_contactable: bool,
    /// Whether the record holds a contactable address of the second family.
    pub ipv6_contactable: bool,
}

impl View for NodeRecord {
    type V = RecordView;

    open spec fn view(&self) -> RecordView {
        RecordView {
            identity: self.identity@,
            pairs: self.pairs@.map_values(|p: (Vec<u8>, Vec<u8>)| (p.0@, p.1@)),
            ipv4_contactable: self.ipv4_contactable,
            ipv6_contactable: self.ipv6_contactable,
        }
    }
}

/// Compares two byte strings for equality.
pub fn bytes_eq(a: &[u8], b: &[u8]) -> (r: bool)
    ensures
        r == (a@ == b@),
{
    if a.len() != b.len() {
        return false;
    }
    let n = a.len();
    let mut i: usize = 0;
    while i < n
        invariant
            i <= n,
            n == a@.len() == b@.len(),
            forall|j: int| 0 <= j < i ==> a@[j] == b@[j],
        decreases n - i,
    {
        if a[i] != b[i] {
            return false;
        }
        i += 1;
    }
    proof {
        assert(a@ =~= b@);
    }
    true
}

impl NodeRecord {
    /// Returns a record with the given identity key, no key-value pairs yet,
    /// and the given address-family reachability.
    pub fn new(identity: Vec<u8>, ipv4_contactable: bool, ipv6_contactable: bool) -> (r: Self)
        ensures
            r@.identity == identity@,
            r@.pairs.len() == 0,
            r@.ipv4_contactable == ipv4_contactable,
            r@.ipv6_contactable == ipv6_contactable,
    {
        let r = NodeRecord { identity, pairs: Vec::new(), ipv4_contactable, ipv6_contactable };
        proof {
            assert(r@.pairs =~= Seq::<(Seq<u8>, Seq<u8>)>::empty());
        }
        r
    }

    /// Appends one key-value pair to the record.
    pub fn add_value_rlp(&mut self, key: Vec<u8>, value: Vec<u8>)
        ensures
            final(self)@.pairs == old(self)@.pairs.push((key@, value@)),
            final(self)@.identity == old(self)@.identity,
            final(self)@.ipv4_contactable == old(self)@.ipv4_contactable,
            final(self)@.ipv6_contactable == old(self)@.ipv6_contactable,
    {
        self.pairs.push((key, value));
        proof {
            assert(self@.pairs =~= old(self)@.pairs.push((key@, value@)));
        }
    }

    /// Returns the raw bytes this record advertises first under `key`, if
    /// any.
    pub fn get_raw_rlp(&self, key: &[u8]) -> (r: Option<&Vec<u8>>)
        ensures
            (match r {
                Option::Some(v) => self@.entry(key@) == Option::Some(v@),
                Option::None => self@.entry(key@) is None,
            }),
    {
        let n = self.pairs.len();
        let mut i: usize = 0;
        proof {
            assert(self@.pairs.skip(0) =~= self@.pairs);
        }
        while i < n
            invariant
                i <= n,
                n == self.pairs@.len(),
                self@.entry(key@) == spec_lookup(self@.pairs.skip(i as int), key@),
            decreases n - i,
        {
            proof {
                assert(self@.pairs.skip(i as int)[0] == self@.pairs[i as int]);
                assert(self@.pairs.skip(i as int).drop_first() =~= self@.pairs.skip(i + 1));
            }
            if bytes_eq(self.pairs[i].0.as_slice(), key) {
                return Option::Some(&self.pairs[i].1);
            }
            i += 1;
        }
        proof {
            assert(self@.pairs.skip(n as int) =~= Seq::<(Seq<u8>, Seq<u8>)>::empty());
        }
        Option::None
    }
}

} // verus!
