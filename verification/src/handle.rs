//! The unified discovery handle: one mutation surface over the modern and
//! the legacy discovery subsystem, so that their peer tables never diverge.
//! Every table-mutating operation reaches both subsystems when semantically
//! applicable, and a failure in one subsystem's operation never blocks the
//! call into the other.

use vstd::prelude::*;

verus! {

use crate::enr::convert_enr;
use crate::enr::spec_compressed_id;
use crate::enr::spec_convertible;
use crate::enr::uncompressed_to_compressed_id;
use crate::errors::RecordConversionError;
use crate::fork_id::encode_fork_id;
use crate::fork_id::spec_encode_fork_id;
use crate::fork_id::ForkId;
use crate::record::IpAddress;
use crate::record::NodeRecord;
use crate::record::RecordView;
use crate::text::is_valid_utf8;

/// The views of a list of key-value entries: each key and value as the
/// bytes it holds.
pub open spec fn spec_entry_views(entries: Seq<(Vec<u8>, Vec<u8>)>) -> Seq<(Seq<u8>, Seq<u8>)> {
    entries.map_values(|p: (Vec<u8>, Vec<u8>)| (p.0@, p.1@))
}

/// The modern, DHT-based discovery subsystem, as the plain state that this
/// layer's operations read and change: its accepted records, its
/// self-advertised key-value entries, and its ban lists.
#[derive(Debug)]
pub struct Discv5 {
    /// Records accepted into the subsystem's table, in insertion order.
    pub table: Vec<NodeRecord>,
    /// The subsystem's own advertised key-value entries, current value first.
    pub local_enr_entries: Vec<(Vec<u8>, Vec<u8>)>,
    /// Banned identity keys, in the compressed scheme.
    pub banned_node_ids: Vec<Vec<u8>>,
    /// Banned network addresses.
    pub banned_ips: Vec<IpAddress>,
}

/// The legacy discovery subsystem, as the plain state that this layer's
/// operations read and change.
#[derive(Debug)]
pub struct Discv4 {
    /// The subsystem's own advertised key-value entries, current value first.
    pub local_enr_entries: Vec<(Vec<u8>, Vec<u8>)>,
    /// Banned identity keys, in the legacy uncompressed scheme.
    pub banned_node_ids: Vec<Vec<u8>>,
    /// Banned network addresses.
    pub banned_ips: Vec<IpAddress>,
}

impl Discv5 {
    /// The banned identity keys, as byte strings.
    pub open spec fn spec_banned_ids(&self) -> Seq<Seq<u8>> {
        self.banned_node_ids@.map_values(|v: Vec<u8>| v@)
    }

    /// Whether the given address is banned.
    pub open spec fn spec_ip_banned(&self, ip: IpAddress) -> bool {
        self.banned_ips@.contains(ip)
    }

    /// Returns an empty subsystem state.
    pub fn new() -> (r: Self)
        ensures
            r.table@.len() == 0,
            r.local_enr_entries@.len() == 0,
            r.banned_node_ids@.len() == 0,
            r.banned_ips@.len() == 0,
    {
        Discv5 {
            table: Vec::new(),
            local_enr_entries: Vec::new(),
            banned_node_ids: Vec::new(),
            banned_ips: Vec::new(),
        }
    }

    /// Inserts a record into the subsystem's table.
    pub fn add_enr(&mut self, enr: NodeRecord)
        ensures
            final(self).table@ == old(self).table@.push(enr),
            final(self).local_enr_entries == old(self).local_enr_entries,
            final(self).banned_node_ids == old(self).banned_node_ids,
            final(self).banned_ips == old(self).banned_ips,
    {
        self.table.push(enr);
    }

    /// Sets a key-value entry on the subsystem's own record; the newest value
    /// of a key stands first.
    pub fn enr_insert(&mut self, key: Vec<u8>, value: Vec<u8>)
        ensures
            final(self).local_enr_entries@ == old(self).local_enr_entries@.insert(
                0,
                (key, value),
            ),
            final(self).table == old(self).table,
            final(self).banned_node_ids == old(self).banned_node_ids,
            final(self).banned_ips == old(self).banned_ips,
    {
        self.local_enr_entries.insert(0, (key, value));
    }

    /// Bans an identity key, given in the compressed scheme.
    pub fn ban_node(&mut self, node_id: Vec<u8>)
        ensures
            final(self).banned_node_ids@ == old(self).banned_node_ids@.push(node_id),
            final(self).spec_banned_ids() == old(self).spec_banned_ids().push(node_id@),
            final(self).table == old(self).table,
            final(self).local_enr_entries == old(self).local_enr_entries,
            final(self).banned_ips == old(self).banned_ips,
    {
        self.banned_node_ids.push(node_id);
        proof {
            assert(self.spec_banned_ids() =~= old(self).spec_banned_ids().push(node_id@));
        }
    }

    /// Bans a network address.
    pub fn ban_ip(&mut self, ip: IpAddress)
        ensures
            final(self).banned_ips@ == old(self).banned_ips@.push(ip),
            final(self).spec_ip_banned(ip),
            final(self).table == old(self).table,
            final(self).local_enr_entries == old(self).local_enr_entries,
            final(self).banned_node_ids == old(self).banned_node_ids,
    {
        self.banned_ips.push(ip);
        proof {
            assert(self.banned_ips@[self.banned_ips@.len() - 1] == ip);
        }
    }
}

impl Discv4 {
    /// The banned identity keys, as byte strings.
    pub open spec fn spec_banned_ids(&self) -> Seq<Seq<u8>> {
        self.banned_node_ids@.map_values(|v: Vec<u8>| v@)
    }

    /// Whether the given address is banned.
    pub open spec fn spec_ip_banned(&self, ip: IpAddress) -> bool {
        self.banned_ips@.contains(ip)
    }

    /// Returns an empty subsystem state.
    pub fn new() -> (r: Self)
        ensures
            r.local_enr_entries@.len() == 0,
            r.banned_node_ids@.len() == 0,
            r.banned_ips@.len() == 0,
    {
        Discv4 { local_enr_entries: Vec::new(), banned_node_ids: Vec::new(), banned_ips: Vec::new() }
    }

    /// Sets a key-value entry on the subsystem's own record; the newest value
    /// of a key stands first.
    pub fn set_eip868_in_local_enr(&mut self, key: Vec<u8>, rlp: Vec<u8>)
        ensures
            final(self).local_enr_entries@ == old(self).local_enr_entries@.insert(0, (key, rlp)),
            final(self).banned_node_ids == old(self).banned_node_ids,
            final(self).banned_ips == old(self).banned_ips,
    {
        self.local_enr_entries.insert(0, (key, rlp));
    }

    /// Bans an identity key and a network address together.
    pub fn ban_peer_by_ip_and_node_id(&mut self, peer_id: Vec<u8>, ip: IpAddress)
        ensures
            final(self).banned_node_ids@ == old(self).banned_node_ids@.push(peer_id),
            final(self).spec_banned_ids() == old(self).spec_banned_ids().push(peer_id@),
            final(self).banned_ips@ == old(self).banned_ips@.push(ip),
            final(self).spec_ip_banned(ip),
            final(self).local_enr_entries == old(self).local_enr_entries,
    {
        self.banned_node_ids.push(peer_id);
        self.banned_ips.push(ip);
        proof {
            assert(self.spec_banned_ids() =~= old(self).spec_banned_ids().push(peer_id@));
            assert(self.banned_ips@[self.banned_ips@.len() - 1] == ip);
        }
    }

    /// Bans a network address.
    pub fn ban_peer_by_ip(&mut self, ip: IpAddress)
        ensures
            final(self).banned_ips@ == old(self).banned_ips@.push(ip),
            final(self).spec_ip_banned(ip),
            final(self).banned_node_ids == old(self).banned_node_ids,
            final(self).local_enr_entries == old(self).local_enr_entries,
    {
        self.banned_ips.push(ip);
        proof {
            assert(self.banned_ips@[self.banned_ips@.len() - 1] == ip);
        }
    }
}

/// A peer descriptor handed in from an external source: either a signed
/// record, or a plain legacy node descriptor that carries no signed record.
#[derive(Debug, Clone)]
pub enum NodeFromExternalSource {
    /// A plain legacy descriptor: identity key and network address.
    NodeRecord(BasicNode),
    /// A signed record.
    Enr(NodeRecord),
}

/// A plain legacy node descriptor.
#[derive(Debug, Clone)]
pub struct BasicNode {
    /// The identity key bytes.
    pub id: Vec<u8>,
    /// The node's network address.
    pub ip: IpAddress,
    /// The node's discovery port.
    pub udp_port: u16,
    /// The node's session port.
    pub tcp_port: u16,
}

/// Wraps the modern subsystem supporting downgrade to the legacy one: every
/// mutation reaches both subsystems when semantically applicable. The handle
/// owns both subsystem states exclusively; no operation holds them across a
/// suspension point.
#[derive(Debug)]
pub struct Discv5WithDiscv4Downgrade {
    /// The modern subsystem.
    pub discv5: Discv5,
    /// The legacy subsystem.
    pub discv4: Discv4,
}

impl Discv5WithDiscv4Downgrade {
    /// Returns a new handle over the two subsystems.
    pub fn new(discv5: Discv5, discv4: Discv4) -> (r: Self)
        ensures
            r.discv5 == discv5,
            r.discv4 == discv4,
    {
        Discv5WithDiscv4Downgrade { discv5, discv4 }
    }

    /// Exposes methods of the legacy subsystem that take a reference to it.
    pub fn with_discv4<F, R>(&self, f: F) -> (r: R) where F: FnOnce(&Discv4) -> R
        requires
            f.requires((&self.discv4,)),
        ensures
            f.ensures((&self.discv4,), r),
    {
        f(&self.discv4)
    }

    /// Exposes methods of the legacy subsystem that take a mutable reference
    /// to it.
    pub fn with_discv4_mut(&mut self) -> (r: &mut Discv4)
        ensures
            *r == old(self).discv4,
            final(self).discv5 == old(self).discv5,
            final(self).discv4 == *final(r),
    {
        &mut self.discv4
    }

    /// Exposes the modern subsystem's API.
    pub fn with_discv5<F, R>(&self, f: F) -> (r: R) where F: FnOnce(&Discv5) -> R
        requires
            f.requires((&self.discv5,)),
        ensures
            f.ensures((&self.discv5,), r),
    {
        f(&self.discv5)
    }

    /// Adds a peer handed in from an external source. A signed record is
    /// converted to the modern subsystem's native form and inserted into its
    /// table; conversion fails exactly when the identity-key scheme is
    /// incompatible, and then nothing changes. A plain descriptor is not
    /// forwarded to the modern subsystem.
    pub fn add_node_to_routing_table(&mut self, node_record: NodeFromExternalSource) -> (r: Result<
        (),
        RecordConversionError,
    >)
        ensures
            (match node_record {
                NodeFromExternalSource::Enr(enr) => {
                    if spec_convertible(enr@.identity) {
                        &&& r is Ok
                        &&& final(self).discv5.table@.len() == old(self).discv5.table@.len() + 1
                        &&& final(self).discv5.table@.last()@ == (RecordView {
                            identity: spec_compressed_id(enr@.identity),
                            ..enr@
                        })
                        &&& forall|i: int|
                            0 <= i < old(self).discv5.table@.len()
                                ==> final(self).discv5.table@[i] == old(self).discv5.table@[i]
                    } else {
                        &&& r is Err
                        &&& final(self).discv5.table == old(self).discv5.table
                    }
                },
                NodeFromExternalSource::NodeRecord(_) => {
                    &&& r is Ok
                    &&& final(self).discv5.table == old(self).discv5.table
                },
            }),
            final(self).discv5.local_enr_entries == old(self).discv5.local_enr_entries,
            final(self).discv5.banned_node_ids == old(self).discv5.banned_node_ids,
            final(self).discv5.banned_ips == old(self).discv5.banned_ips,
            final(self).discv4 == old(self).discv4,
    {
        match node_record {
            NodeFromExternalSource::Enr(enr) => {
                match convert_enr(enr) {
                    Result::Ok(rec) => {
                        self.discv5.add_enr(rec);
                        Result::Ok(())
                    },
                    Result::Err(e) => Result::Err(e),
                }
            },
            NodeFromExternalSource::NodeRecord(_) => Result::Ok(()),
        }
    }

    /// Sets a key-value entry on both subsystems' own records: the modern
    /// subsystem takes it only when the key is valid text, the legacy
    /// subsystem always takes it.
    pub fn set_eip868_in_local_enr(&mut self, key: Vec<u8>, rlp: Vec<u8>)
        ensures
            spec_entry_views(final(self).discv5.local_enr_entries@) == (if vstd::utf8::valid_utf8(
                key@,
            ) {
                spec_entry_views(old(self).discv5.local_enr_entries@).insert(0, (key@, rlp@))
            } else {
                spec_entry_views(old(self).discv5.local_enr_entries@)
            }),
            final(self).discv4.local_enr_entries@ == old(self).discv4.local_enr_entries@.insert(
                0,
                (key, rlp),
            ),
            final(self).discv5.table == old(self).discv5.table,
            final(self).discv5.banned_node_ids == old(self).discv5.banned_node_ids,
            final(self).discv5.banned_ips == old(self).discv5.banned_ips,
            final(self).discv4.banned_node_ids == old(self).discv4.banned_node_ids,
            final(self).discv4.banned_ips == old(self).discv4.banned_ips,
    {
        if is_valid_utf8(key.as_slice()) {
            let key_copy = vstd::slice::slice_to_vec(key.as_slice());
            let rlp_copy = vstd::slice::slice_to_vec(rlp.as_slice());
            self.discv5.enr_insert(key_copy, rlp_copy);
            proof {
                assert(spec_entry_views(self.discv5.local_enr_entries@) =~= spec_entry_views(
                    old(self).discv5.local_enr_entries@,
                ).insert(0, (key@, rlp@)));
            }
        }
        self.discv4.set_eip868_in_local_enr(key, rlp);
    }

    /// Encodes a fork identifier and sets it as a key-value entry on both
    /// subsystems' own records.
    pub fn encode_and_set_eip868_in_local_enr(&mut self, key: Vec<u8>, value: &ForkId)
        ensures
            spec_entry_views(final(self).discv5.local_enr_entries@) == (if vstd::utf8::valid_utf8(
                key@,
            ) {
                spec_entry_views(old(self).discv5.local_enr_entries@).insert(
                    0,
                    (key@, spec_encode_fork_id(*value)),
                )
            } else {
                spec_entry_views(old(self).discv5.local_enr_entries@)
            }),
            spec_entry_views(final(self).discv4.local_enr_entries@) == spec_entry_views(
                old(self).discv4.local_enr_entries@,
            ).insert(0, (key@, spec_encode_fork_id(*value))),
            final(self).discv5.table == old(self).discv5.table,
            final(self).discv5.banned_node_ids == old(self).discv5.banned_node_ids,
            final(self).discv5.banned_ips == old(self).discv5.banned_ips,
            final(self).discv4.banned_node_ids == old(self).discv4.banned_node_ids,
            final(self).discv4.banned_ips == old(self).discv4.banned_ips,
    {
        let buf = encode_fork_id(value);
        self.set_eip868_in_local_enr(key, buf);
        proof {
            assert(spec_entry_views(self.discv4.local_enr_entries@) =~= spec_entry_views(
                old(self).discv4.local_enr_entries@,
            ).insert(0, (key@, spec_encode_fork_id(*value))));
        }
    }

    /// Bans a peer by identity key and address. The identity is translated
    /// into the modern subsystem's scheme; translation failure silently skips
    /// only the modern-subsystem identity ban, never the address ban, and
    /// both legacy bans always happen.
    pub fn ban_peer_by_ip_and_node_id(&mut self, peer_id: Vec<u8>, ip: IpAddress)
        ensures
            final(self).discv5.spec_banned_ids() == (if spec_convertible(peer_id@) {
                old(self).discv5.spec_banned_ids().push(spec_compressed_id(peer_id@))
            } else {
                old(self).discv5.spec_banned_ids()
            }),
            final(self).discv5.banned_ips@ == old(self).discv5.banned_ips@.push(ip),
            final(self).discv5.spec_ip_banned(ip),
            final(self).discv4.spec_banned_ids() == old(self).discv4.spec_banned_ids().push(
                peer_id@,
            ),
            final(self).discv4.banned_ips@ == old(self).discv4.banned_ips@.push(ip),
            final(self).discv4.spec_ip_banned(ip),
            final(self).discv5.table == old(self).discv5.table,
            final(self).discv5.local_enr_entries == old(self).discv5.local_enr_entries,
            final(self).discv4.local_enr_entries == old(self).discv4.local_enr_entries,
    {
        match uncompressed_to_compressed_id(peer_id.as_slice()) {
            Result::Ok(node_id_discv5) => {
                self.discv5.ban_node(node_id_discv5);
            },
            Result::Err(_) => {},
        }
        self.discv5.ban_ip(ip);
        self.discv4.ban_peer_by_ip_and_node_id(peer_id, ip);
    }

    /// Bans an address in both subsystems.
    pub fn ban_peer_by_ip(&mut self, ip: IpAddress)
        ensures
            final(self).discv5.banned_ips@ == old(self).discv5.banned_ips@.push(ip),
            final(self).discv5.spec_ip_banned(ip),
            final(self).discv4.banned_ips@ == old(self).discv4.banned_ips@.push(ip),
            final(self).discv4.spec_ip_banned(ip),
            final(self).discv5.table == old(self).discv5.table,
            final(self).discv5.local_enr_entries == old(self).discv5.local_enr_entries,
            final(self).discv5.banned_node_ids == old(self).discv5.banned_node_ids,
            final(self).discv4.local_enr_entries == old(self).discv4.local_enr_entries,
            final(self).discv4.banned_node_ids == old(self).discv4.banned_node_ids,
    {
        self.discv5.ban_ip(ip);
        self.discv4.ban_peer_by_ip(ip);
    }
}

} // verus!
