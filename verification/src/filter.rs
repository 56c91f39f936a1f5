//! Predicates to constrain peer lookups: each filter is a pure, total
//! function from a peer's record and the filter's own configuration to an
//! outcome; absence or malformance of data is an ignore, never an error.

use vstd::prelude::*;

verus! {

use vstd::string::StringExecFns;

use crate::fork_id::spec_decode_fork_id;
use crate::fork_id::spec_encode_fork_id;
use crate::fork_id::decode_fork_id;
use crate::fork_id::lemma_fork_id_roundtrip;
use crate::fork_id::ForkId;
use crate::record::NodeRecord;
use crate::record::RecordView;
use crate::record::bytes_eq;
use crate::text::spec_hex_u32;
use crate::text::spec_hex_u64;
use crate::text::push_hex_u32;
use crate::text::push_hex_u64;
use crate::text::utf8_lossy;
use crate::text::utf8_lossy_of;

/// The key under which a record advertises the primary chain's fork
/// identifier.
pub open spec fn spec_eth_key() -> Seq<u8> {
    seq![101u8, 116u8, 104u8]
}

/// The fixed beacon-chain key: records advertising it are always excluded by
/// the disallow filter, whatever its configuration.
pub open spec fn spec_eth2_key() -> Seq<u8> {
    seq![101u8, 116u8, 104u8, 50u8]
}

/// Returns the primary chain's entry key.
pub fn eth_chain_key() -> (r: Vec<u8>)
    ensures
        r@ == spec_eth_key(),
{
    let mut v: Vec<u8> = Vec::new();
    v.push(101);
    v.push(116);
    v.push(104);
    proof {
        assert(v@ =~= spec_eth_key());
    }
    v
}

/// Returns the fixed beacon-chain entry key.
pub fn eth2_chain_key() -> (r: Vec<u8>)
    ensures
        r@ == spec_eth2_key(),
{
    let mut v: Vec<u8> = Vec::new();
    v.push(101);
    v.push(116);
    v.push(104);
    v.push(50);
    proof {
        assert(v@ =~= spec_eth2_key());
    }
    v
}

/// The mathematical content of a filter outcome: the reason of an ignored
/// record as the characters it holds.
pub enum OutcomeView {
    /// The record passes.
    Pass,
    /// The record passes, and decoding yielded this fork identifier.
    OkReturnForkId(ForkId),
    /// The record is ignored for the given reason.
    Ignore(Seq<char>),
}

/// Outcome of applying filtering rules on a node record.
#[derive(Debug, Clone, PartialEq, Eq)]
pub enum FilterOutcome {
    /// The record passes the filter rules.
    Pass,
    /// The record passes the filter rules; the fork identifier is a
    /// by-product of filtering, returned to avoid decoding it twice.
    OkReturnForkId(ForkId),
    /// The record does not pass the filter rules, for the given reason.
    Ignore {
        /// Reason for filtering out the record; never empty.
        reason: String,
    },
}

impl View for FilterOutcome {
    type V = OutcomeView;

    open spec fn view(&self) -> OutcomeView {
        match self {
            FilterOutcome::Pass => OutcomeView::Pass,
            FilterOutcome::OkReturnForkId(f) => OutcomeView::OkReturnForkId(*f),
            FilterOutcome::Ignore { reason } => OutcomeView::Ignore(reason@),
        }
    }
}

impl FilterOutcome {
    /// Returns `true` for `FilterOutcome::Pass`.
    pub fn is_ok(&self) -> (r: bool)
        ensures
            r == (self@ is Pass),
    {
        matches!(self, FilterOutcome::Pass)
    }
}

/// Allows users to inject custom filtering rules on which peers to discover.
/// Evaluation is a pure function of the record and the filter's own
/// configuration: it never blocks and never fails.
pub trait FilterDiscovered {
    /// The outcome that this filter's rules assign to a record.
    spec fn filter_model(&self, record: RecordView) -> OutcomeView;

    /// The reason that this filter attaches to an ignored record.
    spec fn reason_model(&self) -> Seq<char>;

    /// Applies the filtering rules on a record. Returns `Ok` (or
    /// `OkReturnForkId`) if the peer should be included, otherwise `Ignore`.
    fn filter(&self, enr: &NodeRecord) -> (out: FilterOutcome)
        ensures
            out@ == self.filter_model(enr@),
    ;

    /// The reason string that an `Ignore` outcome of this filter carries,
    /// for documentation and logging independent of any evaluation.
    fn ignore_reason(&self) -> (r: String)
        ensures
            r@ == self.reason_model(),
    ;
}

/// Filter requiring that peers advertise that they belong to some fork of a
/// certain chain.
#[derive(Debug, Clone, PartialEq, Eq, Hash)]
pub struct MustIncludeChain {
    /// Chain key which the record must advertise.
    pub chain: Vec<u8>,
}

impl MustIncludeChain {
    /// Returns a new instance requiring the given chain key.
    pub fn new(chain: Vec<u8>) -> (r: Self)
        ensures
            r.chain@ == chain@,
    {
        MustIncludeChain { chain }
    }
}

impl FilterDiscovered for MustIncludeChain {
    open spec fn filter_model(&self, record: RecordView) -> OutcomeView {
        if record.has_entry(self.chain@) {
            OutcomeView::Pass
        } else {
            OutcomeView::Ignore(self.reason_model())
        }
    }

    open spec fn reason_model(&self) -> Seq<char> {
        utf8_lossy_of(self.chain@) + " fork required"@
    }

    fn filter(&self, enr: &NodeRecord) -> (out: FilterOutcome) {
        if enr.get_raw_rlp(self.chain.as_slice()).is_none() {
            return FilterOutcome::Ignore { reason: self.ignore_reason() };
        }
        FilterOutcome::Pass
    }

    fn ignore_reason(&self) -> (r: String) {
        let mut s = utf8_lossy(self.chain.as_slice());
        s.append(" fork required");
        s
    }
}

impl Default for MustIncludeChain {
    /// Returns the filter for the primary chain's entry key.
    fn default() -> (r: Self)
        ensures
            r.chain@ == spec_eth_key(),
    {
        MustIncludeChain { chain: eth_chain_key() }
    }
}

/// The chain keys of a list of chain filters, in order.
pub open spec fn spec_chain_names(chains: Seq<MustIncludeChain>) -> Seq<Seq<u8>> {
    chains.map_values(|c: MustIncludeChain| c.chain@)
}

/// The given names with every later repetition of a name removed: each name
/// keeps its first occurrence only.
pub open spec fn spec_dedup(s: Seq<Seq<u8>>) -> Seq<Seq<u8>>
    decreases s.len(),
{
    if s.len() == 0 {
        Seq::empty()
    } else {
        let front = spec_dedup(s.drop_last());
        if front.contains(s.last()) {
            front
        } else {
            front.push(s.last())
        }
    }
}

/// The configured names joined with commas, in configuration order.
pub open spec fn spec_joined_names(names: Seq<Seq<u8>>) -> Seq<char>
    decreases names.len(),
{
    if names.len() == 0 {
        Seq::empty()
    } else if names.len() == 1 {
        utf8_lossy_of(names[0])
    } else {
        utf8_lossy_of(names[0]) + ","@ + spec_joined_names(names.drop_first())
    }
}

fn contains_name(chains: &Vec<MustIncludeChain>, name: &[u8]) -> (r: bool)
    ensures
        r == spec_chain_names(chains@).contains(name@),
{
    let n = chains.len();
    let mut i: usize = 0;
    while i < n
        invariant
            i <= n,
            n == chains@.len(),
            forall|j: int| 0 <= j < i ==> spec_chain_names(chains@)[j] != name@,
        decreases n - i,
    {
        if bytes_eq(chains[i].chain.as_slice(), name) {
            proof {
                assert(spec_chain_names(chains@)[i as int] == name@);
            }
            return true;
        }
        i += 1;
    }
    false
}

fn join_names(chains: &Vec<MustIncludeChain>, i: usize) -> (r: String)
    requires
        i <= chains@.len(),
    ensures
        r@ == spec_joined_names(spec_chain_names(chains@).skip(i as int)),
    decreases chains@.len() - i,
{
    let ghost names = spec_chain_names(chains@);
    let n = chains.len();
    if i == n {
        proof {
            assert(names.skip(i as int) =~= Seq::<Seq<u8>>::empty());
        }
        String::new()
    } else {
        proof {
            assert(names.skip(i as int)[0] == names[i as int]);
            assert(names.skip(i as int).drop_first() =~= names.skip(i + 1));
        }
        let mut s = utf8_lossy(chains[i].chain.as_slice());
        if i + 1 == n {
            proof {
                assert(names.skip(i as int).len() == 1);
            }
            s
        } else {
            s.append(",");
            let rest = join_names(chains, i + 1);
            s.append(rest.as_str());
            proof {
                assert(s@ =~= spec_joined_names(names.skip(i as int)));
            }
            s
        }
    }
}

/// Filter requiring that peers not advertise that they belong to some
/// chains; peers advertising the fixed beacon-chain key are excluded whatever
/// the configuration says.
#[derive(Debug, Clone)]
pub struct MustNotIncludeChains {
    /// One chain filter per disallowed chain key, each key held once.
    pub chains: Vec<MustIncludeChain>,
}

impl MustNotIncludeChains {
    /// Returns a new instance that disallows node records with a key-value
    /// pair that has any of the given chains as key; repeated names are kept
    /// once.
    pub fn new(disallow_chains: Vec<Vec<u8>>) -> (r: Self)
        ensures
            spec_chain_names(r.chains@) == spec_dedup(
                disallow_chains@.map_values(|v: Vec<u8>| v@),
            ),
    {
        let ghost input = disallow_chains@.map_values(|v: Vec<u8>| v@);
        let mut chains: Vec<MustIncludeChain> = Vec::new();
        let n = disallow_chains.len();
        let mut i: usize = 0;
        proof {
            assert(input.take(0) =~= Seq::<Seq<u8>>::empty());
            assert(spec_chain_names(chains@) =~= Seq::<Seq<u8>>::empty());
        }
        while i < n
            invariant
                i <= n,
                n == disallow_chains@.len(),
                input == disallow_chains@.map_values(|v: Vec<u8>| v@),
                spec_chain_names(chains@) == spec_dedup(input.take(i as int)),
            decreases n - i,
        {
            proof {
                assert(input.take(i + 1).drop_last() =~= input.take(i as int));
                assert(input.take(i + 1).last() == input[i as int]);
            }
            if !contains_name(&chains, disallow_chains[i].as_slice()) {
                let name = vstd::slice::slice_to_vec(disallow_chains[i].as_slice());
                let ghost before = chains@;
                chains.push(MustIncludeChain::new(name));
                proof {
                    assert(spec_chain_names(chains@) =~= spec_chain_names(before).push(
                        input[i as int],
                    ));
                }
            }
            i += 1;
        }
        proof {
            assert(input.take(n as int) =~= input);
        }
        MustNotIncludeChains { chains }
    }
}

impl FilterDiscovered for MustNotIncludeChains {
    open spec fn filter_model(&self, record: RecordView) -> OutcomeView {
        if (exists|i: int|
            0 <= i < self.chains@.len() && record.has_entry(self.chains@[i].chain@))
            || record.has_entry(spec_eth2_key()) {
            OutcomeView::Ignore(self.reason_model())
        } else {
            OutcomeView::Pass
        }
    }

    open spec fn reason_model(&self) -> Seq<char> {
        spec_joined_names(spec_chain_names(self.chains@)) + " forks not allowed"@
    }

    fn filter(&self, enr: &NodeRecord) -> (out: FilterOutcome) {
        let n = self.chains.len();
        let mut i: usize = 0;
        while i < n
            invariant
                i <= n,
                n == self.chains@.len(),
                forall|j: int| 0 <= j < i ==> !enr@.has_entry((#[trigger] self.chains@[j]).chain@),
            decreases n - i,
        {
            if matches!(self.chains[i].filter(enr), FilterOutcome::Pass) {
                return FilterOutcome::Ignore { reason: self.ignore_reason() };
            }
            i += 1;
        }
        let beacon = eth2_chain_key();
        if enr.get_raw_rlp(beacon.as_slice()).is_some() {
            return FilterOutcome::Ignore { reason: self.ignore_reason() };
        }
        FilterOutcome::Pass
    }

    fn ignore_reason(&self) -> (r: String) {
        let mut s = join_names(&self.chains, 0);
        proof {
            assert(spec_chain_names(self.chains@).skip(0) =~= spec_chain_names(self.chains@));
        }
        s.append(" forks not allowed");
        s
    }
}

impl Default for MustNotIncludeChains {
    /// Returns the filter with an empty disallow set; only the fixed
    /// beacon-chain rule applies.
    fn default() -> (r: Self)
        ensures
            r.chains@.len() == 0,
    {
        MustNotIncludeChains { chains: Vec::new() }
    }
}

/// Filter requiring that peers advertise belonging to a certain fork of a
/// certain chain.
#[derive(Debug, Clone)]
pub struct MustIncludeFork {
    /// Filters the chain which the record must advertise.
    pub chain: MustIncludeChain,
    /// The fork which the record must advertise.
    pub fork_id: ForkId,
}

impl MustIncludeFork {
    /// Returns a new instance.
    pub fn new(chain: Vec<u8>, fork_id: ForkId) -> (r: Self)
        ensures
            r.chain.chain@ == chain@,
            r.fork_id == fork_id,
    {
        MustIncludeFork { chain: MustIncludeChain::new(chain), fork_id }
    }
}

impl FilterDiscovered for MustIncludeFork {
    open spec fn filter_model(&self, record: RecordView) -> OutcomeView {
        match record.entry(self.chain.chain@) {
            Option::None => OutcomeView::Ignore(self.chain.reason_model()),
            Option::Some(bytes) => match spec_decode_fork_id(bytes) {
                Option::Some(f) => if f == self.fork_id {
                    OutcomeView::OkReturnForkId(f)
                } else {
                    OutcomeView::Ignore(self.reason_model())
                },
                Option::None => OutcomeView::Ignore(self.reason_model()),
            },
        }
    }

    open spec fn reason_model(&self) -> Seq<char> {
        utf8_lossy_of(self.chain.chain@) + " fork 0x"@ + spec_hex_u32(self.fork_id.hash) + "/0x"@
            + spec_hex_u64(self.fork_id.next) + " required"@
    }

    fn filter(&self, enr: &NodeRecord) -> (out: FilterOutcome) {
        match enr.get_raw_rlp(self.chain.chain.as_slice()) {
            Option::None => FilterOutcome::Ignore { reason: self.chain.ignore_reason() },
            Option::Some(bytes) => match decode_fork_id(bytes.as_slice()) {
                Result::Ok(fork_id) => if fork_id == self.fork_id {
                    FilterOutcome::OkReturnForkId(fork_id)
                } else {
                    FilterOutcome::Ignore { reason: self.ignore_reason() }
                },
                Result::Err(_) => FilterOutcome::Ignore { reason: self.ignore_reason() },
            },
        }
    }

    fn ignore_reason(&self) -> (r: String) {
        let mut s = utf8_lossy(self.chain.chain.as_slice());
        s.append(" fork 0x");
        push_hex_u32(&mut s, self.fork_id.hash);
        s.append("/0x");
        push_hex_u64(&mut s, self.fork_id.next);
        s.append(" required");
        proof {
            assert(s@ =~= self.reason_model());
        }
        s
    }
}

/// For all records lacking the configured chain's key-value entry, the chain
/// filter ignores them, with its chain-required reason.
pub proof fn lemma_chain_filter_ignores_missing(flt: MustIncludeChain, record: RecordView)
    requires
        !record.has_entry(flt.chain@),
    ensures
        flt.filter_model(record) == OutcomeView::Ignore(flt.reason_model()),
{
}

/// A record that advertises, under the configured chain key, the canonical
/// encoding of exactly the required fork identifier, with anything at all
/// appended, is admitted carrying that identifier.
pub proof fn lemma_fork_filter_admits_match(flt: MustIncludeFork, record: RecordView, rest: Seq<u8>)
    requires
        record.entry(flt.chain.chain@) == Option::Some(spec_encode_fork_id(flt.fork_id) + rest),
    ensures
        flt.filter_model(record) == OutcomeView::OkReturnForkId(flt.fork_id),
{
    lemma_fork_id_roundtrip(flt.fork_id, rest);
}

/// A record that advertises, under the configured chain key, the canonical
/// encoding of some other fork identifier is ignored, as is one whose entry
/// decodes to nothing or is missing.
pub proof fn lemma_fork_filter_ignores_other(
    flt: MustIncludeFork,
    record: RecordView,
    other: ForkId,
    rest: Seq<u8>,
)
    requires
        other != flt.fork_id,
        record.entry(flt.chain.chain@) == Option::Some(spec_encode_fork_id(other) + rest),
    ensures
        flt.filter_model(record) == OutcomeView::Ignore(flt.reason_model()),
{
    lemma_fork_id_roundtrip(other, rest);
}

/// The disallow filter ignores a record carrying an entry for the fixed
/// beacon-chain key even when that key is not in the configured disallow set.
pub proof fn lemma_beacon_chain_always_disallowed(flt: MustNotIncludeChains, record: RecordView)
    requires
        record.has_entry(spec_eth2_key()),
    ensures
        flt.filter_model(record) == OutcomeView::Ignore(flt.reason_model()),
{
}

/// An `Ignore` outcome always carries a non-empty, filter-specific reason:
/// no filter's reason string is empty.
pub proof fn lemma_ignore_reasons_nonempty(
    chain: MustIncludeChain,
    disallow: MustNotIncludeChains,
    fork: MustIncludeFork,
)
    ensures
        chain.reason_model().len() > 0,
        disallow.reason_model().len() > 0,
        fork.reason_model().len() > 0,
{
    reveal_strlit(" fork required");
    reveal_strlit(" forks not allowed");
    reveal_strlit(" required");
}

/// Idempotence: evaluating the same filter twice against the same unmodified
/// record yields identical outcomes, since every evaluation equals the
/// filter's model of the record.
pub proof fn lemma_filter_idempotent<F: FilterDiscovered>(
    flt: &F,
    record: RecordView,
    first: OutcomeView,
    second: OutcomeView,
)
    requires
        first == flt.filter_model(record),
        second == flt.filter_model(record),
    ensures
        first == second,
{
}

} // verus!
