//! Pruning configuration: which receipts are kept for which contracts, and how
//! far a prune job has progressed.

use std::collections::BTreeMap;
use vstd::prelude::*;

verus! {

broadcast use vstd::laws_cmp::group_laws_cmp;

/// Height of a block on the chain.
pub type BlockNumber = u64;

/// Smallest distance from the chain tip within which history-bearing segments
/// may never be pruned, so that recent blocks stay available across reorgs.
pub const MINIMUM_PRUNING_DISTANCE: u64 = 128;

/// A 160-bit contract account address, held as plain integers: the 64 high
/// bits, the 64 middle bits and the 32 low bits of the address.
#[derive(Clone, Copy, PartialEq, Eq, Structural, Debug, Hash)]
pub struct Address {
    /// Bits 159..96 of the address.
    pub hi: u64,
    /// Bits 95..32 of the address.
    pub mid: u64,
    /// Bits 31..0 of the address.
    pub lo: u32,
}

/// How a segment of chain history is pruned.
#[derive(Clone, Copy, PartialEq, Eq, Structural, Debug)]
pub enum PruneMode {
    /// Prune every block below the tip.
    Full,
    /// Keep the given number of blocks below the tip.
    Distance(u64),
    /// Prune every block below the given one.
    Before(BlockNumber),
}

/// A segment of chain history that can be pruned on its own.
#[derive(Clone, Copy, PartialEq, Eq, Structural, Debug)]
pub enum PruneSegment {
    /// Recovered transaction senders.
    SenderRecovery,
    /// The transaction-hash-to-number index.
    TransactionLookup,
    /// Transaction receipts.
    Receipts,
    /// Receipts of logs emitted by configured contracts.
    ContractLogs,
}

/// Why a segment is being pruned.
#[derive(Clone, Copy, PartialEq, Eq, Structural, Debug)]
pub enum PrunePurpose {
    /// Pruning requested by the node operator.
    User,
    /// Pruning of data that has moved to static files.
    StaticFile,
}

/// A pruning configuration that a segment cannot satisfy.
#[derive(Clone, Copy, PartialEq, Eq, Structural, Debug)]
pub enum PruneSegmentError {
    /// The configured mode keeps fewer blocks than the segment requires.
    Configuration(PruneSegment),
}

impl PruneSegment {
    /// The smallest number of blocks below the tip that this segment must keep.
    pub open spec fn spec_min_blocks(self, purpose: PrunePurpose) -> u64 {
        match self {
            PruneSegment::SenderRecovery => 0,
            PruneSegment::TransactionLookup => 0,
            PruneSegment::Receipts => match purpose {
                PrunePurpose::StaticFile => 0,
                PrunePurpose::User => MINIMUM_PRUNING_DISTANCE,
            },
            PruneSegment::ContractLogs => MINIMUM_PRUNING_DISTANCE,
        }
    }

    /// Returns the smallest number of blocks below the tip that this segment
    /// must keep when pruned for the given purpose.
    pub fn min_blocks(&self, purpose: PrunePurpose) -> (r: u64)
        ensures
            r == self.spec_min_blocks(purpose),
    {
        match self {
            PruneSegment::SenderRecovery => 0,
            PruneSegment::TransactionLookup => 0,
            PruneSegment::Receipts => match purpose {
                PrunePurpose::StaticFile => 0,
                PrunePurpose::User => MINIMUM_PRUNING_DISTANCE,
            },
            PruneSegment::ContractLogs => MINIMUM_PRUNING_DISTANCE,
        }
    }
}

/// The given block, one lower when possible: the highest block strictly below
/// `n`, or block zero when `n` is zero.
pub open spec fn spec_dec_or_zero(n: u64) -> u64 {
    if n == 0 {
        0
    } else {
        (n - 1) as u64
    }
}

impl PruneMode {
    /// The block up to which this mode prunes, inclusive, for the given tip:
    /// `None` when there is nothing to prune yet, an error when the mode keeps
    /// fewer blocks than the segment requires.
    pub open spec fn spec_prune_target_block(
        self,
        tip: BlockNumber,
        segment: PruneSegment,
        purpose: PrunePurpose,
    ) -> Result<Option<(BlockNumber, PruneMode)>, PruneSegmentError> {
        let min = segment.spec_min_blocks(purpose);
        match self {
            PruneMode::Full => if min == 0 {
                Result::Ok(Option::Some((tip, self)))
            } else {
                Result::Err(PruneSegmentError::Configuration(segment))
            },
            PruneMode::Distance(d) => if d > tip {
                Result::Ok(Option::None)
            } else if d >= min {
                Result::Ok(Option::Some((spec_dec_or_zero((tip - d) as u64), self)))
            } else {
                Result::Err(PruneSegmentError::Configuration(segment))
            },
            PruneMode::Before(n) => if n > tip {
                Result::Ok(Option::None)
            } else if tip - n >= min {
                Result::Ok(Option::Some((spec_dec_or_zero(n), self)))
            } else {
                Result::Err(PruneSegmentError::Configuration(segment))
            },
        }
    }

    /// Returns the block up to which this mode prunes, inclusive, given the
    /// current tip; `None` when nothing can be pruned yet, an error when the
    /// mode keeps fewer blocks than the segment requires.
    pub fn prune_target_block(
        &self,
        tip: BlockNumber,
        segment: PruneSegment,
        purpose: PrunePurpose,
    ) -> (r: Result<Option<(BlockNumber, PruneMode)>, PruneSegmentError>)
        ensures
            r == self.spec_prune_target_block(tip, segment, purpose),
            (r matches Result::Ok(Option::Some(p)) ==> p.0 <= tip),
    {
        let min = segment.min_blocks(purpose);
        match self {
            PruneMode::Full => if min == 0 {
                Result::Ok(Option::Some((tip, *self)))
            } else {
                Result::Err(PruneSegmentError::Configuration(segment))
            },
            PruneMode::Distance(d) => if *d > tip {
                Result::Ok(Option::None)
            } else if *d >= min {
                let left = tip - *d;
                let target = if left == 0 { 0 } else { left - 1 };
                Result::Ok(Option::Some((target, *self)))
            } else {
                Result::Err(PruneSegmentError::Configuration(segment))
            },
            PruneMode::Before(n) => if *n > tip {
                Result::Ok(Option::None)
            } else if tip - *n >= min {
                let target = if *n == 0 { 0 } else { *n - 1 };
                Result::Ok(Option::Some((target, *self)))
            } else {
                Result::Err(PruneSegmentError::Configuration(segment))
            },
        }
    }
}

/// The block number already pruned: the payload of the checkpoint, or block
/// zero when no checkpoint exists yet.
pub open spec fn spec_pruned_of(pruned_block: Option<BlockNumber>) -> u64 {
    match pruned_block {
        Option::Some(p) => p,
        Option::None => 0,
    }
}

/// The first block from which receipts of one configured contract are kept,
/// for the given tip and checkpoint: an error when the contract's mode keeps
/// fewer blocks than the contract-logs segment requires.
pub open spec fn spec_block_for(mode: PruneMode, tip: u64, pruned: u64) -> Result<
    u64,
    PruneSegmentError,
> {
    match mode.spec_prune_target_block(tip, PruneSegment::ContractLogs, PrunePurpose::User) {
        Result::Err(e) => Result::Err(e),
        Result::Ok(t) => {
            let base: u64 = match t {
                Option::Some(p) => p.0,
                Option::None => 0,
            };
            let from_checkpoint = (pruned + 1) as u64;
            let from_target = (base + 1) as u64;
            Result::Ok(
                if from_checkpoint >= from_target {
                    from_checkpoint
                } else {
                    from_target
                },
            )
        },
    }
}

/// The addresses of `cfg`, in order, whose receipts start being kept at block
/// `b` for the given tip and checkpoint.
pub open spec fn spec_addrs_for_block(
    cfg: Seq<(Address, PruneMode)>,
    tip: u64,
    pruned: u64,
    b: u64,
) -> Seq<Address>
    decreases cfg.len(),
{
    if cfg.len() == 0 {
        Seq::empty()
    } else {
        let head: Seq<Address> = if spec_block_for(cfg[0].1, tip, pruned) == Result::<
            u64,
            PruneSegmentError,
        >::Ok(b) {
            seq![cfg[0].0]
        } else {
            Seq::empty()
        };
        head + spec_addrs_for_block(cfg.drop_first(), tip, pruned, b)
    }
}

proof fn lemma_addrs_for_block_push_one(
    cfg: Seq<(Address, PruneMode)>,
    x: (Address, PruneMode),
    tip: u64,
    pruned: u64,
    b: u64,
)
    ensures
        spec_addrs_for_block(cfg.push(x), tip, pruned, b) == if spec_block_for(x.1, tip, pruned)
            == Result::<u64, PruneSegmentError>::Ok(b) {
            spec_addrs_for_block(cfg, tip, pruned, b).push(x.0)
        } else {
            spec_addrs_for_block(cfg, tip, pruned, b)
        },
    decreases cfg.len(),
{
    let s2 = cfg.push(x);
    assert(s2.len() == cfg.len() + 1);
    if cfg.len() == 0 {
        assert(s2[0] == x);
        assert(s2.drop_first() =~= Seq::<(Address, PruneMode)>::empty());
        assert(spec_addrs_for_block(s2.drop_first(), tip, pruned, b) == Seq::<Address>::empty());
        if spec_block_for(x.1, tip, pruned) == Result::<u64, PruneSegmentError>::Ok(b) {
            assert(spec_addrs_for_block(s2, tip, pruned, b) == seq![x.0]
                + Seq::<Address>::empty());
            assert(seq![x.0] + Seq::<Address>::empty() =~= spec_addrs_for_block(
                cfg,
                tip,
                pruned,
                b,
            ).push(x.0));
        } else {
            assert(spec_addrs_for_block(s2, tip, pruned, b) == Seq::<Address>::empty()
                + Seq::<Address>::empty());
            assert(Seq::<Address>::empty() + Seq::<Address>::empty() =~= spec_addrs_for_block(
                cfg,
                tip,
                pruned,
                b,
            ));
        }
    } else {
        assert(s2[0] == cfg[0]);
        assert(s2.drop_first() =~= cfg.drop_first().push(x));
        lemma_addrs_for_block_push_one(cfg.drop_first(), x, tip, pruned, b);
        let head: Seq<Address> = if spec_block_for(cfg[0].1, tip, pruned) == Result::<
            u64,
            PruneSegmentError,
        >::Ok(b) {
            seq![cfg[0].0]
        } else {
            Seq::<Address>::empty()
        };
        assert(spec_addrs_for_block(s2, tip, pruned, b) == head + spec_addrs_for_block(
            cfg.drop_first().push(x),
            tip,
            pruned,
            b,
        ));
        assert(spec_addrs_for_block(cfg, tip, pruned, b) == head + spec_addrs_for_block(
            cfg.drop_first(),
            tip,
            pruned,
            b,
        ));
        if spec_block_for(x.1, tip, pruned) == Result::<u64, PruneSegmentError>::Ok(b) {
            assert(head + spec_addrs_for_block(cfg.drop_first(), tip, pruned, b).push(x.0) =~= (
            head + spec_addrs_for_block(cfg.drop_first(), tip, pruned, b)).push(x.0));
        }
    }
}

proof fn lemma_addrs_for_block_push(
    cfg: Seq<(Address, PruneMode)>,
    x: (Address, PruneMode),
    tip: u64,
    pruned: u64,
)
    ensures
        forall|b: u64|
            #[trigger] spec_addrs_for_block(cfg.push(x), tip, pruned, b) == if spec_block_for(
                x.1,
                tip,
                pruned,
            ) == Result::<u64, PruneSegmentError>::Ok(b) {
                spec_addrs_for_block(cfg, tip, pruned, b).push(x.0)
            } else {
                spec_addrs_for_block(cfg, tip, pruned, b)
            },
{
    assert forall|b: u64|
        #[trigger] spec_addrs_for_block(cfg.push(x), tip, pruned, b) == if spec_block_for(
            x.1,
            tip,
            pruned,
        ) == Result::<u64, PruneSegmentError>::Ok(b) {
            spec_addrs_for_block(cfg, tip, pruned, b).push(x.0)
        } else {
            spec_addrs_for_block(cfg, tip, pruned, b)
        } by {
        lemma_addrs_for_block_push_one(cfg, x, tip, pruned, b);
    }
}

/// Configuration for pruning receipts not associated with logs emitted by the
/// configured contracts: one pruning mode per contract address, with no
/// address listed twice.
#[derive(Clone, Debug, PartialEq, Eq)]
pub struct ReceiptsLogPruneConfig(pub Vec<(Address, PruneMode)>);

impl ReceiptsLogPruneConfig {
    /// No contract address is configured twice.
    pub open spec fn wf(&self) -> bool {
        forall|i: int, j: int|
            0 <= i < j < self.0@.len() ==> (#[trigger] self.0@[i]).0 != (#[trigger] self.0@[j]).0
    }

    /// Checks if the configuration is empty.
    pub fn is_empty(&self) -> (r: bool)
        ensures
            r == (self.0@.len() == 0),
    {
        self.0.len() == 0
    }

    /// Given the `tip` block number, consolidates the configuration so it can
    /// be queried for filtering across a range of blocks: each configured
    /// address is grouped under the first block from which its receipts are
    /// kept, so a key `b` of the result stands for "keep from `b` on". A
    /// contract whose mode has no target yet is grouped under block one, or
    /// under the first unpruned block when a checkpoint exists.
    pub fn group_by_block(
        &self,
        tip: BlockNumber,
        pruned_block: Option<BlockNumber>,
    ) -> (r: Result<BTreeMap<BlockNumber, Vec<Address>>, PruneSegmentError>)
        requires
            self.wf(),
            tip < u64::MAX,
            spec_pruned_of(pruned_block) < u64::MAX,
        ensures
            (match r {
                Result::Ok(m) => {
                    &&& forall|i: int|
                        0 <= i < self.0@.len() ==> (#[trigger] spec_block_for(
                            self.0@[i].1,
                            tip,
                            spec_pruned_of(pruned_block),
                        )) is Ok
                    &&& forall|b: u64|
                        #[trigger] m@.contains_key(b) <==> spec_addrs_for_block(
                            self.0@,
                            tip,
                            spec_pruned_of(pruned_block),
                            b,
                        ).len() > 0
                    &&& forall|b: u64|
                        m@.contains_key(b) ==> (#[trigger] m@[b])@ == spec_addrs_for_block(
                            self.0@,
                            tip,
                            spec_pruned_of(pruned_block),
                            b,
                        )
                },
                Result::Err(e) => {
                    &&& exists|i: int|
                        0 <= i < self.0@.len() && (#[trigger] spec_block_for(
                            self.0@[i].1,
                            tip,
                            spec_pruned_of(pruned_block),
                        )) is Err
                    &&& e == PruneSegmentError::Configuration(PruneSegment::ContractLogs)
                },
            }),
    {
        let ghost pruned: u64 = spec_pruned_of(pruned_block);
        let pruned_exec: u64 = match pruned_block {
            Option::Some(p) => p,
            Option::None => 0,
        };
        let mut map: BTreeMap<BlockNumber, Vec<Address>> = BTreeMap::new();
        let n = self.0.len();
        let mut i: usize = 0;
        while i < n
            invariant
                i <= n,
                n == self.0@.len(),
                tip < u64::MAX,
                pruned == spec_pruned_of(pruned_block),
                pruned < u64::MAX,
                pruned_exec == pruned,
                forall|j: int|
                    0 <= j < i ==> (#[trigger] spec_block_for(self.0@[j].1, tip, pruned)) is Ok,
                forall|b: u64|
                    #[trigger] map@.contains_key(b) <==> spec_addrs_for_block(
                        self.0@.take(i as int),
                        tip,
                        pruned,
                        b,
                    ).len() > 0,
                forall|b: u64|
                    map@.contains_key(b) ==> (#[trigger] map@[b])@ == spec_addrs_for_block(
                        self.0@.take(i as int),
                        tip,
                        pruned,
                        b,
                    ),
            decreases n - i,
        {
            let address = self.0[i].0;
            let mode = self.0[i].1;
            match mode.prune_target_block(tip, PruneSegment::ContractLogs, PrunePurpose::User) {
                Result::Err(e) => {
                    return Result::Err(e);
                },
                Result::Ok(t) => {
                    let base: u64 = match t {
                        Option::Some(p) => p.0,
                        Option::None => 0,
                    };
                    let from_checkpoint = pruned_exec + 1;
                    let from_target = base + 1;
                    let block = if from_checkpoint >= from_target {
                        from_checkpoint
                    } else {
                        from_target
                    };
                    assert(Result::<u64, PruneSegmentError>::Ok(block) == spec_block_for(
                        mode,
                        tip,
                        pruned,
                    ));
                    match map.remove(&block) {
                        Option::Some(mut v) => {
                            v.push(address);
                            map.insert(block, v);
                        },
                        Option::None => {
                            let mut v: Vec<Address> = Vec::new();
                            v.push(address);
                            map.insert(block, v);
                        },
                    }
                    proof {
                        lemma_addrs_for_block_push(self.0@.take(i as int), self.0@[i as int], tip, pruned);
                        assert(self.0@.take(i + 1) =~= self.0@.take(i as int).push(
                            self.0@[i as int],
                        ));
                    }
                },
            }
            i += 1;
        }
        proof {
            assert(self.0@.take(n as int) =~= self.0@);
        }
        Result::Ok(map)
    }

    /// The lowest starting block, over the prefix of the configuration still
    /// to be visited, of the contracts whose mode keeps a distance from the
    /// tip; `acc` carries the lowest target found so far.
    pub open spec fn spec_lowest_distance_acc(
        cfg: Seq<(Address, PruneMode)>,
        tip: u64,
        acc: Option<u64>,
    ) -> Result<Option<u64>, PruneSegmentError>
        decreases cfg.len(),
    {
        if cfg.len() == 0 {
            Result::Ok(acc)
        } else {
            match cfg[0].1 {
                PruneMode::Distance(_) => match spec_block_for_target(cfg[0].1, tip) {
                    Result::Err(e) => Result::Err(e),
                    Result::Ok(Option::Some(block)) => {
                        let low = match acc {
                            Option::Some(a) => if a <= block {
                                a
                            } else {
                                block
                            },
                            Option::None => block,
                        };
                        Self::spec_lowest_distance_acc(
                            cfg.drop_first(),
                            tip,
                            Option::Some(low),
                        )
                    },
                    Result::Ok(Option::None) => Self::spec_lowest_distance_acc(
                        cfg.drop_first(),
                        tip,
                        acc,
                    ),
                },
                _ => Self::spec_lowest_distance_acc(cfg.drop_first(), tip, acc),
            }
        }
    }

    /// Returns the lowest block from which logs are filtered for the contracts
    /// whose mode keeps a distance from the tip, raised to the pruned
    /// checkpoint when one exists; `None` when no such contract has a target
    /// yet.
    pub fn lowest_block_with_distance(
        &self,
        tip: BlockNumber,
        pruned_block: Option<BlockNumber>,
    ) -> (r: Result<Option<BlockNumber>, PruneSegmentError>)
        ensures
            r == (match Self::spec_lowest_distance_acc(self.0@, tip, Option::None) {
                Result::Ok(Option::Some(lowest)) => Result::<
                    Option<BlockNumber>,
                    PruneSegmentError,
                >::Ok(
                    Option::Some(
                        if lowest >= spec_pruned_of(pruned_block) {
                            lowest
                        } else {
                            spec_pruned_of(pruned_block)
                        },
                    ),
                ),
                Result::Ok(Option::None) => Result::Ok(Option::None),
                Result::Err(e) => Result::Err(e),
            }),
    {
        let pruned_exec: u64 = match pruned_block {
            Option::Some(p) => p,
            Option::None => 0,
        };
        let mut lowest: Option<u64> = Option::None;
        let n = self.0.len();
        let mut i: usize = 0;
        proof {
            assert(self.0@.skip(0) =~= self.0@);
        }
        while i < n
            invariant
                i <= n,
                n == self.0@.len(),
                Self::spec_lowest_distance_acc(self.0@, tip, Option::None)
                    == Self::spec_lowest_distance_acc(self.0@.skip(i as int), tip, lowest),
            decreases n - i,
        {
            let mode = self.0[i].1;
            proof {
                assert(self.0@.skip(i as int).drop_first() =~= self.0@.skip(i + 1));
                assert(self.0@.skip(i as int)[0] == self.0@[i as int]);
            }
            match mode {
                PruneMode::Distance(_) => {
                    match mode.prune_target_block(
                        tip,
                        PruneSegment::ContractLogs,
                        PrunePurpose::User,
                    ) {
                        Result::Err(e) => {
                            return Result::Err(e);
                        },
                        Result::Ok(Option::Some(p)) => {
                            let block = p.0;
                            lowest = match lowest {
                                Option::Some(a) => if a <= block {
                                    Option::Some(a)
                                } else {
                                    Option::Some(block)
                                },
                                Option::None => Option::Some(block),
                            };
                        },
                        Result::Ok(Option::None) => {},
                    }
                },
                _ => {},
            }
            i += 1;
        }
        proof {
            assert(self.0@.skip(n as int) =~= Seq::<(Address, PruneMode)>::empty());
        }
        match lowest {
            Option::Some(low) => Result::Ok(
                Option::Some(
                    if low >= pruned_exec {
                        low
                    } else {
                        pruned_exec
                    },
                ),
            ),
            Option::None => Result::Ok(Option::None),
        }
    }
}

/// The prune target of a mode for the contract-logs segment, keeping only the
/// block: the form in which `lowest_block_with_distance` consumes it.
pub open spec fn spec_block_for_target(mode: PruneMode, tip: u64) -> Result<
    Option<u64>,
    PruneSegmentError,
> {
    match mode.spec_prune_target_block(tip, PruneSegment::ContractLogs, PrunePurpose::User) {
        Result::Err(e) => Result::Err(e),
        Result::Ok(Option::Some(p)) => Result::Ok(Option::Some(p.0)),
        Result::Ok(Option::None) => Result::Ok(Option::None),
    }
}

impl Default for ReceiptsLogPruneConfig {
    /// Returns the empty configuration.
    fn default() -> (r: Self)
        ensures
            r.0@.len() == 0,
    {
        ReceiptsLogPruneConfig(Vec::new())
    }
}

/// Reason for interrupting a prune job.
#[derive(Debug, PartialEq, Eq, Structural, Clone, Copy)]
pub enum PruneInterruptReason {
    /// Prune job timed out.
    Timeout,
    /// Limit on the number of deleted segments per prune job was reached.
    LimitSegmentsDeleted,
}

impl PruneInterruptReason {
    /// Returns `true` if the reason is a timeout.
    pub fn is_timeout(&self) -> (r: bool)
        ensures
            r == (*self is Timeout),
    {
        match self {
            Self::Timeout => true,
            Self::LimitSegmentsDeleted => false,
        }
    }

    /// Returns `true` if the reason is reaching the limit on deleted segments.
    pub fn is_segment_limit_reached(&self) -> (r: bool)
        ensures
            r == (*self is LimitSegmentsDeleted),
    {
        match self {
            Self::Timeout => false,
            Self::LimitSegmentsDeleted => true,
        }
    }
}

/// Progress of pruning.
#[derive(Debug, PartialEq, Eq, Structural, Clone, Copy)]
pub enum PruneProgress {
    /// There is more data to prune.
    HasMoreData(PruneInterruptReason),
    /// Pruning has been finished.
    Finished,
}

impl PruneProgress {
    /// Creates a new `PruneProgress` that summarises a prune job: `Finished`
    /// when `done` holds, otherwise `HasMoreData` with the timeout reason when
    /// `timeout` holds and the segment-limit reason when it does not.
    pub fn new(done: bool, timeout: bool) -> (r: Self)
        ensures
            r == (if done {
                PruneProgress::Finished
            } else if timeout {
                PruneProgress::HasMoreData(PruneInterruptReason::Timeout)
            } else {
                PruneProgress::HasMoreData(PruneInterruptReason::LimitSegmentsDeleted)
            }),
    {
        if done {
            Self::Finished
        } else if timeout {
            Self::timed_out()
        } else {
            Self::segment_limit_reached()
        }
    }

    /// Returns a new instance of the `Finished` variant.
    pub fn finished() -> (r: Self)
        ensures
            r == PruneProgress::Finished,
    {
        Self::Finished
    }

    /// Returns a new instance of the `HasMoreData` variant with the timeout
    /// reason.
    pub fn timed_out() -> (r: Self)
        ensures
            r == PruneProgress::HasMoreData(PruneInterruptReason::Timeout),
    {
        Self::HasMoreData(PruneInterruptReason::Timeout)
    }

    /// Returns a new instance of the `HasMoreData` variant with the
    /// segment-limit reason.
    pub fn segment_limit_reached() -> (r: Self)
        ensures
            r == PruneProgress::HasMoreData(PruneInterruptReason::LimitSegmentsDeleted),
    {
        Self::HasMoreData(PruneInterruptReason::LimitSegmentsDeleted)
    }

    /// Returns `true` if the prune job is done.
    pub fn is_done(&self) -> (r: bool)
        ensures
            r == (*self is Finished),
    {
        match self {
            Self::Finished => true,
            Self::HasMoreData(_) => false,
        }
    }

    /// Returns `true` if the prune job was interrupted by a timeout.
    pub fn is_timed_out(&self) -> (r: bool)
        ensures
            r == (*self == PruneProgress::HasMoreData(PruneInterruptReason::Timeout)),
    {
        match self {
            Self::Finished => false,
            Self::HasMoreData(reason) => reason.is_timeout(),
        }
    }

    /// Returns `true` if the prune job was interrupted by reaching the limit
    /// on deleted segments.
    pub fn is_segment_limit_reached(&self) -> (r: bool)
        ensures
            r == (*self == PruneProgress::HasMoreData(PruneInterruptReason::LimitSegmentsDeleted)),
    {
        match self {
            Self::Finished => false,
            Self::HasMoreData(reason) => reason.is_segment_limit_reached(),
        }
    }
}

} // verus!
