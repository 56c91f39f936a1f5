//! Dual-stack peer discovery: a modern DHT-based discovery subsystem bridged
//! with a legacy one, presenting one coherent discovery surface, together
//! with an acceptance-filtering framework that decides, from a peer's
//! self-advertised signed record, whether the peer is eligible to be
//! discovered at all. A separate module holds the receipt-pruning
//! configuration of the node.

mod enr;
mod errors;
mod filter;
mod fork_id;
mod handle;
mod prune;
mod record;
mod stream;
mod text;

pub use enr::convert_enr;
pub use enr::uncompressed_to_compressed_id;
pub use errors::RecordConversionError;
pub use errors::RecordDecodeError;
pub use errors::SignalDeliveryError;
pub use filter::eth2_chain_key;
pub use filter::eth_chain_key;
pub use filter::lemma_beacon_chain_always_disallowed;
pub use filter::lemma_chain_filter_ignores_missing;
pub use filter::lemma_filter_idempotent;
pub use filter::lemma_fork_filter_admits_match;
pub use filter::lemma_fork_filter_ignores_other;
pub use filter::lemma_ignore_reasons_nonempty;
pub use filter::FilterDiscovered;
pub use filter::FilterOutcome;
pub use filter::MustIncludeChain;
pub use filter::MustIncludeFork;
pub use filter::MustNotIncludeChains;
pub use filter::OutcomeView;
pub use fork_id::decode_fork_id;
pub use fork_id::encode_fork_id;
pub use fork_id::ForkId;
pub use handle::BasicNode;
pub use handle::Discv4;
pub use handle::Discv5;
pub use handle::Discv5WithDiscv4Downgrade;
pub use handle::NodeFromExternalSource;
pub use prune::Address;
pub use prune::BlockNumber;
pub use prune::PruneInterruptReason;
pub use prune::PruneMode;
pub use prune::PruneProgress;
pub use prune::PrunePurpose;
pub use prune::PruneSegment;
pub use prune::PruneSegmentError;
pub use prune::ReceiptsLogPruneConfig;
pub use prune::MINIMUM_PRUNING_DISTANCE;
pub use record::bytes_eq;
pub use record::IpAddress;
pub use record::NodeRecord;
pub use record::RecordView;
pub use stream::lemma_merge_fairness;
pub use stream::Discv5Event;
pub use stream::DiscoveryUpdate;
pub use stream::DiscoveryUpdateV5;
pub use stream::IntoDiscoveryUpdate;
pub use stream::MergedPoll;
pub use stream::MergedUpdateStream;
pub use stream::MergedView;
pub use stream::StreamPoll;
pub use stream::SyncSignalSender;
pub use stream::UpdateStream;
