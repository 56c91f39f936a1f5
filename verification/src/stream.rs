//! The event adapter and the merge engine: the two subsystems' event sources
//! are lifted into one tagged update type and interleaved fairly, and a
//! session-established event of the modern subsystem nudges the legacy
//! subsystem, through a single-slot signal, to refresh its mirror of the
//! modern table.
//!
//! A source is modelled by what a poll can observe of it: the items that are
//! ready to be yielded, in arrival order, and whether the source has ended.
//! The engine only ever observes readiness; when nothing is ready it
//! suspends and yields control.

use vstd::prelude::*;

verus! {

use crate::errors::SignalDeliveryError;
use crate::handle::BasicNode;
use crate::record::NodeRecord;

/// An event of the modern discovery subsystem.
#[derive(Debug, Clone)]
pub enum Discv5Event {
    /// A session was established with the peer advertising this record.
    SessionEstablished(NodeRecord),
    /// This record was discovered during a lookup.
    Discovered(NodeRecord),
    /// The subsystem's routing table accepted a node.
    NodeInserted,
}

/// An update of the legacy discovery subsystem.
#[derive(Debug, Clone)]
pub enum DiscoveryUpdate {
    /// A node was added to the legacy table.
    Added(BasicNode),
    /// The node with this identity key left the legacy table.
    Removed(Vec<u8>),
}

/// Wrapper around the update types of the two subsystems.
#[derive(Debug, Clone)]
pub enum DiscoveryUpdateV5 {
    /// A modern-subsystem update.
    V5(Discv5Event),
    /// A legacy-subsystem update.
    V4(DiscoveryUpdate),
}

/// Conversion of a subsystem-native event into the shared update type.
pub trait IntoDiscoveryUpdate: Sized {
    /// The tagged update that this event becomes.
    spec fn spec_as_update(self) -> DiscoveryUpdateV5;

    /// Lifts the event into the shared update type.
    fn into_update(self) -> (u: DiscoveryUpdateV5)
        ensures
            u == self.spec_as_update(),
    ;
}

impl IntoDiscoveryUpdate for Discv5Event {
    open spec fn spec_as_update(self) -> DiscoveryUpdateV5 {
        DiscoveryUpdateV5::V5(self)
    }

    fn into_update(self) -> (u: DiscoveryUpdateV5) {
        DiscoveryUpdateV5::V5(self)
    }
}

impl IntoDiscoveryUpdate for DiscoveryUpdate {
    open spec fn spec_as_update(self) -> DiscoveryUpdateV5 {
        DiscoveryUpdateV5::V4(self)
    }

    fn into_update(self) -> (u: DiscoveryUpdateV5) {
        DiscoveryUpdateV5::V4(self)
    }
}

/// What one poll of an adapted source yields: an update, the end of the
/// source, or nothing yet.
#[derive(Debug, Clone)]
pub enum StreamPoll {
    /// An update, or `None` when the source has ended for good.
    Ready(Option<DiscoveryUpdateV5>),
    /// No update is ready yet.
    Pending,
}

/// Stream wrapper for sources producing types that convert to
/// [`DiscoveryUpdateV5`]: purely a type-lifting adapter, preserving the exact
/// arrival order of the wrapped source and forwarding suspension
/// transparently.
#[derive(Debug)]
pub struct UpdateStream<T> {
    /// The items of the wrapped source that are ready, front first.
    pub pending: Vec<T>,
    /// Whether the wrapped source has ended: no further item will arrive.
    pub closed: bool,
}

impl<T: IntoDiscoveryUpdate> UpdateStream<T> {
    /// Returns an adapter over a source with the given ready items.
    pub fn new(pending: Vec<T>, closed: bool) -> (r: Self)
        ensures
            r.pending@ == pending@,
            r.closed == closed,
    {
        UpdateStream { pending, closed }
    }

    /// Polls the wrapped source once: its front item lifted into the shared
    /// update type, the end of the source, or nothing yet.
    pub fn poll_next(&mut self) -> (r: StreamPoll)
        ensures
            final(self).closed == old(self).closed,
            (if old(self).pending@.len() > 0 {
                &&& final(self).pending@ == old(self).pending@.drop_first()
                &&& r == StreamPoll::Ready(
                    Option::Some(old(self).pending@[0].spec_as_update()),
                )
            } else {
                &&& final(self).pending@ == old(self).pending@
                &&& r == (if old(self).closed {
                    StreamPoll::Ready(Option::<DiscoveryUpdateV5>::None)
                } else {
                    StreamPoll::Pending
                })
            }),
    {
        if self.pending.len() > 0 {
            let item = self.pending.remove(0);
            proof {
                assert(self.pending@ =~= old(self).pending@.drop_first());
            }
            StreamPoll::Ready(Option::Some(item.into_update()))
        } else if self.closed {
            StreamPoll::Ready(Option::None)
        } else {
            StreamPoll::Pending
        }
    }
}

/// The sender half of the single-slot synchronization signal: at most the
/// latest unconsumed signal matters, older ones are superseded.
#[derive(Debug)]
pub struct SyncSignalSender {
    /// Whether an unconsumed signal waits in the slot.
    pub pending: bool,
    /// Whether the receiving side still exists.
    pub receiver_alive: bool,
}

impl SyncSignalSender {
    /// Returns a sender with an empty slot.
    pub fn new(receiver_alive: bool) -> (r: Self)
        ensures
            r.pending == false,
            r.receiver_alive == receiver_alive,
    {
        SyncSignalSender { pending: false, receiver_alive }
    }

    /// Sends the unit signal, overwriting any unconsumed one; fails exactly
    /// when no receiver is left, which is never fatal.
    pub fn send(&mut self) -> (r: Result<(), SignalDeliveryError>)
        ensures
            final(self).receiver_alive == old(self).receiver_alive,
            old(self).receiver_alive ==> r is Ok && final(self).pending,
            !old(self).receiver_alive ==> r is Err && final(self).pending == old(self).pending,
    {
        if self.receiver_alive {
            self.pending = true;
            Result::Ok(())
        } else {
            Result::Err(SignalDeliveryError)
        }
    }

    /// Consumes the pending signal, if one waits: what the legacy subsystem
    /// does on its own protocol cadence.
    pub fn take_signal(&mut self) -> (r: bool)
        ensures
            r == old(self).pending,
            final(self).pending == false,
            final(self).receiver_alive == old(self).receiver_alive,
    {
        let was = self.pending;
        self.pending = false;
        was
    }
}

/// The mathematical content of the merge engine's state.
#[verifier::ext_equal]
pub struct MergedView {
    /// Ready modern events, arrival order.
    pub v5: Seq<Discv5Event>,
    /// Whether the modern source has ended.
    pub v5_closed: bool,
    /// Ready legacy updates, arrival order.
    pub v4: Seq<DiscoveryUpdate>,
    /// Whether the legacy source has ended.
    pub v4_closed: bool,
    /// Whether the next poll asks the legacy source first.
    pub v4_first: bool,
    /// Whether an unconsumed synchronization signal waits.
    pub signal_pending: bool,
    /// Whether the signal's receiving side still exists.
    pub receiver_alive: bool,
}

impl MergedView {
    /// How many events are still queued over both sources.
    pub open spec fn total_queued(self) -> nat {
        self.v5.len() + self.v4.len()
    }
}

/// What one poll of the merge engine yields: an update, the end of both
/// sources, or a suspension, which may carry a request to be polled again at
/// once.
#[derive(Debug, Clone)]
pub enum MergedPoll {
    /// An update, or `None` when both sources have ended.
    Ready(Option<DiscoveryUpdateV5>),
    /// No update was produced this poll.
    Pending {
        /// Whether the engine asked to be polled again immediately.
        wake_scheduled: bool,
    },
}

/// Whether a modern event is the session establishment of a record reachable
/// over the second addressing family only: such an event is not yet
/// actionable, since family classification may still be settling, and the
/// engine defers instead of emitting it.
pub open spec fn spec_deferred_session(e: Discv5Event) -> bool {
    match e {
        Discv5Event::SessionEstablished(rec) => !rec.ipv4_contactable && rec.ipv6_contactable,
        _ => false,
    }
}

/// One poll of the fair interleave of the two adapted sources, before the
/// engine's session-established handling: when both sources have a ready
/// event the preferred one yields and the preference flips each poll, so
/// neither source is starved; when only one has a ready event that one
/// yields; the interleave ends only when both sources have.
pub open spec fn spec_select_step(v: MergedView) -> (MergedView, StreamPoll) {
    let toggled = MergedView { v4_first: !v.v4_first, ..v };
    if v.v4_first {
        if v.v4.len() > 0 {
            (
                MergedView { v4: v.v4.drop_first(), ..toggled },
                StreamPoll::Ready(Option::Some(DiscoveryUpdateV5::V4(v.v4[0]))),
            )
        } else if v.v5.len() > 0 {
            (
                MergedView { v5: v.v5.drop_first(), ..toggled },
                StreamPoll::Ready(Option::Some(DiscoveryUpdateV5::V5(v.v5[0]))),
            )
        } else if v.v4_closed && v.v5_closed {
            (toggled, StreamPoll::Ready(Option::None))
        } else {
            (toggled, StreamPoll::Pending)
        }
    } else {
        if v.v5.len() > 0 {
            (
                MergedView { v5: v.v5.drop_first(), ..toggled },
                StreamPoll::Ready(Option::Some(DiscoveryUpdateV5::V5(v.v5[0]))),
            )
        } else if v.v4.len() > 0 {
            (
                MergedView { v4: v.v4.drop_first(), ..toggled },
                StreamPoll::Ready(Option::Some(DiscoveryUpdateV5::V4(v.v4[0]))),
            )
        } else if v.v4_closed && v.v5_closed {
            (toggled, StreamPoll::Ready(Option::None))
        } else {
            (toggled, StreamPoll::Pending)
        }
    }
}

/// One poll of the merge engine: the interleaved event is taken, then a
/// modern session-established event either defers (second family only: the
/// event is consumed but not emitted, and an immediate re-poll is requested)
/// or sends the synchronization signal and is emitted; every other event is
/// emitted unchanged.
pub open spec fn spec_merged_step(v: MergedView) -> (MergedView, MergedPoll) {
    let (v2, inner) = spec_select_step(v);
    match inner {
        StreamPoll::Ready(Option::Some(u)) => match u {
            DiscoveryUpdateV5::V5(e) => if spec_deferred_session(e) {
                (v2, MergedPoll::Pending { wake_scheduled: true })
            } else if e is SessionEstablished {
                (
                    MergedView {
                        signal_pending: if v2.receiver_alive {
                            true
                        } else {
                            v2.signal_pending
                        },
                        ..v2
                    },
                    MergedPoll::Ready(Option::Some(u)),
                )
            } else {
                (v2, MergedPoll::Ready(Option::Some(u)))
            },
            DiscoveryUpdateV5::V4(_) => (v2, MergedPoll::Ready(Option::Some(u))),
        },
        StreamPoll::Ready(Option::None) => (v2, MergedPoll::Ready(Option::None)),
        StreamPoll::Pending => (v2, MergedPoll::Pending { wake_scheduled: false }),
    }
}

/// A stream that polls the update streams of the two subsystems in
/// round-robin fashion and runs the modern-to-legacy synchronization
/// heuristic.
#[derive(Debug)]
pub struct MergedUpdateStream {
    /// The adapted modern event source.
    pub discv5_updates: UpdateStream<Discv5Event>,
    /// The adapted legacy update source.
    pub discv4_updates: UpdateStream<DiscoveryUpdate>,
    /// Whether the next poll asks the legacy source first; flips each poll.
    pub poll_discv4_first: bool,
    /// The single-slot synchronization signal to the legacy subsystem.
    pub discv5_kbuckets_change_tx: SyncSignalSender,
}

impl View for MergedUpdateStream {
    type V = MergedView;

    open spec fn view(&self) -> MergedView {
        MergedView {
            v5: self.discv5_updates.pending@,
            v5_closed: self.discv5_updates.closed,
            v4: self.discv4_updates.pending@,
            v4_closed: self.discv4_updates.closed,
            v4_first: self.poll_discv4_first,
            signal_pending: self.discv5_kbuckets_change_tx.pending,
            receiver_alive: self.discv5_kbuckets_change_tx.receiver_alive,
        }
    }
}

impl MergedUpdateStream {
    /// Returns a merged stream of modern events and legacy updates that
    /// supports downgrading to the legacy subsystem.
    pub fn merge_discovery_streams(
        discv5_event_stream: UpdateStream<Discv5Event>,
        discv4_update_stream: UpdateStream<DiscoveryUpdate>,
        discv5_kbuckets_change_tx: SyncSignalSender,
    ) -> (r: Self)
        ensures
            r.discv5_updates.pending@ == discv5_event_stream.pending@,
            r.discv5_updates.closed == discv5_event_stream.closed,
            r.discv4_updates.pending@ == discv4_update_stream.pending@,
            r.discv4_updates.closed == discv4_update_stream.closed,
            r.poll_discv4_first == false,
            r.discv5_kbuckets_change_tx == discv5_kbuckets_change_tx,
    {
        MergedUpdateStream {
            discv5_updates: discv5_event_stream,
            discv4_updates: discv4_update_stream,
            poll_discv4_first: false,
            discv5_kbuckets_change_tx,
        }
    }

    /// Notifies the legacy subsystem that the modern subsystem's table has
    /// changed, so it refreshes its mirror on its next protocol round.
    fn notify_discv4_of_kbuckets_update(&mut self) -> (r: Result<(), SignalDeliveryError>)
        ensures
            final(self).discv5_updates == old(self).discv5_updates,
            final(self).discv4_updates == old(self).discv4_updates,
            final(self).poll_discv4_first == old(self).poll_discv4_first,
            final(self).discv5_kbuckets_change_tx.receiver_alive
                == old(self).discv5_kbuckets_change_tx.receiver_alive,
            old(self).discv5_kbuckets_change_tx.receiver_alive
                ==> r is Ok && final(self).discv5_kbuckets_change_tx.pending,
            !old(self).discv5_kbuckets_change_tx.receiver_alive
                ==> r is Err && final(self).discv5_kbuckets_change_tx.pending == old(
                self,
            ).discv5_kbuckets_change_tx.pending,
    {
        self.discv5_kbuckets_change_tx.send()
    }

    /// Polls the merged stream once, as `spec_merged_step` describes: fair
    /// interleave first, then the session-established heuristic.
    pub fn poll_next(&mut self) -> (r: MergedPoll)
        ensures
            final(self)@ == spec_merged_step(old(self)@).0,
            r == spec_merged_step(old(self)@).1,
    {
        let inner: StreamPoll = if self.poll_discv4_first {
            self.poll_discv4_first = false;
            match self.discv4_updates.poll_next() {
                StreamPoll::Ready(Option::Some(u)) => StreamPoll::Ready(Option::Some(u)),
                first => match self.discv5_updates.poll_next() {
                    StreamPoll::Ready(Option::Some(u)) => StreamPoll::Ready(Option::Some(u)),
                    second => {
                        if matches!(first, StreamPoll::Ready(Option::None)) && matches!(
                            second,
                            StreamPoll::Ready(Option::None),
                        ) {
                            StreamPoll::Ready(Option::None)
                        } else {
                            StreamPoll::Pending
                        }
                    },
                },
            }
        } else {
            self.poll_discv4_first = true;
            match self.discv5_updates.poll_next() {
                StreamPoll::Ready(Option::Some(u)) => StreamPoll::Ready(Option::Some(u)),
                first => match self.discv4_updates.poll_next() {
                    StreamPoll::Ready(Option::Some(u)) => StreamPoll::Ready(Option::Some(u)),
                    second => {
                        if matches!(first, StreamPoll::Ready(Option::None)) && matches!(
                            second,
                            StreamPoll::Ready(Option::None),
                        ) {
                            StreamPoll::Ready(Option::None)
                        } else {
                            StreamPoll::Pending
                        }
                    },
                },
            }
        };
        match inner {
            StreamPoll::Ready(Option::Some(update)) => {
                let defer: bool = match &update {
                    DiscoveryUpdateV5::V5(Discv5Event::SessionEstablished(rec)) => {
                        !rec.ipv4_contactable && rec.ipv6_contactable
                    },
                    _ => false,
                };
                if defer {
                    // The event was consumed but is not emitted this turn;
                    // only the scheduler is asked to poll again.
                    return MergedPoll::Pending { wake_scheduled: true };
                }
                let is_session = matches!(
                    &update,
                    DiscoveryUpdateV5::V5(Discv5Event::SessionEstablished(_)),
                );
                if is_session {
                    // Delivery failure is non-fatal: the legacy subsystem may
                    // legitimately have shut down first.
                    match self.notify_discv4_of_kbuckets_update() {
                        Result::Ok(()) => {},
                        Result::Err(_) => {},
                    }
                }
                MergedPoll::Ready(Option::Some(update))
            },
            StreamPoll::Ready(Option::None) => MergedPoll::Ready(Option::None),
            StreamPoll::Pending => MergedPoll::Pending { wake_scheduled: false },
        }
    }
}

/// The modern events among a sequence of yielded updates, in order.
pub open spec fn spec_v5_part(s: Seq<DiscoveryUpdateV5>) -> Seq<Discv5Event>
    decreases s.len(),
{
    if s.len() == 0 {
        Seq::empty()
    } else {
        match s[0] {
            DiscoveryUpdateV5::V5(e) => seq![e] + spec_v5_part(s.drop_first()),
            DiscoveryUpdateV5::V4(_) => spec_v5_part(s.drop_first()),
        }
    }
}

/// The legacy updates among a sequence of yielded updates, in order.
pub open spec fn spec_v4_part(s: Seq<DiscoveryUpdateV5>) -> Seq<DiscoveryUpdate>
    decreases s.len(),
{
    if s.len() == 0 {
        Seq::empty()
    } else {
        match s[0] {
            DiscoveryUpdateV5::V4(u) => seq![u] + spec_v4_part(s.drop_first()),
            DiscoveryUpdateV5::V5(_) => spec_v4_part(s.drop_first()),
        }
    }
}

/// Everything the merge engine yields from state `v` within `k` polls, while
/// it keeps producing events.
pub open spec fn spec_drained(v: MergedView, k: nat) -> Seq<DiscoveryUpdateV5>
    decreases k,
{
    if k == 0 {
        Seq::empty()
    } else {
        let (v2, r) = spec_merged_step(v);
        match r {
            MergedPoll::Ready(Option::Some(u)) => seq![u] + spec_drained(v2, (k - 1) as nat),
            _ => Seq::empty(),
        }
    }
}

/// Merge fairness: from a state where both sources have ended and no queued
/// modern event is in the deferred class, as many polls as there are queued
/// events yield every queued event exactly once, with neither source's
/// subsequence reordered internally.
pub proof fn lemma_merge_fairness(v: MergedView)
    requires
        v.v5_closed,
        v.v4_closed,
        forall|i: int| 0 <= i < v.v5.len() ==> !spec_deferred_session(#[trigger] v.v5[i]),
    ensures
        spec_drained(v, v.total_queued()).len() == v.total_queued(),
        spec_v5_part(spec_drained(v, v.total_queued())) == v.v5,
        spec_v4_part(spec_drained(v, v.total_queued())) == v.v4,
    decreases v.total_queued(),
{
    let k = v.total_queued();
    let drained = spec_drained(v, k);
    if k == 0 {
        assert(v.v5 =~= Seq::<Discv5Event>::empty());
        assert(v.v4 =~= Seq::<DiscoveryUpdate>::empty());
        assert(spec_v5_part(drained) =~= v.v5);
        assert(spec_v4_part(drained) =~= v.v4);
    } else {
        let (v2, r) = spec_merged_step(v);
        let u = (match r {
            MergedPoll::Ready(Option::Some(u)) => u,
            _ => arbitrary(),
        });
        assert(r == MergedPoll::Ready(Option::Some(u)));
        assert(v2.v5 == v.v5 || v2.v5 == v.v5.drop_first());
        assert(forall|i: int|
            0 <= i < v2.v5.len() ==> !spec_deferred_session(#[trigger] v2.v5[i]));
        lemma_merge_fairness(v2);
        let rest = spec_drained(v2, v2.total_queued());
        assert(drained == seq![u] + rest);
        assert((seq![u] + rest)[0] == u);
        assert((seq![u] + rest).drop_first() =~= rest);
        match u {
            DiscoveryUpdateV5::V5(e) => {
                assert(e == v.v5[0]);
                assert(v2.v5 == v.v5.drop_first());
                assert(v2.v4 == v.v4);
                assert(spec_v5_part(drained) == seq![e] + spec_v5_part(rest));
                assert(seq![e] + v.v5.drop_first() =~= v.v5);
                assert(spec_v4_part(drained) == spec_v4_part(rest));
            },
            DiscoveryUpdateV5::V4(w) => {
                assert(w == v.v4[0]);
                assert(v2.v4 == v.v4.drop_first());
                assert(v2.v5 == v.v5);
                assert(spec_v4_part(drained) == seq![w] + spec_v4_part(rest));
                assert(seq![w] + v.v4.drop_first() =~= v.v4);
                assert(spec_v5_part(drained) == spec_v5_part(rest));
            },
        }
    }
}

} // verus!
