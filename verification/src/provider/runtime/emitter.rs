//! The books of a feed's event queue: what is on its way, what is void, what the reserve holds.
//!
//! A queue has room for the regular events that it promises and for an emergency pair. Every
//! regular event holds one of the regular permits, every control event one of the control permits
//! besides. The pair has two slots of its own behind a barrier.
use vstd::multiset::Multiset;
use vstd::prelude::*;

use crate::error::{ErrorContext, ErrorOperation, ProviderError};
use crate::event::{
    event_generation, event_purges_with_generation, is_control_event, status_key, MarketEvent,
};
use crate::model::{ConnectionStatus, GapGeneration};

pub use crate::provider::runtime::buffer::KeyedCandleBuffer;

verus! {

/// A status and the generation that it is about.
pub type StatusKey = (Option<GapGeneration>, ConnectionStatus);

fn same_key(left: StatusKey, right: StatusKey) -> (same: bool)
    ensures
        same == (left == right),
{
    let same_generation = match (left.0, right.0) {
        (Some(a), Some(b)) => a.0 == b.0,
        (None, None) => true,
        _ => false,
    };
    same_generation && left.1 == right.1
}

pub open spec fn channel_closed() -> ProviderError {
    ProviderError::ChannelClosed { context: ErrorContext::of(ErrorOperation::LiveFeed) }
}

pub fn live_channel_closed() -> (error: ProviderError)
    ensures
        error == channel_closed(),
{
    ProviderError::ChannelClosed { context: ErrorContext::operation(ErrorOperation::LiveFeed) }
}

/// The two places of an emergency pair.
#[derive(Clone, Copy, Debug, PartialEq, Eq, Structural)]
pub enum EmergencySlot {
    First,
    Second,
}

pub open spec fn both_slots() -> Set<EmergencySlot> {
    set![EmergencySlot::First, EmergencySlot::Second]
}

/// Which slots of the emergency pair are in the queue, and which of those are void.
#[derive(Clone, Copy, Debug, PartialEq, Eq, Structural)]
pub struct EmergencyBarrier {
    first_pending: bool,
    second_pending: bool,
    first_suppressed: bool,
    second_suppressed: bool,
}

impl EmergencyBarrier {
    pub closed spec fn pending(self) -> Set<EmergencySlot> {
        Set::new(
            |slot: EmergencySlot|
                match slot {
                    EmergencySlot::First => self.first_pending,
                    EmergencySlot::Second => self.second_pending,
                },
        )
    }

    pub closed spec fn suppressed(self) -> Set<EmergencySlot> {
        Set::new(
            |slot: EmergencySlot|
                match slot {
                    EmergencySlot::First => self.first_suppressed,
                    EmergencySlot::Second => self.second_suppressed,
                },
        )
    }

    pub fn new() -> (barrier: EmergencyBarrier)
        ensures
            barrier.pending() == Set::<EmergencySlot>::empty(),
            barrier.suppressed() == Set::<EmergencySlot>::empty(),
    {
        let barrier = EmergencyBarrier {
            first_pending: false,
            second_pending: false,
            first_suppressed: false,
            second_suppressed: false,
        };
        assert(barrier.pending() =~= Set::<EmergencySlot>::empty());
        assert(barrier.suppressed() =~= Set::<EmergencySlot>::empty());
        barrier
    }

    /// Takes both slots, where both are free. Whatever was void before is no more.
    pub fn begin_pair(&mut self) -> (begun: Result<(), ProviderError>)
        ensures
            final(self).suppressed() == Set::<EmergencySlot>::empty(),
            if old(self).pending() == Set::<EmergencySlot>::empty() {
                begun == Ok::<(), ProviderError>(()) && final(self).pending() == both_slots()
            } else {
                begun == Err::<(), ProviderError>(
                    ProviderError::Invariant("emergency barrier already active"),
                ) && final(self).pending() == old(self).pending()
            },
    {
        let free = self.is_dequeued();
        self.first_suppressed = false;
        self.second_suppressed = false;
        assert(self.suppressed() =~= Set::<EmergencySlot>::empty());
        assert(self.pending() =~= old(self).pending());
        if !free {
            return Err(ProviderError::Invariant("emergency barrier already active"));
        }
        self.first_pending = true;
        self.second_pending = true;
        assert(self.suppressed() =~= Set::<EmergencySlot>::empty());
        assert(self.pending() =~= both_slots());
        Ok(())
    }

    /// An event has left its slot.
    pub fn dequeued(&mut self, slot: EmergencySlot)
        ensures
            final(self).pending() == old(self).pending().remove(slot),
            final(self).suppressed() == old(self).suppressed(),
    {
        match slot {
            EmergencySlot::First => {
                self.first_pending = false;
            },
            EmergencySlot::Second => {
                self.second_pending = false;
            },
        }
        assert(self.pending() =~= old(self).pending().remove(slot));
        assert(self.suppressed() =~= old(self).suppressed());
    }

    /// Makes void what is in the slots.
    pub fn suppress_pending(&mut self)
        ensures
            final(self).pending() == old(self).pending(),
            final(self).suppressed() == old(self).suppressed().union(old(self).pending()),
    {
        if self.first_pending {
            self.first_suppressed = true;
        }
        if self.second_pending {
            self.second_suppressed = true;
        }
        assert(self.pending() =~= old(self).pending());
        assert(self.suppressed() =~= old(self).suppressed().union(old(self).pending()));
    }

    /// Takes the first slot alone, for the last event of a feed.
    pub fn begin_shutdown(&mut self)
        ensures
            final(self).pending() == set![EmergencySlot::First],
            final(self).suppressed() == Set::<EmergencySlot>::empty(),
    {
        self.first_suppressed = false;
        self.second_suppressed = false;
        self.first_pending = true;
        self.second_pending = false;
        assert(self.pending() =~= set![EmergencySlot::First]);
        assert(self.suppressed() =~= Set::<EmergencySlot>::empty());
    }

    pub fn is_suppressed(&self, slot: EmergencySlot) -> (void: bool)
        ensures
            void == self.suppressed().contains(slot),
    {
        match slot {
            EmergencySlot::First => self.first_suppressed,
            EmergencySlot::Second => self.second_suppressed,
        }
    }

    pub fn is_dequeued(&self) -> (free: bool)
        ensures
            free == (self.pending() == Set::<EmergencySlot>::empty()),
    {
        proof {
            if !self.first_pending && !self.second_pending {
                assert(self.pending() =~= Set::<EmergencySlot>::empty());
            } else if self.first_pending {
                assert(self.pending().contains(EmergencySlot::First));
            } else {
                assert(self.pending().contains(EmergencySlot::Second));
            }
        }
        !self.first_pending && !self.second_pending
    }
}

/// An event in the queue, and what it holds while it is there.
#[derive(Debug, PartialEq)]
pub struct EventEnvelope {
    pub item: MarketEvent,
    pub generation: Option<GapGeneration>,
    pub purge_on_invalidate: bool,
    pub control_key: Option<StatusKey>,
    pub regular_permit: bool,
    pub control_permit: bool,
    pub emergency_slot: Option<EmergencySlot>,
}

impl EventEnvelope {
    pub open spec fn stopped(self) -> bool {
        self.item == (MarketEvent::Status { generation: None, status: ConnectionStatus::Stopped })
    }

    /// Whether an envelope is the last event of a feed.
    pub fn is_stopped(&self) -> (last: bool)
        ensures
            last == self.stopped(),
    {
        match &self.item {
            MarketEvent::Status { generation, status } => generation.is_none() && *status
                == ConnectionStatus::Stopped,
            _ => false,
        }
    }

    /// The envelope of an event that goes the regular way.
    pub open spec fn regular(event: MarketEvent, key: Option<StatusKey>, control: bool) -> EventEnvelope {
        EventEnvelope {
            item: event,
            generation: event.generation_of(),
            purge_on_invalidate: event.purges(),
            control_key: key,
            regular_permit: true,
            control_permit: control,
            emergency_slot: None,
        }
    }

    /// The envelope of an event in an emergency slot: it belongs to no generation.
    pub open spec fn emergency(event: MarketEvent, slot: EmergencySlot) -> EventEnvelope {
        EventEnvelope {
            item: event,
            generation: None,
            purge_on_invalidate: false,
            control_key: None,
            regular_permit: false,
            control_permit: false,
            emergency_slot: Some(slot),
        }
    }
}

/// How many envelopes of a queue are of a kind.
pub open spec fn share(queue: Multiset<EventEnvelope>, kind: spec_fn(EventEnvelope) -> bool) -> nat {
    queue.filter(kind).len()
}

pub open spec fn holds_regular() -> spec_fn(EventEnvelope) -> bool {
    |envelope: EventEnvelope| envelope.regular_permit
}

pub open spec fn holds_control() -> spec_fn(EventEnvelope) -> bool {
    |envelope: EventEnvelope| envelope.control_permit
}

pub open spec fn in_slot(slot: EmergencySlot) -> spec_fn(EventEnvelope) -> bool {
    |envelope: EventEnvelope| envelope.emergency_slot == Some(slot)
}

pub open spec fn has_key(key: StatusKey) -> spec_fn(EventEnvelope) -> bool {
    |envelope: EventEnvelope| envelope.control_key == Some(key)
}

/// A line without the first envelope of those that are like one.
pub open spec fn struck(line: Seq<EventEnvelope>, envelope: EventEnvelope) -> Seq<EventEnvelope> {
    match line.index_of_first(envelope) {
        Some(place) => line.remove(place),
        None => line,
    }
}

/// An event that is no candle and no batch, sent the regular way.
pub open spec fn is_regular_news() -> spec_fn(EventEnvelope) -> bool {
    |envelope: EventEnvelope|
        envelope.item.is_control() && envelope == EventEnvelope::regular(
            envelope.item,
            envelope.item.status_of(),
            true,
        )
}

/// Whether an emergency slot has at most the one envelope that it is taken for.
pub open spec fn slot_kept(
    queue: Multiset<EventEnvelope>,
    pending: Set<EmergencySlot>,
    slot: EmergencySlot,
) -> bool {
    share(queue, in_slot(slot)) <= (if pending.contains(slot) {
        1nat
    } else {
        0nat
    })
}

/// Whether every envelope goes one of the two ways: with a regular permit, or in a slot.
pub open spec fn ways_kept(queue: Multiset<EventEnvelope>) -> bool {
    forall|envelope: EventEnvelope| #[trigger]
        queue.contains(envelope) ==> (envelope.regular_permit <==> envelope.emergency_slot is None)
}

/// Whether every status is noted as often as it is in the queue.
pub open spec fn keys_kept(queue: Multiset<EventEnvelope>, noted: Multiset<StatusKey>) -> bool {
    forall|key: StatusKey| #[trigger] noted.count(key) == share(queue, has_key(key))
}

proof fn lemma_share_grows(
    queue: Multiset<EventEnvelope>,
    envelope: EventEnvelope,
    kind: spec_fn(EventEnvelope) -> bool,
)
    ensures
        share(queue.insert(envelope), kind) == share(queue, kind) + (if kind(envelope) {
            1nat
        } else {
            0nat
        }),
{
    broadcast use vstd::multiset::group_multiset_axioms;

    if kind(envelope) {
        assert(queue.insert(envelope).filter(kind) =~= queue.filter(kind).insert(envelope));
    } else {
        assert(queue.insert(envelope).filter(kind) =~= queue.filter(kind));
    }
}

proof fn lemma_share_shrinks(
    queue: Multiset<EventEnvelope>,
    envelope: EventEnvelope,
    kind: spec_fn(EventEnvelope) -> bool,
)
    requires
        queue.contains(envelope),
    ensures
        share(queue.remove(envelope), kind) == share(queue, kind) - (if kind(envelope) {
            1int
        } else {
            0int
        }),
{
    broadcast use vstd::multiset::group_multiset_axioms;

    assert(queue.remove(envelope).insert(envelope) =~= queue);
    lemma_share_grows(queue.remove(envelope), envelope, kind);
}

/// Why an event could not be put into the queue.
#[derive(Clone, Copy, Debug, PartialEq, Eq, Structural)]
pub enum QueueFault {
    Closed,
    Full,
}

pub fn regular_queue_error(fault: QueueFault) -> (error: ProviderError)
    ensures
        error == (match fault {
            QueueFault::Closed => channel_closed(),
            QueueFault::Full => ProviderError::Invariant(
                "reserved market event channel capacity exhausted",
            ),
        }),
{
    match fault {
        QueueFault::Closed => live_channel_closed(),
        QueueFault::Full => ProviderError::Invariant(
            "reserved market event channel capacity exhausted",
        ),
    }
}

pub fn emergency_queue_error(fault: QueueFault) -> (error: ProviderError)
    ensures
        error == (match fault {
            QueueFault::Closed => channel_closed(),
            QueueFault::Full => ProviderError::Invariant(
                "emergency market event reservation exhausted",
            ),
        }),
{
    match fault {
        QueueFault::Closed => live_channel_closed(),
        QueueFault::Full => ProviderError::Invariant(
            "emergency market event reservation exhausted",
        ),
    }
}

/// What a queue is to do with the event at its head.
#[derive(Clone, Copy, Debug, PartialEq, Eq, Structural)]
pub enum Delivery {
    Deliver,
    Discard,
}

/// The books of one queue.
pub struct EventEmitter {
    regular_capacity: usize,
    control_capacity: usize,
    regular_held: usize,
    control_held: usize,
    invalidated_through: u64,
    connected_through: u64,
    pending_controls: Vec<StatusKey>,
    emergency_barrier: EmergencyBarrier,
    shutdown: bool,
    line: Ghost<Seq<EventEnvelope>>,
}

impl EventEmitter {
    /// The envelopes that were handed out and not struck off since, in the order in which they were
    /// handed out.
    pub closed spec fn line(self) -> Seq<EventEnvelope> {
        self.line@
    }

    /// The same, in no order.
    pub open spec fn queue(self) -> Multiset<EventEnvelope> {
        self.line().to_multiset()
    }

    /// How many regular permits are out that no envelope holds.
    pub open spec fn regular_free(self) -> int {
        self.regular_out() - share(self.queue(), holds_regular())
    }

    pub open spec fn control_free(self) -> int {
        self.control_out() - share(self.queue(), holds_control())
    }

    pub closed spec fn regular_limit(self) -> usize {
        self.regular_capacity
    }

    pub closed spec fn control_limit(self) -> usize {
        self.control_capacity
    }

    /// Regular permits that are out.
    pub closed spec fn regular_out(self) -> usize {
        self.regular_held
    }

    pub closed spec fn control_out(self) -> usize {
        self.control_held
    }

    /// The last generation whose events are void.
    pub closed spec fn invalidated(self) -> u64 {
        self.invalidated_through
    }

    /// The last generation of whose connection the consumer has been told.
    pub closed spec fn connected(self) -> u64 {
        self.connected_through
    }

    /// The statuses that are in the queue.
    pub closed spec fn controls(self) -> Multiset<StatusKey> {
        self.pending_controls@.to_multiset()
    }

    pub closed spec fn barrier(self) -> EmergencyBarrier {
        self.emergency_barrier
    }

    pub closed spec fn closing(self) -> bool {
        self.shutdown
    }

    /// Whether the books are in order: every permit that an envelope holds is out, and no more are out
    /// than there are.
    pub open spec fn well_formed(self) -> bool {
        &&& 0 <= self.regular_free() && self.regular_out() <= self.regular_limit()
        &&& 0 <= self.control_free() && self.control_out() <= self.control_limit()
        &&& slot_kept(self.queue(), self.barrier().pending(), EmergencySlot::First)
        &&& slot_kept(self.queue(), self.barrier().pending(), EmergencySlot::Second)
        &&& ways_kept(self.queue())
        &&& keys_kept(self.queue(), self.controls())
    }

    /// How many places of the queue are spoken for.
    pub open spec fn places(self) -> int {
        self.regular_out() + self.barrier().pending().len()
    }

    /// Whether nothing but what a name says has changed.
    pub open spec fn same_permits(self, other: EventEmitter) -> bool {
        self.regular_limit() == other.regular_limit() && self.control_limit()
            == other.control_limit() && self.regular_out() == other.regular_out()
            && self.control_out() == other.control_out()
    }

    pub open spec fn same_marks(self, other: EventEmitter) -> bool {
        self.invalidated() == other.invalidated() && self.connected() == other.connected()
            && self.closing() == other.closing()
    }

    pub fn new(regular_capacity: usize, control_capacity: usize) -> (emitter: EventEmitter)
        ensures
            emitter.well_formed(),
            emitter.regular_limit() == regular_capacity,
            emitter.control_limit() == control_capacity,
            emitter.regular_out() == 0,
            emitter.control_out() == 0,
            emitter.invalidated() == 0,
            emitter.connected() == 0,
            emitter.controls() == Multiset::<StatusKey>::empty(),
            emitter.barrier().pending() == Set::<EmergencySlot>::empty(),
            emitter.barrier().suppressed() == Set::<EmergencySlot>::empty(),
            !emitter.closing(),
            emitter.line() == Seq::<EventEnvelope>::empty(),
    {
        broadcast use vstd::seq_lib::group_to_multiset_ensures;
        broadcast use vstd::multiset::group_multiset_axioms;

        let emitter = EventEmitter {
            regular_capacity,
            control_capacity,
            regular_held: 0,
            control_held: 0,
            invalidated_through: 0,
            connected_through: 0,
            pending_controls: Vec::new(),
            emergency_barrier: EmergencyBarrier::new(),
            shutdown: false,
            line: Ghost(Seq::empty()),
        };
        assert(emitter.controls() =~= Multiset::<StatusKey>::empty());
        proof {
            let none = emitter.queue();
            assert(none =~= Multiset::<EventEnvelope>::empty());
            assert(none.filter(holds_regular()) =~= none);
            assert(none.filter(holds_control()) =~= none);
            assert(none.filter(in_slot(EmergencySlot::First)) =~= none);
            assert(none.filter(in_slot(EmergencySlot::Second)) =~= none);
            assert forall|key: StatusKey| #[trigger] emitter.controls().count(key) == share(
                none,
                has_key(key),
            ) by {
                assert(none.filter(has_key(key)) =~= none);
            }
        }
        emitter
    }

    /// Whether an event is a status that the queue already holds; such an event is dropped.
    pub fn is_duplicate(&self, event: &MarketEvent) -> (duplicate: bool)
        ensures
            duplicate == (event.status_of() matches Some(key) && self.controls().contains(key)),
    {
        broadcast use vstd::seq_lib::group_to_multiset_ensures;

        match status_key(event) {
            None => false,
            Some(key) => {
                let found = self.position(key);
                proof {
                    if found is None && self.pending_controls@.contains(key) {
                        let i = choose|i: int|
                            0 <= i < self.pending_controls@.len() && self.pending_controls@[i]
                                == key;
                    }
                }
                found.is_some()
            },
        }
    }

    fn position(&self, key: StatusKey) -> (place: Option<usize>)
        ensures
            match place {
                Some(index) => index < self.pending_controls@.len()
                    && self.pending_controls@[index as int] == key,
                None => forall|i: int|
                    0 <= i < self.pending_controls@.len() ==> self.pending_controls@[i] != key,
            },
    {
        let mut index: usize = 0;
        while index < self.pending_controls.len()
            invariant
                index <= self.pending_controls@.len(),
                forall|i: int| 0 <= i < index ==> self.pending_controls@[i] != key,
            decreases self.pending_controls@.len() - index,
        {
            if same_key(self.pending_controls[index], key) {
                return Some(index);
            }
            index += 1;
        }
        None
    }

    /// Whether an event needs a control permit besides the regular one.
    pub fn needs_control_permit(&self, event: &MarketEvent) -> (needed: bool)
        ensures
            needed == event.is_control(),
    {
        is_control_event(event)
    }

    /// Refuses a reservation once the feed is closing.
    pub fn check_open(&self) -> (open: Result<(), ProviderError>)
        ensures
            open == (if self.closing() {
                Err::<(), ProviderError>(channel_closed())
            } else {
                Ok(())
            }),
    {
        if self.shutdown {
            return Err(live_channel_closed());
        }
        Ok(())
    }

    /// Takes a control permit where one is left.
    pub fn acquire_control(&mut self) -> (acquired: bool)
        requires
            old(self).well_formed(),
        ensures
            final(self).well_formed(),
            acquired == (old(self).control_out() < old(self).control_limit()),
            final(self).control_out() == old(self).control_out() + (if acquired {
                1int
            } else {
                0int
            }),
            final(self).regular_out() == old(self).regular_out(),
            final(self).regular_limit() == old(self).regular_limit(),
            final(self).control_limit() == old(self).control_limit(),
            final(self).same_marks(*old(self)),
            final(self).controls() == old(self).controls(),
            final(self).barrier() == old(self).barrier(),
            final(self).line() == old(self).line(),
    {
        if self.control_held < self.control_capacity {
            self.control_held = self.control_held + 1;
            true
        } else {
            false
        }
    }

    /// Takes a regular permit where one is left.
    pub fn acquire_regular(&mut self) -> (acquired: bool)
        requires
            old(self).well_formed(),
        ensures
            final(self).well_formed(),
            acquired == (old(self).regular_out() < old(self).regular_limit()),
            final(self).regular_out() == old(self).regular_out() + (if acquired {
                1int
            } else {
                0int
            }),
            final(self).control_out() == old(self).control_out(),
            final(self).regular_limit() == old(self).regular_limit(),
            final(self).control_limit() == old(self).control_limit(),
            final(self).same_marks(*old(self)),
            final(self).controls() == old(self).controls(),
            final(self).barrier() == old(self).barrier(),
            final(self).line() == old(self).line(),
    {
        if self.regular_held < self.regular_capacity {
            self.regular_held = self.regular_held + 1;
            true
        } else {
            false
        }
    }

    /// Gives permits back that no envelope has taken.
    pub fn release(&mut self, regular: bool, control: bool)
        requires
            old(self).well_formed(),
            regular ==> old(self).regular_free() > 0,
            control ==> old(self).control_free() > 0,
        ensures
            final(self).well_formed(),
            final(self).regular_limit() == old(self).regular_limit(),
            final(self).control_limit() == old(self).control_limit(),
            final(self).regular_out() == old(self).regular_out() - (if regular {
                1int
            } else {
                0int
            }),
            final(self).control_out() == old(self).control_out() - (if control {
                1int
            } else {
                0int
            }),
            final(self).same_marks(*old(self)),
            final(self).controls() == old(self).controls(),
            final(self).barrier() == old(self).barrier(),
            final(self).line() == old(self).line(),
    {
        if regular {
            self.regular_held = self.regular_held - 1;
        }
        if control {
            self.control_held = self.control_held - 1;
        }
    }

    /// The envelope of an event, which takes the permits that are out for it: a control event is noted
    /// as being in the queue. Nothing is sent once the feed is closing.
    pub fn send_regular(&mut self, event: MarketEvent) -> (envelope: Result<
        EventEnvelope,
        ProviderError,
    >)
        requires
            old(self).well_formed(),
            old(self).regular_free() > 0,
            event.is_control() ==> old(self).control_free() > 0,
        ensures
            final(self).well_formed(),
            final(self).same_permits(*old(self)),
            final(self).same_marks(*old(self)),
            final(self).barrier() == old(self).barrier(),
            envelope matches Ok(sealed) ==> final(self).covers(sealed),
            if old(self).closing() {
                &&& envelope == Err::<EventEnvelope, ProviderError>(channel_closed())
                &&& final(self).controls() == old(self).controls()
                &&& final(self).line() == old(self).line()
            } else {
                &&& envelope == Ok::<EventEnvelope, ProviderError>(
                    EventEnvelope::regular(event, event.status_of(), event.is_control()),
                )
                &&& final(self).line() == old(self).line().push(
                    EventEnvelope::regular(event, event.status_of(), event.is_control()),
                )
                &&& final(self).controls() == (match event.status_of() {
                    Some(key) => old(self).controls().insert(key),
                    None => old(self).controls(),
                })
            },
    {
        broadcast use vstd::seq_lib::group_to_multiset_ensures;

        if self.shutdown {
            return Err(live_channel_closed());
        }
        let control_key = status_key(&event);
        if let Some(key) = control_key {
            self.pending_controls.push(key);
        }
        let generation = event_generation(&event);
        let purge_on_invalidate = event_purges_with_generation(&event);
        let control_permit = is_control_event(&event);
        let envelope = EventEnvelope {
            item: event,
            generation,
            purge_on_invalidate,
            control_key,
            regular_permit: true,
            control_permit,
            emergency_slot: None,
        };
        self.line = Ghost(self.line@.push(envelope));
        proof {
            lemma_queue_grows(*old(self), *self, envelope);
        }
        Ok(envelope)
    }

    /// The envelope of an event whose regular permit was reserved beforehand.
    pub fn send_reserved(&mut self, event: MarketEvent) -> (envelope: Result<
        EventEnvelope,
        ProviderError,
    >)
        requires
            old(self).well_formed(),
            old(self).regular_free() > 0,
        ensures
            final(self).well_formed(),
            final(self).same_permits(*old(self)),
            final(self).same_marks(*old(self)),
            final(self).controls() == old(self).controls(),
            final(self).barrier() == old(self).barrier(),
            envelope matches Ok(sealed) ==> final(self).covers(sealed),
            if old(self).closing() {
                &&& envelope == Err::<EventEnvelope, ProviderError>(channel_closed())
                &&& final(self).line() == old(self).line()
            } else {
                &&& envelope == Ok::<EventEnvelope, ProviderError>(
                    EventEnvelope::regular(event, None, false),
                )
                &&& final(self).line() == old(self).line().push(
                    EventEnvelope::regular(event, None, false),
                )
            },
    {
        if self.shutdown {
            return Err(live_channel_closed());
        }
        let generation = event_generation(&event);
        let purge_on_invalidate = event_purges_with_generation(&event);
        let envelope = EventEnvelope {
            item: event,
            generation,
            purge_on_invalidate,
            control_key: None,
            regular_permit: true,
            control_permit: false,
            emergency_slot: None,
        };
        self.line = Ghost(self.line@.push(envelope));
        proof {
            lemma_queue_grows(*old(self), *self, envelope);
        }
        Ok(envelope)
    }

    /// Whether the consumer has been told of a generation's connection, or of a later one's.
    pub fn connected_delivered(&self, generation: GapGeneration) -> (delivered: bool)
        ensures
            delivered == (self.connected() >= generation.0),
    {
        self.connected_through >= generation.0
    }

    /// Makes void what a generation, and any before it, has in the queue.
    pub fn invalidate_generation(&mut self, generation: GapGeneration)
        requires
            old(self).well_formed(),
        ensures
            final(self).well_formed(),
            final(self).same_permits(*old(self)),
            final(self).invalidated() == (if old(self).invalidated() >= generation.0 {
                old(self).invalidated()
            } else {
                generation.0
            }),
            final(self).connected() == old(self).connected(),
            final(self).closing() == old(self).closing(),
            final(self).controls() == old(self).controls(),
            final(self).barrier() == old(self).barrier(),
            final(self).line() == old(self).line(),
    {
        if self.invalidated_through < generation.0 {
            self.invalidated_through = generation.0;
        }
    }

    /// Takes the reserve for a pair of events that cannot wait.
    pub fn queue_emergency_pair(&mut self, first: MarketEvent, second: MarketEvent) -> (pair:
        Result<(EventEnvelope, EventEnvelope), ProviderError>)
        requires
            old(self).well_formed(),
        ensures
            final(self).well_formed(),
            final(self).same_permits(*old(self)),
            final(self).same_marks(*old(self)),
            final(self).controls() == old(self).controls(),
            final(self).barrier().suppressed() == Set::<EmergencySlot>::empty(),
            pair matches Ok((one, other)) ==> final(self).covers(one) && final(self).covers(other),
            if old(self).barrier().pending() == Set::<EmergencySlot>::empty() {
                &&& final(self).barrier().pending() == both_slots()
                &&& pair == Ok::<(EventEnvelope, EventEnvelope), ProviderError>(
                    (
                        EventEnvelope::emergency(first, EmergencySlot::First),
                        EventEnvelope::emergency(second, EmergencySlot::Second),
                    ),
                )
                &&& final(self).line() == old(self).line().push(
                    EventEnvelope::emergency(first, EmergencySlot::First),
                ).push(EventEnvelope::emergency(second, EmergencySlot::Second))
            } else {
                &&& final(self).barrier().pending() == old(self).barrier().pending()
                &&& pair == Err::<(EventEnvelope, EventEnvelope), ProviderError>(
                    ProviderError::Invariant("emergency barrier already active"),
                )
                &&& final(self).line() == old(self).line()
            },
    {
        match self.emergency_barrier.begin_pair() {
            Ok(()) => {},
            Err(error) => {
                return Err(error);
            },
        }
        let ghost begun = *self;
        let first = EventEmitter::emergency_envelope(first, EmergencySlot::First);
        self.line = Ghost(self.line@.push(first));
        proof {
            lemma_queue_grows(begun, *self, first);
        }
        let ghost half = *self;
        let second = EventEmitter::emergency_envelope(second, EmergencySlot::Second);
        self.line = Ghost(self.line@.push(second));
        proof {
            lemma_queue_grows(half, *self, second);
            vstd::multiset::lemma_insert_containment(half.queue(), second, first);
            assert(self.queue() == half.queue().insert(second));
        }
        Ok((first, second))
    }

    fn emergency_envelope(event: MarketEvent, slot: EmergencySlot) -> (envelope: EventEnvelope)
        ensures
            envelope == EventEnvelope::emergency(event, slot),
    {
        EventEnvelope {
            item: event,
            generation: None,
            purge_on_invalidate: false,
            control_key: None,
            regular_permit: false,
            control_permit: false,
            emergency_slot: Some(slot),
        }
    }

    /// Makes way for a terminal pair: what is in the reserve is void. The pair can be queued once
    /// the reserve is empty.
    pub fn begin_terminal_pair(&mut self)
        requires
            old(self).well_formed(),
        ensures
            final(self).well_formed(),
            final(self).same_permits(*old(self)),
            final(self).same_marks(*old(self)),
            final(self).controls() == old(self).controls(),
            final(self).line() == old(self).line(),
            final(self).barrier().pending() == old(self).barrier().pending(),
            final(self).barrier().suppressed() == old(self).barrier().suppressed().union(
                old(self).barrier().pending(),
            ),
    {
        self.emergency_barrier.suppress_pending();
    }

    pub fn reserve_is_empty(&self) -> (empty: bool)
        ensures
            empty == (self.barrier().pending() == Set::<EmergencySlot>::empty()),
    {
        self.emergency_barrier.is_dequeued()
    }

    /// Begins to close a feed: everything that belongs to a generation is void, and so is what is in
    /// the reserve. Says whether the feed was not closing already; if it was, nothing changes.
    pub fn begin_shutdown(&mut self) -> (begun: bool)
        requires
            old(self).well_formed(),
        ensures
            final(self).well_formed(),
            final(self).same_permits(*old(self)),
            begun == !old(self).closing(),
            final(self).closing(),
            final(self).connected() == old(self).connected(),
            final(self).controls() == old(self).controls(),
            final(self).line() == old(self).line(),
            final(self).barrier().pending() == old(self).barrier().pending(),
            if begun {
                final(self).invalidated() == u64::MAX && final(self).barrier().suppressed() == old(self).barrier().suppressed().union(old(self).barrier().pending())
            } else {
                final(self).invalidated() == old(self).invalidated()
                    && final(self).barrier().suppressed() == old(self).barrier().suppressed()
            },
    {
        if self.shutdown {
            return false;
        }
        self.shutdown = true;
        self.invalidated_through = u64::MAX;
        self.emergency_barrier.suppress_pending();
        true
    }

    /// The last event of a feed, in the first slot of the reserve, once the reserve is empty.
    pub fn finish_shutdown(&mut self) -> (envelope: EventEnvelope)
        requires
            old(self).well_formed(),
            old(self).barrier().pending() == Set::<EmergencySlot>::empty(),
        ensures
            final(self).covers(envelope),
            final(self).line() == old(self).line().push(envelope),
            final(self).well_formed(),
            final(self).same_permits(*old(self)),
            final(self).same_marks(*old(self)),
            final(self).controls() == old(self).controls(),
            final(self).barrier().pending() == set![EmergencySlot::First],
            final(self).barrier().suppressed() == Set::<EmergencySlot>::empty(),
            envelope == EventEnvelope::emergency(
                MarketEvent::Status { generation: None, status: ConnectionStatus::Stopped },
                EmergencySlot::First,
            ),
            envelope.stopped(),
    {
        self.emergency_barrier.begin_shutdown();
        let ghost begun = *self;
        let envelope = EventEmitter::emergency_envelope(
            MarketEvent::Status { generation: None, status: ConnectionStatus::Stopped },
            EmergencySlot::First,
        );
        self.line = Ghost(self.line@.push(envelope));
        proof {
            lemma_queue_grows(begun, *self, envelope);
        }
        envelope
    }

    /// What the queue is to do with an envelope: a cancelled feed delivers its last event alone, and
    /// no feed delivers what is void.
    pub open spec fn delivery(self, envelope: EventEnvelope, cancelled: bool) -> Delivery {
        if cancelled && !envelope.stopped() {
            Delivery::Discard
        } else if envelope.purge_on_invalidate && (envelope.generation matches Some(generation)
            && generation.0 <= self.invalidated()) {
            Delivery::Discard
        } else if envelope.emergency_slot matches Some(slot)
            && self.barrier().suppressed().contains(slot) {
            Delivery::Discard
        } else {
            Delivery::Deliver
        }
    }

    pub fn classify(&self, envelope: &EventEnvelope, cancelled: bool) -> (delivery: Delivery)
        ensures
            delivery == self.delivery(*envelope, cancelled),
    {
        if cancelled && !envelope.is_stopped() {
            return Delivery::Discard;
        }
        let invalidated = envelope.purge_on_invalidate && match envelope.generation {
            Some(generation) => generation.0 <= self.invalidated_through,
            None => false,
        };
        let suppressed = match envelope.emergency_slot {
            Some(slot) => self.emergency_barrier.is_suppressed(slot),
            None => false,
        };
        if invalidated || suppressed {
            return Delivery::Discard;
        }
        Delivery::Deliver
    }

    /// Whether an envelope is on the books.
    pub open spec fn covers(self, envelope: EventEnvelope) -> bool {
        self.queue().contains(envelope)
    }

    /// Strikes an envelope off the books: its permits come back, its status is no longer pending,
    /// its slot is free.
    pub fn discard(&mut self, envelope: &EventEnvelope)
        requires
            old(self).well_formed(),
            old(self).covers(*envelope),
        ensures
            final(self).well_formed(),
            final(self).regular_limit() == old(self).regular_limit(),
            final(self).control_limit() == old(self).control_limit(),
            final(self).regular_out() == old(self).regular_out() - (if envelope.regular_permit {
                1int
            } else {
                0int
            }),
            final(self).control_out() == old(self).control_out() - (if envelope.control_permit {
                1int
            } else {
                0int
            }),
            final(self).same_marks(*old(self)),
            final(self).line() == struck(old(self).line(), *envelope),
            final(self).queue() == old(self).queue().remove(*envelope),
            final(self).controls() == (match envelope.control_key {
                Some(key) => old(self).controls().remove(key),
                None => old(self).controls(),
            }),
            final(self).barrier().suppressed() == old(self).barrier().suppressed(),
            final(self).barrier().pending() == (match envelope.emergency_slot {
                Some(slot) => old(self).barrier().pending().remove(slot),
                None => old(self).barrier().pending(),
            }),
    {
        broadcast use vstd::seq_lib::group_to_multiset_ensures;

        if let Some(key) = envelope.control_key {
            let ghost before = self.pending_controls@;
            match self.position(key) {
                Some(index) => {
                    let _ = self.pending_controls.remove(index);
                    assert(self.pending_controls@ == before.remove(index as int));
                    assert(self.controls() =~= before.to_multiset().remove(key));
                },
                None => {
                    assert(!before.contains(key));
                    assert(before.to_multiset().count(key) == 0);
                    assert(before.to_multiset().remove(key) =~= before.to_multiset());
                },
            }
        }
        if let Some(slot) = envelope.emergency_slot {
            self.emergency_barrier.dequeued(slot);
        }
        self.line = Ghost(struck(self.line@, *envelope));
        proof {
            lemma_queue_shrinks(*old(self), *self, *envelope);
        }
        self.release(envelope.regular_permit, envelope.control_permit);
    }

    /// Hands an envelope's event out, and strikes the envelope off the books. The news of a
    /// connection is noted.
    pub fn deliver(&mut self, envelope: EventEnvelope) -> (item: MarketEvent)
        requires
            old(self).well_formed(),
            old(self).covers(envelope),
        ensures
            final(self).well_formed(),
            item == envelope.item,
            final(self).line() == struck(old(self).line(), envelope),
            final(self).queue() == old(self).queue().remove(envelope),
            final(self).regular_limit() == old(self).regular_limit(),
            final(self).control_limit() == old(self).control_limit(),
            final(self).regular_out() == old(self).regular_out() - (if envelope.regular_permit {
                1int
            } else {
                0int
            }),
            final(self).control_out() == old(self).control_out() - (if envelope.control_permit {
                1int
            } else {
                0int
            }),
            final(self).invalidated() == old(self).invalidated(),
            final(self).closing() == old(self).closing(),
            final(self).connected() == (match envelope.item {
                MarketEvent::Status {
                    generation: Some(generation),
                    status: ConnectionStatus::Connected,
                } => if old(self).connected() >= generation.0 {
                    old(self).connected()
                } else {
                    generation.0
                },
                _ => old(self).connected(),
            }),
            final(self).controls() == (match envelope.control_key {
                Some(key) => old(self).controls().remove(key),
                None => old(self).controls(),
            }),
            final(self).barrier().suppressed() == old(self).barrier().suppressed(),
            final(self).barrier().pending() == (match envelope.emergency_slot {
                Some(slot) => old(self).barrier().pending().remove(slot),
                None => old(self).barrier().pending(),
            }),
    {
        self.discard(&envelope);
        if let MarketEvent::Status { generation, status } = &envelope.item {
            if *status == ConnectionStatus::Connected {
                if let Some(generation) = generation {
                    if self.connected_through < generation.0 {
                        self.connected_through = generation.0;
                    }
                }
            }
        }
        envelope.item
    }
}

/// How the books change with an envelope that takes free permits, or a slot that was taken for it.
proof fn lemma_queue_grows(before: EventEmitter, after: EventEmitter, envelope: EventEnvelope)
    requires
        after.line() == before.line().push(envelope),
        ways_kept(before.queue()),
        keys_kept(before.queue(), before.controls()),
        envelope.regular_permit <==> envelope.emergency_slot is None,
        after.controls() == (match envelope.control_key {
            Some(key) => before.controls().insert(key),
            None => before.controls(),
        }),
    ensures
        after.queue() == before.queue().insert(envelope),
        after.covers(envelope),
        ways_kept(after.queue()),
        keys_kept(after.queue(), after.controls()),
        share(after.queue(), holds_regular()) == share(before.queue(), holds_regular()) + (
        if envelope.regular_permit {
            1nat
        } else {
            0nat
        }),
        share(after.queue(), holds_control()) == share(before.queue(), holds_control()) + (
        if envelope.control_permit {
            1nat
        } else {
            0nat
        }),
        forall|slot: EmergencySlot|
            share(after.queue(), #[trigger] in_slot(slot)) == share(before.queue(), in_slot(slot))
                + (if envelope.emergency_slot == Some(slot) {
                1nat
            } else {
                0nat
            }),
{
    broadcast use vstd::multiset::group_multiset_axioms;
    broadcast use vstd::seq_lib::group_to_multiset_ensures;

    assert(after.queue() == before.queue().insert(envelope));
    lemma_share_grows(before.queue(), envelope, holds_regular());
    lemma_share_grows(before.queue(), envelope, holds_control());
    assert forall|slot: EmergencySlot|
        share(after.queue(), #[trigger] in_slot(slot)) == share(before.queue(), in_slot(slot)) + (
        if envelope.emergency_slot == Some(slot) {
            1nat
        } else {
            0nat
        }) by {
        lemma_share_grows(before.queue(), envelope, in_slot(slot));
    }
    assert forall|key: StatusKey| #[trigger] after.controls().count(key) == share(
        after.queue(),
        has_key(key),
    ) by {
        assert(before.controls().count(key) == share(before.queue(), has_key(key)));
        lemma_share_grows(before.queue(), envelope, has_key(key));
    }
    assert forall|other: EventEnvelope| #[trigger] after.queue().contains(other) implies (
    other.regular_permit <==> other.emergency_slot is None) by {
        vstd::multiset::lemma_insert_containment(before.queue(), envelope, other);
        assert(other == envelope || before.queue().contains(other));
    }
}

/// How the books change with an envelope that is struck off, before its permits come back.
proof fn lemma_queue_shrinks(before: EventEmitter, after: EventEmitter, envelope: EventEnvelope)
    requires
        before.covers(envelope),
        after.line() == struck(before.line(), envelope),
        ways_kept(before.queue()),
        keys_kept(before.queue(), before.controls()),
        after.controls() == (match envelope.control_key {
            Some(key) => before.controls().remove(key),
            None => before.controls(),
        }),
    ensures
        after.queue() == before.queue().remove(envelope),
        ways_kept(after.queue()),
        keys_kept(after.queue(), after.controls()),
        share(after.queue(), holds_regular()) == share(before.queue(), holds_regular()) - (
        if envelope.regular_permit {
            1int
        } else {
            0int
        }),
        share(after.queue(), holds_control()) == share(before.queue(), holds_control()) - (
        if envelope.control_permit {
            1int
        } else {
            0int
        }),
        forall|slot: EmergencySlot|
            share(after.queue(), #[trigger] in_slot(slot)) == share(before.queue(), in_slot(slot))
                - (if envelope.emergency_slot == Some(slot) {
                1int
            } else {
                0int
            }),
{
    broadcast use vstd::multiset::group_multiset_axioms;
    broadcast use vstd::seq_lib::group_to_multiset_ensures;

    before.line().index_of_first_ensures(envelope);
    assert(after.queue() == before.queue().remove(envelope));
    lemma_share_shrinks(before.queue(), envelope, holds_regular());
    lemma_share_shrinks(before.queue(), envelope, holds_control());
    assert forall|slot: EmergencySlot|
        share(after.queue(), #[trigger] in_slot(slot)) == share(before.queue(), in_slot(slot)) - (
        if envelope.emergency_slot == Some(slot) {
            1int
        } else {
            0int
        }) by {
        lemma_share_shrinks(before.queue(), envelope, in_slot(slot));
    }
    assert forall|key: StatusKey| #[trigger] after.controls().count(key) == share(
        after.queue(),
        has_key(key),
    ) by {
        assert(before.controls().count(key) == share(before.queue(), has_key(key)));
        lemma_share_shrinks(before.queue(), envelope, has_key(key));
    }
    assert forall|other: EventEnvelope| #[trigger] after.queue().contains(other) implies (
    other.regular_permit <==> other.emergency_slot is None) by {
        assert(before.queue().contains(other));
    }
}

/// A queue that holds the regular capacity and an emergency pair always has room for every envelope
/// that is on its books.
pub proof fn law_reserved_capacity_suffices(emitter: EventEmitter)
    requires
        emitter.well_formed(),
    ensures
        emitter.queue().len() <= emitter.places(),
        emitter.places() <= emitter.regular_limit()
            + crate::provider::runtime::config::EMERGENCY_CONTROL_CAPACITY,
{
    lemma_envelopes_have_places(emitter);
    let pending = emitter.barrier().pending();
    assert(pending.subset_of(both_slots()));
    assert(both_slots().len() == 2);
    vstd::set_lib::lemma_len_subset(pending, both_slots());
}

proof fn lemma_envelopes_have_places(emitter: EventEmitter)
    requires
        emitter.well_formed(),
    ensures
        emitter.queue().len() <= emitter.places(),
{
    broadcast use vstd::multiset::group_multiset_axioms;

    let queue = emitter.queue();
    let regular = queue.filter(holds_regular());
    let first = queue.filter(in_slot(EmergencySlot::First));
    let second = queue.filter(in_slot(EmergencySlot::Second));
    assert forall|envelope: EventEnvelope| #[trigger] queue.count(envelope) == regular.add(
        first,
    ).add(second).count(envelope) by {
        if queue.count(envelope) > 0 {
            assert(queue.contains(envelope));
            assert(envelope.emergency_slot is None || envelope.emergency_slot == Some(
                EmergencySlot::First,
            ) || envelope.emergency_slot == Some(EmergencySlot::Second));
        }
        assert(regular.count(envelope) <= queue.count(envelope));
        assert(first.count(envelope) <= queue.count(envelope));
        assert(second.count(envelope) <= queue.count(envelope));
    }
    assert(queue =~= regular.add(first).add(second));
    let pending = emitter.barrier().pending();
    assert(pending.subset_of(both_slots()));
    vstd::set_lib::lemma_len_subset(pending, both_slots());
    if pending.contains(EmergencySlot::First) {
        assert(pending.remove(EmergencySlot::First).len() == pending.len() - 1);
        if pending.contains(EmergencySlot::Second) {
            assert(pending.remove(EmergencySlot::First).contains(EmergencySlot::Second));
            assert(pending.remove(EmergencySlot::First).remove(EmergencySlot::Second).len()
                == pending.len() - 2);
        }
    } else if pending.contains(EmergencySlot::Second) {
        assert(pending.remove(EmergencySlot::Second).len() == pending.len() - 1);
    }
}

proof fn lemma_narrower_share(
    queue: Multiset<EventEnvelope>,
    narrow: spec_fn(EventEnvelope) -> bool,
    wide: spec_fn(EventEnvelope) -> bool,
)
    requires
        forall|envelope: EventEnvelope| #[trigger] narrow(envelope) ==> wide(envelope),
    ensures
        share(queue, narrow) <= share(queue, wide),
{
    broadcast use vstd::multiset::group_multiset_axioms;

    let part = queue.filter(narrow);
    let whole = queue.filter(wide);
    assert(part.subset_of(whole));
    assert(whole.sub(part).len() == whole.len() - part.len());
}

/// At all times at most the regular capacity of regular events is undelivered, and of those sent the
/// regular way at most the control capacity are other than candles and batches.
pub proof fn law_undelivered_events_are_bounded(emitter: EventEmitter)
    requires
        emitter.well_formed(),
    ensures
        share(emitter.queue(), holds_regular()) <= emitter.regular_limit(),
        share(emitter.queue(), holds_control()) <= emitter.control_limit(),
        share(emitter.queue(), is_regular_news()) <= emitter.control_limit(),
{
    lemma_narrower_share(emitter.queue(), is_regular_news(), holds_control());
}

/// An event that is sent stands last in the line, behind all that stood there, in their order. One
/// that is struck off leaves the others in their order.
pub proof fn law_line_keeps_its_order(
    line: Seq<EventEnvelope>,
    sent: EventEnvelope,
    gone: EventEnvelope,
    earlier: int,
    later: int,
)
    ensures
        line.push(sent).last() == sent,
        line.push(sent).drop_last() == line,
        line.index_of_first(gone) matches Some(place) ==> (0 <= earlier < later < line.len()
            && earlier != place && later != place ==> {
            let shift = |at: int|
                if at > place {
                    at - 1
                } else {
                    at
                };
            &&& struck(line, gone)[shift(earlier)] == line[earlier]
            &&& struck(line, gone)[shift(later)] == line[later]
            &&& shift(earlier) < shift(later)
        }),
{
    line.index_of_first_ensures(gone);
    assert(line.push(sent).drop_last() =~= line);
}

/// A status is dropped as a duplicate exactly where the queue holds one like it.
pub proof fn law_duplicates_are_in_the_queue(emitter: EventEmitter, key: StatusKey)
    requires
        emitter.well_formed(),
    ensures
        emitter.controls().contains(key) <==> exists|envelope: EventEnvelope| #[trigger]
            emitter.queue().contains(envelope) && envelope.control_key == Some(key),
{
    broadcast use vstd::multiset::group_multiset_axioms;

    let keyed = emitter.queue().filter(has_key(key));
    assert(emitter.controls().count(key) == share(emitter.queue(), has_key(key)));
    if emitter.controls().contains(key) {
        assert(keyed.len() > 0);
        let envelope = keyed.choose();
        assert(keyed.count(envelope) > 0);
        assert(emitter.queue().contains(envelope) && envelope.control_key == Some(key));
    }
    if exists|envelope: EventEnvelope| #[trigger]
        emitter.queue().contains(envelope) && envelope.control_key == Some(key) {
        let envelope = choose|envelope: EventEnvelope| #[trigger]
            emitter.queue().contains(envelope) && envelope.control_key == Some(key);
        assert(keyed.count(envelope) > 0);
    }
}

/// Once a generation is void, no event that it alone gave meaning to is delivered.
pub proof fn law_void_generation_is_silent(
    emitter: EventEmitter,
    event: MarketEvent,
    key: Option<StatusKey>,
    control: bool,
    cancelled: bool,
)
    requires
        event.purges(),
        event.generation_of() matches Some(generation) && generation.0 <= emitter.invalidated(),
    ensures
        emitter.delivery(EventEnvelope::regular(event, key, control), cancelled)
            == Delivery::Discard,
{
}

/// An event that purges belongs to a generation, so a feed that is closing delivers none.
pub proof fn law_closing_feed_purges_all(
    emitter: EventEmitter,
    event: MarketEvent,
    key: Option<StatusKey>,
    control: bool,
    cancelled: bool,
)
    requires
        emitter.invalidated() == u64::MAX,
        event.purges(),
    ensures
        emitter.delivery(EventEnvelope::regular(event, key, control), cancelled)
            == Delivery::Discard,
{
}

/// A cancelled feed delivers its last event and nothing else.
pub proof fn law_cancelled_feed_delivers_only_its_end(
    emitter: EventEmitter,
    envelope: EventEnvelope,
)
    ensures
        emitter.delivery(envelope, true) == Delivery::Deliver ==> envelope.stopped(),
{
}

/// What an envelope says of its event: one sent the regular way keeps the event's generation, is void
/// with it where the event is, and holds a regular permit and no slot; one in a slot holds the slot
/// alone and belongs to no generation.
pub proof fn law_envelopes_hold_their_events(
    event: MarketEvent,
    key: Option<StatusKey>,
    control: bool,
    slot: EmergencySlot,
)
    ensures
        ({
            let sent = EventEnvelope::regular(event, key, control);
            &&& sent.item == event && sent.generation == event.generation_of()
            &&& sent.purge_on_invalidate == event.purges()
            &&& sent.regular_permit && sent.control_permit == control
            &&& sent.emergency_slot is None && sent.control_key == key
        }),
        ({
            let urgent = EventEnvelope::emergency(event, slot);
            &&& urgent.item == event && urgent.emergency_slot == Some(slot)
            &&& urgent.generation is None && !urgent.purge_on_invalidate
            &&& !urgent.regular_permit && !urgent.control_permit && urgent.control_key is None
        }),
        EventEnvelope::emergency(event, slot).stopped() <==> (event matches MarketEvent::Status {
            generation,
            status,
        } && generation is None && status == ConnectionStatus::Stopped),
        channel_closed() matches ProviderError::ChannelClosed { context } && context.operation
            == ErrorOperation::LiveFeed && context.instrument is None,
{
}

/// What a feed that is not cancelled delivers: a candle or a replay exactly where its generation is
/// later than all that are void; an error or the news of a wait always; and what is in a slot unless
/// it was made void there. A cancelled feed delivers its end where that is not void.
pub proof fn law_what_is_delivered(
    emitter: EventEmitter,
    event: MarketEvent,
    key: Option<StatusKey>,
    control: bool,
    slot: EmergencySlot,
)
    ensures
        ({
            let sent = emitter.delivery(EventEnvelope::regular(event, key, control), false);
            let urgent = emitter.delivery(EventEnvelope::emergency(event, slot), false);
            &&& event matches MarketEvent::Candle { generation, .. } ==> (sent == Delivery::Deliver
                <==> generation.0 > emitter.invalidated())
            &&& event matches MarketEvent::ReconcileBatch { generation, .. } ==> (sent
                == Delivery::Deliver <==> generation.0 > emitter.invalidated())
            &&& event matches MarketEvent::Status { generation, status } ==> (status
                == ConnectionStatus::Connected && generation is Some ==> (sent == Delivery::Deliver
                <==> (generation->0).0 > emitter.invalidated()))
            &&& event is RecoverableError || event is TerminalError ==> sent == Delivery::Deliver
            &&& event matches MarketEvent::Status { generation, status } ==> (status
                == ConnectionStatus::Backoff || status == ConnectionStatus::Stopped || generation
                is None ==> sent == Delivery::Deliver)
            &&& urgent == Delivery::Deliver <==> !emitter.barrier().suppressed().contains(slot)
            &&& event == (MarketEvent::Status {
                generation: None,
                status: ConnectionStatus::Stopped,
            }) ==> emitter.delivery(EventEnvelope::emergency(event, slot), true) == urgent
        }),
{
}

} // verus!
