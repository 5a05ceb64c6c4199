//! Provider-neutral market-data interfaces: watermarks, acknowledgements, completion, rate gate.
use vstd::prelude::*;

use crate::error::ProviderError;
use crate::model::{GapGeneration, ReplayRevision};

pub mod binance;
pub mod binance_laws;
pub mod hyperliquid;
pub mod hyperliquid_laws;
pub mod okx;
pub mod okx_laws;
pub mod runtime;
pub mod test_transport;

pub use crate::model::{ProcessBlocker, RateGateState};

verus! {

/// The opening time through which a consumer has accepted candles, where it has any.
pub type AcceptedWatermark = Option<i64>;

#[derive(Clone, Copy, Debug, PartialEq, Eq, Structural)]
pub enum WatermarkUpdate {
    Advanced,
    Unchanged,
}

#[derive(Clone, Copy, Debug, PartialEq, Eq, Structural)]
pub enum AcceptedWatermarkUpdateError {
    Closed,
    Regression,
}

#[derive(Clone, Copy, Debug, PartialEq, Eq, Structural)]
pub struct AcceptedWatermarkClosed;

/// Whether one watermark is before another; none is before any.
pub open spec fn watermark_before(left: AcceptedWatermark, right: AcceptedWatermark) -> bool {
    match (left, right) {
        (Some(a), Some(b)) => a < b,
        (None, Some(_)) => true,
        (_, None) => false,
    }
}

/// What comes of offering a watermark where `current` stands and nobody or somebody listens.
pub open spec fn watermark_update(
    current: AcceptedWatermark,
    closed: bool,
    offered: AcceptedWatermark,
) -> Result<WatermarkUpdate, AcceptedWatermarkUpdateError> {
    if closed {
        Err(AcceptedWatermarkUpdateError::Closed)
    } else if watermark_before(offered, current) {
        Err(AcceptedWatermarkUpdateError::Regression)
    } else if offered == current {
        Ok(WatermarkUpdate::Unchanged)
    } else {
        Ok(WatermarkUpdate::Advanced)
    }
}

/// The watermark that stands once one was offered.
pub open spec fn watermark_after(
    current: AcceptedWatermark,
    closed: bool,
    offered: AcceptedWatermark,
) -> AcceptedWatermark {
    if watermark_update(current, closed, offered) is Ok {
        offered
    } else {
        current
    }
}

/// Where a consumer says how far it has accepted candles.
#[derive(Clone, Copy, Debug, PartialEq, Eq, Structural)]
pub struct AcceptedWatermarkSender {
    accepted: AcceptedWatermark,
    closed: bool,
}

impl AcceptedWatermarkSender {
    pub closed spec fn standing(self) -> AcceptedWatermark {
        self.accepted
    }

    /// Whether nobody listens any more.
    pub closed spec fn abandoned(self) -> bool {
        self.closed
    }

    pub fn new(initial: AcceptedWatermark) -> (sender: AcceptedWatermarkSender)
        ensures
            sender.standing() == initial,
            !sender.abandoned(),
    {
        AcceptedWatermarkSender { accepted: initial, closed: false }
    }

    /// Takes note that nobody listens any more.
    pub fn close(&mut self)
        ensures
            final(self).abandoned(),
            final(self).standing() == old(self).standing(),
    {
        self.closed = true;
    }

    /// The watermark that stands.
    pub fn current(&self) -> (watermark: AcceptedWatermark)
        ensures
            watermark == self.standing(),
    {
        self.accepted
    }

    /// Offers a watermark: it may stand still or move on, and never moves back.
    pub fn publish(&mut self, value: AcceptedWatermark) -> (update: Result<
        WatermarkUpdate,
        AcceptedWatermarkUpdateError,
    >)
        ensures
            update == watermark_update(old(self).standing(), old(self).abandoned(), value),
            final(self).standing() == watermark_after(
                old(self).standing(),
                old(self).abandoned(),
                value,
            ),
            final(self).abandoned() == old(self).abandoned(),
            !watermark_before(final(self).standing(), old(self).standing()),
    {
        if self.closed {
            return Err(AcceptedWatermarkUpdateError::Closed);
        }
        let (before, same): (bool, bool) = match (value, self.accepted) {
            (Some(a), Some(b)) => (a < b, a == b),
            (None, Some(_)) => (true, false),
            (Some(_), None) => (false, false),
            (None, None) => (false, true),
        };
        if before {
            return Err(AcceptedWatermarkUpdateError::Regression);
        }
        if same {
            return Ok(WatermarkUpdate::Unchanged);
        }
        self.accepted = value;
        Ok(WatermarkUpdate::Advanced)
    }
}

/// A consumer's word that it has taken a replay over.
#[derive(Clone, Copy, Debug, PartialEq, Eq, Structural)]
pub struct ReconcileAck {
    pub generation: GapGeneration,
    pub revision: ReplayRevision,
    pub through: i64,
}

/// The replay that a producer waits to see acknowledged.
#[derive(Clone, Copy, Debug, PartialEq, Eq, Structural)]
pub struct ReconcileExpectation {
    pub generation: GapGeneration,
    pub revision: ReplayRevision,
    pub target_open_time: i64,
}

#[derive(Clone, Copy, Debug, PartialEq, Eq, Structural)]
pub enum ExpectationUpdate {
    Registered,
    Unchanged,
}

#[derive(Clone, Copy, Debug, PartialEq, Eq, Structural)]
pub enum ReconcileAckUpdate {
    Published,
    Unchanged,
}

#[derive(Clone, Copy, Debug, PartialEq, Eq, Structural)]
pub enum ReconcileAckPublishError {
    Closed,
    NoExpectation,
    Stale,
    UnexpectedKey,
    ConflictingThrough,
    ThroughBeforeTarget,
}

#[derive(Clone, Copy, Debug, PartialEq, Eq, Structural)]
pub struct ReconcileAckClosed;

#[derive(Clone, Copy, Debug, PartialEq, Eq, Structural)]
pub enum ReconcileExpectationError {
    Closed,
    Regression,
    Conflict,
}

/// Whether one replay comes before another: an earlier generation, or an earlier revision of the
/// same.
pub open spec fn key_before(
    generation: GapGeneration,
    revision: ReplayRevision,
    other_generation: GapGeneration,
    other_revision: ReplayRevision,
) -> bool {
    generation.0 < other_generation.0 || (generation.0 == other_generation.0 && revision.0
        < other_revision.0)
}

fn is_key_before(
    generation: GapGeneration,
    revision: ReplayRevision,
    other_generation: GapGeneration,
    other_revision: ReplayRevision,
) -> (before: bool)
    ensures
        before == key_before(generation, revision, other_generation, other_revision),
{
    generation.0 < other_generation.0 || (generation.0 == other_generation.0 && revision.0
        < other_revision.0)
}

/// Whether an acknowledgement is the one that an expectation waits for.
pub open spec fn meets(ack: ReconcileAck, expectation: ReconcileExpectation) -> bool {
    ack.generation == expectation.generation && ack.revision == expectation.revision
        && expectation.target_open_time <= ack.through
}

/// What the two ends of an acknowledgement channel share, and how far its one receiver has read.
pub struct AckState {
    expectation: Option<ReconcileExpectation>,
    ack: Option<ReconcileAck>,
    ack_version: u64,
    seen_ack_version: u64,
    sender_count: usize,
    receiver_open: bool,
}

impl AckState {
    pub closed spec fn expected(self) -> Option<ReconcileExpectation> {
        self.expectation
    }

    pub closed spec fn acknowledged(self) -> Option<ReconcileAck> {
        self.ack
    }

    /// Whether the receiver has an acknowledgement before it that it has not read.
    pub closed spec fn unread(self) -> bool {
        self.ack_version != self.seen_ack_version
    }

    pub closed spec fn senders(self) -> usize {
        self.sender_count
    }

    pub closed spec fn listening(self) -> bool {
        self.receiver_open
    }

    /// What is acknowledged is what is expected, and nothing unread is without substance.
    pub open spec fn well_formed(self) -> bool {
        &&& self.acknowledged() matches Some(ack) ==> self.expected() matches Some(expected)
            && meets(ack, expected)
        &&& self.acknowledged() is None ==> !self.unread()
    }

    /// A fresh channel, with one sender and its receiver.
    pub fn new() -> (state: AckState)
        ensures
            state.well_formed(),
            state.expected() is None,
            state.acknowledged() is None,
            !state.unread(),
            state.senders() == 1,
            state.listening(),
    {
        AckState {
            expectation: None,
            ack: None,
            ack_version: 0,
            seen_ack_version: 0,
            sender_count: 1,
            receiver_open: true,
        }
    }

    pub open spec fn same_ends(self, other: AckState) -> bool {
        self.senders() == other.senders() && self.listening() == other.listening()
    }

    pub open spec fn same_messages(self, other: AckState) -> bool {
        self.expected() == other.expected() && self.acknowledged() == other.acknowledged()
            && self.unread() == other.unread()
    }

    /// One sender more.
    pub fn add_sender(&mut self)
        requires
            old(self).well_formed(),
            old(self).senders() < usize::MAX,
        ensures
            final(self).well_formed(),
            final(self).same_messages(*old(self)),
            final(self).listening() == old(self).listening(),
            final(self).senders() == old(self).senders() + 1,
    {
        self.sender_count = self.sender_count + 1;
    }

    /// One sender less; says whether it was the last.
    pub fn remove_sender(&mut self) -> (closed: bool)
        requires
            old(self).well_formed(),
            old(self).senders() > 0,
        ensures
            final(self).well_formed(),
            final(self).same_messages(*old(self)),
            final(self).listening() == old(self).listening(),
            final(self).senders() == old(self).senders() - 1,
            closed == (final(self).senders() == 0),
    {
        self.sender_count = self.sender_count - 1;
        self.sender_count == 0
    }

    /// The receiver is gone.
    pub fn close_receiver(&mut self)
        requires
            old(self).well_formed(),
        ensures
            final(self).well_formed(),
            final(self).same_messages(*old(self)),
            final(self).senders() == old(self).senders(),
            !final(self).listening(),
    {
        self.receiver_open = false;
    }

    /// What comes of publishing an acknowledgement.
    pub open spec fn publish_result(self, value: ReconcileAck) -> Result<
        ReconcileAckUpdate,
        ReconcileAckPublishError,
    > {
        if !self.listening() {
            Err(ReconcileAckPublishError::Closed)
        } else {
            match self.expected() {
                None => Err(ReconcileAckPublishError::NoExpectation),
                Some(expected) => if key_before(
                    value.generation,
                    value.revision,
                    expected.generation,
                    expected.revision,
                ) {
                    Err(ReconcileAckPublishError::Stale)
                } else if value.generation != expected.generation || value.revision
                    != expected.revision {
                    Err(ReconcileAckPublishError::UnexpectedKey)
                } else if value.through < expected.target_open_time {
                    Err(ReconcileAckPublishError::ThroughBeforeTarget)
                } else {
                    match self.acknowledged() {
                        Some(current) => if current == value {
                            Ok(ReconcileAckUpdate::Unchanged)
                        } else {
                            Err(ReconcileAckPublishError::ConflictingThrough)
                        },
                        None => Ok(ReconcileAckUpdate::Published),
                    }
                },
            }
        }
    }

    pub fn publish(&mut self, value: ReconcileAck) -> (update: Result<
        ReconcileAckUpdate,
        ReconcileAckPublishError,
    >)
        requires
            old(self).well_formed(),
        ensures
            final(self).well_formed(),
            final(self).same_ends(*old(self)),
            final(self).expected() == old(self).expected(),
            update == old(self).publish_result(value),
            if update == Ok::<ReconcileAckUpdate, ReconcileAckPublishError>(
                ReconcileAckUpdate::Published,
            ) {
                final(self).acknowledged() == Some(value) && final(self).unread()
            } else {
                final(self).same_messages(*old(self))
            },
    {
        if !self.receiver_open {
            return Err(ReconcileAckPublishError::Closed);
        }
        let expected = match self.expectation {
            Some(expected) => expected,
            None => {
                return Err(ReconcileAckPublishError::NoExpectation);
            },
        };
        if is_key_before(
            value.generation,
            value.revision,
            expected.generation,
            expected.revision,
        ) {
            return Err(ReconcileAckPublishError::Stale);
        }
        if value.generation != expected.generation || value.revision != expected.revision {
            return Err(ReconcileAckPublishError::UnexpectedKey);
        }
        if value.through < expected.target_open_time {
            return Err(ReconcileAckPublishError::ThroughBeforeTarget);
        }
        match self.ack {
            Some(current) => {
                if current == value {
                    return Ok(ReconcileAckUpdate::Unchanged);
                }
                return Err(ReconcileAckPublishError::ConflictingThrough);
            },
            None => {},
        }
        self.ack = Some(value);
        self.ack_version = self.ack_version.wrapping_add(1);
        Ok(ReconcileAckUpdate::Published)
    }

    /// What comes of registering an expectation.
    pub open spec fn register_result(self, expected: ReconcileExpectation) -> Result<
        ExpectationUpdate,
        ReconcileExpectationError,
    > {
        if self.senders() == 0 {
            Err(ReconcileExpectationError::Closed)
        } else {
            match self.expected() {
                Some(current) => if key_before(
                    expected.generation,
                    expected.revision,
                    current.generation,
                    current.revision,
                ) {
                    Err(ReconcileExpectationError::Regression)
                } else if expected.generation == current.generation && expected.revision
                    == current.revision {
                    if current == expected {
                        Ok(ExpectationUpdate::Unchanged)
                    } else {
                        Err(ReconcileExpectationError::Conflict)
                    }
                } else {
                    Ok(ExpectationUpdate::Registered)
                },
                None => Ok(ExpectationUpdate::Registered),
            }
        }
    }

    /// Registers the replay that is to be acknowledged next; an older acknowledgement is forgotten.
    pub fn register_expectation(&mut self, expected: ReconcileExpectation) -> (update: Result<
        ExpectationUpdate,
        ReconcileExpectationError,
    >)
        requires
            old(self).well_formed(),
        ensures
            final(self).well_formed(),
            final(self).same_ends(*old(self)),
            update == old(self).register_result(expected),
            if update == Ok::<ExpectationUpdate, ReconcileExpectationError>(
                ExpectationUpdate::Registered,
            ) {
                final(self).expected() == Some(expected) && final(self).acknowledged() is None
                    && !final(self).unread()
            } else {
                final(self).same_messages(*old(self))
            },
    {
        if self.sender_count == 0 {
            return Err(ReconcileExpectationError::Closed);
        }
        match self.expectation {
            Some(current) => {
                if is_key_before(
                    expected.generation,
                    expected.revision,
                    current.generation,
                    current.revision,
                ) {
                    return Err(ReconcileExpectationError::Regression);
                }
                if expected.generation == current.generation && expected.revision
                    == current.revision {
                    return if current == expected {
                        Ok(ExpectationUpdate::Unchanged)
                    } else {
                        Err(ReconcileExpectationError::Conflict)
                    };
                }
            },
            None => {},
        }
        self.expectation = Some(expected);
        self.ack = None;
        self.seen_ack_version = self.ack_version;
        Ok(ExpectationUpdate::Registered)
    }

    pub fn current_expectation(&self) -> (expectation: Result<
        Option<ReconcileExpectation>,
        ReconcileAckClosed,
    >)
        ensures
            expectation == (if self.senders() == 0 {
                Err(ReconcileAckClosed)
            } else {
                Ok(self.expected())
            }),
    {
        if self.sender_count == 0 {
            return Err(ReconcileAckClosed);
        }
        Ok(self.expectation)
    }

    pub fn current(&self) -> (ack: Result<Option<ReconcileAck>, ReconcileAckClosed>)
        ensures
            ack == (if self.senders() == 0 {
                Err(ReconcileAckClosed)
            } else {
                Ok(self.acknowledged())
            }),
    {
        if self.sender_count == 0 {
            return Err(ReconcileAckClosed);
        }
        Ok(self.ack)
    }

    /// The acknowledgement that the receiver has not read yet, if there is one; the end of the
    /// channel, if all senders are gone; nothing, if there is something to wait for.
    pub fn poll_changed(&mut self) -> (ack: Option<Result<ReconcileAck, ReconcileAckClosed>>)
        requires
            old(self).well_formed(),
        ensures
            final(self).well_formed(),
            final(self).same_ends(*old(self)),
            final(self).expected() == old(self).expected(),
            final(self).acknowledged() == old(self).acknowledged(),
            !final(self).unread(),
            if old(self).unread() {
                old(self).acknowledged() is Some && ack == Some(
                    Ok::<ReconcileAck, ReconcileAckClosed>(old(self).acknowledged()->0),
                )
            } else if old(self).senders() == 0 {
                ack == Some(Err::<ReconcileAck, ReconcileAckClosed>(ReconcileAckClosed))
            } else {
                ack is None
            },
    {
        if self.ack_version != self.seen_ack_version {
            self.seen_ack_version = self.ack_version;
            return match self.ack {
                Some(ack) => Some(Ok(ack)),
                None => None,
            };
        }
        if self.sender_count == 0 {
            return Some(Err(ReconcileAckClosed));
        }
        None
    }
}

/// An acknowledgement that is published meets the expectation that stands, so a second one that
/// differs is refused and the same one changes nothing.
pub proof fn law_ack_is_published_once(
    before: AckState,
    after: AckState,
    first: ReconcileAck,
    second: ReconcileAck,
)
    requires
        before.well_formed(),
        before.publish_result(first) == Ok::<ReconcileAckUpdate, ReconcileAckPublishError>(
            ReconcileAckUpdate::Published,
        ),
        after.same_ends(before),
        after.expected() == before.expected(),
        after.acknowledged() == Some(first),
    ensures
        before.expected() matches Some(expected) && meets(first, expected),
        after.publish_result(second) == Ok::<ReconcileAckUpdate, ReconcileAckPublishError>(
            ReconcileAckUpdate::Unchanged,
        ) <==> second == first,
        after.publish_result(second) != Ok::<ReconcileAckUpdate, ReconcileAckPublishError>(
            ReconcileAckUpdate::Published,
        ),
{
}

/// Once a later replay is expected, no acknowledgement of an earlier one is taken.
pub proof fn law_stale_ack_is_refused(
    state: AckState,
    expected: ReconcileExpectation,
    value: ReconcileAck,
)
    requires
        state.listening(),
        state.expected() == Some(expected),
        key_before(value.generation, value.revision, expected.generation, expected.revision),
    ensures
        state.publish_result(value) == Err::<ReconcileAckUpdate, ReconcileAckPublishError>(
            ReconcileAckPublishError::Stale,
        ),
{
}

/// Expectations only move on to later replays: what is registered is never before what stood.
pub proof fn law_expectations_never_regress(state: AckState, expected: ReconcileExpectation)
    requires
        state.register_result(expected) is Ok,
    ensures
        state.expected() matches Some(current) ==> !key_before(
            expected.generation,
            expected.revision,
            current.generation,
            current.revision,
        ),
{
}

/// What comes of a watermark that is offered while somebody listens: it advances where it is after
/// the one that stands, changes nothing where it is the same, and is refused where it is before it.
pub proof fn law_watermark_is_taken_where_it_is_later(
    current: AcceptedWatermark,
    offered: AcceptedWatermark,
)
    ensures
        watermark_before(current, offered) <==> watermark_update(current, false, offered) == Ok::<
            WatermarkUpdate,
            AcceptedWatermarkUpdateError,
        >(WatermarkUpdate::Advanced),
        offered == current <==> watermark_update(current, false, offered) == Ok::<
            WatermarkUpdate,
            AcceptedWatermarkUpdateError,
        >(WatermarkUpdate::Unchanged),
        watermark_before(offered, current) <==> watermark_update(current, false, offered) == Err::<
            WatermarkUpdate,
            AcceptedWatermarkUpdateError,
        >(AcceptedWatermarkUpdateError::Regression),
        watermark_after(current, false, offered) == (if watermark_before(current, offered) {
            offered
        } else {
            current
        }),
{
}

/// One watermark that was offered, and whether nobody listened by then.
pub struct WatermarkOffer {
    pub closed: bool,
    pub value: AcceptedWatermark,
}

/// The watermark that stands after all that were offered.
pub open spec fn watermark_after_all(
    first: AcceptedWatermark,
    offers: Seq<WatermarkOffer>,
) -> AcceptedWatermark
    decreases offers.len(),
{
    if offers.len() == 0 {
        first
    } else {
        watermark_after(
            watermark_after_all(first, offers.drop_last()),
            offers.last().closed,
            offers.last().value,
        )
    }
}

/// Over any offers, the watermark that stands never goes back.
pub proof fn law_watermark_never_regresses(
    first: AcceptedWatermark,
    offers: Seq<WatermarkOffer>,
    earlier: int,
    later: int,
)
    requires
        0 <= earlier <= later <= offers.len(),
    ensures
        !watermark_before(
            watermark_after_all(first, offers.take(later)),
            watermark_after_all(first, offers.take(earlier)),
        ),
    decreases later - earlier,
{
    if earlier < later {
        law_watermark_never_regresses(first, offers, earlier, later - 1);
        assert(offers.take(later).drop_last() =~= offers.take(later - 1));
    }
}

#[derive(Debug, PartialEq, Eq)]
pub enum ProducerCompletion {
    Running,
    Finished(Result<(), ProviderError>),
}

impl Clone for ProducerCompletion {
    fn clone(&self) -> (copy: Self)
        ensures
            copy == *self,
    {
        match self {
            ProducerCompletion::Running => ProducerCompletion::Running,
            ProducerCompletion::Finished(Ok(done)) => ProducerCompletion::Finished(Ok(*done)),
            ProducerCompletion::Finished(Err(error)) => ProducerCompletion::Finished(
                Err(error.clone()),
            ),
        }
    }
}

#[derive(Clone, Copy, Debug, PartialEq, Eq, Structural)]
pub struct ProducerCompletionClosed;

/// What a completion channel says once its sender is gone: the end that was announced, or that none
/// ever will be.
pub fn final_value_or_closed(value: ProducerCompletion) -> (completion: Result<
    ProducerCompletion,
    ProducerCompletionClosed,
>)
    ensures
        completion == (match value {
            ProducerCompletion::Finished(_) => Ok::<ProducerCompletion, ProducerCompletionClosed>(
                value,
            ),
            ProducerCompletion::Running => Err(ProducerCompletionClosed),
        }),
{
    match value {
        ProducerCompletion::Finished(result) => Ok(ProducerCompletion::Finished(result)),
        ProducerCompletion::Running => Err(ProducerCompletionClosed),
    }
}

/// How a feed's task came to its end.
#[derive(Debug, PartialEq, Eq)]
pub enum TaskEnd {
    Returned(Result<(), ProviderError>),
    Cancelled,
    Panicked,
}

#[derive(Debug, PartialEq, Eq)]
pub enum LiveFeedJoinError {
    Producer(ProviderError),
    DeadlineElapsed,
    Aborted,
    JoinFailure,
}

impl LiveFeedJoinError {
    /// What the error says, where `producer` is what the producer's error says of itself.
    pub fn message(&self, producer: &str) -> (text: String)
        ensures
            text@ == (match self {
                LiveFeedJoinError::Producer(_) => "live-feed producer failed: "@ + producer@,
                LiveFeedJoinError::DeadlineElapsed => "live-feed join deadline elapsed"@,
                LiveFeedJoinError::Aborted => "live-feed supervisor was aborted"@,
                LiveFeedJoinError::JoinFailure => "live-feed supervisor join failed"@,
            }),
    {
        match self {
            LiveFeedJoinError::Producer(_) => {
                let mut text = "live-feed producer failed: ".to_owned();
                text.append(producer);
                text
            },
            LiveFeedJoinError::DeadlineElapsed => "live-feed join deadline elapsed".to_owned(),
            LiveFeedJoinError::Aborted => "live-feed supervisor was aborted".to_owned(),
            LiveFeedJoinError::JoinFailure => "live-feed supervisor join failed".to_owned(),
        }
    }
}

pub fn map_join_result(end: TaskEnd) -> (joined: Result<(), LiveFeedJoinError>)
    ensures
        joined == (match end {
            TaskEnd::Returned(Ok(())) => Ok::<(), LiveFeedJoinError>(()),
            TaskEnd::Returned(Err(error)) => Err(LiveFeedJoinError::Producer(error)),
            TaskEnd::Cancelled => Err(LiveFeedJoinError::Aborted),
            TaskEnd::Panicked => Err(LiveFeedJoinError::JoinFailure),
        }),
{
    match end {
        TaskEnd::Returned(result) => match result {
            Ok(()) => Ok(()),
            Err(error) => Err(LiveFeedJoinError::Producer(error)),
        },
        TaskEnd::Cancelled => Err(LiveFeedJoinError::Aborted),
        TaskEnd::Panicked => Err(LiveFeedJoinError::JoinFailure),
    }
}

#[derive(Clone, Copy, Debug, PartialEq, Eq, Structural)]
pub struct RateGateClosed;

/// An acknowledgement is published where somebody listens, a replay is expected, nothing is
/// acknowledged yet, and it names that very replay and reaches its target. It is refused as stale
/// where it names an earlier replay, as unexpected where it names a later one, and as short where it
/// does not reach the target.
pub proof fn law_acknowledgements_are_taken_where_they_fit(state: AckState, ack: ReconcileAck)
    ensures
        ({
            let result = state.publish_result(ack);
            let wanted = state.expected()->0;
            let open = state.listening() && state.expected() is Some;
            let earlier = ack.generation.0 < wanted.generation.0 || (ack.generation.0
                == wanted.generation.0 && ack.revision.0 < wanted.revision.0);
            let later = ack.generation.0 > wanted.generation.0 || (ack.generation.0
                == wanted.generation.0 && ack.revision.0 > wanted.revision.0);
            let short = ack.through < wanted.target_open_time;
            &&& (result matches Ok(ReconcileAckUpdate::Published)) <==> open && !earlier && !later
                && !short && state.acknowledged() is None
            &&& (result matches Ok(ReconcileAckUpdate::Unchanged)) <==> open && !earlier && !later
                && !short && state.acknowledged() == Some(ack)
            &&& (result matches Err(ReconcileAckPublishError::ConflictingThrough)) <==> open
                && !earlier && !later && !short && state.acknowledged() is Some
                && state.acknowledged() != Some(ack)
            &&& (result matches Err(ReconcileAckPublishError::Stale)) <==> open && earlier
            &&& (result matches Err(ReconcileAckPublishError::UnexpectedKey)) <==> open && later
            &&& (result matches Err(ReconcileAckPublishError::ThroughBeforeTarget)) <==> open
                && !earlier && !later && short
            &&& (result matches Err(ReconcileAckPublishError::Closed)) <==> !state.listening()
            &&& (result matches Err(ReconcileAckPublishError::NoExpectation)) <==> state.listening()
                && state.expected() is None
        }),
{
}

/// An expectation is registered where there is somebody to meet it and it is of a later replay than
/// the one that stands, or none stands; the same again changes nothing; an earlier one, or another
/// target for the same replay, is refused.
pub proof fn law_expectations_are_taken_where_they_are_later(
    state: AckState,
    expected: ReconcileExpectation,
)
    ensures
        ({
            let result = state.register_result(expected);
            let standing = state.expected()->0;
            let open = state.senders() > 0;
            let later = state.expected() is None || expected.generation.0 > standing.generation.0
                || (expected.generation.0 == standing.generation.0 && expected.revision.0
                > standing.revision.0);
            let same = state.expected() is Some && expected.generation.0 == standing.generation.0
                && expected.revision.0 == standing.revision.0;
            &&& (result matches Ok(ExpectationUpdate::Registered)) <==> open && later
            &&& (result matches Ok(ExpectationUpdate::Unchanged)) <==> open && same
                && expected.target_open_time == standing.target_open_time
            &&& (result matches Err(ReconcileExpectationError::Conflict)) <==> open && same
                && expected.target_open_time != standing.target_open_time
            &&& (result matches Err(ReconcileExpectationError::Regression)) <==> open && !later
                && !same
            &&& (result matches Err(ReconcileExpectationError::Closed)) <==> !open
        }),
{
}

/// A watermark is before another where it is earlier, or where it is none and the other is one;
/// whoever has stopped listening is told so, and nothing stands then but what stood.
pub proof fn law_watermarks_are_ordered(left: i64, right: i64, current: AcceptedWatermark)
    ensures
        watermark_before(Some(left), Some(right)) <==> left < right,
        watermark_before(None, Some(right)),
        !watermark_before(Some(left), None),
        !watermark_before(None, None),
        watermark_update(current, true, Some(left)) == Err::<
            WatermarkUpdate,
            AcceptedWatermarkUpdateError,
        >(AcceptedWatermarkUpdateError::Closed),
        watermark_after(current, true, Some(left)) == current,
{
}

} // verus!
