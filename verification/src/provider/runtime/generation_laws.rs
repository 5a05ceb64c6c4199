//! What holds of every generation, whatever happens to it.
use vstd::prelude::*;

use crate::candle::Candle;
use crate::error::ProviderError;
use crate::model::{RateGateState, ReplayRevision};
use crate::provider::runtime::config::ReconciliationPolicy;
use crate::provider::runtime::generation::{
    ActionView, GapView, Generation, GenerationOutcome, LiveEvent, Observed, PhaseView,
};

verus! {

/// The gap that a phase is filling, where it is filling one.
pub open spec fn gap_of(phase: PhaseView) -> Option<GapView> {
    match phase {
        PhaseView::Fetching { sync, .. } => Some(sync),
        PhaseView::Draining { sync, .. } => Some(sync),
        PhaseView::FollowingUp { sync, .. } => Some(sync),
        PhaseView::Registering { sync } => Some(sync),
        PhaseView::Publishing { sync } => Some(sync),
        PhaseView::AwaitAck { sync, .. } => Some(sync),
        _ => None,
    }
}

/// Cancellation ends a generation in whatever phase it is, and ends it as cancelled.
pub proof fn law_cancellation_ends(
    terms: Generation,
    phase: PhaseView,
    startup: Option<i64>,
    seen: Observed,
)
    requires
        !(phase is Ended),
    ensures
        terms.next(phase, startup, LiveEvent::Cancelled, seen) == (
            PhaseView::Ended,
            ActionView::Finish(Ok(GenerationOutcome::Cancelled)),
        ),
{
}

/// A rate gate that blocks the process fails a generation that is not cancelled, in whatever phase
/// it is, with the provider's error for it.
pub proof fn law_blocked_gate_fails(
    terms: Generation,
    phase: PhaseView,
    startup: Option<i64>,
    state: RateGateState,
    seen: Observed,
)
    requires
        !(phase is Ended),
        state.blocked(),
        !seen.cancelled,
    ensures
        terms.next(phase, startup, LiveEvent::Gate(Ok(state)), seen) == (
            PhaseView::Ended,
            ActionView::Finish(
                Err(crate::provider::runtime::live::block_error(terms.process_block)),
            ),
        ),
{
}

/// A generation becomes connected only from waiting for an acknowledgement, and only where one of
/// its own replay stands that reaches the target.
pub proof fn law_connected_only_when_acknowledged(
    terms: Generation,
    phase: PhaseView,
    startup: Option<i64>,
    event: LiveEvent,
    seen: Observed,
)
    requires
        !(phase is Connected),
        terms.next(phase, startup, event, seen).0 is Connected,
    ensures
        phase matches PhaseView::AwaitAck { sync, deadline, deferred } && deferred is None && ((
        event matches LiveEvent::Ack(Ok(ack)) && terms.acknowledges(ack, sync)) || (
        seen.acknowledged matches Ok(Some(ack)) && terms.acknowledges(ack, sync))),
{
}

/// Whether one gap is an earlier state of another: nothing that it holds is lost or loses
/// authority, and neither its target nor its numbers go back.
pub open spec fn grows(earlier: GapView, later: GapView) -> bool {
    &&& later.confirmed == earlier.confirmed
    &&& later.start == earlier.start
    &&& earlier.target <= later.target
    &&& earlier.revision.0 <= later.revision.0
    &&& earlier.pages <= later.pages
    &&& forall|key: i64| #[trigger]
        earlier.held.contains_key(key) ==> later.held.contains_key(key)
            && earlier.held[key].authority.rank() <= later.held[key].authority.rank()
}

proof fn lemma_page_grows(held: Map<i64, Candle>, page: Seq<Candle>)
    ensures
        forall|key: i64| #[trigger]
            held.contains_key(key) ==> crate::provider::runtime::buffer::coalesce_all(
                held,
                page,
            ).contains_key(key) && held[key].authority.rank()
                <= crate::provider::runtime::buffer::coalesce_all(held, page)[key].authority.rank(),
{
    assert forall|key: i64| #[trigger]
        held.contains_key(key) implies crate::provider::runtime::buffer::coalesce_all(
        held,
        page,
    ).contains_key(key) && held[key].authority.rank()
        <= crate::provider::runtime::buffer::coalesce_all(held, page)[key].authority.rank() by {
        crate::provider::runtime::buffer::law_coalescing_never_loses_authority(held, page, key);
    }
}

/// What happened to the page that a phase has in hand is covered by coalescing it.
proof fn lemma_turned_grows(
    terms: Generation,
    sync: GapView,
    cursor: i64,
    request_target: i64,
    page: Result<Seq<Candle>, ProviderError>,
)
    ensures
        gap_of(terms.turned(sync, cursor, request_target, page).0) matches Some(later) ==> grows(
            sync,
            later,
        ),
{
    if let Ok(candles) = page {
        lemma_page_grows(sync.held, candles);
    }
}

/// Whatever happens, a gap only grows: what was received is not lost, the target does not go back,
/// and the start stays.
pub proof fn law_gap_only_grows(
    terms: Generation,
    phase: PhaseView,
    startup: Option<i64>,
    event: LiveEvent,
    seen: Observed,
)
    requires
        gap_of(phase) is Some,
        gap_of(terms.next(phase, startup, event, seen).0) is Some,
    ensures
        grows(gap_of(phase)->0, gap_of(terms.next(phase, startup, event, seen).0)->0),
{
    let sync = gap_of(phase)->0;
    match phase {
        PhaseView::Draining { sync, cursor, request_target, page } => {
            lemma_following_grows(terms, sync, cursor, request_target, page, event, seen);
        },
        PhaseView::FollowingUp { sync, cursor, request_target, page } => {
            lemma_following_grows(terms, sync, cursor, request_target, page, event, seen);
        },
        _ => {},
    }
}

proof fn lemma_following_grows(
    terms: Generation,
    sync: GapView,
    cursor: i64,
    request_target: i64,
    page: Result<Seq<Candle>, ProviderError>,
    event: LiveEvent,
    seen: Observed,
)
    ensures
        gap_of(
            terms.step_following(sync, cursor, request_target, page, event, seen).0,
        ) matches Some(later) ==> grows(sync, later),
{
    lemma_turned_grows(terms, sync, cursor, request_target, page);
    if let LiveEvent::Socket(input) = event {
        if let Ok(next) = terms.streamed(sync, input) {
            assert(grows(sync, next));
            lemma_turned_grows(terms, next, cursor, request_target, page);
        }
    }
}

/// Whether a gap keeps to the reconciliation policy: its target within the span, its pages counted.
pub open spec fn gap_keeps_policy(terms: Generation, sync: GapView) -> bool {
    &&& crate::provider::runtime::reconcile::target_allowed(
        terms.reconciliation,
        terms.market.timeframe,
        sync.start,
        sync.target,
    )
    &&& terms.reconciliation matches ReconciliationPolicy::Bounded(limits) ==> sync.pages
        <= limits.max_pages
}

/// Whether a phase keeps to the reconciliation policy, and defers no error that would end the feed.
pub open spec fn keeps_policy(terms: Generation, phase: PhaseView) -> bool {
    &&& gap_of(phase) matches Some(sync) ==> gap_keeps_policy(terms, sync)
    &&& phase matches PhaseView::AwaitAck { deferred, .. } ==> (deferred matches Some(error)
        ==> !crate::provider::runtime::live::terminal(error))
}

proof fn lemma_extended_keeps(terms: Generation, sync: GapView, candle: Candle)
    requires
        gap_keeps_policy(terms, sync),
    ensures
        terms.extended(sync, candle) matches Ok(next) ==> gap_keeps_policy(terms, next),
{
}

proof fn lemma_planned_keeps(terms: Generation, sync: GapView, cursor: i64)
    requires
        gap_keeps_policy(terms, sync),
    ensures
        keeps_policy(terms, terms.planned(sync, cursor).0),
{
}

proof fn lemma_resumed_keeps(terms: Generation, sync: GapView)
    requires
        gap_keeps_policy(terms, sync),
    ensures
        keeps_policy(terms, terms.resumed(sync).0),
{
    lemma_planned_keeps(terms, sync, sync.start);
    if let Some(last) = sync.synced {
        lemma_planned_keeps(terms, sync, (last + 1) as i64);
    }
}

proof fn lemma_turned_keeps(
    terms: Generation,
    sync: GapView,
    cursor: i64,
    request_target: i64,
    page: Result<Seq<Candle>, ProviderError>,
)
    requires
        gap_keeps_policy(terms, sync),
    ensures
        keeps_policy(terms, terms.turned(sync, cursor, request_target, page).0),
{
    if let Ok(candles) = page {
        if let crate::provider::runtime::generation::PageStep::More(next, from) = terms.paged(
            sync,
            cursor,
            request_target,
            candles,
        ) {
            assert(gap_keeps_policy(terms, next));
            lemma_planned_keeps(terms, next, from);
        }
    }
}

proof fn lemma_first_keeps(terms: Generation, first: Candle, startup: Option<i64>, seen: Observed)
    ensures
        keeps_policy(terms, terms.first_seen(first, startup, seen).0),
{
    if let Ok(accepted) = seen.accepted {
        let confirmed = crate::model::later_watermark(accepted, startup);
        if let Ok(sync) = terms.opened(first, confirmed) {
            assert(gap_keeps_policy(terms, sync));
            lemma_resumed_keeps(terms, sync);
        }
    }
}

proof fn lemma_following_keeps(
    terms: Generation,
    sync: GapView,
    cursor: i64,
    request_target: i64,
    page: Result<Seq<Candle>, ProviderError>,
    event: LiveEvent,
    seen: Observed,
)
    requires
        gap_keeps_policy(terms, sync),
    ensures
        keeps_policy(
            terms,
            terms.step_following(sync, cursor, request_target, page, event, seen).0,
        ),
{
    lemma_turned_keeps(terms, sync, cursor, request_target, page);
    if let LiveEvent::Socket(input) = event {
        if let Ok(crate::provider::runtime::live::LiveSocketEvent::Candle(candle)) = input {
            lemma_extended_keeps(terms, sync, candle);
        }
        if let Ok(next) = terms.streamed(sync, input) {
            lemma_turned_keeps(terms, next, cursor, request_target, page);
        }
    }
}

proof fn lemma_ack_keeps(
    terms: Generation,
    sync: GapView,
    phase: PhaseView,
    startup: Option<i64>,
    event: LiveEvent,
    seen: Observed,
)
    requires
        keeps_policy(terms, phase),
        phase matches PhaseView::AwaitAck { sync: own, .. } && own == sync,
    ensures
        keeps_policy(terms, terms.next(phase, startup, event, seen).0),
{
    if let LiveEvent::Socket(Ok(crate::provider::runtime::live::LiveSocketEvent::Candle(candle))) =
        event {
        lemma_extended_keeps(terms, sync, candle);
        if let Ok(next) = terms.extended(sync, candle) {
            lemma_resumed_keeps(terms, next);
        }
    }
}

/// Whatever happens, a generation under a bounded policy never aims beyond its span and never asks
/// for more pages than it may.
pub proof fn law_policy_is_kept(
    terms: Generation,
    phase: PhaseView,
    startup: Option<i64>,
    event: LiveEvent,
    seen: Observed,
)
    requires
        keeps_policy(terms, phase),
    ensures
        keeps_policy(terms, terms.next(phase, startup, event, seen).0),
{
    match phase {
        PhaseView::AwaitFirst { deadline } => {
            if let LiveEvent::Socket(
                Ok(crate::provider::runtime::live::LiveSocketEvent::Candle(candle)),
            ) = event {
                lemma_first_keeps(terms, candle, startup, seen);
            }
        },
        PhaseView::Fetching { sync, cursor, request_target } => {
            if let LiveEvent::Socket(
                Ok(crate::provider::runtime::live::LiveSocketEvent::Candle(candle)),
            ) = event {
                lemma_extended_keeps(terms, sync, candle);
            }
        },
        PhaseView::Draining { sync, cursor, request_target, page } => {
            lemma_following_keeps(terms, sync, cursor, request_target, page, event, seen);
        },
        PhaseView::FollowingUp { sync, cursor, request_target, page } => {
            lemma_following_keeps(terms, sync, cursor, request_target, page, event, seen);
        },
        PhaseView::AwaitAck { sync, .. } => {
            lemma_ack_keeps(terms, sync, phase, startup, event, seen);
        },
        _ => {},
    }
}

/// A generation that asks to be connected anew never does so for an error that ends the feed.
pub proof fn law_reconnects_only_for_recoverable_errors(
    terms: Generation,
    phase: PhaseView,
    startup: Option<i64>,
    event: LiveEvent,
    seen: Observed,
)
    requires
        keeps_policy(terms, phase),
    ensures
        terms.next(phase, startup, event, seen).1 matches ActionView::Finish(
            Ok(GenerationOutcome::Reconnect(error)),
        ) ==> !crate::provider::runtime::live::terminal(error),
        terms.next(phase, startup, event, seen).1 matches ActionView::Finish(
            Ok(GenerationOutcome::AcknowledgedReconnect(error)),
        ) ==> !crate::provider::runtime::live::terminal(error),
{
}

/// Every page that is asked for reaches up to the target that stood, and each page that follows
/// another begins after it began.
pub proof fn law_pages_move_on(
    terms: Generation,
    phase: PhaseView,
    startup: Option<i64>,
    event: LiveEvent,
    seen: Observed,
)
    ensures
        terms.next(phase, startup, event, seen).1 matches ActionView::Fetch(request) ==> {
            &&& terms.next(phase, startup, event, seen).0 matches PhaseView::Fetching {
                sync,
                cursor,
                request_target,
            } && request.start_time == Some(cursor) && request.end_time == Some(sync.target)
                && request_target == sync.target && cursor <= sync.target && request.limit
                == terms.gap_page_limit
            &&& phase matches PhaseView::Draining { cursor: before, .. } ==> request.start_time->0
                > before
            &&& phase matches PhaseView::FollowingUp { cursor: before, .. }
                ==> request.start_time->0 > before
        },
{
}

/// The replay that a consumer is offered is the whole of what is held, each candle once, by rising
/// opening time, under the revision and target that are expected to be acknowledged.
pub proof fn law_replay_is_complete(
    terms: Generation,
    sync: GapView,
    startup: Option<i64>,
    event: LiveEvent,
    seen: Observed,
)
    requires
        crate::provider::runtime::buffer::keyed_by_open_time(sync.held),
        sync.held.dom().finite(),
        terms.next(PhaseView::Registering { sync }, startup, event, seen).0 is Publishing,
    ensures
        terms.next(
            PhaseView::Registering { sync },
            startup,
            event,
            seen,
        ).1 matches ActionView::SendBatch { generation, revision, target_open_time, candles }
            && crate::provider::runtime::buffer::lists(sync.held, candles) && generation
            == terms.generation && revision == terms.expectation(sync).revision && target_open_time
            == terms.expectation(sync).target_open_time,
{
    crate::provider::runtime::buffer::law_listing_lists(sync.held);
}

/// Whether the target of the gap that a phase is filling, where it is filling one, is not before the
/// gap's start.
pub open spec fn aims_ahead(phase: PhaseView) -> bool {
    gap_of(phase) matches Some(sync) ==> sync.start <= sync.target
}

/// Whatever happens, the target of a gap is never before its start, and neither is that of a replay.
pub proof fn law_target_is_not_before_start(
    terms: Generation,
    phase: PhaseView,
    startup: Option<i64>,
    event: LiveEvent,
    seen: Observed,
)
    requires
        aims_ahead(phase),
    ensures
        aims_ahead(terms.next(phase, startup, event, seen).0),
        terms.next(phase, startup, event, seen).1 matches ActionView::SendBatch {
            target_open_time,
            ..
        } ==> (gap_of(phase) matches Some(sync) && sync.start <= target_open_time),
{
    lemma_replays_come_from_registering(terms, phase, startup, event, seen);
    match phase {
        PhaseView::AwaitFirst { deadline } => {
            if let LiveEvent::Socket(
                Ok(crate::provider::runtime::live::LiveSocketEvent::Candle(candle)),
            ) = event {
                lemma_first_aims_ahead(terms, candle, startup, seen);
            }
        },
        PhaseView::Connected { .. } => {},
        PhaseView::Ended => {},
        _ => {
            if gap_of(terms.next(phase, startup, event, seen).0) is Some {
                law_gap_only_grows(terms, phase, startup, event, seen);
            }
        },
    }
}

proof fn lemma_first_aims_ahead(
    terms: Generation,
    first: Candle,
    startup: Option<i64>,
    seen: Observed,
)
    ensures
        aims_ahead(terms.first_seen(first, startup, seen).0),
{
}

proof fn lemma_replays_come_from_registering(
    terms: Generation,
    phase: PhaseView,
    startup: Option<i64>,
    event: LiveEvent,
    seen: Observed,
)
    ensures
        terms.next(phase, startup, event, seen).1 matches ActionView::SendBatch {
            target_open_time,
            ..
        } ==> (phase matches PhaseView::Registering { sync } && target_open_time == sync.target),
{
}

/// What happens to a generation at one step, and what stands then.
pub struct Happening {
    pub event: LiveEvent,
    pub seen: Observed,
}

/// The phase of a generation after all that has happened.
pub open spec fn phase_after(
    terms: Generation,
    phase: PhaseView,
    startup: Option<i64>,
    course: Seq<Happening>,
) -> PhaseView
    decreases course.len(),
{
    if course.len() == 0 {
        phase
    } else {
        terms.next(
            phase_after(terms, phase, startup, course.drop_last()),
            startup,
            course.last().event,
            course.last().seen,
        ).0
    }
}

/// What a generation does at a step of its course.
pub open spec fn action_at(
    terms: Generation,
    phase: PhaseView,
    startup: Option<i64>,
    course: Seq<Happening>,
    place: int,
) -> ActionView {
    terms.next(
        phase_after(terms, phase, startup, course.take(place)),
        startup,
        course[place].event,
        course[place].seen,
    ).1
}

/// Whether every replay that may still be offered has a later number than `revision`, and a target no
/// earlier than `target`.
spec fn beyond(phase: PhaseView, revision: ReplayRevision, target: i64) -> bool {
    match phase {
        PhaseView::AwaitFirst { .. } => false,
        PhaseView::Publishing { sync } => revision.0 <= sync.revision.0 && target <= sync.target,
        PhaseView::AwaitAck { sync, .. } => revision.0 <= sync.revision.0 && target <= sync.target,
        PhaseView::Connected { .. } => true,
        PhaseView::Ended => true,
        _ => gap_of(phase) matches Some(sync) && revision.0 < sync.revision.0 && target
            <= sync.target,
    }
}

proof fn lemma_beyond_stays(
    terms: Generation,
    phase: PhaseView,
    startup: Option<i64>,
    happening: Happening,
    revision: ReplayRevision,
    target: i64,
)
    requires
        beyond(phase, revision, target),
    ensures
        beyond(
            terms.next(phase, startup, happening.event, happening.seen).0,
            revision,
            target,
        ),
        terms.next(phase, startup, happening.event, happening.seen).1 matches ActionView::SendBatch {
            revision: next,
            target_open_time,
            ..
        } ==> revision.0 < next.0 && target <= target_open_time,
{
}

proof fn lemma_beyond_lasts(
    terms: Generation,
    phase: PhaseView,
    startup: Option<i64>,
    course: Seq<Happening>,
    from: int,
    to: int,
    revision: ReplayRevision,
    target: i64,
)
    requires
        0 <= from <= to <= course.len(),
        beyond(phase_after(terms, phase, startup, course.take(from)), revision, target),
    ensures
        beyond(phase_after(terms, phase, startup, course.take(to)), revision, target),
    decreases to - from,
{
    if from < to {
        lemma_beyond_lasts(terms, phase, startup, course, from, to - 1, revision, target);
        assert(course.take(to).drop_last() =~= course.take(to - 1));
        lemma_beyond_stays(
            terms,
            phase_after(terms, phase, startup, course.take(to - 1)),
            startup,
            course[to - 1],
            revision,
            target,
        );
    }
}

/// Over the whole course of a generation, each replay has a later number than the one before it, and
/// no replay aims before an earlier one.
pub proof fn law_replays_are_numbered_upwards(
    terms: Generation,
    phase: PhaseView,
    startup: Option<i64>,
    course: Seq<Happening>,
    earlier: int,
    later: int,
)
    requires
        0 <= earlier < later < course.len(),
        action_at(terms, phase, startup, course, earlier) is SendBatch,
        action_at(terms, phase, startup, course, later) is SendBatch,
    ensures
        action_at(terms, phase, startup, course, earlier)->revision.0 < action_at(
            terms,
            phase,
            startup,
            course,
            later,
        )->revision.0,
        action_at(terms, phase, startup, course, earlier)->SendBatch_target_open_time <= action_at(
            terms,
            phase,
            startup,
            course,
            later,
        )->SendBatch_target_open_time,
{
    let first = action_at(terms, phase, startup, course, earlier);
    let revision = first->revision;
    let target = first->SendBatch_target_open_time;
    assert(course.take(earlier + 1).drop_last() =~= course.take(earlier));
    assert(beyond(
        phase_after(terms, phase, startup, course.take(earlier + 1)),
        revision,
        target,
    ));
    lemma_beyond_lasts(terms, phase, startup, course, earlier + 1, later, revision, target);
    lemma_beyond_stays(
        terms,
        phase_after(terms, phase, startup, course.take(later)),
        startup,
        course[later],
        revision,
        target,
    );
}

/// A generation that is over stays over.
pub proof fn law_ended_stays_ended(
    terms: Generation,
    startup: Option<i64>,
    event: LiveEvent,
    seen: Observed,
)
    ensures
        terms.next(PhaseView::Ended, startup, event, seen) == (PhaseView::Ended, ActionView::Wait),
{
}

} // verus!
