//! What becomes of the candles that a generation is sent, from the socket and from history.
use vstd::prelude::*;

use crate::candle::{Candle, FinalityAuthority};
use crate::error::ProviderError;
use crate::model::{HistoryRequestKind, MonoInstant, RateGateState};
use crate::provider::runtime::config::ReconciliationPolicy;
use crate::provider::runtime::generation::{
    ActionView, GapView, Generation, GenerationOutcome, LiveEvent, Observed, PhaseView,
};
use crate::provider::runtime::generation_laws::{action_at, gap_of, phase_after, Happening};
use crate::provider::runtime::live::LiveSocketEvent;

verus! {

/// Whether the policy of a generation has nothing against a candle: under a bounded policy there is
/// room for its opening time, and the gap that reaches up to it is within the span.
pub open spec fn admits(terms: Generation, sync: GapView, candle: Candle) -> bool {
    terms.reconciliation matches ReconciliationPolicy::Bounded(limits) ==> {
        &&& limits.max_successors < usize::MAX
        &&& sync.held.contains_key(candle.opens_at()) || sync.held.dom().len()
            <= limits.max_successors
        &&& crate::provider::runtime::reconcile::within_span(
            terms.market.timeframe,
            sync.start,
            if candle.opens_at() > sync.target {
                candle.opens_at()
            } else {
                sync.target
            },
            limits.max_successors as int,
        )
    }
}

/// Whether something is held for the opening time of a candle that is to be believed at least as
/// much as the candle.
pub open spec fn has_place(held: Map<i64, Candle>, candle: Candle) -> bool {
    &&& held.contains_key(candle.opens_at())
    &&& candle.authority == FinalityAuthority::WsAuthoritativeClosed
        ==> held[candle.opens_at()].authority == FinalityAuthority::WsAuthoritativeClosed
    &&& candle.authority == FinalityAuthority::WsAuthoritativeOpen
        ==> held[candle.opens_at()].authority == FinalityAuthority::WsAuthoritativeClosed
        || held[candle.opens_at()].authority == FinalityAuthority::WsAuthoritativeOpen
    &&& candle.authority == FinalityAuthority::RestProvisionalClosed
        ==> held[candle.opens_at()].authority != FinalityAuthority::RestProvisionalOpen
}

/// Whether a gap has become another by taking a candle of the stream: the candle has its place, and
/// is what is held for its time unless that was closed by the stream already; whatever is held for
/// other times stays; the target reaches the candle, and the next replay has the next number.
pub open spec fn takes(before: GapView, candle: Candle, after: GapView) -> bool {
    &&& has_place(after.held, candle)
    &&& !before.held.contains_key(candle.opens_at()) || before.held[candle.opens_at()].authority
        != FinalityAuthority::WsAuthoritativeClosed || candle.authority
        == FinalityAuthority::WsAuthoritativeClosed ==> after.held[candle.opens_at()] == candle
    &&& forall|key: i64|
        key != candle.opens_at() ==> (#[trigger] after.held.contains_key(key)
            <==> before.held.contains_key(key)) && after.held[key] == before.held[key]
    &&& after.target >= candle.opens_at() && after.target >= before.target
    &&& after.target == candle.opens_at() || after.target == before.target
    &&& after.revision.0 == before.revision.0 + 1
    &&& after.confirmed == before.confirmed && after.start == before.start && after.synced
        == before.synced
}

/// Whether a candle comes from the stream, which says itself whether it is final.
pub open spec fn is_streamed(candle: Candle) -> bool {
    candle.authority == FinalityAuthority::WsAuthoritativeOpen || candle.authority
        == FinalityAuthority::WsAuthoritativeClosed
}

/// While a page of history is awaited, every candle of the stream that the policy admits is held,
/// and the wait goes on for the page that was asked for.
pub proof fn law_streamed_candle_is_held_while_fetching(
    terms: Generation,
    sync: GapView,
    cursor: i64,
    request_target: i64,
    startup: Option<i64>,
    candle: Candle,
    seen: Observed,
)
    requires
        admits(terms, sync, candle),
        is_streamed(candle),
        sync.revision.0 < u64::MAX,
        !seen.cancelled,
    ensures
        ({
            let phase = PhaseView::Fetching { sync, cursor, request_target };
            let event = LiveEvent::Socket(Ok(LiveSocketEvent::Candle(candle)));
            let step = terms.next(phase, startup, event, seen);
            &&& step.1 is Wait
            &&& step.0 matches PhaseView::Fetching { sync: after, cursor: from, request_target: to }
                && takes(sync, candle, after) && after.pages == sync.pages && from == cursor && to
                == request_target
        }),
{
}

proof fn lemma_row_has_places(held: Map<i64, Candle>, row: Seq<Candle>, place: int)
    requires
        0 <= place < row.len(),
    ensures
        has_place(crate::provider::runtime::buffer::coalesce_all(held, row), row[place]),
    decreases row.len(),
{
    if place < row.len() - 1 {
        lemma_row_has_places(held, row.drop_last(), place);
    }
}

proof fn lemma_place_lasts(held: Map<i64, Candle>, row: Seq<Candle>, candle: Candle)
    requires
        has_place(held, candle),
    ensures
        has_place(crate::provider::runtime::buffer::coalesce_all(held, row), candle),
{
    crate::provider::runtime::buffer::law_coalescing_never_loses_authority(
        held,
        row,
        candle.opens_at(),
    );
}

proof fn lemma_nothing_new(held: Map<i64, Candle>, row: Seq<Candle>, place: int)
    requires
        0 <= place < row.len(),
        !crate::provider::runtime::buffer::accepts_any(held, row),
    ensures
        crate::provider::runtime::buffer::coalesce_all(held, row) == held,
        held.contains_key(row[place].opens_at()),
    decreases row.len(),
{
    if row.len() > 1 {
        let fewer = row.drop_last();
        lemma_nothing_new(
            held,
            fewer,
            if place < fewer.len() {
                place
            } else {
                0
            },
        );
    }
}

/// Whether a gap has taken a candle of the stream, and perhaps a page of history after it: the
/// candle has its place, the target reaches it, and the next replay has the next number.
pub open spec fn has_taken(before: GapView, candle: Candle, after: GapView) -> bool {
    &&& has_place(after.held, candle)
    &&& forall|key: i64| #[trigger]
        before.held.contains_key(key) ==> has_place(after.held, before.held[key])
            || before.held[key].opens_at() != key
    &&& after.target >= candle.opens_at() && after.target >= before.target
    &&& after.target == candle.opens_at() || after.target == before.target
    &&& after.revision.0 == before.revision.0 + 1
    &&& after.confirmed == before.confirmed && after.start == before.start
}

proof fn lemma_turned_has_taken(
    terms: Generation,
    before: GapView,
    candle: Candle,
    sync: GapView,
    cursor: i64,
    request_target: i64,
    page: Result<Seq<Candle>, ProviderError>,
)
    requires
        takes(before, candle, sync),
        sync.held == crate::provider::runtime::buffer::coalesce(before.held, candle),
    ensures
        gap_of(terms.turned(sync, cursor, request_target, page).0) matches Some(after) ==> has_taken(
            before,
            candle,
            after,
        ),
{
    if let Ok(candles) = page {
        let filled = crate::provider::runtime::buffer::coalesce_all(sync.held, candles);
        lemma_place_lasts(sync.held, candles, candle);
        assert forall|key: i64| #[trigger]
            before.held.contains_key(key) && before.held[key].opens_at() == key implies has_place(
            filled,
            before.held[key],
        ) && has_place(sync.held, before.held[key]) by {
            assert(sync.held.contains_key(key));
            lemma_place_lasts(sync.held, candles, before.held[key]);
        }
    }
}

/// While a page of history is in hand, every candle of the stream that the policy admits is held
/// before the page is turned; where the generation goes on, the gap has taken it. Where the page
/// reaches the target, the candle's own time included, the replay is offered up to there.
pub proof fn law_streamed_candle_is_held_while_turning(
    terms: Generation,
    phase: PhaseView,
    startup: Option<i64>,
    candle: Candle,
    seen: Observed,
    sync: GapView,
    cursor: i64,
    request_target: i64,
    page: Result<Seq<Candle>, ProviderError>,
)
    requires
        phase == (PhaseView::Draining { sync, cursor, request_target, page }) || phase == (
        PhaseView::FollowingUp { sync, cursor, request_target, page }),
        admits(terms, sync, candle),
        is_streamed(candle),
        sync.revision.0 < u64::MAX,
        !seen.cancelled,
    ensures
        ({
            let event = LiveEvent::Socket(Ok(LiveSocketEvent::Candle(candle)));
            let step = terms.next(phase, startup, event, seen);
            &&& gap_of(step.0) matches Some(after) ==> has_taken(sync, candle, after)
            &&& page matches Ok(candles) ==> (candles.len() > 0 && candles.last().opens_at() >= cursor
                && candles.last().opens_at() >= sync.target && candles.last().opens_at()
                >= candle.opens_at() ==> (step.0 matches PhaseView::Registering { sync: after }
                && has_taken(sync, candle, after) && after.synced == Some(
                candles.last().opens_at(),
            )))
            &&& page matches Err(error) ==> step.1 == ActionView::Finish(Err(error))
        }),
{
    let next = terms.extended(sync, candle)->Ok_0;
    assert(takes(sync, candle, next));
    lemma_turned_has_taken(terms, sync, candle, next, cursor, request_target, page);
}

/// Whether history is wanted from one time through another.
pub open spec fn wants(step: (PhaseView, ActionView), from: int, through: int, limit: u16) -> bool {
    &&& step.0 is Fetching
    &&& step.1 matches ActionView::Fetch(request)
    &&& request.kind == HistoryRequestKind::Gap
    &&& request.start_time is Some && request.start_time->0 == from
    &&& request.end_time is Some && request.end_time->0 == through
    &&& request.limit == limit
}

/// While an acknowledgement is awaited, a candle of the stream that the policy admits makes the
/// replay that was offered incomplete: the gap takes it, and what is missing up to it is asked for,
/// from where history was read to; where nothing is missing, the next replay is offered.
pub proof fn law_streamed_candle_reopens_the_gap(
    terms: Generation,
    sync: GapView,
    deadline: MonoInstant,
    deferred: Option<ProviderError>,
    startup: Option<i64>,
    candle: Candle,
    seen: Observed,
)
    requires
        admits(terms, sync, candle),
        is_streamed(candle),
        sync.revision.0 < u64::MAX,
        sync.pages < usize::MAX,
        sync.synced matches Some(last) ==> last < i64::MAX,
    ensures
        ({
            let phase = PhaseView::AwaitAck { sync, deadline, deferred };
            let event = LiveEvent::Socket(Ok(LiveSocketEvent::Candle(candle)));
            let step = terms.next(phase, startup, event, seen);
            let from: int = match sync.synced {
                Some(last) => last + 1,
                None => sync.start as int,
            };
            let until: int = if candle.opens_at() > sync.target {
                candle.opens_at() as int
            } else {
                sync.target as int
            };
            let spent = terms.reconciliation matches ReconciliationPolicy::Bounded(limits)
                && sync.pages >= limits.max_pages;
            &&& gap_of(step.0) matches Some(after) ==> takes(sync, candle, after)
            &&& from > until ==> step.0 is Registering && step.1 is Register
            &&& from <= until && !spent ==> wants(step, from, until, terms.gap_page_limit)
            &&& from <= until && spent ==> step.1 matches ActionView::Finish(Err(_))
        }),
{
    let next = terms.extended(sync, candle)->Ok_0;
    assert(takes(sync, candle, next));
}

/// The first candle opens the gap that begins with the later of what the consumer has taken and what
/// it started with, or with the candle itself where there is neither; it ends with the later of its
/// start and the candle. A candle that is not before the start is held. History is then wanted over
/// the whole gap.
pub proof fn law_first_candle_opens_the_gap(
    terms: Generation,
    deadline: MonoInstant,
    startup: Option<i64>,
    first: Candle,
    seen: Observed,
    accepted: Option<i64>,
)
    requires
        seen.accepted == Ok::<Option<i64>, crate::provider::AcceptedWatermarkClosed>(accepted),
        terms.reconciliation is Unbounded,
    ensures
        ({
            let event = LiveEvent::Socket(Ok(LiveSocketEvent::Candle(first)));
            let step = terms.next(PhaseView::AwaitFirst { deadline }, startup, event, seen);
            let gap = gap_of(step.0)->0;
            &&& step.0 is Fetching
            &&& startup is None && accepted is None ==> gap.start == first.opens_at()
            &&& startup is Some && accepted is None ==> gap.start == startup->0
            &&& startup is None && accepted is Some ==> gap.start == accepted->0
            &&& startup is Some && accepted is Some ==> gap.start >= startup->0 && gap.start
                >= accepted->0 && (gap.start == startup->0 || gap.start == accepted->0)
            &&& gap.confirmed == (if startup is None && accepted is None {
                None
            } else {
                Some(gap.start)
            })
            &&& gap.target >= gap.start && gap.target >= first.opens_at() && (gap.target
                == gap.start || gap.target == first.opens_at())
            &&& gap.revision.0 == 1
            &&& first.opens_at() >= gap.start ==> gap.held.contains_key(first.opens_at())
                && gap.held[first.opens_at()] == first
            &&& forall|key: i64| #[trigger]
                gap.held.contains_key(key) ==> key == first.opens_at() && key >= gap.start
            &&& wants(step, gap.start as int, gap.target as int, terms.gap_page_limit)
        }),
{
}

/// Whether a step gives the connection up because history does not move on.
pub open spec fn makes_no_progress(
    step: (PhaseView, ActionView),
    through: i64,
    last: Option<i64>,
) -> bool {
    step.1 == ActionView::Finish(
        Ok(
            GenerationOutcome::Reconnect(
                ProviderError::GapSyncNoProgress { target_open_time: through, last_open_time: last },
            ),
        ),
    )
}

/// What a page of history does to a gap: each of its candles is held, or what is held for its time is
/// to be believed at least as much; nothing held before is lost; and neither the target nor the
/// number of the replay changes.
pub proof fn law_page_candles_are_held(
    terms: Generation,
    phase: PhaseView,
    startup: Option<i64>,
    seen: Observed,
    sync: GapView,
    cursor: i64,
    request_target: i64,
    page: Seq<Candle>,
    place: int,
)
    requires
        phase == (PhaseView::Draining { sync, cursor, request_target, page: Ok(page) }) || phase == (
        PhaseView::FollowingUp { sync, cursor, request_target, page: Ok(page) }),
        0 <= place < page.len(),
    ensures
        gap_of(terms.next(phase, startup, LiveEvent::NothingReady, seen).0) matches Some(after) ==> {
            &&& has_place(after.held, page[place])
            &&& after.synced == Some(page.last().opens_at())
            &&& after.target == sync.target && after.revision == sync.revision && after.start
                == sync.start
        },
{
    lemma_row_has_places(sync.held, page, place);
}

/// What a page of history leads to: one that reaches the target completes the replay; a full one
/// that brings something new and stops short of the target is followed by the next; one that goes
/// back, or is short before it reaches what was asked for, makes no progress.
pub proof fn law_page_leads_on(
    terms: Generation,
    phase: PhaseView,
    startup: Option<i64>,
    seen: Observed,
    sync: GapView,
    cursor: i64,
    request_target: i64,
    page: Seq<Candle>,
    fresh: int,
)
    requires
        phase == (PhaseView::Draining { sync, cursor, request_target, page: Ok(page) }) || phase == (
        PhaseView::FollowingUp { sync, cursor, request_target, page: Ok(page) }),
        !seen.cancelled,
        0 <= fresh < page.len(),
    ensures
        ({
            let step = terms.next(phase, startup, LiveEvent::NothingReady, seen);
            let last = page.last().opens_at();
            let spent = sync.pages == usize::MAX || (
            terms.reconciliation matches ReconciliationPolicy::Bounded(limits) && sync.pages
                >= limits.max_pages);
            &&& last < cursor ==> makes_no_progress(step, request_target, Some(last))
            &&& last >= cursor && last >= sync.target ==> (step.1 matches ActionView::Register(
                expected,
            ) && step.0 is Registering && expected.generation
                == terms.generation && expected.revision == sync.revision
                && expected.target_open_time == sync.target)
            &&& last >= cursor && last < sync.target && last < request_target && page.len()
                < terms.gap_page_limit ==> makes_no_progress(step, request_target, Some(last))
            &&& last >= cursor && last < sync.target && page.len() >= terms.gap_page_limit
                && !sync.held.contains_key(page[fresh].opens_at()) && !spent ==> wants(
                step,
                last + 1,
                sync.target as int,
                terms.gap_page_limit,
            )
            &&& last >= cursor && last < sync.target && last >= request_target && !spent ==> wants(
                step,
                last + 1,
                sync.target as int,
                terms.gap_page_limit,
            )
        }),
{
    if !crate::provider::runtime::buffer::accepts_any(sync.held, page) {
        lemma_nothing_new(sync.held, page, fresh);
    }
}

/// History that has nothing at all completes a replay only where the consumer has nothing either and
/// the gap was asked for from its start; otherwise it makes no progress.
pub proof fn law_empty_page_leads_on(
    terms: Generation,
    phase: PhaseView,
    startup: Option<i64>,
    seen: Observed,
    sync: GapView,
    cursor: i64,
    request_target: i64,
)
    requires
        phase == (PhaseView::Draining {
            sync,
            cursor,
            request_target,
            page: Ok(Seq::<Candle>::empty()),
        }) || phase == (PhaseView::FollowingUp {
            sync,
            cursor,
            request_target,
            page: Ok(Seq::<Candle>::empty()),
        }),
        !seen.cancelled,
    ensures
        ({
            let step = terms.next(phase, startup, LiveEvent::NothingReady, seen);
            &&& sync.confirmed is None && cursor == sync.start ==> step.0 == (
            PhaseView::Registering { sync }) && step.1 is Register
            &&& sync.confirmed is Some || cursor != sync.start ==> makes_no_progress(
                step,
                request_target,
                None,
            )
        }),
{
}

/// Once connected, every candle of the stream is held until there is room for it, unless the feed is
/// behind by as many opening times as it may hold; the connection is then given up.
pub proof fn law_connected_candle_is_held(
    terms: Generation,
    queued: bool,
    held: Map<i64, Candle>,
    startup: Option<i64>,
    candle: Candle,
    seen: Observed,
)
    requires
        !terms.rotation.elapsed(seen.now),
        is_streamed(candle),
    ensures
        ({
            let phase = PhaseView::Connected { queued, held };
            let event = LiveEvent::Socket(Ok(LiveSocketEvent::Candle(candle)));
            let step = terms.next(phase, startup, event, seen);
            let full = held.dom().len() == terms.keyed_candle_capacity && !held.contains_key(
                candle.opens_at(),
            );
            &&& !full ==> (step.0 matches PhaseView::Connected {
                queued: announced,
                held: after,
            } && step.1 is Wait && announced == queued && has_place(after, candle) && (held.contains_key(
                candle.opens_at(),
            ) && held[candle.opens_at()].authority == FinalityAuthority::WsAuthoritativeClosed
                && candle.authority != FinalityAuthority::WsAuthoritativeClosed
                || after[candle.opens_at()] == candle) && forall|key: i64|
                key != candle.opens_at() ==> (#[trigger] after.contains_key(key)
                    <==> held.contains_key(key)) && after[key] == held[key])
            &&& full && queued ==> step.1 == ActionView::Finish(
                Ok(GenerationOutcome::AcknowledgedReconnect(ProviderError::QueueSaturated)),
            )
            &&& full && !queued ==> step.1 == ActionView::Finish(
                Ok(GenerationOutcome::Reconnect(ProviderError::QueueSaturated)),
            )
        }),
{
}

/// Once the consumer was told of the connection, each room in its queue takes the held candle that
/// opens first, and that one only.
pub proof fn law_earliest_candle_is_passed_on(
    terms: Generation,
    held: Map<i64, Candle>,
    startup: Option<i64>,
    seen: Observed,
    first: Candle,
)
    requires
        held.contains_key(first.opens_at()),
        held[first.opens_at()] == first,
        forall|key: i64| #[trigger] held.contains_key(key) ==> first.opens_at() <= key,
    ensures
        terms.next(
            PhaseView::Connected { queued: true, held },
            startup,
            LiveEvent::Room(Ok(())),
            seen,
        ) == (
            PhaseView::Connected { queued: true, held: held.remove(first.opens_at()) },
            ActionView::Emit(first),
        ),
{
    let least = Generation::least(held);
    assert(held.dom().contains(first.opens_at()));
    assert(held.contains_key(least.opens_at()) && held[least.opens_at()] == least && forall|key: i64|
     #[trigger]
        held.contains_key(key) ==> least.opens_at() <= key);
}

/// Whether a phase holds finitely many candles, each under its own opening time.
pub open spec fn is_orderly(phase: PhaseView) -> bool {
    gap_of(phase) matches Some(sync) ==> crate::provider::runtime::buffer::keyed_by_open_time(
        sync.held,
    ) && sync.held.dom().finite()
}

/// Whether whatever replay a phase may still come to holds a candle and reaches it.
spec fn carries(phase: PhaseView, candle: Candle) -> bool {
    match phase {
        PhaseView::AwaitFirst { .. } => false,
        PhaseView::Connected { .. } => true,
        PhaseView::Ended => true,
        _ => has_place(gap_of(phase)->0.held, candle) && candle.opens_at() <= gap_of(
            phase,
        )->0.target,
    }
}

proof fn lemma_row_is_orderly(held: Map<i64, Candle>, row: Seq<Candle>)
    requires
        crate::provider::runtime::buffer::keyed_by_open_time(held),
        held.dom().finite(),
    ensures
        crate::provider::runtime::buffer::keyed_by_open_time(
            crate::provider::runtime::buffer::coalesce_all(held, row),
        ),
        crate::provider::runtime::buffer::coalesce_all(held, row).dom().finite(),
    decreases row.len(),
{
    if row.len() > 0 {
        lemma_row_is_orderly(held, row.drop_last());
        let before = crate::provider::runtime::buffer::coalesce_all(held, row.drop_last());
        let candle = row.last();
        assert(before.insert(candle.opens_at(), candle).dom() =~= before.dom().insert(
            candle.opens_at(),
        ));
    }
}

proof fn lemma_extended_is_orderly(terms: Generation, sync: GapView, candle: Candle)
    requires
        crate::provider::runtime::buffer::keyed_by_open_time(sync.held),
        sync.held.dom().finite(),
    ensures
        terms.extended(sync, candle) matches Ok(next)
            ==> crate::provider::runtime::buffer::keyed_by_open_time(next.held)
            && next.held.dom().finite(),
{
    let row = seq![candle];
    lemma_row_is_orderly(sync.held, row);
    assert(row.drop_last() =~= Seq::<Candle>::empty());
    assert(row.last() == candle);
    reveal_with_fuel(crate::provider::runtime::buffer::coalesce_all, 2);
    assert(crate::provider::runtime::buffer::coalesce_all(sync.held, row)
        == crate::provider::runtime::buffer::coalesce(sync.held, candle));
}

proof fn lemma_turned_is_orderly(
    terms: Generation,
    sync: GapView,
    cursor: i64,
    request_target: i64,
    page: Result<Seq<Candle>, ProviderError>,
)
    requires
        crate::provider::runtime::buffer::keyed_by_open_time(sync.held),
        sync.held.dom().finite(),
    ensures
        is_orderly(terms.turned(sync, cursor, request_target, page).0),
{
    if let Ok(candles) = page {
        lemma_row_is_orderly(sync.held, candles);
    }
}

proof fn lemma_following_is_orderly(
    terms: Generation,
    sync: GapView,
    cursor: i64,
    request_target: i64,
    page: Result<Seq<Candle>, ProviderError>,
    event: LiveEvent,
    seen: Observed,
)
    requires
        crate::provider::runtime::buffer::keyed_by_open_time(sync.held),
        sync.held.dom().finite(),
    ensures
        is_orderly(terms.step_following(sync, cursor, request_target, page, event, seen).0),
{
    lemma_turned_is_orderly(terms, sync, cursor, request_target, page);
    if let LiveEvent::Socket(input) = event {
        if let Ok(LiveSocketEvent::Candle(candle)) = input {
            lemma_extended_is_orderly(terms, sync, candle);
        }
        if let Ok(next) = terms.streamed(sync, input) {
            lemma_turned_is_orderly(terms, next, cursor, request_target, page);
        }
    }
}

/// Whatever happens, a generation holds finitely many candles, each under its own opening time.
pub proof fn law_phases_stay_orderly(
    terms: Generation,
    phase: PhaseView,
    startup: Option<i64>,
    event: LiveEvent,
    seen: Observed,
)
    requires
        is_orderly(phase),
    ensures
        is_orderly(terms.next(phase, startup, event, seen).0),
{
    match phase {
        PhaseView::AwaitFirst { .. } => {
            lemma_first_is_orderly(terms, phase, startup, event, seen);
        },
        PhaseView::Fetching { sync, .. } => {
            if let LiveEvent::Socket(Ok(LiveSocketEvent::Candle(candle))) = event {
                lemma_extended_is_orderly(terms, sync, candle);
            }
        },
        PhaseView::Draining { sync, cursor, request_target, page } => {
            lemma_following_is_orderly(terms, sync, cursor, request_target, page, event, seen);
        },
        PhaseView::FollowingUp { sync, cursor, request_target, page } => {
            lemma_following_is_orderly(terms, sync, cursor, request_target, page, event, seen);
        },
        PhaseView::AwaitAck { sync, .. } => {
            if let LiveEvent::Socket(Ok(LiveSocketEvent::Candle(candle))) = event {
                lemma_extended_is_orderly(terms, sync, candle);
            }
        },
        _ => {},
    }
}

proof fn lemma_first_is_orderly(
    terms: Generation,
    phase: PhaseView,
    startup: Option<i64>,
    event: LiveEvent,
    seen: Observed,
)
    requires
        phase is AwaitFirst,
    ensures
        is_orderly(terms.next(phase, startup, event, seen).0),
{
    let empty = Map::<i64, Candle>::empty();
    if let LiveEvent::Socket(Ok(LiveSocketEvent::Candle(first))) = event {
        assert(empty.insert(first.opens_at(), first).dom() =~= empty.dom().insert(
            first.opens_at(),
        ));
    }
}

proof fn lemma_carries_on(
    terms: Generation,
    phase: PhaseView,
    startup: Option<i64>,
    happening: Happening,
    candle: Candle,
)
    requires
        carries(phase, candle),
    ensures
        carries(terms.next(phase, startup, happening.event, happening.seen).0, candle),
{
    let next = terms.next(phase, startup, happening.event, happening.seen).0;
    if gap_of(phase) is Some {
        lemma_no_way_back(terms, phase, startup, happening);
        if gap_of(next) is Some {
            crate::provider::runtime::generation_laws::law_gap_only_grows(
                terms,
                phase,
                startup,
                happening.event,
                happening.seen,
            );
            let key = candle.opens_at();
            assert(gap_of(phase)->0.held.contains_key(key));
        }
    }
}

proof fn lemma_no_way_back(
    terms: Generation,
    phase: PhaseView,
    startup: Option<i64>,
    happening: Happening,
)
    requires
        gap_of(phase) is Some,
    ensures
        !(terms.next(phase, startup, happening.event, happening.seen).0 is AwaitFirst),
{
}

proof fn lemma_course(
    terms: Generation,
    phase: PhaseView,
    startup: Option<i64>,
    course: Seq<Happening>,
    from: int,
    to: int,
    candle: Candle,
)
    requires
        0 <= from <= to <= course.len(),
        carries(phase_after(terms, phase, startup, course.take(from)), candle),
    ensures
        carries(phase_after(terms, phase, startup, course.take(to)), candle),
    decreases to - from,
{
    if from < to {
        lemma_course(terms, phase, startup, course, from, to - 1, candle);
        assert(course.take(to).drop_last() =~= course.take(to - 1));
        lemma_carries_on(
            terms,
            phase_after(terms, phase, startup, course.take(to - 1)),
            startup,
            course[to - 1],
            candle,
        );
    }
}

proof fn lemma_course_is_orderly(
    terms: Generation,
    phase: PhaseView,
    startup: Option<i64>,
    course: Seq<Happening>,
    to: int,
)
    requires
        0 <= to <= course.len(),
        is_orderly(phase),
    ensures
        is_orderly(phase_after(terms, phase, startup, course.take(to))),
    decreases to,
{
    if 0 < to {
        lemma_course_is_orderly(terms, phase, startup, course, to - 1);
        assert(course.take(to).drop_last() =~= course.take(to - 1));
        law_phases_stay_orderly(
            terms,
            phase_after(terms, phase, startup, course.take(to - 1)),
            startup,
            course[to - 1].event,
            course[to - 1].seen,
        );
    }
}

proof fn lemma_streamed_is_carried(
    terms: Generation,
    phase: PhaseView,
    startup: Option<i64>,
    candle: Candle,
    seen: Observed,
)
    requires
        phase is Fetching || phase is Draining || phase is FollowingUp || phase is AwaitAck,
    ensures
        carries(
            terms.next(
                phase,
                startup,
                LiveEvent::Socket(Ok(LiveSocketEvent::Candle(candle))),
                seen,
            ).0,
            candle,
        ),
{
    let sync = gap_of(phase)->0;
    if let Ok(next) = terms.extended(sync, candle) {
        assert(has_place(next.held, candle));
        match phase {
            PhaseView::Draining { cursor, request_target, page, .. } => {
                if let Ok(candles) = page {
                    lemma_place_lasts(next.held, candles, candle);
                }
            },
            PhaseView::FollowingUp { cursor, request_target, page, .. } => {
                if let Ok(candles) = page {
                    lemma_place_lasts(next.held, candles, candle);
                }
            },
            _ => {},
        }
    }
}

/// Nothing that the stream sends while a gap is filled is lost: over the whole course of a generation,
/// every replay that is offered after such a candle came has a candle for its opening time that is to
/// be believed at least as much, and reaches that time.
pub proof fn law_replays_hold_what_was_streamed(
    terms: Generation,
    phase: PhaseView,
    startup: Option<i64>,
    course: Seq<Happening>,
    streamed: int,
    replayed: int,
    candle: Candle,
)
    requires
        is_orderly(phase),
        0 <= streamed < replayed < course.len(),
        course[streamed].event == LiveEvent::Socket(Ok(LiveSocketEvent::Candle(candle))),
        ({
            let then = phase_after(terms, phase, startup, course.take(streamed));
            then is Fetching || then is Draining || then is FollowingUp || then is AwaitAck
        }),
    ensures
        action_at(terms, phase, startup, course, replayed) matches ActionView::SendBatch {
            target_open_time,
            candles,
            ..
        } ==> {
            &&& candle.opens_at() <= target_open_time
            &&& exists|place: int|
                0 <= place < candles.len() && (#[trigger] candles[place]).opens_at()
                    == candle.opens_at() && candle.authority.rank()
                    <= candles[place].authority.rank()
        },
{
    let then = phase_after(terms, phase, startup, course.take(streamed));
    assert(course.take(streamed + 1).drop_last() =~= course.take(streamed));
    lemma_streamed_is_carried(terms, then, startup, candle, course[streamed].seen);
    lemma_course(terms, phase, startup, course, streamed + 1, replayed, candle);
    lemma_course_is_orderly(terms, phase, startup, course, replayed);
    let later = phase_after(terms, phase, startup, course.take(replayed));
    if action_at(terms, phase, startup, course, replayed) is SendBatch {
        lemma_batch(terms, later, startup, course[replayed], candle);
    }
}

proof fn lemma_only_registering_replays(
    terms: Generation,
    phase: PhaseView,
    startup: Option<i64>,
    happening: Happening,
)
    requires
        !(phase is Registering),
    ensures
        !(terms.next(phase, startup, happening.event, happening.seen).1 is SendBatch),
{
}

proof fn lemma_batch(
    terms: Generation,
    phase: PhaseView,
    startup: Option<i64>,
    happening: Happening,
    candle: Candle,
)
    requires
        is_orderly(phase),
        carries(phase, candle),
    ensures
        terms.next(phase, startup, happening.event, happening.seen).1 matches ActionView::SendBatch {
            target_open_time,
            candles,
            ..
        } ==> {
            &&& candle.opens_at() <= target_open_time
            &&& exists|place: int|
                0 <= place < candles.len() && (#[trigger] candles[place]).opens_at()
                    == candle.opens_at() && candle.authority.rank()
                    <= candles[place].authority.rank()
        },
{
    if let PhaseView::Registering { sync } = phase {
        crate::provider::runtime::buffer::law_listing_lists(sync.held);
        let candles = crate::provider::runtime::buffer::listing(sync.held);
        assert(sync.held.contains_key(candle.opens_at()));
        let place = choose|place: int|
            0 <= place < candles.len() && (#[trigger] candles[place]).opens_at()
                == candle.opens_at();
        assert(candles[place].opens_at() == candle.opens_at());
        assert(sync.held[candle.opens_at()] == candles[place]);
        assert(candle.authority.rank() <= candles[place].authority.rank());
        let action = terms.next(phase, startup, happening.event, happening.seen).1;
        if let ActionView::SendBatch { candles: sent, target_open_time, .. } = action {
            assert(target_open_time == sync.target);
            assert(sent == candles);
            assert(sent[place].opens_at() == candle.opens_at());
        }
    } else {
        lemma_only_registering_replays(terms, phase, startup, happening);
    }
}

/// An acknowledgement counts where it names this generation and the replay that was offered last, and
/// reaches the target: the feed is then connected with nothing held, or given up for the error that
/// came meanwhile. Any other acknowledgement changes nothing.
pub proof fn law_acknowledgement_connects(
    terms: Generation,
    sync: GapView,
    deadline: MonoInstant,
    deferred: Option<ProviderError>,
    startup: Option<i64>,
    ack: crate::provider::ReconcileAck,
    seen: Observed,
)
    ensures
        ({
            let phase = PhaseView::AwaitAck { sync, deadline, deferred };
            let step = terms.next(phase, startup, LiveEvent::Ack(Ok(ack)), seen);
            let counts = ack.generation.0 == terms.generation.0 && ack.revision.0
                == sync.revision.0 && ack.through >= sync.target;
            &&& counts && deferred is None ==> (step.0 matches PhaseView::Connected { queued, held }
                && step.1 is Wait && !queued && held == Map::<i64, Candle>::empty())
            &&& counts && deferred is Some ==> step.1 == ActionView::Finish(
                Ok(GenerationOutcome::Reconnect(deferred->0)),
            )
            &&& !counts ==> step.0 == phase && step.1 is Wait
        }),
{
}

/// A wait that takes too long is given up: for the first candle always, for an acknowledgement unless
/// one stands that counts.
pub proof fn law_deadlines_give_up(
    terms: Generation,
    sync: GapView,
    deadline: MonoInstant,
    startup: Option<i64>,
    seen: Observed,
)
    ensures
        terms.next(
            PhaseView::AwaitFirst { deadline },
            startup,
            LiveEvent::DeadlineElapsed,
            seen,
        ).1 matches ActionView::Finish(Ok(GenerationOutcome::Reconnect(error)))
            && error matches ProviderError::Timeout { kind, .. } && kind
            == crate::error::TimeoutKind::FirstKline,
        terms.next(
            PhaseView::AwaitFirst { deadline },
            startup,
            LiveEvent::Socket(Ok(LiveSocketEvent::Ignored)),
            seen,
        ).0 is AwaitFirst <==> seen.now.0 < deadline.0 && !terms.rotation.elapsed(seen.now),
        !(seen.acknowledged matches Ok(Some(ack)) && ack.generation == terms.generation
            && ack.revision == sync.revision && ack.through >= sync.target) ==> terms.next(
            PhaseView::AwaitAck { sync, deadline, deferred: None },
            startup,
            LiveEvent::DeadlineElapsed,
            seen,
        ).1 == ActionView::Finish(
            Ok(
                GenerationOutcome::Reconnect(
                    ProviderError::ReconcileAckTimeout {
                        generation: terms.generation,
                        revision: sync.revision,
                        target_open_time: sync.target,
                    },
                ),
            ),
        ),
        seen.acknowledged matches Ok(Some(ack)) ==> (ack.generation == terms.generation
            && ack.revision == sync.revision && ack.through >= sync.target ==> terms.next(
            PhaseView::AwaitAck { sync, deadline, deferred: None },
            startup,
            LiveEvent::DeadlineElapsed,
            seen,
        ).0 is Connected),
{
}

/// While history is awaited or in hand, a watermark of the consumer that lies beyond the target
/// becomes the target, and none else moves it; what is held and the number of the replay stay.
pub proof fn law_watermark_raises_the_target(
    terms: Generation,
    phase: PhaseView,
    startup: Option<i64>,
    watermark: Option<i64>,
    seen: Observed,
)
    requires
        phase is Fetching || phase is Draining,
        terms.reconciliation is Unbounded,
        !seen.cancelled,
    ensures
        ({
            let step = terms.next(phase, startup, LiveEvent::Watermark(Ok(watermark)), seen);
            let before = gap_of(phase)->0;
            &&& gap_of(step.0) matches Some(after) && after.target == (
            if watermark is Some && watermark->0 > before.target {
                watermark->0
            } else {
                before.target
            }) && after.held == before.held && after.revision == before.revision && after.start
                == before.start && after.pages == before.pages
            &&& phase is Fetching ==> step.0 is Fetching && step.1 is Wait
            &&& phase is Draining ==> step.0 is FollowingUp && step.1 is FollowUp
        }),
{
}

/// A page that arrives is kept while whatever else is ready is looked at.
pub proof fn law_page_is_kept_while_draining(
    terms: Generation,
    sync: GapView,
    cursor: i64,
    request_target: i64,
    startup: Option<i64>,
    page: Vec<Candle>,
    seen: Observed,
)
    requires
        !seen.cancelled,
    ensures
        terms.next(
            PhaseView::Fetching { sync, cursor, request_target },
            startup,
            LiveEvent::Page(Ok(page)),
            seen,
        ) == (
            PhaseView::Draining { sync, cursor, request_target, page: Ok(page@) },
            ActionView::Drain,
        ),
{
}

/// Where the wait for a page, or the page itself, ends in an error, so does the generation.
pub proof fn law_failed_page_ends(
    terms: Generation,
    sync: GapView,
    cursor: i64,
    request_target: i64,
    startup: Option<i64>,
    error: ProviderError,
    seen: Observed,
)
    requires
        !seen.cancelled,
    ensures
        terms.next(
            PhaseView::Draining { sync, cursor, request_target, page: Err(error) },
            startup,
            LiveEvent::NothingReady,
            seen,
        ) == (PhaseView::Ended, ActionView::Finish(Err(error))),
        terms.next(
            PhaseView::FollowingUp { sync, cursor, request_target, page: Err(error) },
            startup,
            LiveEvent::NothingReady,
            seen,
        ) == (PhaseView::Ended, ActionView::Finish(Err(error))),
{
}

/// What the socket fails with while a gap is filled ends the feed where no further attempt can mend
/// it, and the connection where one may; what it fails with before or while an acknowledgement is
/// awaited ends the generation.
pub proof fn law_socket_failures_end(
    terms: Generation,
    phase: PhaseView,
    startup: Option<i64>,
    error: ProviderError,
    seen: Observed,
)
    requires
        !seen.cancelled,
        !(phase is Registering || phase is Publishing || phase is Ended),
        phase is Connected ==> !terms.rotation.elapsed(seen.now),
    ensures
        ({
            let step = terms.next(phase, startup, LiveEvent::Socket(Err(error)), seen);
            &&& step.0 is Ended
            &&& phase is AwaitFirst || phase is AwaitAck ==> step.1 == ActionView::Finish(Err(error))
            &&& crate::provider::runtime::live::terminal(error) ==> step.1 == ActionView::Finish(
                Err(error),
            )
            &&& (phase is Fetching || phase is Draining || phase is FollowingUp)
                && !crate::provider::runtime::live::terminal(error) ==> step.1
                == ActionView::Finish(Ok(GenerationOutcome::Reconnect(error)))
            &&& phase matches PhaseView::Connected { queued, .. } ==> (
            !crate::provider::runtime::live::terminal(error) ==> step.1 == ActionView::Finish(
                Ok(
                    if queued {
                        GenerationOutcome::AcknowledgedReconnect(error)
                    } else {
                        GenerationOutcome::Reconnect(error)
                    },
                ),
            ))
        }),
{
}

/// An error that the stream reports ends the feed where it is terminal. Where it is not, it ends the
/// connection, but for a replay that is out for acknowledgement: there it waits.
pub proof fn law_reported_errors(
    terms: Generation,
    phase: PhaseView,
    startup: Option<i64>,
    error: ProviderError,
    seen: Observed,
)
    requires
        !seen.cancelled,
        !(phase is Registering || phase is Publishing || phase is Ended),
        phase is Connected ==> !terms.rotation.elapsed(seen.now),
    ensures
        ({
            let event = LiveEvent::Socket(Ok(LiveSocketEvent::DecodedError(error)));
            let step = terms.next(phase, startup, event, seen);
            let mendable = !crate::provider::runtime::live::terminal(error);
            &&& !mendable ==> step.0 is Ended && step.1 == ActionView::Finish(Err(error))
            &&& mendable && (phase matches PhaseView::AwaitAck { .. }) ==> gap_of(step.0) == gap_of(
                phase,
            ) && step.1 is Wait && (step.0 matches PhaseView::AwaitAck { deferred, .. } && deferred
                == Some(error))
            &&& mendable && (phase is AwaitFirst || phase is Fetching || phase is Draining
                || phase is FollowingUp) ==> step.1 == ActionView::Finish(
                Ok(GenerationOutcome::Reconnect(error)),
            )
            &&& mendable && phase is Connected ==> step.1 == ActionView::Finish(
                Ok(
                    if phase->queued {
                        GenerationOutcome::AcknowledgedReconnect(error)
                    } else {
                        GenerationOutcome::Reconnect(error)
                    },
                ),
            )
        }),
{
}

/// A peer that asks to be connected to anew is, whatever the phase that listens to it.
pub proof fn law_requested_reconnect_ends(
    terms: Generation,
    phase: PhaseView,
    startup: Option<i64>,
    seen: Observed,
)
    requires
        !seen.cancelled,
        !(phase is Registering || phase is Publishing || phase is Ended),
    ensures
        ({
            let event = LiveEvent::Socket(Ok(LiveSocketEvent::ReconnectRequested));
            let step = terms.next(phase, startup, event, seen);
            let told = phase matches PhaseView::Connected { queued, .. } && queued;
            &&& step.0 is Ended
            &&& told ==> (
            step.1 matches ActionView::Finish(Ok(GenerationOutcome::AcknowledgedReconnect(error)))
                && error is Protocol)
            &&& !told ==> (
            step.1 matches ActionView::Finish(Ok(GenerationOutcome::Reconnect(error)))
                && error is Protocol)
        }),
{
}

/// A frame that means nothing changes nothing while history is awaited or the feed is connected.
pub proof fn law_ignored_frames_change_nothing(
    terms: Generation,
    phase: PhaseView,
    startup: Option<i64>,
    seen: Observed,
)
    requires
        !seen.cancelled,
        phase is Fetching || phase is Connected,
        !terms.rotation.elapsed(seen.now),
    ensures
        terms.next(phase, startup, LiveEvent::Socket(Ok(LiveSocketEvent::Ignored)), seen) == (
            phase,
            ActionView::Wait,
        ),
{
}

/// A connection that is too old is given up in every phase that waits, as one that had worked where
/// the consumer was told of it.
pub proof fn law_age_ends(
    terms: Generation,
    phase: PhaseView,
    startup: Option<i64>,
    seen: Observed,
)
    requires
        !seen.cancelled,
        !(phase is Ended),
        terms.rotation.due is Some,
    ensures
        ({
            let step = terms.next(phase, startup, LiveEvent::RotationElapsed, seen);
            let queued = phase matches PhaseView::Connected { queued, .. } && queued;
            &&& step.0 is Ended
            &&& queued ==> (step.1 matches ActionView::Finish(
                Ok(GenerationOutcome::AcknowledgedReconnect(error)),
            ) && error matches ProviderError::Protocol { detail, .. } && detail
                == (terms.rotation.due->0).1)
            &&& !queued ==> (step.1 matches ActionView::Finish(
                Ok(GenerationOutcome::Reconnect(error)),
            ) && error matches ProviderError::Protocol { detail, .. } && detail
                == (terms.rotation.due->0).1)
        }),
{
}

/// An open gate, or one that opens at a time, stops nothing.
pub proof fn law_gate_that_is_not_blocked_stops_nothing(
    terms: Generation,
    phase: PhaseView,
    startup: Option<i64>,
    state: RateGateState,
    seen: Observed,
)
    requires
        !seen.cancelled,
        state is Open || state is TimedUntil,
        phase is AwaitFirst || phase is Fetching || phase is Registering || phase is Publishing
            || phase is AwaitAck || phase is Connected,
    ensures
        terms.next(phase, startup, LiveEvent::Gate(Ok(state)), seen) == (phase, ActionView::Wait),
{
}

/// A replay that the consumer's queue has taken is awaited for as long as the terms say.
pub proof fn law_replay_is_awaited(
    terms: Generation,
    sync: GapView,
    startup: Option<i64>,
    seen: Observed,
)
    requires
        seen.now.0 + crate::clock::duration_nanos(terms.reconcile_ack_timeout) <= u64::MAX,
    ensures
        ({
            let step = terms.next(
                PhaseView::Publishing { sync },
                startup,
                LiveEvent::Sent(Ok(())),
                seen,
            );
            step.0 matches PhaseView::AwaitAck { sync: same, deadline, deferred } && step.1 is Wait
                && same == sync && deferred is None && deadline.0 == seen.now.0
                + crate::clock::duration_nanos(terms.reconcile_ack_timeout)
        }),
{
}

/// The news of the connection is told once: a feed passes nothing on before its queue has taken it.
pub proof fn law_nothing_is_passed_on_unannounced(
    terms: Generation,
    phase: PhaseView,
    startup: Option<i64>,
    event: LiveEvent,
    seen: Observed,
)
    ensures
        terms.next(phase, startup, event, seen).1 matches ActionView::Emit(candle) ==> (
        phase matches PhaseView::Connected { queued, held } && queued),
        phase matches PhaseView::Connected { queued, held } ==> terms.next(
            phase,
            startup,
            LiveEvent::Sent(Ok(())),
            seen,
        ) == (PhaseView::Connected { queued: true, held }, ActionView::Wait),
{
}

/// Where the first candle and the watermarks open a gap: from the later of the watermarks that there
/// are, or from the candle.
pub open spec fn gap_start(first: Candle, accepted: Option<i64>, startup: Option<i64>) -> i64 {
    if accepted is Some && (startup is None || accepted->0 >= startup->0) {
        accepted->0
    } else if startup is Some {
        startup->0
    } else {
        first.opens_at()
    }
}

/// A bounded generation opens a gap just as an unbounded one does where the gap is within its span,
/// and ends in the words of that limit where it is not.
pub proof fn law_bounded_gaps_open_within_their_span(
    terms: Generation,
    deadline: MonoInstant,
    startup: Option<i64>,
    first: Candle,
    seen: Observed,
    accepted: Option<i64>,
    limits: crate::provider::runtime::config::ReconciliationLimits,
)
    requires
        seen.accepted == Ok::<Option<i64>, crate::provider::AcceptedWatermarkClosed>(accepted),
        terms.reconciliation == ReconciliationPolicy::Bounded(limits),
        limits.max_successors < usize::MAX,
        limits.max_pages > 0,
    ensures
        ({
            let event = LiveEvent::Socket(Ok(LiveSocketEvent::Candle(first)));
            let step = terms.next(PhaseView::AwaitFirst { deadline }, startup, event, seen);
            let start = gap_start(first, accepted, startup);
            let target = if first.opens_at() > start {
                first.opens_at()
            } else {
                start
            };
            let near = crate::provider::runtime::reconcile::within_span(
                terms.market.timeframe,
                start,
                target,
                limits.max_successors as int,
            );
            &&& near ==> wants(step, start as int, target as int, terms.gap_page_limit)
            &&& near ==> (gap_of(step.0) matches Some(gap) && gap.start == start && gap.target
                == target && gap.pages == 1 && gap.synced is None && (first.opens_at() >= start
                ==> gap.held.contains_key(first.opens_at()) && gap.held[first.opens_at()] == first))
            &&& !near ==> (step.1 matches ActionView::Finish(
                Err(ProviderError::Protocol { detail, .. }),
            ) && detail == limits.span_exceeded)
        }),
{
    let empty = Map::<i64, Candle>::empty();
    assert(empty.dom() =~= Set::<i64>::empty());
    assert(empty.dom().len() == 0);
    let start = gap_start(first, accepted, startup);
    assert(crate::model::later_watermark(accepted, startup) is Some
        ==> crate::model::later_watermark(accepted, startup)->0 == start);
}

/// A candle that a bounded policy has no room for ends the generation in the words of the limit; one
/// for which no further replay can be numbered ends it too.
pub proof fn law_refused_candles_end(
    terms: Generation,
    phase: PhaseView,
    startup: Option<i64>,
    candle: Candle,
    seen: Observed,
)
    requires
        phase is Fetching || phase is Draining || phase is FollowingUp || phase is AwaitAck,
        !seen.cancelled,
        !admits(terms, gap_of(phase)->0, candle) || (gap_of(phase)->0).revision.0 == u64::MAX,
    ensures
        ({
            let event = LiveEvent::Socket(Ok(LiveSocketEvent::Candle(candle)));
            let step = terms.next(phase, startup, event, seen);
            &&& step.0 is Ended
            &&& step.1 matches ActionView::Finish(Err(_))
            &&& terms.reconciliation matches ReconciliationPolicy::Bounded(limits) ==> (
            limits.max_successors < usize::MAX && !admits(terms, gap_of(phase)->0, candle) ==> (
            step.1 matches ActionView::Finish(Err(ProviderError::Protocol { detail, .. })) && (detail
                == limits.span_exceeded || detail == limits.distinct_exceeded)))
        }),
{
}

/// A generation that has asked for as many pages as it may ends, in the words of that limit, rather
/// than ask for another.
pub proof fn law_spent_pages_end(
    terms: Generation,
    phase: PhaseView,
    startup: Option<i64>,
    seen: Observed,
    sync: GapView,
    cursor: i64,
    request_target: i64,
    page: Seq<Candle>,
    limits: crate::provider::runtime::config::ReconciliationLimits,
)
    requires
        phase == (PhaseView::Draining { sync, cursor, request_target, page: Ok(page) }) || phase == (
        PhaseView::FollowingUp { sync, cursor, request_target, page: Ok(page) }),
        !seen.cancelled,
        terms.reconciliation == ReconciliationPolicy::Bounded(limits),
        limits.max_pages <= sync.pages < usize::MAX,
        page.len() > 0,
        cursor <= page.last().opens_at() < sync.target,
        request_target <= page.last().opens_at(),
    ensures
        terms.next(phase, startup, LiveEvent::NothingReady, seen).1 matches ActionView::Finish(
            Err(ProviderError::Protocol { detail, .. }),
        ) && detail == limits.page_exceeded,
{
}

/// A bounded generation follows the consumer's watermark as far as its span, and ends in the words of
/// that limit where the watermark lies beyond it.
pub proof fn law_watermarks_are_followed_within_the_span(
    terms: Generation,
    phase: PhaseView,
    startup: Option<i64>,
    watermark: i64,
    seen: Observed,
    limits: crate::provider::runtime::config::ReconciliationLimits,
)
    requires
        phase is Fetching || phase is Draining,
        terms.reconciliation == ReconciliationPolicy::Bounded(limits),
        !seen.cancelled,
    ensures
        ({
            let step = terms.next(phase, startup, LiveEvent::Watermark(Ok(Some(watermark))), seen);
            let before = gap_of(phase)->0;
            let target = if watermark > before.target {
                watermark
            } else {
                before.target
            };
            let near = crate::provider::runtime::reconcile::within_span(
                terms.market.timeframe,
                before.start,
                target,
                limits.max_successors as int,
            );
            &&& near ==> (gap_of(step.0) matches Some(after) && after.target == target && after.held
                == before.held && after.revision == before.revision)
            &&& !near ==> (step.1 matches ActionView::Finish(
                Err(ProviderError::Protocol { detail, .. }),
            ) && detail == limits.span_exceeded)
        }),
{
}

/// Once the replay is made up, a watermark changes nothing any more, and neither does an
/// acknowledgement before there is anything to acknowledge.
pub proof fn law_words_out_of_turn_change_nothing(
    terms: Generation,
    phase: PhaseView,
    startup: Option<i64>,
    watermark: Option<i64>,
    ack: crate::provider::ReconcileAck,
    seen: Observed,
)
    requires
        !seen.cancelled,
    ensures
        phase is Registering || phase is Publishing || phase is AwaitAck || phase is Connected
            || phase is AwaitFirst ==> terms.next(
            phase,
            startup,
            LiveEvent::Watermark(Ok(watermark)),
            seen,
        ) == (phase, ActionView::Wait),
        phase is Registering || phase is Publishing || phase is Connected || phase is Fetching
            || phase is AwaitFirst ==> terms.next(phase, startup, LiveEvent::Ack(Ok(ack)), seen) == (
            phase,
            ActionView::Wait,
        ),
{
}

/// A consumer that is gone, or a gate that is, ends a generation in every phase, and so does a queue
/// that takes no more.
pub proof fn law_lost_channels_end(
    terms: Generation,
    phase: PhaseView,
    startup: Option<i64>,
    error: ProviderError,
    seen: Observed,
)
    requires
        !(phase is Ended),
        !seen.cancelled,
    ensures
        terms.next(
            phase,
            startup,
            LiveEvent::Watermark(Err(crate::provider::AcceptedWatermarkClosed)),
            seen,
        ).1 matches ActionView::Finish(Err(ProviderError::ChannelClosed { .. })),
        terms.next(
            phase,
            startup,
            LiveEvent::Ack(Err(crate::provider::ReconcileAckClosed)),
            seen,
        ).1 matches ActionView::Finish(Err(ProviderError::ChannelClosed { .. })),
        terms.next(
            phase,
            startup,
            LiveEvent::Gate(Err(crate::provider::RateGateClosed)),
            seen,
        ).1 matches ActionView::Finish(Err(ProviderError::Invariant(_))),
        phase is Publishing || phase is Connected ==> terms.next(
            phase,
            startup,
            LiveEvent::Sent(Err(error)),
            seen,
        ).1 == ActionView::Finish(Err(error)),
        phase is Connected ==> terms.next(phase, startup, LiveEvent::Room(Err(error)), seen).1
            == ActionView::Finish(Err(error)),
        phase is Registering ==> (terms.next(
            phase,
            startup,
            LiveEvent::Registered(Err(crate::provider::ReconcileExpectationError::Closed)),
            seen,
        ).1 matches ActionView::Finish(Err(ProviderError::ChannelClosed { .. }))),
        phase is Registering ==> (terms.next(
            phase,
            startup,
            LiveEvent::Registered(Err(crate::provider::ReconcileExpectationError::Conflict)),
            seen,
        ).1 matches ActionView::Finish(Err(ProviderError::Invariant(_)))),
        phase is Registering ==> (terms.next(
            phase,
            startup,
            LiveEvent::Registered(Err(crate::provider::ReconcileExpectationError::Regression)),
            seen,
        ).1 matches ActionView::Finish(Err(ProviderError::Invariant(_)))),
{
}

/// Once its expectation is registered, or stands already, the replay is sent: all that is held, by
/// rising opening time, under its number and up to its target.
pub proof fn law_registered_replays_are_sent(
    terms: Generation,
    sync: GapView,
    startup: Option<i64>,
    update: crate::provider::ExpectationUpdate,
    seen: Observed,
    key: i64,
)
    requires
        crate::provider::runtime::buffer::keyed_by_open_time(sync.held),
        sync.held.dom().finite(),
    ensures
        ({
            let step = terms.next(
                PhaseView::Registering { sync },
                startup,
                LiveEvent::Registered(Ok(update)),
                seen,
            );
            &&& step.0 == (PhaseView::Publishing { sync })
            &&& step.1 matches ActionView::SendBatch {
                generation,
                revision,
                target_open_time,
                candles,
            } && generation == terms.generation && revision == sync.revision && target_open_time
                == sync.target && (forall|i: int, j: int|
                0 <= i < j < candles.len() ==> (#[trigger] candles[i]).opens_at() < (
                #[trigger] candles[j]).opens_at()) && (sync.held.contains_key(key) ==> exists|i: int|
                0 <= i < candles.len() && #[trigger] candles[i] == sync.held[key]) && (forall|i: int|
                0 <= i < candles.len() ==> sync.held.contains_key(
                    (#[trigger] candles[i]).opens_at(),
                ))
        }),
{
    crate::provider::runtime::buffer::law_listing_lists(sync.held);
    let candles = crate::provider::runtime::buffer::listing(sync.held);
    if sync.held.contains_key(key) {
        let i = choose|i: int|
            0 <= i < candles.len() && (#[trigger] candles[i]).opens_at() == key;
        assert(candles[i] == sync.held[key]);
    }
    let step = terms.next(
        PhaseView::Registering { sync },
        startup,
        LiveEvent::Registered(Ok(update)),
        seen,
    );
    assert(step.0 == PhaseView::Publishing { sync });
    if let ActionView::SendBatch { candles: sent, .. } = step.1 {
        assert(sent == candles);
    }
}

/// A frame without meaning gives the wait for an acknowledgement a chance to end: with the
/// acknowledgement, where one stands that counts; or with its time, where that is up.
pub proof fn law_silence_lets_waits_end(
    terms: Generation,
    sync: GapView,
    deadline: MonoInstant,
    startup: Option<i64>,
    seen: Observed,
    standing: Option<crate::provider::ReconcileAck>,
)
    requires
        seen.acknowledged == Ok::<
            Option<crate::provider::ReconcileAck>,
            crate::provider::ReconcileAckClosed,
        >(standing),
    ensures
        ({
            let phase = PhaseView::AwaitAck { sync, deadline, deferred: None };
            let event = LiveEvent::Socket(Ok(LiveSocketEvent::Ignored));
            let step = terms.next(phase, startup, event, seen);
            let counts = standing is Some && standing->0.generation == terms.generation
                && standing->0.revision == sync.revision && standing->0.through >= sync.target;
            &&& counts ==> step.0 is Connected && step.1 is Wait
            &&& !counts && seen.now.0 < deadline.0 ==> step.0 == phase && step.1 is Wait
            &&& !counts && seen.now.0 >= deadline.0 ==> (step.1 matches ActionView::Finish(
                Ok(GenerationOutcome::Reconnect(ProviderError::ReconcileAckTimeout { .. })),
            ))
        }),
{
}

/// A violation of the protocol is told in its own words, and the connection is made anew.
pub proof fn law_violations_end(
    terms: Generation,
    phase: PhaseView,
    startup: Option<i64>,
    words: &'static str,
    seen: Observed,
)
    requires
        !seen.cancelled,
        !(phase is Registering || phase is Publishing || phase is Ended),
        phase is Connected ==> !terms.rotation.elapsed(seen.now),
    ensures
        ({
            let event = LiveEvent::Socket(Ok(LiveSocketEvent::ProtocolViolation(words)));
            let step = terms.next(phase, startup, event, seen);
            let told = phase matches PhaseView::Connected { queued, .. } && queued;
            &&& told ==> (step.1 matches ActionView::Finish(
                Ok(GenerationOutcome::AcknowledgedReconnect(ProviderError::Protocol { detail, .. })),
            ) && detail == words)
            &&& !told ==> (step.1 matches ActionView::Finish(
                Ok(GenerationOutcome::Reconnect(ProviderError::Protocol { detail, .. })),
            ) && detail == words)
        }),
{
}

/// A generation that is cancelled while a page is out or is being taken in ends, whatever happens
/// next: as cancelled, and as failed only where what happened is a failure. A socket that says
/// nothing, or asks for a reconnection, is none; a channel that is gone is one.
pub proof fn law_cancelled_pages_end(
    terms: Generation,
    phase: PhaseView,
    startup: Option<i64>,
    event: LiveEvent,
    seen: Observed,
)
    requires
        phase is Fetching || phase is Draining || phase is FollowingUp,
        seen.cancelled,
    ensures
        ({
            let step = terms.next(phase, startup, event, seen);
            let cancelled = step.1 matches ActionView::Finish(Ok(GenerationOutcome::Cancelled));
            &&& step.0 is Ended
            &&& cancelled || (step.1 matches ActionView::Finish(Err(_)))
            &&& phase is Fetching || event is NothingReady ==> cancelled
            &&& event == LiveEvent::Socket(Ok(LiveSocketEvent::Ignored)) ==> cancelled
            &&& event == LiveEvent::Socket(Ok(LiveSocketEvent::ReconnectRequested)) ==> cancelled
            &&& !(phase is Fetching) && event == LiveEvent::Ack(
                Err(crate::provider::ReconcileAckClosed),
            ) ==> (step.1 matches ActionView::Finish(Err(ProviderError::ChannelClosed { .. })))
            &&& !(phase is Fetching) && event == LiveEvent::Gate(
                Err(crate::provider::RateGateClosed),
            ) ==> (step.1 matches ActionView::Finish(Err(ProviderError::Invariant(_))))
        }),
{
}

} // verus!
