//! Filling the gap between what a consumer has and what a stream sends.
use vstd::prelude::*;

use crate::calendar::{calendar_month_index, fixed_timeframe_milliseconds};
use crate::candle::Candle;
use crate::error::{ErrorContext, ErrorOperation, ProviderError};
use crate::model::{ReplayRevision, Timeframe};
use crate::provider::runtime::buffer::KeyedCandleBuffer;
use crate::provider::runtime::config::{ReconciliationLimits, ReconciliationPolicy};

verus! {

/// Whether a target lies no more than so many periods behind a start. A target before the start
/// does. So does none whose reach cannot be counted on the clock, nor a month that the start or the
/// target does not open.
pub open spec fn within_span(
    timeframe: Timeframe,
    start: i64,
    target: i64,
    maximum_successors: int,
) -> bool {
    target < start || (maximum_successors <= i64::MAX && match crate::calendar::fixed_period(
        timeframe,
    ) {
        Some(period) => maximum_successors * period <= i64::MAX && start + maximum_successors
            * period <= i64::MAX && target <= start + maximum_successors * period,
        None => exists|first: int, last: int|
            #![trigger crate::calendar::opens_month(start, first), crate::calendar::opens_month(target, last)]
            crate::calendar::opens_month(start, first) && crate::calendar::opens_month(target, last)
                && last - first <= maximum_successors,
    })
}

/// Whether a policy lets a generation that began at `start` reconcile up to `target`.
pub open spec fn target_allowed(
    policy: ReconciliationPolicy,
    timeframe: Timeframe,
    start: i64,
    target: i64,
) -> bool {
    policy matches ReconciliationPolicy::Bounded(limits) ==> within_span(
        timeframe,
        start,
        target,
        limits.max_successors as int,
    )
}

pub open spec fn later(left: i64, right: i64) -> i64 {
    if left >= right {
        left
    } else {
        right
    }
}

/// What is said of a generation that would reconcile too far.
pub open spec fn span_error(limits: ReconciliationLimits) -> ProviderError {
    ProviderError::Protocol {
        context: ErrorContext::of(ErrorOperation::Reconciliation),
        detail: limits.span_exceeded,
    }
}

pub open spec fn distinct_error(limits: ReconciliationLimits) -> ProviderError {
    ProviderError::Protocol {
        context: ErrorContext::of(ErrorOperation::Reconciliation),
        detail: limits.distinct_exceeded,
    }
}

fn gap_target_within_generation_span(
    timeframe: Timeframe,
    start: i64,
    target: i64,
    maximum_successors: usize,
) -> (within: bool)
    ensures
        within == within_span(timeframe, start, target, maximum_successors as int),
{
    if target < start {
        return true;
    }
    if maximum_successors as u128 > i64::MAX as u128 {
        return false;
    }
    let successors: i64 = maximum_successors as i64;
    match fixed_timeframe_milliseconds(timeframe) {
        Some(interval) => match successors.checked_mul(interval) {
            None => false,
            Some(span) => match start.checked_add(span) {
                None => false,
                Some(maximum) => target <= maximum,
            },
        },
        None => {
            let first = calendar_month_index(start);
            let last = calendar_month_index(target);
            proof {
                if let Some(index) = first {
                    assert forall|other: int| #[trigger]
                        crate::calendar::opens_month(start, other) implies other == index by {
                        lemma_one_month(start, other, index as int);
                    }
                }
                if let Some(index) = last {
                    assert forall|other: int| #[trigger]
                        crate::calendar::opens_month(target, other) implies other == index by {
                        lemma_one_month(target, other, index as int);
                    }
                }
            }
            match (first, last) {
                (Some(start_index), Some(target_index)) => {
                    match target_index.checked_sub(start_index) {
                        None => false,
                        Some(distance) => distance <= successors,
                    }
                },
                _ => false,
            }
        },
    }
}

proof fn lemma_one_month(time: i64, left: int, right: int)
    requires
        crate::calendar::opens_month(time, left),
        crate::calendar::opens_month(time, right),
    ensures
        left == right,
{
    if left < right {
        crate::calendar::law_months_open_in_order(left, right);
    } else if right < left {
        crate::calendar::law_months_open_in_order(right, left);
    }
}

pub fn gap_target_within_generation_span_for_test(
    timeframe: Timeframe,
    start: i64,
    target: i64,
    maximum_successors: usize,
) -> (within: bool)
    ensures
        within == within_span(timeframe, start, target, maximum_successors as int),
{
    gap_target_within_generation_span(timeframe, start, target, maximum_successors)
}

/// Moves a generation's target on to a candidate that is later, as far as the policy lets it.
pub fn advance_reconciliation_target(
    target_open_time: &mut i64,
    candidate: i64,
    generation_start: i64,
    timeframe: Timeframe,
    policy: ReconciliationPolicy,
) -> (advanced: Result<(), ProviderError>)
    ensures
        if target_allowed(
            policy,
            timeframe,
            generation_start,
            later(*old(target_open_time), candidate),
        ) {
            advanced == Ok::<(), ProviderError>(()) && *final(target_open_time) == later(
                *old(target_open_time),
                candidate,
            )
        } else {
            advanced == Err::<(), ProviderError>(span_error(policy->Bounded_0))
                && *final(target_open_time) == *old(target_open_time)
        },
{
    let candidate_target: i64 = if *target_open_time >= candidate {
        *target_open_time
    } else {
        candidate
    };
    match policy {
        ReconciliationPolicy::Bounded(limits) => {
            if !gap_target_within_generation_span(
                timeframe,
                generation_start,
                candidate_target,
                limits.max_successors,
            ) {
                return Err(
                    ProviderError::Protocol {
                        context: ErrorContext::operation(ErrorOperation::Reconciliation),
                        detail: limits.span_exceeded,
                    },
                );
            }
        },
        ReconciliationPolicy::Unbounded => {},
    }
    *target_open_time = candidate_target;
    Ok(())
}

/// What keeps a candle out of a reconciliation that holds `held`, if anything does.
pub open spec fn refusal(
    policy: ReconciliationPolicy,
    timeframe: Timeframe,
    start: i64,
    held: Map<i64, Candle>,
    target: i64,
    candidate: Candle,
) -> Option<ProviderError> {
    match policy {
        ReconciliationPolicy::Unbounded => None,
        ReconciliationPolicy::Bounded(limits) => if limits.max_successors == usize::MAX {
            Some(ProviderError::Invariant("reconciliation buffer bound overflow"))
        } else if !held.contains_key(candidate.opens_at()) && held.dom().len()
            > limits.max_successors {
            Some(distinct_error(limits))
        } else if !target_allowed(policy, timeframe, start, later(target, candidate.opens_at())) {
            Some(span_error(limits))
        } else {
            None
        },
    }
}

/// Takes a streamed candle into a reconciliation: it moves the target and takes its place among
/// what is held.
pub fn apply_reconciliation_candle(
    pending: &mut KeyedCandleBuffer,
    candidate: Candle,
    target_open_time: &mut i64,
    generation_start: i64,
    timeframe: Timeframe,
    policy: ReconciliationPolicy,
) -> (applied: Result<bool, ProviderError>)
    requires
        old(pending).well_formed(),
    ensures
        final(pending).well_formed(),
        final(pending).limit() == old(pending).limit(),
        match refusal(
            policy,
            timeframe,
            generation_start,
            old(pending)@,
            *old(target_open_time),
            candidate,
        ) {
            Some(error) => applied == Err::<bool, ProviderError>(error) && final(pending)@ == old(pending)@ && *final(target_open_time) == *old(target_open_time),
            None => *final(target_open_time) == later(*old(target_open_time), candidate.opens_at())
                && (if !old(pending)@.contains_key(candidate.opens_at()) && old(pending).is_full() {
                applied == Err::<bool, ProviderError>(ProviderError::QueueSaturated) && final(pending)@ == old(pending)@
            } else {
                applied == Ok::<bool, ProviderError>(
                    crate::provider::runtime::buffer::supersedes(old(pending)@, candidate),
                ) && final(pending)@ == crate::provider::runtime::buffer::coalesce(
                    old(pending)@,
                    candidate,
                )
            }),
        },
{
    let open_time: i64 = candidate.open_time();
    match policy {
        ReconciliationPolicy::Bounded(limits) => {
            let distinct_limit: usize = match limits.max_successors.checked_add(1) {
                Some(limit) => limit,
                None => {
                    return Err(ProviderError::Invariant("reconciliation buffer bound overflow"));
                },
            };
            if !pending.contains_key(open_time) && pending.len() >= distinct_limit {
                return Err(
                    ProviderError::Protocol {
                        context: ErrorContext::operation(ErrorOperation::Reconciliation),
                        detail: limits.distinct_exceeded,
                    },
                );
            }
        },
        ReconciliationPolicy::Unbounded => {},
    }
    match advance_reconciliation_target(
        target_open_time,
        open_time,
        generation_start,
        timeframe,
        policy,
    ) {
        Ok(()) => {},
        Err(error) => {
            return Err(error);
        },
    }
    pending.push(candidate)
}

pub fn reconciliation_distinct_key_allowed_for_test(
    existing_len: usize,
    key_exists: bool,
    maximum_successors: usize,
) -> (allowed: bool)
    ensures
        allowed == (key_exists || existing_len < (if maximum_successors == usize::MAX {
            usize::MAX as int
        } else {
            maximum_successors + 1
        })),
{
    key_exists || existing_len < maximum_successors.saturating_add(1)
}

/// Takes a streamed candle into a reconciliation buffer and numbers the new replay.
pub fn buffer_reconciliation_candle(
    pending: &mut KeyedCandleBuffer,
    candidate: Candle,
    revision: &mut ReplayRevision,
    target_open_time: &mut i64,
    generation_start: i64,
    timeframe: Timeframe,
    policy: ReconciliationPolicy,
) -> (buffered: Result<(), ProviderError>)
    requires
        old(pending).well_formed(),
    ensures
        final(pending).well_formed(),
        final(pending).limit() == old(pending).limit(),
        match refusal(
            policy,
            timeframe,
            generation_start,
            old(pending)@,
            *old(target_open_time),
            candidate,
        ) {
            Some(error) => buffered == Err::<(), ProviderError>(error) && final(pending)@ == old(pending)@ && *final(target_open_time) == *old(target_open_time) && *final(revision) == *old(revision),
            None => {
                &&& *final(target_open_time) == later(*old(target_open_time), candidate.opens_at())
                &&& if !old(pending)@.contains_key(candidate.opens_at())
                    && old(pending).is_full() {
                    &&& buffered == Err::<(), ProviderError>(ProviderError::QueueSaturated)
                    &&& final(pending)@ == old(pending)@
                    &&& *final(revision) == *old(revision)
                } else {
                    &&& final(pending)@ == crate::provider::runtime::buffer::coalesce(
                        old(pending)@,
                        candidate,
                    )
                    &&& if old(revision).0 == u64::MAX {
                        buffered == Err::<(), ProviderError>(
                            ProviderError::Invariant("replay revision overflow"),
                        ) && *final(revision) == *old(revision)
                    } else {
                        buffered == Ok::<(), ProviderError>(()) && final(revision).0
                            == old(revision).0 + 1
                    }
                }
            },
        },
{
    match apply_reconciliation_candle(
        pending,
        candidate,
        target_open_time,
        generation_start,
        timeframe,
        policy,
    ) {
        Ok(_) => {},
        Err(error) => {
            return Err(error);
        },
    }
    match revision.0.checked_add(1) {
        Some(next) => {
            revision.0 = next;
            Ok(())
        },
        None => Err(ProviderError::Invariant("replay revision overflow")),
    }
}

/// Whether a policy lets a generation ask for its `pages`th page.
pub open spec fn page_allowed(policy: ReconciliationPolicy, pages: int) -> bool {
    policy matches ReconciliationPolicy::Bounded(limits) ==> pages <= limits.max_pages
}

/// Counts one more page of history that a generation asks for.
pub fn advance_reconciliation_page(
    pages: &mut usize,
    policy: ReconciliationPolicy,
    context: ErrorContext,
) -> (advanced: Result<(), ProviderError>)
    ensures
        if *old(pages) == usize::MAX {
            advanced == Err::<(), ProviderError>(
                ProviderError::Invariant("reconciliation page count overflow"),
            ) && *final(pages) == *old(pages)
        } else {
            *final(pages) == *old(pages) + 1 && advanced == (if page_allowed(
                policy,
                *old(pages) + 1,
            ) {
                Ok::<(), ProviderError>(())
            } else {
                Err(
                    ProviderError::Protocol { context, detail: policy->Bounded_0.page_exceeded },
                )
            })
        },
{
    match pages.checked_add(1) {
        Some(next) => {
            *pages = next;
        },
        None => {
            return Err(ProviderError::Invariant("reconciliation page count overflow"));
        },
    }
    match policy {
        ReconciliationPolicy::Bounded(limits) => {
            if *pages > limits.max_pages {
                return Err(ProviderError::Protocol { context, detail: limits.page_exceeded });
            }
        },
        ReconciliationPolicy::Unbounded => {},
    }
    Ok(())
}

/// Asks for so many pages, one after another, under a limit.
pub fn reconciliation_page_guard_for_test(pages: usize, maximum_pages: usize) -> (guarded: Result<
    (),
    ProviderError,
>)
    ensures
        guarded == (if pages <= maximum_pages {
            Ok::<(), ProviderError>(())
        } else {
            Err(
                ProviderError::Protocol {
                    context: ErrorContext::of(ErrorOperation::Reconciliation),
                    detail:
                        "Hyperliquid gap reconciliation exceeded the per-generation page limit",
                },
            )
        }),
{
    let policy = ReconciliationPolicy::Bounded(
        ReconciliationLimits {
            max_successors: 1,
            max_pages: maximum_pages,
            span_exceeded: "span",
            page_exceeded: "Hyperliquid gap reconciliation exceeded the per-generation page limit",
            distinct_exceeded: "distinct",
        },
    );
    let mut observed: usize = 0;
    while observed < pages
        invariant
            observed <= pages,
            observed <= maximum_pages,
            policy matches ReconciliationPolicy::Bounded(limits) && limits.max_pages
                == maximum_pages && limits.page_exceeded
                == "Hyperliquid gap reconciliation exceeded the per-generation page limit",
        decreases pages - observed,
    {
        match advance_reconciliation_page(
            &mut observed,
            policy,
            ErrorContext::operation(ErrorOperation::Reconciliation),
        ) {
            Ok(()) => {},
            Err(error) => {
                return Err(error);
            },
        }
    }
    Ok(())
}

/// The first opening time after one that history has reached.
pub fn next_gap_cursor(value: i64) -> (cursor: Result<i64, ProviderError>)
    ensures
        cursor == (if value == i64::MAX {
            Err::<i64, ProviderError>(ProviderError::Invariant("gap cursor overflow"))
        } else {
            Ok((value + 1) as i64)
        }),
{
    match value.checked_add(1) {
        Some(cursor) => Ok(cursor),
        None => Err(ProviderError::Invariant("gap cursor overflow")),
    }
}

/// A nearer target is allowed wherever a farther one is; on the grid of months, where it opens a
/// month or lies before the start.
pub proof fn law_span_is_downward_closed(
    timeframe: Timeframe,
    start: i64,
    nearer: i64,
    farther: i64,
    maximum_successors: int,
)
    requires
        nearer <= farther,
        within_span(timeframe, start, farther, maximum_successors),
        crate::calendar::fixed_period(timeframe) is None ==> nearer < start || exists|month: int|
            crate::calendar::opens_month(nearer, month),
    ensures
        within_span(timeframe, start, nearer, maximum_successors),
{
    if crate::calendar::fixed_period(timeframe) is None && start <= nearer {
        let (first, last) = choose|first: int, last: int|
            #![trigger crate::calendar::opens_month(start, first), crate::calendar::opens_month(farther, last)]
            crate::calendar::opens_month(start, first) && crate::calendar::opens_month(
                farther,
                last,
            ) && last - first <= maximum_successors;
        let month = choose|month: int| crate::calendar::opens_month(nearer, month);
        if last < month {
            crate::calendar::law_months_open_in_order(last, month);
        }
        assert(crate::calendar::opens_month(start, first) && crate::calendar::opens_month(
            nearer,
            month,
        ) && month - first <= maximum_successors);
    }
}

/// Under a bounded policy a reconciliation holds at most one opening time more than the policy's
/// reach, whatever candles the stream sends.
pub proof fn law_bounded_reconciliation_stays_bounded(
    limits: ReconciliationLimits,
    timeframe: Timeframe,
    start: i64,
    held: Map<i64, Candle>,
    target: i64,
    candidate: Candle,
)
    requires
        held.dom().finite(),
        held.dom().len() <= limits.max_successors + 1,
        refusal(
            ReconciliationPolicy::Bounded(limits),
            timeframe,
            start,
            held,
            target,
            candidate,
        ) is None,
    ensures
        crate::provider::runtime::buffer::coalesce(held, candidate).dom().len()
            <= limits.max_successors + 1,
        within_span(
            timeframe,
            start,
            later(target, candidate.opens_at()),
            limits.max_successors as int,
        ),
{
    let key = candidate.opens_at();
    if held.contains_key(key) {
        assert(held.insert(key, candidate).dom() =~= held.dom());
    } else {
        assert(held.insert(key, candidate).dom() =~= held.dom().insert(key));
    }
}

/// How far a generation may reach: a target that is not before its start is within so many fixed
/// periods exactly where it is no more than that many periods away, as far as the clock goes; and
/// within so many months where it opens no more than that many months later.
pub proof fn law_spans_are_counted_in_periods(
    timeframe: Timeframe,
    start: i64,
    target: i64,
    most: int,
    first: int,
    last: int,
)
    requires
        0 <= most <= i64::MAX,
    ensures
        target < start ==> within_span(timeframe, start, target, most),
        crate::calendar::fixed_period(timeframe) matches Some(period) ==> (start <= target && start
            + most * period <= i64::MAX && most * period <= i64::MAX ==> (within_span(
            timeframe,
            start,
            target,
            most,
        ) <==> target - start <= most * period)),
        crate::calendar::fixed_period(timeframe) is None && start <= target
            && crate::calendar::opens_month(start, first) && crate::calendar::opens_month(
            target,
            last,
        ) ==> (within_span(timeframe, start, target, most) <==> last - first <= most),
{
    if crate::calendar::fixed_period(timeframe) is None && start <= target
        && crate::calendar::opens_month(start, first) && crate::calendar::opens_month(target, last) {
        if within_span(timeframe, start, target, most) {
            let (from, to) = choose|from: int, to: int|
                #![trigger crate::calendar::opens_month(start, from), crate::calendar::opens_month(target, to)]
                crate::calendar::opens_month(start, from) && crate::calendar::opens_month(target, to)
                    && to - from <= most;
            lemma_one_month(start, first, from);
            lemma_one_month(target, last, to);
        }
    }
}

/// The later of two times is one of them, and neither is after it.
pub proof fn law_later_time(left: i64, right: i64)
    ensures
        later(left, right) >= left && later(left, right) >= right,
        later(left, right) == left || later(left, right) == right,
{
}

/// An unbounded reconciliation takes every candle. A bounded one takes a candle exactly where its
/// opening time is held already or there is room for one more, and the gap that reaches up to it is
/// within the span; what it refuses, it refuses in the words of the limit that was met first.
pub proof fn law_candles_are_refused_by_limits(
    policy: ReconciliationPolicy,
    timeframe: Timeframe,
    start: i64,
    held: Map<i64, Candle>,
    target: i64,
    candle: Candle,
)
    ensures
        policy is Unbounded ==> refusal(policy, timeframe, start, held, target, candle) is None,
        policy matches ReconciliationPolicy::Bounded(limits) ==> (limits.max_successors < usize::MAX
            ==> {
            let refused = refusal(policy, timeframe, start, held, target, candle);
            let room = held.contains_key(candle.opens_at()) || held.dom().len()
                <= limits.max_successors;
            let near = within_span(
                timeframe,
                start,
                if candle.opens_at() > target {
                    candle.opens_at()
                } else {
                    target
                },
                limits.max_successors as int,
            );
            &&& refused is None <==> room && near
            &&& !room ==> (refused matches Some(ProviderError::Protocol { detail, .. }) && detail
                == limits.distinct_exceeded)
            &&& room && !near ==> (refused matches Some(ProviderError::Protocol { detail, .. })
                && detail == limits.span_exceeded)
        }),
{
}

/// An unbounded policy counts no pages; a bounded one allows as many as it says.
pub proof fn law_pages_are_counted(policy: ReconciliationPolicy, pages: int)
    ensures
        policy is Unbounded ==> page_allowed(policy, pages),
        policy matches ReconciliationPolicy::Bounded(limits) ==> (page_allowed(policy, pages) <==> pages
            <= limits.max_pages),
{
}

} // verus!
