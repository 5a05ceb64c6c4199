//! Candles on their way to a consumer, one for each opening time.
use std::collections::BTreeMap;

use vstd::prelude::*;

use crate::candle::Candle;
use crate::error::ProviderError;

verus! {

/// `BTreeMap::pop_first`: removes the entry with the least key and hands it out; an empty map gives
/// nothing.
#[verifier::external_body]
fn pop_least(map: &mut BTreeMap<i64, Candle>) -> (entry: Option<(i64, Candle)>)
    ensures
        entry is None <==> old(map)@.dom() == Set::<i64>::empty(),
        entry is None ==> final(map)@ == old(map)@,
        entry matches Some((key, candle)) ==> {
            &&& old(map)@.contains_key(key)
            &&& old(map)@[key] == candle
            &&& forall|other: i64| #[trigger] old(map)@.contains_key(other) ==> key <= other
            &&& final(map)@ == old(map)@.remove(key)
        },
{
    map.pop_first()
}

proof fn lemma_keys_rise(keys: Seq<i64>, i: int, j: int)
    requires
        vstd::std_specs::btree::increasing_seq(keys),
        0 <= i < j < keys.len(),
    ensures
        keys[i] < keys[j],
{
    broadcast use vstd::std_specs::btree::group_btree_axioms;

    assert(vstd::std_specs::cmp::OrdSpec::cmp_spec(&keys[i], &keys[j]) is Less);
}

/// Whether a candle takes the place that `held` has for its opening time: it does where nothing is
/// held for that time, and where what is held has no greater authority.
pub open spec fn supersedes(held: Map<i64, Candle>, candidate: Candle) -> bool {
    held.contains_key(candidate.opens_at()) ==> held[candidate.opens_at()].authority.rank()
        <= candidate.authority.rank()
}

/// What is held once a candle has been offered.
pub open spec fn coalesce(held: Map<i64, Candle>, candidate: Candle) -> Map<i64, Candle> {
    if supersedes(held, candidate) {
        held.insert(candidate.opens_at(), candidate)
    } else {
        held
    }
}

/// What is held once a row of candles has been offered, first to last.
pub open spec fn coalesce_all(held: Map<i64, Candle>, candidates: Seq<Candle>) -> Map<i64, Candle>
    decreases candidates.len(),
{
    if candidates.len() == 0 {
        held
    } else {
        coalesce(coalesce_all(held, candidates.drop_last()), candidates.last())
    }
}

/// Whether at least one of a row of candles took its place when it was offered.
pub open spec fn accepts_any(held: Map<i64, Candle>, candidates: Seq<Candle>) -> bool
    decreases candidates.len(),
{
    candidates.len() > 0 && (accepts_any(held, candidates.drop_last()) || supersedes(
        coalesce_all(held, candidates.drop_last()),
        candidates.last(),
    ))
}

/// Whether each candle is held under its own opening time.
pub open spec fn keyed_by_open_time(held: Map<i64, Candle>) -> bool {
    forall|key: i64| #[trigger] held.contains_key(key) ==> held[key].opens_at() == key
}

/// Whether a row of candles is what is held, each once, by rising opening time.
pub open spec fn lists(held: Map<i64, Candle>, candles: Seq<Candle>) -> bool {
    &&& forall|i: int, j: int|
        0 <= i < j < candles.len() ==> (#[trigger] candles[i]).opens_at() < (
        #[trigger] candles[j]).opens_at()
    &&& forall|i: int|
        0 <= i < candles.len() ==> held.contains_key((#[trigger] candles[i]).opens_at())
            && held[candles[i].opens_at()] == candles[i]
    &&& forall|key: i64| #[trigger]
        held.contains_key(key) ==> exists|i: int|
            0 <= i < candles.len() && (#[trigger] candles[i]).opens_at() == key
}

/// The row of all candles that are held, by rising opening time.
pub open spec fn listing(held: Map<i64, Candle>) -> Seq<Candle> {
    choose|candles: Seq<Candle>| lists(held, candles)
}

pub struct KeyedCandleBuffer {
    pending: BTreeMap<i64, Candle>,
    capacity: Option<usize>,
}

impl View for KeyedCandleBuffer {
    type V = Map<i64, Candle>;

    closed spec fn view(&self) -> Map<i64, Candle> {
        self.pending@
    }
}

impl KeyedCandleBuffer {
    pub closed spec fn limit(self) -> Option<usize> {
        self.capacity
    }

    pub open spec fn well_formed(self) -> bool {
        &&& keyed_by_open_time(self@)
        &&& self@.dom().finite()
        &&& self.limit() matches Some(limit) ==> self@.dom().len() <= limit
    }

    /// Whether no further opening time can be held.
    pub open spec fn is_full(self) -> bool {
        self.limit() matches Some(limit) && self@.dom().len() == limit
    }

    pub fn unbounded() -> (buffer: KeyedCandleBuffer)
        ensures
            buffer.well_formed(),
            buffer@ == Map::<i64, Candle>::empty(),
            buffer.limit() is None,
    {
        KeyedCandleBuffer { pending: BTreeMap::new(), capacity: None }
    }

    pub fn bounded(capacity: usize) -> (buffer: KeyedCandleBuffer)
        ensures
            buffer.well_formed(),
            buffer@ == Map::<i64, Candle>::empty(),
            buffer.limit() == Some(capacity),
    {
        KeyedCandleBuffer { pending: BTreeMap::new(), capacity: Some(capacity) }
    }

    /// Offers a candle, and says whether it took its place. A full buffer refuses a new opening
    /// time and stays as it was.
    pub fn push(&mut self, candidate: Candle) -> (accepted: Result<bool, ProviderError>)
        requires
            old(self).well_formed(),
        ensures
            final(self).well_formed(),
            final(self).limit() == old(self).limit(),
            if !old(self)@.contains_key(candidate.opens_at()) && old(self).is_full() {
                accepted == Err::<bool, ProviderError>(ProviderError::QueueSaturated)
                    && final(self)@ == old(self)@
            } else {
                accepted == Ok::<bool, ProviderError>(supersedes(old(self)@, candidate))
                    && final(self)@ == coalesce(old(self)@, candidate)
            },
    {
        let key: i64 = candidate.open_time();
        let replaced = match self.pending.get(&key) {
            Some(current) => Some(current.authority().yields_to(candidate.authority())),
            None => None,
        };
        match replaced {
            None => {
                let full = match self.capacity {
                    Some(capacity) => self.pending.len() == capacity,
                    None => false,
                };
                if full {
                    return Err(ProviderError::QueueSaturated);
                }
                self.pending.insert(key, candidate);
                Ok(true)
            },
            Some(replace) => {
                if replace {
                    self.pending.insert(key, candidate);
                }
                Ok(replace)
            },
        }
    }

    pub fn is_empty(&self) -> (empty: bool)
        ensures
            empty == (self@.dom() == Set::<i64>::empty()),
    {
        assert(self@.is_empty() ==> self@.dom() =~= Set::<i64>::empty());
        self.pending.is_empty()
    }

    pub fn len(&self) -> (count: usize)
        ensures
            count == self@.dom().len(),
    {
        self.pending.len()
    }

    pub fn contains_key(&self, key: i64) -> (held: bool)
        ensures
            held == self@.contains_key(key),
    {
        self.pending.contains_key(&key)
    }

    /// Takes the candle that opens first.
    pub fn pop_first(&mut self) -> (candle: Option<Candle>)
        requires
            old(self).well_formed(),
        ensures
            final(self).well_formed(),
            final(self).limit() == old(self).limit(),
            candle is None <==> old(self)@.dom() == Set::<i64>::empty(),
            candle is None ==> final(self)@ == old(self)@,
            candle matches Some(first) ==> {
                &&& old(self)@.contains_key(first.opens_at())
                &&& old(self)@[first.opens_at()] == first
                &&& forall|key: i64| #[trigger]
                    old(self)@.contains_key(key) ==> first.opens_at() <= key
                &&& final(self)@ == old(self)@.remove(first.opens_at())
            },
    {
        match pop_least(&mut self.pending) {
            Some((_, candle)) => Some(candle),
            None => None,
        }
    }

    /// The candles by rising opening time.
    pub fn values(&self) -> (candles: Vec<Candle>)
        requires
            self.well_formed(),
        ensures
            lists(self@, candles@),
    {
        let mut candles: Vec<Candle> = Vec::new();
        let values = self.pending.values();
        let ghost keys = choose|keys: Seq<i64>|
            {
                &&& vstd::std_specs::btree::increasing_seq(keys)
                &&& keys.to_set() == self.pending@.dom()
                &&& keys.no_duplicates()
                &&& vstd::std_specs::iter::IteratorSpec::remaining(&values) == keys.map(
                    |i: int, k| &self.pending@[k],
                )
            };
        for candle in iter: values
            invariant
                candles@ == iter.seq().unref().take(iter.index() as int),
                iter.seq() == keys.map(|i: int, k| &self.pending@[k]),
        {
            candles.push(*candle);
        }
        proof {
            assert(candles@ =~= keys.map_values(|k: i64| self.pending@[k]));
            assert forall|i: int| 0 <= i < keys.len() implies self@.contains_key(
                #[trigger] keys[i],
            ) by {
                assert(keys.to_set().contains(keys[i]));
            }
            assert forall|i: int, j: int| 0 <= i < j < candles.len() implies (
            #[trigger] candles@[i]).opens_at() < (#[trigger] candles@[j]).opens_at() by {
                assert(self@.contains_key(keys[i]) && self@.contains_key(keys[j]));
                lemma_keys_rise(keys, i, j);
            }
            assert forall|i: int| 0 <= i < candles.len() implies self@.contains_key(
                (#[trigger] candles@[i]).opens_at(),
            ) && self@[candles@[i].opens_at()] == candles@[i] by {
                assert(self@.contains_key(keys[i]));
            }
            assert forall|key: i64| #[trigger] self@.contains_key(key) implies exists|i: int|
                0 <= i < candles.len() && (#[trigger] candles@[i]).opens_at() == key by {
                assert(keys.to_set().contains(key));
                let i = choose|i: int| 0 <= i < keys.len() && keys[i] == key;
                assert(candles@[i].opens_at() == key);
            }
        }
        candles
    }
}

/// Whatever is offered, what is held for an opening time never loses authority, and nothing that is
/// held is lost.
pub proof fn law_coalescing_never_loses_authority(
    held: Map<i64, Candle>,
    candidates: Seq<Candle>,
    key: i64,
)
    requires
        held.contains_key(key),
    ensures
        coalesce_all(held, candidates).contains_key(key),
        held[key].authority.rank() <= coalesce_all(held, candidates)[key].authority.rank(),
    decreases candidates.len(),
{
    if candidates.len() > 0 {
        law_coalescing_never_loses_authority(held, candidates.drop_last(), key);
    }
}

/// A candle that the stream has closed is held from then on, until the stream closes it again.
pub proof fn law_closed_candle_stays(held: Map<i64, Candle>, candidate: Candle, key: i64)
    requires
        held.contains_key(key),
        held[key].authority == crate::candle::FinalityAuthority::WsAuthoritativeClosed,
        candidate.authority != crate::candle::FinalityAuthority::WsAuthoritativeClosed,
    ensures
        coalesce(held, candidate).contains_key(key),
        coalesce(held, candidate)[key] == held[key],
{
}

/// Offering the same candle twice changes nothing more.
pub proof fn law_coalescing_is_idempotent(held: Map<i64, Candle>, candidate: Candle)
    ensures
        coalesce(coalesce(held, candidate), candidate) == coalesce(held, candidate),
{
    assert(coalesce(coalesce(held, candidate), candidate) =~= coalesce(held, candidate));
}

/// What is held can be listed in one way only.
pub proof fn law_listing_is_single(held: Map<i64, Candle>, left: Seq<Candle>, right: Seq<Candle>)
    requires
        lists(held, left),
        lists(held, right),
    ensures
        left == right,
    decreases left.len(),
{
    if left.len() == 0 {
        if right.len() > 0 {
            assert(held.contains_key(right[0].opens_at()));
        }
        assert(left =~= right);
    } else {
        let a = left.last().opens_at();
        assert(held.contains_key(left[left.len() - 1].opens_at()));
        let place = choose|i: int| 0 <= i < right.len() && (#[trigger] right[i]).opens_at() == a;
        let b = right.last().opens_at();
        assert(held.contains_key(right[right.len() - 1].opens_at()));
        let other = choose|i: int| 0 <= i < left.len() && (#[trigger] left[i]).opens_at() == b;
        assert(a == b) by {
            if place < right.len() - 1 {
                assert(right[place].opens_at() < right[right.len() - 1].opens_at());
            }
            if other < left.len() - 1 {
                assert(left[other].opens_at() < left[left.len() - 1].opens_at());
            }
        }
        let rest = held.remove(a);
        lemma_listing_without_last(held, left);
        lemma_listing_without_last(held, right);
        law_listing_is_single(rest, left.drop_last(), right.drop_last());
        assert(left =~= left.drop_last().push(left.last()));
        assert(right =~= right.drop_last().push(right.last()));
    }
}

proof fn lemma_listing_without_last(held: Map<i64, Candle>, candles: Seq<Candle>)
    requires
        lists(held, candles),
        candles.len() > 0,
    ensures
        lists(held.remove(candles.last().opens_at()), candles.drop_last()),
{
    let last = candles.last().opens_at();
    let rest = held.remove(last);
    let shorter = candles.drop_last();
    assert forall|i: int| 0 <= i < shorter.len() implies rest.contains_key(
        (#[trigger] shorter[i]).opens_at(),
    ) && rest[shorter[i].opens_at()] == shorter[i] by {
        assert(candles[i].opens_at() < candles[candles.len() - 1].opens_at());
    }
    assert forall|key: i64| #[trigger] rest.contains_key(key) implies exists|i: int|
        0 <= i < shorter.len() && (#[trigger] shorter[i]).opens_at() == key by {
        assert(held.contains_key(key));
        let i = choose|i: int| 0 <= i < candles.len() && (#[trigger] candles[i]).opens_at() == key;
        assert(shorter[i].opens_at() == key);
    }
}

proof fn lemma_greatest(keys: Set<i64>) -> (greatest: i64)
    requires
        keys.finite(),
        keys.len() > 0,
    ensures
        keys.contains(greatest),
        forall|key: i64| keys.contains(key) ==> key <= greatest,
    decreases keys.len(),
{
    let some = keys.choose();
    let rest = keys.remove(some);
    if rest.len() == 0 {
        assert forall|key: i64| keys.contains(key) implies key <= some by {
            if key != some {
                assert(rest.contains(key));
            }
        }
        some
    } else {
        let other = lemma_greatest(rest);
        let greatest = if some >= other {
            some
        } else {
            other
        };
        assert forall|key: i64| keys.contains(key) implies key <= greatest by {
            if key != some {
                assert(rest.contains(key));
            }
        }
        greatest
    }
}

proof fn lemma_listing_with_last(held: Map<i64, Candle>, greatest: i64, shorter: Seq<Candle>)
    requires
        keyed_by_open_time(held),
        held.contains_key(greatest),
        forall|key: i64| #[trigger] held.contains_key(key) ==> key <= greatest,
        lists(held.remove(greatest), shorter),
    ensures
        lists(held, shorter.push(held[greatest])),
{
    let candles = shorter.push(held[greatest]);
    let rest = held.remove(greatest);
    assert forall|i: int, j: int| 0 <= i < j < candles.len() implies (
    #[trigger] candles[i]).opens_at() < (#[trigger] candles[j]).opens_at() by {
        assert(rest.contains_key(shorter[i].opens_at()));
        assert(held.contains_key(shorter[i].opens_at()));
    }
    assert forall|i: int| 0 <= i < candles.len() implies held.contains_key(
        (#[trigger] candles[i]).opens_at(),
    ) && held[candles[i].opens_at()] == candles[i] by {
        if i < shorter.len() {
            assert(rest.contains_key(shorter[i].opens_at()));
        }
    }
    assert forall|key: i64| #[trigger] held.contains_key(key) implies exists|i: int|
        0 <= i < candles.len() && (#[trigger] candles[i]).opens_at() == key by {
        if key == greatest {
            assert(candles[shorter.len() as int].opens_at() == key);
        } else {
            assert(rest.contains_key(key));
            let i = choose|i: int|
                0 <= i < shorter.len() && (#[trigger] shorter[i]).opens_at() == key;
            assert(candles[i].opens_at() == key);
        }
    }
}

/// Whatever is held can be listed, and its listing holds each candle once, by rising opening time.
pub proof fn law_listing_lists(held: Map<i64, Candle>)
    requires
        keyed_by_open_time(held),
        held.dom().finite(),
    ensures
        lists(held, listing(held)),
    decreases held.dom().len(),
{
    if held.dom().len() == 0 {
        assert(lists(held, Seq::<Candle>::empty())) by {
            assert forall|key: i64| !#[trigger] held.contains_key(key) by {
                if held.contains_key(key) {
                    assert(held.dom().contains(key));
                }
            }
        }
    } else {
        let greatest = lemma_greatest(held.dom());
        let rest = held.remove(greatest);
        assert(rest.dom() =~= held.dom().remove(greatest));
        law_listing_lists(rest);
        lemma_listing_with_last(held, greatest, listing(rest));
    }
}

/// What becomes of a candle that is offered: it is held where nothing is held for its time; otherwise
/// the stream's word stands against history's, a closed one against an open one, and of two words of
/// one authority the later. Whatever is held for other times stays.
pub proof fn law_the_better_word_stands(held: Map<i64, Candle>, candidate: Candle, other: i64)
    requires
        other != candidate.opens_at(),
    ensures
        ({
            let after = coalesce(held, candidate);
            let key = candidate.opens_at();
            let standing = held[key].authority;
            let offered = candidate.authority;
            let closed = crate::candle::FinalityAuthority::WsAuthoritativeClosed;
            let open = crate::candle::FinalityAuthority::WsAuthoritativeOpen;
            let recorded = crate::candle::FinalityAuthority::RestProvisionalOpen;
            let settled = crate::candle::FinalityAuthority::RestProvisionalClosed;
            &&& after.contains_key(key)
            &&& !held.contains_key(key) ==> after[key] == candidate
            &&& held.contains_key(key) && standing == offered ==> after[key] == candidate
            &&& held.contains_key(key) && offered == closed ==> after[key] == candidate
            &&& held.contains_key(key) && offered == open && standing != closed ==> after[key]
                == candidate
            &&& held.contains_key(key) && offered == settled && standing == recorded ==> after[key]
                == candidate
            &&& held.contains_key(key) && standing == closed && offered != closed ==> after[key]
                == held[key]
            &&& held.contains_key(key) && standing == open && (offered == recorded || offered
                == settled) ==> after[key] == held[key]
            &&& held.contains_key(key) && standing == settled && offered == recorded ==> after[key]
                == held[key]
            &&& after.contains_key(other) == held.contains_key(other)
            &&& after[other] == held[other]
        }),
{
}

/// A row of candles is offered one after another; it brings something new where at least one of them
/// takes its place.
pub proof fn law_rows_are_offered_in_turn(
    held: Map<i64, Candle>,
    row: Seq<Candle>,
    candidate: Candle,
)
    ensures
        coalesce_all(held, Seq::empty()) == held,
        coalesce_all(held, row.push(candidate)) == coalesce(coalesce_all(held, row), candidate),
        !accepts_any(held, Seq::empty()),
        accepts_any(held, row) ==> accepts_any(held, row.push(candidate)),
        !coalesce_all(held, row).contains_key(candidate.opens_at()) ==> accepts_any(
            held,
            row.push(candidate),
        ),
        !accepts_any(held, row) ==> coalesce_all(held, row) == held,
    decreases row.len(),
{
    assert(row.push(candidate).drop_last() =~= row);
    if row.len() > 0 {
        law_rows_are_offered_in_turn(held, row.drop_last(), candidate);
    }
}

} // verus!
