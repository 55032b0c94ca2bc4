//! The retention policy: an entry may go once enough time has passed since
//! it was played last, and never while it is a favorite.

use vstd::prelude::*;
use crate::jellyfin::Item;
use crate::time::{cutoff, is_expired, utc_now, RetentionPeriod, Timestamp};

verus! {

/// Whether a last play is old enough under a retention setting. Without a
/// setting everything is old enough; with one, an entry that was never
/// played is not.
pub open spec fn old_enough(
    last_played: Option<Timestamp>,
    retention: Option<RetentionPeriod>,
    now: Timestamp,
) -> bool {
    match retention {
        None => true,
        Some(period) => match last_played {
            Some(at) => at.instant() < cutoff(now, period),
            None => false,
        },
    }
}

/// Whether a watched item may be deleted at `now` as far as retention goes.
pub open spec fn eligible(item: Item, retention: Option<RetentionPeriod>, now: Timestamp) -> bool {
    !item.favorite() && old_enough(item.last_played(), retention, now)
}

/// The same as a predicate on items.
pub open spec fn is_eligible(retention: Option<RetentionPeriod>, now: Timestamp) -> spec_fn(
    Item,
) -> bool {
    |item: Item| eligible(item, retention, now)
}

/// What the retention policy says of an entry.
#[derive(Clone, Copy, Debug, PartialEq, Eq, Structural)]
pub enum Verdict {
    /// The entry may go.
    Eligible,
    /// The entry is a favorite and stays whatever its age.
    Favorite,
    /// A retention period is set and nothing says when the entry was played.
    NeverPlayed,
    /// The retention period has not yet passed since the last play.
    NotYet { last_played: Timestamp },
}

/// What the policy says of an entry with this last play.
pub open spec fn verdict_of(
    favorite: bool,
    last_played: Option<Timestamp>,
    retention: Option<RetentionPeriod>,
    now: Timestamp,
) -> Verdict {
    if favorite {
        Verdict::Favorite
    } else {
        match retention {
            None => Verdict::Eligible,
            Some(period) => match last_played {
                Some(at) => if at.instant() < cutoff(now, period) {
                    Verdict::Eligible
                } else {
                    Verdict::NotYet { last_played: at }
                },
                None => Verdict::NeverPlayed,
            },
        }
    }
}

/// The verdict is `Eligible` exactly for the entries that may go.
pub proof fn lemma_verdict_agrees(
    favorite: bool,
    last_played: Option<Timestamp>,
    retention: Option<RetentionPeriod>,
    now: Timestamp,
)
    ensures
        verdict_of(favorite, last_played, retention, now) == Verdict::Eligible <==> !favorite
            && old_enough(last_played, retention, now),
{
}

/// The boundary is strict: an entry played exactly one period before `now`
/// stays, an entry played a nanosecond earlier goes.
pub proof fn lemma_boundary_is_strict(
    last_played: Timestamp,
    period: RetentionPeriod,
    now: Timestamp,
)
    ensures
        last_played.instant() + period.span() == now.instant() ==> !old_enough(
            Some(last_played),
            Some(period),
            now,
        ),
        last_played.instant() + period.span() < now.instant() ==> old_enough(
            Some(last_played),
            Some(period),
            now,
        ),
        last_played.instant() + period.span() > now.instant() ==> !old_enough(
            Some(last_played),
            Some(period),
            now,
        ),
{
}

/// What the policy says of an entry with this last play.
pub fn verdict(
    favorite: bool,
    last_played: Option<Timestamp>,
    retention: &Option<RetentionPeriod>,
    now: &Timestamp,
) -> (v: Verdict)
    ensures
        v == verdict_of(favorite, last_played, *retention, *now),
{
    if favorite {
        Verdict::Favorite
    } else {
        match retention {
            None => Verdict::Eligible,
            Some(period) => match last_played {
                Some(at) => if is_expired(&at, now, period) {
                    Verdict::Eligible
                } else {
                    Verdict::NotYet { last_played: at }
                },
                None => Verdict::NeverPlayed,
            },
        }
    }
}

/// What the policy says of a watched item, going by the item's own record
/// of its last play.
pub fn item_verdict(item: &Item, retention: &Option<RetentionPeriod>, now: &Timestamp) -> (v:
    Verdict)
    ensures
        v == verdict_of(item.favorite(), item.last_played(), *retention, *now),
        v == Verdict::Eligible <==> eligible(*item, *retention, *now),
{
    verdict(item.is_favorite(), item.last_played_date(), retention, now)
}

/// Whether the caller has to warn that entries go at once: no retention
/// period is set and there is something to delete.
pub fn deletes_immediately(retention: &Option<RetentionPeriod>, items: &[Item]) -> (warn: bool)
    ensures
        warn == (retention is None && items@.len() > 0),
{
    match retention {
        None => items.len() > 0,
        Some(_) => false,
    }
}

/// The watched items that may be deleted at `now`, in their order.
pub fn retain_eligible(items: &[Item], retention: &Option<RetentionPeriod>, now: &Timestamp) -> (kept:
    Vec<Item>)
    ensures
        kept@ == items@.filter(is_eligible(*retention, *now)),
{
    let mut kept: Vec<Item> = Vec::new();
    let mut i: usize = 0;
    assert(items@.take(0) =~= Seq::<Item>::empty());
    while i < items.len()
        invariant
            i <= items.len(),
            kept@ == items@.take(i as int).filter(is_eligible(*retention, *now)),
        decreases items.len() - i,
    {
        proof {
            assert(items@.take(i + 1) =~= items@.take(i as int).push(items@[i as int]));
            items@.take(i as int).lemma_filter_push(
                items@[i as int],
                is_eligible(*retention, *now),
            );
        }
        match item_verdict(&items[i], retention, now) {
            Verdict::Eligible => {
                kept.push(items[i].clone());
            },
            _ => {},
        }
        i += 1;
    }
    assert(items@.take(i as int) =~= items@);
    kept
}

/// The watched items that may be deleted at the time of the call.
///
/// The clock is read once; the result is what `retain_eligible` gives for
/// the instant that was read.
pub fn retain_eligible_now(items: &[Item], retention: &Option<RetentionPeriod>) -> (kept: Vec<Item>)
    ensures
        exists|now: Timestamp| kept@ == items@.filter(#[trigger] is_eligible(*retention, now)),
        retention is None ==> kept@ == items@.filter(|item: Item| !item.favorite()),
{
    let now: Timestamp = utc_now();
    let kept: Vec<Item> = retain_eligible(items, retention, &now);
    proof {
        if retention is None {
            assert(items@.filter(is_eligible(*retention, now)) =~= items@.filter(
                |item: Item| !item.favorite(),
            )) by {
                lemma_filter_same(items@, is_eligible(*retention, now), |item: Item| !item.favorite());
            }
        }
    }
    kept
}

/// Two predicates that agree on every item keep the same items.
pub proof fn lemma_filter_same(items: Seq<Item>, p: spec_fn(Item) -> bool, q: spec_fn(Item) -> bool)
    requires
        forall|item: Item| #[trigger] p(item) == q(item),
    ensures
        items.filter(p) == items.filter(q),
    decreases items.len(),
{
    reveal_with_fuel(Seq::filter, 2);
    if items.len() > 0 {
        lemma_filter_same(items.drop_last(), p, q);
    }
}

/// The latest last play among the episodes, where one was played at all.
/// Of two equally late plays the later in the sequence is taken.
pub open spec fn latest_play(episodes: Seq<Item>) -> Option<Timestamp>
    decreases episodes.len(),
{
    if episodes.len() == 0 {
        None
    } else {
        match (latest_play(episodes.drop_last()), episodes.last().last_played()) {
            (Some(a), Some(b)) => if b.instant() >= a.instant() {
                Some(b)
            } else {
                Some(a)
            },
            (Some(a), None) => Some(a),
            (None, other) => other,
        }
    }
}

/// The latest play is the play of one of the episodes, and no episode was
/// played later.
pub proof fn lemma_latest_play(episodes: Seq<Item>)
    ensures
        match latest_play(episodes) {
            Some(latest) => {
                &&& exists|i: int|
                    0 <= i < episodes.len() && (#[trigger] episodes[i]).last_played() == Some(
                        latest,
                    )
                &&& forall|i: int|
                    0 <= i < episodes.len() ==> ((#[trigger] episodes[i]).last_played() matches Some(
                        at,
                    ) ==> at.instant() <= latest.instant())
            },
            None => forall|i: int|
                0 <= i < episodes.len() ==> (#[trigger] episodes[i]).last_played() is None,
        },
    decreases episodes.len(),
{
    if episodes.len() > 0 {
        let front = episodes.drop_last();
        lemma_latest_play(front);
        assert(forall|i: int| 0 <= i < front.len() ==> front[i] == episodes[i]);
        match latest_play(episodes) {
            Some(latest) => {
                if episodes.last().last_played() == Some(latest) {
                    assert(episodes[episodes.len() - 1].last_played() == Some(latest));
                } else {
                    let i = choose|i: int|
                        0 <= i < front.len() && (#[trigger] front[i]).last_played() == Some(latest);
                    assert(episodes[i].last_played() == Some(latest));
                }
                assert forall|i: int| 0 <= i < episodes.len() implies ((
                #[trigger] episodes[i]).last_played() matches Some(at) ==> at.instant()
                    <= latest.instant()) by {
                    if i < front.len() {
                        assert(front[i] == episodes[i]);
                    }
                }
            },
            None => {
                assert forall|i: int| 0 <= i < episodes.len() implies (
                #[trigger] episodes[i]).last_played() is None by {
                    if i < front.len() {
                        assert(front[i] == episodes[i]);
                    }
                }
            },
        }
    }
}

/// The latest last play among the episodes of a series.
///
/// A series goes by the plays of its episodes and not by its own record,
/// which the tracker does not keep reliably.
pub fn max_last_played(episodes: &[Item]) -> (latest: Option<Timestamp>)
    ensures
        latest == latest_play(episodes@),
{
    let mut latest: Option<Timestamp> = None;
    let mut i: usize = 0;
    assert(episodes@.take(0) =~= Seq::<Item>::empty());
    while i < episodes.len()
        invariant
            i <= episodes.len(),
            latest == latest_play(episodes@.take(i as int)),
        decreases episodes.len() - i,
    {
        assert(episodes@.take(i + 1).drop_last() =~= episodes@.take(i as int));
        match (latest, episodes[i].last_played_date()) {
            (Some(a), Some(b)) => {
                if !b.is_before(&a) {
                    latest = Some(b);
                }
            },
            (Some(_), None) => {},
            (None, other) => {
                latest = other;
            },
        }
        i += 1;
    }
    assert(episodes@.take(i as int) =~= episodes@);
    latest
}

} // verus!
