//! Proximity pickup: which collectibles lie within reach of a mobile entity,
//! and the collectibles that remain once those are taken.
use vstd::prelude::*;
use crate::geometry::{Position, within, is_within};

verus! {

/// A static entity that a mobile entity can pick up.
#[derive(Clone, Copy, Debug, PartialEq, Eq, Structural)]
pub struct Collectible {
    pub id: u64,
    pub pos: Position,
}

impl Collectible {
    pub fn new(id: u64, pos: Position) -> (r: Collectible)
        ensures
            r.id == id,
            r.pos == pos,
    {
        Collectible { id, pos }
    }
}

/// Some mobile lies strictly closer than `radius` to `p`.
pub open spec fn near_any(mobiles: Seq<Position>, p: Position, radius: nat) -> bool {
    exists|i: int| 0 <= i < mobiles.len() && #[trigger] within(mobiles[i], p, radius)
}

/// `id` names a collectible within reach of some mobile.
pub open spec fn is_picked(
    mobiles: Seq<Position>,
    collectibles: Seq<Collectible>,
    radius: nat,
    id: u64,
) -> bool {
    exists|j: int|
        0 <= j < collectibles.len() && (#[trigger] collectibles[j]).id == id && near_any(
            mobiles,
            collectibles[j].pos,
            radius,
        )
}

/// The identifiers of all collectibles within reach of some mobile.
pub open spec fn picked(mobiles: Seq<Position>, collectibles: Seq<Collectible>, radius: nat) -> Set<
    u64,
> {
    Set::new(|id: u64| is_picked(mobiles, collectibles, radius, id))
}

/// The collectibles, in their order, whose identifier is not in `taken`.
pub open spec fn kept(collectibles: Seq<Collectible>, taken: Seq<u64>) -> Seq<Collectible>
    decreases collectibles.len(),
{
    if collectibles.len() == 0 {
        Seq::empty()
    } else {
        let rest = kept(collectibles.drop_last(), taken);
        if taken.contains(collectibles.last().id) {
            rest
        } else {
            rest.push(collectibles.last())
        }
    }
}

/// Whether some mobile lies strictly closer than `radius` to `p`.
pub fn near_any_mobile(mobiles: &Vec<Position>, p: Position, radius: u32) -> (r: bool)
    ensures
        r == near_any(mobiles@, p, radius as nat),
{
    let mut i: usize = 0;
    while i < mobiles.len()
        invariant
            i <= mobiles.len(),
            forall|k: int| 0 <= k < i ==> !#[trigger] within(mobiles@[k], p, radius as nat),
        decreases mobiles.len() - i,
    {
        if is_within(mobiles[i], p, radius) {
            return true;
        }
        i += 1;
    }
    false
}

/// Whether `id` occurs in `ids`.
pub fn contains_id(ids: &Vec<u64>, id: u64) -> (r: bool)
    ensures
        r == ids@.contains(id),
{
    let mut i: usize = 0;
    while i < ids.len()
        invariant
            i <= ids.len(),
            forall|k: int| 0 <= k < i ==> ids@[k] != id,
        decreases ids.len() - i,
    {
        if ids[i] == id {
            return true;
        }
        i += 1;
    }
    false
}

/// The identifiers of every collectible that lies strictly closer than
/// `radius` to at least one mobile, each listed once, in the order in which
/// the collectibles are given. All pairs are checked: the working set is a
/// few tens of entities.
pub fn collect(mobiles: &Vec<Position>, collectibles: &Vec<Collectible>, radius: u32) -> (r: Vec<
    u64,
>)
    ensures
        r@.no_duplicates(),
        r@.to_set() == picked(mobiles@, collectibles@, radius as nat),
        forall|id: u64| r@.contains(id) <==> is_picked(mobiles@, collectibles@, radius as nat, id),
{
    let mut r: Vec<u64> = Vec::new();
    let mut j: usize = 0;
    while j < collectibles.len()
        invariant
            j <= collectibles.len(),
            r@.no_duplicates(),
            forall|id: u64|
                r@.contains(id) <==> is_picked(
                    mobiles@,
                    collectibles@.take(j as int),
                    radius as nat,
                    id,
                ),
        decreases collectibles.len() - j,
    {
        let c = collectibles[j];
        let near = near_any_mobile(mobiles, c.pos, radius);
        let seen = contains_id(&r, c.id);
        let ghost prev = collectibles@.take(j as int);
        let ghost next = collectibles@.take(j + 1);
        let ghost old_r = r@;
        assert(next == prev.push(c));
        if near && !seen {
            r.push(c.id);
            assert(r@ == old_r.push(c.id));
        }
        assert forall|id: u64|
            r@.contains(id) <==> is_picked(mobiles@, next, radius as nat, id) by {
            if is_picked(mobiles@, prev, radius as nat, id) {
                let k = choose|k: int|
                    0 <= k < prev.len() && (#[trigger] prev[k]).id == id && near_any(
                        mobiles@,
                        prev[k].pos,
                        radius as nat,
                    );
                assert(next[k] == prev[k]);
            }
            if is_picked(mobiles@, next, radius as nat, id) {
                let k = choose|k: int|
                    0 <= k < next.len() && (#[trigger] next[k]).id == id && near_any(
                        mobiles@,
                        next[k].pos,
                        radius as nat,
                    );
                if k < prev.len() {
                    assert(prev[k] == next[k]);
                }
            }
            if near && id == c.id {
                assert(next[j as int] == c);
            }
            if old_r.contains(id) {
                let i = choose|i: int| 0 <= i < old_r.len() && old_r[i] == id;
                assert(r@[i] == id);
            }
            if r@.contains(id) && !old_r.contains(id) {
                assert(id == c.id && near);
                assert(next[j as int] == c);
            }
            if is_picked(mobiles@, next, radius as nat, id) && !is_picked(
                mobiles@,
                prev,
                radius as nat,
                id,
            ) {
                assert(near && id == c.id);
                assert(old_r.push(c.id).last() == c.id);
            }
        }
        j += 1;
    }
    assert(collectibles@.take(collectibles.len() as int) == collectibles@);
    assert(r@.to_set() =~= picked(mobiles@, collectibles@, radius as nat));
    r
}

/// The collectibles whose identifier is not in `taken`, in their order.
pub fn remove_collected(collectibles: &Vec<Collectible>, taken: &Vec<u64>) -> (r: Vec<
    Collectible,
>)
    ensures
        r@ == kept(collectibles@, taken@),
{
    let mut r: Vec<Collectible> = Vec::new();
    let mut j: usize = 0;
    while j < collectibles.len()
        invariant
            j <= collectibles.len(),
            r@ == kept(collectibles@.take(j as int), taken@),
        decreases collectibles.len() - j,
    {
        let c = collectibles[j];
        assert(collectibles@.take(j + 1).drop_last() == collectibles@.take(j as int));
        if !contains_id(taken, c.id) {
            r.push(c);
        }
        j += 1;
    }
    assert(collectibles@.take(collectibles.len() as int) == collectibles@);
    r
}

/// What is left of `collectibles` after each list of `removals` was taken
/// away in turn, one list per tick.
pub open spec fn remaining_after(collectibles: Seq<Collectible>, removals: Seq<Seq<u64>>) -> Seq<
    Collectible,
>
    decreases removals.len(),
{
    if removals.len() == 0 {
        collectibles
    } else {
        kept(remaining_after(collectibles, removals.drop_last()), removals.last())
    }
}

/// No collectible in `collectibles` carries `id`.
pub open spec fn absent(collectibles: Seq<Collectible>, id: u64) -> bool {
    forall|k: int| 0 <= k < collectibles.len() ==> #[trigger] collectibles[k].id != id
}

/// With no mobile entity nothing is picked, whatever the collectibles.
pub proof fn lemma_no_mobiles_picks_nothing(collectibles: Seq<Collectible>, radius: nat)
    ensures
        picked(Seq::empty(), collectibles, radius) == Set::<u64>::empty(),
{
    assert(picked(Seq::empty(), collectibles, radius) =~= Set::<u64>::empty());
}

/// Removal keeps only collectibles that were there before, and none whose
/// identifier was taken.
pub proof fn lemma_kept_excludes_taken(collectibles: Seq<Collectible>, taken: Seq<u64>)
    ensures
        forall|k: int|
            0 <= k < kept(collectibles, taken).len() ==> !taken.contains(
                (#[trigger] kept(collectibles, taken)[k]).id,
            ) && collectibles.contains(kept(collectibles, taken)[k]),
    decreases collectibles.len(),
{
    if collectibles.len() > 0 {
        let init = collectibles.drop_last();
        lemma_kept_excludes_taken(init, taken);
        let rest = kept(init, taken);
        assert forall|k: int| 0 <= k < rest.len() implies collectibles.contains(rest[k]) by {
            let i = choose|i: int| 0 <= i < init.len() && init[i] == rest[k];
            assert(collectibles[i] == init[i]);
        }
        assert(collectibles[collectibles.len() - 1] == collectibles.last());
    }
}

/// An identifier that no collectible carries is never picked.
pub proof fn lemma_absent_never_picked(
    mobiles: Seq<Position>,
    collectibles: Seq<Collectible>,
    radius: nat,
    id: u64,
)
    requires
        absent(collectibles, id),
    ensures
        !picked(mobiles, collectibles, radius).contains(id),
{
}

/// Once removed, a collectible's identifier is gone from every later tick:
/// after the removal that took it and any number of removals that follow,
/// no collectible carries it, so no mobile picks it again, wherever the
/// mobiles stand and whatever the radius.
pub proof fn lemma_taken_never_picked_again(
    collectibles: Seq<Collectible>,
    removals: Seq<Seq<u64>>,
    t: int,
    n: int,
    mobiles: Seq<Position>,
    radius: nat,
    id: u64,
)
    requires
        0 <= t < n <= removals.len(),
        removals[t].contains(id),
    ensures
        absent(remaining_after(collectibles, removals.take(n)), id),
        !picked(mobiles, remaining_after(collectibles, removals.take(n)), radius).contains(id),
    decreases n,
{
    let prefix = removals.take(n);
    assert(prefix.drop_last() == removals.take(n - 1));
    let before = remaining_after(collectibles, removals.take(n - 1));
    let after = remaining_after(collectibles, prefix);
    assert(after == kept(before, removals[n - 1]));
    lemma_kept_excludes_taken(before, removals[n - 1]);
    if n - 1 > t {
        lemma_taken_never_picked_again(collectibles, removals, t, n - 1, mobiles, radius, id);
        assert forall|k: int| 0 <= k < after.len() implies #[trigger] after[k].id != id by {
            assert(before.contains(after[k]));
            let i = choose|i: int| 0 <= i < before.len() && before[i] == after[k];
            assert(before[i].id != id);
        }
    }
    lemma_absent_never_picked(mobiles, after, radius, id);
}

} // verus!
