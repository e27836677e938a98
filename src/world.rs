//! The per-tick view of the arena: the mobile entities and the collectibles,
//! and the three per-tick passes over them.
use vstd::prelude::*;
use crate::camera::{CameraTarget, center, target_of};
use crate::controls::{Impulse, Key, impulse_for, map_input};
use crate::geometry::Position;
use crate::pickup::{Collectible, collect, kept, picked, remove_collected};

verus! {

/// A player-controlled, camera-tracked entity.
#[derive(Clone, Copy, Debug, PartialEq, Eq, Structural)]
pub struct Mobile {
    pub pos: Position,
    pub impulse: Impulse,
    pub max_speed: u32,
}

impl Mobile {
    pub fn new(pos: Position, max_speed: u32) -> (r: Mobile)
        ensures
            r.pos == pos,
            r.impulse == (Impulse { x: 0, y: 0 }),
            r.max_speed == max_speed,
    {
        Mobile { pos, impulse: Impulse::zero(), max_speed }
    }
}

/// The positions of the mobile entities, in their order.
pub open spec fn positions_of(mobiles: Seq<Mobile>) -> Seq<Position> {
    mobiles.map_values(|m: Mobile| m.pos)
}

/// The impulse a mobile holds after a tick's input: the one the held keys
/// give, or the one it had when no key is held.
pub open spec fn impulse_after(held: Seq<Key>, before: Impulse) -> Impulse {
    match impulse_for(held) {
        Some(p) => p,
        None => before,
    }
}

/// The entities of the arena for the current tick.
pub struct World {
    pub mobiles: Vec<Mobile>,
    pub collectibles: Vec<Collectible>,
}

impl World {
    pub fn new(mobiles: Vec<Mobile>, collectibles: Vec<Collectible>) -> (r: World)
        ensures
            r.mobiles@ == mobiles@,
            r.collectibles@ == collectibles@,
    {
        World { mobiles, collectibles }
    }

    /// The positions of the mobile entities, in their order.
    pub fn mobile_positions(&self) -> (r: Vec<Position>)
        ensures
            r@ == positions_of(self.mobiles@),
    {
        let mut r: Vec<Position> = Vec::new();
        let mut i: usize = 0;
        while i < self.mobiles.len()
            invariant
                i <= self.mobiles.len(),
                r@ == positions_of(self.mobiles@.take(i as int)),
            decreases self.mobiles.len() - i,
        {
            r.push(self.mobiles[i].pos);
            assert(positions_of(self.mobiles@.take(i + 1)) =~= positions_of(
                self.mobiles@.take(i as int),
            ).push(self.mobiles@[i as int].pos));
            i += 1;
        }
        assert(self.mobiles@.take(self.mobiles.len() as int) == self.mobiles@);
        r
    }

    /// Applies the impulse of the held keys to every mobile entity alike.
    /// With no key held every mobile keeps the impulse it had.
    pub fn move_mobiles(&mut self, held: &Vec<Key>)
        ensures
            final(self).collectibles@ == old(self).collectibles@,
            final(self).mobiles@.len() == old(self).mobiles@.len(),
            forall|i: int|
                0 <= i < old(self).mobiles@.len() ==> (#[trigger] final(self).mobiles@[i]) == (
                Mobile { impulse: impulse_after(held@, old(self).mobiles@[i].impulse),
                ..old(self).mobiles@[i] }),
    {
        let input = map_input(held);
        let ghost start = self.mobiles@;
        let mut i: usize = 0;
        while i < self.mobiles.len()
            invariant
                i <= self.mobiles.len(),
                input == impulse_for(held@),
                self.mobiles@.len() == start.len(),
                self.collectibles@ == old(self).collectibles@,
                start == old(self).mobiles@,
                forall|k: int|
                    0 <= k < i ==> (#[trigger] self.mobiles@[k]) == (Mobile {
                        impulse: impulse_after(held@, start[k].impulse),
                        ..start[k]
                    }),
                forall|k: int| i <= k < start.len() ==> (#[trigger] self.mobiles@[k]) == start[k],
            decreases self.mobiles.len() - i,
        {
            match input {
                Some(p) => {
                    let m = self.mobiles[i];
                    self.mobiles.set(i, Mobile { impulse: p, ..m });
                },
                None => {},
            }
            i += 1;
        }
    }

    /// Picks up every collectible that lies strictly closer than `radius` to
    /// some mobile entity: returns their identifiers, each once, and removes
    /// them from the arena once the scan is done.
    pub fn collect_items(&mut self, radius: u32) -> (r: Vec<u64>)
        ensures
            r@.no_duplicates(),
            r@.to_set() == picked(
                positions_of(old(self).mobiles@),
                old(self).collectibles@,
                radius as nat,
            ),
            final(self).mobiles@ == old(self).mobiles@,
            final(self).collectibles@ == kept(old(self).collectibles@, r@),
    {
        let positions = self.mobile_positions();
        let taken = collect(&positions, &self.collectibles, radius);
        let rest = remove_collected(&self.collectibles, &taken);
        self.collectibles = rest;
        taken
    }

    /// The camera target for the current positions of the mobile entities.
    pub fn camera_follow(&self) -> (r: CameraTarget)
        ensures
            r == target_of(positions_of(self.mobiles@)),
    {
        let positions = self.mobile_positions();
        center(&positions)
    }
}

} // verus!
