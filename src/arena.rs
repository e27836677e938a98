//! The arena at the start of play: its walls, the players, and the
//! collectibles scattered at random over the playing field.
use vstd::prelude::*;
use crate::controls::Impulse;
use crate::geometry::Position;
use crate::pickup::Collectible;
use crate::world::{Mobile, World};

verus! {

/// Number of players spawned at the start.
pub const PLAYER_COUNT: u64 = 10;

/// Number of collectibles spawned at the start.
pub const COLLECTIBLE_COUNT: u64 = 5;

/// Distance below which a player picks up a collectible.
pub const PICKUP_RADIUS: u32 = 16;

/// Top speed given to each player.
pub const PLAYER_MAX_SPEED: u32 = 1;

/// Collectibles land with `-FIELD_HALF_WIDTH <= x < FIELD_HALF_WIDTH`.
pub const FIELD_HALF_WIDTH: i32 = 500;

/// Collectibles land with `-FIELD_HALF_HEIGHT <= y < FIELD_HALF_HEIGHT`.
pub const FIELD_HALF_HEIGHT: i32 = 300;

/// A fixed rectangular body of the arena, given by its centre and half
/// extents.
#[derive(Clone, Copy, Debug, PartialEq, Eq, Structural)]
pub struct Block {
    pub center: Position,
    pub half_width: u32,
    pub half_height: u32,
}

/// The floor, the two side walls and the ceiling, in that order.
pub open spec fn blocks_spec() -> Seq<Block> {
    seq![
        Block { center: Position { x: 0, y: -300i32 }, half_width: 800, half_height: 16 },
        Block { center: Position { x: -600i32, y: 0 }, half_width: 16, half_height: 400 },
        Block { center: Position { x: 600, y: 0 }, half_width: 16, half_height: 400 },
        Block { center: Position { x: 0, y: 300 }, half_width: 16, half_height: 400 },
    ]
}

/// The fixed bodies that bound the arena: the floor, the two side walls and
/// the ceiling, in that order.
pub fn arena_blocks() -> (r: Vec<Block>)
    ensures
        r@ == blocks_spec(),
{
    let r = vec![
        Block { center: Position { x: 0, y: -300 }, half_width: 800, half_height: 16 },
        Block { center: Position { x: -600, y: 0 }, half_width: 16, half_height: 400 },
        Block { center: Position { x: 600, y: 0 }, half_width: 16, half_height: 400 },
        Block { center: Position { x: 0, y: 300 }, half_width: 16, half_height: 400 },
    ];
    assert(r@ =~= blocks_spec());
    r
}

/// Relies on rand's `thread_rng().gen_range(lo..hi)`: a value of the
/// half-open range, which must not be empty (it panics on an empty one).
#[verifier::external_body]
fn random_between(lo: i32, hi: i32) -> (r: i32)
    requires
        lo < hi,
    ensures
        lo <= r < hi,
{
    rand::Rng::gen_range(&mut rand::thread_rng(), lo..hi)
}

/// `p` lies on the playing field where collectibles land.
pub open spec fn on_field(p: Position) -> bool {
    -FIELD_HALF_WIDTH <= p.x < FIELD_HALF_WIDTH && -FIELD_HALF_HEIGHT <= p.y < FIELD_HALF_HEIGHT
}

/// `count` collectibles with identifiers `0, 1, ...` in that order, each at
/// a random point of the playing field.
pub fn scatter_collectibles(count: u64) -> (r: Vec<Collectible>)
    ensures
        r@.len() == count,
        forall|k: int| 0 <= k < count ==> (#[trigger] r@[k]).id == k && on_field(r@[k].pos),
{
    let mut r: Vec<Collectible> = Vec::new();
    let mut i: u64 = 0;
    while i < count
        invariant
            i <= count,
            r@.len() == i,
            forall|k: int| 0 <= k < i ==> (#[trigger] r@[k]).id == k && on_field(r@[k].pos),
        decreases count - i,
    {
        let x = random_between(-FIELD_HALF_WIDTH, FIELD_HALF_WIDTH);
        let y = random_between(-FIELD_HALF_HEIGHT, FIELD_HALF_HEIGHT);
        r.push(Collectible { id: i, pos: Position { x, y } });
        i += 1;
    }
    r
}

/// `count` players at the origin, at rest, with the players' top speed.
pub fn spawn_players(count: u64) -> (r: Vec<Mobile>)
    ensures
        r@.len() == count,
        forall|k: int|
            0 <= k < count ==> #[trigger] r@[k] == (Mobile {
                pos: Position { x: 0, y: 0 },
                impulse: Impulse { x: 0, y: 0 },
                max_speed: PLAYER_MAX_SPEED,
            }),
{
    let mut r: Vec<Mobile> = Vec::new();
    let mut i: u64 = 0;
    while i < count
        invariant
            i <= count,
            r@.len() == i,
            forall|k: int|
                0 <= k < i ==> #[trigger] r@[k] == (Mobile {
                    pos: Position { x: 0, y: 0 },
                    impulse: Impulse { x: 0, y: 0 },
                    max_speed: PLAYER_MAX_SPEED,
                }),
        decreases count - i,
    {
        r.push(Mobile::new(Position::origin(), PLAYER_MAX_SPEED));
        i += 1;
    }
    r
}

/// The arena at the start of play: the players at the origin and the
/// collectibles scattered over the playing field.
pub fn spawn_world() -> (r: World)
    ensures
        r.mobiles@.len() == PLAYER_COUNT,
        forall|k: int|
            0 <= k < PLAYER_COUNT ==> (#[trigger] r.mobiles@[k]).pos == (Position { x: 0, y: 0 })
                && r.mobiles@[k].impulse == (Impulse { x: 0, y: 0 }),
        r.collectibles@.len() == COLLECTIBLE_COUNT,
        forall|k: int|
            0 <= k < COLLECTIBLE_COUNT ==> (#[trigger] r.collectibles@[k]).id == k && on_field(
                r.collectibles@[k].pos,
            ),
{
    let mobiles = spawn_players(PLAYER_COUNT);
    let collectibles = scatter_collectibles(COLLECTIBLE_COUNT);
    World::new(mobiles, collectibles)
}

} // verus!
