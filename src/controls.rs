//! Keyboard control: the held direction keys decide the impulse that every
//! player-controlled entity receives on a tick.
use vstd::prelude::*;

verus! {

/// Strength of the impulse that one direction key gives.
pub const IMPULSE_STRENGTH: i32 = 1000;

/// A direction key.
#[derive(Clone, Copy, Debug, PartialEq, Eq, Structural)]
pub enum Key {
    Up,
    Down,
    Left,
    Right,
}

/// A 2D impulse in world units.
#[derive(Clone, Copy, Debug, PartialEq, Eq, Structural)]
pub struct Impulse {
    pub x: i32,
    pub y: i32,
}

impl Impulse {
    pub fn new(x: i32, y: i32) -> (r: Impulse)
        ensures
            r.x == x,
            r.y == y,
    {
        Impulse { x, y }
    }

    /// No impulse at all.
    pub fn zero() -> (r: Impulse)
        ensures
            r.x == 0,
            r.y == 0,
    {
        Impulse { x: 0, y: 0 }
    }
}

/// The impulse of a single key.
pub open spec fn key_impulse(k: Key) -> Impulse {
    match k {
        Key::Up => Impulse { x: 0, y: IMPULSE_STRENGTH },
        Key::Down => Impulse { x: 0, y: (-IMPULSE_STRENGTH) as i32 },
        Key::Left => Impulse { x: (-IMPULSE_STRENGTH) as i32, y: 0 },
        Key::Right => Impulse { x: IMPULSE_STRENGTH, y: 0 },
    }
}

/// The impulse for the held keys. The keys are looked at in the order Up,
/// Down, Left, Right and each held one overwrites what came before, so the
/// last held key in that order wins: Right over Left over Down over Up.
/// Opposing keys do not cancel. With no key held there is no impulse, and
/// whatever the entity already had stays.
pub open spec fn impulse_for(held: Seq<Key>) -> Option<Impulse> {
    if held.contains(Key::Right) {
        Some(key_impulse(Key::Right))
    } else if held.contains(Key::Left) {
        Some(key_impulse(Key::Left))
    } else if held.contains(Key::Down) {
        Some(key_impulse(Key::Down))
    } else if held.contains(Key::Up) {
        Some(key_impulse(Key::Up))
    } else {
        None
    }
}

/// Whether `k` is among the held keys.
pub fn is_held(held: &Vec<Key>, k: Key) -> (r: bool)
    ensures
        r == held@.contains(k),
{
    let mut i: usize = 0;
    while i < held.len()
        invariant
            i <= held.len(),
            forall|j: int| 0 <= j < i ==> held@[j] != k,
        decreases held.len() - i,
    {
        if held[i] == k {
            return true;
        }
        i += 1;
    }
    false
}

/// The impulse of a single key.
pub fn impulse_of_key(k: Key) -> (r: Impulse)
    ensures
        r == key_impulse(k),
{
    match k {
        Key::Up => Impulse { x: 0, y: IMPULSE_STRENGTH },
        Key::Down => Impulse { x: 0, y: -IMPULSE_STRENGTH },
        Key::Left => Impulse { x: -IMPULSE_STRENGTH, y: 0 },
        Key::Right => Impulse { x: IMPULSE_STRENGTH, y: 0 },
    }
}

/// The impulse for the held keys: each held key, checked in the order Up,
/// Down, Left, Right, overwrites the one before; `None` when none is held.
pub fn map_input(held: &Vec<Key>) -> (r: Option<Impulse>)
    ensures
        r == impulse_for(held@),
{
    let mut r: Option<Impulse> = None;
    if is_held(held, Key::Up) {
        r = Some(impulse_of_key(Key::Up));
    }
    if is_held(held, Key::Down) {
        r = Some(impulse_of_key(Key::Down));
    }
    if is_held(held, Key::Left) {
        r = Some(impulse_of_key(Key::Left));
    }
    if is_held(held, Key::Right) {
        r = Some(impulse_of_key(Key::Right));
    }
    r
}

} // verus!
