use duck_arena::arena::{
    arena_blocks, scatter_collectibles, spawn_players, spawn_world, COLLECTIBLE_COUNT,
    FIELD_HALF_HEIGHT, FIELD_HALF_WIDTH, PICKUP_RADIUS, PLAYER_COUNT,
};
use duck_arena::camera::{center, CameraTarget};
use duck_arena::controls::{map_input, Impulse, Key, IMPULSE_STRENGTH};
use duck_arena::geometry::{distance_sq, is_within, Position};
use duck_arena::pickup::{collect, remove_collected, Collectible};
use duck_arena::world::{Mobile, World};

fn p(x: i32, y: i32) -> Position {
    Position::new(x, y)
}

fn c(id: u64, x: i32, y: i32) -> Collectible {
    Collectible::new(id, p(x, y))
}

fn sorted(mut v: Vec<u64>) -> Vec<u64> {
    v.sort();
    v
}

#[test]
fn distance_sq_exact() {
    assert_eq!(distance_sq(p(0, 0), p(3, 4)), 25);
    assert_eq!(distance_sq(p(-2, 5), p(1, 1)), 25);
    let far = distance_sq(p(i32::MIN, i32::MIN), p(i32::MAX, i32::MAX));
    assert_eq!(far, 2 * (u32::MAX as u128) * (u32::MAX as u128));
}

#[test]
fn within_is_strict() {
    assert!(is_within(p(0, 0), p(1, 0), 2));
    assert!(!is_within(p(0, 0), p(2, 0), 2));
    assert!(!is_within(p(0, 0), p(0, 0), 0));
}

#[test]
fn collect_two_mobiles_scenario() {
    let mobiles = vec![p(0, 0), p(4, 0)];
    let items = vec![c(1, 1, 0), c(2, 3, 0), c(3, 10, 0)];
    assert_eq!(sorted(collect(&mobiles, &items, 2)), vec![1, 2]);
}

#[test]
fn collect_with_no_mobiles_is_empty() {
    let items = vec![c(1, 0, 0), c(2, 5, 5)];
    assert!(collect(&Vec::new(), &items, 1000).is_empty());
}

#[test]
fn collect_exactly_nearest_below_radius() {
    let mobiles = vec![p(0, 0), p(100, 0)];
    let items = vec![c(7, 0, 15), c(8, 0, 16), c(9, 100, -15), c(10, 50, 0)];
    assert_eq!(sorted(collect(&mobiles, &items, 16)), vec![7, 9]);
}

#[test]
fn collect_reports_shared_item_once() {
    let mobiles = vec![p(0, 0), p(2, 0), p(1, 1)];
    let items = vec![c(4, 1, 0)];
    assert_eq!(collect(&mobiles, &items, 5), vec![4]);
}

#[test]
fn collect_radius_zero_takes_nothing() {
    let mobiles = vec![p(1, 1)];
    let items = vec![c(1, 1, 1)];
    assert!(collect(&mobiles, &items, 0).is_empty());
}

#[test]
fn remove_keeps_order_of_the_rest() {
    let items = vec![c(1, 0, 0), c(2, 1, 0), c(3, 2, 0), c(4, 3, 0)];
    let rest = remove_collected(&items, &vec![3, 1]);
    assert_eq!(rest, vec![c(2, 1, 0), c(4, 3, 0)]);
}

#[test]
fn collected_items_never_return() {
    let mut world = World::new(
        vec![Mobile::new(p(0, 0), 1)],
        vec![c(1, 5, 0), c(2, 40, 0), c(3, 80, 0)],
    );
    assert_eq!(world.collect_items(PICKUP_RADIUS), vec![1]);
    assert_eq!(world.collectibles.len(), 2);
    assert!(world.collect_items(PICKUP_RADIUS).is_empty());
    world.mobiles[0].pos = p(5, 0);
    assert!(world.collect_items(PICKUP_RADIUS).is_empty());
    world.mobiles[0].pos = p(40, 0);
    assert_eq!(world.collect_items(PICKUP_RADIUS), vec![2]);
    world.mobiles[0].pos = p(5, 0);
    assert!(world.collect_items(1000).iter().all(|id| *id != 1 && *id != 2));
    assert!(world.collectibles.is_empty());
}

#[test]
fn center_of_nothing_is_origin_at_base_zoom() {
    let t = center(&Vec::new());
    assert_eq!(t, CameraTarget { x_num: 0, y_num: 0, den: 1 });
}

#[test]
fn center_of_opposite_pair() {
    let t = center(&vec![p(10, 0), p(-10, 0)]);
    assert_eq!(t, CameraTarget { x_num: 0, y_num: 0, den: 2 });
}

#[test]
fn center_mean_exact() {
    let t = center(&vec![p(1, 2), p(4, 8), p(7, -1)]);
    assert_eq!(t, CameraTarget { x_num: 12, y_num: 9, den: 3 });
}

#[test]
fn center_ignores_order() {
    let a = center(&vec![p(1, 2), p(4, 8), p(7, -1), p(4, 8)]);
    let b = center(&vec![p(4, 8), p(7, -1), p(4, 8), p(1, 2)]);
    assert_eq!(a, b);
}

#[test]
fn center_extreme_coordinates() {
    let t = center(&vec![p(i32::MAX, i32::MIN), p(i32::MAX, i32::MIN)]);
    assert_eq!(t.x_num, 2 * i32::MAX as i128);
    assert_eq!(t.y_num, 2 * i32::MIN as i128);
}

#[test]
fn map_input_up() {
    assert_eq!(map_input(&vec![Key::Up]), Some(Impulse::new(0, IMPULSE_STRENGTH)));
    assert_eq!(IMPULSE_STRENGTH, 1000);
}

#[test]
fn map_input_single_keys() {
    assert_eq!(map_input(&vec![Key::Down]), Some(Impulse::new(0, -1000)));
    assert_eq!(map_input(&vec![Key::Left]), Some(Impulse::new(-1000, 0)));
    assert_eq!(map_input(&vec![Key::Right]), Some(Impulse::new(1000, 0)));
}

#[test]
fn map_input_up_and_down_down_wins() {
    assert_eq!(map_input(&vec![Key::Up, Key::Down]), Some(Impulse::new(0, -1000)));
    assert_eq!(map_input(&vec![Key::Down, Key::Up]), Some(Impulse::new(0, -1000)));
}

#[test]
fn map_input_later_key_wins() {
    assert_eq!(map_input(&vec![Key::Right, Key::Left]), Some(Impulse::new(1000, 0)));
    assert_eq!(map_input(&vec![Key::Left, Key::Up, Key::Down]), Some(Impulse::new(-1000, 0)));
}

#[test]
fn map_input_nothing_held() {
    assert_eq!(map_input(&Vec::new()), None);
}

#[test]
fn move_mobiles_same_impulse_for_all() {
    let mut world = World::new(
        vec![Mobile::new(p(0, 0), 1), Mobile::new(p(3, 3), 2)],
        vec![c(1, 9, 9)],
    );
    world.move_mobiles(&vec![Key::Left]);
    assert!(world.mobiles.iter().all(|m| m.impulse == Impulse::new(-1000, 0)));
    assert_eq!(world.mobiles[1].pos, p(3, 3));
    assert_eq!(world.mobiles[1].max_speed, 2);
    world.move_mobiles(&Vec::new());
    assert!(world.mobiles.iter().all(|m| m.impulse == Impulse::new(-1000, 0)));
    assert_eq!(world.collectibles, vec![c(1, 9, 9)]);
}

#[test]
fn camera_follow_uses_mobile_positions() {
    let world = World::new(vec![Mobile::new(p(0, 0), 1), Mobile::new(p(4, 6), 1)], Vec::new());
    assert_eq!(world.camera_follow(), CameraTarget { x_num: 4, y_num: 6, den: 2 });
}

#[test]
fn end_to_end_tick() {
    let mut world = World::new(
        vec![Mobile::new(p(0, 0), 1), Mobile::new(p(4, 0), 1)],
        vec![c(1, 1, 0), c(2, 3, 0), c(3, 10, 0)],
    );
    world.move_mobiles(&vec![Key::Up]);
    assert_eq!(sorted(world.collect_items(2)), vec![1, 2]);
    assert_eq!(world.collectibles, vec![c(3, 10, 0)]);
    assert_eq!(world.camera_follow(), CameraTarget { x_num: 4, y_num: 0, den: 2 });
}

#[test]
fn arena_blocks_layout() {
    let b = arena_blocks();
    assert_eq!(b.len(), 4);
    assert_eq!(b[0].center, p(0, -300));
    assert_eq!((b[0].half_width, b[0].half_height), (800, 16));
    assert_eq!(b[1].center, p(-600, 0));
    assert_eq!(b[2].center, p(600, 0));
    assert_eq!(b[3].center, p(0, 300));
    assert_eq!((b[3].half_width, b[3].half_height), (16, 400));
}

#[test]
fn scattered_collectibles_on_field() {
    let items = scatter_collectibles(200);
    assert_eq!(items.len(), 200);
    for (k, it) in items.iter().enumerate() {
        assert_eq!(it.id, k as u64);
        assert!(-FIELD_HALF_WIDTH <= it.pos.x && it.pos.x < FIELD_HALF_WIDTH);
        assert!(-FIELD_HALF_HEIGHT <= it.pos.y && it.pos.y < FIELD_HALF_HEIGHT);
    }
    assert!(items.iter().any(|it| it.pos != items[0].pos));
}

#[test]
fn spawned_world_start() {
    let w = spawn_world();
    assert_eq!(w.mobiles.len() as u64, PLAYER_COUNT);
    assert_eq!(w.collectibles.len() as u64, COLLECTIBLE_COUNT);
    assert!(w.mobiles.iter().all(|m| m.pos == p(0, 0) && m.impulse == Impulse::zero()));
    assert_eq!(spawn_players(3).len(), 3);
}

