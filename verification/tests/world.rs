use oort::vec2::Vec2;
use oort::world::{
    BulletHandle, FireOutcome, ShipClass, ShipHandle, Wall, World, ASTEROID_TEAM,
    BULLET_LIFETIME_TICKS, ENEMY_TEAM, MUZZLE_SPEED, NOSE_OFFSET, PLAYER_TEAM, RELOAD_TICKS,
};

fn zero() -> Vec2 {
    Vec2::new(0, 0)
}

fn fighter(world: &mut World, team: i32, x: i32, y: i32) -> ShipHandle {
    world.add_ship(team, ShipClass::Fighter, Vec2::new(x, y), zero(), 0)
}

#[test]
fn a_new_world_is_empty() {
    let world = World::new();
    assert_eq!(world.ship_count(), 0);
    assert_eq!(world.bullet_count(), 0);
    assert_eq!(world.walls.len(), 0);
    assert_eq!(world.first_handle, 0);
    assert_eq!(world.next_handle, 0);
    assert_eq!(world.tick, 0);
    assert!(!world.collided);
    assert!(world.first_ship().is_none());
}

#[test]
fn ships_get_handles_in_the_order_of_their_creation() {
    let mut world = World::new();
    let a = world.add_ship(
        PLAYER_TEAM,
        ShipClass::Fighter,
        Vec2::new(1, 2),
        Vec2::new(3, 4),
        5,
    );
    let b = world.add_ship(
        ASTEROID_TEAM,
        ShipClass::Asteroid { variant: 7 },
        Vec2::new(-1, -2),
        Vec2::new(-3, -4),
        -5,
    );
    assert_eq!(a, ShipHandle(0));
    assert_eq!(b, ShipHandle(1));
    assert_eq!(world.next_handle, 2);
    assert_eq!(world.ship_count(), 2);
    assert_eq!(world.first_ship(), Some(a));
    let first = world.ship(a).expect("alive");
    assert_eq!(first.handle, a);
    assert_eq!(first.team, PLAYER_TEAM);
    assert_eq!(first.class, ShipClass::Fighter);
    assert_eq!(first.position, Vec2::new(1, 2));
    assert_eq!(first.velocity, Vec2::new(3, 4));
    assert_eq!(first.heading, 5);
    assert_eq!(first.angular_velocity, 0);
    assert_eq!(first.cooldown, 0);
    assert!(first.target.is_none());
    let second = world.ship(b).expect("alive");
    assert_eq!(second.team, ASTEROID_TEAM);
    assert_eq!(second.class, ShipClass::Asteroid { variant: 7 });
    assert_eq!(second.position, Vec2::new(-1, -2));
    assert_eq!(second.heading, -5);
}

#[test]
fn ships_and_bullets_share_one_counter() {
    let mut world = World::new();
    let ship = fighter(&mut world, PLAYER_TEAM, 0, 0);
    let bullet = world.add_bullet(ENEMY_TEAM, Vec2::new(9, 9), Vec2::new(1, 1));
    let other = fighter(&mut world, ENEMY_TEAM, 5, 5);
    assert_eq!(ship, ShipHandle(0));
    assert_eq!(bullet, BulletHandle(1));
    assert_eq!(other, ShipHandle(2));
    assert_eq!(world.find_ship(other), Some(1));
    assert_eq!(world.find_bullet(bullet), Some(0));
    assert_eq!(world.find_ship(ShipHandle(1)), None);
    assert_eq!(world.find_bullet(BulletHandle(0)), None);
}

#[test]
fn bullets_remember_when_they_were_made() {
    let mut world = World::new();
    world.finish_tick();
    world.finish_tick();
    let handle = world.add_bullet(PLAYER_TEAM, Vec2::new(1, 2), Vec2::new(3, 4));
    let bullet = world.bullets[0];
    assert_eq!(bullet.handle, handle);
    assert_eq!(bullet.team, PLAYER_TEAM);
    assert_eq!(bullet.position, Vec2::new(1, 2));
    assert_eq!(bullet.velocity, Vec2::new(3, 4));
    assert_eq!(bullet.spawn_tick, 2);
    assert_eq!(bullet.ttl, BULLET_LIFETIME_TICKS);
}

#[test]
fn walls_are_kept_in_the_order_given() {
    let mut world = World::new();
    let wall = |x: i32| Wall { center: Vec2::new(x, 0), angle: x, length: 3, width: 1, restitution: 1000 };
    world.add_wall(wall(1));
    world.add_wall(wall(2));
    assert_eq!(world.walls.len(), 2);
    assert_eq!(world.walls[0].center, Vec2::new(1, 0));
    assert_eq!(world.walls[1].center, Vec2::new(2, 0));
    assert_eq!(world.walls[1].angle, 2);
    assert_eq!(world.next_handle, 0);
}

#[test]
fn a_target_goes_to_the_named_ship_only() {
    let mut world = World::new();
    let a = fighter(&mut world, PLAYER_TEAM, 0, 0);
    let b = fighter(&mut world, PLAYER_TEAM, 1, 1);
    world.write_target(b, Vec2::new(10, 20));
    assert!(world.ship(a).expect("alive").target.is_none());
    assert_eq!(world.ship(b).expect("alive").target, Some(Vec2::new(10, 20)));
    world.write_target(b, Vec2::new(30, 40));
    assert_eq!(world.ship(b).expect("alive").target, Some(Vec2::new(30, 40)));
    assert_eq!(world.ship(b).expect("alive").position, Vec2::new(1, 1));
}

#[test]
fn motion_is_written_back_to_the_named_ship_only() {
    let mut world = World::new();
    let a = fighter(&mut world, PLAYER_TEAM, 0, 0);
    let b = fighter(&mut world, ENEMY_TEAM, 1, 1);
    world.write_target(a, Vec2::new(5, 5));
    world.set_motion(a, Vec2::new(10, 11), Vec2::new(12, 13), 14, 15);
    let moved = world.ship(a).expect("alive");
    assert_eq!(moved.position, Vec2::new(10, 11));
    assert_eq!(moved.velocity, Vec2::new(12, 13));
    assert_eq!(moved.heading, 14);
    assert_eq!(moved.angular_velocity, 15);
    assert_eq!(moved.team, PLAYER_TEAM);
    assert_eq!(moved.target, Some(Vec2::new(5, 5)));
    let other = world.ship(b).expect("alive");
    assert_eq!(other.position, Vec2::new(1, 1));
    assert_eq!(other.velocity, zero());
}

#[test]
fn motion_is_written_back_to_the_named_bullet_only() {
    let mut world = World::new();
    let a = world.add_bullet(PLAYER_TEAM, Vec2::new(0, 0), Vec2::new(1, 0));
    let b = world.add_bullet(PLAYER_TEAM, Vec2::new(5, 5), Vec2::new(0, 1));
    world.set_bullet_motion(b, Vec2::new(5, 6), Vec2::new(0, 2));
    assert_eq!(world.bullets[0].handle, a);
    assert_eq!(world.bullets[0].position, Vec2::new(0, 0));
    assert_eq!(world.bullets[1].handle, b);
    assert_eq!(world.bullets[1].position, Vec2::new(5, 6));
    assert_eq!(world.bullets[1].velocity, Vec2::new(0, 2));
    assert_eq!(world.bullets[1].ttl, BULLET_LIFETIME_TICKS);
}

#[test]
fn a_shot_adds_the_muzzle_velocity_and_leaves_the_ship_alone() {
    let mut world = World::new();
    let ship = world.add_ship(
        PLAYER_TEAM,
        ShipClass::Fighter,
        Vec2::new(1_000, 2_000),
        Vec2::new(30, -40),
        0,
    );
    let outcome = world.fire_weapon(ship, 0, Vec2::new(1_000, 0));
    assert_eq!(outcome, FireOutcome::Fired(BulletHandle(1)));
    assert_eq!(world.bullet_count(), 1);
    let bullet = world.bullets[0];
    assert_eq!(bullet.handle, BulletHandle(1));
    assert_eq!(bullet.team, PLAYER_TEAM);
    assert_eq!(bullet.position, Vec2::new(21_000, 2_000));
    assert_eq!(bullet.velocity, Vec2::new(1_000_030, -40));
    assert_eq!(bullet.spawn_tick, 0);
    assert_eq!(bullet.ttl, BULLET_LIFETIME_TICKS);
    let after = world.ship(ship).expect("alive");
    assert_eq!(after.position, Vec2::new(1_000, 2_000));
    assert_eq!(after.velocity, Vec2::new(30, -40));
    assert_eq!(after.cooldown, RELOAD_TICKS);
    assert!(!world.collided);
}

#[test]
fn a_reloading_weapon_does_not_fire() {
    let mut world = World::new();
    let ship = fighter(&mut world, PLAYER_TEAM, 0, 0);
    let ahead = Vec2::new(1_000, 0);
    assert!(matches!(world.fire_weapon(ship, 0, ahead), FireOutcome::Fired(_)));
    for left in (1..=RELOAD_TICKS).rev() {
        assert_eq!(world.ship(ship).expect("alive").cooldown, left);
        assert_eq!(world.fire_weapon(ship, 0, ahead), FireOutcome::Reloading);
        assert_eq!(world.bullet_count(), 1);
        assert_eq!(world.next_handle, 2);
        world.finish_tick();
    }
    assert_eq!(world.ship(ship).expect("alive").cooldown, 0);
    assert_eq!(world.fire_weapon(ship, 0, ahead), FireOutcome::Fired(BulletHandle(2)));
    assert_eq!(world.bullet_count(), 2);
}

#[test]
fn only_fighters_have_a_weapon_and_only_one() {
    let mut world = World::new();
    let ship = fighter(&mut world, PLAYER_TEAM, 0, 0);
    let rock = world.add_ship(ASTEROID_TEAM, ShipClass::Asteroid { variant: 3 }, zero(), zero(), 0);
    assert_eq!(world.fire_weapon(ship, 1, Vec2::new(1_000, 0)), FireOutcome::Unarmed);
    assert_eq!(world.fire_weapon(ship, u32::MAX, Vec2::new(1_000, 0)), FireOutcome::Unarmed);
    assert_eq!(world.fire_weapon(rock, 0, Vec2::new(1_000, 0)), FireOutcome::Unarmed);
    assert_eq!(world.bullet_count(), 0);
    assert_eq!(world.ship(ship).expect("alive").cooldown, 0);
    assert_eq!(world.next_handle, 2);
}

#[test]
fn a_tick_cools_weapons_and_counts() {
    let mut world = World::new();
    let a = fighter(&mut world, PLAYER_TEAM, 0, 0);
    let b = fighter(&mut world, ENEMY_TEAM, 10, 10);
    world.fire_weapon(a, 0, Vec2::new(0, 1_000));
    world.finish_tick();
    assert_eq!(world.tick, 1);
    assert_eq!(world.ship(a).expect("alive").cooldown, RELOAD_TICKS - 1);
    assert_eq!(world.ship(b).expect("alive").cooldown, 0);
    assert_eq!(world.ship(b).expect("alive").position, Vec2::new(10, 10));
    assert_eq!(world.ship_count(), 2);
}

#[test]
fn bullets_expire_when_their_time_is_up() {
    let mut world = World::new();
    let old = world.add_bullet(PLAYER_TEAM, zero(), zero());
    for _ in 0..100 {
        world.finish_tick();
    }
    let young = world.add_bullet(PLAYER_TEAM, zero(), zero());
    for _ in 100..BULLET_LIFETIME_TICKS - 1 {
        world.finish_tick();
    }
    assert_eq!(world.tick, (BULLET_LIFETIME_TICKS - 1) as u64);
    assert_eq!(world.bullet_count(), 2);
    world.finish_tick();
    assert_eq!(world.bullet_count(), 1);
    assert!(world.find_bullet(old).is_none());
    assert_eq!(world.find_bullet(young), Some(0));
    for _ in 0..99 {
        world.finish_tick();
    }
    assert_eq!(world.bullet_count(), 1);
    world.finish_tick();
    assert_eq!(world.bullet_count(), 0);
}

#[test]
fn expiry_keeps_the_order_of_the_bullets_that_stay() {
    let mut world = World::new();
    let a = world.add_bullet(PLAYER_TEAM, zero(), zero());
    world.finish_tick();
    let b = world.add_bullet(PLAYER_TEAM, zero(), zero());
    let c = world.add_bullet(PLAYER_TEAM, zero(), zero());
    for _ in 1..BULLET_LIFETIME_TICKS {
        world.finish_tick();
    }
    assert!(world.find_bullet(a).is_none());
    assert_eq!(world.find_bullet(b), Some(0));
    assert_eq!(world.find_bullet(c), Some(1));
}

#[test]
fn an_explosion_removes_the_ship_and_raises_the_flag() {
    let mut world = World::new();
    let a = fighter(&mut world, PLAYER_TEAM, 0, 0);
    let b = fighter(&mut world, ENEMY_TEAM, 1, 1);
    let c = fighter(&mut world, ENEMY_TEAM, 2, 2);
    world.explode(b);
    assert!(world.collided);
    assert_eq!(world.ship_count(), 2);
    assert!(world.ship(b).is_none());
    assert_eq!(world.find_ship(a), Some(0));
    assert_eq!(world.find_ship(c), Some(1));
    assert_eq!(world.next_handle, 3);
    let d = fighter(&mut world, ENEMY_TEAM, 3, 3);
    assert_eq!(d, ShipHandle(3));
}

#[test]
fn the_collision_flag_is_taken_once() {
    let mut world = World::new();
    let a = fighter(&mut world, PLAYER_TEAM, 0, 0);
    assert!(!world.take_collided());
    world.explode(a);
    assert!(world.take_collided());
    assert!(!world.take_collided());
    assert!(!world.collided);
}

#[test]
fn a_bullet_destroys_a_ship_of_another_team() {
    let mut world = World::new();
    let shooter = fighter(&mut world, PLAYER_TEAM, -100_000, 0);
    let target = fighter(&mut world, ENEMY_TEAM, 100_000, 0);
    let bullet = match world.fire_weapon(shooter, 0, Vec2::new(1_000, 0)) {
        FireOutcome::Fired(bullet) => bullet,
        other => panic!("did not fire: {:?}", other),
    };
    assert!(world.resolve_contact(bullet, target));
    assert!(world.collided);
    assert!(world.ship(target).is_none());
    assert!(world.find_bullet(bullet).is_none());
    assert_eq!(world.ship_count(), 1);
    assert_eq!(world.bullet_count(), 0);
    assert_eq!(world.ship(shooter).expect("alive").velocity, zero());
}

#[test]
fn a_bullet_spares_its_own_team() {
    let mut world = World::new();
    let shooter = fighter(&mut world, PLAYER_TEAM, 0, 0);
    let friend = fighter(&mut world, PLAYER_TEAM, 100_000, 0);
    let bullet = world.add_bullet(PLAYER_TEAM, zero(), zero());
    assert!(!world.resolve_contact(bullet, friend));
    assert!(!world.resolve_contact(bullet, shooter));
    assert!(!world.collided);
    assert_eq!(world.ship_count(), 2);
    assert_eq!(world.bullet_count(), 1);
}

#[test]
fn a_contact_with_something_gone_changes_nothing() {
    let mut world = World::new();
    let a = fighter(&mut world, PLAYER_TEAM, 0, 0);
    let b = fighter(&mut world, ENEMY_TEAM, 1, 1);
    let bullet = world.add_bullet(PLAYER_TEAM, zero(), zero());
    assert!(world.resolve_contact(bullet, b));
    world.take_collided();
    assert!(!world.resolve_contact(bullet, b));
    assert!(!world.resolve_contact(bullet, a));
    assert!(!world.resolve_contact(BulletHandle(77), a));
    let enemy_bullet = world.add_bullet(ENEMY_TEAM, zero(), zero());
    assert!(!world.resolve_contact(enemy_bullet, b));
    assert!(!world.collided);
    assert_eq!(world.ship_count(), 1);
    assert_eq!(world.bullet_count(), 1);
}

#[test]
fn a_reset_discards_everything_and_outdates_every_handle() {
    let mut world = World::new();
    let ship = fighter(&mut world, PLAYER_TEAM, 0, 0);
    let other = fighter(&mut world, ENEMY_TEAM, 1, 1);
    let bullet = world.add_bullet(PLAYER_TEAM, zero(), zero());
    world.add_wall(Wall { center: zero(), angle: 0, length: 1, width: 1, restitution: 1000 });
    world.finish_tick();
    world.explode(other);
    world.reset();
    assert_eq!(world.ship_count(), 0);
    assert_eq!(world.bullet_count(), 0);
    assert_eq!(world.walls.len(), 0);
    assert_eq!(world.tick, 0);
    assert!(!world.collided);
    assert_eq!(world.first_handle, 3);
    assert_eq!(world.next_handle, 3);
    let fresh = fighter(&mut world, PLAYER_TEAM, 0, 0);
    let fresh_bullet = world.add_bullet(PLAYER_TEAM, zero(), zero());
    assert_eq!(fresh, ShipHandle(3));
    assert_eq!(fresh_bullet, BulletHandle(4));
    for stale in [ship, other] {
        assert!(world.ship(stale).is_none());
        assert!(world.find_ship(stale).is_none());
    }
    assert!(world.find_bullet(bullet).is_none());
}

#[test]
fn a_reset_of_a_reset_world_changes_nothing() {
    let mut world = World::new();
    fighter(&mut world, PLAYER_TEAM, 0, 0);
    world.reset();
    let (first, next) = (world.first_handle, world.next_handle);
    world.reset();
    assert_eq!(world.first_handle, first);
    assert_eq!(world.next_handle, next);
    assert_eq!(world.ship_count(), 0);
    assert_eq!(world.tick, 0);
}

#[test]
fn a_shot_across_the_arena_hits_the_other_fighter() {
    let mut world = World::new();
    let ship0 = fighter(&mut world, PLAYER_TEAM, -100_000, 0);
    let ship1 = world.add_ship(ENEMY_TEAM, ShipClass::Fighter, Vec2::new(100_000, 0), zero(), 3_141_593);
    assert_eq!(world.ship(ship0).expect("alive").velocity, zero());
    assert_eq!(world.ship(ship1).expect("alive").velocity, zero());

    let fired = world.fire_weapon(ship0, 0, Vec2::new(1_000, 0));
    assert_eq!(fired, FireOutcome::Fired(BulletHandle(2)));
    let mut hits = 0;
    for _ in 0..1000 {
        let flying: Vec<(BulletHandle, Vec2, Vec2)> =
            world.bullets.iter().map(|b| (b.handle, b.position, b.velocity)).collect();
        for (handle, position, velocity) in flying {
            let moved = Vec2::new(position.x + velocity.x / 60, position.y + velocity.y / 60);
            world.set_bullet_motion(handle, moved, velocity);
            let struck: Vec<ShipHandle> = world
                .ships
                .iter()
                .filter(|s| s.position.is_within(&moved, 10_000))
                .map(|s| s.handle)
                .collect();
            for ship in struck {
                if world.resolve_contact(handle, ship) {
                    hits += 1;
                }
            }
        }
        world.finish_tick();
    }
    assert_eq!(world.tick, 1000);
    assert_eq!(hits, 1);
    assert_eq!(world.ship(ship0).expect("alive").velocity, zero());
    assert_eq!(world.ship(ship0).expect("alive").position, Vec2::new(-100_000, 0));
    assert!(world.ship(ship1).is_none());
    assert_eq!(world.bullet_count(), 0);
    assert!(world.collided);
}

#[test]
fn asteroids_grow_with_their_variant() {
    assert_eq!(ShipClass::Fighter.collider_radius(), 10_000);
    assert_eq!(ShipClass::Asteroid { variant: 0 }.collider_radius(), 10_000);
    assert_eq!(ShipClass::Asteroid { variant: 1 }.collider_radius(), 12_000);
    assert_eq!(ShipClass::Asteroid { variant: 14 }.collider_radius(), 38_000);
    assert_eq!(ShipClass::Asteroid { variant: 29 }.collider_radius(), 68_000);
    assert_eq!(ShipClass::Asteroid { variant: 30 }.collider_radius(), 68_000);
    assert_eq!(ShipClass::Asteroid { variant: i32::MAX }.collider_radius(), 68_000);
    assert_eq!(ShipClass::Asteroid { variant: -1 }.collider_radius(), 10_000);
    assert_eq!(ShipClass::Asteroid { variant: i32::MIN }.collider_radius(), 10_000);
}

#[test]
fn bullets_are_found_by_their_handle() {
    let mut world = World::new();
    let a = world.add_bullet(PLAYER_TEAM, Vec2::new(1, 1), Vec2::new(2, 2));
    let b = world.add_bullet(ENEMY_TEAM, Vec2::new(3, 3), Vec2::new(4, 4));
    let found = world.bullet(b).expect("in flight");
    assert_eq!(found.handle, b);
    assert_eq!(found.team, ENEMY_TEAM);
    assert_eq!(found.position, Vec2::new(3, 3));
    assert_eq!(world.bullet(a).expect("in flight").velocity, Vec2::new(2, 2));
    assert!(world.bullet(BulletHandle(9)).is_none());
}

#[test]
fn a_bullet_leaves_along_the_direction_at_the_muzzle_speed() {
    assert_eq!(MUZZLE_SPEED, 1_000_000);
    assert_eq!(NOSE_OFFSET, 20_000);
    let mut world = World::new();
    let ship = world.add_ship(
        PLAYER_TEAM,
        ShipClass::Fighter,
        Vec2::new(-5_000, 7_000),
        Vec2::new(100, 200),
        0,
    );
    let outcome = world.fire_weapon(ship, 0, Vec2::new(-600, 800));
    assert_eq!(outcome, FireOutcome::Fired(BulletHandle(1)));
    let bullet = world.bullets[0];
    assert_eq!(bullet.position, Vec2::new(-5_000 - 12_000, 7_000 + 16_000));
    assert_eq!(bullet.velocity, Vec2::new(100 - 600_000, 200 + 800_000));
    let relative = Vec2::new(bullet.velocity.x - 100, bullet.velocity.y - 200);
    assert_eq!(relative.length_squared(), 1_000_000u128 * 1_000_000u128);
    let after = world.ship(ship).expect("alive");
    assert_eq!(after.position, Vec2::new(-5_000, 7_000));
    assert_eq!(after.velocity, Vec2::new(100, 200));
}

#[test]
fn a_shot_that_cannot_be_represented_is_not_fired() {
    let mut world = World::new();
    let ship = fighter(&mut world, PLAYER_TEAM, 0, 0);
    assert_eq!(world.try_fire_weapon(ShipHandle(9), 0, Vec2::new(1_000, 0)), None);
    assert_eq!(world.try_fire_weapon(ship, 0, Vec2::new(1_001, 0)), None);
    assert_eq!(world.try_fire_weapon(ship, 0, Vec2::new(0, -1_001)), None);
    world.set_motion(ship, Vec2::new(i32::MAX - 19_999, 0), zero(), 0, 0);
    assert_eq!(world.try_fire_weapon(ship, 0, Vec2::new(1_000, 0)), None);
    world.set_motion(ship, zero(), Vec2::new(0, i32::MIN + 999_999), 0, 0);
    assert_eq!(world.try_fire_weapon(ship, 0, Vec2::new(0, -1_000)), None);
    assert_eq!(world.bullet_count(), 0);
    assert_eq!(world.next_handle, 1);
    assert_eq!(world.ship(ship).expect("alive").cooldown, 0);
    world.next_handle = u64::MAX;
    assert_eq!(world.try_fire_weapon(ship, 0, Vec2::new(1_000, 0)), None);
}

#[test]
fn a_shot_that_can_be_represented_is_fired_as_ordered() {
    let mut world = World::new();
    let ship = fighter(&mut world, PLAYER_TEAM, i32::MAX - 20_000, 0);
    let rock = world.add_ship(ASTEROID_TEAM, ShipClass::Asteroid { variant: 2 }, zero(), zero(), 0);
    assert_eq!(
        world.try_fire_weapon(ship, 0, Vec2::new(1_000, 0)),
        Some(FireOutcome::Fired(BulletHandle(2)))
    );
    assert_eq!(world.bullets[0].position, Vec2::new(i32::MAX, 0));
    assert_eq!(world.bullets[0].velocity, Vec2::new(1_000_000, 0));
    assert_eq!(world.try_fire_weapon(ship, 0, Vec2::new(-1_000, 0)), Some(FireOutcome::Reloading));
    assert_eq!(world.try_fire_weapon(ship, 3, Vec2::new(-1_000, 0)), Some(FireOutcome::Unarmed));
    assert_eq!(world.try_fire_weapon(rock, 0, Vec2::new(0, 1_000)), Some(FireOutcome::Unarmed));
    assert_eq!(world.bullet_count(), 1);
}
