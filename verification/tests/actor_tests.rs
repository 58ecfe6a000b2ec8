use icarust::actors::player::{
    create_player, player_thrust, turn_angle, Player, PLAYER_BBOX, PLAYER_MAX_SPEED,
    PLAYER_SHOT_TIME,
};
use icarust::actors::rock::{create_rock, create_rocks, place_rock, Rock, MAX_ROCK_VEL, ROCK_BBOX};
use icarust::actors::shot::{
    count_down, create_shot, Shot, MAX_SHOT_VEL, SHOT_BBOX, SHOT_LIFE, SHOT_RVEL,
};
use icarust::actors::{
    check_collision, overlaps, update_actor_position, wrap_actor_position, Actor, BaseActor,
    Collidable, Inputable, Updatable,
};
use icarust::assets::{AssetManager, Sprite};
use icarust::input::InputState;
use icarust::physics::CollisionData;
use icarust::util::Vector2;

const WORLD: (u32, u32) = (1280, 540);

fn sprite() -> Sprite {
    Sprite { width: 32, height: 32 }
}

fn rock_at(x: i64, y: i64) -> Rock {
    let mut am = AssetManager::new();
    let mut rock = create_rock(&mut am, sprite());
    rock.set_position(Vector2 { x, y });
    rock
}

fn shot_at(x: i64, y: i64) -> Shot {
    let mut am = AssetManager::new();
    let mut shot = create_shot(&mut am, sprite());
    shot.set_position(Vector2 { x, y });
    shot
}

fn player_at(x: i64, y: i64) -> Player {
    let mut am = AssetManager::new();
    let mut player = create_player(&mut am, sprite(), 0, 0, 0);
    player.set_position(Vector2 { x, y });
    player
}

#[test]
fn created_actors_start_as_described() {
    let mut am = AssetManager::new();
    let player = create_player(&mut am, Sprite { width: 40, height: 60 }, 7, 1280, 540);
    assert_eq!(
        player,
        Player {
            base: BaseActor {
                asset: Sprite { width: 40, height: 60 },
                pos: Vector2 { x: 640_000, y: 270_000 },
                facing: 0,
                velocity: Vector2 { x: 0, y: 0 },
                bbox_size: 12_000,
                rvel: 0,
                alive: true,
                physics_id: 1,
            },
            shot_timeout: 0,
            shot_sound_id: 7,
        }
    );
    let rock = create_rock(&mut am, sprite());
    assert_eq!(
        rock,
        Rock {
            base: BaseActor {
                asset: sprite(),
                pos: Vector2 { x: 0, y: 0 },
                facing: 0,
                velocity: Vector2 { x: 0, y: 0 },
                bbox_size: 12_000,
                rvel: 0,
                alive: true,
                physics_id: 2,
            },
        }
    );
    let shot = create_shot(&mut am, sprite());
    assert_eq!(
        shot,
        Shot {
            base: BaseActor {
                asset: sprite(),
                pos: Vector2 { x: 0, y: 0 },
                facing: 0,
                velocity: Vector2 { x: 0, y: 0 },
                bbox_size: 6_000,
                rvel: 1043,
                alive: true,
                physics_id: 3,
            },
            time_to_live: 2_000_000,
        }
    );
    assert_eq!((PLAYER_BBOX, ROCK_BBOX, SHOT_BBOX), (12_000, 12_000, 6_000));
    assert_eq!((SHOT_LIFE, SHOT_RVEL), (2_000_000, 1043));
}

#[test]
fn accessors_read_and_write_the_shared_state() {
    let mut rock = rock_at(10, 20);
    assert!(rock.alive());
    assert_eq!(rock.position(), Vector2 { x: 10, y: 20 });
    assert_eq!(rock.center(), Vector2 { x: 10, y: 20 });
    assert_eq!((rock.x(), rock.y()), (10, 20));
    rock.set_x(-5);
    rock.set_y(7);
    assert_eq!(rock.position(), Vector2 { x: -5, y: 7 });
    rock.add_x(15);
    rock.add_y(-17);
    assert_eq!(rock.position(), Vector2 { x: 10, y: -10 });
    rock.add_position(Vector2 { x: 1, y: 2 });
    assert_eq!(rock.position(), Vector2 { x: 11, y: -8 });
    rock.set_velocity_xy(3, 4);
    assert_eq!(rock.velocity(), Vector2 { x: 3, y: 4 });
    rock.add_velocity(Vector2 { x: -1, y: -1 });
    assert_eq!(rock.velocity(), Vector2 { x: 2, y: 3 });
    rock.set_velocity(Vector2 { x: 9, y: 9 });
    assert_eq!(rock.velocity(), Vector2 { x: 9, y: 9 });
    rock.set_facing(65_000);
    rock.add_facing(1000);
    assert_eq!(rock.facing(), 464);
    assert_eq!((rock.width(), rock.height()), (32, 32));
    assert_eq!((rock.half_width(), rock.half_height()), (16_000, 16_000));
    assert_eq!(rock.bbox_size(), 12_000);
    assert_eq!(rock.rvel(), 0);
    assert_eq!(rock.physics_id(), 1);
    rock.kill();
    assert!(!rock.alive());
    assert_eq!(rock.position(), Vector2 { x: 11, y: -8 });
}

#[test]
fn rotate_spins_by_the_spin_and_wraps_round_the_turn() {
    let mut shot = shot_at(0, 0);
    shot.rotate();
    assert_eq!(shot.facing(), 1043);
    shot.set_facing(65_000);
    shot.rotate();
    assert_eq!(shot.facing(), 507);
    assert_eq!(shot.velocity(), Vector2 { x: 0, y: 0 });
}

#[test]
fn movement_clamps_then_integrates_then_spins() {
    let mut shot = shot_at(100_000, 100_000);
    shot.set_velocity(Vector2 { x: 0, y: 400_000 });
    update_actor_position(&mut shot, 1_000_000);
    assert_eq!(shot.velocity(), Vector2 { x: 0, y: 340_000 });
    assert_eq!(shot.position(), Vector2 { x: 100_000, y: 440_000 });
    assert_eq!(shot.facing(), 1043);
    assert_eq!(shot.time_to_live, 2_000_000);

    let mut rock = rock_at(0, 0);
    rock.set_velocity(Vector2 { x: 40_000, y: -30_000 });
    update_actor_position(&mut rock, 16_667);
    assert_eq!(rock.velocity(), Vector2 { x: 40_000, y: -30_000 });
    assert_eq!(rock.position(), Vector2 { x: 666, y: -500 });
    assert_eq!(rock.facing(), 0);
}

#[test]
fn each_class_is_held_to_its_own_speed() {
    assert_eq!((PLAYER_MAX_SPEED, MAX_ROCK_VEL, MAX_SHOT_VEL), (220_000, 50_000, 340_000));
    let player = player_at(0, 0);
    let rock = rock_at(0, 0);
    let shot = shot_at(0, 0);
    assert_eq!((player.max_speed(), rock.max_speed(), shot.max_speed()), (220_000, 50_000, 340_000));

    // A player at 300 pixels a second travels at 220.
    let mut player = player_at(100_000, 100_000);
    player.set_velocity(Vector2 { x: 300_000, y: 0 });
    update_actor_position(&mut player, 1_000_000);
    assert_eq!(player.velocity(), Vector2 { x: 220_000, y: 0 });
    assert_eq!(player.position(), Vector2 { x: 320_000, y: 100_000 });

    // A rock at 58 pixels a second travels at 50: the length of its
    // velocity is divided by as 58310.
    let mut rock = rock_at(0, 0);
    rock.set_velocity(Vector2 { x: 50_000, y: -30_000 });
    update_actor_position(&mut rock, 16_667);
    assert_eq!(rock.velocity(), Vector2 { x: 42_874, y: -25_724 });
    assert_eq!(rock.position(), Vector2 { x: 714, y: -428 });

    // A shot at the speed at which shots leave the gun keeps it.
    let mut shot = shot_at(0, 0);
    shot.set_velocity(Vector2 { x: 340_000, y: 0 });
    update_actor_position(&mut shot, 1_000_000);
    assert_eq!(shot.velocity(), Vector2 { x: 340_000, y: 0 });
    assert_eq!(shot.position(), Vector2 { x: 340_000, y: 0 });
}

#[test]
fn wrap_brings_back_what_left_the_world() {
    let wide = 1_280_000;
    let high = 540_000;
    let cases = [
        ((1_280_001, 10), (1, 10)),
        ((1_280_000, 10), (1_280_000, 10)),
        ((-1, 10), (1_279_999, 10)),
        ((0, 0), (0, 0)),
        ((5, 540_001), (5, 540_000)),
        ((5, 999_999_999), (5, 540_000)),
        ((5, -1), (5, 539_999)),
        ((5, 540_000), (5, 540_000)),
        ((3_000_000, -600_000), (1_720_000, -60_000)),
    ];
    for ((x, y), (wrapped_x, wrapped_y)) in cases {
        let mut rock = rock_at(x, y);
        wrap_actor_position(&mut rock, wide, high);
        assert_eq!(rock.position(), Vector2 { x: wrapped_x, y: wrapped_y });
    }
}

#[test]
fn wrap_twice_is_wrap_once() {
    let wide = 1_280_000;
    let high = 540_000;
    let mut x = -1_280_000;
    while x <= 2_560_000 {
        let mut y = -540_000;
        while y <= 2_000_000 {
            let mut once = rock_at(x, y);
            wrap_actor_position(&mut once, wide, high);
            let mut twice = once;
            wrap_actor_position(&mut twice, wide, high);
            assert_eq!(once, twice);
            let p = once.position();
            assert!(0 <= p.x && p.x <= wide && 0 <= p.y && p.y <= high);
            y += 63_500;
        }
        x += 64_000;
    }
}

#[test]
fn update_wraps_after_it_has_moved() {
    // One pixel from the right edge, moving right at the limit for a tenth
    // of a second: five pixels on, and then back in on the left.
    let mut rock = rock_at(1_279_000, 100_000);
    rock.set_velocity(Vector2 { x: 400_000, y: 0 });
    rock.update(WORLD, 100_000);
    assert_eq!(rock.velocity(), Vector2 { x: 50_000, y: 0 });
    assert_eq!(rock.position(), Vector2 { x: 4_000, y: 100_000 });

    // A shot does the same at its own limit: 34 pixels on.
    let mut shot = shot_at(1_279_000, 100_000);
    shot.set_velocity(Vector2 { x: 400_000, y: 0 });
    shot.update(WORLD, 100_000);
    assert_eq!(shot.velocity(), Vector2 { x: 340_000, y: 0 });
    assert_eq!(shot.position(), Vector2 { x: 33_000, y: 100_000 });

    // Moving left across the left edge.
    let mut rock = rock_at(1_000, 100_000);
    rock.set_velocity(Vector2 { x: -50_000, y: 0 });
    rock.update(WORLD, 100_000);
    assert_eq!(rock.position(), Vector2 { x: 1_276_000, y: 100_000 });

    // Falling through the bottom, and rising to the top.
    let mut rock = rock_at(5_000, 1_000);
    rock.set_velocity(Vector2 { x: 0, y: -50_000 });
    rock.update(WORLD, 100_000);
    assert_eq!(rock.position(), Vector2 { x: 5_000, y: 536_000 });
    let mut rock = rock_at(5_000, 539_000);
    rock.set_velocity(Vector2 { x: 0, y: 50_000 });
    rock.update(WORLD, 100_000);
    assert_eq!(rock.position(), Vector2 { x: 5_000, y: 540_000 });
}

#[test]
fn shot_dies_when_its_time_is_up() {
    let mut shot = shot_at(100_000, 100_000);
    assert_eq!(shot.time_to_live, 2_000_000);
    shot.update(WORLD, 1_000_000);
    assert!(shot.alive());
    assert_eq!(shot.time_to_live, 1_000_000);
    shot.update(WORLD, 1_000_000);
    assert!(shot.alive());
    assert_eq!(shot.time_to_live, 0);
    shot.update(WORLD, 1_000_000);
    assert!(!shot.alive());
    assert_eq!(shot.time_to_live, -1_000_000);
}

#[test]
fn shot_update_moves_and_counts_down() {
    let mut shot = shot_at(100_000, 100_000);
    shot.set_velocity(Vector2 { x: 340_000, y: 0 });
    shot.update(WORLD, 16_667);
    assert_eq!(shot.velocity(), Vector2 { x: 340_000, y: 0 });
    assert_eq!(shot.position(), Vector2 { x: 105_666, y: 100_000 });
    assert_eq!(shot.facing(), 1043);
    assert_eq!(shot.time_to_live, 1_983_333);
    assert!(shot.alive());
}

#[test]
fn count_down_stops_at_the_least_number() {
    assert_eq!(count_down(5, 3), 2);
    assert_eq!(count_down(0, 1), -1);
    assert_eq!(count_down(i64::MIN + 10, 10), i64::MIN);
    assert_eq!(count_down(i64::MIN + 10, 11), i64::MIN);
    assert_eq!(count_down(i64::MIN, u32::MAX), i64::MIN);
    assert_eq!(count_down(i64::MAX, u32::MAX), i64::MAX - 4_294_967_295);
}

#[test]
fn gun_is_ready_only_after_the_shot_time() {
    let mut am = AssetManager::new();
    let mut player = create_player(&mut am, sprite(), 0, 1280, 540);
    // A new player's gun is ready after the first tick.
    assert!(!player.can_fire());
    player.update(WORLD, 1);
    assert!(player.can_fire());

    player.fire_shot(&mut am, sprite());
    assert_eq!(player.shot_timeout, PLAYER_SHOT_TIME);
    assert_eq!(PLAYER_SHOT_TIME, 300_000);
    assert!(!player.can_fire());
    player.update(WORLD, 299_999);
    assert_eq!(player.shot_timeout, 1);
    assert!(!player.can_fire());
    player.update(WORLD, 1);
    assert_eq!(player.shot_timeout, 0);
    assert!(!player.can_fire());
    player.update(WORLD, 1);
    assert_eq!(player.shot_timeout, -1);
    assert!(player.can_fire());
}

#[test]
fn fired_shot_leaves_ahead_of_the_player() {
    let mut am = AssetManager::new();
    let mut player = create_player(&mut am, Sprite { width: 20, height: 32 }, 0, 1280, 540);
    let shot = player.fire_shot(&mut am, Sprite { width: 4, height: 4 });
    assert_eq!(
        shot,
        Shot {
            base: BaseActor {
                asset: Sprite { width: 4, height: 4 },
                pos: Vector2 { x: 640_000, y: 286_000 },
                facing: 0,
                velocity: Vector2 { x: 0, y: 340_000 },
                bbox_size: 6_000,
                rvel: 1043,
                alive: true,
                physics_id: 2,
            },
            time_to_live: 2_000_000,
        }
    );
    assert_eq!(am.last_physics_id(), 2);

    player.set_facing(16384);
    let shot = player.fire_shot(&mut am, Sprite { width: 4, height: 4 });
    assert_eq!(shot.position(), Vector2 { x: 656_000, y: 270_000 });
    assert_eq!(shot.velocity(), Vector2 { x: 340_000, y: 0 });
    assert_eq!(shot.facing(), 16384);
    assert_eq!(shot.physics_id(), 3);

    player.set_facing(8192);
    let shot = player.fire_shot(&mut am, Sprite { width: 4, height: 4 });
    assert_eq!(shot.position(), Vector2 { x: 651_312, y: 281_312 });
    assert_eq!(shot.velocity(), Vector2 { x: 240_380, y: 240_380 });
}

#[test]
fn controls_turn_and_thrust_the_player() {
    let mut player = player_at(100_000, 100_000);
    let right = InputState { xaxis: 1, yaxis: 0, fire: false, quit: false };
    player.handle_input(&right, 1_000_000);
    assert_eq!(player.facing(), 31_291);
    assert_eq!(player.velocity(), Vector2 { x: 0, y: 0 });

    let mut player = player_at(100_000, 100_000);
    let left = InputState { xaxis: -1, yaxis: 0, fire: false, quit: false };
    player.handle_input(&left, 1_000_000);
    assert_eq!(player.facing(), 34_245);

    let mut player = player_at(100_000, 100_000);
    player.handle_input(&right, 16_667);
    assert_eq!(player.facing(), 521);
    player.handle_input(&left, 16_667);
    assert_eq!(player.facing(), 0);

    let mut player = player_at(100_000, 100_000);
    let thrust = InputState { xaxis: 0, yaxis: 1, fire: false, quit: false };
    player.handle_input(&thrust, 1_000_000);
    assert_eq!(player.velocity(), Vector2 { x: 0, y: 540_000 });
    assert_eq!(player.facing(), 0);
    assert_eq!(player.position(), Vector2 { x: 100_000, y: 100_000 });

    let mut player = player_at(100_000, 100_000);
    player.set_facing(16384);
    player.handle_input(&thrust, 16_667);
    assert_eq!(player.velocity(), Vector2 { x: 9_000, y: 0 });

    let mut player = player_at(100_000, 100_000);
    let idle = InputState { xaxis: 0, yaxis: 0, fire: true, quit: true };
    player.handle_input(&idle, 1_000_000);
    assert_eq!(player, player_at(100_000, 100_000));
}

#[test]
fn turn_angle_completes_left_turns() {
    assert_eq!(turn_angle(0, 1), 0);
    assert_eq!(turn_angle(1_000_000, 0), 0);
    assert_eq!(turn_angle(1_000_000, 1), 31_291);
    assert_eq!(turn_angle(1_000_000, -1), 34_245);
    assert_eq!(turn_angle(3_000_000, 1), 28_337);
    assert_eq!(turn_angle(31, 1), 0);
    assert_eq!(turn_angle(31, -1), 0);
    assert_eq!(turn_angle(32, -1), 65_535);
}

#[test]
fn thrust_pushes_along_the_heading() {
    let mut rock = rock_at(0, 0);
    rock.set_facing(32768);
    player_thrust(&mut rock, 500_000);
    assert_eq!(rock.velocity(), Vector2 { x: 0, y: -270_000 });
    assert_eq!(rock.facing(), 32768);
}

#[test]
fn player_update_applies_gravity_and_drag() {
    let mut player = player_at(100_000, 100_000);
    player.update(WORLD, 1_000_000);
    assert_eq!(player.velocity(), Vector2 { x: 0, y: -150_000 });
    assert_eq!(player.position(), Vector2 { x: 100_000, y: 100_000 });
    assert_eq!(player.shot_timeout, -1_000_000);

    // The second tick moves the player with the velocity of the first.
    player.update(WORLD, 1_000_000);
    assert_eq!(player.position(), Vector2 { x: 100_000, y: 490_000 });
    assert_eq!(player.velocity(), Vector2 { x: 0, y: -220_000 });

    let mut player = player_at(100_000, 100_000);
    player.set_facing(16384);
    player.update(WORLD, 16_667);
    assert_eq!(player.velocity(), Vector2 { x: -666, y: -1_833 });
}

#[test]
fn player_update_holds_the_player_to_its_top_speed() {
    let mut player = player_at(100_000, 100_000);
    player.set_velocity(Vector2 { x: 300_000, y: 0 });
    player.update(WORLD, 0);
    assert_eq!(player.velocity(), Vector2 { x: 220_000, y: 0 });
    assert_eq!(PLAYER_MAX_SPEED, 220_000);
}

#[test]
fn overlap_is_closer_than_the_radii_add_up_to() {
    let origin = Vector2 { x: 0, y: 0 };
    assert!(overlaps(origin, 12_000, origin, 6_000));
    assert!(overlaps(origin, 12_000, Vector2 { x: 17_999, y: 0 }, 6_000));
    assert!(!overlaps(origin, 12_000, Vector2 { x: 18_000, y: 0 }, 6_000));
    assert!(!overlaps(origin, 12_000, Vector2 { x: 0, y: -18_000 }, 6_000));
    assert!(overlaps(origin, 3, Vector2 { x: 3, y: 3 }, 2));
    assert!(!overlaps(origin, 3, Vector2 { x: 3, y: 4 }, 2));
    assert!(!overlaps(origin, 0, origin, 0));
    assert!(!overlaps(
        Vector2 { x: i64::MIN, y: i64::MIN },
        u32::MAX,
        Vector2 { x: i64::MAX, y: i64::MAX },
        u32::MAX
    ));
}

#[test]
fn rock_and_shot_at_one_place_collide() {
    let mut rock = rock_at(100_000, 100_000);
    let mut shot = shot_at(100_000, 100_000);
    assert_eq!((rock.bbox_size(), shot.bbox_size()), (12_000, 6_000));
    assert!(check_collision(&mut shot, &mut rock));
    assert!(!rock.alive());
    assert!(!shot.alive());
}

#[test]
fn rock_and_shot_far_apart_do_not_collide() {
    let mut rock = rock_at(100_000, 100_000);
    let mut shot = shot_at(200_000, 200_000);
    let (rock_before, shot_before) = (rock, shot);
    assert!(!check_collision(&mut shot, &mut rock));
    assert_eq!(rock, rock_before);
    assert_eq!(shot, shot_before);
}

#[test]
fn the_dead_do_not_collide() {
    let mut rock = rock_at(100_000, 100_000);
    let mut shot = shot_at(100_000, 100_000);
    shot.kill();
    assert!(!check_collision(&mut shot, &mut rock));
    assert!(rock.alive());
    let mut player = player_at(100_000, 100_000);
    rock.kill();
    assert!(!check_collision(&mut player, &mut rock));
    assert!(player.alive());
}

#[test]
fn a_collision_kills_whoever_handles_it() {
    let mut player = player_at(0, 0);
    let rock = rock_at(500_000, 500_000);
    player.handle_collision(&rock);
    assert!(!player.alive());
    assert!(rock.alive());
}

#[test]
fn collision_data_shows_identifier_and_velocity() {
    let mut rock = rock_at(1, 2);
    rock.set_velocity(Vector2 { x: 3, y: 4 });
    assert_eq!(
        rock.collision_data(),
        CollisionData { id: 1, velocity: Some(Vector2 { x: 3, y: 4 }), hit: None }
    );
}

fn in_ring(point: Vector2, centre: Vector2, inner: i128, outer: i128) -> bool {
    let dx = (point.x - centre.x) as i128;
    let dy = (point.y - centre.y) as i128;
    let d2 = dx * dx + dy * dy;
    inner * inner <= d2 && d2 <= outer * outer
}

#[test]
fn rocks_appear_in_the_ring_round_the_exclusion_point() {
    let mut am = AssetManager::new();
    let centre = Vector2 { x: 640_000, y: 270_000 };
    let rocks = create_rocks(&mut am, sprite(), 200, centre, 100_000, 250_000);
    assert_eq!(rocks.len(), 200);
    assert_eq!(am.last_physics_id(), 200);
    let mut places_differ = false;
    for (i, rock) in rocks.iter().enumerate() {
        assert!(in_ring(rock.position(), centre, 100_000, 250_000));
        let v = rock.velocity();
        assert!(in_ring(v, Vector2 { x: 0, y: 0 }, 0, 50_000));
        assert!(rock.alive());
        assert_eq!(rock.physics_id(), i + 1);
        assert_eq!(rock.bbox_size(), 12_000);
        assert_eq!(rock.facing(), 0);
        if rock.position() != rocks[0].position() {
            places_differ = true;
        }
    }
    assert!(places_differ);
    assert_eq!(MAX_ROCK_VEL, 50_000);
}

#[test]
fn no_rocks_are_made_for_a_count_of_zero_or_less() {
    let mut am = AssetManager::new();
    let centre = Vector2 { x: 0, y: 0 };
    assert!(create_rocks(&mut am, sprite(), 0, centre, 1, 2).is_empty());
    assert!(create_rocks(&mut am, sprite(), -3, centre, 1, 2).is_empty());
    assert_eq!(am.last_physics_id(), 0);
}

#[test]
fn a_rock_is_placed_where_the_draws_say() {
    let mut rock = rock_at(0, 0);
    let centre = Vector2 { x: 640_000, y: 270_000 };
    // The nearest a rock can be asked to be: it lands a little over a
    // thousandth farther out, and never nearer.
    place_rock(&mut rock, centre, 100_000, 250_000, 0, 0, Vector2 { x: 7, y: -7 });
    assert_eq!(rock.position(), Vector2 { x: 640_000, y: 370_105 });
    assert_eq!(rock.velocity(), Vector2 { x: 7, y: -7 });

    let mut rock = rock_at(0, 0);
    place_rock(
        &mut rock,
        centre,
        100_000,
        250_000,
        0x4000_0000,
        0x8000_0000,
        Vector2 { x: 0, y: 0 },
    );
    assert_eq!(rock.position(), Vector2 { x: 815_180, y: 270_000 });

    // The farthest: held to the outer radius.
    let mut rock = rock_at(0, 0);
    place_rock(
        &mut rock,
        centre,
        100_000,
        250_000,
        0xc000_0000,
        0xffff_ffff,
        Vector2 { x: 0, y: 0 },
    );
    assert_eq!(rock.position(), Vector2 { x: 390_000, y: 270_000 });

    let mut rock = rock_at(0, 0);
    place_rock(
        &mut rock,
        centre,
        100_000,
        250_000,
        0x2000_0000,
        0x8000_0000,
        Vector2 { x: 0, y: 0 },
    );
    assert_eq!(rock.position(), Vector2 { x: 763_852, y: 393_852 });
}

#[test]
fn a_rock_is_never_inside_the_exclusion_radius() {
    let centre = Vector2 { x: 0, y: 0 };
    let mut angle: u32 = 0;
    while angle < 65536 {
        for distance_draw in [0u32, 1 << 20, 0x8000_0000, 0xffff_ffff] {
            let mut rock = rock_at(0, 0);
            place_rock(
                &mut rock,
                centre,
                100_000,
                250_000,
                angle << 16,
                distance_draw,
                Vector2 { x: 0, y: 0 },
            );
            assert!(in_ring(rock.position(), centre, 100_000, 250_000));
        }
        angle += 64;
    }
    // A ring too thin to be held to from outside keeps rocks out of the
    // exclusion radius all the same.
    let mut rock = rock_at(0, 0);
    place_rock(&mut rock, centre, 1, 2, 0x2000_0000, 0, Vector2 { x: 0, y: 0 });
    assert_eq!(rock.position(), Vector2 { x: 4, y: 4 });
}
