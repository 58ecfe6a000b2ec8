use icarust::actors::player::Player;
use icarust::actors::rock::{create_rock, Rock};
use icarust::actors::shot::{create_shot, Shot};
use icarust::actors::{Actor, BaseActor, Updatable};
use icarust::assets::{AssetManager, Sprite};
use icarust::game::{living_rocks, living_shots, MainState, TickReport};
use icarust::input::InputState;
use icarust::util::Vector2;

const TICK: u32 = 16_667;

fn sprite() -> Sprite {
    Sprite { width: 32, height: 32 }
}

fn new_game() -> MainState {
    MainState::new(sprite(), sprite(), sprite(), 3, 4, 1280, 540)
}

/// A game without rocks or shots, the player parked in a corner.
fn empty_game() -> MainState {
    let mut game = new_game();
    game.rocks.clear();
    game.gui_dirty = false;
    game.player.set_position(Vector2 { x: 1_000_000, y: 30_000 });
    game
}

fn rock_at(game: &mut MainState, x: i64, y: i64) -> Rock {
    let mut rock = create_rock(&mut game.asset_manager, sprite());
    rock.set_position(Vector2 { x, y });
    rock
}

fn shot_at(game: &mut MainState, x: i64, y: i64) -> Shot {
    let mut shot = create_shot(&mut game.asset_manager, sprite());
    shot.set_position(Vector2 { x, y });
    shot
}

fn distance_sq(a: Vector2, b: Vector2) -> i128 {
    let dx = (a.x - b.x) as i128;
    let dy = (a.y - b.y) as i128;
    dx * dx + dy * dy
}

#[test]
fn a_new_game_has_a_player_and_five_rocks() {
    let game = new_game();
    assert_eq!(
        game.player,
        Player {
            base: BaseActor {
                asset: sprite(),
                pos: Vector2 { x: 640_000, y: 270_000 },
                facing: 0,
                velocity: Vector2 { x: 0, y: 0 },
                bbox_size: 12_000,
                rvel: 0,
                alive: true,
                physics_id: 1,
            },
            shot_timeout: 0,
            shot_sound_id: 3,
        }
    );
    assert_eq!(game.rocks.len(), 5);
    assert!(game.shots.is_empty());
    assert_eq!((game.level, game.score), (0, 0));
    assert_eq!(game.hit_sound_id, 4);
    assert_eq!((game.screen_width, game.screen_height), (1280, 540));
    assert_eq!(game.input, InputState::default());
    assert!(game.gui_dirty);
    assert_eq!(game.asset_manager.last_physics_id(), 6);
    for (i, rock) in game.rocks.iter().enumerate() {
        let d2 = distance_sq(rock.position(), game.player.position());
        assert!(100_000 * 100_000 <= d2 && d2 <= 250_000 * 250_000);
        assert!(rock.alive());
        assert_eq!(rock.physics_id(), i + 2);
    }
}

#[test]
fn shot_on_a_rock_kills_both_and_scores_once() {
    let mut game = empty_game();
    let rock = rock_at(&mut game, 100_000, 100_000);
    let shot = shot_at(&mut game, 100_000, 100_000);
    game.rocks.push(rock);
    game.shots.push(shot);
    let hits = game.handle_collisions();
    assert_eq!(hits, 1);
    assert_eq!(game.score, 1);
    assert!(game.gui_dirty);
    assert!(!game.rocks[0].alive());
    assert!(!game.shots[0].alive());
    assert!(game.player.alive());
}

#[test]
fn shot_away_from_a_rock_changes_nothing() {
    let mut game = empty_game();
    let rock = rock_at(&mut game, 100_000, 100_000);
    let shot = shot_at(&mut game, 200_000, 200_000);
    game.rocks.push(rock);
    game.shots.push(shot);
    let hits = game.handle_collisions();
    assert_eq!(hits, 0);
    assert_eq!(game.score, 0);
    assert!(!game.gui_dirty);
    assert_eq!(game.rocks[0], rock);
    assert_eq!(game.shots[0], shot);
    assert!(game.player.alive());
}

#[test]
fn a_rock_is_hit_by_the_first_shot_only() {
    let mut game = empty_game();
    let rock = rock_at(&mut game, 100_000, 100_000);
    let far = shot_at(&mut game, 500_000, 500_000);
    let first = shot_at(&mut game, 101_000, 100_000);
    let second = shot_at(&mut game, 100_000, 101_000);
    game.rocks.push(rock);
    game.shots.push(far);
    game.shots.push(first);
    game.shots.push(second);
    assert_eq!(game.handle_collisions(), 1);
    assert_eq!(game.score, 1);
    assert!(!game.rocks[0].alive());
    assert!(game.shots[0].alive());
    assert!(!game.shots[1].alive());
    assert!(game.shots[2].alive());
}

#[test]
fn a_shot_hits_one_rock_only() {
    let mut game = empty_game();
    let first = rock_at(&mut game, 100_000, 100_000);
    let second = rock_at(&mut game, 101_000, 100_000);
    let shot = shot_at(&mut game, 100_500, 100_000);
    game.rocks.push(first);
    game.rocks.push(second);
    game.shots.push(shot);
    assert_eq!(game.handle_collisions(), 1);
    assert_eq!(game.score, 1);
    assert!(!game.rocks[0].alive());
    assert!(game.rocks[1].alive());
    assert!(!game.shots[0].alive());
}

#[test]
fn a_dead_shot_hits_nothing() {
    let mut game = empty_game();
    let rock = rock_at(&mut game, 100_000, 100_000);
    let mut shot = shot_at(&mut game, 100_000, 100_000);
    shot.kill();
    game.rocks.push(rock);
    game.shots.push(shot);
    assert_eq!(game.handle_collisions(), 0);
    assert_eq!(game.score, 0);
    assert!(game.rocks[0].alive());
}

#[test]
fn player_and_rock_kill_each_other_without_score() {
    let mut game = empty_game();
    let rock = rock_at(&mut game, 1_010_000, 30_000);
    let shot = shot_at(&mut game, 1_010_000, 30_000);
    game.rocks.push(rock);
    game.shots.push(shot);
    assert_eq!(game.handle_collisions(), 0);
    assert_eq!(game.score, 0);
    assert!(!game.player.alive());
    assert!(!game.rocks[0].alive());
    // The rock was dead before the shot came to it.
    assert!(game.shots[0].alive());
}

#[test]
fn a_dead_player_kills_no_rock() {
    let mut game = empty_game();
    game.player.kill();
    let rock = rock_at(&mut game, 1_000_000, 30_000);
    game.rocks.push(rock);
    assert_eq!(game.handle_collisions(), 0);
    assert!(game.rocks[0].alive());
}

#[test]
fn two_shots_on_two_rocks_score_twice() {
    let mut game = empty_game();
    game.score = 10;
    let first = rock_at(&mut game, 100_000, 100_000);
    let second = rock_at(&mut game, 300_000, 300_000);
    let on_second = shot_at(&mut game, 300_000, 300_000);
    let on_first = shot_at(&mut game, 100_000, 100_000);
    game.rocks.push(first);
    game.rocks.push(second);
    game.shots.push(on_second);
    game.shots.push(on_first);
    assert_eq!(game.handle_collisions(), 2);
    assert_eq!(game.score, 12);
    assert!(game.rocks.iter().all(|rock| !rock.alive()));
    assert!(game.shots.iter().all(|shot| !shot.alive()));
}

#[test]
fn the_dead_are_cleared_and_the_living_keep_their_order() {
    let mut game = empty_game();
    for i in 0..6 {
        let mut rock = rock_at(&mut game, i, 0);
        let mut shot = shot_at(&mut game, 0, i);
        if i % 2 == 0 {
            rock.kill();
        }
        if i % 3 == 0 {
            shot.kill();
        }
        game.rocks.push(rock);
        game.shots.push(shot);
    }
    game.clear_dead_stuff();
    let rocks: Vec<i64> = game.rocks.iter().map(|rock| rock.x()).collect();
    let shots: Vec<i64> = game.shots.iter().map(|shot| shot.y()).collect();
    assert_eq!(rocks, vec![1, 3, 5]);
    assert_eq!(shots, vec![1, 2, 4, 5]);
    assert!(game.player.alive());
    assert_eq!(game.score, 0);
}

#[test]
fn living_keeps_nothing_of_the_dead() {
    let mut am = AssetManager::new();
    let mut rock = create_rock(&mut am, sprite());
    let mut shot = create_shot(&mut am, sprite());
    assert_eq!(living_rocks(&vec![rock, rock]).len(), 2);
    assert_eq!(living_shots(&vec![shot]).len(), 1);
    rock.kill();
    shot.kill();
    assert!(living_rocks(&vec![rock, rock]).is_empty());
    assert!(living_shots(&vec![shot]).is_empty());
    assert!(living_rocks(&Vec::new()).is_empty());
}

#[test]
fn next_level_begins_when_no_rock_is_left() {
    let mut game = empty_game();
    let issued = game.asset_manager.last_physics_id();
    game.check_for_level_respawn();
    assert_eq!(game.level, 1);
    assert_eq!(game.rocks.len(), 6);
    assert!(game.gui_dirty);
    assert_eq!(game.asset_manager.last_physics_id(), issued + 6);
    for rock in game.rocks.iter() {
        let d2 = distance_sq(rock.position(), game.player.position());
        assert!(100_000 * 100_000 <= d2 && d2 <= 250_000 * 250_000);
        assert!(rock.alive());
    }

    game.rocks.clear();
    game.level = 7;
    game.check_for_level_respawn();
    assert_eq!(game.level, 8);
    assert_eq!(game.rocks.len(), 13);
}

#[test]
fn level_stays_while_a_rock_is_left() {
    let mut game = empty_game();
    let rock = rock_at(&mut game, 100_000, 100_000);
    game.rocks.push(rock);
    let issued = game.asset_manager.last_physics_id();
    game.check_for_level_respawn();
    assert_eq!(game.level, 0);
    assert_eq!(game.rocks.len(), 1);
    assert_eq!(game.rocks[0], rock);
    assert!(!game.gui_dirty);
    assert_eq!(game.asset_manager.last_physics_id(), issued);
}

#[test]
fn a_tick_can_be_taken_while_there_is_room() {
    let mut game = new_game();
    assert!(game.can_update());
    game.level = i32::MAX - 6;
    assert!(game.can_update());
    game.level = i32::MAX - 5;
    assert!(!game.can_update());
    game.level = 0;
    game.score = i32::MAX - 5;
    assert!(game.can_update());
    game.score = i32::MAX - 4;
    assert!(!game.can_update());
}

#[test]
fn a_step_fits_while_nothing_outruns_the_world() {
    let mut game = new_game();
    assert!(game.step_fits(TICK));
    assert!(game.step_fits(1_588_235));
    assert!(!game.step_fits(1_588_236));
    game.screen_height = 0;
    assert!(!game.step_fits(TICK));
    assert!(game.step_fits(0));
}

#[test]
fn a_long_tick_is_taken_all_the_same() {
    let mut game = empty_game();
    let mut rock = rock_at(&mut game, 100_000, 100_000);
    rock.set_velocity(Vector2 { x: 300_000, y: 0 });
    game.rocks.push(rock);
    assert!(!game.step_fits(10_000_000));
    assert!(game.can_update());
    game.update(10_000_000);
    // Ten seconds at the 50 pixels a second to which rocks are held.
    assert_eq!(game.rocks[0].velocity(), Vector2 { x: 50_000, y: 0 });
    assert_eq!(game.rocks[0].position(), Vector2 { x: 600_000, y: 100_000 });
}

#[test]
fn first_tick_reports_the_display_and_moves_the_rocks() {
    let mut game = new_game();
    let before: Vec<Rock> = game.rocks.clone();
    let report = game.update(TICK);
    assert_eq!(report, TickReport { fired: false, hits: 0, gui_dirty: true, quit: false });
    assert!(!game.gui_dirty);
    assert_eq!(game.rocks.len(), 5);
    assert_eq!((game.level, game.score), (0, 0));
    for (rock, was) in game.rocks.iter().zip(before.iter()) {
        let mut expected = *was;
        expected.update((1280, 540), TICK);
        assert_eq!(*rock, expected);
    }
    // Gravity and drag have taken hold of the player.
    assert_eq!(game.player.velocity(), Vector2 { x: 0, y: -2_500 });
    assert_eq!(game.player.position(), Vector2 { x: 640_000, y: 270_000 });
    assert_eq!(game.player.shot_timeout, -16_667);
    let report = game.update(TICK);
    assert_eq!(report, TickReport { fired: false, hits: 0, gui_dirty: false, quit: false });
    assert_eq!(game.player.position(), Vector2 { x: 640_000, y: 269_959 });
}

#[test]
fn a_tick_fires_when_asked_and_able() {
    let mut game = empty_game();
    let rock = rock_at(&mut game, 100_000, 500_000);
    game.rocks.push(rock);
    game.input.fire = true;
    // The gun of a new player is not ready yet.
    let report = game.update(TICK);
    assert!(!report.fired);
    assert!(game.shots.is_empty());
    let report = game.update(TICK);
    assert!(report.fired);
    assert_eq!(game.shots.len(), 1);
    assert_eq!(game.player.shot_timeout, 300_000 - 16_667);
    assert_eq!(game.shots[0].time_to_live, 2_000_000 - 16_667);
    assert_eq!(game.shots[0].velocity(), Vector2 { x: 0, y: 340_000 });
    // Held down, the gun fires again once the shot time is over.
    let mut ticks = 0;
    loop {
        let report = game.update(TICK);
        ticks += 1;
        if report.fired {
            break;
        }
    }
    assert_eq!(ticks, 18);
    assert_eq!(game.shots.len(), 2);
}

#[test]
fn a_tick_reports_quit_and_still_plays() {
    let mut game = new_game();
    game.input.quit = true;
    let report = game.update(TICK);
    assert!(report.quit);
    assert_eq!(game.player.shot_timeout, -16_667);
}

#[test]
fn a_tick_hits_clears_and_begins_the_next_level() {
    let mut game = empty_game();
    let mut rock = rock_at(&mut game, 100_000, 100_000);
    rock.set_velocity(Vector2 { x: 50_000, y: 0 });
    let mut shot = shot_at(&mut game, 100_000, 100_000);
    shot.set_velocity(Vector2 { x: 0, y: 320_000 });
    let mut far = shot_at(&mut game, 700_000, 100_000);
    far.time_to_live = 10_000;
    game.rocks.push(rock);
    game.shots.push(far);
    game.shots.push(shot);
    let issued = game.asset_manager.last_physics_id();
    let report = game.update(TICK);
    // The rock was shot, the far shot ran out of time, and with no rock
    // left the next level began.
    assert_eq!(report, TickReport { fired: false, hits: 1, gui_dirty: true, quit: false });
    assert_eq!(game.score, 1);
    assert_eq!(game.level, 1);
    assert!(game.shots.is_empty());
    assert_eq!(game.rocks.len(), 6);
    assert_eq!(game.asset_manager.last_physics_id(), issued + 6);
    assert!(game.rocks.iter().all(|rock| rock.alive()));
    assert!(game.player.alive());
    for rock in game.rocks.iter() {
        let d2 = distance_sq(rock.position(), game.player.position());
        assert!(100_000 * 100_000 <= d2 && d2 <= 250_000 * 250_000);
    }
}

#[test]
fn a_shot_still_hits_in_the_tick_in_which_its_time_runs_out() {
    let mut game = empty_game();
    let rock = rock_at(&mut game, 100_000, 100_000);
    let other = rock_at(&mut game, 600_000, 400_000);
    let mut shot = shot_at(&mut game, 100_000, 100_000);
    shot.time_to_live = 10_000;
    game.rocks.push(rock);
    game.rocks.push(other);
    game.shots.push(shot);
    let report = game.update(TICK);
    // The kill counts, and counts once.
    assert_eq!(report.hits, 1);
    assert_eq!(game.score, 1);
    assert!(game.shots.is_empty());
    assert_eq!(game.rocks.len(), 1);
    assert_eq!(game.rocks[0].physics_id(), other.physics_id());
    assert_eq!(game.level, 0);
}

#[test]
fn a_shot_out_of_time_is_gone_after_its_last_tick() {
    let mut game = empty_game();
    let rock = rock_at(&mut game, 100_000, 100_000);
    let mut shot = shot_at(&mut game, 500_000, 400_000);
    shot.time_to_live = 16_667;
    game.rocks.push(rock);
    game.shots.push(shot);
    game.update(TICK);
    // No time is left, but none is owed either.
    assert_eq!(game.shots.len(), 1);
    assert_eq!(game.shots[0].time_to_live, 0);
    game.update(TICK);
    assert!(game.shots.is_empty());
    assert_eq!(game.score, 0);
    assert_eq!(game.rocks.len(), 1);
}

#[test]
fn shots_fly_and_expire_in_two_steps() {
    let mut game = empty_game();
    let mut shot = shot_at(&mut game, 100_000, 100_000);
    shot.set_velocity(Vector2 { x: 320_000, y: 0 });
    shot.time_to_live = 10_000;
    let mut whole = shot;
    whole.update((1280, 540), TICK);
    shot.fly((1280, 540), TICK);
    assert!(shot.alive());
    assert_eq!(shot.time_to_live, -6_667);
    assert_eq!(shot.position(), Vector2 { x: 105_333, y: 100_000 });
    shot.expire();
    assert!(!shot.alive());
    assert_eq!(shot, whole);

    let spent = shot_at(&mut game, 0, 0);
    game.shots.push(spent);
    game.shots.push(shot);
    game.shots[0].time_to_live = -1;
    game.shots[1].base.alive = true;
    game.expire_shots();
    assert!(!game.shots[0].alive());
    assert!(!game.shots[1].alive());
    let fresh = shot_at(&mut game, 0, 0);
    game.shots.push(fresh);
    game.expire_shots();
    assert!(game.shots[2].alive());
}

#[test]
fn actors_stay_in_the_world_tick_after_tick() {
    let mut game = new_game();
    game.input = InputState { xaxis: 1, yaxis: 1, fire: true, quit: false };
    for _ in 0..2000 {
        assert!(game.can_update() && game.step_fits(TICK));
        game.update(TICK);
        let mut places = vec![game.player.position()];
        places.extend(game.rocks.iter().map(|rock| rock.position()));
        places.extend(game.shots.iter().map(|shot| shot.position()));
        for p in places {
            // Rocks of a new level may lie outside until their first tick.
            assert!(-260_000 <= p.x && p.x <= 1_280_000 + 260_000);
            assert!(-260_000 <= p.y && p.y <= 540_000 + 260_000);
        }
        let v = game.player.velocity();
        assert!(v.x * v.x + v.y * v.y <= 220_000 * 220_000);
        for rock in game.rocks.iter() {
            let v = rock.velocity();
            assert!(v.x * v.x + v.y * v.y <= 50_000 * 50_000);
        }
        for shot in game.shots.iter() {
            let v = shot.velocity();
            assert!(v.x * v.x + v.y * v.y <= 340_000 * 340_000);
        }
        assert!(game.rocks.iter().all(|rock| rock.alive()));
        assert!(game.shots.iter().all(|shot| shot.alive()));
        assert!(!game.rocks.is_empty());
    }
}

#[test]
fn a_game_is_well_formed_while_its_actors_are_in_reach() {
    let mut game = new_game();
    assert!(game.is_wf());
    let rock = rock_at(&mut game, 0x2000_0000_0000_0000, 0);
    game.rocks.push(rock);
    assert!(game.is_wf());
    assert!(game.can_update());
    game.rocks[5].set_x(0x2000_0000_0000_0001);
    assert!(!game.is_wf());
    assert!(!game.can_update());
    game.rocks.pop();
    let shot = shot_at(&mut game, 0, -0x2000_0000_0000_0001);
    game.shots.push(shot);
    assert!(!game.is_wf());
    game.shots.clear();
    game.player.set_x(0x1000_0000_0000_0000);
    assert!(game.is_wf());
    game.player.set_x(0x1000_0000_0000_0001);
    assert!(!game.is_wf());
    game.player.set_x(0);
    game.player.set_velocity_xy(0, i64::MIN);
    assert!(!game.is_wf());
}
