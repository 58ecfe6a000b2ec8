//! The state of a game and the tick that advances it.
//!
//! A tick takes the controls as they stand and runs, in this order: the
//! player's answer to the controls, the gun, the movement of player, shots
//! and rocks, the collisions, the death of the shots whose time is up, the
//! removal of the dead, and the next level if no rock is left. Sounds and
//! pictures are the front end's: a tick reports what happened, and the front
//! end plays and draws.

use crate::actors::player::{
    create_player, lemma_heading_stretch, lemma_speed_bounds_components, pull, Player,
    PLAYER_BBOX, PLAYER_MAX_SPEED, PLAYER_SHOT_TIME,
};
use crate::actors::rock::{create_rocks, in_ring, is_spawn, padded, Rock, MAX_ROCK_VEL};
use crate::actors::shot::{Shot, MAX_SHOT_VEL};
use crate::actors::{
    check_collision, collides, lemma_step_near, lemma_step_order, lemma_step_stays, Actor,
    BaseActor, Inputable, Updatable,
};
use crate::assets::{AssetManager, SoundId, Sprite};
use crate::fixed::{magnitude, REACH};
use crate::input::InputState;
use crate::physics::PhysicsId;
use crate::util::{lemma_limited_within, slack, Point2, Vector2};
use vstd::prelude::*;

verus! {

/// The least distance from the player at which a rock appears.
pub const SPAWN_MIN_RADIUS: u32 = 100_000;

/// The distance from the player below which a rock appears.
pub const SPAWN_MAX_RADIUS: u32 = 250_000;

/// How many rocks a level has beyond its number.
pub const ROCKS_BEYOND_LEVEL: i32 = 5;

/// Largest magnitude of the player's coordinates. Shots and rocks appear
/// near the player and may lie as far out again.
pub const FIELD: i64 = 0x1000_0000_0000_0000;

/// Everything a game consists of.
pub struct MainState {
    pub asset_manager: AssetManager,
    pub player: Player,
    pub shots: Vec<Shot>,
    pub rocks: Vec<Rock>,
    pub level: i32,
    pub score: i32,
    pub hit_sound_id: SoundId,
    pub screen_width: u32,
    pub screen_height: u32,
    pub input: InputState,
    /// The score or the level has changed since the front end last heard
    /// of them.
    pub gui_dirty: bool,
    pub rock_sprite: Sprite,
    pub shot_sprite: Sprite,
}

/// What a tick tells the front end.
#[derive(Clone, Copy, Debug, PartialEq, Eq, Structural)]
pub struct TickReport {
    /// The player has fired: the sound of the gun is due.
    pub fired: bool,
    /// How many rocks were shot: the sound of a hit is due for each.
    pub hits: u32,
    /// The score or the level has changed: their display is due.
    pub gui_dirty: bool,
    /// The player asks to leave.
    pub quit: bool,
}

/// A game as contracts see it: the state with its lists as sequences and
/// the last identifier handed out in place of the asset manager.
pub struct GameModel {
    pub issued: usize,
    pub player: Player,
    pub shots: Seq<Shot>,
    pub rocks: Seq<Rock>,
    pub level: i32,
    pub score: i32,
    pub hit_sound_id: SoundId,
    pub screen_width: u32,
    pub screen_height: u32,
    pub input: InputState,
    pub gui_dirty: bool,
    pub rock_sprite: Sprite,
    pub shot_sprite: Sprite,
}

impl View for MainState {
    type V = GameModel;

    open spec fn view(&self) -> GameModel {
        GameModel {
            issued: self.asset_manager.issued(),
            player: self.player,
            shots: self.shots@,
            rocks: self.rocks@,
            level: self.level,
            score: self.score,
            hit_sound_id: self.hit_sound_id,
            screen_width: self.screen_width,
            screen_height: self.screen_height,
            input: self.input,
            gui_dirty: self.gui_dirty,
            rock_sprite: self.rock_sprite,
            shot_sprite: self.shot_sprite,
        }
    }
}

/// The rock, dead.
pub open spec fn dead_rock(rock: Rock) -> Rock {
    Rock { base: BaseActor { alive: false, ..rock.base } }
}

/// The shot, dead.
pub open spec fn dead_shot(shot: Shot) -> Shot {
    Shot { base: BaseActor { alive: false, ..shot.base }, ..shot }
}

/// The player, dead.
pub open spec fn dead_player(player: Player) -> Player {
    Player { base: BaseActor { alive: false, ..player.base }, ..player }
}

/// The test by which shots are kept: being alive.
pub open spec fn shot_lives() -> spec_fn(Shot) -> bool {
    |shot: Shot| shot.base.alive
}

/// The test by which rocks are kept: being alive.
pub open spec fn rock_lives() -> spec_fn(Rock) -> bool {
    |rock: Rock| rock.base.alive
}

/// Filtering a sequence with one more element at its end filters the
/// sequence and then decides on the element.
pub proof fn lemma_filter_push<T>(items: Seq<T>, item: T, keep: spec_fn(T) -> bool)
    ensures
        items.push(item).filter(keep) == if keep(item) {
            items.filter(keep).push(item)
        } else {
            items.filter(keep)
        },
{
    reveal(Seq::filter);
    assert(items.push(item).drop_last() =~= items);
}

/// The living among `shots`, in their order.
pub fn living_shots(shots: &Vec<Shot>) -> (kept: Vec<Shot>)
    ensures
        kept@ == shots@.filter(shot_lives()),
{
    let mut kept: Vec<Shot> = Vec::new();
    let mut i: usize = 0;
    assert(shots@.take(0) =~= Seq::<Shot>::empty());
    while i < shots.len()
        invariant
            i <= shots.len(),
            kept@ == shots@.take(i as int).filter(shot_lives()),
        decreases shots.len() - i,
    {
        proof {
            lemma_filter_push(shots@.take(i as int), shots@[i as int], shot_lives());
            assert(shots@.take(i as int).push(shots@[i as int]) =~= shots@.take(i + 1));
        }
        if shots[i].alive() {
            kept.push(shots[i]);
        }
        i += 1;
    }
    assert(shots@.take(shots.len() as int) =~= shots@);
    kept
}

/// The living among `rocks`, in their order.
pub fn living_rocks(rocks: &Vec<Rock>) -> (kept: Vec<Rock>)
    ensures
        kept@ == rocks@.filter(rock_lives()),
{
    let mut kept: Vec<Rock> = Vec::new();
    let mut i: usize = 0;
    assert(rocks@.take(0) =~= Seq::<Rock>::empty());
    while i < rocks.len()
        invariant
            i <= rocks.len(),
            kept@ == rocks@.take(i as int).filter(rock_lives()),
        decreases rocks.len() - i,
    {
        proof {
            lemma_filter_push(rocks@.take(i as int), rocks@[i as int], rock_lives());
            assert(rocks@.take(i as int).push(rocks@[i as int]) =~= rocks@.take(i + 1));
        }
        if rocks[i].alive() {
            kept.push(rocks[i]);
        }
        i += 1;
    }
    assert(rocks@.take(rocks.len() as int) =~= rocks@);
    kept
}

/// The place of the first shot, from `from` on, that collides with `rock`;
/// the number of shots if there is none.
pub open spec fn first_hit(shots: Seq<Shot>, rock: BaseActor, from: int) -> int
    decreases shots.len() - from,
{
    if from < 0 || from >= shots.len() {
        shots.len() as int
    } else if collides(shots[from].base, rock) {
        from
    } else {
        first_hit(shots, rock, from + 1)
    }
}

/// `first_hit` finds a shot that collides, and none before it does.
pub proof fn lemma_first_hit(shots: Seq<Shot>, rock: BaseActor, from: int)
    requires
        0 <= from <= shots.len(),
    ensures
        from <= first_hit(shots, rock, from) <= shots.len(),
        first_hit(shots, rock, from) < shots.len() ==> collides(
            shots[first_hit(shots, rock, from)].base,
            rock,
        ),
        forall|k: int|
            from <= k < first_hit(shots, rock, from) ==> !collides((#[trigger] shots[k]).base, rock),
    decreases shots.len() - from,
{
    if from < shots.len() && !collides(shots[from].base, rock) {
        lemma_first_hit(shots, rock, from + 1);
    }
}

impl GameModel {
    /// The world in which the actors move: the screen.
    pub open spec fn world(self) -> (u32, u32) {
        (self.screen_width, self.screen_height)
    }

    /// The actors are where a tick can move them from: the player within
    /// `FIELD`, shots and rocks within `REACH`, and the player no faster
    /// than thrust can be added to.
    pub open spec fn wf(self) -> bool {
        &&& self.player.base.pos.within(FIELD as int)
        &&& self.player.base.velocity.in_reach()
        &&& forall|i: int| 0 <= i < self.shots.len() ==> (#[trigger] self.shots[i]).base.pos.in_reach()
        &&& forall|i: int| 0 <= i < self.rocks.len() ==> (#[trigger] self.rocks[i]).base.pos.in_reach()
    }

    /// The counters have room for one more tick: the level and the score
    /// can grow, and there are identifiers left for a shot and for the
    /// rocks of the next level.
    pub open spec fn has_room(self) -> bool {
        &&& self.level + 1 + ROCKS_BEYOND_LEVEL <= i32::MAX
        &&& self.score + self.rocks.len() <= i32::MAX
        &&& self.issued + 2 + ROCKS_BEYOND_LEVEL + (if self.level > 0 {
            self.level as int
        } else {
            0
        }) <= usize::MAX
    }

    /// The next level can be made: the level can grow, there are
    /// identifiers left for its rocks, and the player is in reach.
    pub open spec fn can_respawn(self) -> bool {
        &&& self.level + 1 + ROCKS_BEYOND_LEVEL <= i32::MAX
        &&& self.issued + 1 + ROCKS_BEYOND_LEVEL + (if self.level > 0 {
            self.level as int
        } else {
            0
        }) <= usize::MAX
        &&& self.player.base.pos.in_reach()
    }

    /// Nothing is faster than its class may be: the player no faster than
    /// `PLAYER_MAX_SPEED`, a shot no faster than `MAX_SHOT_VEL`, a rock no
    /// faster than `MAX_ROCK_VEL`.
    pub open spec fn speeds_held(self) -> bool {
        &&& self.player.base.velocity.norm_sq() <= PLAYER_MAX_SPEED * PLAYER_MAX_SPEED
        &&& forall|i: int|
            0 <= i < self.shots.len() ==> (#[trigger] self.shots[i]).base.velocity.norm_sq()
                <= MAX_SHOT_VEL * MAX_SHOT_VEL
        &&& forall|i: int|
            0 <= i < self.rocks.len() ==> (#[trigger] self.rocks[i]).base.velocity.norm_sq()
                <= MAX_ROCK_VEL * MAX_ROCK_VEL
    }

    /// No dead shot or rock is left in the lists.
    pub open spec fn all_alive(self) -> bool {
        &&& forall|i: int| 0 <= i < self.shots.len() ==> (#[trigger] self.shots[i]).base.alive
        &&& forall|i: int| 0 <= i < self.rocks.len() ==> (#[trigger] self.rocks[i]).base.alive
    }

    /// In `dt` microseconds nothing travels farther than the world is wide
    /// or tall, not even a shot, which is the fastest there is; so that one
    /// wrap brings back whatever has left.
    pub open spec fn step_fits(self, dt: u32) -> bool {
        &&& MAX_SHOT_VEL * dt <= self.screen_width * 1000 * 1_000_000
        &&& MAX_SHOT_VEL * dt <= self.screen_height * 1000 * 1_000_000
    }

    /// The game after the player has answered the controls.
    pub open spec fn steered(self, dt: u32) -> GameModel {
        GameModel { player: self.player.steered(self.input, dt), ..self }
    }

    /// The player fires in this tick: fire is asked for and the gun is
    /// ready.
    pub open spec fn fires(self) -> bool {
        self.input.fire && self.player.shot_timeout < 0
    }

    /// The game after the gun has had its turn: if the player fires, there
    /// is one more shot, last in the list, and the gun has to recover.
    pub open spec fn fired(self) -> GameModel {
        if self.fires() {
            GameModel {
                issued: (self.issued + 1) as usize,
                player: Player { shot_timeout: PLAYER_SHOT_TIME, ..self.player },
                shots: self.shots.push(
                    self.player.shot_fired(self.shot_sprite, (self.issued + 1) as usize),
                ),
                ..self
            }
        } else {
            self
        }
    }

    /// The game after player, shots and rocks have each moved. The player
    /// has been updated, the rocks have taken their step, and the shots
    /// have flown: a shot whose time has run out is not dead yet, and takes
    /// part in the collisions of this tick.
    pub open spec fn advanced(self, dt: u32) -> GameModel {
        GameModel {
            player: self.player.updated(self.world(), dt),
            shots: Seq::new(self.shots.len(), |i: int| self.shots[i].flown(self.world(), dt)),
            rocks: Seq::new(
                self.rocks.len(),
                |i: int| Rock { base: self.rocks[i].base.stepped(MAX_ROCK_VEL, self.world(), dt) },
            ),
            ..self
        }
    }

    /// The game after the rock at `i` has met the player and the shots.
    /// If rock and player collide, both die. If the rock is then still
    /// alive, the first shot that collides with it dies with it, and that
    /// is a hit: the score grows by one.
    pub open spec fn met(self, i: int) -> GameModel {
        let rammed = collides(self.player.base, self.rocks[i].base);
        let player = if rammed {
            dead_player(self.player)
        } else {
            self.player
        };
        let rock = if rammed {
            dead_rock(self.rocks[i])
        } else {
            self.rocks[i]
        };
        let j = first_hit(self.shots, rock.base, 0);
        if j < self.shots.len() {
            GameModel {
                player,
                shots: self.shots.update(j, dead_shot(self.shots[j])),
                rocks: self.rocks.update(i, dead_rock(rock)),
                score: (self.score + 1) as i32,
                gui_dirty: true,
                ..self
            }
        } else {
            GameModel { player, rocks: self.rocks.update(i, rock), ..self }
        }
    }

    /// The game after the first `n` rocks have met the player and the
    /// shots, one rock after the other.
    pub open spec fn met_upto(self, n: int) -> GameModel
        decreases n,
    {
        if n <= 0 {
            self
        } else {
            self.met_upto(n - 1).met(n - 1)
        }
    }

    /// The game after all collisions of a tick.
    pub open spec fn collided(self) -> GameModel {
        self.met_upto(self.rocks.len() as int)
    }

    /// The game after the time of every shot was looked at: the shots whose
    /// time is up are dead.
    pub open spec fn expired(self) -> GameModel {
        GameModel {
            shots: Seq::new(self.shots.len(), |i: int| self.shots[i].expired()),
            ..self
        }
    }

    /// The game without its dead shots and rocks. The living keep their
    /// order.
    pub open spec fn cleared(self) -> GameModel {
        GameModel {
            shots: self.shots.filter(shot_lives()),
            rocks: self.rocks.filter(rock_lives()),
            ..self
        }
    }

    /// `next` is this game after the level was looked after. Where a rock
    /// is left, nothing has changed. Where none is, the level is one higher
    /// and has five rocks more than its number, each of them a rock that
    /// `create_rocks` makes round the player between the two radii.
    pub open spec fn respawned(self, next: GameModel) -> bool {
        if self.rocks.len() > 0 {
            next == self
        } else {
            &&& next == GameModel { issued: next.issued, rocks: next.rocks, level: next.level, gui_dirty: true, ..self }
            &&& next.level == self.level + 1
            &&& next.rocks.len() == (if next.level + ROCKS_BEYOND_LEVEL > 0 {
                next.level + ROCKS_BEYOND_LEVEL
            } else {
                0
            })
            &&& next.issued == self.issued + next.rocks.len()
            &&& forall|i: int|
                0 <= i < next.rocks.len() ==> is_spawn(
                    #[trigger] next.rocks[i],
                    self.rock_sprite,
                    (self.issued + 1 + i) as usize,
                    self.player.base.pos,
                    SPAWN_MIN_RADIUS,
                    SPAWN_MAX_RADIUS,
                )
            &&& forall|i: int|
                0 <= i < next.rocks.len() ==> in_ring(
                    (#[trigger] next.rocks[i]).base.pos,
                    self.player.base.pos,
                    SPAWN_MIN_RADIUS,
                    SPAWN_MAX_RADIUS,
                )
            &&& forall|i: int|
                0 <= i < next.rocks.len() ==> (#[trigger] next.rocks[i]).base.velocity.norm_sq()
                    <= MAX_ROCK_VEL * MAX_ROCK_VEL
        }
    }

    /// The game as it stands when a tick of `dt` microseconds has done
    /// everything but look after the level.
    pub open spec fn played(self, dt: u32) -> GameModel {
        self.steered(dt).fired().advanced(dt).collided().expired().cleared()
    }
}

/// What holds of every element of a sequence holds of every element that a
/// filter keeps, and so does the filter's test.
pub proof fn lemma_filter_keeps<T>(items: Seq<T>, keep: spec_fn(T) -> bool, holds: spec_fn(T) -> bool)
    requires
        forall|i: int| 0 <= i < items.len() ==> holds(#[trigger] items[i]),
    ensures
        forall|i: int|
            0 <= i < items.filter(keep).len() ==> holds(#[trigger] items.filter(keep)[i]) && keep(
                items.filter(keep)[i],
            ),
    decreases items.len(),
{
    reveal(Seq::filter);
    if items.len() > 0 {
        let front = items.drop_last();
        assert forall|i: int| 0 <= i < front.len() implies holds(#[trigger] front[i]) by {
            assert(front[i] == items[i]);
        }
        lemma_filter_keeps(front, keep, holds);
        let kept = items.filter(keep);
        assert forall|i: int| 0 <= i < kept.len() implies holds(#[trigger] kept[i]) && keep(
            kept[i],
        ) by {
            if i < front.filter(keep).len() {
                assert(kept[i] == front.filter(keep)[i]);
            } else {
                assert(kept[i] == items.last());
            }
        }
    }
}

/// A shot that is no faster than `MAX_SHOT_VEL`, and in reach if `near`.
pub open spec fn settled_shot(near: bool) -> spec_fn(Shot) -> bool {
    |shot: Shot|
        (near ==> shot.base.pos.in_reach()) && shot.base.velocity.norm_sq() <= MAX_SHOT_VEL
            * MAX_SHOT_VEL
}

/// A rock that is no faster than `MAX_ROCK_VEL`, and in reach if `near`.
pub open spec fn settled_rock(near: bool) -> spec_fn(Rock) -> bool {
    |rock: Rock|
        (near ==> rock.base.pos.in_reach()) && rock.base.velocity.norm_sq() <= MAX_ROCK_VEL
            * MAX_ROCK_VEL
}

/// Collisions kill and do nothing else: after the first `n` rocks have met
/// the player and the shots, every actor is what it was or that actor
/// dead, the lists are as long as they were, and the score has grown by
/// at most `n`.
pub proof fn lemma_met_kills_only(game: GameModel, n: int)
    requires
        0 <= n <= game.rocks.len(),
    ensures
        game.met_upto(n).shots.len() == game.shots.len(),
        game.met_upto(n).rocks.len() == game.rocks.len(),
        game.met_upto(n).player == game.player || game.met_upto(n).player == dead_player(
            game.player,
        ),
        forall|i: int|
            0 <= i < game.shots.len() ==> (#[trigger] game.met_upto(n).shots[i]) == game.shots[i]
                || game.met_upto(n).shots[i] == dead_shot(game.shots[i]),
        forall|i: int|
            0 <= i < game.rocks.len() ==> (#[trigger] game.met_upto(n).rocks[i]) == game.rocks[i]
                || game.met_upto(n).rocks[i] == dead_rock(game.rocks[i]),
        forall|i: int|
            n <= i < game.rocks.len() ==> (#[trigger] game.met_upto(n).rocks[i]) == game.rocks[i],
        game.score <= game.met_upto(n).score <= game.score + n || game.score + n > i32::MAX,
        game.met_upto(n) == (GameModel {
            player: game.met_upto(n).player,
            shots: game.met_upto(n).shots,
            rocks: game.met_upto(n).rocks,
            score: game.met_upto(n).score,
            gui_dirty: game.met_upto(n).gui_dirty,
            ..game
        }),
    decreases n,
{
    if n > 0 {
        lemma_met_kills_only(game, n - 1);
        let before = game.met_upto(n - 1);
        let rammed = collides(before.player.base, before.rocks[n - 1].base);
        let rock = if rammed {
            dead_rock(before.rocks[n - 1])
        } else {
            before.rocks[n - 1]
        };
        lemma_first_hit(before.shots, rock.base, 0);
    }
}

/// A point in the ring round a centre within `FIELD` is in reach.
pub proof fn lemma_ring_in_reach(point: Point2, centre: Point2, min_radius: u32, max_radius: u32)
    requires
        in_ring(point, centre, min_radius, max_radius),
        centre.within(FIELD as int),
    ensures
        point.in_reach(),
{
    let dx = point.x - centre.x;
    let dy = point.y - centre.y;
    let outer = padded(max_radius as int) + slack(padded(max_radius as int));
    assert(magnitude(dx) <= outer && magnitude(dy) <= outer) by (nonlinear_arith)
        requires
            dx * dx + dy * dy <= outer * outer,
            outer >= 0,
    ;
}

/// A shot leaves the gun within reach if the player is within `FIELD`.
pub proof fn lemma_shot_in_reach(player: Player, sprite: Sprite, id: PhysicsId)
    requires
        player.base.pos.within(FIELD as int),
    ensures
        player.shot_fired(sprite, id).base.pos.in_reach(),
{
    lemma_heading_stretch(
        player.base.facing,
        player.base.asset.height * 500,
        player.base.asset.height * 500,
    );
}

impl MainState {
    /// Removes the dead shots and rocks.
    pub fn clear_dead_stuff(&mut self)
        ensures
            final(self)@ == old(self)@.cleared(),
    {
        self.shots = living_shots(&self.shots);
        self.rocks = living_rocks(&self.rocks);
    }

    /// Lets every rock meet the player and the shots, in the order of the
    /// lists, and returns the number of hits, for each of which the sound
    /// of a hit is due. The dead collide with nothing: a rock is hit at
    /// most once, and a shot hits at most one rock.
    pub fn handle_collisions(&mut self) -> (hits: u32)
        requires
            old(self)@.score + old(self)@.rocks.len() <= i32::MAX,
        ensures
            final(self)@ == old(self)@.collided(),
            hits == final(self)@.score - old(self)@.score,
            hits <= old(self)@.rocks.len(),
    {
        let ghost start = self@;
        let mut hits: u32 = 0;
        let mut i: usize = 0;
        while i < self.rocks.len()
            invariant
                start == old(self)@,
                start.score + start.rocks.len() <= i32::MAX,
                i <= self.rocks.len(),
                self.rocks.len() == start.rocks.len(),
                self@ == start.met_upto(i as int),
                hits == self.score - start.score,
                hits <= i,
            decreases self.rocks.len() - i,
        {
            let ghost before = self@;
            let mut rock = self.rocks[i];
            check_collision(&mut self.player, &mut rock);
            let ghost rammed = collides(before.player.base, before.rocks[i as int].base);
            let ghost struck = rock;
            let ghost pilot = self.player;
            let ghost shots_before = self.shots@;
            let ghost target = first_hit(shots_before, struck.base, 0);
            proof {
                lemma_first_hit(shots_before, struck.base, 0);
            }
            let mut j: usize = 0;
            while j < self.shots.len()
                invariant
                    j <= self.shots.len(),
                    self.shots.len() == shots_before.len(),
                    0 <= target <= shots_before.len(),
                    target == first_hit(shots_before, struck.base, 0),
                    target < shots_before.len() ==> collides(
                        shots_before[target].base,
                        struck.base,
                    ),
                    forall|k: int|
                        0 <= k < target ==> !collides((#[trigger] shots_before[k]).base, struck.base),
                    start.score + start.rocks.len() <= i32::MAX,
                    i < start.rocks.len(),
                    before.score == start.score + hits || before.score + 1 == start.score + hits,
                    before.score - start.score <= i,
                    self@ == (GameModel {
                        shots: self.shots@,
                        score: self.score,
                        gui_dirty: self.gui_dirty,
                        player: pilot,
                        ..before
                    }),
                    target < j ==> {
                        &&& rock == dead_rock(struck)
                        &&& self.shots@ == shots_before.update(
                            target,
                            dead_shot(shots_before[target]),
                        )
                        &&& self.score == before.score + 1
                        &&& hits == before.score + 1 - start.score
                        &&& self.gui_dirty
                    },
                    target >= j ==> {
                        &&& rock == struck
                        &&& self.shots@ == shots_before
                        &&& self.score == before.score
                        &&& hits == before.score - start.score
                        &&& self.gui_dirty == before.gui_dirty
                    },
                decreases self.shots.len() - j,
            {
                let mut shot = self.shots[j];
                if check_collision(&mut shot, &mut rock) {
                    self.score += 1;
                    self.gui_dirty = true;
                    hits += 1;
                }
                self.shots.set(j, shot);
                proof {
                    if target < j {
                        assert(self.shots@ =~= shots_before.update(
                            target,
                            dead_shot(shots_before[target]),
                        ));
                    } else if target == j {
                    } else {
                        assert(self.shots@ =~= shots_before);
                    }
                }
                j += 1;
            }
            self.rocks.set(i, rock);
            proof {
                assert(self@ == before.met(i as int)) by {
                    if target < shots_before.len() {
                        assert(self@.rocks =~= before.rocks.update(
                            i as int,
                            dead_rock(struck),
                        ));
                    } else {
                        assert(self@.rocks =~= before.rocks.update(i as int, struck));
                        assert(self@.shots =~= before.shots);
                    }
                }
            }
            i += 1;
        }
        hits
    }

    /// Looks after the level: if no rock is left, the next level begins,
    /// with five rocks more than its number round the player.
    pub fn check_for_level_respawn(&mut self)
        requires
            old(self)@.rocks.len() == 0 ==> old(self)@.can_respawn(),
        ensures
            old(self)@.respawned(final(self)@),
    {
        if self.rocks.is_empty() {
            self.level += 1;
            self.gui_dirty = true;
            let mut r = create_rocks(
                &mut self.asset_manager,
                self.rock_sprite,
                self.level + ROCKS_BEYOND_LEVEL,
                self.player.position(),
                SPAWN_MIN_RADIUS,
                SPAWN_MAX_RADIUS,
            );
            let ghost made = r@;
            self.rocks.append(&mut r);
            assert(self.rocks@ =~= made);
        }
    }

    /// Lets every shot fly for `dt` microseconds.
    pub fn update_shots(&mut self, dt: u32)
        requires
            forall|i: int|
                0 <= i < old(self)@.shots.len() ==> (#[trigger] old(self)@.shots[i]).base.pos.in_reach(),
        ensures
            final(self)@ == (GameModel {
                shots: Seq::new(
                    old(self)@.shots.len(),
                    |i: int| old(self)@.shots[i].flown(old(self)@.world(), dt),
                ),
                ..old(self)@
            }),
    {
        let coords = (self.screen_width, self.screen_height);
        let mut i: usize = 0;
        while i < self.shots.len()
            invariant
                i <= self.shots.len(),
                self.shots.len() == old(self)@.shots.len(),
                coords == old(self)@.world(),
                self@ == (GameModel { shots: self.shots@, ..old(self)@ }),
                forall|k: int| 0 <= k < i ==> #[trigger] self.shots[k] == old(self)@.shots[k].flown(coords, dt),
                forall|k: int| i <= k < self.shots.len() ==> #[trigger] self.shots[k] == old(self)@.shots[k],
                forall|k: int|
                    0 <= k < old(self)@.shots.len() ==> (#[trigger] old(self)@.shots[k]).base.pos.in_reach(),
            decreases self.shots.len() - i,
        {
            let mut shot = self.shots[i];
            shot.fly(coords, dt);
            self.shots.set(i, shot);
            i += 1;
        }
        assert(self.shots@ =~= Seq::new(
            old(self)@.shots.len(),
            |i: int| old(self)@.shots[i].flown(old(self)@.world(), dt),
        ));
    }

    /// Marks every shot dead whose time is up.
    pub fn expire_shots(&mut self)
        ensures
            final(self)@ == old(self)@.expired(),
    {
        let mut i: usize = 0;
        while i < self.shots.len()
            invariant
                i <= self.shots.len(),
                self.shots.len() == old(self)@.shots.len(),
                self@ == (GameModel { shots: self.shots@, ..old(self)@ }),
                forall|k: int| 0 <= k < i ==> #[trigger] self.shots[k] == old(self)@.shots[k].expired(),
                forall|k: int| i <= k < self.shots.len() ==> #[trigger] self.shots[k] == old(self)@.shots[k],
            decreases self.shots.len() - i,
        {
            let mut shot = self.shots[i];
            shot.expire();
            self.shots.set(i, shot);
            i += 1;
        }
        assert(self.shots@ =~= Seq::new(
            old(self)@.shots.len(),
            |i: int| old(self)@.shots[i].expired(),
        ));
    }

    /// Lets `dt` microseconds pass for every rock.
    pub fn update_rocks(&mut self, dt: u32)
        requires
            forall|i: int|
                0 <= i < old(self)@.rocks.len() ==> (#[trigger] old(self)@.rocks[i]).base.pos.in_reach(),
        ensures
            final(self)@ == (GameModel {
                rocks: Seq::new(
                    old(self)@.rocks.len(),
                    |i: int| Rock { base: old(self)@.rocks[i].base.stepped(MAX_ROCK_VEL, old(self)@.world(), dt) },
                ),
                ..old(self)@
            }),
    {
        let coords = (self.screen_width, self.screen_height);
        let mut i: usize = 0;
        while i < self.rocks.len()
            invariant
                i <= self.rocks.len(),
                self.rocks.len() == old(self)@.rocks.len(),
                coords == old(self)@.world(),
                self@ == (GameModel { rocks: self.rocks@, ..old(self)@ }),
                forall|k: int|
                    0 <= k < i ==> #[trigger] self.rocks[k] == (Rock {
                        base: old(self)@.rocks[k].base.stepped(MAX_ROCK_VEL, coords, dt),
                    }),
                forall|k: int| i <= k < self.rocks.len() ==> #[trigger] self.rocks[k] == old(self)@.rocks[k],
                forall|k: int|
                    0 <= k < old(self)@.rocks.len() ==> (#[trigger] old(self)@.rocks[k]).base.pos.in_reach(),
            decreases self.rocks.len() - i,
        {
            let mut act = self.rocks[i];
            act.update(coords, dt);
            self.rocks.set(i, act);
            i += 1;
        }
        assert(self.rocks@ =~= Seq::new(
            old(self)@.rocks.len(),
            |i: int| Rock { base: old(self)@.rocks[i].base.stepped(MAX_ROCK_VEL, old(self)@.world(), dt) },
        ));
    }

    /// Whether the actors are where a tick can move them from.
    pub fn is_wf(&self) -> (ok: bool)
        ensures
            ok == self@.wf(),
    {
        if !self.player.base.pos.is_within(FIELD) || !self.player.base.velocity.is_within(REACH) {
            return false;
        }
        let mut i: usize = 0;
        while i < self.shots.len()
            invariant
                i <= self.shots.len(),
                forall|k: int| 0 <= k < i ==> (#[trigger] self.shots[k]).base.pos.in_reach(),
            decreases self.shots.len() - i,
        {
            if !self.shots[i].base.pos.is_within(REACH) {
                assert(!self@.shots[i as int].base.pos.in_reach());
                return false;
            }
            i += 1;
        }
        let mut j: usize = 0;
        while j < self.rocks.len()
            invariant
                j <= self.rocks.len(),
                forall|k: int| 0 <= k < self.shots.len() ==> (#[trigger] self.shots[k]).base.pos.in_reach(),
                forall|k: int| 0 <= k < j ==> (#[trigger] self.rocks[k]).base.pos.in_reach(),
            decreases self.rocks.len() - j,
        {
            if !self.rocks[j].base.pos.is_within(REACH) {
                assert(!self@.rocks[j as int].base.pos.in_reach());
                return false;
            }
            j += 1;
        }
        true
    }

    /// Whether a tick can be taken: the actors are where a tick can move
    /// them from, and the counters have room.
    pub fn can_update(&self) -> (ok: bool)
        ensures
            ok == (self@.wf() && self@.has_room()),
    {
        let level_room: bool = self.level <= i32::MAX - 1 - ROCKS_BEYOND_LEVEL;
        let score_room: bool = (self.score as i128) + (self.rocks.len() as i128) <= (
        i32::MAX as i128);
        let rocks_to_come: u128 = if self.level > 0 {
            self.level as u128
        } else {
            0
        };
        let id_room: bool = (self.asset_manager.last_physics_id() as u128) + 2 + (
        ROCKS_BEYOND_LEVEL as u128) + rocks_to_come <= (usize::MAX as u128);
        level_room && score_room && id_room && self.is_wf()
    }

    /// Whether in `dt` microseconds nothing travels farther than the world
    /// is wide or tall. Ticks of such length keep the actors where the next
    /// tick can move them from.
    pub fn step_fits(&self, dt: u32) -> (ok: bool)
        ensures
            ok == self@.step_fits(dt),
    {
        let travel: u128 = (MAX_SHOT_VEL as u128) * (dt as u128);
        assert(MAX_SHOT_VEL * dt <= 0xffff_ffff * 0xffff_ffff) by (nonlinear_arith)
            requires
                0 <= dt <= 0xffff_ffff,
                MAX_SHOT_VEL <= 0xffff_ffff,
        ;
        let across: bool = travel <= (self.screen_width as u128) * 1000 * 1_000_000;
        let up: bool = travel <= (self.screen_height as u128) * 1000 * 1_000_000;
        across && up
    }

    /// One tick of `dt` microseconds: the player answers the controls and
    /// fires if asked to and able; player, shots and rocks move, in this
    /// order; rocks meet the player and the shots; the shots whose time is
    /// up die; the dead are removed; and the next level begins if no rock
    /// is left. A shot therefore still hits in the tick in which its time
    /// runs out, and a hit counts once. The report says what the front end
    /// has to play and show.
    pub fn update(&mut self, dt: u32) -> (report: TickReport)
        requires
            old(self)@.wf(),
            old(self)@.has_room(),
        ensures
            report.fired == old(self)@.steered(dt).fires(),
            report.hits == old(self)@.played(dt).score - old(self)@.score,
            report.quit == old(self)@.input.quit,
            old(self)@.played(dt).respawned(
                GameModel { gui_dirty: report.gui_dirty, ..final(self)@ },
            ),
            !final(self)@.gui_dirty,
            final(self)@.all_alive(),
            final(self)@.speeds_held(),
            old(self)@.step_fits(dt) ==> final(self)@.wf(),
            old(self)@.step_fits(dt) && old(self)@.player.base.inside(
                old(self)@.screen_width * 1000,
                old(self)@.screen_height * 1000,
            ) ==> final(self)@.player.base.inside(
                old(self)@.screen_width * 1000,
                old(self)@.screen_height * 1000,
            ),
    {
        let coords = (self.screen_width, self.screen_height);
        let ghost start = self@;

        // Update player state based on the input.
        self.player.handle_input(&self.input, dt);
        let mut fired = false;
        if self.input.fire && self.player.can_fire() {
            let shot = self.player.fire_shot(&mut self.asset_manager, self.shot_sprite);
            proof {
                lemma_shot_in_reach(start.steered(dt).player, self.shot_sprite, shot.base.physics_id);
            }
            self.shots.push(shot);
            fired = true;
        }
        let ghost armed = self@;
        assert(armed == start.steered(dt).fired());

        self.player.update(coords, dt);

        // Then the shots...
        self.update_shots(dt);

        // And finally the rocks.
        self.update_rocks(dt);
        let ghost moved = self@;
        proof {
            assert(moved.shots =~= armed.advanced(dt).shots);
            assert(moved.rocks =~= armed.advanced(dt).rocks);
            assert(moved == armed.advanced(dt));
            let near = start.step_fits(dt);
            lemma_step_near(armed.player.base, PLAYER_MAX_SPEED, coords, dt, FIELD as int);
            if near {
                lemma_step_stays(armed.player.base, PLAYER_MAX_SPEED, coords, dt, FIELD as int);
            }
            lemma_limited_within(
                armed.player.base.stepped(PLAYER_MAX_SPEED, coords, dt).velocity.sum(
                    pull(armed.player.base.stepped(PLAYER_MAX_SPEED, coords, dt).facing).scale(
                        dt as int,
                        1_000_000,
                    ),
                ),
                PLAYER_MAX_SPEED,
            );
            lemma_speed_bounds_components(
                moved.player.base.velocity,
                PLAYER_MAX_SPEED,
            );
            assert forall|i: int| 0 <= i < moved.shots.len() implies settled_shot(near)(
                #[trigger] moved.shots[i],
            ) by {
                if near {
                    lemma_step_stays(armed.shots[i].base, MAX_SHOT_VEL, coords, dt, REACH as int);
                }
                lemma_step_order(armed.shots[i].base, MAX_SHOT_VEL, coords, dt);
            }
            assert forall|i: int| 0 <= i < moved.rocks.len() implies settled_rock(near)(
                #[trigger] moved.rocks[i],
            ) by {
                if near {
                    lemma_step_stays(armed.rocks[i].base, MAX_ROCK_VEL, coords, dt, REACH as int);
                }
                lemma_step_order(armed.rocks[i].base, MAX_ROCK_VEL, coords, dt);
            }
        }

        // Handle the result of movements: collision detection,
        // object death, and if we have killed all the rocks
        // in the level, spawn more of them.
        let hits = self.handle_collisions();
        let ghost met = self@;
        proof {
            lemma_met_kills_only(moved, moved.rocks.len() as int);
        }

        self.expire_shots();
        let ghost timed = self@;

        self.clear_dead_stuff();
        let ghost cleared = self@;
        proof {
            assert(cleared == start.played(dt));
            let near = start.step_fits(dt);
            assert forall|i: int| 0 <= i < timed.shots.len() implies settled_shot(near)(
                #[trigger] timed.shots[i],
            ) by {
                assert(timed.shots[i] == met.shots[i].expired());
            }
            lemma_filter_keeps(timed.shots, shot_lives(), settled_shot(near));
            lemma_filter_keeps(timed.rocks, rock_lives(), settled_rock(near));
        }

        self.check_for_level_respawn();
        proof {
            let next = self@;
            let near = start.step_fits(dt);
            assert forall|i: int| 0 <= i < next.rocks.len() implies settled_rock(near)(
                #[trigger] next.rocks[i],
            ) && next.rocks[i].base.alive by {
                if cleared.rocks.len() == 0 {
                    if near {
                        lemma_ring_in_reach(
                            next.rocks[i].base.pos,
                            cleared.player.base.pos,
                            SPAWN_MIN_RADIUS,
                            SPAWN_MAX_RADIUS,
                        );
                    }
                    assert(is_spawn(
                        next.rocks[i],
                        cleared.rock_sprite,
                        (cleared.issued + 1 + i) as usize,
                        cleared.player.base.pos,
                        SPAWN_MIN_RADIUS,
                        SPAWN_MAX_RADIUS,
                    ));
                }
            }
        }

        let gui_dirty = self.gui_dirty;
        self.gui_dirty = false;
        TickReport { fired, hits, gui_dirty, quit: self.input.quit }
    }

    /// A game at its start: the player in the middle of the screen, five
    /// rocks round it, no shot, level and score at 0, nothing held down,
    /// and the display of level and score due.
    pub fn new(
        player_sprite: Sprite,
        rock_sprite: Sprite,
        shot_sprite: Sprite,
        shot_sound_id: SoundId,
        hit_sound_id: SoundId,
        screen_width: u32,
        screen_height: u32,
    ) -> (state: MainState)
        ensures
            state@.wf(),
            state@.has_room(),
            state@.all_alive(),
            state@.speeds_held(),
            state@ == (GameModel {
                issued: 6,
                player: Player {
                    base: BaseActor {
                        asset: player_sprite,
                        pos: Vector2 {
                            x: (screen_width * 500) as i64,
                            y: (screen_height * 500) as i64,
                        },
                        facing: 0,
                        velocity: Vector2 { x: 0, y: 0 },
                        bbox_size: PLAYER_BBOX,
                        rvel: 0,
                        alive: true,
                        physics_id: 1,
                    },
                    shot_timeout: 0,
                    shot_sound_id,
                },
                shots: Seq::empty(),
                rocks: state@.rocks,
                level: 0,
                score: 0,
                hit_sound_id,
                screen_width,
                screen_height,
                input: InputState { xaxis: 0, yaxis: 0, fire: false, quit: false },
                gui_dirty: true,
                rock_sprite,
                shot_sprite,
            }),
            state@.rocks.len() == 5,
            forall|i: int|
                0 <= i < 5 ==> is_spawn(
                    #[trigger] state@.rocks[i],
                    rock_sprite,
                    (2 + i) as usize,
                    state@.player.base.pos,
                    SPAWN_MIN_RADIUS,
                    SPAWN_MAX_RADIUS,
                ),
            forall|i: int|
                0 <= i < 5 ==> in_ring(
                    (#[trigger] state@.rocks[i]).base.pos,
                    state@.player.base.pos,
                    SPAWN_MIN_RADIUS,
                    SPAWN_MAX_RADIUS,
                ),
    {
        let mut am = AssetManager::new();
        let player = create_player(&mut am, player_sprite, shot_sound_id, screen_width, screen_height);
        let rock_count: i32 = 5;
        let rocks = create_rocks(
            &mut am,
            rock_sprite,
            rock_count,
            player.position(),
            SPAWN_MIN_RADIUS,
            SPAWN_MAX_RADIUS,
        );
        proof {
            assert forall|i: int| 0 <= i < rocks.len() implies settled_rock(true)(#[trigger] rocks[i])
                && rocks[i].base.alive by {
                lemma_ring_in_reach(
                    rocks[i].base.pos,
                    player.base.pos,
                    SPAWN_MIN_RADIUS,
                    SPAWN_MAX_RADIUS,
                );
                assert(is_spawn(
                    rocks[i],
                    rock_sprite,
                    (2 + i) as usize,
                    player.base.pos,
                    SPAWN_MIN_RADIUS,
                    SPAWN_MAX_RADIUS,
                ));
            }
        }
        MainState {
            asset_manager: am,
            player,
            shots: Vec::new(),
            rocks,
            level: 0,
            score: 0,
            hit_sound_id,
            screen_width,
            screen_height,
            input: InputState::default(),
            gui_dirty: true,
            rock_sprite,
            shot_sprite,
        }
    }
}

} // verus!
