//! The player's ship: it turns and thrusts as the controls say, is dragged
//! and pulled down, and fires shots no faster than its gun allows.

use crate::actors::shot::{
    count_down, counted_down, create_shot, Shot, MAX_SHOT_VEL, SHOT_BBOX, SHOT_LIFE, SHOT_RVEL,
};
use crate::actors::{
    lemma_moved_in_reach, turned, update_actor_position, wrap_actor_position, Actor, BaseActor,
    Collidable, Inputable, Updatable,
};
use crate::assets::{Asset, AssetManager, SoundId, Sprite};
use crate::fixed::{div_trunc, lemma_div_trunc_within, magnitude, MICROS_PER_SECOND, UNIT};
use crate::input::InputState;
use crate::physics::PhysicsId;
use crate::util::{
    clamp_velocity, heading, lemma_heading_unit, lemma_limited_within, limit_velocity, limited,
    vec_from_angle, Point2, Vector2,
};
use vstd::prelude::*;

verus! {

/// The radius within which the player collides.
pub const PLAYER_BBOX: u32 = 12_000;

/// The acceleration of the engine, in thousandths of a pixel per second
/// squared.
pub const PLAYER_THRUST: i64 = 540_000;

/// The speed the player never exceeds, neither while it moves nor at the
/// end of a tick.
pub const PLAYER_MAX_SPEED: u32 = 220_000;

/// The acceleration with which the player falls.
pub const PLAYER_GRAVITY: i64 = 110_000;

/// The acceleration with which the player is held back along its heading.
pub const PLAYER_DRAG: i64 = 40_000;

/// How fast the player turns, in angle units per second: three radians.
pub const PLAYER_TURN_RATE: i64 = 31_291;

/// Microseconds between two shots.
pub const PLAYER_SHOT_TIME: i64 = 300_000;

/// The speed at which a shot leaves the gun: as fast as shots may be.
pub const SHOT_SPEED: i64 = 340_000;

/// The player's ship, the time until its gun is ready, and the sound of the
/// gun.
#[derive(Clone, Copy, Debug, PartialEq, Eq, Structural)]
pub struct Player {
    pub base: BaseActor,
    /// Microseconds until the gun is ready again. It is ready once this is
    /// below 0.
    pub shot_timeout: i64,
    pub shot_sound_id: SoundId,
}

/// The angle by which the player turns in `dt` microseconds with the turning
/// control at `xaxis`. A turn to the left is the angle that completes it to
/// a full turn.
pub open spec fn turn(dt: u32, xaxis: i8) -> u16 {
    (div_trunc(dt * PLAYER_TURN_RATE * xaxis, 1_000_000) % 65536) as u16
}

/// The velocity that `dt` microseconds of thrust add to a ship that faces
/// `facing`.
pub open spec fn thrust(facing: u16, dt: u32) -> Vector2 {
    heading(facing).scale(PLAYER_THRUST as int, 1000).scale(dt as int, 1_000_000)
}

/// The acceleration of gravity and drag on a ship that faces `facing`:
/// gravity pulls along -Y, drag against the heading.
pub open spec fn pull(facing: u16) -> Vector2 {
    (Vector2 { x: 0, y: (-PLAYER_GRAVITY) as i64 }).sum(
        heading(facing).scale(-PLAYER_DRAG as int, 1000),
    )
}

impl Player {
    /// The player after it has answered `input` for `dt` microseconds: it
    /// has turned as the turning control says, and has gained the velocity
    /// of the thrust, along its new heading, if the thrust control is on.
    pub open spec fn steered(self, input: InputState, dt: u32) -> Player {
        let facing = turned(self.base.facing, turn(dt, input.xaxis));
        let velocity = if input.yaxis > 0 {
            self.base.velocity.sum(thrust(facing, dt))
        } else {
            self.base.velocity
        };
        Player { base: BaseActor { facing, velocity, ..self.base }, ..self }
    }

    /// The player after `dt` microseconds in a world of `world_coords`
    /// pixels: it has taken one step of the simulation, at no more than
    /// `PLAYER_MAX_SPEED`, the gun has come `dt` closer to being ready, and
    /// gravity and drag have changed the velocity, which is then held to
    /// `PLAYER_MAX_SPEED` again.
    pub open spec fn updated(self, world_coords: (u32, u32), dt: u32) -> Player {
        let stepped = self.base.stepped(PLAYER_MAX_SPEED, world_coords, dt);
        Player {
            base: BaseActor {
                velocity: limited(
                    stepped.velocity.sum(pull(stepped.facing).scale(dt as int, 1_000_000)),
                    PLAYER_MAX_SPEED,
                ),
                ..stepped
            },
            shot_timeout: counted_down(self.shot_timeout, dt),
            ..self
        }
    }

    /// The shot that the player fires under the identifier `id`: it faces
    /// where the player faces, leaves at `SHOT_SPEED` along that heading
    /// and never faster, and starts half the height of the player's picture
    /// ahead of the player.
    pub open spec fn shot_fired(self, sprite: Sprite, id: PhysicsId) -> Shot {
        Shot {
            base: BaseActor {
                asset: sprite,
                pos: self.base.pos.sum(
                    heading(self.base.facing).scale(self.base.asset.height * 500, 1000),
                ),
                facing: self.base.facing,
                velocity: limited(
                    heading(self.base.facing).scale(SHOT_SPEED as int, 1000),
                    MAX_SHOT_VEL,
                ),
                bbox_size: SHOT_BBOX,
                rvel: SHOT_RVEL,
                alive: true,
                physics_id: id,
            },
            time_to_live: SHOT_LIFE,
        }
    }

    /// Whether the gun is ready.
    pub fn can_fire(&self) -> (ready: bool)
        ensures
            ready == (self.shot_timeout < 0),
    {
        self.shot_timeout < 0
    }

    /// Fires a shot with the picture `sprite`. The gun then needs
    /// `PLAYER_SHOT_TIME` to be ready again. The sound of the gun is for the
    /// caller to play.
    pub fn fire_shot(&mut self, am: &mut AssetManager, sprite: Sprite) -> (shot: Shot)
        requires
            old(am).issued() < usize::MAX,
            old(self).base.pos.in_reach(),
        ensures
            final(am).issued() == old(am).issued() + 1,
            *final(self) == (Player { shot_timeout: PLAYER_SHOT_TIME, ..*old(self) }),
            shot == old(self).shot_fired(sprite, final(am).issued()),
            shot.base.velocity.norm_sq() <= MAX_SHOT_VEL * MAX_SHOT_VEL,
    {
        self.shot_timeout = PLAYER_SHOT_TIME;

        let mut shot = create_shot(am, sprite);

        shot.set_facing(self.facing());
        let direction = vec_from_angle(shot.facing());
        proof {
            lemma_heading_stretch(self.base.facing, SHOT_SPEED as int, 340_000);
            lemma_heading_stretch(
                self.base.facing,
                self.base.asset.height * 500,
                self.base.asset.height * 500,
            );
        }
        shot.set_velocity(limit_velocity(direction.scaled(SHOT_SPEED, UNIT), MAX_SHOT_VEL));

        let pos = direction.scaled(self.half_height(), UNIT);
        shot.set_position(self.position().plus(pos));
        shot
    }
}

/// A heading stretched by `num` thousandths, the one way or the other, has
/// no component longer than `num`.
pub proof fn lemma_heading_stretch(angle: u16, num: int, bound: int)
    requires
        0 <= num <= bound <= i64::MAX,
    ensures
        heading(angle).scale_fits(num, 1000),
        heading(angle).scale_fits(-num, 1000),
        heading(angle).scale(num, 1000).within(bound),
        heading(angle).scale(-num, 1000).within(bound),
{
    lemma_heading_unit(angle);
    let hx = heading(angle).x as int;
    let hy = heading(angle).y as int;
    assert(magnitude(hx * num) <= num * 1000 && magnitude(hy * num) <= num * 1000 && magnitude(
        hx * (-num),
    ) <= num * 1000 && magnitude(hy * (-num)) <= num * 1000) by (nonlinear_arith)
        requires
            -1000 <= hx <= 1000,
            -1000 <= hy <= 1000,
            num >= 0,
    ;
    lemma_div_trunc_within(hx * num, 1000, num);
    lemma_div_trunc_within(hy * num, 1000, num);
    lemma_div_trunc_within(hx * (-num), 1000, num);
    lemma_div_trunc_within(hy * (-num), 1000, num);
}

/// An acceleration of at most `bound` adds at most `bound * 4295` to a
/// velocity in any time that can be given.
pub proof fn lemma_gain_fits(rate: Vector2, bound: int, dt: u32)
    requires
        0 <= bound,
        bound * 4295 <= i64::MAX,
        rate.within(bound),
    ensures
        rate.scale_fits(dt as int, 1_000_000),
        rate.scale(dt as int, 1_000_000).within(bound * 4295),
{
    let x = rate.x as int;
    let y = rate.y as int;
    assert(magnitude(x * dt) <= (bound * 4295) * 1_000_000 && magnitude(y * dt) <= (bound * 4295)
        * 1_000_000) by (nonlinear_arith)
        requires
            -bound <= x <= bound,
            -bound <= y <= bound,
            0 <= dt <= 0xffff_ffff,
    ;
    lemma_div_trunc_within(x * dt, 1_000_000, bound * 4295);
    lemma_div_trunc_within(y * dt, 1_000_000, bound * 4295);
}

impl Actor for Player {
    open spec fn base(&self) -> BaseActor {
        self.base
    }

    open spec fn with_base(&self, base: BaseActor) -> Player {
        Player { base, shot_timeout: self.shot_timeout, shot_sound_id: self.shot_sound_id }
    }

    proof fn lemma_with_base(&self, first: BaseActor, second: BaseActor) {
    }

    open spec fn speed_cap() -> u32 {
        PLAYER_MAX_SPEED
    }

    fn max_speed(&self) -> (cap: u32) {
        PLAYER_MAX_SPEED
    }

    fn alive(&self) -> (alive: bool) {
        self.base.alive
    }

    fn kill(&mut self) {
        self.base.alive = false;
    }

    fn width(&self) -> (w: u32) {
        self.base.asset.width()
    }

    fn height(&self) -> (h: u32) {
        self.base.asset.height()
    }

    fn half_width(&self) -> (half: i64) {
        self.base.asset.half_width()
    }

    fn half_height(&self) -> (half: i64) {
        self.base.asset.half_height()
    }

    fn center(&self) -> (p: Point2) {
        self.base.pos
    }

    fn position(&self) -> (p: Point2) {
        self.base.pos
    }

    fn set_position(&mut self, pos: Point2) {
        self.base.pos = pos;
    }

    fn add_position(&mut self, pos: Point2) {
        self.base.pos = self.base.pos.plus(pos);
    }

    fn x(&self) -> (x: i64) {
        self.base.pos.x
    }

    fn y(&self) -> (y: i64) {
        self.base.pos.y
    }

    fn set_x(&mut self, x: i64) {
        self.base.pos.x = x;
    }

    fn set_y(&mut self, y: i64) {
        self.base.pos.y = y;
    }

    fn velocity(&self) -> (v: Vector2) {
        self.base.velocity
    }

    fn set_velocity_xy(&mut self, x: i64, y: i64) {
        self.base.velocity = Vector2::new(x, y);
    }

    fn set_velocity(&mut self, vel: Vector2) {
        self.base.velocity = vel;
    }

    fn facing(&self) -> (angle: u16) {
        self.base.facing
    }

    fn set_facing(&mut self, facing: u16) {
        self.base.facing = facing;
    }

    fn bbox_size(&self) -> (radius: u32) {
        self.base.bbox_size
    }

    fn rvel(&self) -> (spin: u16) {
        self.base.rvel
    }

    fn physics_id(&self) -> (id: PhysicsId) {
        self.base.physics_id
    }
}

impl Collidable for Player {
}

/// The angle by which the player turns in `dt` microseconds with the turning
/// control at `xaxis`.
pub fn turn_angle(dt: u32, xaxis: i8) -> (angle: u16)
    ensures
        angle == turn(dt, xaxis),
{
    let rate: i64 = (dt as i64) * PLAYER_TURN_RATE;
    assert(-0x80 * rate <= rate * xaxis <= 0x80 * rate) by (nonlinear_arith)
        requires
            -0x80 <= xaxis <= 0x80,
            rate >= 0,
    ;
    assert(rate * xaxis == dt * PLAYER_TURN_RATE * xaxis) by (nonlinear_arith)
        requires
            rate == dt * PLAYER_TURN_RATE,
    ;
    let total: i64 = rate * (xaxis as i64);
    let whole: i64 = total / 1_000_000;
    let part: i64 = whole % 65536;
    if part < 0 {
        (part + 65536) as u16
    } else {
        part as u16
    }
}

/// Adds `dt` microseconds of thrust along the actor's heading to its
/// velocity.
pub fn player_thrust<T: Actor>(actor: &mut T, dt: u32)
    requires
        old(actor).base().velocity.in_reach(),
    ensures
        *final(actor) == old(actor).with_base(
            BaseActor {
                velocity: old(actor).base().velocity.sum(thrust(old(actor).base().facing, dt)),
                ..old(actor).base()
            },
        ),
{
    let direction_vector = vec_from_angle(actor.facing());
    proof {
        lemma_heading_stretch(actor.base().facing, PLAYER_THRUST as int, 540_000);
        lemma_gain_fits(
            heading(actor.base().facing).scale(PLAYER_THRUST as int, 1000),
            540_000,
            dt,
        );
    }
    let thrust_vector = direction_vector.scaled(PLAYER_THRUST, UNIT);
    actor.add_velocity(thrust_vector.scaled(dt as i64, MICROS_PER_SECOND));
}

impl Inputable for Player {
    fn handle_input(&mut self, input: &InputState, dt: u32)
        ensures
            *final(self) == old(self).steered(*input, dt),
    {
        self.add_facing(turn_angle(dt, input.xaxis));

        if input.yaxis > 0 {
            player_thrust(self, dt);
        }
    }
}

impl Updatable for Player {
    fn update(&mut self, world_coords: (u32, u32), dt: u32)
        ensures
            *final(self) == old(self).updated(world_coords, dt),
            final(self).base.velocity.norm_sq() <= PLAYER_MAX_SPEED * PLAYER_MAX_SPEED,
    {
        update_actor_position(self, dt);
        proof {
            lemma_moved_in_reach(old(self).base, PLAYER_MAX_SPEED, dt);
        }
        wrap_actor_position(self, (world_coords.0 as i64) * 1000, (world_coords.1 as i64) * 1000);

        self.shot_timeout = count_down(self.shot_timeout, dt);

        let direction_vector = vec_from_angle(self.facing());
        proof {
            lemma_heading_stretch(self.base.facing, PLAYER_DRAG as int, 40_000);
            lemma_gain_fits(pull(self.base.facing), 150_000, dt);
            lemma_speed_bounds_components(self.base.velocity, PLAYER_MAX_SPEED);
        }
        let drag_vector = direction_vector.scaled(-PLAYER_DRAG, UNIT);
        let gravity_vector = Vector2::new(0, -PLAYER_GRAVITY);
        self.add_velocity(gravity_vector.plus(drag_vector).scaled(dt as i64, MICROS_PER_SECOND));
        proof {
            lemma_limited_within(self.base.velocity, PLAYER_MAX_SPEED);
        }
        if let Some(clamped) = clamp_velocity(self.velocity(), PLAYER_MAX_SPEED) {
            self.set_velocity(clamped);
        }
    }
}

/// Neither component of a velocity exceeds its speed.
pub proof fn lemma_speed_bounds_components(velocity: Vector2, max: u32)
    requires
        velocity.norm_sq() <= max * max,
    ensures
        velocity.within(max as int),
{
    let x = velocity.x as int;
    let y = velocity.y as int;
    let m = max as int;
    assert(magnitude(x) <= m && magnitude(y) <= m) by (nonlinear_arith)
        requires
            x * x + y * y <= m * m,
            m >= 0,
    ;
}

/// The player with the picture `sprite` and the gun sound `shot_sound_id`:
/// in the middle of a screen of `screen_width` by `screen_height` pixels,
/// at rest, facing along +Y, alive, the gun ready after the first tick, with
/// the next identifier.
pub fn create_player(
    asset_manager: &mut AssetManager,
    sprite: Sprite,
    shot_sound_id: SoundId,
    screen_width: u32,
    screen_height: u32,
) -> (player: Player)
    requires
        old(asset_manager).issued() < usize::MAX,
    ensures
        final(asset_manager).issued() == old(asset_manager).issued() + 1,
        player == (Player {
            base: BaseActor {
                asset: sprite,
                pos: Vector2 { x: (screen_width * 500) as i64, y: (screen_height * 500) as i64 },
                facing: 0,
                velocity: Vector2 { x: 0, y: 0 },
                bbox_size: PLAYER_BBOX,
                rvel: 0,
                alive: true,
                physics_id: final(asset_manager).issued(),
            },
            shot_timeout: 0,
            shot_sound_id,
        }),
{
    Player {
        base: BaseActor {
            asset: sprite,
            pos: Vector2::new((screen_width as i64) * 500, (screen_height as i64) * 500),
            facing: 0,
            velocity: Vector2::zero(),
            bbox_size: PLAYER_BBOX,
            rvel: 0,
            alive: true,
            physics_id: asset_manager.next_physics_id(),
        },
        shot_timeout: 0,
        shot_sound_id,
    }
}

} // verus!
