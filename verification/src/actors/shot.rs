//! Shots: they fly straight, spin for show, and last two seconds.

use crate::actors::{
    lemma_moved_in_reach, lemma_step_order, update_actor_position, wrap_actor_position, Actor,
    BaseActor, Collidable, Updatable,
};
use crate::assets::{Asset, AssetManager, Sprite};
use crate::physics::PhysicsId;
use crate::util::{Point2, Vector2};
use vstd::prelude::*;

verus! {

/// How long a shot lasts, in microseconds.
pub const SHOT_LIFE: i64 = 2_000_000;

/// The speed no shot exceeds: the speed at which shots leave the gun, in
/// thousandths of a pixel per second.
pub const MAX_SHOT_VEL: u32 = 340_000;

/// The radius within which a shot collides.
pub const SHOT_BBOX: u32 = 6_000;

/// The angle by which a shot spins each tick: a tenth of a radian.
pub const SHOT_RVEL: u16 = 1043;

/// A shot and the time it has left.
#[derive(Clone, Copy, Debug, PartialEq, Eq, Structural)]
pub struct Shot {
    pub base: BaseActor,
    /// Microseconds until the shot expires. It dies once this is below 0.
    pub time_to_live: i64,
}

/// The time `left` after `dt` microseconds have passed. It may fall below
/// 0, and stops at the least number there is.
pub open spec fn counted_down(left: i64, dt: u32) -> i64 {
    if left - dt < i64::MIN {
        i64::MIN
    } else {
        (left - dt) as i64
    }
}

/// Counts `dt` microseconds off `left`.
pub fn count_down(left: i64, dt: u32) -> (rest: i64)
    ensures
        rest == counted_down(left, dt),
{
    if left < i64::MIN + (dt as i64) {
        i64::MIN
    } else {
        left - (dt as i64)
    }
}

impl Shot {
    /// The shot after it has flown for `dt` microseconds in a world of
    /// `world_coords` pixels: it has taken one step of the simulation, and
    /// its time has run down by `dt`.
    pub open spec fn flown(self, world_coords: (u32, u32), dt: u32) -> Shot {
        Shot {
            base: self.base.stepped(MAX_SHOT_VEL, world_coords, dt),
            time_to_live: counted_down(self.time_to_live, dt),
        }
    }

    /// The shot after its time was looked at: dead if none is left.
    pub open spec fn expired(self) -> Shot {
        Shot {
            base: BaseActor { alive: self.base.alive && self.time_to_live >= 0, ..self.base },
            ..self
        }
    }

    /// The shot after an update of `dt` microseconds: it has flown, and is
    /// dead if its time is up.
    pub open spec fn updated(self, world_coords: (u32, u32), dt: u32) -> Shot {
        self.flown(world_coords, dt).expired()
    }

    /// Lets the shot fly for `dt` microseconds: one step of the simulation,
    /// and `dt` less time to live. Whether the time is up is not looked at.
    pub fn fly(&mut self, world_coords: (u32, u32), dt: u32)
        requires
            old(self).base.pos.in_reach(),
        ensures
            *final(self) == old(self).flown(world_coords, dt),
    {
        update_actor_position(self, dt);
        proof {
            lemma_moved_in_reach(old(self).base, MAX_SHOT_VEL, dt);
        }
        wrap_actor_position(self, (world_coords.0 as i64) * 1000, (world_coords.1 as i64) * 1000);
        self.time_to_live = count_down(self.time_to_live, dt);
    }

    /// Marks the shot dead if its time is up.
    pub fn expire(&mut self)
        ensures
            *final(self) == old(self).expired(),
    {
        if self.time_to_live < 0 {
            self.kill();
        }
    }
}

impl Actor for Shot {
    open spec fn base(&self) -> BaseActor {
        self.base
    }

    open spec fn with_base(&self, base: BaseActor) -> Shot {
        Shot { base, time_to_live: self.time_to_live }
    }

    proof fn lemma_with_base(&self, first: BaseActor, second: BaseActor) {
    }

    open spec fn speed_cap() -> u32 {
        MAX_SHOT_VEL
    }

    fn max_speed(&self) -> (cap: u32) {
        MAX_SHOT_VEL
    }

    fn alive(&self) -> (alive: bool) {
        self.base.alive
    }

    fn kill(&mut self) {
        self.base.alive = false;
    }

    fn width(&self) -> (w: u32) {
        self.base.asset.width()
    }

    fn height(&self) -> (h: u32) {
        self.base.asset.height()
    }

    fn half_width(&self) -> (half: i64) {
        self.base.asset.half_width()
    }

    fn half_height(&self) -> (half: i64) {
        self.base.asset.half_height()
    }

    fn center(&self) -> (p: Point2) {
        self.base.pos
    }

    fn position(&self) -> (p: Point2) {
        self.base.pos
    }

    fn set_position(&mut self, pos: Point2) {
        self.base.pos = pos;
    }

    fn add_position(&mut self, pos: Point2) {
        self.base.pos = self.base.pos.plus(pos);
    }

    fn x(&self) -> (x: i64) {
        self.base.pos.x
    }

    fn y(&self) -> (y: i64) {
        self.base.pos.y
    }

    fn set_x(&mut self, x: i64) {
        self.base.pos.x = x;
    }

    fn set_y(&mut self, y: i64) {
        self.base.pos.y = y;
    }

    fn velocity(&self) -> (v: Vector2) {
        self.base.velocity
    }

    fn set_velocity_xy(&mut self, x: i64, y: i64) {
        self.base.velocity = Vector2::new(x, y);
    }

    fn set_velocity(&mut self, vel: Vector2) {
        self.base.velocity = vel;
    }

    fn facing(&self) -> (angle: u16) {
        self.base.facing
    }

    fn set_facing(&mut self, facing: u16) {
        self.base.facing = facing;
    }

    fn bbox_size(&self) -> (radius: u32) {
        self.base.bbox_size
    }

    fn rvel(&self) -> (spin: u16) {
        self.base.rvel
    }

    fn physics_id(&self) -> (id: PhysicsId) {
        self.base.physics_id
    }
}

impl Collidable for Shot {
}

impl Updatable for Shot {
    fn update(&mut self, world_coords: (u32, u32), dt: u32)
        ensures
            *final(self) == old(self).updated(world_coords, dt),
    {
        proof {
            lemma_step_order(old(self).base, MAX_SHOT_VEL, world_coords, dt);
        }
        self.fly(world_coords, dt);
        self.expire();
    }
}

/// A new shot with the picture `sprite`: at the origin, at rest, facing
/// along +Y, alive, with its full time to live and the next identifier.
pub fn create_shot(asset_manager: &mut AssetManager, sprite: Sprite) -> (shot: Shot)
    requires
        old(asset_manager).issued() < usize::MAX,
    ensures
        final(asset_manager).issued() == old(asset_manager).issued() + 1,
        shot == (Shot {
            base: BaseActor {
                asset: sprite,
                pos: Vector2 { x: 0, y: 0 },
                facing: 0,
                velocity: Vector2 { x: 0, y: 0 },
                bbox_size: SHOT_BBOX,
                rvel: SHOT_RVEL,
                alive: true,
                physics_id: final(asset_manager).issued(),
            },
            time_to_live: SHOT_LIFE,
        }),
{
    Shot {
        base: BaseActor {
            asset: sprite,
            pos: Vector2::zero(),
            facing: 0,
            velocity: Vector2::new(0, 0),
            bbox_size: SHOT_BBOX,
            rvel: SHOT_RVEL,
            alive: true,
            physics_id: asset_manager.next_physics_id(),
        },
        time_to_live: SHOT_LIFE,
    }
}

} // verus!
