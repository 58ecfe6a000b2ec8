//! The actors of the game and the step that moves them.
//!
//! Player, rocks and shots share one state, `BaseActor`, and one set of
//! operations on it, `Actor`. What an actor does each tick, how it answers
//! the controls and what a collision does to it are capabilities on top of
//! that: `Updatable`, `Inputable` and `Collidable`.

pub mod player;
pub mod rock;
pub mod shot;

use crate::assets::Sprite;
use crate::fixed::{div_trunc, lemma_div_trunc_within, magnitude, MICROS_PER_SECOND, REACH};
use crate::input::InputState;
use crate::physics::{CollisionData, PhysicsId};
use crate::util::{clamp_velocity, lemma_limited_within, limited, Point2, Vector2};
use vstd::prelude::*;

verus! {

/// The state that every actor has.
#[derive(Clone, Copy, Debug, PartialEq, Eq, Structural)]
pub struct BaseActor {
    /// The picture, whose centre is at `pos`.
    pub asset: Sprite,
    pub pos: Point2,
    /// The angle the actor faces, in 1/65536 of a turn.
    pub facing: u16,
    pub velocity: Vector2,
    /// The radius within which the actor collides.
    pub bbox_size: u32,
    /// The angle by which the actor spins each tick.
    pub rvel: u16,
    pub alive: bool,
    pub physics_id: PhysicsId,
}

/// The angle `by` further round than `angle`.
pub open spec fn turned(angle: u16, by: u16) -> u16 {
    ((angle + by) % 65536) as u16
}

/// A coordinate along the width of a world `wide` across, brought back by
/// one width if it has left the world on either side.
pub open spec fn wrap_x(x: int, wide: int) -> int {
    if x > wide {
        x - wide
    } else if x < 0 {
        x + wide
    } else {
        x
    }
}

/// A coordinate along the height of a world `high` tall: held at the top
/// if it has risen above it, and brought up by one height if it has fallen
/// below the bottom.
pub open spec fn wrap_y(y: int, high: int) -> int {
    if y > high {
        high
    } else if y < 0 {
        y + high
    } else {
        y
    }
}

impl BaseActor {
    /// The actor after it has moved for `dt` microseconds: first its speed
    /// is limited to `cap`, the limit of its class, then it travels at that
    /// velocity, then it spins.
    pub open spec fn moved(self, cap: u32, dt: u32) -> BaseActor {
        let velocity = limited(self.velocity, cap);
        BaseActor {
            velocity,
            pos: self.pos.sum(velocity.scale(dt as int, 1_000_000)),
            facing: turned(self.facing, self.rvel),
            ..self
        }
    }

    /// The actor with its position wrapped into a world `wide` across and
    /// `high` tall.
    pub open spec fn wrapped(self, wide: int, high: int) -> BaseActor {
        BaseActor {
            pos: Vector2 {
                x: wrap_x(self.pos.x as int, wide) as i64,
                y: wrap_y(self.pos.y as int, high) as i64,
            },
            ..self
        }
    }

    /// The actor after one step of the simulation in a world of
    /// `world_coords` pixels: moved under the speed limit `cap`, then
    /// wrapped.
    pub open spec fn stepped(self, cap: u32, world_coords: (u32, u32), dt: u32) -> BaseActor {
        self.moved(cap, dt).wrapped(world_coords.0 * 1000, world_coords.1 * 1000)
    }

    /// The actor lies inside a world `wide` across and `high` tall, its
    /// edges included.
    pub open spec fn inside(self, wide: int, high: int) -> bool {
        &&& 0 <= self.pos.x <= wide
        &&& 0 <= self.pos.y <= high
    }
}

/// What every actor can be asked and told. An implementation says what its
/// shared state is (`base`), and how it looks with another shared state and
/// everything else unchanged (`with_base`); the operations are stated over
/// these two.
pub trait Actor: Sized {
    /// The state that the actor shares with all actors.
    spec fn base(&self) -> BaseActor;

    /// This actor with `base` for its shared state.
    spec fn with_base(&self, base: BaseActor) -> Self;

    /// `base` reads what `with_base` wrote, a second `with_base` undoes the
    /// first, and writing back what was read changes nothing.
    proof fn lemma_with_base(&self, first: BaseActor, second: BaseActor)
        ensures
            self.with_base(first).base() == first,
            self.with_base(first).with_base(second) == self.with_base(second),
            self.with_base(self.base()) == *self,
    ;

    /// The speed that no actor of this class exceeds once it has moved, in
    /// thousandths of a pixel per second.
    spec fn speed_cap() -> u32;

    /// The speed limit of the actor's class.
    fn max_speed(&self) -> (cap: u32)
        ensures
            cap == Self::speed_cap(),
    ;

    fn alive(&self) -> (alive: bool)
        ensures
            alive == self.base().alive,
    ;

    /// Marks the actor dead. It stays where it is until the dead are cleared
    /// away.
    fn kill(&mut self)
        ensures
            *final(self) == old(self).with_base(BaseActor { alive: false, ..old(self).base() }),
    ;

    /// Width of the picture in pixels.
    fn width(&self) -> (w: u32)
        ensures
            w == self.base().asset.width,
    ;

    /// Height of the picture in pixels.
    fn height(&self) -> (h: u32)
        ensures
            h == self.base().asset.height,
    ;

    /// Half the width of the picture, in thousandths of a pixel.
    fn half_width(&self) -> (half: i64)
        ensures
            half == self.base().asset.width * 500,
    ;

    /// Half the height of the picture, in thousandths of a pixel.
    fn half_height(&self) -> (half: i64)
        ensures
            half == self.base().asset.height * 500,
    ;

    /// The centre of the picture, which is the actor's position.
    fn center(&self) -> (p: Point2)
        ensures
            p == self.base().pos,
    ;

    fn position(&self) -> (p: Point2)
        ensures
            p == self.base().pos,
    ;

    fn set_position(&mut self, pos: Point2)
        ensures
            *final(self) == old(self).with_base(BaseActor { pos, ..old(self).base() }),
    ;

    /// Moves the actor by `pos`.
    fn add_position(&mut self, pos: Point2)
        requires
            old(self).base().pos.sum_fits(pos),
        ensures
            *final(self) == old(self).with_base(
                BaseActor { pos: old(self).base().pos.sum(pos), ..old(self).base() },
            ),
    ;

    fn x(&self) -> (x: i64)
        ensures
            x == self.base().pos.x,
    ;

    fn y(&self) -> (y: i64)
        ensures
            y == self.base().pos.y,
    ;

    fn set_x(&mut self, x: i64)
        ensures
            *final(self) == old(self).with_base(
                BaseActor { pos: Vector2 { x, y: old(self).base().pos.y }, ..old(self).base() },
            ),
    ;

    /// Moves the actor by `x` along the width of the world.
    fn add_x(&mut self, x: i64)
        requires
            i64::MIN <= old(self).base().pos.x + x <= i64::MAX,
        ensures
            *final(self) == old(self).with_base(
                BaseActor {
                    pos: Vector2 {
                        x: (old(self).base().pos.x + x) as i64,
                        y: old(self).base().pos.y,
                    },
                    ..old(self).base()
                },
            ),
    {
        let new_x = self.x() + x;
        self.set_x(new_x)
    }

    fn set_y(&mut self, y: i64)
        ensures
            *final(self) == old(self).with_base(
                BaseActor { pos: Vector2 { x: old(self).base().pos.x, y }, ..old(self).base() },
            ),
    ;

    /// Moves the actor by `y` along the height of the world.
    fn add_y(&mut self, y: i64)
        requires
            i64::MIN <= old(self).base().pos.y + y <= i64::MAX,
        ensures
            *final(self) == old(self).with_base(
                BaseActor {
                    pos: Vector2 {
                        x: old(self).base().pos.x,
                        y: (old(self).base().pos.y + y) as i64,
                    },
                    ..old(self).base()
                },
            ),
    {
        let new_y = self.y() + y;
        self.set_y(new_y)
    }

    fn velocity(&self) -> (v: Vector2)
        ensures
            v == self.base().velocity,
    ;

    fn set_velocity_xy(&mut self, x: i64, y: i64)
        ensures
            *final(self) == old(self).with_base(
                BaseActor { velocity: Vector2 { x, y }, ..old(self).base() },
            ),
    ;

    fn set_velocity(&mut self, vel: Vector2)
        ensures
            *final(self) == old(self).with_base(BaseActor { velocity: vel, ..old(self).base() }),
    ;

    /// Changes the velocity by `vel`.
    fn add_velocity(&mut self, vel: Vector2)
        requires
            old(self).base().velocity.sum_fits(vel),
        ensures
            *final(self) == old(self).with_base(
                BaseActor { velocity: old(self).base().velocity.sum(vel), ..old(self).base() },
            ),
    {
        let new_vel = self.velocity().plus(vel);
        self.set_velocity(new_vel)
    }

    fn facing(&self) -> (angle: u16)
        ensures
            angle == self.base().facing,
    ;

    fn set_facing(&mut self, facing: u16)
        ensures
            *final(self) == old(self).with_base(BaseActor { facing, ..old(self).base() }),
    ;

    /// Turns the actor by `facing`. Angles count modulo a full turn, so a
    /// turn the other way is the angle that completes it.
    fn add_facing(&mut self, facing: u16)
        ensures
            *final(self) == old(self).with_base(
                BaseActor { facing: turned(old(self).base().facing, facing), ..old(self).base() },
            ),
    {
        let new_facing = self.facing().wrapping_add(facing);
        self.set_facing(new_facing)
    }

    fn bbox_size(&self) -> (radius: u32)
        ensures
            radius == self.base().bbox_size,
    ;

    fn rvel(&self) -> (spin: u16)
        ensures
            spin == self.base().rvel,
    ;

    /// Spins the actor by its spin, which is for show: it changes where the
    /// actor faces and not where it goes.
    fn rotate(&mut self)
        ensures
            *final(self) == old(self).with_base(
                BaseActor {
                    facing: turned(old(self).base().facing, old(self).base().rvel),
                    ..old(self).base()
                },
            ),
    {
        let rvel = self.rvel();
        self.add_facing(rvel)
    }

    fn physics_id(&self) -> (id: PhysicsId)
        ensures
            id == self.base().physics_id,
    ;
}

/// Two discs overlap: their centres are closer than the sum of their radii.
pub open spec fn discs_overlap(
    first: Point2,
    first_radius: u32,
    second: Point2,
    second_radius: u32,
) -> bool {
    let dx = second.x - first.x;
    let dy = second.y - first.y;
    let reach = first_radius + second_radius;
    dx * dx + dy * dy < reach * reach
}

/// Whether two discs overlap. The test compares squares, and is settled
/// without them where one coordinate alone is too far apart.
pub fn overlaps(first: Point2, first_radius: u32, second: Point2, second_radius: u32) -> (hit:
    bool)
    ensures
        hit == discs_overlap(first, first_radius, second, second_radius),
{
    let dx: i128 = (second.x as i128) - (first.x as i128);
    let dy: i128 = (second.y as i128) - (first.y as i128);
    let reach: i128 = (first_radius as i128) + (second_radius as i128);
    if dx >= reach || dx <= -reach {
        assert(dx * dx >= reach * reach) by (nonlinear_arith)
            requires
                dx >= reach || dx <= -reach,
                reach >= 0,
        ;
        assert(dy * dy >= 0) by (nonlinear_arith);
        return false;
    }
    if dy >= reach || dy <= -reach {
        assert(dy * dy >= reach * reach) by (nonlinear_arith)
            requires
                dy >= reach || dy <= -reach,
                reach >= 0,
        ;
        assert(dx * dx >= 0) by (nonlinear_arith);
        return false;
    }
    assert(0 <= dx * dx <= 0x2_0000_0000 * 0x2_0000_0000) by (nonlinear_arith)
        requires
            -0x2_0000_0000 < dx < 0x2_0000_0000,
    ;
    assert(0 <= dy * dy <= 0x2_0000_0000 * 0x2_0000_0000) by (nonlinear_arith)
        requires
            -0x2_0000_0000 < dy < 0x2_0000_0000,
    ;
    assert(0 <= reach * reach <= 0x2_0000_0000 * 0x2_0000_0000) by (nonlinear_arith)
        requires
            0 <= reach < 0x2_0000_0000,
    ;
    dx * dx + dy * dy < reach * reach
}

/// A velocity within the speed limit travels less than `REACH` in any time
/// that can be given, so an actor in reach can always move.
pub proof fn lemma_travel_fits(velocity: Vector2, max: u32, dt: u32)
    requires
        velocity.norm_sq() <= max * max,
    ensures
        velocity.scale_fits(dt as int, 1_000_000),
        magnitude(velocity.scale(dt as int, 1_000_000).x as int) <= max * 4295,
        magnitude(velocity.scale(dt as int, 1_000_000).y as int) <= max * 4295,
{
    let x = velocity.x as int;
    let y = velocity.y as int;
    let m = max as int;
    assert(magnitude(x) <= m && magnitude(y) <= m) by (nonlinear_arith)
        requires
            x * x + y * y <= m * m,
            m >= 0,
    ;
    assert(magnitude(x * dt) <= (m * 4295) * 1_000_000 && magnitude(y * dt) <= (m * 4295)
        * 1_000_000) by (nonlinear_arith)
        requires
            magnitude(x) <= m,
            magnitude(y) <= m,
            0 <= dt <= 0xffff_ffff,
    ;
    lemma_div_trunc_within(x * dt, 1_000_000, m * 4295);
    lemma_div_trunc_within(y * dt, 1_000_000, m * 4295);
}

/// Moves the actor for `dt` microseconds: limits its speed to the limit of
/// its class, lets it travel at the velocity so limited, and spins it. In
/// this order: the speed that counts is the limited one.
pub fn update_actor_position<T: Actor>(actor: &mut T, dt: u32)
    requires
        old(actor).base().pos.in_reach(),
    ensures
        *final(actor) == old(actor).with_base(old(actor).base().moved(T::speed_cap(), dt)),
        final(actor).base().velocity.norm_sq() <= T::speed_cap() * T::speed_cap(),
{
    let ghost start = *actor;
    let ghost before = actor.base();
    let cap = actor.max_speed();
    // Clamp the velocity to the max
    if let Some(clamped) = clamp_velocity(actor.velocity(), cap) {
        actor.set_velocity(clamped);
    }
    let ghost slowed = BaseActor { velocity: limited(before.velocity, cap), ..before };
    proof {
        start.lemma_with_base(before, slowed);
        start.lemma_with_base(slowed, slowed);
        lemma_limited_within(before.velocity, cap);
        lemma_travel_fits(slowed.velocity, cap, dt);
    }
    assert(*actor == start.with_base(slowed));
    let dv = actor.velocity().scaled(dt as i64, MICROS_PER_SECOND);
    let new_position = actor.position().plus(dv);
    actor.set_position(new_position);
    let ghost placed = BaseActor { pos: new_position, ..slowed };
    proof {
        start.lemma_with_base(slowed, placed);
        start.lemma_with_base(placed, placed);
    }
    actor.rotate();
    proof {
        start.lemma_with_base(placed, before.moved(cap, dt));
        start.lemma_with_base(before.moved(cap, dt), before.moved(cap, dt));
    }
}

/// Wraps the actor's position into a world `wx` across and `wy` tall. An
/// actor that has left by the left or the right comes back in from the
/// other side, one that has fallen through the bottom comes back in from the
/// top, and one that has risen above the top is held there.
pub fn wrap_actor_position<T: Actor>(actor: &mut T, wx: i64, wy: i64)
    requires
        old(actor).base().pos.within(2 * REACH),
        -REACH <= wx <= REACH,
        -REACH <= wy <= REACH,
    ensures
        *final(actor) == old(actor).with_base(old(actor).base().wrapped(wx as int, wy as int)),
{
    let ghost start = *actor;
    let ghost before = actor.base();
    let actor_center = actor.position();
    if actor_center.x > wx {
        actor.add_x(-wx);
    } else if actor_center.x < 0 {
        actor.add_x(wx);
    }
    let ghost across = BaseActor {
        pos: Vector2 { x: wrap_x(before.pos.x as int, wx as int) as i64, y: before.pos.y },
        ..before
    };
    proof {
        start.lemma_with_base(before, across);
        start.lemma_with_base(across, across);
        assert(before == BaseActor { pos: Vector2 { x: before.pos.x, y: before.pos.y }, ..before });
    }
    assert(*actor == start.with_base(across));
    if actor_center.y > wy {
        actor.set_y(wy);
    } else if actor_center.y < 0 {
        actor.add_y(wy);
    }
    proof {
        start.lemma_with_base(across, before.wrapped(wx as int, wy as int));
    }
}

/// Wrapping a second time changes nothing, where the first wrap brought the
/// actor into the world; and it did if the actor was no farther out than
/// one width to either side and one height below. An actor above the world
/// is brought in from any height. Both hold in a world without width or
/// height too, where nothing moves.
pub proof fn lemma_wrap_idempotent(base: BaseActor, wide: int, high: int)
    requires
        base.pos.within(2 * REACH),
        0 <= wide <= REACH,
        0 <= high <= REACH,
        wide == 0 || -wide <= base.pos.x <= 2 * wide,
        high == 0 || -high <= base.pos.y,
    ensures
        base.wrapped(wide, high).wrapped(wide, high) == base.wrapped(wide, high),
        -wide <= base.pos.x <= 2 * wide && -high <= base.pos.y ==> base.wrapped(wide, high).inside(
            wide,
            high,
        ),
{
}

/// The order of a step: where an actor is after its update is where its
/// limited velocity has carried it, wrapped. The velocity that counts is
/// the one after the speed limit `cap` of the actor's class, which the
/// actor then keeps, and the wrap comes last.
pub proof fn lemma_step_order(base: BaseActor, cap: u32, world_coords: (u32, u32), dt: u32)
    requires
        base.pos.in_reach(),
    ensures
        base.stepped(cap, world_coords, dt).velocity == limited(base.velocity, cap),
        base.stepped(cap, world_coords, dt).velocity.norm_sq() <= cap * cap,
        base.stepped(cap, world_coords, dt).pos.x == wrap_x(
            base.pos.x + div_trunc(limited(base.velocity, cap).x * dt, 1_000_000),
            world_coords.0 * 1000,
        ),
        base.stepped(cap, world_coords, dt).pos.y == wrap_y(
            base.pos.y + div_trunc(limited(base.velocity, cap).y * dt, 1_000_000),
            world_coords.1 * 1000,
        ),
        base.stepped(cap, world_coords, dt).facing == turned(base.facing, base.rvel),
{
    lemma_moved_in_reach(base, cap, dt);
    lemma_limited_within(base.velocity, cap);
}

/// A step takes an actor no farther beyond a bound that holds the world than
/// the speed limit lets it travel in the longest time that can be given.
pub proof fn lemma_step_near(
    base: BaseActor,
    cap: u32,
    world_coords: (u32, u32),
    dt: u32,
    bound: int,
)
    requires
        base.pos.within(bound),
        world_coords.0 * 1000 <= bound <= REACH,
        world_coords.1 * 1000 <= bound <= REACH,
    ensures
        base.stepped(cap, world_coords, dt).pos.within(bound + cap * 4295),
{
    lemma_step_order(base, cap, world_coords, dt);
    lemma_limited_within(base.velocity, cap);
    lemma_travel_fits(limited(base.velocity, cap), cap, dt);
}

/// A step keeps an actor within any bound that holds the world, and keeps
/// an actor inside the world that was inside it, provided that in `dt`
/// microseconds nothing of its class travels farther than the world is
/// wide and tall.
pub proof fn lemma_step_stays(
    base: BaseActor,
    cap: u32,
    world_coords: (u32, u32),
    dt: u32,
    bound: int,
)
    requires
        base.pos.within(bound),
        world_coords.0 * 1000 <= bound <= REACH,
        world_coords.1 * 1000 <= bound <= REACH,
        cap * dt <= world_coords.0 * 1000 * 1_000_000,
        cap * dt <= world_coords.1 * 1000 * 1_000_000,
    ensures
        base.stepped(cap, world_coords, dt).pos.within(bound),
        base.inside(world_coords.0 * 1000, world_coords.1 * 1000) ==> base.stepped(
            cap,
            world_coords,
            dt,
        ).inside(world_coords.0 * 1000, world_coords.1 * 1000),
{
    lemma_step_order(base, cap, world_coords, dt);
    let v = limited(base.velocity, cap);
    let wide = world_coords.0 * 1000;
    let high = world_coords.1 * 1000;
    let x = v.x as int;
    let y = v.y as int;
    let m = cap as int;
    assert(magnitude(x) <= m && magnitude(y) <= m) by (nonlinear_arith)
        requires
            x * x + y * y <= m * m,
            m >= 0,
    ;
    assert(magnitude(x * dt) <= m * dt && magnitude(y * dt) <= m * dt) by (nonlinear_arith)
        requires
            magnitude(x) <= m,
            magnitude(y) <= m,
            0 <= dt,
    ;
    lemma_div_trunc_within(x * dt, 1_000_000, wide);
    lemma_div_trunc_within(y * dt, 1_000_000, high);
}

/// An actor that does something each tick.
pub trait Updatable: Actor {
    /// Lets `dt` microseconds pass for the actor in a world of
    /// `world_coords` pixels. Whatever the actor does, it is no faster
    /// afterwards than its class may be. Unless it has more to do, this is
    /// one step of the simulation: move under the speed limit of the class,
    /// then wrap.
    fn update(&mut self, world_coords: (u32, u32), dt: u32)
        requires
            old(self).base().pos.in_reach(),
        ensures
            final(self).base().velocity.norm_sq() <= Self::speed_cap() * Self::speed_cap(),
        default_ensures
            *final(self) == old(self).with_base(
                old(self).base().stepped(Self::speed_cap(), world_coords, dt),
            ),
    {
        update_actor_position(self, dt);
        proof {
            lemma_step_order(old(self).base(), Self::speed_cap(), world_coords, dt);
            old(self).lemma_with_base(
                old(self).base().stepped(Self::speed_cap(), world_coords, dt),
                old(self).base().stepped(Self::speed_cap(), world_coords, dt),
            );
            lemma_moved_in_reach(old(self).base(), Self::speed_cap(), dt);
            old(self).lemma_with_base(
                old(self).base().moved(Self::speed_cap(), dt),
                old(self).base().moved(Self::speed_cap(), dt),
            );
        }
        wrap_actor_position(self, (world_coords.0 as i64) * 1000, (world_coords.1 as i64) * 1000);
        proof {
            old(self).lemma_with_base(
                old(self).base().moved(Self::speed_cap(), dt),
                old(self).base().stepped(Self::speed_cap(), world_coords, dt),
            );
        }
    }
}

/// An actor in reach is still within twice the reach after it has moved.
pub proof fn lemma_moved_in_reach(base: BaseActor, cap: u32, dt: u32)
    requires
        base.pos.in_reach(),
    ensures
        limited(base.velocity, cap).scale_fits(dt as int, 1_000_000),
        base.pos.sum_fits(limited(base.velocity, cap).scale(dt as int, 1_000_000)),
        base.moved(cap, dt).pos.within(2 * REACH),
        base.moved(cap, dt).pos.x == base.pos.x + div_trunc(
            limited(base.velocity, cap).x * dt,
            1_000_000,
        ),
        base.moved(cap, dt).pos.y == base.pos.y + div_trunc(
            limited(base.velocity, cap).y * dt,
            1_000_000,
        ),
{
    lemma_limited_within(base.velocity, cap);
    lemma_travel_fits(limited(base.velocity, cap), cap, dt);
}

/// An actor that answers the controls.
pub trait Inputable: Actor {
    /// Lets the actor answer `input` for `dt` microseconds.
    fn handle_input(&mut self, input: &InputState, dt: u32)
        requires
            old(self).base().velocity.in_reach(),
    ;
}

/// An actor that can collide with others.
pub trait Collidable: Actor {
    /// What the actor shows to the collision world: its identifier and its
    /// velocity, and that it has hit nothing.
    fn collision_data(&self) -> (data: CollisionData)
        ensures
            data == (CollisionData {
                id: self.base().physics_id,
                velocity: Some(self.base().velocity),
                hit: None,
            }),
    {
        CollisionData::new(self.physics_id(), Some(self.velocity()))
    }

    /// What a collision with `other` does to this actor: it dies.
    fn handle_collision<T: Actor>(&mut self, other: &T)
        ensures
            *final(self) == old(self).with_base(BaseActor { alive: false, ..old(self).base() }),
    {
        self.kill();
    }
}

/// Two actors collide: both are alive and their discs overlap.
pub open spec fn collides(first: BaseActor, second: BaseActor) -> bool {
    &&& first.alive
    &&& second.alive
    &&& discs_overlap(first.pos, first.bbox_size, second.pos, second.bbox_size)
}

/// Lets `first` and `second` collide if they touch: if both are alive and
/// their discs overlap, each is told of the collision and the result is
/// `true`. The dead collide with nothing.
pub fn check_collision<A: Collidable, B: Collidable>(first: &mut A, second: &mut B) -> (hit: bool)
    ensures
        hit == collides(old(first).base(), old(second).base()),
        hit ==> *final(first) == old(first).with_base(
            BaseActor { alive: false, ..old(first).base() },
        ),
        hit ==> *final(second) == old(second).with_base(
            BaseActor { alive: false, ..old(second).base() },
        ),
        !hit ==> *final(first) == *old(first) && *final(second) == *old(second),
{
    if !first.alive() || !second.alive() {
        return false;
    }
    if overlaps(first.position(), first.bbox_size(), second.position(), second.bbox_size()) {
        first.handle_collision(second);
        second.handle_collision(first);
        true
    } else {
        false
    }
}

} // verus!
