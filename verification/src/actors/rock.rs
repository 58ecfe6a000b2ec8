//! Rocks: they drift, and are made in batches round a point that is kept
//! clear.

use crate::actors::{Actor, BaseActor, Collidable, Updatable};
use crate::assets::{Asset, AssetManager, Sprite};
use crate::fixed::{lemma_square_monotonic, REACH, UNIT};
use crate::physics::PhysicsId;
use crate::util::{
    drawn_angle, drawn_length, drawn_vec, heading, lemma_clamp_keeps_direction,
    lemma_heading_unit, lemma_rescaled_fits, lemma_stretched_length, length_from_draw,
    limit_velocity, limited, random_vec, random_word, slack, vec_from_angle, Point2, Vector2,
};
use vstd::prelude::*;

verus! {

/// The speed no rock exceeds, in thousandths of a pixel per second. Rocks
/// start out no faster, and are held to it whenever they move.
pub const MAX_ROCK_VEL: u32 = 50_000;

/// The radius within which a rock collides.
pub const ROCK_BBOX: u32 = 12_000;

/// A rock. It has no state beyond what every actor has.
#[derive(Clone, Copy, Debug, PartialEq, Eq, Structural)]
pub struct Rock {
    pub base: BaseActor,
}

impl Actor for Rock {
    open spec fn base(&self) -> BaseActor {
        self.base
    }

    open spec fn with_base(&self, base: BaseActor) -> Rock {
        Rock { base }
    }

    proof fn lemma_with_base(&self, first: BaseActor, second: BaseActor) {
    }

    open spec fn speed_cap() -> u32 {
        MAX_ROCK_VEL
    }

    fn max_speed(&self) -> (cap: u32) {
        MAX_ROCK_VEL
    }

    fn alive(&self) -> (alive: bool) {
        self.base.alive
    }

    fn kill(&mut self) {
        self.base.alive = false;
    }

    fn width(&self) -> (w: u32) {
        self.base.asset.width()
    }

    fn height(&self) -> (h: u32) {
        self.base.asset.height()
    }

    fn half_width(&self) -> (half: i64) {
        self.base.asset.half_width()
    }

    fn half_height(&self) -> (half: i64) {
        self.base.asset.half_height()
    }

    fn center(&self) -> (p: Point2) {
        self.base.pos
    }

    fn position(&self) -> (p: Point2) {
        self.base.pos
    }

    fn set_position(&mut self, pos: Point2) {
        self.base.pos = pos;
    }

    fn add_position(&mut self, pos: Point2) {
        self.base.pos = self.base.pos.plus(pos);
    }

    fn x(&self) -> (x: i64) {
        self.base.pos.x
    }

    fn y(&self) -> (y: i64) {
        self.base.pos.y
    }

    fn set_x(&mut self, x: i64) {
        self.base.pos.x = x;
    }

    fn set_y(&mut self, y: i64) {
        self.base.pos.y = y;
    }

    fn velocity(&self) -> (v: Vector2) {
        self.base.velocity
    }

    fn set_velocity_xy(&mut self, x: i64, y: i64) {
        self.base.velocity = Vector2::new(x, y);
    }

    fn set_velocity(&mut self, vel: Vector2) {
        self.base.velocity = vel;
    }

    fn facing(&self) -> (angle: u16) {
        self.base.facing
    }

    fn set_facing(&mut self, facing: u16) {
        self.base.facing = facing;
    }

    fn bbox_size(&self) -> (radius: u32) {
        self.base.bbox_size
    }

    fn rvel(&self) -> (spin: u16) {
        self.base.rvel
    }

    fn physics_id(&self) -> (id: PhysicsId) {
        self.base.physics_id
    }
}

impl Collidable for Rock {
}

impl Updatable for Rock {
}

/// A new rock with the picture `sprite`: at the origin, at rest, facing
/// along +Y, alive, with the next identifier.
pub fn create_rock(asset_manager: &mut AssetManager, sprite: Sprite) -> (rock: Rock)
    requires
        old(asset_manager).issued() < usize::MAX,
    ensures
        final(asset_manager).issued() == old(asset_manager).issued() + 1,
        rock == fresh_rock(sprite, final(asset_manager).issued()),
{
    Rock {
        base: BaseActor {
            asset: sprite,
            pos: Vector2::zero(),
            facing: 0,
            velocity: Vector2::new(0, 0),
            bbox_size: ROCK_BBOX,
            rvel: 0,
            alive: true,
            physics_id: asset_manager.next_physics_id(),
        },
    }
}

/// The rock that `create_rock` makes under the identifier `id`.
pub open spec fn fresh_rock(sprite: Sprite, id: PhysicsId) -> Rock {
    Rock {
        base: BaseActor {
            asset: sprite,
            pos: Vector2 { x: 0, y: 0 },
            facing: 0,
            velocity: Vector2 { x: 0, y: 0 },
            bbox_size: ROCK_BBOX,
            rvel: 0,
            alive: true,
            physics_id: id,
        },
    }
}

/// The distance that a random word stands for: from `min_radius` up to,
/// and not including, `max_radius`.
pub open spec fn drawn_distance(draw: u32, min_radius: u32, max_radius: u32) -> int {
    min_radius + drawn_length(draw, (max_radius - min_radius) as u32)
}

/// The length to which a heading is stretched so that rounding cannot leave
/// it shorter than `distance`: a little over a thousandth more.
pub open spec fn padded(distance: int) -> int {
    distance + distance / 999 + 5
}

/// The way from the exclusion point to a rock that was dealt `angle_draw`
/// and `distance_draw`: the heading of the drawn angle, stretched to no less
/// than the drawn distance, and held to `max_radius` wherever the ring is
/// thick enough for that not to bring it below `min_radius`.
pub open spec fn spawn_offset(
    min_radius: u32,
    max_radius: u32,
    angle_draw: u32,
    distance_draw: u32,
) -> Vector2 {
    let far = heading(drawn_angle(angle_draw)).scale(
        padded(drawn_distance(distance_draw, min_radius, max_radius)),
        1000,
    );
    if max_radius - min_radius >= 3 {
        limited(far, max_radius)
    } else {
        far
    }
}

/// Where a rock is put that was dealt `angle_draw` and `distance_draw`.
pub open spec fn spawn_point(
    exclusion: Point2,
    min_radius: u32,
    max_radius: u32,
    angle_draw: u32,
    distance_draw: u32,
) -> Point2 {
    exclusion.sum(spawn_offset(min_radius, max_radius, angle_draw, distance_draw))
}

/// The vector leads into the ring between the radii `min_radius` and
/// `max_radius`: it is no shorter than the one, and no longer than the
/// other. Only where the ring is less than three units thick may it end
/// beyond the ring, by the allowance for rounding.
pub open spec fn leads_into_ring(offset: Vector2, min_radius: u32, max_radius: u32) -> bool {
    let outer = padded(max_radius as int) + slack(padded(max_radius as int));
    &&& offset.norm_sq() >= min_radius * min_radius
    &&& max_radius - min_radius >= 3 ==> offset.norm_sq() <= max_radius * max_radius
    &&& offset.norm_sq() <= outer * outer
}

/// `point` lies in the ring round `centre` between the radii `min_radius`
/// and `max_radius`: no nearer than the one, and no farther than the other.
/// Only where the ring is less than three units thick may it lie beyond the
/// ring, by the allowance for rounding.
pub open spec fn in_ring(point: Point2, centre: Point2, min_radius: u32, max_radius: u32) -> bool {
    let dx = point.x - centre.x;
    let dy = point.y - centre.y;
    let outer = padded(max_radius as int) + slack(padded(max_radius as int));
    &&& dx * dx + dy * dy >= min_radius * min_radius
    &&& max_radius - min_radius >= 3 ==> dx * dx + dy * dy <= max_radius * max_radius
    &&& dx * dx + dy * dy <= outer * outer
}

/// `rock` is a rock that `create_rocks` may make under the identifier `id`:
/// a fresh rock, put where some two random words say, with the velocity
/// that some other two stand for.
pub open spec fn is_spawn(
    rock: Rock,
    sprite: Sprite,
    id: PhysicsId,
    exclusion: Point2,
    min_radius: u32,
    max_radius: u32,
) -> bool {
    exists|angle_draw: u32, distance_draw: u32, course_draw: u32, speed_draw: u32|
        rock == (Rock {
            base: BaseActor {
                pos: #[trigger] spawn_point(
                    exclusion,
                    min_radius,
                    max_radius,
                    angle_draw,
                    distance_draw,
                ),
                velocity: #[trigger] drawn_vec(course_draw, speed_draw, MAX_ROCK_VEL),
                ..fresh_rock(sprite, id).base
            },
        })
}

/// Puts `rock` where the two random words say, round `exclusion`, and gives
/// it `velocity`. The rock is no nearer to `exclusion` than `min_radius`.
pub fn place_rock(
    rock: &mut Rock,
    exclusion: Point2,
    min_radius: u32,
    max_radius: u32,
    angle_draw: u32,
    distance_draw: u32,
    velocity: Vector2,
)
    requires
        max_radius > min_radius,
        exclusion.in_reach(),
    ensures
        *final(rock) == (Rock {
            base: BaseActor {
                pos: spawn_point(exclusion, min_radius, max_radius, angle_draw, distance_draw),
                velocity,
                ..old(rock).base
            },
        }),
        in_ring(final(rock).base.pos, exclusion, min_radius, max_radius),
        final(rock).base.pos.within(REACH + 0x2_0000_0000),
{
    let r_angle: u16 = (angle_draw / 65536) as u16;
    let r_distance: u32 = min_radius + length_from_draw(distance_draw, max_radius - min_radius);
    let reach: u64 = (r_distance as u64) + (r_distance as u64) / 999 + 5;
    let direction = vec_from_angle(r_angle);
    proof {
        lemma_heading_unit(r_angle);
        lemma_stretched_length(direction, reach as int);
    }
    let far = direction.scaled(reach as i64, UNIT);
    let offset = if max_radius - min_radius >= 3 {
        limit_velocity(far, max_radius)
    } else {
        far
    };
    proof {
        lemma_ring_holds(far, r_distance as int, min_radius, max_radius);
        if far.norm_sq() > max_radius * max_radius {
            lemma_rescaled_fits(far, max_radius);
        }
    }
    rock.set_position(exclusion.plus(offset));
    rock.set_velocity(velocity);
}

/// A heading stretched to the padded length of a distance between the two
/// radii, and held to the outer radius where the ring is thick enough,
/// leads into the ring.
pub proof fn lemma_ring_holds(far: Vector2, distance: int, min_radius: u32, max_radius: u32)
    requires
        min_radius <= distance <= max_radius,
        far.length_near(padded(distance)),
    ensures
        max_radius - min_radius >= 3 ==> leads_into_ring(
            limited(far, max_radius),
            min_radius,
            max_radius,
        ),
        max_radius - min_radius < 3 ==> leads_into_ring(far, min_radius, max_radius),
{
    let reach = padded(distance);
    let outer = padded(max_radius as int) + slack(padded(max_radius as int));
    lemma_square_monotonic(min_radius as int, distance);
    lemma_square_monotonic(distance, reach - slack(reach));
    lemma_square_monotonic(reach + slack(reach), outer);
    lemma_square_monotonic(max_radius as int, outer);
    if far.norm_sq() > max_radius * max_radius {
        lemma_clamp_keeps_direction(far, max_radius);
        if max_radius - min_radius >= 3 {
            lemma_square_monotonic(min_radius as int, max_radius - 3);
        }
    }
}

/// Makes `num` rocks round `exclusion`, none if `num` is negative. Each is
/// put in a random direction from `exclusion`, every angle being equally
/// likely, at a random distance from `min_radius` up to `max_radius`, and
/// drifts in a random direction at a random speed of at most `MAX_ROCK_VEL`.
/// The rocks may lie outside the world: they are to be wrapped before they
/// are shown.
pub fn create_rocks(
    asset_manager: &mut AssetManager,
    sprite: Sprite,
    num: i32,
    exclusion: Point2,
    min_radius: u32,
    max_radius: u32,
) -> (rocks: Vec<Rock>)
    requires
        max_radius > min_radius,
        exclusion.in_reach(),
        old(asset_manager).issued() + num <= usize::MAX,
    ensures
        rocks.len() == (if num > 0 {
            num as int
        } else {
            0
        }),
        final(asset_manager).issued() == old(asset_manager).issued() + rocks.len(),
        forall|i: int|
            0 <= i < rocks.len() ==> is_spawn(
                #[trigger] rocks[i],
                sprite,
                (old(asset_manager).issued() + 1 + i) as usize,
                exclusion,
                min_radius,
                max_radius,
            ),
        forall|i: int|
            0 <= i < rocks.len() ==> in_ring(
                (#[trigger] rocks[i]).base.pos,
                exclusion,
                min_radius,
                max_radius,
            ),
        forall|i: int|
            0 <= i < rocks.len() ==> (#[trigger] rocks[i]).base.velocity.norm_sq() <= MAX_ROCK_VEL
                * MAX_ROCK_VEL,
{
    let mut rocks: Vec<Rock> = Vec::new();
    let mut made: i32 = 0;
    while made < num
        invariant
            max_radius > min_radius,
            exclusion.in_reach(),
            old(asset_manager).issued() + num <= usize::MAX,
            0 <= made,
            made <= num || made == 0,
            rocks.len() == made,
            asset_manager.issued() == old(asset_manager).issued() + made,
            forall|i: int|
                0 <= i < rocks.len() ==> is_spawn(
                    #[trigger] rocks[i],
                    sprite,
                    (old(asset_manager).issued() + 1 + i) as usize,
                    exclusion,
                    min_radius,
                    max_radius,
                ),
            forall|i: int|
                0 <= i < rocks.len() ==> in_ring(
                    (#[trigger] rocks[i]).base.pos,
                    exclusion,
                    min_radius,
                    max_radius,
                ),
            forall|i: int|
                0 <= i < rocks.len() ==> (#[trigger] rocks[i]).base.velocity.norm_sq()
                    <= MAX_ROCK_VEL * MAX_ROCK_VEL,
        decreases num - made,
    {
        let mut rock = create_rock(asset_manager, sprite);
        let angle_draw: u32 = random_word();
        let distance_draw: u32 = random_word();
        let velocity = random_vec(MAX_ROCK_VEL);
        place_rock(
            &mut rock,
            exclusion,
            min_radius,
            max_radius,
            angle_draw,
            distance_draw,
            velocity,
        );
        proof {
            let id = (old(asset_manager).issued() + 1 + made) as usize;
            let (course_draw, speed_draw) = choose|course_draw: u32, speed_draw: u32|
                velocity == drawn_vec(course_draw, speed_draw, MAX_ROCK_VEL);
            assert(rock == (Rock {
                base: BaseActor {
                    pos: spawn_point(exclusion, min_radius, max_radius, angle_draw, distance_draw),
                    velocity: drawn_vec(course_draw, speed_draw, MAX_ROCK_VEL),
                    ..fresh_rock(sprite, id).base
                },
            }));
            assert(is_spawn(rock, sprite, id, exclusion, min_radius, max_radius));
        }
        rocks.push(rock);
        made += 1;
    }
    rocks
}

} // verus!
