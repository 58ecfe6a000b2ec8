//! The identifiers under which the game's actors and sounds are known.
//!
//! Images, fonts and sounds themselves are loaded and kept by the front end;
//! what the simulation needs of them is an identifier for each sound to be
//! played and a fresh identifier for each actor that enters the world.

use crate::physics::PhysicsId;
use vstd::prelude::*;

verus! {

/// The place of a sound in the front end's list of sounds.
pub type SoundId = usize;

/// What the simulation reads of a thing that can be drawn: its extent in
/// whole pixels.
pub trait Asset {
    /// The extent as contracts see it: width first, height second.
    spec fn extent(&self) -> (u32, u32);

    fn width(&self) -> (w: u32)
        ensures
            w == self.extent().0,
    ;

    fn height(&self) -> (h: u32)
        ensures
            h == self.extent().1,
    ;

    /// Half the width, in thousandths of a pixel.
    fn half_width(&self) -> (half: i64)
        ensures
            half == self.extent().0 * 500,
    {
        (self.width() as i64) * 500
    }

    /// Half the height, in thousandths of a pixel.
    fn half_height(&self) -> (half: i64)
        ensures
            half == self.extent().1 * 500,
    {
        (self.height() as i64) * 500
    }

    /// Whether the thing keeps its place on the screen when the view moves.
    fn is_static(&self) -> (fixed: bool)
        default_ensures
            !fixed,
    {
        false
    }
}

/// The picture of an actor, of which the simulation keeps the extent.
#[derive(Clone, Copy, Debug, PartialEq, Eq, Structural)]
pub struct Sprite {
    pub width: u32,
    pub height: u32,
}

impl Asset for Sprite {
    open spec fn extent(&self) -> (u32, u32) {
        (self.width, self.height)
    }

    fn width(&self) -> (w: u32) {
        self.width
    }

    fn height(&self) -> (h: u32) {
        self.height
    }
}

/// Hands out the identifiers of actors, each one once.
pub struct AssetManager {
    id_gen: usize,
}

impl AssetManager {
    /// The identifier handed out last, 0 before the first.
    pub closed spec fn issued(&self) -> usize {
        self.id_gen
    }

    pub fn new() -> (manager: AssetManager)
        ensures
            manager.issued() == 0,
    {
        AssetManager { id_gen: 0 }
    }

    /// The sprite of a picture that is `width` pixels wide and `height`
    /// pixels high.
    pub fn make_sprite(&self, width: u32, height: u32) -> (sprite: Sprite)
        ensures
            sprite == (Sprite { width, height }),
    {
        Sprite { width, height }
    }

    /// The identifier handed out last, 0 before the first.
    pub fn last_physics_id(&self) -> (id: PhysicsId)
        ensures
            id == self.issued(),
    {
        self.id_gen
    }

    /// The next identifier: one more than the last, so that no two actors
    /// share one and none is 0.
    pub fn next_physics_id(&mut self) -> (id: PhysicsId)
        requires
            old(self).issued() < usize::MAX,
        ensures
            id == old(self).issued() + 1,
            final(self).issued() == id,
    {
        self.id_gen += 1;
        self.id_gen
    }
}

} // verus!
