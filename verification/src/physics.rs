//! Collision groups and the data an actor shows to the collision world.

use crate::util::Vector2;
use ncollide2d::pipeline::object::CollisionGroups;
use vstd::prelude::*;

verus! {

/// The identifier of an actor in the collision world.
pub type PhysicsId = usize;

/// The identifier of a collision group.
pub type GroupId = usize;

/// What the collision world is asked about a pair of objects.
pub enum Query {
    Contact,
    Proximity,
}

/// The outline by which an actor takes part in collisions.
pub enum Shape {
    Rect,
    Circle,
}

/// `CollisionGroups` of ncollide2d: three masks of group numbers. The
/// library hands such values on and does not look inside them.
#[verifier::external_type_specification]
#[verifier::external_body]
pub struct ExCollisionGroups(CollisionGroups);

/// The numbers of the groups, from 0 to 29, to which an object with these
/// settings belongs.
pub uninterp spec fn membership(groups: CollisionGroups) -> Set<int>;

/// The numbers of the groups, from 0 to 29, that these settings let an
/// object meet.
pub uninterp spec fn whitelist(groups: CollisionGroups) -> Set<int>;

/// The numbers of the groups, from 0 to 29, that these settings keep an
/// object from meeting.
pub uninterp spec fn blacklist(groups: CollisionGroups) -> Set<int>;

/// The numbers of all groups there can be.
pub open spec fn all_groups() -> Set<int> {
    Set::new(|group: int| 0 <= group < 30)
}

/// The settings restrict nothing: the object belongs to every group, may
/// meet every group, and is kept from none.
pub open spec fn unrestricted(groups: CollisionGroups) -> bool {
    &&& membership(groups) == all_groups()
    &&& whitelist(groups) == all_groups()
    &&& blacklist(groups) == Set::<int>::empty()
}

/// `CollisionGroups::new` of ncollide2d: the settings of an object that is
/// yet to be told which groups it belongs to and meets. The contract says
/// what the three masks of the new value hold: every group in the first
/// two, none in the third.
#[verifier::external_body]
fn fresh_groups() -> (groups: CollisionGroups)
    ensures
        membership(groups) == all_groups(),
        whitelist(groups) == all_groups(),
        blacklist(groups) == Set::<int>::empty(),
{
    CollisionGroups::new()
}

/// `CollisionGroups::set_whitelist` of ncollide2d, which panics on a group
/// number above 29: the whitelist then holds the numbers in `allowed` and
/// no others, and the other two masks are as they were.
#[verifier::external_body]
fn whitelist_only(groups: &mut CollisionGroups, allowed: &[usize])
    requires
        forall|i: int| 0 <= i < allowed@.len() ==> allowed@[i] < 30,
    ensures
        whitelist(*final(groups)) == Set::new(
            |group: int| exists|i: int| 0 <= i < allowed@.len() && allowed@[i] == group,
        ),
        membership(*final(groups)) == membership(*old(groups)),
        blacklist(*final(groups)) == blacklist(*old(groups)),
{
    groups.set_whitelist(allowed)
}

/// The settings of one collision group, under the group's identifier. A
/// group is taken to have a single member.
pub struct CollisionGroup {
    pub groups: CollisionGroups,
    pub id: GroupId,
}

impl CollisionGroup {
    /// The group `id`, with settings that restrict nothing yet.
    pub fn new(id: GroupId) -> (group: CollisionGroup)
        ensures
            group.id == id,
            unrestricted(group.groups),
    {
        CollisionGroup { groups: fresh_groups(), id }
    }
}

/// The collision groups of a world, numbered from 1 in the order in which
/// they were made.
pub struct CollisionWorld2 {
    groups: Vec<CollisionGroup>,
}

impl CollisionWorld2 {
    /// The groups in the order in which they were made.
    pub closed spec fn groups(&self) -> Seq<CollisionGroup> {
        self.groups@
    }

    /// Each group's identifier is its place in the list, counted from 1.
    pub open spec fn wf(&self) -> bool {
        forall|i: int| 0 <= i < self.groups().len() ==> (#[trigger] self.groups()[i]).id == i + 1
    }

    /// A world without groups.
    pub fn new() -> (world: CollisionWorld2)
        ensures
            world.groups().len() == 0,
            world.wf(),
    {
        CollisionWorld2 { groups: Vec::new() }
    }

    /// How many groups the world has.
    pub fn group_count(&self) -> (n: usize)
        ensures
            n == self.groups().len(),
    {
        self.groups.len()
    }

    /// Makes a group and returns its identifier, which is the number of
    /// groups there now are.
    pub fn make_group(&mut self) -> (id: GroupId)
        requires
            old(self).wf(),
            old(self).groups().len() < usize::MAX,
        ensures
            id == old(self).groups().len() + 1,
            final(self).wf(),
            final(self).groups().len() == id,
            final(self).groups().take(old(self).groups().len() as int) == old(self).groups(),
            final(self).groups()[id - 1].id == id,
            unrestricted(final(self).groups()[id - 1].groups),
    {
        let id: GroupId = self.groups.len() + 1;
        self.groups.push(CollisionGroup::new(id));
        assert(self.groups@.take(old(self).groups@.len() as int) =~= old(self).groups@);
        id
    }

    /// Lets the group `id` meet the groups in `allowed` and no others. This
    /// is done, and the result is `true`, if the world has the group `id`
    /// and every number in `allowed` is one that a group can have, which is
    /// 29 at most; else nothing changes.
    pub fn set_group_whitelist(&mut self, id: GroupId, allowed: &[GroupId]) -> (done: bool)
        requires
            old(self).wf(),
        ensures
            final(self).wf(),
            done == (1 <= id <= old(self).groups().len() && forall|i: int|
                0 <= i < allowed@.len() ==> allowed@[i] < 30),
            !done ==> final(self).groups() == old(self).groups(),
            done ==> final(self).groups().len() == old(self).groups().len(),
            done ==> forall|i: int|
                0 <= i < old(self).groups().len() && i != id - 1 ==> (#[trigger] final(self).groups()[i])
                    == old(self).groups()[i],
            done ==> whitelist(final(self).groups()[id - 1].groups) == Set::new(
                |group: int| exists|i: int| 0 <= i < allowed@.len() && allowed@[i] == group,
            ),
            done ==> membership(final(self).groups()[id - 1].groups) == membership(
                old(self).groups()[id - 1].groups,
            ),
            done ==> blacklist(final(self).groups()[id - 1].groups) == blacklist(
                old(self).groups()[id - 1].groups,
            ),
    {
        if id < 1 || id > self.groups.len() {
            return false;
        }
        let mut i: usize = 0;
        while i < allowed.len()
            invariant
                i <= allowed@.len(),
                self.groups() == old(self).groups(),
                self.wf(),
                forall|k: int| 0 <= k < i ==> allowed@[k] < 30,
            decreases allowed.len() - i,
        {
            if allowed[i] >= 30 {
                return false;
            }
            i += 1;
        }
        let mut groups = self.groups[id - 1].groups;
        whitelist_only(&mut groups, allowed);
        self.groups.set(id - 1, CollisionGroup { groups, id });
        true
    }

    /// The settings of the group `id`, if the world has such a group.
    pub fn get_group(&self, id: GroupId) -> (found: Option<CollisionGroups>)
        requires
            self.wf(),
        ensures
            1 <= id <= self.groups().len() ==> found == Some(self.groups()[id - 1].groups),
            !(1 <= id <= self.groups().len()) ==> found is None,
    {
        let mut i: usize = 0;
        while i < self.groups.len()
            invariant
                self.wf(),
                i <= self.groups().len(),
                forall|j: int| 0 <= j < i ==> (#[trigger] self.groups()[j]).id != id,
            decreases self.groups.len() - i,
        {
            if self.groups[i].id == id {
                return Some(self.groups[i].groups);
            }
            i += 1;
        }
        proof {
            if 1 <= id <= self.groups().len() {
                assert(self.groups()[id - 1].id == id);
            }
        }
        None
    }
}

/// What an actor shows to the collision world: who it is, how fast it
/// moves, if it moves, and whom it has hit, if anyone.
#[derive(Clone, Copy, Debug, PartialEq, Eq, Structural)]
pub struct CollisionData {
    pub id: PhysicsId,
    pub velocity: Option<Vector2>,
    pub hit: Option<PhysicsId>,
}

impl CollisionData {
    /// The data of an actor that has hit nothing yet.
    pub fn new(id: PhysicsId, velocity: Option<Vector2>) -> (data: CollisionData)
        ensures
            data == (CollisionData { id, velocity, hit: None }),
    {
        CollisionData { id, velocity, hit: None }
    }
}

} // verus!
