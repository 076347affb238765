//! The attributes an entity may carry, and the entity record itself.

use vstd::prelude::*;

verus! {

/// Steps per whole unit of every fixed-point attribute value.
pub const UNIT: i64 = 1_000_000;

/// One full turn, 360 degrees, in steps.
pub const TURN: i64 = 360_000_000;

/// Half-width of the scale perturbation, half a unit: a sample lies in
/// `[-SCALE_JITTER, SCALE_JITTER)`.
pub const SCALE_JITTER: i64 = 500_000;

/// Half-width of the perturbation of each coordinate, five units.
pub const POSITION_JITTER: i64 = 5_000_000;

/// Identifier of an entity, unique within a run.
#[derive(Clone, Copy, Debug, PartialEq, Eq, Structural)]
pub struct Id(pub usize);

/// Identifier of the entity's parent.
#[derive(Clone, Copy, Debug, PartialEq, Eq, Structural)]
pub struct Parent(pub usize);

/// Coordinates, in steps.
#[derive(Clone, Copy, Debug, PartialEq, Eq, Structural)]
pub struct Position {
    pub x: i64,
    pub y: i64,
}

/// Magnitude, in steps.
#[derive(Clone, Copy, Debug, PartialEq, Eq, Structural)]
pub struct Scale(pub i64);

/// Angle in degrees, in steps.
#[derive(Clone, Copy, Debug, PartialEq, Eq, Structural)]
pub struct Rotation(pub i64);

/// Change of the angle per tick, in steps.
#[derive(Clone, Copy, Debug, PartialEq, Eq, Structural)]
pub struct RotationalVelocity(pub i64);

/// A choice of attribute types.
#[derive(Clone, Copy, Debug, PartialEq, Eq, Structural)]
pub struct Signature {
    pub id: bool,
    pub parent: bool,
    pub position: bool,
    pub scale: bool,
    pub rotation: bool,
    pub velocity: bool,
}

/// An entity: whichever attributes it was created with.
#[derive(Clone, Copy, Debug, PartialEq, Eq)]
pub struct Entity {
    pub id: Option<Id>,
    pub parent: Option<Parent>,
    pub position: Option<Position>,
    pub scale: Option<Scale>,
    pub rotation: Option<Rotation>,
    pub velocity: Option<RotationalVelocity>,
}

impl Entity {
    /// The entity carries every attribute type that `want` names.
    pub open spec fn has_all(self, want: Signature) -> bool {
        &&& want.id ==> self.id is Some
        &&& want.parent ==> self.parent is Some
        &&& want.position ==> self.position is Some
        &&& want.scale ==> self.scale is Some
        &&& want.rotation ==> self.rotation is Some
        &&& want.velocity ==> self.velocity is Some
    }

    /// The scale, if there is one, stays a 64-bit value through `ticks` scale
    /// passes, whatever is sampled.
    pub open spec fn scale_room(self, ticks: int) -> bool {
        self.scale is Some ==> {
            &&& i64::MIN <= self.scale.unwrap().0 - ticks * SCALE_JITTER
            &&& self.scale.unwrap().0 + ticks * (SCALE_JITTER - 1) <= i64::MAX
        }
    }

    /// Each coordinate, if there are any, stays a 64-bit value through `ticks`
    /// position passes, whatever is sampled.
    pub open spec fn position_room(self, ticks: int) -> bool {
        self.position is Some ==> {
            &&& i64::MIN <= self.position.unwrap().x - ticks * POSITION_JITTER
            &&& self.position.unwrap().x + ticks * (POSITION_JITTER - 1) <= i64::MAX
            &&& i64::MIN <= self.position.unwrap().y - ticks * POSITION_JITTER
            &&& self.position.unwrap().y + ticks * (POSITION_JITTER - 1) <= i64::MAX
        }
    }

    /// An entity without attributes.
    pub fn bare() -> (e: Entity)
        ensures
            e == (Entity {
                id: None,
                parent: None,
                position: None,
                scale: None,
                rotation: None,
                velocity: None,
            }),
    {
        Entity { id: None, parent: None, position: None, scale: None, rotation: None, velocity: None }
    }

    /// Whether the entity carries every attribute type that `want` names.
    pub fn carries(&self, want: Signature) -> (r: bool)
        ensures
            r == self.has_all(want),
    {
        (!want.id || self.id.is_some()) && (!want.parent || self.parent.is_some()) && (
        !want.position || self.position.is_some()) && (!want.scale || self.scale.is_some()) && (
        !want.rotation || self.rotation.is_some()) && (!want.velocity
            || self.velocity.is_some())
    }

    /// Whether the scale has room for `ticks` scale passes.
    pub fn has_scale_room(&self, ticks: u32) -> (r: bool)
        ensures
            r == self.scale_room(ticks as int),
    {
        match self.scale {
            Some(s) => stays_in_range(s.0, ticks, SCALE_JITTER),
            None => true,
        }
    }

    /// Whether the coordinates have room for `ticks` position passes.
    pub fn has_position_room(&self, ticks: u32) -> (r: bool)
        ensures
            r == self.position_room(ticks as int),
    {
        match self.position {
            Some(p) => stays_in_range(p.x, ticks, POSITION_JITTER) && stays_in_range(
                p.y,
                ticks,
                POSITION_JITTER,
            ),
            None => true,
        }
    }
}

/// Whether `value` stays a 64-bit value through `ticks` additions of amounts
/// in `[-jitter, jitter)`.
pub fn stays_in_range(value: i64, ticks: u32, jitter: i64) -> (r: bool)
    requires
        0 < jitter <= POSITION_JITTER,
    ensures
        r == (i64::MIN <= value - ticks * jitter && value + ticks * (jitter - 1) <= i64::MAX),
{
    let count: i128 = ticks as i128;
    let reach: i128 = jitter as i128;
    assert(0 <= count * reach <= 4294967295 * 5_000_000 && 0 <= count * (reach - 1) <= 4294967295
        * 5_000_000) by (nonlinear_arith)
        requires
            0 <= count <= 4294967295,
            0 < reach <= 5_000_000,
    ;
    let down: i128 = count * reach;
    let up: i128 = count * (reach - 1);
    let wide: i128 = value as i128;
    wide - down >= i64::MIN as i128 && wide + up <= i64::MAX as i128
}

} // verus!
