//! What a structure is made of: materials, shapes, target kinds, and the
//! physical body each of them gets.

use vstd::prelude::*;
use crate::units::Point;

verus! {

/// What a piece is made of. An invisible support has a body and no picture; it
/// only props up the pieces around it.
#[derive(Clone, Copy, Debug, PartialEq, Eq, Structural)]
pub enum Material {
    Wood,
    Steel,
    Invisible,
}

#[derive(Clone, Copy, Debug, PartialEq, Eq, Structural)]
pub enum Shape {
    SquareLarge,
    SquareMedium,
    SquareSmall,
    LongBeam,
    ShortBeam,
    Triangle,
}

/// A piece lies as its shape is drawn, or stands on end, turned a quarter
/// counter-clockwise.
#[derive(Clone, Copy, Debug, PartialEq, Eq, Structural)]
pub enum Rotation {
    Level,
    Upright,
}

#[derive(Clone, Copy, Debug, PartialEq, Eq, Structural)]
pub enum TargetKind {
    King,
    Normal,
    RedBird,
    BombBird,
    TriangleBird,
    EggBird,
    BlueBird,
}

/// How the physics engine moves a body: not at all, only as it is told, or
/// under gravity and contact.
#[derive(Clone, Copy, Debug, PartialEq, Eq, Structural)]
pub enum BodyMode {
    Static,
    Kinematic,
    Dynamic,
}

/// Collision geometry, centred on the body, in fixed-point steps.
#[derive(Clone, Copy, Debug, PartialEq, Eq, Structural)]
pub enum Collider {
    Circle { radius: i32 },
    Rectangle { width: i32, height: i32 },
    Triangle { a: Point, b: Point, c: Point },
    Capsule { radius: i32, length: i32 },
}

pub const LONG_BEAM_LENGTH: i32 = 167_000;

pub const LONG_BEAM_THICKNESS: i32 = 20_000;

pub const SHORT_BEAM_LENGTH: i32 = 83_000;

pub const SHORT_BEAM_THICKNESS: i32 = 41_000;

pub const LARGE_SQUARE_SIDE: i32 = 82_000;

/// An isosceles triangle with its apex up: `half` to either side of the centre
/// and above and below it.
pub open spec fn wedge(half: int) -> Collider {
    Collider::Triangle {
        a: Point { x: 0, y: half as i32 },
        b: Point { x: (-half) as i32, y: (-half) as i32 },
        c: Point { x: half as i32, y: (-half) as i32 },
    }
}

/// The geometry of each shape.
pub open spec fn collider_of_shape(shape: Shape) -> Collider {
    match shape {
        Shape::SquareLarge => Collider::Rectangle { width: 82_000, height: 82_000 },
        Shape::SquareMedium => Collider::Rectangle { width: 41_000, height: 41_000 },
        Shape::SquareSmall => Collider::Rectangle { width: 20_000, height: 20_000 },
        Shape::LongBeam => Collider::Rectangle { width: 167_000, height: 20_000 },
        Shape::ShortBeam => Collider::Rectangle { width: 83_000, height: 41_000 },
        Shape::Triangle => wedge(41_000),
    }
}

/// The geometry of each kind of target.
pub open spec fn collider_of_target(kind: TargetKind) -> Collider {
    match kind {
        TargetKind::King => Collider::Circle { radius: 70_000 },
        TargetKind::Normal => Collider::Circle { radius: 23_000 },
        TargetKind::RedBird => Collider::Circle { radius: 22_000 },
        TargetKind::BombBird => Collider::Circle { radius: 42_000 },
        TargetKind::TriangleBird => wedge(39_000),
        TargetKind::EggBird => Collider::Capsule { radius: 40_000, length: 60_000 },
        TargetKind::BlueBird => Collider::Circle { radius: 22_000 },
    }
}

/// An invisible support is fixed in place; every other piece falls.
pub open spec fn body_of_material(material: Material) -> BodyMode {
    if material == Material::Invisible {
        BodyMode::Static
    } else {
        BodyMode::Dynamic
    }
}

fn wedge_collider(half: i32) -> (c: Collider)
    requires
        0 <= half <= 1_000_000,
    ensures
        c == wedge(half as int),
{
    Collider::Triangle {
        a: Point { x: 0, y: half },
        b: Point { x: -half, y: -half },
        c: Point { x: half, y: -half },
    }
}

impl Shape {
    pub fn collider(&self) -> (c: Collider)
        ensures
            c == collider_of_shape(*self),
    {
        match self {
            Shape::SquareLarge => Collider::Rectangle {
                width: LARGE_SQUARE_SIDE,
                height: LARGE_SQUARE_SIDE,
            },
            Shape::SquareMedium => Collider::Rectangle { width: 41_000, height: 41_000 },
            Shape::SquareSmall => Collider::Rectangle { width: 20_000, height: 20_000 },
            Shape::LongBeam => Collider::Rectangle {
                width: LONG_BEAM_LENGTH,
                height: LONG_BEAM_THICKNESS,
            },
            Shape::ShortBeam => Collider::Rectangle {
                width: SHORT_BEAM_LENGTH,
                height: SHORT_BEAM_THICKNESS,
            },
            Shape::Triangle => wedge_collider(41_000),
        }
    }
}

impl TargetKind {
    pub fn collider(&self) -> (c: Collider)
        ensures
            c == collider_of_target(*self),
    {
        match self {
            TargetKind::King => Collider::Circle { radius: 70_000 },
            TargetKind::Normal => Collider::Circle { radius: 23_000 },
            TargetKind::RedBird => Collider::Circle { radius: 22_000 },
            TargetKind::BombBird => Collider::Circle { radius: 42_000 },
            TargetKind::TriangleBird => wedge_collider(39_000),
            TargetKind::EggBird => Collider::Capsule { radius: 40_000, length: 60_000 },
            TargetKind::BlueBird => Collider::Circle { radius: 22_000 },
        }
    }
}

impl TargetKind {
    /// Every target falls and can be flung, whatever its kind.
    pub fn body_mode(&self) -> (mode: BodyMode)
        ensures
            mode == BodyMode::Dynamic,
    {
        BodyMode::Dynamic
    }
}

impl Material {
    pub fn body_mode(&self) -> (mode: BodyMode)
        ensures
            mode == body_of_material(*self),
    {
        match self {
            Material::Invisible => BodyMode::Static,
            _ => BodyMode::Dynamic,
        }
    }
}

} // verus!
