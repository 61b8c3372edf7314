//! The level: where every piece and every target of the structure stands.
//!
//! The builder places things relative to a handful of named heights and
//! columns, which it works out from the sizes of the pieces that carry them.
//! Its contract gives the outcome as a table of absolute positions.

use vstd::prelude::*;
use crate::pieces::{
    Material, Rotation, Shape, TargetKind, LARGE_SQUARE_SIDE, LONG_BEAM_LENGTH,
    LONG_BEAM_THICKNESS, SHORT_BEAM_LENGTH, SHORT_BEAM_THICKNESS,
};
use crate::units::Point;

verus! {

pub const NOTE_FFMPEG: &'static str =
    "FFMPEG: A video decoding library that powers Spotify, Instagram, Youtube, Tiktok and more.";

pub const NOTE_OPENSSL: &'static str =
    "OpenSSL: Internet traffic encryption for secure communication. Powers banking and e-commerce";

pub const NOTE_LINUX: &'static str =
    "The Linux Kernel. The biggest open source project, with over 40 million lines of code. Powers virtually every server hosting Internet content.";

pub const NOTE_PYTORCH: &'static str =
    "PyTorch: The open-source AI machine learning tool that powers all AI training, including ChatGPT";

pub const NOTE_COMPILERS: &'static str =
    "LLVM & GCC: Open source tools that run code. Every programmer, every programming language likely has had some amount of LLVM or GCC in it.";

pub const NOTE_GIT: &'static str = "Git: The 'Google Docs' of coding";

pub const NOTE_REDIS: &'static str =
    "Redis: The ultra-fast data cache for high-performance websites";

pub const NOTE_POSTGRES: &'static str =
    "PostgreSQL: The database that powers all of our data storage and retrieval";

/// Centre of the ground slab.
pub const GROUND_X: i32 = 0;

pub const GROUND_Y: i32 = -300_000;

pub const GROUND_WIDTH: i32 = 1_000_000;

pub const GROUND_HEIGHT: i32 = 50_000;

/// Where the slingshot stands.
pub const ANCHOR_X: i32 = -300_000;

pub const ANCHOR_Y: i32 = -220_000;

/// How far above the anchor a projectile rests before it is drawn back.
pub const REST_HEIGHT: i32 = 100_000;

/// One piece of a structure, before it exists: what it is and where it goes.
#[derive(Clone, Copy, Debug, PartialEq, Eq)]
pub struct PiecePlacement {
    pub material: Material,
    pub shape: Shape,
    pub pos: Point,
    pub rotation: Rotation,
    /// Shown when the pointer rests on the piece.
    pub annotation: Option<&'static str>,
}

/// One target of a structure, before it exists.
#[derive(Clone, Copy, Debug, PartialEq, Eq)]
pub struct TargetPlacement {
    pub kind: TargetKind,
    pub pos: Point,
}

/// A structure as a list of placements. It holds no physics state.
#[derive(Clone, Debug, PartialEq, Eq)]
pub struct Layout {
    pub pieces: Vec<PiecePlacement>,
    pub targets: Vec<TargetPlacement>,
}

pub struct LayoutView {
    pub pieces: Seq<PiecePlacement>,
    pub targets: Seq<TargetPlacement>,
}

impl View for Layout {
    type V = LayoutView;

    open spec fn view(&self) -> LayoutView {
        LayoutView { pieces: self.pieces@, targets: self.targets@ }
    }
}

/// The heights and columns that the level is built on.
#[derive(Clone, Copy, Debug, PartialEq, Eq, Structural)]
pub struct Offsets {
    /// Column through the middle of the structure.
    pub center_x: i32,
    /// Upper face of the ground slab.
    pub ground_top: i32,
    /// Centre line of the planks that lie across the supports.
    pub floor_y: i32,
    /// Centre line of the posts that stand on the floor.
    pub post_y: i32,
    /// Centre line of the planks that lie across the posts.
    pub deck_y: i32,
    /// Upper face of the deck, where both towers begin.
    pub tower_base_y: i32,
    /// Column of the left tower.
    pub left_tower_x: i32,
    /// Centre line of the left tower's roof.
    pub left_roof_y: i32,
    /// Column of the ledge that juts out of the left tower.
    pub ledge_x: i32,
    /// Centre line of the ledge.
    pub ledge_y: i32,
    /// Column of the far post on the ledge's upper row.
    pub outpost_x: i32,
    /// Centre line of the ledge's upper row.
    pub upper_row_y: i32,
    /// Column of the right tower.
    pub right_tower_x: i32,
    /// Centre lines of the right tower's three ceilings, lowest first.
    pub first_ceiling_y: i32,
    pub second_ceiling_y: i32,
    pub third_ceiling_y: i32,
}

/// The named heights and columns of the level, as numbers.
pub open spec fn level_offsets() -> Offsets {
    Offsets {
        center_x: 300_000i32,
        ground_top: -275_000i32,
        floor_y: -182_000i32,
        post_y: -130_500i32,
        deck_y: -79_000i32,
        tower_base_y: -69_000i32,
        left_tower_x: 210_000i32,
        left_roof_y: 108_000i32,
        ledge_x: 160_000i32,
        ledge_y: 211_000i32,
        outpost_x: -160_500i32,
        upper_row_y: 312_000i32,
        right_tower_x: 400_000i32,
        first_ceiling_y: 24_000i32,
        second_ceiling_y: 211_000i32,
        third_ceiling_y: 314_000i32,
    }
}

pub open spec fn placed(
    material: Material,
    shape: Shape,
    x: int,
    y: int,
    rotation: Rotation,
    annotation: Option<&'static str>,
) -> PiecePlacement {
    PiecePlacement { material, shape, pos: Point { x: x as i32, y: y as i32 }, rotation, annotation }
}

pub open spec fn target(kind: TargetKind, x: int, y: int) -> TargetPlacement {
    TargetPlacement { kind, pos: Point { x: x as i32, y: y as i32 } }
}

/// Three steel supports on the ground and the two planks across them.
pub open spec fn foundation() -> Seq<PiecePlacement> {
    seq![
        placed(Material::Steel, Shape::ShortBeam, 420_000, -233_500, Rotation::Upright, Some(NOTE_FFMPEG)),
        placed(Material::Steel, Shape::ShortBeam, 300_000, -233_500, Rotation::Upright, Some(NOTE_OPENSSL)),
        placed(Material::Steel, Shape::SquareLarge, 180_000, -234_000, Rotation::Level, Some(NOTE_LINUX)),
        placed(Material::Wood, Shape::LongBeam, 220_000, -182_000, Rotation::Level, None),
        placed(Material::Wood, Shape::LongBeam, 380_000, -182_000, Rotation::Level, None),
    ]
}

/// Two steel posts on the floor, three hidden props beside them, and the deck.
pub open spec fn mezzanine() -> Seq<PiecePlacement> {
    seq![
        placed(Material::Steel, Shape::ShortBeam, 250_000, -130_500, Rotation::Upright, Some(NOTE_PYTORCH)),
        placed(Material::Steel, Shape::ShortBeam, 350_000, -130_500, Rotation::Upright, Some(NOTE_COMPILERS)),
        placed(Material::Invisible, Shape::ShortBeam, 300_000, -130_500, Rotation::Upright, None),
        placed(Material::Invisible, Shape::ShortBeam, 420_000, -130_500, Rotation::Upright, None),
        placed(Material::Invisible, Shape::ShortBeam, 180_000, -130_500, Rotation::Upright, None),
        placed(Material::Wood, Shape::LongBeam, 213_000, -79_000, Rotation::Level, None),
        placed(Material::Wood, Shape::LongBeam, 385_000, -79_000, Rotation::Level, None),
    ]
}

/// The left tower: two walls, two shelves and a roof.
pub open spec fn left_tower() -> Seq<PiecePlacement> {
    seq![
        placed(Material::Wood, Shape::LongBeam, 140_000, 14_500, Rotation::Upright, None),
        placed(Material::Wood, Shape::LongBeam, 280_000, 14_500, Rotation::Upright, None),
        placed(Material::Wood, Shape::ShortBeam, 210_000, -29_000, Rotation::Level, None),
        placed(Material::Wood, Shape::ShortBeam, 210_000, 31_000, Rotation::Level, None),
        placed(Material::Wood, Shape::LongBeam, 210_000, 108_000, Rotation::Level, None),
    ]
}

/// The ledge above the left tower and what stands on it.
pub open spec fn ledge() -> Seq<PiecePlacement> {
    seq![
        placed(Material::Steel, Shape::ShortBeam, 160_000, 159_500, Rotation::Upright, Some(NOTE_GIT)),
        placed(Material::Wood, Shape::LongBeam, 160_000, 211_000, Rotation::Level, None),
        placed(Material::Steel, Shape::ShortBeam, 88_500, 261_500, Rotation::Upright, Some(NOTE_REDIS)),
        placed(Material::Invisible, Shape::SquareSmall, 88_500, 191_000, Rotation::Level, None),
        placed(Material::Wood, Shape::SquareLarge, 231_500, 261_500, Rotation::Upright, None),
        placed(Material::Wood, Shape::LongBeam, 68_500, 312_000, Rotation::Level, None),
        placed(Material::Invisible, Shape::SquareSmall, -13_000, 292_000, Rotation::Level, None),
        placed(Material::Wood, Shape::LongBeam, -94_500, 312_000, Rotation::Level, None),
        placed(Material::Invisible, Shape::SquareSmall, -166_000, 292_000, Rotation::Level, None),
        placed(Material::Invisible, Shape::SquareSmall, 160_000, 392_000, Rotation::Level, None),
        placed(Material::Invisible, Shape::SquareSmall, -2_000, 392_000, Rotation::Level, None),
        placed(Material::Steel, Shape::ShortBeam, -160_500, 363_000, Rotation::Upright, Some(NOTE_POSTGRES)),
        placed(Material::Wood, Shape::LongBeam, -160_500, 404_000, Rotation::Level, None),
        placed(Material::Invisible, Shape::SquareSmall, -246_500, 489_000, Rotation::Level, None),
        placed(Material::Invisible, Shape::SquareSmall, -74_500, 489_000, Rotation::Level, None),
    ]
}

/// The right tower: three storeys, each narrower than the one below, and a crown.
pub open spec fn right_tower() -> Seq<PiecePlacement> {
    seq![
        placed(Material::Wood, Shape::ShortBeam, 350_000, -27_500, Rotation::Upright, None),
        placed(Material::Wood, Shape::ShortBeam, 450_000, -27_500, Rotation::Upright, None),
        placed(Material::Wood, Shape::LongBeam, 400_000, 24_000, Rotation::Level, None),
        placed(Material::Wood, Shape::LongBeam, 360_000, 117_500, Rotation::Upright, None),
        placed(Material::Wood, Shape::LongBeam, 440_000, 117_500, Rotation::Upright, None),
        placed(Material::Wood, Shape::LongBeam, 400_000, 211_000, Rotation::Level, None),
        placed(Material::Wood, Shape::ShortBeam, 370_000, 262_500, Rotation::Upright, None),
        placed(Material::Wood, Shape::ShortBeam, 430_000, 262_500, Rotation::Upright, None),
        placed(Material::Invisible, Shape::SquareSmall, 484_000, 415_500, Rotation::Level, None),
        placed(Material::Wood, Shape::ShortBeam, 400_000, 314_000, Rotation::Level, None),
        placed(Material::Wood, Shape::SquareSmall, 375_000, 339_000, Rotation::Level, None),
        placed(Material::Wood, Shape::SquareSmall, 425_000, 339_000, Rotation::Level, None),
    ]
}

/// Every piece of the level, in the order in which it is placed.
pub open spec fn level_pieces() -> Seq<PiecePlacement> {
    foundation() + mezzanine() + left_tower() + ledge() + right_tower()
}

/// The targets of the left side: one on the tower's upper shelf, two on the ledge.
pub open spec fn left_targets() -> Seq<TargetPlacement> {
    seq![
        target(TargetKind::BombBird, 210_000, 74_000),
        target(TargetKind::King, 79_000, 392_000),
        target(TargetKind::King, -160_500, 489_000),
    ]
}

/// The targets of the right tower, one to a storey.
pub open spec fn right_targets() -> Seq<TargetPlacement> {
    seq![
        target(TargetKind::TriangleBird, 400_000, -46_000),
        target(TargetKind::BlueBird, 400_000, 57_000),
        target(TargetKind::King, 400_000, 415_500),
    ]
}

/// Every target of the level, in the order in which it is placed.
pub open spec fn level_targets() -> Seq<TargetPlacement> {
    left_targets() + right_targets()
}

/// The level as a whole.
pub open spec fn level() -> LayoutView {
    LayoutView { pieces: level_pieces(), targets: level_targets() }
}

/// Works the named heights and columns out of the sizes of the pieces that
/// carry them.
pub fn named_offsets() -> (o: Offsets)
    ensures
        o == level_offsets(),
{
    let half_plank: i32 = LONG_BEAM_THICKNESS / 2;
    let center_x: i32 = 300_000;
    let ground_top: i32 = GROUND_Y + GROUND_HEIGHT / 2;
    let floor_y: i32 = ground_top + SHORT_BEAM_LENGTH + half_plank;
    let post_y: i32 = floor_y + half_plank + SHORT_BEAM_LENGTH / 2;
    let deck_y: i32 = floor_y + SHORT_BEAM_LENGTH + LONG_BEAM_THICKNESS;
    let tower_base_y: i32 = deck_y + half_plank;
    let left_tower_x: i32 = center_x - 90_000;
    let left_roof_y: i32 = tower_base_y + LONG_BEAM_LENGTH + half_plank;
    let ledge_x: i32 = left_tower_x - 50_000;
    let ledge_y: i32 = left_roof_y + LONG_BEAM_THICKNESS + SHORT_BEAM_LENGTH;
    let outpost_x: i32 = ledge_x + 163_000 / 2 - 10_000 - 326_000 - 66_000;
    let upper_row_y: i32 = ledge_y + 81_000 + LONG_BEAM_THICKNESS;
    let right_tower_x: i32 = center_x + 100_000;
    let first_ceiling_y: i32 = tower_base_y + SHORT_BEAM_LENGTH + half_plank;
    let second_ceiling_y: i32 = first_ceiling_y + half_plank + LONG_BEAM_LENGTH + half_plank;
    let third_ceiling_y: i32 = second_ceiling_y + half_plank + SHORT_BEAM_LENGTH + half_plank;
    Offsets {
        center_x,
        ground_top,
        floor_y,
        post_y,
        deck_y,
        tower_base_y,
        left_tower_x,
        left_roof_y,
        ledge_x,
        ledge_y,
        outpost_x,
        upper_row_y,
        right_tower_x,
        first_ceiling_y,
        second_ceiling_y,
        third_ceiling_y,
    }
}

fn put(
    pieces: &mut Vec<PiecePlacement>,
    material: Material,
    shape: Shape,
    x: i32,
    y: i32,
    rotation: Rotation,
    annotation: Option<&'static str>,
)
    ensures
        final(pieces)@ == old(pieces)@.push(
            placed(material, shape, x as int, y as int, rotation, annotation),
        ),
{
    pieces.push(PiecePlacement { material, shape, pos: Point { x, y }, rotation, annotation });
}

fn put_target(targets: &mut Vec<TargetPlacement>, kind: TargetKind, x: i32, y: i32)
    ensures
        final(targets)@ == old(targets)@.push(target(kind, x as int, y as int)),
{
    targets.push(TargetPlacement { kind, pos: Point { x, y } });
}

fn lay_foundation(pieces: &mut Vec<PiecePlacement>, o: &Offsets)
    requires
        *o == level_offsets(),
    ensures
        final(pieces)@ == old(pieces)@ + foundation(),
{
    let cx: i32 = o.center_x;
    let post_y: i32 = o.ground_top + SHORT_BEAM_LENGTH / 2;
    let block_y: i32 = o.ground_top + LARGE_SQUARE_SIDE / 2;
    put(pieces, Material::Steel, Shape::ShortBeam, cx + 120_000, post_y, Rotation::Upright, Some(NOTE_FFMPEG));
    put(pieces, Material::Steel, Shape::ShortBeam, cx, post_y, Rotation::Upright, Some(NOTE_OPENSSL));
    put(pieces, Material::Steel, Shape::SquareLarge, cx - 120_000, block_y, Rotation::Level, Some(NOTE_LINUX));
    put(pieces, Material::Wood, Shape::LongBeam, cx - 80_000, o.floor_y, Rotation::Level, None);
    put(pieces, Material::Wood, Shape::LongBeam, cx + 80_000, o.floor_y, Rotation::Level, None);
}

fn lay_mezzanine(pieces: &mut Vec<PiecePlacement>, o: &Offsets)
    requires
        *o == level_offsets(),
    ensures
        final(pieces)@ == old(pieces)@ + mezzanine(),
{
    let cx: i32 = o.center_x;
    put(pieces, Material::Steel, Shape::ShortBeam, cx - 50_000, o.post_y, Rotation::Upright, Some(NOTE_PYTORCH));
    put(pieces, Material::Steel, Shape::ShortBeam, cx + 50_000, o.post_y, Rotation::Upright, Some(NOTE_COMPILERS));
    put(pieces, Material::Invisible, Shape::ShortBeam, cx, o.post_y, Rotation::Upright, None);
    put(pieces, Material::Invisible, Shape::ShortBeam, cx + 120_000, o.post_y, Rotation::Upright, None);
    put(pieces, Material::Invisible, Shape::ShortBeam, cx - 120_000, o.post_y, Rotation::Upright, None);
    // The planks of the deck sit a little off their posts, so that a steel
    // block can pin them down.
    put(pieces, Material::Wood, Shape::LongBeam, cx - 80_000 - 7_000, o.deck_y, Rotation::Level, None);
    put(pieces, Material::Wood, Shape::LongBeam, cx + 80_000 + 5_000, o.deck_y, Rotation::Level, None);
}

fn raise_left_tower(
    pieces: &mut Vec<PiecePlacement>,
    targets: &mut Vec<TargetPlacement>,
    o: &Offsets,
)
    requires
        *o == level_offsets(),
    ensures
        final(pieces)@ == old(pieces)@ + left_tower(),
        final(targets)@ == old(targets)@.push(target(TargetKind::BombBird, 210_000, 74_000)),
{
    let x: i32 = o.left_tower_x;
    let base: i32 = o.tower_base_y;
    let wall_y: i32 = base + LONG_BEAM_LENGTH / 2;
    let upper_shelf_y: i32 = base + 100_000;
    put(pieces, Material::Wood, Shape::LongBeam, x - 70_000, wall_y, Rotation::Upright, None);
    put(pieces, Material::Wood, Shape::LongBeam, x + 70_000, wall_y, Rotation::Upright, None);
    put(pieces, Material::Wood, Shape::ShortBeam, x, base + 40_000, Rotation::Level, None);
    put(pieces, Material::Wood, Shape::ShortBeam, x, upper_shelf_y, Rotation::Level, None);
    put_target(targets, TargetKind::BombBird, x, upper_shelf_y + 20_000 + 23_000);
    put(pieces, Material::Wood, Shape::LongBeam, x, o.left_roof_y, Rotation::Level, None);
}

fn build_ledge(
    pieces: &mut Vec<PiecePlacement>,
    targets: &mut Vec<TargetPlacement>,
    o: &Offsets,
)
    requires
        *o == level_offsets(),
    ensures
        final(pieces)@ == old(pieces)@ + ledge(),
        final(targets)@ == old(targets)@.push(target(TargetKind::King, 79_000, 392_000)).push(
            target(TargetKind::King, -160_500, 489_000),
        ),
{
    let half_plank: i32 = LONG_BEAM_THICKNESS / 2;
    let x: i32 = o.ledge_x;
    let y: i32 = o.ledge_y;
    let near_x: i32 = x - 163_000 / 2 + 10_000;
    let far_x: i32 = x + 163_000 / 2 - 10_000;
    let row_y: i32 = y + 81_000 / 2 + 10_000;
    put(pieces, Material::Steel, Shape::ShortBeam, x, o.left_roof_y + half_plank + SHORT_BEAM_LENGTH / 2, Rotation::Upright, Some(NOTE_GIT));
    put(pieces, Material::Wood, Shape::LongBeam, x, y, Rotation::Level, None);
    put(pieces, Material::Steel, Shape::ShortBeam, near_x, row_y, Rotation::Upright, Some(NOTE_REDIS));
    put(pieces, Material::Invisible, Shape::SquareSmall, near_x, y - 20_000, Rotation::Level, None);
    put(pieces, Material::Wood, Shape::SquareLarge, far_x, row_y, Rotation::Upright, None);
    put(pieces, Material::Wood, Shape::LongBeam, far_x - 163_000, o.upper_row_y, Rotation::Level, None);
    put(pieces, Material::Invisible, Shape::SquareSmall, x - 163_000 - 10_000, y + 81_000, Rotation::Level, None);
    put(pieces, Material::Wood, Shape::LongBeam, far_x - 326_000, o.upper_row_y, Rotation::Level, None);
    put(pieces, Material::Invisible, Shape::SquareSmall, x - 163_000 - 163_000, y + 81_000, Rotation::Level, None);

    // A king on the upper row, held in place from both sides.
    let king_x: i32 = x - 81_000;
    let king_y: i32 = y + 81_000 + 90_000 + 10_000;
    put_target(targets, TargetKind::King, king_x, king_y);
    put(pieces, Material::Invisible, Shape::SquareSmall, king_x + 81_000, king_y, Rotation::Level, None);
    put(pieces, Material::Invisible, Shape::SquareSmall, king_x - 81_000, king_y, Rotation::Level, None);

    // The outpost: a steel post, a plank across it, and a second king on top.
    let post_y: i32 = o.upper_row_y + SHORT_BEAM_THICKNESS + 10_000;
    let plank_y: i32 = post_y + SHORT_BEAM_THICKNESS;
    let top_y: i32 = plank_y + 85_000;
    put(pieces, Material::Steel, Shape::ShortBeam, o.outpost_x, post_y, Rotation::Upright, Some(NOTE_POSTGRES));
    put(pieces, Material::Wood, Shape::LongBeam, o.outpost_x, plank_y, Rotation::Level, None);
    put_target(targets, TargetKind::King, o.outpost_x, top_y);
    put(pieces, Material::Invisible, Shape::SquareSmall, o.outpost_x - 86_000, top_y, Rotation::Level, None);
    put(pieces, Material::Invisible, Shape::SquareSmall, o.outpost_x + 86_000, top_y, Rotation::Level, None);
}

fn raise_right_tower(
    pieces: &mut Vec<PiecePlacement>,
    targets: &mut Vec<TargetPlacement>,
    o: &Offsets,
)
    requires
        *o == level_offsets(),
    ensures
        final(pieces)@ == old(pieces)@ + right_tower(),
        final(targets)@ == old(targets)@ + right_targets(),
{
    let half_plank: i32 = LONG_BEAM_THICKNESS / 2;
    let x: i32 = o.right_tower_x;

    // First storey: short posts, a target between them.
    let first_y: i32 = o.tower_base_y + SHORT_BEAM_LENGTH / 2;
    put(pieces, Material::Wood, Shape::ShortBeam, x - 50_000, first_y, Rotation::Upright, None);
    put(pieces, Material::Wood, Shape::ShortBeam, x + 50_000, first_y, Rotation::Upright, None);
    put_target(targets, TargetKind::TriangleBird, x, o.tower_base_y + 23_000);
    put(pieces, Material::Wood, Shape::LongBeam, x, o.first_ceiling_y, Rotation::Level, None);

    // Second storey: long posts.
    let second_y: i32 = o.first_ceiling_y + half_plank + LONG_BEAM_LENGTH / 2;
    put(pieces, Material::Wood, Shape::LongBeam, x - 40_000, second_y, Rotation::Upright, None);
    put(pieces, Material::Wood, Shape::LongBeam, x + 40_000, second_y, Rotation::Upright, None);
    put_target(targets, TargetKind::BlueBird, x, o.first_ceiling_y + half_plank + 23_000);
    put(pieces, Material::Wood, Shape::LongBeam, x, o.second_ceiling_y, Rotation::Level, None);

    // Third storey: short posts again, and a king high above them.
    let third_y: i32 = o.second_ceiling_y + half_plank + SHORT_BEAM_LENGTH / 2;
    let king_y: i32 = third_y + 10_000 + 23_000 + 70_000 + 50_000;
    put(pieces, Material::Wood, Shape::ShortBeam, x - 30_000, third_y, Rotation::Upright, None);
    put(pieces, Material::Wood, Shape::ShortBeam, x + 30_000, third_y, Rotation::Upright, None);
    put_target(targets, TargetKind::King, x, king_y);
    put(pieces, Material::Invisible, Shape::SquareSmall, x + 84_000, king_y, Rotation::Level, None);
    put(pieces, Material::Wood, Shape::ShortBeam, x, o.third_ceiling_y, Rotation::Level, None);

    // The crown: two small blocks on the last ceiling.
    let crown_y: i32 = o.third_ceiling_y + 10_000 + 10_000 + 5_000;
    put(pieces, Material::Wood, Shape::SquareSmall, x - 25_000, crown_y, Rotation::Level, None);
    put(pieces, Material::Wood, Shape::SquareSmall, x + 25_000, crown_y, Rotation::Level, None);
}

/// Builds the level. The same structure comes out of every call.
pub fn generate_layout() -> (layout: Layout)
    ensures
        layout@ == level(),
        layout@.pieces.len() == 44,
        layout@.targets.len() == 6,
{
    let o: Offsets = named_offsets();
    let mut pieces: Vec<PiecePlacement> = Vec::new();
    let mut targets: Vec<TargetPlacement> = Vec::new();
    lay_foundation(&mut pieces, &o);
    lay_mezzanine(&mut pieces, &o);
    raise_left_tower(&mut pieces, &mut targets, &o);
    build_ledge(&mut pieces, &mut targets, &o);
    raise_right_tower(&mut pieces, &mut targets, &o);
    assert(targets@ =~= level_targets());
    Layout { pieces, targets }
}

} // verus!
