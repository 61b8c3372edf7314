//! The state of a game: the table of pieces and targets, the projectile, and
//! what the launcher and the respawn countdown remember between frames.
//!
//! A piece or a target is known by its index in its table. Neither table ever
//! grows or shrinks while a structure stands: what is destroyed stays in its
//! slot, marked as gone, so that an index always means the same thing.

use vstd::prelude::*;
use crate::layout::{
    Layout, LayoutView, PiecePlacement, TargetPlacement, ANCHOR_X, ANCHOR_Y, REST_HEIGHT,
};
use crate::pieces::BodyMode;
use crate::units::Point;

verus! {

/// What the display shows before the first launch.
pub const INTRO: &'static str =
    "Launch a pig to find out what disaster you are about to unleash!\n\nThe XZ utils incident: where a hacker snuck a virus into burnt-out maintainer's code";

/// What the display shows after the level was set up anew.
pub const RESTARTED: &'static str = "Restarted!";

/// Radius of the projectile's round body.
pub const PROJECTILE_RADIUS: i32 = 22_000;

/// How dense the projectile is, next to a density of one for everything else.
pub const PROJECTILE_DENSITY: u32 = 5;

/// A piece of the structure and whether it still stands.
#[derive(Clone, Copy, Debug, PartialEq, Eq)]
pub struct Piece {
    pub placement: PiecePlacement,
    pub alive: bool,
}

/// A target and whether it is still there.
#[derive(Clone, Copy, Debug, PartialEq, Eq)]
pub struct Target {
    pub placement: TargetPlacement,
    pub alive: bool,
}

/// The one thing the player throws.
#[derive(Clone, Copy, Debug, PartialEq, Eq, Structural)]
pub struct Projectile {
    /// Where it rests or is held. Once launched it is the physics engine that
    /// knows where it is.
    pub pos: Point,
    /// True until it is launched.
    pub on_launcher: bool,
    pub mode: BodyMode,
}

/// What the launcher remembers of a drag.
#[derive(Clone, Copy, Debug, PartialEq, Eq, Structural)]
pub struct DragState {
    pub dragging: bool,
    /// Where the pointer was when the drag began.
    pub start: Point,
}

/// Time counted towards the next projectile, in nanoseconds.
#[derive(Clone, Copy, Debug, PartialEq, Eq, Structural)]
pub struct Countdown {
    pub elapsed: u64,
    /// Set when the delay has run out; nothing more happens until a reset.
    pub finished: bool,
}

#[derive(Clone, Debug, PartialEq, Eq)]
pub struct World {
    pub pieces: Vec<Piece>,
    pub targets: Vec<Target>,
    /// At most one projectile exists.
    pub projectile: Option<Projectile>,
    pub drag: DragState,
    pub countdown: Countdown,
    /// The line of text on display.
    pub message: &'static str,
}

pub struct WorldView {
    pub pieces: Seq<Piece>,
    pub targets: Seq<Target>,
    pub projectile: Option<Projectile>,
    pub drag: DragState,
    pub countdown: Countdown,
    pub message: &'static str,
}

impl View for World {
    type V = WorldView;

    open spec fn view(&self) -> WorldView {
        WorldView {
            pieces: self.pieces@,
            targets: self.targets@,
            projectile: self.projectile,
            drag: self.drag,
            countdown: self.countdown,
            message: self.message,
        }
    }
}

/// Every placement as a piece that stands.
pub open spec fn fresh_pieces(placements: Seq<PiecePlacement>) -> Seq<Piece> {
    Seq::new(placements.len(), |i: int| Piece { placement: placements[i], alive: true })
}

/// Every placement as a target that is there.
pub open spec fn fresh_targets(placements: Seq<TargetPlacement>) -> Seq<Target> {
    Seq::new(placements.len(), |i: int| Target { placement: placements[i], alive: true })
}

/// Where each piece was placed, standing or not.
pub open spec fn piece_placements(pieces: Seq<Piece>) -> Seq<PiecePlacement> {
    Seq::new(pieces.len(), |i: int| pieces[i].placement)
}

/// Where each target was placed, there or not.
pub open spec fn target_placements(targets: Seq<Target>) -> Seq<TargetPlacement> {
    Seq::new(targets.len(), |i: int| targets[i].placement)
}

/// A projectile at rest above the anchor, held still until it is launched.
pub open spec fn resting_projectile() -> Projectile {
    Projectile {
        pos: Point { x: -300_000i32, y: -120_000i32 },
        on_launcher: true,
        mode: BodyMode::Kinematic,
    }
}

pub open spec fn idle_drag() -> DragState {
    DragState { dragging: false, start: Point { x: 0, y: 0 } }
}

pub open spec fn zero_countdown() -> Countdown {
    Countdown { elapsed: 0, finished: false }
}

impl WorldView {
    /// The layout that the world was built from.
    pub open spec fn layout(self) -> LayoutView {
        LayoutView {
            pieces: piece_placements(self.pieces),
            targets: target_placements(self.targets),
        }
    }

    /// How many projectiles there are.
    pub open spec fn projectile_count(self) -> nat {
        if self.projectile is Some {
            1
        } else {
            0
        }
    }

    /// A projectile exists and has not been launched.
    pub open spec fn has_resting_projectile(self) -> bool {
        self.projectile is Some && self.projectile->0.on_launcher
    }

    /// A drag is under way only on a projectile that has not been launched.
    pub open spec fn coherent(self) -> bool {
        self.drag.dragging ==> self.has_resting_projectile()
    }

    /// What stands where, leaving aside what the launcher, the countdown and
    /// the display hold.
    pub open spec fn structure(self) -> (Seq<Piece>, Seq<Target>, Option<Projectile>) {
        (self.pieces, self.targets, self.projectile)
    }
}

/// The world right after a structure was put up: everything stands, nothing
/// to throw yet.
pub open spec fn instantiated(layout: LayoutView) -> WorldView {
    WorldView {
        pieces: fresh_pieces(layout.pieces),
        targets: fresh_targets(layout.targets),
        projectile: None,
        drag: idle_drag(),
        countdown: zero_countdown(),
        message: INTRO,
    }
}

/// The world with a fresh projectile on the launcher in place of whatever
/// projectile there was.
pub open spec fn primed(w: WorldView) -> WorldView {
    WorldView { projectile: Some(resting_projectile()), ..w }
}

/// The world set up anew from its own layout.
pub open spec fn reset_of(w: WorldView) -> WorldView {
    WorldView {
        pieces: fresh_pieces(piece_placements(w.pieces)),
        targets: fresh_targets(target_placements(w.targets)),
        projectile: Some(resting_projectile()),
        drag: w.drag,
        countdown: zero_countdown(),
        message: RESTARTED,
    }
}

/// Setting the level up twice in a row leaves exactly what setting it up once
/// leaves.
pub proof fn lemma_reset_idempotent(w: WorldView)
    ensures
        reset_of(reset_of(w)) == reset_of(w),
        reset_of(reset_of(w)).structure() == reset_of(w).structure(),
{
    let once = reset_of(w);
    let twice = reset_of(once);
    assert(twice.pieces =~= once.pieces);
    assert(twice.targets =~= once.targets);
}

/// A reset brings back the structure as it was first put up, whatever was
/// destroyed since, with a projectile on the launcher.
pub proof fn lemma_reset_restores(layout: LayoutView, w: WorldView)
    requires
        w.layout() == layout,
    ensures
        reset_of(w).pieces == instantiated(layout).pieces,
        reset_of(w).targets == instantiated(layout).targets,
        reset_of(w).layout() == layout,
        reset_of(w).has_resting_projectile(),
        reset_of(w).countdown == zero_countdown(),
{
    assert(reset_of(w).layout().pieces =~= layout.pieces);
    assert(reset_of(w).layout().targets =~= layout.targets);
}

impl Projectile {
    /// A projectile at rest above the anchor.
    pub fn resting() -> (p: Projectile)
        ensures
            p == resting_projectile(),
    {
        Projectile {
            pos: Point { x: ANCHOR_X, y: ANCHOR_Y + REST_HEIGHT },
            on_launcher: true,
            mode: BodyMode::Kinematic,
        }
    }
}

fn stand_pieces(placements: &Vec<PiecePlacement>) -> (pieces: Vec<Piece>)
    ensures
        pieces@ == fresh_pieces(placements@),
{
    let mut pieces: Vec<Piece> = Vec::new();
    let mut i: usize = 0;
    while i < placements.len()
        invariant
            i <= placements.len(),
            pieces@ == fresh_pieces(placements@.take(i as int)),
        decreases placements.len() - i,
    {
        pieces.push(Piece { placement: placements[i], alive: true });
        i += 1;
    }
    pieces
}

fn stand_targets(placements: &Vec<TargetPlacement>) -> (targets: Vec<Target>)
    ensures
        targets@ == fresh_targets(placements@),
{
    let mut targets: Vec<Target> = Vec::new();
    let mut i: usize = 0;
    while i < placements.len()
        invariant
            i <= placements.len(),
            targets@ == fresh_targets(placements@.take(i as int)),
        decreases placements.len() - i,
    {
        targets.push(Target { placement: placements[i], alive: true });
        i += 1;
    }
    targets
}

fn revive_pieces(pieces: &mut Vec<Piece>)
    ensures
        final(pieces)@ == fresh_pieces(piece_placements(old(pieces)@)),
{
    let ghost before = pieces@;
    let mut i: usize = 0;
    while i < pieces.len()
        invariant
            i <= pieces.len(),
            pieces@.len() == before.len(),
            forall|k: int| 0 <= k < i ==> pieces@[k] == (Piece { placement: before[k].placement, alive: true }),
            forall|k: int| i <= k < before.len() ==> pieces@[k] == before[k],
        decreases pieces.len() - i,
    {
        let placement = pieces[i].placement;
        pieces.set(i, Piece { placement, alive: true });
        i += 1;
    }
}

fn revive_targets(targets: &mut Vec<Target>)
    ensures
        final(targets)@ == fresh_targets(target_placements(old(targets)@)),
{
    let ghost before = targets@;
    let mut i: usize = 0;
    while i < targets.len()
        invariant
            i <= targets.len(),
            targets@.len() == before.len(),
            forall|k: int| 0 <= k < i ==> targets@[k] == (Target { placement: before[k].placement, alive: true }),
            forall|k: int| i <= k < before.len() ==> targets@[k] == before[k],
        decreases targets.len() - i,
    {
        let placement = targets[i].placement;
        targets.set(i, Target { placement, alive: true });
        i += 1;
    }
}

impl World {
    /// Puts up the structure that `layout` describes: one standing piece per
    /// placement, one target per placement, in the layout's order.
    pub fn instantiate(layout: &Layout) -> (world: World)
        ensures
            world@ == instantiated(layout@),
            world@.layout() == layout@,
            world@.coherent(),
    {
        let world = World {
            pieces: stand_pieces(&layout.pieces),
            targets: stand_targets(&layout.targets),
            projectile: None,
            drag: DragState { dragging: false, start: Point { x: 0, y: 0 } },
            countdown: Countdown { elapsed: 0, finished: false },
            message: INTRO,
        };
        assert(world@.layout().pieces =~= layout@.pieces);
        assert(world@.layout().targets =~= layout@.targets);
        world
    }

    /// Sets a fresh projectile on the launcher. Whatever projectile there was
    /// is gone: the result says whether there was one.
    pub fn spawn_projectile(&mut self) -> (replaced: bool)
        ensures
            final(self)@ == primed(old(self)@),
            replaced == old(self)@.projectile is Some,
            final(self)@.coherent(),
    {
        let replaced = self.projectile.is_some();
        self.projectile = Some(Projectile::resting());
        replaced
    }

    /// Sets the level up anew: every piece and target of the layout stands
    /// again, a fresh projectile is on the launcher, and the countdown starts
    /// over. What the launcher remembers of a drag is kept.
    pub fn reset(&mut self)
        ensures
            final(self)@ == reset_of(old(self)@),
            final(self)@.layout() == old(self)@.layout(),
            final(self)@.coherent(),
    {
        revive_pieces(&mut self.pieces);
        revive_targets(&mut self.targets);
        self.projectile = Some(Projectile::resting());
        self.countdown = Countdown { elapsed: 0, finished: false };
        self.message = RESTARTED;
        assert(self@.layout().pieces =~= old(self)@.layout().pieces);
        assert(self@.layout().targets =~= old(self)@.layout().targets);
    }
}

} // verus!
