//! What an impact destroys.
//!
//! Each frame the physics engine reports how fast the projectile moves and
//! what it touches, and for each target how fast it moves and whether it
//! touches anything. From those facts alone, and from what stands at that
//! moment, the rules here say what goes.

use vstd::prelude::*;
use crate::pieces::Material;
use crate::units::{faster_than, Velocity};
use crate::world::{Piece, Target, World, WorldView};

verus! {

/// A steel piece breaks when the projectile strikes it faster than this.
pub const STEEL_THRESHOLD: u32 = 800_000;

/// A wooden piece breaks when the projectile strikes it faster than this.
pub const WOOD_THRESHOLD: u32 = 600_000;

/// An invisible support gives way when the projectile strikes it faster than this.
pub const SUPPORT_THRESHOLD: u32 = 600_000;

/// A target bursts when it moves faster than this while it touches something.
pub const TARGET_THRESHOLD: u32 = 600_000;

/// What the physics engine reports of one target in one frame.
#[derive(Clone, Copy, Debug, PartialEq, Eq, Structural)]
pub struct TargetContact {
    /// Index of the target in the world's table.
    pub target: usize,
    /// The target's own velocity.
    pub velocity: Velocity,
    /// Whether the target touches anything at all.
    pub colliding: bool,
}

/// The speed above which a piece of the given material breaks.
pub open spec fn threshold_of(material: Material) -> int {
    match material {
        Material::Steel => 800_000,
        Material::Wood => 600_000,
        Material::Invisible => 600_000,
    }
}

/// Piece `i` stands, the projectile touches it, and the projectile is faster
/// than the piece's material withstands.
pub open spec fn broken(pieces: Seq<Piece>, v: Velocity, hits: Seq<usize>, i: int) -> bool {
    &&& 0 <= i < pieces.len()
    &&& pieces[i].alive
    &&& hits.contains(i as usize)
    &&& faster_than(v, threshold_of(pieces[i].placement.material))
}

/// The projectile breaks at least one piece.
pub open spec fn any_broken(pieces: Seq<Piece>, v: Velocity, hits: Seq<usize>) -> bool {
    exists|i: int| broken(pieces, v, hits, i)
}

/// Piece `i` is an invisible support that stands while some piece breaks.
pub open spec fn swept(pieces: Seq<Piece>, v: Velocity, hits: Seq<usize>, i: int) -> bool {
    &&& any_broken(pieces, v, hits)
    &&& 0 <= i < pieces.len()
    &&& pieces[i].alive
    &&& pieces[i].placement.material == Material::Invisible
}

/// Piece `i` goes in this frame: it breaks, or it is a support swept away
/// because something broke.
pub open spec fn piece_removed(pieces: Seq<Piece>, v: Velocity, hits: Seq<usize>, i: int) -> bool {
    broken(pieces, v, hits, i) || swept(pieces, v, hits, i)
}

/// The table of pieces after the projectile's impacts of one frame.
pub open spec fn after_impacts(pieces: Seq<Piece>, v: Velocity, hits: Seq<usize>) -> Seq<Piece> {
    Seq::new(
        pieces.len(),
        |i: int|
            Piece {
                placement: pieces[i].placement,
                alive: pieces[i].alive && !piece_removed(pieces, v, hits, i),
            },
    )
}

/// The report is on target `i` and says that it touches something while it
/// moves faster than a target withstands.
pub open spec fn condemns(report: TargetContact, i: int) -> bool {
    report.target == i && report.colliding && faster_than(report.velocity, 600_000)
}

/// Target `i` is there, and some report condemns it.
pub open spec fn target_burst(targets: Seq<Target>, contacts: Seq<TargetContact>, i: int) -> bool {
    &&& 0 <= i < targets.len()
    &&& targets[i].alive
    &&& exists|k: int| 0 <= k < contacts.len() && condemns(#[trigger] contacts[k], i)
}

/// The table of targets after one frame's reports.
pub open spec fn after_contacts(targets: Seq<Target>, contacts: Seq<TargetContact>) -> Seq<Target> {
    Seq::new(
        targets.len(),
        |i: int|
            Target {
                placement: targets[i].placement,
                alive: targets[i].alive && !target_burst(targets, contacts, i),
            },
    )
}

/// The indices in `list` rise strictly.
pub open spec fn ascending(list: Seq<usize>) -> bool {
    forall|j: int, k: int| 0 <= j < k < list.len() ==> list[j] < list[k]
}

/// A piece that stands and is touched by the projectile is removed exactly
/// when the projectile's speed is above the threshold of the piece's
/// material, whatever the material: 800 units a second for steel, 600 for
/// wood and for an invisible support.
pub proof fn lemma_touched_piece_removed_iff_over_threshold(
    pieces: Seq<Piece>,
    v: Velocity,
    hits: Seq<usize>,
    i: usize,
)
    requires
        i < pieces.len(),
        pieces[i as int].alive,
        hits.contains(i),
    ensures
        threshold_of(Material::Steel) == 800_000,
        threshold_of(Material::Wood) == 600_000,
        threshold_of(Material::Invisible) == 600_000,
        !after_impacts(pieces, v, hits)[i as int].alive <==> faster_than(
            v,
            threshold_of(pieces[i as int].placement.material),
        ),
{
}

/// A piece of wood or steel that the projectile does not touch stays.
pub proof fn lemma_untouched_piece_stays(
    pieces: Seq<Piece>,
    v: Velocity,
    hits: Seq<usize>,
    i: usize,
)
    requires
        i < pieces.len(),
        pieces[i as int].alive,
        pieces[i as int].placement.material != Material::Invisible,
        !hits.contains(i),
    ensures
        after_impacts(pieces, v, hits)[i as int].alive,
{
}

/// An invisible support that stands is removed exactly when the projectile
/// breaks some piece, itself or any other.
pub proof fn lemma_support_removed_iff_any_broken(
    pieces: Seq<Piece>,
    v: Velocity,
    hits: Seq<usize>,
    i: int,
)
    requires
        0 <= i < pieces.len(),
        pieces[i].alive,
        pieces[i].placement.material == Material::Invisible,
    ensures
        !after_impacts(pieces, v, hits)[i].alive <==> any_broken(pieces, v, hits),
{
}

/// Whichever piece goes, every invisible support goes with it: after a frame
/// in which any piece was removed, no invisible support stands.
pub proof fn lemma_removal_cascades(pieces: Seq<Piece>, v: Velocity, hits: Seq<usize>, gone: int)
    requires
        piece_removed(pieces, v, hits, gone),
    ensures
        forall|i: int|
            0 <= i < pieces.len() && #[trigger] after_impacts(pieces, v, hits)[i].alive
                ==> pieces[i].placement.material != Material::Invisible,
{
}

/// A target that is there is removed exactly when a report says that it
/// touches something while its own speed is above 600 units a second.
pub proof fn lemma_target_removed_iff_over_threshold(
    targets: Seq<Target>,
    i: usize,
    velocity: Velocity,
    colliding: bool,
)
    requires
        i < targets.len(),
        targets[i as int].alive,
    ensures
        !after_contacts(
            targets,
            seq![TargetContact { target: i, velocity, colliding }],
        )[i as int].alive <==> colliding && faster_than(velocity, 600_000),
{
    let contacts = seq![TargetContact { target: i, velocity, colliding }];
    assert(contacts[0].target == i);
}

/// Once a frame's impacts are over, the same facts remove nothing more.
pub proof fn lemma_impacts_settle(pieces: Seq<Piece>, v: Velocity, hits: Seq<usize>)
    ensures
        after_impacts(after_impacts(pieces, v, hits), v, hits) == after_impacts(pieces, v, hits),
{
}

impl Material {
    /// The speed above which a piece of this material breaks.
    pub fn threshold(&self) -> (limit: u32)
        ensures
            limit == threshold_of(*self),
    {
        match self {
            Material::Steel => STEEL_THRESHOLD,
            Material::Wood => WOOD_THRESHOLD,
            Material::Invisible => SUPPORT_THRESHOLD,
        }
    }
}

fn listed(hits: &Vec<usize>, i: usize) -> (found: bool)
    ensures
        found == hits@.contains(i),
{
    let mut k: usize = 0;
    while k < hits.len()
        invariant
            k <= hits.len(),
            forall|j: int| 0 <= j < k ==> hits@[j] != i,
        decreases hits.len() - k,
    {
        if hits[k] == i {
            return true;
        }
        k += 1;
    }
    false
}

fn is_broken(pieces: &Vec<Piece>, v: Velocity, hits: &Vec<usize>, i: usize) -> (yes: bool)
    requires
        i < pieces.len(),
    ensures
        yes == broken(pieces@, v, hits@, i as int),
{
    pieces[i].alive && listed(hits, i) && v.is_faster_than(pieces[i].placement.material.threshold())
}

fn breaks_any(pieces: &Vec<Piece>, v: Velocity, hits: &Vec<usize>) -> (any: bool)
    ensures
        any == any_broken(pieces@, v, hits@),
{
    let mut i: usize = 0;
    while i < pieces.len()
        invariant
            i <= pieces.len(),
            forall|j: int| 0 <= j < i ==> !broken(pieces@, v, hits@, j),
        decreases pieces.len() - i,
    {
        if is_broken(pieces, v, hits, i) {
            return true;
        }
        i += 1;
    }
    false
}

fn is_burst(targets: &Vec<Target>, contacts: &Vec<TargetContact>, i: usize) -> (yes: bool)
    requires
        i < targets.len(),
    ensures
        yes == target_burst(targets@, contacts@, i as int),
{
    if !targets[i].alive {
        return false;
    }
    let mut k: usize = 0;
    while k < contacts.len()
        invariant
            k <= contacts.len(),
            i < targets.len(),
            targets@[i as int].alive,
            forall|j: int| 0 <= j < k ==> !condemns(#[trigger] contacts@[j], i as int),
        decreases contacts.len() - k,
    {
        let c = contacts[k];
        if c.target == i && c.colliding && c.velocity.is_faster_than(TARGET_THRESHOLD) {
            return true;
        }
        k += 1;
    }
    false
}

fn strike(pieces: &mut Vec<Piece>, v: Velocity, hits: &Vec<usize>) -> (removed: Vec<usize>)
    ensures
        final(pieces)@ == after_impacts(old(pieces)@, v, hits@),
        ascending(removed@),
        forall|i: usize| removed@.contains(i) <==> piece_removed(old(pieces)@, v, hits@, i as int),
{
    let ghost before = pieces@;
    let any = breaks_any(pieces, v, hits);
    let mut removed: Vec<usize> = Vec::new();
    let mut i: usize = 0;
    while i < pieces.len()
        invariant
            i <= pieces.len(),
            pieces@.len() == before.len(),
            any == any_broken(before, v, hits@),
            forall|k: int| 0 <= k < i ==> pieces@[k] == after_impacts(before, v, hits@)[k],
            forall|k: int| i <= k < before.len() ==> pieces@[k] == before[k],
            ascending(removed@),
            forall|j: int| 0 <= j < removed@.len() ==> removed@[j] < i,
            forall|x: usize|
                removed@.contains(x) <==> x < i && piece_removed(before, v, hits@, x as int),
        decreases pieces.len() - i,
    {
        let piece = pieces[i];
        let broken_here = is_broken(pieces, v, hits, i);
        let support = match piece.placement.material {
            Material::Invisible => true,
            _ => false,
        };
        let ghost listed_before = removed@;
        if broken_here || (any && piece.alive && support) {
            pieces.set(i, Piece { placement: piece.placement, alive: false });
            removed.push(i);
            assert(removed@[removed@.len() - 1] == i);
            assert forall|x: usize|
                removed@.contains(x) <==> x < i + 1 && piece_removed(before, v, hits@, x as int) by {
                if removed@.contains(x) {
                    let j = choose|j: int| 0 <= j < removed@.len() && removed@[j] == x;
                    if j < listed_before.len() {
                        assert(listed_before.contains(x));
                    }
                }
                if x < i + 1 && piece_removed(before, v, hits@, x as int) {
                    if x < i {
                        assert(listed_before.contains(x));
                        let j = choose|j: int| 0 <= j < listed_before.len() && listed_before[j] == x;
                        assert(removed@[j] == x);
                    }
                }
            }
        }
        i += 1;
    }
    removed
}

fn burst(targets: &mut Vec<Target>, contacts: &Vec<TargetContact>) -> (removed: Vec<usize>)
    ensures
        final(targets)@ == after_contacts(old(targets)@, contacts@),
        ascending(removed@),
        forall|i: usize| removed@.contains(i) <==> target_burst(old(targets)@, contacts@, i as int),
{
    let ghost before = targets@;
    let mut removed: Vec<usize> = Vec::new();
    let mut i: usize = 0;
    while i < targets.len()
        invariant
            i <= targets.len(),
            targets@.len() == before.len(),
            forall|k: int| 0 <= k < i ==> targets@[k] == after_contacts(before, contacts@)[k],
            forall|k: int| i <= k < before.len() ==> targets@[k] == before[k],
            ascending(removed@),
            forall|j: int| 0 <= j < removed@.len() ==> removed@[j] < i,
            forall|x: usize|
                removed@.contains(x) <==> x < i && target_burst(before, contacts@, x as int),
        decreases targets.len() - i,
    {
        let target = targets[i];
        let burst_here = is_burst(targets, contacts, i);
        let ghost listed_before = removed@;
        if burst_here {
            targets.set(i, Target { placement: target.placement, alive: false });
            removed.push(i);
            assert(removed@[removed@.len() - 1] == i);
            assert forall|x: usize|
                removed@.contains(x) <==> x < i + 1 && target_burst(before, contacts@, x as int) by {
                if removed@.contains(x) {
                    let j = choose|j: int| 0 <= j < removed@.len() && removed@[j] == x;
                    if j < listed_before.len() {
                        assert(listed_before.contains(x));
                    }
                }
                if x < i + 1 && target_burst(before, contacts@, x as int) {
                    if x < i {
                        assert(listed_before.contains(x));
                        let j = choose|j: int| 0 <= j < listed_before.len() && listed_before[j] == x;
                        assert(removed@[j] == x);
                    }
                }
            }
        }
        i += 1;
    }
    removed
}

/// The world after the projectile's impacts of one frame. Without a
/// projectile there is nothing that could have struck.
pub open spec fn world_after_impacts(w: WorldView, v: Velocity, hits: Seq<usize>) -> WorldView {
    if w.projectile is Some {
        WorldView { pieces: after_impacts(w.pieces, v, hits), ..w }
    } else {
        w
    }
}

/// The world after one frame's reports on the targets.
pub open spec fn world_after_contacts(w: WorldView, contacts: Seq<TargetContact>) -> WorldView {
    WorldView { targets: after_contacts(w.targets, contacts), ..w }
}

impl World {
    /// Removes what the projectile breaks in this frame.
    ///
    /// `velocity` is the projectile's velocity and `hits` the indices of the
    /// pieces it touches, in any order; an index of no piece, or of one that is
    /// gone, counts for nothing. Every standing piece among them whose material
    /// gives way at that speed is removed, and if any is, every standing
    /// invisible support with it. Returns the indices removed, rising.
    pub fn destroy_pieces(&mut self, velocity: Velocity, hits: &Vec<usize>) -> (removed: Vec<usize>)
        ensures
            final(self)@ == world_after_impacts(old(self)@, velocity, hits@),
            ascending(removed@),
            forall|i: usize|
                removed@.contains(i) <==> old(self)@.projectile is Some && piece_removed(
                    old(self)@.pieces,
                    velocity,
                    hits@,
                    i as int,
                ),
            final(self)@.layout() == old(self)@.layout(),
            old(self)@.coherent() ==> final(self)@.coherent(),
    {
        if self.projectile.is_none() {
            return Vec::new();
        }
        let removed = strike(&mut self.pieces, velocity, hits);
        assert(self@.layout().pieces =~= old(self)@.layout().pieces);
        removed
    }

    /// Removes the targets that burst in this frame.
    ///
    /// Each entry of `contacts` reports on one target; a report on no target,
    /// or on one that is gone, counts for nothing. A target is removed when
    /// some report on it says that it touches something while it moves faster
    /// than [`TARGET_THRESHOLD`], whatever it touches. Returns the indices
    /// removed, rising.
    pub fn destroy_targets(&mut self, contacts: &Vec<TargetContact>) -> (removed: Vec<usize>)
        ensures
            final(self)@ == world_after_contacts(old(self)@, contacts@),
            ascending(removed@),
            forall|i: usize|
                removed@.contains(i) <==> target_burst(old(self)@.targets, contacts@, i as int),
            final(self)@.layout() == old(self)@.layout(),
            old(self)@.coherent() ==> final(self)@.coherent(),
    {
        let removed = burst(&mut self.targets, contacts);
        assert(self@.layout().targets =~= old(self)@.layout().targets);
        removed
    }
}

} // verus!
