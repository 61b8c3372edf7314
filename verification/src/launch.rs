//! The launcher: turning a press, a drag and a release of the pointer into a
//! launch.
//!
//! The launcher is idle or dragging. A press close enough to a projectile on
//! the launcher begins a drag; while the button is held the projectile follows
//! the pointer; letting go throws it. Where no projectile is on the launcher a
//! press begins no drag and nothing is moved or thrown, but letting go ends a
//! drag all the same.

use vstd::prelude::*;
use crate::pieces::BodyMode;
use crate::units::{dist_sq, impulse, launch_impulse, Point, Velocity};
use crate::world::{DragState, Projectile, World, WorldView};

verus! {

/// A press begins a drag when it lands no farther from the projectile than this.
pub const PICK_RADIUS: u32 = 50_000;

/// The pointer in one frame.
#[derive(Clone, Copy, Debug, PartialEq, Eq, Structural)]
pub struct PointerInput {
    /// Where the pointer is, in world coordinates.
    pub pos: Point,
    /// The button went down in this frame.
    pub just_pressed: bool,
    /// The button is down.
    pub pressed: bool,
}

/// What the launcher asks of the physics engine after a frame.
#[derive(Clone, Copy, Debug, PartialEq, Eq, Structural)]
pub enum LaunchAction {
    Nothing,
    /// Move the projectile to `to`. It stays kinematic.
    Dragged { to: Point },
    /// Make the projectile dynamic and give it this velocity.
    Launched { impulse: Velocity },
}

/// A press at `at` takes hold of the projectile: one rests on the launcher,
/// no farther from `at` than the pick radius.
pub open spec fn can_grab(w: WorldView, at: Point) -> bool {
    w.has_resting_projectile() && dist_sq(w.projectile->0.pos, at) <= 50_000 * 50_000
}

/// A hold or a release has something to act on: a drag is under way and a
/// projectile rests on the launcher.
pub open spec fn holds_projectile(w: WorldView) -> bool {
    w.drag.dragging && w.has_resting_projectile()
}

/// The world after a press at `at`.
pub open spec fn pressed_at(w: WorldView, at: Point) -> WorldView {
    if can_grab(w, at) {
        WorldView { drag: DragState { dragging: true, start: at }, ..w }
    } else {
        w
    }
}

/// The world after the pointer was held at `at`.
pub open spec fn held_at(w: WorldView, at: Point) -> WorldView {
    if holds_projectile(w) {
        WorldView { projectile: Some(Projectile { pos: at, ..w.projectile->0 }), ..w }
    } else {
        w
    }
}

/// The world after the button was let go: the drag is over, and a projectile
/// that was held is thrown.
pub open spec fn released(w: WorldView) -> WorldView {
    if holds_projectile(w) {
        WorldView {
            projectile: Some(
                Projectile { on_launcher: false, mode: BodyMode::Dynamic, ..w.projectile->0 },
            ),
            drag: DragState { dragging: false, ..w.drag },
            ..w
        }
    } else {
        WorldView { drag: DragState { dragging: false, ..w.drag }, ..w }
    }
}

/// The velocity that letting go at `at` gives the projectile, if it throws one.
pub open spec fn release_impulse(w: WorldView, at: Point) -> Option<Velocity> {
    if holds_projectile(w) {
        Some(impulse(w.drag.start, at))
    } else {
        None
    }
}

/// The world before the hold or release of a frame: after the frame's press,
/// if there was one.
pub open spec fn after_press(w: WorldView, input: PointerInput) -> WorldView {
    if input.just_pressed {
        pressed_at(w, input.pos)
    } else {
        w
    }
}

/// The world after one frame of pointer input: first the press, if the button
/// went down; then, if a drag is under way, the hold or the release.
pub open spec fn after_pointer(w: WorldView, input: PointerInput) -> WorldView {
    let grabbed = after_press(w, input);
    if !grabbed.drag.dragging {
        grabbed
    } else if input.pressed {
        held_at(grabbed, input.pos)
    } else {
        released(grabbed)
    }
}

/// What one frame of pointer input asks of the physics engine.
pub open spec fn pointer_action(w: WorldView, input: PointerInput) -> LaunchAction {
    let grabbed = after_press(w, input);
    if !holds_projectile(grabbed) {
        LaunchAction::Nothing
    } else if input.pressed {
        LaunchAction::Dragged { to: input.pos }
    } else {
        LaunchAction::Launched { impulse: impulse(grabbed.drag.start, input.pos) }
    }
}

/// The launch velocity is the pull, from where the pointer lets go back to
/// where the drag began, times fifteen, whatever the two positions.
pub proof fn lemma_launch_is_scaled_pull(w: WorldView, at: Point)
    requires
        holds_projectile(w),
    ensures
        release_impulse(w, at) is Some,
        release_impulse(w, at)->0.x == (w.drag.start.x - at.x) * 15,
        release_impulse(w, at)->0.y == (w.drag.start.y - at.y) * 15,
{
}

/// Dragging moves the projectile and changes nothing else about it: it stays
/// on the launcher, in the body mode it had.
pub proof fn lemma_drag_keeps_body_mode(w: WorldView, at: Point)
    ensures
        held_at(w, at).projectile is Some <==> w.projectile is Some,
        w.projectile is Some ==> held_at(w, at).projectile->0.mode == w.projectile->0.mode,
        w.projectile is Some ==> held_at(w, at).projectile->0.on_launcher
            == w.projectile->0.on_launcher,
        held_at(w, at).drag == w.drag,
{
}

/// A press that lands farther from the projectile than the pick radius begins
/// no drag, and letting go afterwards throws nothing.
pub proof fn lemma_far_press_throws_nothing(w: WorldView, press: Point, release: Point)
    requires
        !w.drag.dragging,
        w.projectile is Some ==> dist_sq(w.projectile->0.pos, press) > 50_000 * 50_000,
    ensures
        pressed_at(w, press) == w,
        release_impulse(pressed_at(w, press), release) is None,
        released(pressed_at(w, press)) == w,
{
}

/// Letting go always ends the drag, and throws only a projectile that was
/// held: without one on the launcher nothing but the drag flag changes.
pub proof fn lemma_release_ends_drag(w: WorldView, at: Point)
    ensures
        !released(w).drag.dragging,
        released(w).drag.start == w.drag.start,
        !holds_projectile(w) ==> released(w).projectile == w.projectile && release_impulse(w, at)
            is None,
        released(w).pieces == w.pieces,
        released(w).targets == w.targets,
        released(w).countdown == w.countdown,
        released(w).message == w.message,
{
}

/// A drag lasts only while the button is held: after a frame in which it is
/// not, no drag is under way, whatever the world was. Something is thrown in a
/// frame only with the button up and a projectile on the launcher.
pub proof fn lemma_drag_only_while_held(w: WorldView, input: PointerInput)
    ensures
        after_pointer(w, input).drag.dragging ==> input.pressed,
        pointer_action(w, input) is Launched ==> !input.pressed && w.has_resting_projectile()
            && !after_pointer(w, input).drag.dragging,
        !w.has_resting_projectile() ==> pointer_action(w, input) == LaunchAction::Nothing
            && after_pointer(w, input).projectile == w.projectile,
        !w.has_resting_projectile() && !w.drag.dragging ==> after_pointer(w, input) == w,
{
}

/// No step of the launcher leaves a drag under way without a projectile on
/// the launcher.
pub proof fn lemma_pointer_keeps_coherence(w: WorldView, input: PointerInput)
    requires
        w.coherent(),
    ensures
        pressed_at(w, input.pos).coherent(),
        held_at(w, input.pos).coherent(),
        released(w).coherent(),
        after_pointer(w, input).coherent(),
{
}

impl World {
    /// The button went down at `at`. Returns whether a drag began.
    pub fn press(&mut self, at: Point) -> (grabbed: bool)
        ensures
            final(self)@ == pressed_at(old(self)@, at),
            grabbed == can_grab(old(self)@, at),
    {
        match self.projectile {
            Some(p) => {
                if p.on_launcher && p.pos.is_within(at, PICK_RADIUS) {
                    self.drag = DragState { dragging: true, start: at };
                    true
                } else {
                    false
                }
            },
            None => false,
        }
    }

    /// The button is held with the pointer at `at`. Returns whether the
    /// projectile was moved there.
    pub fn hold(&mut self, at: Point) -> (moved: bool)
        ensures
            final(self)@ == held_at(old(self)@, at),
            moved == holds_projectile(old(self)@),
    {
        if !self.drag.dragging {
            return false;
        }
        match self.projectile {
            Some(p) => {
                if p.on_launcher {
                    self.projectile = Some(Projectile { pos: at, on_launcher: p.on_launcher, mode: p.mode });
                    true
                } else {
                    false
                }
            },
            None => false,
        }
    }

    /// The button was let go with the pointer at `at`. The drag is over,
    /// whether or not there was anything to throw. Returns the velocity to
    /// give the projectile, if one is thrown.
    pub fn release(&mut self, at: Point) -> (thrown: Option<Velocity>)
        ensures
            final(self)@ == released(old(self)@),
            thrown == release_impulse(old(self)@, at),
            !final(self)@.drag.dragging,
    {
        if !self.drag.dragging {
            return None;
        }
        self.drag = DragState { dragging: false, start: self.drag.start };
        match self.projectile {
            Some(p) => {
                if p.on_launcher {
                    let v = launch_impulse(self.drag.start, at);
                    self.projectile = Some(
                        Projectile { pos: p.pos, on_launcher: false, mode: BodyMode::Dynamic },
                    );
                    Some(v)
                } else {
                    None
                }
            },
            None => None,
        }
    }

    /// One frame of pointer input.
    pub fn pointer_frame(&mut self, input: PointerInput) -> (action: LaunchAction)
        ensures
            final(self)@ == after_pointer(old(self)@, input),
            action == pointer_action(old(self)@, input),
            final(self)@.pieces == old(self)@.pieces,
            final(self)@.targets == old(self)@.targets,
            final(self)@.countdown == old(self)@.countdown,
            final(self)@.message == old(self)@.message,
            final(self)@.drag.dragging ==> input.pressed,
            old(self)@.coherent() ==> final(self)@.coherent(),
    {
        if input.just_pressed {
            self.press(input.pos);
        }
        if !self.drag.dragging {
            return LaunchAction::Nothing;
        }
        if input.pressed {
            if self.hold(input.pos) {
                LaunchAction::Dragged { to: input.pos }
            } else {
                LaunchAction::Nothing
            }
        } else {
            match self.release(input.pos) {
                Some(v) => LaunchAction::Launched { impulse: v },
                None => LaunchAction::Nothing,
            }
        }
    }
}

} // verus!
