//! The respawn scheduler: when a new projectile is set on the launcher.
//!
//! While a projectile rests on the launcher the countdown is held at zero.
//! From the frame in which there is none, launched or absent, time is
//! counted, and when the delay has run out a fresh projectile takes the place
//! of whatever projectile there was.

use rand::rngs::StdRng;
use vstd::prelude::*;
use crate::chance::draw;
use crate::launch::{holds_projectile, released};
use crate::world::{resting_projectile, zero_countdown, Countdown, Projectile, World, WorldView};

verus! {

/// Two seconds, in nanoseconds.
pub const RESPAWN_DELAY: u64 = 2_000_000_000;

pub const FLAVOR_XZ: &'static str =
    "The XZ utils incident: where a hacker snuck a virus into burnt-out maintainer's code";

pub const FLAVOR_FFMPEG: &'static str =
    "The FFMPEG incident: where Microsoft demanded volunteers to fix their 'high priority' issue";

pub const FLAVOR_REDIS: &'static str =
    "Amazon vs Redis: When Amazon wrapped Redis' code and made billions by selling it as a cloud service";

pub const FLAVOR_OPENSSL: &'static str =
    "OpenSSL: Funding cuts for a library used by most internet encryption";

/// The lines of text that a new projectile may bring to the display.
pub open spec fn flavor_texts() -> Seq<&'static str> {
    seq![FLAVOR_XZ, FLAVOR_FFMPEG, FLAVOR_REDIS, FLAVOR_OPENSSL]
}

/// The countdown runs out in a frame of `delta` nanoseconds: it had not run
/// out before, and with this frame the time counted reaches the delay.
pub open spec fn fires(c: Countdown, delta: u64) -> bool {
    !c.finished && c.elapsed + delta >= 2_000_000_000
}

/// The countdown after a frame of `delta` nanoseconds. Once it has run out it
/// stays as it is until it is reset.
pub open spec fn ticked(c: Countdown, delta: u64) -> Countdown {
    if c.finished {
        c
    } else if c.elapsed + delta >= 2_000_000_000 {
        Countdown { elapsed: 2_000_000_000, finished: true }
    } else {
        Countdown { elapsed: (c.elapsed + delta) as u64, finished: false }
    }
}

/// A new projectile is due in this frame: none rests on the launcher and the
/// countdown runs out.
pub open spec fn respawn_due(w: WorldView, delta: u64) -> bool {
    !w.has_resting_projectile() && fires(w.countdown, delta)
}

/// The world after the scheduler's frame of `delta` nanoseconds, where `pick`
/// is the line of text drawn for a new projectile, if one was drawn.
pub open spec fn after_respawn(w: WorldView, delta: u64, pick: Option<&'static str>) -> WorldView {
    if w.has_resting_projectile() {
        WorldView { countdown: zero_countdown(), ..w }
    } else if fires(w.countdown, delta) {
        WorldView {
            projectile: Some(resting_projectile()),
            countdown: zero_countdown(),
            message: match pick {
                Some(text) => text,
                None => w.message,
            },
            ..w
        }
    } else {
        WorldView { countdown: ticked(w.countdown, delta), ..w }
    }
}

/// The time that the first `k` frames take together.
pub open spec fn total_time(frames: Seq<u64>, k: int) -> int
    decreases k,
{
    if k <= 0 {
        0
    } else {
        total_time(frames, k - 1) + frames[k - 1]
    }
}

/// The world after the scheduler has seen the first `k` frames, nothing else
/// acting on the world in between.
pub open spec fn after_frames(
    w: WorldView,
    frames: Seq<u64>,
    picks: Seq<Option<&'static str>>,
    k: int,
) -> WorldView
    decreases k,
{
    if k <= 0 {
        w
    } else {
        after_respawn(after_frames(w, frames, picks, k - 1), frames[k - 1], picks[k - 1])
    }
}

/// From the moment no projectile rests on the launcher, a new one is there
/// after a frame exactly when the frames since then add up to the full delay
/// of two seconds: not before, and no later than the frame that completes it.
/// Until then the scheduler leaves the projectile as it is and the countdown
/// shows the time that has passed.
pub proof fn lemma_respawn_after_full_delay(
    w: WorldView,
    frames: Seq<u64>,
    picks: Seq<Option<&'static str>>,
    k: int,
)
    requires
        !w.has_resting_projectile(),
        w.countdown == zero_countdown(),
        0 <= k <= frames.len(),
        frames.len() == picks.len(),
    ensures
        after_frames(w, frames, picks, k).has_resting_projectile() <==> total_time(frames, k)
            >= 2_000_000_000,
        total_time(frames, k) < 2_000_000_000 ==> {
            &&& after_frames(w, frames, picks, k).projectile == w.projectile
            &&& after_frames(w, frames, picks, k).countdown.elapsed == total_time(frames, k)
            &&& !after_frames(w, frames, picks, k).countdown.finished
        },
        total_time(frames, k) >= 2_000_000_000 ==> after_frames(w, frames, picks, k).projectile
            == Some(resting_projectile()),
    decreases k,
{
    if k > 0 {
        lemma_respawn_after_full_delay(w, frames, picks, k - 1);
    }
}

/// Counting begins with the launch: where the scheduler has seen a projectile
/// rest on the launcher and that projectile is then thrown, a new one is on
/// the launcher exactly when the frames since the throw add up to two seconds.
pub proof fn lemma_respawn_two_seconds_after_launch(
    w: WorldView,
    before: u64,
    frames: Seq<u64>,
    picks: Seq<Option<&'static str>>,
    k: int,
)
    requires
        holds_projectile(w),
        0 <= k <= frames.len(),
        frames.len() == picks.len(),
    ensures
        !released(after_respawn(w, before, None)).has_resting_projectile(),
        after_frames(released(after_respawn(w, before, None)), frames, picks, k)
            .has_resting_projectile() <==> total_time(frames, k) >= 2_000_000_000,
{
    lemma_respawn_after_full_delay(released(after_respawn(w, before, None)), frames, picks, k);
}

/// There is never more than one projectile: a new one takes the place of
/// whatever projectile there was, and where none is due the scheduler leaves
/// the projectile as it is.
pub proof fn lemma_one_projectile_at_most(w: WorldView, delta: u64, pick: Option<&'static str>)
    ensures
        w.projectile_count() <= 1,
        after_respawn(w, delta, pick).projectile_count() <= 1,
        respawn_due(w, delta) ==> after_respawn(w, delta, pick).projectile == Some(
            resting_projectile(),
        ),
        !respawn_due(w, delta) ==> after_respawn(w, delta, pick).projectile == w.projectile,
{
}

/// The scheduler never leaves a drag under way without a projectile on the
/// launcher.
pub proof fn lemma_respawn_keeps_coherence(w: WorldView, delta: u64, pick: Option<&'static str>)
    requires
        w.coherent(),
    ensures
        after_respawn(w, delta, pick).coherent(),
{
}

impl Countdown {
    /// A countdown with no time counted.
    pub fn new() -> (c: Countdown)
        ensures
            c == zero_countdown(),
    {
        Countdown { elapsed: 0, finished: false }
    }

    /// Starts over.
    pub fn reset(&mut self)
        ensures
            *final(self) == zero_countdown(),
    {
        self.elapsed = 0;
        self.finished = false;
    }

    /// Counts a frame of `delta` nanoseconds. Returns whether the countdown
    /// ran out in this frame.
    pub fn tick(&mut self, delta: u64) -> (fired: bool)
        ensures
            *final(self) == ticked(*old(self), delta),
            fired == fires(*old(self), delta),
    {
        if self.finished {
            return false;
        }
        if self.elapsed >= RESPAWN_DELAY || delta >= RESPAWN_DELAY - self.elapsed {
            self.elapsed = RESPAWN_DELAY;
            self.finished = true;
            true
        } else {
            self.elapsed = self.elapsed + delta;
            false
        }
    }
}

/// The pool that a new projectile's line of text is drawn from.
pub fn flavor_pool() -> (pool: Vec<&'static str>)
    ensures
        pool@ == flavor_texts(),
{
    let mut pool: Vec<&'static str> = Vec::new();
    pool.push(FLAVOR_XZ);
    pool.push(FLAVOR_FFMPEG);
    pool.push(FLAVOR_REDIS);
    pool.push(FLAVOR_OPENSSL);
    pool
}

impl World {
    /// Whether a frame of `delta` nanoseconds brings a new projectile.
    pub fn respawn_due(&self, delta: u64) -> (due: bool)
        ensures
            due == respawn_due(self@, delta),
    {
        let resting = match self.projectile {
            Some(p) => p.on_launcher,
            None => false,
        };
        !resting && !self.countdown.finished && (self.countdown.elapsed >= RESPAWN_DELAY || delta
            >= RESPAWN_DELAY - self.countdown.elapsed)
    }

    /// The scheduler's frame, with the line of text for a new projectile
    /// given: `pick` is put on display if a projectile is set on the launcher
    /// in this frame, and counts for nothing otherwise. Returns whether one
    /// was set there.
    pub fn respawn_with(&mut self, delta: u64, pick: Option<&'static str>) -> (spawned: bool)
        ensures
            final(self)@ == after_respawn(old(self)@, delta, pick),
            spawned == respawn_due(old(self)@, delta),
            old(self)@.coherent() ==> final(self)@.coherent(),
    {
        let resting = match self.projectile {
            Some(p) => p.on_launcher,
            None => false,
        };
        if resting {
            self.countdown.reset();
            return false;
        }
        if self.countdown.tick(delta) {
            self.projectile = Some(Projectile::resting());
            self.countdown.reset();
            match pick {
                Some(text) => {
                    self.message = text;
                },
                None => {},
            }
            true
        } else {
            false
        }
    }

    /// The scheduler's frame. When a projectile is set on the launcher, the
    /// display gets a line drawn by `rng` from the pool of [`flavor_pool`];
    /// in any other frame `rng` is left alone. Returns whether a projectile
    /// was set there.
    pub fn respawn_frame(&mut self, delta: u64, rng: &mut StdRng) -> (spawned: bool)
        ensures
            spawned == respawn_due(old(self)@, delta),
            !spawned ==> final(self)@ == after_respawn(old(self)@, delta, None),
            !spawned ==> *final(rng) == *old(rng),
            spawned ==> exists|k: int|
                0 <= k < flavor_texts().len() && final(self)@ == after_respawn(
                    old(self)@,
                    delta,
                    Some(#[trigger] flavor_texts()[k]),
                ),
            old(self)@.coherent() ==> final(self)@.coherent(),
    {
        if !self.respawn_due(delta) {
            return self.respawn_with(delta, None);
        }
        let pool = flavor_pool();
        let pick = draw(&pool, rng);
        self.respawn_with(delta, pick)
    }
}

} // verus!
