//! The life cycle of one animation: idle, running, finished.
//!
//! The canvas owns neither a clock nor a window. Its caller reads a
//! monotonic clock, hands the reading over in whole nanoseconds with every
//! call, and acts on what comes back.

use vstd::prelude::*;
use crate::particle::{drawn, stepped, Emitter, Motion, Particle, Particles, Scene, Sprite};

verus! {

/// An opacity as a fraction: `part` out of `whole`.
#[derive(Clone, Copy, Debug, PartialEq, Eq, Structural)]
pub struct Alpha {
    pub part: u64,
    pub whole: u64,
}

/// What a tick asks of the caller.
#[derive(Clone, Copy, Debug, PartialEq, Eq, Structural)]
pub enum Tick {
    /// The canvas is not running: there is nothing to do, and no further
    /// tick is wanted.
    Stopped,
    /// The animation has run its time: no further tick is wanted, and the
    /// window can go.
    Finished,
    /// The particles have moved: the canvas is to be drawn again.
    Redraw,
}

/// What is drawn at one moment.
pub struct Frame {
    /// Nanoseconds since the start.
    pub elapsed: u64,
    /// The opacity of the whole animation.
    pub alpha: Alpha,
    /// The sprites, in drawing order.
    pub sprites: Vec<Sprite>,
}

/// A running animation: its particles, when it started and when it last
/// ticked.
pub struct State<B> {
    ps: Particles<B>,
    t0: u64,
    last: u64,
}

enum Phase<B> {
    Idle,
    Running(State<B>),
    Finished,
}

/// The animation of one scene.
pub struct Canvas<B> {
    scene: Scene,
    phase: Phase<B>,
}

/// The state of a canvas as plain values.
pub ghost enum Stage<B> {
    Idle,
    Running { particles: Seq<Particle<B>>, start: u64, last: u64 },
    Finished,
}

/// The time from `then` to `now`, and nothing where the clock went back.
pub open spec fn since(then: u64, now: u64) -> u64 {
    if now >= then {
        (now - then) as u64
    } else {
        0
    }
}

impl Alpha {
    /// Fully opaque.
    pub open spec fn full() -> Alpha {
        Alpha { part: 1, whole: 1 }
    }

    /// Fully transparent.
    pub open spec fn none() -> Alpha {
        Alpha { part: 0, whole: 1 }
    }

    /// The fraction is one between nothing and all.
    pub open spec fn wf(self) -> bool {
        self.part <= self.whole && self.whole > 0
    }

    /// Whether this opacity is greater than `other`.
    pub open spec fn above(self, other: Alpha) -> bool {
        self.part * other.whole > other.part * self.whole
    }

    /// Whether this opacity is the same fraction as `other`.
    pub open spec fn same(self, other: Alpha) -> bool {
        self.part * other.whole == other.part * self.whole
    }
}

impl Scene {
    /// The opacity of the whole animation after `elapsed`: full until `fade`
    /// before the end, then falling in a straight line to nothing at the
    /// end. Without a fade it is full up to the end and nothing after it.
    pub open spec fn alpha_spec(self, elapsed: u64) -> Alpha {
        if elapsed + self.fade <= self.duration {
            Alpha::full()
        } else if elapsed >= self.duration {
            Alpha::none()
        } else {
            Alpha { part: (self.duration - elapsed) as u64, whole: self.fade }
        }
    }

    /// The opacity of the whole animation after `elapsed`.
    pub fn alpha(&self, elapsed: u64) -> (a: Alpha)
        ensures
            a == self.alpha_spec(elapsed),
            a.wf(),
    {
        if elapsed <= self.duration && self.fade <= self.duration - elapsed {
            Alpha { part: 1, whole: 1 }
        } else if elapsed >= self.duration {
            Alpha { part: 0, whole: 1 }
        } else {
            Alpha { part: self.duration - elapsed, whole: self.fade }
        }
    }

    /// Whether the animation is over after `elapsed`.
    pub open spec fn over(self, elapsed: u64) -> bool {
        elapsed > self.duration
    }
}

impl<B> View for Canvas<B> {
    type V = Stage<B>;

    closed spec fn view(&self) -> Stage<B> {
        match self.phase {
            Phase::Idle => Stage::Idle,
            Phase::Running(st) => Stage::Running {
                particles: st.ps@,
                start: st.t0,
                last: st.last,
            },
            Phase::Finished => Stage::Finished,
        }
    }
}

impl<B> Canvas<B> {
    /// The scene has a colour, and while the animation runs it has the
    /// particles of its scene.
    pub closed spec fn wf(&self) -> bool {
        &&& self.scene.palette > 0
        &&& match self.phase {
            Phase::Running(st) => st.ps.wf() && st.ps@.len() == self.scene.particles,
            _ => true,
        }
    }

    /// The scene that the canvas plays.
    pub closed spec fn scene_spec(&self) -> Scene {
        self.scene
    }

    /// An idle canvas for `scene`.
    pub fn new(scene: Scene) -> (c: Canvas<B>)
        requires
            scene.palette > 0,
        ensures
            c.wf(),
            c.scene_spec() == scene,
            c@ is Idle,
    {
        Canvas { scene, phase: Phase::Idle }
    }

    /// The scene that the canvas plays.
    #[verifier::when_used_as_spec(scene_spec)]
    pub fn scene(&self) -> (s: Scene)
        ensures
            s == self.scene_spec(),
    {
        self.scene
    }

    /// Whether the animation runs.
    pub fn is_running(&self) -> (r: bool)
        ensures
            r == (self@ is Running),
    {
        match &self.phase {
            Phase::Running(_) => true,
            _ => false,
        }
    }

    /// Whether the animation has run its time.
    pub fn is_finished(&self) -> (r: bool)
        ensures
            r == (self@ is Finished),
    {
        match &self.phase {
            Phase::Finished => true,
            _ => false,
        }
    }

    /// The particles of a running canvas.
    pub fn particles(&self) -> (r: Option<&Particles<B>>)
        requires
            self.wf(),
        ensures
            match self@ {
                Stage::Running { particles, start, last } => r matches Some(ps) && ps.wf() && ps@
                    == particles,
                _ => r is None,
            },
    {
        match &self.phase {
            Phase::Running(st) => Some(&st.ps),
            _ => None,
        }
    }

    /// Starts the animation at `now`: an idle canvas seeds its particles and
    /// runs. A canvas that runs or has finished stays as it is.
    pub fn start<F: Fn(Emitter) -> B>(&mut self, now: u64, spawn: F) -> (started: bool)
        requires
            old(self).wf(),
            forall|e: Emitter| spawn.requires((e,)),
        ensures
            final(self).wf(),
            final(self).scene_spec() == old(self).scene_spec(),
            started == (old(self)@ is Idle),
            !started ==> final(self)@ == old(self)@,
            started ==> (final(self)@ matches Stage::Running { particles, start, last } && {
                let scene = old(self).scene_spec();
                &&& start == now
                &&& last == now
                &&& particles.len() == scene.particles
                &&& forall|i: int|
                    0 <= i < particles.len() ==> spawn.ensures(
                        (scene.anim_type.emitter_spec(i, scene.particles as int),),
                        (#[trigger] particles[i]).body,
                    )
                &&& forall|i: int|
                    0 <= i < particles.len() ==> Particles::seeded(scene, #[trigger] particles[i])
            }),
    {
        match &self.phase {
            Phase::Idle => {},
            _ => {
                return false;
            },
        }
        let ps = Particles::new(&self.scene, spawn);
        self.phase = Phase::Running(State { ps, t0: now, last: now });
        true
    }

    /// Takes one tick at `now`.
    ///
    /// A canvas that does not run stays as it is. A running canvas finishes
    /// as soon as more than the scene's duration has passed since its start;
    /// until then every tick moves the active particles by the time since
    /// the tick before and asks for a redraw.
    pub fn tick<F: Fn(Motion, u64, &B) -> B>(&mut self, now: u64, advance: F) -> (t: Tick)
        requires
            old(self).wf(),
            forall|m: Motion, d: u64, b: &B| advance.requires((m, d, b)),
        ensures
            final(self).wf(),
            final(self).scene_spec() == old(self).scene_spec(),
            match old(self)@ {
                Stage::Running { particles, start, last } => {
                    let scene = old(self).scene_spec();
                    let elapsed = since(start, now);
                    if scene.over(elapsed) {
                        t == Tick::Finished && final(self)@ is Finished
                    } else {
                        &&& t == Tick::Redraw
                        &&& final(self)@ matches Stage::Running {
                            particles: moved,
                            start: s,
                            last: l,
                        }
                        &&& s == start
                        &&& l == now
                        &&& stepped(
                            particles,
                            moved,
                            scene.anim_type,
                            since(last, now),
                            elapsed,
                            advance,
                        )
                    }
                },
                _ => t == Tick::Stopped && final(self)@ == old(self)@,
            },
    {
        let (start, last) = match &self.phase {
            Phase::Running(st) => (st.t0, st.last),
            _ => {
                return Tick::Stopped;
            },
        };
        let elapsed = now.saturating_sub(start);
        if elapsed > self.scene.duration {
            self.phase = Phase::Finished;
            return Tick::Finished;
        }
        let delta = now.saturating_sub(last);
        let kind = self.scene.anim_type;
        match &mut self.phase {
            Phase::Running(st) => {
                st.last = now;
                st.ps.step(kind, delta, elapsed, advance);
            },
            _ => {},
        }
        Tick::Redraw
    }

    /// What is to be drawn at `now`: for a running canvas the time since the
    /// start, the opacity of the whole and the sprites of the active
    /// particles; nothing for a canvas that does not run.
    pub fn snapshot(&self, now: u64) -> (f: Option<Frame>)
        requires
            self.wf(),
        ensures
            match self@ {
                Stage::Running { particles, start, last } => f matches Some(frame) && {
                    let scene = self.scene_spec();
                    &&& frame.elapsed == since(start, now)
                    &&& frame.alpha == scene.alpha_spec(frame.elapsed)
                    &&& frame.sprites@ == drawn(particles, scene.anim_type, frame.elapsed)
                },
                _ => f is None,
            },
    {
        match &self.phase {
            Phase::Running(st) => {
                let elapsed = now.saturating_sub(st.t0);
                Some(
                    Frame {
                        elapsed,
                        alpha: self.scene.alpha(elapsed),
                        sprites: st.ps.draw(self.scene.anim_type, elapsed),
                    },
                )
            },
            _ => None,
        }
    }
}

/// The opacity is a fraction between nothing and all, and it is full as long
/// as the fade has not begun.
pub proof fn lemma_alpha_full(scene: Scene, elapsed: u64)
    ensures
        scene.alpha_spec(elapsed).wf(),
        elapsed + scene.fade <= scene.duration ==> scene.alpha_spec(elapsed) == Alpha::full(),
{
}

/// During the fade the opacity falls: of two moments after the fade has
/// begun and up to the end, the later has the lesser opacity.
pub proof fn lemma_alpha_falls(scene: Scene, earlier: u64, later: u64)
    requires
        earlier + scene.fade > scene.duration,
        earlier < later <= scene.duration,
    ensures
        scene.alpha_spec(earlier).above(scene.alpha_spec(later)),
{
    let a = scene.alpha_spec(earlier);
    let b = scene.alpha_spec(later);
    if later < scene.duration {
        assert(a.part > b.part && a.whole == b.whole && a.whole > 0);
        assert(a.part * b.whole > b.part * a.whole) by (nonlinear_arith)
            requires
                a.part > b.part,
                a.whole == b.whole,
                a.whole > 0,
        ;
    } else {
        assert(b == Alpha::none());
        assert(a.part > 0);
        assert(a.part * 1 > 0 * a.whole);
    }
}

/// From the end on nothing is left of the opacity, and the animation is over
/// exactly when more than its duration has passed.
pub proof fn lemma_alpha_ends(scene: Scene, elapsed: u64)
    ensures
        elapsed >= scene.duration && scene.fade > 0 ==> scene.alpha_spec(elapsed) == Alpha::none(),
        elapsed > scene.duration ==> scene.alpha_spec(elapsed) == Alpha::none(),
        scene.over(elapsed) <==> elapsed > scene.duration,
{
}

} // verus!
