//! The particle population: what every particle carries, how a population is
//! seeded, which particles take part at a given time, and the form in which
//! each of them is drawn.
//!
//! All times are whole nanoseconds. The library never reads the body of a
//! particle (its position, velocity, size and phase): the caller supplies the
//! functions that make a body and that move it, and the library decides when
//! and to which particle they are applied.

use vstd::prelude::*;
use crate::random::{coin, uniform_below};
use crate::types::{AnimType, Shape};

verus! {

/// One second, in nanoseconds.
pub const SECOND: u64 = 1_000_000_000;

/// What an animation needs to know of its settings in order to seed
/// particles and to run: `palette` is the number of colours, `duration` and
/// `fade` are nanoseconds.
#[derive(Clone, Copy, Debug, PartialEq, Eq, Structural)]
pub struct Scene {
    pub anim_type: AnimType,
    pub shape: Shape,
    pub particles: usize,
    pub palette: usize,
    pub duration: u64,
    pub fade: u64,
}

/// Where and how a particle is launched.
#[derive(Clone, Copy, Debug, PartialEq, Eq, Structural)]
pub enum Emitter {
    /// From the lower left corner, inwards.
    LeftCorner,
    /// From the lower right corner, inwards.
    RightCorner,
    /// From the middle of the lower edge, upwards.
    Cannon,
    /// From the centre, in every direction.
    Burst,
    /// From one point shared by all particles, in every direction.
    Rocket,
    /// From a band above the upper edge, drifting down.
    Snowfall,
    /// From above the upper edge, falling fast.
    Rainfall,
    /// Anywhere in view, at rest.
    Field,
    /// From just above the upper edge, around the middle.
    Drop,
}

/// One particle as the library sees it.
pub struct Particle<B> {
    /// What the caller made for this particle.
    pub body: B,
    /// Nanoseconds after the start before the particle takes part.
    pub delay: u64,
    /// Index into the palette.
    pub color: u8,
    /// Whether the particle is drawn round.
    pub is_circle: bool,
}

/// The rule by which an active particle moves during one step.
#[derive(Clone, Copy, Debug, PartialEq, Eq, Structural)]
pub enum Motion {
    /// Only the phase of the twinkle advances; the particle stays in place.
    Twinkle,
    /// The particle sways sideways with its phase and sinks under gravity,
    /// without drag.
    Drift,
    /// The particle flies under gravity and drag.
    Ballistic,
}

/// Which lengths of a particle give the size of its sprite.
#[derive(Clone, Copy, Debug, PartialEq, Eq, Structural)]
pub enum Extent {
    /// As wide and as high as the particle's width.
    Side,
    /// As wide and as high as the mean of the particle's width and height.
    Mean,
    /// The particle's height, and its width scaled by the flutter of its
    /// phase.
    Flutter,
    /// The particle's width and height as they are.
    Base,
}

/// The form in which one particle is drawn: a draw primitive without its
/// numbers, which the caller reads from the body of particle `index`.
#[derive(Clone, Copy, Debug, PartialEq, Eq, Structural)]
pub struct Sprite {
    /// The particle that is drawn.
    pub index: usize,
    /// Index into the palette.
    pub color: u8,
    /// A circle if set, a rectangle if not.
    pub round: bool,
    /// The size of the sprite.
    pub extent: Extent,
    /// Whether the sprite is turned by the particle's rotation.
    pub turns: bool,
    /// Whether the opacity follows the particle's phase, and the sprite is
    /// left out while it is too faint to see.
    pub twinkles: bool,
}

/// The range from which the width and the height of a particle are drawn, in
/// tenths of a pixel.
#[derive(Clone, Copy, Debug, PartialEq, Eq, Structural)]
pub struct SizeRange {
    pub width_min: u16,
    pub width_max: u16,
    pub height_min: u16,
    pub height_max: u16,
}

/// A population of particles, held as one column per attribute. A particle
/// is known by its index alone.
pub struct Particles<B> {
    body: Vec<B>,
    delay: Vec<u64>,
    color: Vec<u8>,
    is_circle: Vec<bool>,
}

impl AnimType {
    /// The emitter of particle `index` out of `count`: confetti leaves the
    /// first half of the particles from the left corner and the rest from the
    /// right one, every other kind has one emitter.
    pub open spec fn emitter_spec(self, index: int, count: int) -> Emitter {
        match self {
            AnimType::Confetti => if index < count / 2 {
                Emitter::LeftCorner
            } else {
                Emitter::RightCorner
            },
            AnimType::Cannon => Emitter::Cannon,
            AnimType::Pop => Emitter::Burst,
            AnimType::Fireworks => Emitter::Rocket,
            AnimType::Snow => Emitter::Snowfall,
            AnimType::Rain => Emitter::Rainfall,
            AnimType::Sparkle => Emitter::Field,
            AnimType::Drop => Emitter::Drop,
        }
    }

    /// The emitter of particle `index` out of `count`.
    pub fn emitter(self, index: usize, count: usize) -> (r: Emitter)
        ensures
            r == self.emitter_spec(index as int, count as int),
    {
        match self {
            AnimType::Confetti => if index < count / 2 {
                Emitter::LeftCorner
            } else {
                Emitter::RightCorner
            },
            AnimType::Cannon => Emitter::Cannon,
            AnimType::Pop => Emitter::Burst,
            AnimType::Fireworks => Emitter::Rocket,
            AnimType::Snow => Emitter::Snowfall,
            AnimType::Rain => Emitter::Rainfall,
            AnimType::Sparkle => Emitter::Field,
            AnimType::Drop => Emitter::Drop,
        }
    }

    /// The bound below which delays are drawn, for an animation that lasts
    /// `duration`: one and a half seconds for snow and rain, six tenths of
    /// the duration for sparkles, half a second for drop, three tenths of a
    /// second for the rest.
    pub open spec fn delay_bound_spec(self, duration: u64) -> u64 {
        match self {
            AnimType::Snow | AnimType::Rain => 1_500_000_000,
            AnimType::Sparkle => (duration as int * 6 / 10) as u64,
            AnimType::Drop => 500_000_000,
            _ => 300_000_000,
        }
    }

    /// The bound below which delays are drawn.
    pub fn delay_bound(self, duration: u64) -> (r: u64)
        ensures
            r == self.delay_bound_spec(duration),
    {
        match self {
            AnimType::Snow | AnimType::Rain => 1_500_000_000,
            AnimType::Sparkle => {
                let wide: u128 = duration as u128 * 6 / 10;
                wide as u64
            },
            AnimType::Drop => 500_000_000,
            _ => 300_000_000,
        }
    }
}

impl AnimType {
    /// The sizes of the particles of a kind, in tenths of a pixel: streaks
    /// for rain, small squares for fireworks, snow and sparkles, flat
    /// rectangles for the rest.
    pub open spec fn size_range_spec(self) -> SizeRange {
        match self {
            AnimType::Fireworks => SizeRange {
                width_min: 30,
                width_max: 60,
                height_min: 30,
                height_max: 60,
            },
            AnimType::Snow => SizeRange {
                width_min: 40,
                width_max: 80,
                height_min: 40,
                height_max: 80,
            },
            AnimType::Rain => SizeRange {
                width_min: 15,
                width_max: 30,
                height_min: 150,
                height_max: 300,
            },
            AnimType::Sparkle => SizeRange {
                width_min: 20,
                width_max: 50,
                height_min: 20,
                height_max: 50,
            },
            _ => SizeRange { width_min: 50, width_max: 120, height_min: 30, height_max: 80 },
        }
    }

    /// The sizes of the particles of a kind, in tenths of a pixel.
    #[verifier::when_used_as_spec(size_range_spec)]
    pub fn size_range(self) -> (r: SizeRange)
        ensures
            r == self.size_range_spec(),
    {
        let (width_min, width_max, height_min, height_max): (u16, u16, u16, u16) = match self {
            AnimType::Fireworks => (30, 60, 30, 60),
            AnimType::Snow => (40, 80, 40, 80),
            AnimType::Rain => (15, 30, 150, 300),
            AnimType::Sparkle => (20, 50, 20, 50),
            _ => (50, 120, 30, 80),
        };
        SizeRange { width_min, width_max, height_min, height_max }
    }

    /// The greatest speed of rotation of a kind, in radians per second;
    /// speeds are drawn between it and its negative. Rain and sparkles do
    /// not rotate at all, snow turns slowly.
    pub open spec fn spin_limit_spec(self) -> u8 {
        match self {
            AnimType::Rain | AnimType::Sparkle => 0,
            AnimType::Snow => 3,
            _ => 12,
        }
    }

    /// The greatest speed of rotation of a kind, in radians per second.
    #[verifier::when_used_as_spec(spin_limit_spec)]
    pub fn spin_limit(self) -> (r: u8)
        ensures
            r == self.spin_limit_spec(),
    {
        match self {
            AnimType::Rain | AnimType::Sparkle => 0,
            AnimType::Snow => 3,
            _ => 12,
        }
    }

    /// The rule by which particles of a kind move: sparkles twinkle, snow
    /// drifts, everything else flies.
    pub open spec fn motion_spec(self) -> Motion {
        match self {
            AnimType::Sparkle => Motion::Twinkle,
            AnimType::Snow => Motion::Drift,
            _ => Motion::Ballistic,
        }
    }

    /// The rule by which particles of a kind move.
    #[verifier::when_used_as_spec(motion_spec)]
    pub fn motion(self) -> (r: Motion)
        ensures
            r == self.motion_spec(),
    {
        match self {
            AnimType::Sparkle => Motion::Twinkle,
            AnimType::Snow => Motion::Drift,
            _ => Motion::Ballistic,
        }
    }

    /// The sprite of a particle of this kind.
    ///
    /// A sparkle is a square or a disc of the particle's width that twinkles
    /// and does not turn. In every other kind a round particle is a disc of
    /// the mean of width and height, and a rectangle flutters in width; rain
    /// alone neither flutters nor turns.
    pub open spec fn sprite_spec(self, index: usize, color: u8, is_circle: bool) -> Sprite {
        let sparkle = self == AnimType::Sparkle;
        let rain = self == AnimType::Rain;
        Sprite {
            index,
            color,
            round: is_circle,
            extent: if sparkle {
                Extent::Side
            } else if is_circle {
                Extent::Mean
            } else if rain {
                Extent::Base
            } else {
                Extent::Flutter
            },
            turns: !sparkle && !rain,
            twinkles: sparkle,
        }
    }

    /// The sprite of a particle of this kind.
    #[verifier::when_used_as_spec(sprite_spec)]
    pub fn sprite(self, index: usize, color: u8, is_circle: bool) -> (r: Sprite)
        ensures
            r == self.sprite_spec(index, color, is_circle),
    {
        match self {
            AnimType::Sparkle => Sprite {
                index,
                color,
                round: is_circle,
                extent: Extent::Side,
                turns: false,
                twinkles: true,
            },
            AnimType::Rain => Sprite {
                index,
                color,
                round: is_circle,
                extent: if is_circle {
                    Extent::Mean
                } else {
                    Extent::Base
                },
                turns: false,
                twinkles: false,
            },
            _ => Sprite {
                index,
                color,
                round: is_circle,
                extent: if is_circle {
                    Extent::Mean
                } else {
                    Extent::Flutter
                },
                turns: true,
                twinkles: false,
            },
        }
    }
}

impl<B> Particle<B> {
    /// Whether the particle takes part once `elapsed` has passed since the
    /// start: from its delay on.
    pub open spec fn active(self, elapsed: u64) -> bool {
        self.delay <= elapsed
    }
}

/// What one step makes of a population.
///
/// No particle comes or goes, and delays, colours and shapes stay. The body
/// of a particle that is not yet active stays as it is. The body of an active
/// particle becomes what `advance` makes of it under the motion of `kind`
/// over `delta`.
pub open spec fn stepped<B, F: Fn(Motion, u64, &B) -> B>(
    before: Seq<Particle<B>>,
    after: Seq<Particle<B>>,
    kind: AnimType,
    delta: u64,
    elapsed: u64,
    advance: F,
) -> bool {
    &&& after.len() == before.len()
    &&& forall|i: int|
        #![trigger after[i]]
        0 <= i < before.len() ==> {
            &&& after[i].delay == before[i].delay
            &&& after[i].color == before[i].color
            &&& after[i].is_circle == before[i].is_circle
            &&& before[i].active(elapsed) ==> advance.ensures(
                (kind.motion_spec(), delta, &before[i].body),
                after[i].body,
            )
            &&& !before[i].active(elapsed) ==> after[i].body == before[i].body
        }
}

/// The sprites of a population after `elapsed`: one for each active
/// particle, in the order of the particles.
pub open spec fn drawn<B>(ps: Seq<Particle<B>>, kind: AnimType, elapsed: u64) -> Seq<Sprite>
    decreases ps.len(),
{
    if ps.len() == 0 {
        Seq::empty()
    } else {
        let last = ps.len() - 1;
        let rest = drawn(ps.drop_last(), kind, elapsed);
        if ps[last].active(elapsed) {
            rest.push(kind.sprite_spec(last as usize, ps[last].color, ps[last].is_circle))
        } else {
            rest
        }
    }
}

impl Scene {
    /// The number of palette entries that a colour index can reach.
    pub open spec fn reach(self) -> int {
        if self.palette < 256 {
            self.palette as int
        } else {
            256
        }
    }
}

impl<B> View for Particles<B> {
    type V = Seq<Particle<B>>;

    closed spec fn view(&self) -> Seq<Particle<B>> {
        Seq::new(
            self.body@.len(),
            |i: int|
                Particle {
                    body: self.body@[i],
                    delay: self.delay@[i],
                    color: self.color@[i],
                    is_circle: self.is_circle@[i],
                },
        )
    }
}

impl<B> Particles<B> {
    /// Every column holds one entry for each particle.
    pub closed spec fn wf(&self) -> bool {
        &&& self.delay@.len() == self.body@.len()
        &&& self.color@.len() == self.body@.len()
        &&& self.is_circle@.len() == self.body@.len()
    }

    /// Whether a delay, a colour index and a shape flag are ones that
    /// seeding can give to a particle of `scene`.
    pub open spec fn seeded(scene: Scene, p: Particle<B>) -> bool {
        let bound = scene.anim_type.delay_bound_spec(scene.duration);
        &&& p.delay <= bound
        &&& bound > 0 ==> p.delay < bound
        &&& p.color < scene.reach()
        &&& scene.shape == Shape::Rect ==> !p.is_circle
        &&& scene.shape == Shape::Circle ==> p.is_circle
    }

    /// Seeds a population for `scene`.
    ///
    /// There are `scene.particles` particles. The body of each is what
    /// `spawn` made for its emitter. Its delay is drawn below the bound of
    /// the kind, its colour index among the palette entries in reach, and its
    /// shape is the scene's, or the toss of a coin where the scene mixes
    /// shapes.
    pub fn new<F: Fn(Emitter) -> B>(scene: &Scene, spawn: F) -> (r: Particles<B>)
        requires
            scene.palette > 0,
            forall|e: Emitter| spawn.requires((e,)),
        ensures
            r.wf(),
            r@.len() == scene.particles,
            forall|i: int|
                0 <= i < r@.len() ==> spawn.ensures(
                    (scene.anim_type.emitter_spec(i, scene.particles as int),),
                    (#[trigger] r@[i]).body,
                ),
            forall|i: int| 0 <= i < r@.len() ==> Self::seeded(*scene, #[trigger] r@[i]),
    {
        let n = scene.particles;
        let bound = scene.anim_type.delay_bound(scene.duration);
        let reach: u64 = if scene.palette < 256 {
            scene.palette as u64
        } else {
            256
        };
        let mut ps = Particles {
            body: Vec::new(),
            delay: Vec::new(),
            color: Vec::new(),
            is_circle: Vec::new(),
        };
        let mut i: usize = 0;
        while i < n
            invariant
                n == scene.particles,
                bound == scene.anim_type.delay_bound_spec(scene.duration),
                reach == scene.reach(),
                0 < reach <= 256,
                forall|e: Emitter| spawn.requires((e,)),
                i <= n,
                ps.body@.len() == i,
                ps.delay@.len() == i,
                ps.color@.len() == i,
                ps.is_circle@.len() == i,
                forall|j: int|
                    0 <= j < i ==> spawn.ensures(
                        (scene.anim_type.emitter_spec(j, n as int),),
                        #[trigger] ps.body@[j],
                    ),
                forall|j: int|
                    0 <= j < i ==> Self::seeded(
                        *scene,
                        Particle {
                            body: ps.body@[j],
                            delay: #[trigger] ps.delay@[j],
                            color: ps.color@[j],
                            is_circle: ps.is_circle@[j],
                        },
                    ),
            decreases n - i,
        {
            let body = spawn(scene.anim_type.emitter(i, n));
            let delay = if bound > 0 {
                uniform_below(bound)
            } else {
                0
            };
            let color = uniform_below(reach) as u8;
            let round = match scene.shape {
                Shape::Rect => false,
                Shape::Circle => true,
                Shape::Mixed => coin(),
            };
            ps.body.push(body);
            ps.delay.push(delay);
            ps.color.push(color);
            ps.is_circle.push(round);
            i += 1;
        }
        ps
    }

    /// The number of particles.
    pub fn len(&self) -> (n: usize)
        ensures
            n == self@.len(),
    {
        self.body.len()
    }

    /// The body of particle `i`.
    pub fn body(&self, i: usize) -> (b: &B)
        requires
            i < self@.len(),
        ensures
            *b == self@[i as int].body,
    {
        &self.body[i]
    }

    /// The delay of particle `i`, in nanoseconds.
    pub fn delay(&self, i: usize) -> (d: u64)
        requires
            self.wf(),
            i < self@.len(),
        ensures
            d == self@[i as int].delay,
    {
        self.delay[i]
    }

    /// The palette index of particle `i`.
    pub fn color(&self, i: usize) -> (c: u8)
        requires
            self.wf(),
            i < self@.len(),
        ensures
            c == self@[i as int].color,
    {
        self.color[i]
    }

    /// Whether particle `i` is drawn round.
    pub fn is_circle(&self, i: usize) -> (c: bool)
        requires
            self.wf(),
            i < self@.len(),
        ensures
            c == self@[i as int].is_circle,
    {
        self.is_circle[i]
    }

    /// Advances the population by one step of `delta` nanoseconds, taken
    /// `elapsed` nanoseconds after the start.
    pub fn step<F: Fn(Motion, u64, &B) -> B>(
        &mut self,
        kind: AnimType,
        delta: u64,
        elapsed: u64,
        advance: F,
    )
        requires
            old(self).wf(),
            forall|m: Motion, d: u64, b: &B| advance.requires((m, d, b)),
        ensures
            final(self).wf(),
            stepped(old(self)@, final(self)@, kind, delta, elapsed, advance),
    {
        let n = self.body.len();
        let motion = kind.motion();
        let mut i: usize = 0;
        while i < n
            invariant
                self.wf(),
                n == old(self)@.len(),
                self@.len() == n,
                motion == kind.motion_spec(),
                i <= n,
                forall|m: Motion, d: u64, b: &B| advance.requires((m, d, b)),
                self.delay@ == old(self).delay@,
                self.color@ == old(self).color@,
                self.is_circle@ == old(self).is_circle@,
                forall|j: int| i <= j < n ==> self.body@[j] == old(self).body@[j],
                forall|j: int|
                    #![trigger self.body@[j]]
                    0 <= j < i ==> {
                        &&& old(self)@[j].active(elapsed) ==> advance.ensures(
                            (motion, delta, &old(self).body@[j]),
                            self.body@[j],
                        )
                        &&& !old(self)@[j].active(elapsed) ==> self.body@[j] == old(
                            self,
                        ).body@[j]
                    },
            decreases n - i,
        {
            if self.delay[i] <= elapsed {
                let moved = advance(motion, delta, &self.body[i]);
                self.body.set(i, moved);
            }
            i += 1;
        }
    }

    /// The sprites to draw `elapsed` nanoseconds after the start.
    pub fn draw(&self, kind: AnimType, elapsed: u64) -> (sprites: Vec<Sprite>)
        requires
            self.wf(),
        ensures
            sprites@ == drawn(self@, kind, elapsed),
    {
        let n = self.body.len();
        let mut sprites: Vec<Sprite> = Vec::new();
        let mut i: usize = 0;
        while i < n
            invariant
                self.wf(),
                n == self@.len(),
                i <= n,
                sprites@ == drawn(self@.take(i as int), kind, elapsed),
            decreases n - i,
        {
            proof {
                assert(self@.take(i + 1).drop_last() =~= self@.take(i as int));
            }
            if self.delay[i] <= elapsed {
                sprites.push(kind.sprite(i, self.color[i], self.is_circle[i]));
            }
            i += 1;
        }
        proof {
            assert(self@.take(n as int) =~= self@);
        }
        sprites
    }
}

/// Whether `advance` gives one result for each motion, time and body.
pub open spec fn single_valued<B, F: Fn(Motion, u64, &B) -> B>(advance: F) -> bool {
    forall|m: Motion, d: u64, b: &B, x: B, y: B|
        advance.ensures((m, d, b), x) && advance.ensures((m, d, b), y) ==> x == y
}

/// What a run of steps makes of a population: `ticks` holds the time step
/// and the elapsed time of each step, first step first.
pub open spec fn ran<B, F: Fn(Motion, u64, &B) -> B>(
    before: Seq<Particle<B>>,
    after: Seq<Particle<B>>,
    kind: AnimType,
    ticks: Seq<(u64, u64)>,
    advance: F,
) -> bool
    decreases ticks.len(),
{
    if ticks.len() == 0 {
        after == before
    } else {
        exists|mid: Seq<Particle<B>>|
            {
                &&& ran(before, mid, kind, ticks.drop_last(), advance)
                &&& #[trigger] stepped(
                    mid,
                    after,
                    kind,
                    ticks.last().0,
                    ticks.last().1,
                    advance,
                )
            }
    }
}

/// A step is determined by what it starts from: where the function that
/// moves a body gives one result for each argument, two steps from the same
/// population with the same times end in the same population.
pub proof fn lemma_step_deterministic<B, F: Fn(Motion, u64, &B) -> B>(
    before: Seq<Particle<B>>,
    first: Seq<Particle<B>>,
    second: Seq<Particle<B>>,
    kind: AnimType,
    delta: u64,
    elapsed: u64,
    advance: F,
)
    requires
        single_valued(advance),
        stepped(before, first, kind, delta, elapsed, advance),
        stepped(before, second, kind, delta, elapsed, advance),
    ensures
        first == second,
{
    assert forall|i: int| 0 <= i < first.len() implies first[i] == second[i] by {
        if before[i].active(elapsed) {
            assert(advance.ensures((kind.motion_spec(), delta, &before[i].body), first[i].body));
            assert(advance.ensures((kind.motion_spec(), delta, &before[i].body), second[i].body));
        }
    }
    assert(first =~= second);
}

/// A run of steps is determined by what it starts from and by its times:
/// where the function that moves a body gives one result for each argument,
/// two runs from the same population over the same steps end in the same
/// population.
pub proof fn lemma_run_deterministic<B, F: Fn(Motion, u64, &B) -> B>(
    before: Seq<Particle<B>>,
    first: Seq<Particle<B>>,
    second: Seq<Particle<B>>,
    kind: AnimType,
    ticks: Seq<(u64, u64)>,
    advance: F,
)
    requires
        single_valued(advance),
        ran(before, first, kind, ticks, advance),
        ran(before, second, kind, ticks, advance),
    ensures
        first == second,
    decreases ticks.len(),
{
    if ticks.len() > 0 {
        let (delta, elapsed) = ticks.last();
        let a = choose|mid: Seq<Particle<B>>|
            {
                &&& ran(before, mid, kind, ticks.drop_last(), advance)
                &&& #[trigger] stepped(mid, first, kind, delta, elapsed, advance)
            };
        let b = choose|mid: Seq<Particle<B>>|
            {
                &&& ran(before, mid, kind, ticks.drop_last(), advance)
                &&& #[trigger] stepped(mid, second, kind, delta, elapsed, advance)
            };
        lemma_run_deterministic(before, a, b, kind, ticks.drop_last(), advance);
        lemma_step_deterministic(a, first, second, kind, delta, elapsed, advance);
    }
}

/// A step leaves alone every particle that is not yet active, and moves
/// every particle that is.
pub proof fn lemma_step_gated<B, F: Fn(Motion, u64, &B) -> B>(
    before: Seq<Particle<B>>,
    after: Seq<Particle<B>>,
    kind: AnimType,
    delta: u64,
    elapsed: u64,
    advance: F,
    i: int,
)
    requires
        stepped(before, after, kind, delta, elapsed, advance),
        0 <= i < before.len(),
    ensures
        elapsed < before[i].delay ==> after[i] == before[i],
        elapsed >= before[i].delay ==> advance.ensures(
            (kind.motion_spec(), delta, &before[i].body),
            after[i].body,
        ),
{
    assert(after[i].delay == before[i].delay);
}

/// Whether `s` is the sprite of an active particle of `ps`.
pub open spec fn sprite_of_active<B>(
    ps: Seq<Particle<B>>,
    kind: AnimType,
    elapsed: u64,
    s: Sprite,
) -> bool {
    &&& s.index < ps.len()
    &&& ps[s.index as int].active(elapsed)
    &&& s == kind.sprite_spec(s.index, ps[s.index as int].color, ps[s.index as int].is_circle)
}

/// Every sprite is that of an active particle: a particle that is not yet
/// active is not drawn.
pub proof fn lemma_drawn_only_active<B>(ps: Seq<Particle<B>>, kind: AnimType, elapsed: u64)
    requires
        ps.len() <= usize::MAX,
    ensures
        drawn(ps, kind, elapsed).len() <= ps.len(),
        forall|k: int|
            0 <= k < drawn(ps, kind, elapsed).len() ==> sprite_of_active(
                ps,
                kind,
                elapsed,
                #[trigger] drawn(ps, kind, elapsed)[k],
            ),
    decreases ps.len(),
{
    if ps.len() > 0 {
        let head = ps.drop_last();
        let rest = drawn(head, kind, elapsed);
        let all = drawn(ps, kind, elapsed);
        lemma_drawn_only_active(head, kind, elapsed);
        assert forall|k: int| 0 <= k < all.len() implies sprite_of_active(
            ps,
            kind,
            elapsed,
            #[trigger] all[k],
        ) by {
            if k < rest.len() {
                assert(all[k] == rest[k]);
                assert(sprite_of_active(head, kind, elapsed, rest[k]));
                assert(head[rest[k].index as int] == ps[rest[k].index as int]);
            }
        }
    }
}

/// Every active particle is drawn.
pub proof fn lemma_drawn_every_active<B>(
    ps: Seq<Particle<B>>,
    kind: AnimType,
    elapsed: u64,
    i: int,
)
    requires
        ps.len() <= usize::MAX,
        0 <= i < ps.len(),
        ps[i].active(elapsed),
    ensures
        exists|k: int|
            0 <= k < drawn(ps, kind, elapsed).len() && (#[trigger] drawn(
                ps,
                kind,
                elapsed,
            )[k]).index == i,
    decreases ps.len(),
{
    let head = ps.drop_last();
    let rest = drawn(head, kind, elapsed);
    let all = drawn(ps, kind, elapsed);
    if i < ps.len() - 1 {
        assert(head[i] == ps[i]);
        lemma_drawn_every_active(head, kind, elapsed, i);
        let k = choose|k: int| 0 <= k < rest.len() && (#[trigger] rest[k]).index == i;
        assert(all[k] == rest[k]);
    } else {
        assert(all[all.len() - 1].index == i);
    }
}

/// Sprites come in the order of their particles, so no particle is drawn
/// twice.
pub proof fn lemma_drawn_in_order<B>(
    ps: Seq<Particle<B>>,
    kind: AnimType,
    elapsed: u64,
    k: int,
    l: int,
)
    requires
        ps.len() <= usize::MAX,
        0 <= k < l < drawn(ps, kind, elapsed).len(),
    ensures
        drawn(ps, kind, elapsed)[k].index < drawn(ps, kind, elapsed)[l].index,
    decreases ps.len(),
{
    let head = ps.drop_last();
    let rest = drawn(head, kind, elapsed);
    let all = drawn(ps, kind, elapsed);
    if ps.len() > 0 {
        if l < rest.len() {
            lemma_drawn_in_order(head, kind, elapsed, k, l);
            assert(all[k] == rest[k] && all[l] == rest[l]);
        } else {
            lemma_drawn_only_active(head, kind, elapsed);
            assert(sprite_of_active(head, kind, elapsed, rest[k]));
            assert(all[k] == rest[k]);
        }
    }
}

/// Rain and sparkles have no speed of rotation, and their sprites are never
/// turned; rain does not flutter, and a sparkle is as wide as it is high.
pub proof fn lemma_rain_and_sparkle_do_not_turn(index: usize, color: u8, is_circle: bool)
    ensures
        AnimType::Rain.spin_limit_spec() == 0,
        AnimType::Sparkle.spin_limit_spec() == 0,
        !AnimType::Rain.sprite_spec(index, color, is_circle).turns,
        !AnimType::Sparkle.sprite_spec(index, color, is_circle).turns,
        AnimType::Rain.sprite_spec(index, color, is_circle).extent != Extent::Flutter,
        AnimType::Sparkle.sprite_spec(index, color, is_circle).extent == Extent::Side,
{
}

} // verus!
