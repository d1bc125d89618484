//! Animation kinds, particle shapes and the constants built in for each kind.

use vstd::prelude::*;
use crate::text::same_text;

verus! {

/// The kind of animation that is played.
#[derive(Clone, Copy, Debug, PartialEq, Eq, Structural)]
pub enum AnimType {
    Confetti,
    Cannon,
    Pop,
    Fireworks,
    Snow,
    Rain,
    Sparkle,
    Drop,
}

/// How particles are drawn.
#[derive(Clone, Copy, Debug, PartialEq, Eq, Structural)]
pub enum Shape {
    Rect,
    Circle,
    Mixed,
}

/// A colour as three channels, each a fraction of `full`: a channel equal to
/// `full` is fully lit.
#[derive(Clone, Copy, Debug, PartialEq, Eq, Structural)]
pub struct Rgb {
    pub red: u8,
    pub green: u8,
    pub blue: u8,
    pub full: u8,
}

/// The constants of an animation kind. All but `particles` are thousandths:
/// a `duration` of 2500 is two and a half seconds, a `drag` of 980 is 0.98.
#[derive(Clone, Copy, Debug, PartialEq, Eq, Structural)]
pub struct Defaults {
    pub particles: usize,
    pub duration: u32,
    pub gravity: u32,
    pub drag: u32,
    pub speed_min: u32,
    pub speed_max: u32,
    pub spread: u32,
    pub fade: u32,
}

impl Rgb {
    /// No channel exceeds `full`, and `full` is not zero.
    pub open spec fn wf(self) -> bool {
        &&& self.full > 0
        &&& self.red <= self.full
        &&& self.green <= self.full
        &&& self.blue <= self.full
    }

    /// The colour with the given channels in hundredths.
    pub open spec fn percent_spec(red: u8, green: u8, blue: u8) -> Rgb {
        Rgb { red, green, blue, full: 100 }
    }

    /// The colour with the given channels in 255ths.
    pub open spec fn bytes_spec(red: u8, green: u8, blue: u8) -> Rgb {
        Rgb { red, green, blue, full: 255 }
    }

    /// A colour from channels in hundredths.
    #[verifier::when_used_as_spec(percent_spec)]
    pub fn percent(red: u8, green: u8, blue: u8) -> (c: Rgb)
        ensures
            c == Rgb::percent_spec(red, green, blue),
    {
        Rgb { red, green, blue, full: 100 }
    }

    /// A colour from channels in 255ths.
    #[verifier::when_used_as_spec(bytes_spec)]
    pub fn bytes(red: u8, green: u8, blue: u8) -> (c: Rgb)
        ensures
            c == Rgb::bytes_spec(red, green, blue),
            c.wf(),
    {
        Rgb { red, green, blue, full: 255 }
    }
}

/// The palette used where a kind has none of its own, and where a list of
/// colour strings holds no valid colour.
pub open spec fn default_palette() -> Seq<Rgb> {
    seq![
        Rgb::percent(95, 26, 26),
        Rgb::percent(26, 80, 36),
        Rgb::percent(20, 45, 100),
        Rgb::percent(100, 82, 10),
        Rgb::percent(100, 45, 10),
        Rgb::percent(75, 25, 100),
        Rgb::percent(10, 82, 82),
        Rgb::percent(100, 42, 70),
        Rgb::percent(40, 100, 40),
    ]
}

/// The palette of `default_palette`, as a vector.
pub fn default_colors() -> (r: Vec<Rgb>)
    ensures
        r@ == default_palette(),
{
    let r = vec![
        Rgb::percent(95, 26, 26),
        Rgb::percent(26, 80, 36),
        Rgb::percent(20, 45, 100),
        Rgb::percent(100, 82, 10),
        Rgb::percent(100, 45, 10),
        Rgb::percent(75, 25, 100),
        Rgb::percent(10, 82, 82),
        Rgb::percent(100, 42, 70),
        Rgb::percent(40, 100, 40),
    ];
    assert(r@ =~= default_palette());
    r
}

impl AnimType {
    /// The name by which a kind is chosen.
    pub open spec fn name(self) -> Seq<char> {
        match self {
            AnimType::Confetti => "confetti"@,
            AnimType::Cannon => "cannon"@,
            AnimType::Pop => "pop"@,
            AnimType::Fireworks => "fireworks"@,
            AnimType::Snow => "snow"@,
            AnimType::Rain => "rain"@,
            AnimType::Sparkle => "sparkle"@,
            AnimType::Drop => "drop"@,
        }
    }

    /// The kind that a text names, if any.
    pub open spec fn parse(text: Seq<char>) -> Option<AnimType> {
        if text == AnimType::Confetti.name() {
            Some(AnimType::Confetti)
        } else if text == AnimType::Cannon.name() {
            Some(AnimType::Cannon)
        } else if text == AnimType::Pop.name() {
            Some(AnimType::Pop)
        } else if text == AnimType::Fireworks.name() {
            Some(AnimType::Fireworks)
        } else if text == AnimType::Snow.name() {
            Some(AnimType::Snow)
        } else if text == AnimType::Rain.name() {
            Some(AnimType::Rain)
        } else if text == AnimType::Sparkle.name() {
            Some(AnimType::Sparkle)
        } else if text == AnimType::Drop.name() {
            Some(AnimType::Drop)
        } else {
            None
        }
    }

    /// Reads a kind from its name. Names are matched exactly, in lower case.
    pub fn from_str(s: &str) -> (r: Option<AnimType>)
        ensures
            r == AnimType::parse(s@),
    {
        if same_text(s, "confetti") {
            Some(AnimType::Confetti)
        } else if same_text(s, "cannon") {
            Some(AnimType::Cannon)
        } else if same_text(s, "pop") {
            Some(AnimType::Pop)
        } else if same_text(s, "fireworks") {
            Some(AnimType::Fireworks)
        } else if same_text(s, "snow") {
            Some(AnimType::Snow)
        } else if same_text(s, "rain") {
            Some(AnimType::Rain)
        } else if same_text(s, "sparkle") {
            Some(AnimType::Sparkle)
        } else if same_text(s, "drop") {
            Some(AnimType::Drop)
        } else {
            None
        }
    }

    /// The constants of a kind, in thousandths.
    pub open spec fn defaults_spec(self) -> Defaults {
        match self {
            AnimType::Confetti => Defaults {
                particles: 1500,
                duration: 2500,
                gravity: 800_000,
                drag: 980,
                speed_min: 900_000,
                speed_max: 2_500_000,
                spread: 150_000,
                fade: 400,
            },
            AnimType::Cannon => Defaults {
                particles: 1500,
                duration: 2500,
                gravity: 800_000,
                drag: 980,
                speed_min: 900_000,
                speed_max: 2_500_000,
                spread: 100_000,
                fade: 400,
            },
            AnimType::Pop => Defaults {
                particles: 1000,
                duration: 2000,
                gravity: 300_000,
                drag: 980,
                speed_min: 600_000,
                speed_max: 1_500_000,
                spread: 0,
                fade: 400,
            },
            AnimType::Fireworks => Defaults {
                particles: 600,
                duration: 3000,
                gravity: 400_000,
                drag: 990,
                speed_min: 400_000,
                speed_max: 1_200_000,
                spread: 0,
                fade: 500,
            },
            AnimType::Snow => Defaults {
                particles: 200,
                duration: 8000,
                gravity: 40_000,
                drag: 995,
                speed_min: 20_000,
                speed_max: 80_000,
                spread: 30_000,
                fade: 1000,
            },
            AnimType::Rain => Defaults {
                particles: 800,
                duration: 4000,
                gravity: 200_000,
                drag: 999,
                speed_min: 1_500_000,
                speed_max: 3_000_000,
                spread: 20_000,
                fade: 300,
            },
            AnimType::Sparkle => Defaults {
                particles: 100,
                duration: 4000,
                gravity: 0,
                drag: 1000,
                speed_min: 0,
                speed_max: 0,
                spread: 0,
                fade: 500,
            },
            AnimType::Drop => Defaults {
                particles: 1500,
                duration: 3000,
                gravity: 600_000,
                drag: 990,
                speed_min: 50_000,
                speed_max: 200_000,
                spread: 400_000,
                fade: 500,
            },
        }
    }

    /// The constants of a kind: particle count, duration, gravity, drag,
    /// lowest and highest launch speed, spread and fade.
    #[verifier::when_used_as_spec(defaults_spec)]
    pub fn defaults(self) -> (r: Defaults)
        ensures
            r == self.defaults_spec(),
    {
        let (particles, duration, gravity, drag, speed_min, speed_max, spread, fade): (
            usize,
            u32,
            u32,
            u32,
            u32,
            u32,
            u32,
            u32,
        ) = match self {
            AnimType::Confetti => (1500, 2500, 800_000, 980, 900_000, 2_500_000, 150_000, 400),
            AnimType::Cannon => (1500, 2500, 800_000, 980, 900_000, 2_500_000, 100_000, 400),
            AnimType::Pop => (1000, 2000, 300_000, 980, 600_000, 1_500_000, 0, 400),
            AnimType::Fireworks => (600, 3000, 400_000, 990, 400_000, 1_200_000, 0, 500),
            AnimType::Snow => (200, 8000, 40_000, 995, 20_000, 80_000, 30_000, 1000),
            AnimType::Rain => (800, 4000, 200_000, 999, 1_500_000, 3_000_000, 20_000, 300),
            AnimType::Sparkle => (100, 4000, 0, 1000, 0, 0, 0, 500),
            AnimType::Drop => (1500, 3000, 600_000, 990, 50_000, 200_000, 400_000, 500),
        };
        Defaults { particles, duration, gravity, drag, speed_min, speed_max, spread, fade }
    }

    /// The shape of a kind where none is chosen: circles for fireworks, snow
    /// and sparkles, a mix for drop and pop, rectangles for the rest.
    pub open spec fn default_shape_spec(self) -> Shape {
        if self == AnimType::Fireworks || self == AnimType::Snow || self == AnimType::Sparkle {
            Shape::Circle
        } else if self == AnimType::Drop || self == AnimType::Pop {
            Shape::Mixed
        } else {
            Shape::Rect
        }
    }

    /// The shape of a kind where none is chosen.
    #[verifier::when_used_as_spec(default_shape_spec)]
    pub fn default_shape(self) -> (r: Shape)
        ensures
            r == self.default_shape_spec(),
    {
        match self {
            AnimType::Fireworks | AnimType::Snow | AnimType::Sparkle => Shape::Circle,
            AnimType::Drop | AnimType::Pop => Shape::Mixed,
            _ => Shape::Rect,
        }
    }

    /// The palette of a kind where none is chosen.
    pub open spec fn palette(self) -> Seq<Rgb> {
        match self {
            AnimType::Snow => seq![
                Rgb::percent(100, 100, 100),
                Rgb::percent(88, 91, 100),
                Rgb::percent(75, 83, 100),
                Rgb::percent(82, 88, 100),
            ],
            AnimType::Rain => seq![
                Rgb::percent(27, 53, 80),
                Rgb::percent(20, 40, 67),
                Rgb::percent(33, 60, 87),
                Rgb::percent(40, 53, 67),
            ],
            AnimType::Sparkle => seq![
                Rgb::percent(100, 100, 100),
                Rgb::percent(100, 100, 82),
                Rgb::percent(100, 84, 0),
                Rgb::percent(100, 97, 86),
            ],
            AnimType::Fireworks => seq![
                Rgb::percent(100, 27, 27),
                Rgb::percent(100, 67, 0),
                Rgb::percent(100, 100, 27),
                Rgb::percent(100, 100, 100),
                Rgb::percent(100, 42, 18),
            ],
            _ => default_palette(),
        }
    }

    /// The palette of a kind where none is chosen.
    pub fn default_colors(self) -> (r: Vec<Rgb>)
        ensures
            r@ == self.palette(),
    {
        let r = match self {
            AnimType::Snow => vec![
                Rgb::percent(100, 100, 100),
                Rgb::percent(88, 91, 100),
                Rgb::percent(75, 83, 100),
                Rgb::percent(82, 88, 100),
            ],
            AnimType::Rain => vec![
                Rgb::percent(27, 53, 80),
                Rgb::percent(20, 40, 67),
                Rgb::percent(33, 60, 87),
                Rgb::percent(40, 53, 67),
            ],
            AnimType::Sparkle => vec![
                Rgb::percent(100, 100, 100),
                Rgb::percent(100, 100, 82),
                Rgb::percent(100, 84, 0),
                Rgb::percent(100, 97, 86),
            ],
            AnimType::Fireworks => vec![
                Rgb::percent(100, 27, 27),
                Rgb::percent(100, 67, 0),
                Rgb::percent(100, 100, 27),
                Rgb::percent(100, 100, 100),
                Rgb::percent(100, 42, 18),
            ],
            _ => default_colors(),
        };
        assert(r@ =~= self.palette());
        r
    }
}

impl Default for AnimType {
    fn default() -> (r: AnimType)
        ensures
            r == AnimType::Confetti,
    {
        AnimType::Confetti
    }
}

impl Shape {
    /// The name by which a shape is chosen.
    pub open spec fn name(self) -> Seq<char> {
        match self {
            Shape::Rect => "rect"@,
            Shape::Circle => "circle"@,
            Shape::Mixed => "mixed"@,
        }
    }

    /// The shape that a text names, if any.
    pub open spec fn parse(text: Seq<char>) -> Option<Shape> {
        if text == Shape::Rect.name() {
            Some(Shape::Rect)
        } else if text == Shape::Circle.name() {
            Some(Shape::Circle)
        } else if text == Shape::Mixed.name() {
            Some(Shape::Mixed)
        } else {
            None
        }
    }

    /// Reads a shape from its name. Names are matched exactly, in lower case.
    pub fn from_str(s: &str) -> (r: Option<Shape>)
        ensures
            r == Shape::parse(s@),
    {
        if same_text(s, "rect") {
            Some(Shape::Rect)
        } else if same_text(s, "circle") {
            Some(Shape::Circle)
        } else if same_text(s, "mixed") {
            Some(Shape::Mixed)
        } else {
            None
        }
    }
}

impl Default for Shape {
    fn default() -> (r: Shape)
        ensures
            r == Shape::Rect,
    {
        Shape::Rect
    }
}

/// Every kind is read back from its own name, and a text that names a kind is
/// that kind's name.
pub proof fn lemma_anim_type_names(kind: AnimType, text: Seq<char>)
    ensures
        AnimType::parse(kind.name()) == Some(kind),
        AnimType::parse(text) == Some(kind) <==> text == kind.name(),
{
    reveal_strlit("confetti");
    reveal_strlit("cannon");
    reveal_strlit("pop");
    reveal_strlit("fireworks");
    reveal_strlit("snow");
    reveal_strlit("rain");
    reveal_strlit("sparkle");
    reveal_strlit("drop");
    assert("confetti"@.len() == 8 && "cannon"@.len() == 6 && "pop"@.len() == 3);
    assert("fireworks"@.len() == 9 && "sparkle"@.len() == 7);
    assert("snow"@.len() == 4 && "snow"@[0] == 's');
    assert("rain"@.len() == 4 && "rain"@[0] == 'r');
    assert("drop"@.len() == 4 && "drop"@[0] == 'd');
}

/// Every shape is read back from its own name, and a text that names a shape
/// is that shape's name.
pub proof fn lemma_shape_names(shape: Shape, text: Seq<char>)
    ensures
        Shape::parse(shape.name()) == Some(shape),
        Shape::parse(text) == Some(shape) <==> text == shape.name(),
{
    reveal_strlit("rect");
    reveal_strlit("circle");
    reveal_strlit("mixed");
    assert("rect"@.len() == 4 && "circle"@.len() == 6 && "mixed"@.len() == 5);
}

} // verus!
