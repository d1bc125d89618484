use confet::types::{default_colors, AnimType, Defaults, Rgb, Shape};

const KINDS: [(AnimType, &str); 8] = [
    (AnimType::Confetti, "confetti"),
    (AnimType::Cannon, "cannon"),
    (AnimType::Pop, "pop"),
    (AnimType::Fireworks, "fireworks"),
    (AnimType::Snow, "snow"),
    (AnimType::Rain, "rain"),
    (AnimType::Sparkle, "sparkle"),
    (AnimType::Drop, "drop"),
];

#[test]
fn anim_type_is_read_from_each_name() {
    for (kind, name) in KINDS {
        assert_eq!(AnimType::from_str(name), Some(kind));
    }
}

#[test]
fn anim_type_rejects_other_texts() {
    assert_eq!(AnimType::from_str(""), None);
    assert_eq!(AnimType::from_str("Confetti"), None);
    assert_eq!(AnimType::from_str("confetti "), None);
    assert_eq!(AnimType::from_str("snowy"), None);
    assert_eq!(AnimType::from_str("sno"), None);
    assert_eq!(AnimType::from_str("lava"), None);
    assert_eq!(AnimType::from_str("r\u{e4}in"), None);
}

#[test]
fn shape_is_read_from_each_name() {
    assert_eq!(Shape::from_str("rect"), Some(Shape::Rect));
    assert_eq!(Shape::from_str("circle"), Some(Shape::Circle));
    assert_eq!(Shape::from_str("mixed"), Some(Shape::Mixed));
}

#[test]
fn shape_rejects_other_texts() {
    assert_eq!(Shape::from_str(""), None);
    assert_eq!(Shape::from_str("Rect"), None);
    assert_eq!(Shape::from_str("square"), None);
    assert_eq!(Shape::from_str("circles"), None);
}

#[test]
fn the_first_kind_and_shape_are_the_defaults() {
    assert_eq!(AnimType::default(), AnimType::Confetti);
    assert_eq!(Shape::default(), Shape::Rect);
}

#[test]
fn defaults_of_every_kind() {
    let expect = |particles, duration, gravity, drag, speed_min, speed_max, spread, fade| Defaults {
        particles,
        duration,
        gravity,
        drag,
        speed_min,
        speed_max,
        spread,
        fade,
    };
    assert_eq!(
        AnimType::Confetti.defaults(),
        expect(1500, 2500, 800_000, 980, 900_000, 2_500_000, 150_000, 400)
    );
    assert_eq!(
        AnimType::Cannon.defaults(),
        expect(1500, 2500, 800_000, 980, 900_000, 2_500_000, 100_000, 400)
    );
    assert_eq!(
        AnimType::Pop.defaults(),
        expect(1000, 2000, 300_000, 980, 600_000, 1_500_000, 0, 400)
    );
    assert_eq!(
        AnimType::Fireworks.defaults(),
        expect(600, 3000, 400_000, 990, 400_000, 1_200_000, 0, 500)
    );
    assert_eq!(
        AnimType::Snow.defaults(),
        expect(200, 8000, 40_000, 995, 20_000, 80_000, 30_000, 1000)
    );
    assert_eq!(
        AnimType::Rain.defaults(),
        expect(800, 4000, 200_000, 999, 1_500_000, 3_000_000, 20_000, 300)
    );
    assert_eq!(AnimType::Sparkle.defaults(), expect(100, 4000, 0, 1000, 0, 0, 0, 500));
    assert_eq!(
        AnimType::Drop.defaults(),
        expect(1500, 3000, 600_000, 990, 50_000, 200_000, 400_000, 500)
    );
}

#[test]
fn thousandths_give_back_the_decimal_constants() {
    let d = AnimType::Snow.defaults();
    assert_eq!(d.drag as f64 / 1000.0, 0.995);
    assert_eq!(d.duration as f64 / 1000.0, 8.0);
    assert_eq!(AnimType::Rain.defaults().drag as f64 / 1000.0, 0.999);
    assert_eq!(AnimType::Confetti.defaults().fade as f64 / 1000.0, 0.4);
    assert_eq!(AnimType::Rain.defaults().fade as f64 / 1000.0, 0.3);
    assert_eq!(AnimType::Confetti.defaults().drag as f64 / 1000.0, 0.98);
}

#[test]
fn default_shape_of_every_kind() {
    assert_eq!(AnimType::Confetti.default_shape(), Shape::Rect);
    assert_eq!(AnimType::Cannon.default_shape(), Shape::Rect);
    assert_eq!(AnimType::Pop.default_shape(), Shape::Mixed);
    assert_eq!(AnimType::Fireworks.default_shape(), Shape::Circle);
    assert_eq!(AnimType::Snow.default_shape(), Shape::Circle);
    assert_eq!(AnimType::Rain.default_shape(), Shape::Rect);
    assert_eq!(AnimType::Sparkle.default_shape(), Shape::Circle);
    assert_eq!(AnimType::Drop.default_shape(), Shape::Mixed);
}

#[test]
fn default_palette_has_nine_colours() {
    let p = default_colors();
    assert_eq!(p.len(), 9);
    assert_eq!(p[0], Rgb { red: 95, green: 26, blue: 26, full: 100 });
    assert_eq!(p[2], Rgb { red: 20, green: 45, blue: 100, full: 100 });
    assert_eq!(p[8], Rgb { red: 40, green: 100, blue: 40, full: 100 });
}

#[test]
fn palettes_of_the_kinds() {
    assert_eq!(
        AnimType::Snow.default_colors(),
        vec![
            Rgb::percent(100, 100, 100),
            Rgb::percent(88, 91, 100),
            Rgb::percent(75, 83, 100),
            Rgb::percent(82, 88, 100),
        ]
    );
    assert_eq!(
        AnimType::Rain.default_colors(),
        vec![
            Rgb::percent(27, 53, 80),
            Rgb::percent(20, 40, 67),
            Rgb::percent(33, 60, 87),
            Rgb::percent(40, 53, 67),
        ]
    );
    assert_eq!(
        AnimType::Sparkle.default_colors(),
        vec![
            Rgb::percent(100, 100, 100),
            Rgb::percent(100, 100, 82),
            Rgb::percent(100, 84, 0),
            Rgb::percent(100, 97, 86),
        ]
    );
    assert_eq!(
        AnimType::Fireworks.default_colors(),
        vec![
            Rgb::percent(100, 27, 27),
            Rgb::percent(100, 67, 0),
            Rgb::percent(100, 100, 27),
            Rgb::percent(100, 100, 100),
            Rgb::percent(100, 42, 18),
        ]
    );
    for kind in [AnimType::Confetti, AnimType::Cannon, AnimType::Pop, AnimType::Drop] {
        assert_eq!(kind.default_colors(), default_colors());
    }
}

#[test]
fn channels_in_hundredths_give_back_the_decimal_constants() {
    let c = default_colors()[0];
    assert_eq!(c.red as f32 / c.full as f32, 0.95f32);
    assert_eq!(c.green as f32 / c.full as f32, 0.26f32);
    let c = Rgb::bytes(255, 0, 128);
    assert_eq!(c.full, 255);
    assert_eq!(c.red as f32 / c.full as f32, 1.0f32);
    assert_eq!(c.blue as f32 / c.full as f32, 128.0f32 / 255.0f32);
}
