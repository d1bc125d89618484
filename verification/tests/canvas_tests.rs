use confet::canvas::{Alpha, Canvas, Tick};
use confet::particle::{Emitter, Motion, Scene, SECOND};
use confet::types::{AnimType, Shape};

fn scene(duration: u64, fade: u64) -> Scene {
    Scene {
        anim_type: AnimType::Cannon,
        shape: Shape::Rect,
        particles: 50,
        palette: 3,
        duration,
        fade,
    }
}

fn seed(_: Emitter) -> u64 {
    0
}

/// Adds up the time over which a particle was moved.
fn add(_: Motion, delta: u64, moved: &u64) -> u64 {
    moved + delta
}

fn ratio(a: Alpha) -> f64 {
    a.part as f64 / a.whole as f64
}

#[test]
fn a_new_canvas_is_idle() {
    let mut c: Canvas<u64> = Canvas::new(scene(2 * SECOND, SECOND));
    assert!(!c.is_running() && !c.is_finished());
    assert_eq!(c.scene(), scene(2 * SECOND, SECOND));
    assert!(c.snapshot(5).is_none());
    assert_eq!(c.tick(5, add), Tick::Stopped);
    assert!(!c.is_running() && !c.is_finished());
}

#[test]
fn start_runs_an_idle_canvas_once() {
    let mut c = Canvas::new(scene(2 * SECOND, SECOND));
    assert!(c.start(1000, seed));
    assert!(c.is_running());
    let frame = c.snapshot(1000).unwrap();
    assert_eq!(frame.elapsed, 0);
    assert!(!c.start(5000, seed));
    assert!(c.is_running());
    assert_eq!(c.snapshot(5000).unwrap().elapsed, 4000);
}

#[test]
fn a_tick_moves_by_the_time_since_the_tick_before() {
    let mut c = Canvas::new(scene(2 * SECOND, SECOND));
    c.start(7, seed);
    assert_eq!(c.tick(7 + SECOND, add), Tick::Redraw);
    assert_eq!(c.tick(7 + SECOND + 16, add), Tick::Redraw);
    assert_eq!(c.tick(7 + SECOND + 49, add), Tick::Redraw);
    assert!(c.is_running());
    let frame = c.snapshot(7 + SECOND + 50).unwrap();
    assert_eq!(frame.elapsed, SECOND + 50);
    assert_eq!(frame.sprites.len(), 50);
}

#[test]
fn every_active_particle_is_moved_over_the_whole_time() {
    let mut sc = scene(2 * SECOND, SECOND);
    sc.particles = 1;
    let mut c = Canvas::new(sc);
    c.start(0, seed);
    let moved = std::cell::Cell::new(0u64);
    let watch = |_: Motion, delta: u64, before: &u64| {
        moved.set(before + delta);
        before + delta
    };
    for now in [SECOND, SECOND + 10, SECOND + 35, SECOND + 35, SECOND + 100] {
        assert_eq!(c.tick(now, watch), Tick::Redraw);
    }
    assert_eq!(moved.get(), SECOND + 100);
}

#[test]
fn fade_of_four_tenths_at_the_end_of_two_seconds() {
    let sc = scene(2 * SECOND, 400_000_000);
    let a = sc.alpha(1_900_000_000);
    assert_eq!(a, Alpha { part: 100_000_000, whole: 400_000_000 });
    assert_eq!(ratio(a), 0.25);
    let mut c = Canvas::new(sc);
    c.start(0, seed);
    assert_eq!(c.snapshot(1_900_000_000).unwrap().alpha, a);
    assert_eq!(c.tick(2_100_000_000, add), Tick::Finished);
    assert!(c.is_finished());
}

#[test]
fn the_animation_finishes_once_more_than_its_duration_has_passed() {
    let mut c = Canvas::new(scene(2 * SECOND, SECOND));
    c.start(500, seed);
    assert_eq!(c.tick(500 + 2 * SECOND, add), Tick::Redraw);
    assert!(c.is_running());
    assert_eq!(c.tick(501 + 2 * SECOND, add), Tick::Finished);
    assert!(c.is_finished() && !c.is_running());
    assert!(c.snapshot(501 + 2 * SECOND).is_none());
    assert_eq!(c.tick(502 + 2 * SECOND, add), Tick::Stopped);
    assert_eq!(c.tick(0, add), Tick::Stopped);
    assert!(!c.start(0, seed));
    assert!(c.is_finished());
}

#[test]
fn an_animation_without_duration_finishes_at_the_first_later_tick() {
    let mut c = Canvas::new(scene(0, 0));
    c.start(9, seed);
    assert_eq!(c.tick(9, add), Tick::Redraw);
    assert_eq!(c.tick(10, add), Tick::Finished);
}

#[test]
fn a_clock_that_goes_back_counts_as_no_time() {
    let mut c = Canvas::new(scene(2 * SECOND, SECOND));
    c.start(1000, seed);
    assert_eq!(c.snapshot(10).unwrap().elapsed, 0);
    assert_eq!(c.tick(10, add), Tick::Redraw);
    assert_eq!(c.tick(5, add), Tick::Redraw);
    assert_eq!(c.snapshot(1001).unwrap().elapsed, 1);
}

#[test]
fn opacity_is_full_until_the_fade_begins() {
    let sc = scene(2 * SECOND, 400_000_000);
    for elapsed in [0, 1, SECOND, 1_599_999_999, 1_600_000_000] {
        assert_eq!(sc.alpha(elapsed), Alpha { part: 1, whole: 1 });
    }
    assert_eq!(sc.alpha(1_600_000_001), Alpha { part: 399_999_999, whole: 400_000_000 });
}

#[test]
fn opacity_falls_through_the_fade() {
    let sc = scene(2 * SECOND, 400_000_000);
    let mut before = ratio(sc.alpha(1_600_000_000));
    let mut elapsed = 1_600_000_001;
    while elapsed <= 2 * SECOND {
        let a = sc.alpha(elapsed);
        assert!(a.part <= a.whole && a.whole > 0);
        assert!(ratio(a) < before);
        before = ratio(a);
        elapsed += 9_999_999;
    }
    assert_eq!(sc.alpha(1_800_000_000), Alpha { part: 200_000_000, whole: 400_000_000 });
    assert_eq!(sc.alpha(2 * SECOND), Alpha { part: 0, whole: 1 });
    assert_eq!(sc.alpha(2 * SECOND + 1), Alpha { part: 0, whole: 1 });
    assert_eq!(sc.alpha(u64::MAX), Alpha { part: 0, whole: 1 });
}

#[test]
fn without_a_fade_the_opacity_is_cut_off_after_the_end() {
    let sc = scene(2 * SECOND, 0);
    assert_eq!(sc.alpha(0), Alpha { part: 1, whole: 1 });
    assert_eq!(sc.alpha(2 * SECOND - 1), Alpha { part: 1, whole: 1 });
    assert_eq!(sc.alpha(2 * SECOND), Alpha { part: 1, whole: 1 });
    assert_eq!(sc.alpha(2 * SECOND + 1), Alpha { part: 0, whole: 1 });
}

#[test]
fn a_fade_longer_than_the_animation_starts_below_full() {
    let sc = scene(SECOND, 4 * SECOND);
    assert_eq!(sc.alpha(0), Alpha { part: SECOND, whole: 4 * SECOND });
    assert_eq!(ratio(sc.alpha(0)), 0.25);
    assert_eq!(sc.alpha(SECOND / 2), Alpha { part: SECOND / 2, whole: 4 * SECOND });
    assert_eq!(sc.alpha(SECOND), Alpha { part: 0, whole: 1 });
    let huge = scene(u64::MAX, u64::MAX);
    assert_eq!(huge.alpha(0), Alpha { part: 1, whole: 1 });
    assert_eq!(huge.alpha(1), Alpha { part: u64::MAX - 1, whole: u64::MAX });
}

#[test]
fn a_snapshot_draws_the_active_particles() {
    let mut c = Canvas::new(scene(2 * SECOND, SECOND));
    c.start(100, seed);
    let early = c.snapshot(100 + 150_000_000).unwrap();
    assert_eq!(early.elapsed, 150_000_000);
    assert_eq!(early.alpha, Alpha { part: 1, whole: 1 });
    assert!(early.sprites.len() < 50);
    assert!(early.sprites.windows(2).all(|w| w[0].index < w[1].index));
    let late = c.snapshot(100 + 300_000_000).unwrap();
    assert_eq!(late.sprites.len(), 50);
    assert!(late.sprites.iter().enumerate().all(|(i, s)| s.index == i && s.color < 3));
    assert!(late.sprites.iter().all(|s| !s.round && s.turns && !s.twinkles));
}

#[test]
fn a_canvas_without_particles_runs_and_finishes() {
    let mut sc = scene(SECOND, 0);
    sc.particles = 0;
    let mut c = Canvas::new(sc);
    assert!(c.start(0, seed));
    assert_eq!(c.tick(10, add), Tick::Redraw);
    assert!(c.snapshot(10).unwrap().sprites.is_empty());
    assert_eq!(c.tick(SECOND + 1, add), Tick::Finished);
}
