use choreo::accum::UpdateAccumulator;
use choreo::angle::{dir_vel, norm_angle};
use choreo::collide::vec_angle;
use choreo::collide::{collide_cc, collide_cr, rectify_line};
use choreo::color::{mix, cmul, acmul, white, Rgba};
use choreo::ease::{apply, Easing};
use choreo::fix::{sat_add, sat_sub, sat_mul, mul_div, isqrt_u128};
use choreo::laser::{GrowLaser, SlamLaser};
use choreo::obstacle::{Obstacle, Ease};
use choreo::pellet::Pellet;
use choreo::player::Player;
use choreo::rect::RotatableRect;
use choreo::vec2::Vec2i;

fn screen() -> Vec2i {
    Vec2i::new(1280000, 720000)
}

#[test]
fn saturating_arithmetic_is_exact_in_range() {
    assert_eq!(sat_add(2, 3), 5);
    assert_eq!(sat_sub(2, 3), -1);
    assert_eq!(sat_mul(-4, 5), -20);
    assert_eq!(mul_div(10, 30, 4), 75);
    assert_eq!(mul_div(-10, 30, 4), -75);
    assert_eq!(sat_add(i64::MAX, 1), i64::MAX);
    assert_eq!(sat_sub(i64::MIN, 1), i64::MIN);
}

#[test]
fn isqrt_brackets_squares() {
    assert_eq!(isqrt_u128(0), 0);
    assert_eq!(isqrt_u128(15), 3);
    assert_eq!(isqrt_u128(16), 4);
    assert_eq!(isqrt_u128(4_000_000), 2000);
}

#[test]
fn angles_normalize_and_directions_have_exact_taxicab_speed() {
    assert_eq!(norm_angle(-90000), 270000);
    assert_eq!(norm_angle(360000), 0);
    assert_eq!(dir_vel(300, 0), Vec2i::new(300, 0));
    assert_eq!(dir_vel(300, 90000), Vec2i::new(0, 300));
    assert_eq!(dir_vel(300, 180000), Vec2i::new(-300, 0));
    assert_eq!(dir_vel(300, 270000), Vec2i::new(0, -300));
    for k in 0..24 {
        let v = dir_vel(999, k * 15000);
        assert_eq!(v.x.abs() + v.y.abs(), 999);
    }
}

#[test]
fn vec_angle_inverts_directions_on_axes() {
    assert_eq!(vec_angle(Vec2i::new(5, 0)), 0);
    assert_eq!(vec_angle(Vec2i::new(0, 5)), 90000);
    assert_eq!(vec_angle(Vec2i::new(-5, 0)), 180000);
    assert_eq!(vec_angle(Vec2i::new(0, -5)), 270000);
    assert_eq!(vec_angle(Vec2i::new(1, 2)), 60000);
}

#[test]
fn circle_circle_collision_is_exact() {
    let a = Vec2i::new(0, 0);
    assert!(!collide_cc(a, 1000, Vec2i::new(1500, 0), 400));
    assert!(collide_cc(a, 1000, Vec2i::new(1500, 0), 600));
    assert!(collide_cc(a, 1000, Vec2i::new(1500, 0), 500));
}

#[test]
fn rotated_rect_collision_covers_segment_midpoint() {
    let (center, size, rot) = rectify_line(Vec2i::new(0, 0), Vec2i::new(10000, 0), 2000);
    assert_eq!(center, Vec2i::new(5000, 0));
    assert_eq!(size, Vec2i::new(10000, 2000));
    assert_eq!(rot, 0);
    assert!(collide_cr(center, size, rot, Vec2i::new(5000, 0), 100));
    assert!(!collide_cr(center, size, rot, Vec2i::new(5000, 9000), 100));
}

#[test]
fn easing_presets_match_their_formulas() {
    assert_eq!(apply(Easing::Identity, 1234), 1234);
    assert_eq!(apply(Easing::Sqrt, 4000), 2000);
    assert_eq!(apply(Easing::Quad, 2000), 4000);
    assert_eq!(apply(Easing::Quant16th, 1100), 1000);
    assert_eq!(apply(Easing::Surge, 0), 0);
    assert_eq!(apply(Easing::Surge, 1000), 1750);
    assert_eq!(apply(Easing::Sqrt, -500), 0);
}

#[test]
fn color_blends_are_exact() {
    let w = white();
    let dark = Rgba { r: 0, g: 200, b: 400, a: 1000 };
    let half = mix(w, dark, 500);
    assert_eq!(half.r, 500);
    assert_eq!(half.g, 600);
    assert_eq!(half.b, 700);
    assert_eq!(half.a, 1000);
    let dim = cmul(dark, 500);
    assert_eq!((dim.r, dim.g, dim.b, dim.a), (0, 100, 200, 1000));
    let faded = acmul(dark, 250);
    assert_eq!((faded.r, faded.a), (0, 250));
}

#[test]
fn pellet_moves_ten_pixels_in_one_beat() {
    let p = Obstacle::Pellet(Pellet::new(Vec2i::new(0, 0), Vec2i::new(10000, 0), 3000));
    let mut acc = UpdateAccumulator::new(0);
    let p = p.update(&mut acc, 1000, 1000, 1000, 1000, screen());
    match p {
        Obstacle::Pellet(p) => assert_eq!(p.pos, Vec2i::new(10000, 0)),
        _ => panic!("pellet changed kind"),
    }
}

#[test]
fn pellet_motion_is_additive_over_half_beats() {
    let whole = Obstacle::Pellet(Pellet::new(Vec2i::new(0, 0), Vec2i::new(10000, 0), 3000));
    let halves = Obstacle::Pellet(Pellet::new(Vec2i::new(0, 0), Vec2i::new(10000, 0), 3000));
    let mut acc = UpdateAccumulator::new(0);
    let whole = whole.update(&mut acc, 1000, 1000, 1000, 1000, screen());
    let halves = halves.update(&mut acc, 500, 500, 500, 500, screen());
    let halves = halves.update(&mut acc, 500, 1000, 500, 1000, screen());
    match (whole, halves) {
        (Obstacle::Pellet(a), Obstacle::Pellet(b)) => {
            assert_eq!(a.pos, b.pos);
            assert_eq!(a.pos, Vec2i::new(10000, 0));
        },
        _ => panic!("pellet changed kind"),
    }
}

#[test]
fn pellet_dies_off_screen_and_stays_dead() {
    let p = Obstacle::Pellet(Pellet::new(Vec2i::new(0, 0), Vec2i::new(-2000000, 0), 1000));
    let mut acc = UpdateAccumulator::new(0);
    let p = p.update(&mut acc, 1000, 1000, 1000, 1000, screen());
    assert!(p.should_kill());
    let p = p.update(&mut acc, 1000, 2000, -1000, 0, screen());
    assert!(p.should_kill());
}

#[test]
fn identity_ease_is_a_no_op() {
    let raw = Obstacle::Pellet(Pellet::new(Vec2i::new(0, 0), Vec2i::new(7000, -3000), 2000));
    let wrapped = Obstacle::Eased(Ease::anon(
        Obstacle::Pellet(Pellet::new(Vec2i::new(0, 0), Vec2i::new(7000, -3000), 2000)),
        Easing::Identity,
    ));
    let player = Player { pos: Vec2i::new(7000, -3000), rad: 1000, ..Player::default() };
    let mut acc = UpdateAccumulator::new(0);
    let raw = raw.update(&mut acc, 1000, 1000, 1000, 1000, screen());
    let wrapped = wrapped.update(&mut acc, 1000, 1000, 1000, 1000, screen());
    assert_eq!(raw.collides(player), wrapped.collides(player));
    assert_eq!(raw.should_kill(), wrapped.should_kill());
    let raw = raw.update(&mut acc, 500, 1500, 500, 1500, screen());
    let wrapped = wrapped.update(&mut acc, 500, 1500, 500, 1500, screen());
    assert_eq!(raw.collides(player), wrapped.collides(player));
    match (&raw, &wrapped) {
        (Obstacle::Pellet(a), Obstacle::Eased(e)) => match &*e.proj {
            Obstacle::Pellet(b) => assert_eq!(a.pos, b.pos),
            _ => panic!("inner changed kind"),
        },
        _ => panic!("unexpected kinds"),
    }
}

#[test]
fn grow_laser_thickness_follows_the_envelope() {
    let mut acc = UpdateAccumulator::new(0);
    let g = GrowLaser::new(
        Vec2i::new(0, 0),
        Vec2i::new(10000, 0),
        1000,
        1000,
        2000,
        Vec2i::new(0, 0),
    );
    let o = Obstacle::GrowLaser(g).update(&mut acc, 1100, 1100, 1100, 1100, screen());
    match o {
        Obstacle::GrowLaser(g) => {
            assert_eq!(g.thick(), 400);
            assert!(g.shown);
        },
        _ => panic!("laser changed kind"),
    }
    assert_eq!(acc.jerk, Vec2i::new(0, 0));
}

#[test]
fn grow_laser_fires_its_jerk_once_on_arming() {
    let mut acc = UpdateAccumulator::new(0);
    let g = GrowLaser::new(
        Vec2i::new(0, 0),
        Vec2i::new(10000, 0),
        1000,
        1000,
        2000,
        Vec2i::new(5, -7),
    );
    let o = Obstacle::GrowLaser(g);
    let o = o.update(&mut acc, 500, 500, 500, 500, screen());
    assert_eq!(acc.jerk, Vec2i::new(0, 0));
    let o = o.update(&mut acc, 500, 1000, 500, 1000, screen());
    assert_eq!(acc.jerk, Vec2i::new(5, -7));
    let _ = o.update(&mut acc, 500, 1500, 500, 1500, screen());
    assert_eq!(acc.jerk, Vec2i::new(5, -7));
}

#[test]
fn warning_phase_shields_the_player() {
    let mut acc = UpdateAccumulator::new(0);
    let sl = SlamLaser::new(
        Vec2i::new(0, 0),
        Vec2i::new(10000, 0),
        2000,
        1000,
        10000,
        50,
        Vec2i::new(0, 0),
        3000,
    );
    let player = Player { pos: Vec2i::new(5000, 0), rad: 1000, ..Player::default() };
    let o = Obstacle::SlamLaser(sl);
    let o = o.update(&mut acc, 500, 500, 500, 500, screen());
    assert!(!o.collides(player));
    let o = o.update(&mut acc, 1000, 1500, 1000, 1500, screen());
    assert!(o.collides(player));
    assert_eq!(acc.shake, 3000);
}

#[test]
fn timed_obstacles_expire_monotonically() {
    let mut acc = UpdateAccumulator::new(0);
    let g = GrowLaser::new(
        Vec2i::new(0, 0),
        Vec2i::new(1000, 0),
        500,
        1000,
        2000,
        Vec2i::new(0, 0),
    );
    let o = Obstacle::GrowLaser(g);
    let o = o.update(&mut acc, 0, 0, 0, 0, screen());
    assert!(!o.should_kill());
    let o = o.update(&mut acc, 2999, 2999, 2999, 2999, screen());
    assert!(!o.should_kill());
    let o = o.update(&mut acc, 1, 3000, 1, 3000, screen());
    assert!(o.should_kill());
    let o = o.update(&mut acc, 1000, 4000, 1000, 4000, screen());
    assert!(o.should_kill());
}

#[test]
fn rotatable_rect_size_shrinks_to_zero() {
    let r = RotatableRect {
        center: Vec2i::new(0, 0),
        size: Vec2i::new(2000, 2000),
        rot: 0,
        warning_time: 1000,
        show_time: 4000,
        current_time: 0,
        grow_time: 250,
    };
    assert_eq!(r.size(false), Vec2i::new(2000, 2000));
    let late = RotatableRect { current_time: 4900, ..r };
    assert_eq!(late.size(false), Vec2i::new(800, 800));
    let done = RotatableRect { current_time: 5000, ..r };
    assert_eq!(done.size(false), Vec2i::new(0, 0));
}

#[test]
fn slam_laser_retracts_along_a_parabola() {
    let sl = SlamLaser::new(
        Vec2i::new(0, 0),
        Vec2i::new(10000, 0),
        2000,
        1000,
        10000,
        50,
        Vec2i::new(0, 0),
        0,
    );
    let early = SlamLaser { current_time: 500, ..sl };
    assert_eq!(early.slam(), 25);
    let held = SlamLaser { current_time: 5000, ..sl };
    assert_eq!(held.slam(), 1000);
    let leaving = SlamLaser { current_time: 10000, ..sl };
    assert_eq!(leaving.slam(), 750);
    let gone = SlamLaser { current_time: 11000, ..sl };
    assert_eq!(gone.slam(), 0);
}
