use choreo::accum::UpdateAccumulator;
use choreo::bomb::Bomb;
use choreo::center::{CenterEvent, CenterProj};
use choreo::gol::GOLGrid;
use choreo::obstacle::{Obst, Obstacle};
use choreo::periodic::Periodic;
use choreo::player::Player;
use choreo::spawner::Accumulatee;
use choreo::vec2::Vec2i;

fn screen() -> Vec2i {
    Vec2i::new(1280000, 720000)
}

#[test]
fn accumulator_composes_effects_and_timestamps_spawns() {
    let mut acc = UpdateAccumulator::new(4242);
    assert_eq!(acc.time(), 4242);
    acc.shake(500);
    acc.shake(200);
    assert_eq!(acc.shake, 500);
    acc.jerk(Vec2i::new(3, 4));
    acc.jerk(Vec2i::new(-1, 1));
    assert_eq!(acc.jerk, Vec2i::new(2, 5));
    acc.obst(Obstacle::Pellet(choreo::pellet::Pellet::new(
        Vec2i::new(0, 0),
        Vec2i::new(1, 0),
        1,
    )));
    assert_eq!(acc.obstacles.len(), 1);
    assert_eq!(acc.obstacles[0].start_time, 4242);
    assert!(!acc.obstacles[0].marked_for_removal);
}

#[test]
fn bomb_eases_from_start_toward_target() {
    let b = Bomb::new(
        Vec2i::new(0, 0),
        Vec2i::new(100000, 0),
        2000,
        6,
        300,
        5000,
        Bomb::pellet_spawner(),
    );
    assert_eq!(b.pos(Vec2i::new(0, 0)), Vec2i::new(0, 0));
    let mut acc = UpdateAccumulator::new(0);
    let o = Obstacle::Bomb(b).update(&mut acc, 1000, 1000, 1000, 1000, screen());
    match o {
        Obstacle::Bomb(b) => {
            let p = b.pos(Vec2i::new(0, 0));
            assert!(p.x > 0 && p.x < 100000);
            assert!(!Obstacle::Bomb(b).should_kill());
        },
        _ => panic!("bomb changed kind"),
    }
}

#[test]
fn bomb_detonates_into_six_evenly_spaced_pellets() {
    let b = Bomb::new(
        Vec2i::new(0, 0),
        Vec2i::new(0, 0),
        2000,
        6,
        300,
        5000,
        Bomb::pellet_spawner(),
    );
    let mut acc = UpdateAccumulator::new(7000);
    Obstacle::Bomb(b).kill(&mut acc);
    assert_eq!(acc.obstacles.len(), 6);
    let expected = [
        (300, 0),
        (100, 200),
        (-100, 200),
        (-300, 0),
        (-100, -200),
        (100, -200),
    ];
    for (i, (vx, vy)) in expected.iter().enumerate() {
        match &acc.obstacles[i].obstacle {
            Obstacle::Pellet(p) => {
                assert_eq!(p.vel, Vec2i::new(*vx, *vy));
                assert_eq!(p.rad, 5000);
                assert_eq!(p.pos, Vec2i::new(0, 0));
                assert_eq!(p.vel.x.abs() + p.vel.y.abs(), 300);
            },
            _ => panic!("bomb spawned a non-pellet"),
        }
        assert_eq!(acc.obstacles[i].start_time, 7000);
    }
}

#[test]
fn periodic_fires_once_per_interval_and_expires() {
    let spawner = Periodic::linear(
        2000,
        500,
        250,
        Vec2i::new(0, 0),
        Vec2i::new(10000, 0),
        Vec2i::new(4000, 4000),
        0,
    );
    let p = Periodic::new(3, 1000, spawner);
    let mut acc = UpdateAccumulator::new(0);
    let o = Obstacle::Periodic(p).update(&mut acc, 2500, 2500, 2500, 2500, screen());
    assert_eq!(acc.obstacles.len(), 2);
    assert!(!o.should_kill());
    let o = o.update(&mut acc, 500, 3000, 500, 3000, screen());
    assert_eq!(acc.obstacles.len(), 3);
    assert!(o.should_kill());
    match &acc.obstacles[1].obstacle {
        Obstacle::RotatableRect(r) => {
            assert_eq!(r.center, Vec2i::new(0, 0));
            assert_eq!(r.show_time, 2000);
        },
        _ => panic!("periodic spawned a non-rectangle"),
    }
}

#[test]
fn gol_blinker_oscillates_under_default_rules() {
    let mut g = GOLGrid::default().dims(5, 5);
    g.gol[2 * 5 + 1] = true;
    g.gol[2 * 5 + 2] = true;
    g.gol[2 * 5 + 3] = true;
    assert_eq!(g.neighbors(2, 2), 2);
    assert_eq!(g.neighbors(2, 1), 3);
    assert!(g.get_next(2, 1));
    assert!(g.get_next(2, 2));
    assert!(!g.get_next(1, 2));
    let before = g.tick();
    assert!(before[2 * 5 + 1]);
    assert!(g.get(2, 1) && g.get(2, 2) && g.get(2, 3));
    assert!(!g.get(1, 2) && !g.get(3, 2));
    let _ = g.tick();
    assert!(g.get(1, 2) && g.get(2, 2) && g.get(3, 2));
    assert!(!g.get(2, 1) && !g.get(2, 3));
}

#[test]
fn gol_step_is_reproducible() {
    let mut a = GOLGrid::default().dims(6, 6);
    a.gol[7] = true;
    a.gol[8] = true;
    a.gol[9] = true;
    let mut b = a.clone();
    let _ = a.tick();
    let _ = b.tick();
    for i in 0..36 {
        assert_eq!(a.gol[i], b.gol[i]);
    }
}

#[test]
fn gol_spawns_one_rect_per_live_cell_on_first_tick() {
    let mut g = GOLGrid::default().dims(4, 4);
    g.gol[5] = true;
    g.gol[6] = true;
    let mut acc = UpdateAccumulator::new(0);
    let o = Obstacle::Gol(g).update(&mut acc, 100, 100, 100, 100, screen());
    let live = match &o {
        Obstacle::Gol(g2) => {
            let mut n = 0;
            for i in 0..16 {
                if g2.gol[i] {
                    n += 1;
                }
            }
            n
        },
        _ => panic!("grid changed kind"),
    };
    assert_eq!(acc.obstacles.len(), live);
    for slot in acc.obstacles.iter() {
        match &slot.obstacle {
            Obstacle::RotatableRect(r) => {
                assert_eq!(r.size, Vec2i::new(1280000 / 4, 720000 / 4));
                assert_eq!(r.warning_time, 1000);
            },
            _ => panic!("grid spawned a non-rectangle"),
        }
    }
}

#[test]
fn out_of_order_events_fire_in_offset_order_after_sorting() {
    let c = CenterProj::new().evs(vec![
        (1000, CenterEvent::Pulse),
        (500, CenterEvent::Lasers(2, 0)),
    ]).sort();
    assert_eq!(c.events[0].0, 500);
    assert!(matches!(c.events[0].1, CenterEvent::Lasers(2, 0)));
    assert_eq!(c.events[1].0, 1000);
    assert!(matches!(c.events[1].1, CenterEvent::Pulse));
    let mut acc = UpdateAccumulator::new(0);
    let o = Obstacle::Center(c).update(&mut acc, 1600, 1600, 1600, 1600, screen());
    match &o {
        Obstacle::Center(c2) => {
            assert_eq!(c2.events.len(), 1);
            assert_eq!(c2.events[0].0, 1000);
        },
        _ => panic!("boss changed kind"),
    }
    assert_eq!(acc.obstacles.len(), 2);
    assert!(matches!(acc.obstacles[0].obstacle, Obstacle::SlamLaser(_)));
    assert_eq!(acc.shake, 0);
    let o = o.update(&mut acc, 500, 2100, 500, 2100, screen());
    match &o {
        Obstacle::Center(c2) => assert_eq!(c2.events.len(), 0),
        _ => panic!("boss changed kind"),
    }
    assert_eq!(acc.shake, 10000);
}

#[test]
fn boss_pulse_decays_and_spinner_fires_pellets() {
    let mut c = CenterProj::new();
    c.set_track(Vec2i::new(640000, 360000), Vec2i::new(640000, 360000));
    c.pulse = 1000;
    let mut acc = UpdateAccumulator::new(0);
    c.employ(CenterEvent::PelletSpinner(3, 200, 2000, 0, 1000), &mut acc);
    assert_eq!(c.pellet_spinners.len(), 1);
    assert_eq!(acc.obstacles.len(), 0);
    let o = Obstacle::Center(c).update(&mut acc, 100, 100, 100, 100, screen());
    match &o {
        Obstacle::Center(c2) => {
            assert_eq!(c2.pulse, 975);
            assert_eq!(c2.pellet_spinners.len(), 1);
            assert_eq!(c2.pellet_spinners[0].count, 1);
        },
        _ => panic!("boss changed kind"),
    }
    assert_eq!(acc.obstacles.len(), 1);
    match &acc.obstacles[0].obstacle {
        Obstacle::Pellet(p) => {
            assert_eq!(p.vel.x.abs() + p.vel.y.abs(), 200);
        },
        _ => panic!("spinner spawned a non-pellet"),
    }
}

#[test]
fn boss_warning_gates_its_collision() {
    let mut c = CenterProj::new();
    c.set_track(Vec2i::new(0, 0), Vec2i::new(0, 0));
    let player = Player { pos: Vec2i::new(0, 0), rad: 5000, ..Player::default() };
    let mut acc = UpdateAccumulator::new(0);
    let o = Obstacle::Center(c).update(&mut acc, 500, 500, 500, 500, screen());
    assert!(!o.collides(player));
    let o = o.update(&mut acc, 1000, 1500, 1000, 1500, screen());
    assert!(o.collides(player));
    assert!(!o.should_kill());
}

#[test]
fn cloning_is_a_deep_copy() {
    let b = Bomb::new(
        Vec2i::new(0, 0),
        Vec2i::new(1000, 0),
        2000,
        4,
        100,
        500,
        Accumulatee::Pellet,
    );
    let slot = Obst::new(Obstacle::Bomb(b), 123);
    let copy = slot.clone();
    assert_eq!(copy.start_time, 123);
    match (&slot.obstacle, &copy.obstacle) {
        (Obstacle::Bomb(x), Obstacle::Bomb(y)) => {
            assert_eq!(x.life, y.life);
            assert_eq!(x.pellets, y.pellets);
        },
        _ => panic!("clone changed kind"),
    }
}

#[test]
fn populate_only_adds_live_cells() {
    let g = GOLGrid::default().dims(4, 4).populate(5);
    let mut live = 0;
    for i in 0..16 {
        if g.gol[i] {
            live += 1;
        }
    }
    assert!(live >= 1 && live <= 5);
}

#[test]
fn messy_pellets_respect_the_speed_range() {
    let mut c = CenterProj::new();
    c.set_track(Vec2i::new(100000, 100000), Vec2i::new(100000, 100000));
    let mut acc = UpdateAccumulator::new(0);
    c.employ(CenterEvent::MessyPellets(5, 2000, 100, 101), &mut acc);
    assert_eq!(acc.obstacles.len(), 5);
    for slot in acc.obstacles.iter() {
        match &slot.obstacle {
            Obstacle::Pellet(p) => {
                assert_eq!(p.pos, Vec2i::new(100000, 100000));
                assert_eq!(p.vel.x.abs() + p.vel.y.abs(), 100);
                assert_eq!(p.rad, 2000);
            },
            _ => panic!("messy event spawned a non-pellet"),
        }
    }
}
