//! The composite scheduled-event boss hazard.
//!
//! A single hazard whose position follows an externally computed noise path
//! (the owner feeds path samples through `set_track` each tick; the noise
//! collaborator itself is outside the core). It owns a time-ordered queue of
//! `(offset, CenterEvent)` pairs consumed in non-decreasing offset order,
//! and a set of pellet spinners spawned by events.
use vstd::prelude::*;

use crate::accum::{UpdateAccumulator, acc_plus};
use crate::angle::{vdir, vradial, dir_vel, radial_offset, ANGLE_TURN};
use crate::collide::collide_cc_spec;
use crate::collide::collide_cc;
use crate::color::{Rgba, mix, mix_spec, acmul, acmul_spec, white, white_spec};
use crate::ease::Easing;
use crate::fix::{sadd, ssub, smuldiv, clamp0, sat_add, sat_sub, mul_div, max64, TIME_SCALE};
use crate::laser::SlamLaser;
use crate::obstacle::{Obst, Obstacle, Ease};
use crate::pellet::Pellet;
use crate::player::Player;
use crate::rng::rand_range;
use crate::spin::{PelletSpinner, spinner_wf, spinner_step};
use crate::vec2::{Vec2i, vplus};

verus! {

/// One scheduled boss event.
#[derive(Clone, Copy, PartialEq, Eq, Structural, Debug)]
pub enum CenterEvent {
    /// A radial flash pulse with a fixed shake.
    Pulse,
    /// A pulse with the given shake strength.
    SPulse(i64),
    /// `(count, phase)`: slam lasers radiating from the projected position.
    Lasers(usize, i64),
    /// `(count, speed, rad, phase, strong)`: a radial pellet ring; strong
    /// pellets launch through the surge ease.
    Pellets(usize, i64, i64, i64, bool),
    /// `(count, rad, min_speed, max_speed)`: pellets with random direction
    /// and speed.
    MessyPellets(usize, i64, i64, i64),
    /// `(count, speed, rad, phase, ppb)`: enqueue a pellet spinner firing
    /// `ppb` pellets per beat.
    PelletSpinner(usize, i64, i64, i64, i64),
}

/// Bounds an event's parameters must satisfy before it is scheduled.
pub open spec fn event_wf(ev: CenterEvent) -> bool {
    match ev {
        CenterEvent::Pulse => true,
        CenterEvent::SPulse(_) => true,
        CenterEvent::Lasers(count, _) => count <= 1000000000,
        CenterEvent::Pellets(count, speed, _, _, _) => count <= 1000000000 && speed >= 0,
        CenterEvent::MessyPellets(count, _, _, _) => count <= 1000000000,
        CenterEvent::PelletSpinner(count, speed, _, _, ppb) => count <= 1000000000 && speed >= 0
            && ppb >= 1,
    }
}

/// The boss hazard.
#[derive(Debug)]
pub struct CenterProj {
    pub disp_amp: i64,
    pub disp_freq: Vec2i,
    pub disp_phase: Vec2i,
    pub time: i64,
    pub ease: i64,
    pub rad: i64,
    pub pulse: i64,
    pub warning_time: i64,
    pub show_time: i64,
    pub leave_time: i64,
    pub events: Vec<(i64, CenterEvent)>,
    pub pellet_spinners: Vec<PelletSpinner>,
    pub track: Vec2i,
    pub track_ahead: Vec2i,
}

/// Structural well-formedness of the boss.
pub open spec fn center_wf(c: CenterProj) -> bool {
    c.warning_time >= 1 && c.show_time >= 0 && c.leave_time >= 1 && c.rad >= 0 && (forall|i: int|
        0 <= i < c.pellet_spinners@.len() ==> spinner_wf(#[trigger] c.pellet_spinners@[i])) && (
    forall|i: int| 0 <= i < c.events@.len() ==> event_wf((#[trigger] c.events@[i]).1))
}

/// The two boss values are equal up to the contents of their vectors.
pub open spec fn center_eqv(a: CenterProj, b: CenterProj) -> bool {
    b.disp_amp == a.disp_amp && b.disp_freq == a.disp_freq && b.disp_phase == a.disp_phase
        && b.time == a.time && b.ease == a.ease && b.rad == a.rad && b.pulse == a.pulse
        && b.warning_time == a.warning_time && b.show_time == a.show_time && b.leave_time
        == a.leave_time && b.events@ == a.events@ && b.pellet_spinners@ == a.pellet_spinners@
        && b.track == a.track && b.track_ahead == a.track_ahead
}

/// The event offsets are in non-decreasing order.
pub open spec fn evs_sorted(s: Seq<(i64, CenterEvent)>) -> bool {
    forall|i: int, j: int| 0 <= i < j < s.len() ==> (#[trigger] s[i]).0 <= (#[trigger] s[j]).0
}

/// The length of the maximal due prefix: the queue is consumed from the
/// front while the head's offset has been reached.
pub open spec fn due_count(s: Seq<(i64, CenterEvent)>, cutoff: i64) -> nat
    decreases s.len(),
{
    if s.len() == 0 || s[0].0 > cutoff {
        0
    } else {
        1 + due_count(s.skip(1), cutoff)
    }
}

/// Whether the event sets the pulse flash.
pub open spec fn is_pulse(ev: CenterEvent) -> bool {
    ev matches CenterEvent::Pulse || ev matches CenterEvent::SPulse(_)
}

/// The pulse value after firing `fired`, starting from `decayed`.
pub open spec fn pulse_after(decayed: i64, fired: Seq<(i64, CenterEvent)>) -> i64 {
    if exists|j: int| 0 <= j < fired.len() && is_pulse((#[trigger] fired[j]).1) {
        1000
    } else {
        decayed
    }
}

/// The spinners enqueued by the fired events, in order; each starts its
/// schedule at `now`.
pub open spec fn spinners_of(fired: Seq<(i64, CenterEvent)>, now: i64) -> Seq<PelletSpinner>
    decreases fired.len(),
{
    if fired.len() == 0 {
        Seq::empty()
    } else {
        (match fired[0].1 {
            CenterEvent::PelletSpinner(count, speed, rad, phase, ppb) => seq![
                PelletSpinner {
                    count: 0,
                    max: count,
                    phase,
                    period: smuldiv(TIME_SCALE, TIME_SCALE, ppb),
                    start_time: now,
                    rad,
                    speed,
                },
            ],
            _ => Seq::empty(),
        }) + spinners_of(fired.skip(1), now)
    }
}

/// One pass of the spinner list at `time`: every spinner steps (possibly
/// firing), and exhausted spinners are discarded.
pub open spec fn spin_filter(s: Seq<PelletSpinner>, time: i64) -> Seq<PelletSpinner>
    decreases s.len(),
{
    if s.len() == 0 {
        Seq::empty()
    } else {
        let stepped = spinner_step(s[0], time);
        (if stepped.count >= stepped.max {
            Seq::empty()
        } else {
            seq![stepped]
        }) + spin_filter(s.skip(1), time)
    }
}

proof fn lemma_spin_filter_snoc(s: Seq<PelletSpinner>, x: PelletSpinner, time: i64)
    ensures
        spin_filter(s.push(x), time) == spin_filter(s, time) + spin_filter(seq![x], time),
    decreases s.len(),
{
    if s.len() == 0 {
        assert(s.push(x) =~= seq![x]);
        assert(spin_filter(s, time) + spin_filter(seq![x], time) =~= spin_filter(seq![x], time));
    } else {
        lemma_spin_filter_snoc(s.skip(1), x, time);
        assert(s.push(x).skip(1) =~= s.skip(1).push(x));
        assert(s.push(x)[0] == s[0]);
        assert(spin_filter(s.push(x), time) =~= spin_filter(s, time) + spin_filter(
            seq![x],
            time,
        ));
    }
}


/// The launch angle of item `j` of a ring of `count` items phased by
/// `phase`.
pub open spec fn ring_angle(j: int, count: usize, phase: i64) -> i64 {
    sadd(smuldiv(j as i64, ANGLE_TURN, count as i64), phase)
}

/// The slam laser spawned for ray `j` of a `Lasers` event fired at `start`.
pub open spec fn laser_obst(start: Vec2i, j: int, count: usize, phase: i64, t: i64) -> Obst {
    let angle = ring_angle(j, count, phase);
    Obst {
        obstacle: Obstacle::SlamLaser(
            SlamLaser {
                start,
                end: vplus(start, vdir(1250000, angle)),
                thickness: 20000,
                warning_time: 1000,
                show_time: 1000,
                current_time: 0,
                leave_time: 500,
                anticipation: 50,
                shown: false,
                jerk: Vec2i { x: 0, y: 0 },
                shake: 0,
            },
        ),
        marked_for_removal: false,
        start_time: t,
    }
}

/// The first `k` lasers of a `Lasers` event, in spawn order.
pub open spec fn lasers_spawns(start: Vec2i, count: usize, phase: i64, t: i64, k: nat) -> Seq<Obst>
    decreases k,
{
    if k == 0 {
        Seq::empty()
    } else {
        lasers_spawns(start, count, phase, t, (k - 1) as nat) + seq![
            laser_obst(start, k - 1, count, phase, t),
        ]
    }
}

/// The pellet spawned for ray `j` of a `Pellets` event fired at `start`
/// from a boss of radius `selfrad`.
pub open spec fn ring_pellet_obst(
    start: Vec2i,
    selfrad: i64,
    j: int,
    count: usize,
    speed: i64,
    rad: i64,
    phase: i64,
    strong: bool,
    t: i64,
) -> Obst {
    let angle = ring_angle(j, count, phase);
    let p = Pellet {
        pos: vplus(start, vradial(ssub(selfrad, rad), angle)),
        vel: vdir(speed, angle),
        rad,
        dead: false,
    };
    Obst {
        obstacle: if strong {
            Obstacle::Eased(Ease { ease: Easing::Surge, prev: 0, proj: Box::new(Obstacle::Pellet(p)) })
        } else {
            Obstacle::Pellet(p)
        },
        marked_for_removal: false,
        start_time: t,
    }
}

/// The first `k` pellets of a `Pellets` event, in spawn order.
pub open spec fn pellets_spawns(
    start: Vec2i,
    selfrad: i64,
    count: usize,
    speed: i64,
    rad: i64,
    phase: i64,
    strong: bool,
    t: i64,
    k: nat,
) -> Seq<Obst>
    decreases k,
{
    if k == 0 {
        Seq::empty()
    } else {
        pellets_spawns(start, selfrad, count, speed, rad, phase, strong, t, (k - 1) as nat)
            + seq![
            ring_pellet_obst(start, selfrad, k - 1, count, speed, rad, phase, strong, t),
        ]
    }
}

/// What a `MessyPellets` spawn looks like: a pellet at the boss position
/// with some direction and some speed within the configured range.
pub open spec fn messy_ok(
    start: Vec2i,
    rad: i64,
    min_speed: i64,
    max_speed: i64,
    t: i64,
    o: Obst,
) -> bool {
    exists|sp: i64, an: i64|
        (if min_speed < max_speed {
            min_speed <= sp < max_speed
        } else {
            sp == min_speed
        }) && 0 <= an < ANGLE_TURN && o == (Obst {
            obstacle: Obstacle::Pellet(
                Pellet {
                    pos: start,
                    vel: #[trigger] vdir(clamp0(sp), an),
                    rad,
                    dead: false,
                },
            ),
            marked_for_removal: false,
            start_time: t,
        })
}

/// How one `employ` changes the boss itself.
pub open spec fn employ_state_rel(pre: CenterProj, post: CenterProj, ev: CenterEvent) -> bool {
    post.disp_amp == pre.disp_amp && post.disp_freq == pre.disp_freq && post.disp_phase
        == pre.disp_phase && post.time == pre.time && post.ease == pre.ease && post.rad == pre.rad
        && post.warning_time == pre.warning_time && post.show_time == pre.show_time
        && post.leave_time == pre.leave_time && post.events@ == pre.events@ && post.track
        == pre.track && post.track_ahead == pre.track_ahead && post.pulse == (if is_pulse(ev) {
        1000
    } else {
        pre.pulse
    }) && post.pellet_spinners@ == pre.pellet_spinners@ + spinners_of(
        seq![(0i64, ev)],
        pre.time,
    )
}

/// How one `employ` changes the accumulator.
pub open spec fn employ_acc_rel(
    pre_c: CenterProj,
    ev: CenterEvent,
    pre: UpdateAccumulator,
    post: UpdateAccumulator,
) -> bool {
    post.jerk == pre.jerk && post.time == pre.time && match ev {
        CenterEvent::Pulse => post.obstacles@ == pre.obstacles@ && post.shake == (if 10000
            >= pre.shake {
            10000
        } else {
            pre.shake
        }),
        CenterEvent::SPulse(st) => post.obstacles@ == pre.obstacles@ && post.shake == (if st
            >= pre.shake {
            st
        } else {
            pre.shake
        }),
        CenterEvent::Lasers(count, phase) => post.shake == pre.shake && post.obstacles@
            == pre.obstacles@ + lasers_spawns(
            pre_c.track_ahead,
            count,
            phase,
            pre.time,
            count as nat,
        ),
        CenterEvent::Pellets(count, speed, rad, phase, strong) => post.shake == pre.shake
            && post.obstacles@ == pre.obstacles@ + pellets_spawns(
            pre_c.track,
            pre_c.rad,
            count,
            speed,
            rad,
            phase,
            strong,
            pre.time,
            count as nat,
        ),
        CenterEvent::MessyPellets(count, rad, min_speed, max_speed) => post.shake == pre.shake
            && post.obstacles@.len() == pre.obstacles@.len() + count
            && pre.obstacles@.is_prefix_of(post.obstacles@) && (forall|i: int|
            pre.obstacles@.len() <= i < post.obstacles@.len() ==> messy_ok(
                pre_c.track,
                rad,
                min_speed,
                max_speed,
                pre.time,
                #[trigger] post.obstacles@[i],
            )),
        CenterEvent::PelletSpinner(..) => post.obstacles@ == pre.obstacles@ && post.shake
            == pre.shake,
    }
}

impl Clone for CenterProj {
    /// Deep value copy.
    fn clone(&self) -> (r: CenterProj)
        ensures
            center_eqv(*self, r),
    {
        let mut events: Vec<(i64, CenterEvent)> = Vec::new();
        let mut i: usize = 0;
        while i < self.events.len()
            invariant
                i <= self.events@.len(),
                events@ == self.events@.subrange(0, i as int),
            decreases self.events@.len() - i,
        {
            events.push(self.events[i]);
            proof {
                assert(events@ =~= self.events@.subrange(0, (i + 1) as int));
            }
            i = i + 1;
        }
        let mut spinners: Vec<PelletSpinner> = Vec::new();
        let mut j: usize = 0;
        while j < self.pellet_spinners.len()
            invariant
                j <= self.pellet_spinners@.len(),
                spinners@ == self.pellet_spinners@.subrange(0, j as int),
            decreases self.pellet_spinners@.len() - j,
        {
            spinners.push(self.pellet_spinners[j]);
            proof {
                assert(spinners@ =~= self.pellet_spinners@.subrange(0, (j + 1) as int));
            }
            j = j + 1;
        }
        proof {
            assert(events@ =~= self.events@);
            assert(spinners@ =~= self.pellet_spinners@);
        }
        CenterProj {
            disp_amp: self.disp_amp,
            disp_freq: self.disp_freq,
            disp_phase: self.disp_phase,
            time: self.time,
            ease: self.ease,
            rad: self.rad,
            pulse: self.pulse,
            warning_time: self.warning_time,
            show_time: self.show_time,
            leave_time: self.leave_time,
            events,
            pellet_spinners: spinners,
            track: self.track,
            track_ahead: self.track_ahead,
        }
    }
}

impl Default for CenterProj {
    /// The stock boss: a 20-pixel circle wobbling with 75-pixel amplitude,
    /// one beat of warning, 32 beats of show, a quarter-beat leave window,
    /// and no events yet.
    fn default() -> (r: CenterProj)
        ensures
            r.disp_amp == 75000,
            r.disp_freq == (Vec2i { x: 1000, y: 1000 }),
            r.disp_phase == (Vec2i { x: 0, y: 0 }),
            r.time == 0,
            r.ease == 0,
            r.rad == 20000,
            r.pulse == 0,
            r.warning_time == 1000,
            r.show_time == 32000,
            r.leave_time == 250,
            r.events@ =~= Seq::<(i64, CenterEvent)>::empty(),
            r.pellet_spinners@ =~= Seq::<PelletSpinner>::empty(),
            r.track == (Vec2i { x: 0, y: 0 }),
            r.track_ahead == (Vec2i { x: 0, y: 0 }),
            center_wf(r),
    {
        CenterProj {
            disp_amp: 75000,
            disp_freq: Vec2i { x: 1000, y: 1000 },
            disp_phase: Vec2i { x: 0, y: 0 },
            time: 0,
            ease: 0,
            rad: 20000,
            pulse: 0,
            warning_time: 1000,
            show_time: 32000,
            leave_time: 250,
            events: Vec::new(),
            pellet_spinners: Vec::new(),
            track: Vec2i { x: 0, y: 0 },
            track_ahead: Vec2i { x: 0, y: 0 },
        }
    }
}

proof fn lemma_spinners_of_single(ev: CenterEvent, now: i64)
    ensures
        !(ev matches CenterEvent::PelletSpinner(..)) ==> spinners_of(seq![(0i64, ev)], now)
            =~= Seq::<PelletSpinner>::empty(),
        ev matches CenterEvent::PelletSpinner(count, speed, rad, phase, ppb) ==> spinners_of(
            seq![(0i64, ev)],
            now,
        ) =~= seq![
            PelletSpinner {
                count: 0,
                max: count,
                phase,
                period: smuldiv(TIME_SCALE, TIME_SCALE, ppb),
                start_time: now,
                rad,
                speed,
            },
        ],
{
    let s1 = seq![(0i64, ev)];
    assert(s1.len() == 1);
    assert(s1[0].1 == ev);
    assert(s1.skip(1) =~= Seq::<(i64, CenterEvent)>::empty());
    assert(spinners_of(s1.skip(1), now) =~= Seq::<PelletSpinner>::empty());
    match ev {
        CenterEvent::PelletSpinner(count, speed, rad, phase, ppb) => {
            assert(spinners_of(s1, now) =~= seq![
                PelletSpinner {
                    count: 0,
                    max: count,
                    phase,
                    period: smuldiv(TIME_SCALE, TIME_SCALE, ppb),
                    start_time: now,
                    rad,
                    speed,
                },
            ]);
        },
        _ => {
            assert(spinners_of(s1, now) =~= Seq::<PelletSpinner>::empty());
        },
    }
}

proof fn lemma_spinners_of_snoc(s: Seq<(i64, CenterEvent)>, x: (i64, CenterEvent), now: i64)
    ensures
        spinners_of(s.push(x), now) == spinners_of(s, now) + spinners_of(seq![x], now),
    decreases s.len(),
{
    if s.len() == 0 {
        assert(s.push(x) =~= seq![x]);
        assert(spinners_of(s, now) + spinners_of(seq![x], now) =~= spinners_of(seq![x], now));
    } else {
        lemma_spinners_of_snoc(s.skip(1), x, now);
        assert(s.push(x).skip(1) =~= s.skip(1).push(x));
        assert(s.push(x)[0] == s[0]);
        assert(spinners_of(s.push(x), now) =~= spinners_of(s, now) + spinners_of(seq![x], now));
    }
}

proof fn lemma_due_count_le(s: Seq<(i64, CenterEvent)>, cutoff: i64)
    ensures
        due_count(s, cutoff) <= s.len(),
    decreases s.len(),
{
    if !(s.len() == 0 || s[0].0 > cutoff) {
        lemma_due_count_le(s.skip(1), cutoff);
    }
}

proof fn lemma_due_count_exact(s: Seq<(i64, CenterEvent)>, cutoff: i64, k: int)
    requires
        0 <= k <= s.len(),
        forall|j: int| 0 <= j < k ==> (#[trigger] s[j]).0 <= cutoff,
        k == s.len() || s[k].0 > cutoff,
    ensures
        due_count(s, cutoff) == k,
    decreases k,
{
    if k == 0 {
    } else {
        assert(s[0].0 <= cutoff);
        assert(forall|j: int| 0 <= j < k - 1 ==> (#[trigger] s.skip(1)[j]).0 == s[j + 1].0
            && s[j + 1].0 <= cutoff);
        if k < s.len() {
            assert(s.skip(1)[k - 1].0 == s[k].0);
        }
        lemma_due_count_exact(s.skip(1), cutoff, k - 1);
    }
}

/// Consuming a sorted queue takes events in non-decreasing offset order:
/// every event fired at a cutoff lies at or before every event that
/// remains, so an earlier-offset event can never be overtaken by a later
/// one, regardless of insertion order before sorting.
pub proof fn lemma_sorted_consumption(s: Seq<(i64, CenterEvent)>, cutoff: i64)
    requires
        evs_sorted(s),
    ensures
        due_count(s, cutoff) <= s.len(),
        forall|i: int| 0 <= i < due_count(s, cutoff) ==> (#[trigger] s[i]).0 <= cutoff,
        forall|j: int|
            due_count(s, cutoff) <= j < s.len() ==> (#[trigger] s[j]).0 > cutoff,
    decreases s.len(),
{
    lemma_due_count_le(s, cutoff);
    if s.len() == 0 || s[0].0 > cutoff {
    } else {
        assert(forall|i: int| 0 <= i < s.skip(1).len() ==> (#[trigger] s.skip(1)[i]) == s[i + 1]);
        assert(forall|i: int, j: int|
            0 <= i < j < s.skip(1).len() ==> (#[trigger] s.skip(1)[i]).0 <= (#[trigger] s.skip(
                1,
            )[j]).0);
        lemma_sorted_consumption(s.skip(1), cutoff);
        let k = due_count(s, cutoff);
        assert(k == 1 + due_count(s.skip(1), cutoff));
        assert forall|i: int| 0 <= i < k implies (#[trigger] s[i]).0 <= cutoff by {
            if i > 0 {
                assert(s.skip(1)[i - 1] == s[i]);
            }
        }
        assert forall|j: int| k <= j < s.len() implies (#[trigger] s[j]).0 > cutoff by {
            assert(s.skip(1)[j - 1] == s[j]);
        }
    }
}

proof fn lemma_insert_to_multiset(s: Seq<(i64, CenterEvent)>, i: int, a: (i64, CenterEvent))
    requires
        0 <= i <= s.len(),
    ensures
        s.insert(i, a).to_multiset() =~= s.to_multiset().insert(a),
{
    broadcast use vstd::seq_lib::group_to_multiset_ensures;

    let left = s.subrange(0, i);
    let right = s.subrange(i, s.len() as int);
    assert(s.insert(i, a) == left.push(a) + right);
    vstd::seq_lib::lemma_multiset_commutative(left.push(a), right);
    vstd::seq_lib::lemma_multiset_commutative(left, right);
    assert(left + right =~= s);
    assert(left.push(a).to_multiset() =~= left.to_multiset().insert(a));
}

/// The boss's drawn and collidable radius at its current time: the pulse
/// swells it, and it shrinks to zero over the final `leave_time` window.
pub open spec fn center_size_spec(c: CenterProj) -> i64 {
    let s1 = smuldiv(c.rad, sadd(c.pulse, 1000), 1000);
    if ssub(c.time, c.warning_time) > ssub(c.show_time, c.leave_time) {
        smuldiv(s1, smuldiv(ssub(sadd(c.warning_time, c.show_time), c.time), 1000, c.leave_time), 1000)
    } else {
        s1
    }
}

/// Whether the boss is armed and its circle touches the player.
pub open spec fn center_collides_spec(c: CenterProj, player: Player) -> bool {
    c.time >= c.warning_time && collide_cc_spec(c.track, center_size_spec(c), player.pos, player.rad)
}

/// Whether the boss's scripted duration has elapsed.
pub open spec fn center_should_kill_spec(c: CenterProj) -> bool {
    c.time > sadd(c.warning_time, c.show_time)
}

/// How one update tick changes the boss itself: clocks advance, the pulse
/// decays (unless a fired pulse event re-arms it), the due prefix of the
/// event queue fires in order, and the spinner list steps with exhausted
/// spinners discarded.
pub open spec fn center_step_rel(c: CenterProj, r: CenterProj, time: i64, ease: i64) -> bool {
    let cutoff = ssub(time, c.warning_time);
    let k = due_count(c.events@, cutoff);
    let decayed = smuldiv(c.pulse, 975, TIME_SCALE);
    let fired = c.events@.take(k as int);
    r.disp_amp == c.disp_amp && r.disp_freq == c.disp_freq && r.disp_phase == c.disp_phase
        && r.rad == c.rad && r.warning_time == c.warning_time && r.show_time == c.show_time
        && r.leave_time == c.leave_time && r.track == c.track && r.track_ahead == c.track_ahead
        && r.time == time && r.ease == ease && r.events@ == c.events@.skip(k as int) && r.pulse
        == pulse_after(decayed, fired) && r.pellet_spinners@ == spin_filter(
        c.pellet_spinners@ + spinners_of(fired, time),
        time,
    )
}

proof fn lemma_pulse_after_snoc(decayed: i64, s: Seq<(i64, CenterEvent)>, x: (i64, CenterEvent))
    ensures
        pulse_after(decayed, s.push(x)) == if is_pulse(x.1) {
            1000i64
        } else {
            pulse_after(decayed, s)
        },
{
    let sx = s.push(x);
    if is_pulse(x.1) {
        assert(sx[s.len() as int].1 == x.1);
        assert(exists|j: int| 0 <= j < sx.len() && is_pulse((#[trigger] sx[j]).1));
    } else {
        if exists|j: int| 0 <= j < sx.len() && is_pulse((#[trigger] sx[j]).1) {
            let j = choose|j: int| 0 <= j < sx.len() && is_pulse((#[trigger] sx[j]).1);
            assert(j < s.len());
            assert(s[j] == sx[j]);
            assert(exists|j2: int| 0 <= j2 < s.len() && is_pulse((#[trigger] s[j2]).1));
        }
        if exists|j: int| 0 <= j < s.len() && is_pulse((#[trigger] s[j]).1) {
            let j = choose|j: int| 0 <= j < s.len() && is_pulse((#[trigger] s[j]).1);
            assert(sx[j] == s[j]);
            assert(exists|j2: int| 0 <= j2 < sx.len() && is_pulse((#[trigger] sx[j2]).1));
        }
    }
}

proof fn lemma_prefix_trans(a: Seq<Obst>, b: Seq<Obst>, c: Seq<Obst>)
    requires
        a.is_prefix_of(b),
        b.is_prefix_of(c),
    ensures
        a.is_prefix_of(c),
{
    assert(a =~= c.subrange(0, a.len() as int));
}

fn first_due(v: &Vec<(i64, CenterEvent)>, cutoff: i64) -> (r: bool)
    ensures
        r == (v@.len() > 0 && v@[0].0 <= cutoff),
{
    v.len() > 0 && v[0].0 <= cutoff
}

impl CenterProj {
    /// The stock boss; configure it in builder style.
    pub fn new() -> (r: CenterProj)
        ensures
            r.warning_time == 1000,
            r.show_time == 32000,
            r.leave_time == 250,
            r.rad == 20000,
            r.pulse == 0,
            r.time == 0,
            r.ease == 0,
            r.events@ =~= Seq::<(i64, CenterEvent)>::empty(),
            r.pellet_spinners@ =~= Seq::<PelletSpinner>::empty(),
            center_wf(r),
    {
        CenterProj::default()
    }

    /// The same boss with `disp_amp` replaced.
    pub fn disp_amp(self, disp_amp: i64) -> (r: CenterProj)
        ensures
            r.disp_amp == disp_amp,
            r.disp_freq == self.disp_freq,
            r.disp_phase == self.disp_phase,
            r.time == self.time,
            r.ease == self.ease,
            r.rad == self.rad,
            r.pulse == self.pulse,
            r.warning_time == self.warning_time,
            r.show_time == self.show_time,
            r.leave_time == self.leave_time,
            r.events@ == self.events@,
            r.pellet_spinners@ == self.pellet_spinners@,
            r.track == self.track,
            r.track_ahead == self.track_ahead,
    {
        CenterProj { disp_amp, ..self }
    }
    /// The same boss with `disp_freq` replaced.
    pub fn disp_freq(self, disp_freq: Vec2i) -> (r: CenterProj)
        ensures
            r.disp_amp == self.disp_amp,
            r.disp_freq == disp_freq,
            r.disp_phase == self.disp_phase,
            r.time == self.time,
            r.ease == self.ease,
            r.rad == self.rad,
            r.pulse == self.pulse,
            r.warning_time == self.warning_time,
            r.show_time == self.show_time,
            r.leave_time == self.leave_time,
            r.events@ == self.events@,
            r.pellet_spinners@ == self.pellet_spinners@,
            r.track == self.track,
            r.track_ahead == self.track_ahead,
    {
        CenterProj { disp_freq, ..self }
    }
    /// The same boss with `disp_phase` replaced.
    pub fn disp_phase(self, disp_phase: Vec2i) -> (r: CenterProj)
        ensures
            r.disp_amp == self.disp_amp,
            r.disp_freq == self.disp_freq,
            r.disp_phase == disp_phase,
            r.time == self.time,
            r.ease == self.ease,
            r.rad == self.rad,
            r.pulse == self.pulse,
            r.warning_time == self.warning_time,
            r.show_time == self.show_time,
            r.leave_time == self.leave_time,
            r.events@ == self.events@,
            r.pellet_spinners@ == self.pellet_spinners@,
            r.track == self.track,
            r.track_ahead == self.track_ahead,
    {
        CenterProj { disp_phase, ..self }
    }
    /// The same boss with `leave_time` replaced.
    pub fn leave_time(self, leave_time: i64) -> (r: CenterProj)
        requires
            leave_time >= 1,
        ensures
            r.disp_amp == self.disp_amp,
            r.disp_freq == self.disp_freq,
            r.disp_phase == self.disp_phase,
            r.time == self.time,
            r.ease == self.ease,
            r.rad == self.rad,
            r.pulse == self.pulse,
            r.warning_time == self.warning_time,
            r.show_time == self.show_time,
            r.leave_time == leave_time,
            r.events@ == self.events@,
            r.pellet_spinners@ == self.pellet_spinners@,
            r.track == self.track,
            r.track_ahead == self.track_ahead,
    {
        CenterProj { leave_time, ..self }
    }
    /// The same boss with `warning_time` replaced.
    pub fn warning_time(self, warning_time: i64) -> (r: CenterProj)
        requires
            warning_time >= 1,
        ensures
            r.disp_amp == self.disp_amp,
            r.disp_freq == self.disp_freq,
            r.disp_phase == self.disp_phase,
            r.time == self.time,
            r.ease == self.ease,
            r.rad == self.rad,
            r.pulse == self.pulse,
            r.warning_time == warning_time,
            r.show_time == self.show_time,
            r.leave_time == self.leave_time,
            r.events@ == self.events@,
            r.pellet_spinners@ == self.pellet_spinners@,
            r.track == self.track,
            r.track_ahead == self.track_ahead,
    {
        CenterProj { warning_time, ..self }
    }
    /// The same boss with `show_time` replaced.
    pub fn show_time(self, show_time: i64) -> (r: CenterProj)
        requires
            show_time >= 0,
        ensures
            r.disp_amp == self.disp_amp,
            r.disp_freq == self.disp_freq,
            r.disp_phase == self.disp_phase,
            r.time == self.time,
            r.ease == self.ease,
            r.rad == self.rad,
            r.pulse == self.pulse,
            r.warning_time == self.warning_time,
            r.show_time == show_time,
            r.leave_time == self.leave_time,
            r.events@ == self.events@,
            r.pellet_spinners@ == self.pellet_spinners@,
            r.track == self.track,
            r.track_ahead == self.track_ahead,
    {
        CenterProj { show_time, ..self }
    }
    /// The same boss with both displacement frequencies set to `val`.
    pub fn disp_freq_uniform(self, val: i64) -> (r: CenterProj)
        ensures
            r.disp_amp == self.disp_amp,
            r.disp_freq == (Vec2i { x: val, y: val }),
            r.disp_phase == self.disp_phase,
            r.time == self.time,
            r.ease == self.ease,
            r.rad == self.rad,
            r.pulse == self.pulse,
            r.warning_time == self.warning_time,
            r.show_time == self.show_time,
            r.leave_time == self.leave_time,
            r.events@ == self.events@,
            r.pellet_spinners@ == self.pellet_spinners@,
            r.track == self.track,
            r.track_ahead == self.track_ahead,
    {
        CenterProj { disp_freq: Vec2i { x: val, y: val }, ..self }
    }

    /// The same boss with both displacement phases set to `val`.
    pub fn disp_phase_uniform(self, val: i64) -> (r: CenterProj)
        ensures
            r.disp_amp == self.disp_amp,
            r.disp_freq == self.disp_freq,
            r.disp_phase == (Vec2i { x: val, y: val }),
            r.time == self.time,
            r.ease == self.ease,
            r.rad == self.rad,
            r.pulse == self.pulse,
            r.warning_time == self.warning_time,
            r.show_time == self.show_time,
            r.leave_time == self.leave_time,
            r.events@ == self.events@,
            r.pellet_spinners@ == self.pellet_spinners@,
            r.track == self.track,
            r.track_ahead == self.track_ahead,
    {
        CenterProj { disp_phase: Vec2i { x: val, y: val }, ..self }
    }

    /// The same boss with `events` appended to its queue.
    pub fn evs(self, events: Vec<(i64, CenterEvent)>) -> (r: CenterProj)
        requires
            forall|i: int| 0 <= i < events@.len() ==> event_wf((#[trigger] events@[i]).1),
        ensures
            r.disp_amp == self.disp_amp,
            r.disp_freq == self.disp_freq,
            r.disp_phase == self.disp_phase,
            r.time == self.time,
            r.ease == self.ease,
            r.rad == self.rad,
            r.pulse == self.pulse,
            r.warning_time == self.warning_time,
            r.show_time == self.show_time,
            r.leave_time == self.leave_time,
            r.events@ == self.events@ + events@,
            r.pellet_spinners@ == self.pellet_spinners@,
            r.track == self.track,
            r.track_ahead == self.track_ahead,
    {
        let mut me = self;
        let mut i: usize = 0;
        while i < events.len()
            invariant
                i <= events@.len(),
                me.events@ == self.events@ + events@.subrange(0, i as int),
                me.disp_amp == self.disp_amp,
                me.disp_freq == self.disp_freq,
                me.disp_phase == self.disp_phase,
                me.time == self.time,
                me.ease == self.ease,
                me.rad == self.rad,
                me.pulse == self.pulse,
                me.warning_time == self.warning_time,
                me.show_time == self.show_time,
                me.leave_time == self.leave_time,
                me.pellet_spinners@ == self.pellet_spinners@,
                me.track == self.track,
                me.track_ahead == self.track_ahead,
            decreases events@.len() - i,
        {
            me.events.push(events[i]);
            proof {
                assert(me.events@ =~= self.events@ + events@.subrange(0, (i + 1) as int));
            }
            i = i + 1;
        }
        proof {
            assert(events@.subrange(0, events@.len() as int) =~= events@);
        }
        me
    }

    /// Record the externally computed path samples for this tick: the
    /// position at the current animation time and the one projected a beat
    /// ahead. The noise collaborator that evaluates the path is outside the
    /// core.
    pub fn set_track(&mut self, track: Vec2i, track_ahead: Vec2i)
        ensures
            final(self).disp_amp == old(self).disp_amp,
            final(self).disp_freq == old(self).disp_freq,
            final(self).disp_phase == old(self).disp_phase,
            final(self).time == old(self).time,
            final(self).ease == old(self).ease,
            final(self).rad == old(self).rad,
            final(self).pulse == old(self).pulse,
            final(self).warning_time == old(self).warning_time,
            final(self).show_time == old(self).show_time,
            final(self).leave_time == old(self).leave_time,
            final(self).events@ == old(self).events@,
            final(self).pellet_spinners@ == old(self).pellet_spinners@,
            final(self).track == track,
            final(self).track_ahead == track_ahead,
    {
        self.track = track;
        self.track_ahead = track_ahead;
    }

    /// The boss position at the current animation time, as last fed by the
    /// owner.
    pub fn trackpos(&self) -> (r: Vec2i)
        ensures
            r == self.track,
    {
        self.track
    }

    /// The same boss with its event queue stably sorted by offset.
    pub fn sort(self) -> (r: CenterProj)
        ensures
            evs_sorted(r.events@),
            r.events@.to_multiset() == self.events@.to_multiset(),
            r.events@.len() == self.events@.len(),
            r.disp_amp == self.disp_amp,
            r.disp_freq == self.disp_freq,
            r.disp_phase == self.disp_phase,
            r.time == self.time,
            r.ease == self.ease,
            r.rad == self.rad,
            r.pulse == self.pulse,
            r.warning_time == self.warning_time,
            r.show_time == self.show_time,
            r.leave_time == self.leave_time,
            r.pellet_spinners@ == self.pellet_spinners@,
            r.track == self.track,
            r.track_ahead == self.track_ahead,
    {
        proof {
            broadcast use vstd::seq_lib::group_to_multiset_ensures;

        }
        let mut out: Vec<(i64, CenterEvent)> = Vec::new();
        let mut i: usize = 0;
        while i < self.events.len()
            invariant
                i <= self.events@.len(),
                evs_sorted(out@),
                out@.len() == i,
                out@.to_multiset() == self.events@.subrange(0, i as int).to_multiset(),
            decreases self.events@.len() - i,
        {
            let e = self.events[i];
            let mut pos: usize = 0;
            while pos < out.len() && out[pos].0 <= e.0
                invariant
                    pos <= out@.len(),
                    forall|k: int| 0 <= k < pos ==> (#[trigger] out@[k]).0 <= e.0,
                    evs_sorted(out@),
                    out@.len() == i,
                    out@.to_multiset() == self.events@.subrange(0, i as int).to_multiset(),
                decreases out@.len() - pos,
            {
                pos = pos + 1;
            }
            let ghost oldv = out@;
            out.insert(pos, e);
            proof {
                broadcast use vstd::seq_lib::group_to_multiset_ensures;

                oldv.insert_ensures(pos as int, e);
                lemma_insert_to_multiset(oldv, pos as int, e);
                assert(self.events@.subrange(0, (i + 1) as int) =~= self.events@.subrange(
                    0,
                    i as int,
                ).push(e));
                assert(out@.to_multiset() =~= self.events@.subrange(
                    0,
                    (i + 1) as int,
                ).to_multiset());
                assert forall|a: int, b: int| 0 <= a < b < out@.len() implies (#[trigger] out@[a]).0
                    <= (#[trigger] out@[b]).0 by {
                    if b < pos {
                    } else if b == pos {
                        assert(out@[a] == oldv[a]);
                    } else if a < pos {
                        assert(out@[a] == oldv[a] && out@[b] == oldv[b - 1]);
                        if b - 1 >= pos {
                            assert(oldv[pos as int].0 > e.0 || pos == oldv.len());
                        }
                    } else if a == pos {
                        assert(out@[b] == oldv[b - 1] && b - 1 >= pos && b - 1 < oldv.len());
                        assert(oldv[pos as int].0 > e.0);
                        assert(oldv[pos as int].0 <= oldv[b - 1].0);
                    } else {
                        assert(out@[a] == oldv[a - 1] && out@[b] == oldv[b - 1]);
                    }
                }
            }
            i = i + 1;
        }
        proof {
            assert(self.events@.subrange(0, self.events@.len() as int) =~= self.events@);
        }
        CenterProj { events: out, ..self }
    }

    /// The boss's current drawn and collidable radius. The `time` argument
    /// rides along for signature compatibility with drawing helpers; the
    /// envelope itself reads the stored lifecycle time.
    pub fn size(&self, time: i64) -> (r: i64)
        requires
            center_wf(*self),
        ensures
            r == center_size_spec(*self),
    {
        let s1 = mul_div(self.rad, sat_add(self.pulse, 1000), 1000);
        if sat_sub(self.time, self.warning_time) > sat_sub(self.show_time, self.leave_time) {
            mul_div(
                s1,
                mul_div(
                    sat_sub(sat_add(self.warning_time, self.show_time), self.time),
                    1000,
                    self.leave_time,
                ),
                1000,
            )
        } else {
            s1
        }
    }

    /// The drawn color: alpha-faded during warning, pulse-flashed toward
    /// white afterwards.
    pub fn color(&self, color: Rgba, time: i64) -> (r: Rgba)
        requires
            center_wf(*self),
        ensures
            r == if time < self.warning_time {
                acmul_spec(color, smuldiv(self.time, 500, self.warning_time))
            } else {
                mix_spec(color, white_spec(), self.pulse)
            },
    {
        if time < self.warning_time {
            acmul(color, mul_div(self.time, 500, self.warning_time))
        } else {
            mix(color, white(), self.pulse)
        }
    }

    /// Whether the boss is armed and touches the player.
    pub fn collides(&self, player: Player) -> (r: bool)
        requires
            center_wf(*self),
        ensures
            r == center_collides_spec(*self, player),
    {
        self.time >= self.warning_time && collide_cc(
            self.track,
            self.size(self.time),
            player.pos,
            player.rad,
        )
    }

    /// Dispatch one fired event: pulses flash and shake, spawn events push
    /// their hazards, a spinner event enqueues a new spinner.
    pub fn employ(&mut self, event: CenterEvent, to_add: &mut UpdateAccumulator)
        requires
            center_wf(*old(self)),
            event_wf(event),
        ensures
            employ_state_rel(*old(self), *final(self), event),
            employ_acc_rel(*old(self), event, *old(to_add), *final(to_add)),
            center_wf(*final(self)),
            old(to_add).obstacles@.is_prefix_of(final(to_add).obstacles@),
    {
        match event {
            CenterEvent::Pulse => {
                self.pulse = 1000;
                to_add.shake(10000);
                proof {
                    lemma_spinners_of_single(event, old(self).time);
                    assert(self.pellet_spinners@ =~= old(self).pellet_spinners@ + spinners_of(
                        seq![(0i64, event)],
                        old(self).time,
                    ));
                }
            },
            CenterEvent::SPulse(st) => {
                self.pulse = 1000;
                to_add.shake(st);
                proof {
                    lemma_spinners_of_single(event, old(self).time);
                    assert(self.pellet_spinners@ =~= old(self).pellet_spinners@ + spinners_of(
                        seq![(0i64, event)],
                        old(self).time,
                    ));
                }
            },
            CenterEvent::Lasers(count, phase) => {
                let start = self.track_ahead;
                let t0 = to_add.time();
                let mut j: usize = 0;
                while j < count
                    invariant
                        j <= count,
                        count <= 1000000000,
                        start == old(self).track_ahead,
                        t0 == old(to_add).time,
                        *self == *old(self),
                        acc_plus(
                            *old(to_add),
                            *to_add,
                            lasers_spawns(start, count, phase, t0, j as nat),
                        ),
                    decreases count - j,
                {
                    let angle = sat_add(mul_div(j as i64, ANGLE_TURN, count as i64), phase);
                    let end = start.plus(dir_vel(1250000, angle));
                    let sl = SlamLaser::new(
                        start,
                        end,
                        20000,
                        1000,
                        1000,
                        50,
                        Vec2i::zero(),
                        0,
                    ).leave_time(500);
                    to_add.obst(Obstacle::SlamLaser(sl));
                    proof {
                        assert(Obst {
                            obstacle: Obstacle::SlamLaser(sl),
                            marked_for_removal: false,
                            start_time: t0,
                        } == laser_obst(start, j as int, count, phase, t0));
                        assert(to_add.obstacles@ =~= old(to_add).obstacles@ + lasers_spawns(
                            start,
                            count,
                            phase,
                            t0,
                            (j + 1) as nat,
                        ));
                    }
                    j = j + 1;
                }
                proof {
                    lemma_spinners_of_single(event, old(self).time);
                    assert(self.pellet_spinners@ =~= old(self).pellet_spinners@ + spinners_of(
                        seq![(0i64, event)],
                        old(self).time,
                    ));
                }
            },
            CenterEvent::Pellets(count, speed, rad, phase, strong) => {
                let start = self.track;
                let selfrad = self.rad;
                let t0 = to_add.time();
                let mut j: usize = 0;
                while j < count
                    invariant
                        j <= count,
                        count <= 1000000000,
                        speed >= 0,
                        start == old(self).track,
                        selfrad == old(self).rad,
                        t0 == old(to_add).time,
                        *self == *old(self),
                        acc_plus(
                            *old(to_add),
                            *to_add,
                            pellets_spawns(
                                start,
                                selfrad,
                                count,
                                speed,
                                rad,
                                phase,
                                strong,
                                t0,
                                j as nat,
                            ),
                        ),
                    decreases count - j,
                {
                    let angle = sat_add(mul_div(j as i64, ANGLE_TURN, count as i64), phase);
                    let off = radial_offset(sat_sub(selfrad, rad), angle);
                    let vel = dir_vel(speed, angle);
                    let p = Pellet::new(start.plus(off), vel, rad);
                    if strong {
                        to_add.obst(
                            Obstacle::Eased(Ease::anon(Obstacle::Pellet(p), Easing::Surge)),
                        );
                    } else {
                        to_add.obst(Obstacle::Pellet(p));
                    }
                    proof {
                        assert(to_add.obstacles@.last() == ring_pellet_obst(
                            start,
                            selfrad,
                            j as int,
                            count,
                            speed,
                            rad,
                            phase,
                            strong,
                            t0,
                        ));
                        assert(to_add.obstacles@ =~= old(to_add).obstacles@ + pellets_spawns(
                            start,
                            selfrad,
                            count,
                            speed,
                            rad,
                            phase,
                            strong,
                            t0,
                            (j + 1) as nat,
                        ));
                    }
                    j = j + 1;
                }
                proof {
                    lemma_spinners_of_single(event, old(self).time);
                    assert(self.pellet_spinners@ =~= old(self).pellet_spinners@ + spinners_of(
                        seq![(0i64, event)],
                        old(self).time,
                    ));
                }
            },
            CenterEvent::MessyPellets(count, rad, min_speed, max_speed) => {
                let pos = self.track;
                let t0 = to_add.time();
                let mut j: usize = 0;
                while j < count
                    invariant
                        j <= count,
                        count <= 1000000000,
                        pos == old(self).track,
                        t0 == old(to_add).time,
                        *self == *old(self),
                        to_add.obstacles@.len() == old(to_add).obstacles@.len() + j,
                        old(to_add).obstacles@.is_prefix_of(to_add.obstacles@),
                        to_add.shake == old(to_add).shake,
                        to_add.jerk == old(to_add).jerk,
                        to_add.time == old(to_add).time,
                        forall|i: int|
                            old(to_add).obstacles@.len() <= i < to_add.obstacles@.len()
                                ==> messy_ok(
                                pos,
                                rad,
                                min_speed,
                                max_speed,
                                t0,
                                #[trigger] to_add.obstacles@[i],
                            ),
                    decreases count - j,
                {
                    let sp: i64 = if min_speed < max_speed {
                        rand_range(min_speed, max_speed)
                    } else {
                        min_speed
                    };
                    let an: i64 = rand_range(0, ANGLE_TURN);
                    let vel = dir_vel(max64(sp, 0), an);
                    to_add.obst(Obstacle::Pellet(Pellet::new(pos, vel, rad)));
                    proof {
                        let o = to_add.obstacles@.last();
                        assert((if min_speed < max_speed {
                            min_speed <= sp < max_speed
                        } else {
                            sp == min_speed
                        }) && 0 <= an < ANGLE_TURN && o == (Obst {
                            obstacle: Obstacle::Pellet(
                                Pellet { pos, vel: vdir(clamp0(sp), an), rad, dead: false },
                            ),
                            marked_for_removal: false,
                            start_time: t0,
                        }));
                        assert(messy_ok(pos, rad, min_speed, max_speed, t0, o));
                    }
                    j = j + 1;
                }
                proof {
                    lemma_spinners_of_single(event, old(self).time);
                    assert(self.pellet_spinners@ =~= old(self).pellet_spinners@ + spinners_of(
                        seq![(0i64, event)],
                        old(self).time,
                    ));
                }
            },
            CenterEvent::PelletSpinner(count, speed, rad, phase, ppb) => {
                let sp = PelletSpinner {
                    count: 0,
                    max: count,
                    phase,
                    period: mul_div(TIME_SCALE, TIME_SCALE, ppb),
                    start_time: self.time,
                    rad,
                    speed,
                };
                self.pellet_spinners.push(sp);
                proof {
                    lemma_spinners_of_single(event, old(self).time);
                    assert(self.pellet_spinners@ =~= old(self).pellet_spinners@ + spinners_of(
                        seq![(0i64, event)],
                        old(self).time,
                    ));
                }
            },
        }
    }
    /// One obstacle tick: advance both clocks, decay the pulse, fire every
    /// due event from the front of the queue in order, then step every
    /// pellet spinner (discarding exhausted ones). The accumulator's
    /// obstacle list only grows; jerk is untouched and shake only rises.
    pub fn advance(
        self,
        to_add: &mut UpdateAccumulator,
        dtime: i64,
        time: i64,
        dease: i64,
        ease: i64,
    ) -> (r: CenterProj)
        requires
            center_wf(self),
        ensures
            center_step_rel(self, r, time, ease),
            center_wf(r),
            old(to_add).obstacles@.is_prefix_of(final(to_add).obstacles@),
            final(to_add).jerk == old(to_add).jerk,
            final(to_add).time == old(to_add).time,
            final(to_add).shake >= old(to_add).shake,
    {
        let mut c = self;
        c.time = time;
        c.ease = ease;
        c.pulse = mul_div(c.pulse, 975, TIME_SCALE);
        let ghost decayed = c.pulse;
        let cutoff = sat_sub(time, c.warning_time);
        let ghost evs0 = c.events@;
        let ghost spins0 = c.pellet_spinners@;
        let ghost mut fired: int = 0;
        while first_due(&c.events, cutoff)
            invariant
                center_wf(c),
                0 <= fired <= evs0.len(),
                c.events@ == evs0.skip(fired),
                forall|j: int| 0 <= j < fired ==> (#[trigger] evs0[j]).0 <= cutoff,
                c.pulse == pulse_after(decayed, evs0.take(fired)),
                c.pellet_spinners@ == spins0 + spinners_of(evs0.take(fired), time),
                c.time == time,
                c.ease == ease,
                c.rad == self.rad,
                c.warning_time == self.warning_time,
                c.show_time == self.show_time,
                c.leave_time == self.leave_time,
                c.disp_amp == self.disp_amp,
                c.disp_freq == self.disp_freq,
                c.disp_phase == self.disp_phase,
                c.track == self.track,
                c.track_ahead == self.track_ahead,
                cutoff == ssub(time, self.warning_time),
                evs0 == self.events@,
                spins0 == self.pellet_spinners@,
                old(to_add).obstacles@.is_prefix_of(to_add.obstacles@),
                to_add.jerk == old(to_add).jerk,
                to_add.time == old(to_add).time,
                to_add.shake >= old(to_add).shake,
            decreases c.events@.len(),
        {
            let ev = c.events[0].1;
            let ghost pre_acc = *to_add;
            let ghost pre_c = c;
            c.employ(ev, to_add);
            c.events.remove(0);
            proof {
                assert(evs0[fired] == pre_c.events@[0]);
                assert(evs0.take(fired + 1) =~= evs0.take(fired).push(evs0[fired]));
                lemma_pulse_after_snoc(decayed, evs0.take(fired), evs0[fired]);
                lemma_spinners_of_snoc(evs0.take(fired), evs0[fired], time);
                lemma_spinners_of_single(ev, time);
                assert(spinners_of(seq![evs0[fired]], time) =~= spinners_of(
                    seq![(0i64, ev)],
                    time,
                )) by {
                    assert(seq![evs0[fired]].skip(1) =~= Seq::<(i64, CenterEvent)>::empty());
                    assert(seq![(0i64, ev)].skip(1) =~= Seq::<(i64, CenterEvent)>::empty());
                    assert(seq![evs0[fired]][0].1 == ev);
                    assert(seq![(0i64, ev)][0].1 == ev);
                }
                assert(c.pellet_spinners@ =~= spins0 + spinners_of(evs0.take(fired + 1), time));
                assert(c.events@ =~= evs0.skip(fired + 1));
                assert(pre_acc.obstacles@.is_prefix_of(to_add.obstacles@));
                lemma_prefix_trans(
                    old(to_add).obstacles@,
                    pre_acc.obstacles@,
                    to_add.obstacles@,
                );
            }
            proof {
                fired = fired + 1;
            }
        }
        proof {
            lemma_due_count_exact(evs0, cutoff, fired);
        }
        let pos = c.track;
        let selfrad = c.rad;
        let ghost mid = c.pellet_spinners@;
        let ghost acc_mid = *to_add;
        let mut i: usize = 0;
        let ghost mut done_count: int = 0;
        while i < c.pellet_spinners.len()
            invariant
                center_wf(c),
                0 <= done_count <= mid.len(),
                c.pellet_spinners@ == spin_filter(mid.take(done_count), time)
                    + mid.skip(done_count),
                i as int == spin_filter(mid.take(done_count), time).len(),
                forall|j: int| 0 <= j < mid.len() ==> spinner_wf(#[trigger] mid[j]),
                pos == self.track,
                selfrad == self.rad,
                c.time == time,
                c.ease == ease,
                c.rad == self.rad,
                c.warning_time == self.warning_time,
                c.show_time == self.show_time,
                c.leave_time == self.leave_time,
                c.disp_amp == self.disp_amp,
                c.disp_freq == self.disp_freq,
                c.disp_phase == self.disp_phase,
                c.track == self.track,
                c.track_ahead == self.track_ahead,
                c.pulse == pulse_after(decayed, evs0.take(due_count(evs0, cutoff) as int)),
                c.events@ == evs0.skip(due_count(evs0, cutoff) as int),
                evs0 == self.events@,
                acc_mid.jerk == old(to_add).jerk,
                acc_mid.time == old(to_add).time,
                acc_mid.shake >= old(to_add).shake,
                old(to_add).obstacles@.is_prefix_of(acc_mid.obstacles@),
                to_add.jerk == acc_mid.jerk,
                to_add.time == acc_mid.time,
                to_add.shake == acc_mid.shake,
                acc_mid.obstacles@.is_prefix_of(to_add.obstacles@),
            decreases mid.len() - done_count,
        {
            proof {
                assert(c.pellet_spinners@[i as int] == mid.skip(done_count)[0]);
                assert(mid.skip(done_count)[0] == mid[done_count]);
            }
            let mut sp = c.pellet_spinners[i];
            let ghost pre_acc = *to_add;
            let done = sp.run(time, pos, selfrad, to_add);
            c.pellet_spinners[i] = sp;
            proof {
                assert(mid.take(done_count + 1) =~= mid.take(done_count).push(mid[done_count]));
                lemma_spin_filter_snoc(mid.take(done_count), mid[done_count], time);
                assert(seq![mid[done_count]][0] == mid[done_count]);
                assert(seq![mid[done_count]].skip(1) =~= Seq::<PelletSpinner>::empty());
                assert(spin_filter(seq![mid[done_count]].skip(1), time) =~= Seq::<
                    PelletSpinner,
                >::empty());
                lemma_prefix_trans(old(to_add).obstacles@, acc_mid.obstacles@, pre_acc.obstacles@);
                lemma_prefix_trans(acc_mid.obstacles@, pre_acc.obstacles@, to_add.obstacles@);
            }
            if done {
                c.pellet_spinners.remove(i);
                proof {
                    assert(spin_filter(seq![mid[done_count]], time) =~= Seq::<
                        PelletSpinner,
                    >::empty());
                    assert(c.pellet_spinners@ =~= spin_filter(mid.take(done_count + 1), time)
                        + mid.skip(done_count + 1));
                }
            } else {
                proof {
                    assert(spin_filter(seq![mid[done_count]], time) =~= seq![
                        spinner_step(mid[done_count], time),
                    ]);
                    assert(c.pellet_spinners@ =~= spin_filter(mid.take(done_count + 1), time)
                        + mid.skip(done_count + 1));
                }
                i = i + 1;
            }
            proof {
                done_count = done_count + 1;
            }
        }
        proof {
            assert(mid.take(done_count) =~= mid);
            assert(mid.skip(done_count) =~= Seq::<PelletSpinner>::empty());
            assert(c.pellet_spinners@ =~= spin_filter(mid, time));
            lemma_prefix_trans(old(to_add).obstacles@, acc_mid.obstacles@, to_add.obstacles@);
        }
        c
    }
}

} // verus!
