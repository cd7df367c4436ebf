//! The bomb: flies toward a target and detonates into a pellet ring.
use vstd::prelude::*;

use crate::accum::{UpdateAccumulator, acc_plus};
use crate::angle::{vdir, ANGLE_TURN};
use crate::args::ModifyArgs;
use crate::collide::collide_cc_spec;
use crate::fix::{sadd, smuldiv, sat_add, mul_div, tdiv, TIME_SCALE};
use crate::obstacle::Obst;
use crate::player::Player;
use crate::spawner::{Accumulatee, spawner_wf, spawn_result};
use crate::vec2::{Vec2i, vplus, vminus, vscaled};

verus! {

/// A hazard that eases from `start` toward `target` under an
/// exponential-decay law, grows its collision radius linearly over its
/// lifetime, and detonates on death into an evenly spaced radial ring of
/// pellets through its owned spawner.
#[derive(Clone, Copy, PartialEq, Eq, Structural, Debug)]
pub struct Bomb {
    pub start: Vec2i,
    pub target: Vec2i,
    pub time: i64,
    pub life: i64,
    pub pellets: usize,
    pub pellet_vel: i64,
    pub pellet_rad: i64,
    pub snappiness: i64,
    pub rad: i64,
    pub spawner: Accumulatee,
}

/// Configured values the bomb's arithmetic relies on.
pub open spec fn bomb_wf(b: Bomb) -> bool {
    b.life >= 1 && b.time >= 0 && b.snappiness >= 0 && b.pellets <= 1000000000 && b.pellet_vel
        >= 0 && spawner_wf(b.spawner)
}

/// The bomb's position: `target + (start - target) / (time * snappiness + 1)`,
/// plus a caller-supplied offset.
pub open spec fn bomb_pos_spec(b: Bomb, offset: Vec2i) -> Vec2i {
    let den = sadd(smuldiv(b.time, b.snappiness, TIME_SCALE), TIME_SCALE);
    vplus(vplus(b.target, vscaled(vminus(b.start, b.target), TIME_SCALE, den)), offset)
}

/// The current collision radius: the configured rate times elapsed lifetime.
pub open spec fn bomb_rad_spec(b: Bomb) -> i64 {
    smuldiv(b.time, b.rad, TIME_SCALE)
}

/// The bomb state after one tick at lifecycle time `time`.
pub open spec fn bomb_step_spec(b: Bomb, time: i64) -> Bomb {
    Bomb { time, ..b }
}

/// Whether the bomb touches the player.
pub open spec fn bomb_collides_spec(b: Bomb, player: Player) -> bool {
    collide_cc_spec(bomb_pos_spec(b, Vec2i { x: 0, y: 0 }), bomb_rad_spec(b), player.pos, player.rad)
}

/// Whether the bomb's lifetime has elapsed.
pub open spec fn bomb_should_kill_spec(b: Bomb) -> bool {
    b.time >= b.life
}

/// The spawn arguments of pellet `i` of the detonation ring: the bomb's
/// current position, and a velocity of magnitude `pellet_vel` at angle
/// `i * ANGLE_TURN / pellets`.
pub open spec fn bomb_ring_args(b: Bomb, t: i64, i: int) -> ModifyArgs {
    ModifyArgs {
        time: t,
        pos: bomb_pos_spec(b, Vec2i { x: 0, y: 0 }),
        vel: vdir(b.pellet_vel, smuldiv(i as i64, ANGLE_TURN, b.pellets as i64)),
        rad: b.pellet_rad,
        step: 0,
    }
}

/// The obstacles spawned by the first `n` ring invocations, in order.
pub open spec fn bomb_ring(b: Bomb, t: i64, n: nat) -> Seq<Obst>
    decreases n,
{
    if n == 0 {
        Seq::empty()
    } else {
        bomb_ring(b, t, (n - 1) as nat) + spawn_result(b.spawner, bomb_ring_args(b, t, n - 1))
    }
}

/// The detonation ring has exactly one obstacle per configured pellet.
pub proof fn lemma_bomb_ring_len(b: Bomb, t: i64, n: nat)
    ensures
        bomb_ring(b, t, n).len() == n,
    decreases n,
{
    if n > 0 {
        lemma_bomb_ring_len(b, t, (n - 1) as nat);
    }
}

/// Entry `i` of the detonation ring is exactly the spawner's output for the
/// ring arguments of `i`.
pub proof fn lemma_bomb_ring_index(b: Bomb, t: i64, n: nat, i: int)
    requires
        0 <= i < n,
    ensures
        bomb_ring(b, t, n).len() == n,
        bomb_ring(b, t, n)[i] == spawn_result(b.spawner, bomb_ring_args(b, t, i))[0],
    decreases n,
{
    lemma_bomb_ring_len(b, t, n);
    if i < n - 1 {
        lemma_bomb_ring_index(b, t, (n - 1) as nat, i);
    } else {
        lemma_bomb_ring_len(b, t, (n - 1) as nat);
    }
}

/// When the pellet count divides a full turn, consecutive ring pellets are
/// launched at angles exactly `ANGLE_TURN / pellets` apart.
pub proof fn lemma_bomb_ring_even_spacing(b: Bomb, i: int)
    requires
        bomb_wf(b),
        1 <= b.pellets,
        (ANGLE_TURN as int) % (b.pellets as int) == 0,
        0 <= i < b.pellets as int - 1,
    ensures
        smuldiv((i + 1) as i64, ANGLE_TURN, b.pellets as i64) as int - smuldiv(
            i as i64,
            ANGLE_TURN,
            b.pellets as i64,
        ) as int == (ANGLE_TURN as int) / (b.pellets as int),
{
    let n = b.pellets as int;
    let step = (ANGLE_TURN as int) / n;
    assert(step * n == ANGLE_TURN as int && 0 <= step <= ANGLE_TURN as int) by (nonlinear_arith)
        requires
            1 <= n <= 1000000000,
            (ANGLE_TURN as int) % n == 0,
            ANGLE_TURN as int == 360000,
            step == (ANGLE_TURN as int) / n;
    assert(i * (ANGLE_TURN as int) / n == i * step && (i + 1) * (ANGLE_TURN as int) / n == (i + 1)
        * step) by (nonlinear_arith)
        requires
            1 <= n,
            0 <= i,
            step * n == ANGLE_TURN as int;
    assert((i + 1) * step - i * step == step) by (nonlinear_arith);
    assert(0 <= i * step <= i * (ANGLE_TURN as int)) by (nonlinear_arith)
        requires
            0 <= i,
            0 <= step <= ANGLE_TURN as int;
    assert(i * (ANGLE_TURN as int) <= 1000000000 * 360000) by (nonlinear_arith)
        requires
            0 <= i <= 1000000000,
            ANGLE_TURN as int == 360000;
    assert((i + 1) * step <= 360000) by (nonlinear_arith)
        requires
            step * n == 360000,
            0 <= step,
            i + 1 <= n;
}

impl Bomb {
    /// A bomb flying from `start` toward `target` over `lifetime`, set to
    /// detonate into `pellets` pellets of speed `pellet_vel` and radius
    /// `pellet_rad` through `spawner`.
    pub fn new(
        start: Vec2i,
        target: Vec2i,
        lifetime: i64,
        pellets: usize,
        pellet_vel: i64,
        pellet_rad: i64,
        spawner: Accumulatee,
    ) -> (r: Bomb)
        requires
            lifetime >= 1,
            pellets <= 1000000000,
            pellet_vel >= 0,
            spawner_wf(spawner),
        ensures
            r == (Bomb {
                start,
                target,
                time: 0,
                life: lifetime,
                pellets,
                pellet_vel,
                pellet_rad,
                snappiness: smuldiv(20000000, 1, lifetime),
                rad: smuldiv(30000000, 1, lifetime),
                spawner,
            }),
            bomb_wf(r),
    {
        let snappiness = mul_div(20000000, 1, lifetime);
        let rad = mul_div(30000000, 1, lifetime);
        proof {
            assert(tdiv(20000000, lifetime as int) >= 0 && tdiv(30000000, lifetime as int) >= 0);
        }
        Bomb {
            start,
            target,
            time: 0,
            life: lifetime,
            pellets,
            pellet_vel,
            pellet_rad,
            snappiness,
            rad,
            spawner,
        }
    }

    /// The spawner a plain bomb uses: one pellet per invocation.
    pub fn pellet_spawner() -> (r: Accumulatee)
        ensures
            r == Accumulatee::Pellet,
    {
        Accumulatee::Pellet
    }

    /// The bomb's position plus `offset`.
    pub fn pos(&self, offset: Vec2i) -> (r: Vec2i)
        requires
            bomb_wf(*self),
        ensures
            r == bomb_pos_spec(*self, offset),
    {
        let den = sat_add(mul_div(self.time, self.snappiness, TIME_SCALE), TIME_SCALE);
        self.target.plus(self.start.minus(self.target).scaled(TIME_SCALE, den)).plus(offset)
    }

    /// Detonate: push the full pellet ring into `to_add`, pellet `i` aimed
    /// at angle `i * ANGLE_TURN / pellets`.
    pub fn detonate(self, to_add: &mut UpdateAccumulator)
        requires
            bomb_wf(self),
        ensures
            acc_plus(*old(to_add), *final(to_add), bomb_ring(self, old(to_add).time, self.pellets as nat)),
    {
        let t = to_add.time();
        let pos = self.pos(Vec2i::zero());
        let mut i: usize = 0;
        while i < self.pellets
            invariant
                bomb_wf(self),
                0 <= i <= self.pellets,
                t == old(to_add).time,
                pos == bomb_pos_spec(self, Vec2i { x: 0, y: 0 }),
                acc_plus(*old(to_add), *to_add, bomb_ring(self, t, i as nat)),
            decreases self.pellets - i,
        {
            let angle = mul_div(i as i64, ANGLE_TURN, self.pellets as i64);
            let vel = crate::angle::dir_vel(self.pellet_vel, angle);
            let args = ModifyArgs::new(t).pos(pos).vel(vel).rad(self.pellet_rad);
            self.spawner.run(to_add, args);
            proof {
                assert(args == bomb_ring_args(self, t, i as int));
                assert(bomb_ring(self, t, (i + 1) as nat) == bomb_ring(self, t, i as nat)
                    + spawn_result(self.spawner, bomb_ring_args(self, t, i as int)));
                assert(old(to_add).obstacles@ + bomb_ring(self, t, (i + 1) as nat)
                    =~= to_add.obstacles@);
            }
            i = i + 1;
        }
    }
}

} // verus!
