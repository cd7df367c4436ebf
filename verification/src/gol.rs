//! The cellular-automaton pattern generator.
//!
//! A Moore-neighborhood automaton over a fixed-size boolean grid with
//! independently configurable birth and survival rules. On a tick boundary
//! it computes the next generation and spawns one screen-partitioning
//! rectangle per live cell; it never collides or draws itself.
use vstd::prelude::*;

use crate::accum::{UpdateAccumulator, acc_plus};
use crate::fix::{sadd, ssub, smul, smuldiv, sat_add, sat_sub, sat_mul, mul_div, TIME_SCALE};
use crate::obstacle::{Obst, Obstacle};
use crate::periodic::step_inc;
use crate::rect::RotatableRect;
use crate::rng::rand_range;
use crate::vec2::Vec2i;

verus! {

/// The automaton and its spawn bookkeeping. `moore_begin[n]` is whether a
/// dead cell with `n` live Moore neighbors is born; `moore_stay[n]` whether
/// a live one survives. The grid is row-major, `width * height` cells.
#[derive(Debug)]
pub struct GOLGrid {
    pub width: usize,
    pub height: usize,
    pub gol: Vec<bool>,
    pub moore_begin: Vec<bool>,
    pub moore_stay: Vec<bool>,
    pub ticks: usize,
    pub max: usize,
    pub period: i64,
    pub time: i64,
    pub warning_time: i64,
    pub first_warning_time: i64,
}

/// The two automata hold the same value (grid and rule vectors compared by
/// their contents).
pub open spec fn gol_eqv(a: GOLGrid, b: GOLGrid) -> bool {
    b.width == a.width && b.height == a.height && b.gol@ == a.gol@ && b.moore_begin@
        == a.moore_begin@ && b.moore_stay@ == a.moore_stay@ && b.ticks == a.ticks && b.max == a.max
        && b.period == a.period && b.time == a.time && b.warning_time == a.warning_time
        && b.first_warning_time == a.first_warning_time
}

/// Structural well-formedness of the automaton.
pub open spec fn gol_wf(g: GOLGrid) -> bool {
    g.gol@.len() == g.width * g.height && g.moore_begin@.len() == 9 && g.moore_stay@.len() == 9
        && 1 <= g.width <= 4096 && 1 <= g.height <= 4096 && g.period >= 4 && g.warning_time >= 0
        && g.first_warning_time >= 0
}

/// Whether cell `(x, y)` of a row-major grid is alive; off-grid cells are
/// dead.
pub open spec fn cell_at(g: Seq<bool>, w: int, h: int, x: int, y: int) -> bool {
    0 <= x < w && 0 <= y < h && g[y * w + x]
}

/// One if alive, zero if dead.
pub open spec fn b2i(b: bool) -> int {
    if b {
        1
    } else {
        0
    }
}

/// The number of live Moore neighbors of `(x, y)`.
pub open spec fn nbrs(g: Seq<bool>, w: int, h: int, x: int, y: int) -> int {
    b2i(cell_at(g, w, h, x - 1, y - 1)) + b2i(cell_at(g, w, h, x, y - 1)) + b2i(
        cell_at(g, w, h, x + 1, y - 1),
    ) + b2i(cell_at(g, w, h, x - 1, y)) + b2i(cell_at(g, w, h, x + 1, y)) + b2i(
        cell_at(g, w, h, x - 1, y + 1),
    ) + b2i(cell_at(g, w, h, x, y + 1)) + b2i(cell_at(g, w, h, x + 1, y + 1))
}

/// The next state of cell `(x, y)`: the survival rule if alive, the birth
/// rule if dead, indexed by live-neighbor count.
pub open spec fn next_cell(
    g: Seq<bool>,
    begin: Seq<bool>,
    stay: Seq<bool>,
    w: int,
    h: int,
    x: int,
    y: int,
) -> bool {
    if cell_at(g, w, h, x, y) {
        stay[nbrs(g, w, h, x, y)]
    } else {
        begin[nbrs(g, w, h, x, y)]
    }
}

/// The whole next generation of the grid.
pub open spec fn grid_step(g: GOLGrid) -> Seq<bool> {
    Seq::new(
        (g.width * g.height) as nat,
        |i: int|
            next_cell(
                g.gol@,
                g.moore_begin@,
                g.moore_stay@,
                g.width as int,
                g.height as int,
                i % (g.width as int),
                i / (g.width as int),
            ),
    )
}

/// Whether this tick is a generation boundary: unconditionally on the very
/// first tick, thereafter every `period` units with the asymmetric
/// first-versus-subsequent warning time accounted for.
pub open spec fn gol_fires(g: GOLGrid, time: i64) -> bool {
    g.ticks == 0 || time > sadd(
        smul(g.period, g.ticks as i64),
        ssub(g.first_warning_time, g.warning_time),
    )
}

/// How one update tick changes the automaton: the clock always advances;
/// on a generation boundary the grid steps and the tick counter increments.
pub open spec fn gol_step_rel(g: GOLGrid, g2: GOLGrid, time: i64) -> bool {
    g2.width == g.width && g2.height == g.height && g2.moore_begin@ == g.moore_begin@
        && g2.moore_stay@ == g.moore_stay@ && g2.max == g.max && g2.period == g.period && g2.time
        == time && g2.warning_time == g.warning_time && g2.first_warning_time
        == g.first_warning_time && if gol_fires(g, time) {
        g2.gol@ == grid_step(g) && g2.ticks == step_inc(g.ticks)
    } else {
        g2.gol@ == g.gol@ && g2.ticks == g.ticks
    }
}

/// The rectangle spawned for live cell `(x, y)`, partitioning the screen
/// into the grid's dimensions.
pub open spec fn gol_cell_rect(g: GOLGrid, screen: Vec2i, first: bool, t: i64, x: int, y: int) -> Obst {
    let pw = smuldiv(screen.x, 1, g.width as i64);
    let ph = smuldiv(screen.y, 1, g.height as i64);
    Obst {
        obstacle: Obstacle::RotatableRect(
            RotatableRect {
                center: Vec2i {
                    x: sadd(smul(x as i64, pw), smuldiv(pw, 1, 2)),
                    y: sadd(smul(y as i64, ph), smuldiv(ph, 1, 2)),
                },
                size: Vec2i { x: pw, y: ph },
                rot: 0,
                warning_time: if first {
                    g.first_warning_time
                } else {
                    g.warning_time
                },
                show_time: smuldiv(g.period, 1250, TIME_SCALE),
                current_time: 0,
                grow_time: smuldiv(g.period, 1, 4),
            },
        ),
        marked_for_removal: false,
        start_time: t,
    }
}

/// The rectangles spawned for the first `k` cells of the grid `grid` (the
/// generation just computed), in spawn order (`x` outer, `y` inner): one
/// per live cell.
pub open spec fn gol_spawns(
    grid: Seq<bool>,
    g: GOLGrid,
    screen: Vec2i,
    first: bool,
    t: i64,
    k: nat,
) -> Seq<Obst>
    decreases k,
{
    if k == 0 {
        Seq::empty()
    } else {
        let x = ((k - 1) as int) / (g.height as int);
        let y = ((k - 1) as int) % (g.height as int);
        gol_spawns(grid, g, screen, first, t, (k - 1) as nat) + if cell_at(
            grid,
            g.width as int,
            g.height as int,
            x,
            y,
        ) {
            seq![gol_cell_rect(g, screen, first, t, x, y)]
        } else {
            Seq::empty()
        }
    }
}

fn falses(n: usize) -> (v: Vec<bool>)
    ensures
        v@.len() == n,
        forall|i: int| 0 <= i < n ==> v@[i] == false,
{
    let mut v: Vec<bool> = Vec::new();
    let mut i: usize = 0;
    while i < n
        invariant
            i <= n,
            v@.len() == i,
            forall|j: int| 0 <= j < i ==> v@[j] == false,
        decreases n - i,
    {
        v.push(false);
        i = i + 1;
    }
    v
}

impl Clone for GOLGrid {
    /// Deep value copy: the same grid, rules and bookkeeping.
    fn clone(&self) -> (r: GOLGrid)
        ensures
            r.width == self.width,
            r.height == self.height,
            r.gol@ == self.gol@,
            r.moore_begin@ == self.moore_begin@,
            r.moore_stay@ == self.moore_stay@,
            r.ticks == self.ticks,
            r.max == self.max,
            r.period == self.period,
            r.time == self.time,
            r.warning_time == self.warning_time,
            r.first_warning_time == self.first_warning_time,
    {
        GOLGrid {
            width: self.width,
            height: self.height,
            gol: copy_bools(&self.gol),
            moore_begin: copy_bools(&self.moore_begin),
            moore_stay: copy_bools(&self.moore_stay),
            ticks: self.ticks,
            max: self.max,
            period: self.period,
            time: self.time,
            warning_time: self.warning_time,
            first_warning_time: self.first_warning_time,
        }
    }
}

fn copy_bools(v: &Vec<bool>) -> (r: Vec<bool>)
    ensures
        r@ == v@,
{
    let mut r: Vec<bool> = Vec::new();
    let mut i: usize = 0;
    while i < v.len()
        invariant
            i <= v@.len(),
            r@ == v@.subrange(0, i as int),
        decreases v@.len() - i,
    {
        r.push(v[i]);
        proof {
            assert(r@ =~= v@.subrange(0, (i + 1) as int));
        }
        i = i + 1;
    }
    proof {
        assert(r@ =~= v@);
    }
    r
}

impl Default for GOLGrid {
    /// A 32-by-18 all-dead grid ruled by birth on 3 or 6 neighbors and
    /// survival on 2, 3 or 7, stepping once per beat for 32 generations,
    /// with a one-beat warning on the first generation only.
    fn default() -> (r: GOLGrid)
        ensures
            r.width == 32,
            r.height == 18,
            r.gol@.len() == 576,
            forall|i: int| 0 <= i < 576 ==> r.gol@[i] == false,
            r.moore_begin@ =~= seq![false, false, false, true, false, false, true, false, false],
            r.moore_stay@ =~= seq![false, false, true, true, false, false, false, true, false],
            r.ticks == 0,
            r.max == 32,
            r.period == 1000,
            r.time == 0,
            r.warning_time == 0,
            r.first_warning_time == 1000,
            gol_wf(r),
    {
        let mut begin: Vec<bool> = Vec::new();
        begin.push(false);
        begin.push(false);
        begin.push(false);
        begin.push(true);
        begin.push(false);
        begin.push(false);
        begin.push(true);
        begin.push(false);
        begin.push(false);
        let mut stay: Vec<bool> = Vec::new();
        stay.push(false);
        stay.push(false);
        stay.push(true);
        stay.push(true);
        stay.push(false);
        stay.push(false);
        stay.push(false);
        stay.push(true);
        stay.push(false);
        proof {
            assert(begin@ =~= seq![false, false, false, true, false, false, true, false, false]);
            assert(stay@ =~= seq![false, false, true, true, false, false, false, true, false]);
        }
        GOLGrid {
            width: 32,
            height: 18,
            gol: falses(576),
            moore_begin: begin,
            moore_stay: stay,
            ticks: 0,
            max: 32,
            period: 1000,
            time: 0,
            warning_time: 0,
            first_warning_time: 1000,
        }
    }
}

impl GOLGrid {
    /// The same automaton with `max` replaced.
    pub fn max(self, max: usize) -> (r: GOLGrid)
        ensures
            r.width == self.width,
            r.height == self.height,
            r.gol@ == self.gol@,
            r.moore_begin@ == self.moore_begin@,
            r.moore_stay@ == self.moore_stay@,
            r.ticks == self.ticks,
            r.max == max,
            r.period == self.period,
            r.time == self.time,
            r.warning_time == self.warning_time,
            r.first_warning_time == self.first_warning_time,
    {
        GOLGrid { max, ..self }
    }

    /// The same automaton with `period` replaced.
    pub fn period(self, period: i64) -> (r: GOLGrid)
        requires
            period >= 4,
        ensures
            r.width == self.width,
            r.height == self.height,
            r.gol@ == self.gol@,
            r.moore_begin@ == self.moore_begin@,
            r.moore_stay@ == self.moore_stay@,
            r.ticks == self.ticks,
            r.max == self.max,
            r.period == period,
            r.time == self.time,
            r.warning_time == self.warning_time,
            r.first_warning_time == self.first_warning_time,
    {
        GOLGrid { period, ..self }
    }

    /// The same automaton with `warning_time` replaced.
    pub fn warning_time(self, warning_time: i64) -> (r: GOLGrid)
        requires
            warning_time >= 0,
        ensures
            r.width == self.width,
            r.height == self.height,
            r.gol@ == self.gol@,
            r.moore_begin@ == self.moore_begin@,
            r.moore_stay@ == self.moore_stay@,
            r.ticks == self.ticks,
            r.max == self.max,
            r.period == self.period,
            r.time == self.time,
            r.warning_time == warning_time,
            r.first_warning_time == self.first_warning_time,
    {
        GOLGrid { warning_time, ..self }
    }

    /// The same automaton with `first_warning_time` replaced.
    pub fn first_warning_time(self, first_warning_time: i64) -> (r: GOLGrid)
        requires
            first_warning_time >= 0,
        ensures
            r.width == self.width,
            r.height == self.height,
            r.gol@ == self.gol@,
            r.moore_begin@ == self.moore_begin@,
            r.moore_stay@ == self.moore_stay@,
            r.ticks == self.ticks,
            r.max == self.max,
            r.period == self.period,
            r.time == self.time,
            r.warning_time == self.warning_time,
            r.first_warning_time == first_warning_time,
    {
        GOLGrid { first_warning_time, ..self }
    }

    /// The same automaton resized to `w` by `h` cells; cells shared with
    /// the old flat grid are kept, new cells start dead.
    pub fn dims(self, w: usize, h: usize) -> (r: GOLGrid)
        requires
            1 <= w <= 4096,
            1 <= h <= 4096,
        ensures
            r.width == w,
            r.height == h,
            r.gol@.len() == w * h,
            forall|i: int|
                0 <= i < w * h ==> r.gol@[i] == if i < self.gol@.len() {
                    self.gol@[i]
                } else {
                    false
                },
            r.moore_begin@ == self.moore_begin@,
            r.moore_stay@ == self.moore_stay@,
            r.ticks == self.ticks,
            r.max == self.max,
            r.period == self.period,
            r.time == self.time,
            r.warning_time == self.warning_time,
            r.first_warning_time == self.first_warning_time,
    {
        proof {
            assert((w as int) * (h as int) <= 4096 * 4096) by (nonlinear_arith)
                requires
                    1 <= w as int <= 4096,
                    1 <= h as int <= 4096;
        }
        let n: usize = w * h;
        let mut grid: Vec<bool> = Vec::new();
        let mut i: usize = 0;
        while i < n
            invariant
                i <= n,
                grid@.len() == i,
                forall|j: int|
                    0 <= j < i ==> grid@[j] == if j < self.gol@.len() {
                        self.gol@[j]
                    } else {
                        false
                    },
            decreases n - i,
        {
            if i < self.gol.len() {
                let b = self.gol[i];
                grid.push(b);
            } else {
                grid.push(false);
            }
            i = i + 1;
        }
        GOLGrid { width: w, height: h, gol: grid, ..self }
    }

    /// Whether cell `(x, y)` is alive; off-grid coordinates read as dead.
    pub fn get(&self, x: i64, y: i64) -> (r: bool)
        requires
            gol_wf(*self),
        ensures
            r == cell_at(self.gol@, self.width as int, self.height as int, x as int, y as int),
    {
        if x < 0 || y < 0 || x >= self.width as i64 || y >= self.height as i64 {
            false
        } else {
            proof {
                assert((y as int) * (self.width as int) + (x as int) < (self.width as int) * (
                self.height as int) && (y as int) * (self.width as int) + (x as int) <= 4096
                    * 4096) by (nonlinear_arith)
                    requires
                        0 <= (x as int) < (self.width as int),
                        0 <= (y as int) < (self.height as int),
                        self.width as int <= 4096,
                        self.height as int <= 4096;
            }
            self.gol[(y as usize) * self.width + (x as usize)]
        }
    }

    /// The number of live Moore neighbors of `(x, y)`.
    pub fn neighbors(&self, x: usize, y: usize) -> (r: usize)
        requires
            gol_wf(*self),
            x < self.width,
            y < self.height,
        ensures
            r as int == nbrs(self.gol@, self.width as int, self.height as int, x as int, y as int),
            r <= 8,
    {
        let xi = x as i64;
        let yi = y as i64;
        let mut count: usize = 0;
        if self.get(xi - 1, yi - 1) {
            count = count + 1;
        }
        if self.get(xi, yi - 1) {
            count = count + 1;
        }
        if self.get(xi + 1, yi - 1) {
            count = count + 1;
        }
        if self.get(xi - 1, yi) {
            count = count + 1;
        }
        if self.get(xi + 1, yi) {
            count = count + 1;
        }
        if self.get(xi - 1, yi + 1) {
            count = count + 1;
        }
        if self.get(xi, yi + 1) {
            count = count + 1;
        }
        if self.get(xi + 1, yi + 1) {
            count = count + 1;
        }
        count
    }

    /// The next state of cell `(x, y)` under the configured rules.
    pub fn get_next(&self, x: usize, y: usize) -> (r: bool)
        requires
            gol_wf(*self),
            x < self.width,
            y < self.height,
        ensures
            r == next_cell(
                self.gol@,
                self.moore_begin@,
                self.moore_stay@,
                self.width as int,
                self.height as int,
                x as int,
                y as int,
            ),
    {
        let n = self.neighbors(x, y);
        if self.get(x as i64, y as i64) {
            self.moore_stay[n]
        } else {
            self.moore_begin[n]
        }
    }

    /// Advance the grid one generation, incrementing the tick counter, and
    /// return the previous generation.
    pub fn tick(&mut self) -> (r: Vec<bool>)
        requires
            gol_wf(*old(self)),
        ensures
            r@ == old(self).gol@,
            final(self).gol@ == grid_step(*old(self)),
            final(self).ticks == step_inc(old(self).ticks),
            final(self).width == old(self).width,
            final(self).height == old(self).height,
            final(self).moore_begin@ == old(self).moore_begin@,
            final(self).moore_stay@ == old(self).moore_stay@,
            final(self).max == old(self).max,
            final(self).period == old(self).period,
            final(self).time == old(self).time,
            final(self).warning_time == old(self).warning_time,
            final(self).first_warning_time == old(self).first_warning_time,
            gol_wf(*final(self)),
    {
        let w = self.width;
        let h = self.height;
        let mut next: Vec<bool> = Vec::new();
        let mut y: usize = 0;
        while y < h
            invariant
                gol_wf(*self),
                w == self.width,
                h == self.height,
                y <= h,
                next@.len() == y * w,
                forall|i: int|
                    0 <= i < y * w ==> next@[i] == next_cell(
                        self.gol@,
                        self.moore_begin@,
                        self.moore_stay@,
                        w as int,
                        h as int,
                        i % (w as int),
                        i / (w as int),
                    ),
            decreases h - y,
        {
            let mut x: usize = 0;
            while x < w
                invariant
                    gol_wf(*self),
                    w == self.width,
                    h == self.height,
                    y < h,
                    x <= w,
                    next@.len() == y * w + x,
                    forall|i: int|
                        0 <= i < y * w + x ==> next@[i] == next_cell(
                            self.gol@,
                            self.moore_begin@,
                            self.moore_stay@,
                            w as int,
                            h as int,
                            i % (w as int),
                            i / (w as int),
                        ),
                decreases w - x,
            {
                let b = self.get_next(x, y);
                next.push(b);
                proof {
                    let i = (y * w + x) as int;
                    assert(i % (w as int) == x as int && i / (w as int) == y as int)
                        by (nonlinear_arith)
                        requires
                            i == (y as int) * (w as int) + (x as int),
                            0 <= (x as int) < (w as int),
                            0 <= y as int;
                }
                x = x + 1;
            }
            proof {
                assert((y + 1) * w == y * w + w) by (nonlinear_arith);
            }
            y = y + 1;
        }
        proof {
            assert((h as int) * (w as int) == (w as int) * (h as int)) by (nonlinear_arith);
            assert(next@ =~= grid_step(*self));
        }
        core::mem::swap(&mut self.gol, &mut next);
        self.ticks = if self.ticks < usize::MAX {
            self.ticks + 1
        } else {
            self.ticks
        };
        next
    }

    /// Mark `count` uniformly random cells alive (a cell may be hit more
    /// than once). Live cells stay live.
    pub fn populate(self, count: usize) -> (r: GOLGrid)
        requires
            gol_wf(self),
        ensures
            r.gol@.len() == self.gol@.len(),
            forall|i: int| 0 <= i < self.gol@.len() && self.gol@[i] ==> r.gol@[i],
            r.width == self.width,
            r.height == self.height,
            r.moore_begin@ == self.moore_begin@,
            r.moore_stay@ == self.moore_stay@,
            r.ticks == self.ticks,
            r.max == self.max,
            r.period == self.period,
            r.time == self.time,
            r.warning_time == self.warning_time,
            r.first_warning_time == self.first_warning_time,
            gol_wf(r),
    {
        let mut g = self;
        let mut k: usize = 0;
        let len = g.gol.len();
        proof {
            assert(1 <= (self.width as int) * (self.height as int) <= 4096 * 4096)
                by (nonlinear_arith)
                requires
                    1 <= self.width as int <= 4096,
                    1 <= self.height as int <= 4096;
        }
        while k < count
            invariant
                gol_wf(g),
                len == g.gol@.len(),
                len == self.gol@.len(),
                1 <= len <= 16777216,
                forall|i: int| 0 <= i < len && self.gol@[i] ==> g.gol@[i],
                g.width == self.width,
                g.height == self.height,
                g.moore_begin@ == self.moore_begin@,
                g.moore_stay@ == self.moore_stay@,
                g.ticks == self.ticks,
                g.max == self.max,
                g.period == self.period,
                g.time == self.time,
                g.warning_time == self.warning_time,
                g.first_warning_time == self.first_warning_time,
            decreases count - k,
        {
            let idx = rand_range(0, len as i64);
            g.gol[idx as usize] = true;
            k = k + 1;
        }
        g
    }

    /// One obstacle tick: advance the clock; on a generation boundary, step
    /// the grid and spawn one rectangle per live cell of the new
    /// generation, with the shorter first-tick warning on the very first
    /// boundary.
    pub fn advance(self, to_add: &mut UpdateAccumulator, time: i64, screen: Vec2i) -> (r: GOLGrid)
        requires
            gol_wf(self),
        ensures
            gol_step_rel(self, r, time),
            gol_wf(r),
            if gol_fires(self, time) {
                acc_plus(
                    *old(to_add),
                    *final(to_add),
                    gol_spawns(
                        grid_step(self),
                        self,
                        screen,
                        self.ticks == 0,
                        old(to_add).time,
                        (self.width * self.height) as nat,
                    ),
                )
            } else {
                crate::accum::acc_same(*old(to_add), *final(to_add))
            },
    {
        let mut g = self;
        let first = g.ticks == 0;
        let threshold = sat_add(
            sat_mul(g.period, #[verifier::truncate] (g.ticks as i64)),
            sat_sub(g.first_warning_time, g.warning_time),
        );
        if first || time > threshold {
            let _prev = g.tick();
            let w = g.width;
            let h = g.height;
            let t0 = to_add.time();
            let ghost spawn_grid = g.gol@;
            proof {
                assert(spawn_grid == grid_step(self));
            }
            let mut x: usize = 0;
            while x < w
                invariant
                    gol_wf(g),
                    w == g.width,
                    h == g.height,
                    x <= w,
                    w == self.width,
                    h == self.height,
                    spawn_grid == g.gol@,
                    t0 == old(to_add).time,
                    g.first_warning_time == self.first_warning_time,
                    g.warning_time == self.warning_time,
                    g.period == self.period,
                    acc_plus(
                        *old(to_add),
                        *to_add,
                        gol_spawns(spawn_grid, self, screen, first, t0, (x * h) as nat),
                    ),
                decreases w - x,
            {
                let mut y: usize = 0;
                while y < h
                    invariant
                        gol_wf(g),
                        w == g.width,
                        h == g.height,
                        x < w,
                        y <= h,
                        w == self.width,
                        h == self.height,
                        spawn_grid == g.gol@,
                        t0 == old(to_add).time,
                        g.first_warning_time == self.first_warning_time,
                        g.warning_time == self.warning_time,
                        g.period == self.period,
                        acc_plus(
                            *old(to_add),
                            *to_add,
                            gol_spawns(spawn_grid, self, screen, first, t0, (x * h + y) as nat),
                        ),
                    decreases h - y,
                {
                    proof {
                        let k = (x * h + y) as int;
                        assert(k / (h as int) == x as int && k % (h as int) == y as int)
                            by (nonlinear_arith)
                            requires
                                k == (x as int) * (h as int) + (y as int),
                                0 <= (y as int) < (h as int),
                                0 <= x as int;
                    }
                    if g.get(x as i64, y as i64) {
                        let pw = mul_div(screen.x, 1, w as i64);
                        let ph = mul_div(screen.y, 1, h as i64);
                        let warn = if first {
                            g.first_warning_time
                        } else {
                            g.warning_time
                        };
                        let rect = RotatableRect {
                            center: Vec2i {
                                x: sat_add(sat_mul(x as i64, pw), mul_div(pw, 1, 2)),
                                y: sat_add(sat_mul(y as i64, ph), mul_div(ph, 1, 2)),
                            },
                            size: Vec2i { x: pw, y: ph },
                            rot: 0,
                            warning_time: warn,
                            show_time: mul_div(g.period, 1250, TIME_SCALE),
                            current_time: 0,
                            grow_time: mul_div(g.period, 1, 4),
                        };
                        to_add.obstacle(
                            Obst {
                                obstacle: Obstacle::RotatableRect(rect),
                                marked_for_removal: false,
                                start_time: t0,
                            },
                        );
                        proof {
                            assert(old(to_add).obstacles@ + gol_spawns(
                                spawn_grid,
                                self,
                                screen,
                                first,
                                t0,
                                (x * h + y + 1) as nat,
                            ) =~= to_add.obstacles@);
                        }
                    } else {
                        proof {
                            assert(old(to_add).obstacles@ + gol_spawns(
                                spawn_grid,
                                self,
                                screen,
                                first,
                                t0,
                                (x * h + y + 1) as nat,
                            ) =~= to_add.obstacles@);
                        }
                    }
                    y = y + 1;
                }
                proof {
                    assert((x + 1) * h == x * h + h) by (nonlinear_arith);
                }
                x = x + 1;
            }
        }
        g.time = time;
        g
    }
}

/// The generation step is deterministic: grids holding the same cells under
/// the same rules step to the same next generation — there is no hidden
/// randomness in the step.
pub proof fn lemma_gol_step_deterministic(a: GOLGrid, b: GOLGrid)
    requires
        a.gol@ == b.gol@,
        a.moore_begin@ == b.moore_begin@,
        a.moore_stay@ == b.moore_stay@,
        a.width == b.width,
        a.height == b.height,
    ensures
        grid_step(a) == grid_step(b),
{
    assert(grid_step(a) =~= grid_step(b));
}

/// Under the stock rules, a cell with exactly three live Moore neighbors is
/// alive in the next generation whether or not it was alive, and a live
/// cell with two or three live neighbors survives.
pub proof fn lemma_default_rules_conway_core(g: GOLGrid, x: int, y: int)
    requires
        gol_wf(g),
        g.moore_begin@ == seq![false, false, false, true, false, false, true, false, false],
        g.moore_stay@ == seq![false, false, true, true, false, false, false, true, false],
        0 <= x < g.width,
        0 <= y < g.height,
    ensures
        nbrs(g.gol@, g.width as int, g.height as int, x, y) == 3 ==> next_cell(
            g.gol@,
            g.moore_begin@,
            g.moore_stay@,
            g.width as int,
            g.height as int,
            x,
            y,
        ),
        cell_at(g.gol@, g.width as int, g.height as int, x, y) && (nbrs(
            g.gol@,
            g.width as int,
            g.height as int,
            x,
            y,
        ) == 2 || nbrs(g.gol@, g.width as int, g.height as int, x, y) == 3) ==> next_cell(
            g.gol@,
            g.moore_begin@,
            g.moore_stay@,
            g.width as int,
            g.height as int,
            x,
            y,
        ),
{
    assert(g.moore_begin@[3] == true);
    assert(g.moore_stay@[2] == true);
    assert(g.moore_stay@[3] == true);
}

} // verus!
