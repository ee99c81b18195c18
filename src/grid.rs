//! The mathematical model of the grid and of one tick of the simulation.
//!
//! Cells are stored row-major: the cell at column `x` and row `y` has index
//! `y * width + x`, and `y` grows downwards. A tick visits every index once,
//! in increasing order (rows from the top, each row from the left).
use crate::particle::{Direction, Particle, ParticleType};
use crate::rules::{spec_first_match, spec_sand_direction, spec_water_direction};
use vstd::arithmetic::div_mod::{lemma_fundamental_div_mod, lemma_fundamental_div_mod_converse};
use vstd::prelude::*;

verus! {

/// The state of the simulation: materials, per-cell stamps and the clock.
pub struct Board {
    pub width: nat,
    pub height: nat,
    pub cells: Seq<Particle>,
    pub stamps: Seq<u8>,
    pub clock: u8,
}

/// Index `i` lies off the border of a `w` by `h` grid.
pub open spec fn interior(w: nat, h: nat, i: int) -> bool {
    &&& 0 < i % (w as int) < w - 1
    &&& 0 < i / (w as int) < h - 1
}

/// The cell at column `x`, row `y` lies on the border ring.
pub open spec fn is_border(w: nat, h: nat, x: int, y: int) -> bool {
    x == 0 || y == 0 || x == w - 1 || y == h - 1
}

/// A fresh grid: a ring of walls around empty cells, every stamp and the
/// clock at zero.
pub open spec fn initial(w: nat, h: nat) -> Board {
    Board {
        width: w,
        height: h,
        cells: Seq::new(
            w * h,
            |i: int|
                Particle {
                    p_type: if interior(w, h, i) {
                        ParticleType::Empty
                    } else {
                        ParticleType::Wall
                    },
                },
        ),
        stamps: Seq::new(w * h, |i: int| 0u8),
        clock: 0,
    }
}

impl Board {
    pub open spec fn size(self) -> int {
        (self.width * self.height) as int
    }

    pub open spec fn index(self, x: int, y: int) -> int {
        y * (self.width as int) + x
    }

    /// The material at column `x`, row `y`.
    pub open spec fn at(self, x: int, y: int) -> ParticleType {
        self.cells[self.index(x, y)].p_type
    }

    /// The material at index `i`.
    pub open spec fn kind(self, i: int) -> ParticleType {
        self.cells[i].p_type
    }

    /// Both dimensions admit a border ring, the storage matches them, and
    /// every cell off the interior is a wall.
    pub open spec fn wf(self) -> bool {
        &&& self.width >= 2
        &&& self.height >= 2
        &&& self.cells.len() == self.size()
        &&& self.stamps.len() == self.size()
        &&& forall|i: int|
            0 <= i < self.size() && !interior(self.width, self.height, i)
                ==> (#[trigger] self.cells[i]).p_type == ParticleType::Wall
    }

    /// The index of the neighbour of `i` in direction `d`.
    pub open spec fn neighbor(self, i: int, d: Direction) -> int {
        let w = self.width as int;
        match d {
            Direction::Left => i - 1,
            Direction::Right => i + 1,
            Direction::Down => i + w,
            Direction::Up => i - w,
            Direction::DownLeft => i + w - 1,
            Direction::DownRight => i + w + 1,
            Direction::UpLeft => i - w - 1,
            Direction::UpRight => i - w + 1,
            Direction::Stay => i,
        }
    }

    /// The material of the neighbour of `i` in direction `d`.
    pub open spec fn look(self, i: int, d: Direction) -> ParticleType {
        self.kind(self.neighbor(i, d))
    }

    /// The stamp that a write in the current tick leaves.
    pub open spec fn next_stamp(self) -> u8 {
        self.clock.wrapping_add(1)
    }

    /// Cell `i` was already written in the current tick and is not processed.
    pub open spec fn skipped(self, i: int) -> bool {
        self.stamps[i].wrapping_sub(self.clock) == 1
    }

    /// Writes material `t` at index `i` and marks it as written in this tick.
    pub open spec fn put(self, i: int, t: ParticleType) -> Board {
        Board {
            cells: self.cells.update(i, Particle { p_type: t }),
            stamps: self.stamps.update(i, self.next_stamp()),
            ..self
        }
    }

    /// The neighbour of `i` that the first-match scan picks for `target`.
    pub open spec fn scan(self, i: int, target: ParticleType) -> Direction {
        spec_first_match(
            self.look(i, Direction::DownLeft),
            self.look(i, Direction::Down),
            self.look(i, Direction::DownRight),
            self.look(i, Direction::Left),
            self.look(i, Direction::Right),
            self.look(i, Direction::Up),
            self.look(i, Direction::UpLeft),
            self.look(i, Direction::UpRight),
            target,
        )
    }

    /// The move a grain of sand at `i` makes.
    pub open spec fn sand_move(self, i: int, right: bool) -> Direction {
        spec_sand_direction(
            self.look(i, Direction::DownLeft),
            self.look(i, Direction::Down),
            self.look(i, Direction::DownRight),
            right,
        )
    }

    /// The move a drop of water at `i` makes.
    pub open spec fn water_move(self, i: int, right: bool) -> Direction {
        spec_water_direction(
            self.look(i, Direction::DownLeft),
            self.look(i, Direction::Down),
            self.look(i, Direction::DownRight),
            self.look(i, Direction::Left),
            self.look(i, Direction::Right),
            right,
        )
    }

    /// A wall only refreshes its stamp.
    pub open spec fn wall_step(self, i: int) -> Board {
        self.put(i, ParticleType::Wall)
    }

    /// Sand exchanges places with the cell it moves to; both are stamped.
    pub open spec fn sand_step(self, i: int, right: bool) -> Board {
        let j = self.neighbor(i, self.sand_move(i, right));
        self.put(i, self.kind(j)).put(j, self.kind(i))
    }

    /// Water moves into the chosen empty cell and vacates its own; both are
    /// stamped (a drop that stays is only stamped).
    pub open spec fn water_step(self, i: int, right: bool) -> Board {
        let j = self.neighbor(i, self.water_move(i, right));
        self.put(i, ParticleType::Empty).put(j, ParticleType::Water)
    }

    /// A plant turns the first neighbouring water into plant.
    pub open spec fn plant_step(self, i: int) -> Board {
        let d = self.scan(i, ParticleType::Water);
        if d == Direction::Stay {
            self
        } else {
            self.put(i, ParticleType::Plant).put(self.neighbor(i, d), ParticleType::Plant)
        }
    }

    /// Fire turns the first neighbouring plant into fire, and burns out once
    /// its stamp lies more than ten ticks away from the clock.
    pub open spec fn fire_step(self, i: int) -> Board {
        let d = self.scan(i, ParticleType::Plant);
        let spread = if d == Direction::Stay {
            self
        } else {
            self.put(self.neighbor(i, d), ParticleType::Fire)
        };
        if spread.stamps[i].wrapping_sub(spread.clock) > 10 {
            spread.put(i, ParticleType::Empty)
        } else {
            spread
        }
    }

    /// Visiting cell `i` consumes one tie-break bit.
    pub open spec fn draws(self, i: int) -> bool {
        !self.skipped(i) && (self.kind(i) == ParticleType::Sand || self.kind(i)
            == ParticleType::Water)
    }

    /// The effect of visiting cell `i`, with tie-break bit `right`.
    pub open spec fn process(self, i: int, right: bool) -> Board {
        if self.skipped(i) {
            self
        } else {
            match self.kind(i) {
                ParticleType::Empty => self,
                ParticleType::Wall => self.wall_step(i),
                ParticleType::Sand => self.sand_step(i, right),
                ParticleType::Water => self.water_step(i, right),
                ParticleType::Plant => self.plant_step(i),
                ParticleType::Fire => self.fire_step(i),
            }
        }
    }

    /// The board after visiting the first `k` cells, reading tie-break bits
    /// from `tape` at `pos` on; paired with the position after the last read.
    pub open spec fn sweep(self, k: nat, tape: Seq<bool>, pos: nat) -> (Board, nat)
        decreases k,
    {
        if k == 0 {
            (self, pos)
        } else {
            let (b, p) = self.sweep((k - 1) as nat, tape, pos);
            if b.draws(k - 1) {
                (b.process(k - 1, tape[p as int]), p + 1)
            } else {
                (b.process(k - 1, false), p)
            }
        }
    }

    /// One tick: every cell visited once, then the clock advanced.
    pub open spec fn tick(self, tape: Seq<bool>, pos: nat) -> (Board, nat) {
        let (b, p) = self.sweep(self.size() as nat, tape, pos);
        (Board { clock: b.clock.wrapping_add(1), ..b }, p)
    }

    /// Material `t`, given by its code, written at column `x`, row `y`; the
    /// stamp stays as it was.
    pub open spec fn spawned(self, x: int, y: int, code: u8) -> Board {
        Board {
            cells: self.cells.update(
                self.index(x, y),
                Particle { p_type: ParticleType::spec_from_code(code) },
            ),
            ..self
        }
    }
}

/// An interior index has all eight neighbours inside the grid.
pub proof fn lemma_interior_bounds(w: nat, h: nat, i: int)
    requires
        w >= 1,
        0 <= i < w * h,
        interior(w, h, i),
    ensures
        w + 1 <= i,
        i + w + 1 < w * h,
{
    let wi = w as int;
    let q = i / wi;
    let r = i % wi;
    lemma_fundamental_div_mod(i, wi);
    assert(wi * q >= wi) by (nonlinear_arith)
        requires
            q >= 1,
            wi >= 1,
    ;
    assert(wi * q <= wi * (h - 2)) by (nonlinear_arith)
        requires
            q <= h - 2,
            wi >= 1,
    ;
    let hi = h as int;
    assert(wi * (hi - 2) == wi * hi - 2 * wi) by (nonlinear_arith);
    assert(wi * hi == w * h);
}

/// Coordinates and indices agree: `(x, y)` inside the grid has index
/// `y * w + x`, below `w * h`, and lies off the border exactly when that
/// index is interior.
pub proof fn lemma_coordinates(w: nat, h: nat, x: int, y: int)
    requires
        w >= 1,
        0 <= x < w,
        0 <= y < h,
    ensures
        0 <= y * w + x < w * h,
        (y * w + x) % (w as int) == x,
        (y * w + x) / (w as int) == y,
        interior(w, h, y * w + x) == !is_border(w, h, x, y),
{
    let wi = w as int;
    lemma_fundamental_div_mod_converse(y * wi + x, wi, y, x);
    assert(0 <= y * wi) by (nonlinear_arith)
        requires
            y >= 0,
            wi >= 0,
    ;
    let hi = h as int;
    assert(y * wi + x < wi * hi) by (nonlinear_arith)
        requires
            0 <= y <= hi - 1,
            0 <= x < wi,
            wi >= 1,
    ;
    assert(wi * hi == w * h);
}

/// A cell that is not a wall lies in the interior of a well-formed board.
pub proof fn lemma_non_wall_interior(b: Board, j: int)
    requires
        b.wf(),
        0 <= j < b.size(),
        b.kind(j) != ParticleType::Wall,
    ensures
        interior(b.width, b.height, j),
{
    assert(b.cells[j].p_type != ParticleType::Wall);
}

/// Writing a wall anywhere, or anything in the interior, keeps a board
/// well formed.
pub proof fn lemma_put_wf(b: Board, j: int, t: ParticleType)
    requires
        b.wf(),
        0 <= j < b.size(),
        interior(b.width, b.height, j) || t == ParticleType::Wall,
    ensures
        b.put(j, t).wf(),
{
    let c = b.put(j, t);
    assert forall|m: int|
        0 <= m < c.size() && !interior(c.width, c.height, m) implies (#[trigger] c.cells[m]).p_type
        == ParticleType::Wall by {
        if m != j {
            assert(c.cells[m] == b.cells[m]);
        }
    }
}

/// Visiting one cell keeps the board well formed and leaves its dimensions
/// and its clock alone.
pub proof fn lemma_process_wf(b: Board, i: int, right: bool)
    requires
        b.wf(),
        0 <= i < b.size(),
    ensures
        b.process(i, right).wf(),
        b.process(i, right).width == b.width,
        b.process(i, right).height == b.height,
        b.process(i, right).clock == b.clock,
{
    let w = b.width;
    let h = b.height;
    if !b.skipped(i) {
        match b.kind(i) {
            ParticleType::Empty => {},
            ParticleType::Wall => {
                lemma_put_wf(b, i, ParticleType::Wall);
            },
            _ => {
                lemma_non_wall_interior(b, i);
                lemma_interior_bounds(w, h, i);
                match b.kind(i) {
                    ParticleType::Sand => {
                        let d = b.sand_move(i, right);
                        let j = b.neighbor(i, d);
                        if j != i {
                            lemma_non_wall_interior(b, j);
                        }
                        lemma_put_wf(b, i, b.kind(j));
                        lemma_put_wf(b.put(i, b.kind(j)), j, b.kind(i));
                    },
                    ParticleType::Water => {
                        let d = b.water_move(i, right);
                        let j = b.neighbor(i, d);
                        if j != i {
                            lemma_non_wall_interior(b, j);
                        }
                        lemma_put_wf(b, i, ParticleType::Empty);
                        lemma_put_wf(b.put(i, ParticleType::Empty), j, ParticleType::Water);
                    },
                    ParticleType::Plant => {
                        let d = b.scan(i, ParticleType::Water);
                        if d != Direction::Stay {
                            let j = b.neighbor(i, d);
                            lemma_non_wall_interior(b, j);
                            lemma_put_wf(b, i, ParticleType::Plant);
                            lemma_put_wf(b.put(i, ParticleType::Plant), j, ParticleType::Plant);
                        }
                    },
                    ParticleType::Fire => {
                        let d = b.scan(i, ParticleType::Plant);
                        let spread = if d == Direction::Stay {
                            b
                        } else {
                            b.put(b.neighbor(i, d), ParticleType::Fire)
                        };
                        if d != Direction::Stay {
                            lemma_non_wall_interior(b, b.neighbor(i, d));
                            lemma_put_wf(b, b.neighbor(i, d), ParticleType::Fire);
                        }
                        lemma_put_wf(spread, i, ParticleType::Empty);
                    },
                    _ => {},
                }
            },
        }
    }
}

/// A sweep never moves back on the tape.
pub proof fn lemma_sweep_advances(b: Board, k: nat, tape: Seq<bool>, pos: nat)
    ensures
        b.sweep(k, tape, pos).1 >= pos,
    decreases k,
{
    if k > 0 {
        lemma_sweep_advances(b, (k - 1) as nat, tape, pos);
    }
}

/// A sweep reads the tape only below the position it ends at, so a longer
/// tape with the same beginning gives the same result.
pub proof fn lemma_sweep_prefix(b: Board, k: nat, t1: Seq<bool>, t2: Seq<bool>, pos: nat)
    requires
        t1.is_prefix_of(t2),
        b.sweep(k, t1, pos).1 <= t1.len(),
    ensures
        b.sweep(k, t2, pos) == b.sweep(k, t1, pos),
    decreases k,
{
    if k > 0 {
        let (c, p) = b.sweep((k - 1) as nat, t1, pos);
        lemma_sweep_prefix(b, (k - 1) as nat, t1, t2, pos);
        if c.draws(k - 1) {
            assert(t2.subrange(0, t1.len() as int)[p as int] == t2[p as int]);
        }
    }
}

/// A sweep over a well-formed board keeps it well formed, with the same
/// dimensions and clock.
pub proof fn lemma_sweep_wf(b: Board, k: nat, tape: Seq<bool>, pos: nat)
    requires
        b.wf(),
        k <= b.size(),
    ensures
        b.sweep(k, tape, pos).0.wf(),
        b.sweep(k, tape, pos).0.width == b.width,
        b.sweep(k, tape, pos).0.height == b.height,
        b.sweep(k, tape, pos).0.clock == b.clock,
    decreases k,
{
    if k > 0 {
        let (c, p) = b.sweep((k - 1) as nat, tape, pos);
        lemma_sweep_wf(b, (k - 1) as nat, tape, pos);
        lemma_process_wf(c, k - 1, tape[p as int]);
        lemma_process_wf(c, k - 1, false);
    }
}

} // verus!
