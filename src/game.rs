//! The simulation: a grid of cells advanced one tick at a time.
use crate::frame::{encode_frame, spec_frame};
use crate::grid::{
    initial, interior, lemma_coordinates, lemma_interior_bounds, lemma_process_wf,
    lemma_sweep_advances, lemma_sweep_prefix, lemma_sweep_wf, Board,
};
use crate::particle::{Direction, Particle, ParticleType};
use crate::random::{draw_bit, seeded_generator};
use crate::rules::{first_match, sand_direction, water_direction};
use rand_pcg::Lcg64Xsh32;
use vstd::arithmetic::div_mod::lemma_fundamental_div_mod;
use vstd::prelude::*;

verus! {

/// The seed of the tie-break generator.
pub const SEED: u64 = 419;

/// A call that changes the grid, as recorded in a game's history.
pub enum Call {
    Spawn { x: u32, y: u32, code: u8 },
    Step,
}

/// The board that a `w` by `h` game holds after `calls`, when its tie-break
/// bits are read from `tape`; paired with the number of bits read.
pub open spec fn replay(w: nat, h: nat, calls: Seq<Call>, tape: Seq<bool>) -> (Board, nat)
    decreases calls.len(),
{
    if calls.len() == 0 {
        (initial(w, h), 0)
    } else {
        let (b, p) = replay(w, h, calls.drop_last(), tape);
        match calls.last() {
            Call::Spawn { x, y, code } => (b.spawned(x as int, y as int, code), p),
            Call::Step => b.tick(tape, p),
        }
    }
}

/// A replay reads only the bits below the position it ends at.
pub proof fn lemma_replay_prefix(w: nat, h: nat, calls: Seq<Call>, t1: Seq<bool>, t2: Seq<bool>)
    requires
        t1.is_prefix_of(t2),
        replay(w, h, calls, t1).1 <= t1.len(),
    ensures
        replay(w, h, calls, t2) == replay(w, h, calls, t1),
    decreases calls.len(),
{
    if calls.len() > 0 {
        let (b, p) = replay(w, h, calls.drop_last(), t1);
        if calls.last() is Step {
            lemma_sweep_advances(b, b.size() as nat, t1, p);
        }
        lemma_replay_prefix(w, h, calls.drop_last(), t1, t2);
        if calls.last() is Step {
            lemma_sweep_prefix(b, b.size() as nat, t1, t2, p);
        }
    }
}

/// A falling-sand game: the grid, its clock, the tie-break generator and the
/// last rendered image.
pub struct SandGame {
    particles: Vec<Particle>,
    clocks: Vec<u8>,
    width: usize,
    height: usize,
    clock: u8,
    rng: Lcg64Xsh32,
    framebuffer: Vec<u8>,
    tape: Ghost<Seq<bool>>,
    calls: Ghost<Seq<Call>>,
}

impl View for SandGame {
    type V = Board;

    closed spec fn view(&self) -> Board {
        Board {
            width: self.width as nat,
            height: self.height as nat,
            cells: self.particles@,
            stamps: self.clocks@,
            clock: self.clock,
        }
    }
}

impl SandGame {
    /// Every tie-break bit drawn since the game was made, in order.
    pub closed spec fn tape(&self) -> Seq<bool> {
        self.tape@
    }

    /// Every `spawn` and `step` made on the game, in order.
    pub closed spec fn calls(&self) -> Seq<Call> {
        self.calls@
    }

    /// The image that the last `render` (or `new`) produced.
    pub closed spec fn frame(&self) -> Seq<u8> {
        self.framebuffer@
    }

    /// The dimensions and the image buffer fit the machine's integers.
    pub closed spec fn fits(&self) -> bool {
        &&& self.width <= u32::MAX
        &&& self.height <= u32::MAX
        &&& self.width * self.height * 3 <= usize::MAX
        &&& self.framebuffer@.len() == self.width * self.height * 3
    }

    closed spec fn keeps(&self, other: &SandGame) -> bool {
        &&& self.tape == other.tape
        &&& self.calls == other.calls
        &&& self.framebuffer == other.framebuffer
    }

    /// The board is well formed and is what the recorded calls and tie-break
    /// bits produce from a fresh grid.
    pub open spec fn wf(&self) -> bool {
        &&& self@.wf()
        &&& self.fits()
        &&& replay(self@.width, self@.height, self.calls(), self.tape()) == (
        self@,
        self.tape().len(),
        )
    }

    /// A `width` by `height` grid with a ring of walls around empty cells,
    /// all stamps and the clock at zero, and its image rendered.
    pub fn new(width: u32, height: u32) -> (r: SandGame)
        requires
            2 <= width,
            2 <= height,
            width * height * 3 <= usize::MAX,
        ensures
            r.wf(),
            r@ == initial(width as nat, height as nat),
            r.calls() == Seq::<Call>::empty(),
            r.tape() == Seq::<bool>::empty(),
            r.frame() == spec_frame(r@.cells),
    {
        let w = width as usize;
        let h = height as usize;
        assert(w * h <= w * h * 3) by (nonlinear_arith)
            requires
                w >= 2,
                h >= 2,
        ;
        let n = w * h;
        let ghost start = initial(w as nat, h as nat);
        let mut particles: Vec<Particle> = Vec::new();
        let mut clocks: Vec<u8> = Vec::new();
        let mut i: usize = 0;
        while i < n
            invariant
                n == w * h,
                w >= 2,
                h >= 2,
                start == initial(w as nat, h as nat),
                i <= n,
                particles@.len() == i,
                clocks@.len() == i,
                forall|k: int| 0 <= k < i ==> #[trigger] particles@[k] == start.cells[k],
                forall|k: int| 0 <= k < i ==> #[trigger] clocks@[k] == 0,
            decreases n - i,
        {
            let x = i % w;
            let y = i / w;
            proof {
                lemma_fundamental_div_mod(i as int, w as int);
                let (ii, wi, yi, xi, hi) = (i as int, w as int, y as int, x as int, h as int);
                assert(yi < hi) by (nonlinear_arith)
                    requires
                        ii == wi * yi + xi,
                        0 <= xi,
                        ii < wi * hi,
                        wi >= 2,
                ;
            }
            let p_type = if x == 0 || y == 0 || x == w - 1 || y == h - 1 {
                ParticleType::Wall
            } else {
                ParticleType::Empty
            };
            particles.push(Particle { p_type });
            clocks.push(0);
            i += 1;
        }
        assert(particles@ =~= start.cells);
        assert(clocks@ =~= start.stamps);
        let framebuffer = encode_frame(particles.as_slice());
        let game = SandGame {
            particles,
            clocks,
            width: w,
            height: h,
            clock: 0,
            rng: seeded_generator(SEED),
            framebuffer,
            tape: Ghost(Seq::empty()),
            calls: Ghost(Seq::empty()),
        };
        assert(game@ == start);
        game
    }

    /// The number of columns.
    pub fn width(&self) -> (r: u32)
        requires
            self.wf(),
        ensures
            r == self@.width,
    {
        self.width as u32
    }

    /// The number of rows.
    pub fn height(&self) -> (r: u32)
        requires
            self.wf(),
        ensures
            r == self@.height,
    {
        self.height as u32
    }

    /// The image that the last `render` produced: three bytes per cell,
    /// row-major.
    pub fn framebuffer(&self) -> (r: &[u8])
        ensures
            r@ == self.frame(),
    {
        self.framebuffer.as_slice()
    }

    /// The material at column `x`, row `y`.
    pub fn get(&self, x: u32, y: u32) -> (r: ParticleType)
        requires
            self.wf(),
            x < self@.width,
            y < self@.height,
        ensures
            r == self@.at(x as int, y as int),
    {
        let i = self.get_index(x as usize, y as usize);
        self.particles[i].p_type
    }

    fn get_index(&self, x: usize, y: usize) -> (r: usize)
        requires
            self@.wf(),
            self.fits(),
            x < self@.width,
            y < self@.height,
        ensures
            r == self@.index(x as int, y as int),
            r < self@.size(),
    {
        proof {
            lemma_coordinates(self@.width, self@.height, x as int, y as int);
        }
        y * self.width + x
    }

    /// Writes the material with code `p_type` (0 empty, 1 wall, 2 sand,
    /// 3 water, 4 plant, 5 fire, anything else empty) at column `x`, row `y`
    /// off the border. The cell's stamp is left as it was.
    pub fn spawn(&mut self, x: u32, y: u32, p_type: u8)
        requires
            old(self).wf(),
            1 <= x < old(self)@.width - 1,
            1 <= y < old(self)@.height - 1,
        ensures
            final(self).wf(),
            final(self)@ == old(self)@.spawned(x as int, y as int, p_type),
            final(self).calls() == old(self).calls().push((Call::Spawn { x, y, code: p_type })),
            final(self).tape() == old(self).tape(),
            final(self).frame() == old(self).frame(),
    {
        let ghost before = *self;
        let t = ParticleType::from_code(p_type);
        let index = self.get_index(x as usize, y as usize);
        proof {
            lemma_coordinates(self@.width, self@.height, x as int, y as int);
        }
        self.particles.set(index, Particle { p_type: t });
        self.calls = Ghost(self.calls@.push(Call::Spawn { x, y, code: p_type }));
        proof {
            let b = self@;
            assert forall|m: int|
                0 <= m < b.size() && !interior(b.width, b.height, m) implies (#[trigger] b.cells[m]).p_type
                == ParticleType::Wall by {
                assert(b.cells[m] == before@.cells[m]);
            }
            assert(self.calls@.drop_last() =~= before.calls@);
        }
    }

    /// Advances the simulation by one tick: each cell is visited once, in
    /// row-major order, and a cell already written in this tick is skipped;
    /// then the clock advances.
    pub fn step(&mut self)
        requires
            old(self).wf(),
        ensures
            final(self).wf(),
            final(self)@.width == old(self)@.width,
            final(self)@.height == old(self)@.height,
            final(self).calls() == old(self).calls().push(Call::Step),
            old(self).tape().is_prefix_of(final(self).tape()),
            (final(self)@, final(self).tape().len()) == old(self)@.tick(
                final(self).tape(),
                old(self).tape().len(),
            ),
            final(self).frame() == old(self).frame(),
    {
        let ghost start = self@;
        let ghost t0 = self.tape@;
        let ghost p0 = self.tape@.len();
        let ghost calls0 = self.calls@;
        let ghost fb0 = self.framebuffer@;
        let n = self.width * self.height;
        let mut k: usize = 0;
        while k < n
            invariant
                start.wf(),
                n == start.size(),
                k <= n,
                self@.wf(),
                self.fits(),
                self@.width == start.width,
                self@.height == start.height,
                self.clock == start.clock,
                t0.is_prefix_of(self.tape@),
                p0 == t0.len(),
                start.sweep(k as nat, self.tape@, p0) == (self@, self.tape@.len()),
                self.calls@ == calls0,
                self.framebuffer@ == fb0,
            decreases n - k,
        {
            let ghost before = self@;
            let ghost tb = self.tape@;
            self.process_cell(k);
            proof {
                lemma_sweep_prefix(start, k as nat, tb, self.tape@, p0);
                lemma_process_wf(before, k as int, self.tape@.last());
                lemma_process_wf(before, k as int, false);
                assert(t0.is_prefix_of(self.tape@)) by {
                    assert(self.tape@.subrange(0, t0.len() as int) =~= tb.subrange(
                        0,
                        t0.len() as int,
                    ));
                }
            }
            k += 1;
        }
        self.clock = self.clock.wrapping_add(1);
        self.calls = Ghost(self.calls@.push(Call::Step));
        proof {
            lemma_replay_prefix(start.width, start.height, calls0, t0, self.tape@);
            assert(self.calls@.drop_last() =~= calls0);
            lemma_sweep_wf(start, start.size() as nat, self.tape@, p0);
        }
    }

    /// Encodes the grid into the image buffer.
    pub fn render(&mut self)
        requires
            old(self).wf(),
        ensures
            final(self).wf(),
            final(self)@ == old(self)@,
            final(self).calls() == old(self).calls(),
            final(self).tape() == old(self).tape(),
            final(self).frame() == spec_frame(old(self)@.cells),
    {
        self.framebuffer = encode_frame(self.particles.as_slice());
    }

    /// Draws one tie-break bit and records it on the tape.
    fn tie_break(&mut self) -> (r: bool)
        ensures
            final(self)@ == old(self)@,
            final(self).tape() == old(self).tape().push(r),
            final(self).calls() == old(self).calls(),
            final(self).framebuffer == old(self).framebuffer,
    {
        let bit = draw_bit(&mut self.rng);
        let right = bit == 1;
        self.tape = Ghost(self.tape@.push(right));
        right
    }

    /// The index of the neighbour of interior cell `i` in direction `d`.
    fn neighbor(&self, i: usize, d: Direction) -> (j: usize)
        requires
            self@.wf(),
            self.fits(),
            i < self@.size(),
            interior(self@.width, self@.height, i as int),
        ensures
            j == self@.neighbor(i as int, d),
            j < self@.size(),
    {
        proof {
            lemma_interior_bounds(self@.width, self@.height, i as int);
        }
        let w = self.width;
        match d {
            Direction::Left => i - 1,
            Direction::Right => i + 1,
            Direction::Down => i + w,
            Direction::Up => i - w,
            Direction::DownLeft => i + w - 1,
            Direction::DownRight => i + w + 1,
            Direction::UpLeft => i - w - 1,
            Direction::UpRight => i - w + 1,
            Direction::Stay => i,
        }
    }

    /// The material of the neighbour of interior cell `i` in direction `d`.
    fn look(&self, i: usize, d: Direction) -> (r: ParticleType)
        requires
            self@.wf(),
            self.fits(),
            i < self@.size(),
            interior(self@.width, self@.height, i as int),
        ensures
            r == self@.look(i as int, d),
    {
        let j = self.neighbor(i, d);
        self.particles[j].p_type
    }

    /// Writes `t` at index `j` and stamps it as written in this tick.
    fn put(&mut self, j: usize, t: ParticleType)
        requires
            old(self)@.cells.len() == old(self)@.stamps.len(),
            j < old(self)@.cells.len(),
        ensures
            final(self)@ == old(self)@.put(j as int, t),
            final(self).keeps(old(self)),
    {
        let stamp = self.clock.wrapping_add(1);
        self.particles.set(j, Particle { p_type: t });
        self.clocks.set(j, stamp);
    }

    fn update_wall(&mut self, i: usize)
        requires
            old(self)@.wf(),
            old(self).fits(),
            i < old(self)@.size(),
        ensures
            final(self)@ == old(self)@.wall_step(i as int),
            final(self).keeps(old(self)),
    {
        self.put(i, ParticleType::Wall);
    }

    fn update_sand(&mut self, i: usize, right: bool)
        requires
            old(self)@.wf(),
            old(self).fits(),
            i < old(self)@.size(),
            interior(old(self)@.width, old(self)@.height, i as int),
        ensures
            final(self)@ == old(self)@.sand_step(i as int, right),
            final(self).keeps(old(self)),
    {
        let d = sand_direction(
            self.look(i, Direction::DownLeft),
            self.look(i, Direction::Down),
            self.look(i, Direction::DownRight),
            right,
        );
        let j = self.neighbor(i, d);
        let here = self.particles[i].p_type;
        let there = self.particles[j].p_type;
        self.put(i, there);
        self.put(j, here);
    }

    fn update_water(&mut self, i: usize, right: bool)
        requires
            old(self)@.wf(),
            old(self).fits(),
            i < old(self)@.size(),
            interior(old(self)@.width, old(self)@.height, i as int),
        ensures
            final(self)@ == old(self)@.water_step(i as int, right),
            final(self).keeps(old(self)),
    {
        let d = water_direction(
            self.look(i, Direction::DownLeft),
            self.look(i, Direction::Down),
            self.look(i, Direction::DownRight),
            self.look(i, Direction::Left),
            self.look(i, Direction::Right),
            right,
        );
        let j = self.neighbor(i, d);
        self.put(i, ParticleType::Empty);
        self.put(j, ParticleType::Water);
    }

    /// The neighbour of interior cell `i` that holds `target` first in the
    /// scan order.
    fn scan(&self, i: usize, target: ParticleType) -> (r: Direction)
        requires
            self@.wf(),
            self.fits(),
            i < self@.size(),
            interior(self@.width, self@.height, i as int),
        ensures
            r == self@.scan(i as int, target),
    {
        first_match(
            self.look(i, Direction::DownLeft),
            self.look(i, Direction::Down),
            self.look(i, Direction::DownRight),
            self.look(i, Direction::Left),
            self.look(i, Direction::Right),
            self.look(i, Direction::Up),
            self.look(i, Direction::UpLeft),
            self.look(i, Direction::UpRight),
            target,
        )
    }

    fn update_plant(&mut self, i: usize)
        requires
            old(self)@.wf(),
            old(self).fits(),
            i < old(self)@.size(),
            interior(old(self)@.width, old(self)@.height, i as int),
        ensures
            final(self)@ == old(self)@.plant_step(i as int),
            final(self).keeps(old(self)),
    {
        let d = self.scan(i, ParticleType::Water);
        match d {
            Direction::Stay => {},
            _ => {
                let j = self.neighbor(i, d);
                self.put(i, ParticleType::Plant);
                self.put(j, ParticleType::Plant);
            },
        }
    }

    fn update_fire(&mut self, i: usize)
        requires
            old(self)@.wf(),
            old(self).fits(),
            i < old(self)@.size(),
            interior(old(self)@.width, old(self)@.height, i as int),
        ensures
            final(self)@ == old(self)@.fire_step(i as int),
            final(self).keeps(old(self)),
    {
        let d = self.scan(i, ParticleType::Plant);
        match d {
            Direction::Stay => {},
            _ => {
                let j = self.neighbor(i, d);
                self.put(j, ParticleType::Fire);
            },
        }
        if self.clocks[i].wrapping_sub(self.clock) > 10 {
            self.put(i, ParticleType::Empty);
        }
    }

    /// Visits cell `i`: skips it if it was written in this tick, otherwise
    /// applies the rule of its material, drawing a tie-break bit for sand
    /// and water.
    fn process_cell(&mut self, i: usize)
        requires
            old(self)@.wf(),
            old(self).fits(),
            i < old(self)@.size(),
        ensures
            final(self).fits(),
            final(self).calls() == old(self).calls(),
            final(self).framebuffer == old(self).framebuffer,
            old(self)@.draws(i as int) ==> {
                &&& final(self).tape() == old(self).tape().push(final(self).tape().last())
                &&& final(self)@ == old(self)@.process(i as int, final(self).tape().last())
            },
            !old(self)@.draws(i as int) ==> {
                &&& final(self).tape() == old(self).tape()
                &&& final(self)@ == old(self)@.process(i as int, false)
            },
    {
        if self.clocks[i].wrapping_sub(self.clock) == 1 {
            return ;
        }
        let kind = self.particles[i].p_type;
        proof {
            if kind != ParticleType::Wall {
                assert(self@.cells[i as int].p_type != ParticleType::Wall);
            }
        }
        match kind {
            ParticleType::Empty => {},
            ParticleType::Wall => self.update_wall(i),
            ParticleType::Sand => {
                let right = self.tie_break();
                self.update_sand(i, right);
            },
            ParticleType::Water => {
                let right = self.tie_break();
                self.update_water(i, right);
            },
            ParticleType::Plant => self.update_plant(i),
            ParticleType::Fire => self.update_fire(i),
        }
    }
}

} // verus!
