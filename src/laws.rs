//! Properties that hold of every tick.
use crate::frame::spec_frame;
use crate::game::SandGame;
use crate::grid::{
    interior, is_border, lemma_coordinates, lemma_interior_bounds, lemma_non_wall_interior,
    lemma_sweep_wf, Board,
};
use crate::particle::{Direction, Particle, ParticleType};
use vstd::prelude::*;

verus! {

/// The number of cells of `cells` that hold material `t`.
pub open spec fn count(cells: Seq<Particle>, t: ParticleType) -> nat
    decreases cells.len(),
{
    if cells.len() == 0 {
        0
    } else {
        count(cells.drop_last(), t) + if cells.last().p_type == t {
            1nat
        } else {
            0nat
        }
    }
}

/// How the material counts of `after` relate to those of `before` when
/// `after` follows from `before` by ticks: sand and walls are conserved;
/// cells only become empty (fire burning out) and water only disappears
/// (taken up by plants); fire grows by the plants it consumes (directly, or
/// grown from water in the same span) and shrinks by the fires that burn
/// out; with no plant present water is conserved, and with no fire present
/// plants never decrease.
pub open spec fn accounted(before: Board, after: Board) -> bool {
    let (s0, s1) = (count(before.cells, ParticleType::Sand), count(after.cells, ParticleType::Sand));
    let (l0, l1) = (count(before.cells, ParticleType::Wall), count(after.cells, ParticleType::Wall));
    let (e0, e1) = (
        count(before.cells, ParticleType::Empty),
        count(after.cells, ParticleType::Empty),
    );
    let (w0, w1) = (
        count(before.cells, ParticleType::Water),
        count(after.cells, ParticleType::Water),
    );
    let (p0, p1) = (
        count(before.cells, ParticleType::Plant),
        count(after.cells, ParticleType::Plant),
    );
    let (f0, f1) = (count(before.cells, ParticleType::Fire), count(after.cells, ParticleType::Fire));
    &&& s1 == s0
    &&& l1 == l0
    &&& e1 >= e0
    &&& w1 <= w0
    &&& f1 - f0 == (w0 - w1) + (p0 - p1) - (e1 - e0)
    &&& p0 == 0 ==> w1 == w0 && p1 == 0
    &&& f0 == 0 ==> p1 >= p0 && f1 == 0
}

proof fn lemma_count_update(s: Seq<Particle>, i: int, v: Particle, t: ParticleType)
    requires
        0 <= i < s.len(),
    ensures
        count(s.update(i, v), t) == count(s, t) - (if s[i].p_type == t {
            1int
        } else {
            0int
        }) + (if v.p_type == t {
            1int
        } else {
            0int
        }),
    decreases s.len(),
{
    if i == s.len() - 1 {
        assert(s.update(i, v).drop_last() =~= s.drop_last());
    } else {
        assert(s.update(i, v).drop_last() =~= s.drop_last().update(i, v));
        lemma_count_update(s.drop_last(), i, v, t);
    }
}

proof fn lemma_count_put(b: Board, j: int, t: ParticleType)
    requires
        0 <= j < b.cells.len(),
    ensures
        forall|u: ParticleType|
            #[trigger] count(b.put(j, t).cells, u) == count(b.cells, u) - (if b.cells[j].p_type
                == u {
                1int
            } else {
                0int
            }) + (if t == u {
                1int
            } else {
                0int
            }),
{
    assert forall|u: ParticleType|
        #[trigger] count(b.put(j, t).cells, u) == count(b.cells, u) - (if b.cells[j].p_type == u {
            1int
        } else {
            0int
        }) + (if t == u {
            1int
        } else {
            0int
        }) by {
        lemma_count_update(b.cells, j, Particle { p_type: t }, u);
    }
}

proof fn lemma_count_positive(s: Seq<Particle>, i: int)
    requires
        0 <= i < s.len(),
    ensures
        count(s, s[i].p_type) >= 1,
{
    let t = s[i].p_type;
    let other = if t == ParticleType::Empty {
        ParticleType::Wall
    } else {
        ParticleType::Empty
    };
    lemma_count_update(s, i, Particle { p_type: other }, t);
}

proof fn lemma_accounted_refl(b: Board)
    ensures
        accounted(b, b),
{
}

proof fn lemma_accounted_trans(a: Board, b: Board, c: Board)
    requires
        accounted(a, b),
        accounted(b, c),
    ensures
        accounted(a, c),
{
}

proof fn lemma_sand_counts(b: Board, i: int, right: bool)
    requires
        b.wf(),
        0 <= i < b.size(),
        interior(b.width, b.height, i),
        b.kind(i) == ParticleType::Sand,
    ensures
        accounted(b, b.sand_step(i, right)),
{
    lemma_interior_bounds(b.width, b.height, i);
    let j = b.neighbor(i, b.sand_move(i, right));
    lemma_count_put(b, i, b.kind(j));
    lemma_count_put(b.put(i, b.kind(j)), j, b.kind(i));
}

proof fn lemma_water_counts(b: Board, i: int, right: bool)
    requires
        b.wf(),
        0 <= i < b.size(),
        interior(b.width, b.height, i),
        b.kind(i) == ParticleType::Water,
    ensures
        accounted(b, b.water_step(i, right)),
{
    lemma_interior_bounds(b.width, b.height, i);
    let d = b.water_move(i, right);
    let j = b.neighbor(i, d);
    assert(j == i || b.kind(j) == ParticleType::Empty);
    lemma_count_put(b, i, ParticleType::Empty);
    lemma_count_put(b.put(i, ParticleType::Empty), j, ParticleType::Water);
}

proof fn lemma_plant_counts(b: Board, i: int)
    requires
        b.wf(),
        0 <= i < b.size(),
        interior(b.width, b.height, i),
        b.kind(i) == ParticleType::Plant,
    ensures
        accounted(b, b.plant_step(i)),
{
    lemma_interior_bounds(b.width, b.height, i);
    lemma_count_positive(b.cells, i);
    let d = b.scan(i, ParticleType::Water);
    if d != Direction::Stay {
        let j = b.neighbor(i, d);
        assert(j != i && b.kind(j) == ParticleType::Water);
        lemma_count_put(b, i, ParticleType::Plant);
        lemma_count_put(b.put(i, ParticleType::Plant), j, ParticleType::Plant);
    }
}

proof fn lemma_fire_counts(b: Board, i: int)
    requires
        b.wf(),
        0 <= i < b.size(),
        interior(b.width, b.height, i),
        b.kind(i) == ParticleType::Fire,
    ensures
        accounted(b, b.fire_step(i)),
{
    lemma_interior_bounds(b.width, b.height, i);
    lemma_count_positive(b.cells, i);
    let d = b.scan(i, ParticleType::Plant);
    let spread = if d == Direction::Stay {
        b
    } else {
        b.put(b.neighbor(i, d), ParticleType::Fire)
    };
    if d != Direction::Stay {
        let j = b.neighbor(i, d);
        assert(j != i && b.kind(j) == ParticleType::Plant);
        lemma_count_put(b, j, ParticleType::Fire);
    }
    assert(spread.kind(i) == ParticleType::Fire);
    lemma_count_put(spread, i, ParticleType::Empty);
}

/// Visiting one cell keeps the material counts accounted.
proof fn lemma_process_counts(b: Board, i: int, right: bool)
    requires
        b.wf(),
        0 <= i < b.size(),
    ensures
        accounted(b, b.process(i, right)),
{
    if b.skipped(i) || b.kind(i) == ParticleType::Empty {
        return ;
    }
    if b.kind(i) == ParticleType::Wall {
        lemma_count_put(b, i, ParticleType::Wall);
        return ;
    }
    lemma_non_wall_interior(b, i);
    match b.kind(i) {
        ParticleType::Sand => lemma_sand_counts(b, i, right),
        ParticleType::Water => lemma_water_counts(b, i, right),
        ParticleType::Plant => lemma_plant_counts(b, i),
        ParticleType::Fire => lemma_fire_counts(b, i),
        _ => {},
    }
}

proof fn lemma_sweep_counts(b: Board, k: nat, tape: Seq<bool>, pos: nat)
    requires
        b.wf(),
        k <= b.size(),
    ensures
        accounted(b, b.sweep(k, tape, pos).0),
    decreases k,
{
    if k == 0 {
        lemma_accounted_refl(b);
    } else {
        let (c, p) = b.sweep((k - 1) as nat, tape, pos);
        lemma_sweep_counts(b, (k - 1) as nat, tape, pos);
        lemma_sweep_wf(b, (k - 1) as nat, tape, pos);
        let right = if c.draws(k - 1) {
            tape[p as int]
        } else {
            false
        };
        lemma_process_counts(c, k - 1, right);
        lemma_accounted_trans(b, c, c.process(k - 1, right));
    }
}

/// A well-formed board has a wall in every border cell.
pub proof fn lemma_border_walls(b: Board)
    requires
        b.wf(),
    ensures
        forall|x: int, y: int|
            0 <= x < b.width && 0 <= y < b.height && is_border(b.width, b.height, x, y)
                ==> #[trigger] b.at(x, y) == ParticleType::Wall,
{
    assert forall|x: int, y: int|
        0 <= x < b.width && 0 <= y < b.height && is_border(
            b.width,
            b.height,
            x,
            y,
        ) implies #[trigger] b.at(x, y) == ParticleType::Wall by {
        lemma_coordinates(b.width, b.height, x, y);
        assert(b.cells[b.index(x, y)].p_type == ParticleType::Wall);
    }
}

/// After a tick every border cell still holds a wall, and the board stays
/// well formed with the same dimensions.
pub proof fn lemma_tick_keeps_border(b: Board, tape: Seq<bool>, pos: nat)
    requires
        b.wf(),
    ensures
        b.tick(tape, pos).0.wf(),
        b.tick(tape, pos).0.width == b.width,
        b.tick(tape, pos).0.height == b.height,
        forall|x: int, y: int|
            0 <= x < b.width && 0 <= y < b.height && is_border(b.width, b.height, x, y)
                ==> #[trigger] b.tick(tape, pos).0.at(x, y) == ParticleType::Wall,
{
    lemma_sweep_wf(b, b.size() as nat, tape, pos);
    lemma_border_walls(b.tick(tape, pos).0);
}

/// Across a tick the material counts are accounted: sand and walls are
/// conserved, water never grows and is conserved when no plant is present,
/// plants never shrink when no fire is present, and fire changes only by
/// the plants it consumes and the fires that burn out.
pub proof fn lemma_tick_counts(b: Board, tape: Seq<bool>, pos: nat)
    requires
        b.wf(),
    ensures
        accounted(b, b.tick(tape, pos).0),
{
    lemma_sweep_counts(b, b.size() as nat, tape, pos);
}

/// A board of walls and empty cells keeps its materials through a tick and
/// draws no tie-break bit; only stamps change.
pub proof fn lemma_walls_idle(b: Board, tape: Seq<bool>, pos: nat)
    requires
        b.wf(),
        forall|i: int|
            0 <= i < b.size() ==> #[trigger] b.kind(i) == ParticleType::Wall || b.kind(i)
                == ParticleType::Empty,
    ensures
        b.tick(tape, pos).0.cells == b.cells,
        b.tick(tape, pos).1 == pos,
{
    lemma_sweep_idle(b, b.size() as nat, tape, pos);
}

proof fn lemma_sweep_idle(b: Board, k: nat, tape: Seq<bool>, pos: nat)
    requires
        b.wf(),
        k <= b.size(),
        forall|i: int|
            0 <= i < b.size() ==> #[trigger] b.kind(i) == ParticleType::Wall || b.kind(i)
                == ParticleType::Empty,
    ensures
        b.sweep(k, tape, pos).0.cells == b.cells,
        b.sweep(k, tape, pos).1 == pos,
    decreases k,
{
    if k > 0 {
        let (c, p) = b.sweep((k - 1) as nat, tape, pos);
        lemma_sweep_idle(b, (k - 1) as nat, tape, pos);
        assert(c.kind(k - 1) == b.kind(k - 1));
        if !c.skipped(k - 1) && c.kind(k - 1) == ParticleType::Wall {
            assert(c.cells.update(k - 1, Particle { p_type: ParticleType::Wall }) =~= c.cells);
        }
    }
}

/// Two games of the same size that were given the same calls, and whose
/// tie-break generator yielded the same bits, hold the same grid and render
/// the same image.
pub proof fn lemma_same_history(g1: SandGame, g2: SandGame)
    requires
        g1.wf(),
        g2.wf(),
        g1@.width == g2@.width,
        g1@.height == g2@.height,
        g1.calls() == g2.calls(),
        g1.tape() == g2.tape(),
    ensures
        g1@ == g2@,
        spec_frame(g1@.cells) == spec_frame(g2@.cells),
{
}

} // verus!
