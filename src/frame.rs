//! Encoding of the grid as an RGB image: three bytes per cell, row-major.
use crate::particle::{Particle, ParticleType};
use vstd::prelude::*;

verus! {

/// The fixed colour of each material.
pub open spec fn rgb(t: ParticleType) -> (u8, u8, u8) {
    match t {
        ParticleType::Empty => (0, 0, 0),
        ParticleType::Wall => (220, 220, 220),
        ParticleType::Sand => (194, 178, 128),
        ParticleType::Water => (128, 197, 222),
        ParticleType::Plant => (50, 205, 50),
        ParticleType::Fire => (170, 16, 0),
    }
}

/// Channel `c` (0 red, 1 green, 2 blue) of the colour of `t`.
pub open spec fn channel(t: ParticleType, c: int) -> u8 {
    if c == 0 {
        rgb(t).0
    } else if c == 1 {
        rgb(t).1
    } else {
        rgb(t).2
    }
}

/// The image of a row-major sequence of cells: byte `3 * i + c` is channel
/// `c` of the colour of cell `i`.
pub open spec fn spec_frame(cells: Seq<Particle>) -> Seq<u8> {
    Seq::new(3 * cells.len(), |j: int| channel(cells[j / 3].p_type, j % 3))
}

/// The colour of a material as a red, green, blue triple.
pub fn color(t: ParticleType) -> (r: (u8, u8, u8))
    ensures
        r == rgb(t),
{
    match t {
        ParticleType::Empty => (0, 0, 0),
        ParticleType::Wall => (220, 220, 220),
        ParticleType::Sand => (194, 178, 128),
        ParticleType::Water => (128, 197, 222),
        ParticleType::Plant => (50, 205, 50),
        ParticleType::Fire => (170, 16, 0),
    }
}

/// Encodes the cells as an image buffer of three bytes per cell.
pub fn encode_frame(cells: &[Particle]) -> (r: Vec<u8>)
    requires
        3 * cells@.len() <= usize::MAX,
    ensures
        r@ == spec_frame(cells@),
{
    let mut out: Vec<u8> = Vec::new();
    let mut i: usize = 0;
    while i < cells.len()
        invariant
            i <= cells@.len(),
            3 * cells@.len() <= usize::MAX,
            out@ =~= spec_frame(cells@.take(i as int)),
        decreases cells@.len() - i,
    {
        let (red, green, blue) = color(cells[i].p_type);
        let ghost prev = out@;
        out.push(red);
        out.push(green);
        out.push(blue);
        proof {
            let next = spec_frame(cells@.take(i + 1));
            assert forall|j: int| 0 <= j < 3 * (i + 1) implies #[trigger] out@[j] == next[j] by {
                if j < 3 * i {
                    assert(cells@.take(i + 1)[j / 3] == cells@.take(i as int)[j / 3]);
                } else {
                    assert(j / 3 == i);
                }
            }
        }
        i += 1;
    }
    proof {
        assert(cells@.take(cells@.len() as int) =~= cells@);
    }
    out
}

} // verus!
