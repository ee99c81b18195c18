//! A falling-sand cellular automaton: a grid of materials (sand, water,
//! plant, fire, wall) advanced one tick at a time by local rules.
//!
//! Each cell carries a stamp next to its material. A rule that writes a cell
//! stamps it with the clock plus one, so a particle that moved ahead of the
//! sweep is not visited twice in the same tick; fire also reads its stamp as
//! its age. Ties between two equally good moves are broken by a PCG32
//! generator with a fixed seed, so a game is reproducible from its calls.

pub mod frame;
pub mod game;
pub mod grid;
pub mod laws;
pub mod particle;
mod random;
pub mod rules;

pub use frame::{color, encode_frame};
pub use game::{SandGame, SEED};
pub use particle::{Direction, Particle, ParticleType};
pub use rules::{first_match, sand_direction, water_direction};
