use vstd::prelude::*;

verus! {

/// The material held by one cell of the grid.
#[derive(Clone, Copy, Debug, PartialEq, Eq, Structural)]
pub enum ParticleType {
    Empty,
    Wall,
    Sand,
    Water,
    Plant,
    Fire,
}

impl ParticleType {
    /// The fixed code of each material, as used by `spawn` and by renderers.
    pub open spec fn spec_code(self) -> u8 {
        match self {
            ParticleType::Empty => 0,
            ParticleType::Wall => 1,
            ParticleType::Sand => 2,
            ParticleType::Water => 3,
            ParticleType::Plant => 4,
            ParticleType::Fire => 5,
        }
    }

    /// The material with the given code; an unknown code stands for `Empty`.
    pub open spec fn spec_from_code(code: u8) -> ParticleType {
        if code == 1 {
            ParticleType::Wall
        } else if code == 2 {
            ParticleType::Sand
        } else if code == 3 {
            ParticleType::Water
        } else if code == 4 {
            ParticleType::Plant
        } else if code == 5 {
            ParticleType::Fire
        } else {
            ParticleType::Empty
        }
    }

    pub fn code(self) -> (r: u8)
        ensures
            r == self.spec_code(),
    {
        match self {
            ParticleType::Empty => 0,
            ParticleType::Wall => 1,
            ParticleType::Sand => 2,
            ParticleType::Water => 3,
            ParticleType::Plant => 4,
            ParticleType::Fire => 5,
        }
    }

    pub fn from_code(code: u8) -> (r: ParticleType)
        ensures
            r == Self::spec_from_code(code),
    {
        match code {
            1 => ParticleType::Wall,
            2 => ParticleType::Sand,
            3 => ParticleType::Water,
            4 => ParticleType::Plant,
            5 => ParticleType::Fire,
            _ => ParticleType::Empty,
        }
    }
}

/// One cell of the grid.
#[derive(Clone, Copy, Debug, PartialEq, Eq, Structural)]
pub struct Particle {
    pub p_type: ParticleType,
}

/// A step from a cell to one of its eight neighbours, or `Stay` for no move.
#[derive(Clone, Copy, Debug, PartialEq, Eq, Structural)]
pub enum Direction {
    Left,
    Down,
    Right,
    Up,
    DownLeft,
    DownRight,
    UpLeft,
    UpRight,
    Stay,
}

impl Direction {
    /// Horizontal offset of the step; `x` grows to the right.
    pub open spec fn dx(self) -> int {
        match self {
            Direction::Left | Direction::DownLeft | Direction::UpLeft => -1,
            Direction::Right | Direction::DownRight | Direction::UpRight => 1,
            _ => 0,
        }
    }

    /// Vertical offset of the step; `y` grows downwards.
    pub open spec fn dy(self) -> int {
        match self {
            Direction::Down | Direction::DownLeft | Direction::DownRight => 1,
            Direction::Up | Direction::UpLeft | Direction::UpRight => -1,
            _ => 0,
        }
    }
}

} // verus!
