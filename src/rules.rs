//! Choice of a move from the materials around a cell. Every function here is
//! total: `Direction::Stay` is an explicit outcome, never a fallback.
use crate::particle::{Direction, ParticleType};
use vstd::prelude::*;

verus! {

/// Sand may enter a cell that is empty or holds water (it sinks through water).
pub open spec fn sand_can_enter(t: ParticleType) -> bool {
    t == ParticleType::Empty || t == ParticleType::Water
}

/// The two diagonal cells below offer the same kind of room to sand.
pub open spec fn sand_tie(down_left: ParticleType, down_right: ParticleType) -> bool {
    (down_left == ParticleType::Empty && down_right == ParticleType::Empty) || (down_left
        == ParticleType::Water && down_right == ParticleType::Water)
}

/// Where a grain of sand moves, given the cells below-left, below and
/// below-right of it; `right` breaks a tie between the two diagonals.
pub open spec fn spec_sand_direction(
    down_left: ParticleType,
    down: ParticleType,
    down_right: ParticleType,
    right: bool,
) -> Direction {
    if sand_can_enter(down) {
        Direction::Down
    } else if sand_tie(down_left, down_right) {
        if right {
            Direction::DownRight
        } else {
            Direction::DownLeft
        }
    } else if sand_can_enter(down_left) {
        Direction::DownLeft
    } else if sand_can_enter(down_right) {
        Direction::DownRight
    } else {
        Direction::Stay
    }
}

/// Where a drop of water moves, given the cells around it; water only moves
/// into empty cells, and `right` breaks a tie between two equal choices.
pub open spec fn spec_water_direction(
    down_left: ParticleType,
    down: ParticleType,
    down_right: ParticleType,
    left: ParticleType,
    right_side: ParticleType,
    right: bool,
) -> Direction {
    let e = ParticleType::Empty;
    if down == e {
        Direction::Down
    } else if left == e && right_side == e {
        if right {
            Direction::Right
        } else {
            Direction::Left
        }
    } else if left == e {
        Direction::Left
    } else if right_side == e {
        Direction::Right
    } else if down_left == e && down_right == e {
        if right {
            Direction::DownRight
        } else {
            Direction::DownLeft
        }
    } else if down_left == e {
        Direction::DownLeft
    } else if down_right == e {
        Direction::DownRight
    } else {
        Direction::Stay
    }
}

/// The first of the eight neighbours, in the order down-left, down,
/// down-right, left, right, up, up-left, up-right, that holds `target`.
pub open spec fn spec_first_match(
    down_left: ParticleType,
    down: ParticleType,
    down_right: ParticleType,
    left: ParticleType,
    right: ParticleType,
    up: ParticleType,
    up_left: ParticleType,
    up_right: ParticleType,
    target: ParticleType,
) -> Direction {
    if down_left == target {
        Direction::DownLeft
    } else if down == target {
        Direction::Down
    } else if down_right == target {
        Direction::DownRight
    } else if left == target {
        Direction::Left
    } else if right == target {
        Direction::Right
    } else if up == target {
        Direction::Up
    } else if up_left == target {
        Direction::UpLeft
    } else if up_right == target {
        Direction::UpRight
    } else {
        Direction::Stay
    }
}

fn sand_enters(t: ParticleType) -> (r: bool)
    ensures
        r == sand_can_enter(t),
{
    match t {
        ParticleType::Empty | ParticleType::Water => true,
        ParticleType::Wall | ParticleType::Sand | ParticleType::Plant | ParticleType::Fire => false,
    }
}

fn is_empty(t: ParticleType) -> (r: bool)
    ensures
        r == (t == ParticleType::Empty),
{
    match t {
        ParticleType::Empty => true,
        _ => false,
    }
}

/// Resolves the move of a grain of sand.
pub fn sand_direction(
    down_left: ParticleType,
    down: ParticleType,
    down_right: ParticleType,
    right: bool,
) -> (r: Direction)
    ensures
        r == spec_sand_direction(down_left, down, down_right, right),
{
    let tie = (is_empty(down_left) && is_empty(down_right)) || (down_left == ParticleType::Water
        && down_right == ParticleType::Water);
    if sand_enters(down) {
        Direction::Down
    } else if tie {
        if right {
            Direction::DownRight
        } else {
            Direction::DownLeft
        }
    } else if sand_enters(down_left) {
        Direction::DownLeft
    } else if sand_enters(down_right) {
        Direction::DownRight
    } else {
        Direction::Stay
    }
}

/// Resolves the move of a drop of water.
pub fn water_direction(
    down_left: ParticleType,
    down: ParticleType,
    down_right: ParticleType,
    left: ParticleType,
    right_side: ParticleType,
    right: bool,
) -> (r: Direction)
    ensures
        r == spec_water_direction(down_left, down, down_right, left, right_side, right),
{
    if is_empty(down) {
        Direction::Down
    } else if is_empty(left) && is_empty(right_side) {
        if right {
            Direction::Right
        } else {
            Direction::Left
        }
    } else if is_empty(left) {
        Direction::Left
    } else if is_empty(right_side) {
        Direction::Right
    } else if is_empty(down_left) && is_empty(down_right) {
        if right {
            Direction::DownRight
        } else {
            Direction::DownLeft
        }
    } else if is_empty(down_left) {
        Direction::DownLeft
    } else if is_empty(down_right) {
        Direction::DownRight
    } else {
        Direction::Stay
    }
}

/// Finds the first neighbour, in the fixed scan order, that holds `target`.
pub fn first_match(
    down_left: ParticleType,
    down: ParticleType,
    down_right: ParticleType,
    left: ParticleType,
    right: ParticleType,
    up: ParticleType,
    up_left: ParticleType,
    up_right: ParticleType,
    target: ParticleType,
) -> (r: Direction)
    ensures
        r == spec_first_match(
            down_left,
            down,
            down_right,
            left,
            right,
            up,
            up_left,
            up_right,
            target,
        ),
{
    if down_left == target {
        Direction::DownLeft
    } else if down == target {
        Direction::Down
    } else if down_right == target {
        Direction::DownRight
    } else if left == target {
        Direction::Left
    } else if right == target {
        Direction::Right
    } else if up == target {
        Direction::Up
    } else if up_left == target {
        Direction::UpLeft
    } else if up_right == target {
        Direction::UpRight
    } else {
        Direction::Stay
    }
}

} // verus!
