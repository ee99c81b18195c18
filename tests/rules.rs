use sand_game::{
    color, encode_frame, first_match, sand_direction, water_direction, Direction, Particle,
    ParticleType,
};

use ParticleType::{Empty, Fire, Plant, Sand, Wall, Water};

#[test]
fn codes_round_trip() {
    for code in 0..6u8 {
        assert_eq!(ParticleType::from_code(code).code(), code);
    }
    assert_eq!(ParticleType::from_code(3), Water);
    assert_eq!(ParticleType::from_code(6), Empty);
    assert_eq!(ParticleType::from_code(255), Empty);
    assert_eq!(Fire.code(), 5);
}

#[test]
fn sand_directions() {
    assert_eq!(sand_direction(Wall, Empty, Wall, false), Direction::Down);
    assert_eq!(sand_direction(Wall, Water, Wall, true), Direction::Down);
    assert_eq!(sand_direction(Empty, Sand, Empty, false), Direction::DownLeft);
    assert_eq!(sand_direction(Empty, Sand, Empty, true), Direction::DownRight);
    assert_eq!(sand_direction(Water, Wall, Water, true), Direction::DownRight);
    assert_eq!(sand_direction(Empty, Wall, Water, true), Direction::DownLeft);
    assert_eq!(sand_direction(Plant, Sand, Water, false), Direction::DownRight);
    assert_eq!(sand_direction(Wall, Sand, Fire, true), Direction::Stay);
}

#[test]
fn water_directions() {
    assert_eq!(water_direction(Wall, Empty, Wall, Wall, Wall, true), Direction::Down);
    assert_eq!(water_direction(Empty, Sand, Empty, Empty, Empty, false), Direction::Left);
    assert_eq!(water_direction(Empty, Sand, Empty, Empty, Empty, true), Direction::Right);
    assert_eq!(water_direction(Empty, Sand, Empty, Empty, Wall, true), Direction::Left);
    assert_eq!(water_direction(Empty, Sand, Empty, Wall, Empty, false), Direction::Right);
    assert_eq!(water_direction(Empty, Sand, Empty, Wall, Wall, false), Direction::DownLeft);
    assert_eq!(water_direction(Empty, Sand, Empty, Wall, Wall, true), Direction::DownRight);
    assert_eq!(water_direction(Water, Sand, Empty, Wall, Wall, false), Direction::DownRight);
    assert_eq!(water_direction(Water, Water, Water, Water, Water, true), Direction::Stay);
}

#[test]
fn first_match_scans_in_order() {
    let all = [Water; 8];
    assert_eq!(
        first_match(all[0], all[1], all[2], all[3], all[4], all[5], all[6], all[7], Water),
        Direction::DownLeft
    );
    assert_eq!(
        first_match(Wall, Wall, Wall, Wall, Wall, Wall, Wall, Plant, Plant),
        Direction::UpRight
    );
    assert_eq!(
        first_match(Sand, Sand, Sand, Plant, Plant, Sand, Sand, Sand, Plant),
        Direction::Left
    );
    assert_eq!(
        first_match(Sand, Sand, Sand, Sand, Sand, Water, Water, Sand, Water),
        Direction::Up
    );
    assert_eq!(
        first_match(Sand, Sand, Sand, Sand, Sand, Sand, Sand, Sand, Water),
        Direction::Stay
    );
}

#[test]
fn color_table() {
    assert_eq!(color(Empty), (0, 0, 0));
    assert_eq!(color(Wall), (220, 220, 220));
    assert_eq!(color(Sand), (194, 178, 128));
    assert_eq!(color(Water), (128, 197, 222));
    assert_eq!(color(Plant), (50, 205, 50));
    assert_eq!(color(Fire), (170, 16, 0));
}

#[test]
fn frame_is_three_bytes_per_cell() {
    let cells = [
        Particle { p_type: Water },
        Particle { p_type: Plant },
        Particle { p_type: Empty },
    ];
    assert_eq!(encode_frame(&cells), vec![128, 197, 222, 50, 205, 50, 0, 0, 0]);
    assert_eq!(encode_frame(&[]), Vec::<u8>::new());
}
