use sand_game::{ParticleType, SandGame};

const EMPTY: u8 = 0;
const WALL: u8 = 1;
const SAND: u8 = 2;
const WATER: u8 = 3;
const PLANT: u8 = 4;
const FIRE: u8 = 5;

fn count(game: &SandGame, t: ParticleType) -> usize {
    let mut n = 0;
    for y in 0..game.height() {
        for x in 0..game.width() {
            if game.get(x, y) == t {
                n += 1;
            }
        }
    }
    n
}

fn border_is_wall(game: &SandGame) -> bool {
    let (w, h) = (game.width(), game.height());
    for y in 0..h {
        for x in 0..w {
            let border = x == 0 || y == 0 || x == w - 1 || y == h - 1;
            if border && game.get(x, y) != ParticleType::Wall {
                return false;
            }
        }
    }
    true
}

#[test]
fn new_grid_has_wall_ring_and_empty_interior() {
    let game = SandGame::new(6, 4);
    assert_eq!(game.width(), 6);
    assert_eq!(game.height(), 4);
    assert!(border_is_wall(&game));
    for y in 1..3 {
        for x in 1..5 {
            assert_eq!(game.get(x, y), ParticleType::Empty);
        }
    }
    assert_eq!(count(&game, ParticleType::Wall), 6 * 4 - 4 * 2);
}

#[test]
fn smallest_grid_is_all_wall() {
    let mut game = SandGame::new(2, 2);
    game.step();
    assert_eq!(count(&game, ParticleType::Wall), 4);
}

#[test]
fn sand_falls_into_empty_cell() {
    let mut game = SandGame::new(5, 5);
    game.spawn(2, 1, SAND);
    game.step();
    assert_eq!(game.get(2, 2), ParticleType::Sand);
    assert_eq!(game.get(2, 1), ParticleType::Empty);
}

#[test]
fn sand_swaps_with_water_below() {
    let mut game = SandGame::new(5, 5);
    game.spawn(2, 2, SAND);
    game.spawn(2, 3, WATER);
    game.step();
    assert_eq!(game.get(2, 3), ParticleType::Sand);
    assert_eq!(game.get(2, 2), ParticleType::Water);
}

#[test]
fn enclosed_water_stays() {
    let mut game = SandGame::new(5, 5);
    game.spawn(2, 2, WATER);
    game.spawn(2, 3, WALL);
    game.spawn(1, 2, WALL);
    game.spawn(3, 2, WALL);
    game.spawn(1, 3, WALL);
    game.spawn(3, 3, WALL);
    game.step();
    assert_eq!(game.get(2, 2), ParticleType::Water);
    assert_eq!(count(&game, ParticleType::Water), 1);
}

#[test]
fn plant_grows_into_water() {
    let mut game = SandGame::new(5, 5);
    game.spawn(2, 2, PLANT);
    game.spawn(2, 3, WATER);
    game.step();
    assert_eq!(game.get(2, 2), ParticleType::Plant);
    assert_eq!(game.get(2, 3), ParticleType::Plant);
}

#[test]
fn fire_spreads_then_burns_out() {
    let mut game = SandGame::new(5, 5);
    game.spawn(2, 2, FIRE);
    game.spawn(2, 3, PLANT);
    game.step();
    assert_eq!(game.get(2, 3), ParticleType::Fire);
    for _ in 0..11 {
        game.step();
    }
    assert_eq!(game.get(2, 2), ParticleType::Empty);
}

#[test]
fn fire_burns_out_once_its_stamp_falls_behind_the_clock() {
    // The stamp of the first fire is 0; on the second tick the clock is 1,
    // so the stamp minus the clock wraps to 255, which is above ten.
    let mut game = SandGame::new(5, 5);
    game.spawn(2, 2, FIRE);
    game.step();
    assert_eq!(game.get(2, 2), ParticleType::Fire);
    game.step();
    assert_eq!(game.get(2, 2), ParticleType::Empty);
}

#[test]
fn fire_takes_only_the_first_plant_in_scan_order() {
    let mut game = SandGame::new(5, 5);
    game.spawn(2, 2, FIRE);
    game.spawn(1, 2, PLANT);
    game.spawn(3, 2, PLANT);
    game.step();
    assert_eq!(game.get(1, 2), ParticleType::Fire);
    assert_eq!(game.get(3, 2), ParticleType::Plant);
}

#[test]
fn plant_prefers_down_left_water() {
    let mut game = SandGame::new(5, 5);
    game.spawn(2, 2, PLANT);
    game.spawn(1, 3, WATER);
    game.spawn(2, 3, WATER);
    game.spawn(3, 3, WALL);
    game.step();
    assert_eq!(game.get(1, 3), ParticleType::Plant);
    assert_eq!(game.get(2, 3), ParticleType::Water);
}

#[test]
fn water_moves_sideways_when_blocked_below() {
    let mut game = SandGame::new(5, 5);
    game.spawn(2, 3, WATER);
    game.spawn(1, 3, WALL);
    game.step();
    assert_eq!(game.get(3, 3), ParticleType::Water);
    assert_eq!(game.get(2, 3), ParticleType::Empty);
}

#[test]
fn sand_slides_to_the_free_diagonal() {
    let mut game = SandGame::new(5, 5);
    game.spawn(2, 2, SAND);
    game.spawn(2, 3, WALL);
    game.spawn(1, 3, WALL);
    game.step();
    assert_eq!(game.get(3, 3), ParticleType::Sand);
    assert_eq!(game.get(2, 2), ParticleType::Empty);
}

#[test]
fn unknown_code_spawns_empty() {
    let mut game = SandGame::new(5, 5);
    game.spawn(2, 2, SAND);
    game.spawn(2, 2, 200);
    assert_eq!(game.get(2, 2), ParticleType::Empty);
    game.spawn(2, 2, WALL);
    game.spawn(2, 2, EMPTY);
    assert_eq!(game.get(2, 2), ParticleType::Empty);
}

#[test]
fn spawn_keeps_a_stale_stamp() {
    // A cell written in some tick keeps that stamp while empty. When the
    // clock comes round to one below it, a particle spawned there is taken
    // for one already moved in this tick and waits a tick.
    let mut game = SandGame::new(5, 5);
    game.spawn(2, 1, SAND);
    for _ in 0..256 {
        game.step();
    }
    assert_eq!(game.get(2, 3), ParticleType::Sand);
    game.spawn(2, 1, SAND);
    game.step();
    assert_eq!(game.get(2, 1), ParticleType::Sand);
    game.step();
    assert_eq!(game.get(2, 1), ParticleType::Empty);
    assert_eq!(game.get(2, 2), ParticleType::Sand);
}

fn busy_game() -> SandGame {
    let mut game = SandGame::new(12, 10);
    for x in 1..11 {
        game.spawn(x, 1, if x % 2 == 0 { SAND } else { WATER });
        game.spawn(x, 2, if x % 3 == 0 { WATER } else { SAND });
    }
    game.spawn(5, 7, WALL);
    game.spawn(6, 7, WALL);
    game
}

#[test]
fn border_stays_wall_over_many_ticks() {
    let mut game = busy_game();
    game.spawn(3, 8, PLANT);
    game.spawn(4, 8, FIRE);
    for _ in 0..60 {
        game.step();
        assert!(border_is_wall(&game));
    }
}

#[test]
fn sand_and_water_are_conserved() {
    let mut game = busy_game();
    let sand = count(&game, ParticleType::Sand);
    let water = count(&game, ParticleType::Water);
    let walls = count(&game, ParticleType::Wall);
    for _ in 0..40 {
        game.step();
        assert_eq!(count(&game, ParticleType::Sand), sand);
        assert_eq!(count(&game, ParticleType::Water), water);
        assert_eq!(count(&game, ParticleType::Wall), walls);
    }
}

#[test]
fn plants_never_shrink_without_fire() {
    let mut game = busy_game();
    game.spawn(4, 8, PLANT);
    game.spawn(5, 8, WATER);
    let mut plants = count(&game, ParticleType::Plant);
    for _ in 0..40 {
        game.step();
        let now = count(&game, ParticleType::Plant);
        assert!(now >= plants);
        plants = now;
    }
    assert!(plants > 1);
}

#[test]
fn fire_changes_only_by_spread_and_burn_out() {
    let mut game = SandGame::new(8, 5);
    for x in 1..7 {
        game.spawn(x, 3, PLANT);
    }
    game.spawn(1, 2, FIRE);
    for _ in 0..20 {
        let (f0, p0, w0, e0) = (
            count(&game, ParticleType::Fire) as i64,
            count(&game, ParticleType::Plant) as i64,
            count(&game, ParticleType::Water) as i64,
            count(&game, ParticleType::Empty) as i64,
        );
        game.step();
        let (f1, p1, w1, e1) = (
            count(&game, ParticleType::Fire) as i64,
            count(&game, ParticleType::Plant) as i64,
            count(&game, ParticleType::Water) as i64,
            count(&game, ParticleType::Empty) as i64,
        );
        assert_eq!(f1 - f0, (w0 - w1) + (p0 - p1) - (e1 - e0));
        assert!(e1 >= e0);
    }
    assert_eq!(count(&game, ParticleType::Plant), 0);
    assert_eq!(count(&game, ParticleType::Fire), 0);
}

#[test]
fn walls_and_empty_cells_do_not_change() {
    let mut game = SandGame::new(7, 6);
    game.spawn(2, 2, WALL);
    game.spawn(3, 4, WALL);
    game.spawn(5, 1, WALL);
    game.render();
    let before = game.framebuffer().to_vec();
    for _ in 0..5 {
        game.step();
    }
    game.render();
    assert_eq!(game.framebuffer(), &before[..]);
}

fn scripted_run() -> Vec<u8> {
    let mut game = busy_game();
    for t in 0..30u32 {
        if t % 5 == 0 {
            game.spawn(1 + t % 10, 1, WATER);
        }
        game.step();
    }
    game.render();
    game.framebuffer().to_vec()
}

#[test]
fn same_calls_give_the_same_frame() {
    let a = scripted_run();
    let b = scripted_run();
    assert_eq!(a.len(), 12 * 10 * 3);
    assert_eq!(a, b);
}

#[test]
fn tie_breaks_go_both_ways() {
    // Sand dropped on a single wall peak has two free diagonals; over many
    // grains the generator sends some to each side.
    let mut left = 0;
    let mut right = 0;
    let mut game = SandGame::new(5, 6);
    for _ in 0..40 {
        game.spawn(2, 4, WALL);
        game.spawn(1, 4, EMPTY);
        game.spawn(3, 4, EMPTY);
        game.spawn(2, 3, SAND);
        game.step();
        if game.get(1, 4) == ParticleType::Sand {
            left += 1;
        }
        if game.get(3, 4) == ParticleType::Sand {
            right += 1;
        }
    }
    assert_eq!(left + right, 40);
    assert!(left > 0);
    assert!(right > 0);
}

#[test]
fn render_encodes_colors() {
    let mut game = SandGame::new(3, 3);
    assert_eq!(game.framebuffer().len(), 27);
    assert_eq!(&game.framebuffer()[0..3], &[220, 220, 220]);
    assert_eq!(&game.framebuffer()[12..15], &[0, 0, 0]);
    game.spawn(1, 1, SAND);
    assert_eq!(&game.framebuffer()[12..15], &[0, 0, 0]);
    game.render();
    assert_eq!(&game.framebuffer()[12..15], &[194, 178, 128]);
    game.spawn(1, 1, FIRE);
    game.render();
    assert_eq!(&game.framebuffer()[12..15], &[170, 16, 0]);
}
