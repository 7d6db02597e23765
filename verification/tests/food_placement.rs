use greedy_snake::food::spawn_food;
use greedy_snake::geom::{Pos, BOUND, CELL};
use rand::SeedableRng;

fn rng(seed: u64) -> rand::rngs::StdRng {
    rand::rngs::StdRng::seed_from_u64(seed)
}

fn all_cells() -> Vec<Pos> {
    let mut v = Vec::new();
    for xi in 0..11 {
        for yi in 0..11 {
            v.push(Pos { x: xi * CELL - BOUND, y: yi * CELL - BOUND });
        }
    }
    v
}

#[test]
fn food_lands_on_a_free_grid_cell() {
    let occupied = vec![
        Pos { x: 0, y: 0 },
        Pos { x: 0, y: -20 },
        Pos { x: 0, y: -40 },
    ];
    let mut r = rng(42);
    for _ in 0..200 {
        let f = spawn_food(&occupied, &mut r).expect("the board is nearly empty");
        assert!(-BOUND <= f.x && f.x <= BOUND);
        assert!(-BOUND <= f.y && f.y <= BOUND);
        assert_eq!(f.x % CELL, 0);
        assert_eq!(f.y % CELL, 0);
        assert!(!occupied.contains(&f));
    }
}

#[test]
fn a_single_free_cell_is_the_only_choice() {
    let free = Pos { x: 60, y: -80 };
    let occupied: Vec<Pos> = all_cells().into_iter().filter(|p| *p != free).collect();
    let mut r = rng(7);
    for _ in 0..10 {
        assert_eq!(spawn_food(&occupied, &mut r), Some(free));
    }
}

#[test]
fn a_full_board_is_fatal() {
    let occupied = all_cells();
    let mut r = rng(3);
    assert_eq!(spawn_food(&occupied, &mut r), None);
}
