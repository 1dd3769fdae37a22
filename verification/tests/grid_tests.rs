use game_of_life::cell::State;
use game_of_life::grid::GameOfLife;
use game_of_life::rng::RandomSeeder;

const A: State = State::Alive;
const D: State = State::Died;

fn game(rows: Vec<Vec<State>>) -> GameOfLife {
    GameOfLife::from_rows(rows).expect("rows of equal length")
}

fn rows_of(game: &GameOfLife) -> Vec<Vec<State>> {
    let mut rows = Vec::new();
    for r in 0..game.height() {
        let mut row = Vec::new();
        for c in 0..game.width() {
            row.push(game.get(r, c).expect("inside the board"));
        }
        rows.push(row);
    }
    rows
}

#[test]
fn rule_table_is_exhaustive() {
    for live in 0u8..=8 {
        let from_alive = if live == 2 || live == 3 { A } else { D };
        let from_dead = if live == 3 { A } else { D };
        assert_eq!(A.next(live), from_alive);
        assert_eq!(D.next(live), from_dead);
    }
}

#[test]
fn single_cell_always_dies() {
    for start in [A, D] {
        let mut g = game(vec![vec![start]]);
        assert_eq!(g.count_neighbors(0, 0), 0);
        g.update();
        assert_eq!(rows_of(&g), vec![vec![D]]);
    }
}

#[test]
fn full_three_by_three_keeps_only_corners() {
    let mut g = game(vec![vec![A; 3]; 3]);
    assert_eq!(g.count_neighbors(1, 1), 8);
    assert_eq!(g.count_neighbors(0, 0), 3);
    assert_eq!(g.count_neighbors(0, 2), 3);
    assert_eq!(g.count_neighbors(2, 0), 3);
    assert_eq!(g.count_neighbors(2, 2), 3);
    assert_eq!(g.count_neighbors(0, 1), 5);
    assert_eq!(g.count_neighbors(1, 0), 5);
    assert_eq!(g.count_neighbors(1, 2), 5);
    assert_eq!(g.count_neighbors(2, 1), 5);
    g.update();
    assert_eq!(rows_of(&g), vec![vec![A, D, A], vec![D, D, D], vec![A, D, A]]);
}

#[test]
fn block_is_stable() {
    let rows = vec![
        vec![D, D, D, D],
        vec![D, A, A, D],
        vec![D, A, A, D],
        vec![D, D, D, D],
    ];
    let mut g = game(rows.clone());
    g.update();
    assert_eq!(rows_of(&g), rows);
    g.update();
    assert_eq!(rows_of(&g), rows);
}

#[test]
fn blinker_has_period_two() {
    let flat = vec![
        vec![D, D, D, D, D],
        vec![D, D, D, D, D],
        vec![D, A, A, A, D],
        vec![D, D, D, D, D],
        vec![D, D, D, D, D],
    ];
    let upright = vec![
        vec![D, D, D, D, D],
        vec![D, D, A, D, D],
        vec![D, D, A, D, D],
        vec![D, D, A, D, D],
        vec![D, D, D, D, D],
    ];
    let mut g = game(flat.clone());
    g.update();
    assert_eq!(rows_of(&g), upright);
    g.update();
    assert_eq!(rows_of(&g), flat);
}

#[test]
fn single_row_and_single_column_count_each_cell_once() {
    let g = game(vec![vec![A, A, A]]);
    assert_eq!(g.count_neighbors(0, 0), 1);
    assert_eq!(g.count_neighbors(0, 1), 2);
    assert_eq!(g.count_neighbors(0, 2), 1);
    let mut g = game(vec![vec![A], vec![A], vec![A]]);
    assert_eq!(g.count_neighbors(0, 0), 1);
    assert_eq!(g.count_neighbors(1, 0), 2);
    assert_eq!(g.count_neighbors(2, 0), 1);
    g.update();
    assert_eq!(rows_of(&g), vec![vec![D], vec![A], vec![D]]);
}

#[test]
fn update_reads_only_the_old_generation() {
    // One phase of a glider: written in place, the cells of the upper rows
    // would already have changed when the lower rows count them.
    let mut g = game(vec![
        vec![D, A, D, D],
        vec![D, D, A, D],
        vec![A, A, A, D],
        vec![D, D, D, D],
    ]);
    g.update();
    assert_eq!(
        rows_of(&g),
        vec![
            vec![D, D, D, D],
            vec![A, D, A, D],
            vec![D, A, A, D],
            vec![D, A, D, D],
        ]
    );
}

#[test]
fn from_rows_rejects_ragged_rows() {
    assert!(GameOfLife::from_rows(vec![vec![A, D], vec![A]]).is_none());
    assert!(GameOfLife::from_rows(vec![vec![], vec![A]]).is_none());
    assert!(GameOfLife::from_rows(vec![]).is_some());
    assert!(GameOfLife::from_rows(vec![vec![], vec![]]).is_some());
}

#[test]
fn get_is_none_beyond_the_board() {
    let g = game(vec![vec![A, D], vec![D, A]]);
    assert_eq!(g.width(), 2);
    assert_eq!(g.height(), 2);
    assert_eq!(g.get(0, 0), Some(A));
    assert_eq!(g.get(0, 1), Some(D));
    assert_eq!(g.get(1, 1), Some(A));
    assert_eq!(g.get(2, 0), None);
    assert_eq!(g.get(0, 2), None);
}

#[test]
fn empty_boards_update_to_themselves() {
    let mut g = game(vec![]);
    g.update();
    assert_eq!(g.height(), 0);
    assert_eq!(g.width(), 0);
    let mut g = GameOfLife::new(0, 3, 50, 1);
    g.update();
    assert_eq!(g.height(), 3);
    assert_eq!(g.width(), 0);
}

#[test]
fn from_draw_compares_inclusively() {
    assert_eq!(State::from_draw(0, 0), A);
    assert_eq!(State::from_draw(1, 0), D);
    assert_eq!(State::from_draw(100, 0), A);
    assert_eq!(State::from_draw(60, 60), A);
    assert_eq!(State::from_draw(61, 60), D);
    assert_eq!(State::from_draw(260, 60), A);
    assert_eq!(State::from_draw(299, 98), D);
    assert_eq!(State::from_draw(99, 99), A);
    assert_eq!(State::from_draw(u32::MAX, 100), A);
    // u32::MAX = 4294967295, which is 95 modulo 100
    assert_eq!(State::from_draw(u32::MAX, 94), D);
    assert_eq!(State::from_draw(u32::MAX, 95), A);
}

#[test]
fn full_rate_gives_all_alive() {
    for seed in [0u64, 1, 42, u64::MAX] {
        let g = GameOfLife::new(7, 5, 100, seed);
        assert_eq!(rows_of(&g), vec![vec![A; 7]; 5]);
    }
}

#[test]
fn new_follows_the_generator_row_by_row() {
    for (seed, rate) in [(0u64, 0u32), (7, 60), (123456789, 30), (99, 99)] {
        let g = GameOfLife::new(6, 4, rate, seed);
        let mut generator = oorandom::Rand32::new(seed);
        let mut alive = 0;
        for r in 0..4 {
            for c in 0..6 {
                let expected = if generator.rand_u32() % 100 <= rate { A } else { D };
                if expected == A {
                    alive += 1;
                }
                assert_eq!(g.get(r, c), Some(expected));
            }
        }
        assert_eq!(g.height(), 4);
        assert_eq!(g.width(), 6);
        if rate == 99 {
            assert_eq!(alive, 24);
        }
    }
}

#[test]
fn zero_rate_keeps_cells_whose_draw_is_a_multiple_of_hundred() {
    let seed = 5u64;
    let g = GameOfLife::new(40, 40, 0, seed);
    let mut generator = oorandom::Rand32::new(seed);
    let mut alive = 0;
    for r in 0..40 {
        for c in 0..40 {
            let expected = if generator.rand_u32() % 100 == 0 { A } else { D };
            if expected == A {
                alive += 1;
            }
            assert_eq!(g.get(r, c), Some(expected));
        }
    }
    assert!(alive > 0);
    assert!(alive < 1600);
}

#[test]
fn seeder_hands_out_the_generator_stream() {
    for seed in [0u64, 1, 0xdead_beef, u64::MAX] {
        let mut seeder = RandomSeeder::new(seed);
        let mut generator = oorandom::Rand32::new(seed);
        let mut numbers = Vec::new();
        for _ in 0..50 {
            let number = seeder.draw();
            assert_eq!(number, generator.rand_u32());
            numbers.push(number);
        }
        assert!(numbers.iter().any(|n| *n != numbers[0]));
        assert!(numbers.iter().any(|n| u64::from(*n) != seed));
    }
}

#[test]
fn different_seeds_give_different_boards() {
    let a = GameOfLife::new(20, 20, 50, 1);
    let b = GameOfLife::new(20, 20, 50, 2);
    assert_ne!(rows_of(&a), rows_of(&b));
    let again = GameOfLife::new(20, 20, 50, 1);
    assert_eq!(rows_of(&a), rows_of(&again));
}

#[test]
fn block_in_a_corner_is_stable_too() {
    let rows = vec![vec![A, A, D], vec![A, A, D], vec![D, D, D]];
    let mut g = game(rows.clone());
    g.update();
    assert_eq!(rows_of(&g), rows);
    let rows = vec![vec![A, A], vec![A, A]];
    let mut g = game(rows.clone());
    g.update();
    assert_eq!(rows_of(&g), rows);
}

#[test]
fn blinker_next_to_the_edges_still_turns() {
    let flat = vec![vec![D, D, D], vec![A, A, A], vec![D, D, D]];
    let upright = vec![vec![D, A, D], vec![D, A, D], vec![D, A, D]];
    let mut g = game(flat.clone());
    g.update();
    assert_eq!(rows_of(&g), upright);
    g.update();
    assert_eq!(rows_of(&g), flat);
}
