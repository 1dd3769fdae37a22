use vstd::prelude::*;
use crate::cell::{next_state, State};
use crate::frame::{cells_after, quits, run_after, RunState, SPACE};
use crate::grid::{live_neighbors, rectangular, seeded_grid, step, width_of, Cells};
use crate::rng::nth_draw;

verus! {

/// A board of the given shape whose cells are all in one state.
pub open spec fn uniform(width: nat, height: nat, state: State) -> Cells {
    Seq::new(height, |r: int| Seq::new(width, |c: int| state))
}

/// The live cells of `g` are exactly the four of the square whose upper left
/// corner is `(r, c)`, and the square lies on the board.
pub open spec fn is_block(g: Cells, r: int, c: int) -> bool {
    &&& rectangular(g)
    &&& 0 <= r && r + 1 < g.len()
    &&& 0 <= c && c + 1 < width_of(g)
    &&& forall|i: int, j: int|
        0 <= i < g.len() && 0 <= j < width_of(g) ==> ((#[trigger] g[i][j] == State::Alive) <==> (r
            <= i <= r + 1 && c <= j <= c + 1))
}

/// The live cells of `g` are exactly the three in row `r` around column `c`,
/// and the cells above and below the middle one lie on the board.
pub open spec fn is_flat_blinker(g: Cells, r: int, c: int) -> bool {
    &&& rectangular(g)
    &&& 1 <= r && r + 1 < g.len()
    &&& 1 <= c && c + 1 < width_of(g)
    &&& forall|i: int, j: int|
        0 <= i < g.len() && 0 <= j < width_of(g) ==> ((#[trigger] g[i][j] == State::Alive) <==> (i
            == r && c - 1 <= j <= c + 1))
}

/// The live cells of `g` are exactly the three in column `c` around row `r`,
/// and the cells left and right of the middle one lie on the board.
pub open spec fn is_upright_blinker(g: Cells, r: int, c: int) -> bool {
    &&& rectangular(g)
    &&& 1 <= r && r + 1 < g.len()
    &&& 1 <= c && c + 1 < width_of(g)
    &&& forall|i: int, j: int|
        0 <= i < g.len() && 0 <= j < width_of(g) ==> ((#[trigger] g[i][j] == State::Alive) <==> (j
            == c && r - 1 <= i <= r + 1))
}

/// The rule, case by case: with up to eight live neighbours a live cell
/// survives on two or three, and a dead cell comes alive on three.
pub proof fn lemma_rule_table(live: int)
    requires
        0 <= live <= 8,
    ensures
        next_state(State::Alive, live) == (if live == 2 || live == 3 {
            State::Alive
        } else {
            State::Died
        }),
        next_state(State::Died, live) == (if live == 3 {
            State::Alive
        } else {
            State::Died
        }),
        next_state(State::Alive, 0) == State::Died,
        next_state(State::Alive, 1) == State::Died,
        next_state(State::Alive, 2) == State::Alive,
        next_state(State::Alive, 3) == State::Alive,
        next_state(State::Alive, 4) == State::Died,
        next_state(State::Alive, 5) == State::Died,
        next_state(State::Alive, 6) == State::Died,
        next_state(State::Alive, 7) == State::Died,
        next_state(State::Alive, 8) == State::Died,
        next_state(State::Died, 0) == State::Died,
        next_state(State::Died, 1) == State::Died,
        next_state(State::Died, 2) == State::Died,
        next_state(State::Died, 3) == State::Alive,
        next_state(State::Died, 4) == State::Died,
        next_state(State::Died, 5) == State::Died,
        next_state(State::Died, 6) == State::Died,
        next_state(State::Died, 7) == State::Died,
        next_state(State::Died, 8) == State::Died,
{
}

/// No cell has more than eight live neighbours, whatever the board.
pub proof fn lemma_neighbors_bounded(g: Cells, i: int, j: int)
    ensures
        0 <= live_neighbors(g, i, j) <= 8,
{
}

/// Cells on the rim have fewer neighbours, since nothing lies beyond an edge:
/// at most five on an edge, at most three in a corner, and at most two on a
/// board that is a single row or a single column, where no cell is counted
/// twice.
pub proof fn lemma_rim_neighbors(g: Cells, i: int, j: int)
    requires
        rectangular(g),
        0 <= i < g.len(),
        0 <= j < width_of(g),
    ensures
        (i == 0 || i == g.len() - 1 || j == 0 || j == width_of(g) - 1) ==> live_neighbors(g, i, j)
            <= 5,
        (i == 0 || i == g.len() - 1) && (j == 0 || j == width_of(g) - 1) ==> live_neighbors(
            g,
            i,
            j,
        ) <= 3,
        g.len() == 1 || width_of(g) == 1 ==> live_neighbors(g, i, j) <= 2,
        g.len() == 1 && width_of(g) == 1 ==> live_neighbors(g, i, j) == 0,
{
    lemma_known_neighbors(g, i, j);
}

/// The next generation has the shape of the board it comes from.
pub proof fn lemma_step_keeps_shape(g: Cells)
    ensures
        step(g).len() == g.len(),
        forall|r: int| 0 <= r < g.len() ==> (#[trigger] step(g)[r]).len() == g[r].len(),
        rectangular(g) ==> rectangular(step(g)) && width_of(step(g)) == width_of(g),
{
    if g.len() > 0 {
        assert(step(g)[0].len() == g[0].len());
    }
}

/// On a board of a single cell that cell has no neighbour, and after one
/// generation it is dead, whatever it was.
pub proof fn lemma_single_cell_dies(g: Cells)
    requires
        g.len() == 1,
        g[0].len() == 1,
    ensures
        live_neighbors(g, 0, 0) == 0,
        step(g) == uniform(1, 1, State::Died),
{
    assert(step(g) =~~= uniform(1, 1, State::Died));
}

/// A square of four live cells on an otherwise dead board stays as it is
/// from one generation to the next. That holds also where the square touches
/// an edge: beyond an edge there is nothing to count.
pub proof fn lemma_block_is_stable(g: Cells, r: int, c: int)
    requires
        is_block(g, r, c),
    ensures
        step(g) == g,
{
    assert forall|i: int, j: int| 0 <= i < g.len() && 0 <= j < g[i].len() implies step(g)[i][j]
        == g[i][j] by {
        lemma_known_neighbors(g, i, j);
    }
    assert(step(g) =~~= g);
}

/// Three live cells in a row turn into three in a column through the same
/// middle cell.
pub proof fn lemma_flat_blinker_turns_upright(g: Cells, r: int, c: int)
    requires
        is_flat_blinker(g, r, c),
    ensures
        is_upright_blinker(step(g), r, c),
{
    lemma_step_keeps_shape(g);
    let h = step(g);
    assert forall|i: int, j: int| 0 <= i < h.len() && 0 <= j < width_of(h) implies ((
    #[trigger] h[i][j] == State::Alive) <==> (j == c && r - 1 <= i <= r + 1)) by {
        lemma_known_neighbors(g, i, j);
    }
}

/// Three live cells in a column turn into three in a row through the same
/// middle cell.
pub proof fn lemma_upright_blinker_turns_flat(g: Cells, r: int, c: int)
    requires
        is_upright_blinker(g, r, c),
    ensures
        is_flat_blinker(step(g), r, c),
{
    lemma_step_keeps_shape(g);
    let h = step(g);
    assert forall|i: int, j: int| 0 <= i < h.len() && 0 <= j < width_of(h) implies ((
    #[trigger] h[i][j] == State::Alive) <==> (i == r && c - 1 <= j <= c + 1)) by {
        lemma_known_neighbors(g, i, j);
    }
}

/// A blinker away from the edges comes back after two generations: the first
/// turns the row of three into a column of three, the second turns it back.
pub proof fn lemma_blinker_has_period_two(g: Cells, r: int, c: int)
    requires
        is_flat_blinker(g, r, c),
    ensures
        is_upright_blinker(step(g), r, c),
        step(step(g)) == g,
{
    lemma_flat_blinker_turns_upright(g, r, c);
    lemma_upright_blinker_turns_flat(step(g), r, c);
    lemma_step_keeps_shape(g);
    lemma_step_keeps_shape(step(g));
    let k = step(step(g));
    assert forall|i: int, j: int| 0 <= i < g.len() && 0 <= j < g[i].len() implies k[i][j]
        == g[i][j] by {
        assert((k[i][j] == State::Alive) <==> (g[i][j] == State::Alive));
    }
    assert(k =~~= g);
}

/// Brings the eight cells around `(i, j)` into view.
proof fn lemma_known_neighbors(g: Cells, i: int, j: int)
    requires
        rectangular(g),
        0 <= i < g.len(),
        0 <= j < width_of(g),
    ensures
        step(g)[i][j] == next_state(g[i][j], live_neighbors(g, i, j)),
        live_neighbors(g, i, j) == lit(g, i - 1, j - 1) + lit(g, i - 1, j) + lit(g, i - 1, j + 1)
            + lit(g, i, j - 1) + lit(g, i, j + 1) + lit(g, i + 1, j - 1) + lit(g, i + 1, j) + lit(
            g,
            i + 1,
            j + 1,
        ),
{
}

/// 1 for a live cell of a rectangular board, 0 for a dead one or none.
spec fn lit(g: Cells, r: int, c: int) -> int {
    if 0 <= r < g.len() && 0 <= c < width_of(g) && g[r][c] == State::Alive {
        1
    } else {
        0
    }
}

/// With a live rate of 100 every cell of a seeded board is alive, whatever
/// the seed.
pub proof fn lemma_full_rate_all_alive(width: nat, height: nat, seed: u64)
    ensures
        seeded_grid(width, height, 100, seed) == uniform(width, height, State::Alive),
{
    assert(seeded_grid(width, height, 100, seed) =~~= uniform(width, height, State::Alive));
}

/// With a live rate of 0 a cell of a seeded board is alive exactly when its
/// number is a multiple of 100; where no cell has such a number the board is
/// entirely dead.
pub proof fn lemma_zero_rate_dead_but_multiples(width: nat, height: nat, seed: u64)
    ensures
        forall|r: int, c: int|
            0 <= r < height && 0 <= c < width ==> ((#[trigger] seeded_grid(
                width,
                height,
                0,
                seed,
            )[r][c] == State::Alive) <==> nth_draw(seed, (r * width + c) as nat) % 100 == 0),
        (forall|r: int, c: int|
            0 <= r < height && 0 <= c < width ==> #[trigger] nth_draw(
                seed,
                (r * width + c) as nat,
            ) % 100 != 0) ==> seeded_grid(width, height, 0, seed) == uniform(
            width,
            height,
            State::Died,
        ),
{
    if forall|r: int, c: int|
        0 <= r < height && 0 <= c < width ==> #[trigger] nth_draw(seed, (r * width + c) as nat)
            % 100 != 0 {
        assert(seeded_grid(width, height, 0, seed) =~~= uniform(width, height, State::Died));
    }
}

/// Two frames in a row that each see the space key leave the run state as it
/// was. Starting from a running loop, the board does not advance in the frame
/// of the first of them, nor in any key-less frame before the second. A
/// paused loop resumes with the first space and advances in that very frame.
pub proof fn lemma_double_toggle(run: RunState, g: Cells)
    ensures
        !quits(Some(SPACE)),
        run_after(run_after(run, Some(SPACE)), Some(SPACE)) == run,
        run == RunState::Running ==> cells_after(run, Some(SPACE), g) == g,
        run == RunState::Running ==> cells_after(run_after(run, Some(SPACE)), None, g) == g,
        run == RunState::Paused ==> cells_after(run, Some(SPACE), g) == step(g),
{
}

} // verus!
