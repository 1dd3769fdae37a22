use vstd::prelude::*;
use crate::cell::{next_state, seeded_cell, State};
use crate::rng::{nth_draw, state_before, RandomSeeder};

verus! {

/// The boards are sequences of rows, each row a sequence of cells.
pub type Cells = Seq<Seq<State>>;

/// Number of columns of a board; a board without rows has none.
pub open spec fn width_of(g: Cells) -> nat {
    if g.len() == 0 {
        0
    } else {
        g[0].len()
    }
}

/// Every row has the same length.
pub open spec fn rectangular(g: Cells) -> bool {
    forall|r: int| 0 <= r < g.len() ==> (#[trigger] g[r]).len() == width_of(g)
}

/// 1 when `(r, c)` lies on the board and is alive there, else 0. Positions
/// beyond an edge count as nothing: the edges are clamped, the board does not
/// wrap around.
pub open spec fn alive_at(g: Cells, r: int, c: int) -> int {
    if 0 <= r < g.len() && 0 <= c < g[r].len() && g[r][c] == State::Alive {
        1
    } else {
        0
    }
}

/// Live cells in row `r` among the columns `j - 1`, `j`, `j + 1`, leaving out
/// the cell `(i, j)` itself.
pub open spec fn row_neighbors(g: Cells, r: int, i: int, j: int) -> int {
    alive_at(g, r, j - 1) + (if r != i {
        alive_at(g, r, j)
    } else {
        0
    }) + alive_at(g, r, j + 1)
}

/// Live cells among the up to eight cells around `(i, j)`.
pub open spec fn live_neighbors(g: Cells, i: int, j: int) -> int {
    row_neighbors(g, i - 1, i, j) + row_neighbors(g, i, i, j) + row_neighbors(g, i + 1, i, j)
}

/// The next generation: every cell follows the rule on its own state and its
/// live neighbours in `g`.
pub open spec fn step(g: Cells) -> Cells {
    Seq::new(
        g.len(),
        |r: int| Seq::new(g[r].len(), |c: int| next_state(g[r][c], live_neighbors(g, r, c))),
    )
}

/// The board of `height` rows and `width` columns that a seed gives: the
/// cells take the generator's numbers row by row.
pub open spec fn seeded_grid(width: nat, height: nat, rate: u32, seed: u64) -> Cells {
    Seq::new(
        height,
        |r: int| Seq::new(width, |c: int| seeded_cell(nth_draw(seed, (r * width + c) as nat), rate)),
    )
}

/// The part of `row_neighbors` that lies in columns before `c`.
spec fn cols_before(g: Cells, r: int, i: int, j: int, c: int) -> int {
    (if j - 1 < c {
        alive_at(g, r, j - 1)
    } else {
        0
    }) + (if j < c && r != i {
        alive_at(g, r, j)
    } else {
        0
    }) + (if j + 1 < c {
        alive_at(g, r, j + 1)
    } else {
        0
    })
}

/// The part of `live_neighbors` that lies in rows before `r`.
spec fn rows_before(g: Cells, i: int, j: int, r: int) -> int {
    (if i - 1 < r {
        row_neighbors(g, i - 1, i, j)
    } else {
        0
    }) + (if i < r {
        row_neighbors(g, i, i, j)
    } else {
        0
    }) + (if i + 1 < r {
        row_neighbors(g, i + 1, i, j)
    } else {
        0
    })
}

/// A board with a second buffer of the same shape, into which each new
/// generation is computed before it replaces the board.
pub struct GameOfLife {
    board: Vec<Vec<State>>,
    temp: Vec<Vec<State>>,
}

impl View for GameOfLife {
    type V = Cells;

    closed spec fn view(&self) -> Cells {
        rows_cells(self.board)
    }
}

fn blank_rows(width: usize, height: usize) -> (rows: Vec<Vec<State>>)
    ensures
        rows@.len() == height,
        forall|r: int| 0 <= r < height ==> (#[trigger] rows@[r])@.len() == width,
        forall|r: int, c: int|
            0 <= r < height && 0 <= c < width ==> (#[trigger] rows@[r]@[c]) == State::Died,
{
    let mut rows: Vec<Vec<State>> = Vec::new();
    let mut i: usize = 0;
    while i < height
        invariant
            i <= height,
            rows@.len() == i,
            forall|r: int| 0 <= r < i ==> (#[trigger] rows@[r])@.len() == width,
            forall|r: int, c: int|
                0 <= r < i && 0 <= c < width ==> (#[trigger] rows@[r]@[c]) == State::Died,
        decreases height - i,
    {
        let mut row: Vec<State> = Vec::new();
        let mut j: usize = 0;
        while j < width
            invariant
                j <= width,
                row@.len() == j,
                forall|c: int| 0 <= c < j ==> (#[trigger] row@[c]) == State::Died,
            decreases width - j,
        {
            row.push(State::Died);
            j += 1;
        }
        rows.push(row);
        i += 1;
    }
    rows
}

impl GameOfLife {
    /// Both buffers have the board's shape, and the board is rectangular.
    pub closed spec fn wf(&self) -> bool {
        &&& rectangular(self@)
        &&& self.temp@.len() == self.board@.len()
        &&& forall|r: int|
            0 <= r < self.board@.len() ==> (#[trigger] self.temp@[r])@.len()
                == self.board@[r]@.len()
    }

    /// A valid game holds a rectangular board.
    pub proof fn lemma_wf_rectangular(&self)
        requires
            self.wf(),
        ensures
            rectangular(self@),
    {
    }

    /// A board of `height` rows and `width` columns, filled row by row from
    /// the stream of numbers that `seed` starts: a cell is alive exactly when
    /// its number, reduced to `0..100`, is at most `alive_rate_percentage`.
    pub fn new(width: usize, height: usize, alive_rate_percentage: u32, seed: u64) -> (game:
        GameOfLife)
        requires
            alive_rate_percentage <= 100,
        ensures
            game.wf(),
            game@ == seeded_grid(width as nat, height as nat, alive_rate_percentage, seed),
            alive_rate_percentage == 100 ==> game@ == Seq::new(
                height as nat,
                |r: int| Seq::new(width as nat, |c: int| State::Alive),
            ),
    {
        let mut seeder = RandomSeeder::new(seed);
        let ghost mut n: nat = 0;
        let mut board: Vec<Vec<State>> = Vec::new();
        let mut i: usize = 0;
        while i < height
            invariant
                i <= height,
                board@.len() == i,
                n == i * width,
                seeder.saved() == state_before(seed, n),
                forall|r: int| 0 <= r < i ==> (#[trigger] board@[r])@.len() == width,
                forall|r: int, c: int|
                    0 <= r < i && 0 <= c < width ==> (#[trigger] board@[r]@[c]) == seeded_cell(
                        nth_draw(seed, (r * width + c) as nat),
                        alive_rate_percentage,
                    ),
            decreases height - i,
        {
            let mut row: Vec<State> = Vec::new();
            let mut j: usize = 0;
            while j < width
                invariant
                    j <= width,
                    row@.len() == j,
                    n == i * width + j,
                    seeder.saved() == state_before(seed, n),
                    forall|c: int|
                        0 <= c < j ==> (#[trigger] row@[c]) == seeded_cell(
                            nth_draw(seed, (i * width + c) as nat),
                            alive_rate_percentage,
                        ),
                decreases width - j,
            {
                let number = seeder.draw();
                row.push(State::from_draw(number, alive_rate_percentage));
                proof {
                    n = n + 1;
                }
                j += 1;
            }
            board.push(row);
            proof {
                assert((i + 1) * width == i * width + width) by (nonlinear_arith);
            }
            i += 1;
        }
        let temp = blank_rows(width, height);
        let game = GameOfLife { board, temp };
        proof {
            assert(game@ =~~= seeded_grid(
                width as nat,
                height as nat,
                alive_rate_percentage,
                seed,
            ));
            if alive_rate_percentage == 100 {
                assert(game@ =~~= Seq::new(
                    height as nat,
                    |r: int| Seq::new(width as nat, |c: int| State::Alive),
                ));
            }
        }
        game
    }

    /// A game on the given rows; `None` when they differ in length.
    pub fn from_rows(rows: Vec<Vec<State>>) -> (game: Option<GameOfLife>)
        ensures
            game.is_some() == rectangular(rows_cells(rows)),
            game.is_some() ==> game.unwrap().wf() && game.unwrap()@ == rows_cells(rows),
    {
        let height = rows.len();
        let width = if height == 0 {
            0
        } else {
            rows[0].len()
        };
        let mut i: usize = 0;
        while i < height
            invariant
                i <= height,
                height == rows@.len(),
                width == width_of(rows_cells(rows)),
                forall|r: int| 0 <= r < i ==> (#[trigger] rows_cells(rows)[r]).len() == width,
            decreases height - i,
        {
            if rows[i].len() != width {
                assert(rows_cells(rows)[i as int].len() != width);
                return None;
            }
            i += 1;
        }
        let temp = blank_rows(width, height);
        proof {
            assert forall|r: int| 0 <= r < height implies (#[trigger] temp@[r])@.len()
                == rows@[r]@.len() by {
                assert(rows_cells(rows)[r].len() == width);
            }
        }
        Some(GameOfLife { board: rows, temp })
    }

    pub fn height(&self) -> (h: usize)
        ensures
            h == self@.len(),
    {
        self.board.len()
    }

    pub fn width(&self) -> (w: usize)
        ensures
            w == width_of(self@),
    {
        if self.board.len() == 0 {
            0
        } else {
            self.board[0].len()
        }
    }

    /// The cell at `(row, col)`, or `None` beyond the board.
    pub fn get(&self, row: usize, col: usize) -> (cell: Option<State>)
        ensures
            cell.is_some() == (row < self@.len() && col < self@[row as int].len()),
            cell.is_some() ==> cell.unwrap() == self@[row as int][col as int],
    {
        if row < self.board.len() && col < self.board[row].len() {
            Some(self.board[row][col])
        } else {
            None
        }
    }

    /// The cell at `(row, col)` of the board.
    pub fn cell(&self, row: usize, col: usize) -> (cell: State)
        requires
            row < self@.len(),
            col < self@[row as int].len(),
        ensures
            cell == self@[row as int][col as int],
    {
        self.board[row][col]
    }

    /// Counts the live cells around `(i, j)`; rows and columns beyond an edge
    /// are left out.
    pub fn count_neighbors(&self, i: usize, j: usize) -> (live: u8)
        requires
            self.wf(),
            i < self@.len(),
            j < self@[i as int].len(),
        ensures
            live == live_neighbors(self@, i as int, j as int),
    {
        let ghost g = self@;
        let height = self.board.len();
        let width = self.board[i].len();
        let start_row = if i > 0 {
            i - 1
        } else {
            0
        };
        let end_row = if i < height - 1 {
            i + 1
        } else {
            height - 1
        };
        let start_col = if j > 0 {
            j - 1
        } else {
            0
        };
        let end_col = if j < width - 1 {
            j + 1
        } else {
            width - 1
        };
        let mut live: u8 = 0;
        let mut r: usize = start_row;
        while r <= end_row
            invariant
                self.wf(),
                g == self@,
                height == g.len(),
                width == width_of(g),
                i < height,
                j < width,
                start_row == if i > 0 { i - 1 } else { 0 },
                end_row == if i < height - 1 { i + 1 } else { height - 1 },
                start_col == if j > 0 { j - 1 } else { 0 },
                end_col == if j < width - 1 { j + 1 } else { width - 1 },
                start_row <= r <= end_row + 1,
                live == rows_before(g, i as int, j as int, r as int),
            decreases end_row + 1 - r,
        {
            let mut c: usize = start_col;
            while c <= end_col
                invariant
                    self.wf(),
                    g == self@,
                    height == g.len(),
                    width == width_of(g),
                    i < height,
                    j < width,
                    r <= end_row,
                    end_row < height,
                    start_col == if j > 0 { j - 1 } else { 0 },
                    end_col == if j < width - 1 { j + 1 } else { width - 1 },
                    start_col <= c <= end_col + 1,
                    live == rows_before(g, i as int, j as int, r as int) + cols_before(
                        g,
                        r as int,
                        i as int,
                        j as int,
                        c as int,
                    ),
                decreases end_col + 1 - c,
            {
                assert(g[r as int].len() == width);
                assert(g[r as int][c as int] == self.board@[r as int]@[c as int]);
                if (r != i || c != j) && self.board[r][c] == State::Alive {
                    live += 1;
                }
                c += 1;
            }
            r += 1;
        }
        live
    }

    /// Advances the board by one generation. Every new cell is computed from
    /// the old board alone.
    pub fn update(&mut self)
        requires
            old(self).wf(),
        ensures
            final(self).wf(),
            final(self)@ == step(old(self)@),
    {
        let ghost g = self@;
        let height = self.board.len();
        let mut i: usize = 0;
        while i < height
            invariant
                i <= height,
                height == g.len(),
                self.wf(),
                self@ == g,
                forall|r: int, c: int|
                    0 <= r < i && 0 <= c < g[r].len() ==> (#[trigger] self.temp@[r]@[c])
                        == next_state(g[r][c], live_neighbors(g, r, c)),
            decreases height - i,
        {
            let width = self.board[i].len();
            let mut j: usize = 0;
            while j < width
                invariant
                    i < height,
                    j <= width,
                    height == g.len(),
                    width == g[i as int].len(),
                    self.wf(),
                    self@ == g,
                    forall|r: int, c: int|
                        0 <= r < i && 0 <= c < g[r].len() ==> (#[trigger] self.temp@[r]@[c])
                            == next_state(g[r][c], live_neighbors(g, r, c)),
                    forall|c: int|
                        0 <= c < j ==> (#[trigger] self.temp@[i as int]@[c]) == next_state(
                            g[i as int][c],
                            live_neighbors(g, i as int, c),
                        ),
                decreases width - j,
            {
                let live = self.count_neighbors(i, j);
                let cell = self.board[i][j].next(live);
                self.temp[i][j] = cell;
                j += 1;
            }
            i += 1;
        }
        let mut i: usize = 0;
        while i < height
            invariant
                i <= height,
                height == g.len(),
                height == self.board@.len(),
                height == self.temp@.len(),
                forall|r: int|
                    0 <= r < height ==> (#[trigger] self.temp@[r])@.len() == g[r].len(),
                forall|r: int|
                    0 <= r < height ==> (#[trigger] self.board@[r])@.len() == g[r].len(),
                rectangular(g),
                forall|r: int, c: int|
                    0 <= r < height && 0 <= c < g[r].len() ==> (#[trigger] self.temp@[r]@[c])
                        == next_state(g[r][c], live_neighbors(g, r, c)),
                forall|r: int| 0 <= r < i ==> (#[trigger] self.board@[r])@ == self.temp@[r]@,
            decreases height - i,
        {
            let width = self.board[i].len();
            let mut j: usize = 0;
            while j < width
                invariant
                    i < height,
                    j <= width,
                    width == g[i as int].len(),
                    height == g.len(),
                    height == self.board@.len(),
                    height == self.temp@.len(),
                    forall|r: int|
                        0 <= r < height ==> (#[trigger] self.temp@[r])@.len() == g[r].len(),
                    forall|r: int|
                        0 <= r < height ==> (#[trigger] self.board@[r])@.len() == g[r].len(),
                    rectangular(g),
                    forall|r: int, c: int|
                        0 <= r < height && 0 <= c < g[r].len() ==> (
                        #[trigger] self.temp@[r]@[c]) == next_state(
                            g[r][c],
                            live_neighbors(g, r, c),
                        ),
                    forall|r: int| 0 <= r < i ==> (#[trigger] self.board@[r])@ == self.temp@[r]@,
                    forall|c: int|
                        0 <= c < j ==> (#[trigger] self.board@[i as int]@[c])
                            == self.temp@[i as int]@[c],
                decreases width - j,
            {
                self.board[i][j] = self.temp[i][j];
                j += 1;
            }
            assert(self.board@[i as int]@ =~= self.temp@[i as int]@);
            i += 1;
        }
        proof {
            assert(self@ =~~= step(g));
        }
    }
}

/// The cells that a vector of rows holds.
pub open spec fn rows_cells(rows: Vec<Vec<State>>) -> Cells {
    Seq::new(rows@.len(), |r: int| rows@[r]@)
}

} // verus!
