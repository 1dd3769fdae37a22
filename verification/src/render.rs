use vstd::prelude::*;
use crate::cell::State;
use crate::grid::{rectangular, width_of, Cells, GameOfLife};

verus! {

/// The palette: two tones for the cells, a third for the border.
#[derive(Debug, Copy, Clone, Eq, PartialEq, Structural)]
pub enum Tone {
    White,
    Black,
    Red,
}

/// One thing to paint, in pixels from the upper left corner of the surface.
#[derive(Debug, Copy, Clone, Eq, PartialEq, Structural)]
pub enum Shape {
    /// A filled square with its upper left corner at `(x, y)`.
    Square { x: i32, y: i32, side: u32, tone: Tone },
    /// A single pixel.
    Dot { x: i32, y: i32, tone: Tone },
}

/// Live cells are white, dead cells black.
pub open spec fn tone_of(state: State) -> Tone {
    match state {
        State::Alive => Tone::White,
        State::Died => Tone::Black,
    }
}

/// The square of cell `(r, c)`: its corner lies `c` cells to the right and
/// `r` cells down.
pub open spec fn cell_square(g: Cells, r: int, c: int, px: int) -> Shape {
    (Shape::Square { x: (c * px) as i32, y: (r * px) as i32, side: px as u32, tone: tone_of(g[r][c]) })
}

/// The squares of the first `n` cells of row `r`, from left to right.
pub open spec fn row_squares(g: Cells, r: int, n: nat, px: int) -> Seq<Shape>
    decreases n,
{
    if n == 0 {
        Seq::empty()
    } else {
        row_squares(g, r, (n - 1) as nat, px).push(cell_square(g, r, n - 1, px))
    }
}

/// The squares of the first `n` rows, row after row from the top.
pub open spec fn board_squares(g: Cells, n: nat, px: int) -> Seq<Shape>
    decreases n,
{
    if n == 0 {
        Seq::empty()
    } else {
        board_squares(g, (n - 1) as nat, px) + row_squares(g, n - 1, g[n - 1].len(), px)
    }
}

/// The first `n` pixels of the upper edge, each followed by the pixel of the
/// lower edge beneath it, `down` pixels further down.
pub open spec fn level_dots(n: nat, down: int) -> Seq<Shape>
    decreases n,
{
    if n == 0 {
        Seq::empty()
    } else {
        level_dots((n - 1) as nat, down).push(
            (Shape::Dot { x: (n - 1) as i32, y: 0, tone: Tone::Red }),
        ).push((Shape::Dot { x: (n - 1) as i32, y: down as i32, tone: Tone::Red }))
    }
}

/// The first `n` pixels of the left edge, each followed by the pixel of the
/// right edge beside it, `across` pixels further right.
pub open spec fn upright_dots(n: nat, across: int) -> Seq<Shape>
    decreases n,
{
    if n == 0 {
        Seq::empty()
    } else {
        upright_dots((n - 1) as nat, across).push(
            (Shape::Dot { x: 0, y: (n - 1) as i32, tone: Tone::Red }),
        ).push((Shape::Dot { x: across as i32, y: (n - 1) as i32, tone: Tone::Red }))
    }
}

/// Everything a frame paints, in order: one square per cell, then the upper
/// and lower edge of the rectangle round the board, then its left and right
/// edge. The edges are one pixel wide and run along the board's outline.
pub open spec fn frame_shapes(g: Cells, px: int) -> Seq<Shape> {
    board_squares(g, g.len(), px) + level_dots((width_of(g) * px) as nat, g.len() * px)
        + upright_dots((g.len() * px) as nat, width_of(g) * px)
}

/// A row of `n` cells gives `n` squares, and the `c`-th of them is the square
/// of cell `c`.
pub proof fn lemma_row_squares(g: Cells, r: int, n: nat, px: int)
    ensures
        row_squares(g, r, n, px).len() == n,
        forall|c: int| 0 <= c < n ==> (#[trigger] row_squares(g, r, n, px)[c]) == cell_square(g, r, c, px),
    decreases n,
{
    if n > 0 {
        lemma_row_squares(g, r, (n - 1) as nat, px);
    }
}

/// On a rectangular board the first `n` rows give `n` times the width in
/// squares, and the square of cell `(r, c)` stands at `r * width + c`.
pub proof fn lemma_board_squares(g: Cells, n: nat, px: int)
    requires
        rectangular(g),
        n <= g.len(),
    ensures
        board_squares(g, n, px).len() == n * width_of(g),
        forall|r: int, c: int|
            0 <= r < n && 0 <= c < width_of(g) ==> 0 <= r * width_of(g) + c < n * width_of(g)
                && (#[trigger] board_squares(g, n, px)[r * width_of(g) + c]) == cell_square(g, r, c, px),
    decreases n,
{
    let w = width_of(g);
    if n > 0 {
        let m = (n - 1) as nat;
        lemma_board_squares(g, m, px);
        lemma_row_squares(g, n - 1, w, px);
        assert(g[n - 1].len() == w);
        assert(n * w == m * w + w) by (nonlinear_arith)
            requires
                n == m + 1,
        ;
        assert forall|r: int, c: int| 0 <= r < n && 0 <= c < w implies 0 <= r * w + c < n * w && (
        #[trigger] board_squares(g, n, px)[r * w + c]) == cell_square(g, r, c, px) by {
            assert(0 <= r * w + c && r * w + c < n * w && (r < m ==> r * w + c < m * w)) by (nonlinear_arith)
                requires
                    0 <= r < n,
                    0 <= c < w,
                    n == m + 1,
            ;
            if r == m {
                assert(board_squares(g, n, px)[m * w + c] == row_squares(g, n - 1, w, px)[c]);
            }
        }
    }
}

impl GameOfLife {
    /// Whether the board's outline, with cells of `pixel_size` pixels, fits
    /// the coordinates that `draw` works in.
    pub fn fits(&self, pixel_size: u32) -> (ok: bool)
        requires
            self.wf(),
        ensures
            ok == (width_of(self@) * pixel_size <= i32::MAX && self@.len() * pixel_size
                <= i32::MAX),
    {
        let limit: u128 = 0x7fff_ffffu128;
        let width: u128 = self.width() as u128;
        let height: u128 = self.height() as u128;
        let side: u128 = pixel_size as u128;
        proof {
            assert(width * side <= 0x1_0000_0000_0000_0000 * 0x1_0000_0000 && height * side
                <= 0x1_0000_0000_0000_0000 * 0x1_0000_0000) by (nonlinear_arith)
                requires
                    0 <= width <= 0x1_0000_0000_0000_0000,
                    0 <= height <= 0x1_0000_0000_0000_0000,
                    0 <= side <= 0x1_0000_0000,
            ;
        }
        width * side <= limit && height * side <= limit
    }

    /// Lists what one frame paints for this board with cells of
    /// `pixel_size` pixels. The board's outline has to fit the coordinates.
    pub fn draw(&self, pixel_size: u32) -> (shapes: Vec<Shape>)
        requires
            self.wf(),
            width_of(self@) * pixel_size <= i32::MAX,
            self@.len() * pixel_size <= i32::MAX,
        ensures
            shapes@ == frame_shapes(self@, pixel_size as int),
    {
        let ghost g = self@;
        let ghost px = pixel_size as int;
        proof {
            self.lemma_wf_rectangular();
        }
        let height = self.height();
        let width = self.width();
        let mut shapes: Vec<Shape> = Vec::new();
        let mut i: usize = 0;
        while i < height
            invariant
                i <= height,
                g == self@,
                px == pixel_size,
                rectangular(g),
                height == g.len(),
                width == width_of(g),
                width * px <= i32::MAX,
                height * px <= i32::MAX,
                shapes@ == board_squares(g, i as nat, px),
            decreases height - i,
        {
            let ghost before = shapes@;
            let mut j: usize = 0;
            while j < width
                invariant
                    i < height,
                    j <= width,
                    g == self@,
                    px == pixel_size,
                    rectangular(g),
                    height == g.len(),
                    width == width_of(g),
                    width * px <= i32::MAX,
                    height * px <= i32::MAX,
                    before == board_squares(g, i as nat, px),
                    shapes@ == before + row_squares(g, i as int, j as nat, px),
                decreases width - j,
            {
                proof {
                    assert(g[i as int].len() == width);
                    assert(0 <= j * px <= width * px && 0 <= i * px <= height * px && px <= width * px)
                        by (nonlinear_arith)
                        requires
                            0 <= j < width,
                            0 <= i < height,
                            0 <= px,
                    ;
                }
                let x: u64 = (j as u64) * (pixel_size as u64);
                let y: u64 = (i as u64) * (pixel_size as u64);
                let tone = match self.cell(i, j) {
                    State::Alive => Tone::White,
                    State::Died => Tone::Black,
                };
                shapes.push(Shape::Square { x: x as i32, y: y as i32, side: pixel_size, tone });
                j += 1;
                proof {
                    assert(shapes@ =~= before + row_squares(g, i as int, j as nat, px));
                }
            }
            i += 1;
        }
        proof {
            assert(0 <= width * px && 0 <= height * px) by (nonlinear_arith)
                requires
                    0 <= width,
                    0 <= height,
                    0 <= px,
            ;
        }
        let across: i32 = ((width as u64) * (pixel_size as u64)) as i32;
        let down: i32 = ((height as u64) * (pixel_size as u64)) as i32;
        let ghost squares = shapes@;
        let mut k: i32 = 0;
        while k < across
            invariant
                0 <= k <= across,
                shapes@ == squares + level_dots(k as nat, down as int),
            decreases across - k,
        {
            shapes.push(Shape::Dot { x: k, y: 0, tone: Tone::Red });
            shapes.push(Shape::Dot { x: k, y: down, tone: Tone::Red });
            k += 1;
            proof {
                assert(shapes@ =~= squares + level_dots(k as nat, down as int));
            }
        }
        let ghost edged = shapes@;
        let mut k: i32 = 0;
        while k < down
            invariant
                0 <= k <= down,
                shapes@ == edged + upright_dots(k as nat, across as int),
            decreases down - k,
        {
            shapes.push(Shape::Dot { x: 0, y: k, tone: Tone::Red });
            shapes.push(Shape::Dot { x: across, y: k, tone: Tone::Red });
            k += 1;
            proof {
                assert(shapes@ =~= edged + upright_dots(k as nat, across as int));
            }
        }
        shapes
    }
}

} // verus!
