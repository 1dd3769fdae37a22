use game_of_life::cell::State;
use game_of_life::grid::GameOfLife;
use game_of_life::render::{Shape, Tone};

const A: State = State::Alive;
const D: State = State::Died;

fn square(x: i32, y: i32, side: u32, tone: Tone) -> Shape {
    Shape::Square { x, y, side, tone }
}

fn dot(x: i32, y: i32) -> Shape {
    Shape::Dot { x, y, tone: Tone::Red }
}

#[test]
fn draw_lists_squares_then_border() {
    let g = GameOfLife::from_rows(vec![vec![A, D], vec![D, A]]).expect("rows of equal length");
    let shapes = g.draw(1);
    let expected = vec![
        square(0, 0, 1, Tone::White),
        square(1, 0, 1, Tone::Black),
        square(0, 1, 1, Tone::Black),
        square(1, 1, 1, Tone::White),
        dot(0, 0),
        dot(0, 2),
        dot(1, 0),
        dot(1, 2),
        dot(0, 0),
        dot(2, 0),
        dot(0, 1),
        dot(2, 1),
    ];
    assert_eq!(shapes, expected);
}

#[test]
fn cell_squares_scale_with_the_pixel_size() {
    let g = GameOfLife::from_rows(vec![vec![D, D, A], vec![A, D, D]])
        .expect("rows of equal length");
    let shapes = g.draw(4);
    // 6 squares, 12 pixels along each of the two level edges, 8 along each
    // of the two upright edges
    assert_eq!(shapes.len(), 6 + 2 * 12 + 2 * 8);
    assert_eq!(shapes[0], square(0, 0, 4, Tone::Black));
    assert_eq!(shapes[2], square(8, 0, 4, Tone::White));
    assert_eq!(shapes[3], square(0, 4, 4, Tone::White));
    assert_eq!(shapes[5], square(8, 4, 4, Tone::Black));
    assert_eq!(shapes[6], dot(0, 0));
    assert_eq!(shapes[7], dot(0, 8));
    assert_eq!(shapes[6 + 22], dot(11, 0));
    assert_eq!(shapes[6 + 23], dot(11, 8));
    assert_eq!(shapes[6 + 24], dot(0, 0));
    assert_eq!(shapes[6 + 25], dot(12, 0));
    assert_eq!(shapes[6 + 24 + 14], dot(0, 7));
    assert_eq!(shapes[6 + 24 + 15], dot(12, 7));
}

#[test]
fn border_follows_the_width_on_a_wide_board() {
    let g = GameOfLife::from_rows(vec![vec![D; 5]]).expect("rows of equal length");
    let shapes = g.draw(2);
    let level: Vec<Shape> = (0..10).flat_map(|x| [dot(x, 0), dot(x, 2)]).collect();
    let upright: Vec<Shape> = (0..2).flat_map(|y| [dot(0, y), dot(10, y)]).collect();
    assert_eq!(&shapes[5..25], &level[..]);
    assert_eq!(&shapes[25..], &upright[..]);
}

#[test]
fn empty_board_and_zero_pixel_size_paint_no_border() {
    let g = GameOfLife::from_rows(vec![]).expect("no rows");
    assert!(g.draw(4).is_empty());
    let g = GameOfLife::from_rows(vec![vec![A]]).expect("one row");
    assert_eq!(g.draw(0), vec![square(0, 0, 0, Tone::White)]);
}

#[test]
fn fits_tells_whether_the_outline_has_coordinates() {
    let g = GameOfLife::from_rows(vec![vec![D; 3]; 2]).expect("rows of equal length");
    assert!(g.fits(4));
    assert!(g.fits(0));
    // 3 * 715827882 = 2147483646, 3 * 715827883 = 2147483649
    assert!(g.fits(715_827_882));
    assert!(!g.fits(715_827_883));
    assert!(!g.fits(u32::MAX));
    let tall = GameOfLife::from_rows(vec![vec![D]; 4]).expect("rows of equal length");
    // 4 * 536870911 = 2147483644, 4 * 536870912 = 2147483648
    assert!(tall.fits(536_870_911));
    assert!(!tall.fits(536_870_912));
}
