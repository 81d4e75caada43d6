use vstd::prelude::*;
use rand::rngs::StdRng;
use rand::Rng;

verus! {

/// Number of rows and of columns of the board.
pub const BOARD_SIZE: u8 = 6;

/// Number of cells of the board.
pub const CELL_COUNT: usize = 36;

/// What one cell of the board holds.
#[derive(Clone, Copy, Debug, PartialEq, Eq, Structural)]
pub enum Cell {
    Empty,
    White,
    Black,
}

/// A cell's place on the grid: column `x` and row `y`, both below the board size.
#[derive(Clone, Copy, Debug, PartialEq, Eq, Structural)]
pub struct Position {
    pub x: u8,
    pub y: u8,
}

/// The color of a piece: `White(true)` for white, `White(false)` for black.
#[derive(Clone, Copy, Debug, PartialEq, Eq, Structural)]
pub struct White(pub bool);

/// A piece on the board.
#[derive(Clone, Copy, Debug, PartialEq, Eq, Structural)]
pub struct Piece {
    pub position: Position,
    pub white: White,
}

/// How many cells of `cells` hold `c`.
pub open spec fn count_of(cells: Seq<Cell>, c: Cell) -> nat
    decreases cells.len(),
{
    if cells.len() == 0 {
        0
    } else {
        count_of(cells.drop_last(), c) + if cells.last() == c { 1nat } else { 0nat }
    }
}

/// White pieces minus black pieces.
pub open spec fn differential_of(cells: Seq<Cell>) -> int {
    count_of(cells, Cell::White) - count_of(cells, Cell::Black)
}

/// The index of the cell at column `x`, row `y`: columns are laid out one
/// after the other.
pub open spec fn cell_index(x: int, y: int) -> int {
    x * BOARD_SIZE + y
}

/// The index of the cell a piece stands on.
pub open spec fn piece_index(p: Piece) -> int {
    cell_index(p.position.x as int, p.position.y as int)
}

/// The content of the cell a piece stands on.
pub open spec fn piece_cell(p: Piece) -> Cell {
    if p.white.0 {
        Cell::White
    } else {
        Cell::Black
    }
}

/// Every cell is counted under exactly one of the three contents.
pub proof fn lemma_counts_cover(cells: Seq<Cell>)
    ensures
        count_of(cells, Cell::White) + count_of(cells, Cell::Black) + count_of(cells, Cell::Empty)
            == cells.len(),
    decreases cells.len(),
{
    if cells.len() > 0 {
        lemma_counts_cover(cells.drop_last());
    }
}

/// The mathematical content of a board.
pub ghost struct BoardView {
    pub cells: Seq<Cell>,
    pub differential: int,
}

impl BoardView {
    pub open spec fn wf(self) -> bool {
        &&& self.cells.len() == CELL_COUNT
        &&& self.differential == differential_of(self.cells)
    }
}

/// The pieces of one round on a square grid, with the white-minus-black
/// differential computed once when the board is made.
#[derive(Clone, Debug)]
pub struct Board {
    cells: Vec<Cell>,
    differential: i32,
}

impl View for Board {
    type V = BoardView;

    closed spec fn view(&self) -> BoardView {
        BoardView { cells: self.cells@, differential: self.differential as int }
    }
}

/// For any board: its differential is white minus black, and the white,
/// black and empty cells together make up the whole grid.
pub proof fn lemma_board_differential(b: BoardView)
    requires
        b.wf(),
    ensures
        b.differential == count_of(b.cells, Cell::White) - count_of(b.cells, Cell::Black),
        count_of(b.cells, Cell::White) + count_of(b.cells, Cell::Black) + count_of(
            b.cells,
            Cell::Empty,
        ) == BOARD_SIZE * BOARD_SIZE,
{
    lemma_counts_cover(b.cells);
}

/// rand's standard seedable generator, carried through opaquely.
#[verifier::external_type_specification]
#[verifier::external_body]
pub struct ExStdRng(StdRng);

/// Relies on rand's `Rng::gen_ratio`: true with chance `numerator / denominator`;
/// always false for a zero numerator and always true when both are equal. It
/// panics on a zero denominator or a numerator above the denominator.
#[verifier::external_body]
fn chance(rng: &mut StdRng, numerator: u32, denominator: u32) -> (r: bool)
    requires
        0 < denominator,
        numerator <= denominator,
    ensures
        numerator == 0 ==> !r,
        numerator == denominator ==> r,
{
    rng.gen_ratio(numerator, denominator)
}

/// Relies on rand's `Rng::gen::<bool>`: a fair coin.
#[verifier::external_body]
fn coin(rng: &mut StdRng) -> (r: bool) {
    rng.gen::<bool>()
}

/// The content of one cell given the two draws that decide it: the first says
/// whether the cell stays empty, the second whether a piece is white.
pub fn cell_from_draws(empty: bool, white: bool) -> (r: Cell)
    ensures
        r == (if empty {
            Cell::Empty
        } else if white {
            Cell::White
        } else {
            Cell::Black
        }),
{
    if empty {
        Cell::Empty
    } else if white {
        Cell::White
    } else {
        Cell::Black
    }
}

impl Board {
    pub open spec fn wf(&self) -> bool {
        self@.wf()
    }

    /// The board holding `cells`, with its differential computed.
    pub fn from_cells(cells: Vec<Cell>) -> (r: Board)
        requires
            cells@.len() == CELL_COUNT,
        ensures
            r.wf(),
            r@.cells == cells@,
    {
        let mut diff: i32 = 0;
        let mut i: usize = 0;
        while i < cells.len()
            invariant
                cells@.len() == CELL_COUNT,
                i <= cells@.len(),
                diff == differential_of(cells@.take(i as int)),
                -(i as int) <= diff <= i,
            decreases cells.len() - i,
        {
            proof {
                assert(cells@.take(i as int + 1).drop_last() =~= cells@.take(i as int));
            }
            match cells[i] {
                Cell::White => {
                    diff = diff + 1;
                },
                Cell::Black => {
                    diff = diff - 1;
                },
                Cell::Empty => {},
            }
            i = i + 1;
        }
        proof {
            assert(cells@.take(i as int) =~= cells@);
        }
        Board { cells, differential: diff }
    }

    /// A fresh random board: each cell is empty with chance one in three,
    /// and otherwise holds a white or a black piece with even chance.
    pub fn generate(rng: &mut StdRng) -> (r: Board)
        ensures
            r.wf(),
    {
        let mut cells: Vec<Cell> = Vec::new();
        let mut i: usize = 0;
        while i < CELL_COUNT
            invariant
                i <= CELL_COUNT,
                cells@.len() == i,
            decreases CELL_COUNT - i,
        {
            let empty = chance(rng, 1, 3);
            let cell = if empty {
                Cell::Empty
            } else {
                cell_from_draws(false, coin(rng))
            };
            cells.push(cell);
            i = i + 1;
        }
        Board::from_cells(cells)
    }

    /// The differential: white pieces minus black pieces.
    pub fn differential(&self) -> (r: i32)
        ensures
            r == self@.differential,
    {
        self.differential
    }

    /// What the cell at column `x`, row `y` holds.
    pub fn cell(&self, x: u8, y: u8) -> (r: Cell)
        requires
            self.wf(),
            x < BOARD_SIZE,
            y < BOARD_SIZE,
        ensures
            r == self@.cells[cell_index(x as int, y as int)],
    {
        self.cells[x as usize * BOARD_SIZE as usize + y as usize]
    }

    /// The pieces of the board, in cell order, each on its own cell.
    pub fn pieces(&self) -> (r: Vec<Piece>)
        requires
            self.wf(),
        ensures
            r@.len() == count_of(self@.cells, Cell::White) + count_of(self@.cells, Cell::Black),
            forall|k: int|
                0 <= k < r@.len() ==> {
                    &&& (#[trigger] r@[k]).position.x < BOARD_SIZE
                    &&& r@[k].position.y < BOARD_SIZE
                    &&& self@.cells[piece_index(r@[k])] == piece_cell(r@[k])
                },
            forall|k: int, l: int|
                0 <= k < l < r@.len() ==> piece_index(#[trigger] r@[k]) < piece_index(
                    #[trigger] r@[l],
                ),
    {
        let mut out: Vec<Piece> = Vec::new();
        let mut x: u8 = 0;
        while x < BOARD_SIZE
            invariant
                self.wf(),
                x <= BOARD_SIZE,
                out@.len() == count_of(self@.cells.take(x as int * 6), Cell::White) + count_of(
                    self@.cells.take(x as int * 6),
                    Cell::Black,
                ),
                forall|k: int|
                    0 <= k < out@.len() ==> {
                        &&& (#[trigger] out@[k]).position.x < BOARD_SIZE
                        &&& out@[k].position.y < BOARD_SIZE
                        &&& piece_index(out@[k]) < x as int * 6
                        &&& self@.cells[piece_index(out@[k])] == piece_cell(out@[k])
                    },
                forall|k: int, l: int|
                    0 <= k < l < out@.len() ==> piece_index(#[trigger] out@[k]) < piece_index(
                        #[trigger] out@[l],
                    ),
            decreases BOARD_SIZE - x,
        {
            let mut y: u8 = 0;
            while y < BOARD_SIZE
                invariant
                    self.wf(),
                    x < BOARD_SIZE,
                    y <= BOARD_SIZE,
                    out@.len() == count_of(self@.cells.take(x as int * 6 + y), Cell::White)
                        + count_of(self@.cells.take(x as int * 6 + y), Cell::Black),
                    forall|k: int|
                        0 <= k < out@.len() ==> {
                            &&& (#[trigger] out@[k]).position.x < BOARD_SIZE
                            &&& out@[k].position.y < BOARD_SIZE
                            &&& piece_index(out@[k]) < x as int * 6 + y
                            &&& self@.cells[piece_index(out@[k])] == piece_cell(out@[k])
                        },
                    forall|k: int, l: int|
                        0 <= k < l < out@.len() ==> piece_index(#[trigger] out@[k]) < piece_index(
                            #[trigger] out@[l],
                        ),
                decreases BOARD_SIZE - y,
            {
                let ghost i = x as int * 6 + y;
                proof {
                    assert(self@.cells.take(i + 1).drop_last() =~= self@.cells.take(i));
                }
                let c = self.cell(x, y);
                let position = Position { x, y };
                match c {
                    Cell::White => {
                        out.push(Piece { position, white: White(true) });
                    },
                    Cell::Black => {
                        out.push(Piece { position, white: White(false) });
                    },
                    Cell::Empty => {},
                }
                y = y + 1;
            }
            x = x + 1;
        }
        proof {
            assert(self@.cells.take(36) =~= self@.cells);
        }
        out
    }
}

} // verus!
