//! An early board sketch of a draughts (checkers) position: an 8x8
//! board on which only every other square is playable, so storage is
//! 8 rows by 4 columns, row-major, with the bottom-left corner of
//! the board a playable square.  White men start on the bottom three
//! rows and move up the board; Black men start on the top three rows
//! and move down; kings step either way.  Only plain diagonal steps
//! are modelled here, not captures.

use vstd::prelude::*;

verus! {

broadcast use vstd::array::group_array_axioms;

/// The contents of one playable square.
#[derive(Copy, Clone, Eq, PartialEq, Structural, Debug)]
pub enum BoardSquareState {
    Empty,
    White,
    Black,
    WhiteKing,
    BlackKing,
}

/// A square of the 8x8 board: `.0` is the row counted from the
/// bottom, `.1` the column, both in `0..8`.
#[derive(Copy, Clone, Eq, PartialEq, Structural, Debug)]
pub struct BoardSquareIdx(pub usize, pub usize);

impl BoardSquareIdx {
    /// The square lies on the board, on the playable colour: the
    /// bottom-left corner is playable, and playable squares are
    /// those whose row and column have an even sum.
    pub open spec fn spec_playable(&self) -> bool {
        &&& self.0 < 8
        &&& self.1 < 8
        &&& (self.0 + self.1) % 2 == 0
    }
}

/// The piece on `piece`'s square may step from row `src_row` to row
/// `dst_row`: men only away from their own side, kings either way,
/// and an empty square moves nowhere.
pub open spec fn spec_forward_step(
    piece: BoardSquareState,
    src_row: int,
    dst_row: int,
) -> bool {
    match piece {
        BoardSquareState::White => dst_row == src_row + 1,
        BoardSquareState::Black => dst_row == src_row - 1,
        BoardSquareState::WhiteKing => dst_row == src_row + 1 || dst_row == src_row - 1,
        BoardSquareState::BlackKing => dst_row == src_row + 1 || dst_row == src_row - 1,
        BoardSquareState::Empty => false,
    }
}

/// `dst` is one of the four squares diagonally adjacent to `src`.
pub open spec fn spec_diagonal_step(src: BoardSquareIdx, dst: BoardSquareIdx) -> bool {
    &&& (dst.0 == src.0 + 1 || dst.0 + 1 == src.0)
    &&& (dst.1 == src.1 + 1 || dst.1 + 1 == src.1)
}

/// How a row of the starting position is manned: White on the bottom
/// three rows, Black on the top three, the middle empty.
pub open spec fn spec_initial_square(row: int) -> BoardSquareState {
    if row < 3 {
        BoardSquareState::White
    } else if row >= 5 {
        BoardSquareState::Black
    } else {
        BoardSquareState::Empty
    }
}

/// A draughts board, stored as 8 rows of the 4 playable squares
/// each, row-major from the bottom-left corner.
#[derive(Copy, Clone)]
pub struct BoardState {
    state: [BoardSquareState; 32],
}

impl BoardState {
    /// The square in storage `row` (from the bottom) and storage
    /// column `col` (each column holding every other board column).
    pub closed spec fn spec_at(&self, row: int, col: int) -> BoardSquareState {
        self.state@[row * 4 + col]
    }

    /// The piece on the playable board square `idx`.
    pub open spec fn spec_square(&self, idx: BoardSquareIdx) -> BoardSquareState {
        self.spec_at(idx.0 as int, idx.1 as int / 2)
    }

    /// `src` to `dst` is a legal plain step: both squares playable,
    /// the destination empty, the squares diagonally adjacent, and
    /// the moving piece headed a direction it may go.
    pub open spec fn spec_valid_move(&self, src: BoardSquareIdx, dst: BoardSquareIdx) -> bool {
        &&& src.spec_playable()
        &&& dst.spec_playable()
        &&& self.spec_square(dst) == BoardSquareState::Empty
        &&& spec_diagonal_step(src, dst)
        &&& spec_forward_step(self.spec_square(src), src.0 as int, dst.0 as int)
    }

    /// A board with every playable square empty.
    pub fn new_empty() -> (r: Self)
        ensures
            forall|row: int, col: int|
                0 <= row < 8 && 0 <= col < 4 ==> #[trigger] r.spec_at(row, col)
                    == BoardSquareState::Empty,
    {
        BoardState { state: [BoardSquareState::Empty; 32] }
    }

    /// The starting position: White men on the bottom three rows,
    /// Black men on the top three.
    pub fn new() -> (r: Self)
        ensures
            forall|row: int, col: int|
                0 <= row < 8 && 0 <= col < 4 ==> #[trigger] r.spec_at(row, col)
                    == spec_initial_square(row),
    {
        let mut board = BoardState::new_empty();
        let mut row: usize = 0;
        while row < 3
            invariant
                row <= 3,
                forall|r: int, c: int|
                    0 <= r < row && 0 <= c < 4 ==> #[trigger] board.spec_at(r, c)
                        == BoardSquareState::White,
                forall|r: int, c: int|
                    row <= r < 8 && 0 <= c < 4 ==> #[trigger] board.spec_at(r, c)
                        == BoardSquareState::Empty,
            decreases 3 - row,
        {
            let mut col: usize = 0;
            while col < 4
                invariant
                    row < 3,
                    col <= 4,
                    forall|r: int, c: int|
                        0 <= r < row && 0 <= c < 4 ==> #[trigger] board.spec_at(r, c)
                            == BoardSquareState::White,
                    forall|c: int|
                        0 <= c < col ==> #[trigger] board.spec_at(row as int, c)
                            == BoardSquareState::White,
                    forall|c: int|
                        col <= c < 4 ==> #[trigger] board.spec_at(row as int, c)
                            == BoardSquareState::Empty,
                    forall|r: int, c: int|
                        row < r < 8 && 0 <= c < 4 ==> #[trigger] board.spec_at(r, c)
                            == BoardSquareState::Empty,
                decreases 4 - col,
            {
                board.set(row, col, BoardSquareState::White);
                col = col + 1;
            }
            row = row + 1;
        }
        let mut row: usize = 5;
        while row < 8
            invariant
                5 <= row <= 8,
                forall|r: int, c: int|
                    0 <= r < 3 && 0 <= c < 4 ==> #[trigger] board.spec_at(r, c)
                        == BoardSquareState::White,
                forall|r: int, c: int|
                    5 <= r < row && 0 <= c < 4 ==> #[trigger] board.spec_at(r, c)
                        == BoardSquareState::Black,
                forall|r: int, c: int|
                    3 <= r < 8 && row <= r && 0 <= c < 4 ==> #[trigger] board.spec_at(r, c)
                        == BoardSquareState::Empty,
                forall|r: int, c: int|
                    3 <= r < 5 && 0 <= c < 4 ==> #[trigger] board.spec_at(r, c)
                        == BoardSquareState::Empty,
            decreases 8 - row,
        {
            let mut col: usize = 0;
            while col < 4
                invariant
                    5 <= row < 8,
                    col <= 4,
                    forall|r: int, c: int|
                        0 <= r < 3 && 0 <= c < 4 ==> #[trigger] board.spec_at(r, c)
                            == BoardSquareState::White,
                    forall|r: int, c: int|
                        5 <= r < row && 0 <= c < 4 ==> #[trigger] board.spec_at(r, c)
                            == BoardSquareState::Black,
                    forall|c: int|
                        0 <= c < col ==> #[trigger] board.spec_at(row as int, c)
                            == BoardSquareState::Black,
                    forall|c: int|
                        col <= c < 4 ==> #[trigger] board.spec_at(row as int, c)
                            == BoardSquareState::Empty,
                    forall|r: int, c: int|
                        row < r < 8 && 0 <= c < 4 ==> #[trigger] board.spec_at(r, c)
                            == BoardSquareState::Empty,
                    forall|r: int, c: int|
                        3 <= r < 5 && 0 <= c < 4 ==> #[trigger] board.spec_at(r, c)
                            == BoardSquareState::Empty,
                decreases 4 - col,
            {
                board.set(row, col, BoardSquareState::Black);
                col = col + 1;
            }
            row = row + 1;
        }
        board
    }

    /// Read the square in storage `row` and storage column `col`.
    pub fn get(&self, row: usize, col: usize) -> (r: BoardSquareState)
        requires
            row < 8,
            col < 4,
        ensures
            r == self.spec_at(row as int, col as int),
    {
        self.state[row * 4 + col]
    }

    /// Put `v` on the square in storage `row` and storage column
    /// `col`, leaving every other square as it was.
    pub fn set(&mut self, row: usize, col: usize, v: BoardSquareState)
        requires
            row < 8,
            col < 4,
        ensures
            final(self).spec_at(row as int, col as int) == v,
            forall|r: int, c: int|
                0 <= r < 8 && 0 <= c < 4 && !(r == row && c == col)
                    ==> #[trigger] final(self).spec_at(r, c) == old(self).spec_at(r, c),
    {
        self.state[row * 4 + col] = v;
    }

    /// Decide whether `src` to `dst` is a legal plain (non-capturing)
    /// step for the piece standing on `src`.
    pub fn is_valid_move(&self, src: BoardSquareIdx, dst: BoardSquareIdx) -> (r: bool)
        ensures
            r == self.spec_valid_move(src, dst),
    {
        if !(src.0 < 8 && src.1 < 8 && (src.0 + src.1) % 2 == 0) {
            return false;
        }
        if !(dst.0 < 8 && dst.1 < 8 && (dst.0 + dst.1) % 2 == 0) {
            return false;
        }
        if self.get(dst.0, dst.1 / 2) != BoardSquareState::Empty {
            return false;
        }
        if !((dst.0 == src.0 + 1 || dst.0 + 1 == src.0) && (dst.1 == src.1 + 1 || dst.1 + 1
            == src.1)) {
            return false;
        }
        match self.get(src.0, src.1 / 2) {
            BoardSquareState::White => dst.0 == src.0 + 1,
            BoardSquareState::Black => dst.0 + 1 == src.0,
            BoardSquareState::WhiteKing => true,
            BoardSquareState::BlackKing => true,
            BoardSquareState::Empty => false,
        }
    }
}

} // verus!
