//! Tic Tac Toe: a 3x3, two-symbol board game plugged into the
//! search engine's game-state contract.
//!
//! The board is a flat array of nine cells, indexed row-major: cell
//! `row * 3 + col`.  The player to move marks any empty cell; play
//! is over as soon as a line (a column, a row or a diagonal) is
//! filled by one symbol, or the board is full.  A won game is worth
//! `1` to the winner and `-1` to the loser; a full board without a
//! winner is a draw, worth `0` to both.

use crate::ai::{ActionError, State};
use vstd::array::spec_array_update;
use vstd::prelude::*;
use vstd::string::StringExecFns;

verus! {

broadcast use vstd::array::group_array_axioms;

/// A single board cell.
#[derive(Copy, Clone, PartialEq, Eq, Structural, Debug)]
pub enum TicTacCell {
    X,
    O,
    Empty,
}

/// A tic tac toe player.
#[derive(Copy, Clone, PartialEq, Eq, Structural, Debug)]
pub enum TicTacPlayer {
    X,
    O,
}

impl TicTacCell {
    /// The player whose mark fills this cell, if any.
    pub open spec fn spec_player(&self) -> Option<TicTacPlayer> {
        match *self {
            TicTacCell::X => Some(TicTacPlayer::X),
            TicTacCell::O => Some(TicTacPlayer::O),
            TicTacCell::Empty => None,
        }
    }

    /// The player whose mark fills this cell, if any.
    pub fn player(&self) -> (r: Option<TicTacPlayer>)
        ensures
            r == self.spec_player(),
    {
        match *self {
            TicTacCell::X => Some(TicTacPlayer::X),
            TicTacCell::O => Some(TicTacPlayer::O),
            TicTacCell::Empty => None,
        }
    }
}

impl TicTacPlayer {
    /// The mark this player leaves on the board.
    pub open spec fn spec_cell(&self) -> TicTacCell {
        match *self {
            TicTacPlayer::X => TicTacCell::X,
            TicTacPlayer::O => TicTacCell::O,
        }
    }

    /// The mark this player leaves on the board.
    pub fn cell(&self) -> (r: TicTacCell)
        ensures
            r == self.spec_cell(),
    {
        match *self {
            TicTacPlayer::X => TicTacCell::X,
            TicTacPlayer::O => TicTacCell::O,
        }
    }

    /// The opponent.
    pub open spec fn spec_other(&self) -> TicTacPlayer {
        match *self {
            TicTacPlayer::X => TicTacPlayer::O,
            TicTacPlayer::O => TicTacPlayer::X,
        }
    }
}

/// One move: `player` marks the empty cell at `position`.
#[derive(Copy, Clone, PartialEq, Eq, Structural, Debug)]
pub struct TicTacAction {
    /// The cell to mark, row-major in `0..9`.
    pub position: usize,
    /// The player making the move.
    pub player: TicTacPlayer,
}

/// A tic tac toe game state.
#[derive(Copy, Clone, PartialEq, Eq, Debug)]
pub struct TicTacState {
    /// The tic tac toe board.
    pub board: [TicTacCell; 9],
    /// The player whose turn it is.
    pub player: TicTacPlayer,
}

/// The cells `i`, `j` and `k` are filled by one symbol.
pub open spec fn line_won(b: Seq<TicTacCell>, i: int, j: int, k: int) -> bool {
    &&& b[i] != TicTacCell::Empty
    &&& b[j] == b[i]
    &&& b[k] == b[i]
}

/// The winner, if any: the eight lines are checked columns first,
/// then rows, then the two diagonals.  (On boards reachable by play
/// at most one symbol owns a line, so the order is immaterial
/// there.)
pub open spec fn spec_winner(b: Seq<TicTacCell>) -> Option<TicTacPlayer> {
    if line_won(b, 0, 3, 6) {
        b[0].spec_player()
    } else if line_won(b, 1, 4, 7) {
        b[1].spec_player()
    } else if line_won(b, 2, 5, 8) {
        b[2].spec_player()
    } else if line_won(b, 0, 1, 2) {
        b[0].spec_player()
    } else if line_won(b, 3, 4, 5) {
        b[3].spec_player()
    } else if line_won(b, 6, 7, 8) {
        b[6].spec_player()
    } else if line_won(b, 0, 4, 8) {
        b[0].spec_player()
    } else if line_won(b, 2, 4, 6) {
        b[2].spec_player()
    } else {
        None
    }
}

/// Every cell of the board is marked.
pub open spec fn spec_full(b: Seq<TicTacCell>) -> bool {
    forall|i: int| 0 <= i < 9 ==> b[i] != TicTacCell::Empty
}

/// How many of the first `n` cells are empty.
pub open spec fn count_empty_upto(b: Seq<TicTacCell>, n: int) -> nat
    decreases n,
{
    if n <= 0 {
        0
    } else {
        count_empty_upto(b, n - 1) + if b[n - 1] == TicTacCell::Empty {
            1nat
        } else {
            0nat
        }
    }
}

/// The legal moves of `p` among the first `n` cells, in cell order:
/// one move onto each empty cell.
pub open spec fn actions_upto(b: Seq<TicTacCell>, p: TicTacPlayer, n: int) -> Seq<TicTacAction>
    decreases n,
{
    if n <= 0 {
        Seq::empty()
    } else {
        let rest = actions_upto(b, p, n - 1);
        if b[n - 1] == TicTacCell::Empty {
            rest.push(TicTacAction { position: (n - 1) as usize, player: p })
        } else {
            rest
        }
    }
}

/// Every enumerated move belongs to `p`, targets a cell below `n`,
/// and that cell is empty.
proof fn lemma_actions_upto_sound(b: Seq<TicTacCell>, p: TicTacPlayer, n: int)
    requires
        b.len() == 9,
        0 <= n <= 9,
    ensures
        forall|i: int|
            0 <= i < actions_upto(b, p, n).len() ==> {
                let a = #[trigger] actions_upto(b, p, n)[i];
                &&& a.player == p
                &&& a.position < n
                &&& b[a.position as int] == TicTacCell::Empty
            },
    decreases n,
{
    if n > 0 {
        lemma_actions_upto_sound(b, p, n - 1);
    }
}

/// There are exactly as many enumerated moves as empty cells.
proof fn lemma_actions_upto_len(b: Seq<TicTacCell>, p: TicTacPlayer, n: int)
    requires
        0 <= n,
    ensures
        actions_upto(b, p, n).len() == count_empty_upto(b, n),
    decreases n,
{
    if n > 0 {
        lemma_actions_upto_len(b, p, n - 1);
    }
}

/// A board with no empty cell among its first `n` has none to count.
proof fn lemma_count_empty_zero(b: Seq<TicTacCell>, n: int)
    requires
        0 <= n,
        count_empty_upto(b, n) == 0,
    ensures
        forall|j: int| 0 <= j < n ==> b[j] != TicTacCell::Empty,
    decreases n,
{
    if n > 0 {
        lemma_count_empty_zero(b, n - 1);
    }
}

/// Boards that agree on their first `n` cells have the same count.
proof fn lemma_count_empty_agree(b1: Seq<TicTacCell>, b2: Seq<TicTacCell>, n: int)
    requires
        forall|j: int| 0 <= j < n ==> b1[j] == b2[j],
    ensures
        count_empty_upto(b1, n) == count_empty_upto(b2, n),
    decreases n,
{
    if n > 0 {
        lemma_count_empty_agree(b1, b2, n - 1);
    }
}

/// Marking an empty cell removes exactly one cell from the count.
proof fn lemma_count_empty_update(b: Seq<TicTacCell>, pos: int, v: TicTacCell, n: int)
    requires
        b.len() == 9,
        0 <= pos < n <= 9,
        b[pos] == TicTacCell::Empty,
        v != TicTacCell::Empty,
    ensures
        count_empty_upto(b.update(pos, v), n) + 1 == count_empty_upto(b, n),
    decreases n,
{
    let b2 = b.update(pos, v);
    if pos == n - 1 {
        lemma_count_empty_agree(b, b2, n - 1);
    } else {
        lemma_count_empty_update(b, pos, v, n - 1);
    }
}

/// How a cell is drawn: its mark, or a blank.
pub open spec fn spec_cell_char(c: TicTacCell) -> char {
    match c {
        TicTacCell::X => 'X',
        TicTacCell::O => 'O',
        TicTacCell::Empty => ' ',
    }
}

/// One drawn board row: its three cells, then a line break.
pub open spec fn spec_row_text(b: Seq<TicTacCell>, r: int) -> Seq<char> {
    seq![
        spec_cell_char(b[3 * r]),
        spec_cell_char(b[3 * r + 1]),
        spec_cell_char(b[3 * r + 2]),
        '\n',
    ]
}

/// The first `n` drawn board rows, top row first.
pub open spec fn spec_rows_text_upto(b: Seq<TicTacCell>, n: int) -> Seq<char>
    decreases n,
{
    if n <= 0 {
        Seq::empty()
    } else {
        spec_rows_text_upto(b, n - 1) + spec_row_text(b, n - 1)
    }
}

/// The drawn board: three rows of three marks each.
pub open spec fn spec_board_text(b: Seq<TicTacCell>) -> Seq<char> {
    spec_rows_text_upto(b, 3)
}

/// The one-character drawing of a cell.
fn cell_str(c: TicTacCell) -> (r: &'static str)
    ensures
        r@ == seq![spec_cell_char(c)],
{
    match c {
        TicTacCell::X => {
            proof {
                reveal_strlit("X");
                assert("X"@ =~= seq![spec_cell_char(c)]);
            }
            "X"
        },
        TicTacCell::O => {
            proof {
                reveal_strlit("O");
                assert("O"@ =~= seq![spec_cell_char(c)]);
            }
            "O"
        },
        TicTacCell::Empty => {
            proof {
                reveal_strlit(" ");
                assert(" "@ =~= seq![spec_cell_char(c)]);
            }
            " "
        },
    }
}

impl TicTacState {
    /// Get the state for a new game: an empty board, first player to
    /// move.
    pub fn new_game() -> (t: TicTacState)
        ensures
            t.player == TicTacPlayer::X,
            forall|i: int| 0 <= i < 9 ==> t.board@[i] == TicTacCell::Empty,
    {
        TicTacState { board: [TicTacCell::Empty; 9], player: TicTacPlayer::X }
    }

    /// The cells `i`, `j` and `k` are filled by one symbol.
    fn check_line(&self, i: usize, j: usize, k: usize) -> (r: bool)
        requires
            i < 9,
            j < 9,
            k < 9,
        ensures
            r == line_won(self.board@, i as int, j as int, k as int),
    {
        let ci = self.board[i];
        ci != TicTacCell::Empty && self.board[j] == ci && self.board[k] == ci
    }

    /// The winner, if any, checking columns, then rows, then the two
    /// diagonals.
    pub fn get_winner(&self) -> (r: Option<TicTacPlayer>)
        ensures
            r == spec_winner(self.board@),
    {
        if self.check_line(0, 3, 6) {
            return self.board[0].player();
        }
        if self.check_line(1, 4, 7) {
            return self.board[1].player();
        }
        if self.check_line(2, 5, 8) {
            return self.board[2].player();
        }
        if self.check_line(0, 1, 2) {
            return self.board[0].player();
        }
        if self.check_line(3, 4, 5) {
            return self.board[3].player();
        }
        if self.check_line(6, 7, 8) {
            return self.board[6].player();
        }
        if self.check_line(0, 4, 8) {
            return self.board[0].player();
        }
        if self.check_line(2, 4, 6) {
            return self.board[2].player();
        }
        None
    }

    /// Draw the board as text: one line per board row, each cell as
    /// its mark or a blank.
    pub fn board_text(&self) -> (t: String)
        ensures
            t@ == spec_board_text(self.board@),
    {
        let mut out = String::new();
        let mut row: usize = 0;
        while row < 3
            invariant
                row <= 3,
                out@ == spec_rows_text_upto(self.board@, row as int),
            decreases 3 - row,
        {
            out.append(cell_str(self.board[3 * row]));
            out.append(cell_str(self.board[3 * row + 1]));
            out.append(cell_str(self.board[3 * row + 2]));
            proof {
                reveal_strlit("\n");
            }
            out.append("\n");
            proof {
                assert(out@ =~= spec_rows_text_upto(self.board@, row as int + 1));
            }
            row = row + 1;
        }
        out
    }

    /// Every cell of the board is marked.
    fn is_full(&self) -> (r: bool)
        ensures
            r == spec_full(self.board@),
    {
        let mut i: usize = 0;
        while i < 9
            invariant
                0 <= i <= 9,
                forall|j: int| 0 <= j < i ==> self.board@[j] != TicTacCell::Empty,
            decreases 9 - i,
        {
            if self.board[i] == TicTacCell::Empty {
                return false;
            }
            i = i + 1;
        }
        true
    }
}

impl State<TicTacPlayer, TicTacAction> for TicTacState {
    /// The player whose turn it is.
    open spec fn spec_player(&self) -> TicTacPlayer {
        self.player
    }

    /// One move onto each empty cell, in cell order.
    open spec fn spec_actions(&self) -> Seq<TicTacAction> {
        actions_upto(self.board@, self.player, 9)
    }

    /// A move succeeds on an empty cell in turn; otherwise it is out
    /// of turn (`WrongPlayer`), off the board (`InvalidMove`) or onto
    /// a marked cell (`IllegalMove`), checked in that order.
    open spec fn spec_result(&self, action: TicTacAction) -> Result<TicTacState, ActionError> {
        if action.player != self.player {
            Err(ActionError::WrongPlayer)
        } else if action.position >= 9 {
            Err(ActionError::InvalidMove)
        } else if self.board@[action.position as int] != TicTacCell::Empty {
            Err(ActionError::IllegalMove)
        } else {
            Ok(
                TicTacState {
                    board: spec_array_update(
                        self.board,
                        action.position as int,
                        action.player.spec_cell(),
                    ),
                    player: self.player.spec_other(),
                },
            )
        }
    }

    /// `1` to the winner, `-1` to the loser, `0` to both on a draw.
    open spec fn spec_utility(&self, player: TicTacPlayer) -> int {
        match spec_winner(self.board@) {
            None => 0,
            Some(w) => if player == w {
                1
            } else {
                -1
            },
        }
    }

    /// Play is over once a line is won or the board is full.
    open spec fn spec_terminal(&self) -> bool {
        spec_winner(self.board@) is Some || spec_full(self.board@)
    }

    /// The number of empty cells bounds the plies left.
    open spec fn spec_measure(&self) -> nat {
        count_empty_upto(self.board@, 9)
    }

    /// Get the player who can move in the state.
    fn player(&self) -> (p: TicTacPlayer) {
        self.player
    }

    /// Get the possible actions for the current player in the state.
    ///
    /// The current player can move onto any empty square.
    fn actions(&self) -> (v: Vec<TicTacAction>) {
        let mut out: Vec<TicTacAction> = Vec::new();
        let mut i: usize = 0;
        while i < 9
            invariant
                0 <= i <= 9,
                out@ == actions_upto(self.board@, self.player, i as int),
            decreases 9 - i,
        {
            let cell = self.board[i];
            if cell == TicTacCell::Empty {
                out.push(TicTacAction { position: i, player: self.player });
            }
            i = i + 1;
        }
        out
    }

    /// Get the result of an action in the state.
    fn result(&self, action: TicTacAction) -> (r: Result<TicTacState, ActionError>) {
        if action.player != self.player {
            return Err(ActionError::WrongPlayer);
        }
        if action.position >= 9 {
            return Err(ActionError::InvalidMove);
        }
        if self.board[action.position] != TicTacCell::Empty {
            return Err(ActionError::IllegalMove);
        }
        let mut out = *self;
        out.board[action.position] = action.player.cell();
        out.player = match action.player {
            TicTacPlayer::X => TicTacPlayer::O,
            TicTacPlayer::O => TicTacPlayer::X,
        };
        proof {
            assert(out.board =~= spec_array_update(
                self.board,
                action.position as int,
                action.player.spec_cell(),
            ));
        }
        Ok(out)
    }

    /// Get the utility of the state.
    fn utility(&self, player: TicTacPlayer) -> (u: i64) {
        match self.get_winner() {
            None => 0,
            Some(winner) => if player == winner {
                1
            } else {
                -1
            },
        }
    }

    /// Return true if the state is terminal.
    fn terminal(&self) -> (b: bool) {
        match self.get_winner() {
            Some(_) => true,
            None => self.is_full(),
        }
    }

    /// An enumerated move targets an empty cell in turn, so it
    /// applies cleanly, and marking a cell leaves one empty cell
    /// fewer.
    proof fn lemma_enumerated_action_applies(&self, i: int) {
        let b = self.board@;
        lemma_actions_upto_sound(b, self.player, 9);
        let a = self.spec_actions()[i];
        lemma_count_empty_update(b, a.position as int, a.player.spec_cell(), 9);
        let succ = self.spec_result(a)->Ok_0;
        assert(succ.board@ == b.update(a.position as int, a.player.spec_cell()));
    }

    /// A board with no legal move has no empty cell, so it is full
    /// and play is over.
    proof fn lemma_no_actions_terminal(&self) {
        let b = self.board@;
        lemma_actions_upto_len(b, self.player, 9);
        lemma_count_empty_zero(b, 9);
    }

    /// Utilities are `-1`, `0` or `1`.
    proof fn lemma_utility_in_range(&self, player: TicTacPlayer) {
    }

    /// One player's win is the other's loss; a draw is worth `0` to
    /// both.
    proof fn lemma_utility_zero_sum(&self, p: TicTacPlayer, q: TicTacPlayer) {
    }
}

} // verus!
