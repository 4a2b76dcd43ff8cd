use adversarial::ai::{ActionError, State};
use adversarial::tictac::{TicTacAction, TicTacCell, TicTacPlayer, TicTacState};

/// Build a state from nine cells (row-major) and the player to move.
fn board(cells: [TicTacCell; 9], player: TicTacPlayer) -> TicTacState {
    TicTacState { board: cells, player }
}

const X: TicTacCell = TicTacCell::X;
const O: TicTacCell = TicTacCell::O;
const E: TicTacCell = TicTacCell::Empty;

#[test]
fn test_state_new_game() {
    let t = TicTacState::new_game();
    assert_eq!(TicTacPlayer::X, t.player);
    for i in 0..9 {
        assert_eq!(TicTacCell::Empty, t.board[i]);
    }
}

#[test]
fn test_state_terminations() {
    let t = TicTacState::new_game();
    assert_eq!(None, t.get_winner());

    // test column win for O
    for j in 0..3 {
        let mut t = TicTacState::new_game();
        for i in 0..3 {
            t.board[i * 3 + j] = TicTacCell::O;
        }
        let winner = t.get_winner().unwrap();
        assert_eq!(TicTacPlayer::O, winner);
        assert_eq!(1, t.utility(TicTacPlayer::O));
        assert_eq!(-1, t.utility(TicTacPlayer::X));
        assert!(t.terminal());
    }

    // test column win for X
    for j in 0..3 {
        let mut t = TicTacState::new_game();
        for i in 0..3 {
            t.board[i * 3 + j] = TicTacCell::X;
        }
        let winner = t.get_winner().unwrap();
        assert_eq!(TicTacPlayer::X, winner);
        assert_eq!(1, t.utility(TicTacPlayer::X));
        assert_eq!(-1, t.utility(TicTacPlayer::O));
        assert!(t.terminal());
    }

    // test row win for O
    for j in 0..3 {
        let mut t = TicTacState::new_game();
        for i in 0..3 {
            t.board[j * 3 + i] = TicTacCell::O;
        }
        let winner = t.get_winner().unwrap();
        assert_eq!(TicTacPlayer::O, winner);
        assert_eq!(1, t.utility(TicTacPlayer::O));
        assert_eq!(-1, t.utility(TicTacPlayer::X));
        assert!(t.terminal());
    }

    // test row win for X
    for j in 0..3 {
        let mut t = TicTacState::new_game();
        for i in 0..3 {
            t.board[j * 3 + i] = TicTacCell::X;
        }
        let winner = t.get_winner().unwrap();
        assert_eq!(TicTacPlayer::X, winner);
        assert_eq!(1, t.utility(TicTacPlayer::X));
        assert_eq!(-1, t.utility(TicTacPlayer::O));
        assert!(t.terminal());
    }
}

#[test]
fn test_state_actions() {
    // test that new board contains all actions
    {
        let t = TicTacState::new_game();
        let actions = t.actions();
        for i in 0..9 {
            let ax = TicTacAction { position: i, player: TicTacPlayer::X };
            let ao = TicTacAction { position: i, player: TicTacPlayer::O };
            assert!(actions.contains(&ax));
            assert!(!actions.contains(&ao));
        }
    }

    // test that a board with a nonempty square does not contain an action
    // there
    for i in 0..9 {
        let mut t = TicTacState::new_game();
        t.board[i] = TicTacCell::X;
        t.player = TicTacPlayer::O;
        let actions = t.actions();
        let ax = TicTacAction { position: i, player: TicTacPlayer::X };
        let ao = TicTacAction { position: i, player: TicTacPlayer::O };
        assert!(!actions.contains(&ax));
        assert!(!actions.contains(&ao));
    }
}

#[test]
fn test_state_result() {
    let t0 = TicTacState::new_game();

    let a1 = TicTacAction { position: 4, player: TicTacPlayer::X };
    let t1 = t0.result(a1).unwrap();
    assert_eq!(t1.board[4], TicTacCell::X);
    assert_eq!(t1.player, TicTacPlayer::O);

    let a2 = TicTacAction { position: 0, player: TicTacPlayer::O };
    let t2 = t1.result(a2).unwrap();
    assert_eq!(t2.board[0], TicTacCell::O);
    assert_eq!(t2.player, TicTacPlayer::X);

    let a3 = TicTacAction { position: 3, player: TicTacPlayer::X };
    let t3 = t2.result(a3).unwrap();
    assert_eq!(t3.board[3], TicTacCell::X);
    assert_eq!(t3.player, TicTacPlayer::O);

    // a transition builds a fresh state; the predecessors are intact
    assert_eq!(t2.board[4], TicTacCell::X);
    assert_eq!(t2.board[0], TicTacCell::O);
    assert_eq!(t2.board[3], TicTacCell::Empty);
    assert_eq!(t1.board[0], TicTacCell::Empty);
    assert_eq!(t1.board[4], TicTacCell::X);
}

#[test]
fn transition_never_mutates_its_input() {
    let s = board([X, E, E, E, O, E, E, E, E], TicTacPlayer::X);
    let before = s;
    let a = TicTacAction { position: 1, player: TicTacPlayer::X };
    let next = s.result(a).unwrap();
    assert_eq!(before, s);
    assert_ne!(next, s);

    // a rejected action leaves the state alone too
    let bad = TicTacAction { position: 0, player: TicTacPlayer::X };
    assert!(s.result(bad).is_err());
    assert_eq!(before, s);
}

#[test]
fn wrong_player_is_rejected() {
    let t = TicTacState::new_game();
    let a = TicTacAction { position: 4, player: TicTacPlayer::O };
    assert_eq!(Err(ActionError::WrongPlayer), t.result(a));
}

#[test]
fn out_of_range_position_is_rejected() {
    let t = TicTacState::new_game();
    let a = TicTacAction { position: 9, player: TicTacPlayer::X };
    assert_eq!(Err(ActionError::InvalidMove), t.result(a));
    let far = TicTacAction { position: 1000, player: TicTacPlayer::X };
    assert_eq!(Err(ActionError::InvalidMove), t.result(far));
}

#[test]
fn occupied_cell_is_rejected() {
    let s = board([O, E, E, E, E, E, E, E, E], TicTacPlayer::X);
    let a = TicTacAction { position: 0, player: TicTacPlayer::X };
    assert_eq!(Err(ActionError::IllegalMove), s.result(a));
}

#[test]
fn turn_order_is_checked_before_the_cell() {
    // both out of turn and onto a marked cell: the turn check answers
    let s = board([O, E, E, E, E, E, E, E, E], TicTacPlayer::X);
    let a = TicTacAction { position: 0, player: TicTacPlayer::O };
    assert_eq!(Err(ActionError::WrongPlayer), s.result(a));
}

#[test]
fn terminal_utilities_are_zero_sum() {
    // a won game: one player's gain is the other's loss
    let won = board([X, X, X, O, O, E, E, E, E], TicTacPlayer::O);
    assert!(won.terminal());
    assert_eq!(0, won.utility(TicTacPlayer::X) + won.utility(TicTacPlayer::O));
    assert_eq!(1, won.utility(TicTacPlayer::X));
    assert_eq!(-1, won.utility(TicTacPlayer::O));

    // a drawn game: worth nothing to either player
    let draw = board([X, O, X, X, O, O, O, X, X], TicTacPlayer::O);
    assert_eq!(None, draw.get_winner());
    assert!(draw.terminal());
    assert_eq!(0, draw.utility(TicTacPlayer::X));
    assert_eq!(0, draw.utility(TicTacPlayer::O));
}

#[test]
fn no_legal_actions_means_terminal() {
    // a full board offers no action and must report the game over
    let draw = board([X, O, X, X, O, O, O, X, X], TicTacPlayer::O);
    assert!(draw.actions().is_empty());
    assert!(draw.terminal());

    // a won board is terminal even though empty cells remain
    let won = board([X, X, X, O, O, E, E, E, E], TicTacPlayer::O);
    assert!(!won.actions().is_empty());
    assert!(won.terminal());
}

#[test]
fn diagonal_wins_are_detected() {
    let main_diag = board([X, O, E, O, X, E, E, E, X], TicTacPlayer::O);
    assert_eq!(Some(TicTacPlayer::X), main_diag.get_winner());

    let anti_diag = board([E, E, O, X, O, X, O, E, E], TicTacPlayer::X);
    assert_eq!(Some(TicTacPlayer::O), anti_diag.get_winner());
}

#[test]
fn cells_and_players_convert_both_ways() {
    assert_eq!(Some(TicTacPlayer::X), TicTacCell::X.player());
    assert_eq!(Some(TicTacPlayer::O), TicTacCell::O.player());
    assert_eq!(None, TicTacCell::Empty.player());
    assert_eq!(TicTacCell::X, TicTacPlayer::X.cell());
    assert_eq!(TicTacCell::O, TicTacPlayer::O.cell());
}

#[test]
fn board_text_draws_rows() {
    let t = TicTacState::new_game();
    assert_eq!("   \n   \n   \n", t.board_text());

    let a = TicTacAction { position: 4, player: TicTacPlayer::X };
    let t1 = t.result(a).unwrap();
    assert_eq!("   \n X \n   \n", t1.board_text());

    let s = board([X, O, X, X, O, O, O, X, X], TicTacPlayer::O);
    assert_eq!("XOX\nXOO\nOXX\n", s.board_text());
}
