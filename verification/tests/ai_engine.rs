use adversarial::ai::{minimax_search, minimax_value, State};
use adversarial::tictac::{TicTacAction, TicTacCell, TicTacPlayer, TicTacState};

fn board(cells: [TicTacCell; 9], player: TicTacPlayer) -> TicTacState {
    TicTacState { board: cells, player }
}

const X: TicTacCell = TicTacCell::X;
const O: TicTacCell = TicTacCell::O;
const E: TicTacCell = TicTacCell::Empty;

#[test]
fn value_of_a_terminal_state_is_its_utility() {
    let won = board([X, X, X, O, O, E, E, E, E], TicTacPlayer::O);
    assert_eq!(won.utility(TicTacPlayer::O), minimax_value(&won));
    assert_eq!(-1, minimax_value(&won));

    let draw = board([X, O, X, X, O, O, O, X, X], TicTacPlayer::O);
    assert_eq!(0, minimax_value(&draw));
}

#[test]
fn value_is_the_best_negated_successor_value() {
    // X to move, an immediate win available: value 1
    let winning = board([X, X, E, O, O, E, E, E, E], TicTacPlayer::X);
    assert_eq!(1, minimax_value(&winning));

    // check the recurrence by hand over every legal action
    let mut best = i64::MIN;
    for a in winning.actions() {
        let successor = winning.result(a).unwrap();
        let score = -minimax_value(&successor);
        if score > best {
            best = score;
        }
    }
    assert_eq!(best, minimax_value(&winning));

    // O to move, X threatens two lines at once: O loses either way
    let lost = board([X, X, E, O, E, E, X, X, E], TicTacPlayer::O);
    assert_eq!(-1, minimax_value(&lost));
}

#[test]
fn search_is_deterministic_and_breaks_ties_first() {
    // X can win at 2 (top row) or at 8 (bottom row): both score 1,
    // and 2 is enumerated first
    let two_wins = board([X, X, E, O, O, E, X, X, E], TicTacPlayer::X);
    let first = minimax_search(&two_wins).unwrap();
    let second = minimax_search(&two_wins).unwrap();
    assert_eq!(first, second);
    assert_eq!(TicTacAction { position: 2, player: TicTacPlayer::X }, first);
}

#[test]
fn search_plays_the_winning_move() {
    let winning = board([X, X, E, O, O, E, E, E, E], TicTacPlayer::X);
    let a = minimax_search(&winning).unwrap();
    assert_eq!(2, a.position);
    let done = winning.result(a).unwrap();
    assert!(done.terminal());
    assert_eq!(Some(TicTacPlayer::X), done.get_winner());
}

#[test]
fn best_reply_to_a_center_opening_is_a_corner() {
    let empty = TicTacState::new_game();
    let center = TicTacAction { position: 4, player: TicTacPlayer::X };
    let after_center = empty.result(center).unwrap();
    let reply = minimax_search(&after_center).unwrap();
    assert_eq!(TicTacPlayer::O, reply.player);
    assert!(
        [0usize, 2, 6, 8].contains(&reply.position),
        "the reply must take a corner, not an edge"
    );
}

#[test]
fn optimal_self_play_ends_in_a_draw() {
    let mut t = TicTacState::new_game();
    let mut plies = 0;
    while !t.terminal() {
        let a = minimax_search(&t).unwrap();
        t = t.result(a).unwrap();
        plies += 1;
        assert!(plies <= 9);
    }
    assert_eq!(9, plies);
    assert_eq!(None, t.get_winner());
    assert_eq!(0, t.utility(TicTacPlayer::X));
    assert_eq!(0, t.utility(TicTacPlayer::O));
}
