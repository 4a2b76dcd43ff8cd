//! The abstract game-state contract and the minimax search engine.
//!
//! A game plugs into the engine by implementing [`State`]: it
//! describes its positions with the spec functions (who moves, which
//! actions are legal, what a move leads to, when play is over and
//! what a finished game is worth), implements the matching executable
//! accessors, and proves the four game laws.  In exchange the engine
//! functions [`minimax_search`] and [`minimax_value`] explore the
//! full game tree and are proved to return exactly the
//! game-theoretic value and the first optimal action.

use vstd::prelude::*;

verus! {

/// Why a transition attempt was rejected.
#[derive(Copy, Clone, PartialEq, Eq, Structural, Debug)]
pub enum ActionError {
    /// This move does not make sense on any board.
    InvalidMove,
    /// This move makes sense but violates the rules of the game.
    IllegalMove,
    /// This move is out of turn.
    WrongPlayer,
}

/// A game state searchable by the engine, over a player type `P` and
/// an action type `A`.
///
/// The spec functions are the mathematical model of the game; the
/// executable methods must agree with them exactly.  The proof
/// methods are the laws every game must establish; the engine's
/// correctness rests on them.
pub trait State<P, A>: Sized where A: Copy {
    /// The player to move.
    spec fn spec_player(&self) -> P;

    /// The legal actions for the player to move, in the game's fixed
    /// enumeration order (ties in the search break towards the first).
    spec fn spec_actions(&self) -> Seq<A>;

    /// The outcome of applying `action`: the successor state, or the
    /// error that rules the action out.
    spec fn spec_result(&self, action: A) -> Result<Self, ActionError>;

    /// The worth of a finished game to `player`.  Meaningful only
    /// when `spec_terminal` holds.
    spec fn spec_utility(&self, player: P) -> int;

    /// Whether play is over.
    spec fn spec_terminal(&self) -> bool;

    /// An upper bound on the number of plies left; every legal move
    /// strictly decreases it, which bounds the search recursion.
    spec fn spec_measure(&self) -> nat;

    /// Get the player who can move in the state.
    fn player(&self) -> (p: P)
        ensures
            p == self.spec_player(),
    ;

    /// Get the possible actions for the current player in the state.
    fn actions(&self) -> (v: Vec<A>)
        ensures
            v@ == self.spec_actions(),
    ;

    /// Get the result of an action in the state.
    fn result(&self, action: A) -> (r: Result<Self, ActionError>)
        ensures
            r == self.spec_result(action),
    ;

    /// Get the utility of the state, which must be terminal.
    fn utility(&self, player: P) -> (u: i64)
        requires
            self.spec_terminal(),
        ensures
            u as int == self.spec_utility(player),
    ;

    /// Return true if the state is terminal.
    fn terminal(&self) -> (b: bool)
        ensures
            b == self.spec_terminal(),
    ;

    /// Law: an action the state itself enumerates applies cleanly,
    /// and the successor is strictly closer to the end of the game.
    proof fn lemma_enumerated_action_applies(&self, i: int)
        requires
            !self.spec_terminal(),
            0 <= i < self.spec_actions().len(),
        ensures
            self.spec_result(self.spec_actions()[i]) is Ok,
            (self.spec_result(self.spec_actions()[i])->Ok_0).spec_measure() < self.spec_measure(),
    ;

    /// Law: a state with no legal actions is terminal.
    proof fn lemma_no_actions_terminal(&self)
        requires
            self.spec_actions().len() == 0,
        ensures
            self.spec_terminal(),
    ;

    /// Law: terminal utilities fit in a machine word with room for
    /// negation, so the engine's arithmetic cannot overflow.
    proof fn lemma_utility_in_range(&self, player: P)
        requires
            self.spec_terminal(),
        ensures
            -0x7fff_ffff_ffff_ffff <= self.spec_utility(player) <= 0x7fff_ffff_ffff_ffff,
    ;

    /// Law: the game is zero-sum; at the end of play one player's
    /// gain is exactly the other's loss.
    proof fn lemma_utility_zero_sum(&self, p: P, q: P)
        requires
            self.spec_terminal(),
            p != q,
        ensures
            self.spec_utility(p) == -self.spec_utility(q),
    ;
}

/// A game: a factory for the state play begins from.
pub trait Game<S, P, A> where A: Copy, S: State<P, A> {
    /// The state a fresh game starts in.
    fn initial_state(&self) -> S;
}

/// The state reached by the `i`-th enumerated action.  Meaningful
/// only while that action applies cleanly.
pub open spec fn successor<P, A: Copy, S: State<P, A>>(s: S, i: int) -> S {
    s.spec_result(s.spec_actions()[i])->Ok_0
}

/// The game value of `s` to the player about to move, computed with
/// an explicit recursion budget `fuel`.  Whenever `fuel` covers
/// `s.spec_measure()` the budget never runs out and the value is the
/// exact minimax value (see `lemma_value_fuel_agrees`).
pub open spec fn value_fuel<P, A: Copy, S: State<P, A>>(s: S, fuel: nat) -> int
    decreases fuel, 1int, 0int,
{
    if s.spec_terminal() {
        s.spec_utility(s.spec_player())
    } else if fuel == 0 {
        0
    } else {
        best_value_upto(s, s.spec_actions().len() as int, fuel)
    }
}

/// The best value the mover in `s` can force using only the first
/// `n` enumerated actions (meaningful for `1 <= n`).
pub open spec fn best_value_upto<P, A: Copy, S: State<P, A>>(s: S, n: int, fuel: nat) -> int
    decreases fuel, 0int, n,
        when fuel >= 1
{
    if n <= 1 {
        -value_fuel(successor(s, 0), (fuel - 1) as nat)
    } else {
        let prev = best_value_upto(s, n - 1, fuel);
        let cur = -value_fuel(successor(s, n - 1), (fuel - 1) as nat);
        if cur > prev {
            cur
        } else {
            prev
        }
    }
}

/// The index of the first action among the first `n` that achieves
/// `best_value_upto(s, n, fuel)`: later actions displace the running
/// best only by a strictly greater score.
pub open spec fn best_index_upto<P, A: Copy, S: State<P, A>>(s: S, n: int, fuel: nat) -> int
    decreases fuel, 0int, n,
        when fuel >= 1
{
    if n <= 1 {
        0
    } else {
        let prev = best_index_upto(s, n - 1, fuel);
        let prev_value = -value_fuel(successor(s, prev), (fuel - 1) as nat);
        let cur = -value_fuel(successor(s, n - 1), (fuel - 1) as nat);
        if cur > prev_value {
            n - 1
        } else {
            prev
        }
    }
}

/// The minimax value of `s` for the player about to move: the
/// utility of `s` when play is over, and otherwise the best value
/// the mover can force against an optimal opponent.
pub open spec fn spec_value<P, A: Copy, S: State<P, A>>(s: S) -> int {
    value_fuel(s, s.spec_measure())
}

/// What following the `i`-th enumerated action is worth to the mover
/// in `s`: the successor's value to the opponent, negated.
pub open spec fn spec_action_value<P, A: Copy, S: State<P, A>>(s: S, i: int) -> int {
    -spec_value(successor(s, i))
}

/// The index of the action the engine picks in a non-terminal state:
/// the first enumerated action of maximal `spec_action_value`.
pub open spec fn spec_best_index<P, A: Copy, S: State<P, A>>(s: S) -> int {
    best_index_upto(s, s.spec_actions().len() as int, s.spec_measure())
}

/// The action the engine picks in a non-terminal state.
pub open spec fn spec_best_action<P, A: Copy, S: State<P, A>>(s: S) -> A {
    s.spec_actions()[spec_best_index(s)]
}

/// The running best index stays inside the actions scanned so far.
proof fn lemma_best_index_range<P, A: Copy, S: State<P, A>>(s: S, n: int, fuel: nat)
    requires
        1 <= n,
        fuel >= 1,
    ensures
        0 <= best_index_upto(s, n, fuel) < n,
    decreases n,
{
    if n > 1 {
        lemma_best_index_range(s, n - 1, fuel);
    }
}

/// The fuel parameter is immaterial once it covers the measure: any
/// two sufficient budgets compute the same value.
pub proof fn lemma_value_fuel_agrees<P, A: Copy, S: State<P, A>>(s: S, f1: nat, f2: nat)
    requires
        f1 >= s.spec_measure(),
        f2 >= s.spec_measure(),
    ensures
        value_fuel(s, f1) == value_fuel(s, f2),
    decreases s.spec_measure(), 1int, 0int,
{
    if !s.spec_terminal() {
        if s.spec_actions().len() == 0 {
            s.lemma_no_actions_terminal();
        }
        s.lemma_enumerated_action_applies(0);
        lemma_best_upto_agrees(s, s.spec_actions().len() as int, f1, f2);
    }
}

/// Helper for `lemma_value_fuel_agrees`: the scan over the first `n`
/// actions agrees under any two sufficient budgets.
proof fn lemma_best_upto_agrees<P, A: Copy, S: State<P, A>>(s: S, n: int, f1: nat, f2: nat)
    requires
        !s.spec_terminal(),
        1 <= n <= s.spec_actions().len(),
        s.spec_measure() >= 1,
        f1 >= s.spec_measure(),
        f2 >= s.spec_measure(),
    ensures
        best_value_upto(s, n, f1) == best_value_upto(s, n, f2),
        best_index_upto(s, n, f1) == best_index_upto(s, n, f2),
    decreases s.spec_measure(), 0int, n,
{
    s.lemma_enumerated_action_applies(n - 1);
    lemma_value_fuel_agrees(successor(s, n - 1), (f1 - 1) as nat, (f2 - 1) as nat);
    if n > 1 {
        lemma_best_upto_agrees(s, n - 1, f1, f2);
        let prev = best_index_upto(s, n - 1, f1);
        lemma_best_index_range(s, n - 1, f1);
        s.lemma_enumerated_action_applies(prev);
        lemma_value_fuel_agrees(successor(s, prev), (f1 - 1) as nat, (f2 - 1) as nat);
    }
}

/// Every value the game tree can take fits in a machine word with
/// room for negation.
pub proof fn lemma_value_fuel_in_range<P, A: Copy, S: State<P, A>>(s: S, fuel: nat)
    ensures
        -0x7fff_ffff_ffff_ffff <= value_fuel(s, fuel) <= 0x7fff_ffff_ffff_ffff,
    decreases fuel, 1int, 0int,
{
    if s.spec_terminal() {
        s.lemma_utility_in_range(s.spec_player());
    } else if fuel >= 1 {
        if s.spec_actions().len() == 0 {
            s.lemma_no_actions_terminal();
        } else {
            lemma_best_upto_in_range(s, s.spec_actions().len() as int, fuel);
        }
    }
}

/// Helper for `lemma_value_fuel_in_range`, over the scan prefix.
proof fn lemma_best_upto_in_range<P, A: Copy, S: State<P, A>>(s: S, n: int, fuel: nat)
    requires
        !s.spec_terminal(),
        1 <= n,
        fuel >= 1,
    ensures
        -0x7fff_ffff_ffff_ffff <= best_value_upto(s, n, fuel) <= 0x7fff_ffff_ffff_ffff,
    decreases fuel, 0int, n,
{
    lemma_value_fuel_in_range(successor(s, n - 1), (fuel - 1) as nat);
    if n > 1 {
        lemma_best_upto_in_range(s, n - 1, fuel);
    }
}

/// The scan over the first `n` actions returns the value of the
/// action at its chosen index; that value is maximal among the
/// scanned actions, and every earlier action is strictly worse.
proof fn lemma_best_upto_props<P, A: Copy, S: State<P, A>>(s: S, n: int, fuel: nat)
    requires
        1 <= n,
        fuel >= 1,
    ensures
        0 <= best_index_upto(s, n, fuel) < n,
        best_value_upto(s, n, fuel) == -value_fuel(
            #[trigger] successor(s, best_index_upto(s, n, fuel)),
            (fuel - 1) as nat,
        ),
        forall|j: int|
            0 <= j < n ==> -value_fuel(#[trigger] successor(s, j), (fuel - 1) as nat)
                <= best_value_upto(s, n, fuel),
        forall|j: int|
            0 <= j < best_index_upto(s, n, fuel) ==> -value_fuel(
                #[trigger] successor(s, j),
                (fuel - 1) as nat,
            ) < best_value_upto(s, n, fuel),
    decreases n,
{
    if n > 1 {
        lemma_best_upto_props(s, n - 1, fuel);
    }
}

/// Law (proved): the value of a finished game is its utility to the
/// player who would have moved.
pub proof fn lemma_value_when_terminal<P, A: Copy, S: State<P, A>>(s: S)
    requires
        s.spec_terminal(),
    ensures
        spec_value(s) == s.spec_utility(s.spec_player()),
{
}

/// Connects the per-action values at full fuel to `spec_action_value`.
proof fn lemma_action_value_fuel<P, A: Copy, S: State<P, A>>(s: S, j: int)
    requires
        !s.spec_terminal(),
        0 <= j < s.spec_actions().len(),
    ensures
        spec_action_value(s, j) == -value_fuel(successor(s, j), (s.spec_measure() - 1) as nat),
{
    s.lemma_enumerated_action_applies(j);
    lemma_value_fuel_agrees(
        successor(s, j),
        (s.spec_measure() - 1) as nat,
        successor(s, j).spec_measure(),
    );
}

/// Law (proved): in a position where play goes on, the game value is
/// the maximum over the legal actions of the successor's value to
/// the opponent, negated.
pub proof fn lemma_value_recurrence<P, A: Copy, S: State<P, A>>(s: S)
    requires
        !s.spec_terminal(),
    ensures
        s.spec_actions().len() >= 1,
        forall|j: int|
            0 <= j < s.spec_actions().len() ==> #[trigger] spec_action_value(s, j)
                <= spec_value(s),
        exists|j: int|
            0 <= j < s.spec_actions().len() && #[trigger] spec_action_value(s, j)
                == spec_value(s),
{
    lemma_best_action_first_optimal(s);
    assert(spec_action_value(s, spec_best_index(s)) == spec_value(s));
}

/// Law (proved): the engine's pick achieves the game value, no legal
/// action beats it, and every action enumerated before it is
/// strictly worse — the first optimal action wins ties.
pub proof fn lemma_best_action_first_optimal<P, A: Copy, S: State<P, A>>(s: S)
    requires
        !s.spec_terminal(),
    ensures
        s.spec_actions().len() >= 1,
        0 <= spec_best_index(s) < s.spec_actions().len(),
        spec_best_action(s) == s.spec_actions()[spec_best_index(s)],
        spec_action_value(s, spec_best_index(s)) == spec_value(s),
        forall|j: int|
            0 <= j < s.spec_actions().len() ==> #[trigger] spec_action_value(s, j)
                <= spec_value(s),
        forall|j: int|
            0 <= j < spec_best_index(s) ==> #[trigger] spec_action_value(s, j) < spec_value(s),
{
    let len = s.spec_actions().len() as int;
    let fuel = s.spec_measure();
    if len == 0 {
        s.lemma_no_actions_terminal();
    }
    s.lemma_enumerated_action_applies(0);
    lemma_best_upto_props(s, len, fuel);
    assert forall|j: int| 0 <= j < len implies #[trigger] spec_action_value(s, j)
        == -value_fuel(successor(s, j), (fuel - 1) as nat) by {
        lemma_action_value_fuel(s, j);
    }
    assert(spec_value(s) == best_value_upto(s, len, fuel));
}

/// Return the maximum value available from this state for the
/// current player, assuming an alternating zero-sum game in which
/// the other player plays optimally: the utility when play is over,
/// and otherwise the best score among the legal actions, where an
/// action's score is the successor's value to the opponent, negated.
pub fn minimax_value<P, A: Copy, S: State<P, A>>(s: &S) -> (v: i64)
    ensures
        v as int == spec_value(*s),
    decreases s.spec_measure(),
{
    if s.terminal() {
        return s.utility(s.player());
    }
    let acts = s.actions();
    proof {
        if acts@.len() == 0 {
            s.lemma_no_actions_terminal();
        }
        s.lemma_enumerated_action_applies(0);
    }
    let mut v: i64 = -0x7fff_ffff_ffff_ffff - 1;
    let mut i: usize = 0;
    while i < acts.len()
        invariant
            !s.spec_terminal(),
            acts@ == s.spec_actions(),
            s.spec_measure() >= 1,
            0 <= i <= acts@.len(),
            1 <= acts@.len(),
            i == 0 ==> v == -0x7fff_ffff_ffff_ffff - 1,
            i >= 1 ==> v as int == best_value_upto(*s, i as int, s.spec_measure()),
        decreases acts@.len() - i,
    {
        let a = acts[i];
        proof {
            s.lemma_enumerated_action_applies(i as int);
        }
        let child = match s.result(a) {
            Ok(c) => c,
            Err(_) => vstd::pervasive::unreached(),
        };
        let cv = minimax_value(&child);
        proof {
            lemma_value_fuel_in_range(child, child.spec_measure());
            lemma_action_value_fuel(*s, i as int);
        }
        let score = -cv;
        if score > v {
            v = score;
        }
        i = i + 1;
    }
    v
}

/// Perform a minimax search: pick the legal action whose score is
/// maximal, breaking ties towards the action the state enumerates
/// first.  A non-terminal state always has a legal action, so the
/// search always finds one.
pub fn minimax_search<P, A: Copy, S: State<P, A>>(s: &S) -> (a: Option<A>)
    requires
        !s.spec_terminal(),
    ensures
        a == Some(spec_best_action(*s)),
{
    let acts = s.actions();
    proof {
        if acts@.len() == 0 {
            s.lemma_no_actions_terminal();
        }
        s.lemma_enumerated_action_applies(0);
    }
    let mut best_action: Option<A> = None;
    let mut best_score: i64 = -0x7fff_ffff_ffff_ffff - 1;
    let mut i: usize = 0;
    while i < acts.len()
        invariant
            !s.spec_terminal(),
            acts@ == s.spec_actions(),
            s.spec_measure() >= 1,
            0 <= i <= acts@.len(),
            1 <= acts@.len(),
            i == 0 ==> best_action is None && best_score == -0x7fff_ffff_ffff_ffff - 1,
            i >= 1 ==> {
                &&& best_action == Some(acts@[best_index_upto(*s, i as int, s.spec_measure())])
                &&& best_score as int == best_value_upto(*s, i as int, s.spec_measure())
            },
        decreases acts@.len() - i,
    {
        let a = acts[i];
        proof {
            s.lemma_enumerated_action_applies(i as int);
            if i >= 1 {
                lemma_best_upto_props(*s, i as int, s.spec_measure());
            }
        }
        let child = match s.result(a) {
            Ok(c) => c,
            Err(_) => vstd::pervasive::unreached(),
        };
        let cv = minimax_value(&child);
        proof {
            lemma_value_fuel_in_range(child, child.spec_measure());
            lemma_action_value_fuel(*s, i as int);
        }
        let score = -cv;
        if score > best_score {
            best_action = Some(a);
            best_score = score;
        }
        i = i + 1;
    }
    best_action
}

/// Law (proved): the search is deterministic.  Any two results that
/// the engine's contract admits for value-equal states are the same
/// action; ties were already broken towards the first enumerated.
pub proof fn lemma_search_deterministic<P, A: Copy, S: State<P, A>>(s1: S, s2: S, a1: A, a2: A)
    requires
        s1 == s2,
        a1 == spec_best_action(s1),
        a2 == spec_best_action(s2),
    ensures
        a1 == a2,
{
}

} // verus!
