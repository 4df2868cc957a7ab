//! The memoised game-tree search.
use vstd::prelude::*;
use rustc_hash::{FxHashMap, FxHasher};
use crate::state::State;
use crate::board::{Board, turned_word, flipped_word};
use crate::rules::{verdict, open_two_choice};

verus! {

/// The hasher that the memo table is built with.
#[verifier::external_type_specification]
#[verifier::external_body]
pub struct ExFxHasher(FxHasher);

/// The hash builder that makes [`FxHasher`]s.
#[verifier::external_type_specification]
#[verifier::external_body]
#[verifier::reject_recursive_types(H)]
pub struct ExBuildHasherDefault<H>(core::hash::BuildHasherDefault<H>);

/// The value of a position for the player to move: 1 won, 0 drawn, -1 lost.
#[derive(Debug, Clone, Copy, PartialEq, Eq, Hash, Structural)]
pub struct Eval {
    pub value: i8,
}

impl Eval {
    pub fn new(value: i8) -> (e: Eval)
        ensures
            e.value == value,
    {
        Eval { value }
    }
}

/// Looks a board word up in the memo table with `HashMap::get`. The claim:
/// the result is the entry of the table's contents (its view), if any;
/// `FxHasher` hashes a key the same way on every call, so the lookup finds
/// what was inserted.
#[verifier::external_body]
fn memo_get(memo: &FxHashMap<u64, Eval>, key: u64) -> (r: Option<Eval>)
    ensures
        r == (if memo@.contains_key(key) {
            Some(memo@[key])
        } else {
            None
        }),
{
    memo.get(&key).copied()
}

/// Stores an entry in the memo table with `HashMap::insert`. The claim: the
/// contents afterwards are the contents before with `key` mapped to `value`.
#[verifier::external_body]
fn memo_insert(memo: &mut FxHashMap<u64, Eval>, key: u64, value: Eval)
    ensures
        final(memo)@ == old(memo)@.insert(key, value),
{
    memo.insert(key, value);
}

/// The player to move at a given depth: the first player at even depths.
pub open spec fn player_at(depth: nat) -> State {
    if depth % 2 == 0 {
        State::P1
    } else {
        State::P2
    }
}

/// The value of a decided position for the player `cur` to move.
pub open spec fn score(s: State, cur: State) -> i8 {
    if s == cur {
        1
    } else if s == State::Draw {
        0
    } else {
        -1i8
    }
}

/// The symmetric views of a board word in the order they are looked up: four
/// quarter turns, then a reflection and four more quarter turns.
pub open spec fn view_at(w: u64, k: nat) -> u64
    decreases k,
{
    if k == 0 {
        w
    } else if k == 4 {
        flipped_word(turned_word(view_at(w, 3)))
    } else {
        turned_word(view_at(w, (k - 1) as nat))
    }
}

/// The word a board is stored under: the last view turned and reflected.
pub open spec fn memo_key(w: u64) -> u64 {
    flipped_word(turned_word(view_at(w, 7)))
}

/// The stored value of the first of the views `k ..` of `w` found in `memo`.
pub open spec fn lookup(memo: Map<u64, Eval>, w: u64, k: nat) -> Option<Eval>
    decreases 8 - k,
{
    if k >= 8 {
        None
    } else if memo.contains_key(view_at(w, k)) {
        Some(memo[view_at(w, k)])
    } else {
        lookup(memo, w, k + 1)
    }
}

/// The better of the running value and the negated value of a reply.
pub open spec fn better(value: i8, reply: i8) -> i8 {
    if value as int >= -(reply as int) {
        value
    } else {
        (-(reply as int)) as i8
    }
}

/// The search, as a function of the board word, the memo contents and the
/// depth: the value, the memo contents afterwards, and how many positions
/// were counted. Past depth 11 a position is worth 0 and is not counted. A
/// decided position is worth its score. A position one of whose views is
/// stored is worth the stored value. Otherwise the position is stored under
/// [`memo_key`] with the best negated value of its replies, starting from
/// -1: only the two ends of the chosen open two when there is one, else the
/// empty cells in order, stopping at the first win.
pub open spec fn search(w: u64, memo: Map<u64, Eval>, depth: nat) -> (i8, Map<u64, Eval>, nat)
    decreases 12 - depth, 30int,
{
    if depth > 11 {
        (0, memo, 0)
    } else {
        let cur = player_at(depth);
        let s = verdict(w, cur);
        if s != State::Empty {
            (score(s, cur), memo, 1)
        } else {
            match lookup(memo, w, 0) {
                Some(e) => (e.value, memo, 1),
                None => {
                    let key = memo_key(w);
                    let r = match open_two_choice(key, cur) {
                        Some(ends) => {
                            let first = reply(key, depth, memo, -1i8, ends.0.0, ends.0.1);
                            if first.0 {
                                (first.1, first.2, first.3)
                            } else {
                                let second = reply(key, depth, first.2, first.1, ends.1.0, ends.1.1);
                                (second.1, second.2, first.3 + second.3)
                            }
                        },
                        None => replies(key, depth, memo, -1i8, 0),
                    };
                    (r.0, r.1.insert(key, Eval { value: r.0 }), 1 + r.2)
                },
            }
        }
    }
}

/// Trying the move at row `y`, column `x` of the board word `key` at
/// `depth`, with running value `value`: whether the search stops there, the
/// new running value, the memo contents and the positions counted. An
/// occupied cell changes nothing.
pub open spec fn reply(key: u64, depth: nat, memo: Map<u64, Eval>, value: i8, y: usize, x: usize) -> (
    bool,
    i8,
    Map<u64, Eval>,
    nat,
)
    decreases 12 - depth, 1int,
{
    if depth > 11 || y * 5 + x >= 32 || Board(key).at(y * 5 + x) != State::Empty {
        (false, value, memo, 0)
    } else {
        let child = search(
            Board(key).placed(y * 5 + x, player_at(depth)).0,
            memo,
            depth + 1,
        );
        let v = better(value, child.0);
        (v == 1, v, child.1, child.2)
    }
}

/// Trying the cells `k ..` of the board in order, stopping at the first win.
pub open spec fn replies(key: u64, depth: nat, memo: Map<u64, Eval>, value: i8, k: nat) -> (
    i8,
    Map<u64, Eval>,
    nat,
)
    decreases 12 - depth, 27 - k,
{
    if k >= 25 {
        (value, memo, 0)
    } else {
        let r = reply(key, depth, memo, value, (k / 5) as usize, (k % 5) as usize);
        if r.0 {
            (r.1, r.2, r.3)
        } else {
            let rest = replies(key, depth, r.2, r.1, k + 1);
            (rest.0, rest.1, r.3 + rest.2)
        }
    }
}

/// An upper bound on the positions that a search from `depth` counts: one,
/// and at most 25 replies each searched one level deeper.
pub open spec fn visit_bound(depth: nat) -> nat
    decreases 12 - depth,
{
    if depth > 11 {
        0
    } else {
        1 + 25 * visit_bound(depth + 1)
    }
}

/// No stored value is -128, so every stored value can be negated.
pub open spec fn negatable(memo: Map<u64, Eval>) -> bool {
    forall|k: u64| memo.contains_key(k) ==> #[trigger] memo[k].value > -128
}

impl Board {
    /// The value of the position for the player to move at `depth` (the first
    /// player at even depths), searching at most to depth 11 and storing what
    /// it finds in `memo`; `total` counts the positions searched. The view of
    /// the board under the eight symmetries of the square is looked up first.
    pub fn eval(self, memo: &mut FxHashMap<u64, Eval>, depth: usize, total: &mut u64) -> (e: Eval)
        requires
            negatable(old(memo)@),
            *old(total) + visit_bound(depth as nat) <= u64::MAX,
        ensures
            ({
                let r = search(self.0, old(memo)@, depth as nat);
                &&& e.value == r.0
                &&& final(memo)@ == r.1
                &&& *final(total) == *old(total) + r.2
                &&& r.2 <= visit_bound(depth as nat)
            }),
            negatable(final(memo)@),
            e.value > -128,
        decreases 12 - depth, 2int,
    {
        if depth > 11 {
            return Eval::new(0);
        }
        let ghost w = self.0;
        let ghost memo0 = memo@;
        let ghost t0: int = *total as int;
        *total = *total + 1;
        let parity: usize = depth & 1;
        assert(parity == depth % 2) by (bit_vector)
            requires
                parity == depth & 1,
        ;
        let current = State::from((parity + 1) as u64);
        assert(current == player_at(depth as nat));
        // decided positions first
        let settled = self.settled(current);
        if settled != State::Empty {
            let value: i8 = if settled == current {
                1
            } else if settled == State::Draw {
                0
            } else {
                -1
            };
            return Eval::new(value);
        }
        // a position seen before, as it is or turned or reflected
        let mut board = self;
        let mut round: usize = 0;
        while round < 2
            invariant
                round <= 2,
                memo@ == memo0,
                memo0 == old(memo)@,
                negatable(memo0),
                *total == t0 + 1,
                t0 == *old(total),
                depth <= 11,
                verdict(w, player_at(depth as nat)) == State::Empty,
                w == self.0,
                board.0 == (if round == 0 {
                    w
                } else if round == 1 {
                    view_at(w, 4)
                } else {
                    memo_key(w)
                }),
                lookup(memo0, w, 0) == lookup(memo0, w, (4 * round) as nat),
            decreases 2 - round,
        {
            let mut turn: usize = 0;
            while turn < 4
                invariant
                    round < 2,
                    turn <= 4,
                    memo@ == memo0,
                    memo0 == old(memo)@,
                    negatable(memo0),
                    *total == t0 + 1,
                    t0 == *old(total),
                    depth <= 11,
                    verdict(w, player_at(depth as nat)) == State::Empty,
                    w == self.0,
                    board.0 == (if turn < 4 {
                        view_at(w, (4 * round + turn) as nat)
                    } else {
                        turned_word(view_at(w, (4 * round + 3) as nat))
                    }),
                    lookup(memo0, w, 0) == lookup(memo0, w, (4 * round + turn) as nat),
                decreases 4 - turn,
            {
                match memo_get(memo, board.0) {
                    Some(eval) => {
                        return eval;
                    },
                    None => {},
                }
                board = board.rotate_90();
                turn = turn + 1;
            }
            board = board.mirrored();
            round = round + 1;
        }
        assert(lookup(memo0, w, 8) is None);
        // the replies
        let ghost key = board.0;
        let ghost memo_s = memo@;
        let ghost total_s: int = *total as int;
        let ghost all = replies(key, depth as nat, memo_s, -1i8, 0);
        let mut value: i8 = -1;
        proof {
            assert(visit_bound(depth as nat) == 1 + 25 * visit_bound(depth as nat + 1));
        }
        match board.has_free2(current) {
            Some((start, end)) => {
                if !board.evaluate_move(start.0, start.1, current, memo, depth, &mut value, total) {
                    board.evaluate_move(end.0, end.1, current, memo, depth, &mut value, total);
                }
            },
            None => {
                let mut k: usize = 0;
                while k < 25
                    invariant_except_break
                        k <= 25,
                        depth <= 11,
                        current == player_at(depth as nat),
                        board.0 == key,
                        value >= -1,
                        negatable(memo@),
                        *total <= total_s + k * visit_bound(depth as nat + 1),
                        total_s + 25 * visit_bound(depth as nat + 1) <= u64::MAX,
                        ({
                            let rest = replies(key, depth as nat, memo@, value, k as nat);
                            &&& all.0 == rest.0
                            &&& all.1 == rest.1
                            &&& all.2 == (*total - total_s) + rest.2
                        }),
                    ensures
                        value == all.0,
                        memo@ == all.1,
                        *total == total_s + all.2,
                        all.2 <= 25 * visit_bound(depth as nat + 1),
                        value >= -1,
                        negatable(memo@),
                    decreases 25 - k,
                {
                    proof {
                        assert((k + 1) * visit_bound(depth as nat + 1) == k * visit_bound(
                            depth as nat + 1,
                        ) + visit_bound(depth as nat + 1)) by (nonlinear_arith);
                        assert((k + 1) * visit_bound(depth as nat + 1) <= 25 * visit_bound(
                            depth as nat + 1,
                        )) by (nonlinear_arith)
                            requires
                                k < 25,
                        ;
                    }
                    if board.evaluate_move(k / 5, k % 5, current, memo, depth, &mut value, total) {
                        break;
                    }
                    k = k + 1;
                }
            },
        }
        memo_insert(memo, board.0, Eval::new(value));
        Eval::new(value)
    }
    /// Plays `current` on the cell in row `y`, column `x` if it is empty,
    /// searches the reply one level deeper and raises `value` to the negated
    /// value of the reply; returns whether `value` reached a win.
    fn evaluate_move(
        self,
        y: usize,
        x: usize,
        current: State,
        memo: &mut FxHashMap<u64, Eval>,
        depth: usize,
        value: &mut i8,
        total: &mut u64,
    ) -> (stop: bool)
        requires
            y < 5,
            x < 5,
            depth <= 11,
            current == player_at(depth as nat),
            *old(value) >= -1,
            negatable(old(memo)@),
            *old(total) + visit_bound(depth as nat + 1) <= u64::MAX,
        ensures
            ({
                let r = reply(self.0, depth as nat, old(memo)@, *old(value), y, x);
                &&& stop == r.0
                &&& *final(value) == r.1
                &&& final(memo)@ == r.2
                &&& *final(total) == *old(total) + r.3
                &&& r.3 <= visit_bound(depth as nat + 1)
            }),
            *final(value) >= -1,
            negatable(final(memo)@),
        decreases 12 - depth, 1int,
    {
        if !self.is_available(y, x) {
            return false;
        }
        let next = self.set(y, x, current);
        let eval = next.eval(memo, depth + 1, total);
        let reply_value: i8 = -eval.value;
        if *value < reply_value {
            *value = reply_value;
        }
        *value == 1
    }
    /// Searches the position from depth 0 with an empty memo table that has
    /// room reserved for `capacity` entries; returns the value and the number
    /// of positions searched.
    pub fn solve(self, capacity: usize) -> (r: (Eval, u64))
        ensures
            r.0.value == search(self.0, Map::empty(), 0).0,
            r.1 == search(self.0, Map::empty(), 0).2,
    {
        let mut memo: FxHashMap<u64, Eval> = FxHashMap::default();
        memo.reserve(capacity);
        let mut total: u64 = 0;
        proof {
            reveal_with_fuel(visit_bound, 13);
            assert(visit_bound(0) <= u64::MAX);
        }
        let e = self.eval(&mut memo, 0, &mut total);
        (e, total)
    }
}

} // verus!
