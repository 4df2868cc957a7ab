//! The content of a cell, and the outcome of a position.
use vstd::prelude::*;

verus! {

/// What a cell holds, or who has won a position.
#[derive(Debug, Clone, Copy, PartialEq, Eq, Hash, Structural)]
pub enum State {
    Empty,
    P1,
    P2,
    Draw,
}

/// The state that the two-bit code `x` stands for: 1, 2 and 3 are the two
/// players and a draw; every other value reads as an empty cell.
pub open spec fn state_of(x: u64) -> State {
    if x == 1 {
        State::P1
    } else if x == 2 {
        State::P2
    } else if x == 3 {
        State::Draw
    } else {
        State::Empty
    }
}

impl State {
    /// The two-bit code of a state: its position in the declaration.
    pub open spec fn code(self) -> u64 {
        match self {
            State::Empty => 0,
            State::P1 => 1,
            State::P2 => 2,
            State::Draw => 3,
        }
    }

    /// Executable form of [`State::code`].
    pub fn bits(self) -> (r: u64)
        ensures
            r == self.code(),
    {
        match self {
            State::Empty => 0,
            State::P1 => 1,
            State::P2 => 2,
            State::Draw => 3,
        }
    }
}

impl From<u64> for State {
    fn from(x: u64) -> (r: State) {
        if x == 1 {
            State::P1
        } else if x == 2 {
            State::P2
        } else if x == 3 {
            State::Draw
        } else {
            State::Empty
        }
    }
}

impl vstd::std_specs::convert::FromSpecImpl<u64> for State {
    open spec fn obeys_from_spec() -> bool {
        true
    }

    open spec fn from_spec(x: u64) -> State {
        state_of(x)
    }
}

/// Reading a state back from its code gives the state.
pub proof fn lemma_state_of_code(s: State)
    ensures
        state_of(s.code()) == s,
        s.code() < 4,
{
}

} // verus!
