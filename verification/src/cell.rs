use vstd::prelude::*;

verus! {

/// One cell of the board.
#[derive(Debug, Copy, Clone, Eq, PartialEq, Structural)]
pub enum State {
    Alive,
    Died,
}

/// The birth/survival rule: a live cell stays alive with two or three live
/// neighbours, a dead cell is born with exactly three, everything else is dead.
pub open spec fn next_state(current: State, live: int) -> State {
    match current {
        State::Alive => if live == 2 || live == 3 {
            State::Alive
        } else {
            State::Died
        },
        State::Died => if live == 3 {
            State::Alive
        } else {
            State::Died
        },
    }
}

/// The cell that a raw draw gives under a live rate in percent: alive exactly
/// when the draw, reduced to `0..100`, does not exceed the rate.
pub open spec fn seeded_cell(draw: u32, rate: u32) -> State {
    if (draw % 100) <= rate {
        State::Alive
    } else {
        State::Died
    }
}

impl State {
    /// Applies the rule to a cell and the number of its live neighbours.
    pub fn next(self, live: u8) -> (r: State)
        ensures
            r == next_state(self, live as int),
    {
        match self {
            State::Alive => if live == 2 || live == 3 {
                State::Alive
            } else {
                State::Died
            },
            State::Died => if live == 3 {
                State::Alive
            } else {
                State::Died
            },
        }
    }

    pub fn is_alive(self) -> (r: bool)
        ensures
            r == (self == State::Alive),
    {
        match self {
            State::Alive => true,
            State::Died => false,
        }
    }

    /// Turns one raw draw into a cell under the given live rate.
    pub fn from_draw(draw: u32, rate: u32) -> (r: State)
        ensures
            r == seeded_cell(draw, rate),
            rate >= 100 ==> r == State::Alive,
    {
        if draw % 100 <= rate {
            State::Alive
        } else {
            State::Died
        }
    }
}

} // verus!
