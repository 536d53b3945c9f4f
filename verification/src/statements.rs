use vstd::prelude::*;

verus! {

/// Position of a statement batch within an interactive transaction.
///
/// `Start` is the entry phase of a batch that arrives outside any
/// transaction; `TxnOpened` and `TxnClosed` bracket an interactive
/// transaction; `Invalid` is the explicit catch-all for every other
/// situation, and the coordination layer treats it like any oneshot
/// outcome, letting the storage engine surface its own errors.
#[derive(Clone, Copy, Debug, PartialEq, Eq, Structural)]
pub enum State {
    Start,
    TxnOpened,
    TxnClosed,
    Invalid,
}

/// A batch of SQL text together with its phase-transition function.
///
/// Classification happens upstream: whoever builds a `Statements` value
/// records, for each entry phase the workers ever consult, which phase the
/// batch moves the session to. The batch itself is immutable.
#[derive(Debug)]
pub struct Statements {
    /// The SQL text, executed verbatim against a worker's connection.
    pub stmts: String,
    /// Phase reached when the batch is run with entry phase `Start`.
    pub from_start: State,
    /// Phase reached when the batch is run with entry phase `TxnOpened`.
    pub from_opened: State,
}

impl Statements {
    /// The pure phase-transition function: next phase from `entry`.
    /// Entry phases other than `Start` and `TxnOpened` are never reached by
    /// a running session and fall to the catch-all.
    pub open spec fn state_spec(self, entry: State) -> State {
        match entry {
            State::Start => self.from_start,
            State::TxnOpened => self.from_opened,
            _ => State::Invalid,
        }
    }

    /// The batch opens an interactive transaction when dequeued fresh.
    pub open spec fn opens_txn(self) -> bool {
        self.state_spec(State::Start) == State::TxnOpened
    }

    /// Run inside an open transaction with outcome `ok`, the batch closes
    /// the transaction cleanly: the phase function reports `TxnClosed` and
    /// the execution succeeded. A failed execution never closes a
    /// transaction, whatever the phase function says.
    pub open spec fn closes_txn(self, ok: bool) -> bool {
        self.state_spec(State::TxnOpened) == State::TxnClosed && ok
    }

    pub fn new(stmts: String, from_start: State, from_opened: State) -> (r: Statements)
        ensures
            r.stmts == stmts,
            r.from_start == from_start,
            r.from_opened == from_opened,
    {
        Statements { stmts, from_start, from_opened }
    }

    /// Evaluate the transition function at `entry`.
    pub fn state(&self, entry: State) -> (r: State)
        ensures
            r == self.state_spec(entry),
    {
        match entry {
            State::Start => self.from_start,
            State::TxnOpened => self.from_opened,
            _ => State::Invalid,
        }
    }
}

} // verus!
