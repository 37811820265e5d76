//! Status events emitted during a diagnostic run.

use vstd::prelude::*;

verus! {

/// One progress or verdict message emitted during a diagnostic run.
///
/// A run produces an ordered, non-empty sequence of these: any number of
/// `Working` events describing progress, closed by exactly one terminal
/// event, which is `Error` for a diagnosed fault or `Good` for full
/// connectivity.
#[derive(Clone)]
pub enum Status {
    Working(String),
    Error(String),
    Good(String),
}

/// The mathematical shape of a status event: its severity together with the
/// message text as a sequence of characters.
pub enum EventV {
    Working(Seq<char>),
    Error(Seq<char>),
    Good(Seq<char>),
}

impl View for Status {
    type V = EventV;

    open spec fn view(&self) -> EventV {
        match self {
            Status::Working(m) => EventV::Working(m@),
            Status::Error(m) => EventV::Error(m@),
            Status::Good(m) => EventV::Good(m@),
        }
    }
}

impl DeepView for Status {
    type V = EventV;

    open spec fn deep_view(&self) -> EventV {
        self.view()
    }
}

/// A non-terminal event: the run goes on after emitting it.
pub open spec fn is_working(e: EventV) -> bool {
    e is Working
}

/// A terminal event: the last event of every run, and of no other position.
pub open spec fn is_terminal(e: EventV) -> bool {
    e is Error || e is Good
}

} // verus!
