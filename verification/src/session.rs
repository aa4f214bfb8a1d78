//! Per-connection application state.

use vstd::prelude::*;

verus! {

/// One connected client's application state.
///
/// A `Session` is created when a transport channel is opened for a
/// connection, owned exclusively by the registry once inserted, and destroyed
/// when the client sends the termination command or the transport reports
/// closure.
#[derive(Clone, Copy, Debug, PartialEq, Eq, Structural)]
pub struct Session {
    /// Mutable per-session counter, zero at creation.
    pub counter: usize,
}

impl Session {
    /// A fresh session, as created at channel-open time.
    pub fn new() -> (s: Session)
        ensures
            s.counter == 0,
    {
        Session { counter: 0 }
    }
}

} // verus!
