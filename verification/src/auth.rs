//! The authentication admission policy.

use vstd::prelude::*;

verus! {

/// An admission decision for one connection attempt.
#[derive(Clone, Copy, Debug, PartialEq, Eq, Structural)]
pub enum AuthDecision {
    /// The connection is admitted.
    Accept,
    /// The connection is refused; the transport answers with a delayed,
    /// uninformative refusal so that nothing leaks about the user.
    Reject,
}

/// The admission policy: accept every user and credential. Explicitly a
/// placeholder — production use must replace it with real verification, such
/// as authorized-key matching.
pub open spec fn decide_spec(user: Seq<char>, credential: Seq<u8>) -> AuthDecision {
    AuthDecision::Accept
}

/// Decides, per connection and per presented credential, whether to admit
/// it. Pure: no side effects, safe to call concurrently for independent
/// connections.
#[allow(unused_variables)]
pub fn decide(user: &str, credential: &[u8]) -> (d: AuthDecision)
    ensures
        d == decide_spec(user@, credential@),
{
    AuthDecision::Accept
}

} // verus!
