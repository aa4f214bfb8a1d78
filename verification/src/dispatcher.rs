//! The server dispatcher's shared core: identity allocation and the
//! construction of one connection handler per accepted connection.

use vstd::prelude::*;

use crate::handler::{ConnectionHandler, HandlerState};
use crate::registry::SessionRegistry;
use crate::session::Session;

verus! {

/// The server's shared mutable core: the next unused session identity and
/// the session registry, folded into one resource so that a program sharing
/// it across concurrent acceptances serializes identity allocation and
/// registry mutation under the same lock — allocation needs the same
/// mutual-exclusion discipline as the registry.
pub struct ServerCore {
    next_id: usize,
    /// The shared session registry. Connection handlers reach it through
    /// this field, one scoped `&mut` access at a time.
    pub registry: SessionRegistry,
}

impl ServerCore {
    /// The next unused session identity.
    pub closed spec fn spec_next_id(&self) -> usize {
        self.next_id
    }

    /// The abstract contents of the shared registry.
    pub closed spec fn spec_registry(&self) -> Map<usize, Session> {
        self.registry@
    }

    /// A fresh core: no identity handed out yet, no session registered.
    pub fn new() -> (c: ServerCore)
        ensures
            c.spec_next_id() == 0,
            c.spec_registry() == Map::<usize, Session>::empty(),
    {
        ServerCore { next_id: 0, registry: SessionRegistry::new() }
    }

    /// Returns the next unused session identity and advances the allocator;
    /// the registry is untouched. Identities increase monotonically and are
    /// never reused.
    pub fn allocate_identity(&mut self) -> (id: usize)
        requires
            old(self).spec_next_id() < usize::MAX,
        ensures
            id == old(self).spec_next_id(),
            final(self).spec_next_id() == old(self).spec_next_id() + 1,
            final(self).spec_registry() == old(self).spec_registry(),
    {
        let id = self.next_id;
        self.next_id = self.next_id + 1;
        id
    }

    /// The session factory: constructs an independent handler for a newly
    /// accepted connection, bound to a freshly allocated identity. The
    /// handler's identity is private to that connection; the registry stays
    /// shared.
    pub fn new_connection(&mut self) -> (h: ConnectionHandler)
        requires
            old(self).spec_next_id() < usize::MAX,
        ensures
            h.spec_id() == old(self).spec_next_id(),
            h.spec_state() == HandlerState::Unauthenticated,
            final(self).spec_next_id() == old(self).spec_next_id() + 1,
            final(self).spec_registry() == old(self).spec_registry(),
    {
        let id = self.allocate_identity();
        ConnectionHandler::new(id)
    }

    /// The next identity that `allocate_identity` would hand out.
    pub fn next_id(&self) -> (id: usize)
        ensures
            id == self.spec_next_id(),
    {
        self.next_id
    }
}

/// The identities handed out by `n` consecutive allocations, starting from a
/// core whose next unused identity is `next`: the `k`-th allocation returns
/// `next + k`.
pub open spec fn allocated_identities(next: int, n: nat) -> Seq<int> {
    Seq::new(n, |k: int| next + k)
}

/// Law: uniqueness — in any run of `n` allocations, no two hand out the same
/// session identity.
pub proof fn lemma_identities_pairwise_distinct(next: int, n: nat, i: int, j: int)
    requires
        0 <= i < n,
        0 <= j < n,
        i != j,
    ensures
        allocated_identities(next, n)[i] != allocated_identities(next, n)[j],
{
}

} // verus!
