//! The session registry: the single source of truth mapping a session
//! identity to its [`Session`].

use std::collections::HashMap;
use vstd::prelude::*;

use crate::session::Session;

verus! {

broadcast use vstd::std_specs::hash::group_hash_axioms;

/// Error signalled by a registry operation that found no session.
#[derive(Clone, Copy, Debug, PartialEq, Eq, Structural)]
pub enum RegistryError {
    /// The identity is not present in the registry; callers treat this as
    /// "session already gone", not as a crash.
    NotFound,
}

/// Mapping from session identity to `Session`, shared by all connection
/// handlers.
///
/// Every mutation goes through a `&mut` method, so a program that shares one
/// registry across concurrent connections must serialize the calls (it holds
/// the registry behind a lock, taken only for the duration of a single call,
/// never across an I/O wait). Each call is then atomic with respect to the
/// others: no interleaving of insert, remove and scoped mutation produces a
/// torn read or a lost update, and a lookup never observes a
/// partially-constructed session.
pub struct SessionRegistry {
    map: HashMap<usize, Session>,
}

impl SessionRegistry {
    /// The abstract contents: which identities are live, and the session
    /// state of each.
    pub closed spec fn view(&self) -> Map<usize, Session> {
        self.map@
    }

    /// An empty registry, as the server starts with.
    pub fn new() -> (r: SessionRegistry)
        ensures
            r@ == Map::<usize, Session>::empty(),
    {
        SessionRegistry { map: HashMap::new() }
    }

    /// The number of live sessions.
    pub fn len(&self) -> (n: usize)
        ensures
            n == self@.dom().len(),
    {
        self.map.len()
    }

    /// Whether a session is registered under `id`.
    pub fn contains(&self, id: usize) -> (r: bool)
        ensures
            r == self@.dom().contains(id),
    {
        self.map.contains_key(&id)
    }

    /// The session registered under `id`, if any.
    pub fn get(&self, id: usize) -> (r: Option<Session>)
        ensures
            r == if self@.dom().contains(id) {
                Some(self@[id])
            } else {
                None::<Session>
            },
    {
        match self.map.get(&id) {
            Some(s) => Some(*s),
            None => None,
        }
    }

    /// Registers `s` under `id`. An identity already present is silently
    /// overwritten (a defensive guard for a re-opened channel, not a normal
    /// path).
    pub fn insert(&mut self, id: usize, s: Session)
        ensures
            final(self)@ == old(self)@.insert(id, s),
    {
        self.map.insert(id, s);
    }

    /// Removes the session registered under `id`. Removal of an absent
    /// identity is a no-op, not an error.
    pub fn remove(&mut self, id: usize)
        ensures
            final(self)@ == old(self)@.remove(id),
    {
        self.map.remove(&id);
    }

    /// Scoped, mutually exclusive mutation of the session under `id`:
    /// increments its counter and returns the new value, or signals
    /// `NotFound` when the identity is absent. No caller holds a reference
    /// to a session outside such a scoped access.
    pub fn increment_counter(&mut self, id: usize) -> (r: Result<usize, RegistryError>)
        requires
            old(self)@.dom().contains(id) ==> old(self)@[id].counter < usize::MAX,
        ensures
            old(self)@.dom().contains(id) ==> {
                &&& r == Ok::<usize, RegistryError>(
                    (old(self)@[id].counter + 1) as usize,
                )
                &&& final(self)@ == incremented(old(self)@, id)
            },
            !old(self)@.dom().contains(id) ==> {
                &&& r == Err::<usize, RegistryError>(RegistryError::NotFound)
                &&& final(self)@ == old(self)@
            },
    {
        match self.get(id) {
            Some(s) => {
                let c = s.counter + 1;
                self.insert(id, Session { counter: c });
                Ok(c)
            },
            None => Err(RegistryError::NotFound),
        }
    }
}

/// The registry contents after a scoped counter increment on `id`.
pub open spec fn incremented(m: Map<usize, Session>, id: usize) -> Map<usize, Session> {
    m.insert(id, Session { counter: (m[id].counter + 1) as usize })
}

/// Law: removing an identity that is not present leaves the registry
/// unchanged and signals no error.
pub proof fn lemma_remove_absent_is_noop(m: Map<usize, Session>, id: usize)
    requires
        !m.dom().contains(id),
    ensures
        m.remove(id) == m,
{
    assert(m.remove(id) =~= m);
}

/// Law: teardown is idempotent — removing an identity a second time leaves
/// the registry exactly as the first removal left it, so a repeated close or
/// disconnect signal is a tolerated no-op.
pub proof fn lemma_remove_idempotent(m: Map<usize, Session>, id: usize)
    ensures
        m.remove(id).remove(id) == m.remove(id),
{
    assert(m.remove(id).remove(id) =~= m.remove(id));
}

/// Law: isolation — a scoped mutation of the session under `id_a` is not
/// visible through any other identity `id_b`: whether `id_b` is registered,
/// and its session state if so, are unchanged.
pub proof fn lemma_mutation_isolated(m: Map<usize, Session>, id_a: usize, id_b: usize)
    requires
        id_a != id_b,
    ensures
        incremented(m, id_a).dom().contains(id_b) == m.dom().contains(id_b),
        m.dom().contains(id_b) ==> incremented(m, id_a)[id_b] == m[id_b],
{
}

/// Law: serialized mutation — two scoped increments of the same identity's
/// counter both take effect: a counter ends two above where it started,
/// never one (no lost update).
pub proof fn lemma_increments_serialize(m: Map<usize, Session>, id: usize)
    requires
        m.dom().contains(id),
        m[id].counter + 2 <= usize::MAX,
    ensures
        incremented(incremented(m, id), id)[id].counter == m[id].counter + 2,
{
}

} // verus!
