//! The connection handler: one connection's interaction with its session,
//! from authentication through channel establishment to teardown.

use vstd::prelude::*;

use crate::auth::{decide, decide_spec, AuthDecision};
use crate::registry::SessionRegistry;
use crate::session::Session;

verus! {

/// The per-connection lifecycle states.
#[derive(Clone, Copy, Debug, PartialEq, Eq, Structural)]
pub enum HandlerState {
    /// Connected; no credential accepted yet.
    Unauthenticated,
    /// A credential was accepted; no channel is open yet.
    Authenticated,
    /// A channel is open and a session is registered under this
    /// connection's identity.
    ChannelOpen,
    /// Torn down: this connection's session is gone from the registry.
    Closed,
}

/// What the transport is instructed to do after a data frame.
#[derive(Clone, Copy, Debug, PartialEq, Eq, Structural)]
pub enum DataAction {
    /// Unrecognized input is silently ignored: no state change, no side
    /// effect.
    Ignore,
    /// The termination command was received: close the channel.
    CloseChannel,
}

/// The byte sequence of the one recognized command: the exact literal
/// `"exit"` requests session termination. All other input is inert.
pub open spec fn exit_command() -> Seq<u8> {
    seq![101u8, 120u8, 105u8, 116u8]
}

/// Whether a data frame is exactly the termination command.
pub fn is_exit_command(data: &[u8]) -> (r: bool)
    ensures
        r == (data@ == exit_command()),
{
    if data.len() != 4 {
        proof {
            assert(data@.len() != exit_command().len());
        }
        return false;
    }
    let r = data[0] == 101 && data[1] == 120 && data[2] == 105 && data[3] == 116;
    proof {
        if r {
            assert(data@ =~= exit_command());
        }
    }
    r
}

/// The initial form payload emitted on channel-open; the caller hands it to
/// the transport's send primitive.
pub fn initial_form_payload() -> (s: &'static str)
    ensures
        s@ == "Hello"@,
{
    "Hello"
}

/// One connection's handler. Constructed by the dispatcher with a freshly
/// allocated identity; the identity is immutable for the connection's
/// lifetime, and the registry is shared, not owned — every method takes it
/// by `&mut` for the duration of one call.
pub struct ConnectionHandler {
    id: usize,
    state: HandlerState,
}

impl ConnectionHandler {
    /// The session identity this connection was bound to at construction.
    pub closed spec fn spec_id(&self) -> usize {
        self.id
    }

    /// Where this connection stands in its lifecycle.
    pub closed spec fn spec_state(&self) -> HandlerState {
        self.state
    }

    /// A handler for a newly accepted connection, bound to `id`.
    pub fn new(id: usize) -> (h: ConnectionHandler)
        ensures
            h.spec_id() == id,
            h.spec_state() == HandlerState::Unauthenticated,
    {
        ConnectionHandler { id, state: HandlerState::Unauthenticated }
    }

    /// Authentication callback: applies the admission policy to the
    /// presented credential; on acceptance the connection becomes
    /// authenticated, on rejection it is left as it was.
    pub fn on_auth(&mut self, user: &str, credential: &[u8]) -> (d: AuthDecision)
        requires
            old(self).spec_state() == HandlerState::Unauthenticated,
        ensures
            d == decide_spec(user@, credential@),
            final(self).spec_id() == old(self).spec_id(),
            final(self).spec_state() == if d == AuthDecision::Accept {
                HandlerState::Authenticated
            } else {
                HandlerState::Unauthenticated
            },
    {
        let d = decide(user, credential);
        if d == AuthDecision::Accept {
            self.state = HandlerState::Authenticated;
        }
        d
    }

    /// Channel-open callback: creates a fresh session with a zero counter,
    /// registers it under this connection's identity (an identity already
    /// present is overwritten — a defensive guard, not a normal path), and
    /// accepts the channel. The caller then sends
    /// [`initial_form_payload`] on the accepted channel.
    pub fn on_channel_open(&mut self, registry: &mut SessionRegistry) -> (accept: bool)
        requires
            old(self).spec_state() == HandlerState::Authenticated,
        ensures
            accept,
            final(registry)@ == old(registry)@.insert(
                old(self).spec_id(),
                Session { counter: 0 },
            ),
            final(self).spec_id() == old(self).spec_id(),
            final(self).spec_state() == HandlerState::ChannelOpen,
    {
        let s = Session::new();
        registry.insert(self.id, s);
        self.state = HandlerState::ChannelOpen;
        true
    }

    /// Data callback: interprets a data frame as a command. On the exact
    /// termination command the session is removed from the registry and the
    /// transport is instructed to close the channel; every other byte
    /// sequence is a no-op — no state change, no side effect.
    pub fn on_data(&mut self, registry: &mut SessionRegistry, data: &[u8]) -> (a: DataAction)
        requires
            old(self).spec_state() == HandlerState::ChannelOpen,
        ensures
            final(self).spec_id() == old(self).spec_id(),
            data@ == exit_command() ==> {
                &&& a == DataAction::CloseChannel
                &&& final(registry)@ == old(registry)@.remove(old(self).spec_id())
                &&& final(self).spec_state() == HandlerState::Closed
            },
            data@ != exit_command() ==> {
                &&& a == DataAction::Ignore
                &&& final(registry)@ == old(registry)@
                &&& final(self).spec_state() == HandlerState::ChannelOpen
            },
    {
        if is_exit_command(data) {
            registry.remove(self.id);
            self.state = HandlerState::Closed;
            DataAction::CloseChannel
        } else {
            DataAction::Ignore
        }
    }

    /// Close or disconnect callback: removes this connection's session from
    /// the registry and closes the lifecycle. Teardown is idempotent —
    /// removal of an absent identity is a no-op, so a repeated close signal
    /// is tolerated.
    pub fn on_close_or_disconnect(&mut self, registry: &mut SessionRegistry)
        ensures
            final(registry)@ == old(registry)@.remove(old(self).spec_id()),
            final(self).spec_id() == old(self).spec_id(),
            final(self).spec_state() == HandlerState::Closed,
    {
        registry.remove(self.id);
        self.state = HandlerState::Closed;
    }

    /// The identity this connection was bound to.
    pub fn id(&self) -> (i: usize)
        ensures
            i == self.spec_id(),
    {
        self.id
    }

    /// The current lifecycle state.
    pub fn state(&self) -> (st: HandlerState)
        ensures
            st == self.spec_state(),
    {
        self.state
    }
}

/// Law: teardown on command or disconnect leaves the connection's identity
/// absent from the registry, whatever was registered before.
pub proof fn lemma_teardown_removes_identity(m: Map<usize, Session>, id: usize)
    ensures
        !m.remove(id).dom().contains(id),
{
}

} // verus!
