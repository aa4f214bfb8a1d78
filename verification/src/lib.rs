//! Session lifecycle and registry subsystem of a multi-session remote-shell
//! server.
//!
//! Clients connect over a secure, multiplexed transport; each connection is
//! assigned a fresh, process-unique session identity, gets an isolated
//! [`session::Session`] held in the shared [`registry::SessionRegistry`], and
//! a tiny command protocol on the data channel lets a session terminate
//! itself. The transport itself (key exchange, encryption, channel
//! multiplexing) and the interactive form collection are external
//! collaborators driven from outside this library.

pub mod auth;
pub mod dispatcher;
pub mod handler;
pub mod registry;
pub mod session;
