//! Protocol engine of one client connection: the lifecycle state machine,
//! request dispatch and the correlation of collaborator replies.
//!
//! The engine is a pure transition function. Whoever drives the connection
//! (the transport, the collaborator calls, the pushes from rooms) feeds it one
//! [`Event`](protocol::Event) at a time and performs the
//! [`Action`](protocol::Action) it answers with.
pub mod laws;
pub mod protocol;
pub mod session;
