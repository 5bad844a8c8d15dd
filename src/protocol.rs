use vstd::prelude::*;

verus! {

/// Opaque token that the directory service assigns to a registered client.
pub type ClientId = u64;

/// Parameters of a join request: the room to look up.
#[derive(Debug, PartialEq, Eq)]
pub struct JoinRoomParams {
    pub room_uuid: String,
}

/// A decoded client request. `P` is the payload of a room creation, which the
/// engine passes to the directory untouched.
#[derive(Debug, PartialEq, Eq)]
pub enum Request<P> {
    CreateRoom(P),
    JoinRoom(JoinRoomParams),
    /// A request kind that this engine does not handle.
    Unsupported,
}

/// Why a text frame could not be decoded into a request.
#[derive(Debug, Clone, Copy, PartialEq, Eq, Structural)]
pub enum DecodeError {
    Unrecognized,
}

/// One frame of the transport, as the engine sees it.
#[derive(Debug, PartialEq, Eq)]
pub enum Frame<P> {
    /// A text frame and the outcome of decoding it.
    Text(Result<Request<P>, DecodeError>),
    Binary,
    Close,
    /// Ping, pong, continuation and empty frames.
    Control,
    /// The transport broke down.
    Failed,
}

/// Why a collaborator call did not produce a value.
#[derive(Debug, Clone, Copy, PartialEq, Eq, Structural)]
pub enum CallError {
    /// The collaborator could not be reached or did not answer in time.
    Unreachable,
    /// The collaborator answered with a refusal.
    Refused,
}

/// Something that happened to the connection. `R` is a reference to a room.
#[derive(Debug, PartialEq, Eq)]
pub enum Event<R, P> {
    /// The transport accepted the connection.
    Accepted,
    Inbound(Frame<P>),
    /// Outcome of the registration call issued under the given call id.
    RegisterReply(u64, Result<ClientId, CallError>),
    /// Outcome of the create-room or find-room call issued under the given id.
    BindReply(u64, Result<R, CallError>),
    /// A message, already encoded, that a collaborator pushes to the client.
    Push(String),
}

/// Responses that the engine itself sends to the client.
#[derive(Debug, Clone, Copy, PartialEq, Eq, Structural)]
pub enum Response {
    /// A room request arrived before the directory registered the client.
    NotRegistered,
    /// A room request arrived while another one is still awaiting its reply.
    Busy,
    /// The request kind is not handled.
    UnsupportedRequest,
}

/// What the driver of the connection is to do after an event.
#[derive(Debug, PartialEq, Eq)]
pub enum Action<P> {
    Nothing,
    /// Register the session's identity and push channel with the directory.
    Register(u64),
    /// Ask the directory to create a room for the client.
    CreateRoom { call: u64, client_id: ClientId, params: P },
    /// Ask the directory for an existing room.
    FindRoom { call: u64, client_id: ClientId, room_uuid: String },
    /// Hand the room that was just joined a link back to this session.
    LinkRoom,
    /// Send a response of the engine to the client.
    Reply(Response),
    /// Send a pushed message to the client.
    Deliver(String),
    /// Close the connection.
    Stop,
}

} // verus!
