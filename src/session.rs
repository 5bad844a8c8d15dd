use vstd::prelude::*;

use crate::protocol::{Action, CallError, ClientId, Event, Frame, Request, Response};

verus! {

/// Primary state of a connection.
#[derive(Debug, Clone, Copy, PartialEq, Eq, Structural)]
pub enum Lifecycle {
    Connecting,
    Active,
    Closed,
}

/// Which request a pending room call answers.
#[derive(Debug, Clone, Copy, PartialEq, Eq, Structural)]
pub enum BindKind {
    Create,
    Join,
}

/// Mathematical model of a [`Session`].
pub ghost struct SessionModel<I, R> {
    pub identity: I,
    pub lifecycle: Lifecycle,
    pub client_id: Option<ClientId>,
    pub room: Option<R>,
    /// Id of the registration call awaiting its reply.
    pub registration: Option<u64>,
    /// Id and kind of the room call awaiting its reply.
    pub binding: Option<(u64, BindKind)>,
    /// Id that the next call will carry.
    pub next_call: u64,
}

/// The id that follows `n`; ids wrap around after `u64::MAX`.
pub open spec fn next_id(n: u64) -> u64 {
    if n == u64::MAX {
        0
    } else {
        (n + 1) as u64
    }
}

impl<I, R> SessionModel<I, R> {
    /// A client id is held exactly from a successful registration on, and a
    /// registration is awaited only before it.
    pub open spec fn wf(self) -> bool {
        &&& self.lifecycle is Connecting ==> self.client_id is None
        &&& self.lifecycle is Active ==> self.client_id is Some && self.registration is None
    }

    pub open spec fn closed(self) -> Self {
        SessionModel { lifecycle: Lifecycle::Closed, ..self }
    }

    /// The connection was accepted: register with the directory once.
    pub open spec fn on_accepted<P>(self) -> (Self, Action<P>) {
        if self.lifecycle is Connecting && self.registration is None {
            (
                SessionModel {
                    registration: Some(self.next_call),
                    next_call: next_id(self.next_call),
                    ..self
                },
                Action::Register(self.next_call),
            )
        } else {
            (self, Action::Nothing)
        }
    }

    /// A decoded request, in an open session.
    pub open spec fn on_request<P>(self, req: Request<P>) -> (Self, Action<P>) {
        match req {
            Request::Unsupported => (self, Action::Reply(Response::UnsupportedRequest)),
            Request::CreateRoom(params) => if self.lifecycle is Connecting {
                (self, Action::Reply(Response::NotRegistered))
            } else if self.binding is Some {
                (self, Action::Reply(Response::Busy))
            } else {
                (
                    SessionModel {
                        binding: Some((self.next_call, BindKind::Create)),
                        next_call: next_id(self.next_call),
                        ..self
                    },
                    Action::CreateRoom {
                        call: self.next_call,
                        client_id: self.client_id.unwrap(),
                        params,
                    },
                )
            },
            Request::JoinRoom(params) => if self.lifecycle is Connecting {
                (self, Action::Reply(Response::NotRegistered))
            } else if self.binding is Some {
                (self, Action::Reply(Response::Busy))
            } else {
                (
                    SessionModel {
                        binding: Some((self.next_call, BindKind::Join)),
                        next_call: next_id(self.next_call),
                        ..self
                    },
                    Action::FindRoom {
                        call: self.next_call,
                        client_id: self.client_id.unwrap(),
                        room_uuid: params.room_uuid,
                    },
                )
            },
        }
    }

    /// A transport frame, in an open session.
    pub open spec fn on_frame<P>(self, frame: Frame<P>) -> (Self, Action<P>) {
        match frame {
            Frame::Text(Ok(req)) => self.on_request(req),
            Frame::Close => (self.closed(), Action::Stop),
            Frame::Failed => (self.closed(), Action::Stop),
            _ => (self, Action::Nothing),
        }
    }

    /// The reply to a registration call, in an open session.
    pub open spec fn on_register_reply<P>(self, call: u64, result: Result<ClientId, CallError>) -> (
        Self,
        Action<P>,
    ) {
        if self.lifecycle is Connecting && self.registration == Some(call) {
            match result {
                Ok(id) => (
                    SessionModel {
                        lifecycle: Lifecycle::Active,
                        client_id: Some(id),
                        registration: None,
                        ..self
                    },
                    Action::Nothing,
                ),
                Err(_) => (SessionModel { registration: None, ..self.closed() }, Action::Stop),
            }
        } else {
            (self, Action::Nothing)
        }
    }

    /// The reply to a room call, in an open session. A new room replaces the
    /// one held before: a connection is in one room at a time.
    pub open spec fn on_bind_reply<P>(self, call: u64, result: Result<R, CallError>) -> (
        Self,
        Action<P>,
    ) {
        match self.binding {
            Some((c, kind)) => if c == call {
                match result {
                    Ok(room) => (
                        SessionModel { room: Some(room), binding: None, ..self },
                        if kind is Join {
                            Action::LinkRoom
                        } else {
                            Action::Nothing
                        },
                    ),
                    Err(_) => (SessionModel { binding: None, ..self.closed() }, Action::Stop),
                }
            } else {
                (self, Action::Nothing)
            },
            None => (self, Action::Nothing),
        }
    }

    /// The transition of the engine: the next state and the action to perform.
    /// A closed session ignores every event.
    pub open spec fn next<P>(self, e: Event<R, P>) -> (Self, Action<P>) {
        if self.lifecycle is Closed {
            (self, Action::Nothing)
        } else {
            match e {
                Event::Accepted => self.on_accepted(),
                Event::Inbound(frame) => self.on_frame(frame),
                Event::RegisterReply(call, result) => self.on_register_reply(call, result),
                Event::BindReply(call, result) => self.on_bind_reply(call, result),
                Event::Push(text) => (self, Action::Deliver(text)),
            }
        }
    }

    /// The state after a sequence of events, and the actions on the way.
    pub open spec fn run<P>(self, es: Seq<Event<R, P>>) -> (Self, Seq<Action<P>>)
        decreases es.len(),
    {
        if es.len() == 0 {
            (self, Seq::empty())
        } else {
            let (s1, a) = self.next(es[0]);
            let (s2, rest) = s1.run(es.subrange(1, es.len() as int));
            (s2, seq![a] + rest)
        }
    }
}

/// The state of one connection: who it is, whether the directory registered
/// it, which room it is in, and which collaborator calls it awaits.
pub struct Session<I, R> {
    identity: I,
    lifecycle: Lifecycle,
    client_id: Option<ClientId>,
    room: Option<R>,
    registration: Option<u64>,
    binding: Option<(u64, BindKind)>,
    next_call: u64,
}

impl<I, R> View for Session<I, R> {
    type V = SessionModel<I, R>;

    closed spec fn view(&self) -> SessionModel<I, R> {
        SessionModel {
            identity: self.identity,
            lifecycle: self.lifecycle,
            client_id: self.client_id,
            room: self.room,
            registration: self.registration,
            binding: self.binding,
            next_call: self.next_call,
        }
    }
}

fn advance_call_id(n: u64) -> (r: u64)
    ensures
        r == next_id(n),
{
    if n == u64::MAX {
        0
    } else {
        n + 1
    }
}

impl<I, R> Session<I, R> {
    /// A session for a connection that is being set up.
    pub fn new(identity: I) -> (s: Self)
        ensures
            s@.wf(),
            s@.identity == identity,
            s@.lifecycle is Connecting,
            s@.client_id is None,
            s@.room is None,
            s@.registration is None,
            s@.binding is None,
            s@.next_call == 0,
    {
        Session {
            identity,
            lifecycle: Lifecycle::Connecting,
            client_id: None,
            room: None,
            registration: None,
            binding: None,
            next_call: 0,
        }
    }

    pub fn identity(&self) -> (r: &I)
        ensures
            *r == self@.identity,
    {
        &self.identity
    }

    pub fn lifecycle(&self) -> (r: Lifecycle)
        ensures
            r == self@.lifecycle,
    {
        self.lifecycle
    }

    pub fn client_id(&self) -> (r: Option<ClientId>)
        ensures
            r == self@.client_id,
    {
        self.client_id
    }

    pub fn room(&self) -> (r: Option<&R>)
        ensures
            r matches Some(x) ==> self@.room == Some(*x),
            r is None <==> self@.room is None,
    {
        match &self.room {
            Some(x) => Some(x),
            None => None,
        }
    }

    pub fn is_bound(&self) -> (r: bool)
        ensures
            r == self@.room is Some,
    {
        self.room.is_some()
    }

    pub fn is_closed(&self) -> (r: bool)
        ensures
            r == self@.lifecycle is Closed,
    {
        match self.lifecycle {
            Lifecycle::Closed => true,
            _ => false,
        }
    }

    /// Whether a room request awaits its reply.
    pub fn room_call_pending(&self) -> (r: bool)
        ensures
            r == self@.binding is Some,
    {
        self.binding.is_some()
    }

    fn close(&mut self)
        ensures
            final(self)@ == old(self)@.closed(),
    {
        self.lifecycle = Lifecycle::Closed;
    }

    fn on_accepted<P>(&mut self) -> (a: Action<P>)
        requires
            old(self)@.wf(),
        ensures
            (final(self)@, a) == old(self)@.on_accepted::<P>(),
    {
        match (self.lifecycle, self.registration) {
            (Lifecycle::Connecting, None) => {
                let call = self.next_call;
                self.registration = Some(call);
                self.next_call = advance_call_id(call);
                Action::Register(call)
            },
            _ => Action::Nothing,
        }
    }

    fn on_request<P>(&mut self, req: Request<P>) -> (a: Action<P>)
        requires
            old(self)@.wf(),
            !(old(self)@.lifecycle is Closed),
        ensures
            (final(self)@, a) == old(self)@.on_request(req),
    {
        match req {
            Request::Unsupported => Action::Reply(Response::UnsupportedRequest),
            Request::CreateRoom(params) => {
                if let Lifecycle::Connecting = self.lifecycle {
                    Action::Reply(Response::NotRegistered)
                } else if self.binding.is_some() {
                    Action::Reply(Response::Busy)
                } else {
                    let call = self.next_call;
                    self.binding = Some((call, BindKind::Create));
                    self.next_call = advance_call_id(call);
                    Action::CreateRoom { call, client_id: self.client_id.unwrap(), params }
                }
            },
            Request::JoinRoom(params) => {
                if let Lifecycle::Connecting = self.lifecycle {
                    Action::Reply(Response::NotRegistered)
                } else if self.binding.is_some() {
                    Action::Reply(Response::Busy)
                } else {
                    let call = self.next_call;
                    self.binding = Some((call, BindKind::Join));
                    self.next_call = advance_call_id(call);
                    Action::FindRoom {
                        call,
                        client_id: self.client_id.unwrap(),
                        room_uuid: params.room_uuid,
                    }
                }
            },
        }
    }

    fn on_frame<P>(&mut self, frame: Frame<P>) -> (a: Action<P>)
        requires
            old(self)@.wf(),
            !(old(self)@.lifecycle is Closed),
        ensures
            (final(self)@, a) == old(self)@.on_frame(frame),
    {
        match frame {
            Frame::Text(Ok(req)) => self.on_request(req),
            Frame::Close | Frame::Failed => {
                self.close();
                Action::Stop
            },
            _ => Action::Nothing,
        }
    }

    fn on_register_reply<P>(&mut self, call: u64, result: Result<ClientId, CallError>) -> (a:
        Action<P>)
        requires
            old(self)@.wf(),
            !(old(self)@.lifecycle is Closed),
        ensures
            (final(self)@, a) == old(self)@.on_register_reply::<P>(call, result),
    {
        let awaited = match (self.lifecycle, self.registration) {
            (Lifecycle::Connecting, Some(c)) => c == call,
            _ => false,
        };
        if !awaited {
            return Action::Nothing;
        }
        self.registration = None;
        match result {
            Ok(id) => {
                self.lifecycle = Lifecycle::Active;
                self.client_id = Some(id);
                Action::Nothing
            },
            Err(_) => {
                self.close();
                Action::Stop
            },
        }
    }

    fn on_bind_reply<P>(&mut self, call: u64, result: Result<R, CallError>) -> (a: Action<P>)
        requires
            old(self)@.wf(),
            !(old(self)@.lifecycle is Closed),
        ensures
            (final(self)@, a) == old(self)@.on_bind_reply::<P>(call, result),
    {
        let kind = match self.binding {
            Some((c, kind)) => {
                if c != call {
                    return Action::Nothing;
                }
                kind
            },
            None => return Action::Nothing,
        };
        self.binding = None;
        match result {
            Ok(room) => {
                self.room = Some(room);
                match kind {
                    BindKind::Join => Action::LinkRoom,
                    BindKind::Create => Action::Nothing,
                }
            },
            Err(_) => {
                self.close();
                Action::Stop
            },
        }
    }

    /// Applies one event and returns the action to perform. Events are to be
    /// handed over one at a time, in the order in which they happened.
    pub fn step<P>(&mut self, e: Event<R, P>) -> (a: Action<P>)
        requires
            old(self)@.wf(),
        ensures
            final(self)@.wf(),
            (final(self)@, a) == old(self)@.next(e),
    {
        if self.is_closed() {
            return Action::Nothing;
        }
        match e {
            Event::Accepted => self.on_accepted(),
            Event::Inbound(frame) => self.on_frame(frame),
            Event::RegisterReply(call, result) => self.on_register_reply(call, result),
            Event::BindReply(call, result) => self.on_bind_reply(call, result),
            Event::Push(text) => Action::Deliver(text),
        }
    }
}

} // verus!
