use vstd::prelude::*;

use crate::protocol::{Action, CallError, ClientId, DecodeError, Event, Frame, JoinRoomParams, Request, Response};
use crate::session::{BindKind, SessionModel};

verus! {

/// A closed session ignores every event: whatever arrives after the close
/// (frames already queued, collaborator replies, pushes) changes nothing and
/// produces no action.
pub proof fn closed_session_is_inert<I, R, P>(s: SessionModel<I, R>, es: Seq<Event<R, P>>)
    requires
        s.lifecycle is Closed,
    ensures
        s.run(es).0 == s,
        s.run(es).1.len() == es.len(),
        forall|i: int| 0 <= i < es.len() ==> s.run(es).1[i] == Action::<P>::Nothing,
    decreases es.len(),
{
    if es.len() > 0 {
        let rest = es.subrange(1, es.len() as int);
        closed_session_is_inert(s, rest);
        let acts = s.run(es).1;
        assert forall|i: int| 0 <= i < es.len() implies acts[i] == Action::<P>::Nothing by {
            if i > 0 {
                assert(acts[i] == s.run(rest).1[i - 1]);
            }
        }
    }
}

/// A collaborator reply that arrives after the session closed has no effect:
/// no state change and no action.
pub proof fn reply_after_close_ignored<I, R, P>(
    s: SessionModel<I, R>,
    call: u64,
    registration: Result<ClientId, CallError>,
    binding: Result<R, CallError>,
)
    requires
        s.lifecycle is Closed,
    ensures
        s.next(Event::<R, P>::RegisterReply(call, registration)) == (s, Action::<P>::Nothing),
        s.next(Event::<R, P>::BindReply(call, binding)) == (s, Action::<P>::Nothing),
{
}

/// A close frame closes the session, whatever its state, and nothing that
/// arrives afterwards is dispatched.
pub proof fn close_is_final<I, R, P>(s: SessionModel<I, R>, es: Seq<Event<R, P>>)
    ensures
        ({
            let (s1, a) = s.next(Event::<R, P>::Inbound(Frame::Close));
            &&& s1.lifecycle is Closed
            &&& !(s.lifecycle is Closed) ==> a == Action::<P>::Stop
            &&& s1.run(es).0 == s1
            &&& s1.run(es).1.len() == es.len()
            &&& forall|i: int| 0 <= i < es.len() ==> s1.run(es).1[i] == Action::<P>::Nothing
        }),
{
    closed_session_is_inert(s.next(Event::<R, P>::Inbound(Frame::Close)).0, es);
}

/// A text frame that does not decode, and a binary frame, leave the session
/// as it is and produce no response.
pub proof fn undecodable_frame_ignored<I, R, P>(s: SessionModel<I, R>, err: DecodeError)
    ensures
        s.next(Event::<R, P>::Inbound(Frame::Text(Err(err)))) == (s, Action::<P>::Nothing),
        s.next(Event::<R, P>::Inbound(Frame::Binary)) == (s, Action::<P>::Nothing),
{
}

/// A failed registration closes the session before it ever holds a client
/// id, and no later event gives it one.
pub proof fn registration_failure_closes<I, R, P>(
    s: SessionModel<I, R>,
    call: u64,
    err: CallError,
    es: Seq<Event<R, P>>,
)
    requires
        s.wf(),
        s.lifecycle is Connecting,
        s.registration == Some(call),
    ensures
        ({
            let (s1, a) = s.next(Event::<R, P>::RegisterReply(call, Err(err)));
            &&& s1.lifecycle is Closed
            &&& a == Action::<P>::Stop
            &&& s1.client_id is None
            &&& s1.run(es).0.client_id is None
        }),
{
    closed_session_is_inert(s.next(Event::<R, P>::RegisterReply(call, Err(err))).0, es);
}

/// A create-room request in an active session issues one call to the
/// directory; while it is in flight the room held so far stays in place, and
/// its successful reply binds the session to the returned room, replacing any
/// room held before.
pub proof fn create_room_success_binds<I, R, P>(s: SessionModel<I, R>, params: P, room: R)
    requires
        s.wf(),
        s.lifecycle is Active,
        s.binding is None,
    ensures
        ({
            let (s1, a) = s.next(Event::<R, P>::Inbound(Frame::Text(Ok(Request::CreateRoom(params)))));
            let (s2, b) = s1.next(Event::<R, P>::BindReply(s.next_call, Ok(room)));
            &&& a == (Action::CreateRoom { call: s.next_call, client_id: s.client_id.unwrap(), params })
            &&& s1.room == s.room
            &&& s1.binding == Some((s.next_call, BindKind::Create))
            &&& s2.lifecycle is Active
            &&& s2.room == Some(room)
            &&& s2.binding is None
            &&& s2.client_id == s.client_id
            &&& b == Action::<P>::Nothing
        }),
{
}

/// A join request in an active session asks the directory for the room; its
/// successful reply binds the session to that room and has the room linked
/// back to the session.
pub proof fn join_room_success_links<I, R, P>(s: SessionModel<I, R>, params: JoinRoomParams, room: R)
    requires
        s.wf(),
        s.lifecycle is Active,
        s.binding is None,
    ensures
        ({
            let (s1, a) = s.next(Event::<R, P>::Inbound(Frame::Text(Ok(Request::JoinRoom(params)))));
            let (s2, b) = s1.next(Event::<R, P>::BindReply(s.next_call, Ok(room)));
            &&& a == (Action::<P>::FindRoom {
                call: s.next_call,
                client_id: s.client_id.unwrap(),
                room_uuid: params.room_uuid,
            })
            &&& s1.room == s.room
            &&& s2.lifecycle is Active
            &&& s2.room == Some(room)
            &&& s2.binding is None
            &&& b == Action::<P>::LinkRoom
        }),
{
}

/// A room request that arrives before the directory registered the client is
/// answered with `NotRegistered` and changes nothing.
pub proof fn request_before_registration_rejected<I, R, P>(
    s: SessionModel<I, R>,
    create: P,
    join: JoinRoomParams,
)
    requires
        s.lifecycle is Connecting,
    ensures
        s.next(Event::<R, P>::Inbound(Frame::Text(Ok(Request::CreateRoom(create))))) == (
            s,
            Action::<P>::Reply(Response::NotRegistered),
        ),
        s.next(Event::<R, P>::Inbound(Frame::Text(Ok(Request::JoinRoom(join))))) == (
            s,
            Action::<P>::Reply(Response::NotRegistered),
        ),
{
}

/// While a room call awaits its reply, a further room request is answered with
/// `Busy` and changes nothing, so the pending call's outcome alone decides the
/// binding.
pub proof fn overlapping_room_request_rejected<I, R, P>(
    s: SessionModel<I, R>,
    create: P,
    join: JoinRoomParams,
)
    requires
        s.wf(),
        s.lifecycle is Active,
        s.binding is Some,
    ensures
        s.next(Event::<R, P>::Inbound(Frame::Text(Ok(Request::CreateRoom(create))))) == (
            s,
            Action::<P>::Reply(Response::Busy),
        ),
        s.next(Event::<R, P>::Inbound(Frame::Text(Ok(Request::JoinRoom(join))))) == (
            s,
            Action::<P>::Reply(Response::Busy),
        ),
{
}

} // verus!
