use ws_session::protocol::{
    Action, CallError, DecodeError, Event, Frame, JoinRoomParams, Request, Response,
};
use ws_session::session::{Lifecycle, Session};

type Ev = Event<u32, String>;
type Act = Action<String>;

fn create(params: &str) -> Ev {
    Event::Inbound(Frame::Text(Ok(Request::CreateRoom(params.to_string()))))
}

fn join(room: &str) -> Ev {
    Event::Inbound(Frame::Text(Ok(Request::JoinRoom(JoinRoomParams {
        room_uuid: room.to_string(),
    }))))
}

fn registered(id: u64) -> Session<String, u32> {
    let mut s = Session::new("alice".to_string());
    assert_eq!(s.step::<String>(Event::Accepted), Act::Register(0));
    assert_eq!(s.step::<String>(Event::RegisterReply(0, Ok(id))), Act::Nothing);
    s
}

#[test]
fn new_session_is_connecting_and_unbound() {
    let s: Session<String, u32> = Session::new("alice".to_string());
    assert_eq!(s.lifecycle(), Lifecycle::Connecting);
    assert_eq!(s.client_id(), None);
    assert!(!s.is_bound());
    assert!(!s.is_closed());
    assert_eq!(s.identity(), "alice");
}

#[test]
fn acceptance_registers_once() {
    let mut s: Session<String, u32> = Session::new("alice".to_string());
    assert_eq!(s.step::<String>(Event::Accepted), Act::Register(0));
    assert_eq!(s.step::<String>(Event::Accepted), Act::Nothing);
    assert_eq!(s.lifecycle(), Lifecycle::Connecting);
}

#[test]
fn registration_success_activates() {
    let s = registered(42);
    assert_eq!(s.lifecycle(), Lifecycle::Active);
    assert_eq!(s.client_id(), Some(42));
    assert!(!s.is_bound());
}

#[test]
fn registration_reply_with_other_call_id_ignored() {
    let mut s: Session<String, u32> = Session::new("alice".to_string());
    assert_eq!(s.step::<String>(Event::Accepted), Act::Register(0));
    assert_eq!(s.step::<String>(Event::RegisterReply(5, Ok(42))), Act::Nothing);
    assert_eq!(s.lifecycle(), Lifecycle::Connecting);
    assert_eq!(s.client_id(), None);
}

#[test]
fn registration_failure_closes_without_client_id() {
    let mut s: Session<String, u32> = Session::new("alice".to_string());
    s.step::<String>(Event::Accepted);
    assert_eq!(s.step::<String>(Event::RegisterReply(0, Err(CallError::Refused))), Act::Stop);
    assert_eq!(s.lifecycle(), Lifecycle::Closed);
    assert_eq!(s.client_id(), None);
    assert_eq!(s.step::<String>(Event::RegisterReply(0, Ok(7))), Act::Nothing);
    assert_eq!(s.client_id(), None);
}

#[test]
fn unreachable_directory_at_registration_closes() {
    let mut s: Session<String, u32> = Session::new("alice".to_string());
    s.step::<String>(Event::Accepted);
    assert_eq!(
        s.step::<String>(Event::RegisterReply(0, Err(CallError::Unreachable))),
        Act::Stop
    );
    assert!(s.is_closed());
}

#[test]
fn create_room_before_registration_is_rejected() {
    let mut s: Session<String, u32> = Session::new("alice".to_string());
    s.step::<String>(Event::Accepted);
    assert_eq!(s.step(create("{}")), Act::Reply(Response::NotRegistered));
    assert_eq!(s.lifecycle(), Lifecycle::Connecting);
    assert!(!s.room_call_pending());
    // The registration still completes normally afterwards.
    assert_eq!(s.step::<String>(Event::RegisterReply(0, Ok(3))), Act::Nothing);
    assert_eq!(s.lifecycle(), Lifecycle::Active);
}

#[test]
fn create_room_success_binds_room() {
    let mut s = registered(42);
    assert_eq!(
        s.step(create("{\"name\":\"poker\"}")),
        Act::CreateRoom { call: 1, client_id: 42, params: "{\"name\":\"poker\"}".to_string() }
    );
    assert!(s.room_call_pending());
    assert!(!s.is_bound());
    assert_eq!(s.step::<String>(Event::BindReply(1, Ok(9))), Act::Nothing);
    assert_eq!(s.room(), Some(&9));
    assert!(!s.room_call_pending());
    assert_eq!(s.lifecycle(), Lifecycle::Active);
}

#[test]
fn rebinding_replaces_previous_room() {
    let mut s = registered(42);
    s.step(create("{}"));
    s.step::<String>(Event::BindReply(1, Ok(9)));
    assert_eq!(
        s.step(join("room-b")),
        Act::FindRoom { call: 2, client_id: 42, room_uuid: "room-b".to_string() }
    );
    // The room held so far stays until the reply arrives.
    assert_eq!(s.room(), Some(&9));
    assert_eq!(s.step::<String>(Event::BindReply(2, Ok(11))), Act::LinkRoom);
    assert_eq!(s.room(), Some(&11));
}

#[test]
fn back_to_back_join_requests() {
    let mut s = registered(42);
    assert_eq!(
        s.step(join("room-a")),
        Act::FindRoom { call: 1, client_id: 42, room_uuid: "room-a".to_string() }
    );
    assert_eq!(s.step(join("room-b")), Act::Reply(Response::Busy));
    assert_eq!(s.step(create("{}")), Act::Reply(Response::Busy));
    assert_eq!(s.step::<String>(Event::BindReply(1, Ok(5))), Act::LinkRoom);
    assert_eq!(s.room(), Some(&5));
    // A stale reply for a call that was never issued has no effect.
    assert_eq!(s.step::<String>(Event::BindReply(2, Ok(6))), Act::Nothing);
    assert_eq!(s.room(), Some(&5));
}

#[test]
fn room_call_failure_closes() {
    let mut s = registered(42);
    s.step(join("missing"));
    assert_eq!(s.step::<String>(Event::BindReply(1, Err(CallError::Refused))), Act::Stop);
    assert!(s.is_closed());
    assert!(!s.is_bound());
}

#[test]
fn malformed_text_frame_is_ignored() {
    let mut s = registered(42);
    let e: Ev = Event::Inbound(Frame::Text(Err(DecodeError::Unrecognized)));
    assert_eq!(s.step(e), Act::Nothing);
    assert_eq!(s.lifecycle(), Lifecycle::Active);
    let mut c: Session<String, u32> = Session::new("bob".to_string());
    let e: Ev = Event::Inbound(Frame::Text(Err(DecodeError::Unrecognized)));
    assert_eq!(c.step(e), Act::Nothing);
    assert_eq!(c.lifecycle(), Lifecycle::Connecting);
}

#[test]
fn binary_and_control_frames_are_ignored() {
    let mut s = registered(42);
    assert_eq!(s.step::<String>(Event::Inbound(Frame::Binary)), Act::Nothing);
    assert_eq!(s.step::<String>(Event::Inbound(Frame::Control)), Act::Nothing);
    assert_eq!(s.lifecycle(), Lifecycle::Active);
}

#[test]
fn unsupported_request_is_answered() {
    let mut s = registered(42);
    let e: Ev = Event::Inbound(Frame::Text(Ok(Request::Unsupported)));
    assert_eq!(s.step(e), Act::Reply(Response::UnsupportedRequest));
    assert_eq!(s.lifecycle(), Lifecycle::Active);
}

#[test]
fn close_frame_stops_further_dispatch() {
    let mut s = registered(42);
    s.step(join("room-a"));
    assert_eq!(s.step::<String>(Event::Inbound(Frame::Close)), Act::Stop);
    assert!(s.is_closed());
    assert_eq!(s.step(create("{}")), Act::Nothing);
    assert_eq!(s.step(join("room-b")), Act::Nothing);
    assert_eq!(s.step::<String>(Event::Inbound(Frame::Close)), Act::Nothing);
    assert!(s.is_closed());
}

#[test]
fn close_frame_while_connecting_closes() {
    let mut s: Session<String, u32> = Session::new("alice".to_string());
    s.step::<String>(Event::Accepted);
    assert_eq!(s.step::<String>(Event::Inbound(Frame::Close)), Act::Stop);
    assert_eq!(s.step::<String>(Event::RegisterReply(0, Ok(1))), Act::Nothing);
    assert!(s.is_closed());
    assert_eq!(s.client_id(), None);
}

#[test]
fn transport_failure_closes() {
    let mut s = registered(42);
    assert_eq!(s.step::<String>(Event::Inbound(Frame::Failed)), Act::Stop);
    assert!(s.is_closed());
}

#[test]
fn reply_after_close_has_no_effect() {
    let mut s = registered(42);
    s.step(join("room-a"));
    s.step::<String>(Event::Inbound(Frame::Close));
    assert_eq!(s.step::<String>(Event::BindReply(1, Ok(5))), Act::Nothing);
    assert!(!s.is_bound());
    assert!(s.is_closed());
    assert_eq!(s.step::<String>(Event::Push("{}".to_string())), Act::Nothing);
}

#[test]
fn pushes_are_delivered_in_order() {
    let mut s = registered(42);
    assert_eq!(s.step::<String>(Event::Push("one".to_string())), Act::Deliver("one".to_string()));
    assert_eq!(s.step::<String>(Event::Push("two".to_string())), Act::Deliver("two".to_string()));
}
