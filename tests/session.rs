use shared::api::{Request, Response, COUNTER_CHANGED_TOPIC};
use shared::server::{CounterServer, Permissions};
use shared::session::{ClientSession, SessionAction, SessionEvent, SessionState};

fn active_session() -> ClientSession {
    let mut s = ClientSession::new();
    assert_eq!(s.handle(SessionEvent::Connect), SessionAction::Subscribe);
    assert_eq!(s.handle(SessionEvent::Subscribed), SessionAction::Nothing);
    assert_eq!(s.state(), SessionState::Active);
    s
}

#[test]
fn lifecycle_reaches_active() {
    let mut s = ClientSession::new();
    assert_eq!(s.state(), SessionState::Uninitialized);
    assert_eq!(s.display(), None);
    assert_eq!(s.handle(SessionEvent::Notified(3)), SessionAction::Nothing);
    assert_eq!(s.display(), None);
    assert_eq!(s.handle(SessionEvent::Connect), SessionAction::Subscribe);
    assert_eq!(s.state(), SessionState::Connected);
    assert_eq!(s.handle(SessionEvent::Connect), SessionAction::Nothing);
    assert_eq!(s.handle(SessionEvent::Subscribed), SessionAction::Nothing);
    assert_eq!(s.state(), SessionState::Active);
}

#[test]
fn response_and_notification_update_display() {
    let mut s = active_session();
    assert_eq!(s.handle(SessionEvent::IncrementRequested), SessionAction::SendIncrement);
    let r = SessionEvent::IncrementSucceeded(Response::CounterIncremented(4));
    assert_eq!(s.handle(r), SessionAction::Display(4));
    assert_eq!(s.display(), Some(4));
    assert_eq!(s.handle(SessionEvent::Notified(6)), SessionAction::Display(6));
    assert_eq!(s.display(), Some(6));
}

#[test]
fn failed_request_keeps_display() {
    let mut s = active_session();
    s.handle(SessionEvent::Notified(2));
    assert_eq!(s.handle(SessionEvent::IncrementFailed), SessionAction::ReportError);
    assert_eq!(s.display(), Some(2));
    assert_eq!(s.state(), SessionState::Active);
}

#[test]
fn disconnect_keeps_last_value_and_stops() {
    let mut s = active_session();
    s.handle(SessionEvent::Notified(8));
    assert_eq!(s.handle(SessionEvent::TransportFailed), SessionAction::Nothing);
    assert_eq!(s.state(), SessionState::Disconnected);
    assert_eq!(s.display(), Some(8));
    assert_eq!(s.handle(SessionEvent::Notified(9)), SessionAction::Nothing);
    assert_eq!(s.handle(SessionEvent::IncrementRequested), SessionAction::Nothing);
    assert_eq!(s.handle(SessionEvent::Connect), SessionAction::Nothing);
    assert_eq!(s.display(), Some(8));
}

#[test]
fn first_successful_call_activates() {
    let mut s = ClientSession::new();
    s.handle(SessionEvent::Connect);
    let r = SessionEvent::IncrementSucceeded(Response::CounterIncremented(1));
    assert_eq!(s.handle(r), SessionAction::Display(1));
    assert_eq!(s.state(), SessionState::Active);
}

#[test]
fn sessions_converge_after_settling() {
    let mut server = CounterServer::new();
    let mut sessions = Vec::new();
    for _ in 0..3 {
        let s = active_session();
        let id = server.subscribe(COUNTER_CHANGED_TOPIC).unwrap();
        sessions.push((s, id));
    }
    for k in 0..7 {
        let r = server.dispatch(Request::IncrementCounter, &Permissions::allow_all()).unwrap();
        let s = &mut sessions[k % 3].0;
        s.handle(SessionEvent::IncrementSucceeded(r));
    }
    for (s, id) in sessions.iter_mut() {
        while let Some(v) = server.receive(*id) {
            s.handle(SessionEvent::Notified(v));
        }
        assert_eq!(s.display(), Some(server.current_count()));
    }
    assert_eq!(server.current_count(), 7);
}

#[test]
fn end_to_end_two_clients() {
    let mut server = CounterServer::new();
    let allow = Permissions::allow_all();
    let mut a = active_session();
    let mut b = active_session();
    let a_id = server.subscribe(COUNTER_CHANGED_TOPIC).unwrap();
    let b_id = server.subscribe(COUNTER_CHANGED_TOPIC).unwrap();

    assert_eq!(a.handle(SessionEvent::IncrementRequested), SessionAction::SendIncrement);
    let r = server.dispatch(Request::IncrementCounter, &allow).unwrap();
    assert_eq!(server.current_count(), 1);
    assert_eq!(a.handle(SessionEvent::IncrementSucceeded(r)), SessionAction::Display(1));
    assert_eq!(a.display(), Some(1));
    let n = server.receive(b_id).unwrap();
    assert_eq!(n, 1);
    assert_eq!(b.handle(SessionEvent::Notified(n)), SessionAction::Display(1));

    assert_eq!(b.handle(SessionEvent::IncrementRequested), SessionAction::SendIncrement);
    let r = server.dispatch(Request::IncrementCounter, &allow).unwrap();
    assert_eq!(r, Response::CounterIncremented(2));
    assert_eq!(server.current_count(), 2);
    b.handle(SessionEvent::IncrementSucceeded(r));
    for (s, id) in [(&mut a, a_id), (&mut b, b_id)] {
        while let Some(v) = server.receive(id) {
            s.handle(SessionEvent::Notified(v));
        }
    }
    assert_eq!(a.display(), Some(2));
    assert_eq!(b.display(), Some(2));
}
