use sentinel::broadcast::Broadcast;
use sentinel::model::{AuthResult, ClientOpt, ContainerStatus, Newspeak, OnlinePeople, ServerStatus};
use sentinel::registry::Registry;
use sentinel::session::{
    feedback_for, ClientFrame, Reaction, Session, SessionEvent, SessionState,
};

fn quiet() -> Reaction {
    Reaction { command: None, reply: None, finished: false }
}

fn last() -> Reaction {
    Reaction { command: None, reply: None, finished: true }
}

fn reply(message: Newspeak) -> Reaction {
    Reaction { command: None, reply: Some(message), finished: false }
}

fn text(attempt: &str) -> SessionEvent {
    SessionEvent::Frame(ClientFrame::Text(attempt.to_string()))
}

fn binary(payload: &[u8]) -> SessionEvent {
    SessionEvent::Frame(ClientFrame::Binary(payload.to_vec()))
}

fn status() -> ServerStatus {
    ServerStatus {
        host: "running".to_string(),
        container: ContainerStatus::Up("Up 6 seconds".to_string()),
        online: OnlinePeople::Known("3 players".to_string()),
    }
}

fn opened() -> (Session, Registry) {
    let mut registry = Registry::new();
    let (session, _) = Session::open("hunter2".to_string(), &mut registry, &Broadcast::new());
    (session, registry)
}

fn authenticated() -> (Session, Registry) {
    let (mut session, registry) = opened();
    session.step(text("hunter2"));
    (session, registry)
}

#[test]
fn opening_registers_and_wakes_for_the_first() {
    let mut registry = Registry::new();
    let broadcast = Broadcast::new();
    let (first, wake) = Session::open("hunter2".to_string(), &mut registry, &broadcast);
    assert!(wake);
    assert_eq!(registry.count(), 1);
    assert_eq!(first.state(), SessionState::Unauthenticated);
    assert!(first.is_registered());
    let (second, wake) = Session::open("hunter2".to_string(), &mut registry, &broadcast);
    assert!(!wake);
    assert_eq!(registry.count(), 2);
    assert_eq!(second.state(), SessionState::Unauthenticated);
}

#[test]
fn wrong_password_is_sus_and_may_be_tried_again() {
    let (mut session, _) = opened();
    for attempt in ["", "hunter", "hunter22", "Hunter2", "hunter2 "] {
        assert_eq!(session.step(text(attempt)), reply(Newspeak::AuthResult(AuthResult::Sus)));
        assert_eq!(session.state(), SessionState::Unauthenticated);
    }
    assert_eq!(session.step(text("hunter2")), reply(Newspeak::AuthResult(AuthResult::Goob)));
    assert_eq!(session.state(), SessionState::Authenticated);
}

#[test]
fn right_password_is_goob() {
    let (mut session, _) = opened();
    assert_eq!(session.step(text("hunter2")), reply(Newspeak::AuthResult(AuthResult::Goob)));
    assert_eq!(session.state(), SessionState::Authenticated);
}

#[test]
fn binary_frame_before_authentication_is_no_command() {
    let (mut session, _) = opened();
    for payload in [&[0u8][..], &[1], &[2], &[], &[9, 9]] {
        assert_eq!(session.step(binary(payload)), quiet());
        assert_eq!(session.state(), SessionState::Unauthenticated);
    }
}

#[test]
fn command_after_authentication_is_dispatched_and_acknowledged() {
    let (mut session, _) = authenticated();
    assert_eq!(
        session.step(binary(&[0])),
        Reaction {
            command: Some(ClientOpt::On),
            reply: Some(Newspeak::Feedback(
                "sentinel acknowledged the request, will boot the host shortly".to_string()
            )),
            finished: false,
        }
    );
    assert_eq!(
        session.step(binary(&[1])),
        Reaction {
            command: Some(ClientOpt::Off),
            reply: Some(Newspeak::Feedback(
                "sentinel acknowledged the request, will shutdown the host shortly".to_string()
            )),
            finished: false,
        }
    );
    assert_eq!(
        session.step(binary(&[2, 0, 0])),
        Reaction {
            command: Some(ClientOpt::Reboot),
            reply: Some(Newspeak::Feedback(
                "sentinel acknowledged the request, will reboot the host shortly".to_string()
            )),
            finished: false,
        }
    );
    assert_eq!(session.state(), SessionState::Authenticated);
}

#[test]
fn undecodable_frame_after_authentication_is_passed_over() {
    let (mut session, _) = authenticated();
    for payload in [&[][..], &[3], &[250], &[251, 1], &[255, 0]] {
        assert_eq!(session.step(binary(payload)), quiet());
        assert_eq!(session.state(), SessionState::Authenticated);
    }
}

#[test]
fn text_after_authentication_is_passed_over() {
    let (mut session, _) = authenticated();
    assert_eq!(session.step(text("hunter2")), quiet());
    assert_eq!(session.step(text("anything")), quiet());
    assert_eq!(session.state(), SessionState::Authenticated);
}

#[test]
fn ping_and_pong_are_passed_over() {
    let (mut session, _) = opened();
    assert_eq!(session.step(SessionEvent::Frame(ClientFrame::Ping)), quiet());
    assert_eq!(session.step(SessionEvent::Frame(ClientFrame::Pong)), quiet());
    assert_eq!(session.state(), SessionState::Unauthenticated);
    let (mut session, _) = authenticated();
    assert_eq!(session.step(SessionEvent::Frame(ClientFrame::Ping)), quiet());
    assert_eq!(session.step(SessionEvent::Frame(ClientFrame::Pong)), quiet());
    assert_eq!(session.state(), SessionState::Authenticated);
}

#[test]
fn status_is_forwarded_before_and_after_authentication() {
    let (mut session, _) = opened();
    assert_eq!(
        session.step(SessionEvent::StatusChanged(status())),
        reply(Newspeak::ServerStatus(status()))
    );
    assert_eq!(session.state(), SessionState::Unauthenticated);
    let (mut session, _) = authenticated();
    assert_eq!(
        session.step(SessionEvent::StatusChanged(status())),
        reply(Newspeak::ServerStatus(status()))
    );
    assert_eq!(session.state(), SessionState::Authenticated);
}

#[test]
fn close_frame_and_failures_end_the_session() {
    let (mut session, _) = opened();
    assert_eq!(session.step(SessionEvent::Frame(ClientFrame::Close)), last());
    assert_eq!(session.state(), SessionState::Closed);
    let (mut session, _) = opened();
    assert_eq!(session.step(SessionEvent::ReadFailed), last());
    assert_eq!(session.state(), SessionState::Closed);
    let (mut session, _) = authenticated();
    assert_eq!(session.step(SessionEvent::SendFailed), last());
    assert_eq!(session.state(), SessionState::Closed);
    let (mut session, _) = authenticated();
    assert_eq!(session.step(SessionEvent::Frame(ClientFrame::Close)), last());
    assert_eq!(session.state(), SessionState::Closed);
}

#[test]
fn closed_session_stays_closed() {
    let (mut session, _) = authenticated();
    session.step(SessionEvent::ReadFailed);
    assert_eq!(session.step(text("hunter2")), last());
    assert_eq!(session.step(binary(&[0])), last());
    assert_eq!(session.step(SessionEvent::StatusChanged(status())), last());
    assert_eq!(session.state(), SessionState::Closed);
}

#[test]
fn release_unregisters_once() {
    let mut registry = Registry::new();
    let broadcast = Broadcast::new();
    let (mut first, _) = Session::open("hunter2".to_string(), &mut registry, &broadcast);
    let (mut second, _) = Session::open("hunter2".to_string(), &mut registry, &broadcast);
    assert_eq!(registry.count(), 2);
    first.step(SessionEvent::ReadFailed);
    assert!(first.is_registered());
    first.release(&mut registry);
    assert_eq!(registry.count(), 1);
    assert!(!first.is_registered());
    assert_eq!(first.state(), SessionState::Closed);
    first.release(&mut registry);
    assert_eq!(registry.count(), 1);
    second.release(&mut registry);
    assert_eq!(registry.count(), 0);
    assert_eq!(second.state(), SessionState::Closed);
}

#[test]
fn feedback_names_the_command() {
    assert_eq!(
        feedback_for(ClientOpt::On),
        "sentinel acknowledged the request, will boot the host shortly"
    );
    assert_eq!(
        feedback_for(ClientOpt::Off),
        "sentinel acknowledged the request, will shutdown the host shortly"
    );
    assert_eq!(
        feedback_for(ClientOpt::Reboot),
        "sentinel acknowledged the request, will reboot the host shortly"
    );
}

#[test]
fn replies_are_frames_on_the_wire() {
    let (mut session, _) = opened();
    let sus = session.step(text("nope")).reply.unwrap();
    assert_eq!(sus.encode(), vec![0, 1]);
    let goob = session.step(text("hunter2")).reply.unwrap();
    assert_eq!(goob.encode(), vec![0, 0]);
}

#[test]
fn news_is_forwarded_once_to_every_session() {
    let mut registry = Registry::new();
    let mut broadcast = Broadcast::new();
    let (mut viewer, _) = Session::open("hunter2".to_string(), &mut registry, &broadcast);
    let (mut operator, _) = Session::open("hunter2".to_string(), &mut registry, &broadcast);
    operator.step(text("hunter2"));
    assert_eq!(viewer.forward(&broadcast), quiet());
    assert_eq!(operator.forward(&broadcast), quiet());
    broadcast.publish(status());
    assert_eq!(viewer.forward(&broadcast), reply(Newspeak::ServerStatus(status())));
    assert_eq!(operator.forward(&broadcast), reply(Newspeak::ServerStatus(status())));
    assert_eq!(viewer.forward(&broadcast), quiet());
    assert_eq!(operator.forward(&broadcast), quiet());
    assert_eq!(viewer.state(), SessionState::Unauthenticated);
    assert_eq!(operator.state(), SessionState::Authenticated);
}

#[test]
fn a_session_that_was_slow_gets_the_latest_status_only() {
    let mut registry = Registry::new();
    let mut broadcast = Broadcast::new();
    let (mut session, _) = Session::open("hunter2".to_string(), &mut registry, &broadcast);
    let mut older = status();
    older.host = "pending".to_string();
    broadcast.publish(older);
    broadcast.publish(status());
    assert_eq!(session.forward(&broadcast), reply(Newspeak::ServerStatus(status())));
    assert_eq!(session.forward(&broadcast), quiet());
}

#[test]
fn a_session_opened_late_gets_the_current_status_at_once() {
    let mut registry = Registry::new();
    let mut broadcast = Broadcast::new();
    broadcast.publish(status());
    let (mut session, _) = Session::open("hunter2".to_string(), &mut registry, &broadcast);
    assert_eq!(session.forward(&broadcast), reply(Newspeak::ServerStatus(status())));
}

#[test]
fn a_closed_session_forwards_nothing() {
    let mut registry = Registry::new();
    let mut broadcast = Broadcast::new();
    let (mut session, _) = Session::open("hunter2".to_string(), &mut registry, &broadcast);
    session.step(SessionEvent::ReadFailed);
    broadcast.publish(status());
    assert_eq!(session.forward(&broadcast), last());
    assert_eq!(session.state(), SessionState::Closed);
}
