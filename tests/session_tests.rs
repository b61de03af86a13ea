use htmxchat::codec::{Body, ChatEvent};
use htmxchat::identity::{ClientAddr, IpAddress};
use htmxchat::pool::ClientPool;
use htmxchat::session::{Delivery, Frame, Phase, Session, SessionAction, SessionEvent, Task};

fn x() -> ClientAddr {
    ClientAddr { ip: IpAddress::V4([10, 0, 0, 1]), port: 4000 }
}

fn y() -> ClientAddr {
    ClientAddr { ip: IpAddress::V4([10, 0, 0, 2]), port: 4001 }
}

fn text_frame(s: &str) -> SessionEvent {
    SessionEvent::Inbound(Frame::Text(s.to_string()))
}

fn publish(a: ClientAddr, body: Body) -> SessionAction {
    SessionAction::Publish(ChatEvent::new(a, body))
}

/// Runs the handshake to the active phase, returning the actions of its last step.
fn connect(s: &mut Session) -> Vec<SessionAction> {
    assert!(s.step(SessionEvent::ProbeSent(true)).is_empty());
    assert_eq!(s.step(SessionEvent::FirstRead(true)), vec![SessionAction::SendInputBox]);
    s.step(SessionEvent::GreetingSent(true))
}

#[test]
fn handshake_success_announces_join_once() {
    let mut s = Session::new(x());
    assert_eq!(s.phase, Phase::Probing);
    assert_eq!(connect(&mut s), vec![SessionAction::StartTasks, publish(x(), Body::Joined)]);
    assert_eq!(s.phase, Phase::Active);
    assert!(s.step(SessionEvent::GreetingSent(true)).is_empty());
}

#[test]
fn failed_probe_closes_silently() {
    let mut s = Session::new(x());
    assert!(s.step(SessionEvent::ProbeSent(false)).is_empty());
    assert_eq!(s.phase, Phase::Closed);
    assert!(s.step(SessionEvent::InboundEnded).is_empty());
    assert!(s.step(SessionEvent::Stopped).is_empty());
}

#[test]
fn failed_first_read_closes_silently() {
    let mut s = Session::new(x());
    s.step(SessionEvent::ProbeSent(true));
    assert!(s.step(SessionEvent::FirstRead(false)).is_empty());
    assert_eq!(s.phase, Phase::Closed);
    assert!(s.step(SessionEvent::Stopped).is_empty());
}

#[test]
fn failed_greeting_closes_silently() {
    let mut s = Session::new(x());
    s.step(SessionEvent::ProbeSent(true));
    s.step(SessionEvent::FirstRead(true));
    assert!(s.step(SessionEvent::GreetingSent(false)).is_empty());
    assert_eq!(s.phase, Phase::Closed);
}

#[test]
fn client_session_scenario() {
    let mut s = Session::new(x());
    let joined: Vec<_> = connect(&mut s).into_iter().filter(|a| matches!(a, SessionAction::Publish(_))).collect();
    assert_eq!(joined, vec![publish(x(), Body::Joined)]);
    assert_eq!(
        s.step(text_frame(r#"{"msg": "  hello  "}"#)),
        vec![publish(x(), Body::Text("hello".to_string())), SessionAction::SendInputBox]
    );
    assert!(s.step(text_frame(r#"{"msg": "   "}"#)).is_empty());
    assert_eq!(s.step(SessionEvent::Inbound(Frame::Close)), vec![SessionAction::Cancel(Task::Outbound)]);
    assert_eq!(s.phase, Phase::Closing);
    let late = ChatEvent::new(y(), Body::Text("late".to_string()));
    assert!(s.step(SessionEvent::Delivery(Delivery::Event(late))).is_empty());
    assert_eq!(s.step(SessionEvent::Stopped), vec![publish(x(), Body::Left)]);
    assert_eq!(s.phase, Phase::Closed);
    assert!(s.step(SessionEvent::Stopped).is_empty());
}

#[test]
fn inbound_end_cancels_outbound() {
    let mut s = Session::new(x());
    connect(&mut s);
    assert_eq!(s.step(SessionEvent::InboundEnded), vec![SessionAction::Cancel(Task::Outbound)]);
    assert!(s.step(SessionEvent::WriteFailed).is_empty());
    assert!(s.step(SessionEvent::InboundEnded).is_empty());
    assert_eq!(s.step(SessionEvent::Stopped), vec![publish(x(), Body::Left)]);
}

#[test]
fn outbound_end_cancels_inbound() {
    let mut s = Session::new(x());
    connect(&mut s);
    assert_eq!(s.step(SessionEvent::WriteFailed), vec![SessionAction::Cancel(Task::Inbound)]);
    let mut t = Session::new(y());
    connect(&mut t);
    assert_eq!(
        t.step(SessionEvent::Delivery(Delivery::Closed)),
        vec![SessionAction::Cancel(Task::Inbound)]
    );
    assert!(t.step(text_frame(r#"{"msg": "after"}"#)).is_empty());
    assert_eq!(t.step(SessionEvent::Stopped), vec![publish(y(), Body::Left)]);
}

#[test]
fn active_session_ignores_lag_and_other_frames() {
    let mut s = Session::new(x());
    connect(&mut s);
    assert!(s.step(SessionEvent::Delivery(Delivery::Lagged(3))).is_empty());
    assert!(s.step(SessionEvent::Inbound(Frame::Other)).is_empty());
    assert!(s.step(text_frame("garbage")).is_empty());
    assert!(s.step(SessionEvent::Stopped).is_empty());
    assert_eq!(s.phase, Phase::Active);
}

#[test]
fn two_clients_both_receive_message() {
    let pool = ClientPool::default();
    let mut sx = Session::new(x());
    let mut sy = Session::new(y());
    connect(&mut sx);
    connect(&mut sy);
    let mut rx_x = pool.subscribe();
    let mut rx_y = pool.subscribe();

    let acts = sx.step(text_frame(r#"{"msg": "hi"}"#));
    let hi = ChatEvent::new(x(), Body::Text("hi".to_string()));
    assert_eq!(acts, vec![SessionAction::Publish(hi.clone()), SessionAction::SendInputBox]);
    pool.send(hi.sender, hi.body.clone());

    let got_x = rx_x.try_recv().unwrap();
    let got_y = rx_y.try_recv().unwrap();
    assert!(rx_x.try_recv().is_err() && rx_y.try_recv().is_err());
    assert_eq!(sx.step(SessionEvent::Delivery(Delivery::Event(got_x))), vec![SessionAction::Forward(hi.clone())]);
    assert_eq!(sy.step(SessionEvent::Delivery(Delivery::Event(got_y))), vec![SessionAction::Forward(hi.clone())]);
    // The input box refresh goes to the sender alone; Y received only the event.
    assert!(acts.contains(&SessionAction::SendInputBox));
}
