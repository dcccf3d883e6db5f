use barter_data::error::ProtocolError;
use barter_data::mapper::ExchangeSub;
use barter_data::message::{IbkrMessage, IbkrSubResponse};
use barter_data::subscriber::{Action, Event, Session, Turn, WebSocketSubscriber};
use barter_data::validator::{Frame, SocketEvent};

type Raw = &'static str;
type Request = &'static str;

fn subscriptions() -> Vec<ExchangeSub<u32, Request>> {
    vec![
        ExchangeSub { correlation_key: "a".to_string(), instrument: 1, request: Some("sub a") },
        ExchangeSub { correlation_key: "b".to_string(), instrument: 2, request: Some("sub b") },
    ]
}

fn ack(raw: Raw, key: &str, response: IbkrSubResponse) -> Event<Raw> {
    Event::Socket(SocketEvent::Frame(Frame {
        raw,
        message: Some(IbkrMessage::SubscriptionAck { correlation_key: key.to_string(), response }),
    }))
}

fn proceed(turn: Turn<u32, Request, Raw>) -> (Session<u32, Request, Raw>, Action<Request>) {
    match turn {
        Turn::Continue { session, action } => (session, action),
        other => panic!("attempt ended: {other:?}"),
    }
}

#[test]
fn attempt_sends_in_order_then_validates() {
    let session: Session<u32, Request, Raw> = WebSocketSubscriber::begin(subscriptions());
    assert!(session.accepts(&Event::Connected));
    assert!(!session.accepts(&Event::Sent));
    let (session, action) = proceed(WebSocketSubscriber::advance(session, Event::Connected));
    assert!(matches!(action, Action::Send("sub a")));
    assert!(session.accepts(&Event::Sent));
    assert!(!session.accepts(&Event::Connected));
    let (session, action) = proceed(WebSocketSubscriber::advance(session, Event::Sent));
    assert!(matches!(action, Action::Send("sub b")));
    let (session, action) = proceed(WebSocketSubscriber::advance(session, Event::Sent));
    assert!(matches!(action, Action::Receive));
    assert!(session.accepts(&Event::Socket(SocketEvent::Closed)));
    assert!(!session.accepts(&Event::Sent));
    let unmatched = Event::Socket(SocketEvent::Frame(Frame { raw: "trade", message: None }));
    let (session, action) = proceed(WebSocketSubscriber::advance(session, unmatched));
    assert!(matches!(action, Action::Receive));
    let (session, _) = proceed(WebSocketSubscriber::advance(
        session,
        ack("ack b", "b", IbkrSubResponse::Subscribed),
    ));
    let turn = WebSocketSubscriber::advance(session, ack("ack a", "a", IbkrSubResponse::Subscribed));
    match turn {
        Turn::Subscribed { map, buffered } => {
            assert_eq!(map.len(), 2);
            assert!(map.all_confirmed());
            assert_eq!(map.find(&"a".to_string()), Some(&1));
            assert_eq!(map.find(&"b".to_string()), Some(&2));
            assert_eq!(buffered, vec!["trade"]);
            let subscribed = WebSocketSubscriber::subscribed("socket", map, buffered);
            assert_eq!(subscribed.websocket, "socket");
            assert_eq!(subscribed.map.len(), 2);
            assert_eq!(subscribed.buffered_websocket_events, vec!["trade"]);
        },
        other => panic!("not subscribed: {other:?}"),
    }
}

#[test]
fn failed_connect_is_a_transport_error() {
    let session: Session<u32, Request, Raw> = WebSocketSubscriber::begin(subscriptions());
    let turn = WebSocketSubscriber::advance(session, Event::ConnectFailed("refused".to_string()));
    assert!(matches!(turn, Turn::Failed(ProtocolError::Transport(reason)) if reason == "refused"));
}

#[test]
fn failed_send_aborts_at_once() {
    let session: Session<u32, Request, Raw> = WebSocketSubscriber::begin(subscriptions());
    let (session, _) = proceed(WebSocketSubscriber::advance(session, Event::Connected));
    let turn = WebSocketSubscriber::advance(session, Event::SendFailed("broken pipe".to_string()));
    assert!(matches!(turn, Turn::Failed(ProtocolError::Transport(reason)) if reason == "broken pipe"));
}

#[test]
fn refusal_during_validation_fails_the_attempt() {
    let session: Session<u32, Request, Raw> = WebSocketSubscriber::begin(subscriptions());
    let (session, _) = proceed(WebSocketSubscriber::advance(session, Event::Connected));
    let (session, _) = proceed(WebSocketSubscriber::advance(session, Event::Sent));
    let (session, _) = proceed(WebSocketSubscriber::advance(session, Event::Sent));
    let turn = WebSocketSubscriber::advance(session, ack("nack", "a", IbkrSubResponse::Error));
    assert!(matches!(
        turn,
        Turn::Failed(ProtocolError::SubscriptionRejected { correlation_key }) if correlation_key == "a"
    ));
}

#[test]
fn attempt_without_subscriptions_is_subscribed_once_connected() {
    let session: Session<u32, Request, Raw> = WebSocketSubscriber::begin(Vec::new());
    let turn = WebSocketSubscriber::advance(session, Event::Connected);
    match turn {
        Turn::Subscribed { map, buffered } => {
            assert!(map.is_empty());
            assert!(buffered.is_empty());
        },
        other => panic!("not subscribed: {other:?}"),
    }
}

#[test]
fn deadline_during_validation_fails_with_timeout() {
    let session: Session<u32, Request, Raw> = WebSocketSubscriber::begin(subscriptions());
    let (session, _) = proceed(WebSocketSubscriber::advance(session, Event::Connected));
    let (session, _) = proceed(WebSocketSubscriber::advance(session, Event::Sent));
    let (session, _) = proceed(WebSocketSubscriber::advance(session, Event::Sent));
    let turn = WebSocketSubscriber::advance(session, Event::Socket(SocketEvent::DeadlineElapsed));
    assert!(matches!(turn, Turn::Failed(ProtocolError::Timeout)));
}
