use barter_data::error::ProtocolError;
use barter_integration::subscription::SubscriptionId;
use barter_data::message::{
    Decoded, IbkrMessage, IbkrSubResponse, IbkrSystemHeartbeat, IbkrSystemResponse, IbkrTickleResponse,
};

const FAILED_SESSION: &str = "received failed system response success value";
const FAILED_SUBSCRIPTION: &str = "received failure for subscription";

fn tickle() -> IbkrTickleResponse {
    IbkrTickleResponse { alive: true, id: "XXXXX".to_string(), last_accessed: 1731507334085 }
}

#[test]
fn test_validate_ibkr_sub_response() {
    assert!(IbkrSubResponse::Subscribed.validate().is_ok());
    assert_eq!(IbkrSubResponse::Subscribed.validate(), Ok(IbkrSubResponse::Subscribed));
}

#[test]
fn sub_response_error_is_rejected_with_reason() {
    assert_eq!(
        IbkrSubResponse::Error.validate(),
        Err(ProtocolError::Rejected(FAILED_SUBSCRIPTION.to_string()))
    );
}

#[test]
fn heartbeat_zero_fails() {
    assert_eq!(
        IbkrSystemHeartbeat { hb: 0 }.validate(),
        Err(ProtocolError::Rejected(FAILED_SESSION.to_string()))
    );
}

#[test]
fn heartbeat_with_timestamp_passes() {
    assert_eq!(
        IbkrSystemHeartbeat { hb: 1729601500848 }.validate(),
        Ok(IbkrSystemHeartbeat { hb: 1729601500848 })
    );
    assert_eq!(IbkrSystemHeartbeat { hb: 1 }.validate(), Ok(IbkrSystemHeartbeat { hb: 1 }));
    assert!(IbkrSystemHeartbeat { hb: u64::MAX }.validate().is_ok());
}

#[test]
fn session_connect_with_empty_username_fails() {
    let response = IbkrSystemResponse { username: String::new(), is_ft: false, is_paper: false };
    assert_eq!(response.validate(), Err(ProtocolError::Rejected(FAILED_SESSION.to_string())));
}

#[test]
fn session_connect_with_username_passes() {
    let response = IbkrSystemResponse { username: "alice".to_string(), is_ft: false, is_paper: false };
    assert_eq!(response.clone().validate(), Ok(response));
    let flagged = IbkrSystemResponse { username: "b".to_string(), is_ft: true, is_paper: true };
    assert_eq!(flagged.clone().validate(), Ok(flagged));
}

#[test]
fn tickle_yields_its_session_id_and_is_always_valid() {
    assert_eq!(tickle().id(), Some(SubscriptionId::from("XXXXX")));
    assert_eq!(tickle().id().map(|id| id.to_string()), Some("XXXXX".to_string()));
    assert_eq!(tickle().validate(), Ok(tickle()));
    let dead = IbkrTickleResponse { alive: false, id: String::new(), last_accessed: 0 };
    assert_eq!(dead.id(), Some(SubscriptionId::from("")));
    assert_eq!(dead.clone().validate(), Ok(dead));
}

#[test]
fn message_kinds_are_classified() {
    assert!(IbkrMessage::Heartbeat(IbkrSystemHeartbeat { hb: 1 }).is_protocol_internal());
    assert!(IbkrMessage::KeepAlive(tickle()).is_protocol_internal());
    let connect = IbkrSystemResponse { username: "alice".to_string(), is_ft: false, is_paper: false };
    assert!(IbkrMessage::SessionConnect(connect).is_protocol_internal());
    let ack = IbkrMessage::SubscriptionAck {
        correlation_key: "smd+1".to_string(),
        response: IbkrSubResponse::Subscribed,
    };
    assert!(!ack.is_protocol_internal());
}

#[test]
fn message_correlation_keys() {
    assert_eq!(IbkrMessage::Heartbeat(IbkrSystemHeartbeat { hb: 1 }).correlation_key(), None);
    assert_eq!(IbkrMessage::KeepAlive(tickle()).correlation_key(), Some("XXXXX".to_string()));
    let connect = IbkrSystemResponse { username: "alice".to_string(), is_ft: false, is_paper: false };
    assert_eq!(IbkrMessage::SessionConnect(connect).correlation_key(), None);
    let ack = IbkrMessage::SubscriptionAck {
        correlation_key: "smd+1".to_string(),
        response: IbkrSubResponse::Error,
    };
    assert_eq!(ack.correlation_key(), Some("smd+1".to_string()));
}

#[test]
fn message_validate_follows_its_kind() {
    let heartbeat = IbkrMessage::Heartbeat(IbkrSystemHeartbeat { hb: 7 });
    assert_eq!(heartbeat.clone().validate(), Ok(heartbeat));
    assert_eq!(
        IbkrMessage::Heartbeat(IbkrSystemHeartbeat { hb: 0 }).validate(),
        Err(ProtocolError::Rejected(FAILED_SESSION.to_string()))
    );
    let keep_alive = IbkrMessage::KeepAlive(tickle());
    assert_eq!(keep_alive.clone().validate(), Ok(keep_alive));
    let empty = IbkrSystemResponse { username: String::new(), is_ft: true, is_paper: false };
    assert_eq!(
        IbkrMessage::SessionConnect(empty).validate(),
        Err(ProtocolError::Rejected(FAILED_SESSION.to_string()))
    );
    let ack = IbkrMessage::SubscriptionAck {
        correlation_key: "smd+1".to_string(),
        response: IbkrSubResponse::Subscribed,
    };
    assert_eq!(ack.clone().validate(), Ok(ack));
    let refused = IbkrMessage::SubscriptionAck {
        correlation_key: "smd+1".to_string(),
        response: IbkrSubResponse::Error,
    };
    assert_eq!(
        refused.validate(),
        Err(ProtocolError::Rejected(FAILED_SUBSCRIPTION.to_string()))
    );
}

#[test]
fn classification_prefers_session_messages() {
    let nothing = Decoded {
        heartbeat: None,
        keep_alive: None,
        session_connect: None,
        acknowledgement: None,
        acknowledged_key: None,
    };
    assert_eq!(IbkrMessage::classify(nothing.clone()), None);
    let ack_only = Decoded {
        acknowledgement: Some(IbkrSubResponse::Subscribed),
        acknowledged_key: Some("smd+1".to_string()),
        ..nothing.clone()
    };
    assert_eq!(
        IbkrMessage::classify(ack_only.clone()),
        Some(IbkrMessage::SubscriptionAck {
            correlation_key: "smd+1".to_string(),
            response: IbkrSubResponse::Subscribed,
        })
    );
    let keyless = Decoded { acknowledgement: Some(IbkrSubResponse::Subscribed), ..nothing.clone() };
    assert_eq!(IbkrMessage::classify(keyless), None);
    let heartbeat = Decoded { heartbeat: Some(IbkrSystemHeartbeat { hb: 3 }), ..ack_only.clone() };
    assert_eq!(
        IbkrMessage::classify(heartbeat),
        Some(IbkrMessage::Heartbeat(IbkrSystemHeartbeat { hb: 3 }))
    );
    let keep_alive = Decoded { keep_alive: Some(tickle()), ..ack_only.clone() };
    assert_eq!(IbkrMessage::classify(keep_alive), Some(IbkrMessage::KeepAlive(tickle())));
    let connect = IbkrSystemResponse { username: "alice".to_string(), is_ft: false, is_paper: true };
    let session = Decoded { session_connect: Some(connect.clone()), ..ack_only };
    assert_eq!(IbkrMessage::classify(session), Some(IbkrMessage::SessionConnect(connect)));
}
