//! Inbound messages of the Interactive Brokers socket that the handshake understands.
//!
//! Every message kind offers the same two capabilities: `validate`, a semantic
//! check that is independent of decoding, and a correlation key where the message
//! answers one pending subscription.
use vstd::prelude::*;
use barter_integration::subscription::SubscriptionId;
use crate::error::ErrorModel;
use crate::error::ProtocolError;

verus! {

/// The subscription identifier of the integration layer, carried as an opaque value.
#[verifier::external_type_specification]
#[verifier::external_body]
pub struct ExSubscriptionId(SubscriptionId);

/// The subscription identifier that the integration layer makes of a text.
pub uninterp spec fn subscription_id_of(text: Seq<char>) -> SubscriptionId;

/// Calls `SubscriptionId::from` on an owned string. The identifier is a newtype
/// around the text, so the contract claims only that the result is determined
/// by the text alone.
#[verifier::external_body]
fn subscription_id(text: String) -> (id: SubscriptionId)
    ensures
        id == subscription_id_of(text@),
{
    SubscriptionId::from(text)
}

/// Reason reported when a session-level message fails validation.
pub open spec fn failed_session_text() -> Seq<char> {
    "received failed system response success value"@
}

/// Reason reported when a subscription acknowledgement signals failure.
pub open spec fn failed_subscription_text() -> Seq<char> {
    "received failure for subscription"@
}

/// Keep-alive ("tickle") payload: `{"topic": "tic", "alive": true, "id": "...", "lastAccessed": 1731507334085}`.
#[derive(Clone, PartialEq, Eq, PartialOrd, Ord, Hash, Debug)]
pub struct IbkrTickleResponse {
    pub alive: bool,
    pub id: String,
    pub last_accessed: u64,
}

impl IbkrTickleResponse {
    /// The session id as a subscription identifier; always present.
    pub fn id(&self) -> (key: Option<SubscriptionId>)
        ensures
            key == Some(subscription_id_of(self.id@)),
    {
        Some(subscription_id(self.id.clone()))
    }

    /// A keep-alive that could be decoded is always valid.
    pub fn validate(self) -> (checked: Result<IbkrTickleResponse, ProtocolError>)
        ensures
            checked == Ok::<IbkrTickleResponse, ProtocolError>(self),
    {
        Ok(self)
    }
}

/// Session-connect payload: `{"topic": "system", "success": "some_username", "isFT": false, "isPaper": false}`.
#[derive(Clone, Debug, Eq, Hash, Ord, PartialEq, PartialOrd)]
pub struct IbkrSystemResponse {
    pub username: String,
    pub is_ft: bool,
    pub is_paper: bool,
}

impl IbkrSystemResponse {
    /// Whether the session was established: the username is not empty.
    pub open spec fn is_valid(&self) -> bool {
        self.username@.len() > 0
    }

    /// Returns the message unchanged when the username is not empty, and a
    /// rejection otherwise.
    pub fn validate(self) -> (checked: Result<IbkrSystemResponse, ProtocolError>)
        ensures
            self.is_valid() ==> checked == Ok::<IbkrSystemResponse, ProtocolError>(self),
            !self.is_valid() ==> checked.is_err() && checked.unwrap_err()@ == ErrorModel::Rejected(
                failed_session_text(),
            ),
    {
        if !self.username.as_str().is_empty() {
            Ok(self)
        } else {
            Err(ProtocolError::Rejected("received failed system response success value".to_owned()))
        }
    }
}

/// Session heartbeat payload: `{"topic": "system", "hb": 1729601500848}`.
#[derive(Clone, Debug, Eq, Hash, Ord, PartialEq, PartialOrd)]
pub struct IbkrSystemHeartbeat {
    pub hb: u64,
}

impl IbkrSystemHeartbeat {
    /// Whether the heartbeat carries a timestamp: a value above zero.
    pub open spec fn is_valid(&self) -> bool {
        self.hb > 0
    }

    /// Returns the heartbeat unchanged when its timestamp is above zero, and a
    /// rejection otherwise.
    pub fn validate(self) -> (checked: Result<IbkrSystemHeartbeat, ProtocolError>)
        ensures
            self.is_valid() ==> checked == Ok::<IbkrSystemHeartbeat, ProtocolError>(self),
            !self.is_valid() ==> checked.is_err() && checked.unwrap_err()@ == ErrorModel::Rejected(
                failed_session_text(),
            ),
    {
        if self.hb > 0 {
            Ok(self)
        } else {
            Err(ProtocolError::Rejected("received failed system response success value".to_owned()))
        }
    }
}

/// What a subscription acknowledgement says of the subscription it answers.
#[derive(Clone, Eq, PartialEq, Ord, PartialOrd, Hash, Debug)]
pub enum IbkrSubResponse {
    Subscribed,
    Error,
}

impl IbkrSubResponse {
    /// Whether the acknowledgement confirms the subscription.
    pub open spec fn is_valid(&self) -> bool {
        *self is Subscribed
    }

    /// Returns the acknowledgement unchanged when it confirms, and a rejection
    /// when it signals failure.
    pub fn validate(self) -> (checked: Result<IbkrSubResponse, ProtocolError>)
        ensures
            self.is_valid() ==> checked == Ok::<IbkrSubResponse, ProtocolError>(self),
            !self.is_valid() ==> checked.is_err() && checked.unwrap_err()@ == ErrorModel::Rejected(
                failed_subscription_text(),
            ),
    {
        match self {
            IbkrSubResponse::Subscribed => Ok(self),
            IbkrSubResponse::Error => Err(
                ProtocolError::Rejected("received failure for subscription".to_owned()),
            ),
        }
    }
}

/// The closed set of message kinds that the handshake recognises on this exchange.
#[derive(Clone, Debug, PartialEq, Eq)]
pub enum IbkrMessage {
    /// Session heartbeat; protocol-internal.
    Heartbeat(IbkrSystemHeartbeat),
    /// Keep-alive; protocol-internal.
    KeepAlive(IbkrTickleResponse),
    /// Session-connect acknowledgement; protocol-internal.
    SessionConnect(IbkrSystemResponse),
    /// Acknowledgement of the subscription with the given correlation key.
    SubscriptionAck { correlation_key: String, response: IbkrSubResponse },
}

/// What decoding one frame as each known kind gave: one attempt per kind, each
/// present when the frame has that kind's shape.
#[derive(Clone, Debug, PartialEq, Eq)]
pub struct Decoded {
    pub heartbeat: Option<IbkrSystemHeartbeat>,
    pub keep_alive: Option<IbkrTickleResponse>,
    pub session_connect: Option<IbkrSystemResponse>,
    pub acknowledgement: Option<IbkrSubResponse>,
    pub acknowledged_key: Option<String>,
}

/// The message that a frame is taken for, by fixed precedence: heartbeat, then
/// keep-alive, then session-connect, and a subscription acknowledgement only
/// when the frame is none of these and names the key it answers.
pub open spec fn precedence(decoded: Decoded) -> Option<IbkrMessage> {
    if decoded.heartbeat.is_some() {
        Some(IbkrMessage::Heartbeat(decoded.heartbeat.unwrap()))
    } else if decoded.keep_alive.is_some() {
        Some(IbkrMessage::KeepAlive(decoded.keep_alive.unwrap()))
    } else if decoded.session_connect.is_some() {
        Some(IbkrMessage::SessionConnect(decoded.session_connect.unwrap()))
    } else if decoded.acknowledgement.is_some() && decoded.acknowledged_key.is_some() {
        Some(
            IbkrMessage::SubscriptionAck {
                correlation_key: decoded.acknowledged_key.unwrap(),
                response: decoded.acknowledgement.unwrap(),
            },
        )
    } else {
        None
    }
}

impl IbkrMessage {
    /// Picks the message kind of a frame from the decoding attempts, session
    /// messages before subscription acknowledgements; `None` when the frame has
    /// no known shape.
    pub fn classify(decoded: Decoded) -> (message: Option<IbkrMessage>)
        ensures
            message == precedence(decoded),
    {
        let Decoded { heartbeat, keep_alive, session_connect, acknowledgement, acknowledged_key } =
            decoded;
        match heartbeat {
            Some(heartbeat) => {
                return Some(IbkrMessage::Heartbeat(heartbeat));
            },
            None => {},
        }
        match keep_alive {
            Some(tickle) => {
                return Some(IbkrMessage::KeepAlive(tickle));
            },
            None => {},
        }
        match session_connect {
            Some(connect) => {
                return Some(IbkrMessage::SessionConnect(connect));
            },
            None => {},
        }
        match acknowledgement {
            Some(response) => match acknowledged_key {
                Some(correlation_key) => Some(
                    IbkrMessage::SubscriptionAck { correlation_key, response },
                ),
                None => None,
            },
            None => None,
        }
    }

    /// Whether the message concerns the session rather than one subscription.
    pub open spec fn is_internal(&self) -> bool {
        !(*self is SubscriptionAck)
    }

    /// Whether `validate` accepts the message.
    pub open spec fn is_valid(&self) -> bool {
        match *self {
            IbkrMessage::Heartbeat(heartbeat) => heartbeat.is_valid(),
            IbkrMessage::KeepAlive(_) => true,
            IbkrMessage::SessionConnect(connect) => connect.is_valid(),
            IbkrMessage::SubscriptionAck { correlation_key: _, response } => response.is_valid(),
        }
    }

    /// The correlation key that the message carries, if it carries one.
    pub open spec fn key(&self) -> Option<Seq<char>> {
        match *self {
            IbkrMessage::Heartbeat(_) => None,
            IbkrMessage::KeepAlive(tickle) => Some(tickle.id@),
            IbkrMessage::SessionConnect(_) => None,
            IbkrMessage::SubscriptionAck { correlation_key, response: _ } => Some(correlation_key@),
        }
    }

    /// The reason that `validate` gives for refusing the message.
    pub open spec fn rejection_text(&self) -> Seq<char> {
        if *self is SubscriptionAck {
            failed_subscription_text()
        } else {
            failed_session_text()
        }
    }

    /// True for heartbeat, keep-alive and session-connect messages.
    pub fn is_protocol_internal(&self) -> (internal: bool)
        ensures
            internal == self.is_internal(),
    {
        match self {
            IbkrMessage::SubscriptionAck { .. } => false,
            _ => true,
        }
    }

    /// Runs the semantic check of the message kind at hand: the message comes
    /// back unchanged when it passes, a rejection with the kind's reason when not.
    pub fn validate(self) -> (checked: Result<IbkrMessage, ProtocolError>)
        ensures
            self.is_valid() ==> checked == Ok::<IbkrMessage, ProtocolError>(self),
            !self.is_valid() ==> checked.is_err() && checked.unwrap_err()@ == ErrorModel::Rejected(
                self.rejection_text(),
            ),
    {
        match self {
            IbkrMessage::Heartbeat(heartbeat) => match heartbeat.validate() {
                Ok(valid) => Ok(IbkrMessage::Heartbeat(valid)),
                Err(error) => Err(error),
            },
            IbkrMessage::KeepAlive(tickle) => Ok(IbkrMessage::KeepAlive(tickle)),
            IbkrMessage::SessionConnect(connect) => match connect.validate() {
                Ok(valid) => Ok(IbkrMessage::SessionConnect(valid)),
                Err(error) => Err(error),
            },
            IbkrMessage::SubscriptionAck { correlation_key, response } => match response.validate() {
                Ok(valid) => Ok(IbkrMessage::SubscriptionAck { correlation_key, response: valid }),
                Err(error) => Err(error),
            },
        }
    }

    /// The key of the pending subscription that the message answers: present for
    /// subscription acknowledgements and keep-alives, absent otherwise.
    pub fn correlation_key(&self) -> (found: Option<String>)
        ensures
            found.is_some() == self.key().is_some(),
            found matches Some(text) ==> Some(text@) == self.key(),
    {
        match self {
            IbkrMessage::Heartbeat(_) => None,
            IbkrMessage::KeepAlive(tickle) => Some(tickle.id.clone()),
            IbkrMessage::SessionConnect(_) => None,
            IbkrMessage::SubscriptionAck { correlation_key, .. } => Some(correlation_key.clone()),
        }
    }
}

} // verus!
