//! The ways in which a subscribe attempt ends without success.
use vstd::prelude::*;

verus! {

/// Why a message or a whole subscribe attempt was given up.
#[derive(Clone, Debug, PartialEq, Eq)]
pub enum ProtocolError {
    /// Connecting, sending or receiving on the socket failed.
    Transport(String),
    /// A message was well formed but failed its own semantic check.
    Rejected(String),
    /// A session-level message failed validation; every pending subscription is void.
    SessionRejected(String),
    /// The exchange refused the subscription with this correlation key.
    SubscriptionRejected { correlation_key: String },
    /// The deadline elapsed before every subscription was confirmed.
    Timeout,
    /// The socket closed before every subscription was confirmed.
    ConnectionClosed,
}

/// Mathematical value of a [`ProtocolError`]: the same cases over character sequences.
pub enum ErrorModel {
    Transport(Seq<char>),
    Rejected(Seq<char>),
    SessionRejected(Seq<char>),
    SubscriptionRejected { correlation_key: Seq<char> },
    Timeout,
    ConnectionClosed,
}

impl View for ProtocolError {
    type V = ErrorModel;

    open spec fn view(&self) -> ErrorModel {
        match *self {
            ProtocolError::Transport(reason) => ErrorModel::Transport(reason@),
            ProtocolError::Rejected(reason) => ErrorModel::Rejected(reason@),
            ProtocolError::SessionRejected(reason) => ErrorModel::SessionRejected(reason@),
            ProtocolError::SubscriptionRejected { correlation_key } => ErrorModel::SubscriptionRejected {
                correlation_key: correlation_key@,
            },
            ProtocolError::Timeout => ErrorModel::Timeout,
            ProtocolError::ConnectionClosed => ErrorModel::ConnectionClosed,
        }
    }
}

} // verus!
