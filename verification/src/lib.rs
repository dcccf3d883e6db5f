//! Subscription handshake and correlation for exchange market-data sockets.
//!
//! The crate turns a caller's subscriptions into a correlation map and the
//! requests to transmit, and then decides, frame by frame, whether the exchange
//! has confirmed every subscription, rejected one, or ended the session. Frames
//! that the handshake does not consume are kept in arrival order for the caller.
pub mod correlation;
pub mod error;
pub mod laws;
pub mod mapper;
pub mod message;
pub mod subscriber;
pub mod validator;
