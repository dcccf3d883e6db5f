//! The subscriber: one subscribe attempt from connecting to the confirmed map.
//!
//! The attempt is a state machine. Its driver owns the socket: it performs the
//! action that the machine asks for, reports what happened as an event, and
//! receives the next action, until the attempt ends subscribed or failed.
use vstd::prelude::*;
use crate::correlation::{CorrelationMap, EntryModel};
use crate::error::{ErrorModel, ProtocolError};
use crate::mapper::{requests, seeded, ExchangeSub, SubscriptionMeta, WebSocketSubMapper};
use crate::validator::{
    react, settle, Progress, ProgressModel, SocketEvent, StateModel, SubscriptionValidator,
};

verus! {

/// What a successful subscribe attempt hands to the caller: the open socket,
/// the confirmed correlation map, and the frames that arrived during the
/// handshake without belonging to it, in arrival order.
#[derive(Debug)]
pub struct Subscribed<S, K, F> {
    pub websocket: S,
    pub map: CorrelationMap<K>,
    pub buffered_websocket_events: Vec<F>,
}

/// Where a subscribe attempt stands between two actions of its driver.
#[derive(Debug)]
pub enum Session<K, W, F> {
    /// The socket is being connected; nothing has been sent.
    Connecting { map: CorrelationMap<K>, unsent: Vec<W> },
    /// A request is being sent; `unsent` are the requests that follow it.
    Sending { map: CorrelationMap<K>, unsent: Vec<W> },
    /// Every request was sent; the responses are being validated.
    Validating(SubscriptionValidator<K, F>),
}

/// What the driver reports back.
#[derive(Debug)]
pub enum Event<F> {
    /// The socket is open.
    Connected,
    /// The socket could not be opened.
    ConnectFailed(String),
    /// The request was sent.
    Sent,
    /// The request could not be sent.
    SendFailed(String),
    /// What the socket yielded on a receive.
    Socket(SocketEvent<F>),
}

/// What the driver does next.
#[derive(Debug)]
pub enum Action<W> {
    /// Transmit this wire request.
    Send(W),
    /// Wait for the next inbound frame, the deadline, or the end of the socket.
    Receive,
}

/// The outcome of one transition.
#[derive(Debug)]
pub enum Turn<K, W, F> {
    /// The attempt goes on: perform `action` and report back to `session`.
    Continue { session: Session<K, W, F>, action: Action<W> },
    /// Every subscription is confirmed.
    Subscribed { map: CorrelationMap<K>, buffered: Vec<F> },
    /// The attempt was given up: the driver drops the socket.
    Failed(ProtocolError),
}

/// Mathematical value of a [`Session`].
pub enum SessionModel<K, W, F> {
    Connecting { map: Seq<EntryModel<K>>, unsent: Seq<W> },
    Sending { map: Seq<EntryModel<K>>, unsent: Seq<W> },
    Validating(StateModel<K, F>),
}

/// Mathematical value of a [`Turn`].
pub enum TurnModel<K, W, F> {
    Continue { session: SessionModel<K, W, F>, action: Action<W> },
    Subscribed(StateModel<K, F>),
    Failed(ErrorModel),
}

impl<K, W, F> View for Session<K, W, F> {
    type V = SessionModel<K, W, F>;

    open spec fn view(&self) -> SessionModel<K, W, F> {
        match *self {
            Session::Connecting { map, unsent } => SessionModel::Connecting {
                map: map@,
                unsent: unsent@,
            },
            Session::Sending { map, unsent } => SessionModel::Sending { map: map@, unsent: unsent@ },
            Session::Validating(validator) => SessionModel::Validating(validator@),
        }
    }
}

impl<K, W, F> View for Turn<K, W, F> {
    type V = TurnModel<K, W, F>;

    open spec fn view(&self) -> TurnModel<K, W, F> {
        match *self {
            Turn::Continue { session, action } => TurnModel::Continue { session: session@, action },
            Turn::Subscribed { map, buffered } => TurnModel::Subscribed(
                StateModel { map: map@, buffered: buffered@ },
            ),
            Turn::Failed(error) => TurnModel::Failed(error@),
        }
    }
}

/// The turn that follows a validator transition.
pub open spec fn validating<K, W, F>(progress: ProgressModel<K, F>) -> TurnModel<K, W, F> {
    match progress {
        ProgressModel::Awaiting(state) => TurnModel::Continue {
            session: SessionModel::Validating(state),
            action: Action::Receive,
        },
        ProgressModel::Complete(state) => TurnModel::Subscribed(state),
        ProgressModel::Failed(error) => TurnModel::Failed(error),
    }
}

/// The turn once the socket is open or a request has gone out: the next unsent
/// request is transmitted; when none is left, validation begins with an empty
/// buffer.
pub open spec fn dispatch<K, W, F>(map: Seq<EntryModel<K>>, unsent: Seq<W>) -> TurnModel<K, W, F> {
    if unsent.len() > 0 {
        TurnModel::Continue {
            session: SessionModel::Sending { map, unsent: unsent.skip(1) },
            action: Action::Send(unsent[0]),
        }
    } else {
        validating(settle(StateModel { map, buffered: Seq::<F>::empty() }))
    }
}

/// Whether `event` reports on the action that `session` is waiting for.
pub open spec fn expects<K, W, F>(session: SessionModel<K, W, F>, event: Event<F>) -> bool {
    match session {
        SessionModel::Connecting { .. } => event is Connected || event is ConnectFailed,
        SessionModel::Sending { .. } => event is Sent || event is SendFailed,
        SessionModel::Validating(_) => event is Socket,
    }
}

/// One transition of a subscribe attempt, on an event that the session expects.
/// A failed connect or send is a transport error and ends the attempt at once;
/// an open socket or a sent request lets the next request go out; during
/// validation the validator decides.
pub open spec fn transition<K, W, F>(session: SessionModel<K, W, F>, event: Event<F>) -> TurnModel<
    K,
    W,
    F,
> {
    match session {
        SessionModel::Connecting { map, unsent } => match event {
            Event::ConnectFailed(reason) => TurnModel::Failed(ErrorModel::Transport(reason@)),
            _ => dispatch(map, unsent),
        },
        SessionModel::Sending { map, unsent } => match event {
            Event::SendFailed(reason) => TurnModel::Failed(ErrorModel::Transport(reason@)),
            _ => dispatch(map, unsent),
        },
        SessionModel::Validating(state) => match event {
            Event::Socket(event) => validating(react(state, event)),
            _ => validating(settle(state)),
        },
    }
}

impl<K, W, F> Session<K, W, F> {
    /// The correlation map that the session holds is well formed.
    pub open spec fn wf(&self) -> bool {
        match *self {
            Session::Connecting { map, unsent: _ } => map.wf(),
            Session::Sending { map, unsent: _ } => map.wf(),
            Session::Validating(validator) => validator.wf(),
        }
    }

    /// Whether `event` reports on the action that this session is waiting for.
    pub fn accepts(&self, event: &Event<F>) -> (accepted: bool)
        ensures
            accepted == expects(self@, *event),
    {
        match self {
            Session::Connecting { .. } => match event {
                Event::Connected => true,
                Event::ConnectFailed(_) => true,
                _ => false,
            },
            Session::Sending { .. } => match event {
                Event::Sent => true,
                Event::SendFailed(_) => true,
                _ => false,
            },
            Session::Validating(_) => match event {
                Event::Socket(_) => true,
                _ => false,
            },
        }
    }
}

impl<K, W, F> Turn<K, W, F> {
    /// The correlation map that the turn holds, if any, is well formed.
    pub open spec fn wf(&self) -> bool {
        match *self {
            Turn::Continue { session, action: _ } => session.wf(),
            Turn::Subscribed { map, buffered: _ } => map.wf(),
            Turn::Failed(_) => true,
        }
    }
}

/// Standard subscriber for sockets, suitable for most exchanges.
#[derive(Copy, Clone, Eq, PartialEq, Ord, PartialOrd, Hash, Debug)]
pub struct WebSocketSubscriber;

impl WebSocketSubscriber {
    /// Begins a subscribe attempt: maps the subscriptions and waits for the
    /// socket to be connected.
    pub fn begin<K, W, F>(subscriptions: Vec<ExchangeSub<K, W>>) -> (session: Session<K, W, F>)
        ensures
            session.wf(),
            session@ == (SessionModel::<K, W, F>::Connecting {
                map: seeded(subscriptions@),
                unsent: requests(subscriptions@),
            }),
    {
        let SubscriptionMeta { instrument_map, ws_subscriptions } = WebSocketSubMapper::map(
            subscriptions,
        );
        Session::Connecting { map: instrument_map, unsent: ws_subscriptions }
    }

    /// Sends the next request, or begins to validate when none is left.
    fn dispatch<K, W, F>(map: CorrelationMap<K>, unsent: Vec<W>) -> (turn: Turn<K, W, F>)
        requires
            map.wf(),
        ensures
            turn.wf(),
            turn@ == dispatch::<K, W, F>(map@, unsent@),
    {
        let mut unsent = unsent;
        if unsent.len() > 0 {
            let ghost all = unsent@;
            let request = unsent.remove(0);
            assert(unsent@ =~= all.skip(1));
            Turn::Continue { session: Session::Sending { map, unsent }, action: Action::Send(request) }
        } else {
            Self::validating(SubscriptionValidator::new(map).poll())
        }
    }

    /// The turn that follows a validator transition.
    fn validating<K, W, F>(progress: Progress<K, F>) -> (turn: Turn<K, W, F>)
        requires
            progress.wf(),
        ensures
            turn.wf(),
            turn@ == validating::<K, W, F>(progress@),
    {
        match progress {
            Progress::Awaiting(validator) => Turn::Continue {
                session: Session::Validating(validator),
                action: Action::Receive,
            },
            Progress::Complete { map, buffered } => Turn::Subscribed { map, buffered },
            Progress::Failed(error) => Turn::Failed(error),
        }
    }

    /// Advances a subscribe attempt by what its driver reports.
    pub fn advance<K, W, F>(session: Session<K, W, F>, event: Event<F>) -> (turn: Turn<K, W, F>)
        requires
            session.wf(),
            expects(session@, event),
        ensures
            turn.wf(),
            turn@ == transition(session@, event),
    {
        match session {
            Session::Connecting { map, unsent } => match event {
                Event::ConnectFailed(reason) => Turn::Failed(ProtocolError::Transport(reason)),
                _ => Self::dispatch(map, unsent),
            },
            Session::Sending { map, unsent } => match event {
                Event::SendFailed(reason) => Turn::Failed(ProtocolError::Transport(reason)),
                _ => Self::dispatch(map, unsent),
            },
            Session::Validating(validator) => match event {
                Event::Socket(event) => Self::validating(validator.on_event(event)),
                _ => Self::validating(validator.poll()),
            },
        }
    }

    /// Packages the result of a successful attempt with the socket it ran on.
    pub fn subscribed<S, K, F>(websocket: S, map: CorrelationMap<K>, buffered: Vec<F>) -> (result:
        Subscribed<S, K, F>)
        ensures
            result.websocket == websocket,
            result.map == map,
            result.buffered_websocket_events == buffered,
    {
        Subscribed { websocket, map, buffered_websocket_events: buffered }
    }
}

/// The requests go out in the mapped order: while the request at `sent` is
/// being sent, its success is followed by the request at `sent + 1`, and the
/// success of the last request by validation with nothing buffered.
pub proof fn lemma_requests_go_out_in_order<K, W, F>(
    map: Seq<EntryModel<K>>,
    all: Seq<W>,
    sent: int,
)
    requires
        0 <= sent < all.len(),
    ensures
        sent + 1 < all.len() ==> transition(
            SessionModel::<K, W, F>::Sending { map, unsent: all.skip(sent + 1) },
            Event::Sent,
        ) == (TurnModel::<K, W, F>::Continue {
            session: SessionModel::Sending { map, unsent: all.skip(sent + 2) },
            action: Action::Send(all[sent + 1]),
        }),
        sent + 1 == all.len() ==> transition(
            SessionModel::<K, W, F>::Sending { map, unsent: all.skip(sent + 1) },
            Event::Sent,
        ) == validating::<K, W, F>(settle(StateModel { map, buffered: Seq::<F>::empty() })),
{
    if sent + 1 < all.len() {
        assert(all.skip(sent + 1).skip(1) =~= all.skip(sent + 2));
    }
}

} // verus!
