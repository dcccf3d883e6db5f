//! The subscription validator: the state machine that reads the frames following
//! the subscription requests and ends confirmed or failed.
//!
//! Each inbound frame arrives already classified: either as one of the message
//! kinds of the exchange, or as unrecognised. The validator consumes session
//! messages and the acknowledgements of pending subscriptions, fails as a whole on
//! the first rejection, and keeps every other frame, in arrival order.
use vstd::prelude::*;
use crate::correlation::{all_confirmed, confirm, has_pending, CorrelationMap, EntryModel};
use crate::error::{ErrorModel, ProtocolError};
use crate::message::IbkrMessage;

verus! {

/// One inbound frame: the raw frame as it arrived, and the message it decodes to,
/// if it decodes to any of the known kinds.
#[derive(Debug)]
pub struct Frame<F> {
    pub raw: F,
    pub message: Option<IbkrMessage>,
}

/// What the socket yields when the validator asks for the next frame.
#[derive(Debug)]
pub enum SocketEvent<F> {
    /// A frame arrived.
    Frame(Frame<F>),
    /// The socket closed.
    Closed,
    /// No frame arrived before the deadline.
    DeadlineElapsed,
    /// Receiving failed, for the given reason.
    ReceiveFailed(String),
}

/// Mathematical value of a validator: the correlation map and the buffered frames.
pub struct StateModel<K, F> {
    pub map: Seq<EntryModel<K>>,
    pub buffered: Seq<F>,
}

/// Mathematical value of a [`Progress`].
pub enum ProgressModel<K, F> {
    Awaiting(StateModel<K, F>),
    Complete(StateModel<K, F>),
    Failed(ErrorModel),
}

/// The error with which a frame ends the validation, if it does: a session
/// message that fails its check rejects the session, an acknowledgement that
/// fails its check rejects the subscription under its key.
pub open spec fn rejection<F>(frame: Frame<F>) -> Option<ErrorModel> {
    match frame.message {
        Some(message) => if message.is_valid() {
            None
        } else if message.is_internal() {
            Some(ErrorModel::SessionRejected(message.rejection_text()))
        } else {
            Some(ErrorModel::SubscriptionRejected { correlation_key: message.key().unwrap() })
        },
        None => None,
    }
}

/// Whether the validator consumes a frame that it does not reject: a session
/// message always, an acknowledgement when its key is pending in `map`.
pub open spec fn consumes<K, F>(map: Seq<EntryModel<K>>, frame: Frame<F>) -> bool {
    match frame.message {
        Some(message) => message.is_internal() || has_pending(map, message.key().unwrap()),
        None => false,
    }
}

/// The state after a frame that is not rejected: an acknowledgement of a pending
/// key confirms it, a session message changes nothing, any other frame is
/// appended to the buffer.
pub open spec fn absorb<K, F>(state: StateModel<K, F>, frame: Frame<F>) -> StateModel<K, F> {
    if !consumes(state.map, frame) {
        StateModel { map: state.map, buffered: state.buffered.push(frame.raw) }
    } else if frame.message.unwrap().is_internal() {
        state
    } else {
        StateModel {
            map: confirm(state.map, frame.message.unwrap().key().unwrap()),
            buffered: state.buffered,
        }
    }
}

/// A state is complete once every seeded key is confirmed.
pub open spec fn settle<K, F>(state: StateModel<K, F>) -> ProgressModel<K, F> {
    if all_confirmed(state.map) {
        ProgressModel::Complete(state)
    } else {
        ProgressModel::Awaiting(state)
    }
}

/// One transition of the validator on one frame.
pub open spec fn step<K, F>(state: StateModel<K, F>, frame: Frame<F>) -> ProgressModel<K, F> {
    match rejection(frame) {
        Some(error) => ProgressModel::Failed(error),
        None => settle(absorb(state, frame)),
    }
}

/// One transition of the validator on whatever the socket yields.
pub open spec fn react<K, F>(state: StateModel<K, F>, event: SocketEvent<F>) -> ProgressModel<K, F> {
    match event {
        SocketEvent::Frame(frame) => step(state, frame),
        SocketEvent::Closed => ProgressModel::Failed(ErrorModel::ConnectionClosed),
        SocketEvent::DeadlineElapsed => ProgressModel::Failed(ErrorModel::Timeout),
        SocketEvent::ReceiveFailed(reason) => ProgressModel::Failed(ErrorModel::Transport(reason@)),
    }
}

/// The outcome of validating against a socket that yields `frames` and then
/// closes. Frames are read one at a time, and only while a key is unconfirmed.
pub open spec fn run<K, F>(state: StateModel<K, F>, frames: Seq<Frame<F>>) -> ProgressModel<K, F>
    decreases frames.len(),
{
    if all_confirmed(state.map) {
        ProgressModel::Complete(state)
    } else if frames.len() == 0 {
        ProgressModel::Failed(ErrorModel::ConnectionClosed)
    } else {
        match rejection(frames[0]) {
            Some(error) => ProgressModel::Failed(error),
            None => run(absorb(state, frames[0]), frames.skip(1)),
        }
    }
}

/// How many of `frames` the validator reads before it ends.
pub open spec fn frames_read<K, F>(state: StateModel<K, F>, frames: Seq<Frame<F>>) -> nat
    decreases frames.len(),
{
    if all_confirmed(state.map) || frames.len() == 0 {
        0
    } else if rejection(frames[0]).is_some() {
        1
    } else {
        1 + frames_read(absorb(state, frames[0]), frames.skip(1))
    }
}

/// The validator between two frames.
#[derive(Debug)]
pub struct SubscriptionValidator<K, F> {
    pub map: CorrelationMap<K>,
    pub buffered: Vec<F>,
}

/// Where the validation stands after a transition.
#[derive(Debug)]
pub enum Progress<K, F> {
    /// Some key is unconfirmed: read the next frame.
    Awaiting(SubscriptionValidator<K, F>),
    /// Every key is confirmed: the final map and the frames that were not consumed.
    Complete { map: CorrelationMap<K>, buffered: Vec<F> },
    /// The validation was given up; nothing of the map or the buffer is left.
    Failed(ProtocolError),
}

impl<K, F> View for SubscriptionValidator<K, F> {
    type V = StateModel<K, F>;

    open spec fn view(&self) -> StateModel<K, F> {
        StateModel { map: self.map@, buffered: self.buffered@ }
    }
}

impl<K, F> View for Progress<K, F> {
    type V = ProgressModel<K, F>;

    open spec fn view(&self) -> ProgressModel<K, F> {
        match *self {
            Progress::Awaiting(validator) => ProgressModel::Awaiting(validator@),
            Progress::Complete { map, buffered } => ProgressModel::Complete(
                StateModel { map: map@, buffered: buffered@ },
            ),
            Progress::Failed(error) => ProgressModel::Failed(error@),
        }
    }
}

impl<K, F> Progress<K, F> {
    /// The correlation map that the progress holds, if any, is well formed.
    pub open spec fn wf(&self) -> bool {
        match *self {
            Progress::Awaiting(validator) => validator.wf(),
            Progress::Complete { map, buffered: _ } => map.wf(),
            Progress::Failed(_) => true,
        }
    }
}

impl<K, F> SubscriptionValidator<K, F> {
    /// The correlation map is well formed.
    pub open spec fn wf(&self) -> bool {
        self.map.wf()
    }

    /// A validator over the seeded map, with nothing buffered.
    pub fn new(map: CorrelationMap<K>) -> (validator: SubscriptionValidator<K, F>)
        requires
            map.wf(),
        ensures
            validator.wf(),
            validator@ == (StateModel { map: map@, buffered: Seq::<F>::empty() }),
    {
        SubscriptionValidator { map, buffered: Vec::new() }
    }

    /// Checks for completion: complete when every key is confirmed, awaiting
    /// the next frame otherwise.
    pub fn poll(self) -> (progress: Progress<K, F>)
        requires
            self.wf(),
        ensures
            progress.wf(),
            progress@ == settle(self@),
    {
        if self.map.all_confirmed() {
            Progress::Complete { map: self.map, buffered: self.buffered }
        } else {
            Progress::Awaiting(self)
        }
    }

    /// Processes one frame: fails on a rejection, confirms the key that a valid
    /// acknowledgement answers, consumes a valid session message, buffers any
    /// other frame; then checks for completion.
    pub fn on_frame(self, frame: Frame<F>) -> (progress: Progress<K, F>)
        requires
            self.wf(),
        ensures
            progress.wf(),
            progress@ == step(self@, frame),
    {
        let SubscriptionValidator { mut map, mut buffered } = self;
        let Frame { raw, message } = frame;
        match message {
            None => {
                buffered.push(raw);
            },
            Some(message) => {
                let internal = message.is_protocol_internal();
                let key = message.correlation_key();
                match message.validate() {
                    Err(error) => {
                        let reason = match error {
                            ProtocolError::Rejected(reason) => reason,
                            _ => String::new(),
                        };
                        if internal {
                            return Progress::Failed(ProtocolError::SessionRejected(reason));
                        }
                        match key {
                            Some(correlation_key) => {
                                return Progress::Failed(
                                    ProtocolError::SubscriptionRejected { correlation_key },
                                );
                            },
                            None => {
                                return Progress::Failed(ProtocolError::Rejected(reason));
                            },
                        }
                    },
                    Ok(_) => {
                        if !internal {
                            match key {
                                Some(correlation_key) => {
                                    if !map.confirm(&correlation_key) {
                                        buffered.push(raw);
                                    }
                                },
                                None => {},
                            }
                        }
                    },
                }
            },
        }
        SubscriptionValidator { map, buffered }.poll()
    }

    /// Processes whatever the socket yielded: a frame as `on_frame` does; a
    /// closed socket, an elapsed deadline and a failed receive end the validation.
    pub fn on_event(self, event: SocketEvent<F>) -> (progress: Progress<K, F>)
        requires
            self.wf(),
        ensures
            progress.wf(),
            progress@ == react(self@, event),
    {
        match event {
            SocketEvent::Frame(frame) => self.on_frame(frame),
            SocketEvent::Closed => Progress::Failed(ProtocolError::ConnectionClosed),
            SocketEvent::DeadlineElapsed => Progress::Failed(ProtocolError::Timeout),
            SocketEvent::ReceiveFailed(reason) => Progress::Failed(ProtocolError::Transport(reason)),
        }
    }

    /// Validates against a socket that yields `frames`, in this order, and then
    /// closes. Returns the outcome together with the frames that were not read.
    pub fn drain(self, frames: Vec<Frame<F>>) -> (result: (Progress<K, F>, Vec<Frame<F>>))
        requires
            self.wf(),
        ensures
            result.0.wf(),
            result.0@ == run(self@, frames@),
            result.1@ == frames@.skip(frames_read(self@, frames@) as int),
    {
        let mut current = self.poll();
        let mut unread = frames;
        loop
            invariant
                current.wf(),
                unread@.len() <= frames@.len(),
                unread@ == frames@.skip(frames@.len() - unread@.len()),
                match current@ {
                    ProgressModel::Awaiting(state) => {
                        &&& !all_confirmed(state.map)
                        &&& run(state, unread@) == run(self@, frames@)
                        &&& frames@.len() - unread@.len() + frames_read(state, unread@)
                            == frames_read(self@, frames@)
                    },
                    other => {
                        &&& other == run(self@, frames@)
                        &&& frames@.len() - unread@.len() == frames_read(self@, frames@)
                    },
                },
            decreases unread@.len() + (if current@ is Awaiting { 1nat } else { 0nat }),
        {
            match current {
                Progress::Awaiting(validator) => {
                    if unread.len() == 0 {
                        assert(run(validator@, unread@) == ProgressModel::<K, F>::Failed(
                            ErrorModel::ConnectionClosed,
                        ));
                        assert(frames_read(validator@, unread@) == 0);
                        current = Progress::Failed(ProtocolError::ConnectionClosed);
                    } else {
                        let ghost before = unread@;
                        let ghost state = validator@;
                        let frame = unread.remove(0);
                        assert(unread@ =~= before.skip(1));
                        assert(unread@ =~= frames@.skip(frames@.len() - unread@.len()));
                        current = validator.on_frame(frame);
                        proof {
                            assert(frame == before[0]);
                            if rejection(frame).is_none() {
                                let next = absorb(state, frame);
                                assert(run(state, before) == run(next, unread@));
                                assert(frames_read(state, before) == 1 + frames_read(next, unread@));
                                if all_confirmed(next.map) {
                                    assert(run(next, unread@) == ProgressModel::Complete(next));
                                    assert(frames_read(next, unread@) == 0);
                                }
                            } else {
                                assert(run(state, before) == ProgressModel::<K, F>::Failed(
                                    rejection(frame).unwrap(),
                                ));
                                assert(frames_read(state, before) == 1);
                            }
                        }
                    }
                },
                done => {
                    return (done, unread);
                },
            }
        }
    }
}

} // verus!
