//! The worker channel: one thread's rendezvous with the dispatcher.
//!
//! A channel carries one envelope at a time. `send` accepts an envelope only
//! while none is awaiting its reply; `recv` ends the exchange with the reply,
//! checked against the shape the envelope declared.
use vstd::prelude::*;
use crate::envelope::{Envelope, Payload, Reply, ReplyShape, Wake, check_wake, spec_check_reply, spec_check_wake};
use crate::error::BridgeError;
use crate::request::{RequestEvent, RequestState, spec_run};

verus! {

/// An envelope on its way to the dispatcher, tagged with the channel it came from.
pub struct Request {
    pub channel: u64,
    pub envelope: Envelope,
}

/// What `send` did with an envelope.
pub enum SendOutcome {
    /// Accepted: this request goes into the dispatcher's queue.
    Enqueue(Request),
    /// A reply is still awaited: the envelope comes back untouched, to be
    /// sent again once that reply has been received.
    Busy(Envelope),
}

/// What a channel is, to its contracts.
pub struct ChannelState {
    /// The identity under which replies are addressed to the channel.
    pub id: u64,
    /// The shape declared by the envelope that awaits its reply, if one does.
    pub pending: Option<ReplyShape>,
    /// Whether the dispatcher's side was found torn down.
    pub closed: bool,
}

/// One thread's handle on the bridge.
pub struct WorkerChannel {
    id: u64,
    pending: Option<ReplyShape>,
    closed: bool,
}

impl View for WorkerChannel {
    type V = ChannelState;

    closed spec fn view(&self) -> ChannelState {
        ChannelState { id: self.id, pending: self.pending, closed: self.closed }
    }
}

/// The channel and the outcome after `send(envelope)` in `state`.
pub open spec fn spec_send(state: ChannelState, envelope: Envelope) -> (
    ChannelState,
    Result<SendOutcome, BridgeError>,
) {
    if state.closed {
        (state, Err(BridgeError::DoubleResolve))
    } else if state.pending is Some {
        (state, Ok(SendOutcome::Busy(envelope)))
    } else {
        (
            ChannelState { pending: Some(envelope.spec_expected()), ..state },
            Ok(SendOutcome::Enqueue(Request { channel: state.id, envelope })),
        )
    }
}

/// The channel and the result after `recv` is woken with `wake` in `state`.
pub open spec fn spec_recv(state: ChannelState, wake: Wake) -> (
    ChannelState,
    Result<Payload, BridgeError>,
) {
    match state.pending {
        None => (state, Err(BridgeError::DoubleResolve)),
        Some(shape) => (
            ChannelState { pending: None, closed: state.closed || wake is Closed, ..state },
            spec_check_wake(shape, wake),
        ),
    }
}

/// The terminal state of a request whose `recv` returned `result`.
pub open spec fn spec_outcome_state(result: Result<Payload, BridgeError>) -> RequestState {
    match result {
        Ok(_) => RequestState::Replied,
        Err(BridgeError::Disconnected) => RequestState::Disconnected,
        Err(_) => RequestState::Errored,
    }
}

/// The event by which `wake` ends a request that expects `shape`.
pub open spec fn spec_wake_event(shape: ReplyShape, wake: Wake) -> RequestEvent {
    match wake {
        Wake::Closed => RequestEvent::PeerClosed,
        Wake::Reply(Reply::Failed(_)) => RequestEvent::ReplyError,
        Wake::Reply(Reply::Value(p)) => if p.spec_shape() == shape {
            RequestEvent::ReplyValue
        } else {
            RequestEvent::ReplyError
        },
    }
}

impl WorkerChannel {
    /// A fresh channel known as `id`: open, with nothing in flight.
    pub fn new(id: u64) -> (ch: WorkerChannel)
        ensures
            ch@ == (ChannelState { id, pending: None, closed: false }),
    {
        WorkerChannel { id, pending: None, closed: false }
    }

    /// The identity under which replies are addressed to the channel.
    pub fn id(&self) -> (id: u64)
        ensures
            id == self@.id,
    {
        self.id
    }

    /// Whether an envelope of this channel awaits its reply.
    pub fn is_awaiting(&self) -> (b: bool)
        ensures
            b == (self@.pending is Some),
    {
        self.pending.is_some()
    }

    /// Whether the dispatcher's side was found torn down.
    pub fn is_closed(&self) -> (b: bool)
        ensures
            b == self@.closed,
    {
        self.closed
    }

    /// Hands an envelope to the channel.
    ///
    /// On a channel whose peer is gone the result is `DoubleResolve`. While a
    /// reply is awaited the envelope comes back as `Busy`, and nothing
    /// changes. Otherwise the envelope leaves as a request tagged with this
    /// channel, and the channel awaits a reply of the shape it declared.
    pub fn send(&mut self, envelope: Envelope) -> (out: Result<SendOutcome, BridgeError>)
        ensures
            (final(self)@, out) == spec_send(old(self)@, envelope),
    {
        if self.closed {
            Err(BridgeError::DoubleResolve)
        } else if self.pending.is_some() {
            Ok(SendOutcome::Busy(envelope))
        } else {
            self.pending = Some(envelope.expected());
            Ok(SendOutcome::Enqueue(Request { channel: self.id, envelope }))
        }
    }

    /// Ends the exchange with what the waiting thread was woken with.
    ///
    /// With nothing in flight the result is `DoubleResolve` and nothing
    /// changes. Otherwise the channel is idle again, and the result is the
    /// reply's payload if it has the declared shape, `ShapeMismatch` if it
    /// has another, `CallbackFailed` if the closure failed, and
    /// `Disconnected` if the peer is gone, in which case the channel is
    /// closed for good.
    pub fn recv(&mut self, wake: Wake) -> (r: Result<Payload, BridgeError>)
        ensures
            (final(self)@, r) == spec_recv(old(self)@, wake),
    {
        match self.pending {
            None => Err(BridgeError::DoubleResolve),
            Some(shape) => {
                self.pending = None;
                match wake {
                    Wake::Closed => {
                        self.closed = true;
                        Err(BridgeError::Disconnected)
                    },
                    other => check_wake(shape, other),
                }
            },
        }
    }
}

/// On an idle, open channel, `send` followed by `recv` returns exactly what
/// the dispatcher's reply to that request means for the shape the envelope
/// declared, and leaves the channel as it was.
pub proof fn lemma_send_then_recv_returns_the_reply(
    state: ChannelState,
    envelope: Envelope,
    reply: Reply,
)
    requires
        !state.closed,
        state.pending is None,
    ensures
        spec_send(state, envelope).1 == Ok::<SendOutcome, BridgeError>(
            SendOutcome::Enqueue(Request { channel: state.id, envelope }),
        ),
        spec_recv(spec_send(state, envelope).0, Wake::Reply(reply)).1 == spec_check_reply(
            envelope.spec_expected(),
            reply,
        ),
        spec_recv(spec_send(state, envelope).0, Wake::Reply(reply)).0 == state,
{
}

/// While an envelope awaits its reply, a second `send` changes nothing and
/// hands its envelope back: a channel never has two envelopes in flight.
pub proof fn lemma_one_in_flight(state: ChannelState, first: Envelope, second: Envelope)
    requires
        !state.closed,
        state.pending is None,
    ensures
        spec_send(spec_send(state, first).0, second) == (
            spec_send(state, first).0,
            Ok::<SendOutcome, BridgeError>(SendOutcome::Busy(second)),
        ),
{
}

/// A torn-down peer wakes a waiting `recv` with `Disconnected`, and the
/// channel refuses every later `send` and `recv` with `DoubleResolve`.
pub proof fn lemma_teardown_disconnects(state: ChannelState, later: Envelope, wake: Wake)
    requires
        state.pending is Some,
    ensures
        spec_recv(state, Wake::Closed).1 == Err::<Payload, BridgeError>(BridgeError::Disconnected),
        spec_send(spec_recv(state, Wake::Closed).0, later).1 == Err::<SendOutcome, BridgeError>(
            BridgeError::DoubleResolve,
        ),
        spec_recv(spec_recv(state, Wake::Closed).0, wake).1 == Err::<Payload, BridgeError>(
            BridgeError::DoubleResolve,
        ),
{
}

/// A request that is sent, enqueued and ended by `wake` passes through the
/// states of its life in order and ends in the state that `recv`'s result
/// stands for.
pub proof fn lemma_exchange_follows_request_life(state: ChannelState, envelope: Envelope, wake: Wake)
    requires
        !state.closed,
        state.pending is None,
    ensures
        spec_run(
            RequestState::Built,
            seq![
                RequestEvent::Send,
                RequestEvent::Enqueued,
                spec_wake_event(envelope.spec_expected(), wake),
            ],
        ) == Some(spec_outcome_state(spec_recv(spec_send(state, envelope).0, wake).1)),
{
    reveal_with_fuel(spec_run, 5);
    let events = seq![
        RequestEvent::Send,
        RequestEvent::Enqueued,
        spec_wake_event(envelope.spec_expected(), wake),
    ];
    let e1 = events.subrange(1, 3);
    let e2 = e1.subrange(1, 2);
    let e3 = e2.subrange(1, 1);
    assert(events[0] == RequestEvent::Send);
    assert(e1[0] == RequestEvent::Enqueued);
    assert(e2[0] == spec_wake_event(envelope.spec_expected(), wake));
    assert(e3.len() == 0);
}

} // verus!
