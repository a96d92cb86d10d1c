//! The life of one request.
//!
//! `Built -> Sent -> AwaitingReply -> Replied | Errored | Disconnected`.
//! A request is sent once, enqueued once, and ended once: by the dispatcher's
//! single reply, or by a peer that was torn down.
use vstd::prelude::*;

verus! {

/// Where a request stands.
#[derive(Clone, Copy, Debug, PartialEq, Eq, Structural)]
pub enum RequestState {
    /// The envelope exists and has not been handed to a channel.
    Built,
    /// The channel has accepted it.
    Sent,
    /// It is in the dispatcher's queue, or being served.
    AwaitingReply,
    /// The dispatcher's reply carried a value of the declared shape.
    Replied,
    /// The dispatcher's reply was an error, or of another shape.
    Errored,
    /// The peer was torn down before a reply came.
    Disconnected,
}

/// What can happen to a request.
#[derive(Clone, Copy, Debug, PartialEq, Eq, Structural)]
pub enum RequestEvent {
    /// The caller hands the envelope to its channel.
    Send,
    /// The envelope enters the dispatcher's queue.
    Enqueued,
    /// The reply arrives with a value of the declared shape.
    ReplyValue,
    /// The reply arrives as an error or with a value of another shape.
    ReplyError,
    /// The peer is torn down.
    PeerClosed,
}

/// The state after `event`, or `None` where the event is not allowed in `state`.
pub open spec fn spec_step(state: RequestState, event: RequestEvent) -> Option<RequestState> {
    match (state, event) {
        (RequestState::Built, RequestEvent::Send) => Some(RequestState::Sent),
        (RequestState::Sent, RequestEvent::Enqueued) => Some(RequestState::AwaitingReply),
        (RequestState::AwaitingReply, RequestEvent::ReplyValue) => Some(RequestState::Replied),
        (RequestState::AwaitingReply, RequestEvent::ReplyError) => Some(RequestState::Errored),
        (RequestState::Sent, RequestEvent::PeerClosed) => Some(RequestState::Disconnected),
        (RequestState::AwaitingReply, RequestEvent::PeerClosed) => Some(RequestState::Disconnected),
        _ => None,
    }
}

/// `Replied`, `Errored` and `Disconnected` end a request.
pub open spec fn spec_is_terminal(state: RequestState) -> bool {
    state == RequestState::Replied || state == RequestState::Errored || state
        == RequestState::Disconnected
}

/// The state after all of `events` in order, or `None` as soon as one of them
/// is not allowed.
pub open spec fn spec_run(state: RequestState, events: Seq<RequestEvent>) -> Option<RequestState>
    decreases events.len(),
{
    if events.len() == 0 {
        Some(state)
    } else {
        match spec_step(state, events[0]) {
            Some(next) => spec_run(next, events.subrange(1, events.len() as int)),
            None => None,
        }
    }
}

/// Whether `state` ends a request.
pub fn is_terminal(state: RequestState) -> (t: bool)
    ensures
        t == spec_is_terminal(state),
{
    match state {
        RequestState::Replied => true,
        RequestState::Errored => true,
        RequestState::Disconnected => true,
        _ => false,
    }
}

/// Applies one event: the next state, or `None` where the event is not
/// allowed in `state`.
pub fn step(state: RequestState, event: RequestEvent) -> (next: Option<RequestState>)
    ensures
        next == spec_step(state, event),
{
    match state {
        RequestState::Built => match event {
            RequestEvent::Send => Some(RequestState::Sent),
            _ => None,
        },
        RequestState::Sent => match event {
            RequestEvent::Enqueued => Some(RequestState::AwaitingReply),
            RequestEvent::PeerClosed => Some(RequestState::Disconnected),
            _ => None,
        },
        RequestState::AwaitingReply => match event {
            RequestEvent::ReplyValue => Some(RequestState::Replied),
            RequestEvent::ReplyError => Some(RequestState::Errored),
            RequestEvent::PeerClosed => Some(RequestState::Disconnected),
            _ => None,
        },
        _ => None,
    }
}

/// Applies `events` in order: the last state, or `None` as soon as one of
/// them is not allowed.
pub fn run(state: RequestState, events: &Vec<RequestEvent>) -> (last: Option<RequestState>)
    ensures
        last == spec_run(state, events@),
{
    let mut current = state;
    let mut i: usize = 0;
    assert(events@.subrange(0, events.len() as int) == events@);
    while i < events.len()
        invariant
            i <= events.len(),
            spec_run(state, events@) == spec_run(current, events@.subrange(i as int, events.len() as int)),
        decreases events.len() - i,
    {
        let ghost rest = events@.subrange(i as int, events.len() as int);
        assert(rest[0] == events@[i as int]);
        assert(rest.subrange(1, rest.len() as int) == events@.subrange(i + 1, events.len() as int));
        match step(current, events[i]) {
            Some(next) => {
                current = next;
            },
            None => {
                return None;
            },
        }
        i += 1;
    }
    assert(events@.subrange(i as int, events.len() as int).len() == 0);
    Some(current)
}

/// No event leaves a terminal state.
pub proof fn lemma_terminal_is_final(state: RequestState, event: RequestEvent)
    requires
        spec_is_terminal(state),
    ensures
        spec_step(state, event) is None,
{
}

/// An envelope is sent from `Built` and from no other state, so never twice.
pub proof fn lemma_sent_once(state: RequestState)
    ensures
        spec_step(state, RequestEvent::Send) is Some <==> state == RequestState::Built,
{
}

/// A terminal state is entered from `Sent` or `AwaitingReply` only, and only
/// by a reply or a torn-down peer.
pub proof fn lemma_terminal_only_by_reply_or_teardown(state: RequestState, event: RequestEvent)
    requires
        spec_step(state, event) matches Some(next) && spec_is_terminal(next),
    ensures
        state == RequestState::Sent || state == RequestState::AwaitingReply,
        event == RequestEvent::ReplyValue || event == RequestEvent::ReplyError || event
            == RequestEvent::PeerClosed,
        state == RequestState::Sent ==> event == RequestEvent::PeerClosed,
{
}

/// Every allowed history of a new request has at most three events, and one
/// with three ends in a terminal state.
pub proof fn lemma_history_is_short(events: Seq<RequestEvent>)
    requires
        spec_run(RequestState::Built, events) is Some,
    ensures
        events.len() <= 3,
        events.len() == 3 ==> spec_is_terminal(spec_run(RequestState::Built, events)->0),
{
    reveal_with_fuel(spec_run, 5);
    if events.len() >= 1 {
        let e1 = events.subrange(1, events.len() as int);
        if e1.len() >= 1 {
            let e2 = e1.subrange(1, e1.len() as int);
            if e2.len() >= 1 {
                let e3 = e2.subrange(1, e2.len() as int);
                if e3.len() >= 1 {
                    assert(spec_step(RequestState::Built, events[0]) is Some);
                    assert(spec_step(RequestState::Sent, e1[0]) is Some);
                }
            }
        }
    }
}

} // verus!
