//! The dispatcher's book-keeping.
//!
//! The dispatcher runs on the host-execution thread. It takes requests in the
//! order they arrived, whatever channel they came from, and owes each of them
//! exactly one reply, addressed to the channel it came from. A closure that is
//! being served may itself make the engine issue further requests; the
//! dispatcher is then pumped again from inside that call, so the requests
//! being served form a stack, and a reply always answers the innermost one.
use vstd::prelude::*;
use crate::channel::Request;
use crate::envelope::{Envelope, Reply, ReplyShape, Wake};

verus! {

/// A request that is being served: where its reply goes, and what shape its
/// envelope declared.
#[derive(Clone, Copy, Debug, PartialEq, Eq, Structural)]
pub struct Ticket {
    pub channel: u64,
    pub expected: ReplyShape,
}

/// A wake-up and the channel it is for.
pub struct Delivery {
    pub channel: u64,
    pub wake: Wake,
}

/// What a dispatcher is, to its contracts.
#[verifier::ext_equal]
pub struct DispatcherState {
    /// The requests not yet taken, oldest first.
    pub queue: Seq<Request>,
    /// The requests being served, innermost last.
    pub serving: Seq<Ticket>,
    /// Whether the dispatcher still accepts requests.
    pub open: bool,
}

/// The dispatcher's queue and the stack of requests it is serving.
pub struct Dispatcher {
    queue: Vec<Request>,
    serving: Vec<Ticket>,
    open: bool,
}

impl View for Dispatcher {
    type V = DispatcherState;

    closed spec fn view(&self) -> DispatcherState {
        DispatcherState { queue: self.queue@, serving: self.serving@, open: self.open }
    }
}

/// The ticket under which `request` is served.
pub open spec fn spec_ticket(request: Request) -> Ticket {
    Ticket { channel: request.channel, expected: request.envelope.spec_expected() }
}

/// The wake-up that tells `channel` that the dispatcher is gone.
pub open spec fn spec_closing(channel: u64) -> Delivery {
    Delivery { channel, wake: Wake::Closed }
}

/// The dispatcher after `enqueue(request)`, and what is delivered at once.
pub open spec fn spec_enqueue(state: DispatcherState, request: Request) -> (
    DispatcherState,
    Option<Delivery>,
) {
    if state.open {
        (DispatcherState { queue: state.queue.push(request), ..state }, None)
    } else {
        (state, Some(spec_closing(request.channel)))
    }
}

/// The dispatcher after `next()`, and the envelope it hands out.
pub open spec fn spec_next(state: DispatcherState) -> (DispatcherState, Option<Envelope>) {
    if state.queue.len() == 0 {
        (state, None)
    } else {
        (
            DispatcherState {
                queue: state.queue.remove(0),
                serving: state.serving.push(spec_ticket(state.queue[0])),
                ..state
            },
            Some(state.queue[0].envelope),
        )
    }
}

/// The dispatcher after `complete(reply)`, and the delivery it makes.
pub open spec fn spec_complete(state: DispatcherState, reply: Reply) -> (
    DispatcherState,
    Option<Delivery>,
) {
    if state.serving.len() == 0 {
        (state, None)
    } else {
        (
            DispatcherState { serving: state.serving.drop_last(), ..state },
            Some(Delivery { channel: state.serving.last().channel, wake: Wake::Reply(reply) }),
        )
    }
}

/// The wake-ups a shutdown owes: one `Closed` for each request in the queue,
/// oldest first, then one for each request being served, outermost first.
pub open spec fn spec_closing_deliveries(state: DispatcherState) -> Seq<Delivery> {
    Seq::new(
        state.queue.len() + state.serving.len(),
        |i: int|
            if i < state.queue.len() {
                spec_closing(state.queue[i].channel)
            } else {
                spec_closing(state.serving[i - state.queue.len()].channel)
            },
    )
}

/// The dispatcher after `shutdown()`.
pub open spec fn spec_shutdown(state: DispatcherState) -> DispatcherState {
    DispatcherState { queue: Seq::empty(), serving: Seq::empty(), open: false }
}

impl Dispatcher {
    /// A dispatcher that accepts requests and has none.
    pub fn new() -> (d: Dispatcher)
        ensures
            d@ == (DispatcherState { queue: Seq::empty(), serving: Seq::empty(), open: true }),
    {
        Dispatcher { queue: Vec::new(), serving: Vec::new(), open: true }
    }

    /// Whether the dispatcher still accepts requests.
    pub fn is_open(&self) -> (b: bool)
        ensures
            b == self@.open,
    {
        self.open
    }

    /// How many requests wait in the queue.
    pub fn queued(&self) -> (n: usize)
        ensures
            n == self@.queue.len(),
    {
        self.queue.len()
    }

    /// How many requests are being served: the depth of nested pumping.
    pub fn depth(&self) -> (n: usize)
        ensures
            n == self@.serving.len(),
    {
        self.serving.len()
    }

    /// Takes a request into the queue, behind all that are there.
    ///
    /// After a shutdown nothing is queued: the result is the `Closed`
    /// wake-up for the request's channel.
    pub fn enqueue(&mut self, request: Request) -> (d: Option<Delivery>)
        ensures
            final(self)@ == spec_enqueue(old(self)@, request).0,
            d == spec_enqueue(old(self)@, request).1,
    {
        if self.open {
            self.queue.push(request);
            None
        } else {
            Some(Delivery { channel: request.channel, wake: Wake::Closed })
        }
    }

    /// Takes the oldest request out of the queue and starts serving it.
    ///
    /// The result is the envelope to call the closure with, or `None` where
    /// the queue is empty. It may be called while a request is being served:
    /// the new one is then served inside it.
    pub fn next(&mut self) -> (e: Option<Envelope>)
        ensures
            final(self)@ == spec_next(old(self)@).0,
            e == spec_next(old(self)@).1,
    {
        if self.queue.len() == 0 {
            None
        } else {
            let request = self.queue.remove(0);
            let ticket = Ticket { channel: request.channel, expected: request.envelope.expected() };
            self.serving.push(ticket);
            Some(request.envelope)
        }
    }

    /// Ends the innermost request being served with the closure's outcome.
    ///
    /// The result is the one delivery owed for it, addressed to the channel
    /// the request came from, or `None` where nothing is being served.
    pub fn complete(&mut self, reply: Reply) -> (d: Option<Delivery>)
        ensures
            final(self)@ == spec_complete(old(self)@, reply).0,
            d == spec_complete(old(self)@, reply).1,
    {
        match self.serving.pop() {
            None => None,
            Some(ticket) => Some(Delivery { channel: ticket.channel, wake: Wake::Reply(reply) }),
        }
    }

    /// Tears the dispatcher down.
    ///
    /// Every request that was queued or being served is owed a `Closed`
    /// wake-up; the result lists them. Afterwards the dispatcher holds
    /// nothing and accepts nothing.
    pub fn shutdown(&mut self) -> (owed: Vec<Delivery>)
        ensures
            final(self)@ == spec_shutdown(old(self)@),
            owed@ == spec_closing_deliveries(old(self)@),
    {
        let ghost before = self@;
        let mut owed: Vec<Delivery> = Vec::new();
        let mut i: usize = 0;
        while i < self.queue.len()
            invariant
                self@ == before,
                i <= before.queue.len(),
                owed@.len() == i,
                forall|k: int| 0 <= k < i ==> owed@[k] == spec_closing(before.queue[k].channel),
            decreases self.queue.len() - i,
        {
            owed.push(Delivery { channel: self.queue[i].channel, wake: Wake::Closed });
            i += 1;
        }
        let mut j: usize = 0;
        while j < self.serving.len()
            invariant
                self@ == before,
                j <= before.serving.len(),
                owed@.len() == before.queue.len() + j,
                forall|k: int|
                    0 <= k < before.queue.len() ==> owed@[k] == spec_closing(
                        before.queue[k].channel,
                    ),
                forall|k: int|
                    0 <= k < j ==> owed@[before.queue.len() + k] == spec_closing(
                        before.serving[k].channel,
                    ),
            decreases self.serving.len() - j,
        {
            owed.push(Delivery { channel: self.serving[j].channel, wake: Wake::Closed });
            j += 1;
        }
        self.queue = Vec::new();
        self.serving = Vec::new();
        self.open = false;
        assert(owed@ =~= spec_closing_deliveries(before)) by {
            assert forall|k: int| 0 <= k < owed@.len() implies owed@[k]
                == spec_closing_deliveries(before)[k] by {
                if k >= before.queue.len() {
                    assert(owed@[before.queue.len() + (k - before.queue.len())] == spec_closing(
                        before.serving[k - before.queue.len()].channel,
                    ));
                }
            }
        }
        owed
    }
}

/// The dispatcher after all of `requests` were enqueued, in order.
pub open spec fn spec_enqueue_all(state: DispatcherState, requests: Seq<Request>) -> DispatcherState
    decreases requests.len(),
{
    if requests.len() == 0 {
        state
    } else {
        spec_enqueue(spec_enqueue_all(state, requests.drop_last()), requests.last()).0
    }
}

/// The dispatcher after it has served one request for each of `replies`:
/// taken it with `next`, and ended it with that reply.
pub open spec fn spec_serve_all(state: DispatcherState, replies: Seq<Reply>) -> DispatcherState
    decreases replies.len(),
{
    if replies.len() == 0 {
        state
    } else {
        spec_complete(spec_next(spec_serve_all(state, replies.drop_last())).0, replies.last()).0
    }
}

/// Requests are served strictly in the order of their arrival, whatever
/// channels they come from: once `replies.len()` of the requests that
/// entered an empty queue have been served, the next one served is the next
/// one that entered, and its reply goes to its channel.
pub proof fn lemma_served_in_order_of_arrival(
    state: DispatcherState,
    requests: Seq<Request>,
    replies: Seq<Reply>,
    reply: Reply,
)
    requires
        state.open,
        state.queue.len() == 0,
        replies.len() < requests.len(),
    ensures
        ({
            let k = replies.len() as int;
            let before = spec_serve_all(spec_enqueue_all(state, requests), replies);
            &&& spec_next(before).1 == Some(requests[k].envelope)
            &&& spec_complete(spec_next(before).0, reply).1 == Some(
                Delivery { channel: requests[k].channel, wake: Wake::Reply(reply) },
            )
        }),
{
    lemma_enqueue_all(state, requests);
    lemma_serve_all(spec_enqueue_all(state, requests), replies);
    let before = spec_serve_all(spec_enqueue_all(state, requests), replies);
    assert(before.queue[0] == requests[replies.len() as int]);
}

/// Enqueueing on an open dispatcher appends to the queue and changes
/// nothing else.
pub proof fn lemma_enqueue_all(state: DispatcherState, requests: Seq<Request>)
    requires
        state.open,
    ensures
        spec_enqueue_all(state, requests) == (DispatcherState {
            queue: state.queue + requests,
            ..state
        }),
    decreases requests.len(),
{
    if requests.len() == 0 {
        assert(state.queue + requests =~= state.queue);
    } else {
        lemma_enqueue_all(state, requests.drop_last());
        assert(state.queue + requests =~= (state.queue + requests.drop_last()).push(
            requests.last(),
        ));
    }
}

/// Serving `n` requests takes the `n` oldest off the queue and leaves the
/// stack of requests being served as it was.
pub proof fn lemma_serve_all(state: DispatcherState, replies: Seq<Reply>)
    requires
        replies.len() <= state.queue.len(),
    ensures
        spec_serve_all(state, replies) == (DispatcherState {
            queue: state.queue.subrange(replies.len() as int, state.queue.len() as int),
            ..state
        }),
    decreases replies.len(),
{
    if replies.len() == 0 {
        assert(state.queue.subrange(0, state.queue.len() as int) =~= state.queue);
    } else {
        lemma_serve_all(state, replies.drop_last());
        let k = replies.len() as int;
        let mid = spec_serve_all(state, replies.drop_last());
        assert(mid.queue.len() > 0);
        let taken = spec_next(mid).0;
        assert(taken.serving.drop_last() =~= state.serving);
        assert(mid.queue.remove(0) =~= state.queue.subrange(k, state.queue.len() as int));
    }
}

/// The reply to a request goes to the channel the request came from: where
/// `next` takes a request and `complete` follows, the delivery is addressed
/// to that request's channel and carries that reply. The dispatcher is then
/// as it was, but for the request that left the queue.
pub proof fn lemma_reply_returns_to_sender(state: DispatcherState, reply: Reply)
    requires
        state.queue.len() > 0,
    ensures
        spec_complete(spec_next(state).0, reply).1 == Some(
            Delivery { channel: state.queue[0].channel, wake: Wake::Reply(reply) },
        ),
        spec_complete(spec_next(state).0, reply).0 == (DispatcherState {
            queue: state.queue.remove(0),
            ..state
        }),
{
    let served = spec_next(state).0;
    assert(served.serving.drop_last() =~= state.serving);
}

} // verus!
