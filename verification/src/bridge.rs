//! The bridge as a whole: every worker channel and the dispatcher, in one
//! value that is driven a step at a time.
//!
//! The threads, the blocking and the calls into the host are the caller's.
//! What is decided here is which request is served next, where its reply
//! goes, and what each caller gets back.
use vstd::prelude::*;
use crate::channel::{ChannelState, Request, SendOutcome, WorkerChannel, spec_recv, spec_send};
use crate::dispatcher::{
    Dispatcher, DispatcherState, spec_closing_deliveries, spec_complete, spec_enqueue, spec_next,
    spec_shutdown,
};
use crate::envelope::{Envelope, Payload, Reply, ReplyShape, Wake, spec_check_reply};
use crate::error::BridgeError;

verus! {

/// What a bridge is, to its contracts.
#[verifier::ext_equal]
pub struct BridgeState {
    /// The channels, in the order in which they were acquired.
    pub channels: Seq<ChannelState>,
    /// For each channel, the thread that owns it.
    pub threads: Seq<u64>,
    pub dispatcher: DispatcherState,
}

/// The worker channels and the dispatcher they talk to.
pub struct Bridge {
    channels: Vec<WorkerChannel>,
    threads: Vec<u64>,
    dispatcher: Dispatcher,
}

impl View for Bridge {
    type V = BridgeState;

    closed spec fn view(&self) -> BridgeState {
        BridgeState {
            channels: Seq::new(self.channels@.len(), |i: int| self.channels@[i]@),
            threads: self.threads@,
            dispatcher: self.dispatcher@,
        }
    }
}

impl BridgeState {
    /// The channel ids of all outstanding requests: the queue, oldest first,
    /// then the requests being served, outermost first.
    pub open spec fn outstanding(self) -> Seq<u64> {
        Seq::new(
            self.dispatcher.queue.len() + self.dispatcher.serving.len(),
            |i: int|
                if i < self.dispatcher.queue.len() {
                    self.dispatcher.queue[i].channel
                } else {
                    self.dispatcher.serving[i - self.dispatcher.queue.len()].channel
                },
        )
    }

    /// The shape that the `i`-th outstanding request declared.
    pub open spec fn outstanding_shape(self, i: int) -> ReplyShape {
        if i < self.dispatcher.queue.len() {
            self.dispatcher.queue[i].envelope.spec_expected()
        } else {
            self.dispatcher.serving[i - self.dispatcher.queue.len()].expected
        }
    }

    /// What holds of a bridge at every step.
    ///
    /// Each channel is known by its position and belongs to one thread, and
    /// no thread has two. Each outstanding request comes from a channel of
    /// the bridge, and that channel awaits a reply of the shape the request
    /// declared. No two outstanding requests come from the same channel, and
    /// every channel that awaits a reply has its request outstanding. A
    /// dispatcher that was shut down holds nothing.
    pub open spec fn wf(self) -> bool {
        &&& self.threads.len() == self.channels.len()
        &&& forall|i: int, j: int|
            0 <= i < j < self.threads.len() ==> #[trigger] self.threads[i]
                != #[trigger] self.threads[j]
        &&& forall|i: int| 0 <= i < self.channels.len() ==> (#[trigger] self.channels[i]).id == i
        &&& forall|i: int|
            0 <= i < self.outstanding().len() ==> {
                &&& (#[trigger] self.outstanding()[i]) < self.channels.len()
                &&& self.channels[self.outstanding()[i] as int].pending == Some(
                    self.outstanding_shape(i),
                )
            }
        &&& forall|i: int, j: int|
            0 <= i < j < self.outstanding().len() ==> #[trigger] self.outstanding()[i]
                != #[trigger] self.outstanding()[j]
        &&& forall|c: int|
            0 <= c < self.channels.len() && (#[trigger] self.channels[c]).pending is Some
                ==> self.outstanding().contains(c as u64)
        &&& !self.dispatcher.open ==> self.outstanding().len() == 0
    }
}

/// The bridge after `acquire(thread)`, and the position of the thread's channel.
pub open spec fn spec_acquire(state: BridgeState, thread: u64) -> (
    BridgeState,
    Result<usize, BridgeError>,
) {
    if !state.dispatcher.open {
        (state, Err(BridgeError::Uninitialized))
    } else {
        match state.threads.index_of_first(thread) {
            Some(at) => (state, Ok(at as usize)),
            None => if state.channels.len() < usize::MAX && state.threads.len()
                == state.channels.len() {
                (
                    BridgeState {
                        channels: state.channels.push(
                            ChannelState {
                                id: state.channels.len() as u64,
                                pending: None,
                                closed: false,
                            },
                        ),
                        threads: state.threads.push(thread),
                        ..state
                    },
                    Ok(state.channels.len() as usize),
                )
            } else {
                (state, Err(BridgeError::Uninitialized))
            },
        }
    }
}

/// The bridge after `send(channel, envelope)`, and what the caller gets.
pub open spec fn spec_bridge_send(state: BridgeState, channel: int, envelope: Envelope) -> (
    BridgeState,
    Result<Option<Envelope>, BridgeError>,
) {
    if !(0 <= channel < state.channels.len()) {
        (state, Err(BridgeError::Uninitialized))
    } else {
        let sent = spec_send(state.channels[channel], envelope);
        match sent.1 {
            Err(e) => (state, Err(e)),
            Ok(SendOutcome::Busy(back)) => (state, Ok(Some(back))),
            Ok(SendOutcome::Enqueue(request)) => {
                let queued = spec_enqueue(state.dispatcher, request);
                match queued.1 {
                    None => (
                        BridgeState {
                            channels: state.channels.update(channel, sent.0),
                            dispatcher: queued.0,
                            ..state
                        },
                        Ok(None),
                    ),
                    Some(delivery) => (
                        BridgeState {
                            channels: state.channels.update(
                                channel,
                                spec_recv(sent.0, delivery.wake).0,
                            ),
                            dispatcher: queued.0,
                            ..state
                        },
                        Err(BridgeError::Disconnected),
                    ),
                }
            },
        }
    }
}

/// The bridge after `serve_next()`, and the envelope to call the closure with.
pub open spec fn spec_serve_next(state: BridgeState) -> (BridgeState, Option<Envelope>) {
    (
        BridgeState { dispatcher: spec_next(state.dispatcher).0, ..state },
        spec_next(state.dispatcher).1,
    )
}

/// The bridge after `reply(reply)`, and the channel that is woken with what
/// its `recv` returns.
pub open spec fn spec_bridge_reply(state: BridgeState, reply: Reply) -> (
    BridgeState,
    Option<(usize, Result<Payload, BridgeError>)>,
) {
    let done = spec_complete(state.dispatcher, reply);
    match done.1 {
        None => (state, None),
        Some(delivery) => if delivery.channel < state.channels.len() {
            let woken = spec_recv(state.channels[delivery.channel as int], delivery.wake);
            (
                BridgeState {
                    channels: state.channels.update(delivery.channel as int, woken.0),
                    dispatcher: done.0,
                    ..state
                },
                Some((delivery.channel as usize, woken.1)),
            )
        } else {
            (BridgeState { dispatcher: done.0, ..state }, None)
        },
    }
}

/// A channel after it was woken by a torn-down dispatcher.
pub open spec fn spec_disconnected(channel: ChannelState) -> ChannelState {
    spec_recv(channel, Wake::Closed).0
}

/// The bridge after `teardown()`: the dispatcher is shut down, and every
/// channel with an outstanding request has been woken with `Closed`.
pub open spec fn spec_teardown(state: BridgeState) -> BridgeState {
    BridgeState {
        channels: Seq::new(
            state.channels.len(),
            |i: int|
                if state.outstanding().contains(i as u64) {
                    spec_disconnected(state.channels[i])
                } else {
                    state.channels[i]
                },
        ),
        threads: state.threads,
        dispatcher: spec_shutdown(state.dispatcher),
    }
}

impl Bridge {
    /// A bridge with an open dispatcher and no channel.
    pub fn new() -> (b: Bridge)
        ensures
            b@.channels.len() == 0,
            b@.threads.len() == 0,
            b@.dispatcher == (DispatcherState {
                queue: Seq::empty(),
                serving: Seq::empty(),
                open: true,
            }),
            b@ == spec_new(),
            b@.wf(),
    {
        Bridge { channels: Vec::new(), threads: Vec::new(), dispatcher: Dispatcher::new() }
    }

    /// The number of channels acquired so far.
    pub fn channel_count(&self) -> (n: usize)
        ensures
            n == self@.channels.len(),
    {
        self.channels.len()
    }

    /// How many requests wait in the queue.
    pub fn queued(&self) -> (n: usize)
        ensures
            n == self@.dispatcher.queue.len(),
    {
        self.dispatcher.queued()
    }

    /// How many requests are being served.
    pub fn depth(&self) -> (n: usize)
        ensures
            n == self@.dispatcher.serving.len(),
    {
        self.dispatcher.depth()
    }

    /// Whether `channel` awaits a reply; `false` for a channel that does not exist.
    pub fn is_awaiting(&self, channel: usize) -> (b: bool)
        ensures
            b == (channel < self@.channels.len() && self@.channels[channel as int].pending
                is Some),
    {
        if channel < self.channels.len() {
            self.channels[channel].is_awaiting()
        } else {
            false
        }
    }

    /// The channel of the thread `thread`, made on its first call.
    ///
    /// The result is the channel's position, the same at every call of one
    /// thread. Once the dispatcher is shut down there is nothing to acquire
    /// a channel to, and the result is `Uninitialized`.
    pub fn acquire(&mut self, thread: u64) -> (r: Result<usize, BridgeError>)
        ensures
            final(self)@ == spec_acquire(old(self)@, thread).0,
            r == spec_acquire(old(self)@, thread).1,
            old(self)@.wf() ==> final(self)@.wf(),
    {
        if !self.dispatcher.is_open() {
            return Err(BridgeError::Uninitialized);
        }
        proof {
            self@.threads.index_of_first_ensures(thread);
        }
        let mut i: usize = 0;
        while i < self.threads.len()
            invariant
                self@ == old(self)@,
                self@.dispatcher.open,
                i <= self.threads@.len(),
                forall|k: int| 0 <= k < i ==> self.threads@[k] != thread,
            decreases self.threads.len() - i,
        {
            if self.threads[i] == thread {
                proof {
                    assert(self@.threads.contains(thread));
                    self@.threads.index_of_first_ensures(thread);
                }
                return Ok(i);
            }
            i += 1;
        }
        proof {
            assert(!self@.threads.contains(thread));
            self@.threads.index_of_first_ensures(thread);
        }
        let n = self.channels.len();
        if n < usize::MAX && self.threads.len() == n {
            self.channels.push(WorkerChannel::new(n as u64));
            self.threads.push(thread);
            proof {
                assert(self@.channels =~= spec_acquire(old(self)@, thread).0.channels);
                if old(self)@.wf() {
                    lemma_acquire_keeps_wf(old(self)@, thread);
                }
            }
            Ok(n)
        } else {
            Err(BridgeError::Uninitialized)
        }
    }

    /// Sends `envelope` on `channel`.
    ///
    /// `Ok(None)`: the request is in the dispatcher's queue and the channel
    /// awaits its reply. `Ok(Some(envelope))`: the channel still awaits an
    /// earlier reply; the envelope comes back and nothing has changed.
    /// `Disconnected`: the dispatcher was shut down; the channel is closed.
    /// `DoubleResolve`: the channel was closed before. `Uninitialized`: there
    /// is no such channel.
    pub fn send(&mut self, channel: usize, envelope: Envelope) -> (r: Result<
        Option<Envelope>,
        BridgeError,
    >)
        ensures
            final(self)@ == spec_bridge_send(old(self)@, channel as int, envelope).0,
            r == spec_bridge_send(old(self)@, channel as int, envelope).1,
            old(self)@.wf() ==> final(self)@.wf(),
    {
        if channel >= self.channels.len() {
            return Err(BridgeError::Uninitialized);
        }
        let ghost before = self@;
        let sent = self.channels[channel].send(envelope);
        let r = match sent {
            Err(e) => Err(e),
            Ok(SendOutcome::Busy(back)) => Ok(Some(back)),
            Ok(SendOutcome::Enqueue(request)) => {
                match self.dispatcher.enqueue(request) {
                    None => Ok(None),
                    Some(delivery) => {
                        let _ = self.channels[channel].recv(delivery.wake);
                        Err(BridgeError::Disconnected)
                    },
                }
            },
        };
        proof {
            assert(self@.channels =~= spec_bridge_send(before, channel as int, envelope).0.channels);
            if before.wf() {
                lemma_send_keeps_wf(before, channel as int, envelope);
            }
        }
        r
    }

    /// Takes the oldest request out of the queue and starts serving it: the
    /// envelope to call the closure with, or `None` while the queue is empty.
    pub fn serve_next(&mut self) -> (e: Option<Envelope>)
        ensures
            final(self)@ == spec_serve_next(old(self)@).0,
            e == spec_serve_next(old(self)@).1,
            old(self)@.wf() ==> final(self)@.wf(),
    {
        let e = self.dispatcher.next();
        proof {
            assert(self@.channels =~= old(self)@.channels);
            if old(self)@.wf() {
                lemma_serve_next_keeps_wf(old(self)@);
            }
        }
        e
    }

    /// Ends the innermost request being served with the closure's outcome
    /// and wakes the channel it came from.
    ///
    /// The result names that channel and holds what its `recv` returns;
    /// `None` where nothing is being served.
    pub fn reply(&mut self, reply: Reply) -> (r: Option<(usize, Result<Payload, BridgeError>)>)
        ensures
            final(self)@ == spec_bridge_reply(old(self)@, reply).0,
            r == spec_bridge_reply(old(self)@, reply).1,
            old(self)@.wf() ==> final(self)@.wf(),
    {
        let ghost before = self@;
        let r = match self.dispatcher.complete(reply) {
            None => None,
            Some(delivery) => {
                if delivery.channel < self.channels.len() as u64 {
                    let at = delivery.channel as usize;
                    let got = self.channels[at].recv(delivery.wake);
                    Some((at, got))
                } else {
                    None
                }
            },
        };
        proof {
            assert(self@.channels =~= spec_bridge_reply(before, reply).0.channels);
            if before.wf() {
                lemma_reply_keeps_wf(before, reply);
            }
        }
        r
    }

    /// Shuts the dispatcher down and wakes every channel that awaits a reply.
    ///
    /// The result lists those channels, in the order of their requests. Each
    /// of them gets `Disconnected` from its `recv` and is closed; no other
    /// channel changes.
    pub fn teardown(&mut self) -> (woken: Vec<usize>)
        requires
            old(self)@.wf(),
        ensures
            final(self)@ == spec_teardown(old(self)@),
            final(self)@.wf(),
            woken@.len() == old(self)@.outstanding().len(),
            forall|k: int|
                0 <= k < woken@.len() ==> {
                    &&& (#[trigger] woken@[k]) == old(self)@.outstanding()[k]
                    &&& spec_recv(old(self)@.channels[woken@[k] as int], Wake::Closed).1 == Err::<
                        Payload,
                        BridgeError,
                    >(BridgeError::Disconnected)
                },
    {
        let ghost before = self@;
        let ghost out = before.outstanding();
        let owed = self.dispatcher.shutdown();
        let mut woken: Vec<usize> = Vec::new();
        let mut k: usize = 0;
        assert(out.subrange(0, 0) =~= Seq::<u64>::empty());
        while k < owed.len()
            invariant
                before.wf(),
                out == before.outstanding(),
                owed@ == spec_closing_deliveries(before.dispatcher),
                self.dispatcher@ == spec_shutdown(before.dispatcher),
                k <= owed@.len(),
                owed@.len() == out.len(),
                self.channels@.len() == before.channels.len(),
                self.threads@ == before.threads,
                woken@.len() == k,
                forall|j: int| 0 <= j < k ==> (#[trigger] woken@[j]) == out[j],
                forall|i: int|
                    0 <= i < before.channels.len() ==> (#[trigger] self.channels@[i])@ == (if out.subrange(
                        0,
                        k as int,
                    ).contains(i as u64) {
                        spec_disconnected(before.channels[i])
                    } else {
                        before.channels[i]
                    }),
            decreases owed@.len() - k,
        {
            let c = owed[k].channel;
            assert(c == out[k as int]);
            assert(c < before.channels.len());
            let n = self.channels.len();
            assert(c < n);
            let at = c as usize;
            assert(at as u64 == c);
            let ghost done = out.subrange(0, k as int);
            let ghost more = out.subrange(0, k + 1);
            assert(!done.contains(c)) by {
                if done.contains(c) {
                    let j = choose|j: int| 0 <= j < done.len() && done[j] == c;
                    assert(out[j] != out[k as int]);
                }
            }
            let _ = self.channels[at].recv(Wake::Closed);
            woken.push(at);
            proof {
                assert(more[k as int] == c);
                assert forall|i: int| 0 <= i < before.channels.len() implies (#[trigger] self.channels@[i])@
                    == (if more.contains(i as u64) {
                    spec_disconnected(before.channels[i])
                } else {
                    before.channels[i]
                }) by {
                    if i == at {
                        assert(more.contains(i as u64));
                    } else if done.contains(i as u64) {
                        let j = choose|j: int| 0 <= j < done.len() && done[j] == i as u64;
                        assert(more[j] == i as u64);
                    } else if more.contains(i as u64) {
                        let j = choose|j: int| 0 <= j < more.len() && more[j] == i as u64;
                        assert(j < k);
                        assert(done[j] == i as u64);
                    }
                }
            }
            k += 1;
        }
        proof {
            assert(out.subrange(0, k as int) =~= out);
            assert(self@.channels =~= spec_teardown(before).channels);
            lemma_teardown_keeps_wf(before);
            assert forall|j: int| 0 <= j < woken@.len() implies spec_recv(
                before.channels[(#[trigger] woken@[j]) as int],
                Wake::Closed,
            ).1 == Err::<Payload, BridgeError>(BridgeError::Disconnected) by {
                assert(before.outstanding()[j] < before.channels.len());
            }
        }
        woken
    }
}

/// Under the bridge's invariant no channel has two requests outstanding,
/// neither in the queue nor among those being served.
pub proof fn lemma_no_channel_waits_twice(state: BridgeState, i: int, j: int)
    requires
        state.wf(),
        0 <= i < state.outstanding().len(),
        0 <= j < state.outstanding().len(),
        i != j,
    ensures
        state.outstanding()[i] != state.outstanding()[j],
{
    if i < j {
        assert(state.outstanding()[i] != state.outstanding()[j]);
    } else {
        assert(state.outstanding()[j] != state.outstanding()[i]);
    }
}

/// A reply wakes the channel whose request is being served, with what the
/// reply means for the shape that request declared, and changes no other
/// channel: replies do not cross between channels.
pub proof fn lemma_reply_reaches_its_sender(state: BridgeState, reply: Reply)
    requires
        state.wf(),
        state.dispatcher.serving.len() > 0,
    ensures
        ({
            let ticket = state.dispatcher.serving.last();
            let after = spec_bridge_reply(state, reply);
            &&& after.1 == Some((ticket.channel as usize, spec_check_reply(ticket.expected, reply)))
            &&& after.0.channels.len() == state.channels.len()
            &&& after.0.channels[ticket.channel as int].pending is None
            &&& forall|i: int|
                0 <= i < state.channels.len() && i != ticket.channel
                    ==> #[trigger] after.0.channels[i] == state.channels[i]
        }),
{
    let n = state.outstanding().len() as int;
    assert(state.outstanding()[n - 1] == state.dispatcher.serving.last().channel);
    assert(state.outstanding_shape(n - 1) == state.dispatcher.serving.last().expected);
}

/// On a bridge that is open and idle, a request that is sent, served and
/// answered comes back to the channel that sent it as what the answer means
/// for the shape its envelope declared, and the bridge is idle again.
pub proof fn lemma_round_trip_on_idle_bridge(
    state: BridgeState,
    channel: int,
    envelope: Envelope,
    reply: Reply,
)
    requires
        state.wf(),
        state.dispatcher.open,
        state.outstanding().len() == 0,
        0 <= channel < state.channels.len(),
        !state.channels[channel].closed,
    ensures
        ({
            let sent = spec_bridge_send(state, channel, envelope);
            let served = spec_serve_next(sent.0);
            let answered = spec_bridge_reply(served.0, reply);
            &&& sent.1 == Ok::<Option<Envelope>, BridgeError>(None)
            &&& served.1 == Some(envelope)
            &&& answered.1 == Some(
                (channel as usize, spec_check_reply(envelope.spec_expected(), reply)),
            )
            &&& answered.0 == state
        }),
{
    let sent = spec_bridge_send(state, channel, envelope);
    let served = spec_serve_next(sent.0);
    let answered = spec_bridge_reply(served.0, reply);
    assert(state.dispatcher.queue.len() == 0 && state.dispatcher.serving.len() == 0);
    assert(state.channels[channel].id == channel);
    assert(state.channels[channel].pending is None) by {
        if state.channels[channel].pending is Some {
            assert(state.outstanding().contains(channel as u64));
        }
    }
    assert(sent.0.dispatcher.queue =~= seq![crate::channel::Request { channel: channel as u64, envelope }]);
    assert(served.0.dispatcher.queue =~= Seq::empty());
    assert(served.0.dispatcher.serving =~= seq![crate::dispatcher::Ticket {
        channel: channel as u64,
        expected: envelope.spec_expected(),
    }]);
    assert(answered.0.dispatcher.serving =~= Seq::empty());
    assert(answered.0.channels =~= state.channels);
    assert(answered.0.dispatcher == state.dispatcher);
}

/// The request that is served is the oldest in the queue, and it is served
/// under its own channel and its own declared shape.
pub proof fn lemma_serve_next_takes_the_oldest(state: BridgeState)
    requires
        state.dispatcher.queue.len() > 0,
    ensures
        ({
            let after = spec_serve_next(state);
            &&& after.1 == Some(state.dispatcher.queue[0].envelope)
            &&& after.0.dispatcher.serving.last().channel == state.dispatcher.queue[0].channel
            &&& after.0.dispatcher.serving.last().expected
                == state.dispatcher.queue[0].envelope.spec_expected()
            &&& after.0.channels == state.channels
        }),
{
}

/// An `acquire` leaves the bridge well formed.
pub proof fn lemma_acquire_keeps_wf(state: BridgeState, thread: u64)
    requires
        state.wf(),
    ensures
        spec_acquire(state, thread).0.wf(),
{
    let after = spec_acquire(state, thread).0;
    state.threads.index_of_first_ensures(thread);
    if after != state {
        assert(!state.threads.contains(thread));
        assert(after.outstanding() =~= state.outstanding());
        assert forall|i: int| 0 <= i < after.outstanding().len() implies {
            &&& (#[trigger] after.outstanding()[i]) < after.channels.len()
            &&& after.channels[after.outstanding()[i] as int].pending == Some(
                after.outstanding_shape(i),
            )
        } by {
            assert(state.outstanding()[i] < state.channels.len());
            assert(after.outstanding_shape(i) == state.outstanding_shape(i));
        }
        assert forall|i: int, j: int| 0 <= i < j < after.threads.len() implies #[trigger] after.threads[i]
            != #[trigger] after.threads[j] by {
            if j == state.threads.len() {
                assert(state.threads.contains(state.threads[i]));
            }
        }
        assert forall|c: int|
            0 <= c < after.channels.len() && (#[trigger] after.channels[c]).pending
                is Some implies after.outstanding().contains(c as u64) by {
            assert(after.channels[c] == state.channels[c]);
        }
    }
}

/// A teardown leaves the bridge well formed.
pub proof fn lemma_teardown_keeps_wf(state: BridgeState)
    requires
        state.wf(),
    ensures
        spec_teardown(state).wf(),
{
    let after = spec_teardown(state);
    assert(after.outstanding() =~= Seq::<u64>::empty());
    assert forall|c: int| 0 <= c < after.channels.len() implies (#[trigger] after.channels[c]).pending
        is None by {
        if !state.outstanding().contains(c as u64) {
            assert(state.channels[c].pending is None);
        }
    }
    assert forall|c: int| 0 <= c < after.channels.len() implies (#[trigger] after.channels[c]).id
        == c by {
        assert(state.channels[c].id == c);
    }
}

/// One step of a bridge.
pub enum BridgeOp {
    Acquire(u64),
    Send(int, Envelope),
    ServeNext,
    Reply(Reply),
    Teardown,
}

/// The bridge after one step.
pub open spec fn spec_apply(state: BridgeState, op: BridgeOp) -> BridgeState {
    match op {
        BridgeOp::Acquire(thread) => spec_acquire(state, thread).0,
        BridgeOp::Send(channel, envelope) => spec_bridge_send(state, channel, envelope).0,
        BridgeOp::ServeNext => spec_serve_next(state).0,
        BridgeOp::Reply(reply) => spec_bridge_reply(state, reply).0,
        BridgeOp::Teardown => spec_teardown(state),
    }
}

/// The bridge after these steps, in order.
pub open spec fn spec_apply_all(state: BridgeState, ops: Seq<BridgeOp>) -> BridgeState
    decreases ops.len(),
{
    if ops.len() == 0 {
        state
    } else {
        spec_apply(spec_apply_all(state, ops.drop_last()), ops.last())
    }
}

/// A new bridge.
pub open spec fn spec_new() -> BridgeState {
    BridgeState {
        channels: Seq::empty(),
        threads: Seq::empty(),
        dispatcher: DispatcherState { queue: Seq::empty(), serving: Seq::empty(), open: true },
    }
}

/// Whatever the threads do and in whatever order their steps fall, the
/// bridge stays well formed: in particular no channel ever has two requests
/// outstanding, and every outstanding request is awaited by the channel that
/// sent it, with the shape it declared.
pub proof fn lemma_every_interleaving_is_wf(ops: Seq<BridgeOp>)
    ensures
        spec_apply_all(spec_new(), ops).wf(),
    decreases ops.len(),
{
    if ops.len() == 0 {
        assert(spec_new().outstanding() =~= Seq::<u64>::empty());
    } else {
        lemma_every_interleaving_is_wf(ops.drop_last());
        let before = spec_apply_all(spec_new(), ops.drop_last());
        match ops.last() {
            BridgeOp::Acquire(thread) => lemma_acquire_keeps_wf(before, thread),
            BridgeOp::Send(channel, envelope) => lemma_send_keeps_wf(before, channel, envelope),
            BridgeOp::ServeNext => lemma_serve_next_keeps_wf(before),
            BridgeOp::Reply(reply) => lemma_reply_keeps_wf(before, reply),
            BridgeOp::Teardown => lemma_teardown_keeps_wf(before),
        }
    }
}

/// A `send` leaves the bridge well formed.
pub proof fn lemma_send_keeps_wf(state: BridgeState, channel: int, envelope: Envelope)
    requires
        state.wf(),
    ensures
        spec_bridge_send(state, channel, envelope).0.wf(),
{
    let after = spec_bridge_send(state, channel, envelope).0;
    if 0 <= channel < state.channels.len() {
        let ch = state.channels[channel];
        assert(ch.id == channel);
        if !ch.closed && ch.pending is None {
            // No outstanding request comes from an idle channel.
            assert forall|i: int| 0 <= i < state.outstanding().len() implies #[trigger] state.outstanding()[i]
                != channel by {
                assert(state.channels[state.outstanding()[i] as int].pending is Some);
            }
            if state.dispatcher.open {
                let n = state.outstanding().len() as int;
                let q = state.dispatcher.queue.len() as int;
                assert(after.outstanding().len() == n + 1);
                assert forall|i: int| 0 <= i < n + 1 implies #[trigger] after.outstanding()[i] == (if i
                    < q {
                    state.outstanding()[i]
                } else if i == q {
                    channel as u64
                } else {
                    state.outstanding()[i - 1]
                }) && after.outstanding_shape(i) == (if i < q {
                    state.outstanding_shape(i)
                } else if i == q {
                    envelope.spec_expected()
                } else {
                    state.outstanding_shape(i - 1)
                }) by {}
                assert forall|i: int| 0 <= i < after.outstanding().len() implies {
                    &&& (#[trigger] after.outstanding()[i]) < after.channels.len()
                    &&& after.channels[after.outstanding()[i] as int].pending == Some(
                        after.outstanding_shape(i),
                    )
                } by {
                    if i < q {
                        assert(state.outstanding()[i] < state.channels.len());
                    } else if i > q {
                        assert(state.outstanding()[i - 1] < state.channels.len());
                    }
                }
                assert forall|i: int, j: int| 0 <= i < j < after.outstanding().len() implies #[trigger] after.outstanding()[i]
                    != #[trigger] after.outstanding()[j] by {
                    let oi = if i < q { i } else { i - 1 };
                    let oj = if j < q { j } else { j - 1 };
                    if i != q && j != q {
                        assert(state.outstanding()[oi] != state.outstanding()[oj]);
                    } else if i == q {
                        assert(state.outstanding()[oj] != channel);
                    } else {
                        assert(state.outstanding()[oi] != channel);
                    }
                }
                assert forall|c: int|
                    0 <= c < after.channels.len() && (#[trigger] after.channels[c]).pending
                        is Some implies after.outstanding().contains(c as u64) by {
                    if c == channel {
                        assert(after.outstanding()[q] == c as u64);
                    } else {
                        assert(after.channels[c] == state.channels[c]);
                        let i = choose|i: int|
                            0 <= i < state.outstanding().len() && state.outstanding()[i]
                                == c as u64;
                        if i < q {
                            assert(after.outstanding()[i] == c as u64);
                        } else {
                            assert(after.outstanding()[i + 1] == c as u64);
                        }
                    }
                }
            } else {
                assert(after.outstanding() =~= state.outstanding());
                assert forall|c: int|
                    0 <= c < after.channels.len() && (#[trigger] after.channels[c]).pending
                        is Some implies after.outstanding().contains(c as u64) by {
                    if c != channel {
                        assert(after.channels[c] == state.channels[c]);
                    }
                }
            }
        }
    }
}

/// Taking the next request leaves the bridge well formed.
pub proof fn lemma_serve_next_keeps_wf(state: BridgeState)
    requires
        state.wf(),
    ensures
        spec_serve_next(state).0.wf(),
{
    let after = spec_serve_next(state).0;
    let q = state.dispatcher.queue.len() as int;
    let n = state.outstanding().len() as int;
    if q > 0 {
        // The oldest request moves from the head of the queue to the top of
        // the stack: position 0 becomes position n - 1.
        assert(after.outstanding().len() == n);
        assert forall|i: int| 0 <= i < n implies #[trigger] after.outstanding()[i] == (if i < q - 1 {
            state.outstanding()[i + 1]
        } else if i < n - 1 {
            state.outstanding()[i + 1]
        } else {
            state.outstanding()[0]
        }) && after.outstanding_shape(i) == (if i < n - 1 {
            state.outstanding_shape(i + 1)
        } else {
            state.outstanding_shape(0)
        }) by {}
        assert forall|i: int| 0 <= i < after.outstanding().len() implies {
            &&& (#[trigger] after.outstanding()[i]) < after.channels.len()
            &&& after.channels[after.outstanding()[i] as int].pending == Some(
                after.outstanding_shape(i),
            )
        } by {
            if i < n - 1 {
                assert(state.outstanding()[i + 1] < state.channels.len());
            } else {
                assert(state.outstanding()[0] < state.channels.len());
            }
        }
        assert forall|i: int, j: int| 0 <= i < j < after.outstanding().len() implies #[trigger] after.outstanding()[i]
            != #[trigger] after.outstanding()[j] by {
            if j < n - 1 {
                assert(state.outstanding()[i + 1] != state.outstanding()[j + 1]);
            } else {
                assert(state.outstanding()[0] != state.outstanding()[i + 1]);
            }
        }
        assert forall|c: int|
            0 <= c < after.channels.len() && (#[trigger] after.channels[c]).pending
                is Some implies after.outstanding().contains(c as u64) by {
            let i = choose|i: int|
                0 <= i < state.outstanding().len() && state.outstanding()[i] == c as u64;
            if i == 0 {
                assert(after.outstanding()[n - 1] == c as u64);
            } else {
                assert(after.outstanding()[i - 1] == c as u64);
            }
        }
    }
}

/// A reply leaves the bridge well formed.
pub proof fn lemma_reply_keeps_wf(state: BridgeState, reply: Reply)
    requires
        state.wf(),
    ensures
        spec_bridge_reply(state, reply).0.wf(),
{
    let after = spec_bridge_reply(state, reply).0;
    let n = state.outstanding().len() as int;
    if state.dispatcher.serving.len() > 0 {
        let c = state.dispatcher.serving.last().channel;
        assert(state.outstanding()[n - 1] == c);
        assert(c < state.channels.len());
        assert(after.outstanding().len() == n - 1);
        assert forall|i: int| 0 <= i < n - 1 implies #[trigger] after.outstanding()[i]
            == state.outstanding()[i] && after.outstanding_shape(i) == state.outstanding_shape(
            i,
        ) by {}
        assert forall|i: int| 0 <= i < after.outstanding().len() implies {
            &&& (#[trigger] after.outstanding()[i]) < after.channels.len()
            &&& after.channels[after.outstanding()[i] as int].pending == Some(
                after.outstanding_shape(i),
            )
        } by {
            assert(state.outstanding()[i] < state.channels.len());
            assert(state.outstanding()[i] != state.outstanding()[n - 1]);
        }
        assert forall|i: int, j: int| 0 <= i < j < after.outstanding().len() implies #[trigger] after.outstanding()[i]
            != #[trigger] after.outstanding()[j] by {
            assert(state.outstanding()[i] != state.outstanding()[j]);
        }
        assert forall|d: int|
            0 <= d < after.channels.len() && (#[trigger] after.channels[d]).pending
                is Some implies after.outstanding().contains(d as u64) by {
            assert(d != c);
            assert(after.channels[d] == state.channels[d]);
            let i = choose|i: int|
                0 <= i < state.outstanding().len() && state.outstanding()[i] == d as u64;
            assert(i != n - 1);
            assert(after.outstanding()[i] == d as u64);
        }
    }
}

} // verus!
