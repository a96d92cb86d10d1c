//! The deferred pool: submit now, block on demand later.
//!
//! `submit` takes a closure as bytes and a snapshot of its input, assigns the
//! pair to one of the pool's threads and returns a handle at once. The pool
//! thread makes the round trip with the dispatcher on its own channel.
//! Whoever holds the handle calls `resolve` when the result is needed, once.
use vstd::prelude::*;
use polars::prelude::Series;
use crate::envelope::{Envelope, Payload};
use crate::error::BridgeError;

verus! {

/// A closure and its input, with nothing in them that belongs to the host
/// interpreter.
pub struct DeferredTask {
    pub id: u64,
    pub closure: Vec<u8>,
    pub payload: Series,
}

/// A task and the pool thread that is to run it.
pub struct Assignment {
    pub thread: usize,
    pub task: DeferredTask,
}

/// The claim on one task's result.
pub struct DeferredHandle {
    id: u64,
    resolved: bool,
}

/// What a handle is, to its contracts.
pub struct HandleState {
    pub id: u64,
    pub resolved: bool,
}

impl View for DeferredHandle {
    type V = HandleState;

    closed spec fn view(&self) -> HandleState {
        HandleState { id: self.id, resolved: self.resolved }
    }
}

/// What a pool is, to its contracts.
#[verifier::ext_equal]
pub struct PoolState {
    /// How many tasks were submitted so far; also the next task's id.
    pub submitted: u64,
    /// For each pool thread, how many of its tasks are not finished.
    pub load: Seq<usize>,
}

/// A fixed set of threads that run deferred tasks.
pub struct DeferredPool {
    submitted: u64,
    load: Vec<usize>,
}

impl View for DeferredPool {
    type V = PoolState;

    closed spec fn view(&self) -> PoolState {
        PoolState { submitted: self.submitted, load: self.load@ }
    }
}

/// The thread that takes the task `id` in a pool of `threads` threads: tasks
/// go round the threads in turn.
pub open spec fn spec_thread_for(id: u64, threads: int) -> int
    recommends
        threads > 0,
{
    id as int % threads
}

/// The envelope by which a pool thread asks the dispatcher to run `task`.
pub open spec fn spec_task_envelope(task: DeferredTask) -> Envelope {
    Envelope::SerializedToBatch(task.closure, task.payload)
}

/// The pool after a task was submitted to it.
pub open spec fn spec_submit(state: PoolState) -> PoolState
    recommends
        state.load.len() > 0,
{
    let thread = spec_thread_for(state.submitted, state.load.len() as int);
    PoolState {
        submitted: (state.submitted + 1) as u64,
        load: state.load.update(thread, (state.load[thread] + 1) as usize),
    }
}

/// The pool after `thread` finished a task; unchanged where `thread` is no
/// thread of the pool or has no task.
pub open spec fn spec_finish(state: PoolState, thread: int) -> PoolState {
    if 0 <= thread < state.load.len() && state.load[thread] > 0 {
        PoolState { load: state.load.update(thread, (state.load[thread] - 1) as usize), ..state }
    } else {
        state
    }
}

/// The handle and the result after `resolve(outcome)`.
pub open spec fn spec_resolve(state: HandleState, outcome: Result<Payload, BridgeError>) -> (
    HandleState,
    Result<Payload, BridgeError>,
) {
    if state.resolved {
        (state, Err(BridgeError::DoubleResolve))
    } else {
        (HandleState { resolved: true, ..state }, outcome)
    }
}

impl DeferredTask {
    /// The envelope by which a pool thread asks the dispatcher to run this
    /// task: the closure's bytes and the input, expecting a batch.
    pub fn into_envelope(self) -> (e: Envelope)
        ensures
            e == spec_task_envelope(self),
    {
        Envelope::SerializedToBatch(self.closure, self.payload)
    }
}

impl DeferredHandle {
    /// The id of the task this handle stands for.
    pub fn id(&self) -> (id: u64)
        ensures
            id == self@.id,
    {
        self.id
    }

    /// Whether `resolve` was called on this handle.
    pub fn is_resolved(&self) -> (b: bool)
        ensures
            b == self@.resolved,
    {
        self.resolved
    }

    /// Claims the task's result.
    ///
    /// `outcome` is what the pool thread's round trip ended with. The first
    /// call hands it on as it is, value or error; every later call is a
    /// `DoubleResolve`.
    pub fn resolve(&mut self, outcome: Result<Payload, BridgeError>) -> (r: Result<
        Payload,
        BridgeError,
    >)
        ensures
            (final(self)@, r) == spec_resolve(old(self)@, outcome),
    {
        if self.resolved {
            Err(BridgeError::DoubleResolve)
        } else {
            self.resolved = true;
            outcome
        }
    }
}

impl DeferredPool {
    /// A pool of `threads` idle threads, or `None` for a pool of none.
    pub fn new(threads: usize) -> (p: Option<DeferredPool>)
        ensures
            threads == 0 ==> p is None,
            threads > 0 ==> p is Some && p->0@ == (PoolState {
                submitted: 0,
                load: Seq::new(threads as nat, |i: int| 0usize),
            }),
    {
        if threads == 0 {
            return None;
        }
        let mut load: Vec<usize> = Vec::new();
        let mut i: usize = 0;
        while i < threads
            invariant
                i <= threads,
                load@.len() == i,
                forall|k: int| 0 <= k < i ==> load@[k] == 0usize,
            decreases threads - i,
        {
            load.push(0);
            i += 1;
        }
        assert(load@ =~= Seq::new(threads as nat, |i: int| 0usize));
        Some(DeferredPool { submitted: 0, load })
    }

    /// The number of threads in the pool.
    pub fn threads(&self) -> (n: usize)
        ensures
            n == self@.load.len(),
    {
        self.load.len()
    }

    /// How many tasks of `thread` are not finished; 0 where `thread` is no
    /// thread of the pool.
    pub fn load_of(&self, thread: usize) -> (n: usize)
        ensures
            thread < self@.load.len() ==> n == self@.load[thread as int],
            thread >= self@.load.len() ==> n == 0,
    {
        if thread < self.load.len() {
            self.load[thread]
        } else {
            0
        }
    }

    /// Whether one more task can be counted.
    pub open spec fn spec_has_room(state: PoolState) -> bool {
        &&& state.load.len() > 0
        &&& state.submitted < u64::MAX
        &&& state.load[spec_thread_for(state.submitted, state.load.len() as int)] < usize::MAX
    }

    /// Takes a task and returns at once.
    ///
    /// The task gets the next id and goes to the thread whose turn it is.
    /// The handle is unresolved and stands for that task. Where the pool's
    /// counters are at their limit nothing changes, and the closure and the
    /// payload come back.
    pub fn submit(&mut self, closure: Vec<u8>, payload: Series) -> (r: Result<
        (DeferredHandle, Assignment),
        (Vec<u8>, Series),
    >)
        ensures
            match r {
                Ok((handle, assignment)) => {
                    &&& Self::spec_has_room(old(self)@)
                    &&& final(self)@ == spec_submit(old(self)@)
                    &&& handle@ == (HandleState { id: old(self)@.submitted, resolved: false })
                    &&& assignment == (Assignment {
                        thread: spec_thread_for(
                            old(self)@.submitted,
                            old(self)@.load.len() as int,
                        ) as usize,
                        task: DeferredTask { id: old(self)@.submitted, closure, payload },
                    })
                },
                Err((c, p)) => {
                    &&& !Self::spec_has_room(old(self)@)
                    &&& final(self)@ == old(self)@
                    &&& c == closure
                    &&& p == payload
                },
            },
    {
        let threads = self.load.len();
        if threads == 0 || self.submitted == u64::MAX {
            return Err((closure, payload));
        }
        let thread = pick_thread(self.submitted, threads);
        if self.load[thread] == usize::MAX {
            return Err((closure, payload));
        }
        let id = self.submitted;
        let busy = self.load[thread];
        self.load.set(thread, busy + 1);
        self.submitted = id + 1;
        let handle = DeferredHandle { id, resolved: false };
        Ok((handle, Assignment { thread, task: DeferredTask { id, closure, payload } }))
    }

    /// Records that `thread` finished a task, whether or not anybody ever
    /// asks for the result. Returns whether there was such a task.
    pub fn finish(&mut self, thread: usize) -> (had: bool)
        ensures
            final(self)@ == spec_finish(old(self)@, thread as int),
            had == (thread < old(self)@.load.len() && old(self)@.load[thread as int] > 0),
    {
        if thread < self.load.len() && self.load[thread] > 0 {
            let busy = self.load[thread];
            self.load.set(thread, busy - 1);
            true
        } else {
            false
        }
    }
}

/// The thread whose turn it is for the task `id`.
fn pick_thread(id: u64, threads: usize) -> (t: usize)
    requires
        threads > 0,
    ensures
        t as int == spec_thread_for(id, threads as int),
        t < threads,
{
    (id % (threads as u64)) as usize
}

/// A second `resolve` on the same handle is a `DoubleResolve`, whatever the
/// first returned and whatever outcome is offered again.
pub proof fn lemma_second_resolve_fails(
    state: HandleState,
    first: Result<Payload, BridgeError>,
    second: Result<Payload, BridgeError>,
)
    ensures
        spec_resolve(spec_resolve(state, first).0, second).1 == Err::<Payload, BridgeError>(
            BridgeError::DoubleResolve,
        ),
        spec_resolve(spec_resolve(state, first).0, second).0 == spec_resolve(state, first).0,
{
}

/// The first `resolve` on a fresh handle returns the task's outcome as it is.
pub proof fn lemma_first_resolve_hands_on(state: HandleState, outcome: Result<Payload, BridgeError>)
    requires
        !state.resolved,
    ensures
        spec_resolve(state, outcome).1 == outcome,
        spec_resolve(state, outcome).0.resolved,
{
}

/// A task that is submitted and finished leaves every pool thread as loaded
/// as before, and no handle is needed for that: a result that nobody claims
/// holds no thread.
pub proof fn lemma_unclaimed_task_frees_its_thread(state: PoolState)
    requires
        DeferredPool::spec_has_room(state),
    ensures
        spec_finish(
            spec_submit(state),
            spec_thread_for(state.submitted, state.load.len() as int),
        ).load == state.load,
{
    let thread = spec_thread_for(state.submitted, state.load.len() as int);
    assert(0 <= thread < state.load.len());
    assert(spec_finish(spec_submit(state), thread).load =~= state.load);
}

} // verus!
