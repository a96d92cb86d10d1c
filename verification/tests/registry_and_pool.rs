use polars::prelude::{NamedFrom, Series};
use r_polars::bridge::Bridge;
use r_polars::deferred::DeferredPool;
use r_polars::envelope::{CallbackHandle, Envelope, Payload, Reply, ReplyShape};
use r_polars::error::BridgeError;
use r_polars::handles::{CallbackTable, Released};
use r_polars::registry::Registry;

fn batch(values: &[i64]) -> Series {
    Series::new("x", values)
}

#[test]
fn registry_is_uninitialized_at_first() {
    let r: Registry<u32> = Registry::new();
    assert!(!r.is_initialized());
    assert!(matches!(r.resolve(), Err(BridgeError::Uninitialized)));
    assert!(matches!(r.acquire(1), Err(BridgeError::Uninitialized)));
}

#[test]
fn registry_keeps_the_first_endpoint() {
    let mut r: Registry<u32> = Registry::new();
    assert_eq!(r.init(11), None);
    assert!(r.is_initialized());
    assert_eq!(r.init(22), Some(22));
    assert_eq!(r.resolve().ok(), Some(&11));
}

#[test]
fn registry_acquire_gives_a_fresh_channel() {
    let mut r: Registry<u32> = Registry::new();
    r.init(1);
    let ch = r.acquire(77).ok().unwrap();
    assert_eq!(ch.id(), 77);
    assert!(!ch.is_awaiting());
    assert!(!ch.is_closed());
}

#[test]
fn registry_teardown_takes_the_endpoint() {
    let mut r: Registry<u32> = Registry::new();
    r.init(5);
    assert_eq!(r.teardown(), Some(5));
    assert!(matches!(r.resolve(), Err(BridgeError::Uninitialized)));
    assert_eq!(r.teardown(), None);
}

#[test]
fn pool_needs_a_thread() {
    assert!(DeferredPool::new(0).is_none());
    let pool = DeferredPool::new(3).unwrap();
    assert_eq!(pool.threads(), 3);
    for t in 0..3 {
        assert_eq!(pool.load_of(t), 0);
    }
    assert_eq!(pool.load_of(3), 0);
}

#[test]
fn pool_assigns_tasks_in_turn() {
    let mut pool = DeferredPool::new(3).unwrap();
    let mut threads = Vec::new();
    for i in 0..7u64 {
        let (handle, assignment) = pool.submit(vec![i as u8], batch(&[i as i64])).ok().unwrap();
        assert_eq!(handle.id(), i);
        assert!(!handle.is_resolved());
        assert_eq!(assignment.task.id, i);
        assert_eq!(assignment.task.closure, vec![i as u8]);
        assert!(assignment.task.payload.equals(&batch(&[i as i64])));
        threads.push(assignment.thread);
    }
    assert_eq!(threads, vec![0, 1, 2, 0, 1, 2, 0]);
    assert_eq!(pool.load_of(0), 3);
    assert_eq!(pool.load_of(1), 2);
    assert_eq!(pool.load_of(2), 2);
}

#[test]
fn pool_finish_frees_the_thread() {
    let mut pool = DeferredPool::new(2).unwrap();
    pool.submit(vec![], batch(&[1])).ok().unwrap();
    assert_eq!(pool.load_of(0), 1);
    assert!(pool.finish(0));
    assert_eq!(pool.load_of(0), 0);
    assert!(!pool.finish(0));
    assert!(!pool.finish(1));
    assert!(!pool.finish(2));
}

#[test]
fn task_becomes_a_serialized_call() {
    let mut pool = DeferredPool::new(1).unwrap();
    let (_, assignment) = pool.submit(vec![9, 8, 7], batch(&[4, 5])).ok().unwrap();
    let envelope = assignment.task.into_envelope();
    assert_eq!(envelope.expected(), ReplyShape::Batch);
    match envelope {
        Envelope::SerializedToBatch(closure, payload) => {
            assert_eq!(closure, vec![9, 8, 7]);
            assert!(payload.equals(&batch(&[4, 5])));
        }
        _ => panic!("expected a serialized call"),
    }
}

#[test]
fn resolve_hands_on_the_outcome_once() {
    let mut pool = DeferredPool::new(1).unwrap();
    let (mut handle, _) = pool.submit(vec![], batch(&[1])).ok().unwrap();
    let first = handle.resolve(Ok(Payload::Batch(batch(&[2]))));
    assert!(matches!(first, Ok(Payload::Batch(ref s)) if s.equals(&batch(&[2]))));
    assert!(handle.is_resolved());
    let second = handle.resolve(Ok(Payload::Batch(batch(&[2]))));
    assert!(matches!(second, Err(BridgeError::DoubleResolve)));
    let third = handle.resolve(Err(BridgeError::Disconnected));
    assert!(matches!(third, Err(BridgeError::DoubleResolve)));
}

#[test]
fn resolve_hands_on_errors() {
    let mut pool = DeferredPool::new(1).unwrap();
    let (mut a, _) = pool.submit(vec![], batch(&[1])).ok().unwrap();
    let (mut b, _) = pool.submit(vec![], batch(&[1])).ok().unwrap();
    let (mut c, _) = pool.submit(vec![], batch(&[1])).ok().unwrap();
    assert!(matches!(a.resolve(Err(BridgeError::Disconnected)), Err(BridgeError::Disconnected)));
    assert!(matches!(b.resolve(Err(BridgeError::ShapeMismatch)), Err(BridgeError::ShapeMismatch)));
    assert!(matches!(
        c.resolve(Err(BridgeError::CallbackFailed("bad".to_string()))),
        Err(BridgeError::CallbackFailed(ref m)) if m == "bad"
    ));
    assert!(matches!(a.resolve(Err(BridgeError::Disconnected)), Err(BridgeError::DoubleResolve)));
}

/// A task whose result nobody claims still runs to its end: the dispatcher
/// is idle afterwards and the pool thread is free.
#[test]
fn unclaimed_task_holds_nothing() {
    let mut bridge = Bridge::new();
    let pool_channel = bridge.acquire(1).ok().unwrap();
    let mut pool = DeferredPool::new(1).unwrap();
    let (handle, assignment) = pool.submit(vec![1], batch(&[1, 2])).ok().unwrap();
    let thread = assignment.thread;
    assert!(matches!(bridge.send(pool_channel, assignment.task.into_envelope()), Ok(None)));
    let input = match bridge.serve_next() {
        Some(Envelope::SerializedToBatch(_, s)) => s,
        _ => panic!("expected a serialized call"),
    };
    let (to, outcome) = bridge.reply(Reply::Value(Payload::Batch(&input * 2i64))).unwrap();
    assert_eq!(to, pool_channel);
    assert!(outcome.is_ok());
    assert!(pool.finish(thread));
    assert!(!handle.is_resolved());
    assert_eq!(pool.load_of(thread), 0);
    assert_eq!(bridge.queued(), 0);
    assert_eq!(bridge.depth(), 0);
    assert!(!bridge.is_awaiting(pool_channel));
    // The thread takes the next task.
    let (_, next) = pool.submit(vec![2], batch(&[3])).ok().unwrap();
    assert_eq!(next.thread, thread);
}

#[test]
fn table_gives_each_closure_its_own_identity() {
    let mut table: CallbackTable<String> = CallbackTable::new();
    let a = table.register("double".to_string()).ok().unwrap();
    let b = table.register("negate".to_string()).ok().unwrap();
    assert_eq!(a.id, 0);
    assert_eq!(b.id, 1);
    assert_eq!(table.resolve(a), Some(&"double".to_string()));
    assert_eq!(table.resolve(b), Some(&"negate".to_string()));
    assert_eq!(table.holders(a), 1);
    assert_eq!(table.resolve(CallbackHandle::new(2)), None);
    assert_eq!(table.holders(CallbackHandle::new(2)), 0);
}

#[test]
fn table_counts_the_holders_of_a_handle() {
    let mut table: CallbackTable<String> = CallbackTable::new();
    let h = table.register("f".to_string()).ok().unwrap();
    assert!(table.retain(h));
    assert!(table.retain(h));
    assert_eq!(table.holders(h), 3);
    assert!(matches!(table.release(h), Released::Kept));
    assert!(matches!(table.release(h), Released::Kept));
    assert_eq!(table.resolve(h), Some(&"f".to_string()));
    assert!(matches!(table.release(h), Released::Dropped(ref c) if c == "f"));
    assert_eq!(table.resolve(h), None);
    assert!(matches!(table.release(h), Released::Unknown));
    assert!(!table.retain(h));
}

#[test]
fn table_never_gives_an_identity_twice() {
    let mut table: CallbackTable<u8> = CallbackTable::new();
    let first = table.register(1).ok().unwrap();
    assert!(matches!(table.release(first), Released::Dropped(1)));
    let second = table.register(2).ok().unwrap();
    assert_ne!(first.id, second.id);
    assert_eq!(table.resolve(first), None);
    assert_eq!(table.resolve(second), Some(&2));
}
