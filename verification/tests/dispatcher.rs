use r_polars::channel::Request;
use r_polars::dispatcher::Dispatcher;
use r_polars::envelope::{CallbackHandle, Envelope, Reply, Wake};

fn request(channel: u64, index: u64) -> Request {
    Request { channel, envelope: Envelope::ScalarToText(CallbackHandle::new(1), index) }
}

fn index_of(e: Option<Envelope>) -> u64 {
    match e {
        Some(Envelope::ScalarToText(_, i)) => i,
        _ => panic!("expected a scalar call"),
    }
}

#[test]
fn dispatcher_starts_open_and_empty() {
    let mut d = Dispatcher::new();
    assert!(d.is_open());
    assert_eq!(d.queued(), 0);
    assert_eq!(d.depth(), 0);
    assert!(d.next().is_none());
    assert!(d.complete(Reply::Failed("nothing".to_string())).is_none());
}

#[test]
fn dispatcher_serves_first_in_first_out() {
    let mut d = Dispatcher::new();
    for (ch, i) in [(5u64, 50u64), (2, 20), (9, 90), (1, 10)] {
        assert!(d.enqueue(request(ch, i)).is_none());
    }
    assert_eq!(d.queued(), 4);
    let mut served = Vec::new();
    for _ in 0..4 {
        let i = index_of(d.next());
        let delivery = d.complete(Reply::Failed(format!("{}", i))).unwrap();
        served.push((delivery.channel, i));
    }
    assert_eq!(served, vec![(5, 50), (2, 20), (9, 90), (1, 10)]);
    assert!(d.next().is_none());
}

#[test]
fn dispatcher_reply_goes_to_the_sender() {
    let mut d = Dispatcher::new();
    d.enqueue(request(3, 0));
    d.enqueue(request(4, 1));
    assert_eq!(index_of(d.next()), 0);
    let delivery = d.complete(Reply::Failed("first".to_string())).unwrap();
    assert_eq!(delivery.channel, 3);
    assert!(matches!(delivery.wake, Wake::Reply(Reply::Failed(ref m)) if m == "first"));
    assert_eq!(index_of(d.next()), 1);
    assert_eq!(d.complete(Reply::Failed("second".to_string())).unwrap().channel, 4);
}

#[test]
fn dispatcher_gives_one_reply_per_request() {
    let mut d = Dispatcher::new();
    d.enqueue(request(3, 0));
    assert!(d.next().is_some());
    assert!(d.complete(Reply::Failed("once".to_string())).is_some());
    assert!(d.complete(Reply::Failed("twice".to_string())).is_none());
}

#[test]
fn dispatcher_nested_requests_form_a_stack() {
    let mut d = Dispatcher::new();
    d.enqueue(request(1, 0));
    assert!(d.next().is_some());
    d.enqueue(request(2, 0));
    assert!(d.next().is_some());
    assert_eq!(d.depth(), 2);
    assert_eq!(d.complete(Reply::Failed("inner".to_string())).unwrap().channel, 2);
    assert_eq!(d.complete(Reply::Failed("outer".to_string())).unwrap().channel, 1);
    assert_eq!(d.depth(), 0);
}

#[test]
fn dispatcher_shutdown_owes_every_request_a_wake() {
    let mut d = Dispatcher::new();
    d.enqueue(request(7, 0));
    assert!(d.next().is_some());
    d.enqueue(request(8, 0));
    d.enqueue(request(6, 0));
    let owed = d.shutdown();
    let channels: Vec<u64> = owed.iter().map(|x| x.channel).collect();
    assert_eq!(channels, vec![8, 6, 7]);
    assert!(owed.iter().all(|x| matches!(x.wake, Wake::Closed)));
    assert!(!d.is_open());
    assert_eq!(d.queued(), 0);
    assert_eq!(d.depth(), 0);
}

#[test]
fn dispatcher_refuses_after_shutdown() {
    let mut d = Dispatcher::new();
    assert!(d.shutdown().is_empty());
    let delivery = d.enqueue(request(4, 0)).unwrap();
    assert_eq!(delivery.channel, 4);
    assert!(matches!(delivery.wake, Wake::Closed));
    assert_eq!(d.queued(), 0);
}
