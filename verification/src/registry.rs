//! The registry: the one place that knows the dispatcher's endpoint.
//!
//! The endpoint is installed once, by the host-execution thread, and never
//! replaced. Until then every resolution fails with `Uninitialized`; it does
//! not wait.
use vstd::prelude::*;
use crate::channel::WorkerChannel;
use crate::error::BridgeError;

verus! {

/// Holds the dispatcher's inbound endpoint, of whatever type the transport
/// gives it.
pub struct Registry<E> {
    endpoint: Option<E>,
}

impl<E> View for Registry<E> {
    type V = Option<E>;

    closed spec fn view(&self) -> Option<E> {
        self.endpoint
    }
}

impl<E> Registry<E> {
    /// A registry with no endpoint.
    pub fn new() -> (r: Registry<E>)
        ensures
            r@ is None,
    {
        Registry { endpoint: None }
    }

    /// Whether an endpoint is installed.
    pub fn is_initialized(&self) -> (b: bool)
        ensures
            b == (self@ is Some),
    {
        self.endpoint.is_some()
    }

    /// Installs the endpoint, unless one is installed already.
    ///
    /// The first endpoint stays for good: a later call changes nothing and
    /// hands its argument back.
    pub fn init(&mut self, endpoint: E) -> (rejected: Option<E>)
        ensures
            old(self)@ is None ==> final(self)@ == Some(endpoint) && rejected is None,
            old(self)@ is Some ==> final(self)@ == old(self)@ && rejected == Some(endpoint),
    {
        if self.endpoint.is_some() {
            Some(endpoint)
        } else {
            self.endpoint = Some(endpoint);
            None
        }
    }

    /// The dispatcher's endpoint, or `Uninitialized` where none is installed.
    pub fn resolve(&self) -> (r: Result<&E, BridgeError>)
        ensures
            match self@ {
                Some(e) => r == Ok::<&E, BridgeError>(&e),
                None => r == Err::<&E, BridgeError>(BridgeError::Uninitialized),
            },
    {
        match &self.endpoint {
            Some(e) => Ok(e),
            None => Err(BridgeError::Uninitialized),
        }
    }

    /// A fresh channel for the thread `thread`, or `Uninitialized` where no
    /// endpoint is installed.
    pub fn acquire(&self, thread: u64) -> (r: Result<WorkerChannel, BridgeError>)
        ensures
            match r {
                Ok(ch) => self@ is Some && ch@ == (crate::channel::ChannelState {
                    id: thread,
                    pending: None,
                    closed: false,
                }),
                Err(e) => self@ is None && e == BridgeError::Uninitialized,
            },
    {
        if self.endpoint.is_some() {
            Ok(WorkerChannel::new(thread))
        } else {
            Err(BridgeError::Uninitialized)
        }
    }

    /// Takes the endpoint out at process exit. Every later resolution fails
    /// with `Uninitialized`.
    pub fn teardown(&mut self) -> (e: Option<E>)
        ensures
            e == old(self)@,
            final(self)@ is None,
    {
        self.endpoint.take()
    }
}

} // verus!
