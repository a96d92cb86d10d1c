//! Callback bridge between a multi-threaded columnar query engine and a
//! single-threaded host interpreter, together with the decision rules of the
//! expression front end that sits on top of it.

pub mod error;
pub mod outside;
pub mod envelope;
pub mod handles;
pub mod request;
pub mod channel;
pub mod dispatcher;
pub mod registry;
pub mod deferred;
pub mod bridge;
pub mod expr;
pub mod callback;
pub mod literal;
pub mod columns;
pub mod options;
pub mod methods;
pub mod q;
