//! A bridge between the pull-based AWS Lambda Runtime API and an in-process
//! event handler.
//!
//! The library holds the decisions of the bridge: how a poll reply becomes an
//! invocation event, how a payload is classified and converted, what a poller
//! does with each result, and how pollers are started and stopped. Network
//! traffic, threads and the handler itself stay with the caller, which feeds
//! the results back as plain values.
//!
//! - `invocation`, `client`: the event, response and error that are exchanged
//!   with the runtime endpoint.
//! - `wire`: the addresses and bodies of the runtime endpoint's protocol.
//! - `alb`, `http`: the two shapes of an HTTP request and response, and the
//!   conversions between them.
//! - `dispatch`: what is made of a payload before the handler is called, and
//!   of the handler's reply after it.
//! - `tracker`: the requests that a poller has delivered.
//! - `poller`: the poll loop of one tenant, as a state machine.
//! - `table`, `lifecycle`: the pollers that run, and the host's calls that
//!   start and stop them.
//! - `failure`: the failures of a cycle and their text.
//! - `codec`: the calls into the crates that encode and decode.
//! - `text`: small helpers on text.
//! - `laws`: what holds of all of this on every input.

pub mod text;
pub mod invocation;
pub mod failure;
pub mod http;
pub mod codec;
pub mod alb;
pub mod tracker;
pub mod dispatch;
pub mod wire;
pub mod poller;
pub mod table;
pub mod lifecycle;
pub mod client;
pub mod laws;
