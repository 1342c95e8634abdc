//! Realtime delivery core of a chat service, with machine-checked contracts.
//!
//! The core keeps one outbound queue for each connected user, frames small
//! typed packets, routes the packets that come in to their handlers and fans
//! events out to the members of a channel. It never waits: sockets, the
//! store and the clock of the event loop belong to the program around it,
//! which calls in with what it read and carries out what it is told.
//!
//! # Modules
//!
//! - [`server::wire`]: varints and fields, the wire format under
//!   everything else.
//! - [`server::messages`]: messages over the wire format, the envelope
//!   of a packet, and the law that decoding inverts encoding.
//! - [`server::gateway::messages`]: the packets, by direction.
//! - [`server::registry`]: who is connected.
//! - [`server::gateway`]: handlers and their dispatch.
//! - [`server::gateway::context`]: fan-out to a user and to a channel.
//! - [`server`]: the handshake and the steps of the two loops of a
//!   connection.
//! - [`server::rest`]: what the HTTP handlers compute.
//! - [`schema`]: the rows of the store and the text of its listing query.
//! - [`util::snowflake`]: time-ordered identifiers.
//! - [`ws`]: an echo service.
//!
//! # What is proved, and what is taken on trust
//!
//! Every function states what it returns, and the verifier checks the body
//! against the statement: no function panics, overflows or reads outside a
//! buffer. A handful of functions only forward to code that the verifier
//! cannot see, and what is said of them is believed, not proved:
//!
//! - the registry's map, `dashmap::DashMap`: `new`, `insert`, `remove`,
//!   `get` and `contains_key`, each by what it does to the entries, where
//!   an entry is a user's id and the number of the user's connection;
//! - the queue, `tokio::sync::mpsc`: `channel` and `Sender::try_send`, of
//!   whose outcome nothing is assumed;
//! - the clock, read through `chrono::DateTime<Utc>`, of whose value
//!   nothing is assumed;
//! - `std::str::from_utf8` and `str::trim`, each by what it returns.
//!
//! A handle is known to the contracts by the number of its connection.
//! The two sides of a queue bear the number of the ticket that opened the
//! queue, which is said of the call that opens it and believed with it, as
//! is that a copy of a handle, made by `Sender::clone`, feeds the same
//! queue under the same number.
//!
//! Exclusive access to the registry is asked of the caller by the type of
//! its methods. That no two changes run at once is therefore the caller's
//! lock at work, not a theorem of this crate.

pub mod schema;
pub mod server;
pub mod util;
pub mod ws;
