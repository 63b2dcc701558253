//! A bridge between a line-oriented JSON-RPC 2.0 transport and the Bun
//! documentation backend, which speaks HTTP with plain JSON or Server-Sent
//! Events.
//!
//! The crate holds the decisions of that bridge as verified functions on plain
//! values: the retry and backoff policy, the interpretation of backend
//! responses, the reduction of an event stream to one JSON-RPC payload, and the
//! dispatch of the protocol's methods. Reading and writing sockets and standard
//! streams is left to the program built around it, which hands over what it
//! read and does what it is told.
//!
//! - [`dispatch`] decides how each JSON-RPC method is answered.
//! - [`forward`] is the forwarding engine: the outcome of each attempt, and
//!   the retry state machine.
//! - [`http`] holds the policy of the HTTP exchange: backoff, the statuses
//!   that are worth a retry, and what the headers say.
//! - [`sse`] reduces an event stream to its answer.
//! - [`protocol`] has the JSON-RPC messages, [`json`] the JSON values they are
//!   made of, and [`text`] the string operations underneath.
//! - [`transport`] frames messages as lines, and [`cli`] serves the
//!   command-line search mode.

pub mod cli;
pub mod dispatch;
pub mod forward;
pub mod http;
pub mod json;
pub mod protocol;
pub mod sse;
pub mod text;
pub mod transport;
