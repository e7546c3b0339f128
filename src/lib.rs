//! Client library for the Asterisk REST Interface (ARI).
//!
//! - `json`: a JSON document as a tree of plain values, and typed access to
//!   the members of an object.
//! - `channels`, `playbacks`, `recordings`, `applications`: the resources
//!   that events and answers describe, each read from JSON.
//! - `events`: the thirteen kinds of event and the decoding of one message
//!   of the event stream.
//! - `endpoint`: the address of the event stream.
//! - `client`: the client, and the consumer that takes each kind of event.
//! - `dispatch`: the decisions of the event-stream loop.
//! - `requests`: what each control-plane call sends, and how its answer is
//!   read.
//! - `errors`: the errors of the library.

pub mod json;
pub mod channels;
pub mod playbacks;
pub mod recordings;
pub mod applications;
pub mod events;
pub mod errors;
pub mod endpoint;
pub mod client;
pub mod dispatch;
pub mod requests;
