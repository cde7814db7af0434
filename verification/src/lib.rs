//! Core of a flow-controlled, chunked request/response transport.
//!
//! Producers split a byte stream into fixed-size chunks and publish them in
//! bounded bursts over a capacity-bounded channel; delivery is tracked on a
//! separate acknowledgment channel with a sliding credit window. A responder
//! answers requests on a reply channel named inside the request itself. The
//! underlying publish/subscribe substrate is an external collaborator driven
//! by the embedding application; this crate holds the data model, the window
//! bookkeeping, the chunk codec, and the per-tick protocol decisions.

pub mod errors;
pub mod chunk;
pub mod ack;
pub mod codec;
pub mod channel;
pub mod stream;
pub mod sender;
pub mod receiver;
pub mod rr;
