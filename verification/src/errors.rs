use vstd::prelude::*;

verus! {

/// Error taxonomy of the transport core.
///
/// Setup and configuration errors (`IncompatibleBinding`) abort immediately;
/// `Backpressure` is transient and retried by the caller; protocol invariant
/// violations (`OutOfOrderAck`, `SequenceGap`) are never silently repaired;
/// liveness failures (`AckTimeout`, `NoResponse`) surface to the caller.
#[derive(Clone, Copy, Debug, PartialEq, Eq, Structural)]
pub enum TransportError {
    /// A chunk or queue would overflow its fixed capacity.
    CapacityExceeded,
    /// A channel was bound twice with conflicting cardinality limits.
    IncompatibleBinding,
    /// The receiving side's buffer is full; retry on a later tick.
    Backpressure,
    /// The transport or the peer process is gone.
    TransportUnavailable,
    /// An acknowledgment ran ahead of the number of chunks pushed.
    OutOfOrderAck,
    /// A message arrived out of the contiguous chunk order.
    SequenceGap,
    /// No acknowledgment progress within the configured number of ticks.
    AckTimeout,
    /// No response arrived within the configured number of ticks.
    NoResponse,
    /// A request carried no reply-channel name.
    MissingReplyChannel,
    /// A reply-channel name is already in use by an in-flight request.
    ReplyChannelCollision,
    /// Reading from the payload source failed.
    SourceReadFailed,
}

} // verus!
