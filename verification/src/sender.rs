use vstd::prelude::*;

use crate::ack::acked_index;
use crate::ack::AckTracker;
use crate::ack::QUEUE_CAPACITY;
use crate::chunk::ChunkBuffer;
use crate::errors::TransportError;

verus! {

/// The sender's position in its lifecycle.
#[derive(Clone, Copy, Debug, PartialEq, Eq, Structural)]
pub enum SenderPhase {
    /// Constructed, not yet streaming.
    Idle,
    /// Reading, pushing and publishing chunks under the credit window.
    Streaming,
    /// The source is exhausted; waiting for the outstanding acknowledgments.
    Draining,
    /// All sent chunks acknowledged, or the stream was aborted.
    Closed,
}

/// Per-tick decision core of the streaming sender. The embedding loop asks
/// `wants_read` before reading, hands every read result to `on_chunk` or
/// `on_eof`, offers `pending_chunk` to the data channel, reports the
/// publish outcome, and forwards every acknowledgment drained from the ack
/// channel. All credit-window decisions are made here; the loop only moves
/// bytes.
pub struct StreamingSender {
    phase: SenderPhase,
    tracker: AckTracker,
    pending: Option<ChunkBuffer>,
    stalled_ticks: u64,
    ack_timeout_ticks: u64,
}

impl StreamingSender {
    /// The sender's lifecycle phase.
    pub closed spec fn spec_phase(&self) -> SenderPhase {
        self.phase
    }

    /// The sliding-window bookkeeping.
    pub closed spec fn spec_tracker(&self) -> AckTracker {
        self.tracker
    }

    /// The chunk awaiting publication, if any.
    pub closed spec fn spec_pending(&self) -> Option<ChunkBuffer> {
        self.pending
    }

    /// Ticks waited without acknowledgment progress.
    pub closed spec fn spec_stalled_ticks(&self) -> nat {
        self.stalled_ticks as nat
    }

    /// The configured stall limit.
    pub closed spec fn spec_ack_timeout_ticks(&self) -> nat {
        self.ack_timeout_ticks as nat
    }

    /// The sender's invariant: the window invariant holds of the tracker; a
    /// chunk awaits publication only while streaming (it was counted by the
    /// window when it was read); before the stream starts nothing is pushed.
    pub open spec fn wf(&self) -> bool {
        &&& self.spec_tracker().wf()
        &&& self.spec_pending() is Some ==> self.spec_phase() == SenderPhase::Streaming
        &&& self.spec_phase() == SenderPhase::Idle ==> self.spec_tracker().spec_push_index() == 0
            && self.spec_tracker().spec_ack_index() == 0
    }

    /// Whether the sender should read another chunk from the source on this
    /// tick: only while streaming, with no chunk awaiting publication, and
    /// only within the credit window.
    pub open spec fn spec_wants_read(&self) -> bool {
        &&& self.spec_phase() == SenderPhase::Streaming
        &&& self.spec_pending() is None
        &&& self.spec_tracker().spec_can_push()
    }

    /// Whether the sender is blocked on the peer: a publish awaits retry,
    /// the window is exhausted, or the drain awaits acknowledgments.
    pub open spec fn spec_blocked(&self) -> bool {
        ||| self.spec_phase() == SenderPhase::Streaming && (self.spec_pending() is Some
            || !self.spec_tracker().spec_can_push())
        ||| self.spec_phase() == SenderPhase::Draining
    }

    /// A fresh sender with the given stall limit, in ticks.
    pub fn new(ack_timeout_ticks: u64) -> (s: StreamingSender)
        ensures
            s.wf(),
            s.spec_phase() == SenderPhase::Idle,
            s.spec_pending() is None,
            s.spec_tracker().spec_push_index() == 0,
            s.spec_tracker().spec_ack_index() == 0,
            s.spec_stalled_ticks() == 0,
            s.spec_ack_timeout_ticks() == ack_timeout_ticks,
    {
        StreamingSender {
            phase: SenderPhase::Idle,
            tracker: AckTracker::new(),
            pending: None,
            stalled_ticks: 0,
            ack_timeout_ticks,
        }
    }

    /// Begins streaming.
    pub fn start(&mut self)
        requires
            old(self).wf(),
            old(self).spec_phase() == SenderPhase::Idle,
        ensures
            final(self).wf(),
            final(self).spec_phase() == SenderPhase::Streaming,
            final(self).spec_tracker() == old(self).spec_tracker(),
            final(self).spec_pending() == old(self).spec_pending(),
            final(self).spec_stalled_ticks() == old(self).spec_stalled_ticks(),
            final(self).spec_ack_timeout_ticks() == old(self).spec_ack_timeout_ticks(),
    {
        self.phase = SenderPhase::Streaming;
    }

    /// True iff the sender should read another chunk on this tick.
    pub fn wants_read(&self) -> (r: bool)
        requires
            self.wf(),
        ensures
            r == self.spec_wants_read(),
    {
        match self.phase {
            SenderPhase::Streaming => self.pending.is_none() && self.tracker.can_push(),
            _ => false,
        }
    }

    /// Takes in one freshly read chunk: spends one credit of the window and
    /// holds the chunk for publication on this tick.
    pub fn on_chunk(&mut self, chunk: ChunkBuffer)
        requires
            old(self).wf(),
            old(self).spec_wants_read(),
            old(self).spec_tracker().spec_push_index() < u64::MAX,
            chunk.wf(),
            chunk@.len() > 0,
        ensures
            final(self).wf(),
            final(self).spec_phase() == SenderPhase::Streaming,
            final(self).spec_pending() == Some(chunk),
            final(self).spec_tracker().spec_push_index() == old(self).spec_tracker()
                .spec_push_index() + 1,
            final(self).spec_tracker().spec_ack_index() == old(self).spec_tracker()
                .spec_ack_index(),
            final(self).spec_stalled_ticks() == old(self).spec_stalled_ticks(),
            final(self).spec_ack_timeout_ticks() == old(self).spec_ack_timeout_ticks(),
    {
        self.tracker.record_push();
        self.pending = Some(chunk);
    }

    /// Takes in a zero-byte read: the source is exhausted. The stream drains
    /// until every pushed chunk is acknowledged, and closes at once when
    /// nothing is outstanding.
    pub fn on_eof(&mut self)
        requires
            old(self).wf(),
            old(self).spec_wants_read(),
        ensures
            final(self).wf(),
            final(self).spec_tracker() == old(self).spec_tracker(),
            final(self).spec_pending() is None,
            old(self).spec_tracker().spec_push_index() == old(self).spec_tracker()
                .spec_ack_index() ==> final(self).spec_phase() == SenderPhase::Closed,
            old(self).spec_tracker().spec_push_index() > old(self).spec_tracker()
                .spec_ack_index() ==> final(self).spec_phase() == SenderPhase::Draining,
            final(self).spec_stalled_ticks() == old(self).spec_stalled_ticks(),
            final(self).spec_ack_timeout_ticks() == old(self).spec_ack_timeout_ticks(),
    {
        if self.tracker.window() == 0 {
            self.phase = SenderPhase::Closed;
        } else {
            self.phase = SenderPhase::Draining;
        }
    }

    /// Borrows the chunk awaiting publication on this tick, if any.
    pub fn pending_chunk(&self) -> (r: Option<&ChunkBuffer>)
        ensures
            r is Some <==> self.spec_pending() is Some,
            r matches Some(c) ==> (self.spec_pending() matches Some(p) && *c == p),
    {
        self.pending.as_ref()
    }

    /// Takes in a successful publish: the pending chunk is on the wire.
    pub fn on_publish_ok(&mut self)
        requires
            old(self).wf(),
            old(self).spec_pending() is Some,
        ensures
            final(self).wf(),
            final(self).spec_phase() == old(self).spec_phase(),
            final(self).spec_pending() is None,
            final(self).spec_tracker() == old(self).spec_tracker(),
            final(self).spec_stalled_ticks() == old(self).spec_stalled_ticks(),
            final(self).spec_ack_timeout_ticks() == old(self).spec_ack_timeout_ticks(),
    {
        self.pending = None;
    }

    /// Takes in a transient `Backpressure` report from the data channel:
    /// the pending chunk stays and is retried on the next tick.
    pub fn on_backpressure(&mut self)
        requires
            old(self).wf(),
            old(self).spec_pending() is Some,
        ensures
            final(self).wf(),
            *final(self) == *old(self),
    {
    }

    /// Takes in one acknowledgment drained from the ack channel, in delivery
    /// order. An acknowledgment ahead of the pushed count is a protocol
    /// violation: the stream aborts with `OutOfOrderAck`. Fresh progress
    /// resets the stall counter; a drain whose outstanding chunks are all
    /// acknowledged closes the stream.
    pub fn on_ack(&mut self, n: u64) -> (r: Result<(), TransportError>)
        requires
            old(self).wf(),
        ensures
            final(self).wf(),
            n > old(self).spec_tracker().spec_push_index() ==> (r matches Err(e)
                && e == TransportError::OutOfOrderAck
                && final(self).spec_phase() == SenderPhase::Closed
                && final(self).spec_tracker() == old(self).spec_tracker()),
            n <= old(self).spec_tracker().spec_push_index() ==> (r matches Ok(())
                && final(self).spec_tracker().spec_push_index() == old(self).spec_tracker()
                    .spec_push_index()
                && final(self).spec_tracker().spec_ack_index() == acked_index(
                    old(self).spec_tracker().spec_ack_index(),
                    old(self).spec_tracker().spec_push_index(),
                    n as nat,
                )
                && (final(self).spec_stalled_ticks() == if final(self).spec_tracker()
                    .spec_ack_index() > old(self).spec_tracker().spec_ack_index() {
                    0nat
                } else {
                    old(self).spec_stalled_ticks()
                })
                && (final(self).spec_phase() == if old(self).spec_phase() == SenderPhase::Draining
                    && final(self).spec_tracker().spec_ack_index() == final(self).spec_tracker()
                        .spec_push_index() {
                    SenderPhase::Closed
                } else {
                    old(self).spec_phase()
                })
                && final(self).spec_pending() == old(self).spec_pending()),
            final(self).spec_ack_timeout_ticks() == old(self).spec_ack_timeout_ticks(),
    {
        let before = self.tracker.ack_index();
        match self.tracker.record_ack(n) {
            Err(e) => {
                self.phase = SenderPhase::Closed;
                self.pending = None;
                Err(e)
            },
            Ok(()) => {
                if self.tracker.ack_index() > before {
                    self.stalled_ticks = 0;
                }
                if matches!(self.phase, SenderPhase::Draining) && self.tracker.window() == 0 {
                    self.phase = SenderPhase::Closed;
                }
                Ok(())
            },
        }
    }

    /// Takes in the end of a tick on which the sender was blocked on the
    /// peer. Waiting past the configured stall limit is a liveness failure:
    /// the stream aborts with `AckTimeout` rather than retrying forever.
    pub fn on_tick_elapsed(&mut self) -> (r: Result<(), TransportError>)
        requires
            old(self).wf(),
        ensures
            final(self).wf(),
            !old(self).spec_blocked() ==> (r matches Ok(())
                && final(self).spec_phase() == old(self).spec_phase()
                && final(self).spec_tracker() == old(self).spec_tracker()
                && final(self).spec_pending() == old(self).spec_pending()
                && final(self).spec_stalled_ticks() == 0),
            old(self).spec_blocked() && old(self).spec_stalled_ticks() < old(self)
                .spec_ack_timeout_ticks() ==> (r matches Ok(())
                && final(self).spec_phase() == old(self).spec_phase()
                && final(self).spec_tracker() == old(self).spec_tracker()
                && final(self).spec_pending() == old(self).spec_pending()
                && final(self).spec_stalled_ticks() == old(self).spec_stalled_ticks() + 1),
            old(self).spec_blocked() && old(self).spec_stalled_ticks() >= old(self)
                .spec_ack_timeout_ticks() ==> (r matches Err(e)
                && e == TransportError::AckTimeout
                && final(self).spec_phase() == SenderPhase::Closed),
            final(self).spec_ack_timeout_ticks() == old(self).spec_ack_timeout_ticks(),
    {
        let blocked = match self.phase {
            SenderPhase::Streaming => self.pending.is_some() || !self.tracker.can_push(),
            SenderPhase::Draining => true,
            _ => false,
        };
        if !blocked {
            self.stalled_ticks = 0;
            return Ok(());
        }
        if self.stalled_ticks >= self.ack_timeout_ticks {
            self.phase = SenderPhase::Closed;
            self.pending = None;
            return Err(TransportError::AckTimeout);
        }
        self.stalled_ticks = self.stalled_ticks + 1;
        Ok(())
    }

    /// Takes in a fatal source read error: the transfer aborts.
    pub fn on_source_error(&mut self) -> (e: TransportError)
        requires
            old(self).wf(),
        ensures
            final(self).wf(),
            final(self).spec_phase() == SenderPhase::Closed,
            e == TransportError::SourceReadFailed,
    {
        self.phase = SenderPhase::Closed;
        self.pending = None;
        TransportError::SourceReadFailed
    }

    /// Takes in the shutdown signal observed at a tick boundary: in-flight
    /// but unacknowledged chunks are abandoned, never replayed.
    pub fn on_shutdown(&mut self)
        requires
            old(self).wf(),
        ensures
            final(self).wf(),
            final(self).spec_phase() == SenderPhase::Closed,
    {
        self.phase = SenderPhase::Closed;
        self.pending = None;
    }

    /// The sender's lifecycle phase.
    pub fn phase(&self) -> (p: SenderPhase)
        ensures
            p == self.spec_phase(),
    {
        self.phase
    }

    /// True iff the stream is over.
    pub fn is_closed(&self) -> (r: bool)
        ensures
            r == (self.spec_phase() == SenderPhase::Closed),
    {
        matches!(self.phase, SenderPhase::Closed)
    }

    /// Chunks pushed so far.
    pub fn push_index(&self) -> (n: u64)
        ensures
            n == self.spec_tracker().spec_push_index(),
    {
        self.tracker.push_index()
    }

    /// Chunks acknowledged so far.
    pub fn ack_index(&self) -> (n: u64)
        ensures
            n == self.spec_tracker().spec_ack_index(),
    {
        self.tracker.ack_index()
    }
}

/// Backpressure correctness, first half: a sender whose credit window is
/// exhausted reads no new chunk, so it issues no new publish.
pub proof fn lemma_backpressure_no_new_publish(s: StreamingSender)
    requires
        s.wf(),
        !s.spec_tracker().spec_can_push(),
    ensures
        !s.spec_wants_read(),
{
}

/// Backpressure correctness, second half: with the window exhausted, an
/// acknowledgment reopens the window exactly when it acknowledges a chunk
/// not acknowledged before (and does not run ahead of the pushed count).
pub proof fn lemma_ack_reopens_window(a: nat, p: nat, n: nat)
    requires
        a <= p,
        p - a == QUEUE_CAPACITY,
    ensures
        p - acked_index(a, p, n) < QUEUE_CAPACITY <==> a < n <= p,
{
}

} // verus!
