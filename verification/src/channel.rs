use vstd::prelude::*;

use crate::errors::TransportError;

verus! {

/// Maximum length in bytes of a channel name.
pub const TEXT_CAPACITY: usize = 512;

/// The suffix that derives an acknowledgment channel's name from the data
/// channel's name: the bytes of `"-ack"`.
pub open spec fn ack_suffix() -> Seq<u8> {
    seq![45u8, 97u8, 99u8, 107u8]
}

/// A channel name: a byte string bounded to `TEXT_CAPACITY` bytes. The name
/// itself is the address; there is no registry.
pub struct ChannelName {
    bytes: Vec<u8>,
}

impl View for ChannelName {
    type V = Seq<u8>;

    closed spec fn view(&self) -> Seq<u8> {
        self.bytes@
    }
}

impl ChannelName {
    /// A name is well formed when it fits the fixed maximum length.
    pub open spec fn wf(&self) -> bool {
        self@.len() <= TEXT_CAPACITY
    }

    /// Validates a caller-supplied name against the maximum length.
    pub fn from_bytes(bytes: Vec<u8>) -> (r: Result<ChannelName, TransportError>)
        ensures
            bytes@.len() <= TEXT_CAPACITY ==> (r matches Ok(n) && n@ == bytes@),
            bytes@.len() > TEXT_CAPACITY ==> (r matches Err(e)
                && e == TransportError::CapacityExceeded),
    {
        if bytes.len() > TEXT_CAPACITY {
            return Err(TransportError::CapacityExceeded);
        }
        Ok(ChannelName { bytes })
    }

    /// The name's bytes.
    pub fn as_bytes(&self) -> (r: &Vec<u8>)
        ensures
            r@ == self@,
    {
        &self.bytes
    }

    /// The name's length in bytes.
    pub fn len(&self) -> (n: usize)
        ensures
            n == self@.len(),
    {
        self.bytes.len()
    }

    /// An owned copy of the name.
    pub fn duplicate(&self) -> (r: ChannelName)
        ensures
            r@ == self@,
    {
        let mut bytes: Vec<u8> = Vec::new();
        let mut i: usize = 0;
        while i < self.bytes.len()
            invariant
                i <= self.bytes@.len(),
                bytes@ == self.bytes@.subrange(0, i as int),
            decreases self.bytes@.len() - i,
        {
            bytes.push(self.bytes[i]);
            i += 1;
            proof {
                assert(bytes@ =~= self.bytes@.subrange(0, i as int));
            }
        }
        proof {
            assert(bytes@ =~= self.bytes@);
        }
        ChannelName { bytes }
    }

    /// Whether two names address the same channel.
    pub fn same_as(&self, other: &ChannelName) -> (r: bool)
        ensures
            r == (self@ == other@),
    {
        if self.bytes.len() != other.bytes.len() {
            proof {
                assert(self@ != other@);
            }
            return false;
        }
        let mut i: usize = 0;
        while i < self.bytes.len()
            invariant
                i <= self.bytes@.len(),
                self.bytes@.len() == other.bytes@.len(),
                forall|k: int| 0 <= k < i ==> self.bytes@[k] == other.bytes@[k],
            decreases self.bytes@.len() - i,
        {
            if self.bytes[i] != other.bytes[i] {
                proof {
                    assert(self@[i as int] != other@[i as int]);
                }
                return false;
            }
            i += 1;
        }
        proof {
            assert(self@ =~= other@);
        }
        true
    }

    /// The derived name of the acknowledgment channel that belongs to this
    /// data channel: the name with `"-ack"` appended. Fails when the derived
    /// name would no longer fit.
    pub fn ack_channel_name(&self) -> (r: Result<ChannelName, TransportError>)
        ensures
            self@.len() + 4 <= TEXT_CAPACITY ==> (r matches Ok(n)
                && n@ == self@.add(ack_suffix())),
            self@.len() + 4 > TEXT_CAPACITY ==> (r matches Err(e)
                && e == TransportError::CapacityExceeded),
    {
        if self.bytes.len() > TEXT_CAPACITY - 4 {
            return Err(TransportError::CapacityExceeded);
        }
        let mut bytes = self.duplicate().bytes;
        bytes.push(45u8);
        bytes.push(97u8);
        bytes.push(99u8);
        bytes.push(107u8);
        proof {
            assert(bytes@ =~= self@.add(ack_suffix()));
        }
        Ok(ChannelName { bytes })
    }
}

/// A capacity-bounded, one-directional FIFO link between a publisher and a
/// subscriber: the behavioural model of one channel that the protocol cores
/// are exercised against. A non-blocking publish into a full buffer reports
/// `Backpressure`; a poll is non-blocking and hands messages out in publish
/// order.
pub struct BoundedChannel<T> {
    queue: Vec<T>,
    capacity: usize,
}

impl<T> BoundedChannel<T> {
    /// The messages in flight, oldest first.
    pub closed spec fn spec_queue(&self) -> Seq<T> {
        self.queue@
    }

    /// The most messages the link may hold at once.
    pub closed spec fn spec_capacity(&self) -> nat {
        self.capacity as nat
    }

    /// The buffer never holds more than its capacity.
    pub open spec fn wf(&self) -> bool {
        self.spec_queue().len() <= self.spec_capacity()
    }

    /// An empty link with the given capacity.
    pub fn new(capacity: usize) -> (r: BoundedChannel<T>)
        ensures
            r.wf(),
            r.spec_queue().len() == 0,
            r.spec_capacity() == capacity,
    {
        BoundedChannel { queue: Vec::new(), capacity }
    }

    /// The number of messages in flight.
    pub fn len(&self) -> (n: usize)
        ensures
            n == self.spec_queue().len(),
    {
        self.queue.len()
    }

    /// Publishes one message: appended in order when the buffer has room,
    /// refused with `Backpressure` — to be retried by the caller — when it
    /// is full.
    pub fn publish(&mut self, value: T) -> (r: Result<(), TransportError>)
        requires
            old(self).wf(),
        ensures
            final(self).wf(),
            final(self).spec_capacity() == old(self).spec_capacity(),
            old(self).spec_queue().len() < old(self).spec_capacity() ==> (r matches Ok(())
                && final(self).spec_queue() == old(self).spec_queue().push(value)),
            old(self).spec_queue().len() == old(self).spec_capacity() ==> (r matches Err(e)
                && e == TransportError::Backpressure
                && final(self).spec_queue() == old(self).spec_queue()),
    {
        if self.queue.len() >= self.capacity {
            return Err(TransportError::Backpressure);
        }
        self.queue.push(value);
        Ok(())
    }

    /// Polls for the oldest message without blocking: `None` when nothing
    /// is in flight. Messages come out in exactly the order they went in.
    pub fn poll(&mut self) -> (r: Option<T>)
        requires
            old(self).wf(),
        ensures
            final(self).wf(),
            final(self).spec_capacity() == old(self).spec_capacity(),
            old(self).spec_queue().len() == 0 ==> (r is None
                && final(self).spec_queue() == old(self).spec_queue()),
            old(self).spec_queue().len() > 0 ==> (r matches Some(v)
                && v == old(self).spec_queue()[0]
                && final(self).spec_queue() == old(self).spec_queue().subrange(
                    1,
                    old(self).spec_queue().len() as int,
                )),
    {
        if self.queue.len() == 0 {
            return None;
        }
        Some(self.queue.remove(0))
    }
}

/// The agreed shape of a channel: its name and the cardinality limits both
/// endpoints must share before the link is usable.
pub struct ChannelBinding {
    /// The channel's address.
    pub name: ChannelName,
    /// Maximum number of publishing endpoints.
    pub max_producers: u64,
    /// Maximum number of subscribing endpoints.
    pub max_consumers: u64,
}

/// Whether two bindings of one name agree: open-or-create succeeds exactly
/// when the cardinality limits are identical.
pub open spec fn bindings_compatible(a: ChannelBinding, b: ChannelBinding) -> bool {
    a.max_producers == b.max_producers && a.max_consumers == b.max_consumers
}

/// Open-or-create semantics for a channel binding: attaching where nothing
/// exists creates; repeated binds with identical limits succeed; binds with
/// conflicting limits fail with `IncompatibleBinding`.
pub fn check_binding(existing: Option<&ChannelBinding>, requested: &ChannelBinding) -> (r: Result<
    (),
    TransportError,
>)
    ensures
        existing matches Some(b) ==> (r matches Ok(())
            <==> bindings_compatible(*b, *requested)),
        existing is None ==> r matches Ok(()),
        r matches Err(e) ==> e == TransportError::IncompatibleBinding,
{
    match existing {
        None => Ok(()),
        Some(b) => {
            if b.max_producers == requested.max_producers
                && b.max_consumers == requested.max_consumers {
                Ok(())
            } else {
                Err(TransportError::IncompatibleBinding)
            }
        },
    }
}

} // verus!
