use vstd::prelude::*;

use crate::channel::ChannelName;
use crate::errors::TransportError;

verus! {

/// Maximum length in bytes of a request or response payload.
pub const PAYLOAD_CAPACITY: usize = 65536;

/// Tag identifying a payload's encoding.
#[derive(Clone, Copy, Debug, PartialEq, Eq, Structural)]
pub enum Tag {
    /// Raw bytes.
    Bytes,
    /// CBOR-encoded payload.
    Cbor,
}

impl Tag {
    /// The integer code carried on the wire for this tag.
    pub open spec fn spec_code(self) -> u64 {
        match self {
            Tag::Bytes => 0,
            Tag::Cbor => 1,
        }
    }

    /// The integer code carried on the wire for this tag.
    pub fn code(self) -> (c: u64)
        ensures
            c == self.spec_code(),
    {
        match self {
            Tag::Bytes => 0,
            Tag::Cbor => 1,
        }
    }
}

/// A request: an encoding tag, an optional reply-channel name, and a
/// bounded payload. The reply channel is set by the initiator and consumed
/// by the responder to locate where to answer.
pub struct Request {
    /// Integer code of the payload encoding.
    pub tag: u64,
    /// Where the answer is to be published; never set on a response.
    pub reply_channel: Option<ChannelName>,
    /// The payload bytes.
    pub payload: Vec<u8>,
}

impl Request {
    /// A request is well formed when its payload fits the bound and its
    /// reply-channel name, if set, fits the name bound.
    pub open spec fn wf(&self) -> bool {
        &&& self.payload@.len() <= PAYLOAD_CAPACITY
        &&& self.reply_channel matches Some(n) ==> n.wf()
    }

    /// Builds the request an initiator publishes: the reply-channel name is
    /// embedded so the responder can locate where to answer. Fails with
    /// `CapacityExceeded` on an overlong payload.
    pub fn with_reply(tag: Tag, reply_channel: ChannelName, payload: Vec<u8>) -> (r: Result<
        Request,
        TransportError,
    >)
        requires
            reply_channel.wf(),
        ensures
            payload@.len() <= PAYLOAD_CAPACITY ==> (r matches Ok(q)
                && q.wf()
                && q.tag == tag.spec_code()
                && (q.reply_channel matches Some(n) && n@ == reply_channel@)
                && q.payload@ == payload@),
            payload@.len() > PAYLOAD_CAPACITY ==> (r matches Err(e)
                && e == TransportError::CapacityExceeded),
    {
        if payload.len() > PAYLOAD_CAPACITY {
            return Err(TransportError::CapacityExceeded);
        }
        Ok(Request { tag: tag.code(), reply_channel: Some(reply_channel), payload })
    }
}

/// A response: an encoding tag and a bounded payload. A response carries no
/// reply-channel name — the field does not exist here, so it is unset by
/// construction.
pub struct Response {
    /// Integer code of the payload encoding.
    pub tag: u64,
    /// The payload bytes.
    pub payload: Vec<u8>,
}

impl Response {
    /// A response is well formed when its payload fits the bound.
    pub open spec fn wf(&self) -> bool {
        self.payload@.len() <= PAYLOAD_CAPACITY
    }
}

/// The responder's decision for one received request: where to answer, and
/// with what. A request without a reply-channel name cannot be answered and
/// is rejected with `MissingReplyChannel`; otherwise exactly one response,
/// carrying the request's tag and the given payload, goes to exactly the
/// embedded reply channel.
pub fn respond(req: Request, reply_payload: Vec<u8>) -> (r: Result<
    (ChannelName, Response),
    TransportError,
>)
    requires
        req.wf(),
        reply_payload@.len() <= PAYLOAD_CAPACITY,
    ensures
        req.reply_channel is None ==> (r matches Err(e)
            && e == TransportError::MissingReplyChannel),
        req.reply_channel matches Some(n) ==> (r matches Ok(p)
            && p.0@ == n@
            && p.1.tag == req.tag
            && p.1.payload@ == reply_payload@
            && p.1.wf()),
{
    match req.reply_channel {
        None => Err(TransportError::MissingReplyChannel),
        Some(name) => Ok((name, Response { tag: req.tag, payload: reply_payload })),
    }
}

/// Optional protection against reply-channel reuse: a name already serving
/// an in-flight request must not be bound again. Reports
/// `ReplyChannelCollision` exactly when `name` is among `active`.
pub fn check_collision(active: &Vec<ChannelName>, name: &ChannelName) -> (r: Result<
    (),
    TransportError,
>)
    ensures
        r matches Ok(()) <==> (forall|i: int| 0 <= i < active@.len() ==> active@[i]@ != name@),
        r matches Err(e) ==> e == TransportError::ReplyChannelCollision,
{
    let mut i: usize = 0;
    while i < active.len()
        invariant
            i <= active@.len(),
            forall|k: int| 0 <= k < i ==> active@[k]@ != name@,
        decreases active@.len() - i,
    {
        if active[i].same_as(name) {
            return Err(TransportError::ReplyChannelCollision);
        }
        i += 1;
    }
    Ok(())
}

/// One initiator-side exchange: publish a request naming a reply channel,
/// then wait on that channel, tick by tick, for exactly one response. At
/// most one outstanding request per initiator at a time; retries are the
/// caller's affair.
pub struct RequestInitiator {
    elapsed_ticks: u64,
    timeout_ticks: u64,
}

impl RequestInitiator {
    /// Ticks already spent waiting.
    pub closed spec fn spec_elapsed_ticks(&self) -> nat {
        self.elapsed_ticks as nat
    }

    /// The configured wait limit, in ticks.
    pub closed spec fn spec_timeout_ticks(&self) -> nat {
        self.timeout_ticks as nat
    }

    /// The wait never runs past the limit.
    pub open spec fn wf(&self) -> bool {
        self.spec_elapsed_ticks() <= self.spec_timeout_ticks()
    }

    /// A fresh wait with the given limit, in ticks.
    pub fn new(timeout_ticks: u64) -> (r: RequestInitiator)
        ensures
            r.wf(),
            r.spec_elapsed_ticks() == 0,
            r.spec_timeout_ticks() == timeout_ticks,
    {
        RequestInitiator { elapsed_ticks: 0, timeout_ticks }
    }

    /// Takes in what one tick of waiting on the reply channel brought. A
    /// response completes the exchange at once; an empty poll spends one
    /// tick of the budget, and only a wait of the full `timeout_ticks`
    /// empty ticks fails with `NoResponse` — never before.
    pub fn on_poll(&mut self, received: Option<Response>) -> (r: Result<
        Option<Response>,
        TransportError,
    >)
        requires
            old(self).wf(),
        ensures
            final(self).wf(),
            final(self).spec_timeout_ticks() == old(self).spec_timeout_ticks(),
            received matches Some(resp) ==> (r matches Ok(got)
                && got == Some(resp)
                && final(self).spec_elapsed_ticks() == old(self).spec_elapsed_ticks()),
            received is None && old(self).spec_elapsed_ticks() < old(self).spec_timeout_ticks()
                ==> (r matches Ok(got)
                && got is None
                && final(self).spec_elapsed_ticks() == old(self).spec_elapsed_ticks() + 1),
            received is None && old(self).spec_elapsed_ticks() == old(self).spec_timeout_ticks()
                ==> (r matches Err(e)
                && e == TransportError::NoResponse
                && final(self).spec_elapsed_ticks() == old(self).spec_elapsed_ticks()),
    {
        match received {
            Some(resp) => Ok(Some(resp)),
            None => {
                if self.elapsed_ticks < self.timeout_ticks {
                    self.elapsed_ticks = self.elapsed_ticks + 1;
                    Ok(None)
                } else {
                    Err(TransportError::NoResponse)
                }
            },
        }
    }
}

/// Request/reply correctness, end to end: for a request that names a reply
/// channel, the responder's decision routes exactly one response — carrying
/// the request's tag and the answer payload — to exactly that channel, and
/// an initiator waiting there completes with that very response the moment
/// it is delivered, with no tick of its budget spent and never a timeout.
pub fn exchange(req: Request, reply_payload: Vec<u8>, init: &mut RequestInitiator) -> (r: Result<
    (ChannelName, Response),
    TransportError,
>)
    requires
        req.wf(),
        reply_payload@.len() <= PAYLOAD_CAPACITY,
        old(init).wf(),
    ensures
        final(init).wf(),
        req.reply_channel matches Some(n) ==> (r matches Ok(p)
            && p.0@ == n@
            && p.1.tag == req.tag
            && p.1.payload@ == reply_payload@
            && final(init).spec_elapsed_ticks() == old(init).spec_elapsed_ticks()),
        req.reply_channel is None ==> (r matches Err(e)
            && e == TransportError::MissingReplyChannel),
{
    let routed = match respond(req, reply_payload) {
        Ok(p) => p,
        Err(e) => {
            return Err(e);
        },
    };
    let (dest, resp) = routed;
    match init.on_poll(Some(resp)) {
        Ok(Some(got)) => Ok((dest, got)),
        _ => Err(TransportError::NoResponse),
    }
}

} // verus!
