//! The rendezvous of the engine's thread with a remote handler: one request
//! goes out under a fresh identifier, the thread blocks, and the one reply
//! that comes back is taken only if it echoes that identifier.

use vstd::prelude::*;
use core::marker::PhantomData;
use std::sync::mpsc;
use crate::channel::wait_next;

verus! {

/// A request on its way to the remote handler.
pub struct RequestEnvelope<Q> {
    pub id: u64,
    pub payload: Q,
}

/// A reply on its way back from the remote handler.
pub struct ReplyEnvelope<R> {
    pub id: u64,
    pub payload: R,
}

/// Why a request brought no reply.
#[derive(Clone, Copy, Debug, PartialEq, Eq, Structural)]
pub enum RequestError {
    /// The remote handler is gone: the request could not be handed over, or
    /// the reply queue lost its last sender.
    Disconnected,
    /// The reply that came answers another request. The exchange is broken
    /// beyond repair, and whoever sees this must stop.
    ProtocolViolation { expected: u64, received: u64 },
}

impl RequestError {
    /// Whether nothing but stopping is left to do.
    pub open spec fn fatal(self) -> bool {
        self is ProtocolViolation
    }

    /// Says whether nothing but stopping is left to do.
    pub fn is_fatal(&self) -> (fatal: bool)
        ensures
            fatal == self.fatal(),
    {
        match self {
            RequestError::Disconnected => false,
            RequestError::ProtocolViolation { .. } => true,
        }
    }
}

/// The identifier that follows `id`. Identifiers are the numbers of a
/// 64-bit counter, which starts over from zero after its last value.
pub open spec fn id_after(id: u64) -> u64 {
    if id == u64::MAX {
        0
    } else {
        (id + 1) as u64
    }
}

/// Computes [`id_after`].
pub fn next_id(id: u64) -> (next: u64)
    ensures
        next == id_after(id),
{
    id.wrapping_add(1)
}

/// What the request with identifier `id` comes to when `reply` is what the
/// reply queue gave: the payload of a reply that echoes `id`, a violation
/// for any other reply, a disconnection where the queue gave none.
pub open spec fn accepted<R>(id: u64, reply: Option<ReplyEnvelope<R>>) -> Result<R, RequestError> {
    match reply {
        None => Err(RequestError::Disconnected),
        Some(envelope) => if envelope.id == id {
            Ok(envelope.payload)
        } else {
            Err(RequestError::ProtocolViolation { expected: id, received: envelope.id })
        },
    }
}

/// Computes [`accepted`].
pub fn accept<R>(id: u64, reply: Option<ReplyEnvelope<R>>) -> (answer: Result<R, RequestError>)
    ensures
        answer == accepted(id, reply),
{
    match reply {
        None => Err(RequestError::Disconnected),
        Some(envelope) => if envelope.id == id {
            Ok(envelope.payload)
        } else {
            Err(RequestError::ProtocolViolation { expected: id, received: envelope.id })
        },
    }
}

/// What the request with identifier `id` comes to: a disconnection where
/// the handler did not take it, else [`accepted`] of the reply.
pub open spec fn exchanged<R>(id: u64, taken: bool, reply: Option<ReplyEnvelope<R>>) -> Result<
    R,
    RequestError,
> {
    if taken {
        accepted(id, reply)
    } else {
        Err(RequestError::Disconnected)
    }
}

/// The two ends that a rendezvous is built from and taken apart into.
#[verifier::reject_recursive_types(R)]
pub struct VideoExtensionParameters<S, R> {
    pub outbound: S,
    pub inbound: mpsc::Receiver<ReplyEnvelope<R>>,
}

/// Sends requests to a remote handler and waits for each reply.
///
/// `outbound` hands a request to the handler and says whether the handler
/// took it; `inbound` is the queue on which the handler replies.
#[verifier::reject_recursive_types(R)]
pub struct RequestManager<S: Fn(RequestEnvelope<Q>) -> bool, Q, R> {
    uid_counter: u64,
    outbound: S,
    inbound: mpsc::Receiver<ReplyEnvelope<R>>,
    request: PhantomData<Q>,
}

impl<S: Fn(RequestEnvelope<Q>) -> bool, Q, R> RequestManager<S, Q, R> {
    /// The handler may be handed any request.
    #[verifier::type_invariant]
    spec fn handler_takes_every_request(self) -> bool {
        forall|envelope: RequestEnvelope<Q>| call_requires(self.outbound, (envelope,))
    }

    /// The identifier that the next request gets.
    pub closed spec fn next_id(&self) -> u64 {
        self.uid_counter
    }

    /// The function that hands a request to the handler.
    pub closed spec fn outbound(&self) -> S {
        self.outbound
    }

    /// The queue on which the handler replies.
    pub closed spec fn inbound(&self) -> mpsc::Receiver<ReplyEnvelope<R>> {
        self.inbound
    }

    /// A rendezvous over the two ends, whose first request gets identifier
    /// zero.
    pub fn new(outbound: S, inbound: mpsc::Receiver<ReplyEnvelope<R>>) -> (manager: Self)
        requires
            forall|envelope: RequestEnvelope<Q>| call_requires(outbound, (envelope,)),
        ensures
            manager.next_id() == 0,
            manager.outbound() == outbound,
            manager.inbound() == inbound,
    {
        Self { uid_counter: 0, outbound, inbound, request: PhantomData }
    }

    /// Returns the identifier that the next request gets.
    pub fn peek_id(&self) -> (id: u64)
        ensures
            id == self.next_id(),
    {
        self.uid_counter
    }

    /// Sends `req` under the next identifier and blocks until the reply
    /// queue gives an answer or is disconnected.
    ///
    /// The identifier is used up whatever happens. `taken` stands for what
    /// the handler said of the request and `reply` for what the queue gave;
    /// the queue is not asked where the handler did not take the request.
    pub fn request(&mut self, req: Q) -> (answer: Result<R, RequestError>)
        ensures
            final(self).next_id() == id_after(old(self).next_id()),
            final(self).outbound() == old(self).outbound(),
            final(self).inbound() == old(self).inbound(),
            exists|taken: bool, reply: Option<ReplyEnvelope<R>>|
                {
                    &&& call_ensures(
                        old(self).outbound(),
                        (RequestEnvelope { id: old(self).next_id(), payload: req },),
                        taken,
                    )
                    &&& answer == #[trigger] exchanged(old(self).next_id(), taken, reply)
                },
    {
        proof {
            use_type_invariant(&*self);
        }
        let id = self.uid_counter;
        self.uid_counter = next_id(id);
        let taken = (self.outbound)(RequestEnvelope { id, payload: req });
        assert(call_ensures(
            old(self).outbound(),
            (RequestEnvelope { id: old(self).next_id(), payload: req },),
            taken,
        ));
        if taken {
            let reply = match wait_next(&self.inbound) {
                Ok(envelope) => Some(envelope),
                Err(_) => None,
            };
            let answer = accept(id, reply);
            assert(answer == exchanged(id, taken, reply));
            answer
        } else {
            assert(Err::<R, RequestError>(RequestError::Disconnected) == exchanged::<R>(
                id,
                taken,
                None,
            ));
            Err(RequestError::Disconnected)
        }
    }

    /// Takes the rendezvous apart into its two ends.
    pub fn cleanup(self) -> (ends: VideoExtensionParameters<S, R>)
        ensures
            ends.outbound == self.outbound(),
            ends.inbound == self.inbound(),
    {
        VideoExtensionParameters { outbound: self.outbound, inbound: self.inbound }
    }
}

/// The identifier of the request that follows `count` requests after the
/// one with identifier `first`.
pub open spec fn nth_id(first: u64, count: nat) -> u64
    decreases count,
{
    if count == 0 {
        first
    } else {
        id_after(nth_id(first, (count - 1) as nat))
    }
}

/// As long as the counter has not run through all its values, the
/// identifiers of requests that follow one another count up by one, so a
/// later request has the greater identifier.
pub proof fn law_ids_increase(first: u64, earlier: nat, later: nat)
    requires
        earlier < later,
        first + later <= u64::MAX,
    ensures
        nth_id(first, earlier) == first + earlier,
        nth_id(first, later) == first + later,
        nth_id(first, earlier) < nth_id(first, later),
{
    lemma_nth_id_counts(first, earlier);
    lemma_nth_id_counts(first, later);
}

proof fn lemma_nth_id_counts(first: u64, count: nat)
    requires
        first + count <= u64::MAX,
    ensures
        nth_id(first, count) == first + count,
    decreases count,
{
    if count > 0 {
        lemma_nth_id_counts(first, (count - 1) as nat);
    }
}

/// A request that the handler took and answered under the request's own
/// identifier brings the payload of that reply.
pub proof fn law_echoed_reply_is_the_answer<R>(first: u64, count: nat, payload: R)
    ensures
        exchanged(
            nth_id(first, count),
            true,
            Some(ReplyEnvelope { id: nth_id(first, count), payload }),
        ) == Ok::<R, RequestError>(payload),
{
}

/// A reply under any identifier but that of the request is never taken for
/// the answer: it is a violation, which is fatal, and names both
/// identifiers.
pub proof fn law_foreign_reply_is_fatal<R>(id: u64, reply: ReplyEnvelope<R>)
    requires
        reply.id != id,
    ensures
        accepted(id, Some(reply)) == Err::<R, RequestError>(
            RequestError::ProtocolViolation { expected: id, received: reply.id },
        ),
        accepted(id, Some(reply)) matches Err(error) && error.fatal(),
{
}

} // verus!
