//! Request/response correlation: the matched pair of handles for one logical
//! call.  The runtime-internal `InternalReq` is registered with the
//! active-message execution layer under a unique id and receives 1..N byte
//! replies; the caller-facing `LamellarRequest` drains the shared delivery
//! channel, remaps origin PEs through the team architecture, decodes each
//! payload according to the call's convention, and blocks until everything
//! owed has arrived.

use vstd::prelude::*;
use std::sync::Arc;
use core::sync::atomic::{AtomicBool, AtomicUsize, Ordering};
use core::marker::PhantomData;
use crate::arch::LamellarArch;
use crate::channel::{reply_channel, recv_reply, send_reply};
use crate::payload::{decoded_reply, expect_decoded, payload_view, FromPayload};
use crate::req_id::IdCounter;
use crate::shared::{arc_clone, instant_now};

verus! {

/// The two calling conventions a reply can be decoded under.  They differ
/// only in how a decode failure is treated: as absence of a result
/// (`RegisteredFunction`) or as a fatal condition (`RemoteClosure`).
#[derive(Debug, PartialEq, Eq, Clone, Copy, Structural)]
pub enum AmType {
    RegisteredFunction,
    RemoteClosure,
}

/// What a convention admits as the returned decoding of one reply.  Under
/// the registered-function convention every payload yields exactly its
/// decoding, a failed decode looking the same as a legitimately absent
/// result.  Under the remote-closure convention a returned value also equals
/// the decoding, but a present payload that fails to decode admits no
/// returned value at all: the retrieving call aborts instead.
pub open spec fn reply_consistent<T: FromPayload>(
    am_type: AmType,
    data: Option<Seq<u8>>,
    r: Option<T>,
) -> bool {
    match am_type {
        AmType::RegisteredFunction => r == decoded_reply::<T>(data),
        AmType::RemoteClosure => r == decoded_reply::<T>(data) && (data is Some ==> r is Some),
    }
}

/// Law: decode-failure asymmetry.  For a payload that does not decode, the
/// registered-function convention returns an absent result and never aborts,
/// while the remote-closure convention admits no returned result whatsoever
/// — the retrieving call aborts rather than produce a value.
pub proof fn lemma_decode_failure_asymmetry<T: FromPayload>(bytes: Seq<u8>, r: Option<T>)
    requires
        T::decode_spec(bytes) is None,
    ensures
        reply_consistent::<T>(AmType::RegisteredFunction, Some(bytes), None::<T>),
        !reply_consistent::<T>(AmType::RemoteClosure, Some(bytes), r),
{
}

/// The producer-side state for one logical call, registered by id with the
/// active-message execution layer.  Each incoming reply decrements the
/// shared replies-remaining counter and is forwarded on the channel.
#[derive(Clone, Debug)]
pub struct InternalReq {
    /// Sending half of the delivery channel, keyed to
    /// `(origin_pe, payload_bytes)`.
    pub data_tx: crossbeam::channel::Sender<(usize, Option<Vec<u8>>)>,
    /// Shared replies-remaining counter, initialized to the number of target
    /// PEs.
    pub cnt: Arc<AtomicUsize>,
    /// Creation timestamp (diagnostics only).
    pub start: std::time::Instant,
    /// Expected payload size hint.
    pub size: usize,
    /// Shared "still wanted" flag; false once the consumer handle is gone.
    pub active: Arc<AtomicBool>,
    /// Outstanding-request counter at team granularity, shared across all
    /// live calls; incremented and decremented by the issuing layer for its
    /// quiescence protocol.
    pub team_outstanding_reqs: Arc<AtomicUsize>,
    /// Outstanding-request counter at whole-job granularity.
    pub world_outstanding_reqs: Arc<AtomicUsize>,
}

impl InternalReq {
    /// Deliver one incoming reply: decrement the shared replies-remaining
    /// counter and forward `(origin_pe, payload)` on the delivery channel,
    /// tagged with the sending PE's world id.
    pub fn enqueue_reply(&self, origin_pe: usize, payload: Option<Vec<u8>>) {
        self.cnt.fetch_sub(1, Ordering::SeqCst);
        send_reply(&self.data_tx, origin_pe, payload);
    }

    /// Whether the consumer handle still wants the results.  Advisory: the
    /// delivery side consults it to suppress unwanted local delivery.
    pub fn is_active(&self) -> bool {
        self.active.load(Ordering::SeqCst)
    }
}

/// The consumer-side handle for one logical call, returned to the caller.
pub struct LamellarRequest<T: FromPayload, A: LamellarArch> {
    id: usize,
    cnt: usize,
    data_rx: crossbeam::channel::Receiver<(usize, Option<Vec<u8>>)>,
    active: Arc<AtomicBool>,
    arch: A,
    am_type: AmType,
    _phantom: PhantomData<T>,
}

/// Whether a result slot holds only what some reply, delivered from an
/// origin that the architecture maps to this team-local index, decodes to
/// under the convention.  An untouched slot is absent.
pub open spec fn slot_consistent<T: FromPayload, A: LamellarArch>(
    arch: A,
    am_type: AmType,
    i: int,
    v: Option<T>,
) -> bool {
    v is None || exists|w: usize, d: Option<Seq<u8>>|
        #![trigger arch.team_pe_spec(w), reply_consistent::<T>(am_type, d, v)]
        arch.team_pe_spec(w) == Some(i as usize) && reply_consistent::<T>(am_type, d, v)
}

impl<T: FromPayload, A: LamellarArch> LamellarRequest<T, A> {
    /// This call's unique id.
    pub closed spec fn req_id(&self) -> usize {
        self.id
    }

    /// The number of target PEs, and so of replies owed.
    pub closed spec fn num_targets(&self) -> usize {
        self.cnt
    }

    /// The calling convention replies are decoded under.
    pub closed spec fn convention(&self) -> AmType {
        self.am_type
    }

    /// The team architecture used to remap origin PEs.
    pub closed spec fn arch_spec(&self) -> A {
        self.arch
    }

    /// The architecture addresses only team-local indices below the target
    /// count.  Fan-out retrieval places results by team-local index, so it
    /// relies on this.
    pub open spec fn arch_in_bounds(&self) -> bool {
        forall|w: usize|
            #[trigger] self.arch_spec().team_pe_spec(w) matches Some(i) ==> i < self.num_targets()
    }

    /// This call's unique id.
    pub fn id(&self) -> (r: usize)
        ensures
            r == self.req_id(),
    {
        self.id
    }

    /// Construct the matched pair of handles for a call with `num_pes`
    /// target PEs: the caller-facing request and the internal half that the
    /// execution layer registers under the fresh id.  The two share the
    /// delivery channel and the "still wanted" flag, which starts true.
    pub fn new(
        ids: &mut IdCounter,
        num_pes: usize,
        am_type: AmType,
        arch: A,
        team_outstanding_reqs: Arc<AtomicUsize>,
        world_outstanding_reqs: Arc<AtomicUsize>,
    ) -> (r: (LamellarRequest<T, A>, InternalReq))
        requires
            old(ids).wf(),
            old(ids).next_spec() < usize::MAX,
            num_pes >= 1,
        ensures
            final(ids).wf(),
            r.0.req_id() == old(ids).next_spec(),
            !old(ids).issued_ids().contains(r.0.req_id()),
            final(ids).issued_ids() == old(ids).issued_ids().insert(r.0.req_id()),
            r.0.num_targets() == num_pes,
            r.0.convention() == am_type,
            r.0.arch_spec() == arch,
            r.1.size == 0,
    {
        let active = Arc::new(AtomicBool::new(true));
        let (data_tx, data_rx) = reply_channel();
        let id = ids.next_id();
        let ireq = InternalReq {
            data_tx,
            cnt: Arc::new(AtomicUsize::new(num_pes)),
            start: instant_now(),
            size: 0,
            active: arc_clone(&active),
            team_outstanding_reqs,
            world_outstanding_reqs,
        };
        let req = LamellarRequest {
            id,
            cnt: num_pes,
            data_rx,
            active,
            arch,
            am_type,
            _phantom: PhantomData,
        };
        (req, ireq)
    }

    /// Retrieve the single owed result.  Valid when exactly one target PE
    /// was addressed.  Blocks on one channel receive and decodes the payload
    /// per the call's convention; the returned value is the decoding of the
    /// reply that arrived.
    pub fn get(&self) -> (r: Option<T>)
        requires
            self.num_targets() == 1,
        ensures
            exists|d: Option<Seq<u8>>| reply_consistent::<T>(self.convention(), d, r),
    {
        let (_pe, data) = recv_reply(&self.data_rx);
        let r = decode_reply::<T>(self.am_type, data);
        proof {
            assert(reply_consistent::<T>(self.convention(), payload_view(data), r));
        }
        r
    }

    /// Retrieve every owed result, one slot per team-local index, defaulting
    /// to absent.  For exactly one target this defers to `get`.  For more,
    /// it loops receiving until as many mappable replies as targets have
    /// been observed: each reply's origin is remapped through the team
    /// architecture and its decoding written at the team-local index,
    /// whatever the arrival order; a reply whose origin the architecture
    /// cannot map is not counted, and the wait continues — if such an origin
    /// can never be mapped, the call blocks forever on the next receive.
    /// (Only after `usize::MAX` consecutive uncounted deliveries, which no
    /// real execution produces, does the wait give up and return the slots
    /// filled so far.)  Duplicate delivery to the same slot silently
    /// overwrites.
    #[verifier::loop_isolation(false)]
    pub fn get_all(&self) -> (r: Vec<Option<T>>)
        requires
            self.num_targets() >= 1,
            self.arch_in_bounds(),
        ensures
            r@.len() == self.num_targets(),
            self.num_targets() == 1 ==> exists|d: Option<Seq<u8>>|
                reply_consistent::<T>(self.convention(), d, r@[0]),
            self.num_targets() > 1 ==> forall|i: int| 0 <= i < r@.len() ==>
                slot_consistent::<T, A>(self.arch_spec(), self.convention(), i, #[trigger] r@[i]),
    {
        let mut res: Vec<Option<T>> = Vec::new();
        let mut i: usize = 0;
        while i < self.cnt
            invariant
                i <= self.cnt,
                res@.len() == i,
                forall|j: int| 0 <= j < res@.len() ==> #[trigger] res@[j] is None,
            decreases self.cnt - i,
        {
            res.push(None);
            i = i + 1;
        }
        if self.cnt > 1 {
            let mut remaining: usize = self.cnt;
            let mut discard_budget: usize = usize::MAX;
            while remaining > 0 && discard_budget > 0
                invariant
                    remaining <= self.cnt,
                    res@.len() == self.cnt,
                    forall|j: int| 0 <= j < res@.len() ==>
                        slot_consistent::<T, A>(self.arch_spec(), self.convention(), j, #[trigger] res@[j]),
                decreases remaining, discard_budget,
            {
                let (pe, data) = recv_reply(&self.data_rx);
                let counted_before = remaining;
                let ghost prev = res@;
                accept_reply::<T, A>(&self.arch, self.am_type, &mut res, &mut remaining, pe, data);
                proof {
                    assert forall|j: int| 0 <= j < res@.len() implies
                        slot_consistent::<T, A>(self.arch_spec(), self.convention(), j, res@[j]) by {
                        if self.arch_spec().team_pe_spec(pe) matches Some(i) && j == i as int {
                            let d = payload_view(data);
                            let dv = decoded_reply::<T>(d);
                            assert(reply_consistent::<T>(self.convention(), d, dv));
                            assert(res@[j] == dv);
                        } else {
                            assert(res@[j] == prev[j]);
                        }
                    }
                }
                if remaining < counted_before {
                    discard_budget = usize::MAX;
                } else {
                    discard_budget = discard_budget - 1;
                }
            }
        } else {
            let v = self.get();
            res[0] = v;
        }
        res
    }
}

/// Decode one reply under a calling convention.  A missing payload is an
/// absent result; present bytes decode per the type's convention, a failure
/// counting as absence under `RegisteredFunction` and aborting under
/// `RemoteClosure`.
pub fn decode_reply<T: FromPayload>(am_type: AmType, data: Option<Vec<u8>>) -> (r: Option<T>)
    ensures
        reply_consistent::<T>(am_type, payload_view(data), r),
{
    match am_type {
        AmType::RegisteredFunction => {
            match data {
                Some(b) => T::from_payload(&b),
                None => None,
            }
        },
        AmType::RemoteClosure => {
            match data {
                Some(b) => {
                    let d = T::from_payload(&b);
                    Some(expect_decoded(d))
                },
                None => None,
            }
        },
    }
}

/// Process one received reply during fan-out retrieval.  An origin the
/// architecture maps has its decoding written at the team-local index and is
/// counted against the replies still owed; an origin it cannot map changes
/// nothing — the reply is discarded and not counted, which is why a target
/// whose origin can never be mapped stalls the call forever.
pub fn accept_reply<T: FromPayload, A: LamellarArch>(
    arch: &A,
    am_type: AmType,
    res: &mut Vec<Option<T>>,
    remaining: &mut usize,
    pe: usize,
    data: Option<Vec<u8>>,
)
    requires
        *old(remaining) >= 1,
        forall|w: usize| #[trigger] arch.team_pe_spec(w) matches Some(i) ==> i < old(res)@.len(),
    ensures
        final(res)@.len() == old(res)@.len(),
        match arch.team_pe_spec(pe) {
            None => final(res)@ == old(res)@ && *final(remaining) == *old(remaining),
            Some(i) => final(res)@ == old(res)@.update(
                i as int,
                decoded_reply::<T>(payload_view(data)),
            ) && *final(remaining) == *old(remaining) - 1 && (
            am_type == AmType::RemoteClosure && payload_view(data) is Some
                ==> decoded_reply::<T>(payload_view(data)) is Some),
        },
{
    match arch.team_pe_id(&pe) {
        Ok(idx) => {
            let v = decode_reply::<T>(am_type, data);
            res[idx] = v;
            *remaining = *remaining - 1;
        },
        Err(_) => {},
    }
}

impl<T: FromPayload, A: LamellarArch> Drop for LamellarRequest<T, A> {
    /// Discarding the consumer handle flips the shared "still wanted" flag
    /// to false, exactly once and never back: nothing ever stores true after
    /// construction.  Advisory only — it cancels nothing in flight.
    ///
    /// Relies on core::sync::atomic::AtomicBool::store, which neither panics
    /// nor unwinds.
    #[verifier::external_body]
    fn drop(&mut self)
        opens_invariants none
        no_unwind
    {
        self.active.store(false, Ordering::SeqCst);
    }
}

} // verus!
