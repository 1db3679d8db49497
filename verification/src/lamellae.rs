//! Transport abstraction: the backend selector and the three capability
//! contracts (`Lamellae`, `LamellaeAM`, `LamellaeRDMA`) that every concrete
//! transport must satisfy.  Concrete transports live outside this crate; the
//! traits here are the polymorphic surface they plug into.

use vstd::prelude::*;
use std::sync::Arc;
use crate::arch::LamellarArch;

verus! {

/// Closed enumeration of transport kinds.  A loopback/local kind is always
/// available; hardware-backed kinds are supplied by external transport
/// crates and none is compiled into this library.
#[derive(Debug, PartialEq, Eq, PartialOrd, Ord, Hash, Clone, Copy, Structural)]
pub enum Backend {
    Local,
}

/// The backend chosen when none is explicitly requested: the highest-capability
/// transport compiled into the binary.  With no hardware transport present,
/// that is the loopback transport.
pub fn default_backend() -> (r: Backend)
    ensures
        r == Backend::Local,
{
    Backend::Local
}

impl Default for Backend {
    fn default() -> (r: Self)
        ensures
            r == Backend::Local,
    {
        default_backend()
    }
}

/// Active-message send primitives of a transport.  All sends are asynchronous
/// from the caller's point of view: they enqueue/send and return without
/// waiting for remote execution.  Payloads are opaque byte sequences; the
/// transport does not interpret them.
///
/// Self-delivery is short-circuited one layer above (in the active-message
/// execution layer) and must never reach the transport: every send requires a
/// target other than the local PE.
pub trait LamellaeAM: Send + Sync {
    /// The local PE's rank, as established during transport initialization.
    spec fn my_pe_spec(&self) -> usize;

    /// Deliver `data` to exactly one remote PE.
    fn send_to_pe(&self, pe: usize, data: Vec<u8>)
        requires
            pe != self.my_pe_spec(),
    ;

    /// Deliver `data` to every PE except self.
    fn send_to_all(&self, data: Vec<u8>);

    /// Deliver `data` either to one PE (when `pe` is set) or to every PE of
    /// the given team subset, excluding self.
    fn send_to_pes<A: LamellarArch>(&self, pe: Option<usize>, team: &A, data: Vec<u8>)
        requires
            pe matches Some(p) ==> p != self.my_pe_spec(),
    ;

    /// An active-message-mediated synchronization primitive, for transports
    /// whose hardware offers no native barrier.  Blocks until every PE has
    /// reached it.
    fn barrier(&self);

    /// Self-identification.
    fn backend(&self) -> Backend;
}

/// One-sided memory primitives of a transport, against the globally
/// addressable heap.
pub trait LamellaeRDMA: Send + Sync {
    /// Blocking put: copy `src` into the remote PE's region at `dst`,
    /// complete on return.
    fn put(&self, pe: usize, src: &[u8], dst: usize);

    /// Non-blocking put: initiation only, may return before remote
    /// completion is guaranteed.
    fn iput(&self, pe: usize, src: &[u8], dst: usize);

    /// Broadcast the same put to every PE.
    fn put_all(&self, src: &[u8], dst: usize);

    /// Copy bytes from the remote PE's region at `src` into `dst`, blocking
    /// until the data has arrived.
    fn get(&self, pe: usize, src: usize, dst: &mut [u8]);

    /// Reserve `size` bytes in the shared addressable space; `None` on
    /// exhaustion.
    fn allocate(&self, size: usize) -> Option<usize>;

    /// Release a previously allocated region.  Using `addr` again after
    /// `free` is undefined behavior.
    fn free(&self, addr: usize);

    /// The local process's base offset into the shared address space.
    fn base_addr(&self) -> usize;

    /// This process's rank, as established during initialization.
    fn mype(&self) -> usize;
}

/// Lifecycle, accessors, global barrier and statistics of a transport.
/// Ownership of the endpoint objects is shared and thread-safe: many caller
/// threads dispatch concurrently.
pub trait Lamellae: Send + Sync {
    /// The concrete active-message endpoint of this transport.
    type Am: LamellaeAM;
    /// The concrete RDMA endpoint of this transport.
    type Rdma: LamellaeRDMA;

    /// One-time collective setup; must be called exactly once before any
    /// other operation.  Returns `(my_pe_id, num_pes)`.
    fn init(&mut self) -> (usize, usize);

    /// One-time collective teardown; must be invoked before process exit to
    /// avoid resource leaks in hardware transports.
    fn finit(&self);

    /// Shared handle to the active-message endpoint.
    fn get_am(&self) -> Arc<Self::Am>;

    /// Shared handle to the RDMA endpoint.
    fn get_rdma(&self) -> Arc<Self::Rdma>;

    /// Global barrier, using a hardware collective where available.  All PEs
    /// must call it the same number of times in the same order relative to
    /// other collective operations.
    fn barrier(&self);

    /// Self-identification.
    fn backend(&self) -> Backend;

    /// Observability: how many bytes this transport has sent.
    fn bytes_sent(&self) -> usize;

    /// Observability: report transport statistics.
    fn print_stats(&self);
}

} // verus!
