//! Communication substrate of a PGAS runtime: the backend-agnostic transport
//! contracts (active-message dispatch, RDMA, barrier) and the request/response
//! correlation machinery that lets a caller issue a fan-out remote call and
//! later block for its typed results, delivered asynchronously and out of
//! order.

pub mod arch;
pub mod channel;
pub mod lamellae;
pub mod lamellar_request;
pub mod payload;
pub mod req_id;
pub mod shared;
