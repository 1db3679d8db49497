//! Trusted boundary for the shared-ownership and clock primitives the
//! correlation machinery leans on: cloning a shared handle, and reading the
//! monotonic clock for the diagnostic creation timestamp.

use vstd::prelude::*;
use std::sync::Arc;

verus! {

/// Relies on the standard library's `Clone` for `Arc`: the clone is a new
/// handle to the same shared allocation, so in specifications it carries the
/// same value.
#[verifier::external_body]
pub(crate) fn arc_clone<T>(v: &Arc<T>) -> (r: Arc<T>)
    ensures
        r == *v,
{
    Arc::clone(v)
}

#[verifier::external_type_specification]
#[verifier::external_body]
pub struct ExInstant(std::time::Instant);

/// Relies on std::time::Instant's derived `Clone`: `Instant` is `Copy`, so
/// the clone is the same value.
pub assume_specification[ <std::time::Instant as Clone>::clone ](
    v: &std::time::Instant,
) -> (r: std::time::Instant)
    ensures
        r == *v,
;

/// Relies on std::time::Instant::now: a reading of the monotonic clock.
/// Nothing is promised of the value; it serves diagnostics only.
#[verifier::external_body]
pub(crate) fn instant_now() -> std::time::Instant {
    std::time::Instant::now()
}

} // verus!
