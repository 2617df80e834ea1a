//! Instants as the service reports them.

use vstd::prelude::*;

verus! {

/// A point in time, counted in milliseconds since the Unix epoch (UTC).
/// Comment listings are ordered by increasing timestamp, so ordering on
/// this type mirrors the service's ordering.
#[derive(Clone, Copy, PartialEq, Eq, Structural)]
pub struct Timestamp(pub i64);

} // verus!
