//! Status codes of the host engine: the two-valued result domain that every
//! fallible provider operation returns.

use vstd::prelude::*;

verus! {

/// Returned by every fallible provider operation on success.
pub const SQLITE_OK: i32 = 0;

/// Returned by every fallible provider operation on failure; no richer
/// detail crosses the boundary.
pub const SQLITE_ERROR: i32 = 1;

} // verus!
