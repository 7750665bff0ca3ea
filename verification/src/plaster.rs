//! The "plaster" over platform differences: the non-named semaphore kind a
//! host is expected to serve best.  On hosts with an embedded primitive
//! that is the embedded container.

use vstd::prelude::*;

pub mod non_named;

verus! {

} // verus!
