//! The non-named container kind plastered over for this host: the embedded
//! one.

use vstd::prelude::*;

verus! {

/// The host serves an embedded semaphore primitive, so the plastered
/// container is the embedded container.
pub type Semaphore = crate::unnamed::Semaphore;

} // verus!
