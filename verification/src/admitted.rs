//! The seal on the types that a unit can produce.

use vstd::prelude::*;

verus! {

/// Only a type that has this mark can be given a shape. The trait cannot be
/// named outside this crate, so the types that have it are all here.
pub trait Admitted {
}

} // verus!
