//! Metafactory construction from closures.
//!
//! A closure is kept behind `Rc` and shared by the units that are built of
//! it: it is invoked through a shared reference, so it has to be an `Fn`.

use core::marker::PhantomData;
use vstd::prelude::*;

pub mod manyarg;
pub mod zeroarg;

verus! {

/// The shape of a source that is a closure: `Args` is the tuple of its
/// argument types, `T` the type that it returns.
pub struct FromClosure<Args, T> {
    marker: PhantomData<(Args, T)>,
}

} // verus!
