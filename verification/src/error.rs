//! Closure argument error types.

use typedef::TypeDef;
use vstd::prelude::*;

verus! {

/// Specified argument count does not match metafactory argument count.
#[derive(Clone, Copy)]
pub struct ArgCountMismatch {
    pub expected: usize,
    pub specified: usize,
}

/// Argument type did not match expected type.
#[derive(Clone, Copy)]
pub struct ArgTypeMismatch {
    pub expected_type: TypeDef,
    pub argument_index: usize,
}

impl ArgCountMismatch {
    /// Convenience method for creating new `ArgCountMismatch`.
    pub fn new(expected: usize, specified: usize) -> (r: ArgCountMismatch)
        ensures
            r == (ArgCountMismatch { expected, specified }),
    {
        ArgCountMismatch { expected, specified }
    }
}

impl ArgTypeMismatch {
    /// Convenience method for creating new `ArgTypeMismatch`.
    pub fn new(expected_type: TypeDef, argument_index: usize) -> (r: ArgTypeMismatch)
        ensures
            r == (ArgTypeMismatch { expected_type, argument_index }),
    {
        ArgTypeMismatch { expected_type, argument_index }
    }
}

/// Getter creation error types.
#[derive(Clone, Copy)]
pub enum FactoryErrorKind {
    /// Incorrect number of arguments.
    ArgCountMismatch(ArgCountMismatch),
    /// Incorrect argument type.
    ArgTypeMismatch(ArgTypeMismatch),
}

} // verus!
