//! The rules by which supplied argument units are held against the argument
//! types that a constructor expects.
//!
//! The count is compared first. Then the units are taken from left to right,
//! and the first one that produces another type than the expected one is
//! reported: nothing is said of the units behind it.

use crate::error::{ArgCountMismatch, ArgTypeMismatch, FactoryErrorKind};
use crate::factory::{AnyFactory, AsFactoryExt, Erased, Factory};
use crate::identity::{descriptor, identity_of, type_def_of, Reflect, TypeShape};
use vstd::prelude::*;

verus! {

/// The units that a sequence of arguments holds, in order.
pub open spec fn units(args: Seq<AnyFactory>) -> Seq<Erased> {
    args.map_values(|a: AnyFactory| a@)
}

/// Whether the unit at position `i` produces the type expected there.
pub open spec fn matches_at(expected: Seq<TypeShape>, given: Seq<Erased>, i: int) -> bool {
    given[i].shape() == expected[i]
}

/// The first position, from `start` on, whose unit does not produce the
/// expected type; the number of expected types where there is none.
pub open spec fn first_mismatch_from(expected: Seq<TypeShape>, given: Seq<Erased>, start: int) -> int
    decreases expected.len() - start,
{
    if start < 0 || start >= expected.len() {
        expected.len() as int
    } else if !matches_at(expected, given, start) {
        start
    } else {
        first_mismatch_from(expected, given, start + 1)
    }
}

/// The first position whose unit does not produce the expected type; the
/// number of expected types where all units fit.
pub open spec fn first_mismatch(expected: Seq<TypeShape>, given: Seq<Erased>) -> int {
    first_mismatch_from(expected, given, 0)
}

/// The error that the given units meet against the expected types, if any.
pub open spec fn instantiation_error(expected: Seq<TypeShape>, given: Seq<Erased>) -> Option<
    FactoryErrorKind,
> {
    if given.len() != expected.len() {
        Some(
            FactoryErrorKind::ArgCountMismatch(
                ArgCountMismatch {
                    expected: expected.len() as usize,
                    specified: given.len() as usize,
                },
            ),
        )
    } else if first_mismatch(expected, given) < expected.len() {
        Some(
            FactoryErrorKind::ArgTypeMismatch(
                ArgTypeMismatch {
                    expected_type: descriptor(expected[first_mismatch(expected, given)]),
                    argument_index: first_mismatch(expected, given) as usize,
                },
            ),
        )
    } else {
        None
    }
}

/// `n` times the same expected type.
pub open spec fn uniform(element: TypeShape, n: nat) -> Seq<TypeShape> {
    Seq::new(n, |i: int| element)
}

/// The first mismatch from `start` on lies between `start` and the end, all
/// units from `start` up to it fit, and the unit at it does not.
pub proof fn lemma_first_mismatch_from(expected: Seq<TypeShape>, given: Seq<Erased>, start: int)
    requires
        0 <= start <= expected.len(),
    ensures
        start <= first_mismatch_from(expected, given, start) <= expected.len(),
        forall|j: int|
            start <= j < first_mismatch_from(expected, given, start) ==> matches_at(
                expected,
                given,
                j,
            ),
        first_mismatch_from(expected, given, start) < expected.len() ==> !matches_at(
            expected,
            given,
            first_mismatch_from(expected, given, start),
        ),
    decreases expected.len() - start,
{
    if start < expected.len() && matches_at(expected, given, start) {
        lemma_first_mismatch_from(expected, given, start + 1);
    }
}

/// Where the units before position `i` fit and the unit at `i` does not, `i`
/// is the first mismatch.
pub proof fn lemma_first_mismatch_is(expected: Seq<TypeShape>, given: Seq<Erased>, i: int)
    requires
        0 <= i < expected.len(),
        forall|j: int| 0 <= j < i ==> matches_at(expected, given, j),
        !matches_at(expected, given, i),
    ensures
        first_mismatch(expected, given) == i,
{
    lemma_first_mismatch_from(expected, given, 0);
}

/// Where all units fit, there is no mismatch.
pub proof fn lemma_no_mismatch(expected: Seq<TypeShape>, given: Seq<Erased>)
    requires
        forall|j: int| 0 <= j < expected.len() ==> matches_at(expected, given, j),
    ensures
        first_mismatch(expected, given) == expected.len(),
{
    lemma_first_mismatch_from(expected, given, 0);
}

/// Another number of units than the number of expected types is an
/// `ArgCountMismatch` that names both numbers, whatever the units are.
pub proof fn lemma_count_mismatch(expected: Seq<TypeShape>, given: Seq<Erased>)
    requires
        given.len() != expected.len(),
        expected.len() <= usize::MAX,
        given.len() <= usize::MAX,
    ensures
        instantiation_error(expected, given) matches Some(FactoryErrorKind::ArgCountMismatch(e))
            && e.expected == expected.len() && e.specified == given.len(),
{
}

/// With the right number of units, a unit of the wrong type at position `i`
/// behind units that all fit is an `ArgTypeMismatch` that names `i` and the
/// type expected there. Units behind `i` may be wrong too: the lowest
/// position is the one reported.
pub proof fn lemma_lowest_mismatch_reported(expected: Seq<TypeShape>, given: Seq<Erased>, i: int)
    requires
        given.len() == expected.len(),
        expected.len() <= usize::MAX,
        0 <= i < expected.len(),
        forall|j: int| 0 <= j < i ==> matches_at(expected, given, j),
        !matches_at(expected, given, i),
    ensures
        instantiation_error(expected, given) matches Some(FactoryErrorKind::ArgTypeMismatch(e))
            && e.expected_type == descriptor(expected[i]) && e.argument_index == i,
{
    lemma_first_mismatch_is(expected, given, i);
}

/// The right number of units that all fit meet no error, and only those.
pub proof fn lemma_no_error(expected: Seq<TypeShape>, given: Seq<Erased>)
    ensures
        instantiation_error(expected, given) is None <==> given.len() == expected.len() && forall|
            j: int,
        | 0 <= j < expected.len() ==> matches_at(expected, given, j),
{
    lemma_first_mismatch_from(expected, given, 0);
}

/// Compares the number of supplied arguments with the number required.
pub fn check_count(expected: usize, specified: usize) -> (r: Result<(), FactoryErrorKind>)
    ensures
        expected == specified ==> r is Ok,
        expected != specified ==> r == Err::<(), FactoryErrorKind>(
            FactoryErrorKind::ArgCountMismatch(ArgCountMismatch { expected, specified }),
        ),
{
    if expected != specified {
        Err(FactoryErrorKind::ArgCountMismatch(ArgCountMismatch::new(expected, specified)))
    } else {
        Ok(())
    }
}

/// Takes the argument at `index` as a factory of `A`, the type expected
/// there, once the arguments before it have been found to fit.
///
/// Where the unit there produces another type, the error is the one that the
/// arguments meet: it names `A` and the index.
pub(crate) fn argument<A: Reflect>(
    args: &Vec<AnyFactory>,
    index: usize,
    Ghost(expected): Ghost<Seq<TypeShape>>,
) -> (r: Result<Factory<A>, FactoryErrorKind>)
    requires
        index < args.len(),
        expected.len() == args.len(),
        expected[index as int] == identity_of::<A>(),
        forall|j: int| 0 <= j < index ==> matches_at(expected, units(args@), j),
    ensures
        match r {
            Ok(factory) => matches_at(expected, units(args@), index as int) && factory
                == args[index as int]@.content::<A>(),
            Err(e) => instantiation_error(expected, units(args@)) == Some(e),
        },
{
    match args[index].as_factory_clone_of::<A>() {
        Some(factory) => Ok(factory),
        None => {
            proof {
                lemma_lowest_mismatch_reported(expected, units(args@), index as int);
            }
            Err(FactoryErrorKind::ArgTypeMismatch(ArgTypeMismatch::new(type_def_of::<A>(), index)))
        },
    }
}

} // verus!
