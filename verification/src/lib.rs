//! `MetaFactory` can be used to construct value creation chains from
//! closures or other sources that produce values.
//!
//! A source (a cloneable value, or a closure of up to twelve arguments) is
//! turned into a metafactory by [`metafactory`]. A metafactory tells the type
//! that the source returns and the types of its arguments, and its method
//! `new` builds, from one producing unit for each argument, a unit that
//! produces what the source returns. The units are handed in and out with
//! their types erased, as [`AnyFactory`]; `as_factory_of` gives the typed
//! [`Factory`] back, and `take` on that invokes the whole chain.
//!
//! ```
//! use metafactory::{argless_as_factory, metafactory, AsFactoryExt, MetaFactory};
//!
//! let meta_sum = metafactory(|a: isize, b: isize| a + b);
//!
//! let sum_factory = meta_sum
//!     .new(vec![argless_as_factory(5isize), argless_as_factory(6isize)])
//!     .ok()
//!     .unwrap();
//!
//! let getter = sum_factory.as_factory_of::<isize>().unwrap();
//!
//! assert_eq!(getter.take(), 11);
//! ```
//!
//! Provided argument counts and types match, any chain of factories can be
//! connected together, at runtime. Arguments that do not fit are answered
//! with an error of [`error::FactoryErrorKind`], never with a panic.
//!
//! Factories intentionally do not produce any kind of singletons or
//! references, only new values. You can also look at them as configurable
//! stream of values.
//!
//! A factory and its clones share their source through `Rc`, so a chain of
//! factories stays on the thread that built it.
//!
//! # What is proved
//!
//! What a unit hands out is described by a relation,
//! [`Factory::produces`]. The contract of `new` says which arguments are
//! answered with which error, and what the unit that is built produces. The
//! type of a unit is known to verification as a shape,
//! [`identity::TypeShape`]. A unit can produce the types that have one, which
//! are those that implement [`identity::Reflect`]: the integers, `bool`,
//! `char`, `()`, `String`, `&'static str`, and `Box`, `Vec`, `Option`,
//! `Result`, `Rc` and tuples of up to three such types.

use vstd::prelude::*;

mod admitted;
pub mod aggregate;
pub mod arguments;
pub mod error;
pub mod factory;
pub mod from_clone;
pub mod from_closure;
pub mod identity;

pub use crate::factory::{
    erased, held, AnyFactory, AsFactoryExt, Erased, Factory, Getter, Typed,
};
pub use crate::from_clone::{CloneableMetaFactory, CloneableValue, FromClone};

use crate::aggregate::Aggregate;
use crate::arguments::{instantiation_error, units};
use crate::error::FactoryErrorKind;
use crate::identity::{descriptor, descriptors, TypeShape};
use typedef::TypeDef;

verus! {

/// Implements reflection and initiation of any abstract object constructor.
///
/// ## Information about constructor
///
/// The first goal of this trait is being able to inspect the construction
/// mechanism at the runtime.
///
/// `MetaFactory` contains information about the constructor source: the
/// return type and argument types. It also contains a method `new`
/// that can create a function to invoke this source and get the values.
///
/// ## Factory initiation
///
/// The second goal is to avoid donwcasting construction arguments on every
/// `Factory` invocation.
///
/// There are separate traits for `MetaFactory` and "real" `Factory`.
/// `MetaFactory` is used to build a real `Factory` by passing all the
/// required constructor arguments as factories under `Vec<AnyFactory>`.
///
/// Internaly, all parent `Factory`s will be downcasted to correct types
/// and stored inside returned `Factory`'s scope, so that all of them
/// can be invoked with a simple `take()` call.
pub trait MetaFactory {
    /// The identity of the type that the source returns.
    spec fn result_type(&self) -> TypeShape;

    /// The identities of the argument types of the source, in the order of
    /// its arguments.
    spec fn argument_types(&self) -> Seq<TypeShape>;

    /// Whether `out` is a unit that `new` may build from the units `args`.
    spec fn yields(&self, args: Seq<Erased>, out: Erased) -> bool;

    fn get_type(&self) -> (r: TypeDef)
        ensures
            r == descriptor(self.result_type()),
    ;

    fn get_arg_types(&self) -> (r: Vec<TypeDef>)
        ensures
            r@ == descriptors(self.argument_types()),
    ;

    /// Builds a producing unit from one unit for each argument.
    ///
    /// Arguments that meet no error always give a unit. An error, where one
    /// is returned, is the one that the arguments meet: the count is held
    /// against the number of argument types first, then the units from left
    /// to right against the argument types.
    fn new(&self, arg_getters: Vec<AnyFactory>) -> (r: Result<AnyFactory, FactoryErrorKind>)
        ensures
            instantiation_error(self.argument_types(), units(arg_getters@)) is None ==> r is Ok,
            match r {
                Ok(unit) => unit@.shape() == self.result_type() && self.yields(
                    units(arg_getters@),
                    unit@,
                ),
                Err(e) => instantiation_error(self.argument_types(), units(arg_getters@)) == Some(
                    e,
                ),
            },
    ;

    /// Makes an empty aggregate for the type that the source returns.
    fn new_aggregate(&self) -> (r: Aggregate)
        ensures
            r.arg_type() == self.result_type(),
            r.children() == Seq::<Erased>::empty(),
    ;
}

/// Trait for values convertable to `MetaFactory`.
///
/// This trait is implemented for values that can be used as
/// sources for object creation. `Shape` tells the kinds of source apart: a
/// value that is cloned, or a closure with its argument and return types.
pub trait ToMetaFactory<Shape>: Sized {
    /// The metafactory made of such a source.
    type Meta: MetaFactory;

    /// Whether the source can be invoked whatever its arguments are.
    spec fn callable(&self) -> bool;

    /// The metafactory of this source.
    spec fn as_metafactory(self) -> Self::Meta;

    /// Creates a `MetaFactory` that has information about object
    /// constructor: produced object type, argument types, and
    /// a method to get this getter.
    fn to_metafactory(self) -> (r: Self::Meta)
        requires
            self.callable(),
        ensures
            r == self.as_metafactory(),
    ;
}

/// Create a new `MetaFactory` for any compatible value source.
///
/// Compatible value type must have `ToMetaFactory` implementation.
pub fn metafactory<Shape, S: ToMetaFactory<Shape>>(any: S) -> (r: S::Meta)
    requires
        any.callable(),
    ensures
        r == any.as_metafactory(),
{
    any.to_metafactory()
}

/// Create a new `MetaFactory` and return `Factory` in `AnyFactory` for source with no arguments.
///
/// Compatible value type must have `ToMetaFactory` implementation.
pub fn argless_as_factory<Shape, S: ToMetaFactory<Shape>>(any: S) -> (r: AnyFactory)
    requires
        any.callable(),
        any.as_metafactory().argument_types().len() == 0,
    ensures
        r@.shape() == any.as_metafactory().result_type(),
        any.as_metafactory().yields(Seq::<Erased>::empty(), r@),
{
    let args: Vec<AnyFactory> = Vec::new();
    assert(units(args@) =~= Seq::<Erased>::empty());
    match any.to_metafactory().new(args) {
        Ok(unit) => unit,
        Err(_) => vstd::pervasive::unreached(),
    }
}

} // verus!
