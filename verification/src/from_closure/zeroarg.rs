//! This implements metafactory construction from a zero-argument closure.
//!
//! Uses the same mechanism as manyarg closure, but is much easier to read,
//! because there are no argument factories here.

use crate::aggregate::{aggregates, Aggregate};
use crate::arguments::{check_count, instantiation_error, lemma_no_mismatch, units};
use crate::error::FactoryErrorKind;
use crate::factory::{share, AnyFactory, Erased, Factory, Getter};
use crate::from_closure::FromClosure;
use crate::identity::{descriptors, identity_of, type_def_of, Reflect, TypeShape};
use crate::{MetaFactory, ToMetaFactory};
use core::marker::PhantomData;
use std::rc::Rc;
use typedef::TypeDef;
use vstd::prelude::*;

verus! {

/// Whether `out` produces exactly what `closure` may return, and nothing
/// else.
pub open spec fn applies0<T, F: Fn() -> T>(closure: F, out: Factory<T>) -> bool {
    forall|v: T| out.produces(v) <==> call_ensures(closure, (), v)
}

/// The getter of a zero-argument closure: each `take` invokes the closure.
///
/// We have only one closure, but the metafactory
/// will need to create many factories. So the closure is put behind a
/// reference-counted pointer, which every getter made of it shares.
#[verifier::reject_recursive_types(T)]
#[verifier::reject_recursive_types(F)]
pub struct GetterScope0<T, F: Fn() -> T> {
    // Closure reference.
    closure: Rc<F>,
    marker: PhantomData<T>,
}

impl<T, F: Fn() -> T> GetterScope0<T, F> {
    #[verifier::type_invariant]
    spec fn total(self) -> bool {
        call_requires(*self.closure, ())
    }
}

impl<T, F: Fn() -> T> Getter<T> for GetterScope0<T, F> {
    closed spec fn produces(&self, v: T) -> bool {
        call_ensures(*self.closure, (), v)
    }

    fn take(&self) -> (r: T) {
        proof {
            use_type_invariant(self);
        }
        let closure: &F = &self.closure;
        closure()
    }
}

/// The metafactory of a closure of zero arguments.
#[verifier::reject_recursive_types(T)]
#[verifier::reject_recursive_types(F)]
pub struct Closure0<T, F: Fn() -> T> {
    closure: Rc<F>,
    marker: PhantomData<T>,
}

impl<T, F: Fn() -> T> Closure0<T, F> {
    #[verifier::type_invariant]
    spec fn total(self) -> bool {
        call_requires(*self.closure, ())
    }

    /// The closure that the metafactory was made of.
    pub closed spec fn closure(&self) -> F {
        *self.closure
    }
}

/// Creates `MetaFactory` from closure function.
impl<T: Reflect, F: Fn() -> T + 'static> ToMetaFactory<FromClosure<(), T>> for F {
    type Meta = Closure0<T, F>;

    open spec fn callable(&self) -> bool {
        call_requires(*self, ())
    }

    closed spec fn as_metafactory(self) -> Closure0<T, F> {
        Closure0 { closure: Rc::new(self), marker: PhantomData }
    }

    fn to_metafactory(self) -> (r: Closure0<T, F>) {
        Closure0 { closure: Rc::new(self), marker: PhantomData }
    }
}

/// What the metafactory of a closure of zero arguments is: it is made of
/// that closure, takes no argument and returns what the closure returns. The
/// closure is a source where it can be called.
pub proof fn lemma_closure0_of<T: Reflect, F: Fn() -> T + 'static>(f: F)
    ensures
        ToMetaFactory::<FromClosure<(), T>>::callable(&f) <==> call_requires(f, ()),
        ToMetaFactory::<FromClosure<(), T>>::as_metafactory(f).closure() == f,
        ToMetaFactory::<FromClosure<(), T>>::as_metafactory(f).argument_types()
            == Seq::<TypeShape>::empty(),
        ToMetaFactory::<FromClosure<(), T>>::as_metafactory(f).result_type() == identity_of::<T>(),
{
}

impl<T: Reflect, F: Fn() -> T + 'static> MetaFactory for Closure0<T, F> {
    open spec fn result_type(&self) -> TypeShape {
        identity_of::<T>()
    }

    open spec fn argument_types(&self) -> Seq<TypeShape> {
        Seq::empty()
    }

    open spec fn yields(&self, args: Seq<Erased>, out: Erased) -> bool {
        applies0(self.closure(), out.content::<T>())
    }

    fn get_type(&self) -> (r: TypeDef) {
        type_def_of::<T>()
    }

    fn get_arg_types(&self) -> (r: Vec<TypeDef>) {
        let types: Vec<TypeDef> = Vec::new();
        assert(types@ =~= descriptors(self.argument_types()));
        types
    }

    /// The arguments that meet an error are answered with it, and only
    /// those: a closure of zero arguments is built with no argument at all.
    fn new(&self, arg_getters: Vec<AnyFactory>) -> (r: Result<AnyFactory, FactoryErrorKind>)
        ensures
            instantiation_error(self.argument_types(), units(arg_getters@)) is Some ==> r is Err,
    {
        proof {
            use_type_invariant(self);
        }
        let ghost expected = self.argument_types();
        let ghost given = units(arg_getters@);

        // Return error if count does not match.
        let required_argc: usize = 0;
        match check_count(required_argc, arg_getters.len()) {
            Ok(_) => {},
            Err(e) => return Err(e),
        }

        proof {
            lemma_no_mismatch(expected, given);
        }
        let scope = GetterScope0::<T, F> { closure: share(&self.closure), marker: PhantomData };
        let ghost getter = scope;
        let factory = Factory::new(Box::new(scope));
        assert(*getter.closure == self.closure());
        assert forall|v: T| factory.produces(v) <==> call_ensures(self.closure(), (), v) by {
            assert(factory.produces(v) == getter.produces(v));
        }
        Ok(AnyFactory::new(factory))
    }

    fn new_aggregate(&self) -> (r: Aggregate)
        ensures
            r.container_type() == identity_of::<Vec<T>>(),
            forall|children: Seq<Erased>, out: Erased|
                r.gathers(children, out) == aggregates::<T>(children, out),
    {
        Aggregate::new::<T>()
    }
}

/// A unit built from a closure of zero arguments produces exactly what the
/// closure may return.
pub proof fn lemma_closure0_produces<T: Reflect, F: Fn() -> T + 'static>(
    meta: Closure0<T, F>,
    args: Seq<Erased>,
    unit: Erased,
    v: T,
)
    requires
        meta.yields(args, unit),
    ensures
        unit.content::<T>().produces(v) <==> call_ensures(meta.closure(), (), v),
{
}

} // verus!
