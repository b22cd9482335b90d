//! This implements metafactory construction from a closure.
//!
//! It supports up to 12 arguments, each number of arguments with a
//! metafactory and a getter of its own.
//!
//! A closure has to be callable whatever its arguments are: the factories
//! that it is wired to are only known when a unit is built, and what they
//! produce only when the unit is invoked.

use crate::aggregate::{aggregates, Aggregate};
use crate::arguments::{argument, check_count, instantiation_error, lemma_no_mismatch, units};
use crate::error::FactoryErrorKind;
use crate::factory::{share, AnyFactory, Erased, Factory, Getter};
use crate::from_closure::FromClosure;
use crate::identity::{descriptors, identity_of, type_def_of, Reflect, TypeShape};
use crate::{MetaFactory, ToMetaFactory};
use core::marker::PhantomData;
use std::rc::Rc;
use typedef::TypeDef;
use vstd::prelude::*;

verus! {

/// Whether `out` produces exactly what `closure` may return for an argument that
/// the given factory produces, and nothing else.
pub open spec fn applies1<A, T, F: Fn(A) -> T>(
    closure: F,
    a: Factory<A>,
    out: Factory<T>,
) -> bool {
    forall|v: T|
        out.produces(v) <==> exists|x: A|
            a.produces(x) && call_ensures(closure, (x,), v)
}

/// Contains references to parent factories, so they
/// can be invoked directly to get arguments for the closure.
#[verifier::reject_recursive_types(A)]
#[verifier::reject_recursive_types(T)]
#[verifier::reject_recursive_types(F)]
pub struct GetterScope<A, T, F: Fn(A) -> T> {
    // References to argument factories.
    a: Factory<A>,
    // Closure reference.
    closure: Rc<F>,
    marker: PhantomData<T>,
}

impl<A, T, F: Fn(A) -> T> GetterScope<A, T, F> {
    #[verifier::type_invariant]
    spec fn total(self) -> bool {
        forall|x: A| call_requires(*self.closure, (x,))
    }
}

/// Use GetterScope as a value getter. This is part
/// that is actually used at runtime.
impl<A, T, F: Fn(A) -> T> Getter<T> for GetterScope<A, T, F> {
    closed spec fn produces(&self, v: T) -> bool {
        exists|x: A|
            self.a.produces(x) && call_ensures(*self.closure, (x,), v)
    }

    fn take(&self) -> (r: T) {
        proof {
            use_type_invariant(self);
        }
        let x = self.a.take();
        let closure: &F = &self.closure;
        closure(x)
    }
}

/// The metafactory of a closure of one argument.
#[verifier::reject_recursive_types(A)]
#[verifier::reject_recursive_types(T)]
#[verifier::reject_recursive_types(F)]
pub struct Closure1<A, T, F: Fn(A) -> T> {
    closure: Rc<F>,
    marker: PhantomData<(A, T)>,
}

impl<A, T, F: Fn(A) -> T> Closure1<A, T, F> {
    #[verifier::type_invariant]
    spec fn total(self) -> bool {
        forall|x: A| call_requires(*self.closure, (x,))
    }

    /// The closure that the metafactory was made of.
    pub closed spec fn closure(&self) -> F {
        *self.closure
    }
}

/// Implement `ToMetaFactory` conversion for closures
/// |A| -> T
impl<A: Reflect, T: Reflect, F: Fn(A) -> T + 'static> ToMetaFactory<FromClosure<(A,), T>> for F {
    type Meta = Closure1<A, T, F>;

    open spec fn callable(&self) -> bool {
        forall|x: A| call_requires(*self, (x,))
    }

    closed spec fn as_metafactory(self) -> Closure1<A, T, F> {
        Closure1 { closure: Rc::new(self), marker: PhantomData }
    }

    fn to_metafactory(self) -> (r: Closure1<A, T, F>) {
        Closure1 { closure: Rc::new(self), marker: PhantomData }
    }
}

/// What the metafactory of a closure of one argument is: it is made of that
/// closure, takes the argument type of the closure in its place and returns what the
/// closure returns. The closure is a source where it can be called whatever
/// its argument is.
pub proof fn lemma_closure1_of<A: Reflect, T: Reflect, F: Fn(A) -> T + 'static>(f: F)
    ensures
        ToMetaFactory::<FromClosure<(A,), T>>::callable(&f) <==> (
            forall|x: A| call_requires(f, (x,))),
        ToMetaFactory::<FromClosure<(A,), T>>::as_metafactory(f).closure() == f,
        ToMetaFactory::<FromClosure<(A,), T>>::as_metafactory(f).argument_types() == 
            seq![identity_of::<A>()],
        ToMetaFactory::<FromClosure<(A,), T>>::as_metafactory(f).result_type() == identity_of::<T>(),
{
}

impl<A: Reflect, T: Reflect, F: Fn(A) -> T + 'static> MetaFactory for Closure1<A, T, F> {
    open spec fn result_type(&self) -> TypeShape {
        identity_of::<T>()
    }

    open spec fn argument_types(&self) -> Seq<TypeShape> {
        seq![identity_of::<A>()]
    }

    open spec fn yields(&self, args: Seq<Erased>, out: Erased) -> bool {
        applies1(
            self.closure(),
            args[0].content::<A>(),
            out.content::<T>(),
        )
    }

    fn get_type(&self) -> (r: TypeDef) {
        type_def_of::<T>()
    }

    fn get_arg_types(&self) -> (r: Vec<TypeDef>) {
        // Just go over the types and output TypeDefs for them.
        let mut types: Vec<TypeDef> = Vec::with_capacity(1);
        types.push(type_def_of::<A>());
        assert(types@ =~= descriptors(self.argument_types()));
        types
    }

    /// The arguments that meet an error are answered with it, and only
    /// those.
    fn new(&self, arg_getters: Vec<AnyFactory>) -> (r: Result<AnyFactory, FactoryErrorKind>)
        ensures
            instantiation_error(self.argument_types(), units(arg_getters@)) is Some ==> r is Err,
    {
        proof {
            use_type_invariant(self);
        }
        let ghost expected = self.argument_types();
        let ghost given = units(arg_getters@);

        // Return error if count does not match.
        let required_argc: usize = 1;
        match check_count(required_argc, arg_getters.len()) {
            Ok(_) => {},
            Err(e) => return Err(e),
        }

        // Return error if factory does not have a correct type.
        let a = match argument::<A>(&arg_getters, 0, Ghost(expected)) {
            Ok(factory) => factory,
            Err(e) => return Err(e),
        };

        // Build factory instance for THIS closure copy, passing
        // all parent factories as arguments.
        proof {
            lemma_no_mismatch(expected, given);
        }
        let scope = GetterScope::<A, T, F> {
            a,
            closure: share(&self.closure),
            marker: PhantomData,
        };
        let ghost getter = scope;
        let factory = Factory::new(Box::new(scope));
        assert(getter.a == a);
        assert(*getter.closure == self.closure());
        assert forall|v: T| factory.produces(v) <==> exists|x: A|
            a.produces(x) && call_ensures(self.closure(), (x,), v) by {
            assert(factory.produces(v) == getter.produces(v));
            assert(getter.produces(v) == (exists|x: A|
                getter.a.produces(x) && call_ensures(*getter.closure, (x,), v)));
        }
        Ok(AnyFactory::new(factory))
    }

    fn new_aggregate(&self) -> (r: Aggregate)
        ensures
            r.container_type() == identity_of::<Vec<T>>(),
            forall|children: Seq<Erased>, out: Erased|
                r.gathers(children, out) == aggregates::<T>(children, out),
    {
        Aggregate::new::<T>()
    }
}

/// A unit built from a closure of one argument produces exactly what the
/// closure may return for a value that the argument unit produces.
pub proof fn lemma_closure1_produces<A: Reflect, T: Reflect, F: Fn(A) -> T + 'static>(
    meta: Closure1<A, T, F>,
    args: Seq<Erased>,
    unit: Erased,
    v: T,
)
    requires
        meta.yields(args, unit),
    ensures
        unit.content::<T>().produces(v) <==> exists|x: A|
            args[0].content::<A>().produces(x) && call_ensures(meta.closure(), (x,), v),
{
}

/// Whether `out` produces exactly what `closure` may return for arguments that
/// the given factories produce, and nothing else.
pub open spec fn applies2<A1, A2, T, F: Fn(A1, A2) -> T>(
    closure: F,
    a1: Factory<A1>, a2: Factory<A2>,
    out: Factory<T>,
) -> bool {
    forall|v: T|
        out.produces(v) <==> exists|x1: A1, x2: A2|
            a1.produces(x1) && a2.produces(x2) && call_ensures(closure, (x1, x2), v)
}

/// Contains references to parent factories, so they
/// can be invoked directly to get arguments for the closure.
#[verifier::reject_recursive_types(A1)]
#[verifier::reject_recursive_types(A2)]
#[verifier::reject_recursive_types(T)]
#[verifier::reject_recursive_types(F)]
pub struct GetterScope2<A1, A2, T, F: Fn(A1, A2) -> T> {
    // References to argument factories.
    a1: Factory<A1>,
    a2: Factory<A2>,
    // Closure reference.
    closure: Rc<F>,
    marker: PhantomData<T>,
}

impl<A1, A2, T, F: Fn(A1, A2) -> T> GetterScope2<A1, A2, T, F> {
    #[verifier::type_invariant]
    spec fn total(self) -> bool {
        forall|x1: A1, x2: A2| call_requires(*self.closure, (x1, x2))
    }
}

/// Use GetterScope2 as a value getter. This is part
/// that is actually used at runtime.
impl<A1, A2, T, F: Fn(A1, A2) -> T> Getter<T> for GetterScope2<A1, A2, T, F> {
    closed spec fn produces(&self, v: T) -> bool {
        exists|x1: A1, x2: A2|
            self.a1.produces(x1) && self.a2.produces(x2) && call_ensures(*self.closure, (x1, x2), v)
    }

    fn take(&self) -> (r: T) {
        proof {
            use_type_invariant(self);
        }
        let x1 = self.a1.take();
        let x2 = self.a2.take();
        let closure: &F = &self.closure;
        closure(x1, x2)
    }
}

/// The metafactory of a closure of two arguments.
#[verifier::reject_recursive_types(A1)]
#[verifier::reject_recursive_types(A2)]
#[verifier::reject_recursive_types(T)]
#[verifier::reject_recursive_types(F)]
pub struct Closure2<A1, A2, T, F: Fn(A1, A2) -> T> {
    closure: Rc<F>,
    marker: PhantomData<(A1, A2, T)>,
}

impl<A1, A2, T, F: Fn(A1, A2) -> T> Closure2<A1, A2, T, F> {
    #[verifier::type_invariant]
    spec fn total(self) -> bool {
        forall|x1: A1, x2: A2| call_requires(*self.closure, (x1, x2))
    }

    /// The closure that the metafactory was made of.
    pub closed spec fn closure(&self) -> F {
        *self.closure
    }
}

/// Implement `ToMetaFactory` conversion for closures
/// |A1, A2| -> T
impl<
    A1: Reflect, A2: Reflect, T: Reflect, F: Fn(A1, A2) -> T + 'static,
> ToMetaFactory<FromClosure<(A1, A2), T>> for F {
    type Meta = Closure2<A1, A2, T, F>;

    open spec fn callable(&self) -> bool {
        forall|x1: A1, x2: A2| call_requires(*self, (x1, x2))
    }

    closed spec fn as_metafactory(self) -> Closure2<A1, A2, T, F> {
        Closure2 { closure: Rc::new(self), marker: PhantomData }
    }

    fn to_metafactory(self) -> (r: Closure2<A1, A2, T, F>) {
        Closure2 { closure: Rc::new(self), marker: PhantomData }
    }
}

/// What the metafactory of a closure of two arguments is: it is made of that
/// closure, takes the argument types of the closure in their order and returns what the
/// closure returns. The closure is a source where it can be called whatever
/// its arguments are.
pub proof fn lemma_closure2_of<
    A1: Reflect, A2: Reflect, T: Reflect, F: Fn(A1, A2) -> T + 'static,
>(f: F)
    ensures
        ToMetaFactory::<FromClosure<(A1, A2), T>>::callable(&f) <==> (
            forall|x1: A1, x2: A2| call_requires(f, (x1, x2))),
        ToMetaFactory::<FromClosure<(A1, A2), T>>::as_metafactory(f).closure() == f,
        ToMetaFactory::<FromClosure<(A1, A2), T>>::as_metafactory(f).argument_types() == 
            seq![identity_of::<A1>(), identity_of::<A2>()],
        ToMetaFactory::<FromClosure<(
            A1, A2
        ), T>>::as_metafactory(f).result_type() == identity_of::<T>(),
{
}

impl<
    A1: Reflect, A2: Reflect, T: Reflect, F: Fn(A1, A2) -> T + 'static,
> MetaFactory for Closure2<A1, A2, T, F> {
    open spec fn result_type(&self) -> TypeShape {
        identity_of::<T>()
    }

    open spec fn argument_types(&self) -> Seq<TypeShape> {
        seq![identity_of::<A1>(), identity_of::<A2>()]
    }

    open spec fn yields(&self, args: Seq<Erased>, out: Erased) -> bool {
        applies2(
            self.closure(),
            args[0].content::<A1>(),
            args[1].content::<A2>(),
            out.content::<T>(),
        )
    }

    fn get_type(&self) -> (r: TypeDef) {
        type_def_of::<T>()
    }

    fn get_arg_types(&self) -> (r: Vec<TypeDef>) {
        // Just go over the types and output TypeDefs for them.
        let mut types: Vec<TypeDef> = Vec::with_capacity(2);
        types.push(type_def_of::<A1>());
        types.push(type_def_of::<A2>());
        assert(types@ =~= descriptors(self.argument_types()));
        types
    }

    /// The arguments that meet an error are answered with it, and only
    /// those.
    fn new(&self, arg_getters: Vec<AnyFactory>) -> (r: Result<AnyFactory, FactoryErrorKind>)
        ensures
            instantiation_error(self.argument_types(), units(arg_getters@)) is Some ==> r is Err,
    {
        proof {
            use_type_invariant(self);
        }
        let ghost expected = self.argument_types();
        let ghost given = units(arg_getters@);

        // Return error if count does not match.
        let required_argc: usize = 2;
        match check_count(required_argc, arg_getters.len()) {
            Ok(_) => {},
            Err(e) => return Err(e),
        }

        // Return error if factory does not have a correct type.
        let a1 = match argument::<A1>(&arg_getters, 0, Ghost(expected)) {
            Ok(factory) => factory,
            Err(e) => return Err(e),
        };
        let a2 = match argument::<A2>(&arg_getters, 1, Ghost(expected)) {
            Ok(factory) => factory,
            Err(e) => return Err(e),
        };

        // Build factory instance for THIS closure copy, passing
        // all parent factories as arguments.
        proof {
            lemma_no_mismatch(expected, given);
        }
        let scope = GetterScope2::<A1, A2, T, F> {
            a1,
            a2,
            closure: share(&self.closure),
            marker: PhantomData,
        };
        let ghost getter = scope;
        let factory = Factory::new(Box::new(scope));
        assert(getter.a1 == a1);
        assert(getter.a2 == a2);
        assert(*getter.closure == self.closure());
        assert forall|v: T| factory.produces(v) <==> exists|x1: A1, x2: A2|
            a1.produces(x1) && a2.produces(x2) && call_ensures(self.closure(), (x1, x2), v) by {
            assert(factory.produces(v) == getter.produces(v));
            assert(getter.produces(v) == (exists|x1: A1, x2: A2|
                getter.a1.produces(x1) && getter.a2.produces(x2)
                && call_ensures(*getter.closure, (x1, x2), v)));
        }
        Ok(AnyFactory::new(factory))
    }

    fn new_aggregate(&self) -> (r: Aggregate)
        ensures
            r.container_type() == identity_of::<Vec<T>>(),
            forall|children: Seq<Erased>, out: Erased|
                r.gathers(children, out) == aggregates::<T>(children, out),
    {
        Aggregate::new::<T>()
    }
}

/// A unit built from a closure of two arguments produces exactly what the
/// closure may return for values that the argument units produce, each
/// unit giving the argument at its own position.
pub proof fn lemma_closure2_produces<
    A1: Reflect, A2: Reflect, T: Reflect, F: Fn(A1, A2) -> T + 'static,
>(
    meta: Closure2<A1, A2, T, F>,
    args: Seq<Erased>,
    unit: Erased,
    v: T,
)
    requires
        meta.yields(args, unit),
    ensures
        unit.content::<T>().produces(v) <==> exists|x1: A1, x2: A2|
            args[0].content::<A1>().produces(x1) && args[1].content::<A2>().produces(x2)
            && call_ensures(meta.closure(), (x1, x2), v),
{
}

/// Whether `out` produces exactly what `closure` may return for arguments that
/// the given factories produce, and nothing else.
pub open spec fn applies3<A1, A2, A3, T, F: Fn(A1, A2, A3) -> T>(
    closure: F,
    a1: Factory<A1>, a2: Factory<A2>, a3: Factory<A3>,
    out: Factory<T>,
) -> bool {
    forall|v: T|
        out.produces(v) <==> exists|x1: A1, x2: A2, x3: A3|
            a1.produces(x1) && a2.produces(x2) && a3.produces(x3)
            && call_ensures(closure, (x1, x2, x3), v)
}

/// Contains references to parent factories, so they
/// can be invoked directly to get arguments for the closure.
#[verifier::reject_recursive_types(A1)]
#[verifier::reject_recursive_types(A2)]
#[verifier::reject_recursive_types(A3)]
#[verifier::reject_recursive_types(T)]
#[verifier::reject_recursive_types(F)]
pub struct GetterScope3<A1, A2, A3, T, F: Fn(A1, A2, A3) -> T> {
    // References to argument factories.
    a1: Factory<A1>,
    a2: Factory<A2>,
    a3: Factory<A3>,
    // Closure reference.
    closure: Rc<F>,
    marker: PhantomData<T>,
}

impl<A1, A2, A3, T, F: Fn(A1, A2, A3) -> T> GetterScope3<A1, A2, A3, T, F> {
    #[verifier::type_invariant]
    spec fn total(self) -> bool {
        forall|x1: A1, x2: A2, x3: A3| call_requires(*self.closure, (x1, x2, x3))
    }
}

/// Use GetterScope3 as a value getter. This is part
/// that is actually used at runtime.
impl<A1, A2, A3, T, F: Fn(A1, A2, A3) -> T> Getter<T> for GetterScope3<A1, A2, A3, T, F> {
    closed spec fn produces(&self, v: T) -> bool {
        exists|x1: A1, x2: A2, x3: A3|
            self.a1.produces(x1) && self.a2.produces(x2) && self.a3.produces(x3)
            && call_ensures(*self.closure, (x1, x2, x3), v)
    }

    fn take(&self) -> (r: T) {
        proof {
            use_type_invariant(self);
        }
        let x1 = self.a1.take();
        let x2 = self.a2.take();
        let x3 = self.a3.take();
        let closure: &F = &self.closure;
        closure(x1, x2, x3)
    }
}

/// The metafactory of a closure of three arguments.
#[verifier::reject_recursive_types(A1)]
#[verifier::reject_recursive_types(A2)]
#[verifier::reject_recursive_types(A3)]
#[verifier::reject_recursive_types(T)]
#[verifier::reject_recursive_types(F)]
pub struct Closure3<A1, A2, A3, T, F: Fn(A1, A2, A3) -> T> {
    closure: Rc<F>,
    marker: PhantomData<(A1, A2, A3, T)>,
}

impl<A1, A2, A3, T, F: Fn(A1, A2, A3) -> T> Closure3<A1, A2, A3, T, F> {
    #[verifier::type_invariant]
    spec fn total(self) -> bool {
        forall|x1: A1, x2: A2, x3: A3| call_requires(*self.closure, (x1, x2, x3))
    }

    /// The closure that the metafactory was made of.
    pub closed spec fn closure(&self) -> F {
        *self.closure
    }
}

/// Implement `ToMetaFactory` conversion for closures
/// |A1, A2, A3| -> T
impl<
    A1: Reflect, A2: Reflect, A3: Reflect, T: Reflect, F: Fn(A1, A2, A3) -> T + 'static,
> ToMetaFactory<FromClosure<(A1, A2, A3), T>> for F {
    type Meta = Closure3<A1, A2, A3, T, F>;

    open spec fn callable(&self) -> bool {
        forall|x1: A1, x2: A2, x3: A3| call_requires(*self, (x1, x2, x3))
    }

    closed spec fn as_metafactory(self) -> Closure3<A1, A2, A3, T, F> {
        Closure3 { closure: Rc::new(self), marker: PhantomData }
    }

    fn to_metafactory(self) -> (r: Closure3<A1, A2, A3, T, F>) {
        Closure3 { closure: Rc::new(self), marker: PhantomData }
    }
}

/// What the metafactory of a closure of three arguments is: it is made of that
/// closure, takes the argument types of the closure in their order and returns what the
/// closure returns. The closure is a source where it can be called whatever
/// its arguments are.
pub proof fn lemma_closure3_of<
    A1: Reflect, A2: Reflect, A3: Reflect, T: Reflect, F: Fn(A1, A2, A3) -> T + 'static,
>(f: F)
    ensures
        ToMetaFactory::<FromClosure<(A1, A2, A3), T>>::callable(&f) <==> (
            forall|x1: A1, x2: A2, x3: A3| call_requires(f, (x1, x2, x3))),
        ToMetaFactory::<FromClosure<(A1, A2, A3), T>>::as_metafactory(f).closure() == f,
        ToMetaFactory::<FromClosure<(A1, A2, A3), T>>::as_metafactory(f).argument_types() == 
            seq![identity_of::<A1>(), identity_of::<A2>(), identity_of::<A3>()],
        ToMetaFactory::<FromClosure<(
            A1, A2, A3
        ), T>>::as_metafactory(f).result_type() == identity_of::<T>(),
{
}

impl<
    A1: Reflect, A2: Reflect, A3: Reflect, T: Reflect, F: Fn(A1, A2, A3) -> T + 'static,
> MetaFactory for Closure3<A1, A2, A3, T, F> {
    open spec fn result_type(&self) -> TypeShape {
        identity_of::<T>()
    }

    open spec fn argument_types(&self) -> Seq<TypeShape> {
        seq![identity_of::<A1>(), identity_of::<A2>(), identity_of::<A3>()]
    }

    open spec fn yields(&self, args: Seq<Erased>, out: Erased) -> bool {
        applies3(
            self.closure(),
            args[0].content::<A1>(),
            args[1].content::<A2>(),
            args[2].content::<A3>(),
            out.content::<T>(),
        )
    }

    fn get_type(&self) -> (r: TypeDef) {
        type_def_of::<T>()
    }

    fn get_arg_types(&self) -> (r: Vec<TypeDef>) {
        // Just go over the types and output TypeDefs for them.
        let mut types: Vec<TypeDef> = Vec::with_capacity(3);
        types.push(type_def_of::<A1>());
        types.push(type_def_of::<A2>());
        types.push(type_def_of::<A3>());
        assert(types@ =~= descriptors(self.argument_types()));
        types
    }

    /// The arguments that meet an error are answered with it, and only
    /// those.
    fn new(&self, arg_getters: Vec<AnyFactory>) -> (r: Result<AnyFactory, FactoryErrorKind>)
        ensures
            instantiation_error(self.argument_types(), units(arg_getters@)) is Some ==> r is Err,
    {
        proof {
            use_type_invariant(self);
        }
        let ghost expected = self.argument_types();
        let ghost given = units(arg_getters@);

        // Return error if count does not match.
        let required_argc: usize = 3;
        match check_count(required_argc, arg_getters.len()) {
            Ok(_) => {},
            Err(e) => return Err(e),
        }

        // Return error if factory does not have a correct type.
        let a1 = match argument::<A1>(&arg_getters, 0, Ghost(expected)) {
            Ok(factory) => factory,
            Err(e) => return Err(e),
        };
        let a2 = match argument::<A2>(&arg_getters, 1, Ghost(expected)) {
            Ok(factory) => factory,
            Err(e) => return Err(e),
        };
        let a3 = match argument::<A3>(&arg_getters, 2, Ghost(expected)) {
            Ok(factory) => factory,
            Err(e) => return Err(e),
        };

        // Build factory instance for THIS closure copy, passing
        // all parent factories as arguments.
        proof {
            lemma_no_mismatch(expected, given);
        }
        let scope = GetterScope3::<A1, A2, A3, T, F> {
            a1,
            a2,
            a3,
            closure: share(&self.closure),
            marker: PhantomData,
        };
        let ghost getter = scope;
        let factory = Factory::new(Box::new(scope));
        assert(getter.a1 == a1);
        assert(getter.a2 == a2);
        assert(getter.a3 == a3);
        assert(*getter.closure == self.closure());
        assert forall|v: T| factory.produces(v) <==> exists|x1: A1, x2: A2, x3: A3|
            a1.produces(x1) && a2.produces(x2) && a3.produces(x3)
            && call_ensures(self.closure(), (x1, x2, x3), v) by {
            assert(factory.produces(v) == getter.produces(v));
            assert(getter.produces(v) == (exists|x1: A1, x2: A2, x3: A3|
                getter.a1.produces(x1) && getter.a2.produces(x2) && getter.a3.produces(x3)
                && call_ensures(*getter.closure, (x1, x2, x3), v)));
        }
        Ok(AnyFactory::new(factory))
    }

    fn new_aggregate(&self) -> (r: Aggregate)
        ensures
            r.container_type() == identity_of::<Vec<T>>(),
            forall|children: Seq<Erased>, out: Erased|
                r.gathers(children, out) == aggregates::<T>(children, out),
    {
        Aggregate::new::<T>()
    }
}

/// A unit built from a closure of three arguments produces exactly what the
/// closure may return for values that the argument units produce, each
/// unit giving the argument at its own position.
pub proof fn lemma_closure3_produces<
    A1: Reflect, A2: Reflect, A3: Reflect, T: Reflect, F: Fn(A1, A2, A3) -> T + 'static,
>(
    meta: Closure3<A1, A2, A3, T, F>,
    args: Seq<Erased>,
    unit: Erased,
    v: T,
)
    requires
        meta.yields(args, unit),
    ensures
        unit.content::<T>().produces(v) <==> exists|x1: A1, x2: A2, x3: A3|
            args[0].content::<A1>().produces(x1) && args[1].content::<A2>().produces(x2)
            && args[2].content::<A3>().produces(x3)
            && call_ensures(meta.closure(), (x1, x2, x3), v),
{
}

/// Whether `out` produces exactly what `closure` may return for arguments that
/// the given factories produce, and nothing else.
pub open spec fn applies4<A1, A2, A3, A4, T, F: Fn(A1, A2, A3, A4) -> T>(
    closure: F,
    a1: Factory<A1>, a2: Factory<A2>, a3: Factory<A3>, a4: Factory<A4>,
    out: Factory<T>,
) -> bool {
    forall|v: T|
        out.produces(v) <==> exists|x1: A1, x2: A2, x3: A3, x4: A4|
            a1.produces(x1) && a2.produces(x2) && a3.produces(x3) && a4.produces(x4)
            && call_ensures(closure, (x1, x2, x3, x4), v)
}

/// Contains references to parent factories, so they
/// can be invoked directly to get arguments for the closure.
#[verifier::reject_recursive_types(A1)]
#[verifier::reject_recursive_types(A2)]
#[verifier::reject_recursive_types(A3)]
#[verifier::reject_recursive_types(A4)]
#[verifier::reject_recursive_types(T)]
#[verifier::reject_recursive_types(F)]
pub struct GetterScope4<A1, A2, A3, A4, T, F: Fn(A1, A2, A3, A4) -> T> {
    // References to argument factories.
    a1: Factory<A1>,
    a2: Factory<A2>,
    a3: Factory<A3>,
    a4: Factory<A4>,
    // Closure reference.
    closure: Rc<F>,
    marker: PhantomData<T>,
}

impl<A1, A2, A3, A4, T, F: Fn(A1, A2, A3, A4) -> T> GetterScope4<A1, A2, A3, A4, T, F> {
    #[verifier::type_invariant]
    spec fn total(self) -> bool {
        forall|x1: A1, x2: A2, x3: A3, x4: A4| call_requires(*self.closure, (x1, x2, x3, x4))
    }
}

/// Use GetterScope4 as a value getter. This is part
/// that is actually used at runtime.
impl<
    A1, A2, A3, A4, T, F: Fn(A1, A2, A3, A4) -> T,
> Getter<T> for GetterScope4<A1, A2, A3, A4, T, F> {
    closed spec fn produces(&self, v: T) -> bool {
        exists|x1: A1, x2: A2, x3: A3, x4: A4|
            self.a1.produces(x1) && self.a2.produces(x2) && self.a3.produces(x3)
            && self.a4.produces(x4) && call_ensures(*self.closure, (x1, x2, x3, x4), v)
    }

    fn take(&self) -> (r: T) {
        proof {
            use_type_invariant(self);
        }
        let x1 = self.a1.take();
        let x2 = self.a2.take();
        let x3 = self.a3.take();
        let x4 = self.a4.take();
        let closure: &F = &self.closure;
        closure(x1, x2, x3, x4)
    }
}

/// The metafactory of a closure of four arguments.
#[verifier::reject_recursive_types(A1)]
#[verifier::reject_recursive_types(A2)]
#[verifier::reject_recursive_types(A3)]
#[verifier::reject_recursive_types(A4)]
#[verifier::reject_recursive_types(T)]
#[verifier::reject_recursive_types(F)]
pub struct Closure4<A1, A2, A3, A4, T, F: Fn(A1, A2, A3, A4) -> T> {
    closure: Rc<F>,
    marker: PhantomData<(A1, A2, A3, A4, T)>,
}

impl<A1, A2, A3, A4, T, F: Fn(A1, A2, A3, A4) -> T> Closure4<A1, A2, A3, A4, T, F> {
    #[verifier::type_invariant]
    spec fn total(self) -> bool {
        forall|x1: A1, x2: A2, x3: A3, x4: A4| call_requires(*self.closure, (x1, x2, x3, x4))
    }

    /// The closure that the metafactory was made of.
    pub closed spec fn closure(&self) -> F {
        *self.closure
    }
}

/// Implement `ToMetaFactory` conversion for closures
/// |A1, A2, A3, A4| -> T
impl<
    A1: Reflect, A2: Reflect, A3: Reflect, A4: Reflect, T: Reflect,
    F: Fn(A1, A2, A3, A4) -> T + 'static,
> ToMetaFactory<FromClosure<(A1, A2, A3, A4), T>> for F {
    type Meta = Closure4<A1, A2, A3, A4, T, F>;

    open spec fn callable(&self) -> bool {
        forall|x1: A1, x2: A2, x3: A3, x4: A4| call_requires(*self, (x1, x2, x3, x4))
    }

    closed spec fn as_metafactory(self) -> Closure4<A1, A2, A3, A4, T, F> {
        Closure4 { closure: Rc::new(self), marker: PhantomData }
    }

    fn to_metafactory(self) -> (r: Closure4<A1, A2, A3, A4, T, F>) {
        Closure4 { closure: Rc::new(self), marker: PhantomData }
    }
}

/// What the metafactory of a closure of four arguments is: it is made of that
/// closure, takes the argument types of the closure in their order and returns what the
/// closure returns. The closure is a source where it can be called whatever
/// its arguments are.
pub proof fn lemma_closure4_of<
    A1: Reflect, A2: Reflect, A3: Reflect, A4: Reflect, T: Reflect,
    F: Fn(A1, A2, A3, A4) -> T + 'static,
>(f: F)
    ensures
        ToMetaFactory::<FromClosure<(A1, A2, A3, A4), T>>::callable(&f) <==> (
            forall|x1: A1, x2: A2, x3: A3, x4: A4| call_requires(f, (x1, x2, x3, x4))),
        ToMetaFactory::<FromClosure<(A1, A2, A3, A4), T>>::as_metafactory(f).closure() == f,
        ToMetaFactory::<FromClosure<(A1, A2, A3, A4), T>>::as_metafactory(f).argument_types() == 
            seq![
                identity_of::<A1>(), identity_of::<A2>(), identity_of::<A3>(), identity_of::<A4>(),
            ],
        ToMetaFactory::<FromClosure<(
            A1, A2, A3, A4
        ), T>>::as_metafactory(f).result_type() == identity_of::<T>(),
{
}

impl<
    A1: Reflect, A2: Reflect, A3: Reflect, A4: Reflect, T: Reflect,
    F: Fn(A1, A2, A3, A4) -> T + 'static,
> MetaFactory for Closure4<A1, A2, A3, A4, T, F> {
    open spec fn result_type(&self) -> TypeShape {
        identity_of::<T>()
    }

    open spec fn argument_types(&self) -> Seq<TypeShape> {
        seq![identity_of::<A1>(), identity_of::<A2>(), identity_of::<A3>(), identity_of::<A4>()]
    }

    open spec fn yields(&self, args: Seq<Erased>, out: Erased) -> bool {
        applies4(
            self.closure(),
            args[0].content::<A1>(),
            args[1].content::<A2>(),
            args[2].content::<A3>(),
            args[3].content::<A4>(),
            out.content::<T>(),
        )
    }

    fn get_type(&self) -> (r: TypeDef) {
        type_def_of::<T>()
    }

    fn get_arg_types(&self) -> (r: Vec<TypeDef>) {
        // Just go over the types and output TypeDefs for them.
        let mut types: Vec<TypeDef> = Vec::with_capacity(4);
        types.push(type_def_of::<A1>());
        types.push(type_def_of::<A2>());
        types.push(type_def_of::<A3>());
        types.push(type_def_of::<A4>());
        assert(types@ =~= descriptors(self.argument_types()));
        types
    }

    /// The arguments that meet an error are answered with it, and only
    /// those.
    fn new(&self, arg_getters: Vec<AnyFactory>) -> (r: Result<AnyFactory, FactoryErrorKind>)
        ensures
            instantiation_error(self.argument_types(), units(arg_getters@)) is Some ==> r is Err,
    {
        proof {
            use_type_invariant(self);
        }
        let ghost expected = self.argument_types();
        let ghost given = units(arg_getters@);

        // Return error if count does not match.
        let required_argc: usize = 4;
        match check_count(required_argc, arg_getters.len()) {
            Ok(_) => {},
            Err(e) => return Err(e),
        }

        // Return error if factory does not have a correct type.
        let a1 = match argument::<A1>(&arg_getters, 0, Ghost(expected)) {
            Ok(factory) => factory,
            Err(e) => return Err(e),
        };
        let a2 = match argument::<A2>(&arg_getters, 1, Ghost(expected)) {
            Ok(factory) => factory,
            Err(e) => return Err(e),
        };
        let a3 = match argument::<A3>(&arg_getters, 2, Ghost(expected)) {
            Ok(factory) => factory,
            Err(e) => return Err(e),
        };
        let a4 = match argument::<A4>(&arg_getters, 3, Ghost(expected)) {
            Ok(factory) => factory,
            Err(e) => return Err(e),
        };

        // Build factory instance for THIS closure copy, passing
        // all parent factories as arguments.
        proof {
            lemma_no_mismatch(expected, given);
        }
        let scope = GetterScope4::<A1, A2, A3, A4, T, F> {
            a1,
            a2,
            a3,
            a4,
            closure: share(&self.closure),
            marker: PhantomData,
        };
        let ghost getter = scope;
        let factory = Factory::new(Box::new(scope));
        assert(getter.a1 == a1);
        assert(getter.a2 == a2);
        assert(getter.a3 == a3);
        assert(getter.a4 == a4);
        assert(*getter.closure == self.closure());
        assert forall|v: T| factory.produces(v) <==> exists|x1: A1, x2: A2, x3: A3, x4: A4|
            a1.produces(x1) && a2.produces(x2) && a3.produces(x3) && a4.produces(x4)
            && call_ensures(self.closure(), (x1, x2, x3, x4), v) by {
            assert(factory.produces(v) == getter.produces(v));
            assert(getter.produces(v) == (exists|x1: A1, x2: A2, x3: A3, x4: A4|
                getter.a1.produces(x1) && getter.a2.produces(x2) && getter.a3.produces(x3)
                && getter.a4.produces(x4)
                && call_ensures(*getter.closure, (x1, x2, x3, x4), v)));
        }
        Ok(AnyFactory::new(factory))
    }

    fn new_aggregate(&self) -> (r: Aggregate)
        ensures
            r.container_type() == identity_of::<Vec<T>>(),
            forall|children: Seq<Erased>, out: Erased|
                r.gathers(children, out) == aggregates::<T>(children, out),
    {
        Aggregate::new::<T>()
    }
}

/// A unit built from a closure of four arguments produces exactly what the
/// closure may return for values that the argument units produce, each
/// unit giving the argument at its own position.
pub proof fn lemma_closure4_produces<
    A1: Reflect, A2: Reflect, A3: Reflect, A4: Reflect, T: Reflect,
    F: Fn(A1, A2, A3, A4) -> T + 'static,
>(
    meta: Closure4<A1, A2, A3, A4, T, F>,
    args: Seq<Erased>,
    unit: Erased,
    v: T,
)
    requires
        meta.yields(args, unit),
    ensures
        unit.content::<T>().produces(v) <==> exists|x1: A1, x2: A2, x3: A3, x4: A4|
            args[0].content::<A1>().produces(x1) && args[1].content::<A2>().produces(x2)
            && args[2].content::<A3>().produces(x3) && args[3].content::<A4>().produces(x4)
            && call_ensures(meta.closure(), (x1, x2, x3, x4), v),
{
}

/// Whether `out` produces exactly what `closure` may return for arguments that
/// the given factories produce, and nothing else.
pub open spec fn applies5<A1, A2, A3, A4, A5, T, F: Fn(A1, A2, A3, A4, A5) -> T>(
    closure: F,
    a1: Factory<A1>, a2: Factory<A2>, a3: Factory<A3>, a4: Factory<A4>, a5: Factory<A5>,
    out: Factory<T>,
) -> bool {
    forall|v: T|
        out.produces(v) <==> exists|x1: A1, x2: A2, x3: A3, x4: A4, x5: A5|
            a1.produces(x1) && a2.produces(x2) && a3.produces(x3) && a4.produces(x4)
            && a5.produces(x5) && call_ensures(closure, (x1, x2, x3, x4, x5), v)
}

/// Contains references to parent factories, so they
/// can be invoked directly to get arguments for the closure.
#[verifier::reject_recursive_types(A1)]
#[verifier::reject_recursive_types(A2)]
#[verifier::reject_recursive_types(A3)]
#[verifier::reject_recursive_types(A4)]
#[verifier::reject_recursive_types(A5)]
#[verifier::reject_recursive_types(T)]
#[verifier::reject_recursive_types(F)]
pub struct GetterScope5<A1, A2, A3, A4, A5, T, F: Fn(A1, A2, A3, A4, A5) -> T> {
    // References to argument factories.
    a1: Factory<A1>,
    a2: Factory<A2>,
    a3: Factory<A3>,
    a4: Factory<A4>,
    a5: Factory<A5>,
    // Closure reference.
    closure: Rc<F>,
    marker: PhantomData<T>,
}

impl<A1, A2, A3, A4, A5, T, F: Fn(A1, A2, A3, A4, A5) -> T> GetterScope5<A1, A2, A3, A4, A5, T, F> {
    #[verifier::type_invariant]
    spec fn total(self) -> bool {
        forall|
            x1: A1, x2: A2, x3: A3, x4: A4, x5: A5,
        | call_requires(*self.closure, (x1, x2, x3, x4, x5))
    }
}

/// Use GetterScope5 as a value getter. This is part
/// that is actually used at runtime.
impl<
    A1, A2, A3, A4, A5, T, F: Fn(A1, A2, A3, A4, A5) -> T,
> Getter<T> for GetterScope5<A1, A2, A3, A4, A5, T, F> {
    closed spec fn produces(&self, v: T) -> bool {
        exists|x1: A1, x2: A2, x3: A3, x4: A4, x5: A5|
            self.a1.produces(x1) && self.a2.produces(x2) && self.a3.produces(x3)
            && self.a4.produces(x4) && self.a5.produces(x5)
            && call_ensures(*self.closure, (x1, x2, x3, x4, x5), v)
    }

    fn take(&self) -> (r: T) {
        proof {
            use_type_invariant(self);
        }
        let x1 = self.a1.take();
        let x2 = self.a2.take();
        let x3 = self.a3.take();
        let x4 = self.a4.take();
        let x5 = self.a5.take();
        let closure: &F = &self.closure;
        closure(x1, x2, x3, x4, x5)
    }
}

/// The metafactory of a closure of five arguments.
#[verifier::reject_recursive_types(A1)]
#[verifier::reject_recursive_types(A2)]
#[verifier::reject_recursive_types(A3)]
#[verifier::reject_recursive_types(A4)]
#[verifier::reject_recursive_types(A5)]
#[verifier::reject_recursive_types(T)]
#[verifier::reject_recursive_types(F)]
pub struct Closure5<A1, A2, A3, A4, A5, T, F: Fn(A1, A2, A3, A4, A5) -> T> {
    closure: Rc<F>,
    marker: PhantomData<(A1, A2, A3, A4, A5, T)>,
}

impl<A1, A2, A3, A4, A5, T, F: Fn(A1, A2, A3, A4, A5) -> T> Closure5<A1, A2, A3, A4, A5, T, F> {
    #[verifier::type_invariant]
    spec fn total(self) -> bool {
        forall|
            x1: A1, x2: A2, x3: A3, x4: A4, x5: A5,
        | call_requires(*self.closure, (x1, x2, x3, x4, x5))
    }

    /// The closure that the metafactory was made of.
    pub closed spec fn closure(&self) -> F {
        *self.closure
    }
}

/// Implement `ToMetaFactory` conversion for closures
/// |A1, A2, A3, A4, A5| -> T
impl<
    A1: Reflect, A2: Reflect, A3: Reflect, A4: Reflect, A5: Reflect, T: Reflect,
    F: Fn(A1, A2, A3, A4, A5) -> T + 'static,
> ToMetaFactory<FromClosure<(A1, A2, A3, A4, A5), T>> for F {
    type Meta = Closure5<A1, A2, A3, A4, A5, T, F>;

    open spec fn callable(&self) -> bool {
        forall|x1: A1, x2: A2, x3: A3, x4: A4, x5: A5| call_requires(*self, (x1, x2, x3, x4, x5))
    }

    closed spec fn as_metafactory(self) -> Closure5<A1, A2, A3, A4, A5, T, F> {
        Closure5 { closure: Rc::new(self), marker: PhantomData }
    }

    fn to_metafactory(self) -> (r: Closure5<A1, A2, A3, A4, A5, T, F>) {
        Closure5 { closure: Rc::new(self), marker: PhantomData }
    }
}

/// What the metafactory of a closure of five arguments is: it is made of that
/// closure, takes the argument types of the closure in their order and returns what the
/// closure returns. The closure is a source where it can be called whatever
/// its arguments are.
pub proof fn lemma_closure5_of<
    A1: Reflect, A2: Reflect, A3: Reflect, A4: Reflect, A5: Reflect, T: Reflect,
    F: Fn(A1, A2, A3, A4, A5) -> T + 'static,
>(f: F)
    ensures
        ToMetaFactory::<FromClosure<(A1, A2, A3, A4, A5), T>>::callable(&f) <==> (
            forall|x1: A1, x2: A2, x3: A3, x4: A4, x5: A5| call_requires(f, (x1, x2, x3, x4, x5))),
        ToMetaFactory::<FromClosure<(A1, A2, A3, A4, A5), T>>::as_metafactory(f).closure() == f,
        ToMetaFactory::<FromClosure<(
            A1, A2, A3, A4, A5
        ), T>>::as_metafactory(f).argument_types() == 
            seq![
                identity_of::<A1>(), identity_of::<A2>(), identity_of::<A3>(), identity_of::<A4>(),
                identity_of::<A5>(),
            ],
        ToMetaFactory::<FromClosure<(
            A1, A2, A3, A4, A5
        ), T>>::as_metafactory(f).result_type() == identity_of::<T>(),
{
}

impl<
    A1: Reflect, A2: Reflect, A3: Reflect, A4: Reflect, A5: Reflect, T: Reflect,
    F: Fn(A1, A2, A3, A4, A5) -> T + 'static,
> MetaFactory for Closure5<A1, A2, A3, A4, A5, T, F> {
    open spec fn result_type(&self) -> TypeShape {
        identity_of::<T>()
    }

    open spec fn argument_types(&self) -> Seq<TypeShape> {
        seq![
            identity_of::<A1>(), identity_of::<A2>(), identity_of::<A3>(), identity_of::<A4>(),
            identity_of::<A5>(),
        ]
    }

    open spec fn yields(&self, args: Seq<Erased>, out: Erased) -> bool {
        applies5(
            self.closure(),
            args[0].content::<A1>(),
            args[1].content::<A2>(),
            args[2].content::<A3>(),
            args[3].content::<A4>(),
            args[4].content::<A5>(),
            out.content::<T>(),
        )
    }

    fn get_type(&self) -> (r: TypeDef) {
        type_def_of::<T>()
    }

    fn get_arg_types(&self) -> (r: Vec<TypeDef>) {
        // Just go over the types and output TypeDefs for them.
        let mut types: Vec<TypeDef> = Vec::with_capacity(5);
        types.push(type_def_of::<A1>());
        types.push(type_def_of::<A2>());
        types.push(type_def_of::<A3>());
        types.push(type_def_of::<A4>());
        types.push(type_def_of::<A5>());
        assert(types@ =~= descriptors(self.argument_types()));
        types
    }

    /// The arguments that meet an error are answered with it, and only
    /// those.
    fn new(&self, arg_getters: Vec<AnyFactory>) -> (r: Result<AnyFactory, FactoryErrorKind>)
        ensures
            instantiation_error(self.argument_types(), units(arg_getters@)) is Some ==> r is Err,
    {
        proof {
            use_type_invariant(self);
        }
        let ghost expected = self.argument_types();
        let ghost given = units(arg_getters@);

        // Return error if count does not match.
        let required_argc: usize = 5;
        match check_count(required_argc, arg_getters.len()) {
            Ok(_) => {},
            Err(e) => return Err(e),
        }

        // Return error if factory does not have a correct type.
        let a1 = match argument::<A1>(&arg_getters, 0, Ghost(expected)) {
            Ok(factory) => factory,
            Err(e) => return Err(e),
        };
        let a2 = match argument::<A2>(&arg_getters, 1, Ghost(expected)) {
            Ok(factory) => factory,
            Err(e) => return Err(e),
        };
        let a3 = match argument::<A3>(&arg_getters, 2, Ghost(expected)) {
            Ok(factory) => factory,
            Err(e) => return Err(e),
        };
        let a4 = match argument::<A4>(&arg_getters, 3, Ghost(expected)) {
            Ok(factory) => factory,
            Err(e) => return Err(e),
        };
        let a5 = match argument::<A5>(&arg_getters, 4, Ghost(expected)) {
            Ok(factory) => factory,
            Err(e) => return Err(e),
        };

        // Build factory instance for THIS closure copy, passing
        // all parent factories as arguments.
        proof {
            lemma_no_mismatch(expected, given);
        }
        let scope = GetterScope5::<A1, A2, A3, A4, A5, T, F> {
            a1,
            a2,
            a3,
            a4,
            a5,
            closure: share(&self.closure),
            marker: PhantomData,
        };
        let ghost getter = scope;
        let factory = Factory::new(Box::new(scope));
        assert(getter.a1 == a1);
        assert(getter.a2 == a2);
        assert(getter.a3 == a3);
        assert(getter.a4 == a4);
        assert(getter.a5 == a5);
        assert(*getter.closure == self.closure());
        assert forall|v: T| factory.produces(v) <==> exists|x1: A1, x2: A2, x3: A3, x4: A4, x5: A5|
            a1.produces(x1) && a2.produces(x2) && a3.produces(x3) && a4.produces(x4)
            && a5.produces(x5) && call_ensures(self.closure(), (x1, x2, x3, x4, x5), v) by {
            assert(factory.produces(v) == getter.produces(v));
            assert(getter.produces(v) == (exists|x1: A1, x2: A2, x3: A3, x4: A4, x5: A5|
                getter.a1.produces(x1) && getter.a2.produces(x2) && getter.a3.produces(x3)
                && getter.a4.produces(x4) && getter.a5.produces(x5)
                && call_ensures(*getter.closure, (x1, x2, x3, x4, x5), v)));
        }
        Ok(AnyFactory::new(factory))
    }

    fn new_aggregate(&self) -> (r: Aggregate)
        ensures
            r.container_type() == identity_of::<Vec<T>>(),
            forall|children: Seq<Erased>, out: Erased|
                r.gathers(children, out) == aggregates::<T>(children, out),
    {
        Aggregate::new::<T>()
    }
}

/// A unit built from a closure of five arguments produces exactly what the
/// closure may return for values that the argument units produce, each
/// unit giving the argument at its own position.
pub proof fn lemma_closure5_produces<
    A1: Reflect, A2: Reflect, A3: Reflect, A4: Reflect, A5: Reflect, T: Reflect,
    F: Fn(A1, A2, A3, A4, A5) -> T + 'static,
>(
    meta: Closure5<A1, A2, A3, A4, A5, T, F>,
    args: Seq<Erased>,
    unit: Erased,
    v: T,
)
    requires
        meta.yields(args, unit),
    ensures
        unit.content::<T>().produces(v) <==> exists|x1: A1, x2: A2, x3: A3, x4: A4, x5: A5|
            args[0].content::<A1>().produces(x1) && args[1].content::<A2>().produces(x2)
            && args[2].content::<A3>().produces(x3) && args[3].content::<A4>().produces(x4)
            && args[4].content::<A5>().produces(x5)
            && call_ensures(meta.closure(), (x1, x2, x3, x4, x5), v),
{
}

/// Whether `out` produces exactly what `closure` may return for arguments that
/// the given factories produce, and nothing else.
pub open spec fn applies6<A1, A2, A3, A4, A5, A6, T, F: Fn(A1, A2, A3, A4, A5, A6) -> T>(
    closure: F,
    a1: Factory<A1>, a2: Factory<A2>, a3: Factory<A3>, a4: Factory<A4>, a5: Factory<A5>,
    a6: Factory<A6>,
    out: Factory<T>,
) -> bool {
    forall|v: T|
        out.produces(v) <==> exists|x1: A1, x2: A2, x3: A3, x4: A4, x5: A5, x6: A6|
            a1.produces(x1) && a2.produces(x2) && a3.produces(x3) && a4.produces(x4)
            && a5.produces(x5) && a6.produces(x6)
            && call_ensures(closure, (x1, x2, x3, x4, x5, x6), v)
}

/// Contains references to parent factories, so they
/// can be invoked directly to get arguments for the closure.
#[verifier::reject_recursive_types(A1)]
#[verifier::reject_recursive_types(A2)]
#[verifier::reject_recursive_types(A3)]
#[verifier::reject_recursive_types(A4)]
#[verifier::reject_recursive_types(A5)]
#[verifier::reject_recursive_types(A6)]
#[verifier::reject_recursive_types(T)]
#[verifier::reject_recursive_types(F)]
pub struct GetterScope6<A1, A2, A3, A4, A5, A6, T, F: Fn(A1, A2, A3, A4, A5, A6) -> T> {
    // References to argument factories.
    a1: Factory<A1>,
    a2: Factory<A2>,
    a3: Factory<A3>,
    a4: Factory<A4>,
    a5: Factory<A5>,
    a6: Factory<A6>,
    // Closure reference.
    closure: Rc<F>,
    marker: PhantomData<T>,
}

impl<
    A1, A2, A3, A4, A5, A6, T, F: Fn(A1, A2, A3, A4, A5, A6) -> T,
> GetterScope6<A1, A2, A3, A4, A5, A6, T, F> {
    #[verifier::type_invariant]
    spec fn total(self) -> bool {
        forall|
            x1: A1, x2: A2, x3: A3, x4: A4, x5: A5, x6: A6,
        | call_requires(*self.closure, (x1, x2, x3, x4, x5, x6))
    }
}

/// Use GetterScope6 as a value getter. This is part
/// that is actually used at runtime.
impl<
    A1, A2, A3, A4, A5, A6, T, F: Fn(A1, A2, A3, A4, A5, A6) -> T,
> Getter<T> for GetterScope6<A1, A2, A3, A4, A5, A6, T, F> {
    closed spec fn produces(&self, v: T) -> bool {
        exists|x1: A1, x2: A2, x3: A3, x4: A4, x5: A5, x6: A6|
            self.a1.produces(x1) && self.a2.produces(x2) && self.a3.produces(x3)
            && self.a4.produces(x4) && self.a5.produces(x5) && self.a6.produces(x6)
            && call_ensures(*self.closure, (x1, x2, x3, x4, x5, x6), v)
    }

    fn take(&self) -> (r: T) {
        proof {
            use_type_invariant(self);
        }
        let x1 = self.a1.take();
        let x2 = self.a2.take();
        let x3 = self.a3.take();
        let x4 = self.a4.take();
        let x5 = self.a5.take();
        let x6 = self.a6.take();
        let closure: &F = &self.closure;
        closure(x1, x2, x3, x4, x5, x6)
    }
}

/// The metafactory of a closure of six arguments.
#[verifier::reject_recursive_types(A1)]
#[verifier::reject_recursive_types(A2)]
#[verifier::reject_recursive_types(A3)]
#[verifier::reject_recursive_types(A4)]
#[verifier::reject_recursive_types(A5)]
#[verifier::reject_recursive_types(A6)]
#[verifier::reject_recursive_types(T)]
#[verifier::reject_recursive_types(F)]
pub struct Closure6<A1, A2, A3, A4, A5, A6, T, F: Fn(A1, A2, A3, A4, A5, A6) -> T> {
    closure: Rc<F>,
    marker: PhantomData<(A1, A2, A3, A4, A5, A6, T)>,
}

impl<
    A1, A2, A3, A4, A5, A6, T, F: Fn(A1, A2, A3, A4, A5, A6) -> T,
> Closure6<A1, A2, A3, A4, A5, A6, T, F> {
    #[verifier::type_invariant]
    spec fn total(self) -> bool {
        forall|
            x1: A1, x2: A2, x3: A3, x4: A4, x5: A5, x6: A6,
        | call_requires(*self.closure, (x1, x2, x3, x4, x5, x6))
    }

    /// The closure that the metafactory was made of.
    pub closed spec fn closure(&self) -> F {
        *self.closure
    }
}

/// Implement `ToMetaFactory` conversion for closures
/// |A1, A2, A3, A4, A5, A6| -> T
impl<
    A1: Reflect, A2: Reflect, A3: Reflect, A4: Reflect, A5: Reflect, A6: Reflect, T: Reflect,
    F: Fn(A1, A2, A3, A4, A5, A6) -> T + 'static,
> ToMetaFactory<FromClosure<(A1, A2, A3, A4, A5, A6), T>> for F {
    type Meta = Closure6<A1, A2, A3, A4, A5, A6, T, F>;

    open spec fn callable(&self) -> bool {
        forall|
            x1: A1, x2: A2, x3: A3, x4: A4, x5: A5, x6: A6,
        | call_requires(*self, (x1, x2, x3, x4, x5, x6))
    }

    closed spec fn as_metafactory(self) -> Closure6<A1, A2, A3, A4, A5, A6, T, F> {
        Closure6 { closure: Rc::new(self), marker: PhantomData }
    }

    fn to_metafactory(self) -> (r: Closure6<A1, A2, A3, A4, A5, A6, T, F>) {
        Closure6 { closure: Rc::new(self), marker: PhantomData }
    }
}

/// What the metafactory of a closure of six arguments is: it is made of that
/// closure, takes the argument types of the closure in their order and returns what the
/// closure returns. The closure is a source where it can be called whatever
/// its arguments are.
pub proof fn lemma_closure6_of<
    A1: Reflect, A2: Reflect, A3: Reflect, A4: Reflect, A5: Reflect, A6: Reflect, T: Reflect,
    F: Fn(A1, A2, A3, A4, A5, A6) -> T + 'static,
>(f: F)
    ensures
        ToMetaFactory::<FromClosure<(A1, A2, A3, A4, A5, A6), T>>::callable(&f) <==> (
            forall|
                x1: A1, x2: A2, x3: A3, x4: A4, x5: A5, x6: A6,
            | call_requires(f, (x1, x2, x3, x4, x5, x6))),
        ToMetaFactory::<FromClosure<(A1, A2, A3, A4, A5, A6), T>>::as_metafactory(f).closure() == f,
        ToMetaFactory::<FromClosure<(
            A1, A2, A3, A4, A5, A6
        ), T>>::as_metafactory(f).argument_types() == 
            seq![
                identity_of::<A1>(), identity_of::<A2>(), identity_of::<A3>(), identity_of::<A4>(),
                identity_of::<A5>(), identity_of::<A6>(),
            ],
        ToMetaFactory::<FromClosure<(
            A1, A2, A3, A4, A5, A6
        ), T>>::as_metafactory(f).result_type() == identity_of::<T>(),
{
}

impl<
    A1: Reflect, A2: Reflect, A3: Reflect, A4: Reflect, A5: Reflect, A6: Reflect, T: Reflect,
    F: Fn(A1, A2, A3, A4, A5, A6) -> T + 'static,
> MetaFactory for Closure6<A1, A2, A3, A4, A5, A6, T, F> {
    open spec fn result_type(&self) -> TypeShape {
        identity_of::<T>()
    }

    open spec fn argument_types(&self) -> Seq<TypeShape> {
        seq![
            identity_of::<A1>(), identity_of::<A2>(), identity_of::<A3>(), identity_of::<A4>(),
            identity_of::<A5>(), identity_of::<A6>(),
        ]
    }

    open spec fn yields(&self, args: Seq<Erased>, out: Erased) -> bool {
        applies6(
            self.closure(),
            args[0].content::<A1>(),
            args[1].content::<A2>(),
            args[2].content::<A3>(),
            args[3].content::<A4>(),
            args[4].content::<A5>(),
            args[5].content::<A6>(),
            out.content::<T>(),
        )
    }

    fn get_type(&self) -> (r: TypeDef) {
        type_def_of::<T>()
    }

    fn get_arg_types(&self) -> (r: Vec<TypeDef>) {
        // Just go over the types and output TypeDefs for them.
        let mut types: Vec<TypeDef> = Vec::with_capacity(6);
        types.push(type_def_of::<A1>());
        types.push(type_def_of::<A2>());
        types.push(type_def_of::<A3>());
        types.push(type_def_of::<A4>());
        types.push(type_def_of::<A5>());
        types.push(type_def_of::<A6>());
        assert(types@ =~= descriptors(self.argument_types()));
        types
    }

    /// The arguments that meet an error are answered with it, and only
    /// those.
    fn new(&self, arg_getters: Vec<AnyFactory>) -> (r: Result<AnyFactory, FactoryErrorKind>)
        ensures
            instantiation_error(self.argument_types(), units(arg_getters@)) is Some ==> r is Err,
    {
        proof {
            use_type_invariant(self);
        }
        let ghost expected = self.argument_types();
        let ghost given = units(arg_getters@);

        // Return error if count does not match.
        let required_argc: usize = 6;
        match check_count(required_argc, arg_getters.len()) {
            Ok(_) => {},
            Err(e) => return Err(e),
        }

        // Return error if factory does not have a correct type.
        let a1 = match argument::<A1>(&arg_getters, 0, Ghost(expected)) {
            Ok(factory) => factory,
            Err(e) => return Err(e),
        };
        let a2 = match argument::<A2>(&arg_getters, 1, Ghost(expected)) {
            Ok(factory) => factory,
            Err(e) => return Err(e),
        };
        let a3 = match argument::<A3>(&arg_getters, 2, Ghost(expected)) {
            Ok(factory) => factory,
            Err(e) => return Err(e),
        };
        let a4 = match argument::<A4>(&arg_getters, 3, Ghost(expected)) {
            Ok(factory) => factory,
            Err(e) => return Err(e),
        };
        let a5 = match argument::<A5>(&arg_getters, 4, Ghost(expected)) {
            Ok(factory) => factory,
            Err(e) => return Err(e),
        };
        let a6 = match argument::<A6>(&arg_getters, 5, Ghost(expected)) {
            Ok(factory) => factory,
            Err(e) => return Err(e),
        };

        // Build factory instance for THIS closure copy, passing
        // all parent factories as arguments.
        proof {
            lemma_no_mismatch(expected, given);
        }
        let scope = GetterScope6::<A1, A2, A3, A4, A5, A6, T, F> {
            a1,
            a2,
            a3,
            a4,
            a5,
            a6,
            closure: share(&self.closure),
            marker: PhantomData,
        };
        let ghost getter = scope;
        let factory = Factory::new(Box::new(scope));
        assert(getter.a1 == a1);
        assert(getter.a2 == a2);
        assert(getter.a3 == a3);
        assert(getter.a4 == a4);
        assert(getter.a5 == a5);
        assert(getter.a6 == a6);
        assert(*getter.closure == self.closure());
        assert forall|v: T| factory.produces(v) <==>
            exists|x1: A1, x2: A2, x3: A3, x4: A4, x5: A5, x6: A6|
            a1.produces(x1) && a2.produces(x2) && a3.produces(x3) && a4.produces(x4)
            && a5.produces(x5) && a6.produces(x6)
            && call_ensures(self.closure(), (x1, x2, x3, x4, x5, x6), v) by {
            assert(factory.produces(v) == getter.produces(v));
            assert(getter.produces(v) == (exists|x1: A1, x2: A2, x3: A3, x4: A4, x5: A5, x6: A6|
                getter.a1.produces(x1) && getter.a2.produces(x2) && getter.a3.produces(x3)
                && getter.a4.produces(x4) && getter.a5.produces(x5)
                && getter.a6.produces(x6)
                && call_ensures(*getter.closure, (x1, x2, x3, x4, x5, x6), v)));
        }
        Ok(AnyFactory::new(factory))
    }

    fn new_aggregate(&self) -> (r: Aggregate)
        ensures
            r.container_type() == identity_of::<Vec<T>>(),
            forall|children: Seq<Erased>, out: Erased|
                r.gathers(children, out) == aggregates::<T>(children, out),
    {
        Aggregate::new::<T>()
    }
}

/// A unit built from a closure of six arguments produces exactly what the
/// closure may return for values that the argument units produce, each
/// unit giving the argument at its own position.
pub proof fn lemma_closure6_produces<
    A1: Reflect, A2: Reflect, A3: Reflect, A4: Reflect, A5: Reflect, A6: Reflect, T: Reflect,
    F: Fn(A1, A2, A3, A4, A5, A6) -> T + 'static,
>(
    meta: Closure6<A1, A2, A3, A4, A5, A6, T, F>,
    args: Seq<Erased>,
    unit: Erased,
    v: T,
)
    requires
        meta.yields(args, unit),
    ensures
        unit.content::<T>().produces(v) <==> exists|x1: A1, x2: A2, x3: A3, x4: A4, x5: A5, x6: A6|
            args[0].content::<A1>().produces(x1) && args[1].content::<A2>().produces(x2)
            && args[2].content::<A3>().produces(x3) && args[3].content::<A4>().produces(x4)
            && args[4].content::<A5>().produces(x5) && args[5].content::<A6>().produces(x6)
            && call_ensures(meta.closure(), (x1, x2, x3, x4, x5, x6), v),
{
}

/// Whether `out` produces exactly what `closure` may return for arguments that
/// the given factories produce, and nothing else.
pub open spec fn applies7<A1, A2, A3, A4, A5, A6, A7, T, F: Fn(A1, A2, A3, A4, A5, A6, A7) -> T>(
    closure: F,
    a1: Factory<A1>, a2: Factory<A2>, a3: Factory<A3>, a4: Factory<A4>, a5: Factory<A5>,
    a6: Factory<A6>, a7: Factory<A7>,
    out: Factory<T>,
) -> bool {
    forall|v: T|
        out.produces(v) <==> exists|x1: A1, x2: A2, x3: A3, x4: A4, x5: A5, x6: A6, x7: A7|
            a1.produces(x1) && a2.produces(x2) && a3.produces(x3) && a4.produces(x4)
            && a5.produces(x5) && a6.produces(x6) && a7.produces(x7)
            && call_ensures(closure, (x1, x2, x3, x4, x5, x6, x7), v)
}

/// Contains references to parent factories, so they
/// can be invoked directly to get arguments for the closure.
#[verifier::reject_recursive_types(A1)]
#[verifier::reject_recursive_types(A2)]
#[verifier::reject_recursive_types(A3)]
#[verifier::reject_recursive_types(A4)]
#[verifier::reject_recursive_types(A5)]
#[verifier::reject_recursive_types(A6)]
#[verifier::reject_recursive_types(A7)]
#[verifier::reject_recursive_types(T)]
#[verifier::reject_recursive_types(F)]
pub struct GetterScope7<A1, A2, A3, A4, A5, A6, A7, T, F: Fn(A1, A2, A3, A4, A5, A6, A7) -> T> {
    // References to argument factories.
    a1: Factory<A1>,
    a2: Factory<A2>,
    a3: Factory<A3>,
    a4: Factory<A4>,
    a5: Factory<A5>,
    a6: Factory<A6>,
    a7: Factory<A7>,
    // Closure reference.
    closure: Rc<F>,
    marker: PhantomData<T>,
}

impl<
    A1, A2, A3, A4, A5, A6, A7, T, F: Fn(A1, A2, A3, A4, A5, A6, A7) -> T,
> GetterScope7<A1, A2, A3, A4, A5, A6, A7, T, F> {
    #[verifier::type_invariant]
    spec fn total(self) -> bool {
        forall|
            x1: A1, x2: A2, x3: A3, x4: A4, x5: A5, x6: A6, x7: A7,
        | call_requires(*self.closure, (x1, x2, x3, x4, x5, x6, x7))
    }
}

/// Use GetterScope7 as a value getter. This is part
/// that is actually used at runtime.
impl<
    A1, A2, A3, A4, A5, A6, A7, T, F: Fn(A1, A2, A3, A4, A5, A6, A7) -> T,
> Getter<T> for GetterScope7<A1, A2, A3, A4, A5, A6, A7, T, F> {
    closed spec fn produces(&self, v: T) -> bool {
        exists|x1: A1, x2: A2, x3: A3, x4: A4, x5: A5, x6: A6, x7: A7|
            self.a1.produces(x1) && self.a2.produces(x2) && self.a3.produces(x3)
            && self.a4.produces(x4) && self.a5.produces(x5) && self.a6.produces(x6)
            && self.a7.produces(x7)
            && call_ensures(*self.closure, (x1, x2, x3, x4, x5, x6, x7), v)
    }

    fn take(&self) -> (r: T) {
        proof {
            use_type_invariant(self);
        }
        let x1 = self.a1.take();
        let x2 = self.a2.take();
        let x3 = self.a3.take();
        let x4 = self.a4.take();
        let x5 = self.a5.take();
        let x6 = self.a6.take();
        let x7 = self.a7.take();
        let closure: &F = &self.closure;
        closure(x1, x2, x3, x4, x5, x6, x7)
    }
}

/// The metafactory of a closure of seven arguments.
#[verifier::reject_recursive_types(A1)]
#[verifier::reject_recursive_types(A2)]
#[verifier::reject_recursive_types(A3)]
#[verifier::reject_recursive_types(A4)]
#[verifier::reject_recursive_types(A5)]
#[verifier::reject_recursive_types(A6)]
#[verifier::reject_recursive_types(A7)]
#[verifier::reject_recursive_types(T)]
#[verifier::reject_recursive_types(F)]
pub struct Closure7<A1, A2, A3, A4, A5, A6, A7, T, F: Fn(A1, A2, A3, A4, A5, A6, A7) -> T> {
    closure: Rc<F>,
    marker: PhantomData<(A1, A2, A3, A4, A5, A6, A7, T)>,
}

impl<
    A1, A2, A3, A4, A5, A6, A7, T, F: Fn(A1, A2, A3, A4, A5, A6, A7) -> T,
> Closure7<A1, A2, A3, A4, A5, A6, A7, T, F> {
    #[verifier::type_invariant]
    spec fn total(self) -> bool {
        forall|
            x1: A1, x2: A2, x3: A3, x4: A4, x5: A5, x6: A6, x7: A7,
        | call_requires(*self.closure, (x1, x2, x3, x4, x5, x6, x7))
    }

    /// The closure that the metafactory was made of.
    pub closed spec fn closure(&self) -> F {
        *self.closure
    }
}

/// Implement `ToMetaFactory` conversion for closures
/// |A1, A2, A3, A4, A5, A6, A7| -> T
impl<
    A1: Reflect, A2: Reflect, A3: Reflect, A4: Reflect, A5: Reflect, A6: Reflect, A7: Reflect,
    T: Reflect, F: Fn(A1, A2, A3, A4, A5, A6, A7) -> T + 'static,
> ToMetaFactory<FromClosure<(A1, A2, A3, A4, A5, A6, A7), T>> for F {
    type Meta = Closure7<A1, A2, A3, A4, A5, A6, A7, T, F>;

    open spec fn callable(&self) -> bool {
        forall|
            x1: A1, x2: A2, x3: A3, x4: A4, x5: A5, x6: A6, x7: A7,
        | call_requires(*self, (x1, x2, x3, x4, x5, x6, x7))
    }

    closed spec fn as_metafactory(self) -> Closure7<A1, A2, A3, A4, A5, A6, A7, T, F> {
        Closure7 { closure: Rc::new(self), marker: PhantomData }
    }

    fn to_metafactory(self) -> (r: Closure7<A1, A2, A3, A4, A5, A6, A7, T, F>) {
        Closure7 { closure: Rc::new(self), marker: PhantomData }
    }
}

/// What the metafactory of a closure of seven arguments is: it is made of that
/// closure, takes the argument types of the closure in their order and returns what the
/// closure returns. The closure is a source where it can be called whatever
/// its arguments are.
pub proof fn lemma_closure7_of<
    A1: Reflect, A2: Reflect, A3: Reflect, A4: Reflect, A5: Reflect, A6: Reflect, A7: Reflect,
    T: Reflect, F: Fn(A1, A2, A3, A4, A5, A6, A7) -> T + 'static,
>(f: F)
    ensures
        ToMetaFactory::<FromClosure<(A1, A2, A3, A4, A5, A6, A7), T>>::callable(&f) <==> (
            forall|
                x1: A1, x2: A2, x3: A3, x4: A4, x5: A5, x6: A6, x7: A7,
            | call_requires(f, (x1, x2, x3, x4, x5, x6, x7))),
        ToMetaFactory::<FromClosure<(
            A1, A2, A3, A4, A5, A6, A7
        ), T>>::as_metafactory(f).closure() == f,
        ToMetaFactory::<FromClosure<(
            A1, A2, A3, A4, A5, A6, A7
        ), T>>::as_metafactory(f).argument_types() == 
            seq![
                identity_of::<A1>(), identity_of::<A2>(), identity_of::<A3>(), identity_of::<A4>(),
                identity_of::<A5>(), identity_of::<A6>(), identity_of::<A7>(),
            ],
        ToMetaFactory::<FromClosure<(
            A1, A2, A3, A4, A5, A6, A7
        ), T>>::as_metafactory(f).result_type() == identity_of::<T>(),
{
}

impl<
    A1: Reflect, A2: Reflect, A3: Reflect, A4: Reflect, A5: Reflect, A6: Reflect, A7: Reflect,
    T: Reflect, F: Fn(A1, A2, A3, A4, A5, A6, A7) -> T + 'static,
> MetaFactory for Closure7<A1, A2, A3, A4, A5, A6, A7, T, F> {
    open spec fn result_type(&self) -> TypeShape {
        identity_of::<T>()
    }

    open spec fn argument_types(&self) -> Seq<TypeShape> {
        seq![
            identity_of::<A1>(), identity_of::<A2>(), identity_of::<A3>(), identity_of::<A4>(),
            identity_of::<A5>(), identity_of::<A6>(), identity_of::<A7>(),
        ]
    }

    open spec fn yields(&self, args: Seq<Erased>, out: Erased) -> bool {
        applies7(
            self.closure(),
            args[0].content::<A1>(),
            args[1].content::<A2>(),
            args[2].content::<A3>(),
            args[3].content::<A4>(),
            args[4].content::<A5>(),
            args[5].content::<A6>(),
            args[6].content::<A7>(),
            out.content::<T>(),
        )
    }

    fn get_type(&self) -> (r: TypeDef) {
        type_def_of::<T>()
    }

    fn get_arg_types(&self) -> (r: Vec<TypeDef>) {
        // Just go over the types and output TypeDefs for them.
        let mut types: Vec<TypeDef> = Vec::with_capacity(7);
        types.push(type_def_of::<A1>());
        types.push(type_def_of::<A2>());
        types.push(type_def_of::<A3>());
        types.push(type_def_of::<A4>());
        types.push(type_def_of::<A5>());
        types.push(type_def_of::<A6>());
        types.push(type_def_of::<A7>());
        assert(types@ =~= descriptors(self.argument_types()));
        types
    }

    /// The arguments that meet an error are answered with it, and only
    /// those.
    fn new(&self, arg_getters: Vec<AnyFactory>) -> (r: Result<AnyFactory, FactoryErrorKind>)
        ensures
            instantiation_error(self.argument_types(), units(arg_getters@)) is Some ==> r is Err,
    {
        proof {
            use_type_invariant(self);
        }
        let ghost expected = self.argument_types();
        let ghost given = units(arg_getters@);

        // Return error if count does not match.
        let required_argc: usize = 7;
        match check_count(required_argc, arg_getters.len()) {
            Ok(_) => {},
            Err(e) => return Err(e),
        }

        // Return error if factory does not have a correct type.
        let a1 = match argument::<A1>(&arg_getters, 0, Ghost(expected)) {
            Ok(factory) => factory,
            Err(e) => return Err(e),
        };
        let a2 = match argument::<A2>(&arg_getters, 1, Ghost(expected)) {
            Ok(factory) => factory,
            Err(e) => return Err(e),
        };
        let a3 = match argument::<A3>(&arg_getters, 2, Ghost(expected)) {
            Ok(factory) => factory,
            Err(e) => return Err(e),
        };
        let a4 = match argument::<A4>(&arg_getters, 3, Ghost(expected)) {
            Ok(factory) => factory,
            Err(e) => return Err(e),
        };
        let a5 = match argument::<A5>(&arg_getters, 4, Ghost(expected)) {
            Ok(factory) => factory,
            Err(e) => return Err(e),
        };
        let a6 = match argument::<A6>(&arg_getters, 5, Ghost(expected)) {
            Ok(factory) => factory,
            Err(e) => return Err(e),
        };
        let a7 = match argument::<A7>(&arg_getters, 6, Ghost(expected)) {
            Ok(factory) => factory,
            Err(e) => return Err(e),
        };

        // Build factory instance for THIS closure copy, passing
        // all parent factories as arguments.
        proof {
            lemma_no_mismatch(expected, given);
        }
        let scope = GetterScope7::<A1, A2, A3, A4, A5, A6, A7, T, F> {
            a1,
            a2,
            a3,
            a4,
            a5,
            a6,
            a7,
            closure: share(&self.closure),
            marker: PhantomData,
        };
        let ghost getter = scope;
        let factory = Factory::new(Box::new(scope));
        assert(getter.a1 == a1);
        assert(getter.a2 == a2);
        assert(getter.a3 == a3);
        assert(getter.a4 == a4);
        assert(getter.a5 == a5);
        assert(getter.a6 == a6);
        assert(getter.a7 == a7);
        assert(*getter.closure == self.closure());
        assert forall|v: T| factory.produces(v) <==>
            exists|x1: A1, x2: A2, x3: A3, x4: A4, x5: A5, x6: A6, x7: A7|
            a1.produces(x1) && a2.produces(x2) && a3.produces(x3) && a4.produces(x4)
            && a5.produces(x5) && a6.produces(x6) && a7.produces(x7)
            && call_ensures(self.closure(), (x1, x2, x3, x4, x5, x6, x7), v) by {
            assert(factory.produces(v) == getter.produces(v));
            assert(getter.produces(v) == (
                exists|x1: A1, x2: A2, x3: A3, x4: A4, x5: A5, x6: A6, x7: A7|
                getter.a1.produces(x1) && getter.a2.produces(x2) && getter.a3.produces(x3)
                && getter.a4.produces(x4) && getter.a5.produces(x5)
                && getter.a6.produces(x6) && getter.a7.produces(x7)
                && call_ensures(*getter.closure, (x1, x2, x3, x4, x5, x6, x7), v)));
        }
        Ok(AnyFactory::new(factory))
    }

    fn new_aggregate(&self) -> (r: Aggregate)
        ensures
            r.container_type() == identity_of::<Vec<T>>(),
            forall|children: Seq<Erased>, out: Erased|
                r.gathers(children, out) == aggregates::<T>(children, out),
    {
        Aggregate::new::<T>()
    }
}

/// A unit built from a closure of seven arguments produces exactly what the
/// closure may return for values that the argument units produce, each
/// unit giving the argument at its own position.
pub proof fn lemma_closure7_produces<
    A1: Reflect, A2: Reflect, A3: Reflect, A4: Reflect, A5: Reflect, A6: Reflect, A7: Reflect,
    T: Reflect, F: Fn(A1, A2, A3, A4, A5, A6, A7) -> T + 'static,
>(
    meta: Closure7<A1, A2, A3, A4, A5, A6, A7, T, F>,
    args: Seq<Erased>,
    unit: Erased,
    v: T,
)
    requires
        meta.yields(args, unit),
    ensures
        unit.content::<T>().produces(v) <==>
            exists|x1: A1, x2: A2, x3: A3, x4: A4, x5: A5, x6: A6, x7: A7|
            args[0].content::<A1>().produces(x1) && args[1].content::<A2>().produces(x2)
            && args[2].content::<A3>().produces(x3) && args[3].content::<A4>().produces(x4)
            && args[4].content::<A5>().produces(x5) && args[5].content::<A6>().produces(x6)
            && args[6].content::<A7>().produces(x7)
            && call_ensures(meta.closure(), (x1, x2, x3, x4, x5, x6, x7), v),
{
}

/// Whether `out` produces exactly what `closure` may return for arguments that
/// the given factories produce, and nothing else.
pub open spec fn applies8<
    A1, A2, A3, A4, A5, A6, A7, A8, T, F: Fn(A1, A2, A3, A4, A5, A6, A7, A8) -> T,
>(
    closure: F,
    a1: Factory<A1>, a2: Factory<A2>, a3: Factory<A3>, a4: Factory<A4>, a5: Factory<A5>,
    a6: Factory<A6>, a7: Factory<A7>, a8: Factory<A8>,
    out: Factory<T>,
) -> bool {
    forall|v: T|
        out.produces(v) <==> exists|x1: A1, x2: A2, x3: A3, x4: A4, x5: A5, x6: A6, x7: A7, x8: A8|
            a1.produces(x1) && a2.produces(x2) && a3.produces(x3) && a4.produces(x4)
            && a5.produces(x5) && a6.produces(x6) && a7.produces(x7) && a8.produces(x8)
            && call_ensures(closure, (x1, x2, x3, x4, x5, x6, x7, x8), v)
}

/// Contains references to parent factories, so they
/// can be invoked directly to get arguments for the closure.
#[verifier::reject_recursive_types(A1)]
#[verifier::reject_recursive_types(A2)]
#[verifier::reject_recursive_types(A3)]
#[verifier::reject_recursive_types(A4)]
#[verifier::reject_recursive_types(A5)]
#[verifier::reject_recursive_types(A6)]
#[verifier::reject_recursive_types(A7)]
#[verifier::reject_recursive_types(A8)]
#[verifier::reject_recursive_types(T)]
#[verifier::reject_recursive_types(F)]
pub struct GetterScope8<
    A1, A2, A3, A4, A5, A6, A7, A8, T, F: Fn(A1, A2, A3, A4, A5, A6, A7, A8) -> T,
> {
    // References to argument factories.
    a1: Factory<A1>,
    a2: Factory<A2>,
    a3: Factory<A3>,
    a4: Factory<A4>,
    a5: Factory<A5>,
    a6: Factory<A6>,
    a7: Factory<A7>,
    a8: Factory<A8>,
    // Closure reference.
    closure: Rc<F>,
    marker: PhantomData<T>,
}

impl<
    A1, A2, A3, A4, A5, A6, A7, A8, T, F: Fn(A1, A2, A3, A4, A5, A6, A7, A8) -> T,
> GetterScope8<A1, A2, A3, A4, A5, A6, A7, A8, T, F> {
    #[verifier::type_invariant]
    spec fn total(self) -> bool {
        forall|
            x1: A1, x2: A2, x3: A3, x4: A4, x5: A5, x6: A6, x7: A7, x8: A8,
        | call_requires(*self.closure, (x1, x2, x3, x4, x5, x6, x7, x8))
    }
}

/// Use GetterScope8 as a value getter. This is part
/// that is actually used at runtime.
impl<
    A1, A2, A3, A4, A5, A6, A7, A8, T, F: Fn(A1, A2, A3, A4, A5, A6, A7, A8) -> T,
> Getter<T> for GetterScope8<A1, A2, A3, A4, A5, A6, A7, A8, T, F> {
    closed spec fn produces(&self, v: T) -> bool {
        exists|x1: A1, x2: A2, x3: A3, x4: A4, x5: A5, x6: A6, x7: A7, x8: A8|
            self.a1.produces(x1) && self.a2.produces(x2) && self.a3.produces(x3)
            && self.a4.produces(x4) && self.a5.produces(x5) && self.a6.produces(x6)
            && self.a7.produces(x7) && self.a8.produces(x8)
            && call_ensures(*self.closure, (x1, x2, x3, x4, x5, x6, x7, x8), v)
    }

    fn take(&self) -> (r: T) {
        proof {
            use_type_invariant(self);
        }
        let x1 = self.a1.take();
        let x2 = self.a2.take();
        let x3 = self.a3.take();
        let x4 = self.a4.take();
        let x5 = self.a5.take();
        let x6 = self.a6.take();
        let x7 = self.a7.take();
        let x8 = self.a8.take();
        let closure: &F = &self.closure;
        closure(x1, x2, x3, x4, x5, x6, x7, x8)
    }
}

/// The metafactory of a closure of eight arguments.
#[verifier::reject_recursive_types(A1)]
#[verifier::reject_recursive_types(A2)]
#[verifier::reject_recursive_types(A3)]
#[verifier::reject_recursive_types(A4)]
#[verifier::reject_recursive_types(A5)]
#[verifier::reject_recursive_types(A6)]
#[verifier::reject_recursive_types(A7)]
#[verifier::reject_recursive_types(A8)]
#[verifier::reject_recursive_types(T)]
#[verifier::reject_recursive_types(F)]
pub struct Closure8<A1, A2, A3, A4, A5, A6, A7, A8, T, F: Fn(A1, A2, A3, A4, A5, A6, A7, A8) -> T> {
    closure: Rc<F>,
    marker: PhantomData<(A1, A2, A3, A4, A5, A6, A7, A8, T)>,
}

impl<
    A1, A2, A3, A4, A5, A6, A7, A8, T, F: Fn(A1, A2, A3, A4, A5, A6, A7, A8) -> T,
> Closure8<A1, A2, A3, A4, A5, A6, A7, A8, T, F> {
    #[verifier::type_invariant]
    spec fn total(self) -> bool {
        forall|
            x1: A1, x2: A2, x3: A3, x4: A4, x5: A5, x6: A6, x7: A7, x8: A8,
        | call_requires(*self.closure, (x1, x2, x3, x4, x5, x6, x7, x8))
    }

    /// The closure that the metafactory was made of.
    pub closed spec fn closure(&self) -> F {
        *self.closure
    }
}

/// Implement `ToMetaFactory` conversion for closures
/// |A1, A2, A3, A4, A5, A6, A7, A8| -> T
impl<
    A1: Reflect, A2: Reflect, A3: Reflect, A4: Reflect, A5: Reflect, A6: Reflect, A7: Reflect,
    A8: Reflect, T: Reflect, F: Fn(A1, A2, A3, A4, A5, A6, A7, A8) -> T + 'static,
> ToMetaFactory<FromClosure<(A1, A2, A3, A4, A5, A6, A7, A8), T>> for F {
    type Meta = Closure8<A1, A2, A3, A4, A5, A6, A7, A8, T, F>;

    open spec fn callable(&self) -> bool {
        forall|
            x1: A1, x2: A2, x3: A3, x4: A4, x5: A5, x6: A6, x7: A7, x8: A8,
        | call_requires(*self, (x1, x2, x3, x4, x5, x6, x7, x8))
    }

    closed spec fn as_metafactory(self) -> Closure8<A1, A2, A3, A4, A5, A6, A7, A8, T, F> {
        Closure8 { closure: Rc::new(self), marker: PhantomData }
    }

    fn to_metafactory(self) -> (r: Closure8<A1, A2, A3, A4, A5, A6, A7, A8, T, F>) {
        Closure8 { closure: Rc::new(self), marker: PhantomData }
    }
}

/// What the metafactory of a closure of eight arguments is: it is made of that
/// closure, takes the argument types of the closure in their order and returns what the
/// closure returns. The closure is a source where it can be called whatever
/// its arguments are.
pub proof fn lemma_closure8_of<
    A1: Reflect, A2: Reflect, A3: Reflect, A4: Reflect, A5: Reflect, A6: Reflect, A7: Reflect,
    A8: Reflect, T: Reflect, F: Fn(A1, A2, A3, A4, A5, A6, A7, A8) -> T + 'static,
>(f: F)
    ensures
        ToMetaFactory::<FromClosure<(A1, A2, A3, A4, A5, A6, A7, A8), T>>::callable(&f) <==> (
            forall|
                x1: A1, x2: A2, x3: A3, x4: A4, x5: A5, x6: A6, x7: A7, x8: A8,
            | call_requires(f, (x1, x2, x3, x4, x5, x6, x7, x8))),
        ToMetaFactory::<FromClosure<(
            A1, A2, A3, A4, A5, A6, A7, A8
        ), T>>::as_metafactory(f).closure() == f,
        ToMetaFactory::<FromClosure<(
            A1, A2, A3, A4, A5, A6, A7, A8
        ), T>>::as_metafactory(f).argument_types() == 
            seq![
                identity_of::<A1>(), identity_of::<A2>(), identity_of::<A3>(), identity_of::<A4>(),
                identity_of::<A5>(), identity_of::<A6>(), identity_of::<A7>(), identity_of::<A8>(),
            ],
        ToMetaFactory::<FromClosure<(
            A1, A2, A3, A4, A5, A6, A7, A8
        ), T>>::as_metafactory(f).result_type() == identity_of::<T>(),
{
}

impl<
    A1: Reflect, A2: Reflect, A3: Reflect, A4: Reflect, A5: Reflect, A6: Reflect, A7: Reflect,
    A8: Reflect, T: Reflect, F: Fn(A1, A2, A3, A4, A5, A6, A7, A8) -> T + 'static,
> MetaFactory for Closure8<A1, A2, A3, A4, A5, A6, A7, A8, T, F> {
    open spec fn result_type(&self) -> TypeShape {
        identity_of::<T>()
    }

    open spec fn argument_types(&self) -> Seq<TypeShape> {
        seq![
            identity_of::<A1>(), identity_of::<A2>(), identity_of::<A3>(), identity_of::<A4>(),
            identity_of::<A5>(), identity_of::<A6>(), identity_of::<A7>(), identity_of::<A8>(),
        ]
    }

    open spec fn yields(&self, args: Seq<Erased>, out: Erased) -> bool {
        applies8(
            self.closure(),
            args[0].content::<A1>(),
            args[1].content::<A2>(),
            args[2].content::<A3>(),
            args[3].content::<A4>(),
            args[4].content::<A5>(),
            args[5].content::<A6>(),
            args[6].content::<A7>(),
            args[7].content::<A8>(),
            out.content::<T>(),
        )
    }

    fn get_type(&self) -> (r: TypeDef) {
        type_def_of::<T>()
    }

    fn get_arg_types(&self) -> (r: Vec<TypeDef>) {
        // Just go over the types and output TypeDefs for them.
        let mut types: Vec<TypeDef> = Vec::with_capacity(8);
        types.push(type_def_of::<A1>());
        types.push(type_def_of::<A2>());
        types.push(type_def_of::<A3>());
        types.push(type_def_of::<A4>());
        types.push(type_def_of::<A5>());
        types.push(type_def_of::<A6>());
        types.push(type_def_of::<A7>());
        types.push(type_def_of::<A8>());
        assert(types@ =~= descriptors(self.argument_types()));
        types
    }

    /// The arguments that meet an error are answered with it, and only
    /// those.
    fn new(&self, arg_getters: Vec<AnyFactory>) -> (r: Result<AnyFactory, FactoryErrorKind>)
        ensures
            instantiation_error(self.argument_types(), units(arg_getters@)) is Some ==> r is Err,
    {
        proof {
            use_type_invariant(self);
        }
        let ghost expected = self.argument_types();
        let ghost given = units(arg_getters@);

        // Return error if count does not match.
        let required_argc: usize = 8;
        match check_count(required_argc, arg_getters.len()) {
            Ok(_) => {},
            Err(e) => return Err(e),
        }

        // Return error if factory does not have a correct type.
        let a1 = match argument::<A1>(&arg_getters, 0, Ghost(expected)) {
            Ok(factory) => factory,
            Err(e) => return Err(e),
        };
        let a2 = match argument::<A2>(&arg_getters, 1, Ghost(expected)) {
            Ok(factory) => factory,
            Err(e) => return Err(e),
        };
        let a3 = match argument::<A3>(&arg_getters, 2, Ghost(expected)) {
            Ok(factory) => factory,
            Err(e) => return Err(e),
        };
        let a4 = match argument::<A4>(&arg_getters, 3, Ghost(expected)) {
            Ok(factory) => factory,
            Err(e) => return Err(e),
        };
        let a5 = match argument::<A5>(&arg_getters, 4, Ghost(expected)) {
            Ok(factory) => factory,
            Err(e) => return Err(e),
        };
        let a6 = match argument::<A6>(&arg_getters, 5, Ghost(expected)) {
            Ok(factory) => factory,
            Err(e) => return Err(e),
        };
        let a7 = match argument::<A7>(&arg_getters, 6, Ghost(expected)) {
            Ok(factory) => factory,
            Err(e) => return Err(e),
        };
        let a8 = match argument::<A8>(&arg_getters, 7, Ghost(expected)) {
            Ok(factory) => factory,
            Err(e) => return Err(e),
        };

        // Build factory instance for THIS closure copy, passing
        // all parent factories as arguments.
        proof {
            lemma_no_mismatch(expected, given);
        }
        let scope = GetterScope8::<A1, A2, A3, A4, A5, A6, A7, A8, T, F> {
            a1,
            a2,
            a3,
            a4,
            a5,
            a6,
            a7,
            a8,
            closure: share(&self.closure),
            marker: PhantomData,
        };
        let ghost getter = scope;
        let factory = Factory::new(Box::new(scope));
        assert(getter.a1 == a1);
        assert(getter.a2 == a2);
        assert(getter.a3 == a3);
        assert(getter.a4 == a4);
        assert(getter.a5 == a5);
        assert(getter.a6 == a6);
        assert(getter.a7 == a7);
        assert(getter.a8 == a8);
        assert(*getter.closure == self.closure());
        assert forall|v: T| factory.produces(v) <==>
            exists|x1: A1, x2: A2, x3: A3, x4: A4, x5: A5, x6: A6, x7: A7, x8: A8|
            a1.produces(x1) && a2.produces(x2) && a3.produces(x3) && a4.produces(x4)
            && a5.produces(x5) && a6.produces(x6) && a7.produces(x7) && a8.produces(x8)
            && call_ensures(self.closure(), (x1, x2, x3, x4, x5, x6, x7, x8), v) by {
            assert(factory.produces(v) == getter.produces(v));
            assert(getter.produces(v) == (
                exists|x1: A1, x2: A2, x3: A3, x4: A4, x5: A5, x6: A6, x7: A7, x8: A8|
                getter.a1.produces(x1) && getter.a2.produces(x2) && getter.a3.produces(x3)
                && getter.a4.produces(x4) && getter.a5.produces(x5)
                && getter.a6.produces(x6) && getter.a7.produces(x7)
                && getter.a8.produces(x8)
                && call_ensures(*getter.closure, (x1, x2, x3, x4, x5, x6, x7, x8), v)));
        }
        Ok(AnyFactory::new(factory))
    }

    fn new_aggregate(&self) -> (r: Aggregate)
        ensures
            r.container_type() == identity_of::<Vec<T>>(),
            forall|children: Seq<Erased>, out: Erased|
                r.gathers(children, out) == aggregates::<T>(children, out),
    {
        Aggregate::new::<T>()
    }
}

/// A unit built from a closure of eight arguments produces exactly what the
/// closure may return for values that the argument units produce, each
/// unit giving the argument at its own position.
pub proof fn lemma_closure8_produces<
    A1: Reflect, A2: Reflect, A3: Reflect, A4: Reflect, A5: Reflect, A6: Reflect, A7: Reflect,
    A8: Reflect, T: Reflect, F: Fn(A1, A2, A3, A4, A5, A6, A7, A8) -> T + 'static,
>(
    meta: Closure8<A1, A2, A3, A4, A5, A6, A7, A8, T, F>,
    args: Seq<Erased>,
    unit: Erased,
    v: T,
)
    requires
        meta.yields(args, unit),
    ensures
        unit.content::<T>().produces(v) <==>
            exists|x1: A1, x2: A2, x3: A3, x4: A4, x5: A5, x6: A6, x7: A7, x8: A8|
            args[0].content::<A1>().produces(x1) && args[1].content::<A2>().produces(x2)
            && args[2].content::<A3>().produces(x3) && args[3].content::<A4>().produces(x4)
            && args[4].content::<A5>().produces(x5) && args[5].content::<A6>().produces(x6)
            && args[6].content::<A7>().produces(x7) && args[7].content::<A8>().produces(x8)
            && call_ensures(meta.closure(), (x1, x2, x3, x4, x5, x6, x7, x8), v),
{
}

/// Whether `out` produces exactly what `closure` may return for arguments that
/// the given factories produce, and nothing else.
pub open spec fn applies9<
    A1, A2, A3, A4, A5, A6, A7, A8, A9, T, F: Fn(A1, A2, A3, A4, A5, A6, A7, A8, A9) -> T,
>(
    closure: F,
    a1: Factory<A1>, a2: Factory<A2>, a3: Factory<A3>, a4: Factory<A4>, a5: Factory<A5>,
    a6: Factory<A6>, a7: Factory<A7>, a8: Factory<A8>, a9: Factory<A9>,
    out: Factory<T>,
) -> bool {
    forall|v: T|
        out.produces(v) <==>
            exists|x1: A1, x2: A2, x3: A3, x4: A4, x5: A5, x6: A6, x7: A7, x8: A8, x9: A9|
            a1.produces(x1) && a2.produces(x2) && a3.produces(x3) && a4.produces(x4)
            && a5.produces(x5) && a6.produces(x6) && a7.produces(x7) && a8.produces(x8)
            && a9.produces(x9)
            && call_ensures(closure, (x1, x2, x3, x4, x5, x6, x7, x8, x9), v)
}

/// Contains references to parent factories, so they
/// can be invoked directly to get arguments for the closure.
#[verifier::reject_recursive_types(A1)]
#[verifier::reject_recursive_types(A2)]
#[verifier::reject_recursive_types(A3)]
#[verifier::reject_recursive_types(A4)]
#[verifier::reject_recursive_types(A5)]
#[verifier::reject_recursive_types(A6)]
#[verifier::reject_recursive_types(A7)]
#[verifier::reject_recursive_types(A8)]
#[verifier::reject_recursive_types(A9)]
#[verifier::reject_recursive_types(T)]
#[verifier::reject_recursive_types(F)]
pub struct GetterScope9<
    A1, A2, A3, A4, A5, A6, A7, A8, A9, T, F: Fn(A1, A2, A3, A4, A5, A6, A7, A8, A9) -> T,
> {
    // References to argument factories.
    a1: Factory<A1>,
    a2: Factory<A2>,
    a3: Factory<A3>,
    a4: Factory<A4>,
    a5: Factory<A5>,
    a6: Factory<A6>,
    a7: Factory<A7>,
    a8: Factory<A8>,
    a9: Factory<A9>,
    // Closure reference.
    closure: Rc<F>,
    marker: PhantomData<T>,
}

impl<
    A1, A2, A3, A4, A5, A6, A7, A8, A9, T, F: Fn(A1, A2, A3, A4, A5, A6, A7, A8, A9) -> T,
> GetterScope9<A1, A2, A3, A4, A5, A6, A7, A8, A9, T, F> {
    #[verifier::type_invariant]
    spec fn total(self) -> bool {
        forall|
            x1: A1, x2: A2, x3: A3, x4: A4, x5: A5, x6: A6, x7: A7, x8: A8, x9: A9,
        | call_requires(*self.closure, (x1, x2, x3, x4, x5, x6, x7, x8, x9))
    }
}

/// Use GetterScope9 as a value getter. This is part
/// that is actually used at runtime.
impl<
    A1, A2, A3, A4, A5, A6, A7, A8, A9, T, F: Fn(A1, A2, A3, A4, A5, A6, A7, A8, A9) -> T,
> Getter<T> for GetterScope9<A1, A2, A3, A4, A5, A6, A7, A8, A9, T, F> {
    closed spec fn produces(&self, v: T) -> bool {
        exists|x1: A1, x2: A2, x3: A3, x4: A4, x5: A5, x6: A6, x7: A7, x8: A8, x9: A9|
            self.a1.produces(x1) && self.a2.produces(x2) && self.a3.produces(x3)
            && self.a4.produces(x4) && self.a5.produces(x5) && self.a6.produces(x6)
            && self.a7.produces(x7) && self.a8.produces(x8) && self.a9.produces(x9)
            && call_ensures(*self.closure, (x1, x2, x3, x4, x5, x6, x7, x8, x9), v)
    }

    fn take(&self) -> (r: T) {
        proof {
            use_type_invariant(self);
        }
        let x1 = self.a1.take();
        let x2 = self.a2.take();
        let x3 = self.a3.take();
        let x4 = self.a4.take();
        let x5 = self.a5.take();
        let x6 = self.a6.take();
        let x7 = self.a7.take();
        let x8 = self.a8.take();
        let x9 = self.a9.take();
        let closure: &F = &self.closure;
        closure(x1, x2, x3, x4, x5, x6, x7, x8, x9)
    }
}

/// The metafactory of a closure of nine arguments.
#[verifier::reject_recursive_types(A1)]
#[verifier::reject_recursive_types(A2)]
#[verifier::reject_recursive_types(A3)]
#[verifier::reject_recursive_types(A4)]
#[verifier::reject_recursive_types(A5)]
#[verifier::reject_recursive_types(A6)]
#[verifier::reject_recursive_types(A7)]
#[verifier::reject_recursive_types(A8)]
#[verifier::reject_recursive_types(A9)]
#[verifier::reject_recursive_types(T)]
#[verifier::reject_recursive_types(F)]
pub struct Closure9<
    A1, A2, A3, A4, A5, A6, A7, A8, A9, T, F: Fn(A1, A2, A3, A4, A5, A6, A7, A8, A9) -> T,
> {
    closure: Rc<F>,
    marker: PhantomData<(A1, A2, A3, A4, A5, A6, A7, A8, A9, T)>,
}

impl<
    A1, A2, A3, A4, A5, A6, A7, A8, A9, T, F: Fn(A1, A2, A3, A4, A5, A6, A7, A8, A9) -> T,
> Closure9<A1, A2, A3, A4, A5, A6, A7, A8, A9, T, F> {
    #[verifier::type_invariant]
    spec fn total(self) -> bool {
        forall|
            x1: A1, x2: A2, x3: A3, x4: A4, x5: A5, x6: A6, x7: A7, x8: A8, x9: A9,
        | call_requires(*self.closure, (x1, x2, x3, x4, x5, x6, x7, x8, x9))
    }

    /// The closure that the metafactory was made of.
    pub closed spec fn closure(&self) -> F {
        *self.closure
    }
}

/// Implement `ToMetaFactory` conversion for closures
/// |A1, A2, A3, A4, A5, A6, A7, A8, A9| -> T
impl<
    A1: Reflect, A2: Reflect, A3: Reflect, A4: Reflect, A5: Reflect, A6: Reflect, A7: Reflect,
    A8: Reflect, A9: Reflect, T: Reflect, F: Fn(A1, A2, A3, A4, A5, A6, A7, A8, A9) -> T + 'static,
> ToMetaFactory<FromClosure<(A1, A2, A3, A4, A5, A6, A7, A8, A9), T>> for F {
    type Meta = Closure9<A1, A2, A3, A4, A5, A6, A7, A8, A9, T, F>;

    open spec fn callable(&self) -> bool {
        forall|
            x1: A1, x2: A2, x3: A3, x4: A4, x5: A5, x6: A6, x7: A7, x8: A8, x9: A9,
        | call_requires(*self, (x1, x2, x3, x4, x5, x6, x7, x8, x9))
    }

    closed spec fn as_metafactory(self) -> Closure9<A1, A2, A3, A4, A5, A6, A7, A8, A9, T, F> {
        Closure9 { closure: Rc::new(self), marker: PhantomData }
    }

    fn to_metafactory(self) -> (r: Closure9<A1, A2, A3, A4, A5, A6, A7, A8, A9, T, F>) {
        Closure9 { closure: Rc::new(self), marker: PhantomData }
    }
}

/// What the metafactory of a closure of nine arguments is: it is made of that
/// closure, takes the argument types of the closure in their order and returns what the
/// closure returns. The closure is a source where it can be called whatever
/// its arguments are.
pub proof fn lemma_closure9_of<
    A1: Reflect, A2: Reflect, A3: Reflect, A4: Reflect, A5: Reflect, A6: Reflect, A7: Reflect,
    A8: Reflect, A9: Reflect, T: Reflect, F: Fn(A1, A2, A3, A4, A5, A6, A7, A8, A9) -> T + 'static,
>(f: F)
    ensures
        ToMetaFactory::<FromClosure<(A1, A2, A3, A4, A5, A6, A7, A8, A9), T>>::callable(&f) <==> (
            forall|
                x1: A1, x2: A2, x3: A3, x4: A4, x5: A5, x6: A6, x7: A7, x8: A8, x9: A9,
            | call_requires(f, (x1, x2, x3, x4, x5, x6, x7, x8, x9))),
        ToMetaFactory::<FromClosure<(
            A1, A2, A3, A4, A5, A6, A7, A8, A9
        ), T>>::as_metafactory(f).closure() == f,
        ToMetaFactory::<FromClosure<(
            A1, A2, A3, A4, A5, A6, A7, A8, A9
        ), T>>::as_metafactory(f).argument_types() == 
            seq![
                identity_of::<A1>(), identity_of::<A2>(), identity_of::<A3>(), identity_of::<A4>(),
                identity_of::<A5>(), identity_of::<A6>(), identity_of::<A7>(), identity_of::<A8>(),
                identity_of::<A9>(),
            ],
        ToMetaFactory::<FromClosure<(
            A1, A2, A3, A4, A5, A6, A7, A8, A9
        ), T>>::as_metafactory(f).result_type() == identity_of::<T>(),
{
}

impl<
    A1: Reflect, A2: Reflect, A3: Reflect, A4: Reflect, A5: Reflect, A6: Reflect, A7: Reflect,
    A8: Reflect, A9: Reflect, T: Reflect, F: Fn(A1, A2, A3, A4, A5, A6, A7, A8, A9) -> T + 'static,
> MetaFactory for Closure9<A1, A2, A3, A4, A5, A6, A7, A8, A9, T, F> {
    open spec fn result_type(&self) -> TypeShape {
        identity_of::<T>()
    }

    open spec fn argument_types(&self) -> Seq<TypeShape> {
        seq![
            identity_of::<A1>(), identity_of::<A2>(), identity_of::<A3>(), identity_of::<A4>(),
            identity_of::<A5>(), identity_of::<A6>(), identity_of::<A7>(), identity_of::<A8>(),
            identity_of::<A9>(),
        ]
    }

    open spec fn yields(&self, args: Seq<Erased>, out: Erased) -> bool {
        applies9(
            self.closure(),
            args[0].content::<A1>(),
            args[1].content::<A2>(),
            args[2].content::<A3>(),
            args[3].content::<A4>(),
            args[4].content::<A5>(),
            args[5].content::<A6>(),
            args[6].content::<A7>(),
            args[7].content::<A8>(),
            args[8].content::<A9>(),
            out.content::<T>(),
        )
    }

    fn get_type(&self) -> (r: TypeDef) {
        type_def_of::<T>()
    }

    fn get_arg_types(&self) -> (r: Vec<TypeDef>) {
        // Just go over the types and output TypeDefs for them.
        let mut types: Vec<TypeDef> = Vec::with_capacity(9);
        types.push(type_def_of::<A1>());
        types.push(type_def_of::<A2>());
        types.push(type_def_of::<A3>());
        types.push(type_def_of::<A4>());
        types.push(type_def_of::<A5>());
        types.push(type_def_of::<A6>());
        types.push(type_def_of::<A7>());
        types.push(type_def_of::<A8>());
        types.push(type_def_of::<A9>());
        assert(types@ =~= descriptors(self.argument_types()));
        types
    }

    /// The arguments that meet an error are answered with it, and only
    /// those.
    fn new(&self, arg_getters: Vec<AnyFactory>) -> (r: Result<AnyFactory, FactoryErrorKind>)
        ensures
            instantiation_error(self.argument_types(), units(arg_getters@)) is Some ==> r is Err,
    {
        proof {
            use_type_invariant(self);
        }
        let ghost expected = self.argument_types();
        let ghost given = units(arg_getters@);

        // Return error if count does not match.
        let required_argc: usize = 9;
        match check_count(required_argc, arg_getters.len()) {
            Ok(_) => {},
            Err(e) => return Err(e),
        }

        // Return error if factory does not have a correct type.
        let a1 = match argument::<A1>(&arg_getters, 0, Ghost(expected)) {
            Ok(factory) => factory,
            Err(e) => return Err(e),
        };
        let a2 = match argument::<A2>(&arg_getters, 1, Ghost(expected)) {
            Ok(factory) => factory,
            Err(e) => return Err(e),
        };
        let a3 = match argument::<A3>(&arg_getters, 2, Ghost(expected)) {
            Ok(factory) => factory,
            Err(e) => return Err(e),
        };
        let a4 = match argument::<A4>(&arg_getters, 3, Ghost(expected)) {
            Ok(factory) => factory,
            Err(e) => return Err(e),
        };
        let a5 = match argument::<A5>(&arg_getters, 4, Ghost(expected)) {
            Ok(factory) => factory,
            Err(e) => return Err(e),
        };
        let a6 = match argument::<A6>(&arg_getters, 5, Ghost(expected)) {
            Ok(factory) => factory,
            Err(e) => return Err(e),
        };
        let a7 = match argument::<A7>(&arg_getters, 6, Ghost(expected)) {
            Ok(factory) => factory,
            Err(e) => return Err(e),
        };
        let a8 = match argument::<A8>(&arg_getters, 7, Ghost(expected)) {
            Ok(factory) => factory,
            Err(e) => return Err(e),
        };
        let a9 = match argument::<A9>(&arg_getters, 8, Ghost(expected)) {
            Ok(factory) => factory,
            Err(e) => return Err(e),
        };

        // Build factory instance for THIS closure copy, passing
        // all parent factories as arguments.
        proof {
            lemma_no_mismatch(expected, given);
        }
        let scope = GetterScope9::<A1, A2, A3, A4, A5, A6, A7, A8, A9, T, F> {
            a1,
            a2,
            a3,
            a4,
            a5,
            a6,
            a7,
            a8,
            a9,
            closure: share(&self.closure),
            marker: PhantomData,
        };
        let ghost getter = scope;
        let factory = Factory::new(Box::new(scope));
        assert(getter.a1 == a1);
        assert(getter.a2 == a2);
        assert(getter.a3 == a3);
        assert(getter.a4 == a4);
        assert(getter.a5 == a5);
        assert(getter.a6 == a6);
        assert(getter.a7 == a7);
        assert(getter.a8 == a8);
        assert(getter.a9 == a9);
        assert(*getter.closure == self.closure());
        assert forall|v: T| factory.produces(v) <==>
            exists|x1: A1, x2: A2, x3: A3, x4: A4, x5: A5, x6: A6, x7: A7, x8: A8, x9: A9|
            a1.produces(x1) && a2.produces(x2) && a3.produces(x3) && a4.produces(x4)
            && a5.produces(x5) && a6.produces(x6) && a7.produces(x7) && a8.produces(x8)
            && a9.produces(x9)
            && call_ensures(self.closure(), (x1, x2, x3, x4, x5, x6, x7, x8, x9), v) by {
            assert(factory.produces(v) == getter.produces(v));
            assert(getter.produces(v) == (
                exists|x1: A1, x2: A2, x3: A3, x4: A4, x5: A5, x6: A6, x7: A7, x8: A8, x9: A9|
                getter.a1.produces(x1) && getter.a2.produces(x2) && getter.a3.produces(x3)
                && getter.a4.produces(x4) && getter.a5.produces(x5)
                && getter.a6.produces(x6) && getter.a7.produces(x7)
                && getter.a8.produces(x8) && getter.a9.produces(x9)
                && call_ensures(*getter.closure, (x1, x2, x3, x4, x5, x6, x7, x8, x9), v)));
        }
        Ok(AnyFactory::new(factory))
    }

    fn new_aggregate(&self) -> (r: Aggregate)
        ensures
            r.container_type() == identity_of::<Vec<T>>(),
            forall|children: Seq<Erased>, out: Erased|
                r.gathers(children, out) == aggregates::<T>(children, out),
    {
        Aggregate::new::<T>()
    }
}

/// A unit built from a closure of nine arguments produces exactly what the
/// closure may return for values that the argument units produce, each
/// unit giving the argument at its own position.
pub proof fn lemma_closure9_produces<
    A1: Reflect, A2: Reflect, A3: Reflect, A4: Reflect, A5: Reflect, A6: Reflect, A7: Reflect,
    A8: Reflect, A9: Reflect, T: Reflect, F: Fn(A1, A2, A3, A4, A5, A6, A7, A8, A9) -> T + 'static,
>(
    meta: Closure9<A1, A2, A3, A4, A5, A6, A7, A8, A9, T, F>,
    args: Seq<Erased>,
    unit: Erased,
    v: T,
)
    requires
        meta.yields(args, unit),
    ensures
        unit.content::<T>().produces(v) <==>
            exists|x1: A1, x2: A2, x3: A3, x4: A4, x5: A5, x6: A6, x7: A7, x8: A8, x9: A9|
            args[0].content::<A1>().produces(x1) && args[1].content::<A2>().produces(x2)
            && args[2].content::<A3>().produces(x3) && args[3].content::<A4>().produces(x4)
            && args[4].content::<A5>().produces(x5) && args[5].content::<A6>().produces(x6)
            && args[6].content::<A7>().produces(x7) && args[7].content::<A8>().produces(x8)
            && args[8].content::<A9>().produces(x9)
            && call_ensures(meta.closure(), (x1, x2, x3, x4, x5, x6, x7, x8, x9), v),
{
}

/// Whether `out` produces exactly what `closure` may return for arguments that
/// the given factories produce, and nothing else.
pub open spec fn applies10<
    A1, A2, A3, A4, A5, A6, A7, A8, A9, A10, T, F: Fn(A1, A2, A3, A4, A5, A6, A7, A8, A9, A10) -> T,
>(
    closure: F,
    a1: Factory<A1>, a2: Factory<A2>, a3: Factory<A3>, a4: Factory<A4>, a5: Factory<A5>,
    a6: Factory<A6>, a7: Factory<A7>, a8: Factory<A8>, a9: Factory<A9>, a10: Factory<A10>,
    out: Factory<T>,
) -> bool {
    forall|v: T|
        out.produces(v) <==>
            exists|x1: A1, x2: A2, x3: A3, x4: A4, x5: A5, x6: A6, x7: A7, x8: A8, x9: A9, x10: A10|
            a1.produces(x1) && a2.produces(x2) && a3.produces(x3) && a4.produces(x4)
            && a5.produces(x5) && a6.produces(x6) && a7.produces(x7) && a8.produces(x8)
            && a9.produces(x9) && a10.produces(x10)
            && call_ensures(closure, (x1, x2, x3, x4, x5, x6, x7, x8, x9, x10), v)
}

/// Contains references to parent factories, so they
/// can be invoked directly to get arguments for the closure.
#[verifier::reject_recursive_types(A1)]
#[verifier::reject_recursive_types(A2)]
#[verifier::reject_recursive_types(A3)]
#[verifier::reject_recursive_types(A4)]
#[verifier::reject_recursive_types(A5)]
#[verifier::reject_recursive_types(A6)]
#[verifier::reject_recursive_types(A7)]
#[verifier::reject_recursive_types(A8)]
#[verifier::reject_recursive_types(A9)]
#[verifier::reject_recursive_types(A10)]
#[verifier::reject_recursive_types(T)]
#[verifier::reject_recursive_types(F)]
pub struct GetterScope10<
    A1, A2, A3, A4, A5, A6, A7, A8, A9, A10, T, F: Fn(A1, A2, A3, A4, A5, A6, A7, A8, A9, A10) -> T,
> {
    // References to argument factories.
    a1: Factory<A1>,
    a2: Factory<A2>,
    a3: Factory<A3>,
    a4: Factory<A4>,
    a5: Factory<A5>,
    a6: Factory<A6>,
    a7: Factory<A7>,
    a8: Factory<A8>,
    a9: Factory<A9>,
    a10: Factory<A10>,
    // Closure reference.
    closure: Rc<F>,
    marker: PhantomData<T>,
}

impl<
    A1, A2, A3, A4, A5, A6, A7, A8, A9, A10, T, F: Fn(A1, A2, A3, A4, A5, A6, A7, A8, A9, A10) -> T,
> GetterScope10<A1, A2, A3, A4, A5, A6, A7, A8, A9, A10, T, F> {
    #[verifier::type_invariant]
    spec fn total(self) -> bool {
        forall|
            x1: A1, x2: A2, x3: A3, x4: A4, x5: A5, x6: A6, x7: A7, x8: A8, x9: A9, x10: A10,
        | call_requires(*self.closure, (x1, x2, x3, x4, x5, x6, x7, x8, x9, x10))
    }
}

/// Use GetterScope10 as a value getter. This is part
/// that is actually used at runtime.
impl<
    A1, A2, A3, A4, A5, A6, A7, A8, A9, A10, T, F: Fn(A1, A2, A3, A4, A5, A6, A7, A8, A9, A10) -> T,
> Getter<T> for GetterScope10<A1, A2, A3, A4, A5, A6, A7, A8, A9, A10, T, F> {
    closed spec fn produces(&self, v: T) -> bool {
        exists|x1: A1, x2: A2, x3: A3, x4: A4, x5: A5, x6: A6, x7: A7, x8: A8, x9: A9, x10: A10|
            self.a1.produces(x1) && self.a2.produces(x2) && self.a3.produces(x3)
            && self.a4.produces(x4) && self.a5.produces(x5) && self.a6.produces(x6)
            && self.a7.produces(x7) && self.a8.produces(x8) && self.a9.produces(x9)
            && self.a10.produces(x10)
            && call_ensures(*self.closure, (x1, x2, x3, x4, x5, x6, x7, x8, x9, x10), v)
    }

    fn take(&self) -> (r: T) {
        proof {
            use_type_invariant(self);
        }
        let x1 = self.a1.take();
        let x2 = self.a2.take();
        let x3 = self.a3.take();
        let x4 = self.a4.take();
        let x5 = self.a5.take();
        let x6 = self.a6.take();
        let x7 = self.a7.take();
        let x8 = self.a8.take();
        let x9 = self.a9.take();
        let x10 = self.a10.take();
        let closure: &F = &self.closure;
        closure(x1, x2, x3, x4, x5, x6, x7, x8, x9, x10)
    }
}

/// The metafactory of a closure of ten arguments.
#[verifier::reject_recursive_types(A1)]
#[verifier::reject_recursive_types(A2)]
#[verifier::reject_recursive_types(A3)]
#[verifier::reject_recursive_types(A4)]
#[verifier::reject_recursive_types(A5)]
#[verifier::reject_recursive_types(A6)]
#[verifier::reject_recursive_types(A7)]
#[verifier::reject_recursive_types(A8)]
#[verifier::reject_recursive_types(A9)]
#[verifier::reject_recursive_types(A10)]
#[verifier::reject_recursive_types(T)]
#[verifier::reject_recursive_types(F)]
pub struct Closure10<
    A1, A2, A3, A4, A5, A6, A7, A8, A9, A10, T, F: Fn(A1, A2, A3, A4, A5, A6, A7, A8, A9, A10) -> T,
> {
    closure: Rc<F>,
    marker: PhantomData<(A1, A2, A3, A4, A5, A6, A7, A8, A9, A10, T)>,
}

impl<
    A1, A2, A3, A4, A5, A6, A7, A8, A9, A10, T, F: Fn(A1, A2, A3, A4, A5, A6, A7, A8, A9, A10) -> T,
> Closure10<A1, A2, A3, A4, A5, A6, A7, A8, A9, A10, T, F> {
    #[verifier::type_invariant]
    spec fn total(self) -> bool {
        forall|
            x1: A1, x2: A2, x3: A3, x4: A4, x5: A5, x6: A6, x7: A7, x8: A8, x9: A9, x10: A10,
        | call_requires(*self.closure, (x1, x2, x3, x4, x5, x6, x7, x8, x9, x10))
    }

    /// The closure that the metafactory was made of.
    pub closed spec fn closure(&self) -> F {
        *self.closure
    }
}

/// Implement `ToMetaFactory` conversion for closures
/// |A1, A2, A3, A4, A5, A6, A7, A8, A9, A10| -> T
impl<
    A1: Reflect, A2: Reflect, A3: Reflect, A4: Reflect, A5: Reflect, A6: Reflect, A7: Reflect,
    A8: Reflect, A9: Reflect, A10: Reflect, T: Reflect,
    F: Fn(A1, A2, A3, A4, A5, A6, A7, A8, A9, A10) -> T + 'static,
> ToMetaFactory<FromClosure<(A1, A2, A3, A4, A5, A6, A7, A8, A9, A10), T>> for F {
    type Meta = Closure10<A1, A2, A3, A4, A5, A6, A7, A8, A9, A10, T, F>;

    open spec fn callable(&self) -> bool {
        forall|
            x1: A1, x2: A2, x3: A3, x4: A4, x5: A5, x6: A6, x7: A7, x8: A8, x9: A9, x10: A10,
        | call_requires(*self, (x1, x2, x3, x4, x5, x6, x7, x8, x9, x10))
    }

    closed spec fn as_metafactory(self) -> Closure10<
        A1, A2, A3, A4, A5, A6, A7, A8, A9, A10, T, F,
    > {
        Closure10 { closure: Rc::new(self), marker: PhantomData }
    }

    fn to_metafactory(self) -> (r: Closure10<A1, A2, A3, A4, A5, A6, A7, A8, A9, A10, T, F>) {
        Closure10 { closure: Rc::new(self), marker: PhantomData }
    }
}

/// What the metafactory of a closure of ten arguments is: it is made of that
/// closure, takes the argument types of the closure in their order and returns what the
/// closure returns. The closure is a source where it can be called whatever
/// its arguments are.
pub proof fn lemma_closure10_of<
    A1: Reflect, A2: Reflect, A3: Reflect, A4: Reflect, A5: Reflect, A6: Reflect, A7: Reflect,
    A8: Reflect, A9: Reflect, A10: Reflect, T: Reflect,
    F: Fn(A1, A2, A3, A4, A5, A6, A7, A8, A9, A10) -> T + 'static,
>(f: F)
    ensures
        ToMetaFactory::<FromClosure<(
            A1, A2, A3, A4, A5, A6, A7, A8, A9, A10
        ), T>>::callable(&f) <==> (
            forall|
                x1: A1, x2: A2, x3: A3, x4: A4, x5: A5, x6: A6, x7: A7, x8: A8, x9: A9, x10: A10,
            | call_requires(f, (x1, x2, x3, x4, x5, x6, x7, x8, x9, x10))),
        ToMetaFactory::<FromClosure<(
            A1, A2, A3, A4, A5, A6, A7, A8, A9, A10
        ), T>>::as_metafactory(f).closure() == f,
        ToMetaFactory::<FromClosure<(
            A1, A2, A3, A4, A5, A6, A7, A8, A9, A10
        ), T>>::as_metafactory(f).argument_types() == 
            seq![
                identity_of::<A1>(), identity_of::<A2>(), identity_of::<A3>(), identity_of::<A4>(),
                identity_of::<A5>(), identity_of::<A6>(), identity_of::<A7>(), identity_of::<A8>(),
                identity_of::<A9>(), identity_of::<A10>(),
            ],
        ToMetaFactory::<FromClosure<(
            A1, A2, A3, A4, A5, A6, A7, A8, A9, A10
        ), T>>::as_metafactory(f).result_type() == identity_of::<T>(),
{
}

impl<
    A1: Reflect, A2: Reflect, A3: Reflect, A4: Reflect, A5: Reflect, A6: Reflect, A7: Reflect,
    A8: Reflect, A9: Reflect, A10: Reflect, T: Reflect,
    F: Fn(A1, A2, A3, A4, A5, A6, A7, A8, A9, A10) -> T + 'static,
> MetaFactory for Closure10<A1, A2, A3, A4, A5, A6, A7, A8, A9, A10, T, F> {
    open spec fn result_type(&self) -> TypeShape {
        identity_of::<T>()
    }

    open spec fn argument_types(&self) -> Seq<TypeShape> {
        seq![
            identity_of::<A1>(), identity_of::<A2>(), identity_of::<A3>(), identity_of::<A4>(),
            identity_of::<A5>(), identity_of::<A6>(), identity_of::<A7>(), identity_of::<A8>(),
            identity_of::<A9>(), identity_of::<A10>(),
        ]
    }

    open spec fn yields(&self, args: Seq<Erased>, out: Erased) -> bool {
        applies10(
            self.closure(),
            args[0].content::<A1>(),
            args[1].content::<A2>(),
            args[2].content::<A3>(),
            args[3].content::<A4>(),
            args[4].content::<A5>(),
            args[5].content::<A6>(),
            args[6].content::<A7>(),
            args[7].content::<A8>(),
            args[8].content::<A9>(),
            args[9].content::<A10>(),
            out.content::<T>(),
        )
    }

    fn get_type(&self) -> (r: TypeDef) {
        type_def_of::<T>()
    }

    fn get_arg_types(&self) -> (r: Vec<TypeDef>) {
        // Just go over the types and output TypeDefs for them.
        let mut types: Vec<TypeDef> = Vec::with_capacity(10);
        types.push(type_def_of::<A1>());
        types.push(type_def_of::<A2>());
        types.push(type_def_of::<A3>());
        types.push(type_def_of::<A4>());
        types.push(type_def_of::<A5>());
        types.push(type_def_of::<A6>());
        types.push(type_def_of::<A7>());
        types.push(type_def_of::<A8>());
        types.push(type_def_of::<A9>());
        types.push(type_def_of::<A10>());
        assert(types@ =~= descriptors(self.argument_types()));
        types
    }

    /// The arguments that meet an error are answered with it, and only
    /// those.
    fn new(&self, arg_getters: Vec<AnyFactory>) -> (r: Result<AnyFactory, FactoryErrorKind>)
        ensures
            instantiation_error(self.argument_types(), units(arg_getters@)) is Some ==> r is Err,
    {
        proof {
            use_type_invariant(self);
        }
        let ghost expected = self.argument_types();
        let ghost given = units(arg_getters@);

        // Return error if count does not match.
        let required_argc: usize = 10;
        match check_count(required_argc, arg_getters.len()) {
            Ok(_) => {},
            Err(e) => return Err(e),
        }

        // Return error if factory does not have a correct type.
        let a1 = match argument::<A1>(&arg_getters, 0, Ghost(expected)) {
            Ok(factory) => factory,
            Err(e) => return Err(e),
        };
        let a2 = match argument::<A2>(&arg_getters, 1, Ghost(expected)) {
            Ok(factory) => factory,
            Err(e) => return Err(e),
        };
        let a3 = match argument::<A3>(&arg_getters, 2, Ghost(expected)) {
            Ok(factory) => factory,
            Err(e) => return Err(e),
        };
        let a4 = match argument::<A4>(&arg_getters, 3, Ghost(expected)) {
            Ok(factory) => factory,
            Err(e) => return Err(e),
        };
        let a5 = match argument::<A5>(&arg_getters, 4, Ghost(expected)) {
            Ok(factory) => factory,
            Err(e) => return Err(e),
        };
        let a6 = match argument::<A6>(&arg_getters, 5, Ghost(expected)) {
            Ok(factory) => factory,
            Err(e) => return Err(e),
        };
        let a7 = match argument::<A7>(&arg_getters, 6, Ghost(expected)) {
            Ok(factory) => factory,
            Err(e) => return Err(e),
        };
        let a8 = match argument::<A8>(&arg_getters, 7, Ghost(expected)) {
            Ok(factory) => factory,
            Err(e) => return Err(e),
        };
        let a9 = match argument::<A9>(&arg_getters, 8, Ghost(expected)) {
            Ok(factory) => factory,
            Err(e) => return Err(e),
        };
        let a10 = match argument::<A10>(&arg_getters, 9, Ghost(expected)) {
            Ok(factory) => factory,
            Err(e) => return Err(e),
        };

        // Build factory instance for THIS closure copy, passing
        // all parent factories as arguments.
        proof {
            lemma_no_mismatch(expected, given);
        }
        let scope = GetterScope10::<A1, A2, A3, A4, A5, A6, A7, A8, A9, A10, T, F> {
            a1,
            a2,
            a3,
            a4,
            a5,
            a6,
            a7,
            a8,
            a9,
            a10,
            closure: share(&self.closure),
            marker: PhantomData,
        };
        let ghost getter = scope;
        let factory = Factory::new(Box::new(scope));
        assert(getter.a1 == a1);
        assert(getter.a2 == a2);
        assert(getter.a3 == a3);
        assert(getter.a4 == a4);
        assert(getter.a5 == a5);
        assert(getter.a6 == a6);
        assert(getter.a7 == a7);
        assert(getter.a8 == a8);
        assert(getter.a9 == a9);
        assert(getter.a10 == a10);
        assert(*getter.closure == self.closure());
        assert forall|v: T| factory.produces(v) <==>
            exists|x1: A1, x2: A2, x3: A3, x4: A4, x5: A5, x6: A6, x7: A7, x8: A8, x9: A9, x10: A10|
            a1.produces(x1) && a2.produces(x2) && a3.produces(x3) && a4.produces(x4)
            && a5.produces(x5) && a6.produces(x6) && a7.produces(x7) && a8.produces(x8)
            && a9.produces(x9) && a10.produces(x10)
            && call_ensures(self.closure(), (x1, x2, x3, x4, x5, x6, x7, x8, x9, x10), v) by {
            assert(factory.produces(v) == getter.produces(v));
            assert(getter.produces(v) == (
                exists|
                    x1: A1, x2: A2, x3: A3, x4: A4, x5: A5, x6: A6, x7: A7, x8: A8, x9: A9,
                    x10: A10,
                |
                getter.a1.produces(x1) && getter.a2.produces(x2) && getter.a3.produces(x3)
                && getter.a4.produces(x4) && getter.a5.produces(x5)
                && getter.a6.produces(x6) && getter.a7.produces(x7)
                && getter.a8.produces(x8) && getter.a9.produces(x9)
                && getter.a10.produces(x10)
                && call_ensures(*getter.closure, (x1, x2, x3, x4, x5, x6, x7, x8, x9, x10), v)));
        }
        Ok(AnyFactory::new(factory))
    }

    fn new_aggregate(&self) -> (r: Aggregate)
        ensures
            r.container_type() == identity_of::<Vec<T>>(),
            forall|children: Seq<Erased>, out: Erased|
                r.gathers(children, out) == aggregates::<T>(children, out),
    {
        Aggregate::new::<T>()
    }
}

/// A unit built from a closure of ten arguments produces exactly what the
/// closure may return for values that the argument units produce, each
/// unit giving the argument at its own position.
pub proof fn lemma_closure10_produces<
    A1: Reflect, A2: Reflect, A3: Reflect, A4: Reflect, A5: Reflect, A6: Reflect, A7: Reflect,
    A8: Reflect, A9: Reflect, A10: Reflect, T: Reflect,
    F: Fn(A1, A2, A3, A4, A5, A6, A7, A8, A9, A10) -> T + 'static,
>(
    meta: Closure10<A1, A2, A3, A4, A5, A6, A7, A8, A9, A10, T, F>,
    args: Seq<Erased>,
    unit: Erased,
    v: T,
)
    requires
        meta.yields(args, unit),
    ensures
        unit.content::<T>().produces(v) <==>
            exists|x1: A1, x2: A2, x3: A3, x4: A4, x5: A5, x6: A6, x7: A7, x8: A8, x9: A9, x10: A10|
            args[0].content::<A1>().produces(x1) && args[1].content::<A2>().produces(x2)
            && args[2].content::<A3>().produces(x3) && args[3].content::<A4>().produces(x4)
            && args[4].content::<A5>().produces(x5) && args[5].content::<A6>().produces(x6)
            && args[6].content::<A7>().produces(x7) && args[7].content::<A8>().produces(x8)
            && args[8].content::<A9>().produces(x9)
            && args[9].content::<A10>().produces(x10)
            && call_ensures(meta.closure(), (x1, x2, x3, x4, x5, x6, x7, x8, x9, x10), v),
{
}

/// Whether `out` produces exactly what `closure` may return for arguments that
/// the given factories produce, and nothing else.
pub open spec fn applies11<
    A1, A2, A3, A4, A5, A6, A7, A8, A9, A10, A11, T,
    F: Fn(A1, A2, A3, A4, A5, A6, A7, A8, A9, A10, A11) -> T,
>(
    closure: F,
    a1: Factory<A1>, a2: Factory<A2>, a3: Factory<A3>, a4: Factory<A4>, a5: Factory<A5>,
    a6: Factory<A6>, a7: Factory<A7>, a8: Factory<A8>, a9: Factory<A9>, a10: Factory<A10>,
    a11: Factory<A11>,
    out: Factory<T>,
) -> bool {
    forall|v: T|
        out.produces(v) <==>
            exists|
                x1: A1, x2: A2, x3: A3, x4: A4, x5: A5, x6: A6, x7: A7, x8: A8, x9: A9, x10: A10,
                x11: A11,
            |
            a1.produces(x1) && a2.produces(x2) && a3.produces(x3) && a4.produces(x4)
            && a5.produces(x5) && a6.produces(x6) && a7.produces(x7) && a8.produces(x8)
            && a9.produces(x9) && a10.produces(x10) && a11.produces(x11)
            && call_ensures(closure, (x1, x2, x3, x4, x5, x6, x7, x8, x9, x10, x11), v)
}

/// Contains references to parent factories, so they
/// can be invoked directly to get arguments for the closure.
#[verifier::reject_recursive_types(A1)]
#[verifier::reject_recursive_types(A2)]
#[verifier::reject_recursive_types(A3)]
#[verifier::reject_recursive_types(A4)]
#[verifier::reject_recursive_types(A5)]
#[verifier::reject_recursive_types(A6)]
#[verifier::reject_recursive_types(A7)]
#[verifier::reject_recursive_types(A8)]
#[verifier::reject_recursive_types(A9)]
#[verifier::reject_recursive_types(A10)]
#[verifier::reject_recursive_types(A11)]
#[verifier::reject_recursive_types(T)]
#[verifier::reject_recursive_types(F)]
pub struct GetterScope11<
    A1, A2, A3, A4, A5, A6, A7, A8, A9, A10, A11, T,
    F: Fn(A1, A2, A3, A4, A5, A6, A7, A8, A9, A10, A11) -> T,
> {
    // References to argument factories.
    a1: Factory<A1>,
    a2: Factory<A2>,
    a3: Factory<A3>,
    a4: Factory<A4>,
    a5: Factory<A5>,
    a6: Factory<A6>,
    a7: Factory<A7>,
    a8: Factory<A8>,
    a9: Factory<A9>,
    a10: Factory<A10>,
    a11: Factory<A11>,
    // Closure reference.
    closure: Rc<F>,
    marker: PhantomData<T>,
}

impl<
    A1, A2, A3, A4, A5, A6, A7, A8, A9, A10, A11, T,
    F: Fn(A1, A2, A3, A4, A5, A6, A7, A8, A9, A10, A11) -> T,
> GetterScope11<A1, A2, A3, A4, A5, A6, A7, A8, A9, A10, A11, T, F> {
    #[verifier::type_invariant]
    spec fn total(self) -> bool {
        forall|
            x1: A1, x2: A2, x3: A3, x4: A4, x5: A5, x6: A6, x7: A7, x8: A8, x9: A9, x10: A10,
            x11: A11,
        | call_requires(*self.closure, (x1, x2, x3, x4, x5, x6, x7, x8, x9, x10, x11))
    }
}

/// Use GetterScope11 as a value getter. This is part
/// that is actually used at runtime.
impl<
    A1, A2, A3, A4, A5, A6, A7, A8, A9, A10, A11, T,
    F: Fn(A1, A2, A3, A4, A5, A6, A7, A8, A9, A10, A11) -> T,
> Getter<T> for GetterScope11<A1, A2, A3, A4, A5, A6, A7, A8, A9, A10, A11, T, F> {
    closed spec fn produces(&self, v: T) -> bool {
        exists|
            x1: A1, x2: A2, x3: A3, x4: A4, x5: A5, x6: A6, x7: A7, x8: A8, x9: A9, x10: A10,
            x11: A11,
        |
            self.a1.produces(x1) && self.a2.produces(x2) && self.a3.produces(x3)
            && self.a4.produces(x4) && self.a5.produces(x5) && self.a6.produces(x6)
            && self.a7.produces(x7) && self.a8.produces(x8) && self.a9.produces(x9)
            && self.a10.produces(x10) && self.a11.produces(x11)
            && call_ensures(*self.closure, (x1, x2, x3, x4, x5, x6, x7, x8, x9, x10, x11), v)
    }

    fn take(&self) -> (r: T) {
        proof {
            use_type_invariant(self);
        }
        let x1 = self.a1.take();
        let x2 = self.a2.take();
        let x3 = self.a3.take();
        let x4 = self.a4.take();
        let x5 = self.a5.take();
        let x6 = self.a6.take();
        let x7 = self.a7.take();
        let x8 = self.a8.take();
        let x9 = self.a9.take();
        let x10 = self.a10.take();
        let x11 = self.a11.take();
        let closure: &F = &self.closure;
        closure(x1, x2, x3, x4, x5, x6, x7, x8, x9, x10, x11)
    }
}

/// The metafactory of a closure of eleven arguments.
#[verifier::reject_recursive_types(A1)]
#[verifier::reject_recursive_types(A2)]
#[verifier::reject_recursive_types(A3)]
#[verifier::reject_recursive_types(A4)]
#[verifier::reject_recursive_types(A5)]
#[verifier::reject_recursive_types(A6)]
#[verifier::reject_recursive_types(A7)]
#[verifier::reject_recursive_types(A8)]
#[verifier::reject_recursive_types(A9)]
#[verifier::reject_recursive_types(A10)]
#[verifier::reject_recursive_types(A11)]
#[verifier::reject_recursive_types(T)]
#[verifier::reject_recursive_types(F)]
pub struct Closure11<
    A1, A2, A3, A4, A5, A6, A7, A8, A9, A10, A11, T,
    F: Fn(A1, A2, A3, A4, A5, A6, A7, A8, A9, A10, A11) -> T,
> {
    closure: Rc<F>,
    marker: PhantomData<(A1, A2, A3, A4, A5, A6, A7, A8, A9, A10, A11, T)>,
}

impl<
    A1, A2, A3, A4, A5, A6, A7, A8, A9, A10, A11, T,
    F: Fn(A1, A2, A3, A4, A5, A6, A7, A8, A9, A10, A11) -> T,
> Closure11<A1, A2, A3, A4, A5, A6, A7, A8, A9, A10, A11, T, F> {
    #[verifier::type_invariant]
    spec fn total(self) -> bool {
        forall|
            x1: A1, x2: A2, x3: A3, x4: A4, x5: A5, x6: A6, x7: A7, x8: A8, x9: A9, x10: A10,
            x11: A11,
        | call_requires(*self.closure, (x1, x2, x3, x4, x5, x6, x7, x8, x9, x10, x11))
    }

    /// The closure that the metafactory was made of.
    pub closed spec fn closure(&self) -> F {
        *self.closure
    }
}

/// Implement `ToMetaFactory` conversion for closures
/// |A1, A2, A3, A4, A5, A6, A7, A8, A9, A10, A11| -> T
impl<
    A1: Reflect, A2: Reflect, A3: Reflect, A4: Reflect, A5: Reflect, A6: Reflect, A7: Reflect,
    A8: Reflect, A9: Reflect, A10: Reflect, A11: Reflect, T: Reflect,
    F: Fn(A1, A2, A3, A4, A5, A6, A7, A8, A9, A10, A11) -> T + 'static,
> ToMetaFactory<FromClosure<(A1, A2, A3, A4, A5, A6, A7, A8, A9, A10, A11), T>> for F {
    type Meta = Closure11<A1, A2, A3, A4, A5, A6, A7, A8, A9, A10, A11, T, F>;

    open spec fn callable(&self) -> bool {
        forall|
            x1: A1, x2: A2, x3: A3, x4: A4, x5: A5, x6: A6, x7: A7, x8: A8, x9: A9, x10: A10,
            x11: A11,
        | call_requires(*self, (x1, x2, x3, x4, x5, x6, x7, x8, x9, x10, x11))
    }

    closed spec fn as_metafactory(self) -> Closure11<
        A1, A2, A3, A4, A5, A6, A7, A8, A9, A10, A11, T, F,
    > {
        Closure11 { closure: Rc::new(self), marker: PhantomData }
    }

    fn to_metafactory(self) -> (r: Closure11<A1, A2, A3, A4, A5, A6, A7, A8, A9, A10, A11, T, F>) {
        Closure11 { closure: Rc::new(self), marker: PhantomData }
    }
}

/// What the metafactory of a closure of eleven arguments is: it is made of that
/// closure, takes the argument types of the closure in their order and returns what the
/// closure returns. The closure is a source where it can be called whatever
/// its arguments are.
pub proof fn lemma_closure11_of<
    A1: Reflect, A2: Reflect, A3: Reflect, A4: Reflect, A5: Reflect, A6: Reflect, A7: Reflect,
    A8: Reflect, A9: Reflect, A10: Reflect, A11: Reflect, T: Reflect,
    F: Fn(A1, A2, A3, A4, A5, A6, A7, A8, A9, A10, A11) -> T + 'static,
>(f: F)
    ensures
        ToMetaFactory::<FromClosure<(
            A1, A2, A3, A4, A5, A6, A7, A8, A9, A10, A11
        ), T>>::callable(&f) <==> (
            forall|
                x1: A1, x2: A2, x3: A3, x4: A4, x5: A5, x6: A6, x7: A7, x8: A8, x9: A9, x10: A10,
                x11: A11,
            | call_requires(f, (x1, x2, x3, x4, x5, x6, x7, x8, x9, x10, x11))),
        ToMetaFactory::<FromClosure<(
            A1, A2, A3, A4, A5, A6, A7, A8, A9, A10, A11
        ), T>>::as_metafactory(f).closure() == f,
        ToMetaFactory::<FromClosure<(
            A1, A2, A3, A4, A5, A6, A7, A8, A9, A10, A11
        ), T>>::as_metafactory(f).argument_types() == 
            seq![
                identity_of::<A1>(), identity_of::<A2>(), identity_of::<A3>(), identity_of::<A4>(),
                identity_of::<A5>(), identity_of::<A6>(), identity_of::<A7>(), identity_of::<A8>(),
                identity_of::<A9>(), identity_of::<A10>(), identity_of::<A11>(),
            ],
        ToMetaFactory::<FromClosure<(
            A1, A2, A3, A4, A5, A6, A7, A8, A9, A10, A11
        ), T>>::as_metafactory(f).result_type() == identity_of::<T>(),
{
}

impl<
    A1: Reflect, A2: Reflect, A3: Reflect, A4: Reflect, A5: Reflect, A6: Reflect, A7: Reflect,
    A8: Reflect, A9: Reflect, A10: Reflect, A11: Reflect, T: Reflect,
    F: Fn(A1, A2, A3, A4, A5, A6, A7, A8, A9, A10, A11) -> T + 'static,
> MetaFactory for Closure11<A1, A2, A3, A4, A5, A6, A7, A8, A9, A10, A11, T, F> {
    open spec fn result_type(&self) -> TypeShape {
        identity_of::<T>()
    }

    open spec fn argument_types(&self) -> Seq<TypeShape> {
        seq![
            identity_of::<A1>(), identity_of::<A2>(), identity_of::<A3>(), identity_of::<A4>(),
            identity_of::<A5>(), identity_of::<A6>(), identity_of::<A7>(), identity_of::<A8>(),
            identity_of::<A9>(), identity_of::<A10>(), identity_of::<A11>(),
        ]
    }

    open spec fn yields(&self, args: Seq<Erased>, out: Erased) -> bool {
        applies11(
            self.closure(),
            args[0].content::<A1>(),
            args[1].content::<A2>(),
            args[2].content::<A3>(),
            args[3].content::<A4>(),
            args[4].content::<A5>(),
            args[5].content::<A6>(),
            args[6].content::<A7>(),
            args[7].content::<A8>(),
            args[8].content::<A9>(),
            args[9].content::<A10>(),
            args[10].content::<A11>(),
            out.content::<T>(),
        )
    }

    fn get_type(&self) -> (r: TypeDef) {
        type_def_of::<T>()
    }

    fn get_arg_types(&self) -> (r: Vec<TypeDef>) {
        // Just go over the types and output TypeDefs for them.
        let mut types: Vec<TypeDef> = Vec::with_capacity(11);
        types.push(type_def_of::<A1>());
        types.push(type_def_of::<A2>());
        types.push(type_def_of::<A3>());
        types.push(type_def_of::<A4>());
        types.push(type_def_of::<A5>());
        types.push(type_def_of::<A6>());
        types.push(type_def_of::<A7>());
        types.push(type_def_of::<A8>());
        types.push(type_def_of::<A9>());
        types.push(type_def_of::<A10>());
        types.push(type_def_of::<A11>());
        assert(types@ =~= descriptors(self.argument_types()));
        types
    }

    /// The arguments that meet an error are answered with it, and only
    /// those.
    fn new(&self, arg_getters: Vec<AnyFactory>) -> (r: Result<AnyFactory, FactoryErrorKind>)
        ensures
            instantiation_error(self.argument_types(), units(arg_getters@)) is Some ==> r is Err,
    {
        proof {
            use_type_invariant(self);
        }
        let ghost expected = self.argument_types();
        let ghost given = units(arg_getters@);

        // Return error if count does not match.
        let required_argc: usize = 11;
        match check_count(required_argc, arg_getters.len()) {
            Ok(_) => {},
            Err(e) => return Err(e),
        }

        // Return error if factory does not have a correct type.
        let a1 = match argument::<A1>(&arg_getters, 0, Ghost(expected)) {
            Ok(factory) => factory,
            Err(e) => return Err(e),
        };
        let a2 = match argument::<A2>(&arg_getters, 1, Ghost(expected)) {
            Ok(factory) => factory,
            Err(e) => return Err(e),
        };
        let a3 = match argument::<A3>(&arg_getters, 2, Ghost(expected)) {
            Ok(factory) => factory,
            Err(e) => return Err(e),
        };
        let a4 = match argument::<A4>(&arg_getters, 3, Ghost(expected)) {
            Ok(factory) => factory,
            Err(e) => return Err(e),
        };
        let a5 = match argument::<A5>(&arg_getters, 4, Ghost(expected)) {
            Ok(factory) => factory,
            Err(e) => return Err(e),
        };
        let a6 = match argument::<A6>(&arg_getters, 5, Ghost(expected)) {
            Ok(factory) => factory,
            Err(e) => return Err(e),
        };
        let a7 = match argument::<A7>(&arg_getters, 6, Ghost(expected)) {
            Ok(factory) => factory,
            Err(e) => return Err(e),
        };
        let a8 = match argument::<A8>(&arg_getters, 7, Ghost(expected)) {
            Ok(factory) => factory,
            Err(e) => return Err(e),
        };
        let a9 = match argument::<A9>(&arg_getters, 8, Ghost(expected)) {
            Ok(factory) => factory,
            Err(e) => return Err(e),
        };
        let a10 = match argument::<A10>(&arg_getters, 9, Ghost(expected)) {
            Ok(factory) => factory,
            Err(e) => return Err(e),
        };
        let a11 = match argument::<A11>(&arg_getters, 10, Ghost(expected)) {
            Ok(factory) => factory,
            Err(e) => return Err(e),
        };

        // Build factory instance for THIS closure copy, passing
        // all parent factories as arguments.
        proof {
            lemma_no_mismatch(expected, given);
        }
        let scope = GetterScope11::<A1, A2, A3, A4, A5, A6, A7, A8, A9, A10, A11, T, F> {
            a1,
            a2,
            a3,
            a4,
            a5,
            a6,
            a7,
            a8,
            a9,
            a10,
            a11,
            closure: share(&self.closure),
            marker: PhantomData,
        };
        let ghost getter = scope;
        let factory = Factory::new(Box::new(scope));
        assert(getter.a1 == a1);
        assert(getter.a2 == a2);
        assert(getter.a3 == a3);
        assert(getter.a4 == a4);
        assert(getter.a5 == a5);
        assert(getter.a6 == a6);
        assert(getter.a7 == a7);
        assert(getter.a8 == a8);
        assert(getter.a9 == a9);
        assert(getter.a10 == a10);
        assert(getter.a11 == a11);
        assert(*getter.closure == self.closure());
        assert forall|v: T| factory.produces(v) <==>
            exists|
                x1: A1, x2: A2, x3: A3, x4: A4, x5: A5, x6: A6, x7: A7, x8: A8, x9: A9, x10: A10,
                x11: A11,
            |
            a1.produces(x1) && a2.produces(x2) && a3.produces(x3) && a4.produces(x4)
            && a5.produces(x5) && a6.produces(x6) && a7.produces(x7) && a8.produces(x8)
            && a9.produces(x9) && a10.produces(x10) && a11.produces(x11)
            && call_ensures(self.closure(), (x1, x2, x3, x4, x5, x6, x7, x8, x9, x10, x11), v) by {
            assert(factory.produces(v) == getter.produces(v));
            assert(getter.produces(v) == (
                exists|
                    x1: A1, x2: A2, x3: A3, x4: A4, x5: A5, x6: A6, x7: A7, x8: A8, x9: A9,
                    x10: A10, x11: A11,
                |
                getter.a1.produces(x1) && getter.a2.produces(x2) && getter.a3.produces(x3)
                && getter.a4.produces(x4) && getter.a5.produces(x5)
                && getter.a6.produces(x6) && getter.a7.produces(x7)
                && getter.a8.produces(x8) && getter.a9.produces(x9)
                && getter.a10.produces(x10) && getter.a11.produces(x11)
                && call_ensures(*getter.closure, (x1, x2, x3, x4, x5, x6, x7, x8, x9, x10, x11), v)));
        }
        Ok(AnyFactory::new(factory))
    }

    fn new_aggregate(&self) -> (r: Aggregate)
        ensures
            r.container_type() == identity_of::<Vec<T>>(),
            forall|children: Seq<Erased>, out: Erased|
                r.gathers(children, out) == aggregates::<T>(children, out),
    {
        Aggregate::new::<T>()
    }
}

/// A unit built from a closure of eleven arguments produces exactly what the
/// closure may return for values that the argument units produce, each
/// unit giving the argument at its own position.
pub proof fn lemma_closure11_produces<
    A1: Reflect, A2: Reflect, A3: Reflect, A4: Reflect, A5: Reflect, A6: Reflect, A7: Reflect,
    A8: Reflect, A9: Reflect, A10: Reflect, A11: Reflect, T: Reflect,
    F: Fn(A1, A2, A3, A4, A5, A6, A7, A8, A9, A10, A11) -> T + 'static,
>(
    meta: Closure11<A1, A2, A3, A4, A5, A6, A7, A8, A9, A10, A11, T, F>,
    args: Seq<Erased>,
    unit: Erased,
    v: T,
)
    requires
        meta.yields(args, unit),
    ensures
        unit.content::<T>().produces(v) <==>
            exists|
                x1: A1, x2: A2, x3: A3, x4: A4, x5: A5, x6: A6, x7: A7, x8: A8, x9: A9, x10: A10,
                x11: A11,
            |
            args[0].content::<A1>().produces(x1) && args[1].content::<A2>().produces(x2)
            && args[2].content::<A3>().produces(x3) && args[3].content::<A4>().produces(x4)
            && args[4].content::<A5>().produces(x5) && args[5].content::<A6>().produces(x6)
            && args[6].content::<A7>().produces(x7) && args[7].content::<A8>().produces(x8)
            && args[8].content::<A9>().produces(x9)
            && args[9].content::<A10>().produces(x10)
            && args[10].content::<A11>().produces(x11)
            && call_ensures(meta.closure(), (x1, x2, x3, x4, x5, x6, x7, x8, x9, x10, x11), v),
{
}

/// Whether `out` produces exactly what `closure` may return for arguments that
/// the given factories produce, and nothing else.
pub open spec fn applies12<
    A1, A2, A3, A4, A5, A6, A7, A8, A9, A10, A11, A12, T,
    F: Fn(A1, A2, A3, A4, A5, A6, A7, A8, A9, A10, A11, A12) -> T,
>(
    closure: F,
    a1: Factory<A1>, a2: Factory<A2>, a3: Factory<A3>, a4: Factory<A4>, a5: Factory<A5>,
    a6: Factory<A6>, a7: Factory<A7>, a8: Factory<A8>, a9: Factory<A9>, a10: Factory<A10>,
    a11: Factory<A11>, a12: Factory<A12>,
    out: Factory<T>,
) -> bool {
    forall|v: T|
        out.produces(v) <==>
            exists|
                x1: A1, x2: A2, x3: A3, x4: A4, x5: A5, x6: A6, x7: A7, x8: A8, x9: A9, x10: A10,
                x11: A11, x12: A12,
            |
            a1.produces(x1) && a2.produces(x2) && a3.produces(x3) && a4.produces(x4)
            && a5.produces(x5) && a6.produces(x6) && a7.produces(x7) && a8.produces(x8)
            && a9.produces(x9) && a10.produces(x10) && a11.produces(x11)
            && a12.produces(x12)
            && call_ensures(closure, (x1, x2, x3, x4, x5, x6, x7, x8, x9, x10, x11, x12), v)
}

/// Contains references to parent factories, so they
/// can be invoked directly to get arguments for the closure.
#[verifier::reject_recursive_types(A1)]
#[verifier::reject_recursive_types(A2)]
#[verifier::reject_recursive_types(A3)]
#[verifier::reject_recursive_types(A4)]
#[verifier::reject_recursive_types(A5)]
#[verifier::reject_recursive_types(A6)]
#[verifier::reject_recursive_types(A7)]
#[verifier::reject_recursive_types(A8)]
#[verifier::reject_recursive_types(A9)]
#[verifier::reject_recursive_types(A10)]
#[verifier::reject_recursive_types(A11)]
#[verifier::reject_recursive_types(A12)]
#[verifier::reject_recursive_types(T)]
#[verifier::reject_recursive_types(F)]
pub struct GetterScope12<
    A1, A2, A3, A4, A5, A6, A7, A8, A9, A10, A11, A12, T,
    F: Fn(A1, A2, A3, A4, A5, A6, A7, A8, A9, A10, A11, A12) -> T,
> {
    // References to argument factories.
    a1: Factory<A1>,
    a2: Factory<A2>,
    a3: Factory<A3>,
    a4: Factory<A4>,
    a5: Factory<A5>,
    a6: Factory<A6>,
    a7: Factory<A7>,
    a8: Factory<A8>,
    a9: Factory<A9>,
    a10: Factory<A10>,
    a11: Factory<A11>,
    a12: Factory<A12>,
    // Closure reference.
    closure: Rc<F>,
    marker: PhantomData<T>,
}

impl<
    A1, A2, A3, A4, A5, A6, A7, A8, A9, A10, A11, A12, T,
    F: Fn(A1, A2, A3, A4, A5, A6, A7, A8, A9, A10, A11, A12) -> T,
> GetterScope12<A1, A2, A3, A4, A5, A6, A7, A8, A9, A10, A11, A12, T, F> {
    #[verifier::type_invariant]
    spec fn total(self) -> bool {
        forall|
            x1: A1, x2: A2, x3: A3, x4: A4, x5: A5, x6: A6, x7: A7, x8: A8, x9: A9, x10: A10,
            x11: A11, x12: A12,
        | call_requires(*self.closure, (x1, x2, x3, x4, x5, x6, x7, x8, x9, x10, x11, x12))
    }
}

/// Use GetterScope12 as a value getter. This is part
/// that is actually used at runtime.
impl<
    A1, A2, A3, A4, A5, A6, A7, A8, A9, A10, A11, A12, T,
    F: Fn(A1, A2, A3, A4, A5, A6, A7, A8, A9, A10, A11, A12) -> T,
> Getter<T> for GetterScope12<A1, A2, A3, A4, A5, A6, A7, A8, A9, A10, A11, A12, T, F> {
    closed spec fn produces(&self, v: T) -> bool {
        exists|
            x1: A1, x2: A2, x3: A3, x4: A4, x5: A5, x6: A6, x7: A7, x8: A8, x9: A9, x10: A10,
            x11: A11, x12: A12,
        |
            self.a1.produces(x1) && self.a2.produces(x2) && self.a3.produces(x3)
            && self.a4.produces(x4) && self.a5.produces(x5) && self.a6.produces(x6)
            && self.a7.produces(x7) && self.a8.produces(x8) && self.a9.produces(x9)
            && self.a10.produces(x10) && self.a11.produces(x11) && self.a12.produces(x12)
            && call_ensures(*self.closure, (x1, x2, x3, x4, x5, x6, x7, x8, x9, x10, x11, x12), v)
    }

    fn take(&self) -> (r: T) {
        proof {
            use_type_invariant(self);
        }
        let x1 = self.a1.take();
        let x2 = self.a2.take();
        let x3 = self.a3.take();
        let x4 = self.a4.take();
        let x5 = self.a5.take();
        let x6 = self.a6.take();
        let x7 = self.a7.take();
        let x8 = self.a8.take();
        let x9 = self.a9.take();
        let x10 = self.a10.take();
        let x11 = self.a11.take();
        let x12 = self.a12.take();
        let closure: &F = &self.closure;
        closure(x1, x2, x3, x4, x5, x6, x7, x8, x9, x10, x11, x12)
    }
}

/// The metafactory of a closure of twelve arguments.
#[verifier::reject_recursive_types(A1)]
#[verifier::reject_recursive_types(A2)]
#[verifier::reject_recursive_types(A3)]
#[verifier::reject_recursive_types(A4)]
#[verifier::reject_recursive_types(A5)]
#[verifier::reject_recursive_types(A6)]
#[verifier::reject_recursive_types(A7)]
#[verifier::reject_recursive_types(A8)]
#[verifier::reject_recursive_types(A9)]
#[verifier::reject_recursive_types(A10)]
#[verifier::reject_recursive_types(A11)]
#[verifier::reject_recursive_types(A12)]
#[verifier::reject_recursive_types(T)]
#[verifier::reject_recursive_types(F)]
pub struct Closure12<
    A1, A2, A3, A4, A5, A6, A7, A8, A9, A10, A11, A12, T,
    F: Fn(A1, A2, A3, A4, A5, A6, A7, A8, A9, A10, A11, A12) -> T,
> {
    closure: Rc<F>,
    marker: PhantomData<(A1, A2, A3, A4, A5, A6, A7, A8, A9, A10, A11, A12, T)>,
}

impl<
    A1, A2, A3, A4, A5, A6, A7, A8, A9, A10, A11, A12, T,
    F: Fn(A1, A2, A3, A4, A5, A6, A7, A8, A9, A10, A11, A12) -> T,
> Closure12<A1, A2, A3, A4, A5, A6, A7, A8, A9, A10, A11, A12, T, F> {
    #[verifier::type_invariant]
    spec fn total(self) -> bool {
        forall|
            x1: A1, x2: A2, x3: A3, x4: A4, x5: A5, x6: A6, x7: A7, x8: A8, x9: A9, x10: A10,
            x11: A11, x12: A12,
        | call_requires(*self.closure, (x1, x2, x3, x4, x5, x6, x7, x8, x9, x10, x11, x12))
    }

    /// The closure that the metafactory was made of.
    pub closed spec fn closure(&self) -> F {
        *self.closure
    }
}

/// Implement `ToMetaFactory` conversion for closures
/// |A1, A2, A3, A4, A5, A6, A7, A8, A9, A10, A11, A12| -> T
impl<
    A1: Reflect, A2: Reflect, A3: Reflect, A4: Reflect, A5: Reflect, A6: Reflect, A7: Reflect,
    A8: Reflect, A9: Reflect, A10: Reflect, A11: Reflect, A12: Reflect, T: Reflect,
    F: Fn(A1, A2, A3, A4, A5, A6, A7, A8, A9, A10, A11, A12) -> T + 'static,
> ToMetaFactory<FromClosure<(A1, A2, A3, A4, A5, A6, A7, A8, A9, A10, A11, A12), T>> for F {
    type Meta = Closure12<A1, A2, A3, A4, A5, A6, A7, A8, A9, A10, A11, A12, T, F>;

    open spec fn callable(&self) -> bool {
        forall|
            x1: A1, x2: A2, x3: A3, x4: A4, x5: A5, x6: A6, x7: A7, x8: A8, x9: A9, x10: A10,
            x11: A11, x12: A12,
        | call_requires(*self, (x1, x2, x3, x4, x5, x6, x7, x8, x9, x10, x11, x12))
    }

    closed spec fn as_metafactory(self) -> Closure12<
        A1, A2, A3, A4, A5, A6, A7, A8, A9, A10, A11, A12, T, F,
    > {
        Closure12 { closure: Rc::new(self), marker: PhantomData }
    }

    fn to_metafactory(self) -> (r: Closure12<
        A1, A2, A3, A4, A5, A6, A7, A8, A9, A10, A11, A12, T, F,
    >) {
        Closure12 { closure: Rc::new(self), marker: PhantomData }
    }
}

/// What the metafactory of a closure of twelve arguments is: it is made of that
/// closure, takes the argument types of the closure in their order and returns what the
/// closure returns. The closure is a source where it can be called whatever
/// its arguments are.
pub proof fn lemma_closure12_of<
    A1: Reflect, A2: Reflect, A3: Reflect, A4: Reflect, A5: Reflect, A6: Reflect, A7: Reflect,
    A8: Reflect, A9: Reflect, A10: Reflect, A11: Reflect, A12: Reflect, T: Reflect,
    F: Fn(A1, A2, A3, A4, A5, A6, A7, A8, A9, A10, A11, A12) -> T + 'static,
>(f: F)
    ensures
        ToMetaFactory::<FromClosure<(
            A1, A2, A3, A4, A5, A6, A7, A8, A9, A10, A11, A12
        ), T>>::callable(&f) <==> (
            forall|
                x1: A1, x2: A2, x3: A3, x4: A4, x5: A5, x6: A6, x7: A7, x8: A8, x9: A9, x10: A10,
                x11: A11, x12: A12,
            | call_requires(f, (x1, x2, x3, x4, x5, x6, x7, x8, x9, x10, x11, x12))),
        ToMetaFactory::<FromClosure<(
            A1, A2, A3, A4, A5, A6, A7, A8, A9, A10, A11, A12
        ), T>>::as_metafactory(f).closure() == f,
        ToMetaFactory::<FromClosure<(
            A1, A2, A3, A4, A5, A6, A7, A8, A9, A10, A11, A12
        ), T>>::as_metafactory(f).argument_types() == 
            seq![
                identity_of::<A1>(), identity_of::<A2>(), identity_of::<A3>(), identity_of::<A4>(),
                identity_of::<A5>(), identity_of::<A6>(), identity_of::<A7>(), identity_of::<A8>(),
                identity_of::<A9>(), identity_of::<A10>(), identity_of::<A11>(),
                identity_of::<A12>(),
            ],
        ToMetaFactory::<FromClosure<(
            A1, A2, A3, A4, A5, A6, A7, A8, A9, A10, A11, A12
        ), T>>::as_metafactory(f).result_type() == identity_of::<T>(),
{
}

impl<
    A1: Reflect, A2: Reflect, A3: Reflect, A4: Reflect, A5: Reflect, A6: Reflect, A7: Reflect,
    A8: Reflect, A9: Reflect, A10: Reflect, A11: Reflect, A12: Reflect, T: Reflect,
    F: Fn(A1, A2, A3, A4, A5, A6, A7, A8, A9, A10, A11, A12) -> T + 'static,
> MetaFactory for Closure12<A1, A2, A3, A4, A5, A6, A7, A8, A9, A10, A11, A12, T, F> {
    open spec fn result_type(&self) -> TypeShape {
        identity_of::<T>()
    }

    open spec fn argument_types(&self) -> Seq<TypeShape> {
        seq![
            identity_of::<A1>(), identity_of::<A2>(), identity_of::<A3>(), identity_of::<A4>(),
            identity_of::<A5>(), identity_of::<A6>(), identity_of::<A7>(), identity_of::<A8>(),
            identity_of::<A9>(), identity_of::<A10>(), identity_of::<A11>(), identity_of::<A12>(),
        ]
    }

    open spec fn yields(&self, args: Seq<Erased>, out: Erased) -> bool {
        applies12(
            self.closure(),
            args[0].content::<A1>(),
            args[1].content::<A2>(),
            args[2].content::<A3>(),
            args[3].content::<A4>(),
            args[4].content::<A5>(),
            args[5].content::<A6>(),
            args[6].content::<A7>(),
            args[7].content::<A8>(),
            args[8].content::<A9>(),
            args[9].content::<A10>(),
            args[10].content::<A11>(),
            args[11].content::<A12>(),
            out.content::<T>(),
        )
    }

    fn get_type(&self) -> (r: TypeDef) {
        type_def_of::<T>()
    }

    fn get_arg_types(&self) -> (r: Vec<TypeDef>) {
        // Just go over the types and output TypeDefs for them.
        let mut types: Vec<TypeDef> = Vec::with_capacity(12);
        types.push(type_def_of::<A1>());
        types.push(type_def_of::<A2>());
        types.push(type_def_of::<A3>());
        types.push(type_def_of::<A4>());
        types.push(type_def_of::<A5>());
        types.push(type_def_of::<A6>());
        types.push(type_def_of::<A7>());
        types.push(type_def_of::<A8>());
        types.push(type_def_of::<A9>());
        types.push(type_def_of::<A10>());
        types.push(type_def_of::<A11>());
        types.push(type_def_of::<A12>());
        assert(types@ =~= descriptors(self.argument_types()));
        types
    }

    /// The arguments that meet an error are answered with it, and only
    /// those.
    fn new(&self, arg_getters: Vec<AnyFactory>) -> (r: Result<AnyFactory, FactoryErrorKind>)
        ensures
            instantiation_error(self.argument_types(), units(arg_getters@)) is Some ==> r is Err,
    {
        proof {
            use_type_invariant(self);
        }
        let ghost expected = self.argument_types();
        let ghost given = units(arg_getters@);

        // Return error if count does not match.
        let required_argc: usize = 12;
        match check_count(required_argc, arg_getters.len()) {
            Ok(_) => {},
            Err(e) => return Err(e),
        }

        // Return error if factory does not have a correct type.
        let a1 = match argument::<A1>(&arg_getters, 0, Ghost(expected)) {
            Ok(factory) => factory,
            Err(e) => return Err(e),
        };
        let a2 = match argument::<A2>(&arg_getters, 1, Ghost(expected)) {
            Ok(factory) => factory,
            Err(e) => return Err(e),
        };
        let a3 = match argument::<A3>(&arg_getters, 2, Ghost(expected)) {
            Ok(factory) => factory,
            Err(e) => return Err(e),
        };
        let a4 = match argument::<A4>(&arg_getters, 3, Ghost(expected)) {
            Ok(factory) => factory,
            Err(e) => return Err(e),
        };
        let a5 = match argument::<A5>(&arg_getters, 4, Ghost(expected)) {
            Ok(factory) => factory,
            Err(e) => return Err(e),
        };
        let a6 = match argument::<A6>(&arg_getters, 5, Ghost(expected)) {
            Ok(factory) => factory,
            Err(e) => return Err(e),
        };
        let a7 = match argument::<A7>(&arg_getters, 6, Ghost(expected)) {
            Ok(factory) => factory,
            Err(e) => return Err(e),
        };
        let a8 = match argument::<A8>(&arg_getters, 7, Ghost(expected)) {
            Ok(factory) => factory,
            Err(e) => return Err(e),
        };
        let a9 = match argument::<A9>(&arg_getters, 8, Ghost(expected)) {
            Ok(factory) => factory,
            Err(e) => return Err(e),
        };
        let a10 = match argument::<A10>(&arg_getters, 9, Ghost(expected)) {
            Ok(factory) => factory,
            Err(e) => return Err(e),
        };
        let a11 = match argument::<A11>(&arg_getters, 10, Ghost(expected)) {
            Ok(factory) => factory,
            Err(e) => return Err(e),
        };
        let a12 = match argument::<A12>(&arg_getters, 11, Ghost(expected)) {
            Ok(factory) => factory,
            Err(e) => return Err(e),
        };

        // Build factory instance for THIS closure copy, passing
        // all parent factories as arguments.
        proof {
            lemma_no_mismatch(expected, given);
        }
        let scope = GetterScope12::<A1, A2, A3, A4, A5, A6, A7, A8, A9, A10, A11, A12, T, F> {
            a1,
            a2,
            a3,
            a4,
            a5,
            a6,
            a7,
            a8,
            a9,
            a10,
            a11,
            a12,
            closure: share(&self.closure),
            marker: PhantomData,
        };
        let ghost getter = scope;
        let factory = Factory::new(Box::new(scope));
        assert(getter.a1 == a1);
        assert(getter.a2 == a2);
        assert(getter.a3 == a3);
        assert(getter.a4 == a4);
        assert(getter.a5 == a5);
        assert(getter.a6 == a6);
        assert(getter.a7 == a7);
        assert(getter.a8 == a8);
        assert(getter.a9 == a9);
        assert(getter.a10 == a10);
        assert(getter.a11 == a11);
        assert(getter.a12 == a12);
        assert(*getter.closure == self.closure());
        assert forall|v: T| factory.produces(v) <==>
            exists|
                x1: A1, x2: A2, x3: A3, x4: A4, x5: A5, x6: A6, x7: A7, x8: A8, x9: A9, x10: A10,
                x11: A11, x12: A12,
            |
            a1.produces(x1) && a2.produces(x2) && a3.produces(x3) && a4.produces(x4)
            && a5.produces(x5) && a6.produces(x6) && a7.produces(x7) && a8.produces(x8)
            && a9.produces(x9) && a10.produces(x10) && a11.produces(x11)
            && a12.produces(x12)
            && call_ensures(self.closure(), (x1, x2, x3, x4, x5, x6, x7, x8, x9, x10, x11, x12), v) by {
            assert(factory.produces(v) == getter.produces(v));
            assert(getter.produces(v) == (
                exists|
                    x1: A1, x2: A2, x3: A3, x4: A4, x5: A5, x6: A6, x7: A7, x8: A8, x9: A9,
                    x10: A10, x11: A11, x12: A12,
                |
                getter.a1.produces(x1) && getter.a2.produces(x2) && getter.a3.produces(x3)
                && getter.a4.produces(x4) && getter.a5.produces(x5)
                && getter.a6.produces(x6) && getter.a7.produces(x7)
                && getter.a8.produces(x8) && getter.a9.produces(x9)
                && getter.a10.produces(x10) && getter.a11.produces(x11)
                && getter.a12.produces(x12)
                && call_ensures(*getter.closure, (x1, x2, x3, x4, x5, x6, x7, x8, x9, x10, x11, x12), v)));
        }
        Ok(AnyFactory::new(factory))
    }

    fn new_aggregate(&self) -> (r: Aggregate)
        ensures
            r.container_type() == identity_of::<Vec<T>>(),
            forall|children: Seq<Erased>, out: Erased|
                r.gathers(children, out) == aggregates::<T>(children, out),
    {
        Aggregate::new::<T>()
    }
}

/// A unit built from a closure of twelve arguments produces exactly what the
/// closure may return for values that the argument units produce, each
/// unit giving the argument at its own position.
pub proof fn lemma_closure12_produces<
    A1: Reflect, A2: Reflect, A3: Reflect, A4: Reflect, A5: Reflect, A6: Reflect, A7: Reflect,
    A8: Reflect, A9: Reflect, A10: Reflect, A11: Reflect, A12: Reflect, T: Reflect,
    F: Fn(A1, A2, A3, A4, A5, A6, A7, A8, A9, A10, A11, A12) -> T + 'static,
>(
    meta: Closure12<A1, A2, A3, A4, A5, A6, A7, A8, A9, A10, A11, A12, T, F>,
    args: Seq<Erased>,
    unit: Erased,
    v: T,
)
    requires
        meta.yields(args, unit),
    ensures
        unit.content::<T>().produces(v) <==>
            exists|
                x1: A1, x2: A2, x3: A3, x4: A4, x5: A5, x6: A6, x7: A7, x8: A8, x9: A9, x10: A10,
                x11: A11, x12: A12,
            |
            args[0].content::<A1>().produces(x1) && args[1].content::<A2>().produces(x2)
            && args[2].content::<A3>().produces(x3) && args[3].content::<A4>().produces(x4)
            && args[4].content::<A5>().produces(x5) && args[5].content::<A6>().produces(x6)
            && args[6].content::<A7>().produces(x7) && args[7].content::<A8>().produces(x8)
            && args[8].content::<A9>().produces(x9)
            && args[9].content::<A10>().produces(x10)
            && args[10].content::<A11>().produces(x11)
            && args[11].content::<A12>().produces(x12)
            && call_ensures(meta.closure(), (x1, x2, x3, x4, x5, x6, x7, x8, x9, x10, x11, x12), v),
{
}

} // verus!
