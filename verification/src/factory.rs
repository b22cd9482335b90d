//! Implements a wrapper struct container for internal getter.
//!
//! A [`Factory`] is the typed producing unit, an [`AnyFactory`] the same unit
//! with the type of what it produces forgotten. What a unit produces is
//! described by a relation, [`Factory::produces`]: a source may answer
//! differently from one call to the next, so a unit does not have one value,
//! it has the set of values that it may hand out.

use crate::identity::{identity_of, Reflect, TypeShape};
use std::any::Any;
use std::rc::Rc;
use vstd::prelude::*;

verus! {

/// Gettable value trait.
pub trait Getter<T> {
    /// The values that `take` may return. Where a getter does not say, any
    /// value may come.
    open spec fn produces(&self, v: T) -> bool {
        true
    }

    /// Produce a new value.
    fn take(&self) -> (r: T)
        ensures
            self.produces(r),
    ;
}

/// A factory proxy.
///
/// `Factory` proxy is used to return a concrete value from
/// unknown source. `Factory` will always produce a new owned value -
/// any other pattern can be implemented on top of that.
///
/// The getter behind a factory is never changed once the factory exists, and
/// the clones of a factory share it.
#[verifier::reject_recursive_types(T)]
pub struct Factory<T> {
    getter: Rc<Box<dyn Getter<T>>>,
}

/// Calls `Rc::clone`.
///
/// Trusted: the new pointer leads to the same value as the one it was made
/// from.
#[verifier::external_body]
pub(crate) fn share<T>(rc: &Rc<T>) -> (r: Rc<T>)
    ensures
        r == *rc,
{
    Rc::clone(rc)
}

impl<T> Factory<T> {
    /// The values that this factory may produce: those of its getter.
    pub closed spec fn produces(&self, v: T) -> bool {
        self.getter.produces(v)
    }

    /// Create a new `Factory`.
    ///
    /// Create a new factory from any type that implements `Getter` trait.
    pub fn new(getter: Box<dyn Getter<T>>) -> (r: Factory<T>)
        ensures
            forall|v: T| r.produces(v) == getter.produces(v),
    {
        let shared = Rc::new(getter);
        Factory { getter: shared }
    }

    /// Get a new owned value.
    pub fn take(&self) -> (r: T)
        ensures
            self.produces(r),
    {
        self.getter.take()
    }

    /// Get a new owned value.
    pub fn get(&self) -> (r: T)
        ensures
            self.produces(r),
    {
        self.take()
    }
}

impl<T: Reflect> Factory<T> {
    /// Recovers the factory from a type-erased unit.
    ///
    /// A unit that produces another type than `T` gives `None`.
    pub fn from_any(any: AnyFactory) -> (r: Option<Factory<T>>)
        ensures
            r == any@.downcast::<T>(),
    {
        downcast::<T>(any)
    }
}

impl<T> Clone for Factory<T> {
    /// The clone shares the getter of the factory it was made from, and so
    /// produces what that factory produces.
    fn clone(&self) -> (r: Self)
        ensures
            r == *self,
            forall|v: T| r.produces(v) == self.produces(v),
    {
        Factory { getter: share(&self.getter) }
    }
}

/// What can be asked of a producing unit without naming the type of what it
/// produces.
pub trait Typed {
    /// The shape of the type that the unit produces.
    spec fn shape(&self) -> TypeShape;
}

impl<T: Reflect> Typed for Factory<T> {
    open spec fn shape(&self) -> TypeShape {
        identity_of::<T>()
    }
}

/// The mathematical model of a type-erased producing unit: a factory of some
/// type, seen through [`Typed`].
pub struct Erased {
    pub unit: Box<dyn Typed>,
}

/// The factory `f` with its type forgotten.
pub open spec fn erased<T: Reflect>(f: Factory<T>) -> Erased {
    Erased { unit: Box::new(f) }
}

impl Erased {
    /// The shape of the type that the unit produces.
    pub open spec fn shape(self) -> TypeShape {
        self.unit.shape()
    }

    /// The unit as a factory of `T`. It means something only where the unit
    /// produces `T`.
    pub open spec fn content<T: Reflect>(self) -> Factory<T> {
        choose|f: Factory<T>| erased(f) == self
    }

    /// What a downcast to a factory of `T` gives: the factory inside where
    /// the unit produces `T`, and nothing where it produces another type.
    pub open spec fn downcast<T: Reflect>(self) -> Option<Factory<T>> {
        if self.shape() == identity_of::<T>() {
            Some(self.content::<T>())
        } else {
            None
        }
    }
}

/// A producing unit whose type has been erased.
///
/// It holds a `Factory` of some type behind `Box<dyn Any>`, which verification
/// cannot look into: the struct is trusted, and [`held`] names what is inside.
/// The type that the unit produces is one that implements [`Reflect`].
#[verifier::external_body]
pub struct AnyFactory {
    inner: Box<dyn Any>,
}

/// The unit that an `AnyFactory` holds.
pub uninterp spec fn held(a: AnyFactory) -> Erased;

impl View for AnyFactory {
    type V = Erased;

    open spec fn view(&self) -> Erased {
        held(*self)
    }
}

/// Boxes a factory as `Box<dyn Any>`.
///
/// Trusted: the unit holds exactly this factory, so its content at `T` is
/// `f`.
#[verifier::external_body]
fn erase<T: Reflect>(f: Factory<T>) -> (a: AnyFactory)
    ensures
        held(a) == erased(f),
        held(a).content::<T>() == f,
{
    AnyFactory { inner: Box::new(f) }
}

/// Calls `Box<dyn Any>::downcast::<Factory<T>>()`.
///
/// Trusted: the downcast succeeds exactly where the unit holds a factory of
/// `T`, which is where the shape of what the unit produces is that of `T`: no
/// two of the types that a unit can produce have one shape. It then hands out
/// the factory that the unit holds.
#[verifier::external_body]
fn downcast<T: Reflect>(a: AnyFactory) -> (r: Option<Factory<T>>)
    ensures
        r == held(a).downcast::<T>(),
{
    match a.inner.downcast::<Factory<T>>() {
        Ok(factory) => Some(*factory),
        Err(_) => None,
    }
}

/// Calls `<dyn Any>::downcast_ref::<Factory<T>>()`.
///
/// Trusted: the downcast succeeds exactly where the unit holds a factory of
/// `T`, which is where the shape of what the unit produces is that of `T`. It
/// then lends the factory that the unit holds.
#[verifier::external_body]
fn downcast_ref<T: Reflect>(a: &AnyFactory) -> (r: Option<&Factory<T>>)
    ensures
        match r {
            Some(factory) => held(*a).downcast::<T>() == Some(*factory),
            None => held(*a).downcast::<T>() is None,
        },
{
    a.inner.downcast_ref::<Factory<T>>()
}

impl AnyFactory {
    /// Forgets the type of a factory.
    pub fn new<T: Reflect>(factory: Factory<T>) -> (r: AnyFactory)
        ensures
            r@ == erased(factory),
            r@.shape() == identity_of::<T>(),
            r@.content::<T>() == factory,
    {
        erase(factory)
    }
}

/// Downcast value to `Factory`.
pub trait AsFactoryExt: Sized {
    /// Downcast to factory and consume the type-erased unit.
    fn as_factory_of<T: Reflect>(self) -> Option<Factory<T>>;

    /// Downcast to factory by creating factory clone.
    fn as_factory_clone_of<T: Reflect>(&self) -> Option<Factory<T>>;
}

impl AsFactoryExt for AnyFactory {
    fn as_factory_of<T: Reflect>(self) -> (r: Option<Factory<T>>)
        ensures
            r == self@.downcast::<T>(),
    {
        downcast::<T>(self)
    }

    fn as_factory_clone_of<T: Reflect>(&self) -> (r: Option<Factory<T>>)
        ensures
            r == self@.downcast::<T>(),
    {
        match downcast_ref::<T>(self) {
            Some(factory) => Some(factory.clone()),
            None => None,
        }
    }
}

/// A unit downcasts to the type that it produces, and to no type of another
/// shape.
pub proof fn lemma_downcast_by_type<T: Reflect, U: Reflect>(unit: Erased)
    requires
        unit.shape() == identity_of::<T>(),
        identity_of::<U>() != identity_of::<T>(),
    ensures
        unit.downcast::<T>() == Some(unit.content::<T>()),
        unit.downcast::<U>() is None,
{
}

} // verus!
