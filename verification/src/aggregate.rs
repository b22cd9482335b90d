//! Implements a factory that aggregates the results of other factories of
//! the same type.

use crate::arguments::{
    instantiation_error, lemma_lowest_mismatch_reported, lemma_no_mismatch, matches_at, uniform,
    units,
};
use crate::error::{ArgTypeMismatch, FactoryErrorKind};
use crate::factory::{AnyFactory, AsFactoryExt, Erased, Factory, Getter};
use crate::identity::{descriptor, identity_of, type_def_of, Reflect, TypeShape};
use core::marker::PhantomData;
use typedef::TypeDef;
use vstd::prelude::*;

verus! {

/// Whether `out` is a unit that yields, at each call, one value of each of
/// the `children` in their order, the children being units that produce `T`.
pub open spec fn aggregates<T: Reflect>(children: Seq<Erased>, out: Erased) -> bool {
    forall|v: Vec<T>|
        out.content::<Vec<T>>().produces(v) <==> v.len() == children.len() && forall|i: int|
            0 <= i < v.len() ==> children[i].content::<T>().produces(#[trigger] v[i])
}

/// The error that `items` meet as children of an aggregate of `element`: the
/// first of them that produces another type is named, with the element type.
pub open spec fn child_error(element: TypeShape, items: Seq<Erased>) -> Option<FactoryErrorKind> {
    instantiation_error(uniform(element, items.len()), items)
}

/// What an aggregate does by the type of its elements, behind one interface
/// for all element types.
pub trait Elements {
    /// The identity of the element type.
    spec fn element(&self) -> TypeShape;

    /// The identity of the type of a vector of elements.
    spec fn container(&self) -> TypeShape;

    /// Whether `out` aggregates `children`, at the element type.
    spec fn gathers(&self, children: Seq<Erased>, out: Erased) -> bool;

    /// Whether the unit produces the element type.
    fn accepts(&self, item: &AnyFactory) -> (r: bool)
        ensures
            r == (item@.shape() == self.element()),
    ;

    /// Makes the unit that aggregates the units of `first`, then those of
    /// `second`.
    fn gather(&self, first: &Vec<AnyFactory>, second: &Vec<AnyFactory>) -> (r: AnyFactory)
        requires
            forall|i: int| 0 <= i < first.len() ==> first[i]@.shape() == self.element(),
            forall|i: int| 0 <= i < second.len() ==> second[i]@.shape() == self.element(),
        ensures
            r@.shape() == self.container(),
            self.gathers(units(first@) + units(second@), r@),
    ;
}

/// The element type `T` of an aggregate.
pub struct ElementsOf<T> {
    marker: PhantomData<T>,
}

impl<T: Reflect> ElementsOf<T> {
    /// Appends to `factories` the factories of `T` that the units of `items`
    /// hold.
    fn collect(factories: &mut Vec<Factory<T>>, items: &Vec<AnyFactory>)
        requires
            forall|i: int| 0 <= i < items.len() ==> items[i]@.shape() == identity_of::<T>(),
        ensures
            final(factories)@ == old(factories)@ + Seq::new(
                items.len() as nat,
                |i: int| items[i]@.content::<T>(),
            ),
    {
        let ghost before = factories@;
        let mut i: usize = 0;
        while i < items.len()
            invariant
                i <= items.len(),
                forall|k: int| 0 <= k < items.len() ==> items[k]@.shape() == identity_of::<T>(),
                factories@ == before + Seq::new(i as nat, |k: int| items[k]@.content::<T>()),
            decreases items.len() - i,
        {
            match items[i].as_factory_clone_of::<T>() {
                Some(factory) => {
                    factories.push(factory);
                },
                None => {
                    assert(false);
                },
            }
            i += 1;
            assert(factories@ =~= before + Seq::new(i as nat, |k: int| items[k]@.content::<T>()));
        }
    }
}

impl<T: Reflect> Elements for ElementsOf<T> {
    open spec fn element(&self) -> TypeShape {
        identity_of::<T>()
    }

    open spec fn container(&self) -> TypeShape {
        identity_of::<Vec<T>>()
    }

    open spec fn gathers(&self, children: Seq<Erased>, out: Erased) -> bool {
        aggregates::<T>(children, out)
    }

    fn accepts(&self, item: &AnyFactory) -> (r: bool) {
        item.as_factory_clone_of::<T>().is_some()
    }

    fn gather(&self, first: &Vec<AnyFactory>, second: &Vec<AnyFactory>) -> (r: AnyFactory) {
        let mut factories: Vec<Factory<T>> = Vec::with_capacity(first.len());
        Self::collect(&mut factories, first);
        Self::collect(&mut factories, second);
        let getter = AggregateGetter::new(factories);
        let factory = Factory::new(Box::new(getter));
        let r = AnyFactory::new(factory);
        proof {
            let children = units(first@) + units(second@);
            assert(factories@.len() == children.len());
            assert forall|i: int| 0 <= i < children.len() implies factories@[i]
                == #[trigger] children[i].content::<T>() by {
                if i < first.len() {
                    assert(children[i] == first[i]@);
                } else {
                    assert(children[i] == second[i - first.len()]@);
                }
            }
            assert forall|v: Vec<T>|
                r@.content::<Vec<T>>().produces(v) <==> v.len() == children.len() && forall|i: int|
                    0 <= i < v.len() ==> children[i].content::<T>().produces(#[trigger] v[i]) by {
                assert(factory.produces(v) == getter.produces(v));
            }
        }
        r
    }
}

/// Proxy for initializing aggregate factory without caring about the type used.
///
/// Its intended use is as a container of factories that produce a
/// value of the same type. Then it can itself be used to create a new factory
/// that aggregates values from all its childs and returns all of them
/// in a `Vec<T>` type for single `take`.
///
/// The most convenient way to initialize a new aggregate is to use
/// `new_aggregate` method on a metafactory. It will make a correctly typed
/// aggregate based on the metafactory type.
///
/// Every child of an aggregate produces the element type: a unit of another
/// type is turned away with an `ArgTypeMismatch`, and never becomes a child.
pub struct Aggregate {
    typedef: TypeDef,
    container_typedef: TypeDef,
    do_new: Box<dyn Elements>,
    children: Vec<AnyFactory>,
}

impl Aggregate {
    #[verifier::type_invariant]
    spec fn well_typed(self) -> bool {
        &&& self.typedef == descriptor(self.do_new.element())
        &&& self.container_typedef == descriptor(self.do_new.container())
        &&& forall|i: int|
            0 <= i < self.children.len() ==> self.children[i]@.shape() == self.do_new.element()
    }

    /// The identity of the element type.
    pub closed spec fn arg_type(&self) -> TypeShape {
        self.do_new.element()
    }

    /// The identity of the type of what the aggregated unit produces.
    pub closed spec fn container_type(&self) -> TypeShape {
        self.do_new.container()
    }

    /// The children, in the order in which they were added.
    pub closed spec fn children(&self) -> Seq<Erased> {
        units(self.children@)
    }

    /// Whether `out` aggregates `children`, at the element type of this
    /// aggregate.
    pub closed spec fn gathers(&self, children: Seq<Erased>, out: Erased) -> bool {
        self.do_new.gathers(children, out)
    }

    /// Whether two aggregates are of one element type.
    pub open spec fn same_kind(&self, other: &Aggregate) -> bool {
        &&& self.arg_type() == other.arg_type()
        &&& self.container_type() == other.container_type()
        &&& forall|children: Seq<Erased>, out: Erased|
            self.gathers(children, out) == other.gathers(children, out)
    }

    /// Create new aggregate instance for specified type.
    pub fn new<T: Reflect>() -> (r: Aggregate)
        ensures
            r.arg_type() == identity_of::<T>(),
            r.container_type() == identity_of::<Vec<T>>(),
            r.children() == Seq::<Erased>::empty(),
            forall|children: Seq<Erased>, out: Erased|
                r.gathers(children, out) == aggregates::<T>(children, out),
    {
        let r = Aggregate {
            typedef: type_def_of::<T>(),
            container_typedef: type_def_of::<Vec<T>>(),
            do_new: Box::new(ElementsOf::<T> { marker: PhantomData }),
            children: Vec::new(),
        };
        assert(r.children() =~= Seq::<Erased>::empty());
        r
    }

    /// Return aggregated type.
    pub fn get_arg_type(&self) -> (r: TypeDef)
        ensures
            r == descriptor(self.arg_type()),
    {
        proof {
            use_type_invariant(self);
        }
        self.typedef
    }

    /// Return container type.
    pub fn get_container_type(&self) -> (r: TypeDef)
        ensures
            r == descriptor(self.container_type()),
    {
        proof {
            use_type_invariant(self);
        }
        self.container_typedef
    }

    /// The position of the first of `items` that does not produce the element
    /// type, if there is one.
    fn first_foreign(&self, items: &Vec<AnyFactory>) -> (r: Option<usize>)
        ensures
            match r {
                Some(i) => child_error(self.arg_type(), units(items@)) == Some(
                    FactoryErrorKind::ArgTypeMismatch(
                        ArgTypeMismatch {
                            expected_type: descriptor(self.arg_type()),
                            argument_index: i,
                        },
                    ),
                ),
                None => child_error(self.arg_type(), units(items@)) is None && forall|i: int|
                    0 <= i < items.len() ==> items[i]@.shape() == self.arg_type(),
            },
    {
        proof {
            use_type_invariant(self);
        }
        let ghost expected = uniform(self.arg_type(), items.len() as nat);
        let ghost given = units(items@);
        let mut i: usize = 0;
        while i < items.len()
            invariant
                i <= items.len(),
                expected == uniform(self.arg_type(), items.len() as nat),
                given == units(items@),
                forall|j: int| 0 <= j < i ==> matches_at(expected, given, j),
            decreases items.len() - i,
        {
            if !self.do_new.accepts(&items[i]) {
                proof {
                    lemma_lowest_mismatch_reported(expected, given, i as int);
                }
                return Some(i);
            }
            i += 1;
        }
        proof {
            lemma_no_mismatch(expected, given);
            assert forall|k: int| 0 <= k < items.len() implies items[k]@.shape()
                == self.arg_type() by {
                assert(matches_at(expected, given, k));
            }
        }
        None
    }

    /// Adds children, in the order given.
    ///
    /// Each of them has to produce the element type. Where one does not,
    /// none is added, and the error names the element type and the position
    /// among `items` of the first one that does not.
    pub fn push(&mut self, items: Vec<AnyFactory>) -> (r: Result<(), FactoryErrorKind>)
        ensures
            final(self).same_kind(old(self)),
            match child_error(old(self).arg_type(), units(items@)) {
                Some(e) => r == Err::<(), FactoryErrorKind>(e) && final(self).children() == old(
                    self,
                ).children(),
                None => r is Ok && final(self).children() == old(self).children() + units(items@),
            },
    {
        proof {
            use_type_invariant(&*self);
        }
        match self.first_foreign(&items) {
            Some(index) => Err(
                FactoryErrorKind::ArgTypeMismatch(ArgTypeMismatch::new(self.typedef, index)),
            ),
            None => {
                let ghost before = self.children@;
                let ghost added = items@;
                let mut items = items;
                let mut children: Vec<AnyFactory> = Vec::new();
                core::mem::swap(&mut self.children, &mut children);
                children.append(&mut items);
                self.children = children;
                assert(units(self.children@) =~= units(before) + units(added));
                Ok(())
            },
        }
    }

    /// Produces the factory of the children added so far.
    ///
    /// If the children make `int` values, this method will make a unit that
    /// makes `Vec<int>` values: at each call one value of each child, in the
    /// order in which the children were added. The aggregate is left as it
    /// is, and takes more children afterwards.
    pub fn finalize(&self) -> (r: AnyFactory)
        ensures
            r@.shape() == self.container_type(),
            self.gathers(self.children(), r@),
    {
        proof {
            use_type_invariant(self);
        }
        let none: Vec<AnyFactory> = Vec::new();
        let r = self.do_new.gather(&self.children, &none);
        assert(units(self.children@) + units(none@) =~= units(self.children@));
        r
    }

    /// Produces factory usable as argument for other factories.
    ///
    /// If inner factories make `int` values, this method will make factory
    /// that makes `Vec<int>` values. The unit aggregates the children added
    /// so far and then `items`, none of which becomes a child.
    ///
    /// Each of `items` has to produce the element type. Where one does not,
    /// the error names the element type and the position among `items` of the
    /// first one that does not.
    pub fn new_factory(&self, items: Vec<AnyFactory>) -> (r: Result<AnyFactory, FactoryErrorKind>)
        ensures
            match child_error(self.arg_type(), units(items@)) {
                Some(e) => r == Err::<AnyFactory, FactoryErrorKind>(e),
                None => r matches Ok(unit) && unit@.shape() == self.container_type()
                    && self.gathers(self.children() + units(items@), unit@),
            },
    {
        proof {
            use_type_invariant(self);
        }
        match self.first_foreign(&items) {
            Some(index) => Err(
                FactoryErrorKind::ArgTypeMismatch(ArgTypeMismatch::new(self.typedef, index)),
            ),
            None => Ok(self.do_new.gather(&self.children, &items)),
        }
    }
}

/// The getter of an aggregated unit: it asks each of its factories in turn.
#[verifier::reject_recursive_types(T)]
pub struct AggregateGetter<T> {
    factories: Vec<Factory<T>>,
}

impl<T> Clone for AggregateGetter<T> {
    fn clone(&self) -> (r: AggregateGetter<T>)
        ensures
            r.factories() == self.factories(),
    {
        let mut factories: Vec<Factory<T>> = Vec::with_capacity(self.factories.len());
        let mut i: usize = 0;
        while i < self.factories.len()
            invariant
                i <= self.factories.len(),
                factories@ == self.factories@.take(i as int),
            decreases self.factories.len() - i,
        {
            factories.push(self.factories[i].clone());
            i += 1;
            assert(factories@ =~= self.factories@.take(i as int));
        }
        assert(factories@ =~= self.factories@);
        AggregateGetter::<T> { factories }
    }
}

impl<T> AggregateGetter<T> {
    /// The factories that are asked, in order.
    pub closed spec fn factories(&self) -> Seq<Factory<T>> {
        self.factories@
    }

    pub fn new(factories: Vec<Factory<T>>) -> (r: AggregateGetter<T>)
        ensures
            r.factories() == factories@,
    {
        AggregateGetter::<T> { factories }
    }
}

impl<T> Getter<Vec<T>> for AggregateGetter<T> {
    /// A vector is produced where it holds, for each factory in turn, one
    /// value that this factory produces.
    open spec fn produces(&self, v: Vec<T>) -> bool {
        &&& v.len() == self.factories().len()
        &&& forall|i: int| 0 <= i < v.len() ==> self.factories()[i].produces(#[trigger] v[i])
    }

    fn take(&self) -> (r: Vec<T>) {
        // Reserve exact result size.
        let mut items = Vec::<T>::with_capacity(self.factories.len());

        // Construct results from factory results.
        let mut i: usize = 0;
        while i < self.factories.len()
            invariant
                i <= self.factories.len(),
                items.len() == i,
                forall|k: int| 0 <= k < i ==> self.factories[k].produces(#[trigger] items[k]),
            decreases self.factories.len() - i,
        {
            let item = self.factories[i].take();
            items.push(item);
            i += 1;
        }

        items
    }
}

} // verus!
