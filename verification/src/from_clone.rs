//! This implements metafactory construction from cloneable value.

use crate::aggregate::Aggregate;
use crate::error::FactoryErrorKind;
use crate::factory::{AnyFactory, Erased, Factory, Getter};
use crate::identity::{descriptors, identity_of, type_def_of, Reflect, TypeShape};
use crate::{MetaFactory, ToMetaFactory};
use typedef::TypeDef;
use vstd::prelude::*;

verus! {

/// The metafactory of a cloneable value: it takes no arguments, and its
/// units hand out clones of the value.
pub struct CloneableMetaFactory<T> {
    pub value: T,
}

/// The getter of a cloneable value: each `take` is a clone of it.
pub struct CloneableValue<T> {
    pub value: T,
}

/// The shape of a source that is a cloneable value.
pub struct FromClone;

/// Whether `unit` produces the clones of one clone of `value`, and nothing
/// else.
pub open spec fn hands_out_clones<T: Clone + Reflect>(value: T, unit: Erased) -> bool {
    exists|kept: T| #[trigger]
        cloned(value, kept) && forall|v: T| unit.content::<T>().produces(v) <==> cloned(kept, v)
}

/// Creates `MetaFactory` for cloneable value.
impl<T: Reflect + Clone> ToMetaFactory<FromClone> for T {
    type Meta = CloneableMetaFactory<T>;

    open spec fn callable(&self) -> bool {
        true
    }

    open spec fn as_metafactory(self) -> CloneableMetaFactory<T> {
        CloneableMetaFactory { value: self }
    }

    fn to_metafactory(self) -> (r: CloneableMetaFactory<T>) {
        CloneableMetaFactory { value: self }
    }
}

impl<T: Reflect + Clone> MetaFactory for CloneableMetaFactory<T> {
    open spec fn result_type(&self) -> TypeShape {
        identity_of::<T>()
    }

    open spec fn argument_types(&self) -> Seq<TypeShape> {
        Seq::empty()
    }

    open spec fn yields(&self, args: Seq<Erased>, out: Erased) -> bool {
        hands_out_clones(self.value, out)
    }

    fn get_type(&self) -> (r: TypeDef) {
        type_def_of::<T>()
    }

    fn get_arg_types(&self) -> (r: Vec<TypeDef>) {
        let types: Vec<TypeDef> = Vec::new();
        assert(types@ =~= descriptors(self.argument_types()));
        types
    }

    /// A cloneable value is asked nothing of its arguments: whatever they
    /// are, the unit is built.
    fn new(&self, _arg_getters: Vec<AnyFactory>) -> (r: Result<AnyFactory, FactoryErrorKind>)
        ensures
            r is Ok,
    {
        let kept = self.value.clone();
        let factory = Factory::new(Box::new(CloneableValue::<T> { value: kept }));
        let unit = AnyFactory::new(factory);
        assert(cloned(self.value, kept));
        Ok(unit)
    }

    fn new_aggregate(&self) -> (r: Aggregate)
        ensures
            r.container_type() == identity_of::<Vec<T>>(),
            forall|children: Seq<Erased>, out: Erased|
                r.gathers(children, out) == crate::aggregate::aggregates::<T>(children, out),
    {
        Aggregate::new::<T>()
    }
}

impl<T: Reflect + Clone> Getter<T> for CloneableValue<T> {
    open spec fn produces(&self, v: T) -> bool {
        cloned(self.value, v)
    }

    fn take(&self) -> (r: T) {
        self.value.clone()
    }
}

/// Every value that a unit built from a cloneable value produces is a clone
/// of a clone of that value, at every call.
pub proof fn lemma_cloneable_produces_clones<T: Reflect + Clone>(
    meta: CloneableMetaFactory<T>,
    args: Seq<Erased>,
    unit: Erased,
    v: T,
)
    requires
        meta.yields(args, unit),
        unit.content::<T>().produces(v),
    ensures
        exists|kept: T| #[trigger] cloned(meta.value, kept) && cloned(kept, v),
{
    let kept = choose|kept: T| #[trigger]
        cloned(meta.value, kept) && forall|v: T| unit.content::<T>().produces(v) <==> cloned(kept, v);
    assert(cloned(meta.value, kept) && cloned(kept, v));
}

} // verus!
