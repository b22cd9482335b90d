//! Run-time identities of static types.
//!
//! The library tells types apart twice: when a program runs, by the
//! descriptors of the `typedef` crate, and when it is verified, by a
//! [`TypeShape`], the name of a type written out as a tree. The two must
//! agree. That is why a unit can only produce a type that implements
//! [`Reflect`]: each such type has a shape of its own.

use crate::admitted::Admitted;
use std::rc::Rc;
use typedef::TypeDef;
use vstd::prelude::*;

verus! {

/// The descriptor type of the `typedef` crate, carried through as an opaque
/// value.
#[verifier::external_type_specification]
#[verifier::external_body]
pub struct ExTypeDef(typedef::TypeDef);

/// The name of a type, as verification sees it: the code of a type
/// constructor, applied to the shapes of its type arguments.
pub enum TypeShape {
    /// A type that takes no type argument.
    Plain(int),
    /// A type constructor applied to one type.
    One(int, Box<TypeShape>),
    /// A type constructor applied to two types.
    Two(int, Box<TypeShape>, Box<TypeShape>),
    /// A type constructor applied to three types.
    Three(int, Box<TypeShape>, Box<TypeShape>, Box<TypeShape>),
}

/// A type that a unit can produce.
///
/// Such a type has a shape that no other type has, and holds no lifetime but
/// `'static`. A trait object or a function pointer with a lifetime bound
/// inside it is one type when the program is verified and several types when
/// it runs, so no shape fits it.
///
/// The types that can be produced are those listed below, and no others:
/// the trait cannot be implemented outside this crate.
pub trait Reflect: Admitted + 'static {
    /// The shape of the type.
    spec fn shape() -> TypeShape;
}

impl Admitted for () {
}

impl Reflect for () {
    open spec fn shape() -> TypeShape {
        TypeShape::Plain(0)
    }
}

impl Admitted for bool {
}

impl Reflect for bool {
    open spec fn shape() -> TypeShape {
        TypeShape::Plain(1)
    }
}

impl Admitted for char {
}

impl Reflect for char {
    open spec fn shape() -> TypeShape {
        TypeShape::Plain(2)
    }
}

impl Admitted for u8 {
}

impl Reflect for u8 {
    open spec fn shape() -> TypeShape {
        TypeShape::Plain(3)
    }
}

impl Admitted for u16 {
}

impl Reflect for u16 {
    open spec fn shape() -> TypeShape {
        TypeShape::Plain(4)
    }
}

impl Admitted for u32 {
}

impl Reflect for u32 {
    open spec fn shape() -> TypeShape {
        TypeShape::Plain(5)
    }
}

impl Admitted for u64 {
}

impl Reflect for u64 {
    open spec fn shape() -> TypeShape {
        TypeShape::Plain(6)
    }
}

impl Admitted for u128 {
}

impl Reflect for u128 {
    open spec fn shape() -> TypeShape {
        TypeShape::Plain(7)
    }
}

impl Admitted for usize {
}

impl Reflect for usize {
    open spec fn shape() -> TypeShape {
        TypeShape::Plain(8)
    }
}

impl Admitted for i8 {
}

impl Reflect for i8 {
    open spec fn shape() -> TypeShape {
        TypeShape::Plain(9)
    }
}

impl Admitted for i16 {
}

impl Reflect for i16 {
    open spec fn shape() -> TypeShape {
        TypeShape::Plain(10)
    }
}

impl Admitted for i32 {
}

impl Reflect for i32 {
    open spec fn shape() -> TypeShape {
        TypeShape::Plain(11)
    }
}

impl Admitted for i64 {
}

impl Reflect for i64 {
    open spec fn shape() -> TypeShape {
        TypeShape::Plain(12)
    }
}

impl Admitted for i128 {
}

impl Reflect for i128 {
    open spec fn shape() -> TypeShape {
        TypeShape::Plain(13)
    }
}

impl Admitted for isize {
}

impl Reflect for isize {
    open spec fn shape() -> TypeShape {
        TypeShape::Plain(14)
    }
}

impl Admitted for String {
}

impl Reflect for String {
    open spec fn shape() -> TypeShape {
        TypeShape::Plain(15)
    }
}

impl Admitted for &'static str {
}

impl Reflect for &'static str {
    open spec fn shape() -> TypeShape {
        TypeShape::Plain(16)
    }
}

impl<T: Reflect> Admitted for Box<T> {
}

impl<T: Reflect> Reflect for Box<T> {
    open spec fn shape() -> TypeShape {
        TypeShape::One(20, Box::new(T::shape()))
    }
}

impl<T: Reflect> Admitted for Vec<T> {
}

impl<T: Reflect> Reflect for Vec<T> {
    open spec fn shape() -> TypeShape {
        TypeShape::One(21, Box::new(T::shape()))
    }
}

impl<T: Reflect> Admitted for Option<T> {
}

impl<T: Reflect> Reflect for Option<T> {
    open spec fn shape() -> TypeShape {
        TypeShape::One(22, Box::new(T::shape()))
    }
}

impl<T: Reflect, E: Reflect> Admitted for Result<T, E> {
}

impl<T: Reflect, E: Reflect> Reflect for Result<T, E> {
    open spec fn shape() -> TypeShape {
        TypeShape::Two(23, Box::new(T::shape()), Box::new(E::shape()))
    }
}

impl<T: Reflect> Admitted for Rc<T> {
}

impl<T: Reflect> Reflect for Rc<T> {
    open spec fn shape() -> TypeShape {
        TypeShape::One(24, Box::new(T::shape()))
    }
}

impl<A: Reflect> Admitted for (A,) {
}

impl<A: Reflect> Reflect for (A,) {
    open spec fn shape() -> TypeShape {
        TypeShape::One(30, Box::new(A::shape()))
    }
}

impl<A: Reflect, B: Reflect> Admitted for (A, B) {
}

impl<A: Reflect, B: Reflect> Reflect for (A, B) {
    open spec fn shape() -> TypeShape {
        TypeShape::Two(31, Box::new(A::shape()), Box::new(B::shape()))
    }
}

impl<A: Reflect, B: Reflect, C: Reflect> Admitted for (A, B, C) {
}

impl<A: Reflect, B: Reflect, C: Reflect> Reflect for (A, B, C) {
    open spec fn shape() -> TypeShape {
        TypeShape::Three(
            32,
            Box::new(A::shape()),
            Box::new(B::shape()),
            Box::new(C::shape()),
        )
    }
}

/// The identity of the type `T`: its shape.
pub open spec fn identity_of<T: Reflect>() -> TypeShape {
    T::shape()
}

/// The descriptor that the program obtains for the type of a given shape.
pub uninterp spec fn descriptor(shape: TypeShape) -> TypeDef;

/// The descriptors of the types of given shapes, in their order.
pub open spec fn descriptors(shapes: Seq<TypeShape>) -> Seq<TypeDef> {
    shapes.map_values(|shape: TypeShape| descriptor(shape))
}

/// Calls `typedef::TypeDef::of::<T>()`.
///
/// Trusted: the descriptor returned for `T` depends on the shape of `T`
/// alone. It does, since no two of the types that have a shape have the same
/// one.
#[verifier::external_body]
pub(crate) fn type_def_of<T: Reflect>() -> (r: TypeDef)
    ensures
        r == descriptor(T::shape()),
{
    TypeDef::of::<T>()
}

} // verus!
