//! Representations of C types that know their Rust type.

use crate::middle;
use crate::middle::{Extent, TypeView};
use core::marker::PhantomData;
use vstd::layout::{align_of, size_of};
use vstd::prelude::*;

verus! {

/// Represents a C type statically associated with a Rust type.
///
/// The run-time value describes a particular C type, while the type
/// parameter `T` is the equivalent Rust type. The two always agree in
/// layout: the descriptor in a `Type<T>` has the size and the alignment of
/// `T`. Instances are created via [`CType::reify`], which gives `T` the
/// descriptor that its implementation of [`CType`] names.
#[derive(Debug)]
pub struct Type<T> {
    untyped: middle::Type,
    _marker: PhantomData<T>,
}

/// Types that can be marshalled to and from C.
///
/// For any type `T` that implements `CType` there is a `Type<T>` that
/// describes it. An implementation names the descriptor and proves that it
/// is laid out as the Rust type is.
pub trait CType: Sized {
    /// The C type that values of this type are passed as.
    spec fn descriptor() -> TypeView;

    /// The descriptor is laid out as the Rust type is: it has the same
    /// size and the same alignment.
    proof fn lemma_descriptor_layout()
        ensures
            laid_out_as::<Self>(Self::descriptor()),
    ;

    /// Creates a `Type<T>` for any type `T: CType`.
    ///
    /// The resulting object can be used to assemble a call interface for a
    /// call that uses type `T`.
    fn reify() -> (handle: Type<Self>)
        ensures
            handle@ == Self::descriptor(),
    ;
}

impl<T> View for Type<T> {
    type V = TypeView;

    closed spec fn view(&self) -> TypeView {
        self.untyped@
    }
}

/// Whether a descriptor is laid out as the Rust type `T` is: with the same
/// size and the same alignment.
pub open spec fn laid_out_as<T>(descriptor: TypeView) -> bool {
    descriptor.layout() == Some(Extent { size: size_of::<T>(), alignment: align_of::<T>() })
}

impl<T> Type<T> {
    #[verifier::type_invariant]
    spec fn well_formed(self) -> bool {
        laid_out_as::<T>(self.untyped@)
    }

    fn make(untyped: middle::Type) -> (handle: Self)
        requires
            laid_out_as::<T>(untyped@),
        ensures
            handle@ == untyped@,
    {
        Type { untyped, _marker: PhantomData }
    }

    /// Gets the underlying representation as used by the [`middle`] layer.
    ///
    /// Whatever `T` is, the representation is laid out as `T` is, and so
    /// can stand in a call interface.
    pub fn into_middle(self) -> (untyped: middle::Type)
        ensures
            untyped@ == self@,
            laid_out_as::<T>(untyped@),
            untyped@.classifiable(),
    {
        proof {
            use_type_invariant(&self);
        }
        vstd::layout::layout_for_type_is_valid::<T>();
        self.untyped
    }
}

impl<T> Clone for Type<T> {
    fn clone(&self) -> (copy: Self)
        ensures
            copy@ == self@,
    {
        proof {
            use_type_invariant(self);
        }
        Type { untyped: self.untyped.clone(), _marker: PhantomData }
    }
}

impl CType for u8 {
    open spec fn descriptor() -> TypeView {
        TypeView::U8
    }

    proof fn lemma_descriptor_layout() {
        lemma_byte_alignment(align_of::<u8>());
    }

    fn reify() -> (handle: Type<Self>) {
        proof {
            lemma_byte_alignment(align_of::<u8>());
        }
        Type::make(middle::Type::U8)
    }
}

impl CType for i8 {
    open spec fn descriptor() -> TypeView {
        TypeView::I8
    }

    proof fn lemma_descriptor_layout() {
        lemma_byte_alignment(align_of::<i8>());
    }

    fn reify() -> (handle: Type<Self>) {
        proof {
            lemma_byte_alignment(align_of::<i8>());
        }
        Type::make(middle::Type::I8)
    }
}

impl CType for u16 {
    open spec fn descriptor() -> TypeView {
        TypeView::U16
    }

    proof fn lemma_descriptor_layout() {
    }

    fn reify() -> (handle: Type<Self>) {
        Type::make(middle::Type::U16)
    }
}

impl CType for i16 {
    open spec fn descriptor() -> TypeView {
        TypeView::I16
    }

    proof fn lemma_descriptor_layout() {
    }

    fn reify() -> (handle: Type<Self>) {
        Type::make(middle::Type::I16)
    }
}

impl CType for u32 {
    open spec fn descriptor() -> TypeView {
        TypeView::U32
    }

    proof fn lemma_descriptor_layout() {
    }

    fn reify() -> (handle: Type<Self>) {
        Type::make(middle::Type::U32)
    }
}

impl CType for i32 {
    open spec fn descriptor() -> TypeView {
        TypeView::I32
    }

    proof fn lemma_descriptor_layout() {
    }

    fn reify() -> (handle: Type<Self>) {
        Type::make(middle::Type::I32)
    }
}

impl CType for u64 {
    open spec fn descriptor() -> TypeView {
        TypeView::U64
    }

    proof fn lemma_descriptor_layout() {
    }

    fn reify() -> (handle: Type<Self>) {
        Type::make(middle::Type::U64)
    }
}

impl CType for i64 {
    open spec fn descriptor() -> TypeView {
        TypeView::I64
    }

    proof fn lemma_descriptor_layout() {
    }

    fn reify() -> (handle: Type<Self>) {
        Type::make(middle::Type::I64)
    }
}

impl CType for usize {
    open spec fn descriptor() -> TypeView {
        TypeView::Usize
    }

    proof fn lemma_descriptor_layout() {
    }

    fn reify() -> (handle: Type<Self>) {
        Type::make(middle::Type::Usize)
    }
}

impl CType for isize {
    open spec fn descriptor() -> TypeView {
        TypeView::Isize
    }

    proof fn lemma_descriptor_layout() {
    }

    fn reify() -> (handle: Type<Self>) {
        Type::make(middle::Type::Isize)
    }
}

impl CType for () {
    open spec fn descriptor() -> TypeView {
        TypeView::Void
    }

    proof fn lemma_descriptor_layout() {
    }

    fn reify() -> (handle: Type<Self>) {
        Type::make(middle::Type::Void)
    }
}

/// An alignment that divides one is one.
proof fn lemma_byte_alignment(alignment: nat)
    requires
        alignment > 0,
        1nat % alignment == 0,
    ensures
        alignment == 1,
{
    if alignment > 1 {
        vstd::arithmetic::div_mod::lemma_small_mod(1, alignment);
    }
}

} // verus!
