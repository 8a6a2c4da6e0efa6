//! Descriptors of C types and their layout.

use vstd::layout::{align_of, size_of};
use vstd::prelude::*;

verus! {

/// Describes one C type: a scalar, a pointer, `void`, or a structure made
/// of the types of its fields in the order of their declaration.
#[derive(Debug, PartialEq, Eq)]
pub enum Type {
    /// No value at all: the result of a function that returns nothing.
    Void,
    /// An unsigned integer of 8 bits.
    U8,
    /// A signed integer of 8 bits.
    I8,
    /// An unsigned integer of 16 bits.
    U16,
    /// A signed integer of 16 bits.
    I16,
    /// An unsigned integer of 32 bits.
    U32,
    /// A signed integer of 32 bits.
    I32,
    /// An unsigned integer of 64 bits.
    U64,
    /// A signed integer of 64 bits.
    I64,
    /// A floating-point number of 32 bits.
    F32,
    /// A floating-point number of 64 bits.
    F64,
    /// An unsigned integer as wide as an address.
    Usize,
    /// A signed integer as wide as an address.
    Isize,
    /// An address, whatever it points to and whether or not that may be
    /// written through it.
    Pointer,
    /// A structure with fields of these types, in the order of their
    /// declaration.
    Structure(Vec<Type>),
}

/// What a [`Type`] describes, as a mathematical tree: the same kinds, with
/// the fields of a structure as a sequence.
pub enum TypeView {
    Void,
    U8,
    I8,
    U16,
    I16,
    U32,
    I32,
    U64,
    I64,
    F32,
    F64,
    Usize,
    Isize,
    Pointer,
    Structure(Seq<TypeView>),
}

/// Why a type, or a call interface, was refused.
#[derive(Clone, Copy, Debug, PartialEq, Eq, Structural)]
pub enum Error {
    /// A type has no layout, or one that is too large to address.
    Typedef,
    /// There are more arguments than a call interface can count.
    ArgumentCount,
}

/// The room that a value takes in memory, as the machine counts it.
#[derive(Clone, Copy, Debug, PartialEq, Eq, Structural)]
pub struct Layout {
    /// The number of bytes.
    pub size: usize,
    /// The number of which every address of such a value is a multiple.
    pub alignment: usize,
}

/// The room that a value takes in memory.
pub struct Extent {
    /// The number of bytes.
    pub size: nat,
    /// The number of which every address of such a value is a multiple.
    pub alignment: nat,
}

impl View for Layout {
    type V = Extent;

    open spec fn view(&self) -> Extent {
        Extent { size: self.size as nat, alignment: self.alignment as nat }
    }
}

impl View for Type {
    type V = TypeView;

    open spec fn view(&self) -> TypeView
        decreases self,
    {
        match self {
            Type::Void => TypeView::Void,
            Type::U8 => TypeView::U8,
            Type::I8 => TypeView::I8,
            Type::U16 => TypeView::U16,
            Type::I16 => TypeView::I16,
            Type::U32 => TypeView::U32,
            Type::I32 => TypeView::I32,
            Type::U64 => TypeView::U64,
            Type::I64 => TypeView::I64,
            Type::F32 => TypeView::F32,
            Type::F64 => TypeView::F64,
            Type::Usize => TypeView::Usize,
            Type::Isize => TypeView::Isize,
            Type::Pointer => TypeView::Pointer,
            // `Seq::new` asks for indices below the length only; the test
            // lets each field be seen to be a part of `self`.
            Type::Structure(fields) => TypeView::Structure(
                Seq::new(
                    fields@.len(),
                    |i: int|
                        if 0 <= i < fields@.len() {
                            fields@[i]@
                        } else {
                            TypeView::Void
                        },
                ),
            ),
        }
    }
}

/// What a list of descriptors describes, in order.
pub open spec fn type_views(types: Seq<Type>) -> Seq<TypeView> {
    types.map_values(|t: Type| t@)
}

/// A structure describes what its fields describe, in their order.
pub proof fn lemma_structure_view(fields: Vec<Type>)
    ensures
        Type::Structure(fields)@ == TypeView::Structure(type_views(fields@)),
{
    assert(Type::Structure(fields)@->Structure_0 =~= type_views(fields@));
}

/// The least multiple of `alignment` that is not below `offset`.
pub open spec fn align_up(offset: nat, alignment: nat) -> nat {
    if alignment == 0 || offset % alignment == 0 {
        offset
    } else {
        (offset + alignment - offset % alignment) as nat
    }
}

/// `align_up` never goes back, and for an alignment above zero it stops at
/// the first multiple that it meets.
pub proof fn lemma_align_up(offset: nat, alignment: nat)
    ensures
        offset <= align_up(offset, alignment),
        alignment > 0 ==> align_up(offset, alignment) % alignment == 0,
        alignment > 0 ==> align_up(offset, alignment) < offset + alignment,
{
    if alignment > 0 && offset % alignment != 0 {
        let up = align_up(offset, alignment) as int;
        let quotient = offset as int / alignment as int;
        let rest = offset as int % alignment as int;
        assert(offset == alignment * quotient + rest) by {
            vstd::arithmetic::div_mod::lemma_fundamental_div_mod(offset as int, alignment as int);
        }
        assert(up == (quotient + 1) * alignment) by (nonlinear_arith)
            requires
                up == offset + alignment - rest,
                offset == alignment * quotient + rest,
        ;
        assert(up % alignment as int == 0) by {
            vstd::arithmetic::div_mod::lemma_mod_multiples_basic(quotient + 1, alignment as int);
        }
    }
}

/// Aligns an offset, unless the result is too large for the machine. An
/// alignment of zero asks for nothing: the offset stays as it is.
pub fn checked_align_up(offset: usize, alignment: usize) -> (aligned: Option<usize>)
    ensures
        match aligned {
            Some(up) => up == align_up(offset as nat, alignment as nat),
            None => align_up(offset as nat, alignment as nat) > usize::MAX,
        },
{
    if alignment == 0 {
        return Some(offset);
    }
    let rest = offset % alignment;
    if rest == 0 {
        Some(offset)
    } else {
        offset.checked_add(alignment - rest)
    }
}

impl TypeView {
    /// Whether this is a scalar, a pointer or `void`: anything but a
    /// structure.
    pub open spec fn is_primitive(self) -> bool {
        !(self is Structure)
    }

    /// The room that a value of this type takes, or `None` where the type
    /// has no layout: a structure without a byte in it, or one with such a
    /// structure inside.
    ///
    /// An integer has the size that its name gives and the alignment that
    /// the machine gives it. A floating-point number is aligned as the
    /// unsigned integer of its size is, an address as `usize` is. `void`
    /// takes no room.
    pub open spec fn layout(self) -> Option<Extent>
        decreases self, 0nat,
    {
        match self {
            TypeView::Void => Some(Extent { size: 0, alignment: 1 }),
            TypeView::U8 => Some(Extent { size: 1, alignment: 1 }),
            TypeView::I8 => Some(Extent { size: 1, alignment: 1 }),
            TypeView::U16 => Some(Extent { size: 2, alignment: align_of::<u16>() }),
            TypeView::I16 => Some(Extent { size: 2, alignment: align_of::<i16>() }),
            TypeView::U32 => Some(Extent { size: 4, alignment: align_of::<u32>() }),
            TypeView::I32 => Some(Extent { size: 4, alignment: align_of::<i32>() }),
            TypeView::U64 => Some(Extent { size: 8, alignment: align_of::<u64>() }),
            TypeView::I64 => Some(Extent { size: 8, alignment: align_of::<i64>() }),
            TypeView::F32 => Some(Extent { size: 4, alignment: align_of::<u32>() }),
            TypeView::F64 => Some(Extent { size: 8, alignment: align_of::<u64>() }),
            TypeView::Usize => Some(
                Extent { size: size_of::<usize>(), alignment: align_of::<usize>() },
            ),
            TypeView::Isize => Some(
                Extent { size: size_of::<isize>(), alignment: align_of::<isize>() },
            ),
            TypeView::Pointer => Some(
                Extent { size: size_of::<usize>(), alignment: align_of::<usize>() },
            ),
            TypeView::Structure(fields) => match Self::span(fields, fields.len()) {
                Some(span) => if align_up(span.size, span.alignment) == 0 {
                    None
                } else {
                    Some(
                        Extent {
                            size: align_up(span.size, span.alignment),
                            alignment: span.alignment,
                        },
                    )
                },
                None => None,
            },
        }
    }

    /// The room that the first `n` fields take when each is placed at the
    /// first offset behind its predecessor that its own alignment allows:
    /// the size is the end of the last of them, the alignment the largest
    /// among them.
    pub open spec fn span(fields: Seq<TypeView>, n: nat) -> Option<Extent>
        decreases fields, n,
    {
        if n == 0 || n > fields.len() {
            Some(Extent { size: 0, alignment: 1 })
        } else {
            match (Self::span(fields, (n - 1) as nat), fields[n - 1].layout()) {
                (Some(before), Some(field)) => Some(
                    Extent {
                        size: align_up(before.size, field.alignment) + field.size,
                        alignment: if before.alignment >= field.alignment {
                            before.alignment
                        } else {
                            field.alignment
                        },
                    },
                ),
                _ => None,
            }
        }
    }

    /// Whether the type has a layout that the machine can address: only
    /// such a type can stand in a call interface.
    pub open spec fn classifiable(self) -> bool {
        self.layout() matches Some(extent) && extent.size <= usize::MAX
    }

    /// A scalar, a pointer and `void` each have a layout, of eight bytes at
    /// most.
    pub proof fn lemma_primitive_layout(self)
        requires
            self.is_primitive(),
        ensures
            self.layout() is Some,
            self.layout()->0.size <= 8,
            self.classifiable(),
    {
    }

    /// Every layout has an alignment above zero and a size that is a
    /// multiple of it.
    pub proof fn lemma_layout_aligned(self)
        requires
            self.layout() is Some,
        ensures
            self.layout()->0.alignment >= 1,
            self.layout()->0.size % self.layout()->0.alignment == 0,
        decreases self,
    {
        match self {
            TypeView::Structure(fields) => {
                let span = Self::span(fields, fields.len())->0;
                Self::lemma_span_grows(fields, 0, fields.len());
                lemma_align_up(span.size, span.alignment);
            },
            _ => {},
        }
    }

    /// Placing more fields never takes less room: where the first `n`
    /// fields can be placed, so can the first `m` of them, in no more bytes
    /// and with no larger an alignment, which is above zero.
    pub proof fn lemma_span_grows(fields: Seq<TypeView>, m: nat, n: nat)
        requires
            m <= n <= fields.len(),
            Self::span(fields, n) is Some,
        ensures
            Self::span(fields, m) is Some,
            Self::span(fields, m)->0.size <= Self::span(fields, n)->0.size,
            1 <= Self::span(fields, m)->0.alignment <= Self::span(fields, n)->0.alignment,
        decreases n,
    {
        if n == 0 {
        } else {
            let before = Self::span(fields, (n - 1) as nat)->0;
            let field = fields[n - 1].layout()->0;
            lemma_align_up(before.size, field.alignment);
            Self::lemma_span_grows(fields, 0, (n - 1) as nat);
            if m < n {
                Self::lemma_span_grows(fields, m, (n - 1) as nat);
            }
        }
    }

    /// The offset of field `i` in a structure of these fields: the first
    /// multiple of the field's alignment behind the fields before it.
    pub open spec fn offset(fields: Seq<TypeView>, i: nat) -> nat
        recommends
            i < fields.len(),
            Self::span(fields, i + 1) is Some,
    {
        align_up(Self::span(fields, i)->0.size, fields[i as int].layout()->0.alignment)
    }

    /// A structure that has a layout gives each of its fields a layout, and
    /// is aligned at least as strictly as each of them.
    pub proof fn lemma_fields_have_layout(fields: Seq<TypeView>, i: nat)
        requires
            i < fields.len(),
            TypeView::Structure(fields).layout() is Some,
        ensures
            fields[i as int].layout() is Some,
            fields[i as int].layout()->0.alignment <= TypeView::Structure(
                fields,
            ).layout()->0.alignment,
    {
        Self::lemma_span_grows(fields, i + 1, fields.len());
    }

    /// The fields of a structure lie where C puts them: each at a multiple
    /// of its own alignment, each wholly before the next, and the last
    /// wholly inside the structure.
    pub proof fn lemma_fields_in_order(fields: Seq<TypeView>, i: nat, j: nat)
        requires
            i < j < fields.len(),
            TypeView::Structure(fields).layout() is Some,
        ensures
            Self::offset(fields, i) % fields[i as int].layout()->0.alignment == 0,
            Self::offset(fields, j) % fields[j as int].layout()->0.alignment == 0,
            Self::offset(fields, i) + fields[i as int].layout()->0.size <= Self::offset(
                fields,
                j,
            ),
            Self::offset(fields, j) + fields[j as int].layout()->0.size <= TypeView::Structure(
                fields,
            ).layout()->0.size,
    {
        let whole = Self::span(fields, fields.len())->0;
        Self::lemma_fields_have_layout(fields, i);
        Self::lemma_fields_have_layout(fields, j);
        fields[i as int].lemma_layout_aligned();
        fields[j as int].lemma_layout_aligned();
        Self::lemma_span_grows(fields, j, fields.len());
        Self::lemma_span_grows(fields, i + 1, j);
        Self::lemma_span_grows(fields, j + 1, fields.len());
        lemma_align_up(Self::span(fields, i)->0.size, fields[i as int].layout()->0.alignment);
        lemma_align_up(Self::span(fields, j)->0.size, fields[j as int].layout()->0.alignment);
        lemma_align_up(whole.size, whole.alignment);
    }
}

impl Type {
    /// Computes the layout of the type.
    ///
    /// A scalar is laid out as the machine lays it out. The fields of a
    /// structure follow one another in the order of their declaration,
    /// each at the first offset that its alignment allows; the structure
    /// is aligned as its most demanding field and padded at the end to a
    /// multiple of that alignment.
    ///
    /// Fails where the type cannot be classified: a structure without a
    /// byte in it, a structure that holds such a structure, or a size
    /// beyond what the machine can address.
    pub fn layout(&self) -> (result: Result<Layout, Error>)
        ensures
            result is Ok <==> self@.classifiable(),
            result matches Ok(layout) ==> self@.layout() == Some(layout@),
            result matches Err(error) ==> error == Error::Typedef,
        decreases self,
    {
        match self {
            Type::Void => Ok(Layout { size: 0, alignment: 1 }),
            Type::U8 => Ok(Layout { size: 1, alignment: 1 }),
            Type::I8 => Ok(Layout { size: 1, alignment: 1 }),
            Type::U16 => Ok(Layout { size: 2, alignment: core::mem::align_of::<u16>() }),
            Type::I16 => Ok(Layout { size: 2, alignment: core::mem::align_of::<i16>() }),
            Type::U32 => Ok(Layout { size: 4, alignment: core::mem::align_of::<u32>() }),
            Type::I32 => Ok(Layout { size: 4, alignment: core::mem::align_of::<i32>() }),
            Type::U64 => Ok(Layout { size: 8, alignment: core::mem::align_of::<u64>() }),
            Type::I64 => Ok(Layout { size: 8, alignment: core::mem::align_of::<i64>() }),
            Type::F32 => Ok(Layout { size: 4, alignment: core::mem::align_of::<u32>() }),
            Type::F64 => Ok(Layout { size: 8, alignment: core::mem::align_of::<u64>() }),
            Type::Usize => Ok(
                Layout {
                    size: core::mem::size_of::<usize>(),
                    alignment: core::mem::align_of::<usize>(),
                },
            ),
            Type::Isize => Ok(
                Layout {
                    size: core::mem::size_of::<isize>(),
                    alignment: core::mem::align_of::<isize>(),
                },
            ),
            Type::Pointer => Ok(
                Layout {
                    size: core::mem::size_of::<usize>(),
                    alignment: core::mem::align_of::<usize>(),
                },
            ),
            Type::Structure(fields) => {
                let ghost views = self@->Structure_0;
                let mut end: usize = 0;
                let mut alignment: usize = 1;
                let mut i: usize = 0;
                while i < fields.len()
                    invariant
                        i <= fields.len(),
                        self matches Type::Structure(inner) && inner == fields,
                        views == self@->Structure_0,
                        views.len() == fields.len(),
                        TypeView::span(views, i as nat) == Some(
                            Extent { size: end as nat, alignment: alignment as nat },
                        ),
                    decreases fields.len() - i,
                {
                    proof {
                        assert(views[i as int] == fields@[i as int]@);
                        let whole = TypeView::span(views, views.len());
                        if whole is Some {
                            TypeView::lemma_span_grows(views, (i + 1) as nat, views.len());
                            lemma_align_up(whole->0.size, whole->0.alignment);
                        }
                    }
                    let field = match fields[i].layout() {
                        Ok(field) => field,
                        Err(_) => return Err(Error::Typedef),
                    };
                    let start = match checked_align_up(end, field.alignment) {
                        Some(start) => start,
                        None => return Err(Error::Typedef),
                    };
                    end = match start.checked_add(field.size) {
                        Some(end) => end,
                        None => return Err(Error::Typedef),
                    };
                    if field.alignment > alignment {
                        alignment = field.alignment;
                    }
                    i += 1;
                }
                match checked_align_up(end, alignment) {
                    Some(size) => if size == 0 {
                        Err(Error::Typedef)
                    } else {
                        Ok(Layout { size, alignment })
                    },
                    None => Err(Error::Typedef),
                }
            },
        }
    }

    /// A descriptor of the same type.
    fn duplicate(&self) -> (copy: Type)
        ensures
            copy@ == self@,
        decreases self,
    {
        match self {
            Type::Void => Type::Void,
            Type::U8 => Type::U8,
            Type::I8 => Type::I8,
            Type::U16 => Type::U16,
            Type::I16 => Type::I16,
            Type::U32 => Type::U32,
            Type::I32 => Type::I32,
            Type::U64 => Type::U64,
            Type::I64 => Type::I64,
            Type::F32 => Type::F32,
            Type::F64 => Type::F64,
            Type::Usize => Type::Usize,
            Type::Isize => Type::Isize,
            Type::Pointer => Type::Pointer,
            Type::Structure(fields) => {
                let mut copies: Vec<Type> = Vec::new();
                let mut i: usize = 0;
                while i < fields.len()
                    invariant
                        i <= fields.len(),
                        self matches Type::Structure(inner) && inner == fields,
                        copies.len() == i,
                        forall|j: int| 0 <= j < i ==> copies@[j]@ == fields@[j]@,
                    decreases fields.len() - i,
                {
                    let copy = fields[i].duplicate();
                    copies.push(copy);
                    i += 1;
                }
                proof {
                    lemma_structure_view(copies);
                    lemma_structure_view(*fields);
                    assert(type_views(copies@) =~= type_views(fields@));
                }
                Type::Structure(copies)
            },
        }
    }
}

impl Clone for Type {
    fn clone(&self) -> (copy: Type)
        ensures
            copy@ == self@,
    {
        self.duplicate()
    }
}

} // verus!
