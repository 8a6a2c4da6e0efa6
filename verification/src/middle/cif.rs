//! Call interfaces: the types of the arguments of a C function, in order,
//! the type of its result, and its calling convention.

use crate::middle::types::{type_views, Error, Type, TypeView};
use vstd::prelude::*;

verus! {

/// The largest number of arguments that a call interface can have: the
/// largest that its count of arguments, a 32-bit number, can hold.
pub const MAX_ARGS: usize = 0xFFFF_FFFF;

/// The tag of a calling convention. It is carried along, never read.
#[derive(Clone, Copy, Debug, PartialEq, Eq, Structural)]
pub enum Abi {
    /// The convention that the platform's C compiler uses by default.
    Default,
    /// Another convention, by the number that the platform gives it.
    Other(u32),
}

/// Describes the calling convention and types for calling a function.
///
/// A call interface is made once, by [`Cif::new`], and never changes: the
/// count, order and types of its arguments are those it was made with, and
/// each of its types can be classified.
#[derive(Debug)]
pub struct Cif {
    abi: Abi,
    args: Vec<Type>,
    result: Type,
}

/// What a [`Cif`] describes.
pub struct CifView {
    /// The calling convention.
    pub abi: Abi,
    /// The types of the arguments, in order.
    pub args: Seq<TypeView>,
    /// The type of the result.
    pub result: TypeView,
}

/// Whether each of the types can be classified.
pub open spec fn all_classifiable(types: Seq<TypeView>) -> bool {
    forall|i: int| 0 <= i < types.len() ==> (#[trigger] types[i]).classifiable()
}

/// Whether each of the types is a scalar, a pointer or `void`.
pub open spec fn all_primitive(types: Seq<TypeView>) -> bool {
    forall|i: int| 0 <= i < types.len() ==> (#[trigger] types[i]).is_primitive()
}

/// Whether a call interface can be made of these argument types and this
/// result type: the arguments can be counted, and every type can be
/// classified.
pub open spec fn acceptable(args: Seq<TypeView>, result: TypeView) -> bool {
    &&& args.len() <= MAX_ARGS
    &&& result.classifiable()
    &&& all_classifiable(args)
}

/// The number of arguments as a call interface counts them, or an error
/// where there are too many to count.
pub fn argument_count(len: usize) -> (count: Result<u32, Error>)
    ensures
        len <= MAX_ARGS ==> count == Ok::<u32, Error>(len as u32),
        len > MAX_ARGS ==> count == Err::<u32, Error>(Error::ArgumentCount),
{
    if len > MAX_ARGS {
        Err(Error::ArgumentCount)
    } else {
        Ok(len as u32)
    }
}

impl View for Cif {
    type V = CifView;

    closed spec fn view(&self) -> CifView {
        CifView { abi: self.abi, args: type_views(self.args@), result: self.result@ }
    }
}

impl Cif {
    #[verifier::type_invariant]
    spec fn well_formed(self) -> bool {
        acceptable(type_views(self.args@), self.result@)
    }

    /// Creates a call interface from the calling convention, the types of
    /// the arguments in order, and the type of the result.
    ///
    /// Succeeds exactly where the arguments are no more than [`MAX_ARGS`]
    /// and every type can be classified; scalars, pointers and `void`
    /// always can. The interface then describes what it was given, in the
    /// order given.
    ///
    /// Fails with [`Error::ArgumentCount`] where there are too many
    /// arguments, and otherwise with [`Error::Typedef`] where a type
    /// cannot be classified.
    pub fn new(abi: Abi, args: Vec<Type>, result: Type) -> (made: Result<Cif, Error>)
        ensures
            made is Ok <==> acceptable(type_views(args@), result@),
            made matches Ok(cif) ==> cif@ == (CifView {
                abi,
                args: type_views(args@),
                result: result@,
            }),
            made matches Err(error) ==> error == if args.len() > MAX_ARGS {
                Error::ArgumentCount
            } else {
                Error::Typedef
            },
            args.len() <= MAX_ARGS && all_primitive(type_views(args@)) && result@.classifiable()
                ==> made is Ok,
    {
        proof {
            if all_primitive(type_views(args@)) {
                lemma_primitives_classifiable(type_views(args@));
            }
        }
        if argument_count(args.len()).is_err() {
            return Err(Error::ArgumentCount);
        }
        if result.layout().is_err() {
            return Err(Error::Typedef);
        }
        let mut i: usize = 0;
        while i < args.len()
            invariant
                i <= args.len(),
                args.len() <= MAX_ARGS,
                result@.classifiable(),
                forall|j: int| 0 <= j < i ==> (#[trigger] type_views(args@)[j]).classifiable(),
            decreases args.len() - i,
        {
            if args[i].layout().is_err() {
                assert(!type_views(args@)[i as int].classifiable());
                return Err(Error::Typedef);
            }
            i += 1;
        }
        Ok(Cif { abi, args, result })
    }

    /// The calling convention.
    pub fn abi(&self) -> (abi: Abi)
        ensures
            abi == self@.abi,
    {
        self.abi
    }

    /// The number of arguments.
    pub fn nargs(&self) -> (count: u32)
        ensures
            count == self@.args.len(),
    {
        proof {
            use_type_invariant(self);
        }
        self.args.len() as u32
    }

    /// The types of the arguments, in order. Each can be classified.
    pub fn args(&self) -> (args: &Vec<Type>)
        ensures
            type_views(args@) == self@.args,
            all_classifiable(self@.args),
    {
        proof {
            use_type_invariant(self);
        }
        &self.args
    }

    /// The type of the result. It can be classified.
    pub fn result(&self) -> (result: &Type)
        ensures
            result@ == self@.result,
            self@.result.classifiable(),
    {
        proof {
            use_type_invariant(self);
        }
        &self.result
    }
}

/// Scalars, pointers and `void` can always be classified.
pub proof fn lemma_primitives_classifiable(args: Seq<TypeView>)
    requires
        all_primitive(args),
    ensures
        all_classifiable(args),
{
    assert forall|i: int| 0 <= i < args.len() implies (#[trigger] args[i]).classifiable() by {
        args[i].lemma_primitive_layout();
    }
}

} // verus!
