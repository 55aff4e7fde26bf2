//! The closed mapping from an element type to its representation tag: the
//! kind and width of number, record or object that an element is.

use vstd::prelude::*;

verus! {

/// The managed element types, each of which has a tag of its own.
#[derive(Clone, Copy, Debug, PartialEq, Eq, Structural)]
pub enum ObjectKind {
    Path,
    Image,
    ImageCodec,
    Context,
}

/// The representation of the elements of a container.
#[derive(Clone, Copy, Debug, PartialEq, Eq, Structural)]
pub enum TypeTag {
    I8,
    U8,
    I16,
    U16,
    I32,
    U32,
    I64,
    U64,
    F32,
    F64,
    /// A plain record of four bytes.
    Struct4,
    /// A managed object of the given kind.
    Object(ObjectKind),
}

/// The number of bits of a pointer on the machine the crate is built for.
pub open spec fn word_bits() -> nat {
    usize::BITS as nat
}

/// The tag of an unsigned integer as wide as a pointer of `bits` bits.
pub open spec fn unsigned_word_tag(bits: nat) -> TypeTag {
    if bits == 32 {
        TypeTag::U32
    } else {
        TypeTag::U64
    }
}

/// The tag of a signed integer as wide as a pointer of `bits` bits.
pub open spec fn signed_word_tag(bits: nat) -> TypeTag {
    if bits == 32 {
        TypeTag::I32
    } else {
        TypeTag::I64
    }
}

impl TypeTag {
    /// The number that stands for the tag in a table of representations.
    /// Every managed kind is stored as an object and has the same number.
    pub open spec fn index_spec(self) -> usize {
        match self {
            TypeTag::Object(_) => 3,
            TypeTag::I8 => 4,
            TypeTag::U8 => 5,
            TypeTag::I16 => 6,
            TypeTag::U16 => 7,
            TypeTag::I32 => 8,
            TypeTag::U32 => 9,
            TypeTag::I64 => 10,
            TypeTag::U64 => 11,
            TypeTag::F32 => 12,
            TypeTag::F64 => 13,
            TypeTag::Struct4 => 17,
        }
    }

    /// Whether elements under this tag are copied by value, bit for bit.
    pub open spec fn is_scalar_spec(self) -> bool {
        !(self is Object) && self != TypeTag::Struct4
    }

    /// Whether elements under this tag are managed objects, which are
    /// constructed from a reference to an item.
    pub open spec fn is_managed_spec(self) -> bool {
        self is Object
    }

    pub fn index(self) -> (i: usize)
        ensures
            i == self.index_spec(),
    {
        match self {
            TypeTag::Object(_) => 3,
            TypeTag::I8 => 4,
            TypeTag::U8 => 5,
            TypeTag::I16 => 6,
            TypeTag::U16 => 7,
            TypeTag::I32 => 8,
            TypeTag::U32 => 9,
            TypeTag::I64 => 10,
            TypeTag::U64 => 11,
            TypeTag::F32 => 12,
            TypeTag::F64 => 13,
            TypeTag::Struct4 => 17,
        }
    }

    pub fn is_scalar(self) -> (b: bool)
        ensures
            b == self.is_scalar_spec(),
    {
        match self {
            TypeTag::Object(_) => false,
            TypeTag::Struct4 => false,
            _ => true,
        }
    }

    pub fn is_managed(self) -> (b: bool)
        ensures
            b == self.is_managed_spec(),
    {
        match self {
            TypeTag::Object(_) => true,
            _ => false,
        }
    }
}

/// The tag of `usize` on the machine the crate is built for.
pub fn usize_tag() -> (t: TypeTag)
    ensures
        t == unsigned_word_tag(word_bits()),
{
    if usize::BITS == 32 {
        TypeTag::U32
    } else {
        TypeTag::U64
    }
}

/// The tag of `isize` on the machine the crate is built for.
pub fn isize_tag() -> (t: TypeTag)
    ensures
        t == signed_word_tag(word_bits()),
{
    if usize::BITS == 32 {
        TypeTag::I32
    } else {
        TypeTag::I64
    }
}

/// An element type that a container can hold. The set of such types is
/// closed: each has exactly one tag, fixed when the crate is built.
pub trait ArrayType: Sized {
    /// The tag of this element type.
    spec fn tag() -> TypeTag;

    /// The tag of this element type.
    fn type_tag() -> (t: TypeTag)
        ensures
            t == Self::tag(),
    ;

    /// The number that stands for the tag of this element type.
    fn impl_idx() -> (i: usize)
        ensures
            i == Self::tag().index_spec(),
    ;

    /// A second element equal to this one, constructed as the category of
    /// the element type asks.
    fn duplicate(&self) -> (r: Self)
        ensures
            r == *self,
    ;

    /// Whether two elements are equal.
    fn same(&self, other: &Self) -> (b: bool)
        ensures
            b == (*self == *other),
    ;
}

/// An element type that is copied by value.
pub trait ScalarElement: ArrayType + Copy {
    proof fn tag_is_scalar()
        ensures
            Self::tag().is_scalar_spec(),
    ;
}

/// An element type that stands for a managed object and is handed to a
/// container by reference.
pub trait ManagedElement: ArrayType {
    proof fn tag_is_managed()
        ensures
            Self::tag().is_managed_spec(),
    ;
}

/// An element type that is copied by value is not handed over by reference.
pub proof fn law_scalar_is_not_managed<T: ScalarElement>()
    ensures
        !T::tag().is_managed_spec(),
{
    T::tag_is_scalar();
}

/// An element type that is handed over by reference is not copied by value.
pub proof fn law_managed_is_not_scalar<T: ManagedElement>()
    ensures
        !T::tag().is_scalar_spec(),
{
    T::tag_is_managed();
}

/// No tag belongs to both categories of element.
pub proof fn law_categories_disjoint(t: TypeTag)
    ensures
        !(t.is_scalar_spec() && t.is_managed_spec()),
{
}

} // verus!
