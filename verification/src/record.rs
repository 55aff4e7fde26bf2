//! Small plain records that a container holds by their bytes.

use vstd::prelude::*;
use crate::tag::{ArrayType, TypeTag};

verus! {

/// A four-byte tag, as font and image formats use to name their tables.
#[derive(Clone, Copy, Debug, PartialEq, Eq, Structural)]
pub struct Tag {
    pub value: u32,
}

impl ArrayType for Tag {
    open spec fn tag() -> TypeTag {
        TypeTag::Struct4
    }

    fn type_tag() -> (t: TypeTag) {
        TypeTag::Struct4
    }

    fn impl_idx() -> (i: usize) {
        17
    }

    fn duplicate(&self) -> (r: Self) {
        *self
    }

    fn same(&self, other: &Self) -> (b: bool) {
        self.value == other.value
    }
}

/// A four-byte record is neither copied as a number nor managed: a
/// container of such records is filled from slices alone.
pub proof fn law_record_in_no_category()
    ensures
        !Tag::tag().is_scalar_spec(),
        !Tag::tag().is_managed_spec(),
{
}

} // verus!
