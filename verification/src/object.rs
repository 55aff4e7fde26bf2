//! The managed element types. A value of one is the identity of an
//! object, a number, and two of them are equal where the numbers are.

use vstd::prelude::*;
use crate::tag::{ArrayType, ManagedElement, ObjectKind, TypeTag};

verus! {

/// The identity of a path.
#[derive(Debug, PartialEq, Eq, Structural)]
pub struct Path {
    pub id: u64,
}

impl Path {
    /// The value with this identity.
    pub fn from_id(id: u64) -> (h: Self)
        ensures
            h.id == id,
    {
        Path { id }
    }
}

impl ArrayType for Path {
    open spec fn tag() -> TypeTag {
        TypeTag::Object(ObjectKind::Path)
    }

    fn type_tag() -> (t: TypeTag) {
        TypeTag::Object(ObjectKind::Path)
    }

    fn impl_idx() -> (i: usize) {
        3
    }

    fn duplicate(&self) -> (r: Self) {
        Path { id: self.id }
    }

    fn same(&self, other: &Self) -> (b: bool) {
        self.id == other.id
    }
}

impl ManagedElement for Path {
    proof fn tag_is_managed() {
    }
}

/// The identity of an image.
#[derive(Debug, PartialEq, Eq, Structural)]
pub struct Image {
    pub id: u64,
}

impl Image {
    /// The value with this identity.
    pub fn from_id(id: u64) -> (h: Self)
        ensures
            h.id == id,
    {
        Image { id }
    }
}

impl ArrayType for Image {
    open spec fn tag() -> TypeTag {
        TypeTag::Object(ObjectKind::Image)
    }

    fn type_tag() -> (t: TypeTag) {
        TypeTag::Object(ObjectKind::Image)
    }

    fn impl_idx() -> (i: usize) {
        3
    }

    fn duplicate(&self) -> (r: Self) {
        Image { id: self.id }
    }

    fn same(&self, other: &Self) -> (b: bool) {
        self.id == other.id
    }
}

impl ManagedElement for Image {
    proof fn tag_is_managed() {
    }
}

/// The identity of an image codec.
#[derive(Debug, PartialEq, Eq, Structural)]
pub struct ImageCodec {
    pub id: u64,
}

impl ImageCodec {
    /// The value with this identity.
    pub fn from_id(id: u64) -> (h: Self)
        ensures
            h.id == id,
    {
        ImageCodec { id }
    }
}

impl ArrayType for ImageCodec {
    open spec fn tag() -> TypeTag {
        TypeTag::Object(ObjectKind::ImageCodec)
    }

    fn type_tag() -> (t: TypeTag) {
        TypeTag::Object(ObjectKind::ImageCodec)
    }

    fn impl_idx() -> (i: usize) {
        3
    }

    fn duplicate(&self) -> (r: Self) {
        ImageCodec { id: self.id }
    }

    fn same(&self, other: &Self) -> (b: bool) {
        self.id == other.id
    }
}

impl ManagedElement for ImageCodec {
    proof fn tag_is_managed() {
    }
}

/// The identity of a rendering context.
#[derive(Debug, PartialEq, Eq, Structural)]
pub struct Context {
    pub id: u64,
}

impl Context {
    /// The value with this identity.
    pub fn from_id(id: u64) -> (h: Self)
        ensures
            h.id == id,
    {
        Context { id }
    }
}

impl ArrayType for Context {
    open spec fn tag() -> TypeTag {
        TypeTag::Object(ObjectKind::Context)
    }

    fn type_tag() -> (t: TypeTag) {
        TypeTag::Object(ObjectKind::Context)
    }

    fn impl_idx() -> (i: usize) {
        3
    }

    fn duplicate(&self) -> (r: Self) {
        Context { id: self.id }
    }

    fn same(&self, other: &Self) -> (b: bool) {
        self.id == other.id
    }
}

impl ManagedElement for Context {
    proof fn tag_is_managed() {
    }
}

} // verus!
