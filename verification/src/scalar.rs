//! The element types that are copied by value, and their tags.

use vstd::prelude::*;
use crate::array::Array;
use crate::error::Result;
use crate::tag::{isize_tag, signed_word_tag, unsigned_word_tag, usize_tag, word_bits};
use crate::tag::{ArrayType, ScalarElement, TypeTag};

verus! {

impl ArrayType for u8 {
    open spec fn tag() -> TypeTag {
        TypeTag::U8
    }

    fn type_tag() -> (t: TypeTag) {
        TypeTag::U8
    }

    fn impl_idx() -> (i: usize) {
        5
    }

    fn duplicate(&self) -> (r: Self) {
        *self
    }

    fn same(&self, other: &Self) -> (b: bool) {
        *self == *other
    }
}

impl ScalarElement for u8 {
    proof fn tag_is_scalar() {
    }
}

impl Array<u8> {
    /// Appends `item`.
    pub fn push(&mut self, item: u8) -> (r: Result<()>)
        ensures
            Self::push_post(old(self), final(self), item, r),
    {
        self.push_item(item)
    }

    /// Puts `item` in at `index`; the elements from `index` on move back by one.
    pub fn insert(&mut self, index: usize, item: u8) -> (r: Result<()>)
        ensures
            Self::insert_post(old(self), final(self), index, item, r),
    {
        self.insert_item(index, item)
    }

    /// Puts `item` in the place of the element at `index`.
    pub fn replace(&mut self, index: usize, item: u8) -> (r: Result<()>)
        ensures
            Self::replace_post(old(self), final(self), index, item, r),
    {
        self.replace_item(index, item)
    }
}

impl ArrayType for i8 {
    open spec fn tag() -> TypeTag {
        TypeTag::I8
    }

    fn type_tag() -> (t: TypeTag) {
        TypeTag::I8
    }

    fn impl_idx() -> (i: usize) {
        4
    }

    fn duplicate(&self) -> (r: Self) {
        *self
    }

    fn same(&self, other: &Self) -> (b: bool) {
        *self == *other
    }
}

impl ScalarElement for i8 {
    proof fn tag_is_scalar() {
    }
}

impl Array<i8> {
    /// Appends `item`.
    pub fn push(&mut self, item: i8) -> (r: Result<()>)
        ensures
            Self::push_post(old(self), final(self), item, r),
    {
        self.push_item(item)
    }

    /// Puts `item` in at `index`; the elements from `index` on move back by one.
    pub fn insert(&mut self, index: usize, item: i8) -> (r: Result<()>)
        ensures
            Self::insert_post(old(self), final(self), index, item, r),
    {
        self.insert_item(index, item)
    }

    /// Puts `item` in the place of the element at `index`.
    pub fn replace(&mut self, index: usize, item: i8) -> (r: Result<()>)
        ensures
            Self::replace_post(old(self), final(self), index, item, r),
    {
        self.replace_item(index, item)
    }
}

impl ArrayType for u16 {
    open spec fn tag() -> TypeTag {
        TypeTag::U16
    }

    fn type_tag() -> (t: TypeTag) {
        TypeTag::U16
    }

    fn impl_idx() -> (i: usize) {
        7
    }

    fn duplicate(&self) -> (r: Self) {
        *self
    }

    fn same(&self, other: &Self) -> (b: bool) {
        *self == *other
    }
}

impl ScalarElement for u16 {
    proof fn tag_is_scalar() {
    }
}

impl Array<u16> {
    /// Appends `item`.
    pub fn push(&mut self, item: u16) -> (r: Result<()>)
        ensures
            Self::push_post(old(self), final(self), item, r),
    {
        self.push_item(item)
    }

    /// Puts `item` in at `index`; the elements from `index` on move back by one.
    pub fn insert(&mut self, index: usize, item: u16) -> (r: Result<()>)
        ensures
            Self::insert_post(old(self), final(self), index, item, r),
    {
        self.insert_item(index, item)
    }

    /// Puts `item` in the place of the element at `index`.
    pub fn replace(&mut self, index: usize, item: u16) -> (r: Result<()>)
        ensures
            Self::replace_post(old(self), final(self), index, item, r),
    {
        self.replace_item(index, item)
    }
}

impl ArrayType for i16 {
    open spec fn tag() -> TypeTag {
        TypeTag::I16
    }

    fn type_tag() -> (t: TypeTag) {
        TypeTag::I16
    }

    fn impl_idx() -> (i: usize) {
        6
    }

    fn duplicate(&self) -> (r: Self) {
        *self
    }

    fn same(&self, other: &Self) -> (b: bool) {
        *self == *other
    }
}

impl ScalarElement for i16 {
    proof fn tag_is_scalar() {
    }
}

impl Array<i16> {
    /// Appends `item`.
    pub fn push(&mut self, item: i16) -> (r: Result<()>)
        ensures
            Self::push_post(old(self), final(self), item, r),
    {
        self.push_item(item)
    }

    /// Puts `item` in at `index`; the elements from `index` on move back by one.
    pub fn insert(&mut self, index: usize, item: i16) -> (r: Result<()>)
        ensures
            Self::insert_post(old(self), final(self), index, item, r),
    {
        self.insert_item(index, item)
    }

    /// Puts `item` in the place of the element at `index`.
    pub fn replace(&mut self, index: usize, item: i16) -> (r: Result<()>)
        ensures
            Self::replace_post(old(self), final(self), index, item, r),
    {
        self.replace_item(index, item)
    }
}

impl ArrayType for u32 {
    open spec fn tag() -> TypeTag {
        TypeTag::U32
    }

    fn type_tag() -> (t: TypeTag) {
        TypeTag::U32
    }

    fn impl_idx() -> (i: usize) {
        9
    }

    fn duplicate(&self) -> (r: Self) {
        *self
    }

    fn same(&self, other: &Self) -> (b: bool) {
        *self == *other
    }
}

impl ScalarElement for u32 {
    proof fn tag_is_scalar() {
    }
}

impl Array<u32> {
    /// Appends `item`.
    pub fn push(&mut self, item: u32) -> (r: Result<()>)
        ensures
            Self::push_post(old(self), final(self), item, r),
    {
        self.push_item(item)
    }

    /// Puts `item` in at `index`; the elements from `index` on move back by one.
    pub fn insert(&mut self, index: usize, item: u32) -> (r: Result<()>)
        ensures
            Self::insert_post(old(self), final(self), index, item, r),
    {
        self.insert_item(index, item)
    }

    /// Puts `item` in the place of the element at `index`.
    pub fn replace(&mut self, index: usize, item: u32) -> (r: Result<()>)
        ensures
            Self::replace_post(old(self), final(self), index, item, r),
    {
        self.replace_item(index, item)
    }
}

impl ArrayType for i32 {
    open spec fn tag() -> TypeTag {
        TypeTag::I32
    }

    fn type_tag() -> (t: TypeTag) {
        TypeTag::I32
    }

    fn impl_idx() -> (i: usize) {
        8
    }

    fn duplicate(&self) -> (r: Self) {
        *self
    }

    fn same(&self, other: &Self) -> (b: bool) {
        *self == *other
    }
}

impl ScalarElement for i32 {
    proof fn tag_is_scalar() {
    }
}

impl Array<i32> {
    /// Appends `item`.
    pub fn push(&mut self, item: i32) -> (r: Result<()>)
        ensures
            Self::push_post(old(self), final(self), item, r),
    {
        self.push_item(item)
    }

    /// Puts `item` in at `index`; the elements from `index` on move back by one.
    pub fn insert(&mut self, index: usize, item: i32) -> (r: Result<()>)
        ensures
            Self::insert_post(old(self), final(self), index, item, r),
    {
        self.insert_item(index, item)
    }

    /// Puts `item` in the place of the element at `index`.
    pub fn replace(&mut self, index: usize, item: i32) -> (r: Result<()>)
        ensures
            Self::replace_post(old(self), final(self), index, item, r),
    {
        self.replace_item(index, item)
    }
}

impl ArrayType for u64 {
    open spec fn tag() -> TypeTag {
        TypeTag::U64
    }

    fn type_tag() -> (t: TypeTag) {
        TypeTag::U64
    }

    fn impl_idx() -> (i: usize) {
        11
    }

    fn duplicate(&self) -> (r: Self) {
        *self
    }

    fn same(&self, other: &Self) -> (b: bool) {
        *self == *other
    }
}

impl ScalarElement for u64 {
    proof fn tag_is_scalar() {
    }
}

impl Array<u64> {
    /// Appends `item`.
    pub fn push(&mut self, item: u64) -> (r: Result<()>)
        ensures
            Self::push_post(old(self), final(self), item, r),
    {
        self.push_item(item)
    }

    /// Puts `item` in at `index`; the elements from `index` on move back by one.
    pub fn insert(&mut self, index: usize, item: u64) -> (r: Result<()>)
        ensures
            Self::insert_post(old(self), final(self), index, item, r),
    {
        self.insert_item(index, item)
    }

    /// Puts `item` in the place of the element at `index`.
    pub fn replace(&mut self, index: usize, item: u64) -> (r: Result<()>)
        ensures
            Self::replace_post(old(self), final(self), index, item, r),
    {
        self.replace_item(index, item)
    }
}

impl ArrayType for i64 {
    open spec fn tag() -> TypeTag {
        TypeTag::I64
    }

    fn type_tag() -> (t: TypeTag) {
        TypeTag::I64
    }

    fn impl_idx() -> (i: usize) {
        10
    }

    fn duplicate(&self) -> (r: Self) {
        *self
    }

    fn same(&self, other: &Self) -> (b: bool) {
        *self == *other
    }
}

impl ScalarElement for i64 {
    proof fn tag_is_scalar() {
    }
}

impl Array<i64> {
    /// Appends `item`.
    pub fn push(&mut self, item: i64) -> (r: Result<()>)
        ensures
            Self::push_post(old(self), final(self), item, r),
    {
        self.push_item(item)
    }

    /// Puts `item` in at `index`; the elements from `index` on move back by one.
    pub fn insert(&mut self, index: usize, item: i64) -> (r: Result<()>)
        ensures
            Self::insert_post(old(self), final(self), index, item, r),
    {
        self.insert_item(index, item)
    }

    /// Puts `item` in the place of the element at `index`.
    pub fn replace(&mut self, index: usize, item: i64) -> (r: Result<()>)
        ensures
            Self::replace_post(old(self), final(self), index, item, r),
    {
        self.replace_item(index, item)
    }
}

impl ArrayType for usize {
    open spec fn tag() -> TypeTag {
        unsigned_word_tag(word_bits())
    }

    fn type_tag() -> (t: TypeTag) {
        usize_tag()
    }

    fn impl_idx() -> (i: usize) {
        usize_tag().index()
    }

    fn duplicate(&self) -> (r: Self) {
        *self
    }

    fn same(&self, other: &Self) -> (b: bool) {
        *self == *other
    }
}

impl ScalarElement for usize {
    proof fn tag_is_scalar() {
    }
}

impl Array<usize> {
    /// Appends `item`.
    pub fn push(&mut self, item: usize) -> (r: Result<()>)
        ensures
            Self::push_post(old(self), final(self), item, r),
    {
        self.push_item(item)
    }

    /// Puts `item` in at `index`; the elements from `index` on move back by one.
    pub fn insert(&mut self, index: usize, item: usize) -> (r: Result<()>)
        ensures
            Self::insert_post(old(self), final(self), index, item, r),
    {
        self.insert_item(index, item)
    }

    /// Puts `item` in the place of the element at `index`.
    pub fn replace(&mut self, index: usize, item: usize) -> (r: Result<()>)
        ensures
            Self::replace_post(old(self), final(self), index, item, r),
    {
        self.replace_item(index, item)
    }
}

impl ArrayType for isize {
    open spec fn tag() -> TypeTag {
        signed_word_tag(word_bits())
    }

    fn type_tag() -> (t: TypeTag) {
        isize_tag()
    }

    fn impl_idx() -> (i: usize) {
        isize_tag().index()
    }

    fn duplicate(&self) -> (r: Self) {
        *self
    }

    fn same(&self, other: &Self) -> (b: bool) {
        *self == *other
    }
}

impl ScalarElement for isize {
    proof fn tag_is_scalar() {
    }
}

impl Array<isize> {
    /// Appends `item`.
    pub fn push(&mut self, item: isize) -> (r: Result<()>)
        ensures
            Self::push_post(old(self), final(self), item, r),
    {
        self.push_item(item)
    }

    /// Puts `item` in at `index`; the elements from `index` on move back by one.
    pub fn insert(&mut self, index: usize, item: isize) -> (r: Result<()>)
        ensures
            Self::insert_post(old(self), final(self), index, item, r),
    {
        self.insert_item(index, item)
    }

    /// Puts `item` in the place of the element at `index`.
    pub fn replace(&mut self, index: usize, item: isize) -> (r: Result<()>)
        ensures
            Self::replace_post(old(self), final(self), index, item, r),
    {
        self.replace_item(index, item)
    }
}

} // verus!
