//! The container: a typed sequence of elements with a reserved capacity.

use vstd::prelude::*;
use core::ops::Range;
use crate::bounds::{check_index, check_position, check_range, replaced_len, room_to_ask};
use crate::bounds::truncated_len;
use crate::error::{Error, Result};
use crate::model::{apply, insert_seq, larger, op_valid, range_in_bounds, remove_seq, replace_seq, Op};
use crate::tag::{ArrayType, ManagedElement};

verus! {

/// A growable sequence of elements of one type. Its view is the sequence of
/// its elements. A copy made by `clone` is independent of the container it
/// was made from: no change to one is seen through the other.
pub struct Array<T: ArrayType> {
    data: Vec<T>,
    reserved: usize,
}

impl<T: ArrayType> View for Array<T> {
    type V = Seq<T>;

    closed spec fn view(&self) -> Seq<T> {
        self.data@
    }
}

/// `Vec::shrink_to_fit` of std: gives back the room that the vector does
/// not use. The contract claims only that the elements stay as they are.
#[verifier::external_body]
fn release_spare<T>(v: &mut Vec<T>)
    ensures
        final(v)@ == old(v)@,
{
    v.shrink_to_fit();
}

/// Appends a duplicate of each element of `data` to `v`, in order.
fn append_copies<T: ArrayType>(v: &mut Vec<T>, data: &[T])
    ensures
        final(v)@ == old(v)@ + data@,
{
    let mut i: usize = 0;
    while i < data.len()
        invariant
            i <= data.len(),
            v@ == old(v)@ + data@.subrange(0, i as int),
        decreases data.len() - i,
    {
        v.push(data[i].duplicate());
        assert(v@ =~= old(v)@ + data@.subrange(0, i + 1));
        i += 1;
    }
    assert(data@.subrange(0, data@.len() as int) =~= data@);
}

/// Puts duplicates of the elements of `data` in the place of the elements
/// of `v` at `start..end`.
fn splice_copies<T: ArrayType>(v: &mut Vec<T>, start: usize, end: usize, data: &[T])
    requires
        start <= end <= old(v)@.len(),
    ensures
        final(v)@ == replace_seq(old(v)@, start as int, end as int, data@),
{
    let mut tail = v.split_off(end);
    v.truncate(start);
    append_copies(v, data);
    v.append(&mut tail);
    assert(v@ =~= replace_seq(old(v)@, start as int, end as int, data@));
}

impl<T: ArrayType> Array<T> {
    /// The number of elements for which room is reserved; never less than
    /// the number of elements held.
    pub closed spec fn capacity_spec(&self) -> nat {
        larger(self.reserved as nat, self.data@.len())
    }

    /// Two containers with the same contents and the same capacity.
    pub open spec fn same_as(&self, other: &Self) -> bool {
        self@ == other@ && self.capacity_spec() == other.capacity_spec()
    }

    /// What an operation that must find room for the contents `after` leaves
    /// in `now`, having started from `before`. It succeeds at least where the
    /// room is already reserved. On success the contents are `after` and the
    /// capacity has grown to hold them, and no further. It fails only for
    /// lack of memory, and then nothing has changed.
    pub open spec fn grows_to(before: &Self, now: &Self, r: Result<()>, after: Seq<T>) -> bool {
        &&& (after.len() <= before.capacity_spec() ==> r is Ok)
        &&& (r is Ok ==> now@ == after && now.capacity_spec() == larger(
            before.capacity_spec(),
            after.len(),
        ))
        &&& (r is Err ==> r == Err::<(), Error>(Error::AllocationFailure) && now.same_as(before))
    }

    /// What a growing operation leaves once the allocator has answered:
    /// `granted` says whether it gave the room that was asked of it. The
    /// operation succeeds where the room for the contents `after` is
    /// reserved already, and where it was granted and a length can count
    /// `after`. The contents are then `after`, and the capacity has grown
    /// to hold them and no further. Everywhere else it fails for lack of
    /// memory, and nothing has changed.
    pub open spec fn settles_to(
        before: &Self,
        now: &Self,
        r: Result<()>,
        after: Seq<T>,
        granted: bool,
    ) -> bool {
        if after.len() <= before.capacity_spec() || (granted && after.len() <= usize::MAX) {
            &&& r is Ok
            &&& now@ == after
            &&& now.capacity_spec() == larger(before.capacity_spec(), after.len())
        } else {
            r == Err::<(), Error>(Error::AllocationFailure) && now.same_as(before)
        }
    }

    /// What an operation leaves that refuses its argument: the error that
    /// says so, and the container as it was.
    pub open spec fn refused(before: &Self, now: &Self, r: Result<()>) -> bool {
        r == Err::<(), Error>(Error::InvalidArgument) && now.same_as(before)
    }

    /// What a fallible operation leaves, said through the model of the
    /// contents: it refuses its argument exactly where the model does not
    /// accept the step `op`, on success the contents are those that the model
    /// gives, and on failure nothing has changed.
    pub open spec fn follows_model(before: &Self, now: &Self, r: Result<()>, op: Op<T>) -> bool {
        &&& (r == Err::<(), Error>(Error::InvalidArgument) <==> !op_valid(before@, op))
        &&& (r is Ok ==> now@ == apply(before@, op))
        &&& (r is Err ==> now.same_as(before))
    }

    /// What `push` leaves.
    pub open spec fn push_post(before: &Self, now: &Self, item: T, r: Result<()>) -> bool {
        &&& Self::grows_to(before, now, r, before@.push(item))
        &&& Self::follows_model(before, now, r, Op::Push(item))
    }

    /// What `insert` leaves: the index is refused if it lies behind the end.
    pub open spec fn insert_post(
        before: &Self,
        now: &Self,
        index: usize,
        item: T,
        r: Result<()>,
    ) -> bool {
        &&& if index <= before@.len() {
            Self::grows_to(before, now, r, before@.insert(index as int, item))
        } else {
            Self::refused(before, now, r)
        }
        &&& Self::follows_model(before, now, r, Op::Insert(index as int, item))
    }

    /// What `replace` leaves: the index is refused unless an element stands
    /// there.
    pub open spec fn replace_post(
        before: &Self,
        now: &Self,
        index: usize,
        item: T,
        r: Result<()>,
    ) -> bool {
        &&& if index < before@.len() {
            &&& r is Ok
            &&& now@ == before@.update(index as int, item)
            &&& now.capacity_spec() == before.capacity_spec()
        } else {
            Self::refused(before, now, r)
        }
        &&& Self::follows_model(before, now, r, Op::Replace(index as int, item))
    }

    /// No container holds more than it has room for.
    pub proof fn law_len_within_capacity(&self)
        ensures
            self@.len() <= self.capacity_spec(),
    {
    }

    /// An empty container with no room reserved.
    pub fn new() -> (a: Self)
        ensures
            a@ == Seq::<T>::empty(),
            a.capacity_spec() == 0,
    {
        Array { data: Vec::new(), reserved: 0 }
    }

    /// The number of elements.
    pub fn len(&self) -> (n: usize)
        ensures
            n == self@.len(),
    {
        self.data.len()
    }

    /// The number of elements for which room is reserved.
    pub fn capacity(&self) -> (n: usize)
        ensures
            n == self.capacity_spec(),
            n >= self@.len(),
    {
        if self.reserved >= self.data.len() {
            self.reserved
        } else {
            self.data.len()
        }
    }

    /// Whether the container holds no element.
    pub fn is_empty(&self) -> (b: bool)
        ensures
            b == (self@.len() == 0),
    {
        self.data.len() == 0
    }

    /// The elements, in order.
    pub fn as_slice(&self) -> (s: &[T])
        ensures
            s@ == self@,
    {
        self.data.as_slice()
    }

    /// Removes every element and keeps the room.
    pub fn clear(&mut self)
        ensures
            final(self)@ == Seq::<T>::empty(),
            final(self)@ == apply(old(self)@, Op::Clear),
            final(self).capacity_spec() == old(self).capacity_spec(),
    {
        let cap = self.capacity();
        self.data.clear();
        self.reserved = cap;
    }

    /// Gives back the room that no element uses.
    pub fn shrink_to_fit(&mut self)
        ensures
            final(self)@ == old(self)@,
            final(self).capacity_spec() == old(self)@.len(),
    {
        release_spare(&mut self.data);
        self.reserved = self.data.len();
    }

    /// Asks the allocator for the room that `total` elements in all need
    /// beyond those held, where more is needed than is reserved, and says
    /// whether the room is there. Where no length can count the elements,
    /// `total` is nothing and so is the room. The container stays as it was.
    fn ask_room(&mut self, total: Option<usize>) -> (granted: bool)
        ensures
            final(self).same_as(old(self)),
    {
        match total {
            None => false,
            Some(total) => {
                if total <= self.capacity() {
                    true
                } else {
                    let additional = room_to_ask(total, self.data.len());
                    self.data.try_reserve(additional).is_ok()
                }
            },
        }
    }

    /// Books the allocator's answer to a request of room for `total`
    /// elements in all: with the room granted, or reserved already, the
    /// capacity is at least `total`; without it the request has failed for
    /// lack of memory. The elements stay as they are either way.
    pub fn settle_reserve(&mut self, total: usize, granted: bool) -> (r: Result<()>)
        ensures
            final(self)@ == old(self)@,
            (granted || total <= old(self).capacity_spec()) ==> r is Ok
                && final(self).capacity_spec() == larger(
                old(self).capacity_spec(),
                total as nat,
            ),
            (!granted && total > old(self).capacity_spec()) ==> r == Err::<(), Error>(
                Error::AllocationFailure,
            ) && final(self).same_as(old(self)),
    {
        let cap = self.capacity();
        if total <= cap {
            Ok(())
        } else if granted {
            self.reserved = total;
            Ok(())
        } else {
            Err(Error::AllocationFailure)
        }
    }

    /// Reserves room for `n` elements in all. Does not return if the memory
    /// cannot be had.
    pub fn reserve(&mut self, n: usize)
        ensures
            final(self)@ == old(self)@,
            final(self).capacity_spec() == larger(old(self).capacity_spec(), n as nat),
    {
        let cap = self.capacity();
        if n > cap {
            let additional = room_to_ask(n, self.data.len());
            self.data.reserve(additional);
            self.reserved = n;
        }
    }

    /// Reserves room for `n` elements in all, or reports that the memory
    /// cannot be had. The elements stay as they are either way.
    pub fn try_reserve(&mut self, n: usize) -> (r: Result<()>)
        ensures
            final(self)@ == old(self)@,
            n <= old(self).capacity_spec() ==> r is Ok,
            r is Ok ==> final(self).capacity_spec() == larger(
                old(self).capacity_spec(),
                n as nat,
            ),
            r is Err ==> r == Err::<(), Error>(Error::AllocationFailure) && final(self).same_as(
                old(self),
            ),
    {
        let granted = self.ask_room(Some(n));
        self.settle_reserve(n, granted)
    }

    /// Keeps the first `n` elements, or all of them if there are fewer.
    pub fn truncate(&mut self, n: usize)
        ensures
            n <= old(self)@.len() ==> final(self)@ == old(self)@.subrange(0, n as int),
            n > old(self)@.len() ==> final(self)@ == old(self)@,
            final(self)@ == apply(old(self)@, Op::Truncate(n as int)),
            final(self).capacity_spec() == old(self).capacity_spec(),
    {
        let cap = self.capacity();
        let kept = truncated_len(n, self.data.len());
        self.data.truncate(kept);
        self.reserved = cap;
    }

    /// Makes the contents equal to `values`, given the allocator's answer
    /// to a request of room for them.
    pub fn resize_settled(&mut self, values: &[T], granted: bool) -> (r: Result<()>)
        ensures
            Self::settles_to(old(self), final(self), r, values@, granted),
    {
        let cap = self.capacity();
        let total = values.len();
        if !granted && total > cap {
            return Err(Error::AllocationFailure);
        }
        self.data.clear();
        append_copies(&mut self.data, values);
        self.reserved = if total > cap {
            total
        } else {
            cap
        };
        assert(self.data@ =~= values@);
        Ok(())
    }

    /// Makes the contents equal to `values`.
    pub fn resize(&mut self, values: &[T]) -> (r: Result<()>)
        ensures
            Self::grows_to(old(self), final(self), r, values@),
            Self::follows_model(old(self), final(self), r, Op::Resize(values@)),
            values@ == old(self)@ ==> r is Ok && final(self).same_as(old(self)),
    {
        let granted = self.ask_room(Some(values.len()));
        self.resize_settled(values, granted)
    }

    /// Removes the element at `index`; those behind it move up by one.
    pub fn remove(&mut self, index: usize) -> (r: Result<()>)
        ensures
            index < old(self)@.len() ==> r is Ok && final(self)@ == old(self)@.remove(index as int)
                && final(self).capacity_spec() == old(self).capacity_spec(),
            index >= old(self)@.len() ==> Self::refused(old(self), final(self), r),
            Self::follows_model(old(self), final(self), r, Op::Remove(index as int)),
    {
        let checked = check_index(index, self.data.len());
        if checked.is_err() {
            return checked;
        }
        let cap = self.capacity();
        let _gone = self.data.remove(index);
        self.reserved = cap;
        Ok(())
    }

    /// Removes the elements at `range`; those behind it move up.
    pub fn remove_range(&mut self, range: Range<usize>) -> (r: Result<()>)
        ensures
            range_in_bounds(range.start as int, range.end as int, old(self)@.len() as int) ==> r
                is Ok && final(self)@ == remove_seq(
                old(self)@,
                range.start as int,
                range.end as int,
            ) && final(self).capacity_spec() == old(self).capacity_spec(),
            !range_in_bounds(range.start as int, range.end as int, old(self)@.len() as int)
                ==> Self::refused(old(self), final(self), r),
            Self::follows_model(
                old(self),
                final(self),
                r,
                Op::RemoveRange(range.start as int, range.end as int),
            ),
    {
        let checked = check_range(range.start, range.end, self.data.len());
        if checked.is_err() {
            return checked;
        }
        let cap = self.capacity();
        let mut tail = self.data.split_off(range.end);
        self.data.truncate(range.start);
        self.data.append(&mut tail);
        self.reserved = cap;
        assert(self.data@ =~= remove_seq(old(self)@, range.start as int, range.end as int));
        Ok(())
    }

    /// Appends duplicates of the elements of `data`, given the allocator's
    /// answer to a request of room for them.
    pub fn extend_settled(&mut self, data: &[T], granted: bool) -> (r: Result<()>)
        ensures
            Self::settles_to(old(self), final(self), r, old(self)@ + data@, granted),
    {
        let len = self.data.len();
        assert(replace_seq(self@, len as int, len as int, data@) =~= self@ + data@);
        self.replace_slice_settled(len..len, data, granted)
    }

    /// Appends duplicates of the elements of `data`.
    pub fn extend_from_slice(&mut self, data: &[T]) -> (r: Result<()>)
        ensures
            Self::grows_to(old(self), final(self), r, old(self)@ + data@),
            Self::follows_model(old(self), final(self), r, Op::Extend(data@)),
    {
        let len = self.data.len();
        let granted = self.ask_room(replaced_len(len, len, len, data.len()));
        self.extend_settled(data, granted)
    }

    /// Puts duplicates of the elements of `data` in at `index`, given the
    /// allocator's answer to a request of room for them. An index behind
    /// the end is refused, whatever the answer.
    pub fn insert_slice_settled(
        &mut self,
        index: usize,
        data: &[T],
        granted: bool,
    ) -> (r: Result<()>)
        ensures
            index <= old(self)@.len() ==> Self::settles_to(
                old(self),
                final(self),
                r,
                insert_seq(old(self)@, index as int, data@),
                granted,
            ),
            index > old(self)@.len() ==> Self::refused(old(self), final(self), r),
    {
        assert(index <= self@.len() ==> replace_seq(self@, index as int, index as int, data@)
            =~= insert_seq(self@, index as int, data@));
        self.replace_slice_settled(index..index, data, granted)
    }

    /// Puts duplicates of the elements of `data` in at `index`; the elements
    /// from `index` on move behind them.
    pub fn insert_from_slice(&mut self, index: usize, data: &[T]) -> (r: Result<()>)
        ensures
            index <= old(self)@.len() ==> Self::grows_to(
                old(self),
                final(self),
                r,
                insert_seq(old(self)@, index as int, data@),
            ),
            index > old(self)@.len() ==> Self::refused(old(self), final(self), r),
            Self::follows_model(old(self), final(self), r, Op::InsertSlice(index as int, data@)),
    {
        let len = self.data.len();
        let checked = check_position(index, len);
        if checked.is_err() {
            return checked;
        }
        let granted = self.ask_room(replaced_len(len, index, index, data.len()));
        self.insert_slice_settled(index, data, granted)
    }

    /// Puts duplicates of the elements of `data` in the place of the elements
    /// at `range`, given the allocator's answer to a request of room for
    /// the new contents. A range that is reversed or reaches behind the end
    /// is refused, whatever the answer.
    pub fn replace_slice_settled(
        &mut self,
        range: Range<usize>,
        data: &[T],
        granted: bool,
    ) -> (r: Result<()>)
        ensures
            range_in_bounds(range.start as int, range.end as int, old(self)@.len() as int)
                ==> Self::settles_to(
                old(self),
                final(self),
                r,
                replace_seq(old(self)@, range.start as int, range.end as int, data@),
                granted,
            ),
            !range_in_bounds(range.start as int, range.end as int, old(self)@.len() as int)
                ==> Self::refused(old(self), final(self), r),
    {
        let len = self.data.len();
        let checked = check_range(range.start, range.end, len);
        if checked.is_err() {
            return checked;
        }
        let cap = self.capacity();
        let total = match replaced_len(len, range.start, range.end, data.len()) {
            Some(total) => total,
            None => {
                return Err(Error::AllocationFailure);
            },
        };
        if !granted && total > cap {
            return Err(Error::AllocationFailure);
        }
        splice_copies(&mut self.data, range.start, range.end, data);
        self.reserved = if total > cap {
            total
        } else {
            cap
        };
        Ok(())
    }

    /// Puts duplicates of the elements of `data` in the place of the elements
    /// at `range`; the length changes by the difference.
    pub fn replace_from_slice(&mut self, range: Range<usize>, data: &[T]) -> (r: Result<()>)
        ensures
            range_in_bounds(range.start as int, range.end as int, old(self)@.len() as int)
                ==> Self::grows_to(
                old(self),
                final(self),
                r,
                replace_seq(old(self)@, range.start as int, range.end as int, data@),
            ),
            !range_in_bounds(range.start as int, range.end as int, old(self)@.len() as int)
                ==> Self::refused(old(self), final(self), r),
            Self::follows_model(
                old(self),
                final(self),
                r,
                Op::ReplaceSlice(range.start as int, range.end as int, data@),
            ),
    {
        let len = self.data.len();
        let checked = check_range(range.start, range.end, len);
        if checked.is_err() {
            return checked;
        }
        let granted = self.ask_room(replaced_len(len, range.start, range.end, data.len()));
        self.replace_slice_settled(range, data, granted)
    }

    /// Appends `item`, given the allocator's answer to a request of room
    /// for it.
    pub fn push_settled(&mut self, item: T, granted: bool) -> (r: Result<()>)
        ensures
            Self::settles_to(old(self), final(self), r, old(self)@.push(item), granted),
    {
        let len = self.data.len();
        assert(self@.insert(len as int, item) =~= self@.push(item));
        self.insert_settled(len, item, granted)
    }

    /// Puts `item` in at `index`, given the allocator's answer to a request
    /// of room for it. An index behind the end is refused, whatever the
    /// answer.
    pub fn insert_settled(&mut self, index: usize, item: T, granted: bool) -> (r: Result<()>)
        ensures
            index <= old(self)@.len() ==> Self::settles_to(
                old(self),
                final(self),
                r,
                old(self)@.insert(index as int, item),
                granted,
            ),
            index > old(self)@.len() ==> Self::refused(old(self), final(self), r),
    {
        let len = self.data.len();
        let checked = check_position(index, len);
        if checked.is_err() {
            return checked;
        }
        let cap = self.capacity();
        let total = match replaced_len(len, index, index, 1) {
            Some(total) => total,
            None => {
                return Err(Error::AllocationFailure);
            },
        };
        if !granted && total > cap {
            return Err(Error::AllocationFailure);
        }
        self.data.insert(index, item);
        self.reserved = if total > cap {
            total
        } else {
            cap
        };
        Ok(())
    }

    /// Appends `item`.
    pub(crate) fn push_item(&mut self, item: T) -> (r: Result<()>)
        ensures
            Self::push_post(old(self), final(self), item, r),
    {
        let len = self.data.len();
        let granted = self.ask_room(replaced_len(len, len, len, 1));
        self.push_settled(item, granted)
    }

    /// Puts `item` in at `index`.
    pub(crate) fn insert_item(&mut self, index: usize, item: T) -> (r: Result<()>)
        ensures
            Self::insert_post(old(self), final(self), index, item, r),
    {
        let len = self.data.len();
        let checked = check_position(index, len);
        if checked.is_err() {
            return checked;
        }
        let granted = self.ask_room(replaced_len(len, index, index, 1));
        self.insert_settled(index, item, granted)
    }

    /// Puts `item` in the place of the element at `index`.
    pub(crate) fn replace_item(&mut self, index: usize, item: T) -> (r: Result<()>)
        ensures
            Self::replace_post(old(self), final(self), index, item, r),
    {
        let checked = check_index(index, self.data.len());
        if checked.is_err() {
            return checked;
        }
        let cap = self.capacity();
        self.data.set(index, item);
        self.reserved = cap;
        Ok(())
    }
}

impl<T: ManagedElement> Array<T> {
    /// Appends an element constructed from `item`.
    pub fn push(&mut self, item: &T) -> (r: Result<()>)
        ensures
            Self::push_post(old(self), final(self), *item, r),
    {
        self.push_item(item.duplicate())
    }

    /// Puts an element constructed from `item` in at `index`.
    pub fn insert(&mut self, index: usize, item: &T) -> (r: Result<()>)
        ensures
            Self::insert_post(old(self), final(self), index, *item, r),
    {
        self.insert_item(index, item.duplicate())
    }

    /// Puts an element constructed from `item` in the place of the element
    /// at `index`.
    pub fn replace(&mut self, index: usize, item: &T) -> (r: Result<()>)
        ensures
            Self::replace_post(old(self), final(self), index, *item, r),
    {
        self.replace_item(index, item.duplicate())
    }
}

impl<T: ArrayType> Clone for Array<T> {
    /// A second container with the same contents and capacity. It shares
    /// nothing with the first that a later change to either could reach.
    fn clone(&self) -> (c: Self)
        ensures
            c@ == self@,
            c.capacity_spec() == self.capacity_spec(),
    {
        let mut data: Vec<T> = Vec::new();
        append_copies(&mut data, self.data.as_slice());
        assert(data@ =~= self.data@);
        Array { data, reserved: self.reserved }
    }
}

impl<T: ArrayType> core::ops::Deref for Array<T> {
    type Target = [T];

    /// The elements, in order.
    fn deref(&self) -> (s: &[T])
        ensures
            s@ == self@,
    {
        self.data.as_slice()
    }
}

impl<T: ArrayType> AsRef<[T]> for Array<T> {
    /// The elements, in order.
    fn as_ref(&self) -> (s: &[T])
        ensures
            s@ == self@,
    {
        self.data.as_slice()
    }
}

impl<T: ArrayType> Default for Array<T> {
    /// An empty container with no room reserved.
    fn default() -> (a: Self)
        ensures
            a@ == Seq::<T>::empty(),
            a.capacity_spec() == 0,
    {
        Array { data: Vec::new(), reserved: 0 }
    }
}

} // verus!
