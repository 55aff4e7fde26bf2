//! The tests that an index or a range must pass before an operation
//! touches the contents.

use vstd::prelude::*;
use crate::error::{Error, Result};
use crate::model::range_in_bounds;

verus! {

/// The length that `truncate` leaves: `n`, but never more than `len`.
pub open spec fn truncated_len_spec(n: usize, len: usize) -> usize {
    if n <= len {
        n
    } else {
        len
    }
}

/// The length that `truncate` leaves: `n`, but never more than `len`.
pub fn truncated_len(n: usize, len: usize) -> (m: usize)
    ensures
        m == truncated_len_spec(n, len),
        m <= len,
        m <= n,
{
    if n <= len {
        n
    } else {
        len
    }
}

/// Accepts `index` where an element stands there among `len` elements.
pub fn check_index(index: usize, len: usize) -> (r: Result<()>)
    ensures
        index < len ==> r is Ok,
        index >= len ==> r == Err::<(), Error>(Error::InvalidArgument),
{
    if index < len {
        Ok(())
    } else {
        Err(Error::InvalidArgument)
    }
}

/// Accepts `index` where an element can be put in there among `len`
/// elements: at any element, or behind the last.
pub fn check_position(index: usize, len: usize) -> (r: Result<()>)
    ensures
        index <= len ==> r is Ok,
        index > len ==> r == Err::<(), Error>(Error::InvalidArgument),
{
    if index <= len {
        Ok(())
    } else {
        Err(Error::InvalidArgument)
    }
}

/// Accepts `start..end` where it is a range among `len` elements: not
/// reversed, and not reaching behind the last.
pub fn check_range(start: usize, end: usize, len: usize) -> (r: Result<()>)
    ensures
        range_in_bounds(start as int, end as int, len as int) ==> r is Ok,
        !range_in_bounds(start as int, end as int, len as int) ==> r == Err::<(), Error>(
            Error::InvalidArgument,
        ),
{
    if start <= end && end <= len {
        Ok(())
    } else {
        Err(Error::InvalidArgument)
    }
}

/// One end of a range of indices.
#[derive(Clone, Copy, Debug, PartialEq, Eq, Structural)]
pub enum Bound {
    /// The range reaches this index and holds it.
    Included(usize),
    /// The range reaches this index and does not hold it.
    Excluded(usize),
    /// The range goes on to the end of the contents, or starts at their start.
    Unbounded,
}

/// The first index that a range with the lower bound `b` holds.
pub open spec fn first_index(b: Bound) -> int {
    match b {
        Bound::Included(n) => n as int,
        Bound::Excluded(n) => n + 1,
        Bound::Unbounded => 0,
    }
}

/// The index behind the last that a range with the upper bound `b` holds,
/// among `len` elements.
pub open spec fn end_index(b: Bound, len: usize) -> int {
    match b {
        Bound::Included(n) => n + 1,
        Bound::Excluded(n) => n as int,
        Bound::Unbounded => len as int,
    }
}

/// Turns the two bounds of a range into its first index and the index
/// behind its last, where that is a range among `len` elements, and
/// refuses the bounds otherwise.
pub fn resolve_range(lower: Bound, upper: Bound, len: usize) -> (r: Result<(usize, usize)>)
    ensures
        range_in_bounds(first_index(lower), end_index(upper, len), len as int) ==> r is Ok
            && r->Ok_0.0 == first_index(lower) && r->Ok_0.1 == end_index(upper, len),
        !range_in_bounds(first_index(lower), end_index(upper, len), len as int) ==> r == Err::<
            (usize, usize),
            Error,
        >(Error::InvalidArgument),
{
    let start: usize = match lower {
        Bound::Included(n) => n,
        Bound::Excluded(n) => {
            if n >= len {
                return Err(Error::InvalidArgument);
            }
            n + 1
        },
        Bound::Unbounded => 0,
    };
    let end: usize = match upper {
        Bound::Included(n) => {
            if n >= len {
                return Err(Error::InvalidArgument);
            }
            n + 1
        },
        Bound::Excluded(n) => n,
        Bound::Unbounded => len,
    };
    if start <= end && end <= len {
        Ok((start, end))
    } else {
        Err(Error::InvalidArgument)
    }
}

/// The room to ask of the allocator so that `total` elements in all fit,
/// where `len` are held: the room for those that are not held yet.
pub fn room_to_ask(total: usize, len: usize) -> (additional: usize)
    requires
        len <= total,
    ensures
        additional == total - len,
{
    total - len
}

/// The length after the elements at `start..end` have made room for
/// `count` others, or nothing where no length can say it.
pub fn replaced_len(len: usize, start: usize, end: usize, count: usize) -> (total: Option<usize>)
    requires
        start <= end <= len,
    ensures
        len - (end - start) + count <= usize::MAX ==> total == Some(
            (len - (end - start) + count) as usize,
        ),
        len - (end - start) + count > usize::MAX ==> total is None,
{
    let kept: usize = len - (end - start);
    if count > usize::MAX - kept {
        None
    } else {
        Some(kept + count)
    }
}

} // verus!
