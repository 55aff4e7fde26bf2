//! The ordered-sequence model of a container's contents.

use vstd::prelude::*;

verus! {

/// The larger of two lengths.
pub open spec fn larger(a: nat, b: nat) -> nat {
    if a >= b {
        a
    } else {
        b
    }
}

/// Whether `start..end` is a range inside a sequence of `len` elements.
pub open spec fn range_in_bounds(start: int, end: int, len: int) -> bool {
    0 <= start <= end <= len
}

/// `s` with the elements of `data` put in at position `i`.
pub open spec fn insert_seq<T>(s: Seq<T>, i: int, data: Seq<T>) -> Seq<T> {
    s.subrange(0, i) + data + s.subrange(i, s.len() as int)
}

/// `s` without the elements at `start..end`.
pub open spec fn remove_seq<T>(s: Seq<T>, start: int, end: int) -> Seq<T> {
    s.subrange(0, start) + s.subrange(end, s.len() as int)
}

/// `s` with the elements at `start..end` replaced by those of `data`.
pub open spec fn replace_seq<T>(s: Seq<T>, start: int, end: int, data: Seq<T>) -> Seq<T> {
    s.subrange(0, start) + data + s.subrange(end, s.len() as int)
}

/// One step in the life of a container, as the model sees it.
pub enum Op<T> {
    Push(T),
    Insert(int, T),
    Replace(int, T),
    Remove(int),
    RemoveRange(int, int),
    Truncate(int),
    Clear,
    Resize(Seq<T>),
    Extend(Seq<T>),
    InsertSlice(int, Seq<T>),
    ReplaceSlice(int, int, Seq<T>),
}

/// Whether the container accepts `op` when its contents are `s`.
pub open spec fn op_valid<T>(s: Seq<T>, op: Op<T>) -> bool {
    match op {
        Op::Push(_) => true,
        Op::Insert(i, _) => 0 <= i <= s.len(),
        Op::Replace(i, _) => 0 <= i < s.len(),
        Op::Remove(i) => 0 <= i < s.len(),
        Op::RemoveRange(start, end) => range_in_bounds(start, end, s.len() as int),
        Op::Truncate(n) => 0 <= n,
        Op::Clear => true,
        Op::Resize(_) => true,
        Op::Extend(_) => true,
        Op::InsertSlice(i, _) => 0 <= i <= s.len(),
        Op::ReplaceSlice(start, end, _) => range_in_bounds(start, end, s.len() as int),
    }
}

/// The contents after `op`, where the contents before it were `s`.
pub open spec fn apply<T>(s: Seq<T>, op: Op<T>) -> Seq<T> {
    match op {
        Op::Push(x) => s.push(x),
        Op::Insert(i, x) => s.insert(i, x),
        Op::Replace(i, x) => s.update(i, x),
        Op::Remove(i) => s.remove(i),
        Op::RemoveRange(start, end) => remove_seq(s, start, end),
        Op::Truncate(n) => if n <= s.len() {
            s.subrange(0, n)
        } else {
            s
        },
        Op::Clear => Seq::empty(),
        Op::Resize(values) => values,
        Op::Extend(data) => s + data,
        Op::InsertSlice(i, data) => insert_seq(s, i, data),
        Op::ReplaceSlice(start, end, data) => replace_seq(s, start, end, data),
    }
}

/// The length after `op`, computed from the length before it alone.
pub open spec fn len_after<T>(len: int, op: Op<T>) -> int {
    match op {
        Op::Push(_) => len + 1,
        Op::Insert(_, _) => len + 1,
        Op::Replace(_, _) => len,
        Op::Remove(_) => len - 1,
        Op::RemoveRange(start, end) => len - (end - start),
        Op::Truncate(n) => if n <= len {
            n
        } else {
            len
        },
        Op::Clear => 0,
        Op::Resize(values) => values.len() as int,
        Op::Extend(data) => len + data.len(),
        Op::InsertSlice(_, data) => len + data.len(),
        Op::ReplaceSlice(start, end, data) => len - (end - start) + data.len(),
    }
}

/// Whether the container accepts each of `ops` in turn, starting from the
/// contents `s`.
pub open spec fn all_valid<T>(s: Seq<T>, ops: Seq<Op<T>>) -> bool
    decreases ops.len(),
{
    if ops.len() == 0 {
        true
    } else {
        op_valid(s, ops[0]) && all_valid(apply(s, ops[0]), ops.drop_first())
    }
}

/// The contents after all of `ops` in turn, starting from the contents `s`.
pub open spec fn run<T>(s: Seq<T>, ops: Seq<Op<T>>) -> Seq<T>
    decreases ops.len(),
{
    if ops.len() == 0 {
        s
    } else {
        run(apply(s, ops[0]), ops.drop_first())
    }
}

/// The length after all of `ops` in turn, computed from the length alone.
pub open spec fn run_len<T>(len: int, ops: Seq<Op<T>>) -> int
    decreases ops.len(),
{
    if ops.len() == 0 {
        len
    } else {
        run_len(len_after(len, ops[0]), ops.drop_first())
    }
}

/// The length after an accepted step is the net effect of the step on the
/// length before it.
pub proof fn law_len_after_op<T>(s: Seq<T>, op: Op<T>)
    requires
        op_valid(s, op),
    ensures
        apply(s, op).len() == len_after(s.len() as int, op),
{
}

/// The length after a sequence of accepted steps is the net effect of the
/// steps on the length at the start.
pub proof fn law_len_after_run<T>(s: Seq<T>, ops: Seq<Op<T>>)
    requires
        all_valid(s, ops),
    ensures
        run(s, ops).len() == run_len(s.len() as int, ops),
    decreases ops.len(),
{
    if ops.len() > 0 {
        law_len_after_op(s, ops[0]);
        law_len_after_run(apply(s, ops[0]), ops.drop_first());
    }
}

/// Making the contents equal to what they are already changes nothing.
pub proof fn law_resize_to_self<T>(s: Seq<T>)
    ensures
        apply(s, Op::Resize(s)) == s,
        len_after(s.len() as int, Op::Resize(s)) == s.len(),
{
}

/// Removing the element at `i` and putting `x` in at `i` restores the
/// length, and changes the contents at `i` alone, and there only if `x`
/// differs from what was removed.
pub proof fn law_remove_then_insert<T>(s: Seq<T>, i: int, x: T)
    requires
        0 <= i < s.len(),
    ensures
        op_valid(s.remove(i), Op::Insert(i, x)),
        s.remove(i).insert(i, x).len() == s.len(),
        s.remove(i).insert(i, x) == s.update(i, x),
        forall|j: int| 0 <= j < s.len() && j != i ==> s.remove(i).insert(i, x)[j] == s[j],
        s.remove(i).insert(i, x)[i] == x,
        x == s[i] ==> s.remove(i).insert(i, x) == s,
{
    assert(s.remove(i).insert(i, x) =~= s.update(i, x));
    if x == s[i] {
        assert(s.update(i, x) =~= s);
    }
}

/// What was appended is read back from the old end to the new end.
pub proof fn law_extend_round_trip<T>(s: Seq<T>, data: Seq<T>)
    ensures
        (s + data).len() == s.len() + data.len(),
        (s + data).subrange(s.len() as int, (s + data).len() as int) == data,
        (s + data).subrange(0, s.len() as int) == s,
{
    assert((s + data).subrange(s.len() as int, (s + data).len() as int) =~= data);
    assert((s + data).subrange(0, s.len() as int) =~= s);
}

/// Putting in nothing, taking out nothing and replacing nothing by nothing
/// leave the contents as they are.
pub proof fn law_empty_changes<T>(s: Seq<T>, i: int)
    requires
        0 <= i <= s.len(),
    ensures
        insert_seq(s, i, Seq::empty()) == s,
        remove_seq(s, i, i) == s,
        replace_seq(s, i, i, Seq::empty()) == s,
{
    assert(insert_seq(s, i, Seq::empty()) =~= s);
    assert(remove_seq(s, i, i) =~= s);
    assert(replace_seq(s, i, i, Seq::empty()) =~= s);
}

/// Inserting one element, or removing one, is the slice operation on a
/// sequence of one.
pub proof fn law_single_element<T>(s: Seq<T>, i: int, x: T)
    requires
        0 <= i <= s.len(),
    ensures
        insert_seq(s, i, seq![x]) == s.insert(i, x),
        i < s.len() ==> remove_seq(s, i, i + 1) == s.remove(i),
        i < s.len() ==> replace_seq(s, i, i + 1, seq![x]) == s.update(i, x),
        insert_seq(s, s.len() as int, seq![x]) == s.push(x),
{
    assert(insert_seq(s, i, seq![x]) =~= s.insert(i, x));
    assert(insert_seq(s, s.len() as int, seq![x]) =~= s.push(x));
    if i < s.len() {
        assert(remove_seq(s, i, i + 1) =~= s.remove(i));
        assert(replace_seq(s, i, i + 1, seq![x]) =~= s.update(i, x));
    }
}

} // verus!
