use vstd::prelude::*;
use vstd::std_specs::cmp::PartialEqSpec;

verus! {

/// Steps `cur` one place back through `0..max`, wrapping from the first to the last.
pub fn wrap_dec(cur: usize, max: usize) -> (r: usize)
    requires
        max >= 1,
    ensures
        cur == 0 ==> r == max - 1,
        cur > 0 ==> r == cur - 1,
{
    wrap_sub(cur, max, 1)
}

/// Steps `cur` one place on through `0..max`, wrapping from the last to the first.
pub fn wrap_inc(cur: usize, max: usize) -> (r: usize)
    requires
        max >= 1,
    ensures
        cur == max - 1 ==> r == 0,
        cur != max - 1 && cur + 1 <= max ==> r == cur + 1,
        cur >= max ==> r == max - 1,
{
    wrap_add(cur, max, 1)
}

/// Moves `cur` back by `change`: from the first place to the last, and
/// otherwise no further back than the first.
pub fn wrap_sub(cur: usize, max: usize, change: usize) -> (r: usize)
    requires
        max >= 1,
    ensures
        r == if cur == 0 {
            max - 1
        } else if cur < change {
            0
        } else {
            cur - change
        },
{
    if cur == 0 {
        max - 1
    } else if cur < change {
        0
    } else {
        cur - change
    }
}

/// Moves `cur` on by `change`: from the last place to the first, and
/// otherwise no further on than the last.
pub fn wrap_add(cur: usize, max: usize, change: usize) -> (r: usize)
    requires
        max >= 1,
        change <= max || cur == max - 1,
    ensures
        r == if cur == max - 1 {
            0
        } else if cur > max - change {
            max - 1
        } else {
            cur + change
        },
{
    if cur == max - 1 {
        0
    } else if cur > max - change {
        max - 1
    } else {
        cur + change
    }
}

/// Whether every element equals the first (true of an empty slice), for an
/// element type whose `==` behaves as its specification says.
pub fn is_all_same<T: PartialEq>(slice: &[T]) -> (r: bool)
    ensures
        T::obeys_eq_spec() ==> (r == forall|i: int|
            0 <= i < slice@.len() ==> (#[trigger] slice@[i]).eq_spec(&slice@[0])),
{
    if slice.len() == 0 {
        return true;
    }
    let first = &slice[0];
    let mut i: usize = 0;
    while i < slice.len()
        invariant
            i <= slice@.len(),
            slice@.len() > 0,
            *first == slice@[0],
            T::obeys_eq_spec() ==> forall|j: int|
                0 <= j < i ==> (#[trigger] slice@[j]).eq_spec(&slice@[0]),
        decreases slice@.len() - i,
    {
        if !(slice[i] == *first) {
            return false;
        }
        i = i + 1;
    }
    true
}

} // verus!
