//! The sum of a slice, added up in two halves that two workers can take.

use vstd::prelude::*;
use vstd::slice::slice_subrange;

verus! {

/// The sum of `numbers`, as a mathematical integer.
pub open spec fn total(numbers: Seq<i32>) -> int
    decreases numbers.len(),
{
    if numbers.len() == 0 {
        0
    } else {
        total(numbers.drop_last()) + numbers.last()
    }
}

/// Whether `numbers` can be added up from the first to the last without any sum on the way
/// leaving the range of `i32`.
pub open spec fn adds_up_in_range(numbers: Seq<i32>) -> bool {
    forall|k: int|
        0 <= k <= numbers.len() ==> i32::MIN <= #[trigger] total(numbers.take(k)) <= i32::MAX
}

/// Whether `numbers` can be added up in two halves: each half adds up in range, and so does
/// the sum of the two.
pub open spec fn halves_add_up_in_range(numbers: Seq<i32>) -> bool {
    let middle = (numbers.len() / 2) as int;
    &&& adds_up_in_range(numbers.take(middle))
    &&& adds_up_in_range(numbers.skip(middle))
    &&& i32::MIN <= total(numbers) <= i32::MAX
}

/// The sum of two runs laid end to end is the sum of their sums.
pub proof fn lemma_total_of_joined(front: Seq<i32>, back: Seq<i32>)
    ensures
        total(front + back) == total(front) + total(back),
    decreases back.len(),
{
    if back.len() == 0 {
        assert(front + back =~= front);
    } else {
        assert((front + back).drop_last() =~= front + back.drop_last());
        lemma_total_of_joined(front, back.drop_last());
    }
}

/// The sum of `slice`, added up from the first number to the last.
pub fn sum_of(slice: &[i32]) -> (sum: i32)
    requires
        adds_up_in_range(slice@),
    ensures
        sum == total(slice@),
{
    let mut sum: i32 = 0;
    let mut i: usize = 0;
    assert(slice@.take(0) =~= Seq::<i32>::empty());
    while i < slice.len()
        invariant
            i <= slice@.len(),
            sum == total(slice@.take(i as int)),
            adds_up_in_range(slice@),
        decreases slice@.len() - i,
    {
        proof {
            let next = slice@.take(i + 1);
            assert(next.drop_last() =~= slice@.take(i as int));
            assert(total(next) == total(slice@.take(i as int)) + slice@[i as int]);
        }
        sum = sum + slice[i];
        i += 1;
    }
    assert(slice@.take(slice@.len() as int) =~= slice@);
    sum
}

/// The sum of `slice`: the sum of its first half added to the sum of its second half. With
/// an odd length the second half is the longer one.
pub fn sum(slice: &[i32]) -> (sum: i32)
    requires
        halves_add_up_in_range(slice@),
    ensures
        sum == total(slice@),
{
    let middle = slice.len() / 2;
    let first = slice_subrange(slice, 0, middle);
    let second = slice_subrange(slice, middle, slice.len());
    proof {
        assert(first@ =~= slice@.take(middle as int));
        assert(second@ =~= slice@.skip(middle as int));
        assert(slice@ =~= first@ + second@);
        lemma_total_of_joined(first@, second@);
    }
    sum_of(first) + sum_of(second)
}

/// The sum of `slice` added up from the first number to the last, or `None` where a sum on
/// the way leaves the range of `i32`.
pub fn checked_sum_of(slice: &[i32]) -> (sum: Option<i32>)
    ensures
        match sum {
            Some(sum) => adds_up_in_range(slice@) && sum == total(slice@),
            None => !adds_up_in_range(slice@),
        },
{
    let mut sum: i32 = 0;
    let mut i: usize = 0;
    assert(slice@.take(0) =~= Seq::<i32>::empty());
    while i < slice.len()
        invariant
            i <= slice@.len(),
            sum == total(slice@.take(i as int)),
            forall|k: int| 0 <= k <= i ==> i32::MIN <= #[trigger] total(slice@.take(k)) <= i32::MAX,
        decreases slice@.len() - i,
    {
        proof {
            let next = slice@.take(i + 1);
            assert(next.drop_last() =~= slice@.take(i as int));
            assert(total(next) == total(slice@.take(i as int)) + slice@[i as int]);
        }
        match sum.checked_add(slice[i]) {
            Some(next) => {
                sum = next;
            },
            None => {
                assert(!(i32::MIN <= total(slice@.take(i + 1)) <= i32::MAX));
                return None;
            },
        }
        i += 1;
    }
    assert(slice@.take(slice@.len() as int) =~= slice@);
    Some(sum)
}

/// The sum of `slice` added up in two halves, or `None` where a sum on the way leaves the
/// range of `i32`.
pub fn checked_sum(slice: &[i32]) -> (sum: Option<i32>)
    ensures
        match sum {
            Some(sum) => halves_add_up_in_range(slice@) && sum == total(slice@),
            None => !halves_add_up_in_range(slice@),
        },
{
    let middle = slice.len() / 2;
    let first = slice_subrange(slice, 0, middle);
    let second = slice_subrange(slice, middle, slice.len());
    proof {
        assert(first@ =~= slice@.take(middle as int));
        assert(second@ =~= slice@.skip(middle as int));
        assert(slice@ =~= first@ + second@);
        lemma_total_of_joined(first@, second@);
    }
    match (checked_sum_of(first), checked_sum_of(second)) {
        (Some(front), Some(back)) => front.checked_add(back),
        _ => None,
    }
}

} // verus!
