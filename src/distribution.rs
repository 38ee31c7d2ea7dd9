use vstd::prelude::*;
use crate::layout::Orientation;

verus! {

/// The smallest size that either child of a dragged pair is given.
pub open spec fn single_minimum(orientation: Orientation) -> int {
    match orientation {
        Orientation::Horizontal => 240,
        Orientation::Vertical => 360,
    }
}

/// A pair whose sizes add up to less than this is not redistributed.
pub open spec fn combined_minimum(orientation: Orientation) -> int {
    match orientation {
        Orientation::Horizontal => 480,
        Orientation::Vertical => 720,
    }
}

pub open spec fn max_int(a: int, b: int) -> int {
    if a >= b { a } else { b }
}

/// The sizes of a pair `(first, second)` after the boundary between them has
/// moved by `delta`: the first takes the move, down to its minimum; the second
/// gives up what the first took, down to its minimum; what the second could
/// not give back is returned to the first.
pub open spec fn resized_pair(first: int, second: int, orientation: Orientation, delta: int) -> (int, int) {
    let min = single_minimum(orientation);
    let grown = max_int(first + delta, min);
    let next = second + (first - grown);
    let second_new = max_int(next, min);
    (grown + (next - second_new), second_new)
}

/// Whether a pair is large enough to be redistributed at all.
pub open spec fn pair_accepts(first: int, second: int, orientation: Orientation) -> bool {
    first + second >= combined_minimum(orientation)
}

/// `sizes` after a drag by `delta` of the boundary between entries `i` and `i + 1`.
pub open spec fn resized_sizes(sizes: Seq<i32>, i: int, orientation: Orientation, delta: int) -> Seq<i32> {
    let (a, b) = resized_pair(sizes[i] as int, sizes[i + 1] as int, orientation, delta);
    sizes.update(i, a as i32).update(i + 1, b as i32)
}

/// The pair keeps its total, whatever the move and whichever minimum is hit.
pub proof fn lemma_resize_conserves_total(first: int, second: int, orientation: Orientation, delta: int)
    ensures
        resized_pair(first, second, orientation, delta).0 + resized_pair(first, second, orientation, delta).1
            == first + second,
{
}

/// A pair that is large enough to be redistributed leaves both children at or
/// above their minimum, and neither above the pair's total less that minimum.
pub proof fn lemma_resize_respects_minimum(first: int, second: int, orientation: Orientation, delta: int)
    requires
        pair_accepts(first, second, orientation),
    ensures
        resized_pair(first, second, orientation, delta).0 >= single_minimum(orientation),
        resized_pair(first, second, orientation, delta).1 >= single_minimum(orientation),
        resized_pair(first, second, orientation, delta).0 <= first + second - single_minimum(orientation),
        resized_pair(first, second, orientation, delta).1 <= first + second - single_minimum(orientation),
{
}

/// A move by zero leaves a pair whose children are both at or above their
/// minimum exactly as it was.
pub proof fn lemma_zero_move_is_identity(first: int, second: int, orientation: Orientation)
    requires
        first >= single_minimum(orientation),
        second >= single_minimum(orientation),
    ensures
        resized_pair(first, second, orientation, 0) == (first, second),
{
}

/// Moves the boundary between `sizes[left_up_idx]` and `sizes[left_up_idx + 1]`
/// by `delta`, keeping each of the two at or above its orientation's minimum
/// and their sum unchanged.
///
/// Returns `false`, and leaves `sizes` as it was, when the two add up to less
/// than the orientation's combined minimum.
pub fn perform_fork_grab_resize(
    sizes: &mut Vec<i32>,
    left_up_idx: usize,
    orientation: Orientation,
    delta: i64,
) -> (r: bool)
    requires
        left_up_idx + 1 < old(sizes).len(),
        old(sizes)[left_up_idx as int] + old(sizes)[left_up_idx + 1] <= i32::MAX,
    ensures
        r == pair_accepts(
            old(sizes)[left_up_idx as int] as int,
            old(sizes)[left_up_idx + 1] as int,
            orientation,
        ),
        r ==> final(sizes)@ == resized_sizes(old(sizes)@, left_up_idx as int, orientation, delta as int),
        !r ==> final(sizes)@ == old(sizes)@,
        final(sizes)[left_up_idx as int] + final(sizes)[left_up_idx + 1]
            == old(sizes)[left_up_idx as int] + old(sizes)[left_up_idx + 1],
        r ==> final(sizes)[left_up_idx as int] >= single_minimum(orientation),
        r ==> final(sizes)[left_up_idx + 1] >= single_minimum(orientation),
{
    let (single, combined): (i128, i128) = match orientation {
        Orientation::Vertical => (360, 720),
        Orientation::Horizontal => (240, 480),
    };
    let first = sizes[left_up_idx] as i128;
    let second = sizes[left_up_idx + 1] as i128;
    if first + second < combined {
        return false;
    }
    let moved = first + delta as i128;
    let grown = if moved >= single { moved } else { single };
    let next = second + (first - grown);
    let second_new = if next >= single { next } else { single };
    let first_new = grown + (next - second_new);
    proof {
        lemma_resize_respects_minimum(first as int, second as int, orientation, delta as int);
    }
    sizes.set(left_up_idx, first_new as i32);
    sizes.set(left_up_idx + 1, second_new as i32);
    true
}

} // verus!
