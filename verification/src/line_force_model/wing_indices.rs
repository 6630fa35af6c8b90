//! The ranges of line elements that make up each wing of a line force model.
//!
//! A line force model stores the span lines of all its wings in one vector. The lines of wing `k`
//! are those whose global index lies in `wing_indices[k]`.

use std::ops::Range;
use vstd::prelude::*;

verus! {

/// The range holds the index `index`.
pub open spec fn range_contains(range: Range<usize>, index: int) -> bool {
    range.start <= index < range.end
}

/// Number of indices in the range (zero when the start lies after the end).
pub open spec fn range_len(range: Range<usize>) -> int {
    if range.start <= range.end {
        range.end - range.start
    } else {
        0
    }
}

/// Some wing holds the line with global index `global_index`.
pub open spec fn belongs_to_some_wing(wing_indices: Seq<Range<usize>>, global_index: int) -> bool {
    exists|k: int| 0 <= k < wing_indices.len() && range_contains(#[trigger] wing_indices[k], global_index)
}

/// Wing `wing_index` holds the line `global_index`, and no wing before it does.
pub open spec fn is_first_wing_containing(
    wing_indices: Seq<Range<usize>>,
    wing_index: int,
    global_index: int,
) -> bool {
    &&& 0 <= wing_index < wing_indices.len()
    &&& range_contains(wing_indices[wing_index], global_index)
    &&& forall|j: int| 0 <= j < wing_index ==> !range_contains(#[trigger] wing_indices[j], global_index)
}

/// The wings are stored after each other: the first starts at zero, each starts where the
/// previous one ends, and no range is reversed. This is the layout that adding wings one by one
/// produces.
pub open spec fn wings_are_contiguous(wing_indices: Seq<Range<usize>>) -> bool {
    &&& (wing_indices.len() > 0 ==> wing_indices[0].start == 0)
    &&& forall|k: int| 0 <= k < wing_indices.len() ==> (#[trigger] wing_indices[k]).start <= wing_indices[k].end
    &&& forall|k: int| 0 < k < wing_indices.len() ==> (#[trigger] wing_indices[k]).start == wing_indices[k - 1].end
}

/// Total number of line elements of a contiguous layout.
pub open spec fn nr_lines(wing_indices: Seq<Range<usize>>) -> int {
    if wing_indices.len() == 0 {
        0
    } else {
        wing_indices.last().end as int
    }
}

/// Number of line elements in the wings before wing `wing_index`.
pub open spec fn nr_lines_before(wing_indices: Seq<Range<usize>>, wing_index: int) -> int
    decreases wing_index,
{
    if wing_index <= 0 {
        0
    } else {
        nr_lines_before(wing_indices, wing_index - 1) + range_len(wing_indices[wing_index - 1])
    }
}

/// Finds the wing index from the global index of a line element: the first wing whose range holds
/// the index.
pub fn wing_index_from_global(wing_indices: &[Range<usize>], global_index: usize) -> (wing_index:
    usize)
    requires
        belongs_to_some_wing(wing_indices@, global_index as int),
    ensures
        is_first_wing_containing(wing_indices@, wing_index as int, global_index as int),
{
    let mut k: usize = 0;
    while k < wing_indices.len()
        invariant
            0 <= k <= wing_indices@.len(),
            forall|j: int| 0 <= j < k ==> !range_contains(#[trigger] wing_indices@[j], global_index as int),
        decreases wing_indices.len() - k,
    {
        if wing_indices[k].start <= global_index && global_index < wing_indices[k].end {
            return k;
        }
        k = k + 1;
    }
    proof {
        let w = choose|w: int| 0 <= w < wing_indices@.len() && range_contains(#[trigger] wing_indices@[w], global_index as int);
        assert(!range_contains(wing_indices@[w], global_index as int));
    }
    0
}

/// Returns the local index of a line element within its wing: the first line element of each wing
/// has local index 0.
pub fn local_index_from_global(wing_indices: &[Range<usize>], global_index: usize) -> (local_index:
    usize)
    requires
        belongs_to_some_wing(wing_indices@, global_index as int),
    ensures
        exists|k: int|
            is_first_wing_containing(wing_indices@, k, global_index as int)
                && local_index == global_index - (#[trigger] wing_indices@[k]).start,
{
    let k = wing_index_from_global(wing_indices, global_index);
    global_index - wing_indices[k].start
}

/// The range of the next wing to be added after the existing ones, for a wing with
/// `nr_lines_in_wing` line elements: it starts where the last wing ends, or at zero.
pub fn next_wing_range(wing_indices: &[Range<usize>], nr_lines_in_wing: usize) -> (range: Range<
    usize,
>)
    requires
        nr_lines(wing_indices@) + nr_lines_in_wing <= usize::MAX,
    ensures
        range.start == nr_lines(wing_indices@),
        range.end == nr_lines(wing_indices@) + nr_lines_in_wing,
{
    let start_index: usize = if wing_indices.len() == 0 {
        0
    } else {
        wing_indices[wing_indices.len() - 1].end
    };
    Range { start: start_index, end: start_index + nr_lines_in_wing }
}

/// Maps one value per wing to one value per line element: each line element gets a clone of the
/// value of its wing.
pub fn section_values_from_wing_values<T: Clone>(wing_indices: &[Range<usize>], wing_values: &[T]) -> (result: Vec<T>)
    requires
        wing_values@.len() >= wing_indices@.len(),
        nr_lines_before(wing_indices@, wing_indices@.len() as int) <= usize::MAX,
    ensures
        result@.len() == nr_lines_before(wing_indices@, wing_indices@.len() as int),
        forall|k: int, g: int|
            0 <= k < wing_indices@.len() && nr_lines_before(wing_indices@, k) <= g
                < nr_lines_before(wing_indices@, k + 1) ==> #[trigger] cloned(wing_values@[k], result@[g]),
{
    let mut result: Vec<T> = Vec::new();
    let mut wing_nr: usize = 0;
    proof {
        lemma_nr_lines_before_monotone(wing_indices@, 0, wing_indices@.len() as int);
    }
    while wing_nr < wing_indices.len()
        invariant
            0 <= wing_nr <= wing_indices@.len(),
            wing_values@.len() >= wing_indices@.len(),
            nr_lines_before(wing_indices@, wing_indices@.len() as int) <= usize::MAX,
            result@.len() == nr_lines_before(wing_indices@, wing_nr as int),
            forall|k: int, g: int|
                0 <= k < wing_nr && nr_lines_before(wing_indices@, k) <= g < nr_lines_before(wing_indices@, k + 1)
                    ==> #[trigger] cloned(wing_values@[k], result@[g]),
        decreases wing_indices.len() - wing_nr,
    {
        let range = &wing_indices[wing_nr];
        let wing_value = &wing_values[wing_nr];
        proof {
            lemma_nr_lines_before_monotone(wing_indices@, wing_nr + 1, wing_indices@.len() as int);
        }
        let mut i: usize = range.start;
        while i < range.end
            invariant
                wing_nr < wing_indices@.len(),
                *range == wing_indices@[wing_nr as int],
                *wing_value == wing_values@[wing_nr as int],
                range.start <= i,
                range.start <= range.end ==> i <= range.end,
                range.start > range.end ==> i == range.start,
                nr_lines_before(wing_indices@, wing_nr + 1) <= usize::MAX,
                result@.len() == nr_lines_before(wing_indices@, wing_nr as int) + (i - range.start),
                forall|k: int, g: int|
                    0 <= k < wing_nr && nr_lines_before(wing_indices@, k) <= g < nr_lines_before(wing_indices@, k + 1)
                        ==> #[trigger] cloned(wing_values@[k], result@[g]),
                forall|g: int|
                    nr_lines_before(wing_indices@, wing_nr as int) <= g < result@.len()
                        ==> cloned(wing_values@[wing_nr as int], #[trigger] result@[g]),
            decreases range.end - i,
        {
            let ghost old_result = result@;
            let value = wing_value.clone();
            result.push(value);
            proof {
                lemma_nr_lines_before_monotone(wing_indices@, wing_nr as int, wing_nr as int);
                assert forall|k: int, g: int|
                    0 <= k < wing_nr && nr_lines_before(wing_indices@, k) <= g < nr_lines_before(wing_indices@, k + 1)
                    implies #[trigger] cloned(wing_values@[k], result@[g]) by {
                    lemma_nr_lines_before_monotone(wing_indices@, k + 1, wing_nr as int);
                    lemma_nr_lines_before_monotone(wing_indices@, k, k + 1);
                    assert(result@[g] == old_result[g]);
                }
                assert forall|g: int|
                    nr_lines_before(wing_indices@, wing_nr as int) <= g < result@.len()
                    implies cloned(wing_values@[wing_nr as int], #[trigger] result@[g]) by {
                    if g < old_result.len() {
                        assert(result@[g] == old_result[g]);
                    }
                }
            }
            i = i + 1;
        }
        proof {
            assert(range_len(*range) == i - range.start);
            assert(nr_lines_before(wing_indices@, wing_nr + 1) == nr_lines_before(wing_indices@, wing_nr as int) + range_len(wing_indices@[wing_nr as int]));
            assert(result@.len() == nr_lines_before(wing_indices@, wing_nr + 1));
            assert forall|k: int, g: int|
                0 <= k < wing_nr + 1 && nr_lines_before(wing_indices@, k) <= g < nr_lines_before(wing_indices@, k + 1)
                implies #[trigger] cloned(wing_values@[k], result@[g]) by {
                if k == wing_nr {
                    assert(cloned(wing_values@[wing_nr as int], result@[g]));
                }
            }
        }
        wing_nr = wing_nr + 1;
    }
    result
}

/// The count of lines before a wing never decreases with the wing index.
pub proof fn lemma_nr_lines_before_monotone(wing_indices: Seq<Range<usize>>, a: int, b: int)
    requires
        0 <= a <= b <= wing_indices.len(),
    ensures
        0 <= nr_lines_before(wing_indices, a) <= nr_lines_before(wing_indices, b),
    decreases b,
{
    if a < b {
        lemma_nr_lines_before_monotone(wing_indices, a, b - 1);
    } else if a > 0 {
        lemma_nr_lines_before_monotone(wing_indices, a - 1, b - 1);
    }
}

/// In a contiguous layout the ends of the wings never decrease: every wing ends at or before the
/// start of any later wing.
pub proof fn lemma_contiguous_wings_are_ordered(wing_indices: Seq<Range<usize>>, j: int, k: int)
    requires
        wings_are_contiguous(wing_indices),
        0 <= j < k < wing_indices.len(),
    ensures
        wing_indices[j].end <= wing_indices[k].start,
    decreases k - j,
{
    if j + 1 < k {
        lemma_contiguous_wings_are_ordered(wing_indices, j, k - 1);
        assert(wing_indices[k - 1].start <= wing_indices[k - 1].end);
    }
}

/// In a contiguous layout, the lines before wing `k` are exactly the indices below the start of
/// wing `k`, and all wings together hold `nr_lines` lines.
pub proof fn lemma_contiguous_lines_before(wing_indices: Seq<Range<usize>>, wing_index: int)
    requires
        wings_are_contiguous(wing_indices),
        0 <= wing_index <= wing_indices.len(),
    ensures
        wing_index < wing_indices.len() ==> nr_lines_before(wing_indices, wing_index)
            == wing_indices[wing_index].start,
        wing_index == wing_indices.len() ==> nr_lines_before(wing_indices, wing_index) == nr_lines(
            wing_indices,
        ),
    decreases wing_index,
{
    if wing_index > 0 {
        lemma_contiguous_lines_before(wing_indices, wing_index - 1);
        assert(wing_indices[wing_index - 1].start <= wing_indices[wing_index - 1].end);
    }
}

/// In a contiguous layout every line below `nr_lines` lies in exactly one wing: some wing holds it,
/// and any wing that holds it is the first one that does. So `wing_index_from_global` and
/// `local_index_from_global` accept every line of the model, and the wing they find is the one
/// whose range holds the line.
pub proof fn lemma_every_line_has_one_wing(wing_indices: Seq<Range<usize>>, global_index: int)
    requires
        wings_are_contiguous(wing_indices),
        0 <= global_index < nr_lines(wing_indices),
    ensures
        belongs_to_some_wing(wing_indices, global_index),
        forall|k: int|
            0 <= k < wing_indices.len() && range_contains(#[trigger] wing_indices[k], global_index)
                ==> is_first_wing_containing(wing_indices, k, global_index),
    decreases wing_indices.len(),
{
    let n = wing_indices.len();
    let last = wing_indices[n - 1];
    if global_index >= last.start {
        assert(range_contains(wing_indices[n - 1], global_index));
    } else {
        let shorter = wing_indices.drop_last();
        assert(n >= 2);
        assert(wings_are_contiguous(shorter)) by {
            assert forall|k: int| 0 < k < shorter.len() implies (#[trigger] shorter[k]).start
                == shorter[k - 1].end by {
                assert(shorter[k] == wing_indices[k]);
                assert(shorter[k - 1] == wing_indices[k - 1]);
            }
        }
        assert(nr_lines(shorter) == last.start);
        lemma_every_line_has_one_wing(shorter, global_index);
        let w = choose|w: int| 0 <= w < shorter.len() && range_contains(#[trigger] shorter[w], global_index);
        assert(shorter[w] == wing_indices[w]);
    }
    assert forall|k: int|
        0 <= k < wing_indices.len() && range_contains(#[trigger] wing_indices[k], global_index)
        implies is_first_wing_containing(wing_indices, k, global_index) by {
        assert forall|j: int| 0 <= j < k implies !range_contains(#[trigger] wing_indices[j], global_index) by {
            lemma_contiguous_wings_are_ordered(wing_indices, j, k);
        }
    }
}

/// In a contiguous layout the lines of wing `k` are those that `section_values_from_wing_values`
/// gives the value of wing `k`: the line `global_index` of wing `k` lies between the lines before
/// wing `k` and the lines before wing `k + 1`.
pub proof fn lemma_section_value_of_a_line(wing_indices: Seq<Range<usize>>, wing_index: int, global_index: int)
    requires
        wings_are_contiguous(wing_indices),
        0 <= wing_index < wing_indices.len(),
        range_contains(wing_indices[wing_index], global_index),
    ensures
        nr_lines_before(wing_indices, wing_index) <= global_index < nr_lines_before(wing_indices, wing_index + 1),
{
    lemma_contiguous_lines_before(wing_indices, wing_index);
    assert(nr_lines_before(wing_indices, wing_index + 1) == nr_lines_before(wing_indices, wing_index) + range_len(
        wing_indices[wing_index],
    ));
}

/// Adding a wing with the range from `next_wing_range` keeps the layout contiguous, leaves the
/// ranges of the existing wings as they were, and adds `nr_lines_in_wing` lines to the model.
pub proof fn lemma_adding_a_wing_keeps_the_layout(
    wing_indices: Seq<Range<usize>>,
    new_range: Range<usize>,
    nr_lines_in_wing: int,
)
    requires
        wings_are_contiguous(wing_indices),
        nr_lines_in_wing >= 0,
        new_range.start == nr_lines(wing_indices),
        new_range.end == nr_lines(wing_indices) + nr_lines_in_wing,
    ensures
        wings_are_contiguous(wing_indices.push(new_range)),
        nr_lines(wing_indices.push(new_range)) == nr_lines(wing_indices) + nr_lines_in_wing,
        forall|k: int| 0 <= k < wing_indices.len() ==> wing_indices.push(new_range)[k] == #[trigger] wing_indices[k],
{
    let longer = wing_indices.push(new_range);
    assert forall|k: int| 0 < k < longer.len() implies (#[trigger] longer[k]).start == longer[k - 1].end by {
        if k == wing_indices.len() {
            assert(longer[k - 1] == wing_indices.last());
        }
    }
    assert forall|k: int| 0 <= k < longer.len() implies (#[trigger] longer[k]).start <= longer[k].end by {
        if k < wing_indices.len() {
            assert(longer[k] == wing_indices[k]);
        }
    }
}

} // verus!
