//! How a device is matched to the renderer of the graphics context.
//!
//! There is no portable identity of a GPU across the two APIs, so the device
//! whose name has the longest substring in common with the renderer's name is
//! taken for the GPU that renders. This is a best effort on systems with
//! several GPUs, not a guarantee.

use vstd::prelude::*;

verus! {

/// Whether some `length` bytes in a row occur both in `a` and in `b`.
pub open spec fn occurs_in_both(a: Seq<u8>, b: Seq<u8>, length: int) -> bool {
    exists|i: int, j: int|
        #![trigger a.subrange(i, i + length), b.subrange(j, j + length)]
        0 <= i && i + length <= a.len() && 0 <= j && j + length <= b.len() && a.subrange(
            i,
            i + length,
        ) == b.subrange(j, j + length)
}

/// Whether `length` is the length of the longest substring that `a` and `b`
/// have in common.
pub open spec fn is_longest_common(a: Seq<u8>, b: Seq<u8>, length: int) -> bool {
    &&& 0 <= length
    &&& occurs_in_both(a, b, length)
    &&& forall|longer: int| longer > length ==> !occurs_in_both(a, b, longer)
}

/// The length of the longest substring that `a` and `b` have in common.
pub open spec fn lcs(a: Seq<u8>, b: Seq<u8>) -> int {
    choose|length: int| is_longest_common(a, b, length)
}

/// The length of the longest run of equal bytes that ends just before
/// position `i` of `a` and just before position `j` of `b`.
pub open spec fn run(a: Seq<u8>, b: Seq<u8>, i: int, j: int) -> int
    decreases i,
{
    if i <= 0 || j <= 0 || i > a.len() || j > b.len() || a[i - 1] != b[j - 1] {
        0
    } else {
        1 + run(a, b, i - 1, j - 1)
    }
}

/// A run is no longer than either of the prefixes that it ends.
pub proof fn lemma_run_bounds(a: Seq<u8>, b: Seq<u8>, i: int, j: int)
    ensures
        0 <= run(a, b, i, j),
        i >= 0 ==> run(a, b, i, j) <= i,
        j >= 0 ==> run(a, b, i, j) <= j,
    decreases i,
{
    if i <= 0 || j <= 0 || i > a.len() || j > b.len() || a[i - 1] != b[j - 1] {
    } else {
        lemma_run_bounds(a, b, i - 1, j - 1);
    }
}

/// The bytes of a run occur in both sequences.
pub proof fn lemma_run_is_common(a: Seq<u8>, b: Seq<u8>, i: int, j: int)
    requires
        0 <= i <= a.len(),
        0 <= j <= b.len(),
    ensures
        a.subrange(i - run(a, b, i, j), i) == b.subrange(j - run(a, b, i, j), j),
        occurs_in_both(a, b, run(a, b, i, j)),
    decreases i,
{
    lemma_run_bounds(a, b, i, j);
    let n = run(a, b, i, j);
    if i <= 0 || j <= 0 || a[i - 1] != b[j - 1] {
        assert(a.subrange(i - n, i) =~= b.subrange(j - n, j));
    } else {
        lemma_run_is_common(a, b, i - 1, j - 1);
        lemma_run_bounds(a, b, i - 1, j - 1);
        let m = run(a, b, i - 1, j - 1);
        assert(n == m + 1);
        assert(a.subrange(i - n, i) =~= a.subrange(i - 1 - m, i - 1).push(a[i - 1]));
        assert(b.subrange(j - n, j) =~= b.subrange(j - 1 - m, j - 1).push(b[j - 1]));
    }
    assert(a.subrange(i - n, (i - n) + n) == b.subrange(j - n, (j - n) + n));
}

/// Where `length` bytes from `i` in `a` equal `length` bytes from `j` in
/// `b`, the run that ends behind them has at least that length.
pub proof fn lemma_common_is_run(a: Seq<u8>, b: Seq<u8>, i: int, j: int, length: int)
    requires
        0 <= length,
        0 <= i && i + length <= a.len(),
        0 <= j && j + length <= b.len(),
        a.subrange(i, i + length) == b.subrange(j, j + length),
    ensures
        run(a, b, i + length, j + length) >= length,
    decreases length,
{
    if length > 0 {
        let x = a.subrange(i, i + length);
        let y = b.subrange(j, j + length);
        assert(a[i + length - 1] == x[length - 1]);
        assert(b[j + length - 1] == y[length - 1]);
        assert(a.subrange(i, i + length - 1) =~= x.subrange(0, length - 1));
        assert(b.subrange(j, j + length - 1) =~= y.subrange(0, length - 1));
        lemma_common_is_run(a, b, i, j, length - 1);
    } else {
        lemma_run_bounds(a, b, i, j);
    }
}

/// A number that bounds every run, and is itself the length of a common
/// substring, is the length of the longest common substring.
pub proof fn lemma_greatest_run_is_longest(a: Seq<u8>, b: Seq<u8>, length: int)
    requires
        0 <= length,
        occurs_in_both(a, b, length),
        forall|i: int, j: int|
            0 <= i <= a.len() && 0 <= j <= b.len() ==> #[trigger] run(a, b, i, j) <= length,
    ensures
        is_longest_common(a, b, length),
        lcs(a, b) == length,
{
    assert forall|longer: int| longer > length implies !occurs_in_both(a, b, longer) by {
        if occurs_in_both(a, b, longer) {
            let (i, j) = choose|i: int, j: int|
                #![trigger a.subrange(i, i + longer), b.subrange(j, j + longer)]
                0 <= i && i + longer <= a.len() && 0 <= j && j + longer <= b.len() && a.subrange(
                    i,
                    i + longer,
                ) == b.subrange(j, j + longer);
            lemma_common_is_run(a, b, i, j, longer);
            assert(run(a, b, i + longer, j + longer) <= length);
        }
    }
    lemma_longest_is_unique(a, b, length, lcs(a, b));
}

/// Two sequences have one longest common substring length.
pub proof fn lemma_longest_is_unique(a: Seq<u8>, b: Seq<u8>, x: int, y: int)
    requires
        is_longest_common(a, b, x),
    ensures
        is_longest_common(a, b, lcs(a, b)),
        is_longest_common(a, b, y) ==> x == y,
{
}

/// Computes the length of the longest substring that `a` and `b` have in
/// common, by dynamic programming over the runs of equal bytes; one row of
/// the table of runs is kept at a time.
pub fn longest_common_substring(a: &[u8], b: &[u8]) -> (length: usize)
    ensures
        length == lcs(a@, b@),
        is_longest_common(a@, b@, length as int),
{
    let mut longest_length: usize = 0;
    let mut lengths: Vec<usize> = Vec::new();
    let mut j: usize = 0;
    while j < b.len()
        invariant
            j <= b@.len(),
            lengths@.len() == j,
            forall|k: int| 0 <= k < j ==> lengths@[k] == 0,
        decreases b@.len() - j,
    {
        lengths.push(0);
        j += 1;
    }
    proof {
        assert(a@.subrange(0, 0) =~= b@.subrange(0, 0));
        assert(a@.subrange(0int, 0int + 0int) == b@.subrange(0int, 0int + 0int));
        assert(occurs_in_both(a@, b@, 0));
        assert forall|k: int| 0 <= k <= b@.len() implies #[trigger] run(a@, b@, 0, k) == 0 by {}
    }
    let mut i: usize = 0;
    while i < a.len()
        invariant
            i <= a@.len(),
            lengths@.len() == b@.len(),
            forall|k: int| 0 <= k < b@.len() ==> lengths@[k] == #[trigger] run(a@, b@, i as int, k + 1),
            occurs_in_both(a@, b@, longest_length as int),
            forall|r: int, k: int|
                0 <= r <= i && 0 <= k <= b@.len() ==> #[trigger] run(a@, b@, r, k) <= longest_length,
        decreases a@.len() - i,
    {
        let ac = a[i];
        let mut next: Vec<usize> = Vec::new();
        let mut j: usize = 0;
        while j < b.len()
            invariant
                i < a@.len(),
                ac == a@[i as int],
                j <= b@.len(),
                lengths@.len() == b@.len(),
                next@.len() == j,
                forall|k: int| 0 <= k < b@.len() ==> lengths@[k] == #[trigger] run(a@, b@, i as int, k + 1),
                forall|k: int| 0 <= k < j ==> next@[k] == #[trigger] run(a@, b@, i + 1, k + 1),
                occurs_in_both(a@, b@, longest_length as int),
                forall|r: int, k: int|
                    0 <= r <= i && 0 <= k <= b@.len() ==> #[trigger] run(a@, b@, r, k) <= longest_length,
                forall|k: int| 0 <= k <= j ==> #[trigger] run(a@, b@, i + 1, k) <= longest_length,
            decreases b@.len() - j,
        {
            proof {
                lemma_run_bounds(a@, b@, i + 1, j + 1);
                lemma_run_is_common(a@, b@, i + 1, j + 1);
                assert(run(a@, b@, i as int, 0) == 0);
                if j > 0 {
                    assert(lengths@[j - 1] == run(a@, b@, i as int, (j - 1) + 1));
                }
                assert(run(a@, b@, i + 1, j + 1) == if a@[i as int] == b@[j as int] {
                    1 + run(a@, b@, i as int, j as int)
                } else {
                    0
                });
            }
            let this_length: usize = if ac == b[j] {
                if j > 0 {
                    lengths[j - 1] + 1
                } else {
                    1
                }
            } else {
                0
            };
            assert(this_length == run(a@, b@, i + 1, j + 1));
            next.push(this_length);
            if this_length > longest_length {
                longest_length = this_length;
            }
            j += 1;
        }
        lengths = next;
        i += 1;
    }
    proof {
        lemma_greatest_run_is_longest(a@, b@, longest_length as int);
    }
    longest_length
}

/// The longest common substring of `a` and `b` is as long as that of `b`
/// and `a`.
pub proof fn lcs_is_symmetric(a: Seq<u8>, b: Seq<u8>)
    ensures
        lcs(a, b) == lcs(b, a),
{
    lemma_longest_exists(a, b);
    lemma_longest_exists(b, a);
    let x = lcs(a, b);
    assert forall|length: int| occurs_in_both(a, b, length) implies occurs_in_both(b, a, length) by {
        lemma_occurrence_is_symmetric(a, b, length);
    }
    assert forall|length: int| occurs_in_both(b, a, length) implies occurs_in_both(a, b, length) by {
        lemma_occurrence_is_symmetric(b, a, length);
    }
    assert(is_longest_common(b, a, x));
    lemma_longest_is_unique(b, a, x, lcs(b, a));
}

/// The longest substring that a sequence has in common with itself is the
/// whole sequence.
pub proof fn lcs_with_itself(a: Seq<u8>)
    ensures
        lcs(a, a) == a.len(),
{
    let n = a.len() as int;
    assert(a.subrange(0, 0 + n) == a.subrange(0, 0 + n));
    assert(occurs_in_both(a, a, n));
    assert(is_longest_common(a, a, n));
    lemma_longest_is_unique(a, a, n, lcs(a, a));
}

/// The longest common substring is no longer than either sequence.
pub proof fn lcs_is_bounded(a: Seq<u8>, b: Seq<u8>)
    ensures
        0 <= lcs(a, b) <= a.len(),
        lcs(a, b) <= b.len(),
{
    lemma_longest_exists(a, b);
}

/// What occurs in `a` and in `b` occurs in `b` and in `a`.
pub proof fn lemma_occurrence_is_symmetric(a: Seq<u8>, b: Seq<u8>, length: int)
    requires
        occurs_in_both(a, b, length),
    ensures
        occurs_in_both(b, a, length),
{
    let (i, j) = choose|i: int, j: int|
        #![trigger a.subrange(i, i + length), b.subrange(j, j + length)]
        0 <= i && i + length <= a.len() && 0 <= j && j + length <= b.len() && a.subrange(
            i,
            i + length,
        ) == b.subrange(j, j + length);
    assert(b.subrange(j, j + length) == a.subrange(i, i + length));
}

/// The greatest run among the cells of row `i` of the table of runs, up to
/// column `j`.
pub open spec fn greatest_in_row(a: Seq<u8>, b: Seq<u8>, i: int, j: int) -> int
    decreases j,
{
    if j <= 0 {
        0
    } else {
        let rest = greatest_in_row(a, b, i, j - 1);
        if run(a, b, i, j) > rest {
            run(a, b, i, j)
        } else {
            rest
        }
    }
}

/// The greatest run among the cells of the table of runs, up to row `i`.
pub open spec fn greatest_run(a: Seq<u8>, b: Seq<u8>, i: int) -> int
    decreases i,
{
    if i <= 0 {
        0
    } else {
        let rest = greatest_run(a, b, i - 1);
        if greatest_in_row(a, b, i, b.len() as int) > rest {
            greatest_in_row(a, b, i, b.len() as int)
        } else {
            rest
        }
    }
}

/// The greatest run of a row bounds every run of the cells that it ranges
/// over, and is the length of a common substring.
pub proof fn lemma_greatest_in_row(a: Seq<u8>, b: Seq<u8>, i: int, j: int)
    requires
        0 <= i <= a.len(),
        j <= b.len(),
    ensures
        0 <= greatest_in_row(a, b, i, j),
        occurs_in_both(a, b, greatest_in_row(a, b, i, j)),
        forall|k: int| 0 <= k <= j ==> #[trigger] run(a, b, i, k) <= greatest_in_row(a, b, i, j),
    decreases j,
{
    if j <= 0 {
        lemma_nothing_is_common(a, b);
    } else {
        lemma_greatest_in_row(a, b, i, j - 1);
        lemma_run_is_common(a, b, i, j);
        lemma_run_bounds(a, b, i, j);
    }
}

/// The greatest run bounds every run of the rows that it ranges over, and is
/// the length of a common substring.
pub proof fn lemma_greatest_run(a: Seq<u8>, b: Seq<u8>, i: int)
    requires
        i <= a.len(),
    ensures
        0 <= greatest_run(a, b, i),
        occurs_in_both(a, b, greatest_run(a, b, i)),
        forall|r: int, k: int|
            0 <= r <= i && 0 <= k <= b.len() ==> #[trigger] run(a, b, r, k) <= greatest_run(a, b, i),
    decreases i,
{
    if i <= 0 {
        lemma_nothing_is_common(a, b);
    } else {
        lemma_greatest_run(a, b, i - 1);
        lemma_greatest_in_row(a, b, i, b.len() as int);
    }
}

/// The empty sequence occurs in any two sequences.
pub proof fn lemma_nothing_is_common(a: Seq<u8>, b: Seq<u8>)
    ensures
        occurs_in_both(a, b, 0),
{
    assert(a.subrange(0int, 0int + 0int) =~= b.subrange(0int, 0int + 0int));
}

/// Any two sequences have a longest common substring, and its length is the
/// greatest entry of the table of runs: the dynamic programme computes it.
pub proof fn lemma_longest_exists(a: Seq<u8>, b: Seq<u8>)
    ensures
        is_longest_common(a, b, lcs(a, b)),
        0 <= lcs(a, b) <= a.len(),
        lcs(a, b) <= b.len(),
        lcs(a, b) == greatest_run(a, b, a.len() as int),
{
    let n = greatest_run(a, b, a.len() as int);
    lemma_greatest_run(a, b, a.len() as int);
    lemma_greatest_run_is_longest(a, b, n);
}

/// The name of a device without the terminator that the driver reports as
/// the name's last byte.
pub open spec fn without_terminator(name: Seq<u8>) -> Seq<u8> {
    if name.len() == 0 {
        name
    } else {
        name.drop_last()
    }
}

/// The index, among the first `count` of `names`, of the first name that
/// has the longest substring in common with `renderer`.
pub open spec fn best_among(renderer: Seq<u8>, names: Seq<Seq<u8>>, count: int) -> int
    decreases count,
{
    if count <= 1 {
        0
    } else {
        let best = best_among(renderer, names, count - 1);
        if lcs(renderer, names[count - 1]) > lcs(renderer, names[best]) {
            count - 1
        } else {
            best
        }
    }
}

/// The bytes of each of `names`.
pub open spec fn name_views(names: Seq<Vec<u8>>) -> Seq<Seq<u8>> {
    Seq::new(names.len(), |i: int| names[i]@)
}

/// The device that is selected has the greatest score, and no device before
/// it has the same score: ties keep the device that was seen first.
pub proof fn selection_is_first_greatest(renderer: Seq<u8>, names: Seq<Seq<u8>>, count: int)
    requires
        1 <= count <= names.len(),
    ensures
        0 <= best_among(renderer, names, count) < count,
        forall|j: int|
            0 <= j < count ==> lcs(renderer, #[trigger] names[j]) <= lcs(
                renderer,
                names[best_among(renderer, names, count)],
            ),
        forall|j: int|
            0 <= j < best_among(renderer, names, count) ==> lcs(renderer, #[trigger] names[j]) < lcs(
                renderer,
                names[best_among(renderer, names, count)],
            ),
    decreases count,
{
    if count > 1 {
        selection_is_first_greatest(renderer, names, count - 1);
    }
}

/// Returns the name of a device without its terminator.
pub fn strip_terminator(name: &[u8]) -> (stripped: &[u8])
    ensures
        stripped@ == without_terminator(name@),
{
    if name.len() == 0 {
        name
    } else {
        vstd::slice::slice_subrange(name, 0, name.len() - 1)
    }
}

/// Selects the device whose name has the longest substring in common with
/// the renderer's name; among several such devices, the first. Returns
/// nothing where there is no device.
pub fn select_device(names: &[Vec<u8>], renderer: &[u8]) -> (choice: Option<usize>)
    ensures
        names@.len() == 0 ==> choice is None,
        names@.len() > 0 ==> choice == Some(
            best_among(renderer@, name_views(names@), names@.len() as int) as usize,
        ),
        choice matches Some(index) ==> index < names@.len(),
{
    if names.len() == 0 {
        return None;
    }
    let ghost views = name_views(names@);
    let mut best: usize = 0;
    let mut best_score: usize = longest_common_substring(renderer, names[0].as_slice());
    let mut i: usize = 1;
    while i < names.len()
        invariant
            1 <= i <= names@.len(),
            views == name_views(names@),
            best < i,
            best == best_among(renderer@, views, i as int),
            best_score == lcs(renderer@, views[best as int]),
        decreases names@.len() - i,
    {
        let score = longest_common_substring(renderer, names[i].as_slice());
        if score > best_score {
            best = i;
            best_score = score;
        }
        i += 1;
    }
    Some(best)
}

} // verus!
