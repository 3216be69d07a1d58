//! Capacity-tier selection: first fit over the ordered list of block
//! capacities the rollup contract supports.

use vstd::prelude::*;

verus! {

/// Some tier in the list can hold `used` chunks.
pub open spec fn has_fit(used: int, sizes: Seq<usize>) -> bool {
    exists|i: int| 0 <= i < sizes.len() && sizes[i] >= used
}

/// The first tier in the list, in given order, that can hold `used` chunks.
pub open spec fn first_fit(used: int, sizes: Seq<usize>) -> usize
    recommends
        has_fit(used, sizes),
    decreases sizes.len(),
{
    if sizes.len() == 0 {
        0
    } else if sizes[0] >= used {
        sizes[0]
    } else {
        first_fit(used, sizes.drop_first())
    }
}

/// The list is sorted in ascending order.
pub open spec fn sorted_ascending(sizes: Seq<usize>) -> bool {
    forall|i: int, j: int| 0 <= i < j < sizes.len() ==> sizes[i] <= sizes[j]
}

/// The selected tier fits the usage and occurs in the list.
pub proof fn lemma_first_fit_is_a_fit(used: int, sizes: Seq<usize>)
    requires
        has_fit(used, sizes),
    ensures
        first_fit(used, sizes) >= used,
        exists|i: int| 0 <= i < sizes.len() && sizes[i] == first_fit(used, sizes),
    decreases sizes.len(),
{
    if sizes.len() > 0 && sizes[0] < used {
        assert(has_fit(used, sizes.drop_first())) by {
            let i = choose|i: int| 0 <= i < sizes.len() && sizes[i] >= used;
            assert(sizes.drop_first()[i - 1] >= used);
        }
        lemma_first_fit_is_a_fit(used, sizes.drop_first());
        let j = choose|j: int| 0 <= j < sizes.drop_first().len()
            && sizes.drop_first()[j] == first_fit(used, sizes.drop_first());
        assert(sizes[j + 1] == first_fit(used, sizes));
    } else if sizes.len() > 0 {
        assert(sizes[0] == first_fit(used, sizes));
    }
}

/// A non-empty tier list whose last tier holds the usage has a fit; over an
/// ascending list the last tier is the largest, so a payload no larger than
/// the largest supported capacity always finds a tier.
pub proof fn lemma_last_tier_fits_implies_has_fit(used: int, sizes: Seq<usize>)
    requires
        sizes.len() > 0,
        sizes.last() >= used,
    ensures
        has_fit(used, sizes),
{
    assert(sizes[sizes.len() - 1] >= used);
}

/// Law (first fit is best fit): over an ascending tier list that has a fit,
/// the first tier that holds the usage is the smallest tier that holds it.
pub proof fn lemma_first_fit_is_minimal(used: int, sizes: Seq<usize>)
    requires
        sorted_ascending(sizes),
        has_fit(used, sizes),
    ensures
        first_fit(used, sizes) >= used,
        exists|i: int| 0 <= i < sizes.len() && sizes[i] == first_fit(used, sizes),
        forall|j: int| 0 <= j < sizes.len() && sizes[j] >= used
            ==> first_fit(used, sizes) <= sizes[j],
    decreases sizes.len(),
{
    lemma_first_fit_is_a_fit(used, sizes);
    if sizes.len() > 0 && sizes[0] < used {
        assert(has_fit(used, sizes.drop_first())) by {
            let i = choose|i: int| 0 <= i < sizes.len() && sizes[i] >= used;
            assert(sizes.drop_first()[i - 1] >= used);
        }
        assert(sorted_ascending(sizes.drop_first())) by {
            assert forall|i: int, j: int|
                0 <= i < j < sizes.drop_first().len() implies sizes.drop_first()[i]
                <= sizes.drop_first()[j] by {
                assert(sizes[i + 1] <= sizes[j + 1]);
            }
        }
        lemma_first_fit_is_minimal(used, sizes.drop_first());
        assert forall|j: int| 0 <= j < sizes.len() && sizes[j] >= used implies first_fit(
            used,
            sizes,
        ) <= sizes[j] by {
            if j > 0 {
                assert(sizes.drop_first()[j - 1] == sizes[j]);
            }
        }
    }
}

/// Law (all-placeholder payload): a usage of zero chunks always selects the
/// head of a non-empty tier list; over an ascending list that is its
/// smallest tier.
pub proof fn lemma_zero_usage_selects_first(sizes: Seq<usize>)
    requires
        sizes.len() > 0,
    ensures
        has_fit(0, sizes),
        first_fit(0, sizes) == sizes[0],
{
    assert(sizes[0] >= 0);
}

/// The smallest supported tier that can hold `chunks_used` chunks, or `None`
/// when even the largest tier is too small. `Some` is returned exactly when
/// some tier in the list is at least `chunks_used`.
pub fn try_smallest_block_size_for_chunks(
    chunks_used: usize,
    available_block_sizes: &[usize],
) -> (r: Option<usize>)
    ensures
        r is Some <==> has_fit(chunks_used as int, available_block_sizes@),
        r matches Some(size) ==> size == first_fit(chunks_used as int, available_block_sizes@),
{
    let n = available_block_sizes.len();
    let mut k: usize = 0;
    while k < n
        invariant
            0 <= k <= n,
            n == available_block_sizes@.len(),
            forall|i: int| 0 <= i < k ==> available_block_sizes@[i] < chunks_used,
        decreases n - k,
    {
        if available_block_sizes[k] >= chunks_used {
            proof {
                lemma_first_fit_skips_small_prefix(chunks_used as int, available_block_sizes@, k as int);
            }
            return Some(available_block_sizes[k]);
        }
        k = k + 1;
    }
    None
}

/// When every tier before index `k` is too small and the tier at `k` fits,
/// the first fit is the tier at `k`.
proof fn lemma_first_fit_skips_small_prefix(used: int, sizes: Seq<usize>, k: int)
    requires
        0 <= k < sizes.len(),
        forall|i: int| 0 <= i < k ==> sizes[i] < used,
        sizes[k] >= used,
    ensures
        has_fit(used, sizes),
        first_fit(used, sizes) == sizes[k],
    decreases sizes.len(),
{
    if k == 0 {
        assert(sizes[0] >= used);
    } else {
        assert(sizes[0] < used);
        assert forall|i: int| 0 <= i < k - 1 implies sizes.drop_first()[i] < used by {
            assert(sizes[i + 1] < used);
        }
        assert(sizes.drop_first()[k - 1] == sizes[k]);
        lemma_first_fit_skips_small_prefix(used, sizes.drop_first(), k - 1);
        let i = k - 1;
        assert(0 <= i < sizes.drop_first().len() && sizes.drop_first()[i] >= used);
        assert(has_fit(used, sizes.drop_first()));
    }
}

/// The smallest supported tier that can hold `chunks_used` chunks, scanning
/// the list in the given order. Callers must know that some tier fits; the
/// checked variant above reports the no-fit case as `None` instead.
pub fn smallest_block_size_for_chunks(
    chunks_used: usize,
    available_block_sizes: &[usize],
) -> (r: usize)
    requires
        has_fit(chunks_used as int, available_block_sizes@),
    ensures
        r == first_fit(chunks_used as int, available_block_sizes@),
        r >= chunks_used,
{
    proof {
        lemma_first_fit_is_a_fit(chunks_used as int, available_block_sizes@);
    }
    let r = try_smallest_block_size_for_chunks(chunks_used, available_block_sizes);
    r.unwrap()
}

} // verus!
