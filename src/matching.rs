//! First-fit matching of expected features against actual ones.
use vstd::prelude::*;

use crate::feature::{resolved, similarity_of, views, Feature, FeatureView, Similarity};

verus! {

/// Expected feature `i` and actual feature `j` score `Equivalent`.
pub open spec fn equivalent_at(
    e: Seq<FeatureView>,
    ef: Seq<Option<u64>>,
    a: Seq<FeatureView>,
    af: Seq<Option<u64>>,
    i: int,
    j: int,
) -> bool {
    similarity_of(e[i].key, resolved(e[i], ef[i]), a[j].key, resolved(a[j], af[j]))
        == Similarity::Equivalent
}

/// The first actual index at or after `j`, not in `used`, that is equivalent
/// to expected feature `i`.
pub open spec fn first_free(
    e: Seq<FeatureView>,
    ef: Seq<Option<u64>>,
    a: Seq<FeatureView>,
    af: Seq<Option<u64>>,
    i: int,
    used: Seq<int>,
    j: int,
) -> Option<int>
    decreases a.len() - j,
{
    if j >= a.len() || j < 0 {
        None
    } else if !used.contains(j) && equivalent_at(e, ef, a, af, i, j) {
        Some(j)
    } else {
        first_free(e, ef, a, af, i, used, j + 1)
    }
}

/// The partners of the first `n` expected features, each claiming in turn
/// the first unclaimed equivalent actual feature; `None` if one finds none.
pub open spec fn first_fit(
    e: Seq<FeatureView>,
    ef: Seq<Option<u64>>,
    a: Seq<FeatureView>,
    af: Seq<Option<u64>>,
    n: nat,
) -> Option<Seq<int>>
    decreases n,
{
    if n == 0 {
        Some(seq![])
    } else {
        match first_fit(e, ef, a, af, (n - 1) as nat) {
            None => None,
            Some(prev) => match first_free(e, ef, a, af, n - 1, prev, 0) {
                Some(j) => Some(prev.push(j)),
                None => None,
            },
        }
    }
}

/// The outcome of matching: `None` when the sizes differ or some expected
/// feature finds no partner.
pub open spec fn match_spec(
    e: Seq<FeatureView>,
    ef: Seq<Option<u64>>,
    a: Seq<FeatureView>,
    af: Seq<Option<u64>>,
) -> Option<Seq<int>> {
    if e.len() != a.len() {
        None
    } else {
        first_fit(e, ef, a, af, e.len())
    }
}

proof fn first_free_in_range(
    e: Seq<FeatureView>,
    ef: Seq<Option<u64>>,
    a: Seq<FeatureView>,
    af: Seq<Option<u64>>,
    i: int,
    used: Seq<int>,
    j: int,
)
    ensures
        first_free(e, ef, a, af, i, used, j) matches Some(k) ==> j <= k < a.len()
            && !used.contains(k),
    decreases a.len() - j,
{
    if 0 <= j < a.len() {
        first_free_in_range(e, ef, a, af, i, used, j + 1);
    }
}

proof fn first_fit_stays_none(
    e: Seq<FeatureView>,
    ef: Seq<Option<u64>>,
    a: Seq<FeatureView>,
    af: Seq<Option<u64>>,
    m: nat,
    n: nat,
)
    requires
        m <= n,
        first_fit(e, ef, a, af, m) is None,
    ensures
        first_fit(e, ef, a, af, n) is None,
    decreases n - m,
{
    if m < n {
        first_fit_stays_none(e, ef, a, af, m, (n - 1) as nat);
    }
}

/// Matches each expected feature, in order, with the first actual feature
/// not yet claimed that scores `Equivalent` with it (first fit, not an
/// optimal matching). Returns the index claimed by each expected feature,
/// or `None` when the two lists differ in size or an expected feature finds
/// no partner. `expected_floats` and `actual_floats` are the float readings
/// of the raw values, one per feature; no cache is filled.
pub fn similarity_match(
    expected: &Vec<Feature>,
    actual: &Vec<Feature>,
    expected_floats: &Vec<Option<u64>>,
    actual_floats: &Vec<Option<u64>>,
) -> (r: Option<Vec<usize>>)
    requires
        expected_floats@.len() == expected@.len(),
        actual_floats@.len() == actual@.len(),
    ensures
        match_spec(views(expected@), expected_floats@, views(actual@), actual_floats@) matches Some(
            m,
        ) ==> r matches Some(v) && v@.map_values(|k: usize| k as int) == m,
        match_spec(views(expected@), expected_floats@, views(actual@), actual_floats@) is None
            ==> r is None,
{
    let ghost e = views(expected@);
    let ghost a = views(actual@);
    let ghost ef = expected_floats@;
    let ghost af = actual_floats@;
    if expected.len() != actual.len() {
        return None;
    }
    let n = actual.len();
    let mut used: Vec<bool> = Vec::new();
    let mut k: usize = 0;
    while k < n
        invariant
            k <= n,
            used@.len() == k,
            forall|t: int| 0 <= t < k ==> !used@[t],
        decreases n - k,
    {
        used.push(false);
        k = k + 1;
    }
    let mut claimed: Vec<usize> = Vec::new();
    let mut i: usize = 0;
    while i < expected.len()
        invariant
            e == views(expected@),
            a == views(actual@),
            ef == expected_floats@,
            af == actual_floats@,
            ef.len() == e.len(),
            af.len() == a.len(),
            e.len() == a.len(),
            n == a.len(),
            used@.len() == n,
            i <= e.len(),
            first_fit(e, ef, a, af, i as nat) == Some(claimed@.map_values(|k: usize| k as int)),
            forall|t: int|
                0 <= t < n ==> (used@[t] <==> claimed@.map_values(|k: usize| k as int).contains(
                    t,
                )),
        decreases e.len() - i,
    {
        let ghost prev = claimed@.map_values(|k: usize| k as int);
        let mut j: usize = 0;
        let mut found: Option<usize> = None;
        while j < n
            invariant_except_break
                found is None,
            invariant
                e == views(expected@),
                a == views(actual@),
                ef == expected_floats@,
                af == actual_floats@,
                ef.len() == e.len(),
                af.len() == a.len(),
                n == a.len(),
                used@.len() == n,
                i < e.len(),
                j <= n,
                prev == claimed@.map_values(|k: usize| k as int),
                forall|t: int| 0 <= t < n ==> (used@[t] <==> prev.contains(t)),
                found is None ==> first_free(e, ef, a, af, i as int, prev, 0) == first_free(
                    e,
                    ef,
                    a,
                    af,
                    i as int,
                    prev,
                    j as int,
                ),
                found matches Some(x) ==> first_free(e, ef, a, af, i as int, prev, 0) == Some(
                    x as int,
                ),
            ensures
                found is None ==> j == n,
            decreases n - j,
        {
            assert(e[i as int] == expected@[i as int]@);
            assert(a[j as int] == actual@[j as int]@);
            if !used[j] && expected[i].similarity_no_cache(
                &actual[j],
                expected_floats[i],
                actual_floats[j],
            ) == Similarity::Equivalent {
                assert(first_free(e, ef, a, af, i as int, prev, j as int) == Some(j as int));
                found = Some(j);
                break;
            }
            j = j + 1;
        }
        match found {
            None => {
                proof {
                    assert(first_fit(e, ef, a, af, (i + 1) as nat) is None);
                    first_fit_stays_none(e, ef, a, af, (i + 1) as nat, e.len());
                }
                return None;
            },
            Some(x) => {
                proof {
                    first_free_in_range(e, ef, a, af, i as int, prev, 0);
                }
                used.set(x, true);
                claimed.push(x);
                assert(claimed@.map_values(|k: usize| k as int) =~= prev.push(x as int));
                assert forall|t: int| 0 <= t < n implies (used@[t] <==> prev.push(
                    x as int,
                ).contains(t)) by {
                    if t != x {
                        assert(prev.contains(t) ==> prev.push(x as int).contains(t)) by {
                            if prev.contains(t) {
                                let q = choose|q: int| 0 <= q < prev.len() && prev[q] == t;
                                assert(prev.push(x as int)[q] == t);
                            }
                        }
                        assert(prev.push(x as int).contains(t) ==> prev.contains(t)) by {
                            if prev.push(x as int).contains(t) {
                                let q = choose|q: int|
                                    0 <= q < prev.len() + 1 && prev.push(x as int)[q] == t;
                                assert(prev[q] == t);
                            }
                        }
                    } else {
                        assert(prev.push(x as int)[prev.len() as int] == t);
                    }
                }
            },
        }
        i = i + 1;
    }
    Some(claimed)
}

} // verus!
