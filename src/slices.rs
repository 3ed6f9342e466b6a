//! Two small utilities over slices of `i32`.

use vstd::prelude::*;

verus! {

/// The sum of the first `n` elements of `s`.
pub open spec fn prefix_sum(s: Seq<i32>, n: int) -> int
    decreases n,
{
    if n <= 0 {
        0
    } else {
        prefix_sum(s, n - 1) + s[n - 1] as int
    }
}

/// Every running total of `s`, from the left, fits in an `i32`.
pub open spec fn sums_fit(s: Seq<i32>) -> bool {
    forall|n: int|
        0 <= n <= s.len() ==> i32::MIN <= #[trigger] prefix_sum(s, n) <= i32::MAX
}

/// The sum of the elements; an empty slice sums to zero.
pub fn sum(s: &[i32]) -> (r: i32)
    requires
        sums_fit(s@),
    ensures
        r == prefix_sum(s@, s@.len() as int),
{
    let mut total: i32 = 0;
    let mut i: usize = 0;
    while i < s.len()
        invariant
            i <= s.len(),
            sums_fit(s@),
            total == prefix_sum(s@, i as int),
        decreases s.len() - i,
    {
        assert(i32::MIN <= prefix_sum(s@, i + 1) <= i32::MAX);
        total = total + s[i];
        i = i + 1;
    }
    total
}

/// The first element on which `f` answers `true`, or `None` if it answers
/// `false` on every element.
pub fn find<F: Fn(i32) -> bool>(s: &[i32], f: F) -> (r: Option<i32>)
    requires
        forall|i: int| 0 <= i < s@.len() ==> f.requires((#[trigger] s@[i],)),
    ensures
        r is None ==> forall|i: int| 0 <= i < s@.len() ==> f.ensures((#[trigger] s@[i],), false),
        r matches Some(v) ==> exists|k: int|
            0 <= k < s@.len() && s@[k] == v && f.ensures((s@[k],), true) && forall|j: int|
                0 <= j < k ==> f.ensures((#[trigger] s@[j],), false),
{
    let mut i: usize = 0;
    while i < s.len()
        invariant
            i <= s.len(),
            forall|j: int| 0 <= j < s@.len() ==> f.requires((#[trigger] s@[j],)),
            forall|j: int| 0 <= j < i ==> f.ensures((#[trigger] s@[j],), false),
        decreases s.len() - i,
    {
        let v = s[i];
        if f(v) {
            return Some(v);
        }
        i = i + 1;
    }
    None
}

} // verus!
