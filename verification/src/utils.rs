//! Summary statistics over scalar arrays: mean, quickselect-based median,
//! and the single-pass statistics (minimum, maximum, mean, standard
//! deviation, median and median absolute deviation) reported alongside a
//! reconstructed brightness array.

use vstd::prelude::*;
use crate::scalar::{MathStrategy, Real, ZERO_BITS, NEG_INFINITY_BITS, INFINITY_BITS};
use crate::sphere::Hemisphere;

verus! {

/// Bit pattern of 2.0f32, the divisor of the even-length median.
pub const TWO_F_BITS: u32 = 0x4000_0000;

/// Left-to-right sum of the first `k` elements, starting from zero.
pub open spec fn sum_spec<S: MathStrategy>(s: Seq<Real>, k: int) -> Real
    decreases k,
{
    if k <= 0 {
        Real { bits: ZERO_BITS }
    } else {
        S::add_spec(sum_spec::<S>(s, k - 1), s[k - 1])
    }
}

/// Left-to-right sum of the squares of the first `k` elements.
pub open spec fn sum_sq_spec<S: MathStrategy>(s: Seq<Real>, k: int) -> Real
    decreases k,
{
    if k <= 0 {
        Real { bits: ZERO_BITS }
    } else {
        S::add_spec(sum_sq_spec::<S>(s, k - 1), S::mul_spec(s[k - 1], s[k - 1]))
    }
}

/// Running maximum of the first `k` elements, starting from negative
/// infinity; each step takes `max(element, running)`.
pub open spec fn running_max_spec<S: MathStrategy>(s: Seq<Real>, k: int) -> Real
    decreases k,
{
    if k <= 0 {
        Real { bits: NEG_INFINITY_BITS }
    } else {
        S::max_spec(s[k - 1], running_max_spec::<S>(s, k - 1))
    }
}

/// Running minimum of the first `k` elements, starting from positive
/// infinity; each step takes `min(element, running)`.
pub open spec fn running_min_spec<S: MathStrategy>(s: Seq<Real>, k: int) -> Real
    decreases k,
{
    if k <= 0 {
        Real { bits: INFINITY_BITS }
    } else {
        S::min_spec(s[k - 1], running_min_spec::<S>(s, k - 1))
    }
}

/// The arithmetic mean: the left-to-right sum divided by the element count,
/// or nothing for an empty array.
pub open spec fn mean_spec<S: MathStrategy>(s: Seq<Real>) -> Option<Real> {
    if s.len() == 0 {
        None
    } else {
        Some(S::div_spec(sum_spec::<S>(s, s.len() as int), S::from_count_spec(s.len() as usize)))
    }
}

/// The mean of `data`, or `None` when it is empty.
pub fn mean<S: MathStrategy>(data: &Vec<Real>) -> (r: Option<Real>)
    ensures
        r == mean_spec::<S>(data@),
{
    let count = data.len();
    if count == 0 {
        return None;
    }

    let mut sum = Real { bits: ZERO_BITS };
    let mut i: usize = 0;
    while i < count
        invariant
            count == data.len(),
            i <= count,
            sum == sum_spec::<S>(data@, i as int),
        decreases count - i,
    {
        sum = S::add(sum, data[i]);
        i = i + 1;
    }

    Some(S::div(sum, S::from_count(count)))
}

/// Predicate selecting the elements strictly below the pivot.
pub open spec fn below_pivot<S: MathStrategy>(pivot: Real) -> spec_fn(Real) -> bool {
    |x: Real| S::lt_spec(x, pivot)
}

/// Predicate selecting the elements not strictly below the pivot.
pub open spec fn not_below_pivot<S: MathStrategy>(pivot: Real) -> spec_fn(Real) -> bool {
    |x: Real| !S::lt_spec(x, pivot)
}

/// Splits a non-empty array into its first element (the pivot), the later
/// elements strictly below the pivot, and the rest, keeping the relative
/// order of each side.
pub fn partition<S: MathStrategy>(data: &Vec<Real>) -> (r: Option<(Vec<Real>, Real, Vec<Real>)>)
    ensures
        data.len() == 0 <==> r is None,
        match r {
            Some(parts) => {
                &&& data.len() > 0
                &&& parts.1 == data@[0]
                &&& parts.0@ == data@.subrange(1, data.len() as int).filter(
                    below_pivot::<S>(data@[0]),
                )
                &&& parts.2@ == data@.subrange(1, data.len() as int).filter(
                    not_below_pivot::<S>(data@[0]),
                )
            },
            None => true,
        },
{
    if data.len() == 0 {
        return None;
    }

    let pivot = data[0];
    let mut left: Vec<Real> = Vec::new();
    let mut right: Vec<Real> = Vec::new();

    let mut i: usize = 1;
    while i < data.len()
        invariant
            1 <= i <= data.len(),
            pivot == data@[0],
            left@ == data@.subrange(1, i as int).filter(below_pivot::<S>(pivot)),
            right@ == data@.subrange(1, i as int).filter(not_below_pivot::<S>(pivot)),
        decreases data.len() - i,
    {
        let ghost prefix = data@.subrange(1, i as int);
        let x = data[i];
        if S::lt(x, pivot) {
            left.push(x);
        } else {
            right.push(x);
        }
        proof {
            reveal(Seq::filter);
            assert(data@.subrange(1, i + 1).drop_last() == prefix);
            assert(data@.subrange(1, i + 1).last() == data@[i as int]);
        }
        i = i + 1;
    }
    Some((left, pivot, right))
}

/// The value quickselect returns for rank `k`: the pivot when exactly `k`
/// later elements lie strictly below it, otherwise the result of selecting
/// in the matching side.  Under a strategy whose comparison is a strict
/// total order this is the `k`-th smallest element.
pub open spec fn select_spec<S: MathStrategy>(data: Seq<Real>, k: int) -> Option<Real>
    decreases data.len(),
    via select_spec_decreases::<S>
{
    if data.len() == 0 {
        None
    } else {
        let pivot = data[0];
        let tail = data.subrange(1, data.len() as int);
        let left = tail.filter(below_pivot::<S>(pivot));
        let right = tail.filter(not_below_pivot::<S>(pivot));
        let pivot_idx = left.len() as int;
        if pivot_idx == k {
            Some(pivot)
        } else if pivot_idx > k {
            select_spec::<S>(left, k)
        } else {
            select_spec::<S>(right, k - (pivot_idx + 1))
        }
    }
}

#[via_fn]
proof fn select_spec_decreases<S: MathStrategy>(data: Seq<Real>, k: int) {
    if data.len() > 0 {
        let pivot = data[0];
        let tail = data.subrange(1, data.len() as int);
        tail.lemma_filter_len(below_pivot::<S>(pivot));
        tail.lemma_filter_len(not_below_pivot::<S>(pivot));
    }
}

/// Quickselect: partitions around the first element and recurses into the
/// side holding rank `k`.
pub fn select<S: MathStrategy>(data: &Vec<Real>, k: usize) -> (r: Option<Real>)
    ensures
        r == select_spec::<S>(data@, k as int),
    decreases data.len(),
{
    let part = partition::<S>(data);

    match part {
        None => None,
        Some((left, pivot, right)) => {
            proof {
                let tail = data@.subrange(1, data.len() as int);
                tail.lemma_filter_len(below_pivot::<S>(pivot));
                tail.lemma_filter_len(not_below_pivot::<S>(pivot));
            }
            let pivot_idx = left.len();

            if pivot_idx == k {
                Some(pivot)
            } else if pivot_idx > k {
                select::<S>(&left, k)
            } else {
                select::<S>(&right, k - (pivot_idx + 1))
            }
        },
    }
}

/// The median: for an odd count, the middle rank; for an even count, the
/// two middle ranks averaged (their sum divided by two); nothing for an
/// empty array.
pub open spec fn median_spec<S: MathStrategy>(data: Seq<Real>) -> Option<Real> {
    let size = data.len() as int;
    if size == 0 {
        None
    } else if size % 2 == 0 {
        let fst = select_spec::<S>(data, size / 2 - 1);
        let snd = select_spec::<S>(data, size / 2);
        match (fst, snd) {
            (Some(a), Some(b)) => Some(
                S::div_spec(S::add_spec(a, b), Real { bits: TWO_F_BITS }),
            ),
            _ => None,
        }
    } else {
        select_spec::<S>(data, size / 2)
    }
}

/// The median of `data`, or `None` when it is empty.
pub fn median<S: MathStrategy>(data: &Vec<Real>) -> (r: Option<Real>)
    ensures
        r == median_spec::<S>(data@),
{
    let size = data.len();
    if size == 0 {
        return None;
    }

    if size % 2 == 0 {
        let fst_med = select::<S>(data, size / 2 - 1);
        let snd_med = select::<S>(data, size / 2);

        match (fst_med, snd_med) {
            (Some(fst), Some(snd)) => Some(
                S::div(S::add(fst, snd), Real { bits: TWO_F_BITS }),
            ),
            _ => None,
        }
    } else {
        select::<S>(data, size / 2)
    }
}

/// The elements below the pivot and those not below it together make up
/// the whole array.
proof fn lemma_filter_partition_len<S: MathStrategy>(s: Seq<Real>, pivot: Real)
    ensures
        s.filter(below_pivot::<S>(pivot)).len() + s.filter(not_below_pivot::<S>(pivot)).len()
            == s.len(),
    decreases s.len(),
{
    reveal(Seq::filter);
    if s.len() > 0 {
        lemma_filter_partition_len::<S>(s.drop_last(), pivot);
    }
}

/// Quickselect yields a value for every rank within the array.
proof fn lemma_select_spec_some<S: MathStrategy>(data: Seq<Real>, k: int)
    requires
        0 <= k < data.len(),
    ensures
        select_spec::<S>(data, k) is Some,
    decreases data.len(),
{
    let pivot = data[0];
    let tail = data.subrange(1, data.len() as int);
    let left = tail.filter(below_pivot::<S>(pivot));
    let right = tail.filter(not_below_pivot::<S>(pivot));
    lemma_filter_partition_len::<S>(tail, pivot);
    let pivot_idx = left.len() as int;
    if pivot_idx == k {
    } else if pivot_idx > k {
        lemma_select_spec_some::<S>(left, k);
    } else {
        lemma_select_spec_some::<S>(right, k - (pivot_idx + 1));
    }
}

/// The median yields a value for every non-empty array.
pub proof fn lemma_median_spec_some<S: MathStrategy>(data: Seq<Real>)
    requires
        data.len() > 0,
    ensures
        median_spec::<S>(data) is Some,
{
    let size = data.len() as int;
    if size % 2 == 0 {
        lemma_select_spec_some::<S>(data, size / 2 - 1);
        lemma_select_spec_some::<S>(data, size / 2);
    } else {
        lemma_select_spec_some::<S>(data, size / 2);
    }
}

/// The value inside an optional scalar, or zero when there is none.
pub open spec fn some_or_zero(o: Option<Real>) -> Real {
    match o {
        Some(v) => v,
        None => Real { bits: ZERO_BITS },
    }
}

/// The absolute deviation of every element from `med`, in order:
/// `|(0 + x) - med|`.
pub open spec fn deviations_spec<S: MathStrategy>(s: Seq<Real>, med: Real) -> Seq<Real> {
    Seq::new(
        s.len(),
        |i: int| S::abs_spec(S::sub_spec(S::add_spec(Real { bits: ZERO_BITS }, s[i]), med)),
    )
}

impl Hemisphere {
    /// Summary statistics of the brightness array, in one pass for minimum,
    /// maximum, mean and standard deviation, plus the median and the median
    /// absolute deviation.
    ///
    /// Returns `(min, max, mean, standard deviation, median absolute
    /// deviation, median)`.
    pub fn calculate_statistics_optimized<S: MathStrategy>(&self) -> (r: (
        Real,
        Real,
        Real,
        Real,
        Real,
        Real,
    ))
        requires
            self.consistent(),
            self.npix > 0,
        ensures
            ({
                let s = self.visible_pix@;
                let len = s.len() as int;
                let mean_v = S::div_spec(sum_spec::<S>(s, len), S::from_count_spec(self.npix));
                let med = some_or_zero(median_spec::<S>(s));
                &&& r.0 == running_min_spec::<S>(s, len)
                &&& r.1 == running_max_spec::<S>(s, len)
                &&& r.2 == mean_v
                &&& r.3 == S::sqrt_spec(
                    S::sub_spec(
                        S::div_spec(sum_sq_spec::<S>(s, len), S::from_count_spec(self.npix)),
                        S::mul_spec(mean_v, mean_v),
                    ),
                )
                &&& r.4 == some_or_zero(median_spec::<S>(deviations_spec::<S>(s, med)))
                &&& r.5 == med
                &&& median_spec::<S>(s) is Some
                &&& median_spec::<S>(deviations_spec::<S>(s, med)) is Some
            }),
    {
        let mut max_p = Real { bits: NEG_INFINITY_BITS };
        let mut min_p = Real { bits: INFINITY_BITS };
        let mut sum_p = Real { bits: ZERO_BITS };
        let mut sum_sq = Real { bits: ZERO_BITS };

        let count = self.visible_pix.len();
        let mut i: usize = 0;
        while i < count
            invariant
                count == self.visible_pix.len(),
                i <= count,
                max_p == running_max_spec::<S>(self.visible_pix@, i as int),
                min_p == running_min_spec::<S>(self.visible_pix@, i as int),
                sum_p == sum_spec::<S>(self.visible_pix@, i as int),
                sum_sq == sum_sq_spec::<S>(self.visible_pix@, i as int),
            decreases count - i,
        {
            let p = self.visible_pix[i];
            max_p = S::max(p, max_p);
            min_p = S::min(p, min_p);
            sum_p = S::add(sum_p, p);
            sum_sq = S::add(sum_sq, S::mul(p, p));
            i = i + 1;
        }

        let npix_f = S::from_count(self.npix);
        let mean_p = S::div(sum_p, npix_f);
        let sdev_p = S::sqrt(S::sub(S::div(sum_sq, npix_f), S::mul(mean_p, mean_p)));

        proof {
            lemma_median_spec_some::<S>(self.visible_pix@);
        }
        let med = match median::<S>(&self.visible_pix) {
            Some(m) => m,
            None => {
                // unreachable: the array is non-empty
                assert(false);
                Real { bits: ZERO_BITS }
            },
        };

        let mut deviation: Vec<Real> = Vec::new();
        let mut j: usize = 0;
        while j < count
            invariant
                count == self.visible_pix.len(),
                j <= count,
                deviation@ == deviations_spec::<S>(self.visible_pix@, med).subrange(0, j as int),
            decreases count - j,
        {
            let d = S::abs(S::sub(S::add(Real { bits: ZERO_BITS }, self.visible_pix[j]), med));
            deviation.push(d);
            proof {
                assert(deviation@ =~= deviations_spec::<S>(self.visible_pix@, med).subrange(
                    0,
                    j + 1,
                ));
            }
            j = j + 1;
        }
        proof {
            assert(deviation@ =~= deviations_spec::<S>(self.visible_pix@, med));
            lemma_median_spec_some::<S>(deviation@);
        }

        let mad_p = match median::<S>(&deviation) {
            Some(m) => m,
            None => {
                // unreachable: the deviation array is non-empty
                assert(false);
                Real { bits: ZERO_BITS }
            },
        };

        (min_p, max_p, mean_p, sdev_p, mad_p, med)
    }
}

} // verus!
