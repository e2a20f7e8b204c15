//! Baseline geometry: converts antenna positions and a baseline list into
//! wavelength-normalised (u, v, w) spatial-frequency coordinates.

use vstd::prelude::*;
use crate::scalar::{MathStrategy, Real, L1_WAVELENGTH_BITS};

verus! {

/// One spatial-frequency component of a baseline: the difference of the two
/// antenna coordinates divided by the reference wavelength.
pub open spec fn spatial_frequency_spec<S: MathStrategy>(a: Real, b: Real) -> Real {
    S::div_spec(S::sub_spec(a, b), Real { bits: L1_WAVELENGTH_BITS })
}

/// Divides the separation `a - b` by the reference wavelength.
fn spatial_frequency<S: MathStrategy>(a: Real, b: Real) -> (r: Real)
    ensures
        r == spatial_frequency_spec::<S>(a, b),
{
    S::div(S::sub(a, b), Real { bits: L1_WAVELENGTH_BITS })
}

/// Both antenna indices of every baseline are valid indices into antenna
/// arrays of length `len`.
pub open spec fn baselines_in_range(baselines: Seq<(u32, u32)>, len: int) -> bool {
    forall|k: int|
        0 <= k < baselines.len() ==> baselines[k].0 < len && baselines[k].1 < len
}

/// Computes the (u, v, w) coordinates of every baseline: for baseline
/// `(i, j)`, `u = (x_i - x_j) / lambda` and likewise for v over y and w
/// over z.  A pure elementwise map; the inputs are not changed.
pub fn get_uvw<S: MathStrategy>(
    baselines: &Vec<(u32, u32)>,
    x: &Vec<Real>,
    y: &Vec<Real>,
    z: &Vec<Real>,
) -> (r: (Vec<Real>, Vec<Real>, Vec<Real>))
    requires
        x.len() == y.len(),
        x.len() == z.len(),
        baselines_in_range(baselines@, x.len() as int),
    ensures
        r.0.len() == baselines.len(),
        r.1.len() == baselines.len(),
        r.2.len() == baselines.len(),
        forall|k: int|
            0 <= k < baselines.len() ==> r.0@[k] == spatial_frequency_spec::<S>(
                x@[baselines@[k].0 as int],
                x@[baselines@[k].1 as int],
            ),
        forall|k: int|
            0 <= k < baselines.len() ==> r.1@[k] == spatial_frequency_spec::<S>(
                y@[baselines@[k].0 as int],
                y@[baselines@[k].1 as int],
            ),
        forall|k: int|
            0 <= k < baselines.len() ==> r.2@[k] == spatial_frequency_spec::<S>(
                z@[baselines@[k].0 as int],
                z@[baselines@[k].1 as int],
            ),
{
    let num_baselines = baselines.len();

    let mut uu_a: Vec<Real> = Vec::new();
    let mut vv_a: Vec<Real> = Vec::new();
    let mut ww_a: Vec<Real> = Vec::new();

    let mut k: usize = 0;
    while k < num_baselines
        invariant
            num_baselines == baselines.len(),
            x.len() == y.len(),
            x.len() == z.len(),
            baselines_in_range(baselines@, x.len() as int),
            k <= num_baselines,
            uu_a.len() == k,
            vv_a.len() == k,
            ww_a.len() == k,
            forall|j: int|
                0 <= j < k ==> uu_a@[j] == spatial_frequency_spec::<S>(
                    x@[baselines@[j].0 as int],
                    x@[baselines@[j].1 as int],
                ),
            forall|j: int|
                0 <= j < k ==> vv_a@[j] == spatial_frequency_spec::<S>(
                    y@[baselines@[j].0 as int],
                    y@[baselines@[j].1 as int],
                ),
            forall|j: int|
                0 <= j < k ==> ww_a@[j] == spatial_frequency_spec::<S>(
                    z@[baselines@[j].0 as int],
                    z@[baselines@[j].1 as int],
                ),
        decreases num_baselines - k,
    {
        let bl = baselines[k];
        let i = bl.0 as usize;
        let j = bl.1 as usize;
        uu_a.push(spatial_frequency::<S>(x[i], x[j]));
        vv_a.push(spatial_frequency::<S>(y[i], y[j]));
        ww_a.push(spatial_frequency::<S>(z[i], z[j]));
        k = k + 1;
    }
    (uu_a, vv_a, ww_a)
}

} // verus!
