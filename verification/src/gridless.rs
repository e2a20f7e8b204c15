//! Gridless sky reconstruction: per-baseline Fourier harmonics and the
//! visibility-weighted accumulation that turns calibrated visibilities into
//! per-pixel sky brightness.
//!
//! For baseline `k` with spatial frequency `(u, v, w)` and a visible pixel
//! with direction cosines `(l, m, n)`, the harmonic is the unit-magnitude
//! complex value with phase `-2 pi (u l + v m + w (n - 1))`.  Reconstruction
//! accumulates each baseline's visibility times its harmonic into a
//! per-pixel complex sum, normalises by `1 / sqrt(pixel count)`, and reduces
//! each sum to its real part or to its magnitude.

use vstd::prelude::*;
use crate::scalar::{
    MathStrategy,
    Real,
    Cpx,
    cadd_spec,
    cmul_spec,
    cadd,
    cmul,
    ZERO_BITS,
    ONE_BITS,
    NEG_TWO_PI_BITS,
};
use crate::sphere::Hemisphere;

verus! {

/// Why a reconstruction request was refused.  A refused request leaves the
/// hemisphere untouched.
#[derive(Debug, Clone, Copy, PartialEq, Eq, Structural)]
pub enum GridlessError {
    /// The visibility and coordinate arrays disagree in length.
    DimensionMismatch,
    /// The hemisphere has no visible pixels.
    EmptySky,
}

impl GridlessError {
    /// A one-line description of the error.
    pub fn message(&self) -> (r: &'static str)
        ensures
            *self is DimensionMismatch ==> r@ == "Visibility and coordinate arrays must have same length"@,
            *self is EmptySky ==> r@ == "Sky hemisphere has no visible pixels"@,
    {
        match self {
            GridlessError::DimensionMismatch => "Visibility and coordinate arrays must have same length",
            GridlessError::EmptySky => "Sky hemisphere has no visible pixels",
        }
    }
}

/// Phase of a baseline at a pixel: `-2 pi (u l + v m + w (n - 1))`, with the
/// products and sums evaluated left to right by the strategy.
pub open spec fn harmonic_phase_spec<S: MathStrategy>(
    u: Real,
    v: Real,
    w: Real,
    l: Real,
    m: Real,
    n: Real,
) -> Real {
    S::mul_spec(
        Real { bits: NEG_TWO_PI_BITS },
        S::add_spec(
            S::add_spec(S::mul_spec(u, l), S::mul_spec(v, m)),
            S::mul_spec(w, S::sub_spec(n, Real { bits: ONE_BITS })),
        ),
    )
}

/// Harmonic of a baseline at a pixel: cosine and sine of the phase, as a
/// unit-magnitude complex value.
pub open spec fn harmonic_spec<S: MathStrategy>(
    u: Real,
    v: Real,
    w: Real,
    l: Real,
    m: Real,
    n: Real,
) -> Cpx {
    let phase = harmonic_phase_spec::<S>(u, v, w, l, m, n);
    Cpx { re: S::cos_spec(phase), im: S::sin_spec(phase) }
}

/// Complex sum, over the first `k` baselines, of visibility times harmonic
/// at pixel `p`, starting from complex zero.
pub open spec fn accumulated_pixel_spec<S: MathStrategy>(
    vis: Seq<Cpx>,
    u: Seq<Real>,
    v: Seq<Real>,
    w: Seq<Real>,
    l: Seq<Real>,
    m: Seq<Real>,
    n: Seq<Real>,
    p: int,
    k: int,
) -> Cpx
    decreases k,
{
    if k <= 0 {
        Cpx { re: Real { bits: ZERO_BITS }, im: Real { bits: ZERO_BITS } }
    } else {
        cadd_spec::<S>(
            accumulated_pixel_spec::<S>(vis, u, v, w, l, m, n, p, k - 1),
            cmul_spec::<S>(
                vis[k - 1],
                harmonic_spec::<S>(u[k - 1], v[k - 1], w[k - 1], l[p], m[p], n[p]),
            ),
        )
    }
}

/// The brightness normalisation factor: `1 / sqrt(npix)`.
pub open spec fn normalization_spec<S: MathStrategy>(npix: usize) -> Real {
    S::recip_spec(S::sqrt_spec(S::from_count_spec(npix)))
}

/// The reconstructed brightness of pixel `p`: the accumulated complex sum
/// over all baselines, reduced to its real part (`use_real_only`) or to its
/// magnitude, times the normalisation factor.
pub open spec fn reconstructed_pixel_spec<S: MathStrategy>(
    vis: Seq<Cpx>,
    u: Seq<Real>,
    v: Seq<Real>,
    w: Seq<Real>,
    l: Seq<Real>,
    m: Seq<Real>,
    n: Seq<Real>,
    npix: usize,
    p: int,
    use_real_only: bool,
) -> Real {
    let acc = accumulated_pixel_spec::<S>(vis, u, v, w, l, m, n, p, vis.len() as int);
    let norm = normalization_spec::<S>(npix);
    if use_real_only {
        S::mul_spec(acc.re, norm)
    } else {
        S::mul_spec(S::magnitude_spec(acc), norm)
    }
}

/// Sine and cosine of every phase in `phases`, as two parallel arrays
/// (cosines first).
fn batch_sincos<S: MathStrategy>(phases: &Vec<Real>) -> (r: (Vec<Real>, Vec<Real>))
    ensures
        r.0.len() == phases.len(),
        r.1.len() == phases.len(),
        forall|p: int| 0 <= p < phases.len() ==> r.0@[p] == S::cos_spec(phases@[p]),
        forall|p: int| 0 <= p < phases.len() ==> r.1@[p] == S::sin_spec(phases@[p]),
{
    let mut cos_vals: Vec<Real> = Vec::new();
    let mut sin_vals: Vec<Real> = Vec::new();
    let mut p: usize = 0;
    while p < phases.len()
        invariant
            p <= phases.len(),
            cos_vals.len() == p,
            sin_vals.len() == p,
            forall|q: int| 0 <= q < p ==> cos_vals@[q] == S::cos_spec(phases@[q]),
            forall|q: int| 0 <= q < p ==> sin_vals@[q] == S::sin_spec(phases@[q]),
        decreases phases.len() - p,
    {
        let (sin_p, cos_p) = S::sin_cos(phases[p]);
        cos_vals.push(cos_p);
        sin_vals.push(sin_p);
        p = p + 1;
    }
    (cos_vals, sin_vals)
}

/// Computes the per-baseline harmonic arrays for every visible pixel of the
/// sky.  Each baseline's array is independent of every other's.
pub fn compute_fourier_harmonics<S: MathStrategy>(
    sky: &Hemisphere,
    u_coords: &Vec<Real>,
    v_coords: &Vec<Real>,
    w_coords: &Vec<Real>,
) -> (r: Vec<Vec<Cpx>>)
    requires
        sky.consistent(),
        u_coords.len() == v_coords.len(),
        u_coords.len() == w_coords.len(),
    ensures
        r.len() == u_coords.len(),
        forall|b: int| 0 <= b < r.len() ==> r@[b].len() == sky.npix,
        forall|b: int, p: int|
            0 <= b < r.len() && 0 <= p < sky.npix ==> r@[b]@[p] == harmonic_spec::<S>(
                u_coords@[b],
                v_coords@[b],
                w_coords@[b],
                sky.l@[p],
                sky.m@[p],
                sky.n@[p],
            ),
{
    let num_baselines = u_coords.len();
    let num_pixels = sky.npix;

    // n - 1 is shared by every baseline, so it is computed once.
    let mut n_minus_one: Vec<Real> = Vec::new();
    let mut p: usize = 0;
    while p < num_pixels
        invariant
            sky.consistent(),
            num_pixels == sky.npix,
            p <= num_pixels,
            n_minus_one.len() == p,
            forall|q: int|
                0 <= q < p ==> n_minus_one@[q] == S::sub_spec(sky.n@[q], (Real { bits: ONE_BITS })),
        decreases num_pixels - p,
    {
        n_minus_one.push(S::sub(sky.n[p], Real { bits: ONE_BITS }));
        p = p + 1;
    }

    let mut harmonics: Vec<Vec<Cpx>> = Vec::new();
    let mut b: usize = 0;
    while b < num_baselines
        invariant
            sky.consistent(),
            num_pixels == sky.npix,
            num_baselines == u_coords.len(),
            u_coords.len() == v_coords.len(),
            u_coords.len() == w_coords.len(),
            n_minus_one.len() == num_pixels,
            forall|q: int|
                0 <= q < num_pixels ==> n_minus_one@[q] == S::sub_spec(
                    sky.n@[q],
                    (Real { bits: ONE_BITS }),
                ),
            b <= num_baselines,
            harmonics.len() == b,
            forall|i: int| 0 <= i < b ==> harmonics@[i].len() == num_pixels,
            forall|i: int, q: int|
                0 <= i < b && 0 <= q < num_pixels ==> harmonics@[i]@[q] == harmonic_spec::<S>(
                    u_coords@[i],
                    v_coords@[i],
                    w_coords@[i],
                    sky.l@[q],
                    sky.m@[q],
                    sky.n@[q],
                ),
        decreases num_baselines - b,
    {
        let u = u_coords[b];
        let v = v_coords[b];
        let w = w_coords[b];

        let mut phase_angles: Vec<Real> = Vec::new();
        let mut q: usize = 0;
        while q < num_pixels
            invariant
                sky.consistent(),
                num_pixels == sky.npix,
                n_minus_one.len() == num_pixels,
                forall|j: int|
                    0 <= j < num_pixels ==> n_minus_one@[j] == S::sub_spec(
                        sky.n@[j],
                        (Real { bits: ONE_BITS }),
                    ),
                q <= num_pixels,
                phase_angles.len() == q,
                forall|j: int|
                    0 <= j < q ==> phase_angles@[j] == harmonic_phase_spec::<S>(
                        u,
                        v,
                        w,
                        sky.l@[j],
                        sky.m@[j],
                        sky.n@[j],
                    ),
            decreases num_pixels - q,
        {
            let inner = S::add(
                S::add(S::mul(u, sky.l[q]), S::mul(v, sky.m[q])),
                S::mul(w, n_minus_one[q]),
            );
            phase_angles.push(S::mul(Real { bits: NEG_TWO_PI_BITS }, inner));
            q = q + 1;
        }

        let (cos_vals, sin_vals) = batch_sincos::<S>(&phase_angles);

        let mut baseline_harmonics: Vec<Cpx> = Vec::new();
        let mut q2: usize = 0;
        while q2 < num_pixels
            invariant
                num_pixels == sky.npix,
                cos_vals.len() == num_pixels,
                sin_vals.len() == num_pixels,
                phase_angles.len() == num_pixels,
                forall|j: int|
                    0 <= j < num_pixels ==> phase_angles@[j] == harmonic_phase_spec::<S>(
                        u,
                        v,
                        w,
                        sky.l@[j],
                        sky.m@[j],
                        sky.n@[j],
                    ),
                forall|j: int| 0 <= j < num_pixels ==> cos_vals@[j] == S::cos_spec(phase_angles@[j]),
                forall|j: int| 0 <= j < num_pixels ==> sin_vals@[j] == S::sin_spec(phase_angles@[j]),
                q2 <= num_pixels,
                baseline_harmonics.len() == q2,
                forall|j: int|
                    0 <= j < q2 ==> baseline_harmonics@[j] == harmonic_spec::<S>(
                        u,
                        v,
                        w,
                        sky.l@[j],
                        sky.m@[j],
                        sky.n@[j],
                    ),
            decreases num_pixels - q2,
        {
            baseline_harmonics.push(Cpx { re: cos_vals[q2], im: sin_vals[q2] });
            q2 = q2 + 1;
        }

        harmonics.push(baseline_harmonics);
        b = b + 1;
    }
    harmonics
}

/// Reconstructs the sky image from visibility measurements.
///
/// The visibility and coordinate arrays must agree in length and the sky
/// must have at least one visible pixel; otherwise the matching error is
/// returned and the hemisphere is left exactly as it was.  On success the
/// geometry is unchanged and the brightness array is overwritten with the
/// accumulated, normalised, reduced value of every pixel.
pub fn reconstruct_sky_image<S: MathStrategy>(
    visibilities: &Vec<Cpx>,
    u_coords: &Vec<Real>,
    v_coords: &Vec<Real>,
    w_coords: &Vec<Real>,
    sky: &mut Hemisphere,
    use_real_only: bool,
) -> (r: Result<(), GridlessError>)
    requires
        old(sky).consistent(),
    ensures
        final(sky).consistent(),
        match r {
            Ok(()) => {
                &&& visibilities.len() == u_coords.len()
                &&& visibilities.len() == v_coords.len()
                &&& visibilities.len() == w_coords.len()
                &&& old(sky).npix > 0
                &&& final(sky).same_geometry(*old(sky))
                &&& final(sky).visible_pix.len() == old(sky).npix
                &&& forall|p: int|
                    0 <= p < old(sky).npix ==> final(sky).visible_pix@[p]
                        == reconstructed_pixel_spec::<S>(
                        visibilities@,
                        u_coords@,
                        v_coords@,
                        w_coords@,
                        old(sky).l@,
                        old(sky).m@,
                        old(sky).n@,
                        old(sky).npix,
                        p,
                        use_real_only,
                    )
            },
            Err(GridlessError::DimensionMismatch) => {
                &&& (visibilities.len() != u_coords.len() || visibilities.len() != v_coords.len()
                    || visibilities.len() != w_coords.len())
                &&& *final(sky) == *old(sky)
            },
            Err(GridlessError::EmptySky) => {
                &&& visibilities.len() == u_coords.len()
                &&& visibilities.len() == v_coords.len()
                &&& visibilities.len() == w_coords.len()
                &&& old(sky).npix == 0
                &&& *final(sky) == *old(sky)
            },
        },
{
    let num_baselines = visibilities.len();
    if num_baselines != u_coords.len() || num_baselines != v_coords.len() || num_baselines
        != w_coords.len() {
        return Err(GridlessError::DimensionMismatch);
    }

    let num_sky_pixels = sky.npix;
    if num_sky_pixels == 0 {
        return Err(GridlessError::EmptySky);
    }

    let harmonics = compute_fourier_harmonics::<S>(sky, u_coords, v_coords, w_coords);

    let mut complex_pixels: Vec<Cpx> = Vec::new();
    let mut p: usize = 0;
    while p < num_sky_pixels
        invariant
            p <= num_sky_pixels,
            complex_pixels.len() == p,
            forall|q: int|
                0 <= q < p ==> complex_pixels@[q] == (Cpx {
                    re: Real { bits: ZERO_BITS },
                    im: Real { bits: ZERO_BITS },
                }),
        decreases num_sky_pixels - p,
    {
        complex_pixels.push(Cpx { re: Real { bits: ZERO_BITS }, im: Real { bits: ZERO_BITS } });
        p = p + 1;
    }

    let ghost gl = sky.l@;
    let ghost gm = sky.m@;
    let ghost gn = sky.n@;

    let mut k: usize = 0;
    while k < num_baselines
        invariant
            sky.consistent(),
            num_sky_pixels == sky.npix,
            num_baselines == visibilities.len(),
            visibilities.len() == u_coords.len(),
            visibilities.len() == v_coords.len(),
            visibilities.len() == w_coords.len(),
            gl == sky.l@,
            gm == sky.m@,
            gn == sky.n@,
            harmonics.len() == num_baselines,
            forall|i: int| 0 <= i < num_baselines ==> harmonics@[i].len() == num_sky_pixels,
            forall|i: int, q: int|
                0 <= i < num_baselines && 0 <= q < num_sky_pixels ==> harmonics@[i]@[q]
                    == harmonic_spec::<S>(u_coords@[i], v_coords@[i], w_coords@[i], gl[q], gm[q], gn[q]),
            k <= num_baselines,
            complex_pixels.len() == num_sky_pixels,
            forall|q: int|
                0 <= q < num_sky_pixels ==> complex_pixels@[q] == accumulated_pixel_spec::<S>(
                    visibilities@,
                    u_coords@,
                    v_coords@,
                    w_coords@,
                    gl,
                    gm,
                    gn,
                    q,
                    k as int,
                ),
        decreases num_baselines - k,
    {
        let visibility = visibilities[k];
        let mut q: usize = 0;
        while q < num_sky_pixels
            invariant
                sky.consistent(),
                num_sky_pixels == sky.npix,
                num_baselines == visibilities.len(),
                visibilities.len() == u_coords.len(),
                visibilities.len() == v_coords.len(),
                visibilities.len() == w_coords.len(),
                gl == sky.l@,
                gm == sky.m@,
                gn == sky.n@,
                harmonics.len() == num_baselines,
                forall|i: int| 0 <= i < num_baselines ==> harmonics@[i].len() == num_sky_pixels,
                forall|i: int, j: int|
                    0 <= i < num_baselines && 0 <= j < num_sky_pixels ==> harmonics@[i]@[j]
                        == harmonic_spec::<S>(
                        u_coords@[i],
                        v_coords@[i],
                        w_coords@[i],
                        gl[j],
                        gm[j],
                        gn[j],
                    ),
                k < num_baselines,
                visibility == visibilities@[k as int],
                q <= num_sky_pixels,
                complex_pixels.len() == num_sky_pixels,
                forall|j: int|
                    q <= j < num_sky_pixels ==> complex_pixels@[j] == accumulated_pixel_spec::<S>(
                        visibilities@,
                        u_coords@,
                        v_coords@,
                        w_coords@,
                        gl,
                        gm,
                        gn,
                        j,
                        k as int,
                    ),
                forall|j: int|
                    0 <= j < q ==> complex_pixels@[j] == accumulated_pixel_spec::<S>(
                        visibilities@,
                        u_coords@,
                        v_coords@,
                        w_coords@,
                        gl,
                        gm,
                        gn,
                        j,
                        k as int + 1,
                    ),
            decreases num_sky_pixels - q,
        {
            let harmonic_val = harmonics[k][q];
            let pixel = complex_pixels[q];
            let updated = cadd::<S>(pixel, cmul::<S>(visibility, harmonic_val));
            complex_pixels.set(q, updated);
            q = q + 1;
        }
        k = k + 1;
    }

    let normalization = S::recip(S::sqrt(S::from_count(num_sky_pixels)));

    let mut brightness: Vec<Real> = Vec::new();
    let mut p2: usize = 0;
    while p2 < num_sky_pixels
        invariant
            num_sky_pixels == sky.npix,
            num_baselines == visibilities.len(),
            normalization == normalization_spec::<S>(num_sky_pixels),
            complex_pixels.len() == num_sky_pixels,
            forall|q: int|
                0 <= q < num_sky_pixels ==> complex_pixels@[q] == accumulated_pixel_spec::<S>(
                    visibilities@,
                    u_coords@,
                    v_coords@,
                    w_coords@,
                    gl,
                    gm,
                    gn,
                    q,
                    num_baselines as int,
                ),
            p2 <= num_sky_pixels,
            brightness.len() == p2,
            forall|q: int|
                0 <= q < p2 ==> brightness@[q] == reconstructed_pixel_spec::<S>(
                    visibilities@,
                    u_coords@,
                    v_coords@,
                    w_coords@,
                    gl,
                    gm,
                    gn,
                    num_sky_pixels,
                    q,
                    use_real_only,
                ),
        decreases num_sky_pixels - p2,
    {
        let acc = complex_pixels[p2];
        let value = if use_real_only {
            S::mul(acc.re, normalization)
        } else {
            S::mul(S::magnitude(acc), normalization)
        };
        brightness.push(value);
        p2 = p2 + 1;
    }

    sky.visible_pix = brightness;
    Ok(())
}

} // verus!
