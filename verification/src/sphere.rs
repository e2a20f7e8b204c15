//! Pixelised hemisphere geometry on the HEALPix ring tessellation, and the
//! angle types used to describe sky directions.
//!
//! A [`Hemisphere`] holds, for a given resolution parameter `nside`, the
//! ordered list of tessellation pixels whose centres lie strictly above the
//! horizon, parallel arrays of their elevation/azimuth and direction cosines
//! (l, m, n), and one brightness value per visible pixel.  The geometry is
//! immutable once built; only the brightness array is overwritten by sky
//! reconstruction.

use vstd::prelude::*;
use crate::scalar::{MathStrategy, Real, PI_OVER_2_BITS, ZERO_BITS};

verus! {

/// Elevation and azimuth, in radians.
#[derive(Clone, Copy, PartialEq, Eq, Structural, Debug)]
pub struct ElAz {
    pub el: Real,
    pub az: Real,
}

/// Longitude and latitude, in radians: the angle convention used by the
/// HEALPix library.
#[derive(Clone, Copy, PartialEq, Eq, Structural, Debug)]
pub struct LonLat {
    pub lon: Real,
    pub lat: Real,
}

/// Colatitude `theta` (zero at the zenith, pi/2 at the horizon) and
/// longitude `phi`, in radians.
#[derive(Clone, Copy, PartialEq, Eq, Structural, Debug)]
pub struct HpAngle {
    pub theta: Real,
    pub phi: Real,
}

impl LonLat {
    /// Pairs a longitude and a latitude.
    pub fn new(lon: Real, lat: Real) -> (r: LonLat)
        ensures
            r == (LonLat { lon, lat }),
    {
        LonLat { lon, lat }
    }

    /// The longitude/latitude of a tessellation pixel's centre, narrowed to
    /// single precision.
    pub fn from_pix<S: MathStrategy>(nside: u32, pix: u64) -> (r: LonLat)
        requires
            nside <= 8192,
            pix < full_pixel_count(nside),
        ensures
            r == (LonLat {
                lon: S::narrow_spec(hp_center_spec(nside, pix).0),
                lat: S::narrow_spec(hp_center_spec(nside, pix).1),
            }),
    {
        let (lon, lat) = hp_center(nside, pix);
        LonLat::new(S::narrow(lon), S::narrow(lat))
    }

    /// Converts colatitude/longitude to longitude/latitude:
    /// `lat = pi/2 - theta`.
    pub fn from_hp<S: MathStrategy>(hp: &HpAngle) -> (r: LonLat)
        ensures
            r == (LonLat {
                lon: hp.phi,
                lat: S::sub_spec(Real { bits: PI_OVER_2_BITS }, hp.theta),
            }),
    {
        LonLat::new(hp.phi, S::sub(Real { bits: PI_OVER_2_BITS }, hp.theta))
    }
}

impl HpAngle {
    /// Projects this direction onto the drawing plane, viewed from straight
    /// above: `x = sin(theta) sin(phi)`, `y = -sin(theta) cos(phi)`.  All
    /// trigonometry goes through the chosen strategy.
    pub fn proj<S: MathStrategy>(&self) -> (r: (Real, Real))
        ensures
            r.0 == S::mul_spec(S::sin_spec(self.theta), S::sin_spec(self.phi)),
            r.1 == S::neg_spec(S::mul_spec(S::sin_spec(self.theta), S::cos_spec(self.phi))),
    {
        let radial = S::sin_cos(self.theta).0;
        let (sin_phi, cos_phi) = S::sin_cos(self.phi);
        let x = S::mul(radial, sin_phi);
        let y = S::neg(S::mul(radial, cos_phi));

        (x, y)
    }

    /// Pairs a colatitude and a longitude.
    pub fn new(theta: Real, phi: Real) -> (r: HpAngle)
        ensures
            r == (HpAngle { theta, phi }),
    {
        HpAngle { theta, phi }
    }

    /// Converts longitude/latitude to colatitude/longitude:
    /// `theta = pi/2 - lat`.
    pub fn from_lonlat<S: MathStrategy>(lonlat: &LonLat) -> (r: HpAngle)
        ensures
            r == (HpAngle {
                theta: S::sub_spec(Real { bits: PI_OVER_2_BITS }, lonlat.lat),
                phi: lonlat.lon,
            }),
    {
        HpAngle::new(S::sub(Real { bits: PI_OVER_2_BITS }, lonlat.lat), lonlat.lon)
    }

    /// Converts elevation/azimuth to colatitude/longitude:
    /// `theta = pi/2 - el`, `phi = -az`.
    pub fn from_elaz<S: MathStrategy>(el: Real, az: Real) -> (r: HpAngle)
        ensures
            r == (HpAngle {
                theta: S::sub_spec(Real { bits: PI_OVER_2_BITS }, el),
                phi: S::neg_spec(az),
            }),
    {
        HpAngle::new(S::sub(Real { bits: PI_OVER_2_BITS }, el), S::neg(az))
    }
}

impl ElAz {
    /// Pairs an elevation and an azimuth.
    pub fn new(el: Real, az: Real) -> (r: ElAz)
        ensures
            r == (ElAz { el, az }),
    {
        ElAz { el, az }
    }

    /// Converts colatitude/longitude to elevation/azimuth:
    /// `el = pi/2 - theta`, `az = -phi`.
    pub fn from_hp<S: MathStrategy>(hp: &HpAngle) -> (r: ElAz)
        ensures
            r == (ElAz {
                el: S::sub_spec(Real { bits: PI_OVER_2_BITS }, hp.theta),
                az: S::neg_spec(hp.phi),
            }),
    {
        ElAz::new(S::sub(Real { bits: PI_OVER_2_BITS }, hp.theta), S::neg(hp.phi))
    }

    /// Converts elevation/azimuth back to colatitude/longitude.
    pub fn to_hp<S: MathStrategy>(&self) -> (r: HpAngle)
        ensures
            r == (HpAngle {
                theta: S::sub_spec(Real { bits: PI_OVER_2_BITS }, self.el),
                phi: S::neg_spec(self.az),
            }),
    {
        HpAngle::from_elaz::<S>(self.el, self.az)
    }

    /// Direction cosines of this direction:
    /// `l = sin(az) cos(el)`, `m = cos(az) cos(el)`, `n = sin(el)`.
    pub fn to_lmn<S: MathStrategy>(&self) -> (r: (Real, Real, Real))
        ensures
            r.0 == S::mul_spec(S::sin_spec(self.az), S::cos_spec(self.el)),
            r.1 == S::mul_spec(S::cos_spec(self.az), S::cos_spec(self.el)),
            r.2 == S::sin_spec(self.el),
    {
        let (sin_az, cos_az) = S::sin_cos(self.az);
        let (sin_el, cos_el) = S::sin_cos(self.el);
        let l = S::mul(sin_az, cos_el);
        let m = S::mul(cos_az, cos_el);
        let n = sin_el;
        (l, m, n)
    }
}

/// Number of pixels of the full-sphere ring tessellation at `nside`.
pub open spec fn full_pixel_count(nside: u32) -> int {
    12 * (nside as int) * (nside as int)
}

/// Number of tessellation pixels whose centre lies strictly above the
/// horizon.  The ring tessellation orders pixels by isolatitude ring from
/// the north pole southward; the rings strictly north of the equator hold
/// `2 nside (nside - 1)` polar-cap pixels plus `nside` equatorial-belt rings
/// of `4 nside` pixels each, `6 nside^2 - 2 nside` in all.
pub open spec fn visible_pixel_count(nside: u32) -> int {
    6 * (nside as int) * (nside as int) - 2 * (nside as int)
}

/// A hemisphere at any positive resolution has visible pixels.
pub proof fn lemma_visible_pixel_count_positive(nside: u32)
    ensures
        nside >= 1 ==> visible_pixel_count(nside) > 0,
{
    assert(nside >= 1 ==> 6 * (nside as int) * (nside as int) - 2 * (nside as int) > 0)
        by (nonlinear_arith);
}

/// What cdshealpix's ring-scheme `center` returns for a pixel: the
/// (longitude, latitude) pair of the pixel centre in radians, each as the
/// raw bit pattern of a double-precision value.
pub uninterp spec fn hp_center_spec(nside: u32, pix: u64) -> (u64, u64);

/// Relies on cdshealpix::ring::center: the centre of a ring-scheme pixel on
/// the unit sphere, a pure function of `nside` and the pixel index.  It
/// panics when the index is at or beyond `12 nside^2`, and its internal
/// index arithmetic wraps for very large `nside`; the preconditions keep
/// both well away (the crate never tessellates beyond `nside` 8192).
#[verifier::external_body]
fn hp_center(nside: u32, pix: u64) -> (r: (u64, u64))
    requires
        nside <= 8192,
        pix < full_pixel_count(nside),
    ensures
        r == hp_center_spec(nside, pix),
{
    let (lon, lat) = cdshealpix::ring::center(nside, pix);
    (lon.to_bits(), lat.to_bits())
}

/// Colatitude of pixel centre `pix`: `pi/2 - lat` with `lat` narrowed to
/// single precision.
pub open spec fn pixel_theta_spec<S: MathStrategy>(nside: u32, pix: u64) -> Real {
    S::sub_spec(Real { bits: PI_OVER_2_BITS }, S::narrow_spec(hp_center_spec(nside, pix).1))
}

/// Elevation of pixel centre `pix`: `pi/2 - theta`.
pub open spec fn pixel_el_spec<S: MathStrategy>(nside: u32, pix: u64) -> Real {
    S::sub_spec(Real { bits: PI_OVER_2_BITS }, pixel_theta_spec::<S>(nside, pix))
}

/// Azimuth of pixel centre `pix`: the negated longitude, narrowed to single
/// precision.
pub open spec fn pixel_az_spec<S: MathStrategy>(nside: u32, pix: u64) -> Real {
    S::neg_spec(S::narrow_spec(hp_center_spec(nside, pix).0))
}

/// Direction cosine `l = sin(az) cos(el)` of pixel centre `pix`.
pub open spec fn pixel_l_spec<S: MathStrategy>(nside: u32, pix: u64) -> Real {
    S::mul_spec(
        S::sin_spec(pixel_az_spec::<S>(nside, pix)),
        S::cos_spec(pixel_el_spec::<S>(nside, pix)),
    )
}

/// Direction cosine `m = cos(az) cos(el)` of pixel centre `pix`.
pub open spec fn pixel_m_spec<S: MathStrategy>(nside: u32, pix: u64) -> Real {
    S::mul_spec(
        S::cos_spec(pixel_az_spec::<S>(nside, pix)),
        S::cos_spec(pixel_el_spec::<S>(nside, pix)),
    )
}

/// Direction cosine `n = sin(el)` of pixel centre `pix`.
pub open spec fn pixel_n_spec<S: MathStrategy>(nside: u32, pix: u64) -> Real {
    S::sin_spec(pixel_el_spec::<S>(nside, pix))
}

/// The visible-hemisphere pixel set for a resolution parameter, with its
/// geometry and one brightness value per pixel.
pub struct Hemisphere {
    /// Resolution parameter the geometry was built for.
    pub nside: u32,
    /// Number of visible pixels; equals the length of every array below.
    pub npix: usize,
    /// Brightness of each visible pixel; overwritten by reconstruction.
    pub visible_pix: Vec<Real>,
    /// Full-sphere tessellation index of each visible pixel.
    pub visible_indices: Vec<u64>,
    /// Elevation/azimuth of each visible pixel centre.
    pub elaz: Vec<ElAz>,
    /// Direction cosine l of each visible pixel centre.
    pub l: Vec<Real>,
    /// Direction cosine m of each visible pixel centre.
    pub m: Vec<Real>,
    /// Direction cosine n of each visible pixel centre.
    pub n: Vec<Real>,
}

impl Hemisphere {
    /// The parallel arrays all have length `npix`.
    pub open spec fn consistent(self) -> bool {
        &&& self.visible_pix.len() == self.npix
        &&& self.visible_indices.len() == self.npix
        &&& self.elaz.len() == self.npix
        &&& self.l.len() == self.npix
        &&& self.m.len() == self.npix
        &&& self.n.len() == self.npix
    }

    /// Well-formed geometry for `nside`: consistent arrays, exactly the
    /// visible pixel count, and the visible pixels are the initial segment
    /// of the ring tessellation, in tessellation order.
    pub open spec fn wf(self) -> bool {
        &&& self.consistent()
        &&& self.npix == visible_pixel_count(self.nside)
        &&& forall|k: int|
            0 <= k < self.npix ==> self.visible_indices@[k] == k as u64
    }

    /// The geometry fields (everything but the brightness array) of `self`
    /// and `other` are equal.
    pub open spec fn same_geometry(self, other: Hemisphere) -> bool {
        &&& self.nside == other.nside
        &&& self.npix == other.npix
        &&& self.visible_indices@ == other.visible_indices@
        &&& self.elaz@ == other.elaz@
        &&& self.l@ == other.l@
        &&& self.m@ == other.m@
        &&& self.n@ == other.n@
    }

    /// The geometry holds exactly the strategy-computed values for each
    /// visible pixel centre of `nside`, and every brightness value is zero.
    pub open spec fn is_fresh_build<S: MathStrategy>(self, nside: u32) -> bool {
        &&& self.wf()
        &&& self.nside == nside
        &&& forall|k: int|
            0 <= k < self.npix ==> self.visible_pix@[k] == (Real { bits: ZERO_BITS })
        &&& forall|k: int|
            0 <= k < self.npix ==> self.elaz@[k] == (ElAz {
                el: pixel_el_spec::<S>(nside, k as u64),
                az: pixel_az_spec::<S>(nside, k as u64),
            })
        &&& forall|k: int| 0 <= k < self.npix ==> self.l@[k] == pixel_l_spec::<S>(nside, k as u64)
        &&& forall|k: int| 0 <= k < self.npix ==> self.m@[k] == pixel_m_spec::<S>(nside, k as u64)
        &&& forall|k: int| 0 <= k < self.npix ==> self.n@[k] == pixel_n_spec::<S>(nside, k as u64)
    }

    /// Builds the visible-hemisphere geometry for `nside`.
    pub fn new<S: MathStrategy>(nside: u32) -> (r: Hemisphere)
        requires
            nside <= 8192,
        ensures
            r.is_fresh_build::<S>(nside),
            nside >= 1 ==> r.npix > 0,
    {
        Self::compute_new_scalar::<S>(nside)
    }

    /// Builds the visible-hemisphere geometry for `nside`.
    pub fn compute_new<S: MathStrategy>(nside: u32) -> (r: Hemisphere)
        requires
            nside <= 8192,
        ensures
            r.is_fresh_build::<S>(nside),
            nside >= 1 ==> r.npix > 0,
    {
        Self::compute_new_scalar::<S>(nside)
    }

    /// Builds the visible-hemisphere geometry for `nside` in one pass over
    /// the visible pixels.
    pub fn compute_new_single_pass<S: MathStrategy>(nside: u32) -> (r: Hemisphere)
        requires
            nside <= 8192,
        ensures
            r.is_fresh_build::<S>(nside),
            nside >= 1 ==> r.npix > 0,
    {
        Self::compute_new_scalar::<S>(nside)
    }

    /// Enumerates the visible pixels of the ring tessellation in order and
    /// fills the parallel geometry arrays.
    ///
    /// The ring tessellation orders pixels north to south by isolatitude
    /// ring, and the centres with colatitude strictly below pi/2 are exactly
    /// the rings strictly north of the equator ring, that is the first
    /// `6 nside^2 - 2 nside` pixel indices.  Enumerating that initial
    /// segment therefore visits exactly the visible pixels, in tessellation
    /// order, which keeps the ordering stable and deterministic for a given
    /// `nside`.
    fn compute_new_scalar<S: MathStrategy>(nside: u32) -> (r: Hemisphere)
        requires
            nside <= 8192,
        ensures
            r.is_fresh_build::<S>(nside),
            nside >= 1 ==> r.npix > 0,
    {
        let n64: u64 = nside as u64;
        proof {
            assert(n64 * n64 <= 8192 * 8192 && 2 * n64 <= 6 * (n64 * n64) && (n64 >= 1 ==> 6
                * (n64 * n64) - 2 * n64 > 0)) by (nonlinear_arith)
                requires
                    n64 <= 8192,
            ;
        }
        let nn: u64 = n64 * n64;
        let visible_count: u64 = 6 * nn - 2 * n64;
        assert(visible_count < 0x1_0000_0000);
        proof {
            assert(visible_count == visible_pixel_count(nside)) by (nonlinear_arith)
                requires
                    visible_count == 6 * (n64 * n64) - 2 * n64,
                    n64 == nside as u64,
            ;
        }
        let count: usize = visible_count as usize;

        let mut visible_pixels: Vec<Real> = Vec::new();
        let mut visible_indices: Vec<u64> = Vec::new();
        let mut elaz_arr: Vec<ElAz> = Vec::new();
        let mut l_arr: Vec<Real> = Vec::new();
        let mut m_arr: Vec<Real> = Vec::new();
        let mut n_arr: Vec<Real> = Vec::new();

        let mut pix: u64 = 0;
        while pix < visible_count
            invariant
                nside <= 8192,
                visible_count == visible_pixel_count(nside),
                count == visible_count,
                pix <= visible_count,
                visible_pixels.len() == pix,
                visible_indices.len() == pix,
                elaz_arr.len() == pix,
                l_arr.len() == pix,
                m_arr.len() == pix,
                n_arr.len() == pix,
                forall|k: int|
                    0 <= k < pix ==> visible_pixels@[k] == (Real { bits: ZERO_BITS }),
                forall|k: int| 0 <= k < pix ==> visible_indices@[k] == k as u64,
                forall|k: int|
                    0 <= k < pix ==> elaz_arr@[k] == (ElAz {
                        el: pixel_el_spec::<S>(nside, k as u64),
                        az: pixel_az_spec::<S>(nside, k as u64),
                    }),
                forall|k: int| 0 <= k < pix ==> l_arr@[k] == pixel_l_spec::<S>(nside, k as u64),
                forall|k: int| 0 <= k < pix ==> m_arr@[k] == pixel_m_spec::<S>(nside, k as u64),
                forall|k: int| 0 <= k < pix ==> n_arr@[k] == pixel_n_spec::<S>(nside, k as u64),
            decreases visible_count - pix,
        {
            proof {
                assert(visible_pixel_count(nside) <= full_pixel_count(nside))
                    by (nonlinear_arith);
            }
            let (lon64, lat64) = hp_center(nside, pix);
            let theta = S::sub(Real { bits: PI_OVER_2_BITS }, S::narrow(lat64));

            visible_pixels.push(Real { bits: ZERO_BITS });
            visible_indices.push(pix);

            let el = S::sub(Real { bits: PI_OVER_2_BITS }, theta);
            let az = S::neg(S::narrow(lon64));

            let (sin_az, cos_az) = S::sin_cos(az);
            let (sin_el, cos_el) = S::sin_cos(el);

            let l = S::mul(sin_az, cos_el);
            let m = S::mul(cos_az, cos_el);
            let n = sin_el;

            elaz_arr.push(ElAz { el, az });
            l_arr.push(l);
            m_arr.push(m);
            n_arr.push(n);

            pix = pix + 1;
        }

        Hemisphere {
            nside,
            npix: count,
            visible_pix: visible_pixels,
            visible_indices,
            elaz: elaz_arr,
            l: l_arr,
            m: m_arr,
            n: n_arr,
        }
    }

    /// An independent copy: equal in every field, sharing no storage, so
    /// mutating the copy's brightness leaves the original untouched.
    pub fn duplicate(&self) -> (r: Hemisphere)
        ensures
            r.same_geometry(*self),
            r.visible_pix@ == self.visible_pix@,
    {
        Hemisphere {
            nside: self.nside,
            npix: self.npix,
            visible_pix: copy_reals(&self.visible_pix),
            visible_indices: copy_u64s(&self.visible_indices),
            elaz: copy_elaz(&self.elaz),
            l: copy_reals(&self.l),
            m: copy_reals(&self.m),
            n: copy_reals(&self.n),
        }
    }
}

/// Copies a scalar array element by element.
fn copy_reals(v: &Vec<Real>) -> (r: Vec<Real>)
    ensures
        r@ == v@,
{
    let mut out: Vec<Real> = Vec::new();
    let mut i: usize = 0;
    while i < v.len()
        invariant
            i <= v.len(),
            out@ == v@.subrange(0, i as int),
        decreases v.len() - i,
    {
        out.push(v[i]);
        i = i + 1;
    }
    assert(out@ == v@);
    out
}

/// Copies an index array element by element.
fn copy_u64s(v: &Vec<u64>) -> (r: Vec<u64>)
    ensures
        r@ == v@,
{
    let mut out: Vec<u64> = Vec::new();
    let mut i: usize = 0;
    while i < v.len()
        invariant
            i <= v.len(),
            out@ == v@.subrange(0, i as int),
        decreases v.len() - i,
    {
        out.push(v[i]);
        i = i + 1;
    }
    assert(out@ == v@);
    out
}

/// Copies an elevation/azimuth array element by element.
fn copy_elaz(v: &Vec<ElAz>) -> (r: Vec<ElAz>)
    ensures
        r@ == v@,
{
    let mut out: Vec<ElAz> = Vec::new();
    let mut i: usize = 0;
    while i < v.len()
        invariant
            i <= v.len(),
            out@ == v@.subrange(0, i as int),
        decreases v.len() - i,
    {
        out.push(v[i]);
        i = i + 1;
    }
    assert(out@ == v@);
    out
}

} // verus!
