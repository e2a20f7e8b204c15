//! Gridless radio-interferometer imaging core.
//!
//! This crate reconstructs a sky-brightness map over the visible hemisphere
//! directly from interferometer visibility samples, without regridding onto a
//! uniform Fourier grid.  It provides the pixelised hemisphere geometry built
//! on the HEALPix ring tessellation, a single-slot geometry cache, antenna
//! gain/phase calibration, baseline (u, v, w) geometry, the per-baseline
//! Fourier harmonics and the brightness accumulation that turns calibrated
//! visibilities into a per-pixel image, together with summary statistics over
//! the result.
//!
//! Scalar values are carried as raw IEEE-754 single-precision bit patterns
//! ([`scalar::Real`]); every scalar operation is performed through a
//! caller-chosen [`scalar::MathStrategy`], so the bookkeeping proved here holds
//! for the exact math path and for any bounded-error fast path alike.

use vstd::prelude::*;
use crate::cache::{HemisphereCache, get_or_create_hemisphere};
use crate::gridless::{GridlessError, reconstruct_sky_image, reconstructed_pixel_spec};
use crate::scalar::{MathStrategy, Real, Cpx};
use crate::sphere::{
    ElAz,
    Hemisphere,
    visible_pixel_count,
    pixel_el_spec,
    pixel_az_spec,
    pixel_l_spec,
    pixel_m_spec,
    pixel_n_spec,
};

pub mod cache;
pub mod cli;
pub mod codec;
pub mod gridless;
pub mod img;
pub mod scalar;
pub mod sphere;
pub mod tart_api;
pub mod tart_obs;
pub mod template;
pub mod utils;

verus! {

/// Configuration for processing a radio-astronomy dataset.
#[derive(Debug, Clone)]
pub struct ProcessingConfig {
    pub nside: u32,
    pub show_sources: bool,
    pub show_stats: bool,
    pub show_colorbar: bool,
}

/// The direction cosine l of every visible pixel centre at `nside`, in
/// tessellation order.
pub open spec fn pixel_l_seq<S: MathStrategy>(nside: u32) -> Seq<Real> {
    Seq::new(visible_pixel_count(nside) as nat, |p: int| pixel_l_spec::<S>(nside, p as u64))
}

/// The direction cosine m of every visible pixel centre at `nside`.
pub open spec fn pixel_m_seq<S: MathStrategy>(nside: u32) -> Seq<Real> {
    Seq::new(visible_pixel_count(nside) as nat, |p: int| pixel_m_spec::<S>(nside, p as u64))
}

/// The direction cosine n of every visible pixel centre at `nside`.
pub open spec fn pixel_n_seq<S: MathStrategy>(nside: u32) -> Seq<Real> {
    Seq::new(visible_pixel_count(nside) as nat, |p: int| pixel_n_spec::<S>(nside, p as u64))
}

/// The computing core of one imaging request: the hemisphere for `nside`
/// from the cache, then sky reconstruction over it with the magnitude
/// reduction.  The rendering of the result is presentation work and stays
/// outside this crate.
///
/// Succeeds exactly when the visibility and coordinate arrays agree in
/// length and `nside` is positive; the resulting hemisphere then carries
/// the reconstructed brightness of every visible pixel.
pub fn make_sky_image<S: MathStrategy>(
    vis: &Vec<Cpx>,
    u: &Vec<Real>,
    v: &Vec<Real>,
    w: &Vec<Real>,
    nside: u32,
    cache: &mut HemisphereCache,
) -> (r: Result<Hemisphere, GridlessError>)
    requires
        nside <= 8192,
        old(cache).inv::<S>(),
    ensures
        final(cache).inv::<S>(),
        match r {
            Ok(h) => {
                &&& vis.len() == u.len()
                &&& vis.len() == v.len()
                &&& vis.len() == w.len()
                &&& nside >= 1
                &&& h.wf()
                &&& h.nside == nside
                &&& h.visible_pix.len() == h.npix
                &&& forall|p: int|
                    0 <= p < h.npix ==> h.elaz@[p] == (ElAz {
                        el: pixel_el_spec::<S>(nside, p as u64),
                        az: pixel_az_spec::<S>(nside, p as u64),
                    })
                &&& forall|p: int|
                    0 <= p < h.npix ==> h.l@[p] == pixel_l_spec::<S>(nside, p as u64)
                &&& forall|p: int|
                    0 <= p < h.npix ==> h.m@[p] == pixel_m_spec::<S>(nside, p as u64)
                &&& forall|p: int|
                    0 <= p < h.npix ==> h.n@[p] == pixel_n_spec::<S>(nside, p as u64)
                &&& forall|p: int|
                    0 <= p < h.npix ==> h.visible_pix@[p] == reconstructed_pixel_spec::<S>(
                        vis@,
                        u@,
                        v@,
                        w@,
                        pixel_l_seq::<S>(nside),
                        pixel_m_seq::<S>(nside),
                        pixel_n_seq::<S>(nside),
                        h.npix,
                        p,
                        false,
                    )
            },
            Err(GridlessError::DimensionMismatch) => vis.len() != u.len() || vis.len() != v.len()
                || vis.len() != w.len(),
            Err(GridlessError::EmptySky) => {
                &&& vis.len() == u.len()
                &&& vis.len() == v.len()
                &&& vis.len() == w.len()
                &&& nside == 0
            },
        },
{
    let mut sky = get_or_create_hemisphere::<S>(cache, nside);
    let ghost fresh = sky;
    let outcome = reconstruct_sky_image::<S>(vis, u, v, w, &mut sky, false);
    match outcome {
        Ok(()) => {
            proof {
                assert(fresh.l@ =~= pixel_l_seq::<S>(nside));
                assert(fresh.m@ =~= pixel_m_seq::<S>(nside));
                assert(fresh.n@ =~= pixel_n_seq::<S>(nside));
                if nside == 0 {
                    assert(visible_pixel_count(nside) == 0) by (nonlinear_arith)
                        requires
                            nside == 0,
                    ;
                    assert(false);
                }
                assert(sky.npix == fresh.npix);
                assert forall|k: int| 0 <= k < sky.npix implies sky.visible_indices@[k]
                    == k as u64 by {
                    assert(fresh.visible_indices@[k] == k as u64);
                }
                assert(sky.wf());
            }
            Ok(sky)
        },
        Err(e) => {
            proof {
                if e is EmptySky {
                    crate::sphere::lemma_visible_pixel_count_positive(nside);
                }
            }
            Err(e)
        },
    }
}

/// Why processing a dataset failed.
#[derive(Debug, Clone, PartialEq, Eq)]
pub enum ProcessingError {
    /// The dataset is structurally invalid.
    InvalidFormat(String),
    /// The dataset JSON could not be parsed.
    JsonError(String),
    /// Sky reconstruction failed.
    ReconstructionError(String),
    /// Rendering the output failed.
    TemplateError(String),
}

} // verus!
