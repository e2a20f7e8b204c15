//! End-to-end tests of the imaging core under an exact-trigonometry math
//! strategy.

use gridlesslib::scalar::{Cpx, MathStrategy, Real, PI_OVER_2_BITS, TWO_PI_BITS, ZERO_BITS};

fn f(x: Real) -> f32 {
    f32::from_bits(x.bits)
}

fn r(x: f32) -> Real {
    Real { bits: x.to_bits() }
}

/// The exact math path: standard-library trigonometry and norms.
struct ExactMath;

impl MathStrategy for ExactMath {
    fn add_spec(a: Real, b: Real) -> Real {
        Self::add(a, b)
    }

    fn sub_spec(a: Real, b: Real) -> Real {
        Self::sub(a, b)
    }

    fn mul_spec(a: Real, b: Real) -> Real {
        Self::mul(a, b)
    }

    fn div_spec(a: Real, b: Real) -> Real {
        Self::div(a, b)
    }

    fn neg_spec(a: Real) -> Real {
        Self::neg(a)
    }

    fn abs_spec(a: Real) -> Real {
        Self::abs(a)
    }

    fn sqrt_spec(a: Real) -> Real {
        Self::sqrt(a)
    }

    fn recip_spec(a: Real) -> Real {
        Self::recip(a)
    }

    fn min_spec(a: Real, b: Real) -> Real {
        Self::min(a, b)
    }

    fn max_spec(a: Real, b: Real) -> Real {
        Self::max(a, b)
    }

    fn lt_spec(a: Real, b: Real) -> bool {
        Self::lt(a, b)
    }

    fn from_count_spec(n: usize) -> Real {
        Self::from_count(n)
    }

    fn narrow_spec(wide_bits: u64) -> Real {
        Self::narrow(wide_bits)
    }

    fn sin_spec(x: Real) -> Real {
        Self::sin_cos(x).0
    }

    fn cos_spec(x: Real) -> Real {
        Self::sin_cos(x).1
    }

    fn magnitude_spec(z: Cpx) -> Real {
        Self::magnitude(z)
    }

    fn add(a: Real, b: Real) -> Real {
        r(f(a) + f(b))
    }

    fn sub(a: Real, b: Real) -> Real {
        r(f(a) - f(b))
    }

    fn mul(a: Real, b: Real) -> Real {
        r(f(a) * f(b))
    }

    fn div(a: Real, b: Real) -> Real {
        r(f(a) / f(b))
    }

    fn neg(a: Real) -> Real {
        r(-f(a))
    }

    fn abs(a: Real) -> Real {
        r(f(a).abs())
    }

    fn sqrt(a: Real) -> Real {
        r(f(a).sqrt())
    }

    fn recip(a: Real) -> Real {
        r(f(a).recip())
    }

    fn min(a: Real, b: Real) -> Real {
        r(f(a).min(f(b)))
    }

    fn max(a: Real, b: Real) -> Real {
        r(f(a).max(f(b)))
    }

    fn lt(a: Real, b: Real) -> bool {
        f(a) < f(b)
    }

    fn from_count(n: usize) -> Real {
        r(n as f32)
    }

    fn narrow(wide_bits: u64) -> Real {
        r(f64::from_bits(wide_bits) as f32)
    }

    fn sin_cos(x: Real) -> (Real, Real) {
        let (s, c) = f(x).sin_cos();
        (r(s), r(c))
    }

    fn magnitude(z: Cpx) -> Real {
        let re = f(z.re);
        let im = f(z.im);
        let norm_sqr = re * re + im * im;
        if norm_sqr == 0.0 { r(0.0) } else { r(norm_sqr.sqrt()) }
    }
}

#[test]
fn test_scalar_constants_match_ieee() {
    assert_eq!(PI_OVER_2_BITS, std::f32::consts::FRAC_PI_2.to_bits());
    assert_eq!(TWO_PI_BITS, (2.0 * std::f32::consts::PI).to_bits());
    assert_eq!(ZERO_BITS, 0.0f32.to_bits());
    assert_eq!(
        gridlesslib::scalar::L1_WAVELENGTH_BITS,
        (2.99793e8f32 / 1.57542e9f32).to_bits()
    );
    assert_eq!(
        gridlesslib::scalar::NEG_TWO_PI_BITS,
        (-2.0 * std::f32::consts::PI).to_bits()
    );
    assert_eq!(gridlesslib::scalar::ONE_BITS, 1.0f32.to_bits());
}

#[test]
fn test_hemisphere_creation() {
    let sph = gridlesslib::sphere::Hemisphere::new::<ExactMath>(8);
    assert_eq!(sph.nside, 8);
    assert!(sph.npix > 0);
}

#[test]
fn test_small_hemisphere() {
    let nside = 4;
    let result = gridlesslib::sphere::Hemisphere::new::<ExactMath>(nside);

    assert_eq!(result.nside, nside);
    assert!(result.npix > 0);

    // For small nside, should still have a reasonable number of visible pixels
    assert!(result.npix >= 1);
}

#[test]
fn test_large_hemisphere() {
    let nside = 32;
    let result = gridlesslib::sphere::Hemisphere::new::<ExactMath>(nside);

    assert_eq!(result.nside, nside);
    assert!(result.npix > 0);

    // For larger nside, should have many more pixels
    assert!(result.npix > 100);
}

#[test]
fn test_visible_pixel_count_formula() {
    for nside in [1u32, 2, 4, 8, 16] {
        let h = gridlesslib::sphere::Hemisphere::new::<ExactMath>(nside);
        let n = nside as usize;
        assert_eq!(h.npix, 6 * n * n - 2 * n);
        assert_eq!(h.visible_indices.len(), h.npix);
        for (k, &pix) in h.visible_indices.iter().enumerate() {
            assert_eq!(pix, k as u64);
        }
    }
}

#[test]
fn test_elevation_range() {
    let nside = 16;
    let result = gridlesslib::sphere::Hemisphere::new::<ExactMath>(nside);

    // All elevations should be positive (above horizon)
    for elaz in &result.elaz {
        assert!(f(elaz.el) >= 0.0, "Elevation should be above horizon");
        assert!(
            f(elaz.el) <= f32::from_bits(PI_OVER_2_BITS),
            "Elevation should be at most zenith"
        );
    }
}

#[test]
fn test_unit_direction_cosines() {
    for nside in [4u32, 8] {
        let h = gridlesslib::sphere::Hemisphere::new::<ExactMath>(nside);
        assert!(h.npix > 0);
        for p in 0..h.npix {
            let l = f(h.l[p]);
            let m = f(h.m[p]);
            let n = f(h.n[p]);
            let norm = l * l + m * m + n * n;
            assert!((norm - 1.0).abs() < 1e-3, "unit norm violated at pixel {}: {}", p, norm);
        }
    }
}

#[test]
fn test_horizon_elevation() {
    let hp = gridlesslib::sphere::HpAngle::from_elaz::<ExactMath>(r(0.0), r(0.0));
    assert_eq!(f(hp.theta), f32::from_bits(PI_OVER_2_BITS));

    let elaz = gridlesslib::sphere::ElAz::from_hp::<ExactMath>(&hp);
    assert_eq!(f(elaz.el), 0.0);
}

#[test]
fn test_zenith_angle_roundtrip() {
    let hp = gridlesslib::sphere::HpAngle::from_elaz::<ExactMath>(
        Real { bits: PI_OVER_2_BITS },
        r(0.0),
    );
    assert_eq!(f(hp.theta), 0.0);

    let lmn = gridlesslib::sphere::ElAz::new(Real { bits: PI_OVER_2_BITS }, r(0.0))
        .to_lmn::<ExactMath>();
    assert!((f(lmn.2) - 1.0).abs() < 1e-6);
}

#[test]
fn test_from_pix_known_center() {
    // At nside 1 the first ring-scheme pixel is centred at longitude pi/4,
    // latitude asin(2/3).
    let ll = gridlesslib::sphere::LonLat::from_pix::<ExactMath>(1, 0);
    assert!((f(ll.lon) - std::f32::consts::FRAC_PI_4).abs() < 1e-6);
    assert!((f(ll.lat) - (2.0f32 / 3.0).asin()).abs() < 1e-6);
}

#[test]
fn test_proj_known_directions() {
    // The zenith projects to the origin.
    let zenith = gridlesslib::sphere::HpAngle::new(r(0.0), r(0.0));
    let (x, y) = zenith.proj::<ExactMath>();
    assert_eq!(f(x), 0.0);
    assert_eq!(f(y).abs(), 0.0);

    // A horizon direction at phi = 0 projects to (0, -1).
    let horizon = gridlesslib::sphere::HpAngle::new(Real { bits: PI_OVER_2_BITS }, r(0.0));
    let (hx, hy) = horizon.proj::<ExactMath>();
    assert!(f(hx).abs() < 1e-6);
    assert!((f(hy) + 1.0).abs() < 1e-6);
}

#[test]
fn test_empty_baselines() {
    let baselines = vec![];
    let x = vec![r(0.0)];
    let y = vec![r(0.0)];
    let z = vec![r(0.0)];

    let (u, v, w) = gridlesslib::img::get_uvw::<ExactMath>(&baselines, &x, &y, &z);

    assert_eq!(u.len(), 0);
    assert_eq!(v.len(), 0);
    assert_eq!(w.len(), 0);
}

#[test]
fn test_single_baseline_uvw() {
    let baselines = vec![(0, 1)];
    let x = vec![r(0.0), r(1.0)];
    let y = vec![r(0.0), r(1.0)];
    let z = vec![r(0.0), r(1.0)];

    let (u, v, w) = gridlesslib::img::get_uvw::<ExactMath>(&baselines, &x, &y, &z);

    assert_eq!(u.len(), 1);
    assert_eq!(v.len(), 1);
    assert_eq!(w.len(), 1);

    // With coordinates (0,0,0) and (1,1,1), the separations x_i - x_j are
    // (-1, -1, -1), divided by the reference wavelength.
    let expected = -1.0 / f32::from_bits(gridlesslib::scalar::L1_WAVELENGTH_BITS);
    assert!((f(u[0]) - expected).abs() < 1e-6);
    assert!((f(v[0]) - expected).abs() < 1e-6);
    assert!((f(w[0]) - expected).abs() < 1e-6);
}

#[test]
fn test_uvw_same_position_is_zero() {
    // Two antennas at the same position give the (0, 0, 0) baseline.
    let baselines = vec![(0, 1)];
    let x = vec![r(2.5), r(2.5)];
    let y = vec![r(-3.75), r(-3.75)];
    let z = vec![r(0.125), r(0.125)];

    let (u, v, w) = gridlesslib::img::get_uvw::<ExactMath>(&baselines, &x, &y, &z);

    assert_eq!(f(u[0]), 0.0);
    assert_eq!(f(v[0]), 0.0);
    assert_eq!(f(w[0]), 0.0);
}

#[test]
fn test_empty_input() {
    let baselines = vec![];
    let vis_arr = vec![];
    let gains = gridlesslib::tart_api::Gains { gain: vec![r(1.0)], phase_offset: vec![r(0.0)] };

    let result =
        gridlesslib::tart_obs::apply_gains_optimized::<ExactMath>(&baselines, &vis_arr, &gains);
    assert_eq!(result.len(), 0);
}

#[test]
fn tart_obs_simd_test_single_baseline() {
    let baselines = vec![(0, 1)];
    let vis_arr = vec![Cpx { re: r(1.0), im: r(0.0) }];
    let gains = gridlesslib::tart_api::Gains {
        gain: vec![r(1.0), r(1.0)],
        phase_offset: vec![r(0.0), r(0.0)],
    };

    let result =
        gridlesslib::tart_obs::apply_gains_optimized::<ExactMath>(&baselines, &vis_arr, &gains);
    assert_eq!(result.len(), 1);

    // With unit gains and zero phase, result should be close to input
    assert!((f(result[0].re) - 1.0).abs() < 1e-6);
    assert!((f(result[0].im) - 0.0).abs() < 1e-6);
}

#[test]
fn test_calibration_identity() {
    // All gains 1.0 and all phase offsets 0.0 leave every sample unchanged.
    let baselines = vec![(0, 1), (1, 2), (0, 2)];
    let vis_arr = vec![
        Cpx { re: r(0.5), im: r(-0.25) },
        Cpx { re: r(-3.0), im: r(7.5) },
        Cpx { re: r(0.125), im: r(1e-3) },
    ];
    let gains = gridlesslib::tart_api::Gains {
        gain: vec![r(1.0), r(1.0), r(1.0)],
        phase_offset: vec![r(0.0), r(0.0), r(0.0)],
    };

    let result =
        gridlesslib::tart_obs::apply_gains_optimized::<ExactMath>(&baselines, &vis_arr, &gains);
    assert_eq!(result.len(), vis_arr.len());
    for (out, inp) in result.iter().zip(vis_arr.iter()) {
        assert_eq!(f(out.re), f(inp.re));
        assert_eq!(f(out.im), f(inp.im));
    }
}

#[test]
fn test_calibration_scales_by_gains() {
    // Gains 2 and 3 on the two antennas scale the sample by 6.
    let baselines = vec![(0, 1)];
    let vis_arr = vec![Cpx { re: r(1.0), im: r(-2.0) }];
    let gains = gridlesslib::tart_api::Gains {
        gain: vec![r(2.0), r(3.0)],
        phase_offset: vec![r(0.0), r(0.0)],
    };

    let result =
        gridlesslib::tart_obs::apply_gains_optimized::<ExactMath>(&baselines, &vis_arr, &gains);
    assert!((f(result[0].re) - 6.0).abs() < 1e-5);
    assert!((f(result[0].im) + 12.0).abs() < 1e-5);
}

#[test]
fn test_observation_new_collects_fields() {
    let cal = gridlesslib::tart_api::Gains {
        gain: vec![r(1.0), r(1.0)],
        phase_offset: vec![r(0.0), r(0.0)],
    };
    let vis = gridlesslib::tart_api::VisData {
        data: vec![gridlesslib::tart_api::VisEntry { i: 0, j: 1, re: r(0.5), im: r(0.25) }],
        timestamp: "2019-08-10T12:34:56+00:00".to_string(),
    };
    let info = gridlesslib::tart_api::TARTinfo { info: gridlesslib::tart_api::TARTdetail {} };
    let positions = vec![
        gridlesslib::tart_api::AntPosition { x: r(0.0), y: r(0.0), z: r(0.0) },
        gridlesslib::tart_api::AntPosition { x: r(1.0), y: r(2.0), z: r(3.0) },
    ];

    let obs = gridlesslib::tart_obs::Observation::new::<ExactMath>(&cal, &vis, &info, &positions);
    assert_eq!(obs.timestamp, "2019-08-10T12:34:56+00:00");
    assert_eq!(obs.baselines, vec![(0, 1)]);
    assert_eq!(f(obs.ant_x[1]), 1.0);
    assert_eq!(f(obs.ant_y[1]), 2.0);
    assert_eq!(f(obs.ant_z[1]), 3.0);
    assert!((f(obs.vis_arr[0].re) - 0.5).abs() < 1e-6);
    assert!((f(obs.vis_arr[0].im) - 0.25).abs() < 1e-6);
}

#[test]
fn test_reconstruct_single_zero_baseline_uniform() {
    // One baseline at (0, 0, 0) with visibility 1 + 0i: the phase is zero at
    // every pixel, so the image is uniform at 1 / sqrt(pixel count).
    let mut sky = gridlesslib::sphere::Hemisphere::new::<ExactMath>(8);
    let vis = vec![Cpx { re: r(1.0), im: r(0.0) }];
    let u = vec![r(0.0)];
    let v = vec![r(0.0)];
    let w = vec![r(0.0)];

    let outcome =
        gridlesslib::gridless::reconstruct_sky_image::<ExactMath>(&vis, &u, &v, &w, &mut sky, true);
    assert!(outcome.is_ok());

    let expected = (sky.npix as f32).sqrt().recip();
    assert_eq!(sky.visible_pix.len(), sky.npix);
    for p in 0..sky.npix {
        assert_eq!(f(sky.visible_pix[p]), expected, "pixel {} not uniform", p);
    }
}

#[test]
fn test_reconstruct_magnitude_path() {
    // Magnitude reduction of a purely imaginary visibility on the zero
    // baseline: |0 + i| = 1, so again uniform 1 / sqrt(pixel count).
    let mut sky = gridlesslib::sphere::Hemisphere::new::<ExactMath>(4);
    let vis = vec![Cpx { re: r(0.0), im: r(1.0) }];
    let u = vec![r(0.0)];
    let v = vec![r(0.0)];
    let w = vec![r(0.0)];

    let outcome = gridlesslib::gridless::reconstruct_sky_image::<ExactMath>(
        &vis, &u, &v, &w, &mut sky, false,
    );
    assert!(outcome.is_ok());

    let expected = (sky.npix as f32).sqrt().recip();
    for p in 0..sky.npix {
        assert!((f(sky.visible_pix[p]) - expected).abs() < 1e-6);
    }
}

#[test]
fn test_reconstruct_dimension_mismatch() {
    let mut sky = gridlesslib::sphere::Hemisphere::new::<ExactMath>(4);
    for p in 0..sky.npix {
        sky.visible_pix[p] = r(42.0);
    }
    let before: Vec<u32> = sky.visible_pix.iter().map(|x| x.bits).collect();

    let vis = vec![Cpx { re: r(1.0), im: r(0.0) }];
    let u = vec![r(0.0), r(1.0)];
    let v = vec![r(0.0)];
    let w = vec![r(0.0)];

    let outcome =
        gridlesslib::gridless::reconstruct_sky_image::<ExactMath>(&vis, &u, &v, &w, &mut sky, true);
    assert_eq!(outcome, Err(gridlesslib::gridless::GridlessError::DimensionMismatch));

    // The brightness array is left exactly as it was.
    let after: Vec<u32> = sky.visible_pix.iter().map(|x| x.bits).collect();
    assert_eq!(before, after);
}

#[test]
fn test_reconstruct_empty_sky() {
    // nside 0 yields a hemisphere with no visible pixels.
    let mut sky = gridlesslib::sphere::Hemisphere::new::<ExactMath>(0);
    assert_eq!(sky.npix, 0);

    let vis = vec![Cpx { re: r(1.0), im: r(0.0) }];
    let u = vec![r(0.0)];
    let v = vec![r(0.0)];
    let w = vec![r(0.0)];

    let outcome =
        gridlesslib::gridless::reconstruct_sky_image::<ExactMath>(&vis, &u, &v, &w, &mut sky, true);
    assert_eq!(outcome, Err(gridlesslib::gridless::GridlessError::EmptySky));
}

#[test]
fn test_error_messages() {
    assert_eq!(
        gridlesslib::gridless::GridlessError::DimensionMismatch.message(),
        "Visibility and coordinate arrays must have same length"
    );
    assert_eq!(
        gridlesslib::gridless::GridlessError::EmptySky.message(),
        "Sky hemisphere has no visible pixels"
    );
}

#[test]
fn test_four_antenna_scenario() {
    // Four antennas on a unit square, four pairwise baselines with
    // unit-magnitude zero-phase visibilities, nside 4, real-part reduction:
    // every brightness value is finite and the array has the tessellation's
    // visible-pixel count.
    let x = vec![r(0.0), r(1.0), r(0.0), r(1.0)];
    let y = vec![r(0.0), r(0.0), r(1.0), r(1.0)];
    let z = vec![r(0.0), r(0.0), r(0.0), r(0.0)];
    let baselines = vec![(0, 1), (1, 2), (2, 3), (0, 3)];

    let (u, v, w) = gridlesslib::img::get_uvw::<ExactMath>(&baselines, &x, &y, &z);
    let vis = vec![Cpx { re: r(1.0), im: r(0.0) }; 4];

    let mut sky = gridlesslib::sphere::Hemisphere::new::<ExactMath>(4);
    let outcome =
        gridlesslib::gridless::reconstruct_sky_image::<ExactMath>(&vis, &u, &v, &w, &mut sky, true);
    assert!(outcome.is_ok());

    let reference = gridlesslib::sphere::Hemisphere::new::<ExactMath>(4);
    assert_eq!(sky.visible_pix.len(), reference.npix);
    for p in 0..sky.npix {
        assert!(f(sky.visible_pix[p]).is_finite(), "pixel {} not finite", p);
    }
}

#[test]
fn test_compute_fourier_harmonics_shape() {
    let sky = gridlesslib::sphere::Hemisphere::new::<ExactMath>(2);
    let u = vec![r(0.5), r(-0.5)];
    let v = vec![r(0.25), r(0.0)];
    let w = vec![r(0.0), r(0.125)];

    let harmonics =
        gridlesslib::gridless::compute_fourier_harmonics::<ExactMath>(&sky, &u, &v, &w);
    assert_eq!(harmonics.len(), 2);
    for baseline in &harmonics {
        assert_eq!(baseline.len(), sky.npix);
        for h in baseline.iter() {
            // Harmonics are unit-magnitude complex values.
            let norm = f(h.re) * f(h.re) + f(h.im) * f(h.im);
            assert!((norm - 1.0).abs() < 1e-5);
        }
    }
}

#[test]
fn test_make_sky_image_pipeline() {
    let mut cache = gridlesslib::cache::HemisphereCache::empty();
    let vis = vec![Cpx { re: r(1.0), im: r(0.0) }];
    let u = vec![r(0.0)];
    let v = vec![r(0.0)];
    let w = vec![r(0.0)];

    let out = gridlesslib::make_sky_image::<ExactMath>(&vis, &u, &v, &w, 8, &mut cache);
    let sky = out.expect("pipeline should succeed");
    assert_eq!(sky.nside, 8);
    assert_eq!(sky.visible_pix.len(), sky.npix);

    // Magnitude reduction of the zero baseline: uniform image.
    let expected = (sky.npix as f32).sqrt().recip();
    for p in 0..sky.npix {
        assert!((f(sky.visible_pix[p]) - expected).abs() < 1e-6);
    }

    // A second request for the same nside is served from the cache.
    assert_eq!(gridlesslib::cache::get_cache_info(&cache), Some(8));
}

#[test]
fn test_cache_miss_then_hit() {
    let mut cache = gridlesslib::cache::HemisphereCache::empty();
    gridlesslib::cache::clear_hemisphere_cache(&mut cache);

    // First call should be cache miss
    let hemisphere1 = gridlesslib::cache::get_or_create_hemisphere::<ExactMath>(&mut cache, 8);
    assert_eq!(hemisphere1.nside, 8);

    // Second call with same nside should be cache hit
    let hemisphere2 = gridlesslib::cache::get_or_create_hemisphere::<ExactMath>(&mut cache, 8);
    assert_eq!(hemisphere2.nside, 8);

    // Should have same structure
    assert_eq!(hemisphere1.npix, hemisphere2.npix);
    assert_eq!(hemisphere1.visible_indices.len(), hemisphere2.visible_indices.len());
}

#[test]
fn test_cache_eviction() {
    let mut cache = gridlesslib::cache::HemisphereCache::empty();
    gridlesslib::cache::clear_hemisphere_cache(&mut cache);

    // Cache hemisphere with nside=8
    let _hemisphere1 = gridlesslib::cache::get_or_create_hemisphere::<ExactMath>(&mut cache, 8);
    assert_eq!(gridlesslib::cache::get_cache_info(&cache), Some(8));

    // Request different nside should evict cache
    let hemisphere2 = gridlesslib::cache::get_or_create_hemisphere::<ExactMath>(&mut cache, 16);
    assert_eq!(hemisphere2.nside, 16);
    assert_eq!(gridlesslib::cache::get_cache_info(&cache), Some(16));

    // Original nside should now be cache miss
    let hemisphere3 = gridlesslib::cache::get_or_create_hemisphere::<ExactMath>(&mut cache, 8);
    assert_eq!(hemisphere3.nside, 8);
    assert_eq!(gridlesslib::cache::get_cache_info(&cache), Some(8));
}

#[test]
fn test_cache_clear() {
    let mut cache = gridlesslib::cache::HemisphereCache::empty();

    // Put something in cache
    let _hemisphere = gridlesslib::cache::get_or_create_hemisphere::<ExactMath>(&mut cache, 8);
    assert_eq!(gridlesslib::cache::get_cache_info(&cache), Some(8));

    // Clear cache
    gridlesslib::cache::clear_hemisphere_cache(&mut cache);
    assert_eq!(gridlesslib::cache::get_cache_info(&cache), None);
}

#[test]
fn test_different_nside_values() {
    let mut cache = gridlesslib::cache::HemisphereCache::empty();
    gridlesslib::cache::clear_hemisphere_cache(&mut cache);

    let nside_values = [4, 8, 16, 32];

    for &nside in &nside_values {
        let hemisphere =
            gridlesslib::cache::get_or_create_hemisphere::<ExactMath>(&mut cache, nside);
        assert_eq!(hemisphere.nside, nside);
        assert!(hemisphere.npix > 0);

        // Cache should contain this nside
        assert_eq!(gridlesslib::cache::get_cache_info(&cache), Some(nside));
    }
}

#[test]
fn test_hemisphere_properties_consistency() {
    let mut cache = gridlesslib::cache::HemisphereCache::empty();
    gridlesslib::cache::clear_hemisphere_cache(&mut cache);

    let hemisphere1 = gridlesslib::cache::get_or_create_hemisphere::<ExactMath>(&mut cache, 8);
    let hemisphere2 = gridlesslib::cache::get_or_create_hemisphere::<ExactMath>(&mut cache, 8);

    // Should have identical properties
    assert_eq!(hemisphere1.nside, hemisphere2.nside);
    assert_eq!(hemisphere1.npix, hemisphere2.npix);
    assert_eq!(hemisphere1.visible_indices, hemisphere2.visible_indices);
    assert_eq!(hemisphere1.l.len(), hemisphere2.l.len());
    assert_eq!(hemisphere1.m.len(), hemisphere2.m.len());
    assert_eq!(hemisphere1.n.len(), hemisphere2.n.len());
}

#[test]
fn test_cache_copies_are_independent() {
    // Two hemispheres for the same nside have identical geometry but
    // independently mutable brightness arrays.
    let mut cache = gridlesslib::cache::HemisphereCache::empty();
    let mut hemisphere1 = gridlesslib::cache::get_or_create_hemisphere::<ExactMath>(&mut cache, 8);
    let hemisphere2 = gridlesslib::cache::get_or_create_hemisphere::<ExactMath>(&mut cache, 8);

    for p in 0..hemisphere1.npix {
        assert_eq!(hemisphere1.l[p], hemisphere2.l[p]);
        assert_eq!(hemisphere1.m[p], hemisphere2.m[p]);
        assert_eq!(hemisphere1.n[p], hemisphere2.n[p]);
        assert_eq!(hemisphere1.visible_indices[p], hemisphere2.visible_indices[p]);
    }

    for p in 0..hemisphere1.npix {
        hemisphere1.visible_pix[p] = r(99.0);
    }
    for p in 0..hemisphere2.npix {
        assert_eq!(f(hemisphere2.visible_pix[p]), 0.0);
    }
}

#[test]
fn test_mean_known_values() {
    let data = vec![r(1.0), r(2.0), r(3.0)];
    let m = gridlesslib::utils::mean::<ExactMath>(&data).expect("non-empty");
    assert_eq!(f(m), 2.0);

    assert!(gridlesslib::utils::mean::<ExactMath>(&vec![]).is_none());
}

#[test]
fn test_median_known_values() {
    let odd = vec![r(3.0), r(1.0), r(2.0)];
    let m = gridlesslib::utils::median::<ExactMath>(&odd).expect("non-empty");
    assert_eq!(f(m), 2.0);

    let even = vec![r(4.0), r(1.0), r(3.0), r(2.0)];
    let m2 = gridlesslib::utils::median::<ExactMath>(&even).expect("non-empty");
    assert_eq!(f(m2), 2.5);

    assert!(gridlesslib::utils::median::<ExactMath>(&vec![]).is_none());
}

#[test]
fn test_statistics_known_values() {
    let mut h = gridlesslib::sphere::Hemisphere::new::<ExactMath>(1);
    assert_eq!(h.npix, 4);
    h.visible_pix = vec![r(1.0), r(2.0), r(3.0), r(4.0)];

    let (min_p, max_p, mean_p, sdev_p, mad_p, med) =
        h.calculate_statistics_optimized::<ExactMath>();
    assert_eq!(f(min_p), 1.0);
    assert_eq!(f(max_p), 4.0);
    assert_eq!(f(mean_p), 2.5);
    assert!((f(sdev_p) - 1.25f32.sqrt()).abs() < 1e-6);
    assert_eq!(f(med), 2.5);
    assert_eq!(f(mad_p), 1.0);
}

#[test]
fn test_binary_roundtrip_preserves_geometry() {
    let mut original = gridlesslib::sphere::Hemisphere::new::<ExactMath>(4);
    for p in 0..original.npix {
        original.visible_pix[p] = r(7.0);
    }

    let cloned = original.clone_via_binary().expect("round trip succeeds");
    assert_eq!(cloned.nside, original.nside);
    assert_eq!(cloned.npix, original.npix);
    assert_eq!(cloned.visible_indices, original.visible_indices);
    for p in 0..original.npix {
        assert_eq!(cloned.l[p], original.l[p]);
        assert_eq!(cloned.m[p], original.m[p]);
        assert_eq!(cloned.n[p], original.n[p]);
        assert_eq!(cloned.elaz[p], original.elaz[p]);
        // The brightness array is intentionally not preserved: it is re-zeroed.
        assert_eq!(f(cloned.visible_pix[p]), 0.0);
    }
}
