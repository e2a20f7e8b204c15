//! Antenna calibration and the assembled observation.
//!
//! Calibration converts each raw visibility sample on baseline `(i, j)`
//! into `vis * gain_i * gain_j * exp(-i (phase_i - phase_j))`, with the
//! unit rotation's sine and cosine taken from the chosen math strategy.
//! An [`Observation`] is the read-only aggregate handed to imaging:
//! calibrated visibilities, antenna positions, baseline list and the
//! observation timestamp.

use vstd::prelude::*;
use crate::scalar::{MathStrategy, Real, Cpx, cmul_spec, cscale_spec, cmul, cscale};
use crate::tart_api::{AntPosition, FullDataset, Gains, Source, TARTinfo, VisData};

verus! {

/// A read-only observation: calibrated visibility array, antenna position
/// arrays, baseline list and the observation timestamp.  Built once per
/// input dataset and never mutated afterwards.
#[derive(Debug, Clone)]
pub struct Observation {
    /// ISO-8601 timestamp of the observation, propagated unchanged.
    pub timestamp: String,
    /// Calibrated complex visibility of each baseline.
    pub vis_arr: Vec<Cpx>,
    /// Antenna x coordinates.
    pub ant_x: Vec<Real>,
    /// Antenna y coordinates.
    pub ant_y: Vec<Real>,
    /// Antenna z coordinates.
    pub ant_z: Vec<Real>,
    /// Antenna index pair of each visibility.
    pub baselines: Vec<(u32, u32)>,
}

/// The gain/phase-corrected value of one visibility sample on baseline
/// `(i, j)`: `vis * gain_i * gain_j * (cos d, sin d)` with
/// `d = -(phase_i - phase_j)`.
pub open spec fn calibrated_vis_spec<S: MathStrategy>(
    vis: Cpx,
    gain_i: Real,
    gain_j: Real,
    phase_i: Real,
    phase_j: Real,
) -> Cpx {
    let d = S::neg_spec(S::sub_spec(phase_i, phase_j));
    let rotation = Cpx { re: S::cos_spec(d), im: S::sin_spec(d) };
    cmul_spec::<S>(cscale_spec::<S>(cscale_spec::<S>(vis, gain_i), gain_j), rotation)
}

/// Both antenna indices of every baseline are valid indices into the gain
/// and phase-offset arrays.
pub open spec fn baselines_match_gains(baselines: Seq<(u32, u32)>, cal: Gains) -> bool {
    forall|k: int|
        0 <= k < baselines.len() ==> baselines[k].0 < cal.gain.len() && baselines[k].1
            < cal.gain.len() && baselines[k].0 < cal.phase_offset.len() && baselines[k].1
            < cal.phase_offset.len()
}

/// Applies antenna gain and phase calibration to every visibility sample.
/// A pure elementwise map: sample `k` on baseline `(i, j)` becomes
/// `vis_k * gain_i * gain_j * exp(-i (phase_i - phase_j))`.
pub fn apply_gains_optimized<S: MathStrategy>(
    baselines: &Vec<(u32, u32)>,
    vis_arr: &Vec<Cpx>,
    cal: &Gains,
) -> (r: Vec<Cpx>)
    requires
        vis_arr.len() == baselines.len(),
        baselines_match_gains(baselines@, *cal),
    ensures
        r.len() == baselines.len(),
        forall|k: int|
            0 <= k < baselines.len() ==> r@[k] == calibrated_vis_spec::<S>(
                vis_arr@[k],
                cal.gain@[baselines@[k].0 as int],
                cal.gain@[baselines@[k].1 as int],
                cal.phase_offset@[baselines@[k].0 as int],
                cal.phase_offset@[baselines@[k].1 as int],
            ),
{
    let mut cal_vis: Vec<Cpx> = Vec::new();

    let mut k: usize = 0;
    while k < baselines.len()
        invariant
            vis_arr.len() == baselines.len(),
            baselines_match_gains(baselines@, *cal),
            k <= baselines.len(),
            cal_vis.len() == k,
            forall|j: int|
                0 <= j < k ==> cal_vis@[j] == calibrated_vis_spec::<S>(
                    vis_arr@[j],
                    cal.gain@[baselines@[j].0 as int],
                    cal.gain@[baselines@[j].1 as int],
                    cal.phase_offset@[baselines@[j].0 as int],
                    cal.phase_offset@[baselines@[j].1 as int],
                ),
        decreases baselines.len() - k,
    {
        let i = baselines[k].0 as usize;
        let j = baselines[k].1 as usize;

        let d = S::neg(S::sub(cal.phase_offset[i], cal.phase_offset[j]));
        let (sin_d, cos_d) = S::sin_cos(d);
        let rotation = Cpx { re: cos_d, im: sin_d };
        let v = cmul::<S>(
            cscale::<S>(cscale::<S>(vis_arr[k], cal.gain[i]), cal.gain[j]),
            rotation,
        );

        cal_vis.push(v);
        k = k + 1;
    }

    cal_vis
}

/// Applies antenna gain and phase calibration; a shorter name for
/// [`apply_gains_optimized`].
pub fn apply_gains<S: MathStrategy>(
    baselines: &Vec<(u32, u32)>,
    vis_arr: &Vec<Cpx>,
    cal: &Gains,
) -> (r: Vec<Cpx>)
    requires
        vis_arr.len() == baselines.len(),
        baselines_match_gains(baselines@, *cal),
    ensures
        r.len() == baselines.len(),
        forall|k: int|
            0 <= k < baselines.len() ==> r@[k] == calibrated_vis_spec::<S>(
                vis_arr@[k],
                cal.gain@[baselines@[k].0 as int],
                cal.gain@[baselines@[k].1 as int],
                cal.phase_offset@[baselines@[k].0 as int],
                cal.phase_offset@[baselines@[k].1 as int],
            ),
{
    apply_gains_optimized::<S>(baselines, vis_arr, cal)
}

/// Every visibility entry's antenna indices are valid indices into the gain
/// and phase-offset arrays.
pub open spec fn entries_match_gains(entries: Seq<crate::tart_api::VisEntry>, cal: Gains) -> bool {
    forall|k: int|
        0 <= k < entries.len() ==> entries[k].i < cal.gain.len() && entries[k].j < cal.gain.len()
            && entries[k].i < cal.phase_offset.len() && entries[k].j < cal.phase_offset.len()
}

impl Observation {
    /// Assembles an observation from calibration data, visibility samples
    /// and antenna positions: collects the positions and baseline pairs,
    /// applies gain/phase calibration to every sample, and keeps the
    /// timestamp unchanged.
    pub fn new<S: MathStrategy>(
        cal_data: &Gains,
        vis: &VisData,
        _info: &TARTinfo,
        ant_positions: &Vec<AntPosition>,
    ) -> (r: Observation)
        requires
            entries_match_gains(vis.data@, *cal_data),
        ensures
            r.timestamp@ == vis.timestamp@,
            r.ant_x.len() == ant_positions.len(),
            r.ant_y.len() == ant_positions.len(),
            r.ant_z.len() == ant_positions.len(),
            forall|k: int| 0 <= k < ant_positions.len() ==> r.ant_x@[k] == ant_positions@[k].x,
            forall|k: int| 0 <= k < ant_positions.len() ==> r.ant_y@[k] == ant_positions@[k].y,
            forall|k: int| 0 <= k < ant_positions.len() ==> r.ant_z@[k] == ant_positions@[k].z,
            r.baselines.len() == vis.data.len(),
            forall|k: int|
                0 <= k < vis.data.len() ==> r.baselines@[k] == (vis.data@[k].i, vis.data@[k].j),
            r.vis_arr.len() == vis.data.len(),
            forall|k: int|
                0 <= k < vis.data.len() ==> r.vis_arr@[k] == calibrated_vis_spec::<S>(
                    (Cpx { re: vis.data@[k].re, im: vis.data@[k].im }),
                    cal_data.gain@[vis.data@[k].i as int],
                    cal_data.gain@[vis.data@[k].j as int],
                    cal_data.phase_offset@[vis.data@[k].i as int],
                    cal_data.phase_offset@[vis.data@[k].j as int],
                ),
    {
        let num_antenna = ant_positions.len();
        let num_vis = vis.data.len();

        let mut vis_vec: Vec<Cpx> = Vec::new();
        let mut baselines: Vec<(u32, u32)> = Vec::new();
        let mut ant_x: Vec<Real> = Vec::new();
        let mut ant_y: Vec<Real> = Vec::new();
        let mut ant_z: Vec<Real> = Vec::new();

        let mut a: usize = 0;
        while a < num_antenna
            invariant
                num_antenna == ant_positions.len(),
                a <= num_antenna,
                ant_x.len() == a,
                ant_y.len() == a,
                ant_z.len() == a,
                forall|k: int| 0 <= k < a ==> ant_x@[k] == ant_positions@[k].x,
                forall|k: int| 0 <= k < a ==> ant_y@[k] == ant_positions@[k].y,
                forall|k: int| 0 <= k < a ==> ant_z@[k] == ant_positions@[k].z,
            decreases num_antenna - a,
        {
            let position = &ant_positions[a];
            ant_x.push(position.x);
            ant_y.push(position.y);
            ant_z.push(position.z);
            a = a + 1;
        }

        let mut e: usize = 0;
        while e < num_vis
            invariant
                num_vis == vis.data.len(),
                e <= num_vis,
                vis_vec.len() == e,
                baselines.len() == e,
                forall|k: int|
                    0 <= k < e ==> vis_vec@[k] == (Cpx {
                        re: vis.data@[k].re,
                        im: vis.data@[k].im,
                    }),
                forall|k: int| 0 <= k < e ==> baselines@[k] == (vis.data@[k].i, vis.data@[k].j),
            decreases num_vis - e,
        {
            let v = &vis.data[e];
            vis_vec.push(Cpx { re: v.re, im: v.im });
            baselines.push((v.i, v.j));
            e = e + 1;
        }

        let cal_vis = apply_gains_optimized::<S>(&baselines, &vis_vec, cal_data);

        Observation {
            timestamp: vis.timestamp.clone(),
            ant_x,
            ant_y,
            ant_z,
            vis_arr: cal_vis,
            baselines,
        }
    }
}

/// The known sources of the first observation in the dataset.
pub fn get_sources(data: &FullDataset) -> (r: &Vec<Source>)
    requires
        data.data.len() >= 1,
    ensures
        r == &data.data@[0].sources,
{
    &data.data[0].sources
}

/// Assembles the observation of the first entry of a full dataset.
pub fn get_full<S: MathStrategy>(data: &FullDataset) -> (r: Observation)
    requires
        data.data.len() >= 1,
        entries_match_gains(data.data@[0].data.data@, data.gains),
    ensures
        r.timestamp@ == data.data@[0].data.timestamp@,
        r.baselines.len() == data.data@[0].data.data.len(),
        r.vis_arr.len() == data.data@[0].data.data.len(),
        r.ant_x.len() == data.ant_pos.len(),
        r.ant_y.len() == data.ant_pos.len(),
        r.ant_z.len() == data.ant_pos.len(),
        forall|k: int| 0 <= k < data.ant_pos.len() ==> r.ant_x@[k] == data.ant_pos@[k].x,
        forall|k: int| 0 <= k < data.ant_pos.len() ==> r.ant_y@[k] == data.ant_pos@[k].y,
        forall|k: int| 0 <= k < data.ant_pos.len() ==> r.ant_z@[k] == data.ant_pos@[k].z,
        forall|k: int|
            0 <= k < data.data@[0].data.data.len() ==> r.baselines@[k] == (
                data.data@[0].data.data@[k].i,
                data.data@[0].data.data@[k].j,
            ),
        forall|k: int|
            0 <= k < data.data@[0].data.data.len() ==> r.vis_arr@[k] == calibrated_vis_spec::<S>(
                (Cpx { re: data.data@[0].data.data@[k].re, im: data.data@[0].data.data@[k].im }),
                data.gains.gain@[data.data@[0].data.data@[k].i as int],
                data.gains.gain@[data.data@[0].data.data@[k].j as int],
                data.gains.phase_offset@[data.data@[0].data.data@[k].i as int],
                data.gains.phase_offset@[data.data@[0].data.data@[k].j as int],
            ),
{
    let cal_data = &data.gains;
    let vis = &data.data[0].data;
    let info = &data.info;
    let ant_positions = &data.ant_pos;

    Observation::new::<S>(cal_data, vis, info, ant_positions)
}

} // verus!
