//! Plain data model of a telescope dataset: per-antenna calibration
//! coefficients, visibility samples, antenna positions and known sources.
//!
//! These types carry the values the imaging core works on.  Reading them
//! from JSON files or from the telescope API is I/O and lives outside this
//! crate; the adapters hand the parsed values over in these types.

use vstd::prelude::*;
use crate::scalar::Real;

verus! {

/// Per-antenna calibration coefficients: a real gain and a real phase
/// offset for each antenna, indexed like the antenna position array.
#[derive(Debug, Clone)]
pub struct Gains {
    pub gain: Vec<Real>,
    pub phase_offset: Vec<Real>,
}

/// One raw visibility sample: the complex correlation `re + i im` measured
/// on the baseline between antennas `i` and `j`.
#[derive(Clone, Copy, PartialEq, Eq, Structural, Debug)]
pub struct VisEntry {
    pub i: u32,
    pub j: u32,
    pub im: Real,
    pub re: Real,
}

/// The visibility samples of one observation, with its timestamp (an
/// ISO-8601 string, shared by every sample and propagated unchanged).
#[derive(Debug, Clone)]
pub struct VisData {
    pub data: Vec<VisEntry>,
    pub timestamp: String,
}

/// Telescope detail record.
#[derive(Debug, Clone)]
pub struct TARTdetail {}

/// Telescope information record.
#[derive(Debug, Clone)]
pub struct TARTinfo {
    pub info: TARTdetail,
}

/// Telescope site location record.
#[derive(Debug, Clone)]
pub struct Location {}

/// A 3-D antenna position in metres.
#[derive(Clone, Copy, PartialEq, Eq, Structural, Debug)]
pub struct AntPosition {
    pub x: Real,
    pub y: Real,
    pub z: Real,
}

/// A known celestial source: azimuth and elevation in degrees, flux in
/// jansky, name, and range in metres.  Used only by the rendering layer.
#[derive(Debug, Clone)]
pub struct Source {
    pub az: Real,
    pub el: Real,
    pub jy: Real,
    pub name: String,
    pub r: Real,
}

/// Visibility samples of one observation together with the known sources.
#[derive(Debug, Clone)]
pub struct VisSource {
    pub data: VisData,
    pub sources: Vec<Source>,
}

/// A complete parsed dataset: telescope info, antenna positions, antenna
/// calibration and the observations with their sources.
#[derive(Debug, Clone)]
pub struct FullDataset {
    pub info: TARTinfo,
    pub ant_pos: Vec<AntPosition>,
    pub gains: Gains,
    pub data: Vec<VisSource>,
}

} // verus!
