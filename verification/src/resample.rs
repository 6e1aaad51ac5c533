//! Resampling rules understood by the warp engine.

use vstd::prelude::*;

verus! {

/// The interpolation rule used when source pixels are mapped onto
/// destination pixel centres.
#[derive(Clone, Copy, Debug, PartialEq, Eq, Structural)]
pub enum WarpResampleAlg {
    NearestNeighbour,
    Bilinear,
    Cubic,
    CubicSpline,
    Lanczos,
    Average,
    Mode,
    Max,
    Min,
    Med,
    Q1,
    Q3,
    Sum,
    Rms,
}

impl WarpResampleAlg {
    /// The engine's number for each rule. The engine leaves 7 unused.
    pub open spec fn ordinal(self) -> nat {
        match self {
            WarpResampleAlg::NearestNeighbour => 0,
            WarpResampleAlg::Bilinear => 1,
            WarpResampleAlg::Cubic => 2,
            WarpResampleAlg::CubicSpline => 3,
            WarpResampleAlg::Lanczos => 4,
            WarpResampleAlg::Average => 5,
            WarpResampleAlg::Mode => 6,
            WarpResampleAlg::Max => 8,
            WarpResampleAlg::Min => 9,
            WarpResampleAlg::Med => 10,
            WarpResampleAlg::Q1 => 11,
            WarpResampleAlg::Q3 => 12,
            WarpResampleAlg::Sum => 13,
            WarpResampleAlg::Rms => 14,
        }
    }

    /// The number under which the engine knows this rule.
    pub fn to_gdal(&self) -> (n: u32)
        ensures
            n == self.ordinal(),
    {
        match self {
            WarpResampleAlg::NearestNeighbour => 0,
            WarpResampleAlg::Bilinear => 1,
            WarpResampleAlg::Cubic => 2,
            WarpResampleAlg::CubicSpline => 3,
            WarpResampleAlg::Lanczos => 4,
            WarpResampleAlg::Average => 5,
            WarpResampleAlg::Mode => 6,
            WarpResampleAlg::Max => 8,
            WarpResampleAlg::Min => 9,
            WarpResampleAlg::Med => 10,
            WarpResampleAlg::Q1 => 11,
            WarpResampleAlg::Q3 => 12,
            WarpResampleAlg::Sum => 13,
            WarpResampleAlg::Rms => 14,
        }
    }
}

impl Default for WarpResampleAlg {
    /// Nearest neighbour, the engine's own default.
    fn default() -> (r: Self)
        ensures
            r == WarpResampleAlg::NearestNeighbour,
    {
        WarpResampleAlg::NearestNeighbour
    }
}

} // verus!
