//! The conversation between a reprojection job and the warp engine.
//!
//! A job never touches a dataset. It hands out one request at a time, and
//! whoever drives the engine hands back the reply to that request.

use vstd::prelude::*;
use crate::errors::GdalError;
use crate::resample::WarpResampleAlg;
use crate::spatial_ref::SpatialRef;
use crate::warp_options::GdalWarpOptions;

verus! {

/// The arguments of the engine's one-shot create-and-reproject call.
#[derive(Debug, PartialEq, Eq)]
pub struct WarpCall {
    /// Source projection as well-known text; `None` lets the engine read it
    /// from the source dataset.
    pub src_wkt: Option<String>,
    /// Path of the file to create.
    pub dst_file: String,
    /// Destination projection as well-known text.
    pub dst_wkt: String,
    /// Identifier of the driver that writes the file.
    pub driver: String,
    pub resampling_alg: WarpResampleAlg,
    /// Memory budget in bytes.
    pub memory_limit: usize,
    /// Error tolerance, as a binary64 bit pattern.
    pub max_error: u64,
    /// The configuration compiled for this call alone.
    pub warp_options: GdalWarpOptions,
}

/// The arguments of the engine's dataset-to-dataset reprojection call.
#[derive(Debug, PartialEq, Eq)]
pub struct ReprojectCall {
    /// Source projection as well-known text; `None` lets the engine read it
    /// from the source dataset.
    pub src_wkt: Option<String>,
    /// Destination projection as well-known text; `None` lets the engine
    /// read it from the destination dataset.
    pub dst_wkt: Option<String>,
    pub resampling_alg: WarpResampleAlg,
    /// Memory budget in bytes; 0 leaves the budget to the engine.
    pub memory_limit: usize,
    /// Error tolerance, as a binary64 bit pattern.
    pub max_error: u64,
    /// The configuration compiled for this call alone; `None` leaves every
    /// other parameter to the engine.
    pub warp_options: Option<GdalWarpOptions>,
}

/// What a job asks for next.
#[derive(Debug, PartialEq, Eq)]
pub enum EngineRequest {
    /// Write this spatial reference system as well-known text.
    ExportWkt(SpatialRef),
    /// Look this identifier up in the driver registry.
    FindDriver(String),
    /// Create the destination file and warp the source into it.
    Warp(WarpCall),
    /// Warp the source dataset into the destination dataset.
    Reproject(ReprojectCall),
    /// Open the file at this path and report its band count.
    OpenOutput(String),
    /// Record `value` as the no-data value of band `band` (counted from 1)
    /// of the opened file.
    SetNoData { band: usize, value: u64 },
    /// The job is over, with this result.
    Finish(Result<(), GdalError>),
}

/// The outcome of a request. Every failure carries the engine's last
/// diagnostic message.
#[derive(Debug, PartialEq, Eq)]
pub enum EngineReply {
    /// Answers `ExportWkt`: the text.
    Wkt(Result<String, String>),
    /// Answers `FindDriver`: whether the registry knows the identifier.
    Driver(bool),
    /// Answers `Warp` and `Reproject`: the engine's status.
    Warped(Result<(), String>),
    /// Answers `OpenOutput`: the band count of the file.
    Opened(Result<usize, String>),
    /// Answers `SetNoData`.
    NoDataSet(Result<(), String>),
}

} // verus!
