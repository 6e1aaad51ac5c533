//! Configuration and orchestration of raster reprojection.
//!
//! The crate composes the settings of a warp run and decides, step by step,
//! what the warp engine is asked to do. Pixel resampling, dataset access and
//! the serialisation of spatial reference systems belong to the engine; this
//! crate never performs them. Numeric pixel values (no-data values, the error
//! tolerance) are carried as IEEE 754 binary64 bit patterns in `u64`.

pub mod create_and_reproject;
pub mod data_type;
pub mod engine;
pub mod errors;
pub mod laws;
pub mod reproject_image;
pub mod reproject_options;
pub mod resample;
pub mod spatial_ref;
pub mod warp_options;

pub use create_and_reproject::{
    create_and_reproject, CreateReprojectJob, CreateReprojectOptions, JobPhase, SourceInfo,
};
pub use data_type::GdalDataType;
pub use engine::{EngineReply, EngineRequest, ReprojectCall, WarpCall};
pub use errors::GdalError;
pub use reproject_image::{reproject_image, reproject_into, ReprojectIntoJob, ReprojectPhase};
pub use reproject_options::{init_warp_options, ReprojectIntoOptions, ReprojectOptions};
pub use resample::WarpResampleAlg;
pub use spatial_ref::{SpatialRef, SrsView};
pub use warp_options::{GdalWarpOptions, WorkingDataType};
