//! Pixel numeric types.

use vstd::prelude::*;

verus! {

/// The numeric type of a raster's pixels.
#[derive(Clone, Copy, Debug, PartialEq, Eq, Structural)]
pub enum GdalDataType {
    Unknown,
    UInt8,
    Int8,
    UInt16,
    Int16,
    UInt32,
    Int32,
    UInt64,
    Int64,
    Float32,
    Float64,
}

impl GdalDataType {
    /// The engine's number for each pixel type.
    pub open spec fn ordinal(self) -> nat {
        match self {
            GdalDataType::Unknown => 0,
            GdalDataType::UInt8 => 1,
            GdalDataType::UInt16 => 2,
            GdalDataType::Int16 => 3,
            GdalDataType::UInt32 => 4,
            GdalDataType::Int32 => 5,
            GdalDataType::Float32 => 6,
            GdalDataType::Float64 => 7,
            GdalDataType::UInt64 => 12,
            GdalDataType::Int64 => 13,
            GdalDataType::Int8 => 14,
        }
    }

    /// The number under which the engine knows this pixel type.
    pub fn gdal_ordinal(&self) -> (n: u32)
        ensures
            n == self.ordinal(),
    {
        match self {
            GdalDataType::Unknown => 0,
            GdalDataType::UInt8 => 1,
            GdalDataType::UInt16 => 2,
            GdalDataType::Int16 => 3,
            GdalDataType::UInt32 => 4,
            GdalDataType::Int32 => 5,
            GdalDataType::Float32 => 6,
            GdalDataType::Float64 => 7,
            GdalDataType::UInt64 => 12,
            GdalDataType::Int64 => 13,
            GdalDataType::Int8 => 14,
        }
    }
}

} // verus!
