//! What can go wrong in a reprojection.

use vstd::prelude::*;

verus! {

/// The failures a reprojection reports. Each is final: nothing is retried,
/// and after any of them the destination must be treated as unusable.
#[derive(Debug, PartialEq, Eq)]
pub enum GdalError {
    /// A spatial reference system could not be written as text. Carries the
    /// engine's diagnostic.
    SrsSerialization(String),
    /// No driver is registered under the requested output format. Carries
    /// the identifier that was asked for.
    UnknownDriver(String),
    /// The warp engine reported a status other than success. Carries the
    /// last diagnostic the engine produced.
    Engine(String),
    /// The raster was written, but reopening it or recording a band's
    /// no-data value failed afterwards. Carries the engine's diagnostic.
    NoDataFixup(String),
    /// A per-band no-data value was applied before the band count was set.
    BandCountNotSet,
    /// The job was handed an outcome that does not answer the request it
    /// last made.
    UnexpectedEvent,
}

impl GdalError {
    /// True of the failure that leaves correct raster data with incomplete
    /// metadata.
    pub open spec fn spec_is_partial_success(self) -> bool {
        self is NoDataFixup
    }

    /// Whether the raster data was written although the call failed.
    pub fn is_partial_success(&self) -> (b: bool)
        ensures
            b == self.spec_is_partial_success(),
    {
        match self {
            GdalError::NoDataFixup(_) => true,
            _ => false,
        }
    }
}

} // verus!
