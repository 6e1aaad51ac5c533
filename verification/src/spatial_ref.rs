//! Spatial reference systems, by definition.

use vstd::prelude::*;

verus! {

/// A spatial reference system, held as what defines it. Only the engine can
/// tell whether a definition is well formed, and only the engine can write
/// it as well-known text.
#[derive(Debug, PartialEq, Eq)]
pub enum SpatialRef {
    /// A code of the EPSG registry.
    Epsg(u32),
    /// A definition in words: an authority code such as `EPSG:4269`, a PROJ
    /// string, or well-known text.
    Definition(String),
}

/// What defines a spatial reference system, as a plain mathematical value.
pub enum SrsView {
    Epsg(u32),
    Definition(Seq<char>),
}

impl View for SpatialRef {
    type V = SrsView;

    open spec fn view(&self) -> SrsView {
        match self {
            SpatialRef::Epsg(code) => SrsView::Epsg(*code),
            SpatialRef::Definition(text) => SrsView::Definition(text@),
        }
    }
}

impl SpatialRef {
    /// The system registered under the EPSG code `code`.
    pub fn from_epsg(code: u32) -> (r: SpatialRef)
        ensures
            r@ == SrsView::Epsg(code),
    {
        SpatialRef::Epsg(code)
    }

    /// The system that `definition` describes.
    pub fn from_definition(definition: &str) -> (r: SpatialRef)
        ensures
            r@ == SrsView::Definition(definition@),
    {
        SpatialRef::Definition(definition.to_owned())
    }
}

impl Clone for SpatialRef {
    fn clone(&self) -> (r: Self)
        ensures
            r == *self,
    {
        match self {
            SpatialRef::Epsg(code) => SpatialRef::Epsg(*code),
            SpatialRef::Definition(text) => SpatialRef::Definition(text.clone()),
        }
    }
}

} // verus!
