//! Errors raised by the layout pipeline. Every one of them aborts the whole
//! run: there is no local recovery.

use vstd::prelude::*;

verus! {

/// Why a pipeline step refused to run.
#[derive(Clone, Copy, Debug, PartialEq, Eq, Structural)]
pub enum MapError {
    /// A computed pixel rectangle exceeds its target raster's dimensions.
    OutOfBounds,
    /// An overlay's dimensions differ from the page it should be blended onto.
    DimensionMismatch,
    /// A resource (the annotation font) could not be decoded.
    DecodeError,
}

impl MapError {
    /// A short description, for reporting at the top level.
    pub fn describe(&self) -> (s: &'static str)
        ensures
            self is OutOfBounds ==> s@ == "a computed pixel rectangle exceeds its target raster"@,
            self is DimensionMismatch ==> s@ == "overlay dimensions differ from the page"@,
            self is DecodeError ==> s@ == "a resource could not be decoded"@,
    {
        match self {
            MapError::OutOfBounds => "a computed pixel rectangle exceeds its target raster",
            MapError::DimensionMismatch => "overlay dimensions differ from the page",
            MapError::DecodeError => "a resource could not be decoded",
        }
    }
}

} // verus!
