//! Errors of the engine.

use vstd::prelude::*;

verus! {

/// What can go wrong in the engine or in the code that draws with it.
#[derive(Debug)]
#[non_exhaustive]
pub enum PixError {
    /// A color was asked for from no values, or from more than four.
    InvalidColorSlice,
    /// A string is not a color in hexadecimal notation.
    ParseColorError,
    /// An image could not be read or written.
    ImageError(crate::image::Error),
    /// No number is left for a new texture.
    TextureLimit,
    /// Anything else, in words.
    Other(String),
}

impl From<crate::image::Error> for PixError {
    fn from(err: crate::image::Error) -> (e: PixError) {
        PixError::ImageError(err)
    }
}

impl vstd::std_specs::convert::FromSpecImpl<crate::image::Error> for PixError {
    open spec fn obeys_from_spec() -> bool {
        true
    }

    open spec fn from_spec(err: crate::image::Error) -> PixError {
        PixError::ImageError(err)
    }
}

/// The result of an engine operation.
pub type PixResult<T> = Result<T, PixError>;

} // verus!
