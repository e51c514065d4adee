//! The error taxonomy of the conversion pipeline.

use vstd::prelude::*;

verus! {

/// The error type of the `gif` crate's encoder, carried through unchanged
/// when serialization fails.
#[verifier::external_type_specification]
#[verifier::external_body]
pub struct ExEncodingError(gif::EncodingError);

/// Everything that can go wrong while converting images to an animated GIF.
#[derive(Debug)]
pub enum Error {
    /// No images were given.
    EmptyInput,
    /// Two images in the sequence have different dimensions: carries the
    /// first image's (width, height) and the first conflicting pair.
    Mismatch((u32, u32), (u32, u32)),
    /// The container encoder failed while writing the byte stream.
    EncodeFailure(gif::EncodingError),
}

impl Error {
    /// A short description of the error.
    pub fn description(&self) -> (r: &'static str)
        ensures
            self is EmptyInput ==> r@ == "No frames sent for engiffening"@,
            self is Mismatch ==> r@ == "Frames don't have the same dimensions"@,
            self is EncodeFailure ==> r@ == "Unable to write image"@,
    {
        match self {
            Error::EmptyInput => "No frames sent for engiffening",
            Error::Mismatch(_, _) => "Frames don't have the same dimensions",
            Error::EncodeFailure(_) => "Unable to write image",
        }
    }
}

} // verus!
