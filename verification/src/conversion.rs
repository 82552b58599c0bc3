//! How a conversion can fail, and what the service answers then: 400 where
//! the fault lies with what was sent, 500 where it lies with the service.

use vstd::prelude::*;

verus! {

/// Whose fault a failed conversion is.
#[derive(Debug, Clone, Copy, PartialEq, Eq, Structural)]
pub enum ConversionError {
    /// What was sent cannot be used.
    BadInput,
    /// The service could not do its part.
    Internal,
}

impl ConversionError {
    /// The HTTP status that the service answers with.
    pub open spec fn status(self) -> nat {
        match self {
            ConversionError::BadInput => 400,
            ConversionError::Internal => 500,
        }
    }

    /// The HTTP status that the service answers with: 400 for bad input,
    /// 500 for a failure of the service.
    pub fn http_status(&self) -> (code: u16)
        ensures
            code == self.status(),
    {
        match self {
            ConversionError::BadInput => 400,
            ConversionError::Internal => 500,
        }
    }
}

/// Where the conversion of an image can fail.
#[derive(Debug, Clone, Copy, PartialEq, Eq, Structural)]
pub enum ImageStep {
    /// Reading what was uploaded.
    ReadUpload,
    /// Decoding and converting the image.
    Convert,
    /// Writing the converted image to a temporary file.
    WriteResult,
    /// Reading that file back.
    ReadResult,
}

/// Where the conversion of a book can fail.
#[derive(Debug, Clone, Copy, PartialEq, Eq, Structural)]
pub enum BookStep {
    /// Reading what was uploaded.
    ReadUpload,
    /// Putting the upload into a temporary file.
    StageUpload,
    /// Finding the font that was asked for, with its regular face on disk.
    ResolveFont,
    /// Converting the book.
    Convert,
    /// Reading the converted book back.
    ReadResult,
}

/// Whose fault a failure of an image conversion is: the sender's where the
/// upload cannot be read or is no image that can be converted, the
/// service's otherwise.
pub open spec fn image_error(step: ImageStep) -> ConversionError {
    match step {
        ImageStep::ReadUpload => ConversionError::BadInput,
        ImageStep::Convert => ConversionError::BadInput,
        ImageStep::WriteResult => ConversionError::Internal,
        ImageStep::ReadResult => ConversionError::Internal,
    }
}

/// Whose fault a failure of a book conversion is: the sender's where the
/// upload cannot be read or the font asked for is not to be had, the
/// service's otherwise.
pub open spec fn book_error(step: BookStep) -> ConversionError {
    match step {
        BookStep::ReadUpload => ConversionError::BadInput,
        BookStep::StageUpload => ConversionError::Internal,
        BookStep::ResolveFont => ConversionError::BadInput,
        BookStep::Convert => ConversionError::Internal,
        BookStep::ReadResult => ConversionError::Internal,
    }
}

/// The error of an image conversion that failed at `step`.
pub fn image_failure(step: ImageStep) -> (error: ConversionError)
    ensures
        error == image_error(step),
{
    match step {
        ImageStep::ReadUpload => ConversionError::BadInput,
        ImageStep::Convert => ConversionError::BadInput,
        ImageStep::WriteResult => ConversionError::Internal,
        ImageStep::ReadResult => ConversionError::Internal,
    }
}

/// The error of a book conversion that failed at `step`.
pub fn book_failure(step: BookStep) -> (error: ConversionError)
    ensures
        error == book_error(step),
{
    match step {
        BookStep::ReadUpload => ConversionError::BadInput,
        BookStep::StageUpload => ConversionError::Internal,
        BookStep::ResolveFont => ConversionError::BadInput,
        BookStep::Convert => ConversionError::Internal,
        BookStep::ReadResult => ConversionError::Internal,
    }
}

} // verus!
