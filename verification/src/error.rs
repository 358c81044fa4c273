//! Why a single file could not be processed.

use vstd::prelude::*;

verus! {

/// The failure of one file. No failure ends a batch: the file is skipped.
#[derive(Clone, Copy, Debug, PartialEq, Eq, Structural)]
pub enum ProcessError {
    /// The file holds no bytes.
    EmptyFile,
    /// The bytes are not an image of the expected format.
    Decode,
    /// The image decoded to a width or height of zero.
    ZeroDimensions,
    /// The resampler refused the image.
    Resize,
    /// The image cannot be written as a JPEG.
    Encode,
}

/// The classes into which failures fall.
#[derive(Clone, Copy, Debug, PartialEq, Eq, Structural)]
pub enum ErrorClass {
    Decode,
    Resize,
    Encode,
}

impl ProcessError {
    /// The class of a failure: an empty file and a zero-sized image count as
    /// decode failures.
    pub open spec fn class_spec(self) -> ErrorClass {
        match self {
            ProcessError::EmptyFile => ErrorClass::Decode,
            ProcessError::Decode => ErrorClass::Decode,
            ProcessError::ZeroDimensions => ErrorClass::Decode,
            ProcessError::Resize => ErrorClass::Resize,
            ProcessError::Encode => ErrorClass::Encode,
        }
    }

    pub fn class(self) -> (class: ErrorClass)
        ensures
            class == self.class_spec(),
    {
        match self {
            ProcessError::EmptyFile => ErrorClass::Decode,
            ProcessError::Decode => ErrorClass::Decode,
            ProcessError::ZeroDimensions => ErrorClass::Decode,
            ProcessError::Resize => ErrorClass::Resize,
            ProcessError::Encode => ErrorClass::Encode,
        }
    }
}

} // verus!
