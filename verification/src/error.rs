//! What can stop a run, and the step at which it did.

use vstd::prelude::*;
use image::ImageError;

verus! {

/// Why a run stopped. Every failure ends the run at once; the iteration
/// numbers count from 1.
#[derive(Debug)]
pub enum TranscodeError {
    /// The quality is outside the encoder's range. Nothing was encoded or
    /// decoded.
    Configuration { quality: u8 },
    /// The encoder refused the raster in the given iteration.
    Encode { iteration: u32, source: ImageError },
    /// The decoder refused the stream that the encoder wrote in the given
    /// iteration.
    Decode { iteration: u32, source: ImageError },
}

/// A failed run without the codec's own account of it: the step that failed
/// and the iteration in which it did.
pub enum Failure {
    Configuration { quality: u8 },
    Encode { iteration: nat },
    Decode { iteration: nat },
}

impl View for TranscodeError {
    type V = Failure;

    open spec fn view(&self) -> Failure {
        match *self {
            TranscodeError::Configuration { quality } => Failure::Configuration { quality },
            TranscodeError::Encode { iteration, .. } => Failure::Encode { iteration: iteration as nat },
            TranscodeError::Decode { iteration, .. } => Failure::Decode { iteration: iteration as nat },
        }
    }
}

impl TranscodeError {
    /// The iteration in which the run stopped; `None` where it never began.
    pub fn iteration(&self) -> (i: Option<u32>)
        ensures
            i == match *self {
                TranscodeError::Configuration { .. } => None,
                TranscodeError::Encode { iteration, .. } => Some(iteration),
                TranscodeError::Decode { iteration, .. } => Some(iteration),
            },
    {
        match self {
            TranscodeError::Configuration { .. } => None,
            TranscodeError::Encode { iteration, .. } => Some(*iteration),
            TranscodeError::Decode { iteration, .. } => Some(*iteration),
        }
    }
}

} // verus!
