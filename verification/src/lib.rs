//! Simulation of JPEG generation loss: one raster is compressed and
//! decompressed again and again at a fixed quality, and what is left after
//! the last cycle is handed back, either as a raster or as the last
//! compressed stream.

pub mod codec;
pub mod error;
pub mod laws;
pub mod raster;
pub mod transcode;

pub use codec::{MAX_DIMENSION, MAX_QUALITY, MIN_QUALITY};
pub use error::{Failure, TranscodeError};
pub use raster::{ImageBuffer, PixelFormat, Raster};
pub use transcode::{repeated_jpeg_encode, repeated_jpeg_encode_counted, run, run_counted, CodecCalls};
