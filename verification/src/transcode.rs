//! The transcode loop: a raster goes through the encoder and the decoder a
//! given number of times, each cycle starting from what the last one left.
//!
//! The spec functions of this file say what a run gives; the executable
//! functions are proved to give exactly that.

use vstd::prelude::*;
use image::ImageError;
use crate::codec::{decode_jpeg, encode_rgb8, jpeg_decoding, jpeg_stream};
use crate::codec::{MAX_DIMENSION, MAX_QUALITY, MIN_QUALITY};
use crate::error::{Failure, TranscodeError};
use crate::laws::lemma_failure_is_final;
use crate::raster::{ImageBuffer, PixelFormat, Raster};

verus! {

/// Capacity that the scratch buffer for compressed streams starts with.
pub const SCRATCH_CAPACITY: usize = 2097152;

/// How often a run has called the encoder and the decoder.
#[derive(Clone, Copy, Debug, PartialEq, Eq, Structural)]
pub struct CodecCalls {
    pub encodes: u32,
    pub decodes: u32,
}

/// The qualities that the encoder is documented to take.
pub open spec fn quality_in_range(quality: u8) -> bool {
    MIN_QUALITY <= quality <= MAX_QUALITY
}

/// The compressed stream of a raster: the raster is brought into the
/// encoder's format and encoded. `None` where the encoder refuses it, which
/// it does exactly when a dimension does not fit a JPEG frame header.
pub open spec fn encoded(raster: Raster, quality: u8) -> Option<Seq<u8>> {
    let rgb = raster.to_rgb8();
    if 1 <= rgb.width <= MAX_DIMENSION && 1 <= rgb.height <= MAX_DIMENSION {
        Some(jpeg_stream(rgb.samples, rgb.width, rgb.height, quality as nat))
    } else {
        None
    }
}

/// The raster that a compressed stream decodes to, in the format that the
/// decoder chose. `None` where the decoder refuses the stream.
pub open spec fn decoded(bytes: Seq<u8>) -> Option<Raster> {
    match jpeg_decoding(bytes) {
        Some((width, height, channels, samples)) => match PixelFormat::with_channels(channels as int) {
            Some(format) => Some(Raster { width: width as nat, height: height as nat, format, samples }),
            None => None,
        },
        None => None,
    }
}

/// One cycle: encode, then decode what the encoder wrote. A failure names
/// the step and carries the number of the iteration.
pub open spec fn round_trip(raster: Raster, quality: u8, iteration: nat) -> Result<Raster, Failure> {
    match encoded(raster, quality) {
        None => Err(Failure::Encode { iteration }),
        Some(bytes) => match decoded(bytes) {
            None => Err(Failure::Decode { iteration }),
            Some(next) => Ok(next),
        },
    }
}

/// `count` cycles in a row, numbered from 1. The first failure ends them.
pub open spec fn cycles(initial: Raster, count: nat, quality: u8) -> Result<Raster, Failure>
    decreases count,
{
    if count == 0 {
        Ok(initial)
    } else {
        match cycles(initial, (count - 1) as nat, quality) {
            Ok(previous) => round_trip(previous, quality, count),
            Err(failure) => Err(failure),
        }
    }
}

/// What a run gives as a raster: the quality is checked first; then come
/// `repetitions` cycles. With no repetition the raster is the initial one.
pub open spec fn transcoded(initial: Raster, repetitions: nat, quality: u8) -> Result<Raster, Failure> {
    if !quality_in_range(quality) {
        Err(Failure::Configuration { quality })
    } else {
        cycles(initial, repetitions, quality)
    }
}

/// What a run gives as a compressed stream: the stream that the encoder
/// writes in the last repetition, which is not decoded any more. With no
/// repetition nothing is written.
pub open spec fn compressed(initial: Raster, repetitions: nat, quality: u8) -> Result<Seq<u8>, Failure> {
    if !quality_in_range(quality) {
        Err(Failure::Configuration { quality })
    } else if repetitions == 0 {
        Ok(Seq::empty())
    } else {
        match cycles(initial, (repetitions - 1) as nat, quality) {
            Err(failure) => Err(failure),
            Ok(previous) => match encoded(previous, quality) {
                None => Err(Failure::Encode { iteration: repetitions }),
                Some(bytes) => Ok(bytes),
            },
        }
    }
}

/// The codec calls made by the time a run ends: a cycle that fails in the
/// encoder has not reached the decoder, and no cycle follows a failure.
pub open spec fn calls_until(failure: Failure) -> (nat, nat) {
    match failure {
        Failure::Configuration { .. } => (0, 0),
        Failure::Encode { iteration } => (iteration, (iteration - 1) as nat),
        Failure::Decode { iteration } => (iteration, iteration),
    }
}

/// Checks the quality against the encoder's range.
pub fn check_quality(quality: u8) -> (r: Result<(), TranscodeError>)
    ensures
        match r {
            Ok(_) => quality_in_range(quality),
            Err(e) => !quality_in_range(quality) && e == (TranscodeError::Configuration { quality }),
        },
{
    if quality < MIN_QUALITY || quality > MAX_QUALITY {
        Err(TranscodeError::Configuration { quality })
    } else {
        Ok(())
    }
}

/// Turns the encoder's answer into the run's: a refusal becomes the encode
/// error of this iteration and keeps the encoder's account as its source.
pub fn encode_outcome(answer: Result<(), ImageError>, iteration: u32) -> (r: Result<(), TranscodeError>)
    ensures
        match answer {
            Ok(_) => r is Ok,
            Err(source) => r == Err::<(), TranscodeError>(TranscodeError::Encode { iteration, source }),
        },
{
    match answer {
        Ok(_) => Ok(()),
        Err(source) => Err(TranscodeError::Encode { iteration, source }),
    }
}

/// Turns the decoder's answer into the run's: the decoded parts become a
/// buffer in the format that the decoder chose; a refusal becomes the decode
/// error of this iteration and keeps the decoder's account as its source.
pub fn decode_outcome(answer: Result<(u32, u32, u8, Vec<u8>), ImageError>, iteration: u32) -> (r: Result<
    ImageBuffer,
    TranscodeError,
>)
    requires
        answer matches Ok((width, height, channels, samples)) ==> {
            &&& 1 <= width
            &&& 1 <= height
            &&& 1 <= channels <= 4
            &&& samples@.len() == width * height * channels
        },
    ensures
        match answer {
            Ok((width, height, channels, samples)) => {
                &&& r matches Ok(img)
                &&& PixelFormat::with_channels(channels as int) == Some(img@.format)
                &&& img@.width == width
                &&& img@.height == height
                &&& img@.samples == samples@
                &&& img@.wf()
            },
            Err(source) => r == Err::<ImageBuffer, TranscodeError>(TranscodeError::Decode { iteration, source }),
        },
{
    match answer {
        Ok((width, height, channels, samples)) => {
            let format = match channels {
                1 => PixelFormat::Luma8,
                2 => PixelFormat::LumaA8,
                3 => PixelFormat::Rgb8,
                _ => PixelFormat::Rgba8,
            };
            Ok(ImageBuffer::assemble(width, height, format, samples))
        },
        Err(source) => Err(TranscodeError::Decode { iteration, source }),
    }
}

/// The encode half of a cycle. The raster is converted only if it is not in
/// the encoder's format already; the scratch buffer is emptied before the
/// encoder writes, so that it holds this stream and nothing older.
fn encode_step(current: ImageBuffer, quality: u8, iteration: u32, scratch: &mut Vec<u8>) -> (r: Result<
    (),
    TranscodeError,
>)
    ensures
        match r {
            Ok(_) => encoded(current@, quality) == Some(final(scratch)@),
            Err(e) => encoded(current@, quality) is None && e@ == (Failure::Encode { iteration: iteration as nat }),
        },
{
    let rgb = current.into_rgb8();
    scratch.clear();
    let answer = encode_rgb8(rgb.samples(), rgb.width(), rgb.height(), quality, scratch);
    encode_outcome(answer, iteration)
}

/// The decode half of a cycle.
fn decode_step(bytes: &Vec<u8>, iteration: u32) -> (r: Result<ImageBuffer, TranscodeError>)
    ensures
        match r {
            Ok(img) => decoded(bytes@) == Some(img@),
            Err(e) => decoded(bytes@) is None && e@ == (Failure::Decode { iteration: iteration as nat }),
        },
{
    let answer = decode_jpeg(bytes);
    decode_outcome(answer, iteration)
}

/// Runs `count` cycles and counts the codec calls. The buffer is replaced
/// after each cycle by what the decoder gave; the scratch buffer is reused.
fn run_cycles(initial: ImageBuffer, count: u32, quality: u8, scratch: &mut Vec<u8>) -> (out: (
    Result<ImageBuffer, TranscodeError>,
    CodecCalls,
))
    ensures
        match out.0 {
            Ok(img) => {
                &&& cycles(initial@, count as nat, quality) == Ok::<Raster, Failure>(img@)
                &&& out.1.encodes == count
                &&& out.1.decodes == count
                &&& count == 0 ==> img == initial
            },
            Err(e) => {
                &&& cycles(initial@, count as nat, quality) == Err::<Raster, Failure>(e@)
                &&& (out.1.encodes as nat, out.1.decodes as nat) == calls_until(e@)
                &&& e@ !is Configuration
            },
        },
{
    let mut current = initial;
    let mut done: u32 = 0;
    let mut calls = CodecCalls { encodes: 0, decodes: 0 };
    while done < count
        invariant
            done <= count,
            cycles(initial@, done as nat, quality) == Ok::<Raster, Failure>(current@),
            calls.encodes == done,
            calls.decodes == done,
            done == 0 ==> current == initial,
        decreases count - done,
    {
        let iteration: u32 = done + 1;
        calls.encodes = calls.encodes + 1;
        match encode_step(current, quality, iteration, scratch) {
            Ok(_) => {},
            Err(e) => {
                proof {
                    lemma_failure_is_final(initial@, iteration as nat, count as nat, quality);
                }
                return (Err(e), calls);
            },
        }
        calls.decodes = calls.decodes + 1;
        match decode_step(scratch, iteration) {
            Ok(next) => {
                current = next;
            },
            Err(e) => {
                proof {
                    lemma_failure_is_final(initial@, iteration as nat, count as nat, quality);
                }
                return (Err(e), calls);
            },
        }
        done = iteration;
    }
    (Ok(current), calls)
}

/// Runs the raster through `repetitions` cycles and hands back what the last
/// decode gave, together with the number of codec calls made.
///
/// The quality is checked before anything else; a quality out of range ends
/// the run with no call made. With no repetition the initial buffer comes
/// back as it is, not even converted. The first failure ends the run: a
/// refusal by the encoder in iteration `k` leaves `k` encoder calls and
/// `k - 1` decoder calls, one by the decoder leaves `k` of each.
pub fn run_counted(initial: ImageBuffer, repetitions: u32, quality: u8) -> (out: (
    Result<ImageBuffer, TranscodeError>,
    CodecCalls,
))
    ensures
        match out.0 {
            Ok(img) => {
                &&& transcoded(initial@, repetitions as nat, quality) == Ok::<Raster, Failure>(img@)
                &&& img@.wf()
                &&& out.1.encodes == repetitions
                &&& out.1.decodes == repetitions
                &&& repetitions == 0 ==> img == initial
            },
            Err(e) => {
                &&& transcoded(initial@, repetitions as nat, quality) == Err::<Raster, Failure>(e@)
                &&& (out.1.encodes as nat, out.1.decodes as nat) == calls_until(e@)
            },
        },
{
    match check_quality(quality) {
        Ok(_) => {},
        Err(e) => {
            return (Err(e), CodecCalls { encodes: 0, decodes: 0 });
        },
    }
    let mut scratch: Vec<u8> = Vec::with_capacity(SCRATCH_CAPACITY);
    let out = run_cycles(initial, repetitions, quality, &mut scratch);
    proof {
        if let Ok(img) = &out.0 {
            use_type_invariant(img);
        }
    }
    out
}

/// Runs the raster through `repetitions` cycles and hands back what the last
/// decode gave: see [`run_counted`], of which this is the result alone.
pub fn run(initial: ImageBuffer, repetitions: u32, quality: u8) -> (r: Result<ImageBuffer, TranscodeError>)
    ensures
        match r {
            Ok(img) => {
                &&& transcoded(initial@, repetitions as nat, quality) == Ok::<Raster, Failure>(img@)
                &&& img@.wf()
                &&& repetitions == 0 ==> img == initial
            },
            Err(e) => transcoded(initial@, repetitions as nat, quality) == Err::<Raster, Failure>(e@),
        },
{
    run_counted(initial, repetitions, quality).0
}

/// Runs the raster through `repetitions` encodes and hands back the stream
/// that the last one wrote, together with the number of codec calls made.
///
/// Every stream but the last is decoded to give the next raster; the last is
/// returned as the encoder wrote it, so the decoder is called one time fewer
/// than the encoder. The quality is checked before anything else. With no
/// repetition the stream is empty and no call is made.
pub fn repeated_jpeg_encode_counted(initial: ImageBuffer, repetitions: u32, quality: u8) -> (out: (
    Result<Vec<u8>, TranscodeError>,
    CodecCalls,
))
    ensures
        match out.0 {
            Ok(bytes) => {
                &&& compressed(initial@, repetitions as nat, quality) == Ok::<Seq<u8>, Failure>(bytes@)
                &&& out.1.encodes == repetitions
                &&& out.1.decodes == if repetitions == 0 { 0 } else { repetitions - 1 }
            },
            Err(e) => {
                &&& compressed(initial@, repetitions as nat, quality) == Err::<Seq<u8>, Failure>(e@)
                &&& (out.1.encodes as nat, out.1.decodes as nat) == calls_until(e@)
            },
        },
{
    match check_quality(quality) {
        Ok(_) => {},
        Err(e) => {
            return (Err(e), CodecCalls { encodes: 0, decodes: 0 });
        },
    }
    let mut scratch: Vec<u8> = Vec::with_capacity(SCRATCH_CAPACITY);
    if repetitions == 0 {
        return (Ok(scratch), CodecCalls { encodes: 0, decodes: 0 });
    }
    let (before_last, mut calls) = run_cycles(initial, repetitions - 1, quality, &mut scratch);
    match before_last {
        Err(e) => (Err(e), calls),
        Ok(current) => {
            calls.encodes = calls.encodes + 1;
            match encode_step(current, quality, repetitions, &mut scratch) {
                Ok(_) => (Ok(scratch), calls),
                Err(e) => (Err(e), calls),
            }
        },
    }
}

/// Runs the raster through `repetitions` encodes and hands back the stream
/// that the last one wrote: see [`repeated_jpeg_encode_counted`], of which
/// this is the result alone.
pub fn repeated_jpeg_encode(initial: ImageBuffer, repetitions: u32, quality: u8) -> (r: Result<
    Vec<u8>,
    TranscodeError,
>)
    ensures
        match r {
            Ok(bytes) => compressed(initial@, repetitions as nat, quality) == Ok::<Seq<u8>, Failure>(bytes@),
            Err(e) => compressed(initial@, repetitions as nat, quality) == Err::<Seq<u8>, Failure>(e@),
        },
{
    repeated_jpeg_encode_counted(initial, repetitions, quality).0
}

} // verus!
