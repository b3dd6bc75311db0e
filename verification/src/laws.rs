//! What holds of every run, proved from the definitions of the transcode
//! loop.

use vstd::prelude::*;
use crate::codec::MAX_DIMENSION;
use crate::error::Failure;
use crate::raster::{PixelFormat, Raster};
use crate::transcode::{calls_until, compressed, cycles, decoded, encoded, quality_in_range, round_trip, transcoded};

verus! {

impl Failure {
    /// The same failure, seen from a run that had `earlier` cycles behind it
    /// when this one began.
    pub open spec fn after(self, earlier: nat) -> Failure {
        match self {
            Failure::Configuration { quality } => Failure::Configuration { quality },
            Failure::Encode { iteration } => Failure::Encode { iteration: iteration + earlier },
            Failure::Decode { iteration } => Failure::Decode { iteration: iteration + earlier },
        }
    }
}

/// The outcome of a run that follows `earlier` cycles: its raster as it is,
/// its failure with the iteration counted from the very beginning.
pub open spec fn continued(outcome: Result<Raster, Failure>, earlier: nat) -> Result<Raster, Failure> {
    match outcome {
        Ok(raster) => Ok(raster),
        Err(failure) => Err(failure.after(earlier)),
    }
}

/// A run with no repetition is the identity: at any quality in range it
/// gives back the initial raster, dimensions, format and samples unchanged.
pub proof fn lemma_no_repetition_changes_nothing(initial: Raster, quality: u8)
    requires
        quality_in_range(quality),
    ensures
        transcoded(initial, 0, quality) == Ok::<Raster, Failure>(initial),
{
}

/// A quality out of range is refused whatever the raster and the number of
/// repetitions, in both modes, and before any codec call.
pub proof fn lemma_quality_out_of_range_is_refused(initial: Raster, repetitions: nat, quality: u8)
    requires
        !quality_in_range(quality),
    ensures
        transcoded(initial, repetitions, quality) == Err::<Raster, Failure>(Failure::Configuration { quality }),
        compressed(initial, repetitions, quality) == Err::<Seq<u8>, Failure>(Failure::Configuration { quality }),
        calls_until(Failure::Configuration { quality }) == (0nat, 0nat),
{
}

/// The encoder takes a well-formed raster exactly when neither dimension is
/// above what a JPEG frame header can hold; so a run of at least one
/// repetition on a larger raster ends in the first encode.
pub proof fn lemma_encoder_refuses_oversized_rasters(raster: Raster, repetitions: nat, quality: u8)
    requires
        raster.wf(),
        quality_in_range(quality),
        repetitions >= 1,
    ensures
        encoded(raster, quality) is Some <==> raster.width <= MAX_DIMENSION && raster.height <= MAX_DIMENSION,
        encoded(raster, quality) is None ==> transcoded(raster, repetitions, quality) == Err::<Raster, Failure>(
            Failure::Encode { iteration: 1 },
        ),
{
    if encoded(raster, quality) is None {
        lemma_encode_failure_ends_run(raster, 1, repetitions, quality);
    }
}

/// Once a cycle has failed, more repetitions change nothing: the run has
/// ended with that failure.
pub proof fn lemma_failure_is_final(initial: Raster, failed: nat, count: nat, quality: u8)
    requires
        cycles(initial, failed, quality) is Err,
        failed <= count,
    ensures
        cycles(initial, count, quality) == cycles(initial, failed, quality),
    decreases count,
{
    if failed < count {
        lemma_failure_is_final(initial, failed, (count - 1) as nat, quality);
    }
}

/// A run that succeeds has gone through every one of its cycles: each
/// shorter run succeeds too, and each cycle encodes and decodes what the one
/// before it left.
pub proof fn lemma_success_takes_every_cycle(initial: Raster, repetitions: nat, quality: u8, k: nat)
    requires
        transcoded(initial, repetitions, quality) is Ok,
        1 <= k <= repetitions,
    ensures
        transcoded(initial, (k - 1) as nat, quality) matches Ok(previous) && encoded(previous, quality) matches Some(
            bytes,
        ) && decoded(bytes) matches Some(next) && transcoded(initial, k, quality) == Ok::<Raster, Failure>(next),
{
    if cycles(initial, k, quality) is Err {
        lemma_failure_is_final(initial, k, repetitions, quality);
    }
    if cycles(initial, (k - 1) as nat, quality) is Err {
        lemma_failure_is_final(initial, (k - 1) as nat, repetitions, quality);
    }
}

/// If the encoder refuses the raster in iteration `k`, every run of at least
/// `k` repetitions ends with the encode error of iteration `k`: `k` encoder
/// calls and `k - 1` decoder calls have been made, and none follows.
pub proof fn lemma_encode_failure_ends_run(initial: Raster, k: nat, repetitions: nat, quality: u8)
    requires
        quality_in_range(quality),
        1 <= k <= repetitions,
        transcoded(initial, (k - 1) as nat, quality) matches Ok(previous) && encoded(previous, quality) is None,
    ensures
        transcoded(initial, repetitions, quality) == Err::<Raster, Failure>(Failure::Encode { iteration: k }),
        compressed(initial, repetitions, quality) == Err::<Seq<u8>, Failure>(Failure::Encode { iteration: k }),
        calls_until(Failure::Encode { iteration: k }) == (k, (k - 1) as nat),
{
    lemma_failure_is_final(initial, k, repetitions, quality);
    if k < repetitions {
        lemma_failure_is_final(initial, k, (repetitions - 1) as nat, quality);
    }
}

/// If the decoder refuses the stream of iteration `k`, every run of at least
/// `k` repetitions that decodes it ends with the decode error of iteration
/// `k`: `k` calls of each have been made, and none follows.
pub proof fn lemma_decode_failure_ends_run(initial: Raster, k: nat, repetitions: nat, quality: u8)
    requires
        quality_in_range(quality),
        1 <= k <= repetitions,
        transcoded(initial, (k - 1) as nat, quality) matches Ok(previous) && encoded(previous, quality) matches Some(
            bytes,
        ) && decoded(bytes) is None,
    ensures
        transcoded(initial, repetitions, quality) == Err::<Raster, Failure>(Failure::Decode { iteration: k }),
        k < repetitions ==> compressed(initial, repetitions, quality) == Err::<Seq<u8>, Failure>(
            Failure::Decode { iteration: k },
        ),
        calls_until(Failure::Decode { iteration: k }) == (k, k),
{
    lemma_failure_is_final(initial, k, repetitions, quality);
    if k < repetitions {
        lemma_failure_is_final(initial, k, (repetitions - 1) as nat, quality);
    }
}

/// A cycle does the same whatever its number: only the iteration that a
/// failure reports depends on it.
pub proof fn lemma_round_trip_renumbered(raster: Raster, quality: u8, iteration: nat, earlier: nat)
    ensures
        round_trip(raster, quality, iteration + earlier) == continued(round_trip(raster, quality, iteration), earlier),
{
}

/// Running `first` repetitions and then `second` more on the result is the
/// same as running `first + second` at once: the same raster on success, the
/// same failure in the same iteration, counted from the very beginning,
/// otherwise.
pub proof fn lemma_runs_compose(initial: Raster, first: nat, second: nat, quality: u8)
    ensures
        transcoded(initial, first + second, quality) == match transcoded(initial, first, quality) {
            Ok(between) => continued(transcoded(between, second, quality), first),
            Err(failure) => Err(failure),
        },
    decreases second,
{
    if quality_in_range(quality) {
        if second > 0 {
            lemma_runs_compose(initial, first, (second - 1) as nat, quality);
            assert((first + second - 1) as nat == first + (second - 1) as nat);
            match cycles(initial, first, quality) {
                Ok(between) => {
                    match cycles(between, (second - 1) as nat, quality) {
                        Ok(previous) => {
                            lemma_round_trip_renumbered(previous, quality, second, first);
                        },
                        Err(_) => {},
                    }
                },
                Err(_) => {},
            }
        }
    }
}

/// A run of `repetitions + 1` is a run of `repetitions` followed by a
/// separate run of one repetition on its result. So three repetitions are
/// three runs of one, each on the result of the one before.
pub proof fn lemma_one_more_repetition(initial: Raster, repetitions: nat, quality: u8)
    ensures
        transcoded(initial, repetitions + 1, quality) == match transcoded(initial, repetitions, quality) {
            Ok(between) => continued(transcoded(between, 1, quality), repetitions),
            Err(failure) => Err(failure),
        },
{
    lemma_runs_compose(initial, repetitions, 1, quality);
}

/// The two modes differ in the last decode alone: where a run gives a
/// compressed stream, the same run as a raster gives what that stream decodes
/// to, or the decode error of the last iteration.
pub proof fn lemma_raster_is_the_decoded_stream(initial: Raster, repetitions: nat, quality: u8)
    requires
        repetitions >= 1,
        compressed(initial, repetitions, quality) is Ok,
    ensures
        transcoded(initial, repetitions, quality) == match decoded(compressed(initial, repetitions, quality)->Ok_0) {
            Some(raster) => Ok::<Raster, Failure>(raster),
            None => Err::<Raster, Failure>(Failure::Decode { iteration: repetitions }),
        },
{
}

/// Where a run as a compressed stream fails, the same run as a raster fails
/// in the same way.
pub proof fn lemma_modes_fail_alike(initial: Raster, repetitions: nat, quality: u8)
    requires
        compressed(initial, repetitions, quality) is Err,
    ensures
        transcoded(initial, repetitions, quality) == Err::<Raster, Failure>(
            compressed(initial, repetitions, quality)->Err_0,
        ),
{
}

/// Whether a cycle at this quality, where it succeeds, gives a raster of the
/// dimensions it was given. The codec decides this, not the loop.
pub open spec fn cycle_keeps_dimensions(quality: u8) -> bool {
    forall|raster: Raster, iteration: nat|
        #[trigger] round_trip(raster, quality, iteration) matches Ok(next) ==> next.width == raster.width
            && next.height == raster.height
}

/// The loop adds nothing of its own to the dimensions: if each cycle keeps
/// them, so does every run, whatever the number of repetitions.
pub proof fn lemma_dimensions_stay_if_cycles_keep_them(initial: Raster, repetitions: nat, quality: u8)
    requires
        cycle_keeps_dimensions(quality),
        transcoded(initial, repetitions, quality) is Ok,
    ensures
        transcoded(initial, repetitions, quality)->Ok_0.width == initial.width,
        transcoded(initial, repetitions, quality)->Ok_0.height == initial.height,
    decreases repetitions,
{
    if repetitions > 0 {
        let before = (repetitions - 1) as nat;
        lemma_dimensions_stay_if_cycles_keep_them(initial, before, quality);
        let previous = cycles(initial, before, quality)->Ok_0;
        assert(round_trip(previous, quality, repetitions) is Ok);
    }
}

/// The encoder is always given RGB, of the dimensions of the raster at hand:
/// the conversion changes the format and the samples, nothing else, and
/// leaves an RGB raster alone.
pub proof fn lemma_conversion_keeps_dimensions(raster: Raster)
    ensures
        raster.to_rgb8().format == PixelFormat::Rgb8,
        raster.to_rgb8().width == raster.width,
        raster.to_rgb8().height == raster.height,
        raster.format == PixelFormat::Rgb8 ==> raster.to_rgb8() == raster,
        raster.to_rgb8().to_rgb8() == raster.to_rgb8(),
{
}

} // verus!
