//! Rasters held in memory: the pixel formats, the mathematical model of a
//! raster, and the buffer that owns the samples.

use vstd::prelude::*;
use crate::codec::{convert_to_rgb8, rgb8_conversion};

verus! {

/// How the samples of one pixel are laid out. Every sample is one byte.
#[derive(Clone, Copy, Debug, PartialEq, Eq, Structural)]
pub enum PixelFormat {
    /// One grey sample.
    Luma8,
    /// A grey sample followed by alpha.
    LumaA8,
    /// Red, green, blue.
    Rgb8,
    /// Red, green, blue, alpha.
    Rgba8,
}

impl PixelFormat {
    /// Number of samples that make up one pixel.
    pub open spec fn channel_count(self) -> nat {
        match self {
            PixelFormat::Luma8 => 1,
            PixelFormat::LumaA8 => 2,
            PixelFormat::Rgb8 => 3,
            PixelFormat::Rgba8 => 4,
        }
    }

    /// The format with `n` samples per pixel, if there is one.
    pub open spec fn with_channels(n: int) -> Option<PixelFormat> {
        if n == 1 {
            Some(PixelFormat::Luma8)
        } else if n == 2 {
            Some(PixelFormat::LumaA8)
        } else if n == 3 {
            Some(PixelFormat::Rgb8)
        } else if n == 4 {
            Some(PixelFormat::Rgba8)
        } else {
            None
        }
    }

    /// Number of samples that make up one pixel.
    pub fn channels(self) -> (n: u8)
        ensures
            n == self.channel_count(),
            1 <= n <= 4,
    {
        match self {
            PixelFormat::Luma8 => 1,
            PixelFormat::LumaA8 => 2,
            PixelFormat::Rgb8 => 3,
            PixelFormat::Rgba8 => 4,
        }
    }

    /// The format with `n` samples per pixel; `None` unless `n` is 1 to 4.
    pub fn from_channels(n: u8) -> (r: Option<PixelFormat>)
        ensures
            r == Self::with_channels(n as int),
            r is Some <==> 1 <= n <= 4,
            r matches Some(f) ==> f.channel_count() == n,
    {
        match n {
            1 => Some(PixelFormat::Luma8),
            2 => Some(PixelFormat::LumaA8),
            3 => Some(PixelFormat::Rgb8),
            4 => Some(PixelFormat::Rgba8),
            _ => None,
        }
    }

    /// Whether this is the format the encoder takes.
    pub fn is_rgb8(self) -> (b: bool)
        ensures
            b == (self == PixelFormat::Rgb8),
    {
        match self {
            PixelFormat::Rgb8 => true,
            _ => false,
        }
    }
}

/// The mathematical model of a raster: its dimensions, its pixel format and
/// its samples, row by row from the top left.
pub struct Raster {
    pub width: nat,
    pub height: nat,
    pub format: PixelFormat,
    pub samples: Seq<u8>,
}

impl Raster {
    /// Number of samples that a raster of these dimensions and this format holds.
    pub open spec fn sample_count(width: nat, height: nat, format: PixelFormat) -> nat {
        width * height * format.channel_count()
    }

    /// A raster is well formed when both dimensions are positive and fit the
    /// machine's 32-bit dimension fields, and it holds exactly one sample per
    /// channel of each pixel.
    pub open spec fn wf(self) -> bool {
        &&& 1 <= self.width <= u32::MAX
        &&& 1 <= self.height <= u32::MAX
        &&& self.samples.len() == Self::sample_count(self.width, self.height, self.format)
    }

    /// The raster in the format the encoder takes: itself where it is RGB
    /// already, else what the conversion makes of it, with the same
    /// dimensions.
    pub open spec fn to_rgb8(self) -> Raster {
        if self.format == PixelFormat::Rgb8 {
            self
        } else {
            Raster {
                width: self.width,
                height: self.height,
                format: PixelFormat::Rgb8,
                samples: rgb8_conversion(self.width, self.height, self.format.channel_count(), self.samples),
            }
        }
    }
}

/// A decoded raster in memory. Only well-formed buffers exist: the
/// constructor refuses anything else, and nothing changes a buffer in place.
#[derive(Debug, PartialEq, Eq)]
pub struct ImageBuffer {
    width: u32,
    height: u32,
    format: PixelFormat,
    samples: Vec<u8>,
}

impl View for ImageBuffer {
    type V = Raster;

    closed spec fn view(&self) -> Raster {
        Raster {
            width: self.width as nat,
            height: self.height as nat,
            format: self.format,
            samples: self.samples@,
        }
    }
}

impl Clone for ImageBuffer {
    fn clone(&self) -> (copy: Self)
        ensures
            copy@ == self@,
    {
        proof {
            use_type_invariant(self);
        }
        let samples = self.samples.clone();
        assert(samples@ =~= self.samples@);
        ImageBuffer { width: self.width, height: self.height, format: self.format, samples }
    }
}

impl ImageBuffer {
    /// The invariant of every buffer.
    #[verifier::type_invariant]
    pub open spec fn well_formed(self) -> bool {
        self@.wf()
    }

    /// Builds a buffer from its parts. Gives `None` exactly when the parts do
    /// not make a well-formed raster: a dimension is zero, or the number of
    /// samples is not width × height × channels.
    pub fn new(width: u32, height: u32, format: PixelFormat, samples: Vec<u8>) -> (r: Option<ImageBuffer>)
        ensures
            match r {
                Some(img) => img@ == (Raster { width: width as nat, height: height as nat, format, samples: samples@ })
                    && img@.wf(),
                None => !(Raster { width: width as nat, height: height as nat, format, samples: samples@ }).wf(),
            },
    {
        if width == 0 || height == 0 {
            return None;
        }
        let channels: u8 = format.channels();
        assert((width as int) * (height as int) <= 0xffff_ffff * 0xffff_ffff) by (nonlinear_arith)
            requires
                0 <= width <= 0xffff_ffff,
                0 <= height <= 0xffff_ffff,
        ;
        let pixels: u64 = (width as u64) * (height as u64);
        assert((pixels as int) * (channels as int) <= 0xffff_ffff_ffff_ffff * 4) by (nonlinear_arith)
            requires
                0 <= pixels <= 0xffff_ffff_ffff_ffff,
                0 <= channels <= 4,
        ;
        let expected: u128 = (pixels as u128) * (channels as u128);
        if samples.len() as u128 != expected {
            return None;
        }
        Some(ImageBuffer { width, height, format, samples })
    }

    /// Builds a buffer from parts that are known to make a well-formed raster.
    pub(crate) fn assemble(width: u32, height: u32, format: PixelFormat, samples: Vec<u8>) -> (img: ImageBuffer)
        requires
            (Raster { width: width as nat, height: height as nat, format, samples: samples@ }).wf(),
        ensures
            img@ == (Raster { width: width as nat, height: height as nat, format, samples: samples@ }),
    {
        ImageBuffer { width, height, format, samples }
    }

    /// Width in pixels.
    pub fn width(&self) -> (w: u32)
        ensures
            w == self@.width,
    {
        self.width
    }

    /// Height in pixels.
    pub fn height(&self) -> (h: u32)
        ensures
            h == self@.height,
    {
        self.height
    }

    /// Pixel format of the samples.
    pub fn format(&self) -> (f: PixelFormat)
        ensures
            f == self@.format,
    {
        self.format
    }

    /// The samples, row by row from the top left.
    pub fn samples(&self) -> (s: &Vec<u8>)
        ensures
            s@ == self@.samples,
    {
        &self.samples
    }

    /// The buffer in the format the encoder takes. An RGB buffer comes back
    /// as it is, untouched; any other is converted, once, and keeps its
    /// dimensions.
    pub fn into_rgb8(self) -> (out: ImageBuffer)
        ensures
            out@ == self@.to_rgb8(),
            out@.format == PixelFormat::Rgb8,
            out@.wf(),
            self@.format == PixelFormat::Rgb8 ==> out == self,
    {
        proof {
            use_type_invariant(&self);
        }
        if self.format.is_rgb8() {
            self
        } else {
            let width: u32 = self.width;
            let height: u32 = self.height;
            let converted = convert_to_rgb8(width, height, self.format, self.samples);
            ImageBuffer { width, height, format: PixelFormat::Rgb8, samples: converted }
        }
    }

    /// Gives up the buffer for its samples.
    pub fn into_samples(self) -> (s: Vec<u8>)
        ensures
            s@ == self@.samples,
    {
        self.samples
    }
}

} // verus!
