//! The options of a conversion, the output containers, the error taxonomy of
//! the pipeline, and the two input rules it enforces: the 2:1 aspect ratio of
//! an equirectangular source, and tone mapping applying to floating-point
//! sources alone.

use vstd::prelude::*;

verus! {

/// The container the six face images are encoded into.
#[derive(Clone, Copy, Debug, PartialEq, Eq, Structural)]
pub enum OutputFormat {
    Jpg,
    Png,
    Webp,
}

impl OutputFormat {
    /// Whether the container takes plain RGB bytes, alpha stripped. JPEG
    /// carries no alpha channel; PNG and WebP keep all four channels.
    pub fn is_rgb(&self) -> (r: bool)
        ensures
            r == (*self == OutputFormat::Jpg),
    {
        match self {
            OutputFormat::Jpg => true,
            OutputFormat::Png => false,
            OutputFormat::Webp => false,
        }
    }

    pub open spec fn extension_spec(self) -> Seq<char> {
        match self {
            OutputFormat::Jpg => "jpg"@,
            OutputFormat::Png => "png"@,
            OutputFormat::Webp => "webp"@,
        }
    }

    /// The file-name extension of the container.
    pub fn extension(&self) -> (r: &'static str)
        ensures
            r@ == self.extension_spec(),
    {
        match self {
            OutputFormat::Jpg => "jpg",
            OutputFormat::Png => "png",
            OutputFormat::Webp => "webp",
        }
    }
}

/// How the source image is sampled at a UV coordinate.
#[derive(Clone, Copy, Debug, PartialEq, Eq, Structural)]
pub enum Interpolation {
    Linear,
    Nearest,
}

/// The options of one conversion. The Reinhard exposure accompanies
/// `tone_mapping` at the pipeline's floating-point edge and is not held here.
#[derive(Clone, Copy, Debug)]
pub struct Config {
    /// Container of the six output images.
    pub format: OutputFormat,
    /// Sampling mode used on the source image.
    pub interpolation: Interpolation,
    /// Side length, in pixels, of each square output face.
    pub size: u32,
    /// Turn each face for a Z-up convention after projection.
    pub rotate: bool,
    /// Compress a floating-point source to 8 bits before projection.
    pub tone_mapping: bool,
}

/// What can end a run: each fatal condition of the pipeline, by origin.
#[derive(Clone, Copy, Debug, PartialEq, Eq, Structural)]
pub enum CubemapError {
    /// The input path is missing or unreadable.
    InputOpen,
    /// The input bytes are not a recognized image.
    InputDecode,
    /// The decoded source's width is not exactly twice its height.
    AspectRatio,
    /// The output directory cannot be created.
    OutputDir,
    /// Encoding or writing one of the face images failed.
    OutputEncode,
}

impl CubemapError {
    pub open spec fn message_spec(self) -> Seq<char> {
        match self {
            CubemapError::InputOpen => "cannot open the input image"@,
            CubemapError::InputDecode => "cannot decode the input image"@,
            CubemapError::AspectRatio => "Image width should be exact 2 times of image height."@,
            CubemapError::OutputDir => "cannot create the output directory"@,
            CubemapError::OutputEncode => "cannot encode or write a face image"@,
        }
    }

    /// The message shown to the user for this error.
    pub fn message(&self) -> (r: &'static str)
        ensures
            r@ == self.message_spec(),
    {
        match self {
            CubemapError::InputOpen => "cannot open the input image",
            CubemapError::InputDecode => "cannot decode the input image",
            CubemapError::AspectRatio => "Image width should be exact 2 times of image height.",
            CubemapError::OutputDir => "cannot create the output directory",
            CubemapError::OutputEncode => "cannot encode or write a face image",
        }
    }
}

/// An equirectangular source must be exactly twice as wide as it is tall.
/// Accepts exactly the sources with `width == 2 * height`; every other source
/// is refused with the aspect-ratio error.
pub fn check_aspect_ratio(width: u32, height: u32) -> (r: Result<(), CubemapError>)
    ensures
        r == if width as int == 2 * height as int {
            Result::<(), CubemapError>::Ok(())
        } else {
            Result::<(), CubemapError>::Err(CubemapError::AspectRatio)
        },
{
    if (width as u64) == 2 * (height as u64) {
        Ok(())
    } else {
        Err(CubemapError::AspectRatio)
    }
}

/// Whether the tone-mapping stage runs: exactly when it is requested and the
/// decoded source is floating point.
pub open spec fn tone_mapping_applies_spec(requested: bool, source_is_float: bool) -> bool {
    requested && source_is_float
}

/// Decide whether the tone-mapping stage runs on this source.
pub fn tone_mapping_applies(requested: bool, source_is_float: bool) -> (r: bool)
    ensures
        r == tone_mapping_applies_spec(requested, source_is_float),
{
    requested && source_is_float
}

/// On an integer source the tone-mapping flag is without effect: whether it is
/// set or not, the stage does not run, so the pipeline's input — and with it
/// every output face — is the same either way.
pub proof fn lemma_tone_mapping_inert_on_integer_source(requested: bool)
    ensures
        tone_mapping_applies_spec(requested, false) == tone_mapping_applies_spec(false, false),
{
}

} // verus!
