//! Conversion of an equirectangular panorama into the six square faces of an
//! axis-aligned cubemap: face geometry, pixel buffers, per-face rotation, and
//! the configuration and error rules of the pipeline.

pub mod cubemap;
pub mod face;
pub mod options;
pub mod pixel;
pub mod projector;
pub mod rotation;

pub use cubemap::CubemapResult;
pub use cubemap::lemma_result_complete;
pub use cubemap::rotate;
pub use face::Side;
pub use options::Config;
pub use options::CubemapError;
pub use options::Interpolation;
pub use options::OutputFormat;
pub use options::check_aspect_ratio;
pub use options::tone_mapping_applies;
pub use pixel::FaceImage;
pub use pixel::Rgba8;
pub use projector::scaled_direction;
pub use rotation::rotate_face;
pub use rotation::rotate_quarter;
pub use rotation::rotation_quarters;
