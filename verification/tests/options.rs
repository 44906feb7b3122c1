//! Options, names, errors, and the two input rules: the 2:1 aspect ratio and
//! the tone-mapping decision.

use equicube::Config;
use equicube::CubemapError;
use equicube::Interpolation;
use equicube::OutputFormat;
use equicube::Side;
use equicube::check_aspect_ratio;
use equicube::tone_mapping_applies;

#[test]
fn face_names() {
    assert_eq!(Side::Front.name(), "front");
    assert_eq!(Side::Back.name(), "back");
    assert_eq!(Side::Left.name(), "left");
    assert_eq!(Side::Right.name(), "right");
    assert_eq!(Side::Top.name(), "top");
    assert_eq!(Side::Bottom.name(), "bottom");
}

#[test]
fn format_extensions() {
    assert_eq!(OutputFormat::Jpg.extension(), "jpg");
    assert_eq!(OutputFormat::Png.extension(), "png");
    assert_eq!(OutputFormat::Webp.extension(), "webp");
}

#[test]
fn aspect_ratio_accepts_two_to_one() {
    assert_eq!(check_aspect_ratio(2, 1), Ok(()));
    assert_eq!(check_aspect_ratio(1024, 512), Ok(()));
    assert_eq!(check_aspect_ratio(0, 0), Ok(()));
}

#[test]
fn aspect_ratio_rejects_everything_else() {
    assert_eq!(check_aspect_ratio(3, 1), Err(CubemapError::AspectRatio));
    assert_eq!(check_aspect_ratio(2, 2), Err(CubemapError::AspectRatio));
    assert_eq!(check_aspect_ratio(1023, 512), Err(CubemapError::AspectRatio));
    // width = 2 * height would overflow the source's 32-bit width
    assert_eq!(check_aspect_ratio(u32::MAX, u32::MAX / 2 + 1), Err(CubemapError::AspectRatio));
}

#[test]
fn aspect_ratio_error_message() {
    let e = check_aspect_ratio(4, 4).unwrap_err();
    assert_eq!(e.message(), "Image width should be exact 2 times of image height.");
}

#[test]
fn error_messages_name_their_condition() {
    assert_eq!(CubemapError::InputOpen.message(), "cannot open the input image");
    assert_eq!(CubemapError::InputDecode.message(), "cannot decode the input image");
    assert_eq!(CubemapError::OutputDir.message(), "cannot create the output directory");
    assert_eq!(CubemapError::OutputEncode.message(), "cannot encode or write a face image");
}

#[test]
fn tone_mapping_runs_only_on_float_sources() {
    assert!(tone_mapping_applies(true, true));
    assert!(!tone_mapping_applies(true, false));
    assert!(!tone_mapping_applies(false, true));
    assert!(!tone_mapping_applies(false, false));
}

#[test]
fn tone_mapping_flag_is_inert_on_integer_sources() {
    // with an 8-bit source the stage never runs, flag or no flag
    assert_eq!(tone_mapping_applies(true, false), tone_mapping_applies(false, false));
}

#[test]
fn config_carries_the_options() {
    let config = Config {
        format: OutputFormat::Png,
        interpolation: Interpolation::Linear,
        size: 512,
        rotate: false,
        tone_mapping: false,
    };
    assert_eq!(config.format, OutputFormat::Png);
    assert_eq!(config.interpolation, Interpolation::Linear);
    assert_eq!(config.size, 512);
    assert!(!config.rotate);
    assert!(!config.tone_mapping);
}
