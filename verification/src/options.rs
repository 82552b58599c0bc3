//! The options of an image conversion, as a request's form fields give
//! them. Each field is read without regard to case, and a value that is
//! not known gives the field's default.

use vstd::prelude::*;
use crate::text::{chars_of, lowercase_of, spells, to_lowercase};

verus! {

/// How an image is fitted to the screen.
#[derive(Debug, Clone, Copy, PartialEq, Eq, Structural)]
pub enum FitMode {
    Width,
    Contain,
    Cover,
    Stretch,
    Integer,
}

/// How an image is dithered.
#[derive(Debug, Clone, Copy, PartialEq, Eq, Structural)]
pub enum DitherMode {
    Bayer,
    Off,
}

/// How regions of an image are detected.
#[derive(Debug, Clone, Copy, PartialEq, Eq, Structural)]
pub enum RegionMode {
    Auto,
    Off,
    Crisp,
    Barcode,
}

/// The fit that a lowercase word names; `Width` for any other.
pub open spec fn fit_of(lower: Seq<char>) -> FitMode {
    if lower == "contain"@ {
        FitMode::Contain
    } else if lower == "cover"@ {
        FitMode::Cover
    } else if lower == "stretch"@ {
        FitMode::Stretch
    } else if lower == "integer"@ {
        FitMode::Integer
    } else {
        FitMode::Width
    }
}

/// The dithering that a lowercase word names; `Bayer` for any other.
pub open spec fn dither_of(lower: Seq<char>) -> DitherMode {
    if lower == "none"@ {
        DitherMode::Off
    } else {
        DitherMode::Bayer
    }
}

/// The region detection that a lowercase word names; `Auto` for any other.
pub open spec fn region_of(lower: Seq<char>) -> RegionMode {
    if lower == "none"@ {
        RegionMode::Off
    } else if lower == "crisp"@ {
        RegionMode::Crisp
    } else if lower == "barcode"@ {
        RegionMode::Barcode
    } else {
        RegionMode::Auto
    }
}

/// The fit that a word already in lowercase names.
pub fn fit_from_lowercase(lower: &str) -> (fit: FitMode)
    ensures
        fit == fit_of(lower@),
{
    let chars = chars_of(lower);
    if spells(&chars, "contain") {
        FitMode::Contain
    } else if spells(&chars, "cover") {
        FitMode::Cover
    } else if spells(&chars, "stretch") {
        FitMode::Stretch
    } else if spells(&chars, "integer") {
        FitMode::Integer
    } else {
        FitMode::Width
    }
}

/// The dithering that a word already in lowercase names.
pub fn dither_from_lowercase(lower: &str) -> (dither: DitherMode)
    ensures
        dither == dither_of(lower@),
{
    let chars = chars_of(lower);
    if spells(&chars, "none") {
        DitherMode::Off
    } else {
        DitherMode::Bayer
    }
}

/// The region detection that a word already in lowercase names.
pub fn region_from_lowercase(lower: &str) -> (region: RegionMode)
    ensures
        region == region_of(lower@),
{
    let chars = chars_of(lower);
    if spells(&chars, "none") {
        RegionMode::Off
    } else if spells(&chars, "crisp") {
        RegionMode::Crisp
    } else if spells(&chars, "barcode") {
        RegionMode::Barcode
    } else {
        RegionMode::Auto
    }
}

/// Reads the `fit` field: `contain`, `cover`, `stretch` or `integer` in
/// any case, and `Width` for anything else.
pub fn parse_fit(value: &str) -> (fit: FitMode)
    ensures
        fit == fit_of(lowercase_of(value@)),
{
    let lower = to_lowercase(value);
    fit_from_lowercase(lower.as_str())
}

/// Reads the `dither` field: `none` in any case, and `Bayer` for anything
/// else.
pub fn parse_dither(value: &str) -> (dither: DitherMode)
    ensures
        dither == dither_of(lowercase_of(value@)),
{
    let lower = to_lowercase(value);
    dither_from_lowercase(lower.as_str())
}

/// Reads the `region` field: `none`, `crisp` or `barcode` in any case, and
/// `Auto` for anything else.
pub fn parse_region(value: &str) -> (region: RegionMode)
    ensures
        region == region_of(lowercase_of(value@)),
{
    let lower = to_lowercase(value);
    region_from_lowercase(lower.as_str())
}

/// The output-format version to write for the version asked for: 2 where 2
/// is asked for, 1 for anything else.
pub open spec fn format_version_of(requested: u8) -> u8 {
    if requested == 2 {
        2
    } else {
        1
    }
}

/// The options of one image conversion.
#[derive(Debug, Clone, Copy, PartialEq, Eq, Structural)]
pub struct ImageOptions {
    pub fit: FitMode,
    pub dither: DitherMode,
    pub region_mode: RegionMode,
    pub invert: bool,
    pub trimg_version: u8,
    /// Whether the barcode detection model is to be used.
    pub use_detection_model: bool,
}

/// Puts the options of an image conversion together from the request's
/// form fields. `model_present` says whether the barcode detection model
/// is on disk; it is used exactly where it is.
pub fn image_options(
    fit: &str,
    dither: &str,
    region: &str,
    invert: bool,
    trimg_version: u8,
    model_present: bool,
) -> (options: ImageOptions)
    ensures
        options == (ImageOptions {
            fit: fit_of(lowercase_of(fit@)),
            dither: dither_of(lowercase_of(dither@)),
            region_mode: region_of(lowercase_of(region@)),
            invert,
            trimg_version: format_version_of(trimg_version),
            use_detection_model: model_present,
        }),
{
    ImageOptions {
        fit: parse_fit(fit),
        dither: parse_dither(dither),
        region_mode: parse_region(region),
        invert,
        trimg_version: if trimg_version == 2 {
            2
        } else {
            1
        },
        use_detection_model: model_present,
    }
}

} // verus!
