//! Container metadata reader: parses the EXIF-style metadata container
//! embedded in a RAW file's bytes and extracts the mandatory dimensions and
//! the optional capture metadata.
//!
//! The container parsing itself is done by the `exif` library behind trusted
//! wrappers; every result of it is a deterministic function of the file's
//! bytes, named here by uninterpreted spec functions so that the verified
//! logic above the wrappers has exact contracts.

use vstd::prelude::*;

verus! {

#[verifier::external_type_specification]
#[verifier::external_body]
pub struct ExExif(exif::Exif);

#[verifier::external_type_specification]
#[verifier::external_body]
pub struct ExExifError(exif::Error);

/// Whether the EXIF-style container embedded in these bytes parses.
pub uninterp spec fn container_parses(bytes: Seq<u8>) -> bool;

/// The width tag's first unsigned-integer value in the primary-image
/// namespace of the parsed container, if present.
pub uninterp spec fn exif_width_of(bytes: Seq<u8>) -> Option<u32>;

/// The height tag's first unsigned-integer value in the primary-image
/// namespace of the parsed container, if present.
pub uninterp spec fn exif_height_of(bytes: Seq<u8>) -> Option<u32>;

/// The photographic-sensitivity (ISO) tag's first unsigned-integer value in
/// the primary-image namespace, if present.
pub uninterp spec fn exif_iso_of(bytes: Seq<u8>) -> Option<u32>;

/// The f-number tag's display rendering with its unit (an `f/` prefix), in
/// the primary-image namespace, if the tag is present.
pub uninterp spec fn aperture_display_of(bytes: Seq<u8>) -> Option<Seq<char>>;

/// The exposure-time tag's display rendering with its unit (a trailing
/// ` s`), in the primary-image namespace, if the tag is present.
pub uninterp spec fn shutter_display_of(bytes: Seq<u8>) -> Option<Seq<char>>;

/// The camera-model tag's display rendering (the recorded ASCII value, in
/// the container's quoted form), in the primary-image namespace, if present.
pub uninterp spec fn model_display_of(bytes: Seq<u8>) -> Option<Seq<char>>;

/// A parsed container, kept beside the bytes it was parsed from so that
/// field lookups can be specified as functions of those bytes.
struct Container {
    inner: exif::Exif,
    bytes: Vec<u8>,
}

/// Relies on exif::Reader::read_from_container over an in-memory cursor: the
/// parse outcome depends on the byte content alone.
#[verifier::external_body]
fn parse_container(bytes: &Vec<u8>) -> (r: Result<Container, exif::Error>)
    ensures
        r.is_ok() == container_parses(bytes@),
        r matches Ok(c) ==> c.bytes@ == bytes@,
{
    match exif::Reader::new().read_from_container(&mut std::io::Cursor::new(bytes.as_slice())) {
        Ok(inner) => Ok(Container { inner, bytes: bytes.clone() }),
        Err(e) => Err(e),
    }
}

/// Relies on the Display impl of exif::Error for the human-readable message.
#[verifier::external_body]
fn exif_error_message(e: &exif::Error) -> String {
    format!("{}", e)
}

/// Relies on exif::Exif::get_field with Tag::ImageWidth in the primary IFD
/// and exif::Value::get_uint on slot 0.
#[verifier::external_body]
fn width_field(c: &Container) -> (r: Option<u32>)
    ensures
        r == exif_width_of(c.bytes@),
{
    c.inner.get_field(exif::Tag::ImageWidth, exif::In::PRIMARY).and_then(|f| f.value.get_uint(0))
}

/// Relies on exif::Exif::get_field with Tag::ImageLength in the primary IFD
/// and exif::Value::get_uint on slot 0.
#[verifier::external_body]
fn height_field(c: &Container) -> (r: Option<u32>)
    ensures
        r == exif_height_of(c.bytes@),
{
    c.inner.get_field(exif::Tag::ImageLength, exif::In::PRIMARY).and_then(|f| f.value.get_uint(0))
}

/// Relies on exif::Exif::get_field with Tag::PhotographicSensitivity in the
/// primary IFD and exif::Value::get_uint on slot 0.
#[verifier::external_body]
fn iso_field(c: &Container) -> (r: Option<u32>)
    ensures
        r == exif_iso_of(c.bytes@),
{
    c.inner
        .get_field(exif::Tag::PhotographicSensitivity, exif::In::PRIMARY)
        .and_then(|f| f.value.get_uint(0))
}

/// Relies on exif::Exif::get_field with Tag::FNumber in the primary IFD and
/// exif::Field::display_value().with_unit, whose rendering depends on the
/// container's bytes alone.
#[verifier::external_body]
fn aperture_field(c: &Container) -> (r: Option<String>)
    ensures
        r.deep_view() == aperture_display_of(c.bytes@),
{
    c.inner
        .get_field(exif::Tag::FNumber, exif::In::PRIMARY)
        .map(|f| format!("{}", f.display_value().with_unit(&c.inner)))
}

/// Relies on exif::Exif::get_field with Tag::ExposureTime in the primary IFD
/// and exif::Field::display_value().with_unit, whose rendering depends on the
/// container's bytes alone.
#[verifier::external_body]
fn shutter_field(c: &Container) -> (r: Option<String>)
    ensures
        r.deep_view() == shutter_display_of(c.bytes@),
{
    c.inner
        .get_field(exif::Tag::ExposureTime, exif::In::PRIMARY)
        .map(|f| format!("{}", f.display_value().with_unit(&c.inner)))
}

/// Relies on exif::Exif::get_field with Tag::Model in the primary IFD and
/// exif::Field::display_value().with_unit, whose rendering depends on the
/// container's bytes alone.
#[verifier::external_body]
fn model_field(c: &Container) -> (r: Option<String>)
    ensures
        r.deep_view() == model_display_of(c.bytes@),
{
    c.inner
        .get_field(exif::Tag::Model, exif::In::PRIMARY)
        .map(|f| format!("{}", f.display_value().with_unit(&c.inner)))
}

/// Both mandatory dimension tags are present in a container that parses.
pub open spec fn exif_dims_ok(bytes: Seq<u8>) -> bool {
    container_parses(bytes) && exif_width_of(bytes) is Some && exif_height_of(bytes) is Some
}

/// Mandatory dimension lookup for a RAW file's bytes: parses the embedded
/// container and extracts the width and height tags. Fails with a
/// descriptive message when the container does not parse or either
/// dimension tag is missing.
pub fn get_dimensions_from_exif(bytes: &Vec<u8>) -> (r: Result<(usize, usize), String>)
    ensures
        r.is_ok() == exif_dims_ok(bytes@),
        r matches Ok(d) ==> d.0 == exif_width_of(bytes@).unwrap() as usize && d.1
            == exif_height_of(bytes@).unwrap() as usize,
        !container_parses(bytes@) ==> (r matches Err(m) && "Failed to read EXIF: "@.is_prefix_of(
            m@,
        )),
        container_parses(bytes@) && exif_width_of(bytes@) is None ==> (r matches Err(m) && m@
            == "No width in EXIF"@),
        container_parses(bytes@) && exif_width_of(bytes@) is Some && exif_height_of(bytes@)
            is None ==> (r matches Err(m) && m@ == "No height in EXIF"@),
{
    let container = match parse_container(bytes) {
        Ok(c) => c,
        Err(e) => {
            let msg = exif_error_message(&e);
            return Err(String::from_str("Failed to read EXIF: ").concat(msg.as_str()));
        },
    };
    let width = match width_field(&container) {
        Some(w) => w,
        None => {
            return Err(String::from_str("No width in EXIF"));
        },
    };
    let height = match height_field(&container) {
        Some(h) => h,
        None => {
            return Err(String::from_str("No height in EXIF"));
        },
    };
    Ok((width as usize, height as usize))
}

/// Best-effort metadata enrichment for a RAW file's bytes: ISO, aperture,
/// shutter speed, and camera model, each independently present or absent.
/// Never fails: when the container cannot be parsed, every field resolves to
/// absent.
pub fn extract_exif_metadata(bytes: &Vec<u8>) -> (r: (
    Option<u32>,
    Option<String>,
    Option<String>,
    Option<String>,
))
    ensures
        container_parses(bytes@) ==> r.0 == exif_iso_of(bytes@) && r.1.deep_view()
            == aperture_display_of(bytes@) && r.2.deep_view() == shutter_display_of(bytes@)
            && r.3.deep_view() == model_display_of(bytes@),
        !container_parses(bytes@) ==> r.0 is None && r.1 is None && r.2 is None && r.3 is None,
{
    let container = match parse_container(bytes) {
        Ok(c) => c,
        Err(_) => {
            return (None, None, None, None);
        },
    };
    let iso = iso_field(&container);
    let aperture = aperture_field(&container);
    let shutter = shutter_field(&container);
    let camera = model_field(&container);
    (iso, aperture, shutter, camera)
}

} // verus!
