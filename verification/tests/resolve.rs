use image_probe::extract_exif_metadata;
use image_probe::get_dimensions_from_exif;
use image_probe::get_image_dimensions;
use image_probe::read_standard_dimensions;

/// One 12-byte TIFF IFD entry in little-endian form.
fn entry(tag: u16, typ: u16, count: u32, value: [u8; 4]) -> Vec<u8> {
    let mut e = Vec::new();
    e.extend_from_slice(&tag.to_le_bytes());
    e.extend_from_slice(&typ.to_le_bytes());
    e.extend_from_slice(&count.to_le_bytes());
    e.extend_from_slice(&value);
    e
}

fn short_value(v: u16) -> [u8; 4] {
    let b = v.to_le_bytes();
    [b[0], b[1], 0, 0]
}

fn long_value(v: u32) -> [u8; 4] {
    v.to_le_bytes()
}

const TYPE_ASCII: u16 = 2;
const TYPE_SHORT: u16 = 3;
const TYPE_LONG: u16 = 4;
const TYPE_RATIONAL: u16 = 5;

const TAG_IMAGE_WIDTH: u16 = 0x0100;
const TAG_IMAGE_LENGTH: u16 = 0x0101;
const TAG_MODEL: u16 = 0x0110;
const TAG_EXIF_IFD: u16 = 0x8769;
const TAG_EXPOSURE_TIME: u16 = 0x829a;
const TAG_F_NUMBER: u16 = 0x829d;
const TAG_ISO: u16 = 0x8827;

/// A little-endian TIFF container holding width 6000, height 4000, camera
/// model "Canon EOS R5", and an Exif sub-IFD with exposure time 1/200,
/// f-number 28/10, and ISO 400.
fn tiff_full() -> Vec<u8> {
    let mut d = Vec::new();
    d.extend_from_slice(&[0x49, 0x49, 0x2a, 0x00]);
    d.extend_from_slice(&8u32.to_le_bytes());
    // IFD0 at offset 8: four entries.
    d.extend_from_slice(&4u16.to_le_bytes());
    d.extend_from_slice(&entry(TAG_IMAGE_WIDTH, TYPE_SHORT, 1, short_value(6000)));
    d.extend_from_slice(&entry(TAG_IMAGE_LENGTH, TYPE_SHORT, 1, short_value(4000)));
    d.extend_from_slice(&entry(TAG_MODEL, TYPE_ASCII, 13, long_value(62)));
    d.extend_from_slice(&entry(TAG_EXIF_IFD, TYPE_LONG, 1, long_value(76)));
    d.extend_from_slice(&0u32.to_le_bytes());
    // Model string at offset 62.
    assert_eq!(d.len(), 62);
    d.extend_from_slice(b"Canon EOS R5\0");
    d.push(0);
    // Exif sub-IFD at offset 76: three entries.
    assert_eq!(d.len(), 76);
    d.extend_from_slice(&3u16.to_le_bytes());
    d.extend_from_slice(&entry(TAG_EXPOSURE_TIME, TYPE_RATIONAL, 1, long_value(118)));
    d.extend_from_slice(&entry(TAG_F_NUMBER, TYPE_RATIONAL, 1, long_value(126)));
    d.extend_from_slice(&entry(TAG_ISO, TYPE_SHORT, 1, short_value(400)));
    d.extend_from_slice(&0u32.to_le_bytes());
    // Rational values: 1/200 at offset 118, 28/10 at offset 126.
    assert_eq!(d.len(), 118);
    d.extend_from_slice(&1u32.to_le_bytes());
    d.extend_from_slice(&200u32.to_le_bytes());
    d.extend_from_slice(&28u32.to_le_bytes());
    d.extend_from_slice(&10u32.to_le_bytes());
    d
}

/// A TIFF container holding only the two dimension tags.
fn tiff_dims_only(width: u16, height: u16) -> Vec<u8> {
    let mut d = Vec::new();
    d.extend_from_slice(&[0x49, 0x49, 0x2a, 0x00]);
    d.extend_from_slice(&8u32.to_le_bytes());
    d.extend_from_slice(&2u16.to_le_bytes());
    d.extend_from_slice(&entry(TAG_IMAGE_WIDTH, TYPE_SHORT, 1, short_value(width)));
    d.extend_from_slice(&entry(TAG_IMAGE_LENGTH, TYPE_SHORT, 1, short_value(height)));
    d.extend_from_slice(&0u32.to_le_bytes());
    d
}

/// A TIFF container with a camera model but no dimension tags.
fn tiff_no_dims() -> Vec<u8> {
    let mut d = Vec::new();
    d.extend_from_slice(&[0x49, 0x49, 0x2a, 0x00]);
    d.extend_from_slice(&8u32.to_le_bytes());
    d.extend_from_slice(&1u16.to_le_bytes());
    d.extend_from_slice(&entry(TAG_MODEL, TYPE_ASCII, 13, long_value(26)));
    d.extend_from_slice(&0u32.to_le_bytes());
    assert_eq!(d.len(), 26);
    d.extend_from_slice(b"Canon EOS R5\0");
    d
}

/// A TIFF container with a width tag but no height tag.
fn tiff_width_only(width: u16) -> Vec<u8> {
    let mut d = Vec::new();
    d.extend_from_slice(&[0x49, 0x49, 0x2a, 0x00]);
    d.extend_from_slice(&8u32.to_le_bytes());
    d.extend_from_slice(&1u16.to_le_bytes());
    d.extend_from_slice(&entry(TAG_IMAGE_WIDTH, TYPE_SHORT, 1, short_value(width)));
    d.extend_from_slice(&0u32.to_le_bytes());
    d
}

/// A minimal JPEG header declaring the given pixel dimensions in its SOF0
/// segment.
fn jpeg_bytes(width: u16, height: u16) -> Vec<u8> {
    let mut d = vec![0xff, 0xd8, 0xff, 0xc0, 0x00, 0x11, 0x08];
    d.extend_from_slice(&height.to_be_bytes());
    d.extend_from_slice(&width.to_be_bytes());
    d.extend_from_slice(&[0x03, 0x01, 0x22, 0x00, 0x11, 0x01]);
    d
}

#[test]
fn standard_jpeg_resolves() {
    let r = get_image_dimensions("photo.jpg", Ok(jpeg_bytes(1920, 1080)), Some(204800)).unwrap();
    assert_eq!(r.width, 1920);
    assert_eq!(r.height, 1080);
    assert_eq!(r.size, 204800);
    assert_eq!(r.iso, None);
    assert_eq!(r.aperture, None);
    assert_eq!(r.shutter_speed, None);
    assert_eq!(r.camera_model, None);
    assert!(!r.is_raw);
}

#[test]
fn raw_with_full_metadata_resolves() {
    let r = get_image_dimensions("shot.CR2", Ok(tiff_full()), Some(25000000)).unwrap();
    assert!(r.is_raw);
    assert_eq!(r.width, 6000);
    assert_eq!(r.height, 4000);
    assert_eq!(r.size, 25000000);
    assert_eq!(r.iso, Some(400));
    assert_eq!(r.aperture.as_deref(), Some("f/2.8"));
    assert_eq!(r.shutter_speed.as_deref(), Some("1/200 s"));
    assert_eq!(r.camera_model.as_deref(), Some("\"Canon EOS R5\""));
}

#[test]
fn raw_without_dimension_tags_fails() {
    let r = get_image_dimensions("shot.CR2", Ok(tiff_no_dims()), Some(100));
    assert_eq!(r.unwrap_err(), "No width in EXIF");
}

#[test]
fn raw_without_height_tag_fails() {
    let r = get_image_dimensions("shot.CR2", Ok(tiff_width_only(6000)), Some(100));
    assert_eq!(r.unwrap_err(), "No height in EXIF");
}

#[test]
fn raw_with_dims_only_reports_absent_metadata() {
    let r = get_image_dimensions("shot.nef", Ok(tiff_dims_only(6000, 4000)), Some(100)).unwrap();
    assert!(r.is_raw);
    assert_eq!(r.width, 6000);
    assert_eq!(r.height, 4000);
    assert_eq!(r.iso, None);
    assert_eq!(r.aperture, None);
    assert_eq!(r.shutter_speed, None);
    assert_eq!(r.camera_model, None);
}

#[test]
fn size_lookup_failure_degrades_to_zero_standard() {
    let r = get_image_dimensions("photo.jpg", Ok(jpeg_bytes(1920, 1080)), None).unwrap();
    assert_eq!(r.width, 1920);
    assert_eq!(r.height, 1080);
    assert_eq!(r.size, 0);
}

#[test]
fn size_lookup_failure_degrades_to_zero_raw() {
    let r = get_image_dimensions("shot.CR2", Ok(tiff_full()), None).unwrap();
    assert_eq!(r.width, 6000);
    assert_eq!(r.size, 0);
}

#[test]
fn unreadable_file_propagates_error() {
    let r = get_image_dimensions(
        "missing.png",
        Err(String::from("No such file or directory (os error 2)")),
        None,
    );
    assert_eq!(r.unwrap_err(), "No such file or directory (os error 2)");
}

#[test]
fn corrupt_container_fails_with_prefixed_message() {
    let r = get_image_dimensions("shot.CR2", Ok(b"garbage bytes here".to_vec()), Some(18));
    let msg = r.unwrap_err();
    assert!(msg.starts_with("Failed to read EXIF: "));
}

#[test]
fn unrecognized_standard_format_fails() {
    let r = get_image_dimensions("photo.png", Ok(b"not an image at all".to_vec()), Some(19));
    assert!(r.is_err());
}

#[test]
fn resolve_is_idempotent() {
    let a = get_image_dimensions("shot.CR2", Ok(tiff_full()), Some(42)).unwrap();
    let b = get_image_dimensions("shot.CR2", Ok(tiff_full()), Some(42)).unwrap();
    assert_eq!(a.width, b.width);
    assert_eq!(a.height, b.height);
    assert_eq!(a.size, b.size);
    assert_eq!(a.iso, b.iso);
    assert_eq!(a.aperture, b.aperture);
    assert_eq!(a.shutter_speed, b.shutter_speed);
    assert_eq!(a.camera_model, b.camera_model);
    assert_eq!(a.is_raw, b.is_raw);
}

#[test]
fn exif_dimension_lookup_returns_both_tags() {
    let r = get_dimensions_from_exif(&tiff_full()).unwrap();
    assert_eq!(r, (6000, 4000));
}

#[test]
fn exif_metadata_extraction_never_fails() {
    let (iso, aperture, shutter, model) = extract_exif_metadata(&b"garbage".to_vec());
    assert_eq!(iso, None);
    assert_eq!(aperture, None);
    assert_eq!(shutter, None);
    assert_eq!(model, None);
}

#[test]
fn standard_header_reader_parses_jpeg() {
    let r = read_standard_dimensions(&jpeg_bytes(640, 480)).unwrap();
    assert_eq!(r, (640, 480));
}

#[test]
fn standard_header_reader_rejects_garbage() {
    assert!(read_standard_dimensions(&b"xx".to_vec()).is_err());
}
