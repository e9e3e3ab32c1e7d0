//! Standard header reader: recovers the declared pixel dimensions of a
//! non-RAW raster image from its leading bytes, without decoding pixel data.
//!
//! The signature recognition and header parsing are done by the `imagesize`
//! library behind trusted wrappers; the outcome is a deterministic function
//! of the byte content, named by an uninterpreted spec function.

use vstd::prelude::*;

verus! {

#[verifier::external_type_specification]
#[verifier::external_body]
pub struct ExImageError(imagesize::ImageError);

/// The pixel dimensions declared in a recognized standard-format header at
/// the start of these bytes, or `None` when no known signature is found or
/// the header is corrupt.
pub uninterp spec fn standard_dims_of(bytes: Seq<u8>) -> Option<(usize, usize)>;

/// Relies on imagesize::blob_size over the byte content: signature
/// recognition and header parsing depend on the bytes alone.
#[verifier::external_body]
fn blob_dimensions(bytes: &Vec<u8>) -> (r: Result<(usize, usize), imagesize::ImageError>)
    ensures
        r.is_ok() == standard_dims_of(bytes@) is Some,
        r matches Ok(d) ==> standard_dims_of(bytes@) == Some(d),
{
    match imagesize::blob_size(bytes.as_slice()) {
        Ok(dim) => Ok((dim.width, dim.height)),
        Err(e) => Err(e),
    }
}

/// Relies on the Display impl of imagesize::ImageError for the
/// human-readable message.
#[verifier::external_body]
fn image_error_message(e: &imagesize::ImageError) -> String {
    format!("{}", e)
}

/// Dimension lookup for a standard-format file's bytes: identifies the
/// container by its signature and reads the declared width and height from
/// its header. Fails with a descriptive message when no known signature is
/// recognized or the header cannot be parsed.
pub fn read_standard_dimensions(bytes: &Vec<u8>) -> (r: Result<(usize, usize), String>)
    ensures
        r.is_ok() == standard_dims_of(bytes@) is Some,
        r matches Ok(d) ==> standard_dims_of(bytes@) == Some(d),
{
    match blob_dimensions(bytes) {
        Ok(d) => Ok(d),
        Err(e) => Err(image_error_message(&e)),
    }
}

} // verus!
