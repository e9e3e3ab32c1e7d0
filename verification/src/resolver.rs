//! Dimension resolver: the single entry point that combines classification,
//! the appropriate dimension reader, and the host's file-size lookup into one
//! unified descriptor, degrading silently on missing optional data.
//!
//! The host performs the file I/O and hands the library the path string, the
//! outcome of reading the file's bytes, and the outcome of the byte-size
//! query; everything the resolver decides from those values is verified.

use vstd::prelude::*;

use crate::classifier::is_raw_extension;
use crate::classifier::is_raw_path;
use crate::container::aperture_display_of;
use crate::container::container_parses;
use crate::container::exif_dims_ok;
use crate::container::exif_height_of;
use crate::container::exif_iso_of;
use crate::container::exif_width_of;
use crate::container::extract_exif_metadata;
use crate::container::get_dimensions_from_exif;
use crate::container::model_display_of;
use crate::container::shutter_display_of;
use crate::standard::read_standard_dimensions;
use crate::standard::standard_dims_of;

verus! {

/// The unified result: pixel dimensions, file byte size, and, for RAW files
/// only, whatever capture metadata the container exposes. The descriptor is
/// built fresh per call and owned by the caller.
#[derive(Debug)]
pub struct ImageDimensions {
    /// Pixel width; positive whenever the parsed header declares it so.
    pub width: usize,
    /// Pixel height; positive whenever the parsed header declares it so.
    pub height: usize,
    /// File byte length; 0 is the sentinel for a failed size lookup.
    pub size: u64,
    /// Photographic sensitivity; present only for RAW files that expose it.
    pub iso: Option<u32>,
    /// F-number rendered with its unit (an `f/` prefix); RAW-only.
    pub aperture: Option<String>,
    /// Exposure time rendered with its unit (seconds); RAW-only.
    pub shutter_speed: Option<String>,
    /// Camera model as recorded by the device; RAW-only.
    pub camera_model: Option<String>,
    /// True iff the classifier recognized a RAW extension in the path.
    pub is_raw: bool,
}

/// The mathematical value of a descriptor: the same fields with every string
/// taken as its character sequence.
pub struct DescriptorModel {
    pub width: usize,
    pub height: usize,
    pub size: u64,
    pub iso: Option<u32>,
    pub aperture: Option<Seq<char>>,
    pub shutter_speed: Option<Seq<char>>,
    pub camera_model: Option<Seq<char>>,
    pub is_raw: bool,
}

impl View for ImageDimensions {
    type V = DescriptorModel;

    open spec fn view(&self) -> DescriptorModel {
        DescriptorModel {
            width: self.width,
            height: self.height,
            size: self.size,
            iso: self.iso,
            aperture: self.aperture.deep_view(),
            shutter_speed: self.shutter_speed.deep_view(),
            camera_model: self.camera_model.deep_view(),
            is_raw: self.is_raw,
        }
    }
}

/// The outcome of the host's file read, as a mathematical value.
pub open spec fn contents_model(contents: Result<Vec<u8>, String>) -> Result<Seq<u8>, Seq<char>> {
    match contents {
        Ok(b) => Ok(b@),
        Err(m) => Err(m@),
    }
}

/// The returned descriptor or error, as a mathematical value.
pub open spec fn result_model(r: Result<ImageDimensions, String>) -> Result<
    DescriptorModel,
    Seq<char>,
> {
    match r {
        Ok(d) => Ok(d@),
        Err(m) => Err(m@),
    }
}

/// Whether resolution succeeds: the file was readable and the reader that
/// the classification selects finds both dimensions. The size lookup plays
/// no part in it.
pub open spec fn resolve_ok(path: Seq<char>, contents: Result<Seq<u8>, Seq<char>>) -> bool {
    match contents {
        Ok(b) => if is_raw_path(path) {
            exif_dims_ok(b)
        } else {
            standard_dims_of(b) is Some
        },
        Err(_) => false,
    }
}

/// The descriptor that a successful resolution returns: dimensions from the
/// reader that the classification selects, the looked-up byte size or the 0
/// sentinel, and, for RAW files only, the container's optional metadata,
/// each field independently present or absent.
pub open spec fn resolve_model(path: Seq<char>, b: Seq<u8>, size_lookup: Option<u64>) -> DescriptorModel {
    let raw = is_raw_path(path);
    DescriptorModel {
        width: if raw {
            exif_width_of(b).unwrap() as usize
        } else {
            standard_dims_of(b).unwrap().0
        },
        height: if raw {
            exif_height_of(b).unwrap() as usize
        } else {
            standard_dims_of(b).unwrap().1
        },
        size: match size_lookup {
            Some(n) => n,
            None => 0,
        },
        iso: if raw {
            exif_iso_of(b)
        } else {
            None
        },
        aperture: if raw {
            aperture_display_of(b)
        } else {
            None
        },
        shutter_speed: if raw {
            shutter_display_of(b)
        } else {
            None
        },
        camera_model: if raw {
            model_display_of(b)
        } else {
            None
        },
        is_raw: raw,
    }
}

/// Everything the resolver promises of its result: success exactly when
/// `resolve_ok` says so, the successful descriptor pinned by
/// `resolve_model`, and each failure carrying its descriptive message — the
/// host's read error verbatim, a prefixed container-parse message, or the
/// exact missing-tag message.
pub open spec fn resolve_post(
    r: Result<DescriptorModel, Seq<char>>,
    path: Seq<char>,
    contents: Result<Seq<u8>, Seq<char>>,
    size_lookup: Option<u64>,
) -> bool {
    &&& (r is Ok) == resolve_ok(path, contents)
    &&& (r matches Ok(d) ==> d == resolve_model(path, contents->Ok_0, size_lookup))
    &&& (contents matches Err(m) ==> r == Result::<DescriptorModel, Seq<char>>::Err(m))
    &&& (contents matches Ok(b) && is_raw_path(path) && !container_parses(b) ==> (r matches Err(e)
        && "Failed to read EXIF: "@.is_prefix_of(e)))
    &&& (contents matches Ok(b) && is_raw_path(path) && container_parses(b) && exif_width_of(b)
        is None ==> r == Result::<DescriptorModel, Seq<char>>::Err("No width in EXIF"@))
    &&& (contents matches Ok(b) && is_raw_path(path) && container_parses(b) && exif_width_of(b)
        is Some && exif_height_of(b) is None ==> r == Result::<DescriptorModel, Seq<char>>::Err(
        "No height in EXIF"@,
    ))
}

/// Resolves a path to its unified descriptor. The host supplies the path,
/// the outcome of reading the file's bytes, and the outcome of the file-size
/// query; no I/O happens here. Classification selects the container reader
/// for RAW paths and the standard header reader otherwise; a failed size
/// lookup degrades to 0, and only a missing dimension fails the call.
pub fn get_image_dimensions(
    path: &str,
    contents: Result<Vec<u8>, String>,
    size_lookup: Option<u64>,
) -> (r: Result<ImageDimensions, String>)
    ensures
        resolve_post(result_model(r), path@, contents_model(contents), size_lookup),
{
    let is_raw = is_raw_extension(path);
    let size: u64 = match size_lookup {
        Some(n) => n,
        None => 0,
    };
    let bytes = match contents {
        Ok(b) => b,
        Err(m) => {
            return Err(m);
        },
    };
    let (width, height) = if is_raw {
        match get_dimensions_from_exif(&bytes) {
            Ok(d) => d,
            Err(m) => {
                return Err(m);
            },
        }
    } else {
        match read_standard_dimensions(&bytes) {
            Ok(d) => d,
            Err(m) => {
                return Err(m);
            },
        }
    };
    let (iso, aperture, shutter_speed, camera_model) = if is_raw {
        extract_exif_metadata(&bytes)
    } else {
        (None, None, None, None)
    };
    Ok(
        ImageDimensions {
            width,
            height,
            size,
            iso,
            aperture,
            shutter_speed,
            camera_model,
            is_raw,
        },
    )
}

/// For any standard-format file whose header declares known dimensions,
/// resolution returns a descriptor with exactly those dimensions, is_raw
/// false, and every optional metadata field absent.
pub proof fn lemma_standard_format_descriptor(
    r: Result<DescriptorModel, Seq<char>>,
    path: Seq<char>,
    b: Seq<u8>,
    w: usize,
    h: usize,
    size_lookup: Option<u64>,
)
    requires
        !is_raw_path(path),
        standard_dims_of(b) == Some((w, h)),
        resolve_post(r, path, Ok(b), size_lookup),
    ensures
        r matches Ok(d) && d.width == w && d.height == h && !d.is_raw && d.iso is None
            && d.aperture is None && d.shutter_speed is None && d.camera_model is None,
{
}

/// For any RAW file whose container parses but lacks a dimension tag,
/// resolution fails with the descriptive missing-tag message; no descriptor
/// is returned.
pub proof fn lemma_raw_missing_dimension_fails(
    r: Result<DescriptorModel, Seq<char>>,
    path: Seq<char>,
    b: Seq<u8>,
    size_lookup: Option<u64>,
)
    requires
        is_raw_path(path),
        container_parses(b),
        exif_width_of(b) is None || exif_height_of(b) is None,
        resolve_post(r, path, Ok(b), size_lookup),
    ensures
        r matches Err(e) && (e == "No width in EXIF"@ || e == "No height in EXIF"@),
{
}

/// For any RAW file with both dimension tags present, resolution succeeds
/// even when the four optional tags are all absent, and reports each absent
/// field as absent rather than failing or substituting a value.
pub proof fn lemma_raw_optional_metadata_independent(
    r: Result<DescriptorModel, Seq<char>>,
    path: Seq<char>,
    b: Seq<u8>,
    size_lookup: Option<u64>,
)
    requires
        is_raw_path(path),
        container_parses(b),
        exif_width_of(b) is Some,
        exif_height_of(b) is Some,
        exif_iso_of(b) is None,
        aperture_display_of(b) is None,
        shutter_display_of(b) is None,
        model_display_of(b) is None,
        resolve_post(r, path, Ok(b), size_lookup),
    ensures
        r matches Ok(d) && d.width == exif_width_of(b).unwrap() as usize && d.height
            == exif_height_of(b).unwrap() as usize && d.is_raw && d.iso is None && d.aperture
            is None && d.shutter_speed is None && d.camera_model is None,
{
}

/// A file-size lookup failure never prevents a successful dimension result:
/// a resolution whose size lookup failed succeeds exactly when one with any
/// other lookup outcome does, and its descriptor differs only in the size
/// field, which degrades to the 0 sentinel.
pub proof fn lemma_size_lookup_never_blocks(
    r1: Result<DescriptorModel, Seq<char>>,
    r2: Result<DescriptorModel, Seq<char>>,
    path: Seq<char>,
    contents: Result<Seq<u8>, Seq<char>>,
    size_lookup: Option<u64>,
)
    requires
        resolve_post(r1, path, contents, size_lookup),
        resolve_post(r2, path, contents, None),
    ensures
        (r1 is Ok) == (r2 is Ok),
        r1 matches Ok(d1) ==> (r2 matches Ok(d2) && d2 == DescriptorModel { size: 0, ..d1 }),
{
}

/// Idempotence: two resolutions of the same path, the same unmodified file
/// contents, and the same size-lookup outcome agree — both succeed or both
/// fail, and successful descriptors are identical in every field.
pub proof fn lemma_resolve_deterministic(
    r1: Result<DescriptorModel, Seq<char>>,
    r2: Result<DescriptorModel, Seq<char>>,
    path: Seq<char>,
    contents: Result<Seq<u8>, Seq<char>>,
    size_lookup: Option<u64>,
)
    requires
        resolve_post(r1, path, contents, size_lookup),
        resolve_post(r2, path, contents, size_lookup),
    ensures
        (r1 is Ok) == (r2 is Ok),
        r1 matches Ok(d1) ==> (r2 matches Ok(d2) && d1 == d2),
{
}

} // verus!
