//! Image file introspection: pixel dimensions, byte size, and (for camera RAW
//! formats) capture metadata, resolved from a file's path and raw contents.
//!
//! The host hands the library a path string together with the file's bytes and
//! the outcome of a file-size query; the library classifies the path as RAW or
//! standard, parses the appropriate header or metadata container, and returns a
//! unified descriptor or a descriptive error string.

pub mod classifier;
pub mod container;
pub mod resolver;
pub mod standard;

pub use classifier::is_raw_extension;
pub use container::extract_exif_metadata;
pub use container::get_dimensions_from_exif;
pub use resolver::get_image_dimensions;
pub use resolver::ImageDimensions;
pub use standard::read_standard_dimensions;
