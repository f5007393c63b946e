//! Preparing an uploaded profile picture for storage.
//!
//! The decoder of the `image` crate reads the uploaded bytes; the row
//! that describes the stored file — identifier, dimensions, path and
//! size — is built and checked here. Writing the row to the database is
//! the storage collaborator's work, outside the library.

use vstd::prelude::*;
use vstd::string::StringExecFns;

use crate::erro::AppError;
use crate::ids::{hyphenated_rep, ResourceId};

verus! {

/// The dimensions the `image` crate's decoder reports for a byte
/// sequence, when it can sniff a format and decode an image: width and
/// height in pixels.
pub uninterp spec fn image_dimensions(bytes: Seq<u8>) -> Option<(u32, u32)>;

/// Relies on image::io::Reader: format sniffing and decoding depend on
/// the bytes alone.
#[verifier::external_body]
fn decode_dimensions(bytes: &Vec<u8>) -> (r: Option<(u32, u32)>)
    ensures
        r == image_dimensions(bytes@),
{
    image::io::Reader::new(std::io::Cursor::new(bytes.as_slice()))
        .with_guessed_format()
        .ok()
        .and_then(|reader| reader.decode().ok())
        .map(|img| (img.width(), img.height()))
}

/// Relies on uuid::Uuid::new_v4: a freshly drawn random identifier.
/// Nothing is assumed of its value.
#[verifier::external_body]
fn fresh_id() -> (r: ResourceId) {
    ResourceId { bits: uuid::Uuid::new_v4().as_u128() }
}

/// The storage path of an image file: a fixed directory and a file name
/// carrying the image's identifier.
pub open spec fn image_file_path(id: ResourceId) -> Seq<char> {
    "image_uuid/image_file_"@ + hyphenated_rep(id.bits)
}

/// The row describing a stored image file, ready for the storage
/// collaborator.
pub struct NewImageFile {
    pub id: ResourceId,
    pub width_px: i32,
    pub height_px: i32,
    pub file_path: String,
    pub size_bytes: i32,
}

/// Decode the uploaded bytes and build the row of the image file stored
/// under `id`. Bytes that decode to no supported image fail with the
/// internal wording; so do dimensions beyond the storage range.
pub fn image_record(bytes: &Vec<u8>, id: ResourceId) -> (r: Result<NewImageFile, AppError>)
    requires
        bytes@.len() <= i32::MAX,
    ensures
        match image_dimensions(bytes@) {
            None => r matches Err(e) && (e matches AppError::Eyre(m) && m@
                == "failed to decode image"@),
            Some(d) => if d.0 <= i32::MAX && d.1 <= i32::MAX {
                r matches Ok(rec) && rec.id == id && rec.width_px == d.0 && rec.height_px == d.1
                    && rec.file_path@ == image_file_path(id) && rec.size_bytes == bytes@.len()
            } else {
                r matches Err(e) && (e matches AppError::Eyre(m) && m@
                    == "image dimensions exceed the storage range"@)
            },
        },
{
    match decode_dimensions(bytes) {
        None => Err(AppError::Eyre("failed to decode image".to_owned())),
        Some((w, h)) => {
            if w > i32::MAX as u32 || h > i32::MAX as u32 {
                Err(AppError::Eyre("image dimensions exceed the storage range".to_owned()))
            } else {
                let mut path = "image_uuid/image_file_".to_owned();
                let rendered = id.hyphenated();
                path.append(rendered.as_str());
                Ok(
                    NewImageFile {
                        id,
                        width_px: w as i32,
                        height_px: h as i32,
                        file_path: path,
                        size_bytes: bytes.len() as i32,
                    },
                )
            }
        },
    }
}

/// Decode the uploaded bytes and build the row of an image file stored
/// under a freshly drawn identifier.
pub fn new_image_record(bytes: &Vec<u8>) -> (r: Result<NewImageFile, AppError>)
    requires
        bytes@.len() <= i32::MAX,
    ensures
        match image_dimensions(bytes@) {
            None => r matches Err(e) && (e matches AppError::Eyre(m) && m@
                == "failed to decode image"@),
            Some(d) => if d.0 <= i32::MAX && d.1 <= i32::MAX {
                r matches Ok(rec) && rec.width_px == d.0 && rec.height_px == d.1
                    && rec.file_path@ == image_file_path(rec.id) && rec.size_bytes
                    == bytes@.len()
            } else {
                r matches Err(e) && (e matches AppError::Eyre(m) && m@
                    == "image dimensions exceed the storage range"@)
            },
        },
{
    let id = fresh_id();
    image_record(bytes, id)
}

} // verus!
