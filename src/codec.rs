use vstd::prelude::*;

use crate::format::{image_kind, kind_of_path, CompressError, ImageKind};
use image::{DynamicImage, ImageError};
use oxipng::PngError;

verus! {

#[verifier::external_type_specification]
#[verifier::external_body]
pub struct ExDynamicImage(image::DynamicImage);

#[verifier::external_type_specification]
#[verifier::external_body]
pub struct ExImageError(image::ImageError);

#[verifier::external_type_specification]
#[verifier::external_body]
pub struct ExPngError(oxipng::PngError);

/// The optimizer preset used for PNG files: a middle setting on the 0 to 6
/// scale, where higher is slower and more thorough.
pub const PNG_PRESET: u8 = 3;

/// Whether `data` decodes as an image of format `kind`.
pub uninterp spec fn decodes_as(data: Seq<u8>, kind: ImageKind) -> bool;

/// The bytes of the image decoded from `data` as format `kind`, encoded again
/// in format `kind`; `None` where the encoder fails.
pub uninterp spec fn encoded_of(data: Seq<u8>, kind: ImageKind) -> Option<Seq<u8>>;

/// The PNG optimizer's output for `png` at optimization preset `preset`;
/// `None` where the optimizer rejects it.
pub uninterp spec fn optimized_of(png: Seq<u8>, preset: u8) -> Option<Seq<u8>>;

/// A decoded image, with the bytes and the format it was decoded from.
/// Only `decode_image` makes one.
pub(crate) struct Decoded {
    image: DynamicImage,
    kind: ImageKind,
    source: Ghost<Seq<u8>>,
}

impl Decoded {
    pub(crate) closed spec fn source(&self) -> Seq<u8> {
        self.source@
    }

    pub(crate) closed spec fn kind(&self) -> ImageKind {
        self.kind
    }
}

/// Relies on `image::load_from_memory_with_format`: whether the bytes decode as
/// the given format depends on the bytes and the format alone.
#[verifier::external_body]
pub(crate) fn decode_image(data: &Vec<u8>, kind: ImageKind) -> (r: Result<Decoded, ImageError>)
    ensures
        r is Ok == decodes_as(data@, kind),
        r matches Ok(d) ==> d.source() == data@ && d.kind() == kind,
{
    let format = match kind {
        ImageKind::Jpeg => image::ImageFormat::Jpeg,
        ImageKind::Png => image::ImageFormat::Png,
        ImageKind::Bmp => image::ImageFormat::Bmp,
    };
    match image::load_from_memory_with_format(data, format) {
        Ok(image) => Ok(Decoded { image, kind, source: Ghost(data@) }),
        Err(e) => Err(e),
    }
}

/// Relies on `image::DynamicImage::write_to`: encodes the image in the format
/// it was decoded from, into an in-memory buffer; the bytes depend on the
/// image and the format alone.
#[verifier::external_body]
pub(crate) fn encode_image(img: &Decoded) -> (r: Result<Vec<u8>, ImageError>)
    ensures
        match r {
            Ok(b) => encoded_of(img.source(), img.kind()) == Some(b@),
            Err(_) => encoded_of(img.source(), img.kind()) is None,
        },
{
    let format = match img.kind {
        ImageKind::Jpeg => image::ImageFormat::Jpeg,
        ImageKind::Png => image::ImageFormat::Png,
        ImageKind::Bmp => image::ImageFormat::Bmp,
    };
    let mut buffer = std::io::Cursor::new(Vec::new());
    match img.image.write_to(&mut buffer, format) {
        Ok(()) => Ok(buffer.into_inner()),
        Err(e) => Err(e),
    }
}

/// Relies on `oxipng::optimize_from_memory` with `oxipng::Options::from_preset`:
/// with no timeout set the output depends on the data and the preset alone,
/// and the optimizer returns its input unchanged unless its own output is
/// strictly smaller, so an optimized PNG is never longer than the data given.
#[verifier::external_body]
pub(crate) fn optimize_png(data: &Vec<u8>, preset: u8) -> (r: Result<Vec<u8>, PngError>)
    requires
        preset <= 6,
    ensures
        match r {
            Ok(o) => optimized_of(data@, preset) == Some(o@) && o@.len() <= data@.len(),
            Err(_) => optimized_of(data@, preset) is None,
        },
{
    oxipng::optimize_from_memory(data, &oxipng::Options::from_preset(preset))
}

/// What compressing `data`, the contents of the file at path `s`, gives: the
/// format comes from the extension; the image decoded in that format is
/// encoded again in it; a PNG is then run through the optimizer.
pub open spec fn compressed_spec(s: Seq<char>, data: Seq<u8>) -> Result<Seq<u8>, CompressError> {
    match kind_of_path(s) {
        None => Err(CompressError::UnsupportedFormat),
        Some(k) => if !decodes_as(data, k) {
            Err(CompressError::UnreadableInput)
        } else {
            match encoded_of(data, k) {
                None => Err(CompressError::EncodeFailure),
                Some(e) => if k == ImageKind::Png {
                    match optimized_of(e, PNG_PRESET) {
                        Some(o) => Ok(o),
                        None => Err(CompressError::OptimizeFailure),
                    }
                } else {
                    Ok(e)
                },
            }
        },
    }
}

/// Compresses the contents `data` of the file at `path`: JPEG and BMP files
/// are decoded and re-encoded in their own format; PNG files are decoded,
/// re-encoded as PNG and then run through the lossless PNG optimizer, whose
/// output is never longer than the re-encoded PNG. The format is taken from
/// the path's extension, before anything is decoded.
pub fn compress_data(path: &str, data: &Vec<u8>) -> (r: Result<Vec<u8>, CompressError>)
    ensures
        match r {
            Ok(o) => compressed_spec(path@, data@) == Ok::<Seq<u8>, CompressError>(o@),
            Err(e) => compressed_spec(path@, data@) == Err::<Seq<u8>, CompressError>(e),
        },
        r is Ok && kind_of_path(path@) == Some(ImageKind::Png) ==> (encoded_of(
            data@,
            ImageKind::Png,
        ) matches Some(e) && r.unwrap()@.len() <= e.len()),
{
    let kind = match image_kind(path) {
        Some(k) => k,
        None => return Err(CompressError::UnsupportedFormat),
    };
    let img = match decode_image(data, kind) {
        Ok(img) => img,
        Err(_) => return Err(CompressError::UnreadableInput),
    };
    let encoded = match encode_image(&img) {
        Ok(b) => b,
        Err(_) => return Err(CompressError::EncodeFailure),
    };
    match kind {
        ImageKind::Png => match optimize_png(&encoded, PNG_PRESET) {
            Ok(o) => Ok(o),
            Err(_) => Err(CompressError::OptimizeFailure),
        },
        _ => Ok(encoded),
    }
}

} // verus!
