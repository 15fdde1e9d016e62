//! Pictures that come as encoded bytes.
use vstd::prelude::*;

verus! {

/// A decoded picture: its size, and four bytes for each pixel, row by row.
#[derive(Debug, Clone, PartialEq, Eq)]
pub struct Picture {
    pub width: u32,
    pub height: u32,
    pub rgba: Vec<u8>,
}

impl Picture {
    /// The width, the height and the bytes of the pixels.
    pub open spec fn view(&self) -> (u32, u32, Seq<u8>) {
        (self.width, self.height, self.rgba@)
    }
}

/// Bytes that start as a JPEG file does.
pub open spec fn jpeg_signature(bytes: Seq<u8>) -> bool {
    bytes.len() >= 3 && bytes[0] == 0xff && bytes[1] == 0xd8 && bytes[2] == 0xff
}

/// Whether bytes start as a JPEG file does.
pub fn is_jpeg(bytes: &[u8]) -> (r: bool)
    ensures
        r == jpeg_signature(bytes@),
{
    bytes.len() >= 3 && bytes[0] == 0xff && bytes[1] == 0xd8 && bytes[2] == 0xff
}

/// The width, the height and the pixels, four bytes each, of the picture that
/// `image::load_from_memory` and `DynamicImage::to_rgba8` make of bytes, if they are
/// one.
pub uninterp spec fn decoded_picture(bytes: Seq<u8>) -> Option<(u32, u32, Seq<u8>)>;

/// `image::load_from_memory`, and `DynamicImage::to_rgba8` of what it gives. It is
/// claimed that the result depends on the bytes alone, and that the pixels take four
/// bytes each. JPEG files are left out: their decoder multiplies what it reads
/// unguarded, so that some of them make it panic where arithmetic is checked. This
/// crate registers no decoders of its own, so that the formats that are known are
/// those built in.
#[verifier::external_body]
pub(crate) fn decode_picture(bytes: &[u8]) -> (r: Option<Picture>)
    requires
        !jpeg_signature(bytes@),
    ensures
        match r {
            Some(p) => decoded_picture(bytes@) == Some((p.width, p.height, p.rgba@))
                && p.rgba@.len() == p.width * p.height * 4,
            None => decoded_picture(bytes@) is None,
        },
{
    let pixels = image::load_from_memory(bytes).ok()?.to_rgba8();
    let (width, height) = pixels.dimensions();
    Some(Picture { width, height, rgba: pixels.into_raw() })
}

/// The picture in bytes, where `jpeg` is what a JPEG file was decoded to.
pub open spec fn picture_of(bytes: Seq<u8>, jpeg: Option<Picture>) -> Option<(u32, u32, Seq<u8>)> {
    if !jpeg_signature(bytes) {
        decoded_picture(bytes)
    } else {
        match jpeg {
            Some(p) => Some(p@),
            None => None,
        }
    }
}

/// The picture in a download: none where nothing came or it came empty.
pub open spec fn fetched_picture(fetched: Option<&Vec<u8>>, jpeg: Option<Picture>) -> Option<
    (u32, u32, Seq<u8>),
> {
    match fetched {
        Some(bytes) => if bytes@.len() > 0 {
            picture_of(bytes@, jpeg)
        } else {
            None
        },
        None => None,
    }
}

/// The picture in bytes: what the caller made of a JPEG file, else what is decoded
/// here.
pub fn picture_in(bytes: &[u8], jpeg: Option<Picture>) -> (r: Option<Picture>)
    ensures
        match r {
            Some(p) => picture_of(bytes@, jpeg) == Some(p@),
            None => picture_of(bytes@, jpeg) is None,
        },
{
    if is_jpeg(bytes) {
        jpeg
    } else {
        decode_picture(bytes)
    }
}

} // verus!
