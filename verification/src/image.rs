//! Image validation: decides from a byte buffer's leading signature whether
//! it is a structurally recognizable image, and maps each recognized format
//! to its mime descriptor and canonical file extension.

use vstd::prelude::*;

verus! {

/// An image encoding recognized by its leading signature.
#[derive(Clone, Copy, PartialEq, Eq, Debug, Structural)]
pub enum ImageFormat {
    Png,
    Jpeg,
    Gif,
}

/// The buffer starts with the eight-byte PNG signature.
pub open spec fn is_png(b: Seq<u8>) -> bool {
    b.len() >= 8 && b[0] == 0x89u8 && b[1] == 0x50u8 && b[2] == 0x4eu8 && b[3] == 0x47u8
        && b[4] == 0x0du8 && b[5] == 0x0au8 && b[6] == 0x1au8 && b[7] == 0x0au8
}

/// The buffer starts with the JPEG start-of-image marker.
pub open spec fn is_jpeg(b: Seq<u8>) -> bool {
    b.len() >= 3 && b[0] == 0xffu8 && b[1] == 0xd8u8 && b[2] == 0xffu8
}

/// The buffer starts with a GIF87a or GIF89a header.
pub open spec fn is_gif(b: Seq<u8>) -> bool {
    b.len() >= 6 && b[0] == 0x47u8 && b[1] == 0x49u8 && b[2] == 0x46u8 && b[3] == 0x38u8 && (
    b[4] == 0x37u8 || b[4] == 0x39u8) && b[5] == 0x61u8
}

/// The format a buffer is recognized as, if any.
pub open spec fn spec_detect(b: Seq<u8>) -> Option<ImageFormat> {
    if is_png(b) {
        Some(ImageFormat::Png)
    } else if is_jpeg(b) {
        Some(ImageFormat::Jpeg)
    } else if is_gif(b) {
        Some(ImageFormat::Gif)
    } else {
        None
    }
}

/// Inspects the buffer's leading bytes and returns the recognized format,
/// or `None` when the buffer is too short or matches no known signature.
pub fn detect_image(bytes: &Vec<u8>) -> (r: Option<ImageFormat>)
    ensures
        r == spec_detect(bytes@),
{
    let n = bytes.len();
    if n >= 8 && bytes[0] == 0x89 && bytes[1] == 0x50 && bytes[2] == 0x4e && bytes[3] == 0x47
        && bytes[4] == 0x0d && bytes[5] == 0x0a && bytes[6] == 0x1a && bytes[7] == 0x0a {
        Some(ImageFormat::Png)
    } else if n >= 3 && bytes[0] == 0xff && bytes[1] == 0xd8 && bytes[2] == 0xff {
        Some(ImageFormat::Jpeg)
    } else if n >= 6 && bytes[0] == 0x47 && bytes[1] == 0x49 && bytes[2] == 0x46 && bytes[3]
        == 0x38 && (bytes[4] == 0x37 || bytes[4] == 0x39) && bytes[5] == 0x61 {
        Some(ImageFormat::Gif)
    } else {
        None
    }
}

/// The mime descriptor of a recognized format.
pub open spec fn spec_mime(f: ImageFormat) -> Seq<char> {
    match f {
        ImageFormat::Png => "image/png"@,
        ImageFormat::Jpeg => "image/jpeg"@,
        ImageFormat::Gif => "image/gif"@,
    }
}

/// The canonical file extension of a recognized format: the subtype portion
/// of its mime descriptor.
pub open spec fn spec_extension(f: ImageFormat) -> Seq<char> {
    match f {
        ImageFormat::Png => "png"@,
        ImageFormat::Jpeg => "jpeg"@,
        ImageFormat::Gif => "gif"@,
    }
}

impl ImageFormat {
    /// The mime descriptor, e.g. `image/png`.
    pub fn mime(&self) -> (r: &'static str)
        ensures
            r@ == spec_mime(*self),
    {
        match self {
            ImageFormat::Png => "image/png",
            ImageFormat::Jpeg => "image/jpeg",
            ImageFormat::Gif => "image/gif",
        }
    }

    /// The file extension, e.g. `png`.
    pub fn extension(&self) -> (r: &'static str)
        ensures
            r@ == spec_extension(*self),
    {
        match self {
            ImageFormat::Png => "png",
            ImageFormat::Jpeg => "jpeg",
            ImageFormat::Gif => "gif",
        }
    }
}

/// The extension is exactly the text of the mime descriptor after the
/// `image/` prefix: the two never disagree.
pub proof fn lemma_extension_is_mime_subtype(f: ImageFormat)
    ensures
        spec_mime(f).len() > 6,
        spec_mime(f).subrange(0, 6) =~= "image/"@,
        spec_extension(f) =~= spec_mime(f).subrange(6, spec_mime(f).len() as int),
{
    reveal_strlit("image/png");
    reveal_strlit("image/jpeg");
    reveal_strlit("image/gif");
    reveal_strlit("image/");
    reveal_strlit("png");
    reveal_strlit("jpeg");
    reveal_strlit("gif");
}

} // verus!
