use vstd::prelude::*;

verus! {

/// The error of `image`'s decoders, carried through unopened.
#[verifier::external_type_specification]
#[verifier::external_body]
pub struct ExImageError(image::ImageError);

/// The RGBA pixels, width and height that `image` decodes from JPEG bytes, or nothing
/// where they do not decode.
pub uninterp spec fn jpeg_rgba_of(bytes: Seq<u8>) -> Option<(Seq<u8>, u32, u32)>;

/// Relies on `image::load_from_memory_with_format` (JPEG) followed by
/// `DynamicImage::into_rgba8` and `ImageBuffer::{width, height, into_raw}`: the decode is
/// integer arithmetic on the bytes alone, and every RGBA buffer that `image` builds holds
/// at least four bytes for each pixel.
#[verifier::external_body]
fn decode_jpeg_rgba(bytes: &[u8]) -> (r: Result<(Vec<u8>, u32, u32), image::ImageError>)
    ensures
        r is Ok <==> jpeg_rgba_of(bytes@) is Some,
        r is Ok ==> jpeg_rgba_of(bytes@) == Some((r->Ok_0.0@, r->Ok_0.1, r->Ok_0.2)),
        r is Ok ==> r->Ok_0.0@.len() >= 4 * r->Ok_0.1 * r->Ok_0.2,
{
    match image::load_from_memory_with_format(bytes, image::ImageFormat::Jpeg) {
        Ok(img) => {
            let rgba = img.into_rgba8();
            let (width, height) = (rgba.width(), rgba.height());
            Ok((rgba.into_raw(), width, height))
        },
        Err(e) => Err(e),
    }
}

/// A window icon: rows of RGBA pixels, four bytes each, top row first.
#[derive(Clone, Debug)]
pub struct IconImage {
    pub rgba: Vec<u8>,
    pub width: u32,
    pub height: u32,
}

impl IconImage {
    /// The buffer holds exactly four bytes for each pixel.
    pub open spec fn wf(&self) -> bool {
        self.rgba@.len() == 4 * self.width * self.height
    }
}

/// Why an icon could not be had.
#[derive(Clone, Copy, Debug, PartialEq, Eq, Structural)]
pub enum IconError {
    /// The bytes are not a JPEG image that could be decoded.
    Decode,
}

/// Makes an icon of the first `4 * width * height` bytes of `rgba`, or nothing where
/// `rgba` is shorter than that.
pub fn icon_from_rgba(rgba: Vec<u8>, width: u32, height: u32) -> (r: Option<IconImage>)
    ensures
        r is Some <==> rgba@.len() >= 4 * width * height,
        r is Some ==> r->Some_0.wf() && r->Some_0.width == width && r->Some_0.height == height
            && r->Some_0.rgba@ == rgba@.subrange(0, 4 * width * height),
{
    proof {
        assert((width as int) * (height as int) <= u64::MAX) by (nonlinear_arith)
            requires
                width <= u32::MAX,
                height <= u32::MAX,
        ;
        assert(4 * width * height == 4 * ((width as int) * (height as int))) by (nonlinear_arith);
    }
    let pixels: u64 = (width as u64) * (height as u64);
    let len = rgba.len();
    if pixels > (usize::MAX / 4) as u64 {
        return None;
    }
    let needed: usize = (pixels as usize) * 4;
    if len < needed {
        return None;
    }
    let mut rgba = rgba;
    rgba.truncate(needed);
    Some(IconImage { rgba, width, height })
}

/// Decodes a JPEG image into a window icon: its size is the decoded size, its buffer the
/// decoded pixels, four bytes each; it fails exactly where the bytes do not decode.
pub fn load_icon(bytes: &[u8]) -> (r: Result<IconImage, IconError>)
    ensures
        r is Ok <==> jpeg_rgba_of(bytes@) is Some,
        r is Ok ==> r->Ok_0.wf() && jpeg_rgba_of(bytes@)->Some_0.1 == r->Ok_0.width
            && jpeg_rgba_of(bytes@)->Some_0.2 == r->Ok_0.height && r->Ok_0.rgba@
            == jpeg_rgba_of(bytes@)->Some_0.0.subrange(0, 4 * r->Ok_0.width * r->Ok_0.height),
{
    match decode_jpeg_rgba(bytes) {
        Ok((rgba, width, height)) => match icon_from_rgba(rgba, width, height) {
            Some(icon) => Ok(icon),
            None => Err(IconError::Decode),
        },
        Err(_) => Err(IconError::Decode),
    }
}

} // verus!
