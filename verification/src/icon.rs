use vstd::prelude::*;

verus! {

/// The pixels (four bytes per pixel, red, green, blue, alpha, row by row),
/// width and height that `image` decodes from `bytes`, or `None` when `image`
/// cannot decode them.
pub uninterp spec fn rgba_image(bytes: Seq<u8>) -> Option<(Seq<u8>, u32, u32)>;

/// `image::load_from_memory` on `bytes`, followed by `to_rgba8`,
/// `dimensions` and `into_raw` on the picture.
///
/// Claims only that the result is the named function `rgba_image` of the
/// bytes: what decoding gives is left unstated.
#[verifier::external_body]
fn decode_rgba(bytes: &[u8]) -> (r: Option<(Vec<u8>, u32, u32)>)
    ensures
        match r {
            Some((p, w, h)) => rgba_image(bytes@) == Some((p@, w, h)),
            None => rgba_image(bytes@) is None,
        },
{
    match image::load_from_memory(bytes) {
        Ok(picture) => {
            let rgba = picture.to_rgba8();
            let (w, h) = rgba.dimensions();
            Some((rgba.into_raw(), w, h))
        },
        Err(_) => None,
    }
}

/// A decoded icon: its pixels as RGBA bytes, row by row, and its size.
pub struct IconImage {
    pub rgba: Vec<u8>,
    pub width: u32,
    pub height: u32,
}

/// Decodes the icon picture `bytes`.
pub fn load_icon(bytes: &[u8]) -> (r: Option<IconImage>)
    ensures
        match r {
            Some(icon) => rgba_image(bytes@) == Some((icon.rgba@, icon.width, icon.height)),
            None => rgba_image(bytes@) is None,
        },
{
    match decode_rgba(bytes) {
        Some((rgba, width, height)) => Some(IconImage { rgba, width, height }),
        None => None,
    }
}

} // verus!
