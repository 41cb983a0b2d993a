//! The icon of the player's window.
use vstd::prelude::*;

verus! {

/// A picture with four bytes for each pixel: red, green, blue and opacity.
#[derive(Debug)]
pub struct IconData {
    pub rgba: Vec<u8>,
    pub width: u32,
    pub height: u32,
}

/// What a PNG file shows: the bytes of its pixels, its width and its height; none if the
/// bytes are no PNG file that can be decoded.
pub uninterp spec fn png_pixels(png: Seq<u8>) -> Option<(Seq<u8>, u32, u32)>;

/// The contents of a decoded picture.
pub open spec fn picture_view(picture: Option<(Vec<u8>, u32, u32)>) -> Option<(Seq<u8>, u32, u32)> {
    match picture {
        Some((rgba, width, height)) => Some((rgba@, width, height)),
        None => None,
    }
}

/// Decodes a PNG file with `image::load_from_memory_with_format`, and converts it with
/// `DynamicImage::into_rgba8`.
///
/// Trusted: what comes out is a function of the bytes of the file, and a picture has four
/// bytes for each of its pixels.
#[verifier::external_body]
fn decode_png(png: &[u8]) -> (picture: Option<(Vec<u8>, u32, u32)>)
    ensures
        picture_view(picture) == png_pixels(png@),
        match picture {
            Some((rgba, width, height)) => rgba@.len() == 4 * width * height,
            None => true,
        },
{
    let image = image::load_from_memory_with_format(png, image::ImageFormat::Png).ok()?.into_rgba8();
    let (width, height) = image.dimensions();
    Some((image.into_raw(), width, height))
}

/// The icon that a decoded picture makes.
pub fn icon_of(picture: Option<(Vec<u8>, u32, u32)>) -> (icon: Option<IconData>)
    ensures
        match picture {
            Some((rgba, width, height)) => icon == Some(IconData { rgba, width, height }),
            None => icon is None,
        },
{
    match picture {
        Some((rgba, width, height)) => Some(IconData { rgba, width, height }),
        None => None,
    }
}

/// The icon in a PNG file, if it can be decoded.
pub fn load_app_icon(png: &[u8]) -> (icon: Option<IconData>)
    ensures
        match icon {
            Some(icon) => {
                &&& png_pixels(png@) == Some((icon.rgba@, icon.width, icon.height))
                &&& icon.rgba@.len() == 4 * icon.width * icon.height
            },
            None => png_pixels(png@) is None,
        },
{
    icon_of(decode_png(png))
}

} // verus!
