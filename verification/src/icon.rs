//! The tray icon's picture.
use vstd::prelude::*;
use crate::picture::{broken_palette, has_broken_palette};

verus! {

/// A picture: four bytes for each pixel, row by row.
#[derive(Debug)]
pub struct IconImage {
    pub rgba: Vec<u8>,
    pub width: u32,
    pub height: u32,
}

/// A decoded picture, or why there is none, seen through bytes and characters.
pub open spec fn picture_view(picture: Result<(Vec<u8>, u32, u32), String>) -> Result<
    (Seq<u8>, u32, u32),
    Seq<char>,
> {
    match picture {
        Ok((rgba, width, height)) => Ok((rgba@, width, height)),
        Err(error) => Err(error@),
    }
}

/// The bytes of the pixels, the width and the height of the picture that
/// `load_from_memory_with_format` of the crate `image` finds in bytes, or what it says where it finds
/// none, on a machine whose addresses have so many bits. The format that it is given is the one that
/// the first bytes tell.
pub uninterp spec fn decoded_picture(bytes: Seq<u8>, address_bits: nat) -> Result<
    (Seq<u8>, u32, u32),
    Seq<char>,
>;

/// `load_from_memory_with_format` of the crate `image`, with the format that `guess_format` of that
/// crate reads in the first bytes; `DynamicImage::into_rgba8` converts what was found to eight bits
/// for each of red, green, blue and opacity. What comes of it depends on the bytes and on the width of
/// addresses alone: sizes are told in that width, and neither function asks the decoders that a
/// program can register. Which bytes hold a picture, and which one, is left open. The call panics on
/// a PNG picture whose palette is cut off in the middle of a colour, so it is not made there.
#[verifier::external_body]
fn load_picture(bytes: &Vec<u8>) -> (picture: Result<(Vec<u8>, u32, u32), String>)
    requires
        !broken_palette(bytes@),
    ensures
        picture_view(picture) == decoded_picture(bytes@, usize::BITS as nat),
{
    let found = image::guess_format(bytes)
        .and_then(|format| image::load_from_memory_with_format(bytes, format))
        .map_err(|error| error.to_string())?
        .into_rgba8();
    let size: (u32, u32) = found.dimensions();
    Ok((found.into_raw(), size.0, size.1))
}

/// What is said of a picture that cannot be used.
pub open spec fn invalid_text(error: Seq<char>) -> Seq<char> {
    "invalid tray icon: "@ + error
}

/// What is said of a picture that cannot be used.
pub fn invalid_icon(error: &str) -> (text: String)
    ensures
        text@ == invalid_text(error@),
{
    let mut text = "invalid tray icon: ".to_owned();
    text.append(error);
    text
}

/// What becomes of a decoded picture.
pub open spec fn icon_view(icon: Result<IconImage, String>) -> Result<
    (Seq<u8>, u32, u32),
    Seq<char>,
> {
    match icon {
        Ok(image) => Ok((image.rgba@, image.width, image.height)),
        Err(error) => Err(error@),
    }
}

/// A picture as it was decoded, or an error that says what it is about.
pub open spec fn icon_outcome(picture: Result<(Seq<u8>, u32, u32), Seq<char>>) -> Result<
    (Seq<u8>, u32, u32),
    Seq<char>,
> {
    match picture {
        Ok(found) => Ok(found),
        Err(error) => Err(invalid_text(error)),
    }
}

/// The icon that a decoded picture makes.
pub fn icon_from(picture: Result<(Vec<u8>, u32, u32), String>) -> (icon: Result<IconImage, String>)
    ensures
        icon_view(icon) == icon_outcome(picture_view(picture)),
{
    match picture {
        Ok((rgba, width, height)) => Ok(IconImage { rgba, width, height }),
        Err(error) => Err(invalid_icon(error.as_str())),
    }
}

/// The icon that the bytes of a picture file hold, or an error that says what it is about. A palette
/// that is cut off in the middle of a colour is such an error.
pub fn icon(bytes: &Vec<u8>) -> (icon: Result<IconImage, String>)
    ensures
        !broken_palette(bytes@) ==> icon_view(icon) == icon_outcome(
            decoded_picture(bytes@, usize::BITS as nat),
        ),
        broken_palette(bytes@) ==> icon_view(icon) == icon_outcome(Err("incomplete palette"@)),
{
    if has_broken_palette(bytes) {
        Err(invalid_icon("incomplete palette"))
    } else {
        icon_from(load_picture(bytes))
    }
}

} // verus!
