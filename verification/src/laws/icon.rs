//! Laws of the tray icon's picture.
use vstd::prelude::*;
use crate::icon::{decoded_picture, icon, icon_from, invalid_icon, IconImage};
use crate::laws::native::is_error;
use crate::picture::has_broken_palette;

verus! {

/// A decoded picture becomes the icon pixel by pixel, and with its own width and height; where there is
/// none, the error says what it is about.
pub proof fn law_pictures_become_icons(
    picture: Result<(Vec<u8>, u32, u32), String>,
    made: Result<IconImage, String>,
)
    requires
        call_ensures(icon_from, (picture,), made),
    ensures
        made is Ok <==> picture is Ok,
        picture matches Ok((rgba, width, height)) ==> {
            &&& (made->Ok_0).rgba@ == rgba@
            &&& (made->Ok_0).width == width
            &&& (made->Ok_0).height == height
        },
        picture matches Err(error) ==> is_error(made, "invalid tray icon: "@ + error@),
{
}

/// A file whose palette is whole gives the icon of the picture that it holds, or the error of holding
/// none; one whose palette is broken gives an error that says so.
pub proof fn law_files_become_icons(bytes: Vec<u8>, broken: bool, made: Result<IconImage, String>)
    requires
        call_ensures(has_broken_palette, (&bytes,), broken),
        call_ensures(icon, (&bytes,), made),
    ensures
        broken ==> is_error(made, "invalid tray icon: "@ + "incomplete palette"@),
        !broken ==> match decoded_picture(bytes@, usize::BITS as nat) {
            Ok((rgba, width, height)) => made is Ok && (made->Ok_0).rgba@ == rgba && (
            made->Ok_0).width == width && (made->Ok_0).height == height,
            Err(error) => is_error(made, "invalid tray icon: "@ + error),
        },
{
}

/// What is said of a picture that cannot be used is the error behind a fixed beginning.
pub proof fn law_unusable_pictures_are_told(error: &str, text: String)
    requires
        call_ensures(invalid_icon, (error,), text),
    ensures
        text@ == "invalid tray icon: "@ + error@,
{
}

} // verus!
