//! The window: where it stands, what closing it does, and when another start of the program shows it.
use vstd::prelude::*;

verus! {

/// The result of a wait that ended because the event was set.
pub const WAIT_OBJECT_0: u32 = 0;

/// How many milliseconds one wait for the event lasts.
pub const SHOW_EVENT_MILLISECONDS: u32 = 200;

/// The edges of a window, in pixels.
#[derive(Debug, Clone, Copy, PartialEq, Eq, Structural)]
pub struct Edges {
    pub left: i32,
    pub top: i32,
    pub right: i32,
    pub bottom: i32,
}

/// Whether a number fits into 32 bits with a sign.
pub open spec fn fits(n: int) -> bool {
    i32::MIN <= n <= i32::MAX
}

impl Edges {
    /// How wide the window is.
    pub open spec fn width(self) -> int {
        self.right - self.left
    }

    /// How high the window is.
    pub open spec fn height(self) -> int {
        self.bottom - self.top
    }
}

/// Half of a number, rounded towards zero.
pub open spec fn half(n: int) -> int {
    if n >= 0 {
        n / 2
    } else {
        -((-n) / 2)
    }
}

/// Half of the space that a length leaves of another.
fn margin(whole: i32, part: i32) -> (space: i32)
    requires
        fits(whole - part),
    ensures
        space == half(whole - part),
{
    let space: i32 = whole - part;
    if space >= 0 {
        space / 2
    } else {
        let missing: u32 = (0 - (space as i64)) as u32;
        (0 - ((missing / 2) as i64)) as i32
    }
}

/// The place of the upper left corner that puts a window in the middle of the screen. A window that
/// is larger than the screen hangs over on both sides.
pub fn center_window(screen_width: i32, screen_height: i32, edges: Edges) -> (corner: (i32, i32))
    requires
        fits(edges.width()),
        fits(edges.height()),
        fits(screen_width - edges.width()),
        fits(screen_height - edges.height()),
    ensures
        corner.0 == half(screen_width - edges.width()),
        corner.1 == half(screen_height - edges.height()),
{
    let width: i32 = edges.right - edges.left;
    let height: i32 = edges.bottom - edges.top;
    (margin(screen_width, width), margin(screen_height, height))
}

/// The place of the upper left corner that puts a window in the middle of the screen, where all the
/// distances can be told in 32 bits.
pub fn center_if_possible(screen_width: i32, screen_height: i32, edges: Edges) -> (corner: Option<
    (i32, i32),
>)
    ensures
        corner is Some <==> {
            &&& fits(edges.width())
            &&& fits(edges.height())
            &&& fits(screen_width - edges.width())
            &&& fits(screen_height - edges.height())
        },
        corner matches Some(place) ==> {
            &&& place.0 == half(screen_width - edges.width())
            &&& place.1 == half(screen_height - edges.height())
        },
{
    let width: i32 = match edges.right.checked_sub(edges.left) {
        Some(length) => length,
        None => return None,
    };
    let height: i32 = match edges.bottom.checked_sub(edges.top) {
        Some(length) => length,
        None => return None,
    };
    match (screen_width.checked_sub(width), screen_height.checked_sub(height)) {
        (Some(_), Some(_)) => Some(center_window(screen_width, screen_height, edges)),
        _ => None,
    }
}

/// Whether closing the window ends the program. The window is hidden either way.
pub fn close_quits(close_to_tray: bool) -> (quits: bool)
    ensures
        quits == !close_to_tray,
{
    !close_to_tray
}

/// Whether another start of the program shows the window: the event was set, and the program is not
/// about to end.
pub fn show_event_fires(wait_result: u32, ending: bool) -> (fires: bool)
    ensures
        fires == (wait_result == WAIT_OBJECT_0 && !ending),
{
    wait_result == WAIT_OBJECT_0 && !ending
}

/// What is said where the window cannot be shown.
pub fn show_failure(source: &str, error: &str) -> (text: String)
    ensures
        text@ == "Show window failed from "@ + source@ + ": "@ + error@,
{
    let mut text = "Show window failed from ".to_owned();
    text.append(source);
    text.append(": ");
    text.append(error);
    text
}

/// A centered window has the same space on both sides, up to one pixel.
pub proof fn law_centered_window_is_in_the_middle(screen_width: i32, edges: Edges)
    requires
        fits(edges.width()),
        fits(screen_width - edges.width()),
    ensures
        ({
            let left = half(screen_width - edges.width());
            let right = screen_width - edges.width() - left;
            -1 <= right - left <= 1
        }),
{
}

} // verus!
