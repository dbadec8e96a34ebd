//! Laws of the window.
use vstd::prelude::*;
use crate::window::{
    center_if_possible, center_window, close_quits, show_event_fires, show_failure, Edges,
};

verus! {

/// Whether a number is one of 32 bits.
pub open spec fn in_range(n: int) -> bool {
    -2147483648 <= n <= 2147483647
}

/// Whether a place leaves a length in the middle of another: the space on both sides is the same, and
/// an odd pixel goes to the far side, or is missing there.
pub open spec fn is_middle(whole: int, part: int, place: int) -> bool {
    let far = whole - part - place;
    &&& whole >= part ==> far == place || far == place + 1
    &&& whole < part ==> far == place || far == place - 1
}

/// A centered window has the same space on both sides and above and below, up to a pixel.
pub proof fn law_windows_are_centered(
    screen_width: i32,
    screen_height: i32,
    edges: Edges,
    corner: (i32, i32),
)
    requires
        in_range(edges.right - edges.left),
        in_range(edges.bottom - edges.top),
        in_range(screen_width - (edges.right - edges.left)),
        in_range(screen_height - (edges.bottom - edges.top)),
        call_ensures(center_window, (screen_width, screen_height, edges), corner),
    ensures
        is_middle(screen_width as int, edges.right - edges.left, corner.0 as int),
        is_middle(screen_height as int, edges.bottom - edges.top, corner.1 as int),
{
}

/// Where the window stands does not matter for where it goes: only its size does.
pub proof fn law_place_does_not_matter(
    screen_width: i32,
    screen_height: i32,
    edges: Edges,
    moved: Edges,
    corner: Option<(i32, i32)>,
    moved_corner: Option<(i32, i32)>,
)
    requires
        edges.right - edges.left == moved.right - moved.left,
        edges.bottom - edges.top == moved.bottom - moved.top,
        call_ensures(center_if_possible, (screen_width, screen_height, edges), corner),
        call_ensures(center_if_possible, (screen_width, screen_height, moved), moved_corner),
    ensures
        corner == moved_corner,
{
}

/// A window is centered exactly when all the distances can be told in 32 bits, and then in the middle.
pub proof fn law_windows_are_centered_where_possible(
    screen_width: i32,
    screen_height: i32,
    edges: Edges,
    corner: Option<(i32, i32)>,
)
    requires
        call_ensures(center_if_possible, (screen_width, screen_height, edges), corner),
    ensures
        corner is Some <==> {
            &&& in_range(edges.right - edges.left)
            &&& in_range(edges.bottom - edges.top)
            &&& in_range(screen_width - (edges.right - edges.left))
            &&& in_range(screen_height - (edges.bottom - edges.top))
        },
        corner matches Some(place) ==> is_middle(
            screen_width as int,
            edges.right - edges.left,
            place.0 as int,
        ) && is_middle(screen_height as int, edges.bottom - edges.top, place.1 as int),
{
}

/// Closing the window ends the program exactly when it does not stay in the tray.
pub proof fn law_closing_the_window(close_to_tray: bool, quits: bool)
    requires
        call_ensures(close_quits, (close_to_tray,), quits),
    ensures
        quits != close_to_tray,
{
}

/// The window is shown exactly when the event was set and the program is not about to end.
pub proof fn law_event_shows_the_window(wait_result: u32, ending: bool, fires: bool)
    requires
        call_ensures(show_event_fires, (wait_result, ending), fires),
    ensures
        fires <==> wait_result == 0 && !ending,
{
}

/// What is said of a window that cannot be shown names who asked for it, and the error.
pub proof fn law_failures_to_show_are_told(source: &str, error: &str, text: String)
    requires
        call_ensures(show_failure, (source, error), text),
    ensures
        text@ == "Show window failed from "@ + source@ + ": "@ + error@,
{
}

} // verus!
