//! What the utility knows of a window: its handle, its place in the window
//! tree, its class and title, and its bounds on screen.

use vstd::prelude::*;
use vstd::slice::slice_subrange;

verus! {

/// Number of UTF-16 units a window's title or class name is read into; longer
/// texts arrive cut off at this length.
pub const WINDOW_TEXT_CAPACITY: usize = 255;

/// Bounds of a window in screen coordinates.
#[derive(Debug, Clone, Copy, PartialEq, Eq)]
pub struct Rect {
    pub left: i32,
    pub top: i32,
    pub right: i32,
    pub bottom: i32,
}

/// Extent of a window.
#[derive(Debug, Clone, Copy, PartialEq, Eq)]
pub struct RectSize {
    pub width: i64,
    pub height: i64,
}

/// A window as it was found when the desktop was last looked at.
#[derive(Debug, Clone, PartialEq, Eq)]
pub struct WindowDetail {
    pub hwnd: usize,
    pub parent: Option<usize>,
    pub class_name: String,
    pub title: String,
}

/// A window's detail with its texts as sequences of characters.
pub struct WindowDetailView {
    pub hwnd: usize,
    pub parent: Option<usize>,
    pub class_name: Seq<char>,
    pub title: Seq<char>,
}

impl View for WindowDetail {
    type V = WindowDetailView;

    open spec fn view(&self) -> WindowDetailView {
        WindowDetailView {
            hwnd: self.hwnd,
            parent: self.parent,
            class_name: self.class_name@,
            title: self.title@,
        }
    }
}

/// The details of a list of windows, in the same order.
pub open spec fn details_view(windows: Seq<WindowDetail>) -> Seq<WindowDetailView> {
    windows.map_values(|w: WindowDetail| w@)
}

/// Horizontal extent of a rectangle.
pub open spec fn rect_width(rect: Rect) -> int {
    rect.right - rect.left
}

/// Vertical extent of a rectangle.
pub open spec fn rect_height(rect: Rect) -> int {
    rect.bottom - rect.top
}

/// Extent of a window with the given bounds.
pub fn rect_to_size(rect: Rect) -> (size: RectSize)
    ensures
        size.width == rect_width(rect),
        size.height == rect_height(rect),
{
    RectSize {
        width: rect.right as i64 - rect.left as i64,
        height: rect.bottom as i64 - rect.top as i64,
    }
}

/// The text that `String::from_utf16_lossy` decodes from UTF-16 units.
pub uninterp spec fn utf16_lossy_text(units: Seq<u16>) -> Seq<char>;

/// Trusted: `String::from_utf16_lossy` decodes UTF-16, putting U+FFFD in place
/// of each unit that is no part of a valid encoding. The text depends on the
/// units alone, and no units give no text.
pub assume_specification[ String::from_utf16_lossy ](units: &[u16]) -> (text: String)
    ensures
        text@ == utf16_lossy_text(units@),
        units@.len() == 0 ==> text@.len() == 0,
;

/// The text of a window's title or class name, given the buffer the window
/// system filled and the number of units it reported to have written.
pub fn window_text(buffer: &[u16], len: i32) -> (text: String)
    requires
        0 <= len <= buffer@.len(),
    ensures
        text@ == utf16_lossy_text(buffer@.take(len as int)),
        len == 0 ==> text@.len() == 0,
{
    let written = slice_subrange(buffer, 0, len as usize);
    String::from_utf16_lossy(written)
}

/// The detail of a window, given the buffers its title and its class name were
/// read into and the lengths the window system reported. The parent is left
/// open: it is known only to whoever walks the window tree.
pub fn get_window_detail(
    hwnd: usize,
    title_buffer: &[u16],
    title_len: i32,
    class_buffer: &[u16],
    class_len: i32,
) -> (detail: WindowDetail)
    requires
        0 <= title_len <= title_buffer@.len(),
        0 <= class_len <= class_buffer@.len(),
    ensures
        detail@ == (WindowDetailView {
            hwnd,
            parent: None,
            class_name: utf16_lossy_text(class_buffer@.take(class_len as int)),
            title: utf16_lossy_text(title_buffer@.take(title_len as int)),
        }),
        title_len == 0 ==> detail@.title.len() == 0,
{
    let title = window_text(title_buffer, title_len);
    let class_name = window_text(class_buffer, class_len);
    WindowDetail { hwnd, parent: None, class_name, title }
}

} // verus!
