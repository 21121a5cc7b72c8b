//! Window style bitmasks: the single bits that the library toggles and the
//! masks that borderless fullscreen strips or adds.
//!
//! The values are those of the Win32 `WS_*` and `WS_EX_*` constants.
use vstd::prelude::*;

verus! {

/// The style bit that gives a window its maximize button.
pub const MAXIMIZE_BOX: u32 = 0x0001_0000;

/// The style bit that gives a window its minimize button.
pub const MINIMIZE_BOX: u32 = 0x0002_0000;

/// The style bit that gives a window a sizing border.
pub const THICK_FRAME: u32 = 0x0004_0000;

/// The group of style bits of an ordinary overlapped window: caption, system
/// menu, sizing border, minimize and maximize buttons.
pub const OVERLAPPED_WINDOW: u32 = 0x00CF_0000;

/// The style bit of a pop-up window.
pub const POPUP: u32 = 0x8000_0000;

/// The extended style bit that puts a window on the taskbar.
pub const EX_APP_WINDOW: u32 = 0x0004_0000;

/// The extended style bit of a raised window edge.
pub const EX_WINDOW_EDGE: u32 = 0x0000_0100;

/// `style` with the bits of `flag` set when `on`, cleared otherwise.
pub open spec fn with_flag(style: u32, flag: u32, on: bool) -> u32 {
    if on {
        style | flag
    } else {
        style & !flag
    }
}

/// The style of a window in borderless fullscreen: the overlapped-window group
/// removed and the pop-up bit added.
pub open spec fn fullscreen_style_of(style: u32) -> u32 {
    (style & !OVERLAPPED_WINDOW) | POPUP
}

/// The extended style of a window in borderless fullscreen: the taskbar and
/// raised-edge bits removed.
pub open spec fn fullscreen_ex_style_of(ex_style: u32) -> u32 {
    ex_style & !(EX_APP_WINDOW | EX_WINDOW_EDGE)
}

/// Setting or clearing a flag makes exactly its bits equal to `on` and leaves
/// every other bit of the style as it was.
pub proof fn lemma_with_flag(style: u32, flag: u32, on: bool)
    ensures
        with_flag(style, flag, on) & flag == (if on { flag } else { 0 }),
        with_flag(style, flag, on) & !flag == style & !flag,
{
    if on {
        assert((style | flag) & flag == flag) by (bit_vector);
        assert((style | flag) & !flag == style & !flag) by (bit_vector);
    } else {
        assert((style & !flag) & flag == 0) by (bit_vector);
        assert((style & !flag) & !flag == style & !flag) by (bit_vector);
    }
}

/// Setting a flag to the value it already has leaves the style unchanged, and a
/// second identical change does nothing more than the first.
pub proof fn lemma_with_flag_idempotent(style: u32, flag: u32, on: bool)
    ensures
        with_flag(with_flag(style, flag, on), flag, on) == with_flag(style, flag, on),
        (style & flag == (if on { flag } else { 0 })) ==> with_flag(style, flag, on) == style,
{
    if on {
        assert((style | flag) | flag == style | flag) by (bit_vector);
        assert(style & flag == flag ==> style | flag == style) by (bit_vector);
    } else {
        assert((style & !flag) & !flag == style & !flag) by (bit_vector);
        assert(style & flag == 0 ==> style & !flag == style) by (bit_vector);
    }
}

/// The borderless fullscreen style keeps every bit outside the overlapped-window
/// group and the pop-up bit, and has the pop-up bit set.
pub proof fn lemma_fullscreen_style(style: u32)
    ensures
        fullscreen_style_of(style) & POPUP == POPUP,
        fullscreen_style_of(style) & OVERLAPPED_WINDOW == 0,
        fullscreen_style_of(style) & !(OVERLAPPED_WINDOW | POPUP) == style & !(OVERLAPPED_WINDOW
            | POPUP),
{
    assert(((style & !OVERLAPPED_WINDOW) | POPUP) & POPUP == POPUP) by (bit_vector);
    assert(((style & !OVERLAPPED_WINDOW) | POPUP) & OVERLAPPED_WINDOW == 0) by (bit_vector);
    assert(((style & !OVERLAPPED_WINDOW) | POPUP) & !(OVERLAPPED_WINDOW | POPUP) == style & !(
    OVERLAPPED_WINDOW | POPUP)) by (bit_vector);
}

/// `style` with the bits of `flag` set or cleared.
pub fn set_flag(style: u32, flag: u32, on: bool) -> (r: u32)
    ensures
        r == with_flag(style, flag, on),
{
    if on {
        style | flag
    } else {
        style & !flag
    }
}

/// `style` with the maximize button added or removed.
pub fn with_maximize_box(style: u32, maximizable: bool) -> (r: u32)
    ensures
        r == with_flag(style, MAXIMIZE_BOX, maximizable),
{
    set_flag(style, MAXIMIZE_BOX, maximizable)
}

/// `style` with the minimize button added or removed.
pub fn with_minimize_box(style: u32, minimizable: bool) -> (r: u32)
    ensures
        r == with_flag(style, MINIMIZE_BOX, minimizable),
{
    set_flag(style, MINIMIZE_BOX, minimizable)
}

/// `style` with the sizing border added or removed.
pub fn with_thick_frame(style: u32, resizable: bool) -> (r: u32)
    ensures
        r == with_flag(style, THICK_FRAME, resizable),
{
    set_flag(style, THICK_FRAME, resizable)
}

/// The style that borderless fullscreen gives a window whose style is `style`.
pub fn fullscreen_style(style: u32) -> (r: u32)
    ensures
        r == fullscreen_style_of(style),
{
    (style & !OVERLAPPED_WINDOW) | POPUP
}

/// The extended style that borderless fullscreen gives a window whose extended
/// style is `ex_style`.
pub fn fullscreen_ex_style(ex_style: u32) -> (r: u32)
    ensures
        r == fullscreen_ex_style_of(ex_style),
{
    ex_style & !(EX_APP_WINDOW | EX_WINDOW_EDGE)
}

} // verus!
