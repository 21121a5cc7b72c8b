use window_modifier::geometry::Rect;
use window_modifier::main_app::MainApp;
use window_modifier::style::{
    fullscreen_ex_style, fullscreen_style, set_flag, with_maximize_box, with_minimize_box,
    with_thick_frame, MAXIMIZE_BOX, MINIMIZE_BOX, THICK_FRAME,
};
use window_modifier::utils::{gcd, reduced_ratio};
use window_modifier::window_info::{WindowCommand, WindowError, WindowHandle, WindowInfo};

fn record() -> WindowInfo {
    WindowInfo::new(77, WindowHandle(7), "notes".to_string(), String::new())
}

#[test]
fn valid_only_while_window_lives_in_same_process() {
    let w = record();
    assert!(w.is_valid(true, 77));
    assert!(!w.is_valid(false, 77));
    assert!(!w.is_valid(false, 0));
    // the handle was recycled for a window of another process
    assert!(!w.is_valid(true, 78));
}

#[test]
fn check_valid_reports_handle_invalidated() {
    let w = record();
    assert_eq!(w.check_valid(true, 77), Ok(()));
    assert_eq!(w.check_valid(false, 0), Err(WindowError::HandleInvalidated));
    assert_eq!(w.check_valid(true, 1), Err(WindowError::HandleInvalidated));
}

#[test]
fn outer_size_of_destroyed_window_fails() {
    let w = record();
    let err = WindowError::PlatformQueryFailed("Invalid window handle.".to_string());
    assert_eq!(w.get_size(Err(err.clone())), Err(err.clone()));
    assert_eq!(w.get_position(Err(err.clone())), Err(err.clone()));
    assert_eq!(w.get_inner_size(Err(err.clone())), Err(err));
}

#[test]
fn size_and_position_from_rectangles() {
    let w = record();
    let outer = Rect { left: -8, top: 20, right: 1288, bottom: 760 };
    assert_eq!(w.get_size(Ok(outer)), Ok([1296, 740]));
    assert_eq!(w.get_position(Ok(outer)), Ok([-8, 20]));
    let client = Rect { left: 0, top: 0, right: 1280, bottom: 720 };
    assert_eq!(w.get_inner_size(Ok(client)), Ok([1280, 720]));
}

#[test]
fn inner_size_request_round_trips() {
    let w = record();
    let request = w.inner_rect_request([1280, 720]);
    assert_eq!(request, Rect { left: 0, top: 0, right: 1280, bottom: 720 });
    assert_eq!(request.size(), [1280, 720]);
    assert_eq!(w.get_inner_size(Ok(request)), Ok([1280, 720]));
    assert_eq!(Rect::from_size([0, 0]).size(), [0, 0]);
}

#[test]
fn resize_inner_uses_adjusted_rectangle() {
    let w = record();
    // borders of 8 and a caption of 31 around a 1280x720 client area
    let adjusted = Rect { left: -8, top: -31, right: 1288, bottom: 728 };
    assert_eq!(w.resize_inner(Ok(adjusted)), Ok(WindowCommand::Resize { width: 1296, height: 759 }));
    let err = WindowError::PlatformQueryFailed("bad style".to_string());
    assert_eq!(w.resize_inner(Err(err.clone())), Err(err));
}

#[test]
fn geometry_commands() {
    let w = record();
    assert_eq!(w.resize([8192, 0]), WindowCommand::Resize { width: 8192, height: 0 });
    assert_eq!(w.move_to([-8192, 8192]), WindowCommand::MoveTo { x: -8192, y: 8192 });
    assert_eq!(w.set_top_most(true), WindowCommand::SetTopMost(true));
    assert_eq!(w.set_top_most(false), WindowCommand::SetTopMost(false));
}

#[test]
fn style_bit_commands() {
    let w = record();
    assert_eq!(w.set_maximizable(0x00CF_0000, false), WindowCommand::SetStyle(0x00CE_0000));
    assert_eq!(w.set_maximizable(0, true), WindowCommand::SetStyle(0x0001_0000));
    assert_eq!(w.set_minimizable(0, true), WindowCommand::SetStyle(0x0002_0000));
    assert_eq!(w.set_minimizable(0x00CF_0000, false), WindowCommand::SetStyle(0x00CD_0000));
    assert_eq!(w.set_resizable(0x00CF_0000, false), WindowCommand::SetStyle(0x00CB_0000));
    assert_eq!(w.set_resizable(0x1000_0000, true), WindowCommand::SetStyle(0x1004_0000));
}

#[test]
fn style_flags_touch_only_their_bit() {
    for style in [0u32, 0x00CF_0000, 0xFFFF_FFFF, 0x1234_5678] {
        for (flag, f) in [
            (MAXIMIZE_BOX, with_maximize_box as fn(u32, bool) -> u32),
            (MINIMIZE_BOX, with_minimize_box),
            (THICK_FRAME, with_thick_frame),
        ] {
            assert_eq!(f(style, true) & flag, flag);
            assert_eq!(f(style, false) & flag, 0);
            assert_eq!(f(style, true) & !flag, style & !flag);
            assert_eq!(f(f(style, true), true), f(style, true));
        }
    }
    assert_eq!(set_flag(0b1010, 0b0110, true), 0b1110);
    assert_eq!(set_flag(0b1010, 0b0110, false), 0b1000);
}

#[test]
fn fullscreen_styles() {
    assert_eq!(fullscreen_style(0x14CF_0000), 0x9400_0000);
    assert_eq!(fullscreen_style(0), 0x8000_0000);
    assert_eq!(fullscreen_ex_style(0x0004_0101), 0x0000_0001);
    assert_eq!(fullscreen_ex_style(0x0000_0008), 0x0000_0008);
}

#[test]
fn gcd_values() {
    assert_eq!(gcd(12, 18), 6);
    assert_eq!(gcd(1920, 1080), 120);
    assert_eq!(gcd(7, 0), 7);
    assert_eq!(gcd(0, 9), 9);
    assert_eq!(gcd(0, 0), 0);
    assert_eq!(gcd(17, 5), 1);
}

#[test]
fn ratio_in_lowest_terms() {
    assert_eq!(reduced_ratio([1920, 1080]), [16, 9]);
    assert_eq!(reduced_ratio([1280, 1024]), [5, 4]);
    assert_eq!(reduced_ratio([7, 3]), [7, 3]);
    assert_eq!(reduced_ratio([0, 1080]), [0, 1080]);
    assert_eq!(reduced_ratio([800, 0]), [800, 0]);
    assert_eq!(reduced_ratio([-4, 6]), [-4, 6]);
}

#[test]
fn main_app_new() {
    let _app = MainApp::new();
}
