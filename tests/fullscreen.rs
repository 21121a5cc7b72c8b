use window_modifier::geometry::Rect;
use window_modifier::window_info::{WindowCommand, WindowError, WindowHandle, WindowInfo, WindowStatus};

#[derive(Debug, Clone, Copy, PartialEq)]
struct Model {
    x: i32,
    y: i32,
    width: i32,
    height: i32,
    style: u32,
    ex_style: u32,
    top_most: bool,
}

impl Model {
    fn rect(&self) -> Rect {
        Rect { left: self.x, top: self.y, right: self.x + self.width, bottom: self.y + self.height }
    }

    fn apply(&mut self, commands: &[WindowCommand]) {
        for c in commands {
            match *c {
                WindowCommand::SetStyle(s) => self.style = s,
                WindowCommand::SetExStyle(s) => self.ex_style = s,
                WindowCommand::Resize { width, height } => {
                    self.width = width;
                    self.height = height;
                }
                WindowCommand::MoveTo { x, y } => {
                    self.x = x;
                    self.y = y;
                }
                WindowCommand::SetTopMost(t) => self.top_most = t,
            }
        }
    }
}

const MONITOR: Rect = Rect { left: 0, top: 0, right: 1920, bottom: 1080 };

fn record() -> WindowInfo {
    WindowInfo::new(42, WindowHandle(0x1234), "game".to_string(), "C:\\game.exe".to_string())
}

fn windowed() -> Model {
    Model {
        x: 100,
        y: 50,
        width: 800,
        height: 600,
        style: 0x14CF_0000,
        ex_style: 0x0004_0100,
        top_most: false,
    }
}

#[test]
fn enter_fullscreen_covers_monitor_without_chrome() {
    let mut info = record();
    let mut os = windowed();
    let commands = info
        .set_borderless_fullscreen(os.style, os.ex_style, Ok(os.rect()), Ok(MONITOR))
        .unwrap();
    os.apply(&commands);
    assert_eq!(os.x, 0);
    assert_eq!(os.y, 0);
    assert_eq!(os.width, 1920);
    assert_eq!(os.height, 1080);
    assert_eq!(os.style, 0x9400_0000);
    assert_eq!(os.ex_style, 0);
    assert_eq!(
        info.borderless_fullscreen_storage,
        Some(WindowStatus { width: 800, height: 600, x: 100, y: 50, style: 0x14CF_0000, ex_style: 0x0004_0100 })
    );
}

#[test]
fn enter_fullscreen_moves_to_monitor_origin() {
    let mut info = record();
    let os = windowed();
    let second = Rect { left: 1920, top: -200, right: 4480, bottom: 1240 };
    let commands = info
        .set_borderless_fullscreen(os.style, os.ex_style, Ok(os.rect()), Ok(second))
        .unwrap();
    assert_eq!(commands[2], WindowCommand::Resize { width: 2560, height: 1440 });
    assert_eq!(commands[3], WindowCommand::MoveTo { x: 1920, y: -200 });
}

#[test]
fn enter_fullscreen_twice_is_once() {
    let mut info = record();
    let mut os = windowed();
    let first = info
        .set_borderless_fullscreen(os.style, os.ex_style, Ok(os.rect()), Ok(MONITOR))
        .unwrap();
    os.apply(&first);
    let after_once = os;
    let saved_once = info.borderless_fullscreen_storage;
    let second = info
        .set_borderless_fullscreen(os.style, os.ex_style, Ok(os.rect()), Ok(MONITOR))
        .unwrap();
    assert!(second.is_empty());
    os.apply(&second);
    assert_eq!(os, after_once);
    assert_eq!(info.borderless_fullscreen_storage, saved_once);
}

#[test]
fn restore_twice_is_once() {
    let mut info = record();
    let mut os = windowed();
    let entered = info
        .set_borderless_fullscreen(os.style, os.ex_style, Ok(os.rect()), Ok(MONITOR))
        .unwrap();
    os.apply(&entered);
    let first = info.restore_from_borderless_fullscreen();
    assert_eq!(first.len(), 4);
    os.apply(&first);
    let after_once = os;
    let second = info.restore_from_borderless_fullscreen();
    assert!(second.is_empty());
    os.apply(&second);
    assert_eq!(os, after_once);
    assert!(!info.is_borderless_fullscreen());
}

#[test]
fn restore_while_windowed_does_nothing() {
    let mut info = record();
    assert!(info.restore_from_borderless_fullscreen().is_empty());
    assert!(info.borderless_fullscreen_storage.is_none());
}

#[test]
fn fullscreen_round_trip_restores_geometry_and_styles() {
    let mut info = record();
    let mut os = windowed();
    os.top_most = true;
    let before = os;
    let entered = info
        .set_borderless_fullscreen(os.style, os.ex_style, Ok(os.rect()), Ok(MONITOR))
        .unwrap();
    os.apply(&entered);
    assert_ne!(os, before);
    let restore = info.restore_from_borderless_fullscreen();
    os.apply(&restore);
    assert_eq!(os, before);
}

#[test]
fn round_trip_after_partial_fullscreen() {
    let mut info = record();
    let mut os = windowed();
    let before = os;
    let entered = info
        .set_borderless_fullscreen(os.style, os.ex_style, Ok(os.rect()), Ok(MONITOR))
        .unwrap();
    // the resize failed: only the style changes were carried out
    os.apply(&entered[..2]);
    os.apply(&info.restore_from_borderless_fullscreen());
    assert_eq!(os, before);
}

#[test]
fn failed_window_rect_leaves_record_windowed() {
    let mut info = record();
    let err = WindowError::PlatformQueryFailed("invalid window handle".to_string());
    let r = info.set_borderless_fullscreen(0, 0, Err(err.clone()), Ok(MONITOR));
    assert_eq!(r, Err(err));
    assert!(!info.is_borderless_fullscreen());
}

#[test]
fn failed_monitor_query_saves_state_but_commands_nothing() {
    let mut info = record();
    let os = windowed();
    let err = WindowError::PlatformQueryFailed("no monitor".to_string());
    let r = info.set_borderless_fullscreen(os.style, os.ex_style, Ok(os.rect()), Err(err.clone()));
    assert_eq!(r, Err(err));
    assert!(info.is_borderless_fullscreen());
    let mut after = os;
    after.apply(&info.restore_from_borderless_fullscreen());
    assert_eq!(after, os);
}

#[test]
fn fullscreen_keeps_identity() {
    let mut info = record();
    let os = windowed();
    let _ = info.set_borderless_fullscreen(os.style, os.ex_style, Ok(os.rect()), Ok(MONITOR));
    let _ = info.restore_from_borderless_fullscreen();
    assert_eq!(info.pid, 42);
    assert_eq!(info.hwnd, WindowHandle(0x1234));
    assert_eq!(info.title, "game");
    assert_eq!(info.program_path, "C:\\game.exe");
}
