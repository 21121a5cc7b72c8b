//! One top-level window: its identity, the checks and geometry read off what
//! the windowing subsystem reports of it, the commands that change it, and the
//! save/restore state of borderless fullscreen.
use vstd::prelude::*;
use crate::geometry::Rect;
use crate::style::{
    fullscreen_ex_style, fullscreen_ex_style_of, fullscreen_style, fullscreen_style_of,
    with_flag, with_maximize_box, with_minimize_box, with_thick_frame, MAXIMIZE_BOX,
    MINIMIZE_BOX, THICK_FRAME,
};

verus! {

/// A native window handle, held as the machine word it is. It is compared for
/// identity and never dereferenced.
#[derive(Clone, Copy, Debug, PartialEq, Eq, Hash, Structural)]
pub struct WindowHandle(pub usize);

/// Why an operation on a window failed.
#[derive(Clone, Debug, PartialEq, Eq)]
pub enum WindowError {
    /// The windowing subsystem reported a failure; the text is its own.
    PlatformQueryFailed(String),
    /// The handle no longer names a live window of the recorded process.
    HandleInvalidated,
}

/// What borderless fullscreen saves of a window in order to restore it: its
/// outer size and position and both style bitmasks.
#[derive(Clone, Copy, Debug, PartialEq, Eq, Structural)]
pub struct WindowStatus {
    pub width: i32,
    pub height: i32,
    pub x: i32,
    pub y: i32,
    pub style: u32,
    pub ex_style: u32,
}

/// A change that the caller is to ask of the windowing subsystem for a
/// window's handle. Resizing and moving are asynchronous requests that keep the
/// z-order; resizing keeps the position and moving keeps the size.
#[derive(Clone, Copy, Debug, PartialEq, Eq, Structural)]
pub enum WindowCommand {
    SetStyle(u32),
    SetExStyle(u32),
    Resize { width: i32, height: i32 },
    MoveTo { x: i32, y: i32 },
    SetTopMost(bool),
}

/// What the windowing subsystem holds of a window that the commands act on.
pub struct WindowState {
    pub x: i32,
    pub y: i32,
    pub width: i32,
    pub height: i32,
    pub style: u32,
    pub ex_style: u32,
    pub top_most: bool,
}

/// The window after the subsystem has carried out `c`.
pub open spec fn apply_command(s: WindowState, c: WindowCommand) -> WindowState {
    match c {
        WindowCommand::SetStyle(v) => WindowState { style: v, ..s },
        WindowCommand::SetExStyle(v) => WindowState { ex_style: v, ..s },
        WindowCommand::Resize { width, height } => WindowState { width, height, ..s },
        WindowCommand::MoveTo { x, y } => WindowState { x, y, ..s },
        WindowCommand::SetTopMost(b) => WindowState { top_most: b, ..s },
    }
}

/// The window after the subsystem has carried out `cmds` in order.
pub open spec fn apply_commands(s: WindowState, cmds: Seq<WindowCommand>) -> WindowState
    decreases cmds.len(),
{
    if cmds.len() == 0 {
        s
    } else {
        apply_commands(apply_command(s, cmds[0]), cmds.drop_first())
    }
}

/// `rect` is the outer rectangle of the window `s`.
pub open spec fn is_outer_rect_of(rect: Rect, s: WindowState) -> bool {
    &&& rect.left == s.x
    &&& rect.top == s.y
    &&& rect.width() == s.width
    &&& rect.height() == s.height
}

/// A reported rectangle, where there is one, has extents that fit an `i32`.
pub open spec fn fits_if_ok(rect: Result<Rect, WindowError>) -> bool {
    rect matches Ok(r) ==> r.extents_fit()
}

/// What is saved of a window with outer rectangle `rect` and the given styles.
pub open spec fn status_of(rect: Rect, style: u32, ex_style: u32) -> WindowStatus {
    WindowStatus {
        width: rect.width() as i32,
        height: rect.height() as i32,
        x: rect.left,
        y: rect.top,
        style,
        ex_style,
    }
}

/// The commands that make a window with styles `style` and `ex_style`
/// borderless and cover `monitor`.
pub open spec fn fullscreen_commands(style: u32, ex_style: u32, monitor: Rect) -> Seq<
    WindowCommand,
> {
    seq![
        WindowCommand::SetStyle(fullscreen_style_of(style)),
        WindowCommand::SetExStyle(fullscreen_ex_style_of(ex_style)),
        WindowCommand::Resize { width: monitor.width() as i32, height: monitor.height() as i32 },
        WindowCommand::MoveTo { x: monitor.left, y: monitor.top },
    ]
}

/// The commands that put a window back as `saved` describes it.
pub open spec fn restore_commands(saved: WindowStatus) -> Seq<WindowCommand> {
    seq![
        WindowCommand::SetStyle(saved.style),
        WindowCommand::SetExStyle(saved.ex_style),
        WindowCommand::Resize { width: saved.width, height: saved.height },
        WindowCommand::MoveTo { x: saved.x, y: saved.y },
    ]
}

/// The save state after entering fullscreen from save state `saved`: kept when
/// there is one, taken from the window's rectangle when it could be read.
pub open spec fn saved_after_enter(
    saved: Option<WindowStatus>,
    style: u32,
    ex_style: u32,
    window_rect: Result<Rect, WindowError>,
) -> Option<WindowStatus> {
    match saved {
        Some(s) => Some(s),
        None => match window_rect {
            Ok(w) => Some(status_of(w, style, ex_style)),
            Err(_) => None,
        },
    }
}

/// What entering fullscreen from save state `saved` returns: nothing to do when
/// already fullscreen, else the first failed query, else the fullscreen commands.
pub open spec fn enter_result(
    saved: Option<WindowStatus>,
    style: u32,
    ex_style: u32,
    window_rect: Result<Rect, WindowError>,
    monitor_rect: Result<Rect, WindowError>,
) -> Result<Seq<WindowCommand>, WindowError> {
    match saved {
        Some(_) => Ok(seq![]),
        None => match window_rect {
            Err(e) => Err(e),
            Ok(_) => match monitor_rect {
                Err(e) => Err(e),
                Ok(m) => Ok(fullscreen_commands(style, ex_style, m)),
            },
        },
    }
}

/// What restoring from save state `saved` returns: nothing to do when
/// windowed, else the commands that put back what was saved.
pub open spec fn restore_result(saved: Option<WindowStatus>) -> Seq<WindowCommand> {
    match saved {
        Some(s) => restore_commands(s),
        None => seq![],
    }
}

/// The commands held in `r`, or its error.
pub open spec fn commands_of(r: Result<Vec<WindowCommand>, WindowError>) -> Result<
    Seq<WindowCommand>,
    WindowError,
> {
    match r {
        Ok(v) => Ok(v@),
        Err(e) => Err(e),
    }
}

/// The fullscreen commands do not touch the always-on-top band.
proof fn lemma_prefix_keeps_top_most(s: WindowState, cmds: Seq<WindowCommand>)
    requires
        forall|i: int| 0 <= i < cmds.len() ==> !(#[trigger] cmds[i] is SetTopMost),
    ensures
        apply_commands(s, cmds).top_most == s.top_most,
    decreases cmds.len(),
{
    if cmds.len() > 0 {
        let rest = cmds.drop_first();
        assert forall|i: int| 0 <= i < rest.len() implies !(#[trigger] rest[i] is SetTopMost) by {
            assert(rest[i] == cmds[i + 1]);
        }
        lemma_prefix_keeps_top_most(apply_command(s, cmds[0]), rest);
    }
}

/// Carrying out the restore commands of `saved` gives the window exactly the
/// saved styles, size and position.
proof fn lemma_apply_restore(m: WindowState, saved: WindowStatus)
    ensures
        apply_commands(m, restore_commands(saved)) == (WindowState {
            x: saved.x,
            y: saved.y,
            width: saved.width,
            height: saved.height,
            style: saved.style,
            ex_style: saved.ex_style,
            top_most: m.top_most,
        }),
{
    let c = restore_commands(saved);
    let m1 = apply_command(m, c[0]);
    let m2 = apply_command(m1, c[1]);
    let m3 = apply_command(m2, c[2]);
    let m4 = apply_command(m3, c[3]);
    assert(c.drop_first() =~= seq![c[1], c[2], c[3]]);
    assert(c.drop_first().drop_first() =~= seq![c[2], c[3]]);
    assert(c.drop_first().drop_first().drop_first() =~= seq![c[3]]);
    assert(c.drop_first().drop_first().drop_first().drop_first() =~= Seq::<WindowCommand>::empty());
    assert(apply_commands(m4, Seq::<WindowCommand>::empty()) == m4);
    assert(apply_commands(m3, seq![c[3]]) == m4);
    assert(apply_commands(m2, seq![c[2], c[3]]) == m4);
    assert(apply_commands(m1, seq![c[1], c[2], c[3]]) == m4);
}

/// Entering borderless fullscreen a second time, after the first time read the
/// window's rectangle, keeps the save state and asks for nothing, whatever the
/// window reports then: twice in a row ends as once.
pub proof fn lemma_enter_fullscreen_idempotent(
    saved: Option<WindowStatus>,
    style: u32,
    ex_style: u32,
    window_rect: Rect,
    style2: u32,
    ex_style2: u32,
    window_rect2: Result<Rect, WindowError>,
    monitor_rect2: Result<Rect, WindowError>,
)
    ensures
        ({
            let once = saved_after_enter(saved, style, ex_style, Ok(window_rect));
            &&& once is Some
            &&& saved_after_enter(once, style2, ex_style2, window_rect2) == once
            &&& enter_result(once, style2, ex_style2, window_rect2, monitor_rect2) == Ok::<
                Seq<WindowCommand>,
                WindowError,
            >(Seq::empty())
        }),
{
    assert(seq![] =~= Seq::<WindowCommand>::empty());
}

/// Restoring a second time asks for nothing: carrying out the commands of two
/// restores in a row leaves the window as carrying out those of one does.
pub proof fn lemma_restore_idempotent(s: WindowState, saved: Option<WindowStatus>)
    ensures
        restore_result(None) == Seq::<WindowCommand>::empty(),
        apply_commands(apply_commands(s, restore_result(saved)), restore_result(None))
            == apply_commands(s, restore_result(saved)),
{
    assert(seq![] =~= Seq::<WindowCommand>::empty());
}

/// Entering borderless fullscreen from a windowed state and then restoring
/// puts back the window's outer size, position and both styles, and leaves its
/// always-on-top band alone, when nothing else changes the window in between.
/// This holds however many of the fullscreen commands were carried out before
/// one failed, and when the monitor could not be read.
pub proof fn lemma_fullscreen_round_trip(
    s: WindowState,
    window_rect: Rect,
    monitor_rect: Result<Rect, WindowError>,
)
    requires
        is_outer_rect_of(window_rect, s),
    ensures
        ({
            let saved = saved_after_enter(None, s.style, s.ex_style, Ok(window_rect));
            let entered = match enter_result(
                None,
                s.style,
                s.ex_style,
                Ok(window_rect),
                monitor_rect,
            ) {
                Ok(c) => c,
                Err(_) => Seq::empty(),
            };
            forall|k: int|
                0 <= k <= entered.len() ==> apply_commands(
                    #[trigger] apply_commands(s, entered.take(k)),
                    restore_result(saved),
                ) == s
        }),
{
    let saved = saved_after_enter(None, s.style, s.ex_style, Ok(window_rect));
    let entered = match enter_result(None, s.style, s.ex_style, Ok(window_rect), monitor_rect) {
        Ok(c) => c,
        Err(_) => Seq::empty(),
    };
    assert forall|k: int| 0 <= k <= entered.len() implies apply_commands(
        #[trigger] apply_commands(s, entered.take(k)),
        restore_result(saved),
    ) == s by {
        let part = entered.take(k);
        assert forall|i: int| 0 <= i < part.len() implies !(#[trigger] part[i] is SetTopMost) by {
            assert(part[i] == entered[i]);
        }
        lemma_prefix_keeps_top_most(s, part);
        lemma_apply_restore(apply_commands(s, part), saved->Some_0);
    }
}

/// One window, as enumeration found it.
#[derive(Clone, Debug)]
pub struct WindowInfo {
    pub pid: u32,
    pub hwnd: WindowHandle,
    pub title: String,
    pub program_path: String,
    /// What was saved on entering borderless fullscreen; none while windowed.
    pub borderless_fullscreen_storage: Option<WindowStatus>,
}

impl WindowInfo {
    /// What was saved when the window entered borderless fullscreen; none while
    /// it is windowed.
    pub open spec fn saved_state(&self) -> Option<WindowStatus> {
        self.borderless_fullscreen_storage
    }

    /// `self` and `other` describe the same window with the same title and path.
    pub open spec fn same_record(&self, other: &WindowInfo) -> bool {
        &&& self.pid == other.pid
        &&& self.hwnd == other.hwnd
        &&& self.title == other.title
        &&& self.program_path == other.program_path
    }

    /// A windowed record of the window `hwnd` of process `pid`.
    pub fn new(pid: u32, hwnd: WindowHandle, title: String, program_path: String) -> (r: Self)
        ensures
            r.pid == pid,
            r.hwnd == hwnd,
            r.title == title,
            r.program_path == program_path,
            r.saved_state() is None,
    {
        WindowInfo { pid, hwnd, title, program_path, borderless_fullscreen_storage: None }
    }

    /// Whether the handle still names a window (`is_window`) whose owning
    /// process (`owner_pid`) is the recorded one.
    pub fn is_valid(&self, is_window: bool, owner_pid: u32) -> (r: bool)
        ensures
            r == (is_window && owner_pid == self.pid),
    {
        is_window && owner_pid == self.pid
    }

    /// `is_valid` as a result: `HandleInvalidated` exactly when it is false.
    pub fn check_valid(&self, is_window: bool, owner_pid: u32) -> (r: Result<(), WindowError>)
        ensures
            r is Ok <==> (is_window && owner_pid == self.pid),
            r is Err ==> r == Err::<(), WindowError>(WindowError::HandleInvalidated),
    {
        if self.is_valid(is_window, owner_pid) {
            Ok(())
        } else {
            Err(WindowError::HandleInvalidated)
        }
    }

    /// Whether the window is in borderless fullscreen.
    pub fn is_borderless_fullscreen(&self) -> (r: bool)
        ensures
            r == self.saved_state() is Some,
    {
        self.borderless_fullscreen_storage.is_some()
    }

    /// `[width, height]` of the outer rectangle `window_rect`, or the failure
    /// of reading it.
    pub fn get_size(&self, window_rect: Result<Rect, WindowError>) -> (r: Result<
        [i32; 2],
        WindowError,
    >)
        requires
            fits_if_ok(window_rect),
        ensures
            match window_rect {
                Ok(w) => r matches Ok(s) && s[0] == w.width() && s[1] == w.height(),
                Err(e) => r == Err::<[i32; 2], WindowError>(e),
            },
    {
        match window_rect {
            Ok(w) => Ok(w.size()),
            Err(e) => Err(e),
        }
    }

    /// `[width, height]` of the client rectangle `client_rect`, or the failure
    /// of reading it.
    pub fn get_inner_size(&self, client_rect: Result<Rect, WindowError>) -> (r: Result<
        [i32; 2],
        WindowError,
    >)
        requires
            fits_if_ok(client_rect),
        ensures
            match client_rect {
                Ok(c) => r matches Ok(s) && s[0] == c.width() && s[1] == c.height(),
                Err(e) => r == Err::<[i32; 2], WindowError>(e),
            },
    {
        match client_rect {
            Ok(c) => Ok(c.size()),
            Err(e) => Err(e),
        }
    }

    /// `[x, y]` of the outer rectangle `window_rect`, or the failure of reading
    /// it.
    pub fn get_position(&self, window_rect: Result<Rect, WindowError>) -> (r: Result<
        [i32; 2],
        WindowError,
    >)
        ensures
            match window_rect {
                Ok(w) => r matches Ok(p) && p[0] == w.left && p[1] == w.top,
                Err(e) => r == Err::<[i32; 2], WindowError>(e),
            },
    {
        match window_rect {
            Ok(w) => Ok(w.position()),
            Err(e) => Err(e),
        }
    }

    /// The command that gives the window the outer size `[width, height]`.
    pub fn resize(&self, size: [i32; 2]) -> (r: WindowCommand)
        ensures
            r == (WindowCommand::Resize { width: size[0], height: size[1] }),
    {
        WindowCommand::Resize { width: size[0], height: size[1] }
    }

    /// The rectangle whose adjustment to the window's current styles and menu
    /// gives the outer rectangle for client size `[width, height]`.
    pub fn inner_rect_request(&self, size: [i32; 2]) -> (r: Rect)
        ensures
            r == (Rect { left: 0, top: 0, right: size[0], bottom: size[1] }),
    {
        Rect::from_size(size)
    }

    /// The command that resizes the window to the outer rectangle `adjusted`
    /// that the subsystem computed from `inner_rect_request`, or the failure of
    /// that computation.
    pub fn resize_inner(&self, adjusted: Result<Rect, WindowError>) -> (r: Result<
        WindowCommand,
        WindowError,
    >)
        requires
            fits_if_ok(adjusted),
        ensures
            match adjusted {
                Ok(a) => r == Ok::<WindowCommand, WindowError>(
                    WindowCommand::Resize { width: a.width() as i32, height: a.height() as i32 },
                ),
                Err(e) => r == Err::<WindowCommand, WindowError>(e),
            },
    {
        match adjusted {
            Ok(a) => {
                let size = a.size();
                Ok(self.resize(size))
            },
            Err(e) => Err(e),
        }
    }

    /// The command that moves the window's top-left corner to `[x, y]`.
    pub fn move_to(&self, position: [i32; 2]) -> (r: WindowCommand)
        ensures
            r == (WindowCommand::MoveTo { x: position[0], y: position[1] }),
    {
        WindowCommand::MoveTo { x: position[0], y: position[1] }
    }

    /// The command that puts the window into, or takes it out of, the
    /// always-on-top band.
    pub fn set_top_most(&self, top_most: bool) -> (r: WindowCommand)
        ensures
            r == WindowCommand::SetTopMost(top_most),
    {
        WindowCommand::SetTopMost(top_most)
    }

    /// The command that gives a window of style `style` a maximize button, or
    /// takes it away.
    pub fn set_maximizable(&self, style: u32, maximizable: bool) -> (r: WindowCommand)
        ensures
            r == WindowCommand::SetStyle(with_flag(style, MAXIMIZE_BOX, maximizable)),
    {
        WindowCommand::SetStyle(with_maximize_box(style, maximizable))
    }

    /// The command that gives a window of style `style` a minimize button, or
    /// takes it away.
    pub fn set_minimizable(&self, style: u32, minimizable: bool) -> (r: WindowCommand)
        ensures
            r == WindowCommand::SetStyle(with_flag(style, MINIMIZE_BOX, minimizable)),
    {
        WindowCommand::SetStyle(with_minimize_box(style, minimizable))
    }

    /// The command that gives a window of style `style` a sizing border, or
    /// takes it away.
    pub fn set_resizable(&self, style: u32, resizable: bool) -> (r: WindowCommand)
        ensures
            r == WindowCommand::SetStyle(with_flag(style, THICK_FRAME, resizable)),
    {
        WindowCommand::SetStyle(with_thick_frame(style, resizable))
    }

    /// Enters borderless fullscreen. `style` and `ex_style` are the window's
    /// current styles, `window_rect` its outer rectangle and `monitor_rect` the
    /// rectangle of the monitor nearest to it, each as the subsystem reported
    /// them. Already in fullscreen, nothing changes and there is nothing to do.
    /// Otherwise the styles and rectangle are saved once the rectangle is known,
    /// and the commands that make the window borderless and cover the monitor
    /// are returned; a failed query is returned instead.
    pub fn set_borderless_fullscreen(
        &mut self,
        style: u32,
        ex_style: u32,
        window_rect: Result<Rect, WindowError>,
        monitor_rect: Result<Rect, WindowError>,
    ) -> (r: Result<Vec<WindowCommand>, WindowError>)
        requires
            fits_if_ok(window_rect),
            fits_if_ok(monitor_rect),
        ensures
            final(self).same_record(old(self)),
            final(self).saved_state() == saved_after_enter(
                old(self).saved_state(),
                style,
                ex_style,
                window_rect,
            ),
            commands_of(r) == enter_result(
                old(self).saved_state(),
                style,
                ex_style,
                window_rect,
                monitor_rect,
            ),
    {
        if self.borderless_fullscreen_storage.is_some() {
            return Ok(Vec::new());
        }
        let window_rect = match window_rect {
            Ok(w) => w,
            Err(e) => return Err(e),
        };
        let size = window_rect.size();
        self.borderless_fullscreen_storage = Some(
            WindowStatus {
                width: size[0],
                height: size[1],
                x: window_rect.left,
                y: window_rect.top,
                style,
                ex_style,
            },
        );
        let monitor = match monitor_rect {
            Ok(m) => m,
            Err(e) => return Err(e),
        };
        let monitor_size = monitor.size();
        let mut commands: Vec<WindowCommand> = Vec::new();
        commands.push(WindowCommand::SetStyle(fullscreen_style(style)));
        commands.push(WindowCommand::SetExStyle(fullscreen_ex_style(ex_style)));
        commands.push(WindowCommand::Resize { width: monitor_size[0], height: monitor_size[1] });
        commands.push(WindowCommand::MoveTo { x: monitor.left, y: monitor.top });
        proof {
            assert(commands@ =~= fullscreen_commands(style, ex_style, monitor));
        }
        Ok(commands)
    }

    /// Leaves borderless fullscreen: the save state is taken, and the commands
    /// that put back the saved styles, size and position are returned. While
    /// windowed there is nothing to do.
    pub fn restore_from_borderless_fullscreen(&mut self) -> (r: Vec<WindowCommand>)
        ensures
            final(self).same_record(old(self)),
            final(self).saved_state() is None,
            r@ == restore_result(old(self).saved_state()),
    {
        match self.borderless_fullscreen_storage.take() {
            None => Vec::new(),
            Some(saved) => {
                let mut commands: Vec<WindowCommand> = Vec::new();
                commands.push(WindowCommand::SetStyle(saved.style));
                commands.push(WindowCommand::SetExStyle(saved.ex_style));
                commands.push(WindowCommand::Resize { width: saved.width, height: saved.height });
                commands.push(WindowCommand::MoveTo { x: saved.x, y: saved.y });
                proof {
                    assert(commands@ =~= restore_commands(saved));
                }
                commands
            },
        }
    }
}

} // verus!
