//! The engine: for each request, the exact system operation or input events
//! that carry it out. The operations are performed by the caller, which
//! hands back what the system reported where the engine needs it.
use crate::command::{Command, CommandModel};
use crate::guid::{guid_of, parse_guid, Guid};
use crate::input::{
    click_steps, desktop_chord, down, key_press, key_release, screen_ok, steps_view,
    switch_desktop, type_text, typable_prefix_len, typing_steps, up, InputStep, MouseButton,
    KeyInput, ScreenSize, StepModel, TypingPlan,
};
use crate::text::{decode_utf16_lossy, hex_text, push_hex, utf16_lossy};
use crate::uia::{map_header, Rect, UiWalk, WalkAction, MAX_ELEMENTS};
use vstd::prelude::*;

verus! {

/// `ShowWindow` command: hide.
pub const SW_HIDE: i32 = 0;

/// `ShowWindow` command: maximize.
pub const SW_MAXIMIZE: i32 = 3;

/// `ShowWindow` command: show in the current size and position.
pub const SW_SHOW: i32 = 5;

/// `ShowWindow` command: minimize.
pub const SW_MINIMIZE: i32 = 6;

/// `ShowWindow` command: restore to the normal size and position.
pub const SW_RESTORE: i32 = 9;

/// The window message that asks a window to close.
pub const WM_CLOSE: u32 = 0x0010;

/// `SetWindowPos` flag: keep the size.
pub const SWP_NOSIZE: u32 = 0x0001;

/// `SetWindowPos` flag: keep the position.
pub const SWP_NOMOVE: u32 = 0x0002;

/// An operation on a top-level window.
#[derive(Clone, Copy, Debug, PartialEq, Eq, Structural)]
pub enum WindowOp {
    /// Bring the window to the foreground (`SetForegroundWindow`).
    Focus { hwnd: isize },
    /// Move and resize the window (`MoveWindow`, repainting).
    Move { hwnd: isize, x: i32, y: i32, w: i32, h: i32 },
    /// Change the show state (`ShowWindow`).
    Show { hwnd: isize, cmd: i32 },
    /// Post a message to the window (`PostMessageW`).
    Post { hwnd: isize, msg: u32, wparam: usize, lparam: isize },
    /// Change the Z order (`SetWindowPos` with the given flags).
    SetPos { hwnd: isize, insert_after: isize, flags: u32 },
}

/// Moving a window to another virtual desktop.
#[derive(Clone, Copy, Debug, PartialEq, Eq)]
pub struct DesktopMove {
    pub hwnd: isize,
    pub desktop: Guid,
}

/// What the system reports about a window, before decoding: the title
/// length it announced and the buffer it filled, the class-name length and
/// buffer, the window rectangle (zero where it could not be read), whether
/// it is visible, and its process id.
#[derive(Clone, Debug, PartialEq, Eq)]
pub struct RawWindow {
    pub hwnd: isize,
    pub title_len: i32,
    pub title_units: Vec<u16>,
    pub class_len: i32,
    pub class_units: Vec<u16>,
    pub rect: Rect,
    pub visible: bool,
    pub pid: u32,
}

/// A top-level window.
#[derive(Clone, Debug, PartialEq, Eq)]
pub struct WindowInfo {
    pub hwnd: isize,
    pub title: String,
    pub class_name: String,
    pub rect: Rect,
    pub visible: bool,
    pub pid: u32,
}

/// The reports that can be decoded: the announced lengths lie within the
/// buffers (a non-positive title length means no title).
pub open spec fn raw_window_ok(raw: RawWindow) -> bool {
    &&& raw.title_len > 0 ==> raw.title_len <= raw.title_units.len()
    &&& 0 <= raw.class_len <= raw.class_units.len()
}

/// The title of a window: the announced number of code units, decoded.
pub open spec fn window_title(raw: RawWindow) -> Seq<char> {
    if raw.title_len > 0 {
        utf16_lossy(raw.title_units@.subrange(0, raw.title_len as int))
    } else {
        Seq::<char>::empty()
    }
}

/// `info` is what the report `raw` says of its window.
pub open spec fn describes(info: WindowInfo, raw: RawWindow) -> bool {
    &&& info.hwnd == raw.hwnd
    &&& info.title@ == window_title(raw)
    &&& info.class_name@ == utf16_lossy(raw.class_units@.subrange(0, raw.class_len as int))
    &&& info.rect == raw.rect
    &&& info.visible == raw.visible
    &&& info.pid == raw.pid
}

/// An `HRESULT` as `{:#x}` prints it: `0x` and the lower-case hexadecimal
/// digits of its 32 bits.
pub open spec fn hresult_hex(hr: i32) -> Seq<char> {
    "0x"@ + hex_text((if hr < 0 { hr + 0x1_0000_0000 } else { hr as int }) as nat)
}

/// Writes an `HRESULT` (see [`hresult_hex`]).
pub fn hresult_text(hr: i32) -> (r: String)
    ensures
        r@ == hresult_hex(hr),
{
    let mut r = String::from_str("0x");
    let bits: u32 = if hr < 0 {
        (hr as i64 + 0x1_0000_0000i64) as u32
    } else {
        hr as u32
    };
    push_hex(&mut r, bits as u64);
    r
}

/// A failed call of the virtual desktop manager: what failed, then the status.
fn call_failure(what: &str, hr: i32) -> (r: String)
    ensures
        r@ == what@ + hresult_hex(hr),
{
    let mut r = String::from_str(what);
    let h = hresult_text(hr);
    r.append(h.as_str());
    r
}

/// The window operation that carries out a request, with the text that
/// names it when it fails (showing a window reports no failure); none for
/// the requests that are not one window operation.
pub open spec fn window_step_of(c: CommandModel) -> Option<(WindowOp, Seq<char>)> {
    match c {
        CommandModel::Focus { hwnd } => Some((WindowOp::Focus { hwnd }, "SetForegroundWindow failed"@)),
        CommandModel::Minimize { hwnd } => Some((WindowOp::Show { hwnd, cmd: SW_MINIMIZE }, "ShowWindow failed"@)),
        CommandModel::Maximize { hwnd } => Some((WindowOp::Show { hwnd, cmd: SW_MAXIMIZE }, "ShowWindow failed"@)),
        CommandModel::Restore { hwnd } => Some((WindowOp::Show { hwnd, cmd: SW_RESTORE }, "ShowWindow failed"@)),
        CommandModel::Hide { hwnd } => Some((WindowOp::Show { hwnd, cmd: SW_HIDE }, "ShowWindow failed"@)),
        CommandModel::Show { hwnd } => Some((WindowOp::Show { hwnd, cmd: SW_SHOW }, "ShowWindow failed"@)),
        CommandModel::Close { hwnd } => Some(
            (WindowOp::Post { hwnd, msg: WM_CLOSE, wparam: 0, lparam: 0 }, "PostMessage(WM_CLOSE) failed"@),
        ),
        CommandModel::MoveWindow { hwnd, x, y, w, h } => Some(
            (WindowOp::Move { hwnd, x, y, w, h }, "MoveWindow failed"@),
        ),
        CommandModel::PostMessage { hwnd, msg, wparam, lparam } => Some(
            (WindowOp::Post { hwnd, msg, wparam, lparam }, "PostMessageW failed"@),
        ),
        _ => None,
    }
}

/// The keyboard input that carries out a request; none for the requests
/// that are not keyboard input alone.
pub open spec fn key_steps_of(c: CommandModel) -> Option<Seq<StepModel>> {
    match c {
        CommandModel::SwitchDesktop { direction } => Some(seq![StepModel::Keys(desktop_chord(direction))]),
        CommandModel::KeyPress { vk } => Some(seq![StepModel::Keys(seq![down(vk)])]),
        CommandModel::KeyRelease { vk } => Some(seq![StepModel::Keys(seq![up(vk)])]),
        _ => None,
    }
}

/// Each window request is carried out by the operation its name says, on
/// the window it names: focusing by `SetForegroundWindow`, minimizing,
/// maximizing, restoring, hiding and showing by `ShowWindow` with
/// `SW_MINIMIZE` (6), `SW_MAXIMIZE` (3), `SW_RESTORE` (9), `SW_HIDE` (0) and
/// `SW_SHOW` (5), closing by posting `WM_CLOSE` (0x10) with zero parameters,
/// moving by `MoveWindow` with the given place and size, and posting a
/// message with exactly the given message and parameters. No other request
/// is a window operation.
pub proof fn lemma_window_requests_do_what_they_say(c: CommandModel)
    ensures
        c matches CommandModel::Focus { hwnd } ==> window_step_of(c) matches Some((op, _)) && op
            == (WindowOp::Focus { hwnd }),
        c matches CommandModel::Minimize { hwnd } ==> window_step_of(c) matches Some((op, _)) && op
            == (WindowOp::Show { hwnd, cmd: 6 }),
        c matches CommandModel::Maximize { hwnd } ==> window_step_of(c) matches Some((op, _)) && op
            == (WindowOp::Show { hwnd, cmd: 3 }),
        c matches CommandModel::Restore { hwnd } ==> window_step_of(c) matches Some((op, _)) && op
            == (WindowOp::Show { hwnd, cmd: 9 }),
        c matches CommandModel::Hide { hwnd } ==> window_step_of(c) matches Some((op, _)) && op
            == (WindowOp::Show { hwnd, cmd: 0 }),
        c matches CommandModel::Show { hwnd } ==> window_step_of(c) matches Some((op, _)) && op
            == (WindowOp::Show { hwnd, cmd: 5 }),
        c matches CommandModel::Close { hwnd } ==> window_step_of(c) matches Some((op, _)) && op
            == (WindowOp::Post { hwnd, msg: 0x10, wparam: 0, lparam: 0 }),
        c matches CommandModel::MoveWindow { hwnd, x, y, w, h } ==> window_step_of(c) matches Some(
            (op, _),
        ) && op == (WindowOp::Move { hwnd, x, y, w, h }),
        c matches CommandModel::PostMessage { hwnd, msg, wparam, lparam } ==> window_step_of(c) matches Some(
            (op, _),
        ) && op == (WindowOp::Post { hwnd, msg, wparam, lparam }),
        window_step_of(c) is Some <==> (c is Focus || c is Minimize || c is Maximize || c is Restore
            || c is Hide || c is Show || c is Close || c is MoveWindow || c is PostMessage),
{
}

/// Switching desktops holds Win and Ctrl and taps the arrow of the request's
/// own direction — `VK_RIGHT` (0x27) for 0 and above, `VK_LEFT` (0x25) below
/// — then lets go in the reverse order; a key press or release presses or
/// releases exactly the requested key. No other request is keyboard input.
pub proof fn lemma_key_requests_do_what_they_say(c: CommandModel)
    ensures
        c matches CommandModel::SwitchDesktop { direction } ==> key_steps_of(c) == Some(
            seq![
                StepModel::Keys(
                    seq![
                        KeyInput { vk: 0x5B, key_up: false },
                        KeyInput { vk: 0xA2, key_up: false },
                        KeyInput { vk: if direction < 0 { 0x25u16 } else { 0x27u16 }, key_up: false },
                        KeyInput { vk: if direction < 0 { 0x25u16 } else { 0x27u16 }, key_up: true },
                        KeyInput { vk: 0xA2, key_up: true },
                        KeyInput { vk: 0x5B, key_up: true },
                    ],
                ),
            ],
        ),
        c matches CommandModel::KeyPress { vk } ==> key_steps_of(c) == Some(
            seq![StepModel::Keys(seq![KeyInput { vk, key_up: false }])],
        ),
        c matches CommandModel::KeyRelease { vk } ==> key_steps_of(c) == Some(
            seq![StepModel::Keys(seq![KeyInput { vk, key_up: true }])],
        ),
        key_steps_of(c) is Some <==> (c is SwitchDesktop || c is KeyPress || c is KeyRelease),
{
}

/// The engine.
#[derive(Clone, Copy, Debug, PartialEq, Eq, Structural)]
pub struct OmniseyeEngine;

/// The error message for a desktop identifier that is not a GUID.
pub open spec fn guid_format_error() -> Seq<char> {
    "Invalid GUID format. Use: {XXXXXXXX-XXXX-XXXX-XXXX-XXXXXXXXXXXX}"@
}

impl OmniseyeEngine {
    /// A new engine.
    pub fn new() -> (e: Self) {
        OmniseyeEngine
    }

    /// Brings window `hwnd` to the foreground.
    pub fn focus_window(&self, hwnd: isize) -> (op: WindowOp)
        ensures
            op == (WindowOp::Focus { hwnd }),
    {
        WindowOp::Focus { hwnd }
    }

    /// Moves window `hwnd` to `(x, y)` and gives it size `w` x `h`.
    pub fn move_window(&self, hwnd: isize, x: i32, y: i32, w: i32, h: i32) -> (op: WindowOp)
        ensures
            op == (WindowOp::Move { hwnd, x, y, w, h }),
    {
        WindowOp::Move { hwnd, x, y, w, h }
    }

    /// Gives window `hwnd` size `w` x `h`, keeping the top-left corner of its
    /// current rectangle `current`.
    pub fn resize_window(&self, hwnd: isize, w: i32, h: i32, current: Rect) -> (op: WindowOp)
        ensures
            op == (WindowOp::Move { hwnd, x: current.left, y: current.top, w, h }),
    {
        WindowOp::Move { hwnd, x: current.left, y: current.top, w, h }
    }

    /// Minimizes window `hwnd`.
    pub fn minimize_window(&self, hwnd: isize) -> (op: WindowOp)
        ensures
            op == (WindowOp::Show { hwnd, cmd: SW_MINIMIZE }),
    {
        WindowOp::Show { hwnd, cmd: SW_MINIMIZE }
    }

    /// Maximizes window `hwnd`.
    pub fn maximize_window(&self, hwnd: isize) -> (op: WindowOp)
        ensures
            op == (WindowOp::Show { hwnd, cmd: SW_MAXIMIZE }),
    {
        WindowOp::Show { hwnd, cmd: SW_MAXIMIZE }
    }

    /// Restores window `hwnd` to its normal size and position.
    pub fn restore_window(&self, hwnd: isize) -> (op: WindowOp)
        ensures
            op == (WindowOp::Show { hwnd, cmd: SW_RESTORE }),
    {
        WindowOp::Show { hwnd, cmd: SW_RESTORE }
    }

    /// Asks window `hwnd` to close.
    pub fn close_window(&self, hwnd: isize) -> (op: WindowOp)
        ensures
            op == (WindowOp::Post { hwnd, msg: WM_CLOSE, wparam: 0, lparam: 0 }),
    {
        WindowOp::Post { hwnd, msg: WM_CLOSE, wparam: 0, lparam: 0 }
    }

    /// Hides window `hwnd`.
    pub fn hide_window(&self, hwnd: isize) -> (op: WindowOp)
        ensures
            op == (WindowOp::Show { hwnd, cmd: SW_HIDE }),
    {
        WindowOp::Show { hwnd, cmd: SW_HIDE }
    }

    /// Shows window `hwnd`.
    pub fn show_window(&self, hwnd: isize) -> (op: WindowOp)
        ensures
            op == (WindowOp::Show { hwnd, cmd: SW_SHOW }),
    {
        WindowOp::Show { hwnd, cmd: SW_SHOW }
    }

    /// Places window `hwnd` right after `insert_after` in the Z order,
    /// keeping its position and size.
    pub fn set_window_z_order(&self, hwnd: isize, insert_after: isize) -> (op: WindowOp)
        ensures
            op == (WindowOp::SetPos { hwnd, insert_after, flags: SWP_NOMOVE | SWP_NOSIZE }),
    {
        WindowOp::SetPos { hwnd, insert_after, flags: SWP_NOMOVE | SWP_NOSIZE }
    }

    /// The Z-order change of [`set_window_z_order`](Self::set_window_z_order)
    /// with the text that names it when it fails.
    pub fn z_order_step(&self, hwnd: isize, insert_after: isize) -> (r: (WindowOp, String))
        ensures
            r.0 == (WindowOp::SetPos { hwnd, insert_after, flags: SWP_NOMOVE | SWP_NOSIZE }),
            r.1@ == "SetWindowPos (Z-order) failed"@,
    {
        (self.set_window_z_order(hwnd, insert_after), String::from_str("SetWindowPos (Z-order) failed"))
    }

    /// Decodes what the system reported about a window.
    pub fn get_window_info(&self, raw: &RawWindow) -> (info: WindowInfo)
        requires
            raw_window_ok(*raw),
        ensures
            describes(info, *raw),
    {
        let title = if raw.title_len > 0 {
            decode_utf16_lossy(&raw.title_units, raw.title_len as usize)
        } else {
            String::new()
        };
        let class_name = decode_utf16_lossy(&raw.class_units, raw.class_len as usize);
        WindowInfo {
            hwnd: raw.hwnd,
            title,
            class_name,
            rect: raw.rect,
            visible: raw.visible,
            pid: raw.pid,
        }
    }

    /// Clicks `button` at pixel `(x, y)` of a screen of the given size.
    pub fn click(&self, x: i32, y: i32, button: MouseButton, screen: ScreenSize) -> (steps: Vec<
        InputStep,
    >)
        requires
            screen_ok(screen),
        ensures
            steps_view(steps@) == click_steps(x, y, button, screen),
    {
        crate::input::click(x, y, button, screen)
    }

    /// Double-clicks the left button at pixel `(x, y)`.
    pub fn double_click(&self, x: i32, y: i32, screen: ScreenSize) -> (steps: Vec<InputStep>)
        requires
            screen_ok(screen),
        ensures
            steps_view(steps@) == click_steps(x, y, MouseButton::Left, screen) + seq![
                StepModel::Pause(30),
            ] + click_steps(x, y, MouseButton::Left, screen),
    {
        crate::input::double_click(x, y, screen)
    }

    /// Moves the pointer to pixel `(x, y)`.
    pub fn move_mouse(&self, x: i32, y: i32, screen: ScreenSize) -> (steps: Vec<InputStep>)
        requires
            screen_ok(screen),
        ensures
            steps_view(steps@) == seq![
                StepModel::Mouse(seq![crate::input::move_event(x, y, screen)]),
            ],
    {
        crate::input::move_mouse(x, y, screen)
    }

    /// Types `text` (see [`type_text`](crate::input::type_text)).
    pub fn type_text(&self, text: &str) -> (plan: TypingPlan)
        ensures
            ({
                let k = typable_prefix_len(text@);
                &&& k <= text@.len()
                &&& steps_view(plan.steps@) == typing_steps(text@.take(k as int))
                &&& plan.unsupported == if k < text@.len() {
                    Some(text@[k as int])
                } else {
                    None::<char>
                }
            }),
    {
        type_text(text)
    }

    /// Presses key `vk`.
    pub fn key_press(&self, vk: u16) -> (steps: Vec<InputStep>)
        ensures
            steps_view(steps@) == seq![StepModel::Keys(seq![down(vk)])],
    {
        key_press(vk)
    }

    /// Releases key `vk`.
    pub fn key_release(&self, vk: u16) -> (steps: Vec<InputStep>)
        ensures
            steps_view(steps@) == seq![StepModel::Keys(seq![up(vk)])],
    {
        key_release(vk)
    }

    /// Posts message `msg` with its parameters to window `hwnd`.
    pub fn post_message(&self, hwnd: isize, msg: u32, wparam: usize, lparam: isize) -> (op:
        WindowOp)
        ensures
            op == (WindowOp::Post { hwnd, msg, wparam, lparam }),
    {
        WindowOp::Post { hwnd, msg, wparam, lparam }
    }

    /// Moves window `hwnd` to the virtual desktop named by `desktop_guid`,
    /// or fails when that is not a GUID.
    pub fn move_window_to_desktop(&self, hwnd: isize, desktop_guid: &str) -> (r: Result<
        DesktopMove,
        String,
    >)
        ensures
            match r {
                Ok(m) => m.hwnd == hwnd && guid_of(desktop_guid@) == Some(
                    (m.desktop.data1, m.desktop.data2, m.desktop.data3, m.desktop.data4@),
                ),
                Err(msg) => guid_of(desktop_guid@) is None && msg@ == guid_format_error(),
            },
    {
        match parse_guid(desktop_guid) {
            Some(g) => Ok(DesktopMove { hwnd, desktop: g }),
            None => Err(
                String::from_str("Invalid GUID format. Use: {XXXXXXXX-XXXX-XXXX-XXXX-XXXXXXXXXXXX}"),
            ),
        }
    }

    /// Switches to the virtual desktop on the left (`direction < 0`) or right.
    pub fn switch_desktop(&self, direction: i32) -> (steps: Vec<InputStep>)
        ensures
            steps_view(steps@) == seq![StepModel::Keys(desktop_chord(direction))],
    {
        switch_desktop(direction)
    }

    /// The top-level windows, from what the system reported about each, in
    /// the order it listed them.
    pub fn enum_windows(&self, raws: &Vec<RawWindow>) -> (windows: Vec<WindowInfo>)
        requires
            forall|i: int| 0 <= i < raws.len() ==> raw_window_ok(#[trigger] raws@[i]),
        ensures
            windows.len() == raws.len(),
            forall|i: int| 0 <= i < raws.len() ==> describes(#[trigger] windows@[i], raws@[i]),
    {
        let mut windows: Vec<WindowInfo> = Vec::new();
        let mut i: usize = 0;
        while i < raws.len()
            invariant
                i <= raws.len(),
                windows.len() == i,
                forall|j: int| 0 <= j < raws.len() ==> raw_window_ok(#[trigger] raws@[j]),
                forall|j: int| 0 <= j < i ==> describes(#[trigger] windows@[j], raws@[j]),
            decreases raws.len() - i,
        {
            let info = self.get_window_info(&raws[i]);
            windows.push(info);
            i = i + 1;
        }
        windows
    }

    /// Whether window `hwnd` is on the current virtual desktop, from the
    /// manager's status `hr` and the answer `on_current` it gave: a negative
    /// status is a failure.
    pub fn is_window_on_current_desktop(&self, hr: i32, on_current: bool) -> (r: Result<
        bool,
        String,
    >)
        ensures
            hr >= 0 ==> r == Ok::<bool, String>(on_current),
            hr < 0 ==> (r matches Err(m)
                && m@ == "is_window_on_current_virtual_desktop failed: "@ + hresult_hex(hr)),
    {
        if hr < 0 {
            Err(call_failure("is_window_on_current_virtual_desktop failed: ", hr))
        } else {
            Ok(on_current)
        }
    }

    /// The outcome of moving a window to another desktop, from the
    /// manager's status `hr`: a negative status is a failure.
    pub fn desktop_move_outcome(&self, hr: i32) -> (r: Result<(), String>)
        ensures
            hr >= 0 ==> r is Ok,
            hr < 0 ==> (r matches Err(m) && m@ == "move_window_to_desktop failed: "@ + hresult_hex(hr)),
    {
        if hr < 0 {
            Err(call_failure("move_window_to_desktop failed: ", hr))
        } else {
            Ok(())
        }
    }

    /// The window operation that carries out `cmd` and the text for its
    /// failure (see [`window_step_of`]).
    pub fn window_step(&self, cmd: &Command) -> (r: Option<(WindowOp, String)>)
        ensures
            match r {
                Some((op, failure)) => window_step_of(cmd@) == Some((op, failure@)),
                None => window_step_of(cmd@) is None,
            },
    {
        match cmd {
            Command::Focus { hwnd } => Some(
                (self.focus_window(*hwnd), String::from_str("SetForegroundWindow failed")),
            ),
            Command::Minimize { hwnd } => Some(
                (self.minimize_window(*hwnd), String::from_str("ShowWindow failed")),
            ),
            Command::Maximize { hwnd } => Some(
                (self.maximize_window(*hwnd), String::from_str("ShowWindow failed")),
            ),
            Command::Restore { hwnd } => Some(
                (self.restore_window(*hwnd), String::from_str("ShowWindow failed")),
            ),
            Command::Hide { hwnd } => Some(
                (self.hide_window(*hwnd), String::from_str("ShowWindow failed")),
            ),
            Command::Show { hwnd } => Some(
                (self.show_window(*hwnd), String::from_str("ShowWindow failed")),
            ),
            Command::Close { hwnd } => Some(
                (self.close_window(*hwnd), String::from_str("PostMessage(WM_CLOSE) failed")),
            ),
            Command::MoveWindow { hwnd, x, y, w, h } => Some(
                (self.move_window(*hwnd, *x, *y, *w, *h), String::from_str("MoveWindow failed")),
            ),
            Command::PostMessage { hwnd, msg, wparam, lparam } => Some(
                (
                    self.post_message(*hwnd, *msg, *wparam, *lparam),
                    String::from_str("PostMessageW failed"),
                ),
            ),
            _ => None,
        }
    }

    /// The keyboard input that carries out `cmd` (see [`key_steps_of`]).
    pub fn key_steps(&self, cmd: &Command) -> (r: Option<Vec<InputStep>>)
        ensures
            match r {
                Some(steps) => key_steps_of(cmd@) == Some(steps_view(steps@)),
                None => key_steps_of(cmd@) is None,
            },
    {
        match cmd {
            Command::SwitchDesktop { direction } => Some(self.switch_desktop(*direction)),
            Command::KeyPress { vk } => Some(self.key_press(*vk)),
            Command::KeyRelease { vk } => Some(self.key_release(*vk)),
            _ => None,
        }
    }

    /// Starts the walk of the UI tree for its map: nothing read yet, the
    /// root asked for, the full budget.
    pub fn dump_ui_tree(&self) -> (w: UiWalk)
        ensures
            w.inv(),
            w.action_of() == WalkAction::Read,
            w.visited().len() == 0,
            w.depth() == 0,
            w.remaining() == MAX_ELEMENTS,
            w.text() == map_header(),
    {
        UiWalk::new()
    }
}

} // verus!
