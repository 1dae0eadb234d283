//! The requests that the command front ends (the plugin and the MCP server)
//! turn their parameters into.
use crate::input::MouseButton;
use vstd::prelude::*;

verus! {

/// A request for the engine, with its parameters read and converted.
#[derive(Debug, PartialEq, Eq)]
pub enum Command {
    Click { x: i32, y: i32, button: MouseButton },
    DoubleClick { x: i32, y: i32 },
    TypeText { text: String },
    MoveMouse { x: i32, y: i32 },
    Focus { hwnd: isize },
    Minimize { hwnd: isize },
    Maximize { hwnd: isize },
    Restore { hwnd: isize },
    Close { hwnd: isize },
    Hide { hwnd: isize },
    Show { hwnd: isize },
    MoveWindow { hwnd: isize, x: i32, y: i32, w: i32, h: i32 },
    /// Move the window to `(x, y)` and keep the size it has.
    MoveWindowKeepSize { hwnd: isize, x: i32, y: i32 },
    Resize { hwnd: isize, w: i32, h: i32 },
    EnumWindows,
    GetWindowInfo { hwnd: isize },
    SwitchDesktop { direction: i32 },
    KeyPress { vk: u16 },
    KeyRelease { vk: u16 },
    PostMessage { hwnd: isize, msg: u32, wparam: usize, lparam: isize },
    Dump,
}

/// A request with its text as a character sequence.
pub enum CommandModel {
    Click { x: i32, y: i32, button: MouseButton },
    DoubleClick { x: i32, y: i32 },
    TypeText { text: Seq<char> },
    MoveMouse { x: i32, y: i32 },
    Focus { hwnd: isize },
    Minimize { hwnd: isize },
    Maximize { hwnd: isize },
    Restore { hwnd: isize },
    Close { hwnd: isize },
    Hide { hwnd: isize },
    Show { hwnd: isize },
    MoveWindow { hwnd: isize, x: i32, y: i32, w: i32, h: i32 },
    MoveWindowKeepSize { hwnd: isize, x: i32, y: i32 },
    Resize { hwnd: isize, w: i32, h: i32 },
    EnumWindows,
    GetWindowInfo { hwnd: isize },
    SwitchDesktop { direction: i32 },
    KeyPress { vk: u16 },
    KeyRelease { vk: u16 },
    PostMessage { hwnd: isize, msg: u32, wparam: usize, lparam: isize },
    Dump,
}

impl View for Command {
    type V = CommandModel;

    open spec fn view(&self) -> CommandModel {
        match self {
            Command::Click { x, y, button } => CommandModel::Click { x: *x, y: *y, button: *button },
            Command::DoubleClick { x, y } => CommandModel::DoubleClick { x: *x, y: *y },
            Command::TypeText { text } => CommandModel::TypeText { text: text@ },
            Command::MoveMouse { x, y } => CommandModel::MoveMouse { x: *x, y: *y },
            Command::Focus { hwnd } => CommandModel::Focus { hwnd: *hwnd },
            Command::Minimize { hwnd } => CommandModel::Minimize { hwnd: *hwnd },
            Command::Maximize { hwnd } => CommandModel::Maximize { hwnd: *hwnd },
            Command::Restore { hwnd } => CommandModel::Restore { hwnd: *hwnd },
            Command::Close { hwnd } => CommandModel::Close { hwnd: *hwnd },
            Command::Hide { hwnd } => CommandModel::Hide { hwnd: *hwnd },
            Command::Show { hwnd } => CommandModel::Show { hwnd: *hwnd },
            Command::MoveWindow { hwnd, x, y, w, h } => CommandModel::MoveWindow {
                hwnd: *hwnd,
                x: *x,
                y: *y,
                w: *w,
                h: *h,
            },
            Command::MoveWindowKeepSize { hwnd, x, y } => CommandModel::MoveWindowKeepSize {
                hwnd: *hwnd,
                x: *x,
                y: *y,
            },
            Command::Resize { hwnd, w, h } => CommandModel::Resize { hwnd: *hwnd, w: *w, h: *h },
            Command::EnumWindows => CommandModel::EnumWindows,
            Command::GetWindowInfo { hwnd } => CommandModel::GetWindowInfo { hwnd: *hwnd },
            Command::SwitchDesktop { direction } => CommandModel::SwitchDesktop {
                direction: *direction,
            },
            Command::KeyPress { vk } => CommandModel::KeyPress { vk: *vk },
            Command::KeyRelease { vk } => CommandModel::KeyRelease { vk: *vk },
            Command::PostMessage { hwnd, msg, wparam, lparam } => CommandModel::PostMessage {
                hwnd: *hwnd,
                msg: *msg,
                wparam: *wparam,
                lparam: *lparam,
            },
            Command::Dump => CommandModel::Dump,
        }
    }
}

/// The mouse button that a name selects: `right` and `middle`, and the
/// left button for anything else.
pub open spec fn button_named(name: Seq<char>) -> MouseButton {
    if name == "right"@ {
        MouseButton::Right
    } else if name == "middle"@ {
        MouseButton::Middle
    } else {
        MouseButton::Left
    }
}

/// The mouse button that a name selects.
pub fn button_from_name(name: &str) -> (b: MouseButton)
    ensures
        b == button_named(name@),
{
    if crate::text::str_eq(name, "right") {
        MouseButton::Right
    } else if crate::text::str_eq(name, "middle") {
        MouseButton::Middle
    } else {
        MouseButton::Left
    }
}

/// The action names tell apart: each differs from every other in length or
/// in one of its first three letters.
pub(crate) proof fn lemma_action_names()
    ensures
        "click"@.len() == 5 && "focus"@.len() == 5 && "close"@.len() == 5,
        "click"@ != "focus"@ && "click"@ != "close"@ && "focus"@ != "close"@,
        "type"@.len() == 4 && "hide"@.len() == 4 && "show"@.len() == 4,
        "type"@ != "hide"@ && "type"@ != "show"@ && "hide"@ != "show"@,
        "minimize"@.len() == 8 && "maximize"@.len() == 8 && "minimize"@ != "maximize"@,
        "move_window"@.len() == 11 && "key_release"@.len() == 11 && "move_window"@ != "key_release"@,
        "double_click"@.len() == 12 && "enum_windows"@.len() == 12 && "post_message"@.len() == 12,
        "double_click"@ != "enum_windows"@ && "double_click"@ != "post_message"@ && "enum_windows"@
            != "post_message"@,
        "move_mouse"@.len() == 10 && "restore"@.len() == 7 && "resize"@.len() == 6,
        "get_window_info"@.len() == 15 && "switch_desktop"@.len() == 14 && "key_press"@.len() == 9,
{
    reveal_strlit("click");
    reveal_strlit("double_click");
    reveal_strlit("type");
    reveal_strlit("move_mouse");
    reveal_strlit("focus");
    reveal_strlit("minimize");
    reveal_strlit("maximize");
    reveal_strlit("restore");
    reveal_strlit("close");
    reveal_strlit("hide");
    reveal_strlit("show");
    reveal_strlit("move_window");
    reveal_strlit("resize");
    reveal_strlit("enum_windows");
    reveal_strlit("get_window_info");
    reveal_strlit("switch_desktop");
    reveal_strlit("key_press");
    reveal_strlit("key_release");
    reveal_strlit("post_message");
    assert("click"@[2] != "close"@[2] && "click"@[0] != "focus"@[0] && "focus"@[0] != "close"@[0]);
    assert("type"@[0] != "hide"@[0] && "type"@[0] != "show"@[0] && "hide"@[0] != "show"@[0]);
    assert("minimize"@[1] != "maximize"@[1]);
    assert("move_window"@[0] != "key_release"@[0]);
    assert("double_click"@[0] != "enum_windows"@[0] && "double_click"@[0] != "post_message"@[0]);
    assert("enum_windows"@[0] != "post_message"@[0]);
}

} // verus!
