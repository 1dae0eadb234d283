//! The MCP server's logic: JSON-RPC routing and answers, the tool list,
//! and the `gui_command` tool's reading of its arguments and its answers.
use crate::command::{button_from_name, button_named, lemma_action_names, Command, CommandModel};
use crate::engine::WindowInfo;
use crate::input::MouseButton;
use crate::listing::{push_window_listing, window_listing};
use crate::json::{
    entries_model, get_i64, get_str, get_u64, i64_at, items_model, json_as_i64, json_as_str,
    json_as_u64, json_get, object, push_entry, str_at, string_value, u64_at, JsonModel, JsonValue,
};
use crate::number::{
    int_error_message, int_error_text, int_from_str_radix, lemma_hex_text_parses, parse_int,
};
use crate::text::{
    chars_of, debug_str, has_hex_prefix, hex_text, isize_hex_text, push_char, push_hex,
    push_isize_hex, push_signed_decimal, signed_decimal_text, starts_with_hex_prefix, str_debug,
    str_eq,
};
use crate::uia::Rect;
use vstd::prelude::*;

verus! {

// ---------------------------------------------------------------------------
// Errors
// ---------------------------------------------------------------------------

/// Why a `gui_command` call was refused.
#[derive(Debug, PartialEq)]
pub enum GuiError {
    /// A message to show as it is.
    Message(String),
    /// The window handle is a value of a kind that cannot name a window;
    /// the message shows that value.
    UnparsableHwnd(JsonValue),
}

/// A refusal with its texts as character sequences.
pub enum GuiErrorModel {
    Message(Seq<char>),
    UnparsableHwnd(JsonModel),
}

impl View for GuiError {
    type V = GuiErrorModel;

    open spec fn view(&self) -> GuiErrorModel {
        match self {
            GuiError::Message(m) => GuiErrorModel::Message(m@),
            GuiError::UnparsableHwnd(v) => GuiErrorModel::UnparsableHwnd(v@),
        }
    }
}

/// A message made of a fixed text and a name.
fn message(prefix: &str, name: &str) -> (r: String)
    ensures
        r@ == prefix@ + name@,
{
    let mut r = String::from_str(prefix);
    r.append(name);
    r
}

/// A refusal with a fixed text and a name.
fn refuse(prefix: &str, name: &str) -> (r: GuiError)
    ensures
        r@ == GuiErrorModel::Message(prefix@ + name@),
{
    GuiError::Message(message(prefix, name))
}

// ---------------------------------------------------------------------------
// Parameters
// ---------------------------------------------------------------------------

/// An integer parameter, truncated to `i32`.
pub open spec fn arg_i32(p: JsonModel, key: Seq<char>) -> Result<i32, GuiErrorModel> {
    match i64_at(p, key) {
        Some(n) => Ok(n as i32),
        None => Err(GuiErrorModel::Message("Missing or invalid int param: "@ + key)),
    }
}

/// A key code written as text: hexadecimal after `0x` or `0X`, decimal
/// otherwise, within `u16`.
pub open spec fn key_code_text(s: Seq<char>) -> Option<u16> {
    let r = if has_hex_prefix(s) {
        int_from_str_radix(s.skip(2), 16, 0, u16::MAX as int)
    } else {
        int_from_str_radix(s, 10, 0, u16::MAX as int)
    };
    match r {
        Ok(v) => Some(v as u16),
        Err(_) => None,
    }
}

/// A key code parameter: a non-negative integer, truncated to `u16`, or a
/// string giving the code in hexadecimal (`0x1B`) or decimal (`27`).
pub open spec fn arg_u16(p: JsonModel, key: Seq<char>) -> Result<u16, GuiErrorModel> {
    let refused = Err(GuiErrorModel::Message("Missing or invalid u16 param: "@ + key));
    match json_get(p, key) {
        Some(v) => match json_as_u64(v) {
            Some(n) => Ok(n as u16),
            None => match json_as_str(v) {
                Some(s) => match key_code_text(s) {
                    Some(k) => Ok(k),
                    None => refused,
                },
                None => refused,
            },
        },
        None => refused,
    }
}

/// A non-negative integer parameter, truncated to `u32`.
pub open spec fn arg_u32(p: JsonModel, key: Seq<char>) -> Result<u32, GuiErrorModel> {
    match u64_at(p, key) {
        Some(n) => Ok(n as u32),
        None => Err(GuiErrorModel::Message("Missing or invalid u32 param: "@ + key)),
    }
}

/// A string parameter.
pub open spec fn arg_str(p: JsonModel, key: Seq<char>) -> Result<Seq<char>, GuiErrorModel> {
    match str_at(p, key) {
        Some(s) => Ok(s),
        None => Err(GuiErrorModel::Message("Missing or invalid string param: "@ + key)),
    }
}

/// The window handle under `key`: a string in hexadecimal after `0x` or
/// `0X`, a string in decimal otherwise, or an integer (one above
/// `isize::MAX` wrapping around).
pub open spec fn arg_hwnd(p: JsonModel, key: Seq<char>) -> Result<isize, GuiErrorModel> {
    match json_get(p, key) {
        None => Err(GuiErrorModel::Message("Missing param: "@ + key)),
        Some(v) => match json_as_str(v) {
            Some(s) => if has_hex_prefix(s) {
                match int_from_str_radix(s.skip(2), 16, isize::MIN as int, isize::MAX as int) {
                    Ok(h) => Ok(h as isize),
                    Err(e) => Err(GuiErrorModel::Message("Invalid hwnd hex: "@ + int_error_text(e))),
                }
            } else {
                match int_from_str_radix(s, 10, isize::MIN as int, isize::MAX as int) {
                    Ok(h) => Ok(h as isize),
                    Err(e) => Err(GuiErrorModel::Message("Invalid hwnd: "@ + int_error_text(e))),
                }
            },
            None => match json_as_u64(v) {
                Some(n) => Ok(n as isize),
                None => match json_as_i64(v) {
                    Some(n) => Ok(n as isize),
                    None => Err(GuiErrorModel::UnparsableHwnd(v)),
                },
            },
        },
    }
}

/// A window handle printed as `0x` and lower-case hexadecimal, as the UI map
/// (`h=0x..`) and the window list print it, names the same window when it is
/// handed back as a string under `hwnd`, for every non-negative handle.
pub proof fn lemma_printed_hwnd_is_read_back(p: JsonModel, h: isize)
    requires
        h >= 0,
        json_get(p, "hwnd"@) == Some(JsonModel::Str("0x"@ + isize_hex_text(h))),
    ensures
        arg_hwnd(p, "hwnd"@) == Ok::<isize, GuiErrorModel>(h),
{
    reveal_strlit("0x");
    let s = "0x"@ + isize_hex_text(h);
    assert((h as usize) as nat == h as nat);
    lemma_hex_text_parses(h as nat, isize::MIN as int, isize::MAX as int);
    assert(s.skip(2) =~= hex_text(h as nat));
    assert(has_hex_prefix(s));
}

/// Reads an integer parameter as `i32`.
pub fn get_param_i32(params: &JsonValue, key: &str) -> (r: Result<i32, GuiError>)
    ensures
        match r {
            Ok(v) => arg_i32(params@, key@) == Ok::<i32, GuiErrorModel>(v),
            Err(e) => arg_i32(params@, key@) == Err::<i32, GuiErrorModel>(e@),
        },
{
    match get_i64(params, key) {
        Some(n) => Ok(n as i32),
        None => Err(refuse("Missing or invalid int param: ", key)),
    }
}

/// Reads a key code parameter (see [`arg_u16`]).
pub fn get_param_u16(params: &JsonValue, key: &str) -> (r: Result<u16, GuiError>)
    ensures
        match r {
            Ok(v) => arg_u16(params@, key@) == Ok::<u16, GuiErrorModel>(v),
            Err(e) => arg_u16(params@, key@) == Err::<u16, GuiErrorModel>(e@),
        },
{
    let val = match params.get(key) {
        Some(v) => v,
        None => return Err(refuse("Missing or invalid u16 param: ", key)),
    };
    if let Some(n) = val.as_u64() {
        return Ok(n as u16);
    }
    if let Some(s) = val.as_str() {
        let chars = chars_of(s);
        let hex = starts_with_hex_prefix(&chars);
        let start: usize = if hex {
            2
        } else {
            0
        };
        let radix: u32 = if hex {
            16
        } else {
            10
        };
        if hex {
            assert(chars@.subrange(2, chars@.len() as int) =~= s@.skip(2));
        } else {
            assert(chars@.subrange(0, chars@.len() as int) =~= s@);
        }
        return match parse_int(&chars, start, radix, 0, u16::MAX as i128) {
            Ok(k) => Ok(k as u16),
            Err(_) => Err(refuse("Missing or invalid u16 param: ", key)),
        };
    }
    Err(refuse("Missing or invalid u16 param: ", key))
}

/// Reads a non-negative integer parameter as `u32`.
pub fn get_param_u32(params: &JsonValue, key: &str) -> (r: Result<u32, GuiError>)
    ensures
        match r {
            Ok(v) => arg_u32(params@, key@) == Ok::<u32, GuiErrorModel>(v),
            Err(e) => arg_u32(params@, key@) == Err::<u32, GuiErrorModel>(e@),
        },
{
    match get_u64(params, key) {
        Some(n) => Ok(n as u32),
        None => Err(refuse("Missing or invalid u32 param: ", key)),
    }
}

/// Reads an optional non-negative integer parameter as `usize`.
pub fn get_param_usize(params: &JsonValue, key: &str) -> (r: Option<usize>)
    ensures
        r == (match u64_at(params@, key@) {
            Some(n) => Some(n as usize),
            None => None::<usize>,
        }),
{
    match get_u64(params, key) {
        Some(n) => Some(n as usize),
        None => None,
    }
}

/// Reads an optional integer parameter as `isize`.
pub fn get_param_isize(params: &JsonValue, key: &str) -> (r: Option<isize>)
    ensures
        r == (match i64_at(params@, key@) {
            Some(n) => Some(n as isize),
            None => None::<isize>,
        }),
{
    match get_i64(params, key) {
        Some(n) => Some(n as isize),
        None => None,
    }
}

/// Reads a string parameter.
pub fn get_param_str<'a>(params: &'a JsonValue, key: &str) -> (r: Result<&'a str, GuiError>)
    ensures
        match r {
            Ok(v) => arg_str(params@, key@) == Ok::<Seq<char>, GuiErrorModel>(v@),
            Err(e) => arg_str(params@, key@) == Err::<Seq<char>, GuiErrorModel>(e@),
        },
{
    match get_str(params, key) {
        Some(s) => Ok(s),
        None => Err(refuse("Missing or invalid string param: ", key)),
    }
}

/// A refusal for a window handle that does not parse.
fn hwnd_parse_error(prefix: &str, kind: crate::number::IntErrorKind) -> (r: GuiError)
    ensures
        r@ == GuiErrorModel::Message(prefix@ + int_error_text(kind)),
{
    let mut m = String::from_str(prefix);
    let detail = int_error_message(kind);
    m.append(detail.as_str());
    GuiError::Message(m)
}

/// Reads the window handle under `key`.
pub fn get_param_hwnd(params: &JsonValue, key: &str) -> (r: Result<isize, GuiError>)
    ensures
        match r {
            Ok(v) => arg_hwnd(params@, key@) == Ok::<isize, GuiErrorModel>(v),
            Err(e) => arg_hwnd(params@, key@) == Err::<isize, GuiErrorModel>(e@),
        },
{
    let val = match params.get(key) {
        Some(v) => v,
        None => return Err(refuse("Missing param: ", key)),
    };
    if let Some(s) = val.as_str() {
        let chars = chars_of(s);
        if starts_with_hex_prefix(&chars) {
            assert(chars@.subrange(2, chars@.len() as int) =~= s@.skip(2));
            return match parse_int(&chars, 2, 16, isize::MIN as i128, isize::MAX as i128) {
                Ok(h) => Ok(h as isize),
                Err(e) => Err(hwnd_parse_error("Invalid hwnd hex: ", e)),
            };
        }
        assert(chars@.subrange(0, chars@.len() as int) =~= s@);
        return match parse_int(&chars, 0, 10, isize::MIN as i128, isize::MAX as i128) {
            Ok(h) => Ok(h as isize),
            Err(e) => Err(hwnd_parse_error("Invalid hwnd: ", e)),
        };
    }
    if let Some(n) = val.as_u64() {
        return Ok(n as isize);
    }
    if let Some(n) = val.as_i64() {
        return Ok(n as isize);
    }
    Err(GuiError::UnparsableHwnd(val.duplicate()))
}

// ---------------------------------------------------------------------------
// The gui_command tool
// ---------------------------------------------------------------------------

/// The parameters of a `gui_command` call: the `params` object, or an empty
/// object when there is none.
pub open spec fn command_params(args: JsonModel) -> JsonModel {
    match json_get(args, "params"@) {
        Some(JsonModel::Object(e)) => JsonModel::Object(e),
        _ => JsonModel::Object(seq![]),
    }
}

/// A request that needs only the window handle.
pub open spec fn hwnd_request(p: JsonModel, make: spec_fn(isize) -> CommandModel) -> Result<
    CommandModel,
    GuiErrorModel,
> {
    match arg_hwnd(p, "hwnd"@) {
        Ok(h) => Ok(make(h)),
        Err(e) => Err(e),
    }
}

/// The button a click asks for.
pub open spec fn click_button(p: JsonModel) -> MouseButton {
    match str_at(p, "button"@) {
        Some(s) => button_named(s),
        None => MouseButton::Left,
    }
}

/// An optional integer, or the default.
pub open spec fn or_default(r: Result<i32, GuiErrorModel>, d: i32) -> i32 {
    match r {
        Ok(v) => v,
        Err(_) => d,
    }
}

/// The request of the action `action` with parameters `p`.
pub open spec fn gui_action(action: Seq<char>, p: JsonModel) -> Result<CommandModel, GuiErrorModel> {
    if action == "click"@ {
        match (arg_i32(p, "x"@), arg_i32(p, "y"@)) {
            (Err(e), _) => Err(e),
            (Ok(_), Err(e)) => Err(e),
            (Ok(x), Ok(y)) => Ok(CommandModel::Click { x, y, button: click_button(p) }),
        }
    } else if action == "double_click"@ {
        match (arg_i32(p, "x"@), arg_i32(p, "y"@)) {
            (Err(e), _) => Err(e),
            (Ok(_), Err(e)) => Err(e),
            (Ok(x), Ok(y)) => Ok(CommandModel::DoubleClick { x, y }),
        }
    } else if action == "type"@ {
        match arg_str(p, "text"@) {
            Ok(t) => Ok(CommandModel::TypeText { text: t }),
            Err(e) => Err(e),
        }
    } else if action == "move_mouse"@ {
        match (arg_i32(p, "x"@), arg_i32(p, "y"@)) {
            (Err(e), _) => Err(e),
            (Ok(_), Err(e)) => Err(e),
            (Ok(x), Ok(y)) => Ok(CommandModel::MoveMouse { x, y }),
        }
    } else if action == "focus"@ {
        hwnd_request(p, |h: isize| CommandModel::Focus { hwnd: h })
    } else if action == "minimize"@ {
        hwnd_request(p, |h: isize| CommandModel::Minimize { hwnd: h })
    } else if action == "maximize"@ {
        hwnd_request(p, |h: isize| CommandModel::Maximize { hwnd: h })
    } else if action == "restore"@ {
        hwnd_request(p, |h: isize| CommandModel::Restore { hwnd: h })
    } else if action == "close"@ {
        hwnd_request(p, |h: isize| CommandModel::Close { hwnd: h })
    } else if action == "hide"@ {
        hwnd_request(p, |h: isize| CommandModel::Hide { hwnd: h })
    } else if action == "show"@ {
        hwnd_request(p, |h: isize| CommandModel::Show { hwnd: h })
    } else if action == "move_window"@ {
        match (arg_hwnd(p, "hwnd"@), arg_i32(p, "x"@), arg_i32(p, "y"@)) {
            (Err(e), _, _) => Err(e),
            (Ok(_), Err(e), _) => Err(e),
            (Ok(_), Ok(_), Err(e)) => Err(e),
            (Ok(hwnd), Ok(x), Ok(y)) => {
                let w = or_default(arg_i32(p, "w"@), 0);
                let h = or_default(arg_i32(p, "h"@), 0);
                if w > 0 && h > 0 {
                    Ok(CommandModel::MoveWindow { hwnd, x, y, w, h })
                } else {
                    Ok(CommandModel::MoveWindowKeepSize { hwnd, x, y })
                }
            },
        }
    } else if action == "resize"@ {
        match (arg_hwnd(p, "hwnd"@), arg_i32(p, "w"@), arg_i32(p, "h"@)) {
            (Err(e), _, _) => Err(e),
            (Ok(_), Err(e), _) => Err(e),
            (Ok(_), Ok(_), Err(e)) => Err(e),
            (Ok(hwnd), Ok(w), Ok(h)) => Ok(CommandModel::Resize { hwnd, w, h }),
        }
    } else if action == "enum_windows"@ {
        Ok(CommandModel::EnumWindows)
    } else if action == "get_window_info"@ {
        hwnd_request(p, |h: isize| CommandModel::GetWindowInfo { hwnd: h })
    } else if action == "switch_desktop"@ {
        Ok(CommandModel::SwitchDesktop { direction: or_default(arg_i32(p, "direction"@), 1) })
    } else if action == "key_press"@ {
        match arg_u16(p, "vk"@) {
            Ok(vk) => Ok(CommandModel::KeyPress { vk }),
            Err(e) => Err(e),
        }
    } else if action == "key_release"@ {
        match arg_u16(p, "vk"@) {
            Ok(vk) => Ok(CommandModel::KeyRelease { vk }),
            Err(e) => Err(e),
        }
    } else if action == "post_message"@ {
        match (arg_hwnd(p, "hwnd"@), arg_u32(p, "msg"@)) {
            (Err(e), _) => Err(e),
            (Ok(_), Err(e)) => Err(e),
            (Ok(hwnd), Ok(msg)) => Ok(
                CommandModel::PostMessage {
                    hwnd,
                    msg,
                    wparam: match u64_at(p, "wparam"@) {
                        Some(n) => n as usize,
                        None => 0,
                    },
                    lparam: match i64_at(p, "lparam"@) {
                        Some(n) => n as isize,
                        None => 0,
                    },
                },
            ),
        }
    } else {
        Err(GuiErrorModel::Message("Unknown action: "@ + action))
    }
}

/// `move_window` without a positive width and height moves the window and
/// keeps its size; with both, it moves and resizes it.
pub proof fn lemma_move_window_size_is_optional(p: JsonModel, hwnd: isize, x: i32, y: i32)
    requires
        arg_hwnd(p, "hwnd"@) == Ok::<isize, GuiErrorModel>(hwnd),
        arg_i32(p, "x"@) == Ok::<i32, GuiErrorModel>(x),
        arg_i32(p, "y"@) == Ok::<i32, GuiErrorModel>(y),
    ensures
        match (arg_i32(p, "w"@), arg_i32(p, "h"@)) {
            (Ok(w), Ok(h)) if w > 0 && h > 0 => gui_action("move_window"@, p) == Ok::<
                CommandModel,
                GuiErrorModel,
            >(CommandModel::MoveWindow { hwnd, x, y, w, h }),
            _ => gui_action("move_window"@, p) == Ok::<CommandModel, GuiErrorModel>(
                CommandModel::MoveWindowKeepSize { hwnd, x, y },
            ),
        },
{
    reveal_strlit("move_window");
    reveal_strlit("click");
    reveal_strlit("double_click");
    reveal_strlit("type");
    reveal_strlit("move_mouse");
    reveal_strlit("focus");
    reveal_strlit("minimize");
    reveal_strlit("maximize");
    reveal_strlit("restore");
    reveal_strlit("close");
    reveal_strlit("hide");
    reveal_strlit("show");
    // Each earlier action name differs from `move_window` in length.
    assert("move_window"@.len() == 11);
    assert("click"@.len() == 5 && "double_click"@.len() == 12 && "type"@.len() == 4);
    assert("move_mouse"@.len() == 10 && "focus"@.len() == 5 && "minimize"@.len() == 8);
    assert("maximize"@.len() == 8 && "restore"@.len() == 7 && "close"@.len() == 5);
    assert("hide"@.len() == 4 && "show"@.len() == 4);
}

/// `post_message` posts to the window under `hwnd` the message under `msg`
/// with the `wparam` and `lparam` given: an integer `wparam` (within
/// `usize`) and `lparam` (within `isize`) are passed as they are, and only an
/// absent one is passed as 0.
pub proof fn lemma_post_message_carries_its_parameters(p: JsonModel, hwnd: isize, msg: int)
    requires
        arg_hwnd(p, "hwnd"@) == Ok::<isize, GuiErrorModel>(hwnd),
        json_get(p, "msg"@) == Some(JsonModel::Int(msg)),
        0 <= msg <= u32::MAX,
    ensures
        gui_action("post_message"@, p) matches Ok(CommandModel::PostMessage { hwnd: h, msg: m, wparam, lparam })
            && h == hwnd && m == msg
            && (forall|w: int| json_get(p, "wparam"@) == Some(JsonModel::Int(w)) && 0 <= w <= usize::MAX
                ==> wparam == w)
            && (json_get(p, "wparam"@) is None ==> wparam == 0)
            && (forall|l: int| json_get(p, "lparam"@) == Some(JsonModel::Int(l)) && isize::MIN <= l
                <= isize::MAX ==> lparam == l)
            && (json_get(p, "lparam"@) is None ==> lparam == 0),
{
    reveal_strlit("post_message");
    reveal_strlit("click");
    reveal_strlit("double_click");
    reveal_strlit("type");
    reveal_strlit("move_mouse");
    reveal_strlit("focus");
    reveal_strlit("minimize");
    reveal_strlit("maximize");
    reveal_strlit("restore");
    reveal_strlit("close");
    reveal_strlit("hide");
    reveal_strlit("show");
    reveal_strlit("move_window");
    reveal_strlit("resize");
    reveal_strlit("enum_windows");
    reveal_strlit("get_window_info");
    reveal_strlit("switch_desktop");
    reveal_strlit("key_press");
    reveal_strlit("key_release");
    // Each earlier action name differs from `post_message` in length or in
    // its first letter.
    assert("post_message"@.len() == 12 && "post_message"@[0] == 'p');
    assert("click"@.len() == 5 && "type"@.len() == 4 && "move_mouse"@.len() == 10);
    assert("double_click"@[0] == 'd' && "enum_windows"@[0] == 'e');
    assert("focus"@.len() == 5 && "minimize"@.len() == 8 && "maximize"@.len() == 8);
    assert("restore"@.len() == 7 && "close"@.len() == 5 && "hide"@.len() == 4);
    assert("show"@.len() == 4 && "move_window"@.len() == 11 && "resize"@.len() == 6);
    assert("get_window_info"@.len() == 15 && "switch_desktop"@.len() == 14);
    assert("key_press"@.len() == 9 && "key_release"@.len() == 11);
    assert("post_message"@ != "double_click"@);
    assert("post_message"@ != "enum_windows"@);
}

/// An integer parameter within `i32` is read as it is.
proof fn lemma_int_param(p: JsonModel, key: Seq<char>, v: int)
    requires
        json_get(p, key) == Some(JsonModel::Int(v)),
        i32::MIN <= v <= i32::MAX,
    ensures
        arg_i32(p, key) == Ok::<i32, GuiErrorModel>(v as i32),
{
}

/// The pointer actions act at the `x` and `y` given: `click` clicks there
/// (with the right button for `"right"`, the middle one for `"middle"`, the
/// left one otherwise), `double_click` double-clicks there and `move_mouse`
/// moves the pointer there.
pub proof fn lemma_pointer_actions_use_their_point(p: JsonModel, x: int, y: int)
    requires
        json_get(p, "x"@) == Some(JsonModel::Int(x)),
        json_get(p, "y"@) == Some(JsonModel::Int(y)),
        i32::MIN <= x <= i32::MAX,
        i32::MIN <= y <= i32::MAX,
    ensures
        gui_action("click"@, p) matches Ok(CommandModel::Click { x: a, y: b, button }) && a == x && b
            == y && (json_get(p, "button"@) == Some(JsonModel::Str("right"@)) ==> button
            == MouseButton::Right) && (json_get(p, "button"@) == Some(JsonModel::Str("middle"@))
            ==> button == MouseButton::Middle) && (json_get(p, "button"@) is None ==> button
            == MouseButton::Left),
        gui_action("double_click"@, p) == Ok::<CommandModel, GuiErrorModel>(
            CommandModel::DoubleClick { x: x as i32, y: y as i32 },
        ),
        gui_action("move_mouse"@, p) == Ok::<CommandModel, GuiErrorModel>(
            CommandModel::MoveMouse { x: x as i32, y: y as i32 },
        ),
{
    lemma_action_names();
    lemma_int_param(p, "x"@, x);
    lemma_int_param(p, "y"@, y);
    reveal_strlit("right");
    reveal_strlit("middle");
    assert("right"@ != "middle"@) by {
        assert("right"@.len() != "middle"@.len());
    }
}

/// Each window action acts on the window under `hwnd`: `focus`, `minimize`,
/// `maximize`, `restore`, `close`, `hide`, `show` and `get_window_info` are
/// requests for exactly that window.
pub proof fn lemma_window_actions_use_their_window(p: JsonModel, hwnd: isize)
    requires
        arg_hwnd(p, "hwnd"@) == Ok::<isize, GuiErrorModel>(hwnd),
    ensures
        gui_action("focus"@, p) == Ok::<CommandModel, GuiErrorModel>(CommandModel::Focus { hwnd }),
        gui_action("minimize"@, p) == Ok::<CommandModel, GuiErrorModel>(CommandModel::Minimize { hwnd }),
        gui_action("maximize"@, p) == Ok::<CommandModel, GuiErrorModel>(CommandModel::Maximize { hwnd }),
        gui_action("restore"@, p) == Ok::<CommandModel, GuiErrorModel>(CommandModel::Restore { hwnd }),
        gui_action("close"@, p) == Ok::<CommandModel, GuiErrorModel>(CommandModel::Close { hwnd }),
        gui_action("hide"@, p) == Ok::<CommandModel, GuiErrorModel>(CommandModel::Hide { hwnd }),
        gui_action("show"@, p) == Ok::<CommandModel, GuiErrorModel>(CommandModel::Show { hwnd }),
        gui_action("get_window_info"@, p) == Ok::<CommandModel, GuiErrorModel>(
            CommandModel::GetWindowInfo { hwnd },
        ),
{
    lemma_action_names();
}

/// `resize` gives the window under `hwnd` the `w` and `h` given.
pub proof fn lemma_resize_uses_its_size(p: JsonModel, hwnd: isize, w: int, h: int)
    requires
        arg_hwnd(p, "hwnd"@) == Ok::<isize, GuiErrorModel>(hwnd),
        json_get(p, "w"@) == Some(JsonModel::Int(w)),
        json_get(p, "h"@) == Some(JsonModel::Int(h)),
        i32::MIN <= w <= i32::MAX,
        i32::MIN <= h <= i32::MAX,
    ensures
        gui_action("resize"@, p) == Ok::<CommandModel, GuiErrorModel>(
            CommandModel::Resize { hwnd, w: w as i32, h: h as i32 },
        ),
{
    lemma_action_names();
    lemma_int_param(p, "w"@, w);
    lemma_int_param(p, "h"@, h);
}

/// `type` types the `text` given.
pub proof fn lemma_type_uses_its_text(p: JsonModel, t: Seq<char>)
    requires
        json_get(p, "text"@) == Some(JsonModel::Str(t)),
    ensures
        gui_action("type"@, p) == Ok::<CommandModel, GuiErrorModel>(CommandModel::TypeText { text: t }),
{
    lemma_action_names();
}

/// `key_press` and `key_release` press and release the `vk` given.
pub proof fn lemma_key_actions_use_their_code(p: JsonModel, vk: int)
    requires
        json_get(p, "vk"@) == Some(JsonModel::Int(vk)),
        0 <= vk <= u16::MAX,
    ensures
        gui_action("key_press"@, p) == Ok::<CommandModel, GuiErrorModel>(
            CommandModel::KeyPress { vk: vk as u16 },
        ),
        gui_action("key_release"@, p) == Ok::<CommandModel, GuiErrorModel>(
            CommandModel::KeyRelease { vk: vk as u16 },
        ),
{
    lemma_action_names();
}

/// `switch_desktop` goes in the `direction` given, and to the right (1) when
/// none is given.
pub proof fn lemma_switch_uses_its_direction(p: JsonModel)
    ensures
        json_get(p, "direction"@) is None ==> gui_action("switch_desktop"@, p) == Ok::<
            CommandModel,
            GuiErrorModel,
        >(CommandModel::SwitchDesktop { direction: 1 }),
        json_get(p, "direction"@) matches Some(JsonModel::Int(d)) ==> (i32::MIN <= d <= i32::MAX
            ==> gui_action("switch_desktop"@, p) == Ok::<CommandModel, GuiErrorModel>(
            CommandModel::SwitchDesktop { direction: d as i32 },
        )),
{
    lemma_action_names();
}

/// The request of a `gui_command` call with arguments `args`.
pub open spec fn gui_command(args: JsonModel) -> Result<CommandModel, GuiErrorModel> {
    match str_at(args, "action"@) {
        None => Err(GuiErrorModel::Message("Missing 'action' field"@)),
        Some(action) => gui_action(action, command_params(args)),
    }
}

/// `r` is the outcome `s`.
pub open spec fn same_gui_outcome(r: Result<Command, GuiError>, s: Result<CommandModel, GuiErrorModel>) -> bool {
    match r {
        Ok(c) => s == Ok::<CommandModel, GuiErrorModel>(c@),
        Err(e) => s == Err::<CommandModel, GuiErrorModel>(e@),
    }
}

/// The request of the action `action` with parameters `p`.
fn plan_action(action: &str, p: &JsonValue) -> (r: Result<Command, GuiError>)
    ensures
        same_gui_outcome(r, gui_action(action@, p@)),
{
    if str_eq(action, "click") {
        let x = get_param_i32(p, "x")?;
        let y = get_param_i32(p, "y")?;
        let button = match get_str(p, "button") {
            Some(s) => button_from_name(s),
            None => MouseButton::Left,
        };
        Ok(Command::Click { x, y, button })
    } else if str_eq(action, "double_click") {
        let x = get_param_i32(p, "x")?;
        let y = get_param_i32(p, "y")?;
        Ok(Command::DoubleClick { x, y })
    } else if str_eq(action, "type") {
        let text = get_param_str(p, "text")?;
        Ok(Command::TypeText { text: String::from_str(text) })
    } else if str_eq(action, "move_mouse") {
        let x = get_param_i32(p, "x")?;
        let y = get_param_i32(p, "y")?;
        Ok(Command::MoveMouse { x, y })
    } else if str_eq(action, "focus") {
        Ok(Command::Focus { hwnd: get_param_hwnd(p, "hwnd")? })
    } else if str_eq(action, "minimize") {
        Ok(Command::Minimize { hwnd: get_param_hwnd(p, "hwnd")? })
    } else if str_eq(action, "maximize") {
        Ok(Command::Maximize { hwnd: get_param_hwnd(p, "hwnd")? })
    } else if str_eq(action, "restore") {
        Ok(Command::Restore { hwnd: get_param_hwnd(p, "hwnd")? })
    } else if str_eq(action, "close") {
        Ok(Command::Close { hwnd: get_param_hwnd(p, "hwnd")? })
    } else if str_eq(action, "hide") {
        Ok(Command::Hide { hwnd: get_param_hwnd(p, "hwnd")? })
    } else if str_eq(action, "show") {
        Ok(Command::Show { hwnd: get_param_hwnd(p, "hwnd")? })
    } else if str_eq(action, "move_window") {
        let hwnd = get_param_hwnd(p, "hwnd")?;
        let x = get_param_i32(p, "x")?;
        let y = get_param_i32(p, "y")?;
        let w = match get_param_i32(p, "w") {
            Ok(v) => v,
            Err(_) => 0,
        };
        let h = match get_param_i32(p, "h") {
            Ok(v) => v,
            Err(_) => 0,
        };
        if w > 0 && h > 0 {
            Ok(Command::MoveWindow { hwnd, x, y, w, h })
        } else {
            Ok(Command::MoveWindowKeepSize { hwnd, x, y })
        }
    } else if str_eq(action, "resize") {
        let hwnd = get_param_hwnd(p, "hwnd")?;
        let w = get_param_i32(p, "w")?;
        let h = get_param_i32(p, "h")?;
        Ok(Command::Resize { hwnd, w, h })
    } else if str_eq(action, "enum_windows") {
        Ok(Command::EnumWindows)
    } else if str_eq(action, "get_window_info") {
        Ok(Command::GetWindowInfo { hwnd: get_param_hwnd(p, "hwnd")? })
    } else if str_eq(action, "switch_desktop") {
        let direction = match get_param_i32(p, "direction") {
            Ok(v) => v,
            Err(_) => 1,
        };
        Ok(Command::SwitchDesktop { direction })
    } else if str_eq(action, "key_press") {
        Ok(Command::KeyPress { vk: get_param_u16(p, "vk")? })
    } else if str_eq(action, "key_release") {
        Ok(Command::KeyRelease { vk: get_param_u16(p, "vk")? })
    } else if str_eq(action, "post_message") {
        let hwnd = get_param_hwnd(p, "hwnd")?;
        let msg = get_param_u32(p, "msg")?;
        let wparam = match get_param_usize(p, "wparam") {
            Some(v) => v,
            None => 0,
        };
        let lparam = match get_param_isize(p, "lparam") {
            Some(v) => v,
            None => 0,
        };
        Ok(Command::PostMessage { hwnd, msg, wparam, lparam })
    } else {
        Err(refuse("Unknown action: ", action))
    }
}

/// Reads the request of a `gui_command` call (see [`gui_command`]).
pub fn plan_gui_command(args: &JsonValue) -> (r: Result<Command, GuiError>)
    ensures
        same_gui_outcome(r, gui_command(args@)),
{
    let action = match get_str(args, "action") {
        Some(a) => a,
        None => return Err(GuiError::Message(String::from_str("Missing 'action' field"))),
    };
    let empty = object(Vec::new());
    assert(entries_model(Seq::<(String, JsonValue)>::empty()) =~= seq![]);
    let params: &JsonValue = match args.get("params") {
        Some(v) => if v.is_object() {
            v
        } else {
            &empty
        },
        None => &empty,
    };
    assert(params@ == command_params(args@));
    plan_action(action, params)
}

// ---------------------------------------------------------------------------
// Answers of the gui_command tool
// ---------------------------------------------------------------------------

/// `name(x,y) done`.
pub open spec fn xy_done(name: Seq<char>, x: i32, y: i32) -> Seq<char> {
    name + seq!['('] + signed_decimal_text(x as int) + seq![','] + signed_decimal_text(y as int)
        + ") done"@
}

/// `name(0x<hwnd>) done`.
pub open spec fn hwnd_done(name: Seq<char>, hwnd: isize) -> Seq<char> {
    name + "(0x"@ + isize_hex_text(hwnd) + ") done"@
}

/// `name(0x<vk>) done`.
pub open spec fn vk_done(name: Seq<char>, vk: u16) -> Seq<char> {
    name + "(0x"@ + hex_text(vk as nat) + ") done"@
}

/// The answer to a carried-out request; none for the requests whose answer
/// is what the system reported.
pub open spec fn gui_reply(c: CommandModel) -> Option<Seq<char>> {
    match c {
        CommandModel::Click { x, y, .. } => Some(xy_done("click"@, x, y)),
        CommandModel::DoubleClick { x, y } => Some(xy_done("double_click"@, x, y)),
        CommandModel::TypeText { text } => Some("typed "@ + str_debug(text)),
        CommandModel::MoveMouse { x, y } => Some(xy_done("move_mouse"@, x, y)),
        CommandModel::Focus { hwnd } => Some(hwnd_done("focus"@, hwnd)),
        CommandModel::Minimize { hwnd } => Some(hwnd_done("minimize"@, hwnd)),
        CommandModel::Maximize { hwnd } => Some(hwnd_done("maximize"@, hwnd)),
        CommandModel::Restore { hwnd } => Some(hwnd_done("restore"@, hwnd)),
        CommandModel::Close { hwnd } => Some(hwnd_done("close"@, hwnd)),
        CommandModel::Hide { hwnd } => Some(hwnd_done("hide"@, hwnd)),
        CommandModel::Show { hwnd } => Some(hwnd_done("show"@, hwnd)),
        CommandModel::MoveWindow { hwnd, .. } => Some(hwnd_done("move_window"@, hwnd)),
        CommandModel::MoveWindowKeepSize { hwnd, .. } => Some(hwnd_done("move_window"@, hwnd)),
        CommandModel::Resize { hwnd, .. } => Some(hwnd_done("resize"@, hwnd)),
        CommandModel::SwitchDesktop { direction } => Some(
            "switch_desktop("@ + signed_decimal_text(direction as int) + ") done"@,
        ),
        CommandModel::KeyPress { vk } => Some(vk_done("key_press"@, vk)),
        CommandModel::KeyRelease { vk } => Some(vk_done("key_release"@, vk)),
        CommandModel::PostMessage { hwnd, .. } => Some(hwnd_done("post_message"@, hwnd)),
        _ => None,
    }
}

/// The answer to a window action names that action and the window it acted
/// on: `<action>(0x<hwnd>) done`.
pub proof fn lemma_window_replies_name_their_action(p: JsonModel, hwnd: isize)
    requires
        arg_hwnd(p, "hwnd"@) == Ok::<isize, GuiErrorModel>(hwnd),
    ensures
        gui_reply(gui_action("focus"@, p)->Ok_0) == Some("focus"@ + "(0x"@ + isize_hex_text(hwnd) + ") done"@),
        gui_reply(gui_action("minimize"@, p)->Ok_0) == Some("minimize"@ + "(0x"@ + isize_hex_text(hwnd) + ") done"@),
        gui_reply(gui_action("maximize"@, p)->Ok_0) == Some("maximize"@ + "(0x"@ + isize_hex_text(hwnd) + ") done"@),
        gui_reply(gui_action("restore"@, p)->Ok_0) == Some("restore"@ + "(0x"@ + isize_hex_text(hwnd) + ") done"@),
        gui_reply(gui_action("close"@, p)->Ok_0) == Some("close"@ + "(0x"@ + isize_hex_text(hwnd) + ") done"@),
        gui_reply(gui_action("hide"@, p)->Ok_0) == Some("hide"@ + "(0x"@ + isize_hex_text(hwnd) + ") done"@),
        gui_reply(gui_action("show"@, p)->Ok_0) == Some("show"@ + "(0x"@ + isize_hex_text(hwnd) + ") done"@),
{
    lemma_window_actions_use_their_window(p, hwnd);
}

/// The answer to a pointer action names that action and its point:
/// `<action>(<x>,<y>) done`.
pub proof fn lemma_pointer_replies_name_their_action(p: JsonModel, x: int, y: int)
    requires
        json_get(p, "x"@) == Some(JsonModel::Int(x)),
        json_get(p, "y"@) == Some(JsonModel::Int(y)),
        i32::MIN <= x <= i32::MAX,
        i32::MIN <= y <= i32::MAX,
    ensures
        gui_reply(gui_action("click"@, p)->Ok_0) == Some(
            "click"@ + seq!['('] + signed_decimal_text(x) + seq![','] + signed_decimal_text(y) + ") done"@,
        ),
        gui_reply(gui_action("double_click"@, p)->Ok_0) == Some(
            "double_click"@ + seq!['('] + signed_decimal_text(x) + seq![','] + signed_decimal_text(y)
                + ") done"@,
        ),
        gui_reply(gui_action("move_mouse"@, p)->Ok_0) == Some(
            "move_mouse"@ + seq!['('] + signed_decimal_text(x) + seq![','] + signed_decimal_text(y)
                + ") done"@,
        ),
{
    lemma_pointer_actions_use_their_point(p, x, y);
}

/// The answer to a key action names that action and its key:
/// `<action>(0x<vk>) done`.
pub proof fn lemma_key_replies_name_their_action(p: JsonModel, vk: int)
    requires
        json_get(p, "vk"@) == Some(JsonModel::Int(vk)),
        0 <= vk <= u16::MAX,
    ensures
        gui_reply(gui_action("key_press"@, p)->Ok_0) == Some("key_press"@ + "(0x"@ + hex_text(vk as nat) + ") done"@),
        gui_reply(gui_action("key_release"@, p)->Ok_0) == Some(
            "key_release"@ + "(0x"@ + hex_text(vk as nat) + ") done"@,
        ),
{
    lemma_key_actions_use_their_code(p, vk);
}

fn xy_done_text(name: &str, x: i32, y: i32) -> (r: String)
    ensures
        r@ == xy_done(name@, x, y),
{
    let mut r = String::from_str(name);
    push_char(&mut r, '(');
    push_signed_decimal(&mut r, x as i64);
    push_char(&mut r, ',');
    push_signed_decimal(&mut r, y as i64);
    r.append(") done");
    assert(r@ =~= xy_done(name@, x, y));
    r
}

fn hwnd_done_text(name: &str, hwnd: isize) -> (r: String)
    ensures
        r@ == hwnd_done(name@, hwnd),
{
    let mut r = String::from_str(name);
    r.append("(0x");
    push_isize_hex(&mut r, hwnd);
    r.append(") done");
    assert(r@ =~= hwnd_done(name@, hwnd));
    r
}

fn vk_done_text(name: &str, vk: u16) -> (r: String)
    ensures
        r@ == vk_done(name@, vk),
{
    let mut r = String::from_str(name);
    r.append("(0x");
    push_hex(&mut r, vk as u64);
    r.append(") done");
    assert(r@ =~= vk_done(name@, vk));
    r
}

/// The answer to carried-out request `cmd` (see [`gui_reply`]).
pub fn gui_command_reply(cmd: &Command) -> (r: Option<String>)
    ensures
        match r {
            Some(s) => gui_reply(cmd@) == Some(s@),
            None => gui_reply(cmd@) is None,
        },
{
    match cmd {
        Command::Click { x, y, .. } => Some(xy_done_text("click", *x, *y)),
        Command::DoubleClick { x, y } => Some(xy_done_text("double_click", *x, *y)),
        Command::TypeText { text } => {
            let mut r = String::from_str("typed ");
            let d = debug_str(text.as_str());
            r.append(d.as_str());
            Some(r)
        },
        Command::MoveMouse { x, y } => Some(xy_done_text("move_mouse", *x, *y)),
        Command::Focus { hwnd } => Some(hwnd_done_text("focus", *hwnd)),
        Command::Minimize { hwnd } => Some(hwnd_done_text("minimize", *hwnd)),
        Command::Maximize { hwnd } => Some(hwnd_done_text("maximize", *hwnd)),
        Command::Restore { hwnd } => Some(hwnd_done_text("restore", *hwnd)),
        Command::Close { hwnd } => Some(hwnd_done_text("close", *hwnd)),
        Command::Hide { hwnd } => Some(hwnd_done_text("hide", *hwnd)),
        Command::Show { hwnd } => Some(hwnd_done_text("show", *hwnd)),
        Command::MoveWindow { hwnd, .. } => Some(hwnd_done_text("move_window", *hwnd)),
        Command::MoveWindowKeepSize { hwnd, .. } => Some(hwnd_done_text("move_window", *hwnd)),
        Command::Resize { hwnd, .. } => Some(hwnd_done_text("resize", *hwnd)),
        Command::SwitchDesktop { direction } => {
            let mut r = String::from_str("switch_desktop(");
            push_signed_decimal(&mut r, *direction as i64);
            r.append(") done");
            Some(r)
        },
        Command::KeyPress { vk } => Some(vk_done_text("key_press", *vk)),
        Command::KeyRelease { vk } => Some(vk_done_text("key_release", *vk)),
        Command::PostMessage { hwnd, .. } => Some(hwnd_done_text("post_message", *hwnd)),
        _ => None,
    }
}

/// The size of a window's rectangle, with the wrapping subtraction of a
/// release build.
pub open spec fn rect_size(r: Rect) -> (i32, i32) {
    (wrapping_diff(r.right, r.left), wrapping_diff(r.bottom, r.top))
}

/// `a - b` wrapped around to `i32`.
pub open spec fn wrapping_diff(a: i32, b: i32) -> i32 {
    let d = a - b;
    if d > i32::MAX {
        (d - 0x1_0000_0000) as i32
    } else if d < i32::MIN {
        (d + 0x1_0000_0000) as i32
    } else {
        d as i32
    }
}

/// A move that keeps the size of the window as reported in `info`.
pub fn size_to_keep(info: &WindowInfo) -> (r: (i32, i32))
    ensures
        r == rect_size(info.rect),
{
    (info.rect.right.wrapping_sub(info.rect.left), info.rect.bottom.wrapping_sub(info.rect.top))
}

/// The line that lists one window.
pub open spec fn window_line(w: WindowInfo) -> Seq<char> {
    window_listing(w, " v="@, " ["@, "] "@)
}

/// The lines of the windows, separated by line feeds.
pub open spec fn windows_text(ws: Seq<WindowInfo>) -> Seq<char>
    decreases ws.len(),
{
    if ws.len() == 0 {
        seq![]
    } else if ws.len() == 1 {
        window_line(ws[0])
    } else {
        windows_text(ws.drop_last()) + seq!['\n'] + window_line(ws.last())
    }
}

/// The answer to `enum_windows`: one line per window.
pub fn enum_windows_reply(windows: &Vec<WindowInfo>) -> (r: String)
    ensures
        r@ == windows_text(windows@),
{
    let mut out = String::new();
    let mut i: usize = 0;
    while i < windows.len()
        invariant
            i <= windows.len(),
            out@ == windows_text(windows@.take(i as int)),
        decreases windows.len() - i,
    {
        let ghost before = out@;
        if i > 0 {
            push_char(&mut out, '\n');
        }
        push_window_listing(&mut out, &windows[i], " v=", " [", "] ");
        proof {
            let t = windows@.take(i + 1);
            assert(t.drop_last() =~= windows@.take(i as int));
            assert(t.last() == windows@[i as int]);
            if i == 0 {
                assert(before =~= Seq::<char>::empty());
                assert(out@ =~= window_line(t[0]));
            } else {
                assert(out@ =~= before + seq!['\n'] + window_line(t.last()));
            }
        }
        i = i + 1;
    }
    assert(windows@.take(i as int) =~= windows@);
    out
}

// ---------------------------------------------------------------------------
// JSON-RPC
// ---------------------------------------------------------------------------

/// A JSON-RPC error object.
#[derive(Debug, PartialEq)]
pub struct RpcError {
    pub code: i32,
    pub message: String,
    pub data: Option<JsonValue>,
}

/// A JSON-RPC response; absent fields are not written.
#[derive(Debug, PartialEq)]
pub struct RpcResponse {
    pub jsonrpc: String,
    pub id: Option<JsonValue>,
    pub result: Option<JsonValue>,
    pub error: Option<RpcError>,
}

/// The model of an optional value.
pub open spec fn opt_model(v: Option<JsonValue>) -> Option<JsonModel> {
    match v {
        Some(x) => Some(x@),
        None => None,
    }
}

/// `resp` is an error response with `id`, `code` and `message`.
pub open spec fn is_error_response(
    resp: RpcResponse,
    id: Option<JsonModel>,
    code: i32,
    message: Seq<char>,
) -> bool {
    &&& resp.jsonrpc@ == "2.0"@
    &&& opt_model(resp.id) == id
    &&& resp.result is None
    &&& resp.error matches Some(e) && e.code == code && e.message@ == message && e.data is None
}

/// `resp` is a result response with `id` and `result`.
pub open spec fn is_result_response(resp: RpcResponse, id: Option<JsonModel>, result: JsonModel) -> bool {
    &&& resp.jsonrpc@ == "2.0"@
    &&& opt_model(resp.id) == id
    &&& opt_model(resp.result) == Some(result)
    &&& resp.error is None
}

/// An error response.
pub fn json_error(id: Option<JsonValue>, code: i32, msg: &str) -> (r: RpcResponse)
    ensures
        is_error_response(r, opt_model(id), code, msg@),
{
    RpcResponse {
        jsonrpc: String::from_str("2.0"),
        id,
        result: None,
        error: Some(RpcError { code, message: String::from_str(msg), data: None }),
    }
}

/// A result response.
pub fn json_result(id: Option<JsonValue>, result: JsonValue) -> (r: RpcResponse)
    ensures
        is_result_response(r, opt_model(id), result@),
{
    RpcResponse { jsonrpc: String::from_str("2.0"), id, result: Some(result), error: None }
}

/// What the server does with a request, by its method.
#[derive(Clone, Copy, Debug, PartialEq, Eq, Structural)]
pub enum RpcRoute {
    /// Answer with the server's capabilities.
    Initialize,
    /// A notification: no answer.
    Notification,
    /// Answer with the tool list.
    ListTools,
    /// Run a tool.
    CallTool,
    /// Answer that the method does not exist.
    NotFound,
}

/// The route of a method.
pub open spec fn route_of(method: Seq<char>) -> RpcRoute {
    if method == "initialize"@ {
        RpcRoute::Initialize
    } else if method == "notifications/initialized"@ || method == "notifications/cancelled"@ {
        RpcRoute::Notification
    } else if method == "tools/list"@ {
        RpcRoute::ListTools
    } else if method == "tools/call"@ {
        RpcRoute::CallTool
    } else {
        RpcRoute::NotFound
    }
}

/// Routes a request by its method.
pub fn route_method(method: &str) -> (r: RpcRoute)
    ensures
        r == route_of(method@),
{
    if str_eq(method, "initialize") {
        RpcRoute::Initialize
    } else if str_eq(method, "notifications/initialized") || str_eq(
        method,
        "notifications/cancelled",
    ) {
        RpcRoute::Notification
    } else if str_eq(method, "tools/list") {
        RpcRoute::ListTools
    } else if str_eq(method, "tools/call") {
        RpcRoute::CallTool
    } else {
        RpcRoute::NotFound
    }
}

/// The answer to a request whose method does not exist.
pub fn method_not_found(id: Option<JsonValue>, method: &str) -> (r: RpcResponse)
    ensures
        is_error_response(r, opt_model(id), -32601i32, "Method not found: "@ + method@),
{
    let m = message("Method not found: ", method);
    json_error(id, -32601, m.as_str())
}

/// The answer to a line that is not a JSON-RPC request; `detail` says why.
pub fn parse_error(detail: &str) -> (r: RpcResponse)
    ensures
        is_error_response(r, None, -32700i32, "Parse error: "@ + detail@),
{
    let m = message("Parse error: ", detail);
    json_error(None, -32700, m.as_str())
}

/// A string entry.
pub open spec fn str_entry(key: Seq<char>, v: Seq<char>) -> (Seq<char>, JsonModel) {
    (key, JsonModel::Str(v))
}

/// The capabilities the server announces.
pub open spec fn initialize_result() -> JsonModel {
    JsonModel::Object(
        seq![
            str_entry("protocolVersion"@, "2025-03-26"@),
            ("capabilities"@, JsonModel::Object(seq![("tools"@, JsonModel::Object(seq![]))])),
            (
                "serverInfo"@,
                JsonModel::Object(
                    seq![str_entry("name"@, "via-mcp"@), str_entry("version"@, "0.1.0"@)],
                ),
            ),
        ],
    )
}

/// The answer to `initialize`.
pub fn handle_initialize(id: Option<JsonValue>) -> (r: RpcResponse)
    ensures
        is_result_response(r, opt_model(id), initialize_result()),
{
    let none = object(Vec::new());
    assert(none@ =~= JsonModel::Object(seq![]));
    let mut tools: Vec<(String, JsonValue)> = Vec::new();
    push_entry(&mut tools, "tools", none);
    let caps = object(tools);
    assert(caps@ =~= JsonModel::Object(seq![("tools"@, JsonModel::Object(seq![]))]));
    let info = two_strings("name", "via-mcp", "version", "0.1.0");
    let mut e: Vec<(String, JsonValue)> = Vec::new();
    push_entry(&mut e, "protocolVersion", string_value("2025-03-26"));
    push_entry(&mut e, "capabilities", caps);
    push_entry(&mut e, "serverInfo", info);
    let v = object(e);
    assert(entries_model(e@) =~= initialize_result()->Object_0);
    json_result(id, v)
}

/// The description of the `gui_dump` tool.
pub open spec fn gui_dump_description() -> Seq<char> {
    "Returns a compressed semantic map of the entire GUI state via UIA. "@
}

/// The description of the `gui_command` tool.
pub open spec fn gui_command_description() -> Seq<char> {
    "Universal GUI command handler. Supports click, type, move, focus, minimize, maximize, close, switch_desktop, key_press, key_release, post_message."@
}

/// The description of the `action` argument.
pub open spec fn action_description() -> Seq<char> {
    "Action: click|double_click|type|move_mouse|focus|minimize|maximize|restore|close|hide|show|move_window|resize|enum_windows|get_window_info|switch_desktop|key_press|key_release|post_message"@
}

/// The description of the `params` argument.
pub open spec fn params_description() -> Seq<char> {
    "Parameters for the action. See action-specific format."@
}

/// The tool list: `gui_dump` without arguments, and `gui_command` with a
/// required string `action` and an object `params`.
pub open spec fn tool_list() -> JsonModel {
    JsonModel::Object(
        seq![
            (
                "tools"@,
                JsonModel::Array(
                    seq![
                        JsonModel::Object(
                            seq![
                                str_entry("name"@, "gui_dump"@),
                                str_entry("description"@, gui_dump_description()),
                                (
                                    "inputSchema"@,
                                    JsonModel::Object(
                                        seq![
                                            str_entry("type"@, "object"@),
                                            ("properties"@, JsonModel::Object(seq![])),
                                        ],
                                    ),
                                ),
                            ],
                        ),
                        JsonModel::Object(
                            seq![
                                str_entry("name"@, "gui_command"@),
                                str_entry("description"@, gui_command_description()),
                                (
                                    "inputSchema"@,
                                    JsonModel::Object(
                                        seq![
                                            str_entry("type"@, "object"@),
                                            (
                                                "properties"@,
                                                JsonModel::Object(
                                                    seq![
                                                        (
                                                            "action"@,
                                                            JsonModel::Object(
                                                                seq![
                                                                    str_entry("type"@, "string"@),
                                                                    str_entry(
                                                                        "description"@,
                                                                        action_description(),
                                                                    ),
                                                                ],
                                                            ),
                                                        ),
                                                        (
                                                            "params"@,
                                                            JsonModel::Object(
                                                                seq![
                                                                    str_entry("type"@, "object"@),
                                                                    str_entry(
                                                                        "description"@,
                                                                        params_description(),
                                                                    ),
                                                                ],
                                                            ),
                                                        ),
                                                    ],
                                                ),
                                            ),
                                            (
                                                "required"@,
                                                JsonModel::Array(seq![JsonModel::Str("action"@)]),
                                            ),
                                        ],
                                    ),
                                ),
                            ],
                        ),
                    ],
                ),
            ),
        ],
    )
}

/// An object of two string entries.
fn two_strings(k1: &str, v1: &str, k2: &str, v2: &str) -> (r: JsonValue)
    ensures
        r@ == JsonModel::Object(seq![str_entry(k1@, v1@), str_entry(k2@, v2@)]),
{
    let mut e: Vec<(String, JsonValue)> = Vec::new();
    push_entry(&mut e, k1, string_value(v1));
    push_entry(&mut e, k2, string_value(v2));
    assert(entries_model(e@) =~= seq![str_entry(k1@, v1@), str_entry(k2@, v2@)]);
    object(e)
}

/// An array of values.
fn array2(a: JsonValue, b: JsonValue) -> (r: JsonValue)
    ensures
        r@ == JsonModel::Array(seq![a@, b@]),
{
    let ghost (ma, mb) = (a@, b@);
    let mut v: Vec<JsonValue> = Vec::new();
    v.push(a);
    v.push(b);
    proof {
        crate::json::lemma_items_model(v@);
    }
    assert(items_model(v@) =~= seq![ma, mb]);
    JsonValue::Array(v)
}

/// The `gui_dump` entry of the tool list.
fn gui_dump_tool() -> (r: JsonValue)
    ensures
        r@ == tool_list()->Object_0[0].1->Array_0[0],
{
    let none = object(Vec::new());
    assert(none@ =~= JsonModel::Object(seq![]));
    let mut schema: Vec<(String, JsonValue)> = Vec::new();
    push_entry(&mut schema, "type", string_value("object"));
    push_entry(&mut schema, "properties", none);
    assert(entries_model(schema@) =~= tool_list()->Object_0[0].1->Array_0[0]->Object_0[2].1->Object_0);
    let schema_v = object(schema);
    let mut e: Vec<(String, JsonValue)> = Vec::new();
    push_entry(&mut e, "name", string_value("gui_dump"));
    push_entry(
        &mut e,
        "description",
        string_value("Returns a compressed semantic map of the entire GUI state via UIA. "),
    );
    push_entry(&mut e, "inputSchema", schema_v);
    let r = object(e);
    assert(entries_model(e@) =~= tool_list()->Object_0[0].1->Array_0[0]->Object_0);
    r
}

/// The `gui_command` entry of the tool list.
fn gui_command_tool() -> (r: JsonValue)
    ensures
        r@ == tool_list()->Object_0[0].1->Array_0[1],
{
    let action = two_strings(
        "type",
        "string",
        "description",
        "Action: click|double_click|type|move_mouse|focus|minimize|maximize|restore|close|hide|show|move_window|resize|enum_windows|get_window_info|switch_desktop|key_press|key_release|post_message",
    );
    let params = two_strings(
        "type",
        "object",
        "description",
        "Parameters for the action. See action-specific format.",
    );
    let mut props: Vec<(String, JsonValue)> = Vec::new();
    push_entry(&mut props, "action", action);
    push_entry(&mut props, "params", params);
    assert(entries_model(props@) =~= tool_list()->Object_0[0].1->Array_0[1]->Object_0[2].1->Object_0[1].1->Object_0);
    let props_v = object(props);
    let mut required: Vec<JsonValue> = Vec::new();
    required.push(string_value("action"));
    proof {
        crate::json::lemma_items_model(required@);
    }
    assert(items_model(required@) =~= seq![JsonModel::Str("action"@)]);
    let mut schema: Vec<(String, JsonValue)> = Vec::new();
    push_entry(&mut schema, "type", string_value("object"));
    push_entry(&mut schema, "properties", props_v);
    let req_v = JsonValue::Array(required);
    push_entry(&mut schema, "required", req_v);
    assert(entries_model(schema@) =~= tool_list()->Object_0[0].1->Array_0[1]->Object_0[2].1->Object_0);
    let schema_v = object(schema);
    let mut e: Vec<(String, JsonValue)> = Vec::new();
    push_entry(&mut e, "name", string_value("gui_command"));
    push_entry(
        &mut e,
        "description",
        string_value(
            "Universal GUI command handler. Supports click, type, move, focus, minimize, maximize, close, switch_desktop, key_press, key_release, post_message.",
        ),
    );
    push_entry(&mut e, "inputSchema", schema_v);
    let r = object(e);
    assert(entries_model(e@) =~= tool_list()->Object_0[0].1->Array_0[1]->Object_0);
    r
}

/// The tool list (see [`tool_list`]).
pub fn tool_definitions() -> (r: JsonValue)
    ensures
        r@ == tool_list(),
{
    let tools = array2(gui_dump_tool(), gui_command_tool());
    let mut e: Vec<(String, JsonValue)> = Vec::new();
    push_entry(&mut e, "tools", tools);
    let r = object(e);
    assert(tools@ =~= tool_list()->Object_0[0].1);
    assert(entries_model(e@) =~= tool_list()->Object_0);
    r
}

// ---------------------------------------------------------------------------
// Tool calls
// ---------------------------------------------------------------------------

/// What a tool call asks for.
#[derive(Debug, PartialEq)]
pub enum ToolRequest {
    /// The UI map.
    Dump,
    /// A GUI command.
    Run(Command),
}

/// A tool call request with its text as a character sequence.
pub enum ToolRequestModel {
    Dump,
    Run(CommandModel),
}

impl View for ToolRequest {
    type V = ToolRequestModel;

    open spec fn view(&self) -> ToolRequestModel {
        match self {
            ToolRequest::Dump => ToolRequestModel::Dump,
            ToolRequest::Run(c) => ToolRequestModel::Run(c@),
        }
    }
}

/// The arguments of a tool call: the `arguments` value, or an empty object.
pub open spec fn call_arguments(params: JsonModel) -> JsonModel {
    match json_get(params, "arguments"@) {
        Some(a) => a,
        None => JsonModel::Object(seq![]),
    }
}

/// What a `tools/call` request with parameters `params` (an empty object
/// when absent) asks for: `gui_dump`, `gui_command` with its arguments, or
/// an unknown tool.
pub open spec fn tool_request_of(params: JsonModel) -> Result<ToolRequestModel, GuiErrorModel> {
    let name = match str_at(params, "name"@) {
        Some(n) => n,
        None => Seq::<char>::empty(),
    };
    if name == "gui_dump"@ {
        Ok(ToolRequestModel::Dump)
    } else if name == "gui_command"@ {
        match gui_command(call_arguments(params)) {
            Ok(c) => Ok(ToolRequestModel::Run(c)),
            Err(e) => Err(e),
        }
    } else {
        Err(GuiErrorModel::Message("Unknown tool: "@ + name))
    }
}

/// The parameters of a request, or an empty object when it has none.
pub open spec fn request_params(params: Option<&JsonValue>) -> JsonModel {
    match params {
        Some(p) => p@,
        None => JsonModel::Object(seq![]),
    }
}

/// Reads a `tools/call` request (see [`tool_request_of`]).
pub fn tool_request(params: Option<&JsonValue>) -> (r: Result<ToolRequest, GuiError>)
    ensures
        match r {
            Ok(t) => tool_request_of(request_params(params)) == Ok::<ToolRequestModel, GuiErrorModel>(t@),
            Err(e) => tool_request_of(request_params(params)) == Err::<ToolRequestModel, GuiErrorModel>(e@),
        },
{
    let empty = object(Vec::new());
    assert(entries_model(Seq::<(String, JsonValue)>::empty()) =~= seq![]);
    let p: &JsonValue = match params {
        Some(v) => v,
        None => &empty,
    };
    assert(p@ == request_params(params));
    proof {
        reveal_strlit("");
    }
    let name = match get_str(p, "name") {
        Some(n) => n,
        None => "",
    };
    assert(name@ == match str_at(p@, "name"@) {
        Some(n) => n,
        None => Seq::<char>::empty(),
    });
    if str_eq(name, "gui_dump") {
        assert(tool_request_of(request_params(params)) == Ok::<ToolRequestModel, GuiErrorModel>(ToolRequestModel::Dump));
        Ok(ToolRequest::Dump)
    } else if str_eq(name, "gui_command") {
        let no_args = object(Vec::new());
        assert(no_args@ =~= JsonModel::Object(seq![]));
        let args: &JsonValue = match p.get("arguments") {
            Some(a) => a,
            None => &no_args,
        };
        assert(args@ == call_arguments(p@));
        assert(name@ == "gui_command"@);
        assert(name@ != "gui_dump"@);
        match plan_gui_command(args) {
            Ok(c) => Ok(ToolRequest::Run(c)),
            Err(e) => Err(e),
        }
    } else {
        Err(refuse("Unknown tool: ", name))
    }
}

/// The content of a tool's successful answer: one text item.
pub open spec fn tool_content(text: Seq<char>) -> JsonModel {
    JsonModel::Object(
        seq![
            (
                "content"@,
                JsonModel::Array(
                    seq![JsonModel::Object(seq![str_entry("type"@, "text"@), str_entry("text"@, text)])],
                ),
            ),
        ],
    )
}

/// The answer to a tool call, with a null id: the text on success, and an
/// error with code -1 and the message after `Error: ` otherwise.
pub fn tool_call_response(outcome: Result<String, String>) -> (r: RpcResponse)
    ensures
        match outcome {
            Ok(text) => is_result_response(r, Some(JsonModel::Null), tool_content(text@)),
            Err(e) => is_error_response(r, Some(JsonModel::Null), -1i32, "Error: "@ + e@),
        },
{
    match outcome {
        Ok(text) => {
            let item = two_strings("type", "text", "text", text.as_str());
            let mut items: Vec<JsonValue> = Vec::new();
            let ghost mi = item@;
            items.push(item);
            proof {
                crate::json::lemma_items_model(items@);
            }
            assert(items_model(items@) =~= seq![mi]);
            let mut e: Vec<(String, JsonValue)> = Vec::new();
            push_entry(&mut e, "content", JsonValue::Array(items));
            let v = object(e);
            assert(entries_model(e@) =~= tool_content(text@)->Object_0);
            json_result(Some(JsonValue::Null), v)
        },
        Err(e) => {
            let m = message("Error: ", e.as_str());
            json_error(Some(JsonValue::Null), -1, m.as_str())
        },
    }
}

} // verus!
