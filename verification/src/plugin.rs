//! The command handler of the native plugin: an action name and a JSON
//! object of parameters become an engine request, and a carried-out request
//! is answered with the parameters it used.
use crate::command::{button_from_name, button_named, lemma_action_names, Command, CommandModel};
use crate::input::MouseButton;
use crate::json::{
    entries_model, get_i64, get_str, i64_at, json_as_i64, json_as_str, json_get, object,
    push_entry, str_at, JsonModel, JsonValue,
};
use crate::number::{int_from_str_radix, lemma_hex_text_parses, parse_int};
use crate::text::{
    chars_of, hex_text, isize_hex_text, lemma_hex_text_has_no_x, skip_hex_prefixes, str_eq,
    strip_hex_prefixes,
};
use vstd::prelude::*;

verus! {

// ---------------------------------------------------------------------------
// Parameters
// ---------------------------------------------------------------------------

/// An integer parameter, truncated to `i32`.
pub open spec fn param_i32(p: JsonModel, key: Seq<char>) -> Result<i32, Seq<char>> {
    match i64_at(p, key) {
        Some(n) => Ok(n as i32),
        None => Err("Missing or invalid i32 param: "@ + key),
    }
}

/// An integer parameter, truncated to `u16`.
pub open spec fn param_u16(p: JsonModel, key: Seq<char>) -> Result<u16, Seq<char>> {
    match i64_at(p, key) {
        Some(n) => Ok(n as u16),
        None => Err("Missing or invalid u16 param: "@ + key),
    }
}

/// An integer parameter, truncated to `u32`.
pub open spec fn param_u32(p: JsonModel, key: Seq<char>) -> Result<u32, Seq<char>> {
    match i64_at(p, key) {
        Some(n) => Ok(n as u32),
        None => Err("Missing or invalid u32 param: "@ + key),
    }
}

/// An optional integer parameter, converted to `usize`.
pub open spec fn param_usize(p: JsonModel, key: Seq<char>) -> Option<usize> {
    match i64_at(p, key) {
        Some(n) => Some(n as usize),
        None => None,
    }
}

/// An optional integer parameter, converted to `isize`.
pub open spec fn param_isize(p: JsonModel, key: Seq<char>) -> Option<isize> {
    match i64_at(p, key) {
        Some(n) => Some(n as isize),
        None => None,
    }
}

/// The error for a missing or unreadable window handle.
pub open spec fn hwnd_error() -> Seq<char> {
    "Missing or invalid param: hwnd"@
}

/// The window handle: an integer, or a string of hexadecimal digits with
/// any number of leading `0x`.
pub open spec fn param_hwnd(p: JsonModel) -> Result<isize, Seq<char>> {
    match json_get(p, "hwnd"@) {
        Some(v) => match json_as_i64(v) {
            Some(n) => Ok(n as isize),
            None => match json_as_str(v) {
                Some(s) => match int_from_str_radix(
                    strip_hex_prefixes(s),
                    16,
                    isize::MIN as int,
                    isize::MAX as int,
                ) {
                    Ok(h) => Ok(h as isize),
                    Err(_) => Err(hwnd_error()),
                },
                None => Err(hwnd_error()),
            },
        },
        None => Err(hwnd_error()),
    }
}

/// A window handle printed as `0x` and lower-case hexadecimal, as the UI map
/// (`h=0x..`) prints it, names the same window when it is handed back as a
/// string under `hwnd`, for every non-negative handle.
pub proof fn lemma_printed_hwnd_is_read_back(p: JsonModel, h: isize)
    requires
        h >= 0,
        json_get(p, "hwnd"@) == Some(JsonModel::Str("0x"@ + isize_hex_text(h))),
    ensures
        param_hwnd(p) == Ok::<isize, Seq<char>>(h),
{
    reveal_strlit("0x");
    let s = "0x"@ + isize_hex_text(h);
    let t = hex_text(h as nat);
    assert((h as usize) as nat == h as nat);
    lemma_hex_text_parses(h as nat, isize::MIN as int, isize::MAX as int);
    lemma_hex_text_has_no_x(h as nat);
    assert(s.skip(2) =~= t);
    assert(s[0] == '0' && s[1] == 'x');
    if t.len() >= 2 {
        assert(t[1] != 'x');
    }
    assert(strip_hex_prefixes(t) == t);
    assert(strip_hex_prefixes(s) == t);
}

/// A string parameter.
pub open spec fn param_str(p: JsonModel, key: Seq<char>) -> Result<Seq<char>, Seq<char>> {
    match str_at(p, key) {
        Some(s) => Ok(s),
        None => Err("Missing or invalid string param: "@ + key),
    }
}

/// The button name given to a click (`left` when there is none).
pub open spec fn button_label(p: JsonModel) -> Seq<char> {
    match str_at(p, "button"@) {
        Some(s) => s,
        None => "left"@,
    }
}

/// A message made of a fixed text and a name.
fn message(prefix: &str, name: &str) -> (r: String)
    ensures
        r@ == prefix@ + name@,
{
    let mut r = String::from_str(prefix);
    r.append(name);
    r
}

/// Reads an integer parameter as `i32`.
pub fn get_param_i32(params: &JsonValue, key: &str) -> (r: Result<i32, String>)
    ensures
        match r {
            Ok(v) => param_i32(params@, key@) == Ok::<i32, Seq<char>>(v),
            Err(e) => param_i32(params@, key@) == Err::<i32, Seq<char>>(e@),
        },
{
    match get_i64(params, key) {
        Some(n) => Ok(n as i32),
        None => Err(message("Missing or invalid i32 param: ", key)),
    }
}

/// Reads an integer parameter as `u16`.
pub fn get_param_u16(params: &JsonValue, key: &str) -> (r: Result<u16, String>)
    ensures
        match r {
            Ok(v) => param_u16(params@, key@) == Ok::<u16, Seq<char>>(v),
            Err(e) => param_u16(params@, key@) == Err::<u16, Seq<char>>(e@),
        },
{
    match get_i64(params, key) {
        Some(n) => Ok(n as u16),
        None => Err(message("Missing or invalid u16 param: ", key)),
    }
}

/// Reads an integer parameter as `u32`.
pub fn get_param_u32(params: &JsonValue, key: &str) -> (r: Result<u32, String>)
    ensures
        match r {
            Ok(v) => param_u32(params@, key@) == Ok::<u32, Seq<char>>(v),
            Err(e) => param_u32(params@, key@) == Err::<u32, Seq<char>>(e@),
        },
{
    match get_i64(params, key) {
        Some(n) => Ok(n as u32),
        None => Err(message("Missing or invalid u32 param: ", key)),
    }
}

/// Reads an optional integer parameter as `usize`.
pub fn get_param_usize(params: &JsonValue, key: &str) -> (r: Option<usize>)
    ensures
        r == param_usize(params@, key@),
{
    match get_i64(params, key) {
        Some(n) => Some(n as usize),
        None => None,
    }
}

/// Reads an optional integer parameter as `isize`.
pub fn get_param_isize(params: &JsonValue, key: &str) -> (r: Option<isize>)
    ensures
        r == param_isize(params@, key@),
{
    match get_i64(params, key) {
        Some(n) => Some(n as isize),
        None => None,
    }
}

/// Reads the window handle.
pub fn get_param_hwnd(params: &JsonValue) -> (r: Result<isize, String>)
    ensures
        match r {
            Ok(v) => param_hwnd(params@) == Ok::<isize, Seq<char>>(v),
            Err(e) => param_hwnd(params@) == Err::<isize, Seq<char>>(e@),
        },
{
    let v = match params.get("hwnd") {
        Some(v) => v,
        None => return Err(String::from_str("Missing or invalid param: hwnd")),
    };
    if let Some(n) = v.as_i64() {
        return Ok(n as isize);
    }
    match v.as_str() {
        Some(s) => {
            let chars = chars_of(s);
            let start = skip_hex_prefixes(&chars, 0);
            assert(chars@.subrange(0, chars@.len() as int) =~= s@);
            match parse_int(&chars, start, 16, isize::MIN as i128, isize::MAX as i128) {
                Ok(h) => Ok(h as isize),
                Err(_) => Err(String::from_str("Missing or invalid param: hwnd")),
            }
        },
        None => Err(String::from_str("Missing or invalid param: hwnd")),
    }
}

/// Reads a string parameter.
pub fn get_param_str<'a>(params: &'a JsonValue, key: &str) -> (r: Result<&'a str, String>)
    ensures
        match r {
            Ok(v) => param_str(params@, key@) == Ok::<Seq<char>, Seq<char>>(v@),
            Err(e) => param_str(params@, key@) == Err::<Seq<char>, Seq<char>>(e@),
        },
{
    match get_str(params, key) {
        Some(s) => Ok(s),
        None => Err(message("Missing or invalid string param: ", key)),
    }
}

// ---------------------------------------------------------------------------
// Actions
// ---------------------------------------------------------------------------

/// A request that needs only the window handle.
pub open spec fn hwnd_command(p: JsonModel, make: spec_fn(isize) -> CommandModel) -> Result<
    CommandModel,
    Seq<char>,
> {
    match param_hwnd(p) {
        Ok(h) => Ok(make(h)),
        Err(e) => Err(e),
    }
}

/// The request that an action with its parameters asks for, or the error
/// for the first parameter (in the order the action reads them) that is
/// missing or unreadable, or for an unknown action.
pub open spec fn plugin_command(action: Seq<char>, p: JsonModel) -> Result<CommandModel, Seq<char>> {
    if action == "click"@ {
        match (param_i32(p, "x"@), param_i32(p, "y"@)) {
            (Err(e), _) => Err(e),
            (Ok(_), Err(e)) => Err(e),
            (Ok(x), Ok(y)) => Ok(CommandModel::Click { x, y, button: button_named(button_label(p)) }),
        }
    } else if action == "double_click"@ {
        match (param_i32(p, "x"@), param_i32(p, "y"@)) {
            (Err(e), _) => Err(e),
            (Ok(_), Err(e)) => Err(e),
            (Ok(x), Ok(y)) => Ok(CommandModel::DoubleClick { x, y }),
        }
    } else if action == "type"@ {
        match param_str(p, "text"@) {
            Ok(t) => Ok(CommandModel::TypeText { text: t }),
            Err(e) => Err(e),
        }
    } else if action == "move_mouse"@ {
        match (param_i32(p, "x"@), param_i32(p, "y"@)) {
            (Err(e), _) => Err(e),
            (Ok(_), Err(e)) => Err(e),
            (Ok(x), Ok(y)) => Ok(CommandModel::MoveMouse { x, y }),
        }
    } else if action == "focus"@ {
        hwnd_command(p, |h: isize| CommandModel::Focus { hwnd: h })
    } else if action == "minimize"@ {
        hwnd_command(p, |h: isize| CommandModel::Minimize { hwnd: h })
    } else if action == "maximize"@ {
        hwnd_command(p, |h: isize| CommandModel::Maximize { hwnd: h })
    } else if action == "restore"@ {
        hwnd_command(p, |h: isize| CommandModel::Restore { hwnd: h })
    } else if action == "close"@ {
        hwnd_command(p, |h: isize| CommandModel::Close { hwnd: h })
    } else if action == "hide"@ {
        hwnd_command(p, |h: isize| CommandModel::Hide { hwnd: h })
    } else if action == "show"@ {
        hwnd_command(p, |h: isize| CommandModel::Show { hwnd: h })
    } else if action == "move_window"@ {
        match (
            param_hwnd(p),
            param_i32(p, "x"@),
            param_i32(p, "y"@),
            param_i32(p, "w"@),
            param_i32(p, "h"@),
        ) {
            (Err(e), _, _, _, _) => Err(e),
            (Ok(_), Err(e), _, _, _) => Err(e),
            (Ok(_), Ok(_), Err(e), _, _) => Err(e),
            (Ok(_), Ok(_), Ok(_), Err(e), _) => Err(e),
            (Ok(_), Ok(_), Ok(_), Ok(_), Err(e)) => Err(e),
            (Ok(hwnd), Ok(x), Ok(y), Ok(w), Ok(h)) => Ok(
                CommandModel::MoveWindow { hwnd, x, y, w, h },
            ),
        }
    } else if action == "resize"@ {
        match (param_hwnd(p), param_i32(p, "w"@), param_i32(p, "h"@)) {
            (Err(e), _, _) => Err(e),
            (Ok(_), Err(e), _) => Err(e),
            (Ok(_), Ok(_), Err(e)) => Err(e),
            (Ok(hwnd), Ok(w), Ok(h)) => Ok(CommandModel::Resize { hwnd, w, h }),
        }
    } else if action == "enum_windows"@ {
        Ok(CommandModel::EnumWindows)
    } else if action == "get_window_info"@ {
        hwnd_command(p, |h: isize| CommandModel::GetWindowInfo { hwnd: h })
    } else if action == "switch_desktop"@ {
        Ok(
            CommandModel::SwitchDesktop {
                direction: match param_i32(p, "direction"@) {
                    Ok(d) => d,
                    Err(_) => 1,
                },
            },
        )
    } else if action == "key_press"@ {
        match param_u16(p, "vk"@) {
            Ok(vk) => Ok(CommandModel::KeyPress { vk }),
            Err(e) => Err(e),
        }
    } else if action == "key_release"@ {
        match param_u16(p, "vk"@) {
            Ok(vk) => Ok(CommandModel::KeyRelease { vk }),
            Err(e) => Err(e),
        }
    } else if action == "post_message"@ {
        match (param_hwnd(p), param_u32(p, "msg"@)) {
            (Err(e), _) => Err(e),
            (Ok(_), Err(e)) => Err(e),
            (Ok(hwnd), Ok(msg)) => Ok(
                CommandModel::PostMessage {
                    hwnd,
                    msg,
                    wparam: match param_usize(p, "wparam"@) {
                        Some(v) => v,
                        None => 0,
                    },
                    lparam: match param_isize(p, "lparam"@) {
                        Some(v) => v,
                        None => 0,
                    },
                },
            ),
        }
    } else if action == "dump"@ {
        Ok(CommandModel::Dump)
    } else {
        Err("Unknown action: "@ + action)
    }
}

/// `r` is the outcome `s`.
pub open spec fn same_outcome(r: Result<Command, String>, s: Result<CommandModel, Seq<char>>) -> bool {
    match r {
        Ok(c) => s == Ok::<CommandModel, Seq<char>>(c@),
        Err(e) => s == Err::<CommandModel, Seq<char>>(e@),
    }
}

/// The request named by `action` with parameters `params` (see
/// [`plugin_command`]).
pub fn plan_command(action: &str, params: &JsonValue) -> (r: Result<Command, String>)
    ensures
        same_outcome(r, plugin_command(action@, params@)),
{
    if str_eq(action, "click") {
        let x = get_param_i32(params, "x")?;
        let y = get_param_i32(params, "y")?;
        let label = match get_str(params, "button") {
            Some(s) => s,
            None => "left",
        };
        Ok(Command::Click { x, y, button: button_from_name(label) })
    } else if str_eq(action, "double_click") {
        let x = get_param_i32(params, "x")?;
        let y = get_param_i32(params, "y")?;
        Ok(Command::DoubleClick { x, y })
    } else if str_eq(action, "type") {
        let text = get_param_str(params, "text")?;
        Ok(Command::TypeText { text: String::from_str(text) })
    } else if str_eq(action, "move_mouse") {
        let x = get_param_i32(params, "x")?;
        let y = get_param_i32(params, "y")?;
        Ok(Command::MoveMouse { x, y })
    } else if str_eq(action, "focus") {
        Ok(Command::Focus { hwnd: get_param_hwnd(params)? })
    } else if str_eq(action, "minimize") {
        Ok(Command::Minimize { hwnd: get_param_hwnd(params)? })
    } else if str_eq(action, "maximize") {
        Ok(Command::Maximize { hwnd: get_param_hwnd(params)? })
    } else if str_eq(action, "restore") {
        Ok(Command::Restore { hwnd: get_param_hwnd(params)? })
    } else if str_eq(action, "close") {
        Ok(Command::Close { hwnd: get_param_hwnd(params)? })
    } else if str_eq(action, "hide") {
        Ok(Command::Hide { hwnd: get_param_hwnd(params)? })
    } else if str_eq(action, "show") {
        Ok(Command::Show { hwnd: get_param_hwnd(params)? })
    } else if str_eq(action, "move_window") {
        let hwnd = get_param_hwnd(params)?;
        let x = get_param_i32(params, "x")?;
        let y = get_param_i32(params, "y")?;
        let w = get_param_i32(params, "w")?;
        let h = get_param_i32(params, "h")?;
        Ok(Command::MoveWindow { hwnd, x, y, w, h })
    } else if str_eq(action, "resize") {
        let hwnd = get_param_hwnd(params)?;
        let w = get_param_i32(params, "w")?;
        let h = get_param_i32(params, "h")?;
        Ok(Command::Resize { hwnd, w, h })
    } else if str_eq(action, "enum_windows") {
        Ok(Command::EnumWindows)
    } else if str_eq(action, "get_window_info") {
        Ok(Command::GetWindowInfo { hwnd: get_param_hwnd(params)? })
    } else if str_eq(action, "switch_desktop") {
        let direction = match get_param_i32(params, "direction") {
            Ok(d) => d,
            Err(_) => 1,
        };
        Ok(Command::SwitchDesktop { direction })
    } else if str_eq(action, "key_press") {
        Ok(Command::KeyPress { vk: get_param_u16(params, "vk")? })
    } else if str_eq(action, "key_release") {
        Ok(Command::KeyRelease { vk: get_param_u16(params, "vk")? })
    } else if str_eq(action, "post_message") {
        let hwnd = get_param_hwnd(params)?;
        let msg = get_param_u32(params, "msg")?;
        let wparam = match get_param_usize(params, "wparam") {
            Some(v) => v,
            None => 0,
        };
        let lparam = match get_param_isize(params, "lparam") {
            Some(v) => v,
            None => 0,
        };
        Ok(Command::PostMessage { hwnd, msg, wparam, lparam })
    } else if str_eq(action, "dump") {
        Ok(Command::Dump)
    } else {
        Err(message("Unknown action: ", action))
    }
}

// ---------------------------------------------------------------------------
// Answers
// ---------------------------------------------------------------------------

/// An integer entry.
pub open spec fn int_entry(key: Seq<char>, v: int) -> (Seq<char>, JsonModel) {
    (key, JsonModel::Int(v))
}

/// The answer to a carried-out request: the parameters it used. Requests
/// whose answer is what the system reported (the window list, one window's
/// details, the UI map) and moves that keep the size have none here.
pub open spec fn plugin_reply(c: CommandModel, label: Seq<char>) -> Option<JsonModel> {
    match c {
        CommandModel::Click { x, y, .. } => Some(
            JsonModel::Object(
                seq![int_entry("x"@, x as int), int_entry("y"@, y as int), ("button"@, JsonModel::Str(label))],
            ),
        ),
        CommandModel::DoubleClick { x, y } => Some(
            JsonModel::Object(seq![int_entry("x"@, x as int), int_entry("y"@, y as int)]),
        ),
        CommandModel::MoveMouse { x, y } => Some(
            JsonModel::Object(seq![int_entry("x"@, x as int), int_entry("y"@, y as int)]),
        ),
        CommandModel::TypeText { text } => Some(
            JsonModel::Object(seq![("text"@, JsonModel::Str(text))]),
        ),
        CommandModel::Focus { hwnd } => Some(JsonModel::Object(seq![int_entry("hwnd"@, hwnd as int)])),
        CommandModel::Minimize { hwnd } => Some(
            JsonModel::Object(seq![int_entry("hwnd"@, hwnd as int)]),
        ),
        CommandModel::Maximize { hwnd } => Some(
            JsonModel::Object(seq![int_entry("hwnd"@, hwnd as int)]),
        ),
        CommandModel::Restore { hwnd } => Some(
            JsonModel::Object(seq![int_entry("hwnd"@, hwnd as int)]),
        ),
        CommandModel::Close { hwnd } => Some(JsonModel::Object(seq![int_entry("hwnd"@, hwnd as int)])),
        CommandModel::Hide { hwnd } => Some(JsonModel::Object(seq![int_entry("hwnd"@, hwnd as int)])),
        CommandModel::Show { hwnd } => Some(JsonModel::Object(seq![int_entry("hwnd"@, hwnd as int)])),
        CommandModel::MoveWindow { hwnd, x, y, w, h } => Some(
            JsonModel::Object(
                seq![
                    int_entry("hwnd"@, hwnd as int),
                    int_entry("x"@, x as int),
                    int_entry("y"@, y as int),
                    int_entry("w"@, w as int),
                    int_entry("h"@, h as int),
                ],
            ),
        ),
        CommandModel::Resize { hwnd, w, h } => Some(
            JsonModel::Object(
                seq![
                    int_entry("hwnd"@, hwnd as int),
                    int_entry("w"@, w as int),
                    int_entry("h"@, h as int),
                ],
            ),
        ),
        CommandModel::SwitchDesktop { direction } => Some(
            JsonModel::Object(seq![int_entry("direction"@, direction as int)]),
        ),
        CommandModel::KeyPress { vk } => Some(JsonModel::Object(seq![int_entry("vk"@, vk as int)])),
        CommandModel::KeyRelease { vk } => Some(JsonModel::Object(seq![int_entry("vk"@, vk as int)])),
        CommandModel::PostMessage { hwnd, msg, .. } => Some(
            JsonModel::Object(seq![int_entry("hwnd"@, hwnd as int), int_entry("msg"@, msg as int)]),
        ),
        _ => None,
    }
}

/// An object of one integer entry.
fn one_int(key: &str, v: i128) -> (r: JsonValue)
    ensures
        r@ == JsonModel::Object(seq![int_entry(key@, v as int)]),
{
    let mut e: Vec<(String, JsonValue)> = Vec::new();
    push_entry(&mut e, key, JsonValue::Int(v));
    assert(entries_model(e@) =~= seq![int_entry(key@, v as int)]);
    object(e)
}

/// An object of two integer entries.
fn two_ints(k1: &str, v1: i128, k2: &str, v2: i128) -> (r: JsonValue)
    ensures
        r@ == JsonModel::Object(seq![int_entry(k1@, v1 as int), int_entry(k2@, v2 as int)]),
{
    let mut e: Vec<(String, JsonValue)> = Vec::new();
    push_entry(&mut e, k1, JsonValue::Int(v1));
    push_entry(&mut e, k2, JsonValue::Int(v2));
    assert(entries_model(e@) =~= seq![int_entry(k1@, v1 as int), int_entry(k2@, v2 as int)]);
    object(e)
}

/// The answer to carried-out request `cmd` of an action with parameters
/// `params` (see [`plugin_reply`]).
pub fn command_reply(cmd: &Command, params: &JsonValue) -> (r: Option<JsonValue>)
    ensures
        match r {
            Some(v) => plugin_reply(cmd@, button_label(params@)) == Some(v@),
            None => plugin_reply(cmd@, button_label(params@)) is None,
        },
{
    match cmd {
        Command::Click { x, y, .. } => {
            let label = match get_str(params, "button") {
                Some(s) => s,
                None => "left",
            };
            let mut e: Vec<(String, JsonValue)> = Vec::new();
            push_entry(&mut e, "x", JsonValue::Int(*x as i128));
            push_entry(&mut e, "y", JsonValue::Int(*y as i128));
            push_entry(&mut e, "button", JsonValue::Str(String::from_str(label)));
            assert(entries_model(e@) =~= seq![
                int_entry("x"@, *x as int),
                int_entry("y"@, *y as int),
                ("button"@, JsonModel::Str(button_label(params@))),
            ]);
            Some(object(e))
        },
        Command::DoubleClick { x, y } => Some(two_ints("x", *x as i128, "y", *y as i128)),
        Command::MoveMouse { x, y } => Some(two_ints("x", *x as i128, "y", *y as i128)),
        Command::TypeText { text } => {
            let mut e: Vec<(String, JsonValue)> = Vec::new();
            push_entry(&mut e, "text", JsonValue::Str(text.clone()));
            assert(entries_model(e@) =~= seq![("text"@, JsonModel::Str(text@))]);
            Some(object(e))
        },
        Command::Focus { hwnd } => Some(one_int("hwnd", *hwnd as i128)),
        Command::Minimize { hwnd } => Some(one_int("hwnd", *hwnd as i128)),
        Command::Maximize { hwnd } => Some(one_int("hwnd", *hwnd as i128)),
        Command::Restore { hwnd } => Some(one_int("hwnd", *hwnd as i128)),
        Command::Close { hwnd } => Some(one_int("hwnd", *hwnd as i128)),
        Command::Hide { hwnd } => Some(one_int("hwnd", *hwnd as i128)),
        Command::Show { hwnd } => Some(one_int("hwnd", *hwnd as i128)),
        Command::MoveWindow { hwnd, x, y, w, h } => {
            let mut e: Vec<(String, JsonValue)> = Vec::new();
            push_entry(&mut e, "hwnd", JsonValue::Int(*hwnd as i128));
            push_entry(&mut e, "x", JsonValue::Int(*x as i128));
            push_entry(&mut e, "y", JsonValue::Int(*y as i128));
            push_entry(&mut e, "w", JsonValue::Int(*w as i128));
            push_entry(&mut e, "h", JsonValue::Int(*h as i128));
            assert(entries_model(e@) =~= seq![
                int_entry("hwnd"@, *hwnd as int),
                int_entry("x"@, *x as int),
                int_entry("y"@, *y as int),
                int_entry("w"@, *w as int),
                int_entry("h"@, *h as int),
            ]);
            Some(object(e))
        },
        Command::Resize { hwnd, w, h } => {
            let mut e: Vec<(String, JsonValue)> = Vec::new();
            push_entry(&mut e, "hwnd", JsonValue::Int(*hwnd as i128));
            push_entry(&mut e, "w", JsonValue::Int(*w as i128));
            push_entry(&mut e, "h", JsonValue::Int(*h as i128));
            assert(entries_model(e@) =~= seq![
                int_entry("hwnd"@, *hwnd as int),
                int_entry("w"@, *w as int),
                int_entry("h"@, *h as int),
            ]);
            Some(object(e))
        },
        Command::SwitchDesktop { direction } => Some(one_int("direction", *direction as i128)),
        Command::KeyPress { vk } => Some(one_int("vk", *vk as i128)),
        Command::KeyRelease { vk } => Some(one_int("vk", *vk as i128)),
        Command::PostMessage { hwnd, msg, .. } => Some(
            two_ints("hwnd", *hwnd as i128, "msg", *msg as i128),
        ),
        _ => None,
    }
}

/// The answer to the `dump` action: the UI map under `dump`.
pub fn dump_reply(dump: &str) -> (r: JsonValue)
    ensures
        r@ == JsonModel::Object(seq![("dump"@, JsonModel::Str(dump@))]),
{
    let mut e: Vec<(String, JsonValue)> = Vec::new();
    push_entry(&mut e, "dump", JsonValue::Str(String::from_str(dump)));
    assert(entries_model(e@) =~= seq![("dump"@, JsonModel::Str(dump@))]);
    object(e)
}

/// What `via_create` answers, from the status of COM initialisation: -1
/// when COM could not be initialised (as when the process had already
/// initialised it in a conflicting mode), 0 otherwise.
pub fn create_status(com_status: i32) -> (r: i32)
    ensures
        r == (if com_status < 0 { -1i32 } else { 0i32 }),
{
    if com_status < 0 {
        -1
    } else {
        0
    }
}

/// The envelope of every answer: whether the request succeeded, and its
/// data (or the error message).
pub fn command_envelope(success: bool, data: JsonValue) -> (r: JsonValue)
    ensures
        r@ == JsonModel::Object(seq![("success"@, JsonModel::Bool(success)), ("data"@, data@)]),
{
    let ghost d = data@;
    let mut e: Vec<(String, JsonValue)> = Vec::new();
    push_entry(&mut e, "success", JsonValue::Bool(success));
    push_entry(&mut e, "data", data);
    assert(entries_model(e@) =~= seq![("success"@, JsonModel::Bool(success)), ("data"@, d)]);
    object(e)
}

// ---------------------------------------------------------------------------
// What the actions do with their parameters
// ---------------------------------------------------------------------------

/// An integer parameter within `i32` is read as it is.
proof fn lemma_int_param(p: JsonModel, key: Seq<char>, v: int)
    requires
        json_get(p, key) == Some(JsonModel::Int(v)),
        i32::MIN <= v <= i32::MAX,
    ensures
        param_i32(p, key) == Ok::<i32, Seq<char>>(v as i32),
{
}

/// The pointer actions act at the `x` and `y` given: `click` clicks there
/// (with the right button for `"right"`, the middle one for `"middle"`, the
/// left one otherwise), `double_click` double-clicks there and `move_mouse`
/// moves the pointer there.
pub proof fn lemma_pointer_actions_use_their_point(p: JsonModel, x: int, y: int)
    requires
        json_get(p, "x"@) == Some(JsonModel::Int(x)),
        json_get(p, "y"@) == Some(JsonModel::Int(y)),
        i32::MIN <= x <= i32::MAX,
        i32::MIN <= y <= i32::MAX,
    ensures
        plugin_command("click"@, p) matches Ok(CommandModel::Click { x: a, y: b, button }) && a == x
            && b == y && (json_get(p, "button"@) == Some(JsonModel::Str("right"@)) ==> button
            == MouseButton::Right) && (json_get(p, "button"@) == Some(JsonModel::Str("middle"@))
            ==> button == MouseButton::Middle) && (json_get(p, "button"@) is None ==> button
            == MouseButton::Left),
        plugin_command("double_click"@, p) == Ok::<CommandModel, Seq<char>>(
            CommandModel::DoubleClick { x: x as i32, y: y as i32 },
        ),
        plugin_command("move_mouse"@, p) == Ok::<CommandModel, Seq<char>>(
            CommandModel::MoveMouse { x: x as i32, y: y as i32 },
        ),
{
    lemma_action_names();
    lemma_int_param(p, "x"@, x);
    lemma_int_param(p, "y"@, y);
    reveal_strlit("right");
    reveal_strlit("middle");
    reveal_strlit("left");
    assert("right"@ != "middle"@) by {
        assert("right"@.len() != "middle"@.len());
    }
    assert("left"@ != "middle"@ && "left"@ != "right"@) by {
        assert("left"@.len() != "middle"@.len() && "left"@.len() != "right"@.len());
    }
}

/// Each window action acts on the window under `hwnd`.
pub proof fn lemma_window_actions_use_their_window(p: JsonModel, hwnd: isize)
    requires
        param_hwnd(p) == Ok::<isize, Seq<char>>(hwnd),
    ensures
        plugin_command("focus"@, p) == Ok::<CommandModel, Seq<char>>(CommandModel::Focus { hwnd }),
        plugin_command("minimize"@, p) == Ok::<CommandModel, Seq<char>>(CommandModel::Minimize { hwnd }),
        plugin_command("maximize"@, p) == Ok::<CommandModel, Seq<char>>(CommandModel::Maximize { hwnd }),
        plugin_command("restore"@, p) == Ok::<CommandModel, Seq<char>>(CommandModel::Restore { hwnd }),
        plugin_command("close"@, p) == Ok::<CommandModel, Seq<char>>(CommandModel::Close { hwnd }),
        plugin_command("hide"@, p) == Ok::<CommandModel, Seq<char>>(CommandModel::Hide { hwnd }),
        plugin_command("show"@, p) == Ok::<CommandModel, Seq<char>>(CommandModel::Show { hwnd }),
        plugin_command("get_window_info"@, p) == Ok::<CommandModel, Seq<char>>(
            CommandModel::GetWindowInfo { hwnd },
        ),
{
    lemma_action_names();
}

/// `move_window` moves the window under `hwnd` to the `x`, `y`, `w` and `h`
/// given; `resize` gives it the `w` and `h` given.
pub proof fn lemma_move_and_resize_use_their_place(
    p: JsonModel,
    hwnd: isize,
    x: int,
    y: int,
    w: int,
    h: int,
)
    requires
        param_hwnd(p) == Ok::<isize, Seq<char>>(hwnd),
        json_get(p, "x"@) == Some(JsonModel::Int(x)),
        json_get(p, "y"@) == Some(JsonModel::Int(y)),
        json_get(p, "w"@) == Some(JsonModel::Int(w)),
        json_get(p, "h"@) == Some(JsonModel::Int(h)),
        i32::MIN <= x <= i32::MAX,
        i32::MIN <= y <= i32::MAX,
        i32::MIN <= w <= i32::MAX,
        i32::MIN <= h <= i32::MAX,
    ensures
        plugin_command("move_window"@, p) == Ok::<CommandModel, Seq<char>>(
            CommandModel::MoveWindow { hwnd, x: x as i32, y: y as i32, w: w as i32, h: h as i32 },
        ),
        plugin_command("resize"@, p) == Ok::<CommandModel, Seq<char>>(
            CommandModel::Resize { hwnd, w: w as i32, h: h as i32 },
        ),
{
    lemma_action_names();
    lemma_int_param(p, "x"@, x);
    lemma_int_param(p, "y"@, y);
    lemma_int_param(p, "w"@, w);
    lemma_int_param(p, "h"@, h);
}

/// `type` types the `text` given; `key_press` and `key_release` use the `vk`
/// given; `switch_desktop` goes in the `direction` given, to the right (1)
/// when none is given.
pub proof fn lemma_input_actions_use_their_parameters(p: JsonModel)
    ensures
        json_get(p, "text"@) matches Some(JsonModel::Str(t)) ==> plugin_command("type"@, p) == Ok::<
            CommandModel,
            Seq<char>,
        >(CommandModel::TypeText { text: t }),
        json_get(p, "vk"@) matches Some(JsonModel::Int(vk)) ==> (0 <= vk <= u16::MAX ==> plugin_command(
            "key_press"@,
            p,
        ) == Ok::<CommandModel, Seq<char>>(CommandModel::KeyPress { vk: vk as u16 }) && plugin_command(
            "key_release"@,
            p,
        ) == Ok::<CommandModel, Seq<char>>(CommandModel::KeyRelease { vk: vk as u16 })),
        json_get(p, "direction"@) is None ==> plugin_command("switch_desktop"@, p) == Ok::<
            CommandModel,
            Seq<char>,
        >(CommandModel::SwitchDesktop { direction: 1 }),
        json_get(p, "direction"@) matches Some(JsonModel::Int(d)) ==> (i32::MIN <= d <= i32::MAX
            ==> plugin_command("switch_desktop"@, p) == Ok::<CommandModel, Seq<char>>(
            CommandModel::SwitchDesktop { direction: d as i32 },
        )),
{
    lemma_action_names();
}

/// `post_message` posts to the window under `hwnd` the message under `msg`
/// with the `wparam` and `lparam` given (read as `i64`; an absent one is 0).
pub proof fn lemma_post_message_carries_its_parameters(p: JsonModel, hwnd: isize, msg: int)
    requires
        param_hwnd(p) == Ok::<isize, Seq<char>>(hwnd),
        json_get(p, "msg"@) == Some(JsonModel::Int(msg)),
        0 <= msg <= u32::MAX,
    ensures
        plugin_command("post_message"@, p) matches Ok(
            CommandModel::PostMessage { hwnd: h, msg: m, wparam, lparam },
        ) && h == hwnd && m == msg && (json_get(p, "wparam"@) matches Some(JsonModel::Int(w)) ==> (0
            <= w <= i64::MAX && w <= usize::MAX ==> wparam == w)) && (json_get(p, "wparam"@) is None ==> wparam == 0)
            && (json_get(p, "lparam"@) matches Some(JsonModel::Int(l)) ==> (isize::MIN <= l
            <= isize::MAX ==> lparam == l)) && (json_get(p, "lparam"@) is None ==> lparam == 0),
{
    lemma_action_names();
}

} // verus!
