use via_engine::command::Command;
use via_engine::engine::WindowInfo;
use via_engine::input::MouseButton;
use via_engine::json::JsonValue;
use via_engine::mcp::{
    enum_windows_reply, gui_command_reply, handle_initialize, json_error, json_result,
    method_not_found, parse_error, plan_gui_command, route_method, size_to_keep,
    tool_call_response, tool_definitions, tool_request, GuiError, RpcRoute, ToolRequest,
};
use via_engine::uia::Rect;

fn s(v: &str) -> JsonValue {
    JsonValue::Str(v.to_string())
}

fn num(n: i128) -> JsonValue {
    JsonValue::Int(n)
}

fn obj(entries: Vec<(&str, JsonValue)>) -> JsonValue {
    JsonValue::Object(entries.into_iter().map(|(k, v)| (k.to_string(), v)).collect())
}

fn call(action: &str, params: JsonValue) -> JsonValue {
    obj(vec![("action", s(action)), ("params", params)])
}

fn msg(e: GuiError) -> String {
    match e {
        GuiError::Message(m) => m,
        GuiError::UnparsableHwnd(v) => panic!("not a message: {:?}", v),
    }
}

#[test]
fn action_is_required() {
    assert_eq!(msg(plan_gui_command(&obj(vec![])).unwrap_err()), "Missing 'action' field");
    assert_eq!(
        msg(plan_gui_command(&obj(vec![("action", num(3))])).unwrap_err()),
        "Missing 'action' field"
    );
    assert_eq!(msg(plan_gui_command(&call("fly", obj(vec![]))).unwrap_err()), "Unknown action: fly");
}

#[test]
fn click_with_button_names() {
    let c = plan_gui_command(&call("click", obj(vec![("x", num(10)), ("y", num(-20))]))).unwrap();
    assert_eq!(c, Command::Click { x: 10, y: -20, button: MouseButton::Left });
    assert_eq!(gui_command_reply(&c).unwrap(), "click(10,-20) done");
    let c = plan_gui_command(&call(
        "click",
        obj(vec![("x", num(1)), ("y", num(2)), ("button", s("middle"))]),
    ))
    .unwrap();
    assert_eq!(c, Command::Click { x: 1, y: 2, button: MouseButton::Middle });
    let c = plan_gui_command(&call(
        "click",
        obj(vec![("x", num(1)), ("y", num(2)), ("button", s("right"))]),
    ))
    .unwrap();
    assert_eq!(c, Command::Click { x: 1, y: 2, button: MouseButton::Right });
}

#[test]
fn integers_are_truncated_to_i32() {
    let c = plan_gui_command(&call("move_mouse", obj(vec![("x", num(4294967297)), ("y", num(0))]))).unwrap();
    assert_eq!(c, Command::MoveMouse { x: 1, y: 0 });
    assert_eq!(gui_command_reply(&c).unwrap(), "move_mouse(1,0) done");
}

#[test]
fn parameters_missing_or_of_the_wrong_kind() {
    assert_eq!(
        msg(plan_gui_command(&call("click", obj(vec![("y", num(1))]))).unwrap_err()),
        "Missing or invalid int param: x"
    );
    assert_eq!(
        msg(plan_gui_command(&call("double_click", obj(vec![("x", num(1)), ("y", s("2"))]))).unwrap_err()),
        "Missing or invalid int param: y"
    );
    assert_eq!(
        msg(plan_gui_command(&call("type", obj(vec![("text", num(1))]))).unwrap_err()),
        "Missing or invalid string param: text"
    );
    assert_eq!(
        msg(plan_gui_command(&call("key_press", obj(vec![("vk", num(-1))]))).unwrap_err()),
        "Missing or invalid u16 param: vk"
    );
    assert_eq!(
        msg(plan_gui_command(&call("post_message", obj(vec![("hwnd", num(1))]))).unwrap_err()),
        "Missing or invalid u32 param: msg"
    );
    assert_eq!(
        msg(plan_gui_command(&call("focus", obj(vec![]))).unwrap_err()),
        "Missing param: hwnd"
    );
}

#[test]
fn params_that_are_not_an_object_count_as_empty() {
    let args = obj(vec![("action", s("switch_desktop")), ("params", num(5))]);
    assert_eq!(plan_gui_command(&args).unwrap(), Command::SwitchDesktop { direction: 1 });
    let args = obj(vec![("action", s("enum_windows"))]);
    assert_eq!(plan_gui_command(&args).unwrap(), Command::EnumWindows);
    assert_eq!(gui_command_reply(&Command::EnumWindows), None);
}

#[test]
fn hwnd_in_its_forms() {
    let c = plan_gui_command(&call("focus", obj(vec![("hwnd", s("0x1A2b"))]))).unwrap();
    assert_eq!(c, Command::Focus { hwnd: 0x1a2b });
    assert_eq!(gui_command_reply(&c).unwrap(), "focus(0x1a2b) done");
    let c = plan_gui_command(&call("minimize", obj(vec![("hwnd", s("0XFF"))]))).unwrap();
    assert_eq!(c, Command::Minimize { hwnd: 255 });
    let c = plan_gui_command(&call("maximize", obj(vec![("hwnd", s("4660"))]))).unwrap();
    assert_eq!(c, Command::Maximize { hwnd: 4660 });
    let c = plan_gui_command(&call("restore", obj(vec![("hwnd", num(77))]))).unwrap();
    assert_eq!(c, Command::Restore { hwnd: 77 });
    let c = plan_gui_command(&call("close", obj(vec![("hwnd", num(-2))]))).unwrap();
    assert_eq!(c, Command::Close { hwnd: -2 });
    assert_eq!(gui_command_reply(&c).unwrap(), format!("close(0x{:x}) done", -2isize));
    let c = plan_gui_command(&call("hide", obj(vec![("hwnd", s("-5"))]))).unwrap();
    assert_eq!(c, Command::Hide { hwnd: -5 });
    let c = plan_gui_command(&call("show", obj(vec![("hwnd", s("+9"))]))).unwrap();
    assert_eq!(c, Command::Show { hwnd: 9 });
}

#[test]
fn hwnd_that_does_not_parse() {
    assert_eq!(
        msg(plan_gui_command(&call("focus", obj(vec![("hwnd", s("0xZZ"))]))).unwrap_err()),
        "Invalid hwnd hex: invalid digit found in string"
    );
    assert_eq!(
        msg(plan_gui_command(&call("focus", obj(vec![("hwnd", s("0x"))]))).unwrap_err()),
        "Invalid hwnd hex: cannot parse integer from empty string"
    );
    assert_eq!(
        msg(plan_gui_command(&call("focus", obj(vec![("hwnd", s("abc"))]))).unwrap_err()),
        "Invalid hwnd: invalid digit found in string"
    );
    assert_eq!(
        msg(plan_gui_command(&call("focus", obj(vec![("hwnd", s("99999999999999999999"))]))).unwrap_err()),
        "Invalid hwnd: number too large to fit in target type"
    );
    match plan_gui_command(&call("focus", obj(vec![("hwnd", JsonValue::Bool(true))]))).unwrap_err() {
        GuiError::UnparsableHwnd(v) => assert_eq!(v, JsonValue::Bool(true)),
        other => panic!("unexpected {:?}", other),
    }
    match plan_gui_command(&call("focus", obj(vec![("hwnd", JsonValue::Float("1.5".to_string()))]))).unwrap_err() {
        GuiError::UnparsableHwnd(v) => assert_eq!(v, JsonValue::Float("1.5".to_string())),
        other => panic!("unexpected {:?}", other),
    }
}

#[test]
fn move_window_keeps_size_without_positive_dimensions() {
    let c = plan_gui_command(&call(
        "move_window",
        obj(vec![("hwnd", num(16)), ("x", num(5)), ("y", num(6)), ("w", num(300)), ("h", num(200))]),
    ))
    .unwrap();
    assert_eq!(c, Command::MoveWindow { hwnd: 16, x: 5, y: 6, w: 300, h: 200 });
    assert_eq!(gui_command_reply(&c).unwrap(), "move_window(0x10) done");
    let c = plan_gui_command(&call(
        "move_window",
        obj(vec![("hwnd", num(16)), ("x", num(5)), ("y", num(6)), ("w", num(300))]),
    ))
    .unwrap();
    assert_eq!(c, Command::MoveWindowKeepSize { hwnd: 16, x: 5, y: 6 });
    assert_eq!(gui_command_reply(&c).unwrap(), "move_window(0x10) done");
    let c = plan_gui_command(&call(
        "move_window",
        obj(vec![("hwnd", num(16)), ("x", num(5)), ("y", num(6)), ("w", num(0)), ("h", num(10))]),
    ))
    .unwrap();
    assert_eq!(c, Command::MoveWindowKeepSize { hwnd: 16, x: 5, y: 6 });
    let info = WindowInfo {
        hwnd: 16,
        title: "t".to_string(),
        class_name: "c".to_string(),
        rect: Rect { left: 10, top: 20, right: 310, bottom: 220 },
        visible: true,
        pid: 1,
    };
    assert_eq!(size_to_keep(&info), (300, 200));
}

#[test]
fn resize_switch_keys_and_messages() {
    let c = plan_gui_command(&call("resize", obj(vec![("hwnd", num(1)), ("w", num(8)), ("h", num(9))]))).unwrap();
    assert_eq!(c, Command::Resize { hwnd: 1, w: 8, h: 9 });
    assert_eq!(gui_command_reply(&c).unwrap(), "resize(0x1) done");
    let c = plan_gui_command(&call("switch_desktop", obj(vec![("direction", num(-1))]))).unwrap();
    assert_eq!(c, Command::SwitchDesktop { direction: -1 });
    assert_eq!(gui_command_reply(&c).unwrap(), "switch_desktop(-1) done");
    let c = plan_gui_command(&call("key_press", obj(vec![("vk", num(0x1_0041))]))).unwrap();
    assert_eq!(c, Command::KeyPress { vk: 0x41 });
    assert_eq!(gui_command_reply(&c).unwrap(), "key_press(0x41) done");
    let c = plan_gui_command(&call("key_release", obj(vec![("vk", num(13))]))).unwrap();
    assert_eq!(gui_command_reply(&c).unwrap(), "key_release(0xd) done");
    let c = plan_gui_command(&call(
        "post_message",
        obj(vec![("hwnd", s("0x10")), ("msg", num(16)), ("lparam", num(-3))]),
    ))
    .unwrap();
    assert_eq!(c, Command::PostMessage { hwnd: 16, msg: 16, wparam: 0, lparam: -3 });
    assert_eq!(gui_command_reply(&c).unwrap(), "post_message(0x10) done");
    let c = plan_gui_command(&call("get_window_info", obj(vec![("hwnd", num(2))]))).unwrap();
    assert_eq!(c, Command::GetWindowInfo { hwnd: 2 });
    assert_eq!(gui_command_reply(&c), None);
}

#[test]
fn typed_text_is_quoted() {
    let c = plan_gui_command(&call("type", obj(vec![("text", s("say \"hi\"\n"))]))).unwrap();
    assert_eq!(c, Command::TypeText { text: "say \"hi\"\n".to_string() });
    assert_eq!(gui_command_reply(&c).unwrap(), format!("typed {:?}", "say \"hi\"\n"));
    let c = plan_gui_command(&call("double_click", obj(vec![("x", num(3)), ("y", num(4))]))).unwrap();
    assert_eq!(gui_command_reply(&c).unwrap(), "double_click(3,4) done");
}

#[test]
fn window_list_lines() {
    let a = WindowInfo {
        hwnd: 0x2a,
        title: "Notes \"a\"".to_string(),
        class_name: "Edit".to_string(),
        rect: Rect { left: -8, top: 0, right: 100, bottom: 50 },
        visible: true,
        pid: 1234,
    };
    let b = WindowInfo {
        hwnd: 7,
        title: String::new(),
        class_name: "X".to_string(),
        rect: Rect { left: 0, top: 0, right: 0, bottom: 0 },
        visible: false,
        pid: 0,
    };
    let expected = format!(
        "0x{:x} {:?} v={} [{},{},{},{}] pid={}\n0x{:x} {:?} v={} [{},{},{},{}] pid={}",
        a.hwnd, a.title, a.visible, -8, 0, 100, 50, a.pid, b.hwnd, b.title, b.visible, 0, 0, 0, 0, b.pid
    );
    assert_eq!(enum_windows_reply(&vec![a.clone(), b]), expected);
    assert_eq!(enum_windows_reply(&vec![a]), "0x2a \"Notes \\\"a\\\"\" v=true [-8,0,100,50] pid=1234");
    assert_eq!(enum_windows_reply(&vec![]), "");
}

#[test]
fn routes_by_method() {
    assert_eq!(route_method("initialize"), RpcRoute::Initialize);
    assert_eq!(route_method("notifications/initialized"), RpcRoute::Notification);
    assert_eq!(route_method("notifications/cancelled"), RpcRoute::Notification);
    assert_eq!(route_method("tools/list"), RpcRoute::ListTools);
    assert_eq!(route_method("tools/call"), RpcRoute::CallTool);
    assert_eq!(route_method("tools/other"), RpcRoute::NotFound);
}

#[test]
fn error_and_result_responses() {
    let r = json_error(Some(num(4)), -5, "bad");
    assert_eq!(r.jsonrpc, "2.0");
    assert_eq!(r.id, Some(num(4)));
    assert_eq!(r.result, None);
    let e = r.error.unwrap();
    assert_eq!((e.code, e.message.as_str(), e.data), (-5, "bad", None));
    let r = method_not_found(Some(s("x")), "foo/bar");
    assert_eq!(r.error.unwrap().message, "Method not found: foo/bar");
    let r = method_not_found(None, "q");
    assert_eq!(r.error.as_ref().unwrap().code, -32601);
    assert_eq!(r.id, None);
    let r = parse_error("EOF");
    assert_eq!(r.id, None);
    let e = r.error.unwrap();
    assert_eq!((e.code, e.message.as_str()), (-32700, "Parse error: EOF"));
    let r = json_result(Some(num(1)), JsonValue::Bool(true));
    assert_eq!((r.jsonrpc.as_str(), r.id, r.result, r.error), ("2.0", Some(num(1)), Some(JsonValue::Bool(true)), None));
}

#[test]
fn initialize_announces_the_server() {
    let r = handle_initialize(Some(num(0)));
    assert_eq!(r.id, Some(num(0)));
    assert_eq!(
        r.result.unwrap(),
        obj(vec![
            ("protocolVersion", s("2025-03-26")),
            ("capabilities", obj(vec![("tools", obj(vec![]))])),
            ("serverInfo", obj(vec![("name", s("via-mcp")), ("version", s("0.1.0"))])),
        ])
    );
}

#[test]
fn tool_list_names_both_tools() {
    let t = tool_definitions();
    let tools = t.get("tools").unwrap();
    match tools {
        JsonValue::Array(items) => {
            assert_eq!(items.len(), 2);
            assert_eq!(items[0].get("name").unwrap().as_str(), Some("gui_dump"));
            assert_eq!(
                items[0].get("inputSchema").unwrap(),
                &obj(vec![("type", s("object")), ("properties", obj(vec![]))])
            );
            assert_eq!(items[1].get("name").unwrap().as_str(), Some("gui_command"));
            let schema = items[1].get("inputSchema").unwrap();
            assert_eq!(schema.get("required").unwrap(), &JsonValue::Array(vec![s("action")]));
            assert_eq!(
                schema.get("properties").unwrap().get("params").unwrap().get("type").unwrap().as_str(),
                Some("object")
            );
        }
        other => panic!("not an array: {:?}", other),
    }
}

#[test]
fn tool_calls_are_read() {
    assert_eq!(tool_request(Some(&obj(vec![("name", s("gui_dump"))]))).unwrap(), ToolRequest::Dump);
    assert_eq!(msg(tool_request(None).unwrap_err()), "Unknown tool: ");
    assert_eq!(msg(tool_request(Some(&obj(vec![("name", s("nope"))]))).unwrap_err()), "Unknown tool: nope");
    assert_eq!(
        msg(tool_request(Some(&obj(vec![("name", s("gui_command"))]))).unwrap_err()),
        "Missing 'action' field"
    );
    let params = obj(vec![
        ("name", s("gui_command")),
        ("arguments", obj(vec![("action", s("key_press")), ("params", obj(vec![("vk", num(9))]))])),
    ]);
    assert_eq!(tool_request(Some(&params)).unwrap(), ToolRequest::Run(Command::KeyPress { vk: 9 }));
}

#[test]
fn tool_call_answers() {
    let r = tool_call_response(Ok("done".to_string()));
    assert_eq!(r.id, Some(JsonValue::Null));
    assert_eq!(r.error, None);
    assert_eq!(
        r.result.unwrap(),
        obj(vec![("content", JsonValue::Array(vec![obj(vec![("type", s("text")), ("text", s("done"))])]))])
    );
    let r = tool_call_response(Err("Unknown tool: x".to_string()));
    assert_eq!(r.id, Some(JsonValue::Null));
    assert_eq!(r.result, None);
    let e = r.error.unwrap();
    assert_eq!((e.code, e.message.as_str()), (-1, "Error: Unknown tool: x"));
}

#[test]
fn printed_handles_are_read_back_by_both_front_ends() {
    for h in [0isize, 7, 0x1000c, 0x7fff_ffff, isize::MAX] {
        let p = obj(vec![("hwnd", s(&format!("0x{:x}", h)))]);
        assert_eq!(via_engine::mcp::get_param_hwnd(&p, "hwnd").unwrap(), h);
        assert_eq!(via_engine::plugin::get_param_hwnd(&p).unwrap(), h);
    }
}

#[test]
fn key_codes_in_hex_or_decimal() {
    let c = plan_gui_command(&call("key_press", obj(vec![("vk", s("0x1B"))]))).unwrap();
    assert_eq!(c, Command::KeyPress { vk: 0x1b });
    assert_eq!(gui_command_reply(&c).unwrap(), "key_press(0x1b) done");
    let c = plan_gui_command(&call("key_release", obj(vec![("vk", s("27"))]))).unwrap();
    assert_eq!(c, Command::KeyRelease { vk: 27 });
    let c = plan_gui_command(&call("key_press", obj(vec![("vk", s("0XfF"))]))).unwrap();
    assert_eq!(c, Command::KeyPress { vk: 0xff });
    for bad in ["0xZZ", "0x10000", "", "0x", "-1", "ESC"] {
        assert_eq!(
            msg(plan_gui_command(&call("key_press", obj(vec![("vk", s(bad))]))).unwrap_err()),
            "Missing or invalid u16 param: vk",
            "{:?}",
            bad
        );
    }
}
