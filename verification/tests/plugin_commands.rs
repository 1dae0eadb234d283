use via_engine::command::Command;
use via_engine::input::MouseButton;
use via_engine::json::JsonValue;
use via_engine::plugin::{
    create_status,
    command_envelope, command_reply, dump_reply, get_param_hwnd, get_param_i32, get_param_str,
    get_param_u16, plan_command,
};

fn s(v: &str) -> JsonValue {
    JsonValue::Str(v.to_string())
}

fn obj(entries: Vec<(&str, JsonValue)>) -> JsonValue {
    JsonValue::Object(entries.into_iter().map(|(k, v)| (k.to_string(), v)).collect())
}

#[test]
fn click_reads_coordinates_and_button() {
    let p = obj(vec![("x", JsonValue::Int(960)), ("y", JsonValue::Int(540)), ("button", s("right"))]);
    let c = plan_command("click", &p).unwrap();
    assert_eq!(c, Command::Click { x: 960, y: 540, button: MouseButton::Right });
    assert_eq!(
        command_reply(&c, &p).unwrap(),
        obj(vec![("x", JsonValue::Int(960)), ("y", JsonValue::Int(540)), ("button", s("right"))])
    );
    let p = obj(vec![("x", JsonValue::Int(1)), ("y", JsonValue::Int(2)), ("button", s("RIGHT"))]);
    let c = plan_command("click", &p).unwrap();
    assert_eq!(c, Command::Click { x: 1, y: 2, button: MouseButton::Left });
    assert_eq!(
        command_reply(&c, &p).unwrap(),
        obj(vec![("x", JsonValue::Int(1)), ("y", JsonValue::Int(2)), ("button", s("RIGHT"))])
    );
    let p = obj(vec![("x", JsonValue::Int(1)), ("y", JsonValue::Int(2))]);
    let c = plan_command("click", &p).unwrap();
    assert_eq!(
        command_reply(&c, &p).unwrap(),
        obj(vec![("x", JsonValue::Int(1)), ("y", JsonValue::Int(2)), ("button", s("left"))])
    );
}

#[test]
fn missing_parameters_are_reported_in_order() {
    let p = obj(vec![]);
    assert_eq!(plan_command("click", &p).unwrap_err(), "Missing or invalid i32 param: x");
    let p = obj(vec![("x", JsonValue::Int(1))]);
    assert_eq!(plan_command("click", &p).unwrap_err(), "Missing or invalid i32 param: y");
    let p = obj(vec![("hwnd", JsonValue::Int(1)), ("x", JsonValue::Int(1)), ("y", JsonValue::Int(1)), ("w", JsonValue::Int(1))]);
    assert_eq!(plan_command("move_window", &p).unwrap_err(), "Missing or invalid i32 param: h");
    assert_eq!(plan_command("type", &obj(vec![])).unwrap_err(), "Missing or invalid string param: text");
    assert_eq!(plan_command("key_press", &obj(vec![])).unwrap_err(), "Missing or invalid u16 param: vk");
    assert_eq!(
        plan_command("post_message", &obj(vec![("hwnd", JsonValue::Int(1))])).unwrap_err(),
        "Missing or invalid u32 param: msg"
    );
    assert_eq!(plan_command("focus", &obj(vec![])).unwrap_err(), "Missing or invalid param: hwnd");
    assert_eq!(plan_command("fly", &obj(vec![])).unwrap_err(), "Unknown action: fly");
}

#[test]
fn hwnd_forms() {
    assert_eq!(get_param_hwnd(&obj(vec![("hwnd", JsonValue::Int(268435468))])), Ok(268435468));
    assert_eq!(get_param_hwnd(&obj(vec![("hwnd", s("0x1000c"))])), Ok(0x1000c));
    assert_eq!(get_param_hwnd(&obj(vec![("hwnd", s("1000c"))])), Ok(0x1000c));
    assert_eq!(get_param_hwnd(&obj(vec![("hwnd", s("0x0x1000c"))])), Ok(0x1000c));
    assert!(get_param_hwnd(&obj(vec![("hwnd", s("0X1000c"))])).is_err());
    assert!(get_param_hwnd(&obj(vec![("hwnd", JsonValue::Bool(true))])).is_err());
    assert!(get_param_hwnd(&obj(vec![("hwnd", JsonValue::Int(u64::MAX as i128))])).is_err());
    assert!(get_param_hwnd(&s("not an object")).is_err());
}

#[test]
fn integer_parameters_truncate() {
    let p = obj(vec![("x", JsonValue::Int(4294967297)), ("vk", JsonValue::Int(-1))]);
    assert_eq!(get_param_i32(&p, "x"), Ok(1));
    assert_eq!(get_param_u16(&p, "vk"), Ok(0xFFFF));
    let p = obj(vec![("x", JsonValue::Float("1.5".to_string())), ("t", JsonValue::Int(3))]);
    assert!(get_param_i32(&p, "x").is_err());
    assert!(get_param_str(&p, "t").is_err());
}

#[test]
fn window_actions_and_replies() {
    let p = obj(vec![("hwnd", s("0x10"))]);
    for (action, cmd) in [
        ("focus", Command::Focus { hwnd: 16 }),
        ("minimize", Command::Minimize { hwnd: 16 }),
        ("maximize", Command::Maximize { hwnd: 16 }),
        ("restore", Command::Restore { hwnd: 16 }),
        ("close", Command::Close { hwnd: 16 }),
        ("hide", Command::Hide { hwnd: 16 }),
        ("show", Command::Show { hwnd: 16 }),
        ("get_window_info", Command::GetWindowInfo { hwnd: 16 }),
    ] {
        let c = plan_command(action, &p).unwrap();
        assert_eq!(c, cmd);
    }
    let c = plan_command("close", &p).unwrap();
    assert_eq!(command_reply(&c, &p).unwrap(), obj(vec![("hwnd", JsonValue::Int(16))]));
    let c = plan_command("get_window_info", &p).unwrap();
    assert!(command_reply(&c, &p).is_none());
}

#[test]
fn other_actions() {
    let p = obj(vec![
        ("hwnd", JsonValue::Int(5)),
        ("x", JsonValue::Int(1)),
        ("y", JsonValue::Int(2)),
        ("w", JsonValue::Int(3)),
        ("h", JsonValue::Int(4)),
        ("msg", JsonValue::Int(16)),
        ("wparam", JsonValue::Int(-1)),
        ("vk", JsonValue::Int(0x41)),
        ("text", s("hi")),
    ]);
    assert_eq!(plan_command("move_window", &p).unwrap(), Command::MoveWindow { hwnd: 5, x: 1, y: 2, w: 3, h: 4 });
    assert_eq!(plan_command("resize", &p).unwrap(), Command::Resize { hwnd: 5, w: 3, h: 4 });
    assert_eq!(plan_command("double_click", &p).unwrap(), Command::DoubleClick { x: 1, y: 2 });
    assert_eq!(plan_command("move_mouse", &p).unwrap(), Command::MoveMouse { x: 1, y: 2 });
    assert_eq!(plan_command("type", &p).unwrap(), Command::TypeText { text: "hi".to_string() });
    assert_eq!(plan_command("key_press", &p).unwrap(), Command::KeyPress { vk: 0x41 });
    assert_eq!(plan_command("key_release", &p).unwrap(), Command::KeyRelease { vk: 0x41 });
    assert_eq!(
        plan_command("post_message", &p).unwrap(),
        Command::PostMessage { hwnd: 5, msg: 16, wparam: usize::MAX, lparam: 0 }
    );
    assert_eq!(plan_command("switch_desktop", &p).unwrap(), Command::SwitchDesktop { direction: 1 });
    assert_eq!(
        plan_command("switch_desktop", &obj(vec![("direction", JsonValue::Int(-1))])).unwrap(),
        Command::SwitchDesktop { direction: -1 }
    );
    assert_eq!(plan_command("enum_windows", &p).unwrap(), Command::EnumWindows);
    assert_eq!(plan_command("dump", &p).unwrap(), Command::Dump);
    let c = plan_command("move_window", &p).unwrap();
    assert_eq!(
        command_reply(&c, &p).unwrap(),
        obj(vec![
            ("hwnd", JsonValue::Int(5)),
            ("x", JsonValue::Int(1)),
            ("y", JsonValue::Int(2)),
            ("w", JsonValue::Int(3)),
            ("h", JsonValue::Int(4)),
        ])
    );
    let c = plan_command("post_message", &p).unwrap();
    assert_eq!(command_reply(&c, &p).unwrap(), obj(vec![("hwnd", JsonValue::Int(5)), ("msg", JsonValue::Int(16))]));
    let c = plan_command("type", &p).unwrap();
    assert_eq!(command_reply(&c, &p).unwrap(), obj(vec![("text", s("hi"))]));
    let c = plan_command("switch_desktop", &p).unwrap();
    assert_eq!(command_reply(&c, &p).unwrap(), obj(vec![("direction", JsonValue::Int(1))]));
    let c = plan_command("key_release", &p).unwrap();
    assert_eq!(command_reply(&c, &p).unwrap(), obj(vec![("vk", JsonValue::Int(0x41))]));
}

#[test]
fn envelopes() {
    assert_eq!(
        command_envelope(true, dump_reply("; map")),
        obj(vec![("success", JsonValue::Bool(true)), ("data", obj(vec![("dump", s("; map"))]))])
    );
    assert_eq!(
        command_envelope(false, s("Unknown action: x")),
        obj(vec![("success", JsonValue::Bool(false)), ("data", s("Unknown action: x"))])
    );
}

#[test]
fn creation_fails_when_com_does() {
    assert_eq!(create_status(0), 0);
    assert_eq!(create_status(1), 0);
    assert_eq!(create_status(-2147417850), -1);
    assert_eq!(create_status(-1), -1);
}
