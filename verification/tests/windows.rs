use via_engine::command::Command;
use via_engine::input::{InputStep, KeyInput};
use via_engine::cli::window_row_text;
use via_engine::engine::{hresult_text, OmniseyeEngine, RawWindow, WindowOp};
use via_engine::text::{decode_utf16_lossy, push_decimal, push_hex, push_isize_hex, push_signed_decimal};
use via_engine::uia::Rect;

#[test]
fn window_operations() {
    let e = OmniseyeEngine::new();
    assert_eq!(e.focus_window(7), WindowOp::Focus { hwnd: 7 });
    assert_eq!(e.move_window(7, 1, 2, 3, 4), WindowOp::Move { hwnd: 7, x: 1, y: 2, w: 3, h: 4 });
    let current = Rect { left: 10, top: 20, right: 110, bottom: 220 };
    assert_eq!(e.resize_window(7, 800, 600, current), WindowOp::Move { hwnd: 7, x: 10, y: 20, w: 800, h: 600 });
    assert_eq!(e.minimize_window(7), WindowOp::Show { hwnd: 7, cmd: 6 });
    assert_eq!(e.maximize_window(7), WindowOp::Show { hwnd: 7, cmd: 3 });
    assert_eq!(e.restore_window(7), WindowOp::Show { hwnd: 7, cmd: 9 });
    assert_eq!(e.hide_window(7), WindowOp::Show { hwnd: 7, cmd: 0 });
    assert_eq!(e.show_window(7), WindowOp::Show { hwnd: 7, cmd: 5 });
    assert_eq!(e.close_window(7), WindowOp::Post { hwnd: 7, msg: 0x10, wparam: 0, lparam: 0 });
    assert_eq!(e.set_window_z_order(7, -1), WindowOp::SetPos { hwnd: 7, insert_after: -1, flags: 3 });
    assert_eq!(e.post_message(7, 0x100, 5, -6), WindowOp::Post { hwnd: 7, msg: 0x100, wparam: 5, lparam: -6 });
}

#[test]
fn moving_to_desktop_needs_a_guid() {
    let e = OmniseyeEngine::new();
    let m = e.move_window_to_desktop(9, "{AA509086-5CA9-4C0C-9B8C-8F6D5A1B9D4E}").unwrap();
    assert_eq!(m.hwnd, 9);
    assert_eq!(m.desktop.data1, 0xAA509086);
    assert_eq!(
        e.move_window_to_desktop(9, "not a guid").unwrap_err(),
        "Invalid GUID format. Use: {XXXXXXXX-XXXX-XXXX-XXXX-XXXXXXXXXXXX}"
    );
}

#[test]
fn window_info_decodes_title_and_class() {
    let e = OmniseyeEngine::new();
    let title: Vec<u16> = "Calculator\0".encode_utf16().collect();
    let mut class = vec![0u16; 256];
    for (i, u) in "ApplicationFrameWindow".encode_utf16().enumerate() {
        class[i] = u;
    }
    let raw = RawWindow {
        hwnd: 0x1000c,
        title_len: 10,
        title_units: title,
        class_len: 22,
        class_units: class,
        rect: Rect { left: 0, top: 0, right: 400, bottom: 600 },
        visible: true,
        pid: 1234,
    };
    let info = e.get_window_info(&raw);
    assert_eq!(info.title, "Calculator");
    assert_eq!(info.class_name, "ApplicationFrameWindow");
    assert_eq!(info.hwnd, 0x1000c);
    assert_eq!(info.rect, Rect { left: 0, top: 0, right: 400, bottom: 600 });
    assert!(info.visible);
    assert_eq!(info.pid, 1234);
    let untitled = RawWindow { title_len: 0, title_units: vec![], class_len: 0, ..raw };
    let info = e.get_window_info(&untitled);
    assert_eq!(info.title, "");
    assert_eq!(info.class_name, "");
}

#[test]
fn utf16_decoding_matches_std() {
    let cases: Vec<Vec<u16>> = vec![
        vec![],
        "héllo €".encode_utf16().collect(),
        "😀 ok".encode_utf16().collect(),
        vec![0xD800],
        vec![0xDC00, 0x41],
        vec![0xD800, 0x41, 0xDFFF],
        vec![0xD83D, 0xDE00, 0xD83D],
        vec![0xFFFF, 0xE000, 0xD7FF, 0],
    ];
    for c in cases {
        assert_eq!(decode_utf16_lossy(&c, c.len()), String::from_utf16_lossy(&c), "{:?}", c);
    }
    let units: Vec<u16> = "abcdef".encode_utf16().collect();
    assert_eq!(decode_utf16_lossy(&units, 3), "abc");
}

#[test]
fn number_rendering_matches_std() {
    for n in [0u64, 1, 9, 10, 99, 100, 65535, u64::MAX] {
        let mut s = String::new();
        push_decimal(&mut s, n);
        assert_eq!(s, n.to_string());
        let mut s = String::new();
        push_hex(&mut s, n);
        assert_eq!(s, format!("{:x}", n));
    }
    for i in [0i64, -1, 7, -7, i64::MIN, i64::MAX, -2147483648] {
        let mut s = String::new();
        push_signed_decimal(&mut s, i);
        assert_eq!(s, i.to_string());
    }
    for h in [0isize, 0x1000c, -1, isize::MIN, isize::MAX] {
        let mut s = String::new();
        push_isize_hex(&mut s, h);
        assert_eq!(s, format!("{:x}", h));
    }
}

fn raw(hwnd: isize, title: &str, class: &str) -> RawWindow {
    let title_units: Vec<u16> = title.encode_utf16().chain(std::iter::once(0)).collect();
    let mut class_units = vec![0u16; 256];
    let mut class_len: i32 = 0;
    for (i, u) in class.encode_utf16().enumerate() {
        class_units[i] = u;
        class_len = i as i32 + 1;
    }
    RawWindow {
        hwnd,
        title_len: title_units.len() as i32 - 1,
        title_units,
        class_len,
        class_units,
        rect: Rect { left: -8, top: 0, right: 1928, bottom: 1048 },
        visible: true,
        pid: 42,
    }
}

#[test]
fn window_list_keeps_the_reported_order() {
    let e = OmniseyeEngine::new();
    let reports = vec![raw(3, "Zeta", "Z"), raw(1, "Alpha", "A"), raw(2, "", "B")];
    let windows = e.enum_windows(&reports);
    let names: Vec<(isize, &str, &str)> =
        windows.iter().map(|w| (w.hwnd, w.title.as_str(), w.class_name.as_str())).collect();
    assert_eq!(names, vec![(3, "Zeta", "Z"), (1, "Alpha", "A"), (2, "", "B")]);
    assert!(e.enum_windows(&vec![]).is_empty());
}

#[test]
fn desktop_manager_status() {
    let e = OmniseyeEngine::new();
    assert_eq!(e.is_window_on_current_desktop(0, true), Ok(true));
    assert_eq!(e.is_window_on_current_desktop(1, false), Ok(false));
    assert_eq!(
        e.is_window_on_current_desktop(-2147467259, true),
        Err("is_window_on_current_virtual_desktop failed: 0x80004005".to_string())
    );
    assert_eq!(e.desktop_move_outcome(0), Ok(()));
    assert_eq!(
        e.desktop_move_outcome(-2147024809),
        Err(format!("move_window_to_desktop failed: {:#x}", -2147024809i32))
    );
    for hr in [0i32, 1, -1, i32::MIN, i32::MAX, -2147467259] {
        assert_eq!(hresult_text(hr), format!("{:#x}", hr));
    }
}

#[test]
fn command_line_window_rows() {
    let e = OmniseyeEngine::new();
    let w = e.get_window_info(&raw(0x1000c, "Notes \"draft\"", "Edit"));
    assert_eq!(
        window_row_text(&w),
        format!(
            "0x{:x} {:?} visible={} rect={},{},{},{} pid={}",
            w.hwnd, w.title, w.visible, w.rect.left, w.rect.top, w.rect.right, w.rect.bottom, w.pid
        )
    );
    assert_eq!(window_row_text(&w), "0x1000c \"Notes \\\"draft\\\"\" visible=true rect=-8,0,1928,1048 pid=42");
}

#[test]
fn requests_become_window_operations_or_keys() {
    let e = OmniseyeEngine::new();
    assert_eq!(
        e.window_step(&Command::Focus { hwnd: 5 }),
        Some((WindowOp::Focus { hwnd: 5 }, "SetForegroundWindow failed".to_string()))
    );
    assert_eq!(
        e.window_step(&Command::Close { hwnd: 5 }),
        Some((WindowOp::Post { hwnd: 5, msg: 0x10, wparam: 0, lparam: 0 }, "PostMessage(WM_CLOSE) failed".to_string()))
    );
    assert_eq!(
        e.window_step(&Command::PostMessage { hwnd: 5, msg: 0x10, wparam: 0, lparam: 0 }),
        Some((WindowOp::Post { hwnd: 5, msg: 0x10, wparam: 0, lparam: 0 }, "PostMessageW failed".to_string()))
    );
    assert_eq!(
        e.window_step(&Command::MoveWindow { hwnd: 5, x: 1, y: 2, w: 3, h: 4 }),
        Some((WindowOp::Move { hwnd: 5, x: 1, y: 2, w: 3, h: 4 }, "MoveWindow failed".to_string()))
    );
    assert_eq!(
        e.window_step(&Command::Minimize { hwnd: 5 }),
        Some((WindowOp::Show { hwnd: 5, cmd: 6 }, "ShowWindow failed".to_string()))
    );
    assert_eq!(e.window_step(&Command::EnumWindows), None);
    assert_eq!(e.window_step(&Command::KeyPress { vk: 1 }), None);
    assert_eq!(
        e.key_steps(&Command::KeyPress { vk: 0x1b }),
        Some(vec![InputStep::Keys(vec![KeyInput { vk: 0x1b, key_up: false }])])
    );
    assert_eq!(
        e.key_steps(&Command::KeyRelease { vk: 0x1b }),
        Some(vec![InputStep::Keys(vec![KeyInput { vk: 0x1b, key_up: true }])])
    );
    assert_eq!(e.key_steps(&Command::SwitchDesktop { direction: -1 }), Some(e.switch_desktop(-1)));
    assert_eq!(e.key_steps(&Command::Focus { hwnd: 1 }), None);
}

#[test]
fn z_order_change_names_its_failure() {
    let e = OmniseyeEngine::new();
    assert_eq!(
        e.z_order_step(7, -1),
        (WindowOp::SetPos { hwnd: 7, insert_after: -1, flags: 3 }, "SetWindowPos (Z-order) failed".to_string())
    );
}
