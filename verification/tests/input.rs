use via_engine::engine::OmniseyeEngine;
use via_engine::input::{
    absolute_coordinate, click, double_click, key_press, key_release, move_mouse, needs_shift,
    switch_desktop, type_text, unsupported_char_message, vk_from_char, InputStep, KeyInput, MouseButton, MouseInput,
    ScreenSize,
};

fn down(vk: u16) -> KeyInput {
    KeyInput { vk, key_up: false }
}

fn up(vk: u16) -> KeyInput {
    KeyInput { vk, key_up: true }
}

#[test]
fn letters_digits_and_symbols_have_keys() {
    assert_eq!(vk_from_char('a'), Some(0x41));
    assert_eq!(vk_from_char('A'), Some(0x41));
    assert_eq!(vk_from_char('z'), Some(0x5A));
    assert_eq!(vk_from_char('0'), Some(0x30));
    assert_eq!(vk_from_char('9'), Some(0x39));
    assert_eq!(vk_from_char(' '), Some(0x20));
    assert_eq!(vk_from_char('\t'), Some(0x09));
    assert_eq!(vk_from_char('\n'), Some(0x0D));
    assert_eq!(vk_from_char('\r'), Some(0x0D));
    assert_eq!(vk_from_char('!'), Some(0x31));
    assert_eq!(vk_from_char(')'), Some(0x30));
    assert_eq!(vk_from_char('?'), Some(0xBF));
    assert_eq!(vk_from_char('~'), Some(0xC0));
    assert_eq!(vk_from_char('<'), Some(0xBC));
    assert_eq!(vk_from_char('é'), None);
    assert_eq!(vk_from_char('€'), None);
}

#[test]
fn shifted_characters() {
    for c in "ABZ!@#$%^&*()_+{}|:\"?<>~".chars() {
        assert!(needs_shift(c), "{:?}", c);
        assert!(vk_from_char(c).is_some(), "{:?}", c);
    }
    for c in "abz019 \t-=[];',./`".chars() {
        assert!(!needs_shift(c), "{:?}", c);
    }
}

#[test]
fn typing_presses_and_releases() {
    let plan = type_text("aB\r\n");
    assert_eq!(plan.unsupported, None);
    assert_eq!(
        plan.steps,
        vec![
            InputStep::Keys(vec![down(0x41), up(0x41)]),
            InputStep::Pause(5),
            InputStep::Keys(vec![down(0x10)]),
            InputStep::Keys(vec![down(0x42), up(0x42)]),
            InputStep::Keys(vec![up(0x10)]),
            InputStep::Pause(5),
            InputStep::Keys(vec![down(0x0D), up(0x0D)]),
        ]
    );
}

#[test]
fn typing_stops_at_unsupported_character() {
    let plan = type_text("hé!");
    assert_eq!(plan.unsupported, Some('é'));
    assert_eq!(plan.steps, vec![InputStep::Keys(vec![down(0x48), up(0x48)]), InputStep::Pause(5)]);
    let plan = type_text("");
    assert_eq!(plan.unsupported, None);
    assert!(plan.steps.is_empty());
}

#[test]
fn typing_releases_every_key() {
    let plan = type_text("Hello, World! {x} \"q\"\n");
    let mut held: Vec<i32> = vec![0; 256];
    for s in &plan.steps {
        if let InputStep::Keys(keys) = s {
            for k in keys {
                held[k.vk as usize] += if k.key_up { -1 } else { 1 };
                assert!(held[k.vk as usize] >= 0);
            }
        }
    }
    assert!(held.iter().all(|h| *h == 0));
}

#[test]
fn switching_desktops_is_a_chord() {
    let right = switch_desktop(1);
    assert_eq!(
        right,
        vec![InputStep::Keys(vec![down(0x5B), down(0xA2), down(0x27), up(0x27), up(0xA2), up(0x5B)])]
    );
    let left = switch_desktop(-1);
    assert_eq!(
        left,
        vec![InputStep::Keys(vec![down(0x5B), down(0xA2), down(0x25), up(0x25), up(0xA2), up(0x5B)])]
    );
    assert_eq!(switch_desktop(0), right);
}

#[test]
fn single_keys() {
    assert_eq!(key_press(0x11), vec![InputStep::Keys(vec![down(0x11)])]);
    assert_eq!(key_release(0x11), vec![InputStep::Keys(vec![up(0x11)])]);
}

#[test]
fn absolute_coordinates_span_the_screen() {
    assert_eq!(absolute_coordinate(0, 1920), 0);
    assert_eq!(absolute_coordinate(1919, 1920), 65535);
    assert_eq!(absolute_coordinate(960, 1920), 960 * 65535 / 1919);
    assert_eq!(absolute_coordinate(-10, 1920), -(10 * 65535 / 1919));
    assert_eq!(absolute_coordinate(1, 2), 65535);
    assert_eq!(
        absolute_coordinate(i32::MAX, 2),
        ((i32::MAX as i64) * 65535) as i32
    );
}

#[test]
fn clicking_moves_then_presses() {
    let screen = ScreenSize { width: 1920, height: 1080 };
    let steps = click(960, 540, MouseButton::Right, screen);
    assert_eq!(
        steps,
        vec![
            InputStep::Mouse(vec![MouseInput {
                flags: 0x8001,
                dx: 960 * 65535 / 1919,
                dy: 540 * 65535 / 1079,
            }]),
            InputStep::Mouse(vec![
                MouseInput { flags: 0x0008, dx: 0, dy: 0 },
                MouseInput { flags: 0x0010, dx: 0, dy: 0 },
            ]),
        ]
    );
    let middle = click(0, 0, MouseButton::Middle, screen);
    assert_eq!(middle[1], InputStep::Mouse(vec![
        MouseInput { flags: 0x0020, dx: 0, dy: 0 },
        MouseInput { flags: 0x0040, dx: 0, dy: 0 },
    ]));
    let left = click(0, 0, MouseButton::Left, screen);
    assert_eq!(left[1], InputStep::Mouse(vec![
        MouseInput { flags: 0x0002, dx: 0, dy: 0 },
        MouseInput { flags: 0x0004, dx: 0, dy: 0 },
    ]));
}

#[test]
fn double_click_pauses_between_clicks() {
    let screen = ScreenSize { width: 800, height: 600 };
    let steps = double_click(10, 20, screen);
    let one = click(10, 20, MouseButton::Left, screen);
    let mut expected = one.clone();
    expected.push(InputStep::Pause(30));
    expected.extend(one);
    assert_eq!(steps, expected);
}

#[test]
fn move_mouse_is_one_absolute_move() {
    let screen = ScreenSize { width: 1920, height: 1080 };
    assert_eq!(
        move_mouse(1919, 1079, screen),
        vec![InputStep::Mouse(vec![MouseInput { flags: 0x8001, dx: 65535, dy: 65535 }])]
    );
}

#[test]
fn engine_methods_plan_the_same_input() {
    let e = OmniseyeEngine::new();
    let screen = ScreenSize { width: 1280, height: 720 };
    assert_eq!(e.click(5, 6, MouseButton::Left, screen), click(5, 6, MouseButton::Left, screen));
    assert_eq!(e.double_click(5, 6, screen), double_click(5, 6, screen));
    assert_eq!(e.move_mouse(5, 6, screen), move_mouse(5, 6, screen));
    assert_eq!(e.type_text("Hi"), type_text("Hi"));
    assert_eq!(e.key_press(0x1B), key_press(0x1B));
    assert_eq!(e.key_release(0x1B), key_release(0x1B));
    assert_eq!(e.switch_desktop(-1), switch_desktop(-1));
}

#[test]
fn unsupported_characters_are_named() {
    assert_eq!(unsupported_char_message('é'), "Unsupported char: 'é'");
    assert_eq!(unsupported_char_message('\u{7}'), format!("Unsupported char: {:?}", '\u{7}'));
    let plan = type_text("a€");
    assert_eq!(unsupported_char_message(plan.unsupported.unwrap()), "Unsupported char: '€'");
}

#[test]
fn less_than_holds_shift_and_comma_does_not() {
    let plan = type_text("<");
    assert_eq!(plan.unsupported, None);
    assert_eq!(
        plan.steps,
        vec![
            InputStep::Keys(vec![down(0x10)]),
            InputStep::Keys(vec![down(0xBC), up(0xBC)]),
            InputStep::Keys(vec![up(0x10)]),
            InputStep::Pause(5),
        ]
    );
    assert_eq!(type_text(",").steps, vec![InputStep::Keys(vec![down(0xBC), up(0xBC)]), InputStep::Pause(5)]);
}

#[test]
fn no_two_characters_are_typed_alike() {
    let chars: Vec<char> = (32u8..127).map(|b| b as char).chain(['\t']).collect();
    for &c in &chars {
        for &d in &chars {
            if c != d && vk_from_char(c).is_some() && vk_from_char(c) == vk_from_char(d) {
                assert_ne!(needs_shift(c), needs_shift(d), "{:?} {:?}", c, d);
            }
        }
    }
}

#[test]
fn plans_of_parts_add_up() {
    let whole = type_text("Hi, <you>!").steps;
    let mut parts = type_text("Hi, ").steps;
    parts.extend(type_text("<you>!").steps);
    assert_eq!(whole, parts);
    assert_eq!(type_text("a\r\nb\r").steps, type_text("a\nb").steps);
}
