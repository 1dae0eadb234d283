//! Synthesised keyboard and mouse input: which events to send, in which
//! batches, for typing text, clicking, moving the pointer and switching
//! virtual desktops.
use crate::text::{char_debug, chars_of, debug_char};
use vstd::prelude::*;

verus! {

/// Virtual-key code of Enter.
pub const VK_RETURN: u16 = 0x0D;

/// Virtual-key code of Shift.
pub const VK_SHIFT: u16 = 0x10;

/// Virtual-key code of the left Windows key.
pub const VK_LWIN: u16 = 0x5B;

/// Virtual-key code of the left Control key.
pub const VK_LCONTROL: u16 = 0xA2;

/// Virtual-key code of the left arrow.
pub const VK_LEFT: u16 = 0x25;

/// Virtual-key code of the right arrow.
pub const VK_RIGHT: u16 = 0x27;

/// Mouse event flag: the pointer moved.
pub const MOUSEEVENTF_MOVE: u32 = 0x0001;

/// Mouse event flag: left button down.
pub const MOUSEEVENTF_LEFTDOWN: u32 = 0x0002;

/// Mouse event flag: left button up.
pub const MOUSEEVENTF_LEFTUP: u32 = 0x0004;

/// Mouse event flag: right button down.
pub const MOUSEEVENTF_RIGHTDOWN: u32 = 0x0008;

/// Mouse event flag: right button up.
pub const MOUSEEVENTF_RIGHTUP: u32 = 0x0010;

/// Mouse event flag: middle button down.
pub const MOUSEEVENTF_MIDDLEDOWN: u32 = 0x0020;

/// Mouse event flag: middle button up.
pub const MOUSEEVENTF_MIDDLEUP: u32 = 0x0040;

/// Mouse event flag: coordinates are normalised absolute ones (0..=65535).
pub const MOUSEEVENTF_ABSOLUTE: u32 = 0x8000;

/// A mouse button.
#[derive(Clone, Copy, Debug, PartialEq, Eq, Structural)]
pub enum MouseButton {
    Left,
    Right,
    Middle,
}

/// One keyboard event: a key going down or coming up.
#[derive(Clone, Copy, Debug, PartialEq, Eq, Structural)]
pub struct KeyInput {
    pub vk: u16,
    pub key_up: bool,
}

/// One mouse event: its flags and its coordinates.
#[derive(Clone, Copy, Debug, PartialEq, Eq, Structural)]
pub struct MouseInput {
    pub flags: u32,
    pub dx: i32,
    pub dy: i32,
}

/// One step of synthesised input: a batch handed to the system in one call,
/// or a pause in milliseconds.
#[derive(Clone, Debug, PartialEq, Eq)]
pub enum InputStep {
    Keys(Vec<KeyInput>),
    Mouse(Vec<MouseInput>),
    Pause(u32),
}

/// What a step holds, as sequences.
pub enum StepModel {
    Keys(Seq<KeyInput>),
    Mouse(Seq<MouseInput>),
    Pause(u32),
}

impl View for InputStep {
    type V = StepModel;

    open spec fn view(&self) -> StepModel {
        match self {
            InputStep::Keys(v) => StepModel::Keys(v@),
            InputStep::Mouse(v) => StepModel::Mouse(v@),
            InputStep::Pause(ms) => StepModel::Pause(*ms),
        }
    }
}

/// The steps of a plan, each by its view.
pub open spec fn steps_view(steps: Seq<InputStep>) -> Seq<StepModel> {
    steps.map_values(|s: InputStep| s@)
}

/// The size of the primary screen in pixels.
#[derive(Clone, Copy, Debug, PartialEq, Eq, Structural)]
pub struct ScreenSize {
    pub width: i32,
    pub height: i32,
}

/// A key going down.
pub open spec fn down(vk: u16) -> KeyInput {
    KeyInput { vk, key_up: false }
}

/// A key coming up.
pub open spec fn up(vk: u16) -> KeyInput {
    KeyInput { vk, key_up: true }
}

/// A batch of one key event.
fn keys1(a: KeyInput) -> (v: Vec<KeyInput>)
    ensures
        v@ == seq![a],
{
    let mut v = Vec::new();
    v.push(a);
    assert(v@ =~= seq![a]);
    v
}

/// A batch of two key events.
fn keys2(a: KeyInput, b: KeyInput) -> (v: Vec<KeyInput>)
    ensures
        v@ == seq![a, b],
{
    let mut v = Vec::new();
    v.push(a);
    v.push(b);
    assert(v@ =~= seq![a, b]);
    v
}

/// A batch of one mouse event.
fn mouse1(a: MouseInput) -> (v: Vec<MouseInput>)
    ensures
        v@ == seq![a],
{
    let mut v = Vec::new();
    v.push(a);
    assert(v@ =~= seq![a]);
    v
}

/// A batch of two mouse events.
fn mouse2(a: MouseInput, b: MouseInput) -> (v: Vec<MouseInput>)
    ensures
        v@ == seq![a, b],
{
    let mut v = Vec::new();
    v.push(a);
    v.push(b);
    assert(v@ =~= seq![a, b]);
    v
}

/// Appends one step.
fn push_step(steps: &mut Vec<InputStep>, s: InputStep)
    ensures
        steps_view(final(steps)@) == steps_view(old(steps)@).push(s@),
{
    let ghost before = steps@;
    steps.push(s);
    assert(steps_view(steps@) =~= steps_view(before).push(s@));
}

// ---------------------------------------------------------------------------
// Characters and their keys
// ---------------------------------------------------------------------------

/// The virtual key that produces `c` on a US layout, if `c` can be typed.
pub open spec fn vk_of(c: char) -> Option<u16> {
    let u = c as int;
    if 'a' as int <= u <= 'z' as int {
        Some((u - 0x20) as u16)
    } else if 'A' as int <= u <= 'Z' as int {
        Some(u as u16)
    } else if '0' as int <= u <= '9' as int {
        Some(u as u16)
    } else {
        match c {
            ' ' => Some(0x20u16),
            '\t' => Some(0x09u16),
            '\n' | '\r' => Some(0x0Du16),
            '.' | '>' => Some(0xBEu16),
            ',' | '<' => Some(0xBCu16),
            '!' => Some(0x31u16),
            '@' => Some(0x32u16),
            '#' => Some(0x33u16),
            '$' => Some(0x34u16),
            '%' => Some(0x35u16),
            '^' => Some(0x36u16),
            '&' => Some(0x37u16),
            '*' => Some(0x38u16),
            '(' => Some(0x39u16),
            ')' => Some(0x30u16),
            '-' | '_' => Some(0xBDu16),
            '=' | '+' => Some(0xBBu16),
            '[' | '{' => Some(0xDBu16),
            ']' | '}' => Some(0xDDu16),
            '\\' | '|' => Some(0xDCu16),
            ';' | ':' => Some(0xBAu16),
            '\'' | '"' => Some(0xDEu16),
            '/' | '?' => Some(0xBFu16),
            '`' | '~' => Some(0xC0u16),
            _ => None,
        }
    }
}

/// Whether `c` is typed with Shift held.
pub open spec fn shifted(c: char) -> bool {
    let u = c as int;
    ||| 'A' as int <= u <= 'Z' as int
    ||| c == '!'
    ||| c == '@'
    ||| c == '#'
    ||| c == '$'
    ||| c == '%'
    ||| c == '^'
    ||| c == '&'
    ||| c == '*'
    ||| c == '('
    ||| c == ')'
    ||| c == '_'
    ||| c == '+'
    ||| c == '{'
    ||| c == '}'
    ||| c == '|'
    ||| c == ':'
    ||| c == '"'
    ||| c == '?'
    ||| c == '<'
    ||| c == '>'
    ||| c == '~'
}

/// The virtual key that types `c`, if any.
pub fn vk_from_char(c: char) -> (r: Option<u16>)
    ensures
        r == vk_of(c),
{
    let u = c as u32;
    if 'a' as u32 <= u && u <= 'z' as u32 {
        Some((u - 0x20) as u16)
    } else if 'A' as u32 <= u && u <= 'Z' as u32 {
        Some(u as u16)
    } else if '0' as u32 <= u && u <= '9' as u32 {
        Some(u as u16)
    } else {
        match c {
            ' ' => Some(0x20),
            '\t' => Some(0x09),
            '\n' | '\r' => Some(0x0D),
            '.' | '>' => Some(0xBE),
            ',' | '<' => Some(0xBC),
            '!' => Some(0x31),
            '@' => Some(0x32),
            '#' => Some(0x33),
            '$' => Some(0x34),
            '%' => Some(0x35),
            '^' => Some(0x36),
            '&' => Some(0x37),
            '*' => Some(0x38),
            '(' => Some(0x39),
            ')' => Some(0x30),
            '-' | '_' => Some(0xBD),
            '=' | '+' => Some(0xBB),
            '[' | '{' => Some(0xDB),
            ']' | '}' => Some(0xDD),
            '\\' | '|' => Some(0xDC),
            ';' | ':' => Some(0xBA),
            '\'' | '"' => Some(0xDE),
            '/' | '?' => Some(0xBF),
            '`' | '~' => Some(0xC0),
            _ => None,
        }
    }
}

/// Whether `c` needs Shift.
pub fn needs_shift(c: char) -> (r: bool)
    ensures
        r == shifted(c),
{
    let u = c as u32;
    ('A' as u32 <= u && u <= 'Z' as u32) || c == '!' || c == '@' || c == '#' || c == '$' || c
        == '%' || c == '^' || c == '&' || c == '*' || c == '(' || c == ')' || c == '_' || c == '+'
        || c == '{' || c == '}' || c == '|' || c == ':' || c == '"' || c == '?' || c == '<' || c == '>' || c
        == '~'
}

// ---------------------------------------------------------------------------
// Typing text
// ---------------------------------------------------------------------------

/// Whether `c` can be typed: a carriage return (skipped), a line feed
/// (Enter), or a character with a key.
pub open spec fn typable(c: char) -> bool {
    c == '\r' || c == '\n' || vk_of(c) is Some
}

/// The steps that type one typable character.
pub open spec fn char_steps(c: char) -> Seq<StepModel> {
    if c == '\r' {
        seq![]
    } else if c == '\n' {
        seq![StepModel::Keys(seq![down(VK_RETURN), up(VK_RETURN)])]
    } else {
        let vk = vk_of(c)->0;
        let press = StepModel::Keys(seq![down(vk), up(vk)]);
        if shifted(c) {
            seq![
                StepModel::Keys(seq![down(VK_SHIFT)]),
                press,
                StepModel::Keys(seq![up(VK_SHIFT)]),
                StepModel::Pause(5),
            ]
        } else {
            seq![press, StepModel::Pause(5)]
        }
    }
}

/// The steps that type `t`, character after character.
pub open spec fn typing_steps(t: Seq<char>) -> Seq<StepModel>
    decreases t.len(),
{
    if t.len() == 0 {
        seq![]
    } else {
        typing_steps(t.drop_last()) + char_steps(t.last())
    }
}

/// How many characters at the start of `t` can be typed.
pub open spec fn typable_prefix_len(t: Seq<char>) -> nat
    decreases t.len(),
{
    if t.len() == 0 || !typable(t[0]) {
        0
    } else {
        1 + typable_prefix_len(t.drop_first())
    }
}

/// What typing a text amounts to: the steps for the characters before the
/// first one that cannot be typed, and that character, if there is one.
#[derive(Clone, Debug, PartialEq, Eq)]
pub struct TypingPlan {
    pub steps: Vec<InputStep>,
    pub unsupported: Option<char>,
}

proof fn lemma_typable_prefix(t: Seq<char>, i: int)
    requires
        0 <= i <= t.len(),
        forall|j: int| 0 <= j < i ==> typable(#[trigger] t[j]),
        i == t.len() || !typable(t[i]),
    ensures
        typable_prefix_len(t) == i,
    decreases i,
{
    if i > 0 {
        assert forall|j: int| 0 <= j < i - 1 implies typable(#[trigger] t.drop_first()[j]) by {
            assert(t.drop_first()[j] == t[j + 1]);
        }
        if i < t.len() {
            assert(t.drop_first()[i - 1] == t[i]);
        }
        lemma_typable_prefix(t.drop_first(), i - 1);
    }
}

/// Appends the steps that type one typable character.
fn push_char_steps(steps: &mut Vec<InputStep>, c: char, vk: u16)
    requires
        c != '\r' && c != '\n' ==> vk_of(c) == Some(vk),
    ensures
        steps_view(final(steps)@) == steps_view(old(steps)@) + char_steps(c),
{
    let ghost before = steps_view(steps@);
    if c == '\r' {
        assert(steps_view(steps@) =~= before + char_steps(c));
        return ;
    }
    if c == '\n' {
        push_step(steps, InputStep::Keys(keys2(KeyInput { vk: VK_RETURN, key_up: false }, KeyInput { vk: VK_RETURN, key_up: true })));
    } else {
        let shift = needs_shift(c);
        if shift {
            push_step(steps, InputStep::Keys(keys1(KeyInput { vk: VK_SHIFT, key_up: false })));
        }
        push_step(steps, InputStep::Keys(keys2(KeyInput { vk, key_up: false }, KeyInput { vk, key_up: true })));
        if shift {
            push_step(steps, InputStep::Keys(keys1(KeyInput { vk: VK_SHIFT, key_up: true })));
        }
        push_step(steps, InputStep::Pause(5));
    }
    assert(steps_view(steps@) =~= before + char_steps(c));
}

/// Plans typing `text`: carriage returns are skipped, line feeds press Enter,
/// every other character presses its key (wrapped in Shift where it needs it)
/// and is followed by a 5 ms pause. Planning stops at the first character
/// that has no key, which is reported.
pub fn type_text(text: &str) -> (plan: TypingPlan)
    ensures
        ({
            let k = typable_prefix_len(text@);
            &&& k <= text@.len()
            &&& steps_view(plan.steps@) == typing_steps(text@.take(k as int))
            &&& plan.unsupported == if k < text@.len() {
                Some(text@[k as int])
            } else {
                None::<char>
            }
        }),
{
    let chars = chars_of(text);
    let mut steps: Vec<InputStep> = Vec::new();
    let mut i: usize = 0;
    while i < chars.len()
        invariant
            i <= chars.len(),
            chars@ == text@,
            forall|j: int| 0 <= j < i ==> typable(#[trigger] chars@[j]),
            steps_view(steps@) == typing_steps(chars@.take(i as int)),
        decreases chars.len() - i,
    {
        let c = chars[i];
        let vk: u16 = if c == '\r' || c == '\n' {
            VK_RETURN
        } else {
            match vk_from_char(c) {
                Some(v) => v,
                None => {
                    proof {
                        lemma_typable_prefix(chars@, i as int);
                    }
                    return TypingPlan { steps, unsupported: Some(c) };
                },
            }
        };
        push_char_steps(&mut steps, c, vk);
        assert(chars@.take(i + 1).drop_last() =~= chars@.take(i as int));
        i = i + 1;
    }
    proof {
        lemma_typable_prefix(chars@, i as int);
        assert(chars@.take(i as int) =~= chars@);
    }
    TypingPlan { steps, unsupported: None }
}

/// The error for a character that has no key: `Unsupported char: ` and the
/// character as `{:?}` prints it.
pub fn unsupported_char_message(c: char) -> (r: String)
    ensures
        r@ == "Unsupported char: "@ + char_debug(c),
{
    let mut r = String::from_str("Unsupported char: ");
    let d = debug_char(c);
    r.append(d.as_str());
    r
}

/// The key events of a plan, batch after batch.
pub open spec fn key_events(steps: Seq<StepModel>) -> Seq<KeyInput>
    decreases steps.len(),
{
    if steps.len() == 0 {
        seq![]
    } else {
        key_events(steps.drop_last()) + match steps.last() {
            StepModel::Keys(k) => k,
            _ => seq![],
        }
    }
}

/// How many events in `events` move key `vk` in the direction `key_up`.
pub open spec fn count_events(events: Seq<KeyInput>, vk: u16, key_up: bool) -> nat
    decreases events.len(),
{
    if events.len() == 0 {
        0
    } else {
        count_events(events.drop_last(), vk, key_up) + if events.last() == (KeyInput { vk, key_up }) {
            1nat
        } else {
            0nat
        }
    }
}

proof fn lemma_count_concat(a: Seq<KeyInput>, b: Seq<KeyInput>, vk: u16, key_up: bool)
    ensures
        count_events(a + b, vk, key_up) == count_events(a, vk, key_up) + count_events(b, vk, key_up),
    decreases b.len(),
{
    if b.len() == 0 {
        assert(a + b =~= a);
    } else {
        assert((a + b).drop_last() =~= a + b.drop_last());
        lemma_count_concat(a, b.drop_last(), vk, key_up);
    }
}

proof fn lemma_key_events_concat(a: Seq<StepModel>, b: Seq<StepModel>)
    ensures
        key_events(a + b) == key_events(a) + key_events(b),
    decreases b.len(),
{
    if b.len() == 0 {
        assert(a + b =~= a);
        assert(key_events(a) + key_events(b) =~= key_events(a));
    } else {
        assert((a + b).drop_last() =~= a + b.drop_last());
        lemma_key_events_concat(a, b.drop_last());
        assert(key_events(a + b) =~= key_events(a) + key_events(b));
    }
}

/// Each character's steps release every key they press: no key is held
/// into the next character.
pub proof fn lemma_char_steps_balanced(c: char, vk: u16)
    ensures
        count_events(key_events(char_steps(c)), vk, false) == count_events(
            key_events(char_steps(c)),
            vk,
            true,
        ),
{
    let s = char_steps(c);
    let e = key_events(s);
    reveal_with_fuel(key_events, 5);
    reveal_with_fuel(count_events, 7);
    if c == '\r' {
    } else if c == '\n' {
        assert(e =~= seq![down(VK_RETURN), up(VK_RETURN)]);
    } else {
        let k = vk_of(c)->0;
        if shifted(c) {
            assert(e =~= seq![down(VK_SHIFT), down(k), up(k), up(VK_SHIFT)]);
        } else {
            assert(e =~= seq![down(k), up(k)]);
        }
    }
}

/// Typing any text releases every key it presses: for every key, the plan
/// holds as many key-up events as key-down events.
pub proof fn lemma_typing_releases_every_key(t: Seq<char>, vk: u16)
    ensures
        count_events(key_events(typing_steps(t)), vk, false) == count_events(
            key_events(typing_steps(t)),
            vk,
            true,
        ),
    decreases t.len(),
{
    if t.len() > 0 {
        lemma_typing_releases_every_key(t.drop_last(), vk);
        lemma_key_events_concat(typing_steps(t.drop_last()), char_steps(t.last()));
        lemma_char_steps_balanced(t.last(), vk);
        lemma_count_concat(
            key_events(typing_steps(t.drop_last())),
            key_events(char_steps(t.last())),
            vk,
            false,
        );
        lemma_count_concat(
            key_events(typing_steps(t.drop_last())),
            key_events(char_steps(t.last())),
            vk,
            true,
        );
    }
}

/// Typing `s` then `t` is typing `s + t`: the plan of a text is the plans of
/// its parts, one after the other.
pub proof fn lemma_typing_concat(s: Seq<char>, t: Seq<char>)
    ensures
        typing_steps(s + t) == typing_steps(s) + typing_steps(t),
    decreases t.len(),
{
    if t.len() == 0 {
        assert(s + t =~= s);
        assert(typing_steps(s) + typing_steps(t) =~= typing_steps(s));
    } else {
        assert((s + t).drop_last() =~= s + t.drop_last());
        assert((s + t).last() == t.last());
        lemma_typing_concat(s, t.drop_last());
        assert(typing_steps(s + t) =~= typing_steps(s) + typing_steps(t));
    }
}

/// `t` without its carriage returns.
pub open spec fn without_cr(t: Seq<char>) -> Seq<char>
    decreases t.len(),
{
    if t.len() == 0 {
        seq![]
    } else if t.last() == '\r' {
        without_cr(t.drop_last())
    } else {
        without_cr(t.drop_last()).push(t.last())
    }
}

/// Carriage returns add nothing to what typing a text does.
pub proof fn lemma_carriage_returns_add_nothing(t: Seq<char>)
    ensures
        typing_steps(without_cr(t)) == typing_steps(t),
    decreases t.len(),
{
    if t.len() > 0 {
        lemma_carriage_returns_add_nothing(t.drop_last());
        if t.last() == '\r' {
            assert(char_steps('\r') =~= Seq::<StepModel>::empty());
            assert(typing_steps(t) =~= typing_steps(t.drop_last()));
        } else {
            let w = without_cr(t.drop_last()).push(t.last());
            assert(w.drop_last() =~= without_cr(t.drop_last()));
        }
    }
}

/// Whether a character needs Shift implies that it has a key: the table of
/// shifted characters lies within the table of typable ones.
pub proof fn lemma_shifted_chars_have_keys(c: char)
    ensures
        shifted(c) ==> vk_of(c) is Some,
{
}

/// No two characters are typed alike: two different characters that have
/// the same key (other than the line breaks, which both press Enter) differ
/// in whether Shift is held.
pub proof fn lemma_each_char_typed_its_own_way(c: char, d: char)
    requires
        c != d,
        c != '\n' && c != '\r',
        d != '\n' && d != '\r',
        vk_of(c) is Some,
        vk_of(c) == vk_of(d),
    ensures
        shifted(c) != shifted(d),
{
    let u = c as int;
    let w = d as int;
    assert(u != w);
}

/// The keys of the US keyboard layout: a letter is typed with the key of its
/// upper-case form, a digit with its own key, space with `VK_SPACE` (0x20),
/// tab with `VK_TAB` (0x09), a line break with `VK_RETURN` (0x0D), and each
/// punctuation mark with the key that carries it: `VK_OEM_MINUS` (0xBD) for
/// `-` and `_`, `VK_OEM_PLUS` (0xBB) for `=` and `+`, `VK_OEM_4` (0xDB) for
/// `[` and `{`, `VK_OEM_6` (0xDD) for `]` and `}`, `VK_OEM_5` (0xDC) for `\`
/// and `|`, `VK_OEM_1` (0xBA) for `;` and `:`, `VK_OEM_7` (0xDE) for `'` and
/// `"`, `VK_OEM_COMMA` (0xBC) for `,` and `<`, `VK_OEM_PERIOD` (0xBE) for `.`
/// and `>`, `VK_OEM_2` (0xBF) for `/` and `?`, `VK_OEM_3` (0xC0) for `` ` ``
/// and `~`, and the digit keys `1`-`9`, `0` for `!@#$%^&*()`. Every printable
/// ASCII character has a key; no character outside ASCII has one.
pub proof fn lemma_us_layout_keys()
    ensures
        forall|c: char| 'a' <= c <= 'z' ==> #[trigger] vk_of(c) == Some(((c as int) - 0x20) as u16),
        forall|c: char| 'A' <= c <= 'Z' ==> #[trigger] vk_of(c) == Some((c as int) as u16),
        forall|c: char| '0' <= c <= '9' ==> #[trigger] vk_of(c) == Some((c as int) as u16),
        forall|c: char| (c as int) > 0x7E ==> #[trigger] vk_of(c) is None,
        forall|c: char| 0x20 <= (c as int) <= 0x7E ==> #[trigger] vk_of(c) is Some,
        vk_of(' ') == Some(0x20u16),
        vk_of('\t') == Some(0x09u16),
        vk_of('\n') == Some(0x0Du16) && vk_of('\r') == Some(0x0Du16),
        vk_of('-') == Some(0xBDu16) && vk_of('_') == Some(0xBDu16),
        vk_of('=') == Some(0xBBu16) && vk_of('+') == Some(0xBBu16),
        vk_of('[') == Some(0xDBu16) && vk_of('{') == Some(0xDBu16),
        vk_of(']') == Some(0xDDu16) && vk_of('}') == Some(0xDDu16),
        vk_of('\\') == Some(0xDCu16) && vk_of('|') == Some(0xDCu16),
        vk_of(';') == Some(0xBAu16) && vk_of(':') == Some(0xBAu16),
        vk_of('\'') == Some(0xDEu16) && vk_of('"') == Some(0xDEu16),
        vk_of(',') == Some(0xBCu16) && vk_of('<') == Some(0xBCu16),
        vk_of('.') == Some(0xBEu16) && vk_of('>') == Some(0xBEu16),
        vk_of('/') == Some(0xBFu16) && vk_of('?') == Some(0xBFu16),
        vk_of('`') == Some(0xC0u16) && vk_of('~') == Some(0xC0u16),
        vk_of('!') == Some(0x31u16) && vk_of('@') == Some(0x32u16) && vk_of('#') == Some(0x33u16),
        vk_of('$') == Some(0x34u16) && vk_of('%') == Some(0x35u16) && vk_of('^') == Some(0x36u16),
        vk_of('&') == Some(0x37u16) && vk_of('*') == Some(0x38u16) && vk_of('(') == Some(0x39u16),
        vk_of(')') == Some(0x30u16),
{
}

/// A letter and its upper-case form are typed with the same key.
pub proof fn lemma_letter_case_same_key(c: char)
    requires
        'a' as int <= c as int <= 'z' as int,
    ensures
        vk_of(c) == vk_of(((c as int) - 0x20) as char),
{
}

// ---------------------------------------------------------------------------
// Keys
// ---------------------------------------------------------------------------

/// Presses key `vk` (without releasing it).
pub fn key_press(vk: u16) -> (steps: Vec<InputStep>)
    ensures
        steps_view(steps@) == seq![StepModel::Keys(seq![down(vk)])],
{
    let mut steps = Vec::new();
    push_step(&mut steps, InputStep::Keys(keys1(KeyInput { vk, key_up: false })));
    assert(steps_view(steps@) =~= seq![StepModel::Keys(seq![down(vk)])]);
    steps
}

/// Releases key `vk`.
pub fn key_release(vk: u16) -> (steps: Vec<InputStep>)
    ensures
        steps_view(steps@) == seq![StepModel::Keys(seq![up(vk)])],
{
    let mut steps = Vec::new();
    push_step(&mut steps, InputStep::Keys(keys1(KeyInput { vk, key_up: true })));
    assert(steps_view(steps@) =~= seq![StepModel::Keys(seq![up(vk)])]);
    steps
}

/// The arrow that moves to the neighbouring desktop: left for a negative
/// direction, right otherwise.
pub open spec fn desktop_arrow(direction: i32) -> u16 {
    if direction < 0 {
        VK_LEFT
    } else {
        VK_RIGHT
    }
}

/// The chord Win+Ctrl+arrow in one batch: the three keys go down in order
/// and come up in the reverse order.
pub open spec fn desktop_chord(direction: i32) -> Seq<KeyInput> {
    let arrow = desktop_arrow(direction);
    seq![down(VK_LWIN), down(VK_LCONTROL), down(arrow), up(arrow), up(VK_LCONTROL), up(VK_LWIN)]
}

/// Switches to the virtual desktop on the left (`direction < 0`) or right.
pub fn switch_desktop(direction: i32) -> (steps: Vec<InputStep>)
    ensures
        steps_view(steps@) == seq![StepModel::Keys(desktop_chord(direction))],
{
    let arrow = if direction < 0 {
        VK_LEFT
    } else {
        VK_RIGHT
    };
    let keys: [u16; 3] = [VK_LWIN, VK_LCONTROL, arrow];
    let mut inputs: Vec<KeyInput> = Vec::new();
    let mut i: usize = 0;
    while i < 3
        invariant
            i <= 3,
            keys@ == seq![VK_LWIN, VK_LCONTROL, arrow],
            inputs@ == Seq::new(i as nat, |j: int| down(keys@[j])),
        decreases 3 - i,
    {
        inputs.push(KeyInput { vk: keys[i], key_up: false });
        assert(inputs@ =~= Seq::new((i + 1) as nat, |j: int| down(keys@[j])));
        i = i + 1;
    }
    let mut j: usize = 3;
    while j > 0
        invariant
            j <= 3,
            keys@ == seq![VK_LWIN, VK_LCONTROL, arrow],
            inputs@ == Seq::new(3, |k: int| down(keys@[k])) + Seq::new(
                (3 - j) as nat,
                |k: int| up(keys@[2 - k]),
            ),
        decreases j,
    {
        j = j - 1;
        inputs.push(KeyInput { vk: keys[j], key_up: true });
        assert(inputs@ =~= Seq::new(3, |k: int| down(keys@[k])) + Seq::new(
            (3 - j) as nat,
            |k: int| up(keys@[2 - k]),
        ));
    }
    assert(inputs@ =~= desktop_chord(direction));
    let mut steps = Vec::new();
    push_step(&mut steps, InputStep::Keys(inputs));
    assert(steps_view(steps@) =~= seq![StepModel::Keys(desktop_chord(direction))]);
    steps
}

// ---------------------------------------------------------------------------
// The pointer
// ---------------------------------------------------------------------------

/// Integer division rounding towards zero, as Rust's `/` does.
pub open spec fn trunc_div(a: int, b: int) -> int {
    if a >= 0 {
        a / b
    } else {
        -((-a) / b)
    }
}

/// The normalised absolute coordinate (0 at the first pixel, 65535 at the
/// last) of pixel `v` on an axis `extent` pixels long, truncated to `i32`.
pub open spec fn absolute_coord(v: i32, extent: i32) -> i32 {
    trunc_div(v * 65535, extent - 1) as i32
}

/// Normalises pixel `v` on an axis `extent` pixels long.
pub fn absolute_coordinate(v: i32, extent: i32) -> (r: i32)
    requires
        extent > 1,
    ensures
        r == absolute_coord(v, extent),
{
    let p: i64 = (v as i64) * 65535;
    let d: i64 = (extent as i64) - 1;
    let q: i64 = if p >= 0 {
        p / d
    } else {
        -((-p) / d)
    };
    q as i32
}

/// On screen, the first pixel maps to 0, the last to 65535, and every pixel
/// in between within that range.
pub proof fn lemma_absolute_coord_spans_screen(v: i32, extent: i32)
    requires
        extent > 1,
        0 <= v < extent,
    ensures
        0 <= absolute_coord(v, extent) <= 65535,
        v == 0 ==> absolute_coord(v, extent) == 0,
        v == extent - 1 ==> absolute_coord(v, extent) == 65535,
{
    let d = extent - 1;
    assert(0 <= v * 65535 <= d * 65535) by (nonlinear_arith)
        requires
            0 <= v <= d,
    ;
    assert(0 <= (v * 65535) / d <= 65535) by (nonlinear_arith)
        requires
            0 <= v * 65535 <= d * 65535,
            d > 0,
    ;
    if v == extent - 1 {
        assert((d * 65535) / d == 65535) by (nonlinear_arith)
            requires
                d > 0,
        ;
    }
}

/// A pointer move to pixel `(x, y)` as one absolute move event.
pub open spec fn move_event(x: i32, y: i32, screen: ScreenSize) -> MouseInput {
    MouseInput {
        flags: MOUSEEVENTF_MOVE | MOUSEEVENTF_ABSOLUTE,
        dx: absolute_coord(x, screen.width),
        dy: absolute_coord(y, screen.height),
    }
}

/// The screen sizes for which coordinates can be normalised.
pub open spec fn screen_ok(screen: ScreenSize) -> bool {
    screen.width > 1 && screen.height > 1
}

/// Moves the pointer to pixel `(x, y)`.
pub fn move_mouse(x: i32, y: i32, screen: ScreenSize) -> (steps: Vec<InputStep>)
    requires
        screen_ok(screen),
    ensures
        steps_view(steps@) == seq![StepModel::Mouse(seq![move_event(x, y, screen)])],
{
    let ev = MouseInput {
        flags: MOUSEEVENTF_MOVE | MOUSEEVENTF_ABSOLUTE,
        dx: absolute_coordinate(x, screen.width),
        dy: absolute_coordinate(y, screen.height),
    };
    let mut steps = Vec::new();
    push_step(&mut steps, InputStep::Mouse(mouse1(ev)));
    assert(steps_view(steps@) =~= seq![StepModel::Mouse(seq![move_event(x, y, screen)])]);
    steps
}

/// The button-down and button-up flags of a button.
pub open spec fn button_flags(button: MouseButton) -> (u32, u32) {
    match button {
        MouseButton::Left => (MOUSEEVENTF_LEFTDOWN, MOUSEEVENTF_LEFTUP),
        MouseButton::Right => (MOUSEEVENTF_RIGHTDOWN, MOUSEEVENTF_RIGHTUP),
        MouseButton::Middle => (MOUSEEVENTF_MIDDLEDOWN, MOUSEEVENTF_MIDDLEUP),
    }
}

/// The steps of a click: move there, then press and release in one batch.
pub open spec fn click_steps(x: i32, y: i32, button: MouseButton, screen: ScreenSize) -> Seq<
    StepModel,
> {
    let (d, u) = button_flags(button);
    seq![
        StepModel::Mouse(seq![move_event(x, y, screen)]),
        StepModel::Mouse(
            seq![MouseInput { flags: d, dx: 0, dy: 0 }, MouseInput { flags: u, dx: 0, dy: 0 }],
        ),
    ]
}

/// Clicks `button` at pixel `(x, y)`.
pub fn click(x: i32, y: i32, button: MouseButton, screen: ScreenSize) -> (steps: Vec<InputStep>)
    requires
        screen_ok(screen),
    ensures
        steps_view(steps@) == click_steps(x, y, button, screen),
{
    let mut steps = move_mouse(x, y, screen);
    let (d, u) = match button {
        MouseButton::Left => (MOUSEEVENTF_LEFTDOWN, MOUSEEVENTF_LEFTUP),
        MouseButton::Right => (MOUSEEVENTF_RIGHTDOWN, MOUSEEVENTF_RIGHTUP),
        MouseButton::Middle => (MOUSEEVENTF_MIDDLEDOWN, MOUSEEVENTF_MIDDLEUP),
    };
    let ghost before = steps_view(steps@);
    push_step(
        &mut steps,
        InputStep::Mouse(mouse2(MouseInput { flags: d, dx: 0, dy: 0 }, MouseInput { flags: u, dx: 0, dy: 0 })),
    );
    assert(steps_view(steps@) =~= click_steps(x, y, button, screen));
    steps
}

/// Double-clicks the left button at `(x, y)`: a click, 30 ms, another click.
pub fn double_click(x: i32, y: i32, screen: ScreenSize) -> (steps: Vec<InputStep>)
    requires
        screen_ok(screen),
    ensures
        steps_view(steps@) == click_steps(x, y, MouseButton::Left, screen) + seq![
            StepModel::Pause(30),
        ] + click_steps(x, y, MouseButton::Left, screen),
{
    let mut steps = click(x, y, MouseButton::Left, screen);
    push_step(&mut steps, InputStep::Pause(30));
    let mut second = click(x, y, MouseButton::Left, screen);
    let ghost a = steps@;
    let ghost b = second@;
    steps.append(&mut second);
    assert(steps@ =~= a + b);
    assert(steps_view(steps@) =~= steps_view(a) + steps_view(b));
    steps
}

} // verus!
