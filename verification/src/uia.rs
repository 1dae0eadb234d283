//! The compressed semantic map of the UI Automation tree: one line per
//! element, indented by depth, with a bounded number of elements and a
//! bounded depth.
use crate::text::{
    isize_hex_text, push_char, push_isize_hex, push_signed_decimal, signed_decimal_text,
};
use crate::guid::{lemma_split_append, split_on};
use vstd::pervasive::arbitrary;
use vstd::prelude::*;

verus! {

/// The deepest level of the tree that is listed.
pub const MAX_DEPTH: usize = 20;

/// The most elements that are listed.
pub const MAX_ELEMENTS: u32 = 5000;

/// The short name of a UI Automation control type (`?` for an unknown id):
/// `wind` for a window, `btn` for a button, `edit` for a text field, `lnk`
/// for a link, `pane`, `list`, `ttlb` for a title bar, `menu`, `chk`, `rad`,
/// `cmb`, `tbl`, `txt`, `sep`, `img`, `bar` for scroll bars and tool bars,
/// `tree`, `tip`, `doc`, `cust`, and a short name for each other type.
pub open spec fn control_type_abbrev(id: i32) -> Seq<char> {
    match id {
        50000 => "btn"@,
        50001 => "cal"@,
        50002 => "chk"@,
        50003 => "cmb"@,
        50004 => "edit"@,
        50005 => "lnk"@,
        50006 => "img"@,
        50007 => "li"@,
        50008 => "list"@,
        50009 => "menu"@,
        50010 => "mnb"@,
        50011 => "mni"@,
        50012 => "prg"@,
        50013 => "rad"@,
        50014 => "bar"@,
        50015 => "sld"@,
        50016 => "spn"@,
        50017 => "stb"@,
        50018 => "tab"@,
        50019 => "tabi"@,
        50020 => "txt"@,
        50021 => "bar"@,
        50022 => "tip"@,
        50023 => "tree"@,
        50024 => "trei"@,
        50025 => "cust"@,
        50026 => "grp"@,
        50027 => "thm"@,
        50028 => "grid"@,
        50029 => "ditm"@,
        50030 => "doc"@,
        50031 => "sbtn"@,
        50032 => "wind"@,
        50033 => "pane"@,
        50034 => "hdr"@,
        50035 => "hdri"@,
        50036 => "tbl"@,
        50037 => "ttlb"@,
        50038 => "sep"@,
        50039 => "zoom"@,
        50040 => "appb"@,
        _ => "?"@,
    }
}

/// The short name of a UI Automation control type id.
pub fn control_type_name(ctrl_id: i32) -> (r: &'static str)
    ensures
        r@ == control_type_abbrev(ctrl_id),
{
    match ctrl_id {
        50000 => "btn",
        50001 => "cal",
        50002 => "chk",
        50003 => "cmb",
        50004 => "edit",
        50005 => "lnk",
        50006 => "img",
        50007 => "li",
        50008 => "list",
        50009 => "menu",
        50010 => "mnb",
        50011 => "mni",
        50012 => "prg",
        50013 => "rad",
        50014 => "bar",
        50015 => "sld",
        50016 => "spn",
        50017 => "stb",
        50018 => "tab",
        50019 => "tabi",
        50020 => "txt",
        50021 => "bar",
        50022 => "tip",
        50023 => "tree",
        50024 => "trei",
        50025 => "cust",
        50026 => "grp",
        50027 => "thm",
        50028 => "grid",
        50029 => "ditm",
        50030 => "doc",
        50031 => "sbtn",
        50032 => "wind",
        50033 => "pane",
        50034 => "hdr",
        50035 => "hdri",
        50036 => "tbl",
        50037 => "ttlb",
        50038 => "sep",
        50039 => "zoom",
        50040 => "appb",
        _ => "?",
    }
}

/// The README's element types at their UI Automation control type ids:
/// `UIA_ButtonControlTypeId` (50000) is `btn`, `UIA_CheckBoxControlTypeId`
/// (50002) `chk`, `UIA_ComboBoxControlTypeId` (50003) `cmb`,
/// `UIA_EditControlTypeId` (50004) `edit`, `UIA_HyperlinkControlTypeId`
/// (50005) `lnk`, `UIA_ImageControlTypeId` (50006) `img`,
/// `UIA_ListControlTypeId` (50008) `list`, `UIA_MenuControlTypeId` (50009)
/// `menu`, `UIA_RadioButtonControlTypeId` (50013) `rad`,
/// `UIA_ScrollBarControlTypeId` (50014) and `UIA_ToolBarControlTypeId`
/// (50021) `bar`, `UIA_TextControlTypeId` (50020) `txt`,
/// `UIA_ToolTipControlTypeId` (50022) `tip`, `UIA_TreeControlTypeId` (50023)
/// `tree`, `UIA_CustomControlTypeId` (50025) `cust`,
/// `UIA_DocumentControlTypeId` (50030) `doc`, `UIA_WindowControlTypeId`
/// (50032) `wind`, `UIA_PaneControlTypeId` (50033) `pane`,
/// `UIA_TableControlTypeId` (50036) `tbl`, `UIA_TitleBarControlTypeId`
/// (50037) `ttlb`, `UIA_SeparatorControlTypeId` (50038) `sep`; an id that is
/// no control type is `?`.
pub proof fn lemma_control_type_names()
    ensures
        control_type_abbrev(50000) == "btn"@ && control_type_abbrev(50002) == "chk"@,
        control_type_abbrev(50003) == "cmb"@ && control_type_abbrev(50004) == "edit"@,
        control_type_abbrev(50005) == "lnk"@ && control_type_abbrev(50006) == "img"@,
        control_type_abbrev(50008) == "list"@ && control_type_abbrev(50009) == "menu"@,
        control_type_abbrev(50013) == "rad"@ && control_type_abbrev(50014) == "bar"@,
        control_type_abbrev(50021) == "bar"@ && control_type_abbrev(50020) == "txt"@,
        control_type_abbrev(50022) == "tip"@ && control_type_abbrev(50023) == "tree"@,
        control_type_abbrev(50025) == "cust"@ && control_type_abbrev(50030) == "doc"@,
        control_type_abbrev(50032) == "wind"@ && control_type_abbrev(50033) == "pane"@,
        control_type_abbrev(50036) == "tbl"@ && control_type_abbrev(50037) == "ttlb"@,
        control_type_abbrev(50038) == "sep"@,
        forall|id: i32| (id < 50000 || id > 50040) ==> #[trigger] control_type_abbrev(id) == "?"@,
{
}

/// A rectangle in screen pixels.
#[derive(Clone, Copy, Debug, PartialEq, Eq, Structural)]
pub struct Rect {
    pub left: i32,
    pub top: i32,
    pub right: i32,
    pub bottom: i32,
}

/// What is read of one UI element (unreadable properties already replaced
/// by their defaults: control type -1, empty texts, an empty rectangle,
/// enabled, not focused, offscreen, process 0, window 0).
#[derive(Clone, Debug, PartialEq, Eq)]
pub struct ElementProps {
    pub control_type: i32,
    pub name: String,
    pub automation_id: String,
    pub rect: Rect,
    pub enabled: bool,
    pub focused: bool,
    pub offscreen: bool,
    pub pid: i32,
    pub hwnd: isize,
}

/// `n` spaces, twice the depth.
pub open spec fn indent(depth: nat) -> Seq<char> {
    Seq::new(2 * depth, |i: int| ' ')
}

/// ` part` where `present`, nothing otherwise.
pub open spec fn opt_part(present: bool, part: Seq<char>) -> Seq<char> {
    if present {
        seq![' '] + part
    } else {
        seq![]
    }
}

/// `left,top,right,bottom` in decimal.
pub open spec fn rect_text(r: Rect) -> Seq<char> {
    signed_decimal_text(r.left as int) + seq![','] + signed_decimal_text(r.top as int) + seq![',']
        + signed_decimal_text(r.right as int) + seq![','] + signed_decimal_text(r.bottom as int)
}

/// The element's name, or `#` and its automation id when it has no name.
pub open spec fn label_part(p: ElementProps) -> Seq<char> {
    if p.name@.len() > 0 {
        seq![' '] + p.name@
    } else if p.automation_id@.len() > 0 {
        seq![' '] + "#"@ + p.automation_id@
    } else {
        seq![]
    }
}

/// The state flags of an element: `+fcs` when it has the keyboard focus,
/// `+enabled` when it is enabled, and `+visible` or `+off` as it is on or
/// off screen.
pub open spec fn state_flags(p: ElementProps) -> Seq<char> {
    opt_part(p.focused, "+fcs"@) + opt_part(p.enabled, "+enabled"@) + opt_part(
        !p.offscreen,
        "+visible"@,
    ) + opt_part(p.offscreen, "+off"@)
}

/// Adding an optional part ` t`, where `t` has no space, adds `t` as one
/// more space-separated token.
proof fn lemma_tokens_of_opt_part(acc: Seq<char>, present: bool, t: Seq<char>)
    requires
        forall|i: int| 0 <= i < t.len() ==> #[trigger] t[i] != ' ',
    ensures
        split_on(acc + opt_part(present, t), ' ') == if present {
            split_on(acc, ' ').push(t)
        } else {
            split_on(acc, ' ')
        },
{
    if present {
        assert(acc + opt_part(present, t) =~= acc + seq![' '] + t);
        lemma_split_append(acc, t, ' ');
    } else {
        assert(acc + opt_part(present, t) =~= acc);
    }
}

/// The state flags of an element, read as space-separated tokens, are the
/// README's: `+fcs` exactly when it has the focus, `+enabled` exactly when
/// it is enabled, and `+visible` or `+off` exactly as it is on or off
/// screen, in that order.
pub proof fn lemma_state_flags_follow_the_element(p: ElementProps)
    ensures
        split_on(state_flags(p), ' ') == seq![Seq::<char>::empty()] + (if p.focused {
            seq!["+fcs"@]
        } else {
            Seq::<Seq<char>>::empty()
        }) + (if p.enabled {
            seq!["+enabled"@]
        } else {
            Seq::<Seq<char>>::empty()
        }) + (if p.offscreen {
            seq!["+off"@]
        } else {
            seq!["+visible"@]
        }),
        split_on(state_flags(p), ' ').contains("+enabled"@) <==> p.enabled,
        split_on(state_flags(p), ' ').contains("+fcs"@) <==> p.focused,
        split_on(state_flags(p), ' ').contains("+off"@) <==> p.offscreen,
        split_on(state_flags(p), ' ').contains("+visible"@) <==> !p.offscreen,
{
    reveal_strlit("+fcs");
    reveal_strlit("+enabled");
    reveal_strlit("+visible");
    reveal_strlit("+off");
    let e = Seq::<char>::empty();
    let a = e + opt_part(p.focused, "+fcs"@);
    let b = a + opt_part(p.enabled, "+enabled"@);
    let c = b + opt_part(!p.offscreen, "+visible"@);
    let d = c + opt_part(p.offscreen, "+off"@);
    assert(opt_part(p.focused, "+fcs"@) =~= a);
    assert(state_flags(p) =~= d);
    assert(split_on(e, ' ') == seq![e]);
    lemma_tokens_of_opt_part(e, p.focused, "+fcs"@);
    lemma_tokens_of_opt_part(a, p.enabled, "+enabled"@);
    lemma_tokens_of_opt_part(b, !p.offscreen, "+visible"@);
    lemma_tokens_of_opt_part(c, p.offscreen, "+off"@);
    let toks = split_on(d, ' ');
    assert(toks =~= seq![e] + (if p.focused {
        seq!["+fcs"@]
    } else {
        Seq::<Seq<char>>::empty()
    }) + (if p.enabled {
        seq!["+enabled"@]
    } else {
        Seq::<Seq<char>>::empty()
    }) + (if p.offscreen {
        seq!["+off"@]
    } else {
        seq!["+visible"@]
    }));
    // The four flags and the empty first token are told apart by their
    // lengths.
    assert("+fcs"@.len() == 4 && "+enabled"@.len() == 8 && "+visible"@.len() == 8);
    assert("+off"@.len() == 4 && "+enabled"@[1] == 'e' && "+visible"@[1] == 'v');
    assert("+fcs"@[1] == 'f' && "+off"@[1] == 'o');
    assert("+enabled"@ != "+visible"@);
    assert("+fcs"@ != "+off"@);
    if toks.contains("+enabled"@) {
        let i = choose|i: int| 0 <= i < toks.len() && toks[i] == "+enabled"@;
        assert(toks[i] == "+enabled"@);
    }
    if toks.contains("+fcs"@) {
        let i = choose|i: int| 0 <= i < toks.len() && toks[i] == "+fcs"@;
        assert(toks[i] == "+fcs"@);
    }
    if toks.contains("+off"@) {
        let i = choose|i: int| 0 <= i < toks.len() && toks[i] == "+off"@;
        assert(toks[i] == "+off"@);
    }
    if toks.contains("+visible"@) {
        let i = choose|i: int| 0 <= i < toks.len() && toks[i] == "+visible"@;
        assert(toks[i] == "+visible"@);
    }
    if p.enabled {
        let k = if p.focused { 2int } else { 1int };
        assert(toks[k] == "+enabled"@);
    }
    if p.focused {
        assert(toks[1] == "+fcs"@);
    }
    let last = toks.len() - 1;
    if p.offscreen {
        assert(toks[last] == "+off"@);
    } else {
        assert(toks[last] == "+visible"@);
    }
}

/// The line that lists an element at `depth`: indentation, the type, the
/// label, the state flags, the rectangle when it is not empty, the window
/// handle and the process id when they are not zero.
pub open spec fn element_line(depth: nat, p: ElementProps) -> Seq<char> {
    indent(depth) + control_type_abbrev(p.control_type) + label_part(p) + state_flags(p) + opt_part(
        p.rect.right > p.rect.left || p.rect.bottom > p.rect.top,
        rect_text(p.rect),
    ) + opt_part(p.hwnd != 0, "h=0x"@ + isize_hex_text(p.hwnd)) + opt_part(
        p.pid != 0,
        "p="@ + signed_decimal_text(p.pid as int),
    ) + seq!['\n']
}

/// An element's line at `depth` is indented by two spaces per level, names
/// the element's type right after the indentation, and ends the line.
pub proof fn lemma_element_line_shape(depth: nat, p: ElementProps)
    ensures
        element_line(depth, p).len() > 2 * depth,
        forall|i: int| 0 <= i < 2 * depth ==> #[trigger] element_line(depth, p)[i] == ' ',
        element_line(depth, p).subrange(
            2 * depth as int,
            (2 * depth + control_type_abbrev(p.control_type).len()) as int,
        ) == control_type_abbrev(p.control_type),
        element_line(depth, p).last() == '\n',
{
    let l = element_line(depth, p);
    let ab = control_type_abbrev(p.control_type);
    let head = indent(depth) + ab;
    let tail = l.subrange(head.len() as int, l.len() as int);
    assert(l =~= head + tail);
    assert forall|i: int| 0 <= i < 2 * depth implies #[trigger] l[i] == ' ' by {
        assert(l[i] == head[i]);
        assert(head[i] == indent(depth)[i]);
    }
    assert(l.subrange(2 * depth as int, (2 * depth + ab.len()) as int) =~= ab);
}

/// The two header lines of the map.
pub open spec fn map_header() -> Seq<char> {
    "; VIA GUI MAP\n; type name [state...] x1,y1,x2,y2 [h=hwnd] [p=pid]\n"@
}

/// The closing line written when the element budget ran out.
pub open spec fn truncation_note() -> Seq<char> {
    "; ... truncated at 5000 elements\n"@
}

/// The lines of the listed elements, in order.
pub open spec fn lines_text(visited: Seq<(nat, ElementProps)>) -> Seq<char>
    decreases visited.len(),
{
    if visited.len() == 0 {
        seq![]
    } else {
        lines_text(visited.drop_last()) + element_line(visited.last().0, visited.last().1)
    }
}

/// Appends ` part` where `present`.
fn push_opt_literal(out: &mut String, present: bool, part: &str)
    ensures
        final(out)@ == old(out)@ + opt_part(present, part@),
{
    let ghost start = out@;
    if present {
        push_char(out, ' ');
        out.append(part);
    }
    assert(out@ =~= start + opt_part(present, part@));
}

/// Appends the state flags of an element.
fn push_state_flags(out: &mut String, p: &ElementProps)
    ensures
        final(out)@ == old(out)@ + state_flags(*p),
{
    let ghost start = out@;
    push_opt_literal(out, p.focused, "+fcs");
    let ghost a = out@;
    push_opt_literal(out, p.enabled, "+enabled");
    let ghost b = out@;
    push_opt_literal(out, !p.offscreen, "+visible");
    let ghost c = out@;
    push_opt_literal(out, p.offscreen, "+off");
    assert(out@ =~= start + state_flags(*p));
}

/// Appends the indentation for `depth`.
fn push_indent(out: &mut String, depth: usize)
    ensures
        final(out)@ == old(out)@ + indent(depth as nat),
{
    let ghost start = out@;
    let mut d: usize = 0;
    while d < depth
        invariant
            d <= depth,
            out@ == start + indent(d as nat),
        decreases depth - d,
    {
        push_char(out, ' ');
        push_char(out, ' ');
        assert(out@ =~= start + indent((d + 1) as nat));
        d = d + 1;
    }
}

/// Appends the label of an element.
fn push_label(out: &mut String, p: &ElementProps)
    ensures
        final(out)@ == old(out)@ + label_part(*p),
{
    let ghost start = out@;
    let name = p.name.as_str();
    let aid = p.automation_id.as_str();
    if !name.is_empty() {
        push_char(out, ' ');
        out.append(name);
    } else if !aid.is_empty() {
        push_char(out, ' ');
        out.append("#");
        out.append(aid);
    }
    assert(out@ =~= start + label_part(*p));
}

/// Appends the rectangle of an element unless it is empty.
fn push_rect(out: &mut String, r: Rect)
    ensures
        final(out)@ == old(out)@ + opt_part(r.right > r.left || r.bottom > r.top, rect_text(r)),
{
    let ghost start = out@;
    if r.right > r.left || r.bottom > r.top {
        push_char(out, ' ');
        push_signed_decimal(out, r.left as i64);
        push_char(out, ',');
        push_signed_decimal(out, r.top as i64);
        push_char(out, ',');
        push_signed_decimal(out, r.right as i64);
        push_char(out, ',');
        push_signed_decimal(out, r.bottom as i64);
    }
    assert(out@ =~= start + opt_part(r.right > r.left || r.bottom > r.top, rect_text(r)));
}

/// Appends the window handle and process id where they are not zero.
fn push_ids(out: &mut String, hwnd: isize, pid: i32)
    ensures
        final(out)@ == old(out)@ + opt_part(hwnd != 0, "h=0x"@ + isize_hex_text(hwnd)) + opt_part(
            pid != 0,
            "p="@ + signed_decimal_text(pid as int),
        ),
{
    let ghost start = out@;
    if hwnd != 0 {
        push_char(out, ' ');
        out.append("h=0x");
        push_isize_hex(out, hwnd);
    }
    assert(out@ =~= start + opt_part(hwnd != 0, "h=0x"@ + isize_hex_text(hwnd)));
    let ghost mid = out@;
    if pid != 0 {
        push_char(out, ' ');
        out.append("p=");
        push_signed_decimal(out, pid as i64);
    }
    assert(out@ =~= mid + opt_part(pid != 0, "p="@ + signed_decimal_text(pid as int)));
}

proof fn lemma_add_assoc(a: Seq<char>, b: Seq<char>, c: Seq<char>)
    ensures
        (a + b) + c == a + (b + c),
{
    assert((a + b) + c =~= a + (b + c));
}

/// Appends the line of one element.
pub fn push_element_line(out: &mut String, depth: usize, p: &ElementProps)
    ensures
        final(out)@ == old(out)@ + element_line(depth as nat, *p),
{
    let ghost start = out@;
    push_indent(out, depth);
    let ghost line = indent(depth as nat);
    let ghost piece = control_type_abbrev(p.control_type);
    out.append(control_type_name(p.control_type));
    proof { lemma_add_assoc(start, line, piece); line = line + piece; }
    let ghost piece = label_part(*p);
    push_label(out, p);
    proof { lemma_add_assoc(start, line, piece); line = line + piece; }
    let ghost piece = state_flags(*p);
    push_state_flags(out, p);
    proof { lemma_add_assoc(start, line, piece); line = line + piece; }
    let ghost piece = opt_part(
        p.rect.right > p.rect.left || p.rect.bottom > p.rect.top,
        rect_text(p.rect),
    );
    push_rect(out, p.rect);
    proof { lemma_add_assoc(start, line, piece); line = line + piece; }
    let ghost piece1 = opt_part(p.hwnd != 0, "h=0x"@ + isize_hex_text(p.hwnd));
    let ghost piece2 = opt_part(p.pid != 0, "p="@ + signed_decimal_text(p.pid as int));
    push_ids(out, p.hwnd, p.pid);
    proof {
        lemma_add_assoc(start, line, piece1);
        line = line + piece1;
        lemma_add_assoc(start, line, piece2);
        line = line + piece2;
    }
    push_char(out, '\n');
    proof {
        lemma_add_assoc(start, line, seq!['\n']);
        line = line + seq!['\n'];
    }
    assert(line == element_line(depth as nat, *p));
}

/// A walk of the UI tree in progress: the map written so far and how many
/// more elements may be listed. The walk itself (reading elements and their
/// children) is driven from outside; this decides what is listed.
pub struct UiCrawl {
    out: String,
    remaining: u32,
    visited: Ghost<Seq<(nat, ElementProps)>>,
}

impl UiCrawl {
    /// The map written so far.
    pub closed spec fn text(&self) -> Seq<char> {
        self.out@
    }

    /// How many more elements may be listed.
    pub closed spec fn remaining(&self) -> nat {
        self.remaining as nat
    }

    /// The elements listed so far, each with its depth.
    pub closed spec fn visited(&self) -> Seq<(nat, ElementProps)> {
        self.visited@
    }

    /// The map is the header followed by one line per listed element, the
    /// listed elements and the remaining budget add up to the budget, and no
    /// listed element is deeper than the limit.
    pub open spec fn wf(&self) -> bool {
        &&& self.text() == map_header() + lines_text(self.visited())
        &&& self.visited().len() + self.remaining() == MAX_ELEMENTS
        &&& forall|i: int| 0 <= i < self.visited().len() ==> #[trigger] self.visited()[i].0 <= MAX_DEPTH
    }

    /// A walk that has listed nothing yet.
    pub fn new() -> (c: Self)
        ensures
            c.wf(),
            c.visited() == Seq::<(nat, ElementProps)>::empty(),
            c.remaining() == MAX_ELEMENTS,
    {
        let out = String::from_str(
            "; VIA GUI MAP\n; type name [state...] x1,y1,x2,y2 [h=hwnd] [p=pid]\n",
        );
        let c = UiCrawl { out, remaining: MAX_ELEMENTS, visited: Ghost(Seq::empty()) };
        assert(c.text() =~= map_header() + lines_text(c.visited()));
        c
    }

    /// Whether an element at `depth` is listed: it is within the depth limit
    /// and the budget is not spent.
    pub fn admits(&self, depth: usize) -> (b: bool)
        ensures
            b == (depth <= MAX_DEPTH && self.remaining() > 0),
    {
        depth <= MAX_DEPTH && self.remaining > 0
    }

    /// Whether any budget is left (children are visited only while it is).
    pub fn has_budget(&self) -> (b: bool)
        ensures
            b == (self.remaining() > 0),
    {
        self.remaining > 0
    }

    /// Lists an admitted element.
    pub fn visit(&mut self, depth: usize, props: &ElementProps)
        requires
            old(self).wf(),
            depth <= MAX_DEPTH,
            old(self).remaining() > 0,
        ensures
            final(self).wf(),
            final(self).remaining() == old(self).remaining() - 1,
            final(self).visited() == old(self).visited().push((depth as nat, *props)),
            final(self).text() == old(self).text() + element_line(depth as nat, *props),
    {
        let ghost before = self.visited@;
        push_element_line(&mut self.out, depth, props);
        self.remaining = self.remaining - 1;
        self.visited = Ghost(before.push((depth as nat, *props)));
        assert(self.visited@.drop_last() =~= before);
        assert(lines_text(self.visited@) == lines_text(before) + element_line(depth as nat, *props));
        assert(self.out@ =~= map_header() + lines_text(self.visited@));
        assert forall|i: int| 0 <= i < self.visited().len() implies #[trigger] self.visited()[i].0
            <= MAX_DEPTH by {
            if i < before.len() {
                assert(self.visited()[i] == before[i]);
            }
        }
    }

    /// The finished map: what was written, and a closing note when the
    /// budget ran out.
    pub fn finish(self) -> (s: String)
        ensures
            s@ == self.text() + if self.remaining() == 0 {
                truncation_note()
            } else {
                Seq::<char>::empty()
            },
    {
        let mut out = self.out;
        if self.remaining == 0 {
            out.append("; ... truncated at 5000 elements\n");
        } else {
            assert(out@ =~= out@ + Seq::<char>::empty());
        }
        out
    }
}

/// A walk of the UI tree lists at most 5000 elements, none deeper than 20
/// levels, and its map is the header followed by one line per listed element.
pub proof fn lemma_map_is_bounded(c: &UiCrawl)
    requires
        c.wf(),
    ensures
        c.visited().len() <= MAX_ELEMENTS,
        forall|i: int| 0 <= i < c.visited().len() ==> #[trigger] c.visited()[i].0 <= MAX_DEPTH,
        c.text() == map_header() + lines_text(c.visited()),
{
}

// ---------------------------------------------------------------------------
// The map of a whole tree
// ---------------------------------------------------------------------------

/// A UI element and its children, in the order UI Automation lists them.
pub struct UiTree {
    pub props: ElementProps,
    pub children: Seq<UiTree>,
}

/// The elements listed when the walk reaches `t` at `depth` with `budget`
/// elements left, each with its depth, and the budget left afterwards: an
/// element deeper than the limit, or met with no budget left, is not listed;
/// otherwise it is listed, then its children, in order, one level deeper,
/// until the budget runs out.
pub open spec fn walk(t: UiTree, depth: nat, budget: nat) -> (Seq<(nat, ElementProps)>, nat)
    decreases t,
{
    if depth > MAX_DEPTH || budget == 0 {
        (seq![], budget)
    } else {
        let (rest, left) = walk_children(t.children, depth + 1, (budget - 1) as nat);
        (seq![(depth, t.props)] + rest, left)
    }
}

/// The walk of a list of siblings at `depth`, first to last, while budget is
/// left.
pub open spec fn walk_children(ts: Seq<UiTree>, depth: nat, budget: nat) -> (
    Seq<(nat, ElementProps)>,
    nat,
)
    decreases ts,
{
    if ts.len() == 0 || budget == 0 {
        (seq![], budget)
    } else {
        let (first, left) = walk(ts[0], depth, budget);
        let (rest, last) = walk_children(ts.subrange(1, ts.len() as int), depth, left);
        (first + rest, last)
    }
}

/// What a listing spends: every listed element costs one unit of budget, and
/// every listed element lies between the starting depth and the limit.
pub open spec fn spends(listed: Seq<(nat, ElementProps)>, left: nat, depth: nat, budget: nat) -> bool {
    &&& left <= budget
    &&& listed.len() + left == budget
    &&& forall|i: int| 0 <= i < listed.len() ==> depth <= (#[trigger] listed[i]).0 <= MAX_DEPTH
}

/// The walk of an element spends its budget one unit per listed element, at
/// depths between its own and the limit, and lists the element itself first.
pub proof fn lemma_walk(t: UiTree, depth: nat, budget: nat)
    ensures
        spends(walk(t, depth, budget).0, walk(t, depth, budget).1, depth, budget),
        depth <= MAX_DEPTH && budget > 0 ==> walk(t, depth, budget).0[0] == (depth, t.props),
        depth > MAX_DEPTH || budget == 0 ==> walk(t, depth, budget).0.len() == 0,
    decreases t,
{
    if depth <= MAX_DEPTH && budget > 0 {
        lemma_walk_children(t.children, depth + 1, (budget - 1) as nat);
        let (rest, left) = walk_children(t.children, depth + 1, (budget - 1) as nat);
        let listed = seq![(depth, t.props)] + rest;
        assert forall|i: int| 0 <= i < listed.len() implies depth <= (#[trigger] listed[i]).0
            <= MAX_DEPTH by {
            if i > 0 {
                assert(listed[i] == rest[i - 1]);
            }
        }
    }
}

/// The walk of a list of siblings spends its budget one unit per listed
/// element, at depths between theirs and the limit.
pub proof fn lemma_walk_children(ts: Seq<UiTree>, depth: nat, budget: nat)
    ensures
        spends(walk_children(ts, depth, budget).0, walk_children(ts, depth, budget).1, depth, budget),
    decreases ts,
{
    if ts.len() > 0 && budget > 0 {
        lemma_walk(ts[0], depth, budget);
        let (first, left) = walk(ts[0], depth, budget);
        lemma_walk_children(ts.subrange(1, ts.len() as int), depth, left);
        let (rest, last) = walk_children(ts.subrange(1, ts.len() as int), depth, left);
        let listed = first + rest;
        assert forall|i: int| 0 <= i < listed.len() implies depth <= (#[trigger] listed[i]).0
            <= MAX_DEPTH by {
            if i < first.len() {
                assert(listed[i] == first[i]);
            } else {
                assert(listed[i] == rest[i - first.len()]);
            }
        }
    }
}

/// The map of the tree under `root`: the header, one line per element the
/// walk from the root lists, and the closing note when the budget ran out.
pub open spec fn ui_map(root: UiTree) -> Seq<char> {
    let (listed, left) = walk(root, 0, MAX_ELEMENTS as nat);
    map_header() + lines_text(listed) + if left == 0 {
        truncation_note()
    } else {
        Seq::<char>::empty()
    }
}

/// The map of a tree starts with the header and the root at depth 0, lists
/// at most 5000 elements, none deeper than 20 levels, each on its own line
/// indented by two spaces per level; and a walk that lists exactly these
/// elements finishes with exactly this map.
pub proof fn lemma_ui_map(root: UiTree, c: &UiCrawl)
    requires
        c.wf(),
    ensures
        walk(root, 0, MAX_ELEMENTS as nat).0.len() <= MAX_ELEMENTS,
        walk(root, 0, MAX_ELEMENTS as nat).0[0] == (0nat, root.props),
        forall|i: int| 0 <= i < walk(root, 0, MAX_ELEMENTS as nat).0.len()
            ==> #[trigger] walk(root, 0, MAX_ELEMENTS as nat).0[i].0 <= MAX_DEPTH,
        c.visited() == walk(root, 0, MAX_ELEMENTS as nat).0 ==> c.text() + (if c.remaining() == 0 {
            truncation_note()
        } else {
            Seq::<char>::empty()
        }) == ui_map(root),
{
    lemma_walk(root, 0, MAX_ELEMENTS as nat);
}

// ---------------------------------------------------------------------------
// Driving the walk
// ---------------------------------------------------------------------------

/// Walking a list of siblings with one more at the end is walking the list,
/// then that last sibling with the budget left.
proof fn lemma_walk_children_push(ts: Seq<UiTree>, t: UiTree, depth: nat, budget: nat)
    ensures
        walk_children(ts.push(t), depth, budget) == (
            walk_children(ts, depth, budget).0 + walk(
                t,
                depth,
                walk_children(ts, depth, budget).1,
            ).0,
            walk(t, depth, walk_children(ts, depth, budget).1).1,
        ),
    decreases ts.len(),
{
    let us = ts.push(t);
    if ts.len() == 0 {
        assert(us.subrange(1, us.len() as int) =~= Seq::<UiTree>::empty());
        assert(us[0] == t);
        assert(ts =~= Seq::<UiTree>::empty());
        let w = walk(t, depth, budget);
        assert(walk_children(ts, depth, budget) == (Seq::<(nat, ElementProps)>::empty(), budget));
        if budget > 0 {
            assert(walk_children(Seq::<UiTree>::empty(), depth, w.1) == (
                Seq::<(nat, ElementProps)>::empty(),
                w.1,
            ));
            assert(walk_children(us, depth, budget) == (w.0 + Seq::<(nat, ElementProps)>::empty(), w.1));
        }
        assert(w.0 + Seq::<(nat, ElementProps)>::empty() =~= w.0);
        assert(Seq::<(nat, ElementProps)>::empty() + w.0 =~= w.0);
    } else if budget == 0 {
        assert(Seq::<(nat, ElementProps)>::empty() + Seq::<(nat, ElementProps)>::empty()
            =~= Seq::<(nat, ElementProps)>::empty());
    } else {
        let rest = ts.subrange(1, ts.len() as int);
        assert(us.subrange(1, us.len() as int) =~= rest.push(t));
        assert(us[0] == ts[0]);
        let (first, left) = walk(ts[0], depth, budget);
        lemma_walk_children_push(rest, t, depth, left);
        let (r0, r1) = walk_children(rest, depth, left);
        let w = walk(t, depth, r1);
        assert(first + (r0 + w.0) =~= (first + r0) + w.0);
    }
}

/// What the walk of the UI tree asks for next.
#[derive(Clone, Copy, Debug, PartialEq, Eq, Structural)]
pub enum WalkAction {
    /// Read the current element: its properties and how many children it has.
    Read,
    /// Get child `i` of the current element; it becomes the current element.
    Open(usize),
    /// Leave the current element; its parent becomes the current one again.
    Close,
    /// The walk is over.
    Done,
}

/// What became of the last request of the walk.
pub enum WalkEvent {
    /// The current element was read.
    Read { props: ElementProps, children: usize },
    /// The child was got.
    Opened,
    /// The child could not be got.
    Missing,
    /// The current element was left.
    Closed,
}

/// An element being walked: how many children it has and how many of them
/// were asked for.
struct WalkFrame {
    children: usize,
    next: usize,
}

/// The walk of the UI tree, from the root down: it decides which element to
/// read, which child to get and when to leave an element; the caller does
/// the reading and reports back. Elements are listed in the map as they are
/// read.
pub struct UiWalk {
    crawl: UiCrawl,
    frames: Vec<WalkFrame>,
    action: WalkAction,
    /// For each element on the path from the root: its properties, the
    /// subtrees of its children walked so far, the budget when it was
    /// reached, and where its line stands among the listed elements.
    path: Ghost<Seq<(ElementProps, Seq<UiTree>, nat, nat)>>,
    /// The tree walked, once the root has been left.
    root: Ghost<UiTree>,
}

impl UiWalk {
    /// What the walk asks for.
    pub closed spec fn action_of(&self) -> WalkAction {
        self.action
    }

    /// The elements listed so far, each with its depth.
    pub closed spec fn visited(&self) -> Seq<(nat, ElementProps)> {
        self.crawl.visited()
    }

    /// The map written so far.
    pub closed spec fn text(&self) -> Seq<char> {
        self.crawl.text()
    }

    /// How many more elements may be listed.
    pub closed spec fn remaining(&self) -> nat {
        self.crawl.remaining()
    }

    /// The depth of the current element.
    pub closed spec fn depth(&self) -> nat {
        self.frames.len() as nat
    }

    /// How many children of the element being walked were asked for.
    pub closed spec fn asked(&self) -> nat {
        if self.frames.len() > 0 {
            self.frames@[self.frames.len() - 1].next as nat
        } else {
            0
        }
    }

    /// How many children the element being walked has.
    pub closed spec fn child_count(&self) -> nat {
        if self.frames.len() > 0 {
            self.frames@[self.frames.len() - 1].children as nat
        } else {
            0
        }
    }

    /// The tree made of the elements read and the children got, once the
    /// walk is over.
    pub closed spec fn tree(&self) -> UiTree {
        self.root@
    }

    /// The walk of the children of the element at depth `k` of the path.
    closed spec fn children_walk(&self, k: int) -> (Seq<(nat, ElementProps)>, nat) {
        walk_children(self.path@[k].1, (k + 1) as nat, (self.path@[k].2 - 1) as nat)
    }

    /// The element at the end of the path has listed, after its own line,
    /// exactly the walk of its children so far.
    closed spec fn top_rel(&self) -> bool {
        let n = self.path@.len();
        let v = self.crawl.visited();
        &&& n > 0
        &&& self.path@[n - 1].3 + 1 <= v.len()
        &&& v.subrange(self.path@[n - 1].3 + 1int, v.len() as int) == self.children_walk(n - 1).0
        &&& self.crawl.remaining() == self.children_walk(n - 1).1
    }

    /// The walk is over: what was listed is the walk of the tree.
    closed spec fn done_rel(&self) -> bool {
        &&& self.crawl.visited() == walk(self.root@, 0, MAX_ELEMENTS as nat).0
        &&& self.crawl.remaining() == walk(self.root@, 0, MAX_ELEMENTS as nat).1
    }

    /// The path from the root: each element on it was listed with its depth,
    /// reached with budget left, and each one's line follows its parent's
    /// line and the walk of the siblings before it.
    closed spec fn path_ok(&self) -> bool {
        let g = self.path@;
        let v = self.crawl.visited();
        &&& self.crawl.wf()
        &&& self.frames.len() == g.len()
        &&& g.len() <= MAX_DEPTH + 1
        &&& forall|k: int| 0 <= k < g.len() ==> (#[trigger] self.frames@[k]).next <= self.frames@[k].children
        &&& g.len() > 0 ==> g[0].3 == 0 && g[0].2 == MAX_ELEMENTS
        &&& forall|k: int|
            0 <= k < g.len() ==> (#[trigger] g[k]).2 > 0 && g[k].3 < v.len() && v[g[k].3 as int] == (
                k as nat,
                g[k].0,
            )
        &&& forall|k: int|
            0 <= k < g.len() - 1 ==> {
                &&& (#[trigger] g[k + 1]).3 == g[k].3 + 1 + self.children_walk(k).0.len()
                &&& g[k + 1].2 == self.children_walk(k).1
                &&& v.subrange(g[k].3 + 1int, g[k + 1].3 as int) == self.children_walk(k).0
            }
    }

    /// The state of the walk holds together.
    pub closed spec fn inv(&self) -> bool {
        &&& self.path_ok()
        &&& match self.action {
            WalkAction::Read => {
                &&& self.path@.len() <= MAX_DEPTH
                &&& self.crawl.remaining() > 0
                &&& self.path@.len() == 0 ==> self.crawl.visited().len() == 0
                    && self.crawl.remaining() == MAX_ELEMENTS
                &&& self.path@.len() > 0 ==> self.top_rel()
            },
            WalkAction::Open(_) => self.top_rel() && self.crawl.remaining() > 0,
            WalkAction::Close => if self.path@.len() > 0 {
                self.top_rel()
            } else {
                self.done_rel()
            },
            WalkAction::Done => self.path@.len() == 0 && self.done_rel(),
        }
    }
}

impl UiWalk {
    /// A walk that has read nothing yet and asks for the root.
    pub fn new() -> (w: Self)
        ensures
            w.inv(),
            w.action_of() == WalkAction::Read,
            w.visited() == Seq::<(nat, ElementProps)>::empty(),
            w.depth() == 0,
            w.remaining() == MAX_ELEMENTS,
            w.text() == map_header(),
    {
        let crawl = UiCrawl::new();
        proof {
            assert(map_header() + lines_text(Seq::<(nat, ElementProps)>::empty()) =~= map_header());
        }
        UiWalk {
            crawl,
            frames: Vec::new(),
            action: WalkAction::Read,
            path: Ghost(Seq::empty()),
            root: Ghost(UiTree { props: arbitrary(), children: Seq::empty() }),
        }
    }

    /// What the walk asks for.
    pub fn action(&self) -> (a: WalkAction)
        ensures
            a == self.action_of(),
    {
        self.action
    }

    /// Goes on with the element at the end of the path: its next child while
    /// children and budget are left, otherwise leaving it.
    fn advance(&mut self) -> (a: WalkAction)
        requires
            old(self).path_ok(),
            old(self).top_rel(),
        ensures
            final(self).inv(),
            a == final(self).action_of(),
            final(self).visited() == old(self).visited(),
            final(self).remaining() == old(self).remaining(),
            final(self).text() == old(self).text(),
            a == WalkAction::Close || a is Open,
            a == WalkAction::Close <==> (old(self).remaining() == 0 || old(self).asked()
                >= old(self).child_count()),
            a == WalkAction::Close ==> final(self).depth() + 1 == old(self).depth(),
            a matches WalkAction::Open(i) ==> i == old(self).asked() && final(self).asked() == i + 1
                && i < final(self).child_count() && final(self).depth() == old(self).depth()
                && final(self).child_count() == old(self).child_count(),
    {
        let n = self.frames.len();
        let top_next = self.frames[n - 1].next;
        let top_children = self.frames[n - 1].children;
        if !self.crawl.has_budget() || top_next >= top_children {
            let ghost g = self.path@;
            let ghost v = self.crawl.visited();
            let ghost e = g[n - 1];
            let ghost t = UiTree { props: e.0, children: e.1 };
            proof {
                let cw = self.children_walk(n - 1);
                assert(walk(t, (n - 1) as nat, e.2) == (seq![((n - 1) as nat, e.0)] + cw.0, cw.1));
                assert(v.subrange(e.3 as int, v.len() as int) =~= seq![((n - 1) as nat, e.0)]
                    + v.subrange(e.3 + 1int, v.len() as int));
            }
            self.frames.pop();
            if n == 1 {
                proof {
                    assert(v.subrange(0, v.len() as int) =~= v);
                }
                self.path = Ghost(Seq::empty());
                self.root = Ghost(t);
            } else {
                let ghost p = g[n - 2];
                proof {
                    let before = walk_children(p.1, (n - 1) as nat, (p.2 - 1) as nat);
                    lemma_walk_children_push(p.1, t, (n - 1) as nat, (p.2 - 1) as nat);
                    assert(g[n - 1] == g[(n - 2) + 1]);
                    assert(v.subrange(p.3 + 1int, v.len() as int) =~= v.subrange(
                        p.3 + 1int,
                        e.3 as int,
                    ) + v.subrange(e.3 as int, v.len() as int));
                }
                self.path = Ghost(g.subrange(0, n - 2).push((p.0, p.1.push(t), p.2, p.3)));
                proof {
                    let g2 = self.path@;
                    assert forall|k: int| 0 <= k < g2.len() - 1 implies g2[k] == g[k] by {}
                    assert(g2[n - 2].2 == g[n - 2].2 && g2[n - 2].3 == g[n - 2].3);
                    assert forall|k: int| 0 <= k < g2.len() - 1 implies self.children_walk(k)
                        == walk_children(g[k].1, (k + 1) as nat, (g[k].2 - 1) as nat) by {}
                    assert forall|k: int| 0 <= k < g2.len() - 1 implies #[trigger] g2[k + 1] == (
                        if k + 1 == n - 2 {
                            g2[n - 2]
                        } else {
                            g[k + 1]
                        }
                    ) by {}
                }
            }
            self.action = WalkAction::Close;
            proof {
                assert(self.frames@ =~= old(self).frames@.subrange(0, n - 1));
            }
            WalkAction::Close
        } else {
            let i = top_next;
            let ghost before = self.frames@;
            self.frames.set(n - 1, WalkFrame { children: top_children, next: top_next + 1 });
            proof {
                assert forall|k: int| 0 <= k < n - 1 implies self.frames@[k] == before[k] by {}
            }
            self.action = WalkAction::Open(i);
            WalkAction::Open(i)
        }
    }
}

impl UiWalk {
    /// Takes in what became of the last request and gives the next one. An
    /// event that does not answer the last request changes nothing. Reading
    /// the current element lists it, at its depth; the walk lists no other
    /// element. When the walk is over, what it listed is the walk of the tree
    /// made of the elements read and the children got.
    pub fn step(&mut self, event: WalkEvent) -> (a: WalkAction)
        requires
            old(self).inv(),
        ensures
            final(self).inv(),
            a == final(self).action_of(),
            match event {
                WalkEvent::Read { props, .. } => if old(self).action_of() == WalkAction::Read {
                    final(self).visited() == old(self).visited().push((old(self).depth(), props))
                } else {
                    final(self).visited() == old(self).visited()
                },
                _ => final(self).visited() == old(self).visited(),
            },
            a == WalkAction::Done ==> final(self).visited() == walk(
                final(self).tree(),
                0,
                MAX_ELEMENTS as nat,
            ).0,
            a == WalkAction::Done ==> final(self).visited().len() > 0 && final(self).visited()[0] == (
                0nat,
                final(self).tree().props,
            ),
            match (old(self).action_of(), event) {
                (WalkAction::Read, WalkEvent::Read { props, children }) => {
                    &&& a == WalkAction::Close || a == WalkAction::Open(0)
                    &&& a == WalkAction::Close <==> (children == 0 || old(self).remaining() == 1)
                    &&& a == WalkAction::Close ==> final(self).depth() == old(self).depth()
                    &&& a == WalkAction::Open(0) ==> final(self).depth() == old(self).depth() + 1
                        && final(self).child_count() == children && final(self).asked() == 1
                },
                (WalkAction::Open(_), WalkEvent::Opened) => {
                    &&& a == WalkAction::Read || a == WalkAction::Close
                    &&& a == WalkAction::Read <==> old(self).depth() <= MAX_DEPTH
                    &&& final(self).depth() == old(self).depth()
                },
                (WalkAction::Open(_), WalkEvent::Missing) => {
                    &&& a == WalkAction::Close || a is Open
                    &&& a == WalkAction::Close <==> old(self).asked() >= old(self).child_count()
                    &&& a == WalkAction::Close ==> final(self).depth() + 1 == old(self).depth()
                    &&& a matches WalkAction::Open(i) ==> i == old(self).asked()
                },
                (WalkAction::Close, WalkEvent::Closed) => if old(self).depth() == 0 {
                    a == WalkAction::Done
                } else {
                    &&& a == WalkAction::Close || a is Open
                    &&& a == WalkAction::Close <==> (old(self).remaining() == 0 || old(self).asked()
                        >= old(self).child_count())
                    &&& a == WalkAction::Close ==> final(self).depth() + 1 == old(self).depth()
                    &&& a matches WalkAction::Open(i) ==> i == old(self).asked()
                },
                _ => a == old(self).action_of() && *final(self) == *old(self),
            },
    {
        match event {
            WalkEvent::Read { props, children } => {
                if self.action != WalkAction::Read {
                    return self.action;
                }
                let d = self.frames.len();
                let ghost g = self.path@;
                let ghost v0 = self.crawl.visited();
                let ghost r0 = self.crawl.remaining();
                self.crawl.visit(d, &props);
                self.frames.push(WalkFrame { children, next: 0 });
                self.path = Ghost(g.push((props, Seq::<UiTree>::empty(), r0, v0.len())));
                proof {
                    let v = self.crawl.visited();
                    let g2 = self.path@;
                    assert(v == v0.push((d as nat, props)));
                    assert forall|k: int| 0 <= k < g.len() implies #[trigger] g2[k] == g[k] by {}
                    assert forall|k: int| 0 <= k < g.len() implies v[g[k].3 as int] == v0[g[k].3 as int] by {}
                    assert forall|k: int| 0 <= k < g.len() - 1 implies #[trigger] v.subrange(
                        g[k].3 + 1int,
                        g[k + 1].3 as int,
                    ) == v0.subrange(g[k].3 + 1int, g[k + 1].3 as int) by {
                        assert(v.subrange(g[k].3 + 1int, g[k + 1].3 as int) =~= v0.subrange(
                            g[k].3 + 1int,
                            g[k + 1].3 as int,
                        ));
                    }
                    assert forall|k: int| 0 <= k < g2.len() - 1 implies self.children_walk(k)
                        == walk_children(g[k].1, (k + 1) as nat, (g[k].2 - 1) as nat) by {}
                    if g.len() > 0 {
                        let m = g.len() - 1;
                        assert(v0.subrange(g[m].3 + 1int, v0.len() as int) =~= v.subrange(
                            g[m].3 + 1int,
                            v0.len() as int,
                        ));
                        assert(g2[m + 1] == (props, Seq::<UiTree>::empty(), r0, v0.len()));
                    }
                    assert(walk_children(Seq::<UiTree>::empty(), (d + 1) as nat, (r0 - 1) as nat) == (
                        Seq::<(nat, ElementProps)>::empty(),
                        (r0 - 1) as nat,
                    ));
                    assert(v.subrange(v0.len() + 1int, v.len() as int) =~= Seq::<(nat, ElementProps)>::empty());
                    assert forall|k: int| 0 <= k < self.frames@.len() implies (
                        #[trigger] self.frames@[k]).next <= self.frames@[k].children by {
                        if k < g.len() {
                            assert(self.frames@[k] == old(self).frames@[k]);
                        }
                    }
                }
                self.advance()
            },
            WalkEvent::Opened => {
                match self.action {
                    WalkAction::Open(_) => {},
                    _ => {
                        return self.action;
                    },
                }
                let d = self.frames.len();
                if self.crawl.admits(d) {
                    self.action = WalkAction::Read;
                    WalkAction::Read
                } else {
                    let ghost g = self.path@;
                    let ghost n = g.len();
                    let ghost e = g[n - 1];
                    let ghost leaf = UiTree { props: arbitrary(), children: Seq::empty() };
                    proof {
                        lemma_walk_children_push(e.1, leaf, n as nat, (e.2 - 1) as nat);
                        let cw = walk_children(e.1, n as nat, (e.2 - 1) as nat);
                        assert(walk(leaf, n as nat, cw.1) == (Seq::<(nat, ElementProps)>::empty(), cw.1));
                        assert(cw.0 + Seq::<(nat, ElementProps)>::empty() =~= cw.0);
                    }
                    self.path = Ghost(g.subrange(0, n - 1).push((e.0, e.1.push(leaf), e.2, e.3)));
                    proof {
                        let g2 = self.path@;
                        assert forall|k: int| 0 <= k < n - 1 implies g2[k] == g[k] by {}
                        assert forall|k: int| 0 <= k < n - 1 implies self.children_walk(k)
                            == walk_children(g[k].1, (k + 1) as nat, (g[k].2 - 1) as nat) by {}
                        assert forall|k: int| 0 <= k < g2.len() - 1 implies #[trigger] g2[k + 1] == (
                            if k + 1 == n - 1 {
                                g2[n - 1]
                            } else {
                                g[k + 1]
                            }
                        ) by {}
                    }
                    self.action = WalkAction::Close;
                    WalkAction::Close
                }
            },
            WalkEvent::Missing => {
                match self.action {
                    WalkAction::Open(_) => self.advance(),
                    _ => self.action,
                }
            },
            WalkEvent::Closed => {
                if self.action != WalkAction::Close {
                    return self.action;
                }
                if self.frames.len() == 0 {
                    self.action = WalkAction::Done;
                    proof {
                        lemma_walk(self.root@, 0, MAX_ELEMENTS as nat);
                    }
                    WalkAction::Done
                } else {
                    self.advance()
                }
            },
        }
    }

    /// The finished map: what was written, and a closing note when the
    /// budget ran out. Once the walk is over, it is the map of the tree
    /// walked.
    pub fn finish(self) -> (s: String)
        requires
            self.inv(),
        ensures
            s@ == self.text() + if self.remaining() == 0 {
                truncation_note()
            } else {
                Seq::<char>::empty()
            },
            self.action_of() == WalkAction::Done ==> s@ == ui_map(self.tree()),
    {
        proof {
            lemma_walk(self.root@, 0, MAX_ELEMENTS as nat);
        }
        self.crawl.finish()
    }
}

} // verus!
