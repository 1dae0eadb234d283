//! How a top-level window is listed as one line of text: its handle in
//! hexadecimal, its quoted title, whether it is visible, its rectangle and
//! its process id. The front ends differ only in the labels between them.
use crate::engine::WindowInfo;
use crate::text::{
    bool_text, debug_str, decimal_text, isize_hex_text, push_bool, push_char, push_decimal,
    push_isize_hex, push_signed_decimal, signed_decimal_text, str_debug,
};
use vstd::prelude::*;

verus! {

/// The line for window `w`:
/// `0x<hwnd> <title> <visible_label><visible><rect_open><l>,<t>,<r>,<b><rect_close>pid=<pid>`.
pub open spec fn window_listing(
    w: WindowInfo,
    visible_label: Seq<char>,
    rect_open: Seq<char>,
    rect_close: Seq<char>,
) -> Seq<char> {
    "0x"@ + isize_hex_text(w.hwnd) + seq![' '] + str_debug(w.title@) + visible_label + bool_text(
        w.visible,
    ) + rect_open + signed_decimal_text(w.rect.left as int) + seq![','] + signed_decimal_text(
        w.rect.top as int,
    ) + seq![','] + signed_decimal_text(w.rect.right as int) + seq![','] + signed_decimal_text(
        w.rect.bottom as int,
    ) + rect_close + "pid="@ + decimal_text(w.pid as nat)
}

proof fn lemma_add_assoc(a: Seq<char>, b: Seq<char>, c: Seq<char>)
    ensures
        (a + b) + c == a + (b + c),
{
    assert((a + b) + c =~= a + (b + c));
}

/// Appends the line for window `w` (see [`window_listing`]).
pub fn push_window_listing(
    out: &mut String,
    w: &WindowInfo,
    visible_label: &str,
    rect_open: &str,
    rect_close: &str,
)
    ensures
        final(out)@ == old(out)@ + window_listing(*w, visible_label@, rect_open@, rect_close@),
{
    let ghost start = out@;
    let ghost mut line = "0x"@;
    out.append("0x");
    push_isize_hex(out, w.hwnd);
    proof {
        lemma_add_assoc(start, line, isize_hex_text(w.hwnd));
        line = line + isize_hex_text(w.hwnd);
    }
    push_char(out, ' ');
    proof {
        lemma_add_assoc(start, line, seq![' ']);
        line = line + seq![' '];
    }
    let d = debug_str(w.title.as_str());
    out.append(d.as_str());
    proof {
        lemma_add_assoc(start, line, str_debug(w.title@));
        line = line + str_debug(w.title@);
    }
    out.append(visible_label);
    proof {
        lemma_add_assoc(start, line, visible_label@);
        line = line + visible_label@;
    }
    push_bool(out, w.visible);
    proof {
        lemma_add_assoc(start, line, bool_text(w.visible));
        line = line + bool_text(w.visible);
    }
    out.append(rect_open);
    proof {
        lemma_add_assoc(start, line, rect_open@);
        line = line + rect_open@;
    }
    push_signed_decimal(out, w.rect.left as i64);
    proof {
        lemma_add_assoc(start, line, signed_decimal_text(w.rect.left as int));
        line = line + signed_decimal_text(w.rect.left as int);
    }
    push_char(out, ',');
    proof {
        lemma_add_assoc(start, line, seq![',']);
        line = line + seq![','];
    }
    push_signed_decimal(out, w.rect.top as i64);
    proof {
        lemma_add_assoc(start, line, signed_decimal_text(w.rect.top as int));
        line = line + signed_decimal_text(w.rect.top as int);
    }
    push_char(out, ',');
    proof {
        lemma_add_assoc(start, line, seq![',']);
        line = line + seq![','];
    }
    push_signed_decimal(out, w.rect.right as i64);
    proof {
        lemma_add_assoc(start, line, signed_decimal_text(w.rect.right as int));
        line = line + signed_decimal_text(w.rect.right as int);
    }
    push_char(out, ',');
    proof {
        lemma_add_assoc(start, line, seq![',']);
        line = line + seq![','];
    }
    push_signed_decimal(out, w.rect.bottom as i64);
    proof {
        lemma_add_assoc(start, line, signed_decimal_text(w.rect.bottom as int));
        line = line + signed_decimal_text(w.rect.bottom as int);
    }
    out.append(rect_close);
    proof {
        lemma_add_assoc(start, line, rect_close@);
        line = line + rect_close@;
    }
    out.append("pid=");
    proof {
        lemma_add_assoc(start, line, "pid="@);
        line = line + "pid="@;
    }
    push_decimal(out, w.pid as u64);
    proof {
        lemma_add_assoc(start, line, decimal_text(w.pid as nat));
        line = line + decimal_text(w.pid as nat);
    }
    assert(line == window_listing(*w, visible_label@, rect_open@, rect_close@));
}

} // verus!
