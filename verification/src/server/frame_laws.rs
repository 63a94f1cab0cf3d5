//! What holds of the frames that clients draw.

use vstd::prelude::*;
use crate::cli::words::opt_text;
use crate::server::frame::{
    common_members, extra_members, frame_members, frame_text, list_json, message_shown, opt_member,
    overlay_text, raw_member, text_member, truth, with_bell, with_clipboard, FrameParts, StatusMessage,
};
use crate::text::{decimal, joined, texts};

verus! {

/// A text in the way that JSON has texts.
pub open spec fn between_quotes(s: Seq<char>) -> Seq<char> {
    seq!['"'] + s + seq!['"']
}

/// A truth value in the way that JSON has it.
pub open spec fn yes_or_no(b: bool) -> Seq<char> {
    if b {
        seq!['t', 'r', 'u', 'e']
    } else {
        seq!['f', 'a', 'l', 's', 'e']
    }
}

/// An object that says a value under a name, between what stands before and after.
pub open spec fn saying(
    before: Seq<char>,
    lead: char,
    name: Seq<char>,
    value: Seq<char>,
    after: Seq<char>,
) -> Seq<char> {
    before + seq![lead, '"'] + name + seq!['"', ':'] + value + after
}

/// Whether two frames say two values under a name, and are the same but for that.
pub open spec fn tells(
    f: Seq<char>,
    g: Seq<char>,
    lead: char,
    name: Seq<char>,
    v: Seq<char>,
    w: Seq<char>,
) -> bool {
    exists|before: Seq<char>, after: Seq<char>|
        f == #[trigger] saying(before, lead, name, v, after) && g == saying(before, lead, name, w, after)
}

/// Whether a frame says a value under a name that another one does not have, and is the same but
/// for that.
pub open spec fn adds(f: Seq<char>, g: Seq<char>, name: Seq<char>, w: Seq<char>) -> bool {
    exists|before: Seq<char>, after: Seq<char>|
        f == before + after && g == #[trigger] saying(before, ',', name, w, after)
}

/// Values that differ are told apart: so are the frames.
pub proof fn told_values_are_seen(
    f: Seq<char>,
    g: Seq<char>,
    lead: char,
    name: Seq<char>,
    v: Seq<char>,
    w: Seq<char>,
)
    requires
        tells(f, g, lead, name, v, w),
        v != w,
    ensures
        f != g,
{
    let (before, after) = choose|before: Seq<char>, after: Seq<char>|
        f == #[trigger] saying(before, lead, name, v, after) && g == saying(before, lead, name, w, after);
    if f == g {
        let n = before.len() + 2 + name.len() + 2;
        assert(f.len() == before.len() + 2 + name.len() + 2 + v.len() + after.len());
        assert(g.len() == before.len() + 2 + name.len() + 2 + w.len() + after.len());
        assert(f.subrange(n as int, (n + v.len()) as int) =~= v);
        assert(g.subrange(n as int, (n + w.len()) as int) =~= w);
    }
}

/// Members behind others, each after a comma.
spec fn tail(rest: Seq<Seq<char>>) -> Seq<char>
    decreases rest.len(),
{
    if rest.len() == 0 {
        Seq::empty()
    } else {
        tail(rest.drop_last()) + ","@ + rest.last()
    }
}

proof fn lemma_joined_around(a: Seq<Seq<char>>, i: int)
    requires
        0 < i < a.len(),
    ensures
        joined(a, ","@) == joined(a.take(i), ","@) + ","@ + a[i] + tail(a.skip(i + 1)),
    decreases a.len(),
{
    if i == a.len() - 1 {
        assert(a.drop_last() =~= a.take(i));
        assert(a.skip(i + 1).len() == 0);
        assert(joined(a, ","@) =~= joined(a.take(i), ","@) + ","@ + a[i] + tail(a.skip(i + 1)));
    } else {
        let front = a.drop_last();
        lemma_joined_around(front, i);
        assert(front.take(i) =~= a.take(i));
        assert(a.skip(i + 1).drop_last() =~= front.skip(i + 1));
        assert(a.skip(i + 1).last() == a.last());
        assert(joined(a, ","@) =~= joined(a.take(i), ","@) + ","@ + a[i] + tail(a.skip(i + 1)));
    }
}

proof fn lemma_joined_first(a: Seq<Seq<char>>)
    requires
        a.len() > 0,
    ensures
        joined(a, ","@) == a[0] + tail(a.skip(1)),
    decreases a.len(),
{
    if a.len() == 1 {
        assert(a.skip(1).len() == 0);
        assert(joined(a, ","@) =~= a[0] + tail(a.skip(1)));
    } else {
        lemma_joined_first(a.drop_last());
        assert(a.skip(1).drop_last() =~= a.drop_last().skip(1));
        assert(a.skip(1).last() == a.last());
        assert(joined(a, ","@) =~= a[0] + tail(a.skip(1)));
    }
}

/// Whether two texts are one.
pub open spec fn is_text(a: Seq<char>, b: Seq<char>) -> bool {
    a == b
}

/// An object of members, with what comes behind them.
spec fn object(members: Seq<Seq<char>>, overlay: Seq<char>) -> Seq<char> {
    seq!['{'] + joined(members, ","@) + overlay + seq!['}']
}

/// A member as it stands in an object.
spec fn member(name: Seq<char>, value: Seq<char>) -> Seq<char> {
    seq!['"'] + name + seq!['"', ':'] + value
}

proof fn lemma_tells(
    a: Seq<Seq<char>>,
    b: Seq<Seq<char>>,
    overlay: Seq<char>,
    i: int,
    name: Seq<char>,
    v: Seq<char>,
    w: Seq<char>,
)
    requires
        0 < i < a.len(),
        is_text(a[i], member(name, v)),
        b == a.update(i, member(name, w)),
    ensures
        tells(object(a, overlay), object(b, overlay), ',', name, v, w),
{
    lemma_joined_around(a, i);
    lemma_joined_around(b, i);
    assert(a.take(i) =~= b.take(i));
    assert(a.skip(i + 1) =~= b.skip(i + 1));
    let before = seq!['{'] + joined(a.take(i), ","@);
    let after = tail(a.skip(i + 1)) + overlay + seq!['}'];
    reveal_strlit(",");
    assert(object(a, overlay) =~= saying(before, ',', name, v, after));
    assert(object(b, overlay) =~= saying(before, ',', name, w, after));
}

proof fn lemma_text_member(name: Seq<char>, v: Seq<char>)
    ensures
        is_text(text_member(name, v), member(name, between_quotes(v))),
{
    assert(text_member(name, v) =~= seq!['"'] + name + seq!['"', ':'] + between_quotes(v));
}

proof fn lemma_truth(b: bool)
    ensures
        is_text(truth(b), yes_or_no(b)),
{
    reveal_strlit("true");
    reveal_strlit("false");
    assert(truth(b) =~= yes_or_no(b));
}

/// Whether two lists of as many members are the same but for the value of the one at a place.
#[verifier::opaque]
spec fn walked(
    a: Seq<Seq<char>>,
    b: Seq<Seq<char>>,
    i: int,
    k: int,
    name: Seq<char>,
    v: Seq<char>,
    w: Seq<char>,
) -> bool {
    &&& a.len() == i
    &&& if k < 0 || k >= i {
        a == b
    } else {
        a[k] == member(name, v) && b == a.update(k, member(name, w))
    }
}

proof fn lemma_step(
    a: Seq<Seq<char>>,
    b: Seq<Seq<char>>,
    i: int,
    k: int,
    name: Seq<char>,
    v: Seq<char>,
    w: Seq<char>,
    m: Seq<char>,
    n: Seq<char>,
)
    requires
        walked(a, b, i, k, name, v, w),
        i != k ==> m == n,
        i == k ==> is_text(m, member(name, v)) && is_text(n, member(name, w)),
    ensures
        walked(a.push(m), b.push(n), i + 1, k, name, v, w),
{
    reveal(walked);
    if 0 <= k < i + 1 {
        assert(b.push(n) =~= a.push(m).update(k, member(name, w)));
    }
}

proof fn lemma_steps(
    a: Seq<Seq<char>>,
    b: Seq<Seq<char>>,
    i: int,
    k: int,
    name: Seq<char>,
    v: Seq<char>,
    w: Seq<char>,
    m0: Seq<char>,
    n0: Seq<char>,
    m1: Seq<char>,
    n1: Seq<char>,
    m2: Seq<char>,
    n2: Seq<char>,
    m3: Seq<char>,
    n3: Seq<char>,
    m4: Seq<char>,
    n4: Seq<char>,
    m5: Seq<char>,
    n5: Seq<char>,
    m6: Seq<char>,
    n6: Seq<char>,
    m7: Seq<char>,
    n7: Seq<char>,
)
    requires
        walked(a, b, i, k, name, v, w),
        i + 0 != k ==> is_text(m0, n0),
        i + 0 == k ==> is_text(m0, member(name, v)) && is_text(n0, member(name, w)),
        i + 1 != k ==> is_text(m1, n1),
        i + 1 == k ==> is_text(m1, member(name, v)) && is_text(n1, member(name, w)),
        i + 2 != k ==> is_text(m2, n2),
        i + 2 == k ==> is_text(m2, member(name, v)) && is_text(n2, member(name, w)),
        i + 3 != k ==> is_text(m3, n3),
        i + 3 == k ==> is_text(m3, member(name, v)) && is_text(n3, member(name, w)),
        i + 4 != k ==> is_text(m4, n4),
        i + 4 == k ==> is_text(m4, member(name, v)) && is_text(n4, member(name, w)),
        i + 5 != k ==> is_text(m5, n5),
        i + 5 == k ==> is_text(m5, member(name, v)) && is_text(n5, member(name, w)),
        i + 6 != k ==> is_text(m6, n6),
        i + 6 == k ==> is_text(m6, member(name, v)) && is_text(n6, member(name, w)),
        i + 7 != k ==> is_text(m7, n7),
        i + 7 == k ==> is_text(m7, member(name, v)) && is_text(n7, member(name, w)),
    ensures
        walked(a.push(m0).push(m1).push(m2).push(m3).push(m4).push(m5).push(m6).push(m7), b.push(n0).push(n1).push(n2).push(n3).push(n4).push(n5).push(n6).push(n7), i + 8, k, name, v, w),
{
    lemma_step(a, b, i + 0, k, name, v, w, m0, n0);
    lemma_step(a.push(m0), b.push(n0), i + 1, k, name, v, w, m1, n1);
    lemma_step(a.push(m0).push(m1), b.push(n0).push(n1), i + 2, k, name, v, w, m2, n2);
    lemma_step(a.push(m0).push(m1).push(m2), b.push(n0).push(n1).push(n2), i + 3, k, name, v, w, m3, n3);
    lemma_step(a.push(m0).push(m1).push(m2).push(m3), b.push(n0).push(n1).push(n2).push(n3), i + 4, k, name, v, w, m4, n4);
    lemma_step(a.push(m0).push(m1).push(m2).push(m3).push(m4), b.push(n0).push(n1).push(n2).push(n3).push(n4), i + 5, k, name, v, w, m5, n5);
    lemma_step(a.push(m0).push(m1).push(m2).push(m3).push(m4).push(m5), b.push(n0).push(n1).push(n2).push(n3).push(n4).push(n5), i + 6, k, name, v, w, m6, n6);
    lemma_step(a.push(m0).push(m1).push(m2).push(m3).push(m4).push(m5).push(m6), b.push(n0).push(n1).push(n2).push(n3).push(n4).push(n5).push(n6), i + 7, k, name, v, w, m7, n7);
}

/// Whether these parts are the same but for the one at the place, which has the values.
#[verifier::opaque]
spec fn first_fit(
    p: FrameParts,
    q: FrameParts,
    k: int,
    name: Seq<char>,
    v: Seq<char>,
    w: Seq<char>,
) -> bool {
    &&& !(k == 0) ==> p.layout == q.layout
    &&& (k == 0) ==> is_text(raw_member("layout"@, p.layout@), member(name, v)) && is_text(raw_member("layout"@, q.layout@), member(name, w))
    &&& !(k == 1) ==> p.windows == q.windows
    &&& (k == 1) ==> is_text(raw_member("windows"@, p.windows@), member(name, v)) && is_text(raw_member("windows"@, q.windows@), member(name, w))
    &&& !(k == 2) ==> p.prefix == q.prefix
    &&& (k == 2) ==> is_text(text_member("prefix"@, p.prefix@), member(name, v)) && is_text(text_member("prefix"@, q.prefix@), member(name, w))
    &&& !(k == 3) ==> p.prefix2 == q.prefix2
    &&& (k == 3) ==> is_text(text_member("prefix2"@, p.prefix2@), member(name, v)) && is_text(text_member("prefix2"@, q.prefix2@), member(name, w))
    &&& !(k == 4) ==> p.tree == q.tree
    &&& (k == 4) ==> is_text(raw_member("tree"@, p.tree@), member(name, v)) && is_text(raw_member("tree"@, q.tree@), member(name, w))
    &&& !(k == 5) ==> p.base_index == q.base_index
    &&& (k == 5) ==> is_text(raw_member("base_index"@, decimal(p.base_index as nat)), member(name, v)) && is_text(raw_member("base_index"@, decimal(q.base_index as nat)), member(name, w))
    &&& !(k == 6) ==> p.pane_base_index == q.pane_base_index
    &&& (k == 6) ==> is_text(raw_member("pane_base_index"@, decimal(p.pane_base_index as nat)), member(name, v)) && is_text(raw_member("pane_base_index"@, decimal(q.pane_base_index as nat)), member(name, w))
    &&& !(k == 7) ==> p.prediction_dimming == q.prediction_dimming
    &&& (k == 7) ==> is_text(raw_member("prediction_dimming"@, truth(p.prediction_dimming)), member(name, v)) && is_text(raw_member("prediction_dimming"@, truth(q.prediction_dimming)), member(name, w))
}

#[verifier::opaque]
spec fn first_eight(s: Seq<Seq<char>>, p: FrameParts) -> Seq<Seq<char>> {
    s.push(raw_member("layout"@, p.layout@)).push(raw_member("windows"@, p.windows@)).push(text_member("prefix"@, p.prefix@)).push(text_member("prefix2"@, p.prefix2@)).push(raw_member("tree"@, p.tree@)).push(raw_member("base_index"@, decimal(p.base_index as nat))).push(raw_member("pane_base_index"@, decimal(p.pane_base_index as nat))).push(raw_member("prediction_dimming"@, truth(p.prediction_dimming)))
}

proof fn lemma_first_eight(
    a: Seq<Seq<char>>,
    b: Seq<Seq<char>>,
    p: FrameParts,
    q: FrameParts,
    k: int,
    name: Seq<char>,
    v: Seq<char>,
    w: Seq<char>,
)
    requires
        walked(a, b, 0, k, name, v, w),
        first_fit(p, q, k, name, v, w),
    ensures
        walked(first_eight(a, p), first_eight(b, q), 8, k, name, v, w),
{
    reveal(first_eight);
    reveal(first_fit);
    lemma_steps(
        a,
        b,
        0,
        k,
        name,
        v,
        w,
        raw_member("layout"@, p.layout@),
        raw_member("layout"@, q.layout@),
        raw_member("windows"@, p.windows@),
        raw_member("windows"@, q.windows@),
        text_member("prefix"@, p.prefix@),
        text_member("prefix"@, q.prefix@),
        text_member("prefix2"@, p.prefix2@),
        text_member("prefix2"@, q.prefix2@),
        raw_member("tree"@, p.tree@),
        raw_member("tree"@, q.tree@),
        raw_member("base_index"@, decimal(p.base_index as nat)),
        raw_member("base_index"@, decimal(q.base_index as nat)),
        raw_member("pane_base_index"@, decimal(p.pane_base_index as nat)),
        raw_member("pane_base_index"@, decimal(q.pane_base_index as nat)),
        raw_member("prediction_dimming"@, truth(p.prediction_dimming)),
        raw_member("prediction_dimming"@, truth(q.prediction_dimming)),
    );
}

/// Whether these parts are the same but for the one at the place, which has the values.
#[verifier::opaque]
spec fn second_fit(
    p: FrameParts,
    q: FrameParts,
    k: int,
    name: Seq<char>,
    v: Seq<char>,
    w: Seq<char>,
) -> bool {
    &&& !(k == 8) ==> p.status_style == q.status_style
    &&& (k == 8) ==> is_text(text_member("status_style"@, p.status_style@), member(name, v)) && is_text(text_member("status_style"@, q.status_style@), member(name, w))
    &&& !(k == 9) ==> p.status_left == q.status_left
    &&& (k == 9) ==> is_text(text_member("status_left"@, p.status_left@), member(name, v)) && is_text(text_member("status_left"@, q.status_left@), member(name, w))
    &&& !(k == 10) ==> p.status_right == q.status_right
    &&& (k == 10) ==> is_text(text_member("status_right"@, p.status_right@), member(name, v)) && is_text(text_member("status_right"@, q.status_right@), member(name, w))
    &&& !(k == 11) ==> p.pane_border_style == q.pane_border_style
    &&& (k == 11) ==> is_text(text_member("pane_border_style"@, p.pane_border_style@), member(name, v)) && is_text(text_member("pane_border_style"@, q.pane_border_style@), member(name, w))
    &&& !(k == 12) ==> p.pane_active_border_style == q.pane_active_border_style
    &&& (k == 12) ==> is_text(text_member("pane_active_border_style"@, p.pane_active_border_style@), member(name, v)) && is_text(text_member("pane_active_border_style"@, q.pane_active_border_style@), member(name, w))
    &&& !(k == 13) ==> p.pane_border_hover_style == q.pane_border_hover_style
    &&& (k == 13) ==> is_text(text_member("pane_border_hover_style"@, p.pane_border_hover_style@), member(name, v)) && is_text(text_member("pane_border_hover_style"@, q.pane_border_hover_style@), member(name, w))
    &&& !(k == 14) ==> p.window_status_format == q.window_status_format
    &&& (k == 14) ==> is_text(text_member("wsf"@, p.window_status_format@), member(name, v)) && is_text(text_member("wsf"@, q.window_status_format@), member(name, w))
    &&& !(k == 15) ==> p.window_status_current_format == q.window_status_current_format
    &&& (k == 15) ==> is_text(text_member("wscf"@, p.window_status_current_format@), member(name, v)) && is_text(text_member("wscf"@, q.window_status_current_format@), member(name, w))
}

#[verifier::opaque]
spec fn second_eight(s: Seq<Seq<char>>, p: FrameParts) -> Seq<Seq<char>> {
    s.push(text_member("status_style"@, p.status_style@)).push(text_member("status_left"@, p.status_left@)).push(text_member("status_right"@, p.status_right@)).push(text_member("pane_border_style"@, p.pane_border_style@)).push(text_member("pane_active_border_style"@, p.pane_active_border_style@)).push(text_member("pane_border_hover_style"@, p.pane_border_hover_style@)).push(text_member("wsf"@, p.window_status_format@)).push(text_member("wscf"@, p.window_status_current_format@))
}

proof fn lemma_second_eight(
    a: Seq<Seq<char>>,
    b: Seq<Seq<char>>,
    p: FrameParts,
    q: FrameParts,
    k: int,
    name: Seq<char>,
    v: Seq<char>,
    w: Seq<char>,
)
    requires
        walked(a, b, 8, k, name, v, w),
        second_fit(p, q, k, name, v, w),
    ensures
        walked(second_eight(a, p), second_eight(b, q), 16, k, name, v, w),
{
    reveal(second_eight);
    reveal(second_fit);
    lemma_steps(
        a,
        b,
        8,
        k,
        name,
        v,
        w,
        text_member("status_style"@, p.status_style@),
        text_member("status_style"@, q.status_style@),
        text_member("status_left"@, p.status_left@),
        text_member("status_left"@, q.status_left@),
        text_member("status_right"@, p.status_right@),
        text_member("status_right"@, q.status_right@),
        text_member("pane_border_style"@, p.pane_border_style@),
        text_member("pane_border_style"@, q.pane_border_style@),
        text_member("pane_active_border_style"@, p.pane_active_border_style@),
        text_member("pane_active_border_style"@, q.pane_active_border_style@),
        text_member("pane_border_hover_style"@, p.pane_border_hover_style@),
        text_member("pane_border_hover_style"@, q.pane_border_hover_style@),
        text_member("wsf"@, p.window_status_format@),
        text_member("wsf"@, q.window_status_format@),
        text_member("wscf"@, p.window_status_current_format@),
        text_member("wscf"@, q.window_status_current_format@),
    );
}

/// Whether these parts are the same but for the one at the place, which has the values.
#[verifier::opaque]
spec fn third_fit(
    p: FrameParts,
    q: FrameParts,
    k: int,
    name: Seq<char>,
    v: Seq<char>,
    w: Seq<char>,
) -> bool {
    &&& !(k == 16) ==> p.window_status_separator == q.window_status_separator
    &&& (k == 16) ==> is_text(text_member("wss"@, p.window_status_separator@), member(name, v)) && is_text(text_member("wss"@, q.window_status_separator@), member(name, w))
    &&& !(k == 17) ==> p.window_status_style == q.window_status_style
    &&& (k == 17) ==> is_text(text_member("ws_style"@, p.window_status_style@), member(name, v)) && is_text(text_member("ws_style"@, q.window_status_style@), member(name, w))
    &&& !(k == 18) ==> p.window_status_current_style == q.window_status_current_style
    &&& (k == 18) ==> is_text(text_member("wsc_style"@, p.window_status_current_style@), member(name, v)) && is_text(text_member("wsc_style"@, q.window_status_current_style@), member(name, w))
    &&& !(k == 19) ==> p.clock_mode == q.clock_mode
    &&& (k == 19) ==> is_text(raw_member("clock_mode"@, truth(p.clock_mode)), member(name, v)) && is_text(raw_member("clock_mode"@, truth(q.clock_mode)), member(name, w))
    &&& !(k == 20) ==> p.bindings == q.bindings
    &&& (k == 20) ==> is_text(raw_member("bindings"@, p.bindings@), member(name, v)) && is_text(raw_member("bindings"@, q.bindings@), member(name, w))
    &&& !(k == 21) ==> p.status_left_length == q.status_left_length
    &&& (k == 21) ==> is_text(raw_member("status_left_length"@, decimal(p.status_left_length as nat)), member(name, v)) && is_text(raw_member("status_left_length"@, decimal(q.status_left_length as nat)), member(name, w))
    &&& !(k == 22) ==> p.status_right_length == q.status_right_length
    &&& (k == 22) ==> is_text(raw_member("status_right_length"@, decimal(p.status_right_length as nat)), member(name, v)) && is_text(raw_member("status_right_length"@, decimal(q.status_right_length as nat)), member(name, w))
    &&& !(k == 23) ==> p.status_lines == q.status_lines
    &&& (k == 23) ==> is_text(raw_member("status_lines"@, decimal(p.status_lines as nat)), member(name, v)) && is_text(raw_member("status_lines"@, decimal(q.status_lines as nat)), member(name, w))
}

#[verifier::opaque]
spec fn third_eight(s: Seq<Seq<char>>, p: FrameParts) -> Seq<Seq<char>> {
    s.push(text_member("wss"@, p.window_status_separator@)).push(text_member("ws_style"@, p.window_status_style@)).push(text_member("wsc_style"@, p.window_status_current_style@)).push(raw_member("clock_mode"@, truth(p.clock_mode))).push(raw_member("bindings"@, p.bindings@)).push(raw_member("status_left_length"@, decimal(p.status_left_length as nat))).push(raw_member("status_right_length"@, decimal(p.status_right_length as nat))).push(raw_member("status_lines"@, decimal(p.status_lines as nat)))
}

proof fn lemma_third_eight(
    a: Seq<Seq<char>>,
    b: Seq<Seq<char>>,
    p: FrameParts,
    q: FrameParts,
    k: int,
    name: Seq<char>,
    v: Seq<char>,
    w: Seq<char>,
)
    requires
        walked(a, b, 16, k, name, v, w),
        third_fit(p, q, k, name, v, w),
    ensures
        walked(third_eight(a, p), third_eight(b, q), 24, k, name, v, w),
{
    reveal(third_eight);
    reveal(third_fit);
    lemma_steps(
        a,
        b,
        16,
        k,
        name,
        v,
        w,
        text_member("wss"@, p.window_status_separator@),
        text_member("wss"@, q.window_status_separator@),
        text_member("ws_style"@, p.window_status_style@),
        text_member("ws_style"@, q.window_status_style@),
        text_member("wsc_style"@, p.window_status_current_style@),
        text_member("wsc_style"@, q.window_status_current_style@),
        raw_member("clock_mode"@, truth(p.clock_mode)),
        raw_member("clock_mode"@, truth(q.clock_mode)),
        raw_member("bindings"@, p.bindings@),
        raw_member("bindings"@, q.bindings@),
        raw_member("status_left_length"@, decimal(p.status_left_length as nat)),
        raw_member("status_left_length"@, decimal(q.status_left_length as nat)),
        raw_member("status_right_length"@, decimal(p.status_right_length as nat)),
        raw_member("status_right_length"@, decimal(q.status_right_length as nat)),
        raw_member("status_lines"@, decimal(p.status_lines as nat)),
        raw_member("status_lines"@, decimal(q.status_lines as nat)),
    );
}

/// Whether these parts are the same but for the one at the place, which has the values.
#[verifier::opaque]
spec fn fourth_fit(
    p: FrameParts,
    q: FrameParts,
    k: int,
    name: Seq<char>,
    v: Seq<char>,
    w: Seq<char>,
) -> bool {
    &&& !(k == 24) ==> p.status_format == q.status_format
    &&& (k == 24) ==> is_text(raw_member("status_format"@, list_json(texts(p.status_format@))), member(name, v)) && is_text(raw_member("status_format"@, list_json(texts(q.status_format@))), member(name, w))
    &&& !(k == 25) ==> p.mode_style == q.mode_style
    &&& (k == 25) ==> is_text(text_member("mode_style"@, p.mode_style@), member(name, v)) && is_text(text_member("mode_style"@, q.mode_style@), member(name, w))
    &&& !(k == 26) ==> p.status_position == q.status_position
    &&& (k == 26) ==> is_text(text_member("status_position"@, p.status_position@), member(name, v)) && is_text(text_member("status_position"@, q.status_position@), member(name, w))
    &&& !(k == 27) ==> p.status_justify == q.status_justify
    &&& (k == 27) ==> is_text(text_member("status_justify"@, p.status_justify@), member(name, v)) && is_text(text_member("status_justify"@, q.status_justify@), member(name, w))
    &&& !(k == 28) ==> p.cursor_style_code == q.cursor_style_code
    &&& (k == 28) ==> is_text(raw_member("cursor_style_code"@, decimal(p.cursor_style_code as nat)), member(name, v)) && is_text(raw_member("cursor_style_code"@, decimal(q.cursor_style_code as nat)), member(name, w))
    &&& !(k == 29) ==> p.status_visible == q.status_visible
    &&& (k == 29) ==> is_text(raw_member("status_visible"@, truth(p.status_visible)), member(name, v)) && is_text(raw_member("status_visible"@, truth(q.status_visible)), member(name, w))
    &&& !(k == 30) ==> p.repeat_time == q.repeat_time
    &&& (k == 30) ==> is_text(raw_member("repeat_time"@, decimal(p.repeat_time as nat)), member(name, v)) && is_text(raw_member("repeat_time"@, decimal(q.repeat_time as nat)), member(name, w))
    &&& !(k == 31) ==> p.zoomed == q.zoomed
    &&& (k == 31) ==> is_text(raw_member("zoomed"@, truth(p.zoomed)), member(name, v)) && is_text(raw_member("zoomed"@, truth(q.zoomed)), member(name, w))
}

#[verifier::opaque]
spec fn fourth_eight(s: Seq<Seq<char>>, p: FrameParts) -> Seq<Seq<char>> {
    s.push(raw_member("status_format"@, list_json(texts(p.status_format@)))).push(text_member("mode_style"@, p.mode_style@)).push(text_member("status_position"@, p.status_position@)).push(text_member("status_justify"@, p.status_justify@)).push(raw_member("cursor_style_code"@, decimal(p.cursor_style_code as nat))).push(raw_member("status_visible"@, truth(p.status_visible))).push(raw_member("repeat_time"@, decimal(p.repeat_time as nat))).push(raw_member("zoomed"@, truth(p.zoomed)))
}

proof fn lemma_fourth_eight(
    a: Seq<Seq<char>>,
    b: Seq<Seq<char>>,
    p: FrameParts,
    q: FrameParts,
    k: int,
    name: Seq<char>,
    v: Seq<char>,
    w: Seq<char>,
)
    requires
        walked(a, b, 24, k, name, v, w),
        fourth_fit(p, q, k, name, v, w),
    ensures
        walked(fourth_eight(a, p), fourth_eight(b, q), 32, k, name, v, w),
{
    reveal(fourth_eight);
    reveal(fourth_fit);
    lemma_steps(
        a,
        b,
        24,
        k,
        name,
        v,
        w,
        raw_member("status_format"@, list_json(texts(p.status_format@))),
        raw_member("status_format"@, list_json(texts(q.status_format@))),
        text_member("mode_style"@, p.mode_style@),
        text_member("mode_style"@, q.mode_style@),
        text_member("status_position"@, p.status_position@),
        text_member("status_position"@, q.status_position@),
        text_member("status_justify"@, p.status_justify@),
        text_member("status_justify"@, q.status_justify@),
        raw_member("cursor_style_code"@, decimal(p.cursor_style_code as nat)),
        raw_member("cursor_style_code"@, decimal(q.cursor_style_code as nat)),
        raw_member("status_visible"@, truth(p.status_visible)),
        raw_member("status_visible"@, truth(q.status_visible)),
        raw_member("repeat_time"@, decimal(p.repeat_time as nat)),
        raw_member("repeat_time"@, decimal(q.repeat_time as nat)),
        raw_member("zoomed"@, truth(p.zoomed)),
        raw_member("zoomed"@, truth(q.zoomed)),
    );
}

/// Whether these parts are the same but for the one at the place, which has the values.
#[verifier::opaque]
spec fn last_fit(
    p: FrameParts,
    q: FrameParts,
    pushed: bool,
    k: int,
    name: Seq<char>,
    v: Seq<char>,
    w: Seq<char>,
) -> bool {
    &&& !(!pushed && k == 32) ==> p.defaults_suppressed == q.defaults_suppressed
    &&& (!pushed && k == 32) ==> is_text(raw_member("defaults_suppressed"@, truth(p.defaults_suppressed)), member(name, v)) && is_text(raw_member("defaults_suppressed"@, truth(q.defaults_suppressed)), member(name, w))
    &&& !(k == (if pushed {
            32int
        } else {
            33
        })) ==> p.pwsh_mouse_selection == q.pwsh_mouse_selection
    &&& (k == (if pushed {
            32int
        } else {
            33
        })) ==> is_text(raw_member("pwsh_mouse_selection"@, truth(p.pwsh_mouse_selection)), member(name, v)) && is_text(raw_member("pwsh_mouse_selection"@, truth(q.pwsh_mouse_selection)), member(name, w))
    &&& !(k == (if pushed {
            33int
        } else {
            34
        })) ==> p.mouse_selection == q.mouse_selection
    &&& (k == (if pushed {
            33int
        } else {
            34
        })) ==> is_text(raw_member("mouse_selection"@, truth(p.mouse_selection)), member(name, v)) && is_text(raw_member("mouse_selection"@, truth(q.mouse_selection)), member(name, w))
    &&& !(!pushed && k == 35) ==> p.paste_detection == q.paste_detection
    &&& (!pushed && k == 35) ==> is_text(raw_member("paste_detection"@, truth(p.paste_detection)), member(name, v)) && is_text(raw_member("paste_detection"@, truth(q.paste_detection)), member(name, w))
    &&& !(k == (if pushed {
            34int
        } else {
            36
        })) ==> p.choose_tree_preview == q.choose_tree_preview
    &&& (k == (if pushed {
            34int
        } else {
            36
        })) ==> is_text(raw_member("choose_tree_preview"@, truth(p.choose_tree_preview)), member(name, v)) && is_text(raw_member("choose_tree_preview"@, truth(q.choose_tree_preview)), member(name, w))
    &&& !(k == (if pushed {
            35int
        } else {
            37
        })) ==> p.scroll_enter_copy_mode == q.scroll_enter_copy_mode
    &&& (k == (if pushed {
            35int
        } else {
            37
        })) ==> is_text(raw_member("scroll_enter_copy_mode"@, truth(p.scroll_enter_copy_mode)), member(name, v)) && is_text(raw_member("scroll_enter_copy_mode"@, truth(q.scroll_enter_copy_mode)), member(name, w))
}

#[verifier::opaque]
spec fn last_members(s: Seq<Seq<char>>, p: FrameParts, pushed: bool) -> Seq<Seq<char>> {
    if pushed {
        s.push(raw_member("pwsh_mouse_selection"@, truth(p.pwsh_mouse_selection))).push(raw_member("mouse_selection"@, truth(p.mouse_selection))).push(raw_member("choose_tree_preview"@, truth(p.choose_tree_preview))).push(raw_member("scroll_enter_copy_mode"@, truth(p.scroll_enter_copy_mode)))
    } else {
        s.push(raw_member("defaults_suppressed"@, truth(p.defaults_suppressed))).push(raw_member("pwsh_mouse_selection"@, truth(p.pwsh_mouse_selection))).push(raw_member("mouse_selection"@, truth(p.mouse_selection))).push(raw_member("paste_detection"@, truth(p.paste_detection))).push(raw_member("choose_tree_preview"@, truth(p.choose_tree_preview))).push(raw_member("scroll_enter_copy_mode"@, truth(p.scroll_enter_copy_mode)))
    }
}

proof fn lemma_last_members(
    a: Seq<Seq<char>>,
    b: Seq<Seq<char>>,
    p: FrameParts,
    q: FrameParts,
    pushed: bool,
    k: int,
    name: Seq<char>,
    v: Seq<char>,
    w: Seq<char>,
)
    requires
        walked(a, b, 32, k, name, v, w),
        last_fit(p, q, pushed, k, name, v, w),
    ensures
        walked(
            last_members(a, p, pushed),
            last_members(b, q, pushed),
            if pushed {
                36
            } else {
                38
            },
            k,
            name,
            v,
            w,
        ),
{
    reveal(last_members);
    reveal(last_fit);
    if pushed {
        lemma_step(a, b, 32, k, name, v, w, raw_member("pwsh_mouse_selection"@, truth(p.pwsh_mouse_selection)), raw_member("pwsh_mouse_selection"@, truth(q.pwsh_mouse_selection)));
        lemma_step(a.push(raw_member("pwsh_mouse_selection"@, truth(p.pwsh_mouse_selection))), b.push(raw_member("pwsh_mouse_selection"@, truth(q.pwsh_mouse_selection))), 33, k, name, v, w, raw_member("mouse_selection"@, truth(p.mouse_selection)), raw_member("mouse_selection"@, truth(q.mouse_selection)));
        lemma_step(a.push(raw_member("pwsh_mouse_selection"@, truth(p.pwsh_mouse_selection))).push(raw_member("mouse_selection"@, truth(p.mouse_selection))), b.push(raw_member("pwsh_mouse_selection"@, truth(q.pwsh_mouse_selection))).push(raw_member("mouse_selection"@, truth(q.mouse_selection))), 34, k, name, v, w, raw_member("choose_tree_preview"@, truth(p.choose_tree_preview)), raw_member("choose_tree_preview"@, truth(q.choose_tree_preview)));
        lemma_step(a.push(raw_member("pwsh_mouse_selection"@, truth(p.pwsh_mouse_selection))).push(raw_member("mouse_selection"@, truth(p.mouse_selection))).push(raw_member("choose_tree_preview"@, truth(p.choose_tree_preview))), b.push(raw_member("pwsh_mouse_selection"@, truth(q.pwsh_mouse_selection))).push(raw_member("mouse_selection"@, truth(q.mouse_selection))).push(raw_member("choose_tree_preview"@, truth(q.choose_tree_preview))), 35, k, name, v, w, raw_member("scroll_enter_copy_mode"@, truth(p.scroll_enter_copy_mode)), raw_member("scroll_enter_copy_mode"@, truth(q.scroll_enter_copy_mode)));
    } else {
        lemma_step(a, b, 32, k, name, v, w, raw_member("defaults_suppressed"@, truth(p.defaults_suppressed)), raw_member("defaults_suppressed"@, truth(q.defaults_suppressed)));
        lemma_step(a.push(raw_member("defaults_suppressed"@, truth(p.defaults_suppressed))), b.push(raw_member("defaults_suppressed"@, truth(q.defaults_suppressed))), 33, k, name, v, w, raw_member("pwsh_mouse_selection"@, truth(p.pwsh_mouse_selection)), raw_member("pwsh_mouse_selection"@, truth(q.pwsh_mouse_selection)));
        lemma_step(a.push(raw_member("defaults_suppressed"@, truth(p.defaults_suppressed))).push(raw_member("pwsh_mouse_selection"@, truth(p.pwsh_mouse_selection))), b.push(raw_member("defaults_suppressed"@, truth(q.defaults_suppressed))).push(raw_member("pwsh_mouse_selection"@, truth(q.pwsh_mouse_selection))), 34, k, name, v, w, raw_member("mouse_selection"@, truth(p.mouse_selection)), raw_member("mouse_selection"@, truth(q.mouse_selection)));
        lemma_step(a.push(raw_member("defaults_suppressed"@, truth(p.defaults_suppressed))).push(raw_member("pwsh_mouse_selection"@, truth(p.pwsh_mouse_selection))).push(raw_member("mouse_selection"@, truth(p.mouse_selection))), b.push(raw_member("defaults_suppressed"@, truth(q.defaults_suppressed))).push(raw_member("pwsh_mouse_selection"@, truth(q.pwsh_mouse_selection))).push(raw_member("mouse_selection"@, truth(q.mouse_selection))), 35, k, name, v, w, raw_member("paste_detection"@, truth(p.paste_detection)), raw_member("paste_detection"@, truth(q.paste_detection)));
        lemma_step(a.push(raw_member("defaults_suppressed"@, truth(p.defaults_suppressed))).push(raw_member("pwsh_mouse_selection"@, truth(p.pwsh_mouse_selection))).push(raw_member("mouse_selection"@, truth(p.mouse_selection))).push(raw_member("paste_detection"@, truth(p.paste_detection))), b.push(raw_member("defaults_suppressed"@, truth(q.defaults_suppressed))).push(raw_member("pwsh_mouse_selection"@, truth(q.pwsh_mouse_selection))).push(raw_member("mouse_selection"@, truth(q.mouse_selection))).push(raw_member("paste_detection"@, truth(q.paste_detection))), 36, k, name, v, w, raw_member("choose_tree_preview"@, truth(p.choose_tree_preview)), raw_member("choose_tree_preview"@, truth(q.choose_tree_preview)));
        lemma_step(a.push(raw_member("defaults_suppressed"@, truth(p.defaults_suppressed))).push(raw_member("pwsh_mouse_selection"@, truth(p.pwsh_mouse_selection))).push(raw_member("mouse_selection"@, truth(p.mouse_selection))).push(raw_member("paste_detection"@, truth(p.paste_detection))).push(raw_member("choose_tree_preview"@, truth(p.choose_tree_preview))), b.push(raw_member("defaults_suppressed"@, truth(q.defaults_suppressed))).push(raw_member("pwsh_mouse_selection"@, truth(q.pwsh_mouse_selection))).push(raw_member("mouse_selection"@, truth(q.mouse_selection))).push(raw_member("paste_detection"@, truth(q.paste_detection))).push(raw_member("choose_tree_preview"@, truth(q.choose_tree_preview))), 37, k, name, v, w, raw_member("scroll_enter_copy_mode"@, truth(p.scroll_enter_copy_mode)), raw_member("scroll_enter_copy_mode"@, truth(q.scroll_enter_copy_mode)));
    }
}

proof fn lemma_common_is(p: FrameParts)
    ensures
        is_list(
            common_members(p),
            fourth_eight(third_eight(second_eight(first_eight(Seq::empty(), p), p), p), p),
        ),
{
    reveal(first_eight);
    reveal(second_eight);
    reveal(third_eight);
    reveal(fourth_eight);
}

proof fn lemma_all_is(p: FrameParts, pushed: bool)
    ensures
        is_list(frame_members(p, pushed), last_members(common_members(p), p, pushed)),
{
    reveal(last_members);
}

/// Walks through the members of two frames that differ in one part at most.
#[verifier::spinoff_prover]
proof fn lemma_walk(
    p: FrameParts,
    q: FrameParts,
    pushed: bool,
    k: int,
    name: Seq<char>,
    v: Seq<char>,
    w: Seq<char>,
)
    requires
        first_fit(p, q, k, name, v, w),
        second_fit(p, q, k, name, v, w),
        third_fit(p, q, k, name, v, w),
        fourth_fit(p, q, k, name, v, w),
        last_fit(p, q, pushed, k, name, v, w),
    ensures
        walked(
            frame_members(p, pushed),
            frame_members(q, pushed),
            if pushed {
                36
            } else {
                38
            },
            k,
            name,
            v,
            w,
        ),
{
    let none = Seq::<Seq<char>>::empty();
    assert(walked(none, none, 0, k, name, v, w)) by {
        reveal(walked);
    }
    lemma_first_eight(none, none, p, q, k, name, v, w);
    let a = first_eight(none, p);
    let b = first_eight(none, q);
    lemma_second_eight(a, b, p, q, k, name, v, w);
    let c = second_eight(a, p);
    let d = second_eight(b, q);
    lemma_third_eight(c, d, p, q, k, name, v, w);
    let e = third_eight(c, p);
    let f = third_eight(d, q);
    lemma_fourth_eight(e, f, p, q, k, name, v, w);
    lemma_common_is(p);
    lemma_common_is(q);
    lemma_last_members(common_members(p), common_members(q), p, q, pushed, k, name, v, w);
    lemma_all_is(p, pushed);
    lemma_all_is(q, pushed);
}

proof fn lemma_frame(
    p: FrameParts,
    q: FrameParts,
    pushed: bool,
    k: int,
    name: Seq<char>,
    v: Seq<char>,
    w: Seq<char>,
)
    requires
        walked(
            frame_members(p, pushed),
            frame_members(q, pushed),
            if pushed {
                36
            } else {
                38
            },
            k,
            name,
            v,
            w,
        ),
        0 < k < (if pushed {
            36int
        } else {
            38
        }),
        p.overlay == q.overlay,
        is_list(extra_members(p), extra_members(q)),
    ensures
        tells(frame_text(p, pushed), frame_text(q, pushed), ',', name, v, w),
{
    lemma_frame_of(
        frame_members(p, pushed),
        frame_members(q, pushed),
        extra_members(p),
        p.overlay@,
        if pushed {
            36
        } else {
            38
        },
        k,
        name,
        v,
        w,
    );
}

proof fn lemma_frame_of(
    a: Seq<Seq<char>>,
    b: Seq<Seq<char>>,
    more: Seq<Seq<char>>,
    overlay: Seq<char>,
    i: int,
    k: int,
    name: Seq<char>,
    v: Seq<char>,
    w: Seq<char>,
)
    requires
        walked(a, b, i, k, name, v, w),
        0 <= k < i,
    ensures
        k > 0 ==> tells(object(a + more, overlay), object(b + more, overlay), ',', name, v, w),
        k == 0 ==> exists|after: Seq<char>|
            object(a + more, overlay) == #[trigger] saying(Seq::empty(), '{', name, v, after) && object(
                b + more,
                overlay,
            ) == saying(Seq::empty(), '{', name, w, after),
{
    reveal(walked);
    let c = a + more;
    let d = b + more;
    assert(d =~= c.update(k, member(name, w)));
    if k > 0 {
        lemma_tells(c, d, overlay, k, name, v, w);
    } else {
        assert(c.skip(1) =~= d.skip(1));
        lemma_joined_first(c);
        lemma_joined_first(d);
        let after = tail(c.skip(1)) + overlay + seq!['}'];
        assert(object(c, overlay) =~= saying(Seq::empty(), '{', name, v, after));
        assert(object(d, overlay) =~= saying(Seq::empty(), '{', name, w, after));
    }
}

/// Whether two lists are one.
spec fn is_list(a: Seq<Seq<char>>, b: Seq<Seq<char>>) -> bool {
    a == b
}

proof fn lemma_same(p: FrameParts, q: FrameParts, pushed: bool)
    requires
        p.layout == q.layout,
        p.windows == q.windows,
        p.prefix == q.prefix,
        p.prefix2 == q.prefix2,
        p.tree == q.tree,
        p.base_index == q.base_index,
        p.pane_base_index == q.pane_base_index,
        p.prediction_dimming == q.prediction_dimming,
        p.status_style == q.status_style,
        p.status_left == q.status_left,
        p.status_right == q.status_right,
        p.pane_border_style == q.pane_border_style,
        p.pane_active_border_style == q.pane_active_border_style,
        p.pane_border_hover_style == q.pane_border_hover_style,
        p.window_status_format == q.window_status_format,
        p.window_status_current_format == q.window_status_current_format,
        p.window_status_separator == q.window_status_separator,
        p.window_status_style == q.window_status_style,
        p.window_status_current_style == q.window_status_current_style,
        p.clock_mode == q.clock_mode,
        p.bindings == q.bindings,
        p.status_left_length == q.status_left_length,
        p.status_right_length == q.status_right_length,
        p.status_lines == q.status_lines,
        p.status_format == q.status_format,
        p.mode_style == q.mode_style,
        p.status_position == q.status_position,
        p.status_justify == q.status_justify,
        p.cursor_style_code == q.cursor_style_code,
        p.status_visible == q.status_visible,
        p.repeat_time == q.repeat_time,
        p.zoomed == q.zoomed,
        p.defaults_suppressed == q.defaults_suppressed,
        p.pwsh_mouse_selection == q.pwsh_mouse_selection,
        p.mouse_selection == q.mouse_selection,
        p.paste_detection == q.paste_detection,
        p.choose_tree_preview == q.choose_tree_preview,
        p.scroll_enter_copy_mode == q.scroll_enter_copy_mode,
    ensures
        is_list(frame_members(p, pushed), frame_members(q, pushed)),
        frame_members(p, pushed).len() == (if pushed {
            36int
        } else {
            38
        }),
{
    reveal(first_fit);
    reveal(second_fit);
    reveal(third_fit);
    reveal(fourth_fit);
    reveal(last_fit);
    lemma_walk(p, q, pushed, -1, Seq::empty(), Seq::empty(), Seq::empty());
    reveal(walked);
}

proof fn lemma_windows(p: FrameParts, other: FrameParts, pushed: bool)
    ensures
        ({
            let q = FrameParts { windows: other.windows, ..p };
            tells(
                frame_text(p, pushed),
                frame_text(q, pushed),
                ',',
                "windows"@,
                p.windows@,
                q.windows@,
            )
        }),
{
    let q = FrameParts { windows: other.windows, ..p };
    let i = 1;
    reveal(first_fit);
    reveal(second_fit);
    reveal(third_fit);
    reveal(fourth_fit);
    reveal(last_fit);
    lemma_walk(p, q, pushed, i, "windows"@, p.windows@, q.windows@);
    lemma_frame(p, q, pushed, i, "windows"@, p.windows@, q.windows@);
}

proof fn lemma_prefix(p: FrameParts, other: FrameParts, pushed: bool)
    ensures
        ({
            let q = FrameParts { prefix: other.prefix, ..p };
            tells(
                frame_text(p, pushed),
                frame_text(q, pushed),
                ',',
                "prefix"@,
                between_quotes(p.prefix@),
                between_quotes(q.prefix@),
            )
        }),
{
    let q = FrameParts { prefix: other.prefix, ..p };
    let i = 2;
    lemma_text_member("prefix"@, p.prefix@);
    lemma_text_member("prefix"@, q.prefix@);
    reveal(first_fit);
    reveal(second_fit);
    reveal(third_fit);
    reveal(fourth_fit);
    reveal(last_fit);
    lemma_walk(p, q, pushed, i, "prefix"@, between_quotes(p.prefix@), between_quotes(q.prefix@));
    lemma_frame(p, q, pushed, i, "prefix"@, between_quotes(p.prefix@), between_quotes(q.prefix@));
}

proof fn lemma_prefix2(p: FrameParts, other: FrameParts, pushed: bool)
    ensures
        ({
            let q = FrameParts { prefix2: other.prefix2, ..p };
            tells(
                frame_text(p, pushed),
                frame_text(q, pushed),
                ',',
                "prefix2"@,
                between_quotes(p.prefix2@),
                between_quotes(q.prefix2@),
            )
        }),
{
    let q = FrameParts { prefix2: other.prefix2, ..p };
    let i = 3;
    lemma_text_member("prefix2"@, p.prefix2@);
    lemma_text_member("prefix2"@, q.prefix2@);
    reveal(first_fit);
    reveal(second_fit);
    reveal(third_fit);
    reveal(fourth_fit);
    reveal(last_fit);
    lemma_walk(p, q, pushed, i, "prefix2"@, between_quotes(p.prefix2@), between_quotes(q.prefix2@));
    lemma_frame(p, q, pushed, i, "prefix2"@, between_quotes(p.prefix2@), between_quotes(q.prefix2@));
}

proof fn lemma_tree(p: FrameParts, other: FrameParts, pushed: bool)
    ensures
        ({
            let q = FrameParts { tree: other.tree, ..p };
            tells(
                frame_text(p, pushed),
                frame_text(q, pushed),
                ',',
                "tree"@,
                p.tree@,
                q.tree@,
            )
        }),
{
    let q = FrameParts { tree: other.tree, ..p };
    let i = 4;
    reveal(first_fit);
    reveal(second_fit);
    reveal(third_fit);
    reveal(fourth_fit);
    reveal(last_fit);
    lemma_walk(p, q, pushed, i, "tree"@, p.tree@, q.tree@);
    lemma_frame(p, q, pushed, i, "tree"@, p.tree@, q.tree@);
}

proof fn lemma_base_index(p: FrameParts, other: FrameParts, pushed: bool)
    ensures
        ({
            let q = FrameParts { base_index: other.base_index, ..p };
            tells(
                frame_text(p, pushed),
                frame_text(q, pushed),
                ',',
                "base_index"@,
                decimal(p.base_index as nat),
                decimal(q.base_index as nat),
            )
        }),
{
    let q = FrameParts { base_index: other.base_index, ..p };
    let i = 5;
    reveal(first_fit);
    reveal(second_fit);
    reveal(third_fit);
    reveal(fourth_fit);
    reveal(last_fit);
    lemma_walk(p, q, pushed, i, "base_index"@, decimal(p.base_index as nat), decimal(q.base_index as nat));
    lemma_frame(p, q, pushed, i, "base_index"@, decimal(p.base_index as nat), decimal(q.base_index as nat));
}

proof fn lemma_pane_base_index(p: FrameParts, other: FrameParts, pushed: bool)
    ensures
        ({
            let q = FrameParts { pane_base_index: other.pane_base_index, ..p };
            tells(
                frame_text(p, pushed),
                frame_text(q, pushed),
                ',',
                "pane_base_index"@,
                decimal(p.pane_base_index as nat),
                decimal(q.pane_base_index as nat),
            )
        }),
{
    let q = FrameParts { pane_base_index: other.pane_base_index, ..p };
    let i = 6;
    reveal(first_fit);
    reveal(second_fit);
    reveal(third_fit);
    reveal(fourth_fit);
    reveal(last_fit);
    lemma_walk(p, q, pushed, i, "pane_base_index"@, decimal(p.pane_base_index as nat), decimal(q.pane_base_index as nat));
    lemma_frame(p, q, pushed, i, "pane_base_index"@, decimal(p.pane_base_index as nat), decimal(q.pane_base_index as nat));
}

proof fn lemma_prediction_dimming(p: FrameParts, other: FrameParts, pushed: bool)
    ensures
        ({
            let q = FrameParts { prediction_dimming: other.prediction_dimming, ..p };
            tells(
                frame_text(p, pushed),
                frame_text(q, pushed),
                ',',
                "prediction_dimming"@,
                yes_or_no(p.prediction_dimming),
                yes_or_no(q.prediction_dimming),
            )
        }),
{
    let q = FrameParts { prediction_dimming: other.prediction_dimming, ..p };
    let i = 7;
    lemma_truth(p.prediction_dimming);
    lemma_truth(q.prediction_dimming);
    reveal(first_fit);
    reveal(second_fit);
    reveal(third_fit);
    reveal(fourth_fit);
    reveal(last_fit);
    lemma_walk(p, q, pushed, i, "prediction_dimming"@, yes_or_no(p.prediction_dimming), yes_or_no(q.prediction_dimming));
    lemma_frame(p, q, pushed, i, "prediction_dimming"@, yes_or_no(p.prediction_dimming), yes_or_no(q.prediction_dimming));
}

proof fn lemma_status_style(p: FrameParts, other: FrameParts, pushed: bool)
    ensures
        ({
            let q = FrameParts { status_style: other.status_style, ..p };
            tells(
                frame_text(p, pushed),
                frame_text(q, pushed),
                ',',
                "status_style"@,
                between_quotes(p.status_style@),
                between_quotes(q.status_style@),
            )
        }),
{
    let q = FrameParts { status_style: other.status_style, ..p };
    let i = 8;
    lemma_text_member("status_style"@, p.status_style@);
    lemma_text_member("status_style"@, q.status_style@);
    reveal(first_fit);
    reveal(second_fit);
    reveal(third_fit);
    reveal(fourth_fit);
    reveal(last_fit);
    lemma_walk(p, q, pushed, i, "status_style"@, between_quotes(p.status_style@), between_quotes(q.status_style@));
    lemma_frame(p, q, pushed, i, "status_style"@, between_quotes(p.status_style@), between_quotes(q.status_style@));
}

proof fn lemma_status_left(p: FrameParts, other: FrameParts, pushed: bool)
    ensures
        ({
            let q = FrameParts { status_left: other.status_left, ..p };
            tells(
                frame_text(p, pushed),
                frame_text(q, pushed),
                ',',
                "status_left"@,
                between_quotes(p.status_left@),
                between_quotes(q.status_left@),
            )
        }),
{
    let q = FrameParts { status_left: other.status_left, ..p };
    let i = 9;
    lemma_text_member("status_left"@, p.status_left@);
    lemma_text_member("status_left"@, q.status_left@);
    reveal(first_fit);
    reveal(second_fit);
    reveal(third_fit);
    reveal(fourth_fit);
    reveal(last_fit);
    lemma_walk(p, q, pushed, i, "status_left"@, between_quotes(p.status_left@), between_quotes(q.status_left@));
    lemma_frame(p, q, pushed, i, "status_left"@, between_quotes(p.status_left@), between_quotes(q.status_left@));
}

proof fn lemma_status_right(p: FrameParts, other: FrameParts, pushed: bool)
    ensures
        ({
            let q = FrameParts { status_right: other.status_right, ..p };
            tells(
                frame_text(p, pushed),
                frame_text(q, pushed),
                ',',
                "status_right"@,
                between_quotes(p.status_right@),
                between_quotes(q.status_right@),
            )
        }),
{
    let q = FrameParts { status_right: other.status_right, ..p };
    let i = 10;
    lemma_text_member("status_right"@, p.status_right@);
    lemma_text_member("status_right"@, q.status_right@);
    reveal(first_fit);
    reveal(second_fit);
    reveal(third_fit);
    reveal(fourth_fit);
    reveal(last_fit);
    lemma_walk(p, q, pushed, i, "status_right"@, between_quotes(p.status_right@), between_quotes(q.status_right@));
    lemma_frame(p, q, pushed, i, "status_right"@, between_quotes(p.status_right@), between_quotes(q.status_right@));
}

proof fn lemma_pane_border_style(p: FrameParts, other: FrameParts, pushed: bool)
    ensures
        ({
            let q = FrameParts { pane_border_style: other.pane_border_style, ..p };
            tells(
                frame_text(p, pushed),
                frame_text(q, pushed),
                ',',
                "pane_border_style"@,
                between_quotes(p.pane_border_style@),
                between_quotes(q.pane_border_style@),
            )
        }),
{
    let q = FrameParts { pane_border_style: other.pane_border_style, ..p };
    let i = 11;
    lemma_text_member("pane_border_style"@, p.pane_border_style@);
    lemma_text_member("pane_border_style"@, q.pane_border_style@);
    reveal(first_fit);
    reveal(second_fit);
    reveal(third_fit);
    reveal(fourth_fit);
    reveal(last_fit);
    lemma_walk(p, q, pushed, i, "pane_border_style"@, between_quotes(p.pane_border_style@), between_quotes(q.pane_border_style@));
    lemma_frame(p, q, pushed, i, "pane_border_style"@, between_quotes(p.pane_border_style@), between_quotes(q.pane_border_style@));
}

proof fn lemma_pane_active_border_style(p: FrameParts, other: FrameParts, pushed: bool)
    ensures
        ({
            let q = FrameParts { pane_active_border_style: other.pane_active_border_style, ..p };
            tells(
                frame_text(p, pushed),
                frame_text(q, pushed),
                ',',
                "pane_active_border_style"@,
                between_quotes(p.pane_active_border_style@),
                between_quotes(q.pane_active_border_style@),
            )
        }),
{
    let q = FrameParts { pane_active_border_style: other.pane_active_border_style, ..p };
    let i = 12;
    lemma_text_member("pane_active_border_style"@, p.pane_active_border_style@);
    lemma_text_member("pane_active_border_style"@, q.pane_active_border_style@);
    reveal(first_fit);
    reveal(second_fit);
    reveal(third_fit);
    reveal(fourth_fit);
    reveal(last_fit);
    lemma_walk(p, q, pushed, i, "pane_active_border_style"@, between_quotes(p.pane_active_border_style@), between_quotes(q.pane_active_border_style@));
    lemma_frame(p, q, pushed, i, "pane_active_border_style"@, between_quotes(p.pane_active_border_style@), between_quotes(q.pane_active_border_style@));
}

proof fn lemma_pane_border_hover_style(p: FrameParts, other: FrameParts, pushed: bool)
    ensures
        ({
            let q = FrameParts { pane_border_hover_style: other.pane_border_hover_style, ..p };
            tells(
                frame_text(p, pushed),
                frame_text(q, pushed),
                ',',
                "pane_border_hover_style"@,
                between_quotes(p.pane_border_hover_style@),
                between_quotes(q.pane_border_hover_style@),
            )
        }),
{
    let q = FrameParts { pane_border_hover_style: other.pane_border_hover_style, ..p };
    let i = 13;
    lemma_text_member("pane_border_hover_style"@, p.pane_border_hover_style@);
    lemma_text_member("pane_border_hover_style"@, q.pane_border_hover_style@);
    reveal(first_fit);
    reveal(second_fit);
    reveal(third_fit);
    reveal(fourth_fit);
    reveal(last_fit);
    lemma_walk(p, q, pushed, i, "pane_border_hover_style"@, between_quotes(p.pane_border_hover_style@), between_quotes(q.pane_border_hover_style@));
    lemma_frame(p, q, pushed, i, "pane_border_hover_style"@, between_quotes(p.pane_border_hover_style@), between_quotes(q.pane_border_hover_style@));
}

proof fn lemma_window_status_format(p: FrameParts, other: FrameParts, pushed: bool)
    ensures
        ({
            let q = FrameParts { window_status_format: other.window_status_format, ..p };
            tells(
                frame_text(p, pushed),
                frame_text(q, pushed),
                ',',
                "wsf"@,
                between_quotes(p.window_status_format@),
                between_quotes(q.window_status_format@),
            )
        }),
{
    let q = FrameParts { window_status_format: other.window_status_format, ..p };
    let i = 14;
    lemma_text_member("wsf"@, p.window_status_format@);
    lemma_text_member("wsf"@, q.window_status_format@);
    reveal(first_fit);
    reveal(second_fit);
    reveal(third_fit);
    reveal(fourth_fit);
    reveal(last_fit);
    lemma_walk(p, q, pushed, i, "wsf"@, between_quotes(p.window_status_format@), between_quotes(q.window_status_format@));
    lemma_frame(p, q, pushed, i, "wsf"@, between_quotes(p.window_status_format@), between_quotes(q.window_status_format@));
}

proof fn lemma_window_status_current_format(p: FrameParts, other: FrameParts, pushed: bool)
    ensures
        ({
            let q = FrameParts { window_status_current_format: other.window_status_current_format, ..p };
            tells(
                frame_text(p, pushed),
                frame_text(q, pushed),
                ',',
                "wscf"@,
                between_quotes(p.window_status_current_format@),
                between_quotes(q.window_status_current_format@),
            )
        }),
{
    let q = FrameParts { window_status_current_format: other.window_status_current_format, ..p };
    let i = 15;
    lemma_text_member("wscf"@, p.window_status_current_format@);
    lemma_text_member("wscf"@, q.window_status_current_format@);
    reveal(first_fit);
    reveal(second_fit);
    reveal(third_fit);
    reveal(fourth_fit);
    reveal(last_fit);
    lemma_walk(p, q, pushed, i, "wscf"@, between_quotes(p.window_status_current_format@), between_quotes(q.window_status_current_format@));
    lemma_frame(p, q, pushed, i, "wscf"@, between_quotes(p.window_status_current_format@), between_quotes(q.window_status_current_format@));
}

proof fn lemma_window_status_separator(p: FrameParts, other: FrameParts, pushed: bool)
    ensures
        ({
            let q = FrameParts { window_status_separator: other.window_status_separator, ..p };
            tells(
                frame_text(p, pushed),
                frame_text(q, pushed),
                ',',
                "wss"@,
                between_quotes(p.window_status_separator@),
                between_quotes(q.window_status_separator@),
            )
        }),
{
    let q = FrameParts { window_status_separator: other.window_status_separator, ..p };
    let i = 16;
    lemma_text_member("wss"@, p.window_status_separator@);
    lemma_text_member("wss"@, q.window_status_separator@);
    reveal(first_fit);
    reveal(second_fit);
    reveal(third_fit);
    reveal(fourth_fit);
    reveal(last_fit);
    lemma_walk(p, q, pushed, i, "wss"@, between_quotes(p.window_status_separator@), between_quotes(q.window_status_separator@));
    lemma_frame(p, q, pushed, i, "wss"@, between_quotes(p.window_status_separator@), between_quotes(q.window_status_separator@));
}

proof fn lemma_window_status_style(p: FrameParts, other: FrameParts, pushed: bool)
    ensures
        ({
            let q = FrameParts { window_status_style: other.window_status_style, ..p };
            tells(
                frame_text(p, pushed),
                frame_text(q, pushed),
                ',',
                "ws_style"@,
                between_quotes(p.window_status_style@),
                between_quotes(q.window_status_style@),
            )
        }),
{
    let q = FrameParts { window_status_style: other.window_status_style, ..p };
    let i = 17;
    lemma_text_member("ws_style"@, p.window_status_style@);
    lemma_text_member("ws_style"@, q.window_status_style@);
    reveal(first_fit);
    reveal(second_fit);
    reveal(third_fit);
    reveal(fourth_fit);
    reveal(last_fit);
    lemma_walk(p, q, pushed, i, "ws_style"@, between_quotes(p.window_status_style@), between_quotes(q.window_status_style@));
    lemma_frame(p, q, pushed, i, "ws_style"@, between_quotes(p.window_status_style@), between_quotes(q.window_status_style@));
}

proof fn lemma_window_status_current_style(p: FrameParts, other: FrameParts, pushed: bool)
    ensures
        ({
            let q = FrameParts { window_status_current_style: other.window_status_current_style, ..p };
            tells(
                frame_text(p, pushed),
                frame_text(q, pushed),
                ',',
                "wsc_style"@,
                between_quotes(p.window_status_current_style@),
                between_quotes(q.window_status_current_style@),
            )
        }),
{
    let q = FrameParts { window_status_current_style: other.window_status_current_style, ..p };
    let i = 18;
    lemma_text_member("wsc_style"@, p.window_status_current_style@);
    lemma_text_member("wsc_style"@, q.window_status_current_style@);
    reveal(first_fit);
    reveal(second_fit);
    reveal(third_fit);
    reveal(fourth_fit);
    reveal(last_fit);
    lemma_walk(p, q, pushed, i, "wsc_style"@, between_quotes(p.window_status_current_style@), between_quotes(q.window_status_current_style@));
    lemma_frame(p, q, pushed, i, "wsc_style"@, between_quotes(p.window_status_current_style@), between_quotes(q.window_status_current_style@));
}

proof fn lemma_clock_mode(p: FrameParts, other: FrameParts, pushed: bool)
    ensures
        ({
            let q = FrameParts { clock_mode: other.clock_mode, ..p };
            tells(
                frame_text(p, pushed),
                frame_text(q, pushed),
                ',',
                "clock_mode"@,
                yes_or_no(p.clock_mode),
                yes_or_no(q.clock_mode),
            )
        }),
{
    let q = FrameParts { clock_mode: other.clock_mode, ..p };
    let i = 19;
    lemma_truth(p.clock_mode);
    lemma_truth(q.clock_mode);
    reveal(first_fit);
    reveal(second_fit);
    reveal(third_fit);
    reveal(fourth_fit);
    reveal(last_fit);
    lemma_walk(p, q, pushed, i, "clock_mode"@, yes_or_no(p.clock_mode), yes_or_no(q.clock_mode));
    lemma_frame(p, q, pushed, i, "clock_mode"@, yes_or_no(p.clock_mode), yes_or_no(q.clock_mode));
}

proof fn lemma_bindings(p: FrameParts, other: FrameParts, pushed: bool)
    ensures
        ({
            let q = FrameParts { bindings: other.bindings, ..p };
            tells(
                frame_text(p, pushed),
                frame_text(q, pushed),
                ',',
                "bindings"@,
                p.bindings@,
                q.bindings@,
            )
        }),
{
    let q = FrameParts { bindings: other.bindings, ..p };
    let i = 20;
    reveal(first_fit);
    reveal(second_fit);
    reveal(third_fit);
    reveal(fourth_fit);
    reveal(last_fit);
    lemma_walk(p, q, pushed, i, "bindings"@, p.bindings@, q.bindings@);
    lemma_frame(p, q, pushed, i, "bindings"@, p.bindings@, q.bindings@);
}

proof fn lemma_status_left_length(p: FrameParts, other: FrameParts, pushed: bool)
    ensures
        ({
            let q = FrameParts { status_left_length: other.status_left_length, ..p };
            tells(
                frame_text(p, pushed),
                frame_text(q, pushed),
                ',',
                "status_left_length"@,
                decimal(p.status_left_length as nat),
                decimal(q.status_left_length as nat),
            )
        }),
{
    let q = FrameParts { status_left_length: other.status_left_length, ..p };
    let i = 21;
    reveal(first_fit);
    reveal(second_fit);
    reveal(third_fit);
    reveal(fourth_fit);
    reveal(last_fit);
    lemma_walk(p, q, pushed, i, "status_left_length"@, decimal(p.status_left_length as nat), decimal(q.status_left_length as nat));
    lemma_frame(p, q, pushed, i, "status_left_length"@, decimal(p.status_left_length as nat), decimal(q.status_left_length as nat));
}

proof fn lemma_status_right_length(p: FrameParts, other: FrameParts, pushed: bool)
    ensures
        ({
            let q = FrameParts { status_right_length: other.status_right_length, ..p };
            tells(
                frame_text(p, pushed),
                frame_text(q, pushed),
                ',',
                "status_right_length"@,
                decimal(p.status_right_length as nat),
                decimal(q.status_right_length as nat),
            )
        }),
{
    let q = FrameParts { status_right_length: other.status_right_length, ..p };
    let i = 22;
    reveal(first_fit);
    reveal(second_fit);
    reveal(third_fit);
    reveal(fourth_fit);
    reveal(last_fit);
    lemma_walk(p, q, pushed, i, "status_right_length"@, decimal(p.status_right_length as nat), decimal(q.status_right_length as nat));
    lemma_frame(p, q, pushed, i, "status_right_length"@, decimal(p.status_right_length as nat), decimal(q.status_right_length as nat));
}

proof fn lemma_status_lines(p: FrameParts, other: FrameParts, pushed: bool)
    ensures
        ({
            let q = FrameParts { status_lines: other.status_lines, ..p };
            tells(
                frame_text(p, pushed),
                frame_text(q, pushed),
                ',',
                "status_lines"@,
                decimal(p.status_lines as nat),
                decimal(q.status_lines as nat),
            )
        }),
{
    let q = FrameParts { status_lines: other.status_lines, ..p };
    let i = 23;
    reveal(first_fit);
    reveal(second_fit);
    reveal(third_fit);
    reveal(fourth_fit);
    reveal(last_fit);
    lemma_walk(p, q, pushed, i, "status_lines"@, decimal(p.status_lines as nat), decimal(q.status_lines as nat));
    lemma_frame(p, q, pushed, i, "status_lines"@, decimal(p.status_lines as nat), decimal(q.status_lines as nat));
}

proof fn lemma_status_format(p: FrameParts, other: FrameParts, pushed: bool)
    ensures
        ({
            let q = FrameParts { status_format: other.status_format, ..p };
            tells(
                frame_text(p, pushed),
                frame_text(q, pushed),
                ',',
                "status_format"@,
                list_json(texts(p.status_format@)),
                list_json(texts(q.status_format@)),
            )
        }),
{
    let q = FrameParts { status_format: other.status_format, ..p };
    let i = 24;
    reveal(first_fit);
    reveal(second_fit);
    reveal(third_fit);
    reveal(fourth_fit);
    reveal(last_fit);
    lemma_walk(p, q, pushed, i, "status_format"@, list_json(texts(p.status_format@)), list_json(texts(q.status_format@)));
    lemma_frame(p, q, pushed, i, "status_format"@, list_json(texts(p.status_format@)), list_json(texts(q.status_format@)));
}

proof fn lemma_mode_style(p: FrameParts, other: FrameParts, pushed: bool)
    ensures
        ({
            let q = FrameParts { mode_style: other.mode_style, ..p };
            tells(
                frame_text(p, pushed),
                frame_text(q, pushed),
                ',',
                "mode_style"@,
                between_quotes(p.mode_style@),
                between_quotes(q.mode_style@),
            )
        }),
{
    let q = FrameParts { mode_style: other.mode_style, ..p };
    let i = 25;
    lemma_text_member("mode_style"@, p.mode_style@);
    lemma_text_member("mode_style"@, q.mode_style@);
    reveal(first_fit);
    reveal(second_fit);
    reveal(third_fit);
    reveal(fourth_fit);
    reveal(last_fit);
    lemma_walk(p, q, pushed, i, "mode_style"@, between_quotes(p.mode_style@), between_quotes(q.mode_style@));
    lemma_frame(p, q, pushed, i, "mode_style"@, between_quotes(p.mode_style@), between_quotes(q.mode_style@));
}

proof fn lemma_status_position(p: FrameParts, other: FrameParts, pushed: bool)
    ensures
        ({
            let q = FrameParts { status_position: other.status_position, ..p };
            tells(
                frame_text(p, pushed),
                frame_text(q, pushed),
                ',',
                "status_position"@,
                between_quotes(p.status_position@),
                between_quotes(q.status_position@),
            )
        }),
{
    let q = FrameParts { status_position: other.status_position, ..p };
    let i = 26;
    lemma_text_member("status_position"@, p.status_position@);
    lemma_text_member("status_position"@, q.status_position@);
    reveal(first_fit);
    reveal(second_fit);
    reveal(third_fit);
    reveal(fourth_fit);
    reveal(last_fit);
    lemma_walk(p, q, pushed, i, "status_position"@, between_quotes(p.status_position@), between_quotes(q.status_position@));
    lemma_frame(p, q, pushed, i, "status_position"@, between_quotes(p.status_position@), between_quotes(q.status_position@));
}

proof fn lemma_status_justify(p: FrameParts, other: FrameParts, pushed: bool)
    ensures
        ({
            let q = FrameParts { status_justify: other.status_justify, ..p };
            tells(
                frame_text(p, pushed),
                frame_text(q, pushed),
                ',',
                "status_justify"@,
                between_quotes(p.status_justify@),
                between_quotes(q.status_justify@),
            )
        }),
{
    let q = FrameParts { status_justify: other.status_justify, ..p };
    let i = 27;
    lemma_text_member("status_justify"@, p.status_justify@);
    lemma_text_member("status_justify"@, q.status_justify@);
    reveal(first_fit);
    reveal(second_fit);
    reveal(third_fit);
    reveal(fourth_fit);
    reveal(last_fit);
    lemma_walk(p, q, pushed, i, "status_justify"@, between_quotes(p.status_justify@), between_quotes(q.status_justify@));
    lemma_frame(p, q, pushed, i, "status_justify"@, between_quotes(p.status_justify@), between_quotes(q.status_justify@));
}

proof fn lemma_cursor_style_code(p: FrameParts, other: FrameParts, pushed: bool)
    ensures
        ({
            let q = FrameParts { cursor_style_code: other.cursor_style_code, ..p };
            tells(
                frame_text(p, pushed),
                frame_text(q, pushed),
                ',',
                "cursor_style_code"@,
                decimal(p.cursor_style_code as nat),
                decimal(q.cursor_style_code as nat),
            )
        }),
{
    let q = FrameParts { cursor_style_code: other.cursor_style_code, ..p };
    let i = 28;
    reveal(first_fit);
    reveal(second_fit);
    reveal(third_fit);
    reveal(fourth_fit);
    reveal(last_fit);
    lemma_walk(p, q, pushed, i, "cursor_style_code"@, decimal(p.cursor_style_code as nat), decimal(q.cursor_style_code as nat));
    lemma_frame(p, q, pushed, i, "cursor_style_code"@, decimal(p.cursor_style_code as nat), decimal(q.cursor_style_code as nat));
}

proof fn lemma_status_visible(p: FrameParts, other: FrameParts, pushed: bool)
    ensures
        ({
            let q = FrameParts { status_visible: other.status_visible, ..p };
            tells(
                frame_text(p, pushed),
                frame_text(q, pushed),
                ',',
                "status_visible"@,
                yes_or_no(p.status_visible),
                yes_or_no(q.status_visible),
            )
        }),
{
    let q = FrameParts { status_visible: other.status_visible, ..p };
    let i = 29;
    lemma_truth(p.status_visible);
    lemma_truth(q.status_visible);
    reveal(first_fit);
    reveal(second_fit);
    reveal(third_fit);
    reveal(fourth_fit);
    reveal(last_fit);
    lemma_walk(p, q, pushed, i, "status_visible"@, yes_or_no(p.status_visible), yes_or_no(q.status_visible));
    lemma_frame(p, q, pushed, i, "status_visible"@, yes_or_no(p.status_visible), yes_or_no(q.status_visible));
}

proof fn lemma_repeat_time(p: FrameParts, other: FrameParts, pushed: bool)
    ensures
        ({
            let q = FrameParts { repeat_time: other.repeat_time, ..p };
            tells(
                frame_text(p, pushed),
                frame_text(q, pushed),
                ',',
                "repeat_time"@,
                decimal(p.repeat_time as nat),
                decimal(q.repeat_time as nat),
            )
        }),
{
    let q = FrameParts { repeat_time: other.repeat_time, ..p };
    let i = 30;
    reveal(first_fit);
    reveal(second_fit);
    reveal(third_fit);
    reveal(fourth_fit);
    reveal(last_fit);
    lemma_walk(p, q, pushed, i, "repeat_time"@, decimal(p.repeat_time as nat), decimal(q.repeat_time as nat));
    lemma_frame(p, q, pushed, i, "repeat_time"@, decimal(p.repeat_time as nat), decimal(q.repeat_time as nat));
}

proof fn lemma_zoomed(p: FrameParts, other: FrameParts, pushed: bool)
    ensures
        ({
            let q = FrameParts { zoomed: other.zoomed, ..p };
            tells(
                frame_text(p, pushed),
                frame_text(q, pushed),
                ',',
                "zoomed"@,
                yes_or_no(p.zoomed),
                yes_or_no(q.zoomed),
            )
        }),
{
    let q = FrameParts { zoomed: other.zoomed, ..p };
    let i = 31;
    lemma_truth(p.zoomed);
    lemma_truth(q.zoomed);
    reveal(first_fit);
    reveal(second_fit);
    reveal(third_fit);
    reveal(fourth_fit);
    reveal(last_fit);
    lemma_walk(p, q, pushed, i, "zoomed"@, yes_or_no(p.zoomed), yes_or_no(q.zoomed));
    lemma_frame(p, q, pushed, i, "zoomed"@, yes_or_no(p.zoomed), yes_or_no(q.zoomed));
}

proof fn lemma_defaults_suppressed(p: FrameParts, other: FrameParts, pushed: bool)
    requires
        !pushed,
    ensures
        ({
            let q = FrameParts { defaults_suppressed: other.defaults_suppressed, ..p };
            tells(
                frame_text(p, pushed),
                frame_text(q, pushed),
                ',',
                "defaults_suppressed"@,
                yes_or_no(p.defaults_suppressed),
                yes_or_no(q.defaults_suppressed),
            )
        }),
{
    let q = FrameParts { defaults_suppressed: other.defaults_suppressed, ..p };
    let i = 32;
    lemma_truth(p.defaults_suppressed);
    lemma_truth(q.defaults_suppressed);
    reveal(first_fit);
    reveal(second_fit);
    reveal(third_fit);
    reveal(fourth_fit);
    reveal(last_fit);
    lemma_walk(p, q, pushed, i, "defaults_suppressed"@, yes_or_no(p.defaults_suppressed), yes_or_no(q.defaults_suppressed));
    lemma_frame(p, q, pushed, i, "defaults_suppressed"@, yes_or_no(p.defaults_suppressed), yes_or_no(q.defaults_suppressed));
}

proof fn lemma_pwsh_mouse_selection(p: FrameParts, other: FrameParts, pushed: bool)
    ensures
        ({
            let q = FrameParts { pwsh_mouse_selection: other.pwsh_mouse_selection, ..p };
            tells(
                frame_text(p, pushed),
                frame_text(q, pushed),
                ',',
                "pwsh_mouse_selection"@,
                yes_or_no(p.pwsh_mouse_selection),
                yes_or_no(q.pwsh_mouse_selection),
            )
        }),
{
    let q = FrameParts { pwsh_mouse_selection: other.pwsh_mouse_selection, ..p };
    let i = if pushed {
                32int
            } else {
                33
            };
    lemma_truth(p.pwsh_mouse_selection);
    lemma_truth(q.pwsh_mouse_selection);
    reveal(first_fit);
    reveal(second_fit);
    reveal(third_fit);
    reveal(fourth_fit);
    reveal(last_fit);
    lemma_walk(p, q, pushed, i, "pwsh_mouse_selection"@, yes_or_no(p.pwsh_mouse_selection), yes_or_no(q.pwsh_mouse_selection));
    lemma_frame(p, q, pushed, i, "pwsh_mouse_selection"@, yes_or_no(p.pwsh_mouse_selection), yes_or_no(q.pwsh_mouse_selection));
}

proof fn lemma_mouse_selection(p: FrameParts, other: FrameParts, pushed: bool)
    ensures
        ({
            let q = FrameParts { mouse_selection: other.mouse_selection, ..p };
            tells(
                frame_text(p, pushed),
                frame_text(q, pushed),
                ',',
                "mouse_selection"@,
                yes_or_no(p.mouse_selection),
                yes_or_no(q.mouse_selection),
            )
        }),
{
    let q = FrameParts { mouse_selection: other.mouse_selection, ..p };
    let i = if pushed {
                33int
            } else {
                34
            };
    lemma_truth(p.mouse_selection);
    lemma_truth(q.mouse_selection);
    reveal(first_fit);
    reveal(second_fit);
    reveal(third_fit);
    reveal(fourth_fit);
    reveal(last_fit);
    lemma_walk(p, q, pushed, i, "mouse_selection"@, yes_or_no(p.mouse_selection), yes_or_no(q.mouse_selection));
    lemma_frame(p, q, pushed, i, "mouse_selection"@, yes_or_no(p.mouse_selection), yes_or_no(q.mouse_selection));
}

proof fn lemma_paste_detection(p: FrameParts, other: FrameParts, pushed: bool)
    requires
        !pushed,
    ensures
        ({
            let q = FrameParts { paste_detection: other.paste_detection, ..p };
            tells(
                frame_text(p, pushed),
                frame_text(q, pushed),
                ',',
                "paste_detection"@,
                yes_or_no(p.paste_detection),
                yes_or_no(q.paste_detection),
            )
        }),
{
    let q = FrameParts { paste_detection: other.paste_detection, ..p };
    let i = 35;
    lemma_truth(p.paste_detection);
    lemma_truth(q.paste_detection);
    reveal(first_fit);
    reveal(second_fit);
    reveal(third_fit);
    reveal(fourth_fit);
    reveal(last_fit);
    lemma_walk(p, q, pushed, i, "paste_detection"@, yes_or_no(p.paste_detection), yes_or_no(q.paste_detection));
    lemma_frame(p, q, pushed, i, "paste_detection"@, yes_or_no(p.paste_detection), yes_or_no(q.paste_detection));
}

proof fn lemma_choose_tree_preview(p: FrameParts, other: FrameParts, pushed: bool)
    ensures
        ({
            let q = FrameParts { choose_tree_preview: other.choose_tree_preview, ..p };
            tells(
                frame_text(p, pushed),
                frame_text(q, pushed),
                ',',
                "choose_tree_preview"@,
                yes_or_no(p.choose_tree_preview),
                yes_or_no(q.choose_tree_preview),
            )
        }),
{
    let q = FrameParts { choose_tree_preview: other.choose_tree_preview, ..p };
    let i = if pushed {
                34int
            } else {
                36
            };
    lemma_truth(p.choose_tree_preview);
    lemma_truth(q.choose_tree_preview);
    reveal(first_fit);
    reveal(second_fit);
    reveal(third_fit);
    reveal(fourth_fit);
    reveal(last_fit);
    lemma_walk(p, q, pushed, i, "choose_tree_preview"@, yes_or_no(p.choose_tree_preview), yes_or_no(q.choose_tree_preview));
    lemma_frame(p, q, pushed, i, "choose_tree_preview"@, yes_or_no(p.choose_tree_preview), yes_or_no(q.choose_tree_preview));
}

proof fn lemma_scroll_enter_copy_mode(p: FrameParts, other: FrameParts, pushed: bool)
    ensures
        ({
            let q = FrameParts { scroll_enter_copy_mode: other.scroll_enter_copy_mode, ..p };
            tells(
                frame_text(p, pushed),
                frame_text(q, pushed),
                ',',
                "scroll_enter_copy_mode"@,
                yes_or_no(p.scroll_enter_copy_mode),
                yes_or_no(q.scroll_enter_copy_mode),
            )
        }),
{
    let q = FrameParts { scroll_enter_copy_mode: other.scroll_enter_copy_mode, ..p };
    let i = if pushed {
                35int
            } else {
                37
            };
    lemma_truth(p.scroll_enter_copy_mode);
    lemma_truth(q.scroll_enter_copy_mode);
    reveal(first_fit);
    reveal(second_fit);
    reveal(third_fit);
    reveal(fourth_fit);
    reveal(last_fit);
    lemma_walk(p, q, pushed, i, "scroll_enter_copy_mode"@, yes_or_no(p.scroll_enter_copy_mode), yes_or_no(q.scroll_enter_copy_mode));
    lemma_frame(p, q, pushed, i, "scroll_enter_copy_mode"@, yes_or_no(p.scroll_enter_copy_mode), yes_or_no(q.scroll_enter_copy_mode));
}

/// Each text of a frame is told under its own name, and nowhere else: with another text in its
/// place the frame is the same but for the member of that name.
pub proof fn texts_are_told_under_their_names(p: FrameParts, other: FrameParts, pushed: bool)
    ensures
        ({
            let q = FrameParts { prefix: other.prefix, ..p };
            tells(
                frame_text(p, pushed),
                frame_text(q, pushed),
                ',',
                "prefix"@,
                between_quotes(p.prefix@),
                between_quotes(q.prefix@),
            )
        }),
        ({
            let q = FrameParts { prefix2: other.prefix2, ..p };
            tells(
                frame_text(p, pushed),
                frame_text(q, pushed),
                ',',
                "prefix2"@,
                between_quotes(p.prefix2@),
                between_quotes(q.prefix2@),
            )
        }),
        ({
            let q = FrameParts { status_style: other.status_style, ..p };
            tells(
                frame_text(p, pushed),
                frame_text(q, pushed),
                ',',
                "status_style"@,
                between_quotes(p.status_style@),
                between_quotes(q.status_style@),
            )
        }),
        ({
            let q = FrameParts { status_left: other.status_left, ..p };
            tells(
                frame_text(p, pushed),
                frame_text(q, pushed),
                ',',
                "status_left"@,
                between_quotes(p.status_left@),
                between_quotes(q.status_left@),
            )
        }),
        ({
            let q = FrameParts { status_right: other.status_right, ..p };
            tells(
                frame_text(p, pushed),
                frame_text(q, pushed),
                ',',
                "status_right"@,
                between_quotes(p.status_right@),
                between_quotes(q.status_right@),
            )
        }),
        ({
            let q = FrameParts { pane_border_style: other.pane_border_style, ..p };
            tells(
                frame_text(p, pushed),
                frame_text(q, pushed),
                ',',
                "pane_border_style"@,
                between_quotes(p.pane_border_style@),
                between_quotes(q.pane_border_style@),
            )
        }),
        ({
            let q = FrameParts { pane_active_border_style: other.pane_active_border_style, ..p };
            tells(
                frame_text(p, pushed),
                frame_text(q, pushed),
                ',',
                "pane_active_border_style"@,
                between_quotes(p.pane_active_border_style@),
                between_quotes(q.pane_active_border_style@),
            )
        }),
        ({
            let q = FrameParts { pane_border_hover_style: other.pane_border_hover_style, ..p };
            tells(
                frame_text(p, pushed),
                frame_text(q, pushed),
                ',',
                "pane_border_hover_style"@,
                between_quotes(p.pane_border_hover_style@),
                between_quotes(q.pane_border_hover_style@),
            )
        }),
        ({
            let q = FrameParts { window_status_format: other.window_status_format, ..p };
            tells(
                frame_text(p, pushed),
                frame_text(q, pushed),
                ',',
                "wsf"@,
                between_quotes(p.window_status_format@),
                between_quotes(q.window_status_format@),
            )
        }),
        ({
            let q = FrameParts { window_status_current_format: other.window_status_current_format, ..p };
            tells(
                frame_text(p, pushed),
                frame_text(q, pushed),
                ',',
                "wscf"@,
                between_quotes(p.window_status_current_format@),
                between_quotes(q.window_status_current_format@),
            )
        }),
        ({
            let q = FrameParts { window_status_separator: other.window_status_separator, ..p };
            tells(
                frame_text(p, pushed),
                frame_text(q, pushed),
                ',',
                "wss"@,
                between_quotes(p.window_status_separator@),
                between_quotes(q.window_status_separator@),
            )
        }),
        ({
            let q = FrameParts { window_status_style: other.window_status_style, ..p };
            tells(
                frame_text(p, pushed),
                frame_text(q, pushed),
                ',',
                "ws_style"@,
                between_quotes(p.window_status_style@),
                between_quotes(q.window_status_style@),
            )
        }),
        ({
            let q = FrameParts { window_status_current_style: other.window_status_current_style, ..p };
            tells(
                frame_text(p, pushed),
                frame_text(q, pushed),
                ',',
                "wsc_style"@,
                between_quotes(p.window_status_current_style@),
                between_quotes(q.window_status_current_style@),
            )
        }),
        ({
            let q = FrameParts { mode_style: other.mode_style, ..p };
            tells(
                frame_text(p, pushed),
                frame_text(q, pushed),
                ',',
                "mode_style"@,
                between_quotes(p.mode_style@),
                between_quotes(q.mode_style@),
            )
        }),
        ({
            let q = FrameParts { status_position: other.status_position, ..p };
            tells(
                frame_text(p, pushed),
                frame_text(q, pushed),
                ',',
                "status_position"@,
                between_quotes(p.status_position@),
                between_quotes(q.status_position@),
            )
        }),
        ({
            let q = FrameParts { status_justify: other.status_justify, ..p };
            tells(
                frame_text(p, pushed),
                frame_text(q, pushed),
                ',',
                "status_justify"@,
                between_quotes(p.status_justify@),
                between_quotes(q.status_justify@),
            )
        }),
{
    lemma_prefix(p, other, pushed);
    lemma_prefix2(p, other, pushed);
    lemma_status_style(p, other, pushed);
    lemma_status_left(p, other, pushed);
    lemma_status_right(p, other, pushed);
    lemma_pane_border_style(p, other, pushed);
    lemma_pane_active_border_style(p, other, pushed);
    lemma_pane_border_hover_style(p, other, pushed);
    lemma_window_status_format(p, other, pushed);
    lemma_window_status_current_format(p, other, pushed);
    lemma_window_status_separator(p, other, pushed);
    lemma_window_status_style(p, other, pushed);
    lemma_window_status_current_style(p, other, pushed);
    lemma_mode_style(p, other, pushed);
    lemma_status_position(p, other, pushed);
    lemma_status_justify(p, other, pushed);
}

/// Each number of a frame is told under its own name, and nowhere else.
pub proof fn numbers_are_told_under_their_names(p: FrameParts, other: FrameParts, pushed: bool)
    ensures
        ({
            let q = FrameParts { base_index: other.base_index, ..p };
            tells(
                frame_text(p, pushed),
                frame_text(q, pushed),
                ',',
                "base_index"@,
                decimal(p.base_index as nat),
                decimal(q.base_index as nat),
            )
        }),
        ({
            let q = FrameParts { pane_base_index: other.pane_base_index, ..p };
            tells(
                frame_text(p, pushed),
                frame_text(q, pushed),
                ',',
                "pane_base_index"@,
                decimal(p.pane_base_index as nat),
                decimal(q.pane_base_index as nat),
            )
        }),
        ({
            let q = FrameParts { status_left_length: other.status_left_length, ..p };
            tells(
                frame_text(p, pushed),
                frame_text(q, pushed),
                ',',
                "status_left_length"@,
                decimal(p.status_left_length as nat),
                decimal(q.status_left_length as nat),
            )
        }),
        ({
            let q = FrameParts { status_right_length: other.status_right_length, ..p };
            tells(
                frame_text(p, pushed),
                frame_text(q, pushed),
                ',',
                "status_right_length"@,
                decimal(p.status_right_length as nat),
                decimal(q.status_right_length as nat),
            )
        }),
        ({
            let q = FrameParts { status_lines: other.status_lines, ..p };
            tells(
                frame_text(p, pushed),
                frame_text(q, pushed),
                ',',
                "status_lines"@,
                decimal(p.status_lines as nat),
                decimal(q.status_lines as nat),
            )
        }),
        ({
            let q = FrameParts { cursor_style_code: other.cursor_style_code, ..p };
            tells(
                frame_text(p, pushed),
                frame_text(q, pushed),
                ',',
                "cursor_style_code"@,
                decimal(p.cursor_style_code as nat),
                decimal(q.cursor_style_code as nat),
            )
        }),
        ({
            let q = FrameParts { repeat_time: other.repeat_time, ..p };
            tells(
                frame_text(p, pushed),
                frame_text(q, pushed),
                ',',
                "repeat_time"@,
                decimal(p.repeat_time as nat),
                decimal(q.repeat_time as nat),
            )
        }),
{
    lemma_base_index(p, other, pushed);
    lemma_pane_base_index(p, other, pushed);
    lemma_status_left_length(p, other, pushed);
    lemma_status_right_length(p, other, pushed);
    lemma_status_lines(p, other, pushed);
    lemma_cursor_style_code(p, other, pushed);
    lemma_repeat_time(p, other, pushed);
}

/// Each switch of a frame is told under its own name, and nowhere else; two of them only to a
/// client that asks.
pub proof fn switches_are_told_under_their_names(p: FrameParts, other: FrameParts, pushed: bool)
    ensures
        ({
            let q = FrameParts { prediction_dimming: other.prediction_dimming, ..p };
            tells(
                frame_text(p, pushed),
                frame_text(q, pushed),
                ',',
                "prediction_dimming"@,
                yes_or_no(p.prediction_dimming),
                yes_or_no(q.prediction_dimming),
            )
        }),
        ({
            let q = FrameParts { clock_mode: other.clock_mode, ..p };
            tells(
                frame_text(p, pushed),
                frame_text(q, pushed),
                ',',
                "clock_mode"@,
                yes_or_no(p.clock_mode),
                yes_or_no(q.clock_mode),
            )
        }),
        ({
            let q = FrameParts { status_visible: other.status_visible, ..p };
            tells(
                frame_text(p, pushed),
                frame_text(q, pushed),
                ',',
                "status_visible"@,
                yes_or_no(p.status_visible),
                yes_or_no(q.status_visible),
            )
        }),
        ({
            let q = FrameParts { zoomed: other.zoomed, ..p };
            tells(
                frame_text(p, pushed),
                frame_text(q, pushed),
                ',',
                "zoomed"@,
                yes_or_no(p.zoomed),
                yes_or_no(q.zoomed),
            )
        }),
        ({
            let q = FrameParts { defaults_suppressed: other.defaults_suppressed, ..p };
            !pushed ==> tells(
                frame_text(p, pushed),
                frame_text(q, pushed),
                ',',
                "defaults_suppressed"@,
                yes_or_no(p.defaults_suppressed),
                yes_or_no(q.defaults_suppressed),
            )
        }),
        ({
            let q = FrameParts { pwsh_mouse_selection: other.pwsh_mouse_selection, ..p };
            tells(
                frame_text(p, pushed),
                frame_text(q, pushed),
                ',',
                "pwsh_mouse_selection"@,
                yes_or_no(p.pwsh_mouse_selection),
                yes_or_no(q.pwsh_mouse_selection),
            )
        }),
        ({
            let q = FrameParts { mouse_selection: other.mouse_selection, ..p };
            tells(
                frame_text(p, pushed),
                frame_text(q, pushed),
                ',',
                "mouse_selection"@,
                yes_or_no(p.mouse_selection),
                yes_or_no(q.mouse_selection),
            )
        }),
        ({
            let q = FrameParts { paste_detection: other.paste_detection, ..p };
            !pushed ==> tells(
                frame_text(p, pushed),
                frame_text(q, pushed),
                ',',
                "paste_detection"@,
                yes_or_no(p.paste_detection),
                yes_or_no(q.paste_detection),
            )
        }),
        ({
            let q = FrameParts { choose_tree_preview: other.choose_tree_preview, ..p };
            tells(
                frame_text(p, pushed),
                frame_text(q, pushed),
                ',',
                "choose_tree_preview"@,
                yes_or_no(p.choose_tree_preview),
                yes_or_no(q.choose_tree_preview),
            )
        }),
        ({
            let q = FrameParts { scroll_enter_copy_mode: other.scroll_enter_copy_mode, ..p };
            tells(
                frame_text(p, pushed),
                frame_text(q, pushed),
                ',',
                "scroll_enter_copy_mode"@,
                yes_or_no(p.scroll_enter_copy_mode),
                yes_or_no(q.scroll_enter_copy_mode),
            )
        }),
{
    lemma_prediction_dimming(p, other, pushed);
    lemma_clock_mode(p, other, pushed);
    lemma_status_visible(p, other, pushed);
    lemma_zoomed(p, other, pushed);
    if !pushed {
        lemma_defaults_suppressed(p, other, pushed);
    }
    lemma_pwsh_mouse_selection(p, other, pushed);
    lemma_mouse_selection(p, other, pushed);
    if !pushed {
        lemma_paste_detection(p, other, pushed);
    }
    lemma_choose_tree_preview(p, other, pushed);
    lemma_scroll_enter_copy_mode(p, other, pushed);
}

/// The windows, the tree of sessions, the bindings and the formats of the status line are each told
/// under their own name, and nowhere else.
pub proof fn parts_are_told_under_their_names(p: FrameParts, other: FrameParts, pushed: bool)
    ensures
        ({
            let q = FrameParts { windows: other.windows, ..p };
            tells(
                frame_text(p, pushed),
                frame_text(q, pushed),
                ',',
                "windows"@,
                p.windows@,
                q.windows@,
            )
        }),
        ({
            let q = FrameParts { tree: other.tree, ..p };
            tells(
                frame_text(p, pushed),
                frame_text(q, pushed),
                ',',
                "tree"@,
                p.tree@,
                q.tree@,
            )
        }),
        ({
            let q = FrameParts { bindings: other.bindings, ..p };
            tells(
                frame_text(p, pushed),
                frame_text(q, pushed),
                ',',
                "bindings"@,
                p.bindings@,
                q.bindings@,
            )
        }),
        ({
            let q = FrameParts { status_format: other.status_format, ..p };
            tells(
                frame_text(p, pushed),
                frame_text(q, pushed),
                ',',
                "status_format"@,
                list_json(texts(p.status_format@)),
                list_json(texts(q.status_format@)),
            )
        }),
{
    lemma_windows(p, other, pushed);
    lemma_tree(p, other, pushed);
    lemma_bindings(p, other, pushed);
    lemma_status_format(p, other, pushed);
}

/// The layout is told first.
pub proof fn layout_is_told_first(p: FrameParts, other: FrameParts, pushed: bool)
    ensures
        ({
            let q = FrameParts { layout: other.layout, ..p };
            exists|after: Seq<char>|
                frame_text(p, pushed) == #[trigger] saying(Seq::empty(), '{', "layout"@, p.layout@, after)
                    && frame_text(q, pushed) == saying(Seq::empty(), '{', "layout"@, q.layout@, after)
        }),
{
    let q = FrameParts { layout: other.layout, ..p };
    reveal(first_fit);
    reveal(second_fit);
    reveal(third_fit);
    reveal(fourth_fit);
    reveal(last_fit);
    lemma_walk(p, q, pushed, 0, "layout"@, p.layout@, q.layout@);
    assert(is_list(extra_members(p), extra_members(q)));
    lemma_frame_of(
        frame_members(p, pushed),
        frame_members(q, pushed),
        extra_members(p),
        p.overlay@,
        if pushed {
            36
        } else {
            38
        },
        0,
        "layout"@,
        p.layout@,
        q.layout@,
    );
}

/// Whether a frame ends with what lies over the panes.
pub open spec fn ends_with_overlay(f: Seq<char>, before: Seq<char>, overlay: Seq<char>) -> bool {
    f == before + overlay + seq!['}']
}

/// What lies over the panes comes last, and nothing else depends on it.
#[verifier::spinoff_prover]
#[verifier::rlimit(40)]
pub proof fn overlays_come_last(p: FrameParts, other: FrameParts, pushed: bool)
    ensures
        ({
            let q = FrameParts { overlay: other.overlay, ..p };
            exists|before: Seq<char>|
                #[trigger] ends_with_overlay(frame_text(p, pushed), before, p.overlay@) && ends_with_overlay(
                    frame_text(q, pushed),
                    before,
                    q.overlay@,
                )
        }),
{
    let q = FrameParts { overlay: other.overlay, ..p };
    let before = seq!['{'] + joined(frame_members(p, pushed) + extra_members(p), ","@);
    lemma_ends(p, p, pushed);
    lemma_ends(p, q, pushed);
}

proof fn lemma_same_more(p: FrameParts, q: FrameParts)
    requires
        p.clock_colour == q.clock_colour,
        p.pane_border_status == q.pane_border_status,
        p.pane_border_format == q.pane_border_format,
        p.host_title == q.host_title,
        p.host_progress == q.host_progress,
    ensures
        is_list(extra_members(p), extra_members(q)),
{
}

#[verifier::spinoff_prover]
proof fn lemma_ends(p: FrameParts, q: FrameParts, pushed: bool)
    requires
        q == (FrameParts { overlay: q.overlay, ..p }),
    ensures
        ends_with_overlay(
            frame_text(q, pushed),
            seq!['{'] + joined(frame_members(p, pushed) + extra_members(p), ","@),
            q.overlay@,
        ),
{
    lemma_same(p, q, pushed);
    lemma_same_more(p, q);
}

/// A frame has thirty-eight members, one that is pushed two fewer, and one more for each part that
/// may be missing and is not.
pub proof fn members_are_counted(p: FrameParts, pushed: bool)
    ensures
        frame_members(p, pushed).len() == (if pushed {
            36int
        } else {
            38
        }),
        extra_members(p).len() == (if p.clock_colour is Some {
            1int
        } else {
            0
        }) + (if p.pane_border_status is Some {
            1int
        } else {
            0
        }) + (if p.pane_border_status is Some && p.pane_border_format is Some {
            1int
        } else {
            0
        }) + (if p.host_title is Some {
            1int
        } else {
            0
        }) + (if p.host_progress is Some {
            1int
        } else {
            0
        }),
{
    lemma_same(p, p, pushed);
}

proof fn lemma_joined_apart(a: Seq<Seq<char>>, i: int)
    requires
        0 < i <= a.len(),
    ensures
        is_text(joined(a, ","@), joined(a.take(i), ","@) + tail(a.skip(i))),
{
    if i < a.len() {
        lemma_joined_around(a, i);
        lemma_tail_first(a.skip(i));
        assert(a.skip(i).skip(1) =~= a.skip(i + 1));
        assert(a.skip(i)[0] == a[i]);
    } else {
        assert(a.take(i) =~= a);
        assert(a.skip(i).len() == 0);
    }
    assert(joined(a, ","@) =~= joined(a.take(i), ","@) + tail(a.skip(i)));
}

#[verifier::spinoff_prover]
proof fn lemma_adds(
    a: Seq<Seq<char>>,
    b: Seq<Seq<char>>,
    overlay: Seq<char>,
    i: int,
    name: Seq<char>,
    w: Seq<char>,
)
    requires
        0 < i <= a.len(),
        b == a.insert(i, member(name, w)),
    ensures
        adds(object(a, overlay), object(b, overlay), name, w),
{
    lemma_joined_around(b, i);
    assert(b.take(i) =~= a.take(i));
    assert(b.skip(i + 1) =~= a.skip(i));
    let before = seq!['{'] + joined(a.take(i), ","@);
    let after = tail(a.skip(i)) + overlay + seq!['}'];
    reveal_strlit(",");
    lemma_joined_apart(a, i);
    assert(object(a, overlay) =~= before + after);
    assert(object(b, overlay) =~= saying(before, ',', name, w, after));
}

proof fn lemma_insert_behind(
    a: Seq<Seq<char>>,
    b: Seq<Seq<char>>,
    c: Seq<Seq<char>>,
    i: int,
    m: Seq<char>,
)
    requires
        0 <= i <= b.len(),
        is_list(c, b.insert(i, m)),
    ensures
        a + c == (a + b).insert(a.len() + i, m),
{
    assert(a + c =~= (a + b).insert(a.len() + i, m));
}

proof fn lemma_more(
    c: Seq<Seq<char>>,
    s: Seq<Seq<char>>,
    f: Seq<Seq<char>>,
    t: Seq<Seq<char>>,
    g: Seq<Seq<char>>,
    m: Seq<char>,
)
    ensures
        ({
            let none = Seq::<Seq<char>>::empty();
            let one = seq![m];
            &&& c.len() == 0 ==> is_list(one + s + f + t + g, (c + s + f + t + g).insert(0, m))
            &&& s.len() == 0 && f.len() == 0 ==> is_list(
                c + one + f + t + g,
                (c + s + f + t + g).insert(c.len() as int, m),
            )
            &&& f.len() == 0 ==> is_list(
                c + s + one + t + g,
                (c + s + f + t + g).insert((c.len() + s.len()) as int, m),
            )
            &&& t.len() == 0 ==> is_list(
                c + s + f + one + g,
                (c + s + f + t + g).insert((c.len() + s.len() + f.len()) as int, m),
            )
        }),
{
    let one = seq![m];
    if c.len() == 0 {
        assert(one + s + f + t + g =~= (c + s + f + t + g).insert(0, m));
    }
    if s.len() == 0 && f.len() == 0 {
        assert(c + one + f + t + g =~= (c + s + f + t + g).insert(c.len() as int, m));
    }
    if f.len() == 0 {
        assert(c + s + one + t + g =~= (c + s + f + t + g).insert((c.len() + s.len()) as int, m));
    }
    if t.len() == 0 {
        assert(c + s + f + one + g =~= (c + s + f + t + g).insert(
            (c.len() + s.len() + f.len()) as int,
            m,
        ));
    }
}

proof fn lemma_tail_first(rest: Seq<Seq<char>>)
    requires
        rest.len() > 0,
    ensures
        tail(rest) == ","@ + rest[0] + tail(rest.skip(1)),
    decreases rest.len(),
{
    reveal_with_fuel(tail, 2);
    if rest.len() == 1 {
        assert(rest.drop_last().len() == 0);
        assert(rest.skip(1).len() == 0);
        assert(tail(rest) =~= ","@ + rest[0] + tail(rest.skip(1)));
    } else {
        lemma_tail_first(rest.drop_last());
        assert(rest.skip(1).drop_last() =~= rest.drop_last().skip(1));
        assert(rest.skip(1).last() == rest.last());
        assert(tail(rest) =~= ","@ + rest[0] + tail(rest.skip(1)));
    }
}

/// The colour of the clock is told under its name where there is one, and adds nothing else.
pub proof fn clock_colour_is_told_if_there(p: FrameParts, value: String, pushed: bool)
    requires
        p.clock_colour is None,
    ensures
        adds(
            frame_text(p, pushed),
            frame_text(FrameParts { clock_colour: Some(value), ..p }, pushed),
            "clock_colour"@,
            between_quotes(value@),
        ),
{
    let q = FrameParts { clock_colour: Some(value), ..p };
    lemma_text_member("clock_colour"@, value@);
    lemma_same(p, q, pushed);
    let i = frame_members(p, pushed).len() + 0;
    let a = frame_members(p, pushed);
    let b = a + extra_members(q);
    let c = opt_member("clock_colour"@, opt_text(p.clock_colour));
    let s = opt_member("pane_border_status"@, opt_text(p.pane_border_status));
    let f = if p.pane_border_status is Some {
        opt_member("pane_border_format"@, opt_text(p.pane_border_format))
    } else {
        Seq::empty()
    };
    let t = opt_member("host_title"@, opt_text(p.host_title));
    let g = opt_member(
        "host_progress"@,
        match p.host_progress {
            Some((s, v)) => Some(decimal(s as nat) + seq![';'] + decimal(v as nat)),
            None => None,
        },
    );
    lemma_more(c, s, f, t, g, member("clock_colour"@, between_quotes(value@)));
    assert(is_list(extra_members(p), c + s + f + t + g));
    lemma_insert_behind(a, extra_members(p), extra_members(q), 0 as int, member("clock_colour"@, between_quotes(value@)));
    lemma_adds(a + extra_members(p), b, p.overlay@, i as int, "clock_colour"@, between_quotes(value@));
}

/// The status of borders is told under its name where there is one.
pub proof fn pane_border_status_is_told_if_there(p: FrameParts, value: String, pushed: bool)
    requires
        p.pane_border_status is None,
        p.pane_border_format is None,
    ensures
        adds(
            frame_text(p, pushed),
            frame_text(FrameParts { pane_border_status: Some(value), ..p }, pushed),
            "pane_border_status"@,
            between_quotes(value@),
        ),
{
    let q = FrameParts { pane_border_status: Some(value), ..p };
    lemma_text_member("pane_border_status"@, value@);
    lemma_same(p, q, pushed);
    let i = frame_members(p, pushed).len() + opt_member("clock_colour"@, opt_text(p.clock_colour)).len();
    let a = frame_members(p, pushed);
    let b = a + extra_members(q);
    let c = opt_member("clock_colour"@, opt_text(p.clock_colour));
    let s = opt_member("pane_border_status"@, opt_text(p.pane_border_status));
    let f = if p.pane_border_status is Some {
        opt_member("pane_border_format"@, opt_text(p.pane_border_format))
    } else {
        Seq::empty()
    };
    let t = opt_member("host_title"@, opt_text(p.host_title));
    let g = opt_member(
        "host_progress"@,
        match p.host_progress {
            Some((s, v)) => Some(decimal(s as nat) + seq![';'] + decimal(v as nat)),
            None => None,
        },
    );
    lemma_more(c, s, f, t, g, member("pane_border_status"@, between_quotes(value@)));
    assert(is_list(extra_members(p), c + s + f + t + g));
    lemma_insert_behind(a, extra_members(p), extra_members(q), opt_member("clock_colour"@, opt_text(p.clock_colour)).len() as int, member("pane_border_status"@, between_quotes(value@)));
    lemma_adds(a + extra_members(p), b, p.overlay@, i as int, "pane_border_status"@, between_quotes(value@));
}

/// The format of borders is told under its name where there is one and their status is told.
pub proof fn pane_border_format_is_told_if_there(p: FrameParts, value: String, pushed: bool)
    requires
        p.pane_border_status is Some,
        p.pane_border_format is None,
    ensures
        adds(
            frame_text(p, pushed),
            frame_text(FrameParts { pane_border_format: Some(value), ..p }, pushed),
            "pane_border_format"@,
            between_quotes(value@),
        ),
{
    let q = FrameParts { pane_border_format: Some(value), ..p };
    lemma_text_member("pane_border_format"@, value@);
    lemma_same(p, q, pushed);
    let i = frame_members(p, pushed).len() + opt_member("clock_colour"@, opt_text(p.clock_colour)).len() + 1;
    let a = frame_members(p, pushed);
    let b = a + extra_members(q);
    let c = opt_member("clock_colour"@, opt_text(p.clock_colour));
    let s = opt_member("pane_border_status"@, opt_text(p.pane_border_status));
    let f = if p.pane_border_status is Some {
        opt_member("pane_border_format"@, opt_text(p.pane_border_format))
    } else {
        Seq::empty()
    };
    let t = opt_member("host_title"@, opt_text(p.host_title));
    let g = opt_member(
        "host_progress"@,
        match p.host_progress {
            Some((s, v)) => Some(decimal(s as nat) + seq![';'] + decimal(v as nat)),
            None => None,
        },
    );
    lemma_more(c, s, f, t, g, member("pane_border_format"@, between_quotes(value@)));
    assert(is_list(extra_members(p), c + s + f + t + g));
    lemma_insert_behind(a, extra_members(p), extra_members(q), opt_member("clock_colour"@, opt_text(p.clock_colour)).len() + 1 as int, member("pane_border_format"@, between_quotes(value@)));
    lemma_adds(a + extra_members(p), b, p.overlay@, i as int, "pane_border_format"@, between_quotes(value@));
}

/// The title of the host's terminal is told under its name where there is one.
pub proof fn host_title_is_told_if_there(p: FrameParts, value: String, pushed: bool)
    requires
        p.host_title is None,
    ensures
        adds(
            frame_text(p, pushed),
            frame_text(FrameParts { host_title: Some(value), ..p }, pushed),
            "host_title"@,
            between_quotes(value@),
        ),
{
    let q = FrameParts { host_title: Some(value), ..p };
    lemma_text_member("host_title"@, value@);
    lemma_same(p, q, pushed);
    let i = frame_members(p, pushed).len() + opt_member("clock_colour"@, opt_text(p.clock_colour)).len() + opt_member("pane_border_status"@, opt_text(p.pane_border_status)).len() + (if p.pane_border_status is Some {
        opt_member("pane_border_format"@, opt_text(p.pane_border_format)).len()
    } else {
        0
    });
    let a = frame_members(p, pushed);
    let b = a + extra_members(q);
    let c = opt_member("clock_colour"@, opt_text(p.clock_colour));
    let s = opt_member("pane_border_status"@, opt_text(p.pane_border_status));
    let f = if p.pane_border_status is Some {
        opt_member("pane_border_format"@, opt_text(p.pane_border_format))
    } else {
        Seq::empty()
    };
    let t = opt_member("host_title"@, opt_text(p.host_title));
    let g = opt_member(
        "host_progress"@,
        match p.host_progress {
            Some((s, v)) => Some(decimal(s as nat) + seq![';'] + decimal(v as nat)),
            None => None,
        },
    );
    lemma_more(c, s, f, t, g, member("host_title"@, between_quotes(value@)));
    assert(is_list(extra_members(p), c + s + f + t + g));
    lemma_insert_behind(a, extra_members(p), extra_members(q), opt_member("clock_colour"@, opt_text(p.clock_colour)).len() + opt_member("pane_border_status"@, opt_text(p.pane_border_status)).len() + (if p.pane_border_status is Some {
        opt_member("pane_border_format"@, opt_text(p.pane_border_format)).len()
    } else {
        0
    }) as int, member("host_title"@, between_quotes(value@)));
    lemma_adds(a + extra_members(p), b, p.overlay@, i as int, "host_title"@, between_quotes(value@));
}

/// The progress of the host's terminal is told under its name where there is one: its state, a
/// semicolon and its value.
pub proof fn host_progress_is_told_if_there(p: FrameParts, state: u8, value: u8, pushed: bool)
    requires
        p.host_progress is None,
    ensures
        adds(
            frame_text(p, pushed),
            frame_text(FrameParts { host_progress: Some((state, value)), ..p }, pushed),
            "host_progress"@,
            between_quotes(decimal(state as nat) + seq![';'] + decimal(value as nat)),
        ),
{
    let q = FrameParts { host_progress: Some((state, value)), ..p };
    let told = decimal(state as nat) + seq![';'] + decimal(value as nat);
    lemma_text_member("host_progress"@, told);
    lemma_same(p, q, pushed);
    let a = frame_members(p, pushed) + extra_members(p);
    let more = extra_members(p);
    assert(extra_members(q) =~= more.insert(
        more.len() as int,
        member("host_progress"@, between_quotes(told)),
    ));
    lemma_insert_behind(
        frame_members(p, pushed),
        more,
        extra_members(q),
        more.len() as int,
        member("host_progress"@, between_quotes(told)),
    );
    lemma_adds(
        a,
        frame_members(p, pushed) + extra_members(q),
        p.overlay@,
        a.len() as int,
        "host_progress"@,
        between_quotes(told),
    );
}

/// The format of borders is not told where their status is not.
pub proof fn format_goes_with_the_status(p: FrameParts, format: Option<String>, pushed: bool)
    requires
        p.pane_border_status is None,
    ensures
        frame_text(FrameParts { pane_border_format: format, ..p }, pushed) == frame_text(p, pushed),
{
    let q = FrameParts { pane_border_format: format, ..p };
    lemma_same(p, q, pushed);
    assert(is_list(extra_members(q), extra_members(p)));
}

/// A client that asks is told two switches more than one that a frame is pushed to, and else the
/// same.
pub proof fn asking_tells_two_more(p: FrameParts)
    ensures
        exists|a: Seq<char>, b: Seq<char>, c: Seq<char>|
            frame_text(p, true) == a + b + c && frame_text(p, false) == #[trigger] saying(
                saying(a, ',', "defaults_suppressed"@, yes_or_no(p.defaults_suppressed), b),
                ',',
                "paste_detection"@,
                yes_or_no(p.paste_detection),
                c,
            ),
{
    let c = common_members(p);
    let d = raw_member("defaults_suppressed"@, truth(p.defaults_suppressed));
    let x = raw_member("pwsh_mouse_selection"@, truth(p.pwsh_mouse_selection));
    let y = raw_member("mouse_selection"@, truth(p.mouse_selection));
    let e = raw_member("paste_detection"@, truth(p.paste_detection));
    let z = raw_member("choose_tree_preview"@, truth(p.choose_tree_preview));
    let t = raw_member("scroll_enter_copy_mode"@, truth(p.scroll_enter_copy_mode));
    let more = extra_members(p);
    lemma_truth(p.defaults_suppressed);
    lemma_truth(p.paste_detection);
    lemma_two_more(c, d, x, y, e, z, t, more, p.overlay@);
    let f = object(c.push(x).push(y).push(z).push(t) + more, p.overlay@);
    let g = object(c.push(d).push(x).push(y).push(e).push(z).push(t) + more, p.overlay@);
    assert(is_text(f, frame_text(p, true)));
    assert(is_text(g, frame_text(p, false)));
    let (h, i, k) = choose|h: Seq<char>, i: Seq<char>, k: Seq<char>|
        #[trigger] is_text(f, h + i + k) && is_text(g, h + seq![','] + d + i + seq![','] + e + k);
    assert(h + seq![','] + d + i + seq![','] + e + k =~= saying(
        saying(h, ',', "defaults_suppressed"@, yes_or_no(p.defaults_suppressed), i),
        ',',
        "paste_detection"@,
        yes_or_no(p.paste_detection),
        k,
    )) by {
        assert(d =~= member("defaults_suppressed"@, yes_or_no(p.defaults_suppressed)));
        assert(e =~= member("paste_detection"@, yes_or_no(p.paste_detection)));
        lemma_saying_two(
            h,
            "defaults_suppressed"@,
            yes_or_no(p.defaults_suppressed),
            i,
            "paste_detection"@,
            yes_or_no(p.paste_detection),
            k,
        );
    }
}

proof fn lemma_saying_two(
    h: Seq<char>,
    m: Seq<char>,
    v: Seq<char>,
    i: Seq<char>,
    n: Seq<char>,
    w: Seq<char>,
    k: Seq<char>,
)
    ensures
        h + seq![','] + member(m, v) + i + seq![','] + member(n, w) + k == saying(
            saying(h, ',', m, v, i),
            ',',
            n,
            w,
            k,
        ),
{
    let left = h + seq![','] + member(m, v) + i;
    assert(left =~= saying(h, ',', m, v, i));
    assert(left + seq![','] + member(n, w) + k =~= saying(left, ',', n, w, k));
}

proof fn lemma_two_more(
    c: Seq<Seq<char>>,
    d: Seq<char>,
    x: Seq<char>,
    y: Seq<char>,
    e: Seq<char>,
    z: Seq<char>,
    t: Seq<char>,
    more: Seq<Seq<char>>,
    overlay: Seq<char>,
)
    requires
        c.len() > 0,
    ensures
        exists|h: Seq<char>, i: Seq<char>, k: Seq<char>|
            #[trigger] is_text(
                object(c.push(x).push(y).push(z).push(t) + more, overlay),
                h + i + k,
            ) && is_text(
                object(c.push(d).push(x).push(y).push(e).push(z).push(t) + more, overlay),
                h + seq![','] + d + i + seq![','] + e + k,
            ),
{
    reveal_strlit(",");
    let f = c.push(x).push(y).push(z).push(t) + more;
    let g = c.push(d).push(x).push(y).push(e).push(z).push(t) + more;
    let n = c.len() as int;
    let rest = seq![z, t] + more;
    lemma_joined_around(f, n);
    lemma_joined_around(g, n);
    assert(f.take(n) =~= c);
    assert(g.take(n) =~= c);
    assert(f.skip(n + 1) =~= seq![y] + rest);
    assert(g.skip(n + 1) =~= seq![x, y, e] + rest);
    lemma_tail_first(seq![y] + rest);
    assert((seq![y] + rest).skip(1) =~= rest);
    lemma_tail_first(seq![x, y, e] + rest);
    assert((seq![x, y, e] + rest).skip(1) =~= seq![y, e] + rest);
    lemma_tail_first(seq![y, e] + rest);
    assert((seq![y, e] + rest).skip(1) =~= seq![e] + rest);
    lemma_tail_first(seq![e] + rest);
    assert((seq![e] + rest).skip(1) =~= rest);
    let h = seq!['{'] + joined(c, ","@);
    let i = ","@ + x + ","@ + y;
    let k = tail(rest) + overlay + seq!['}'];
    assert(","@ =~= seq![',']);
    lemma_put_together(joined(c, ","@), d, x, y, e, tail(rest), overlay);
    assert(is_text(object(f, overlay), h + i + k));
    assert(is_text(object(g, overlay), h + seq![','] + d + i + seq![','] + e + k));
}

proof fn lemma_put_together(
    j: Seq<char>,
    d: Seq<char>,
    x: Seq<char>,
    y: Seq<char>,
    e: Seq<char>,
    r: Seq<char>,
    overlay: Seq<char>,
)
    ensures
        ({
            let c = seq![','];
            let h = seq!['{'] + j;
            let i = c + x + c + y;
            let k = r + overlay + seq!['}'];
            &&& is_text(seq!['{'] + (j + c + x + (c + y + r)) + overlay + seq!['}'], h + i + k)
            &&& is_text(
                seq!['{'] + (j + c + d + (c + x + (c + y + (c + e + r)))) + overlay + seq!['}'],
                h + c + d + i + c + e + k,
            )
        }),
{
    let c = seq![','];
    let h = seq!['{'] + j;
    let i = c + x + c + y;
    let k = r + overlay + seq!['}'];
    assert(seq!['{'] + (j + c + x + (c + y + r)) + overlay + seq!['}'] =~= h + i + k);
    assert(seq!['{'] + (j + c + d + (c + x + (c + y + (c + e + r)))) + overlay + seq!['}'] =~= h + c + d + i
        + c + e + k);
}

/// A list grows by its texts, in their order: each stands between quotes, behind a comma but for the
/// first.
pub proof fn lists_hold_their_texts(items: Seq<Seq<char>>, item: Seq<char>)
    ensures
        list_json(Seq::empty()) == seq!['[', ']'],
        list_json(seq![item]) == seq!['[', '"'] + item + seq!['"', ']'],
        items.len() > 0 ==> list_json(items.push(item)) == list_json(items).drop_last() + seq![',', '"']
            + item + seq!['"', ']'],
{
    reveal_strlit(",");
    let none = Seq::<Seq<char>>::empty();
    assert(Seq::new(none.len(), |i: int| crate::server::frame::quoted_text(none[i])).len() == 0);
    assert(list_json(none) =~= seq!['[', ']']);
    let one = seq![item];
    assert(Seq::new(one.len(), |i: int| crate::server::frame::quoted_text(one[i])).len() == 1);
    assert(list_json(one) =~= seq!['[', '"'] + item + seq!['"', ']']);
    if items.len() > 0 {
        let q = Seq::new(items.len(), |i: int| crate::server::frame::quoted_text(items[i]));
        let more = items.push(item);
        let r = Seq::new(more.len(), |i: int| crate::server::frame::quoted_text(more[i]));
        assert(r.drop_last() =~= q);
        assert(r.last() == seq!['"'] + item + seq!['"']);
        assert(list_json(items).drop_last() =~= seq!['['] + joined(q, ","@));
        assert(list_json(more) =~= list_json(items).drop_last() + seq![',', '"'] + item + seq!['"', ']']);
    }
}

/// A text for the clipboard and the bell are each told at the end of a frame, under their names, and
/// change nothing else in it; a frame without them is left as it is.
pub proof fn what_is_said_once_comes_at_the_end(frame: Seq<char>, text: Seq<char>)
    ensures
        with_clipboard(frame + seq!['}'], None) == frame + seq!['}'],
        with_bell(frame + seq!['}'], false) == frame + seq!['}'],
        with_clipboard(frame + seq!['}'], Some(text)) == saying(
            frame,
            ',',
            "clipboard_osc52"@,
            between_quotes(text),
            seq!['}'],
        ),
        with_bell(frame + seq!['}'], true) == saying(
            frame,
            ',',
            "bell"@,
            yes_or_no(true),
            seq!['}'],
        ),
{
    reveal_strlit("true");
    assert((frame + seq!['}']).drop_last() =~= frame);
    assert(with_clipboard(frame + seq!['}'], Some(text)) =~= saying(
        frame,
        ',',
        "clipboard_osc52"@,
        between_quotes(text),
        seq!['}'],
    ));
    assert("true"@ =~= yes_or_no(true));
    assert(with_bell(frame + seq!['}'], true) =~= saying(frame, ',', "bell"@, yes_or_no(true), seq!['}']));
}

/// A message is told under its name as long as its time is not over, behind what lies over the
/// panes, and then no more.
pub proof fn message_is_told_while_it_is_shown(popup: Seq<char>, m: StatusMessage, display_time_ms: u64)
    ensures
        overlay_text(popup, None, display_time_ms) == popup,
        ({
            let time = if m.duration_ms is Some {
                m.duration_ms->0
            } else {
                display_time_ms
            };
            overlay_text(popup, Some(m), display_time_ms) == (if time > 0 && m.age_ms >= time {
                popup
            } else {
                saying(popup, ',', "status_message"@, between_quotes(m.text@), Seq::empty())
            })
        }),
{
    if message_shown(m, display_time_ms) {
        assert(overlay_text(popup, Some(m), display_time_ms) =~= saying(
            popup,
            ',',
            "status_message"@,
            between_quotes(m.text@),
            Seq::empty(),
        ));
    }
}

} // verus!
