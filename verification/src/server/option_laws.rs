//! What holds of the listing of options, and of those that are unset.

use vstd::prelude::*;
use crate::cli::words::opt_text;
use crate::server::options::{
    is_longer, is_reset, listed, listed_aliases, listed_entries, listed_filled, listed_part_five,
    listed_part_four, listed_part_one, listed_part_seven, listed_part_six, listed_part_three,
    listed_part_two, listed_prefixes, listed_quoted, on_off, options_text, shell_shown, Limits, Looks,
    Options, OtherTexts, Switches,
};
use crate::text::{decimal, joined, texts};

verus! {

/// How a value stands in a listing.
pub enum Written {
    /// As it is.
    Plain,
    /// Between quotes.
    Quoted,
    /// Between quotes, but not at all where it is empty.
    Filled,
}

/// A switch in words.
pub open spec fn yes_or_no(b: bool) -> Seq<char> {
    if b {
        seq!['o', 'n']
    } else {
        seq!['o', 'f', 'f']
    }
}

/// The line of an option: its name, a blank and its value.
pub open spec fn option_line(name: Seq<char>, value: Seq<char>, how: Written) -> Seq<char> {
    match how {
        Written::Plain => name + seq![' '] + value + seq!['\n'],
        Written::Quoted => name + seq![' ', '"'] + value + seq!['"', '\n'],
        Written::Filled => if value.len() == 0 {
            Seq::empty()
        } else {
            name + seq![' ', '"'] + value + seq!['"', '\n']
        },
    }
}

/// Whether two listings have two lines in one place, and are the same but for these.
pub open spec fn lists(f: Seq<char>, g: Seq<char>, x: Seq<char>, y: Seq<char>) -> bool {
    exists|before: Seq<char>, after: Seq<char>|
        f == #[trigger] ((before + x) + after) && g == before + y + after
}

/// Whether the listings of two sets of options have two lines in one place, and are the same but for
/// these.
#[verifier::opaque]
pub open spec fn line_changes(
    o: Options,
    q: Options,
    shell: Option<Seq<char>>,
    x: Seq<char>,
    y: Seq<char>,
) -> bool {
    lists(options_text(o, shell), options_text(q, shell), x, y)
}

/// Whether two listings are the same as far as they go, but for a line that was passed.
#[verifier::opaque]
spec fn walked(a: Seq<char>, b: Seq<char>, i: int, k: int, x: Seq<char>, y: Seq<char>) -> bool {
    if k < i {
        lists(a, b, x, y)
    } else {
        a == b
    }
}

/// Whether two texts are one.
spec fn is_text(a: Seq<char>, b: Seq<char>) -> bool {
    a == b
}

proof fn lemma_line(
    a: Seq<char>,
    b: Seq<char>,
    i: int,
    k: int,
    x: Seq<char>,
    y: Seq<char>,
    l: Seq<char>,
    m: Seq<char>,
)
    requires
        walked(a, b, i, k, x, y),
        i != k ==> is_text(l, m),
        i == k ==> is_text(l, x) && is_text(m, y),
    ensures
        walked(a + l, b + m, i + 1, k, x, y),
{
    reveal(walked);
    if k < i {
        let (before, after) = choose|before: Seq<char>, after: Seq<char>|
            a == #[trigger] ((before + x) + after) && b == before + y + after;
        assert(a + l =~= (before + x) + (after + l));
        assert(b + m =~= before + y + (after + l));
    } else if k == i {
        let none = Seq::<char>::empty();
        assert(a + l =~= (a + x) + none);
        assert(b + m =~= a + y + none);
    }
}

proof fn lemma_plain(s: Seq<char>, name: Seq<char>, v: Seq<char>)
    ensures
        is_text(listed(s, name, v), s + option_line(name, v, Written::Plain)),
{
    reveal_strlit(" ");
    reveal_strlit("\n");
    assert(listed(s, name, v) =~= s + option_line(name, v, Written::Plain));
}

proof fn lemma_quoted(s: Seq<char>, name: Seq<char>, v: Seq<char>)
    ensures
        is_text(listed_quoted(s, name, v), s + option_line(name, v, Written::Quoted)),
{
    reveal_strlit(" \"");
    reveal_strlit("\"\n");
    assert(listed_quoted(s, name, v) =~= s + option_line(name, v, Written::Quoted));
}

proof fn lemma_filled(s: Seq<char>, name: Seq<char>, v: Seq<char>)
    ensures
        is_text(listed_filled(s, name, v), s + option_line(name, v, Written::Filled)),
{
    lemma_quoted(s, name, v);
    if v.len() == 0 {
        assert(s + option_line(name, v, Written::Filled) =~= s);
    }
}

proof fn lemma_switch(b: bool)
    ensures
        is_text(on_off(b), yes_or_no(b)),
{
    reveal_strlit("on");
    reveal_strlit("off");
    assert(on_off(b) =~= yes_or_no(b));
}

proof fn lemma_step_plain(
    a: Seq<char>,
    b: Seq<char>,
    i: int,
    k: int,
    x: Seq<char>,
    y: Seq<char>,
    name: Seq<char>,
    v: Seq<char>,
    w: Seq<char>,
)
    requires
        walked(a, b, i, k, x, y),
        i != k ==> is_text(v, w),
        i == k ==> is_text(option_line(name, v, Written::Plain), x) && is_text(
            option_line(name, w, Written::Plain),
            y,
        ),
    ensures
        walked(listed(a, name, v), listed(b, name, w), i + 1, k, x, y),
{
    lemma_plain(a, name, v);
    lemma_plain(b, name, w);
    lemma_line(
        a,
        b,
        i,
        k,
        x,
        y,
        option_line(name, v, Written::Plain),
        option_line(name, w, Written::Plain),
    );
}

proof fn lemma_step_quoted(
    a: Seq<char>,
    b: Seq<char>,
    i: int,
    k: int,
    x: Seq<char>,
    y: Seq<char>,
    name: Seq<char>,
    v: Seq<char>,
    w: Seq<char>,
)
    requires
        walked(a, b, i, k, x, y),
        i != k ==> is_text(v, w),
        i == k ==> is_text(option_line(name, v, Written::Quoted), x) && is_text(
            option_line(name, w, Written::Quoted),
            y,
        ),
    ensures
        walked(listed_quoted(a, name, v), listed_quoted(b, name, w), i + 1, k, x, y),
{
    lemma_quoted(a, name, v);
    lemma_quoted(b, name, w);
    lemma_line(
        a,
        b,
        i,
        k,
        x,
        y,
        option_line(name, v, Written::Quoted),
        option_line(name, w, Written::Quoted),
    );
}

proof fn lemma_step_filled(
    a: Seq<char>,
    b: Seq<char>,
    i: int,
    k: int,
    x: Seq<char>,
    y: Seq<char>,
    name: Seq<char>,
    v: Seq<char>,
    w: Seq<char>,
)
    requires
        walked(a, b, i, k, x, y),
        i != k ==> is_text(v, w),
        i == k ==> is_text(option_line(name, v, Written::Filled), x) && is_text(
            option_line(name, w, Written::Filled),
            y,
        ),
    ensures
        walked(listed_filled(a, name, v), listed_filled(b, name, w), i + 1, k, x, y),
{
    lemma_filled(a, name, v);
    lemma_filled(b, name, w);
    lemma_line(
        a,
        b,
        i,
        k,
        x,
        y,
        option_line(name, v, Written::Filled),
        option_line(name, w, Written::Filled),
    );
}

#[verifier::opaque]
spec fn one_fit(o: Options, q: Options, k: int, x: Seq<char>, y: Seq<char>) -> bool {
    &&& k != 2 ==> o.limits.window_base_index == q.limits.window_base_index
    &&& k == 2 ==> is_text(option_line("base-index"@, decimal(o.limits.window_base_index as nat), Written::Plain), x) && is_text(option_line("base-index"@, decimal(q.limits.window_base_index as nat), Written::Plain), y)
    &&& k != 3 ==> o.limits.pane_base_index == q.limits.pane_base_index
    &&& k == 3 ==> is_text(option_line("pane-base-index"@, decimal(o.limits.pane_base_index as nat), Written::Plain), x) && is_text(option_line("pane-base-index"@, decimal(q.limits.pane_base_index as nat), Written::Plain), y)
    &&& k != 4 ==> o.limits.escape_time_ms == q.limits.escape_time_ms
    &&& k == 4 ==> is_text(option_line("escape-time"@, decimal(o.limits.escape_time_ms as nat), Written::Plain), x) && is_text(option_line("escape-time"@, decimal(q.limits.escape_time_ms as nat), Written::Plain), y)
    &&& k != 5 ==> o.switches.mouse_enabled == q.switches.mouse_enabled
    &&& k == 5 ==> is_text(option_line("mouse"@, on_off(o.switches.mouse_enabled), Written::Plain), x) && is_text(option_line("mouse"@, on_off(q.switches.mouse_enabled), Written::Plain), y)
    &&& k != 6 ==> o.switches.scroll_enter_copy_mode == q.switches.scroll_enter_copy_mode
    &&& k == 6 ==> is_text(option_line("scroll-enter-copy-mode"@, on_off(o.switches.scroll_enter_copy_mode), Written::Plain), x) && is_text(option_line("scroll-enter-copy-mode"@, on_off(q.switches.scroll_enter_copy_mode), Written::Plain), y)
    &&& k != 7 ==> o.switches.pwsh_mouse_selection == q.switches.pwsh_mouse_selection
    &&& k == 7 ==> is_text(option_line("pwsh-mouse-selection"@, on_off(o.switches.pwsh_mouse_selection), Written::Plain), x) && is_text(option_line("pwsh-mouse-selection"@, on_off(q.switches.pwsh_mouse_selection), Written::Plain), y)
    &&& k != 8 ==> o.switches.mouse_selection == q.switches.mouse_selection
    &&& k == 8 ==> is_text(option_line("mouse-selection"@, on_off(o.switches.mouse_selection), Written::Plain), x) && is_text(option_line("mouse-selection"@, on_off(q.switches.mouse_selection), Written::Plain), y)
    &&& k != 9 ==> o.switches.paste_detection == q.switches.paste_detection
    &&& k == 9 ==> is_text(option_line("paste-detection"@, on_off(o.switches.paste_detection), Written::Plain), x) && is_text(option_line("paste-detection"@, on_off(q.switches.paste_detection), Written::Plain), y)
    &&& k != 10 ==> o.switches.choose_tree_preview == q.switches.choose_tree_preview
    &&& k == 10 ==> is_text(option_line("choose-tree-preview"@, on_off(o.switches.choose_tree_preview), Written::Plain), x) && is_text(option_line("choose-tree-preview"@, on_off(q.switches.choose_tree_preview), Written::Plain), y)
    &&& k != 11 ==> o.switches.status_visible == q.switches.status_visible
    &&& k == 11 ==> is_text(option_line("status"@, on_off(o.switches.status_visible), Written::Plain), x) && is_text(option_line("status"@, on_off(q.switches.status_visible), Written::Plain), y)
}

#[verifier::spinoff_prover]
proof fn lemma_one_of(
    a: Seq<char>,
    b: Seq<char>,
    k: int,
    x: Seq<char>,
    y: Seq<char>,
    v0: Seq<char>,
    w0: Seq<char>,
    v1: Seq<char>,
    w1: Seq<char>,
    v2: Seq<char>,
    w2: Seq<char>,
    v3: Seq<char>,
    w3: Seq<char>,
    v4: Seq<char>,
    w4: Seq<char>,
    v5: Seq<char>,
    w5: Seq<char>,
    v6: Seq<char>,
    w6: Seq<char>,
    v7: Seq<char>,
    w7: Seq<char>,
    v8: Seq<char>,
    w8: Seq<char>,
    v9: Seq<char>,
    w9: Seq<char>,
)
    requires
        walked(a, b, 2, k, x, y),
        k != 2 ==> is_text(v0, w0),
        k == 2 ==> is_text(option_line("base-index"@, v0, Written::Plain), x) && is_text(
            option_line("base-index"@, w0, Written::Plain),
            y,
        ),
        k != 3 ==> is_text(v1, w1),
        k == 3 ==> is_text(option_line("pane-base-index"@, v1, Written::Plain), x) && is_text(
            option_line("pane-base-index"@, w1, Written::Plain),
            y,
        ),
        k != 4 ==> is_text(v2, w2),
        k == 4 ==> is_text(option_line("escape-time"@, v2, Written::Plain), x) && is_text(
            option_line("escape-time"@, w2, Written::Plain),
            y,
        ),
        k != 5 ==> is_text(v3, w3),
        k == 5 ==> is_text(option_line("mouse"@, v3, Written::Plain), x) && is_text(
            option_line("mouse"@, w3, Written::Plain),
            y,
        ),
        k != 6 ==> is_text(v4, w4),
        k == 6 ==> is_text(option_line("scroll-enter-copy-mode"@, v4, Written::Plain), x) && is_text(
            option_line("scroll-enter-copy-mode"@, w4, Written::Plain),
            y,
        ),
        k != 7 ==> is_text(v5, w5),
        k == 7 ==> is_text(option_line("pwsh-mouse-selection"@, v5, Written::Plain), x) && is_text(
            option_line("pwsh-mouse-selection"@, w5, Written::Plain),
            y,
        ),
        k != 8 ==> is_text(v6, w6),
        k == 8 ==> is_text(option_line("mouse-selection"@, v6, Written::Plain), x) && is_text(
            option_line("mouse-selection"@, w6, Written::Plain),
            y,
        ),
        k != 9 ==> is_text(v7, w7),
        k == 9 ==> is_text(option_line("paste-detection"@, v7, Written::Plain), x) && is_text(
            option_line("paste-detection"@, w7, Written::Plain),
            y,
        ),
        k != 10 ==> is_text(v8, w8),
        k == 10 ==> is_text(option_line("choose-tree-preview"@, v8, Written::Plain), x) && is_text(
            option_line("choose-tree-preview"@, w8, Written::Plain),
            y,
        ),
        k != 11 ==> is_text(v9, w9),
        k == 11 ==> is_text(option_line("status"@, v9, Written::Plain), x) && is_text(
            option_line("status"@, w9, Written::Plain),
            y,
        ),
    ensures
        walked(
            listed(listed(listed(listed(listed(listed(listed(listed(listed(listed(a, "base-index"@, v0), "pane-base-index"@, v1), "escape-time"@, v2), "mouse"@, v3), "scroll-enter-copy-mode"@, v4), "pwsh-mouse-selection"@, v5), "mouse-selection"@, v6), "paste-detection"@, v7), "choose-tree-preview"@, v8), "status"@, v9),
            listed(listed(listed(listed(listed(listed(listed(listed(listed(listed(b, "base-index"@, w0), "pane-base-index"@, w1), "escape-time"@, w2), "mouse"@, w3), "scroll-enter-copy-mode"@, w4), "pwsh-mouse-selection"@, w5), "mouse-selection"@, w6), "paste-detection"@, w7), "choose-tree-preview"@, w8), "status"@, w9),
            12,
            k,
            x,
            y,
        ),
{
    lemma_step_plain(a, b, 2, k, x, y, "base-index"@, v0, w0);
    let a0 = listed(a, "base-index"@, v0);
    let b0 = listed(b, "base-index"@, w0);
    lemma_step_plain(a0, b0, 3, k, x, y, "pane-base-index"@, v1, w1);
    let a1 = listed(a0, "pane-base-index"@, v1);
    let b1 = listed(b0, "pane-base-index"@, w1);
    lemma_step_plain(a1, b1, 4, k, x, y, "escape-time"@, v2, w2);
    let a2 = listed(a1, "escape-time"@, v2);
    let b2 = listed(b1, "escape-time"@, w2);
    lemma_step_plain(a2, b2, 5, k, x, y, "mouse"@, v3, w3);
    let a3 = listed(a2, "mouse"@, v3);
    let b3 = listed(b2, "mouse"@, w3);
    lemma_step_plain(a3, b3, 6, k, x, y, "scroll-enter-copy-mode"@, v4, w4);
    let a4 = listed(a3, "scroll-enter-copy-mode"@, v4);
    let b4 = listed(b3, "scroll-enter-copy-mode"@, w4);
    lemma_step_plain(a4, b4, 7, k, x, y, "pwsh-mouse-selection"@, v5, w5);
    let a5 = listed(a4, "pwsh-mouse-selection"@, v5);
    let b5 = listed(b4, "pwsh-mouse-selection"@, w5);
    lemma_step_plain(a5, b5, 8, k, x, y, "mouse-selection"@, v6, w6);
    let a6 = listed(a5, "mouse-selection"@, v6);
    let b6 = listed(b5, "mouse-selection"@, w6);
    lemma_step_plain(a6, b6, 9, k, x, y, "paste-detection"@, v7, w7);
    let a7 = listed(a6, "paste-detection"@, v7);
    let b7 = listed(b6, "paste-detection"@, w7);
    lemma_step_plain(a7, b7, 10, k, x, y, "choose-tree-preview"@, v8, w8);
    let a8 = listed(a7, "choose-tree-preview"@, v8);
    let b8 = listed(b7, "choose-tree-preview"@, w8);
    lemma_step_plain(a8, b8, 11, k, x, y, "status"@, v9, w9);
    let a9 = listed(a8, "status"@, v9);
    let b9 = listed(b8, "status"@, w9);
}

#[verifier::spinoff_prover]
proof fn lemma_part_one(
    a: Seq<char>,
    b: Seq<char>,
    o: Options,
    q: Options,
    k: int,
    x: Seq<char>,
    y: Seq<char>,
)
    requires
        walked(a, b, 2, k, x, y),
        one_fit(o, q, k, x, y),
    ensures
        walked(listed_part_one(a, o), listed_part_one(b, q), 12, k, x, y),
{
    reveal(one_fit);
    lemma_one_of(
        a,
        b,
        k,
        x,
        y,
        decimal(o.limits.window_base_index as nat),
        decimal(q.limits.window_base_index as nat),
        decimal(o.limits.pane_base_index as nat),
        decimal(q.limits.pane_base_index as nat),
        decimal(o.limits.escape_time_ms as nat),
        decimal(q.limits.escape_time_ms as nat),
        on_off(o.switches.mouse_enabled),
        on_off(q.switches.mouse_enabled),
        on_off(o.switches.scroll_enter_copy_mode),
        on_off(q.switches.scroll_enter_copy_mode),
        on_off(o.switches.pwsh_mouse_selection),
        on_off(q.switches.pwsh_mouse_selection),
        on_off(o.switches.mouse_selection),
        on_off(q.switches.mouse_selection),
        on_off(o.switches.paste_detection),
        on_off(q.switches.paste_detection),
        on_off(o.switches.choose_tree_preview),
        on_off(q.switches.choose_tree_preview),
        on_off(o.switches.status_visible),
        on_off(q.switches.status_visible),
    );
}

#[verifier::opaque]
spec fn two_fit(o: Options, q: Options, k: int, x: Seq<char>, y: Seq<char>) -> bool {
    &&& k != 12 ==> o.looks.status_position == q.looks.status_position
    &&& k == 12 ==> is_text(option_line("status-position"@, o.looks.status_position@, Written::Plain), x) && is_text(option_line("status-position"@, q.looks.status_position@, Written::Plain), y)
    &&& k != 13 ==> o.looks.status_left == q.looks.status_left
    &&& k == 13 ==> is_text(option_line("status-left"@, o.looks.status_left@, Written::Quoted), x) && is_text(option_line("status-left"@, q.looks.status_left@, Written::Quoted), y)
    &&& k != 14 ==> o.looks.status_right == q.looks.status_right
    &&& k == 14 ==> is_text(option_line("status-right"@, o.looks.status_right@, Written::Quoted), x) && is_text(option_line("status-right"@, q.looks.status_right@, Written::Quoted), y)
    &&& k != 15 ==> o.limits.history_limit == q.limits.history_limit
    &&& k == 15 ==> is_text(option_line("history-limit"@, decimal(o.limits.history_limit as nat), Written::Plain), x) && is_text(option_line("history-limit"@, decimal(q.limits.history_limit as nat), Written::Plain), y)
    &&& k != 16 ==> o.limits.display_time_ms == q.limits.display_time_ms
    &&& k == 16 ==> is_text(option_line("display-time"@, decimal(o.limits.display_time_ms as nat), Written::Plain), x) && is_text(option_line("display-time"@, decimal(q.limits.display_time_ms as nat), Written::Plain), y)
    &&& k != 17 ==> o.limits.display_panes_time_ms == q.limits.display_panes_time_ms
    &&& k == 17 ==> is_text(option_line("display-panes-time"@, decimal(o.limits.display_panes_time_ms as nat), Written::Plain), x) && is_text(option_line("display-panes-time"@, decimal(q.limits.display_panes_time_ms as nat), Written::Plain), y)
    &&& k != 18 ==> o.looks.mode_keys == q.looks.mode_keys
    &&& k == 18 ==> is_text(option_line("mode-keys"@, o.looks.mode_keys@, Written::Plain), x) && is_text(option_line("mode-keys"@, q.looks.mode_keys@, Written::Plain), y)
    &&& k != 19 ==> o.switches.focus_events == q.switches.focus_events
    &&& k == 19 ==> is_text(option_line("focus-events"@, on_off(o.switches.focus_events), Written::Plain), x) && is_text(option_line("focus-events"@, on_off(q.switches.focus_events), Written::Plain), y)
    &&& k != 20 ==> o.switches.renumber_windows == q.switches.renumber_windows
    &&& k == 20 ==> is_text(option_line("renumber-windows"@, on_off(o.switches.renumber_windows), Written::Plain), x) && is_text(option_line("renumber-windows"@, on_off(q.switches.renumber_windows), Written::Plain), y)
    &&& k != 21 ==> o.switches.automatic_rename == q.switches.automatic_rename
    &&& k == 21 ==> is_text(option_line("automatic-rename"@, on_off(o.switches.automatic_rename), Written::Plain), x) && is_text(option_line("automatic-rename"@, on_off(q.switches.automatic_rename), Written::Plain), y)
}

#[verifier::spinoff_prover]
proof fn lemma_two_of(
    a: Seq<char>,
    b: Seq<char>,
    k: int,
    x: Seq<char>,
    y: Seq<char>,
    v0: Seq<char>,
    w0: Seq<char>,
    v1: Seq<char>,
    w1: Seq<char>,
    v2: Seq<char>,
    w2: Seq<char>,
    v3: Seq<char>,
    w3: Seq<char>,
    v4: Seq<char>,
    w4: Seq<char>,
    v5: Seq<char>,
    w5: Seq<char>,
    v6: Seq<char>,
    w6: Seq<char>,
    v7: Seq<char>,
    w7: Seq<char>,
    v8: Seq<char>,
    w8: Seq<char>,
    v9: Seq<char>,
    w9: Seq<char>,
)
    requires
        walked(a, b, 12, k, x, y),
        k != 12 ==> is_text(v0, w0),
        k == 12 ==> is_text(option_line("status-position"@, v0, Written::Plain), x) && is_text(
            option_line("status-position"@, w0, Written::Plain),
            y,
        ),
        k != 13 ==> is_text(v1, w1),
        k == 13 ==> is_text(option_line("status-left"@, v1, Written::Quoted), x) && is_text(
            option_line("status-left"@, w1, Written::Quoted),
            y,
        ),
        k != 14 ==> is_text(v2, w2),
        k == 14 ==> is_text(option_line("status-right"@, v2, Written::Quoted), x) && is_text(
            option_line("status-right"@, w2, Written::Quoted),
            y,
        ),
        k != 15 ==> is_text(v3, w3),
        k == 15 ==> is_text(option_line("history-limit"@, v3, Written::Plain), x) && is_text(
            option_line("history-limit"@, w3, Written::Plain),
            y,
        ),
        k != 16 ==> is_text(v4, w4),
        k == 16 ==> is_text(option_line("display-time"@, v4, Written::Plain), x) && is_text(
            option_line("display-time"@, w4, Written::Plain),
            y,
        ),
        k != 17 ==> is_text(v5, w5),
        k == 17 ==> is_text(option_line("display-panes-time"@, v5, Written::Plain), x) && is_text(
            option_line("display-panes-time"@, w5, Written::Plain),
            y,
        ),
        k != 18 ==> is_text(v6, w6),
        k == 18 ==> is_text(option_line("mode-keys"@, v6, Written::Plain), x) && is_text(
            option_line("mode-keys"@, w6, Written::Plain),
            y,
        ),
        k != 19 ==> is_text(v7, w7),
        k == 19 ==> is_text(option_line("focus-events"@, v7, Written::Plain), x) && is_text(
            option_line("focus-events"@, w7, Written::Plain),
            y,
        ),
        k != 20 ==> is_text(v8, w8),
        k == 20 ==> is_text(option_line("renumber-windows"@, v8, Written::Plain), x) && is_text(
            option_line("renumber-windows"@, w8, Written::Plain),
            y,
        ),
        k != 21 ==> is_text(v9, w9),
        k == 21 ==> is_text(option_line("automatic-rename"@, v9, Written::Plain), x) && is_text(
            option_line("automatic-rename"@, w9, Written::Plain),
            y,
        ),
    ensures
        walked(
            listed(listed(listed(listed(listed(listed(listed(listed_quoted(listed_quoted(listed(a, "status-position"@, v0), "status-left"@, v1), "status-right"@, v2), "history-limit"@, v3), "display-time"@, v4), "display-panes-time"@, v5), "mode-keys"@, v6), "focus-events"@, v7), "renumber-windows"@, v8), "automatic-rename"@, v9),
            listed(listed(listed(listed(listed(listed(listed(listed_quoted(listed_quoted(listed(b, "status-position"@, w0), "status-left"@, w1), "status-right"@, w2), "history-limit"@, w3), "display-time"@, w4), "display-panes-time"@, w5), "mode-keys"@, w6), "focus-events"@, w7), "renumber-windows"@, w8), "automatic-rename"@, w9),
            22,
            k,
            x,
            y,
        ),
{
    lemma_step_plain(a, b, 12, k, x, y, "status-position"@, v0, w0);
    let a0 = listed(a, "status-position"@, v0);
    let b0 = listed(b, "status-position"@, w0);
    lemma_step_quoted(a0, b0, 13, k, x, y, "status-left"@, v1, w1);
    let a1 = listed_quoted(a0, "status-left"@, v1);
    let b1 = listed_quoted(b0, "status-left"@, w1);
    lemma_step_quoted(a1, b1, 14, k, x, y, "status-right"@, v2, w2);
    let a2 = listed_quoted(a1, "status-right"@, v2);
    let b2 = listed_quoted(b1, "status-right"@, w2);
    lemma_step_plain(a2, b2, 15, k, x, y, "history-limit"@, v3, w3);
    let a3 = listed(a2, "history-limit"@, v3);
    let b3 = listed(b2, "history-limit"@, w3);
    lemma_step_plain(a3, b3, 16, k, x, y, "display-time"@, v4, w4);
    let a4 = listed(a3, "display-time"@, v4);
    let b4 = listed(b3, "display-time"@, w4);
    lemma_step_plain(a4, b4, 17, k, x, y, "display-panes-time"@, v5, w5);
    let a5 = listed(a4, "display-panes-time"@, v5);
    let b5 = listed(b4, "display-panes-time"@, w5);
    lemma_step_plain(a5, b5, 18, k, x, y, "mode-keys"@, v6, w6);
    let a6 = listed(a5, "mode-keys"@, v6);
    let b6 = listed(b5, "mode-keys"@, w6);
    lemma_step_plain(a6, b6, 19, k, x, y, "focus-events"@, v7, w7);
    let a7 = listed(a6, "focus-events"@, v7);
    let b7 = listed(b6, "focus-events"@, w7);
    lemma_step_plain(a7, b7, 20, k, x, y, "renumber-windows"@, v8, w8);
    let a8 = listed(a7, "renumber-windows"@, v8);
    let b8 = listed(b7, "renumber-windows"@, w8);
    lemma_step_plain(a8, b8, 21, k, x, y, "automatic-rename"@, v9, w9);
    let a9 = listed(a8, "automatic-rename"@, v9);
    let b9 = listed(b8, "automatic-rename"@, w9);
}

#[verifier::spinoff_prover]
proof fn lemma_part_two(
    a: Seq<char>,
    b: Seq<char>,
    o: Options,
    q: Options,
    k: int,
    x: Seq<char>,
    y: Seq<char>,
)
    requires
        walked(a, b, 12, k, x, y),
        two_fit(o, q, k, x, y),
    ensures
        walked(listed_part_two(a, o), listed_part_two(b, q), 22, k, x, y),
{
    reveal(two_fit);
    lemma_two_of(
        a,
        b,
        k,
        x,
        y,
        o.looks.status_position@,
        q.looks.status_position@,
        o.looks.status_left@,
        q.looks.status_left@,
        o.looks.status_right@,
        q.looks.status_right@,
        decimal(o.limits.history_limit as nat),
        decimal(q.limits.history_limit as nat),
        decimal(o.limits.display_time_ms as nat),
        decimal(q.limits.display_time_ms as nat),
        decimal(o.limits.display_panes_time_ms as nat),
        decimal(q.limits.display_panes_time_ms as nat),
        o.looks.mode_keys@,
        q.looks.mode_keys@,
        on_off(o.switches.focus_events),
        on_off(q.switches.focus_events),
        on_off(o.switches.renumber_windows),
        on_off(q.switches.renumber_windows),
        on_off(o.switches.automatic_rename),
        on_off(q.switches.automatic_rename),
    );
}

#[verifier::opaque]
spec fn three_fit(o: Options, q: Options, k: int, x: Seq<char>, y: Seq<char>) -> bool {
    &&& k != 22 ==> o.switches.monitor_activity == q.switches.monitor_activity
    &&& k == 22 ==> is_text(option_line("monitor-activity"@, on_off(o.switches.monitor_activity), Written::Plain), x) && is_text(option_line("monitor-activity"@, on_off(q.switches.monitor_activity), Written::Plain), y)
    &&& k != 23 ==> o.switches.sync_input == q.switches.sync_input
    &&& k == 23 ==> is_text(option_line("synchronize-panes"@, on_off(o.switches.sync_input), Written::Plain), x) && is_text(option_line("synchronize-panes"@, on_off(q.switches.sync_input), Written::Plain), y)
    &&& k != 24 ==> o.switches.remain_on_exit == q.switches.remain_on_exit
    &&& k == 24 ==> is_text(option_line("remain-on-exit"@, on_off(o.switches.remain_on_exit), Written::Plain), x) && is_text(option_line("remain-on-exit"@, on_off(q.switches.remain_on_exit), Written::Plain), y)
    &&& k != 25 ==> o.switches.destroy_unattached == q.switches.destroy_unattached
    &&& k == 25 ==> is_text(option_line("destroy-unattached"@, on_off(o.switches.destroy_unattached), Written::Plain), x) && is_text(option_line("destroy-unattached"@, on_off(q.switches.destroy_unattached), Written::Plain), y)
    &&& k != 26 ==> o.switches.exit_empty == q.switches.exit_empty
    &&& k == 26 ==> is_text(option_line("exit-empty"@, on_off(o.switches.exit_empty), Written::Plain), x) && is_text(option_line("exit-empty"@, on_off(q.switches.exit_empty), Written::Plain), y)
    &&& k != 27 ==> o.switches.set_titles == q.switches.set_titles
    &&& k == 27 ==> is_text(option_line("set-titles"@, on_off(o.switches.set_titles), Written::Plain), x) && is_text(option_line("set-titles"@, on_off(q.switches.set_titles), Written::Plain), y)
    &&& k != 28 ==> o.other.set_titles_string == q.other.set_titles_string
    &&& k == 28 ==> is_text(option_line("set-titles-string"@, o.other.set_titles_string@, Written::Filled), x) && is_text(option_line("set-titles-string"@, q.other.set_titles_string@, Written::Filled), y)
    &&& k != 29 ==> o.switches.prediction_dimming == q.switches.prediction_dimming
    &&& k == 29 ==> is_text(option_line("prediction-dimming"@, on_off(o.switches.prediction_dimming), Written::Plain), x) && is_text(option_line("prediction-dimming"@, on_off(q.switches.prediction_dimming), Written::Plain), y)
    &&& k != 30 ==> o.switches.allow_predictions == q.switches.allow_predictions
    &&& k == 30 ==> is_text(option_line("allow-predictions"@, on_off(o.switches.allow_predictions), Written::Plain), x) && is_text(option_line("allow-predictions"@, on_off(q.switches.allow_predictions), Written::Plain), y)
    &&& k != 31 ==> o.looks.cursor_style == q.looks.cursor_style
    &&& k == 31 ==> is_text(option_line("cursor-style"@, o.looks.cursor_style@, Written::Plain), x) && is_text(option_line("cursor-style"@, q.looks.cursor_style@, Written::Plain), y)
}

#[verifier::spinoff_prover]
proof fn lemma_three_of(
    a: Seq<char>,
    b: Seq<char>,
    k: int,
    x: Seq<char>,
    y: Seq<char>,
    v0: Seq<char>,
    w0: Seq<char>,
    v1: Seq<char>,
    w1: Seq<char>,
    v2: Seq<char>,
    w2: Seq<char>,
    v3: Seq<char>,
    w3: Seq<char>,
    v4: Seq<char>,
    w4: Seq<char>,
    v5: Seq<char>,
    w5: Seq<char>,
    v6: Seq<char>,
    w6: Seq<char>,
    v7: Seq<char>,
    w7: Seq<char>,
    v8: Seq<char>,
    w8: Seq<char>,
    v9: Seq<char>,
    w9: Seq<char>,
)
    requires
        walked(a, b, 22, k, x, y),
        k != 22 ==> is_text(v0, w0),
        k == 22 ==> is_text(option_line("monitor-activity"@, v0, Written::Plain), x) && is_text(
            option_line("monitor-activity"@, w0, Written::Plain),
            y,
        ),
        k != 23 ==> is_text(v1, w1),
        k == 23 ==> is_text(option_line("synchronize-panes"@, v1, Written::Plain), x) && is_text(
            option_line("synchronize-panes"@, w1, Written::Plain),
            y,
        ),
        k != 24 ==> is_text(v2, w2),
        k == 24 ==> is_text(option_line("remain-on-exit"@, v2, Written::Plain), x) && is_text(
            option_line("remain-on-exit"@, w2, Written::Plain),
            y,
        ),
        k != 25 ==> is_text(v3, w3),
        k == 25 ==> is_text(option_line("destroy-unattached"@, v3, Written::Plain), x) && is_text(
            option_line("destroy-unattached"@, w3, Written::Plain),
            y,
        ),
        k != 26 ==> is_text(v4, w4),
        k == 26 ==> is_text(option_line("exit-empty"@, v4, Written::Plain), x) && is_text(
            option_line("exit-empty"@, w4, Written::Plain),
            y,
        ),
        k != 27 ==> is_text(v5, w5),
        k == 27 ==> is_text(option_line("set-titles"@, v5, Written::Plain), x) && is_text(
            option_line("set-titles"@, w5, Written::Plain),
            y,
        ),
        k != 28 ==> is_text(v6, w6),
        k == 28 ==> is_text(option_line("set-titles-string"@, v6, Written::Filled), x) && is_text(
            option_line("set-titles-string"@, w6, Written::Filled),
            y,
        ),
        k != 29 ==> is_text(v7, w7),
        k == 29 ==> is_text(option_line("prediction-dimming"@, v7, Written::Plain), x) && is_text(
            option_line("prediction-dimming"@, w7, Written::Plain),
            y,
        ),
        k != 30 ==> is_text(v8, w8),
        k == 30 ==> is_text(option_line("allow-predictions"@, v8, Written::Plain), x) && is_text(
            option_line("allow-predictions"@, w8, Written::Plain),
            y,
        ),
        k != 31 ==> is_text(v9, w9),
        k == 31 ==> is_text(option_line("cursor-style"@, v9, Written::Plain), x) && is_text(
            option_line("cursor-style"@, w9, Written::Plain),
            y,
        ),
    ensures
        walked(
            listed(listed(listed(listed_filled(listed(listed(listed(listed(listed(listed(a, "monitor-activity"@, v0), "synchronize-panes"@, v1), "remain-on-exit"@, v2), "destroy-unattached"@, v3), "exit-empty"@, v4), "set-titles"@, v5), "set-titles-string"@, v6), "prediction-dimming"@, v7), "allow-predictions"@, v8), "cursor-style"@, v9),
            listed(listed(listed(listed_filled(listed(listed(listed(listed(listed(listed(b, "monitor-activity"@, w0), "synchronize-panes"@, w1), "remain-on-exit"@, w2), "destroy-unattached"@, w3), "exit-empty"@, w4), "set-titles"@, w5), "set-titles-string"@, w6), "prediction-dimming"@, w7), "allow-predictions"@, w8), "cursor-style"@, w9),
            32,
            k,
            x,
            y,
        ),
{
    lemma_step_plain(a, b, 22, k, x, y, "monitor-activity"@, v0, w0);
    let a0 = listed(a, "monitor-activity"@, v0);
    let b0 = listed(b, "monitor-activity"@, w0);
    lemma_step_plain(a0, b0, 23, k, x, y, "synchronize-panes"@, v1, w1);
    let a1 = listed(a0, "synchronize-panes"@, v1);
    let b1 = listed(b0, "synchronize-panes"@, w1);
    lemma_step_plain(a1, b1, 24, k, x, y, "remain-on-exit"@, v2, w2);
    let a2 = listed(a1, "remain-on-exit"@, v2);
    let b2 = listed(b1, "remain-on-exit"@, w2);
    lemma_step_plain(a2, b2, 25, k, x, y, "destroy-unattached"@, v3, w3);
    let a3 = listed(a2, "destroy-unattached"@, v3);
    let b3 = listed(b2, "destroy-unattached"@, w3);
    lemma_step_plain(a3, b3, 26, k, x, y, "exit-empty"@, v4, w4);
    let a4 = listed(a3, "exit-empty"@, v4);
    let b4 = listed(b3, "exit-empty"@, w4);
    lemma_step_plain(a4, b4, 27, k, x, y, "set-titles"@, v5, w5);
    let a5 = listed(a4, "set-titles"@, v5);
    let b5 = listed(b4, "set-titles"@, w5);
    lemma_step_filled(a5, b5, 28, k, x, y, "set-titles-string"@, v6, w6);
    let a6 = listed_filled(a5, "set-titles-string"@, v6);
    let b6 = listed_filled(b5, "set-titles-string"@, w6);
    lemma_step_plain(a6, b6, 29, k, x, y, "prediction-dimming"@, v7, w7);
    let a7 = listed(a6, "prediction-dimming"@, v7);
    let b7 = listed(b6, "prediction-dimming"@, w7);
    lemma_step_plain(a7, b7, 30, k, x, y, "allow-predictions"@, v8, w8);
    let a8 = listed(a7, "allow-predictions"@, v8);
    let b8 = listed(b7, "allow-predictions"@, w8);
    lemma_step_plain(a8, b8, 31, k, x, y, "cursor-style"@, v9, w9);
    let a9 = listed(a8, "cursor-style"@, v9);
    let b9 = listed(b8, "cursor-style"@, w9);
}

#[verifier::spinoff_prover]
proof fn lemma_part_three(
    a: Seq<char>,
    b: Seq<char>,
    o: Options,
    q: Options,
    k: int,
    x: Seq<char>,
    y: Seq<char>,
)
    requires
        walked(a, b, 22, k, x, y),
        three_fit(o, q, k, x, y),
    ensures
        walked(listed_part_three(a, o), listed_part_three(b, q), 32, k, x, y),
{
    reveal(three_fit);
    lemma_three_of(
        a,
        b,
        k,
        x,
        y,
        on_off(o.switches.monitor_activity),
        on_off(q.switches.monitor_activity),
        on_off(o.switches.sync_input),
        on_off(q.switches.sync_input),
        on_off(o.switches.remain_on_exit),
        on_off(q.switches.remain_on_exit),
        on_off(o.switches.destroy_unattached),
        on_off(q.switches.destroy_unattached),
        on_off(o.switches.exit_empty),
        on_off(q.switches.exit_empty),
        on_off(o.switches.set_titles),
        on_off(q.switches.set_titles),
        o.other.set_titles_string@,
        q.other.set_titles_string@,
        on_off(o.switches.prediction_dimming),
        on_off(q.switches.prediction_dimming),
        on_off(o.switches.allow_predictions),
        on_off(q.switches.allow_predictions),
        o.looks.cursor_style@,
        q.looks.cursor_style@,
    );
}

#[verifier::opaque]
spec fn four_fit(o: Options, q: Options, shell: Option<Seq<char>>, k: int, x: Seq<char>, y: Seq<char>) -> bool {
    &&& k != 32 ==> o.looks.cursor_blink == q.looks.cursor_blink
    &&& k == 32 ==> is_text(option_line("cursor-blink"@, on_off(o.looks.cursor_blink@ != "0"@), Written::Plain), x) && is_text(option_line("cursor-blink"@, on_off(q.looks.cursor_blink@ != "0"@), Written::Plain), y)
    &&& k != 33 ==> o.other.default_shell == q.other.default_shell
    &&& k == 33 ==> is_text(option_line("default-shell"@, shell_shown(o.other.default_shell@, shell), Written::Plain), x) && is_text(option_line("default-shell"@, shell_shown(q.other.default_shell@, shell), Written::Plain), y)
    &&& k != 34 ==> o.other.word_separators == q.other.word_separators
    &&& k == 34 ==> is_text(option_line("word-separators"@, o.other.word_separators@, Written::Quoted), x) && is_text(option_line("word-separators"@, q.other.word_separators@, Written::Quoted), y)
    &&& k != 35 ==> o.looks.pane_border_style == q.looks.pane_border_style
    &&& k == 35 ==> is_text(option_line("pane-border-style"@, o.looks.pane_border_style@, Written::Filled), x) && is_text(option_line("pane-border-style"@, q.looks.pane_border_style@, Written::Filled), y)
    &&& k != 36 ==> o.looks.pane_active_border_style == q.looks.pane_active_border_style
    &&& k == 36 ==> is_text(option_line("pane-active-border-style"@, o.looks.pane_active_border_style@, Written::Filled), x) && is_text(option_line("pane-active-border-style"@, q.looks.pane_active_border_style@, Written::Filled), y)
    &&& k != 37 ==> o.looks.pane_border_hover_style == q.looks.pane_border_hover_style
    &&& k == 37 ==> is_text(option_line("pane-border-hover-style"@, o.looks.pane_border_hover_style@, Written::Filled), x) && is_text(option_line("pane-border-hover-style"@, q.looks.pane_border_hover_style@, Written::Filled), y)
    &&& k != 38 ==> o.looks.status_style == q.looks.status_style
    &&& k == 38 ==> is_text(option_line("status-style"@, o.looks.status_style@, Written::Filled), x) && is_text(option_line("status-style"@, q.looks.status_style@, Written::Filled), y)
    &&& k != 39 ==> o.other.status_left_style == q.other.status_left_style
    &&& k == 39 ==> is_text(option_line("status-left-style"@, o.other.status_left_style@, Written::Filled), x) && is_text(option_line("status-left-style"@, q.other.status_left_style@, Written::Filled), y)
    &&& k != 40 ==> o.other.status_right_style == q.other.status_right_style
    &&& k == 40 ==> is_text(option_line("status-right-style"@, o.other.status_right_style@, Written::Filled), x) && is_text(option_line("status-right-style"@, q.other.status_right_style@, Written::Filled), y)
    &&& k != 41 ==> o.limits.status_interval == q.limits.status_interval
    &&& k == 41 ==> is_text(option_line("status-interval"@, decimal(o.limits.status_interval as nat), Written::Plain), x) && is_text(option_line("status-interval"@, decimal(q.limits.status_interval as nat), Written::Plain), y)
}

#[verifier::spinoff_prover]
proof fn lemma_four_of(
    a: Seq<char>,
    b: Seq<char>,
    k: int,
    x: Seq<char>,
    y: Seq<char>,
    v0: Seq<char>,
    w0: Seq<char>,
    v1: Seq<char>,
    w1: Seq<char>,
    v2: Seq<char>,
    w2: Seq<char>,
    v3: Seq<char>,
    w3: Seq<char>,
    v4: Seq<char>,
    w4: Seq<char>,
    v5: Seq<char>,
    w5: Seq<char>,
    v6: Seq<char>,
    w6: Seq<char>,
    v7: Seq<char>,
    w7: Seq<char>,
    v8: Seq<char>,
    w8: Seq<char>,
    v9: Seq<char>,
    w9: Seq<char>,
)
    requires
        walked(a, b, 32, k, x, y),
        k != 32 ==> is_text(v0, w0),
        k == 32 ==> is_text(option_line("cursor-blink"@, v0, Written::Plain), x) && is_text(
            option_line("cursor-blink"@, w0, Written::Plain),
            y,
        ),
        k != 33 ==> is_text(v1, w1),
        k == 33 ==> is_text(option_line("default-shell"@, v1, Written::Plain), x) && is_text(
            option_line("default-shell"@, w1, Written::Plain),
            y,
        ),
        k != 34 ==> is_text(v2, w2),
        k == 34 ==> is_text(option_line("word-separators"@, v2, Written::Quoted), x) && is_text(
            option_line("word-separators"@, w2, Written::Quoted),
            y,
        ),
        k != 35 ==> is_text(v3, w3),
        k == 35 ==> is_text(option_line("pane-border-style"@, v3, Written::Filled), x) && is_text(
            option_line("pane-border-style"@, w3, Written::Filled),
            y,
        ),
        k != 36 ==> is_text(v4, w4),
        k == 36 ==> is_text(option_line("pane-active-border-style"@, v4, Written::Filled), x) && is_text(
            option_line("pane-active-border-style"@, w4, Written::Filled),
            y,
        ),
        k != 37 ==> is_text(v5, w5),
        k == 37 ==> is_text(option_line("pane-border-hover-style"@, v5, Written::Filled), x) && is_text(
            option_line("pane-border-hover-style"@, w5, Written::Filled),
            y,
        ),
        k != 38 ==> is_text(v6, w6),
        k == 38 ==> is_text(option_line("status-style"@, v6, Written::Filled), x) && is_text(
            option_line("status-style"@, w6, Written::Filled),
            y,
        ),
        k != 39 ==> is_text(v7, w7),
        k == 39 ==> is_text(option_line("status-left-style"@, v7, Written::Filled), x) && is_text(
            option_line("status-left-style"@, w7, Written::Filled),
            y,
        ),
        k != 40 ==> is_text(v8, w8),
        k == 40 ==> is_text(option_line("status-right-style"@, v8, Written::Filled), x) && is_text(
            option_line("status-right-style"@, w8, Written::Filled),
            y,
        ),
        k != 41 ==> is_text(v9, w9),
        k == 41 ==> is_text(option_line("status-interval"@, v9, Written::Plain), x) && is_text(
            option_line("status-interval"@, w9, Written::Plain),
            y,
        ),
    ensures
        walked(
            listed(listed_filled(listed_filled(listed_filled(listed_filled(listed_filled(listed_filled(listed_quoted(listed(listed(a, "cursor-blink"@, v0), "default-shell"@, v1), "word-separators"@, v2), "pane-border-style"@, v3), "pane-active-border-style"@, v4), "pane-border-hover-style"@, v5), "status-style"@, v6), "status-left-style"@, v7), "status-right-style"@, v8), "status-interval"@, v9),
            listed(listed_filled(listed_filled(listed_filled(listed_filled(listed_filled(listed_filled(listed_quoted(listed(listed(b, "cursor-blink"@, w0), "default-shell"@, w1), "word-separators"@, w2), "pane-border-style"@, w3), "pane-active-border-style"@, w4), "pane-border-hover-style"@, w5), "status-style"@, w6), "status-left-style"@, w7), "status-right-style"@, w8), "status-interval"@, w9),
            42,
            k,
            x,
            y,
        ),
{
    lemma_step_plain(a, b, 32, k, x, y, "cursor-blink"@, v0, w0);
    let a0 = listed(a, "cursor-blink"@, v0);
    let b0 = listed(b, "cursor-blink"@, w0);
    lemma_step_plain(a0, b0, 33, k, x, y, "default-shell"@, v1, w1);
    let a1 = listed(a0, "default-shell"@, v1);
    let b1 = listed(b0, "default-shell"@, w1);
    lemma_step_quoted(a1, b1, 34, k, x, y, "word-separators"@, v2, w2);
    let a2 = listed_quoted(a1, "word-separators"@, v2);
    let b2 = listed_quoted(b1, "word-separators"@, w2);
    lemma_step_filled(a2, b2, 35, k, x, y, "pane-border-style"@, v3, w3);
    let a3 = listed_filled(a2, "pane-border-style"@, v3);
    let b3 = listed_filled(b2, "pane-border-style"@, w3);
    lemma_step_filled(a3, b3, 36, k, x, y, "pane-active-border-style"@, v4, w4);
    let a4 = listed_filled(a3, "pane-active-border-style"@, v4);
    let b4 = listed_filled(b3, "pane-active-border-style"@, w4);
    lemma_step_filled(a4, b4, 37, k, x, y, "pane-border-hover-style"@, v5, w5);
    let a5 = listed_filled(a4, "pane-border-hover-style"@, v5);
    let b5 = listed_filled(b4, "pane-border-hover-style"@, w5);
    lemma_step_filled(a5, b5, 38, k, x, y, "status-style"@, v6, w6);
    let a6 = listed_filled(a5, "status-style"@, v6);
    let b6 = listed_filled(b5, "status-style"@, w6);
    lemma_step_filled(a6, b6, 39, k, x, y, "status-left-style"@, v7, w7);
    let a7 = listed_filled(a6, "status-left-style"@, v7);
    let b7 = listed_filled(b6, "status-left-style"@, w7);
    lemma_step_filled(a7, b7, 40, k, x, y, "status-right-style"@, v8, w8);
    let a8 = listed_filled(a7, "status-right-style"@, v8);
    let b8 = listed_filled(b7, "status-right-style"@, w8);
    lemma_step_plain(a8, b8, 41, k, x, y, "status-interval"@, v9, w9);
    let a9 = listed(a8, "status-interval"@, v9);
    let b9 = listed(b8, "status-interval"@, w9);
}

#[verifier::spinoff_prover]
proof fn lemma_part_four(
    a: Seq<char>,
    b: Seq<char>,
    o: Options,
    q: Options,
    shell: Option<Seq<char>>,
    k: int,
    x: Seq<char>,
    y: Seq<char>,
)
    requires
        walked(a, b, 32, k, x, y),
        four_fit(o, q, shell, k, x, y),
    ensures
        walked(listed_part_four(a, o, shell), listed_part_four(b, q, shell), 42, k, x, y),
{
    reveal(four_fit);
    lemma_four_of(
        a,
        b,
        k,
        x,
        y,
        on_off(o.looks.cursor_blink@ != "0"@),
        on_off(q.looks.cursor_blink@ != "0"@),
        shell_shown(o.other.default_shell@, shell),
        shell_shown(q.other.default_shell@, shell),
        o.other.word_separators@,
        q.other.word_separators@,
        o.looks.pane_border_style@,
        q.looks.pane_border_style@,
        o.looks.pane_active_border_style@,
        q.looks.pane_active_border_style@,
        o.looks.pane_border_hover_style@,
        q.looks.pane_border_hover_style@,
        o.looks.status_style@,
        q.looks.status_style@,
        o.other.status_left_style@,
        q.other.status_left_style@,
        o.other.status_right_style@,
        q.other.status_right_style@,
        decimal(o.limits.status_interval as nat),
        decimal(q.limits.status_interval as nat),
    );
}

#[verifier::opaque]
spec fn five_fit(o: Options, q: Options, k: int, x: Seq<char>, y: Seq<char>) -> bool {
    &&& k != 42 ==> o.other.status_justify == q.other.status_justify
    &&& k == 42 ==> is_text(option_line("status-justify"@, o.other.status_justify@, Written::Plain), x) && is_text(option_line("status-justify"@, q.other.status_justify@, Written::Plain), y)
    &&& k != 43 ==> o.looks.window_status_format == q.looks.window_status_format
    &&& k == 43 ==> is_text(option_line("window-status-format"@, o.looks.window_status_format@, Written::Quoted), x) && is_text(option_line("window-status-format"@, q.looks.window_status_format@, Written::Quoted), y)
    &&& k != 44 ==> o.looks.window_status_current_format == q.looks.window_status_current_format
    &&& k == 44 ==> is_text(option_line("window-status-current-format"@, o.looks.window_status_current_format@, Written::Quoted), x) && is_text(option_line("window-status-current-format"@, q.looks.window_status_current_format@, Written::Quoted), y)
    &&& k != 45 ==> o.other.window_status_style == q.other.window_status_style
    &&& k == 45 ==> is_text(option_line("window-status-style"@, o.other.window_status_style@, Written::Filled), x) && is_text(option_line("window-status-style"@, q.other.window_status_style@, Written::Filled), y)
    &&& k != 46 ==> o.other.window_status_current_style == q.other.window_status_current_style
    &&& k == 46 ==> is_text(option_line("window-status-current-style"@, o.other.window_status_current_style@, Written::Filled), x) && is_text(option_line("window-status-current-style"@, q.other.window_status_current_style@, Written::Filled), y)
    &&& k != 47 ==> o.other.window_status_activity_style == q.other.window_status_activity_style
    &&& k == 47 ==> is_text(option_line("window-status-activity-style"@, o.other.window_status_activity_style@, Written::Filled), x) && is_text(option_line("window-status-activity-style"@, q.other.window_status_activity_style@, Written::Filled), y)
    &&& k != 48 ==> o.other.message_style == q.other.message_style
    &&& k == 48 ==> is_text(option_line("message-style"@, o.other.message_style@, Written::Filled), x) && is_text(option_line("message-style"@, q.other.message_style@, Written::Filled), y)
    &&& k != 49 ==> o.other.message_command_style == q.other.message_command_style
    &&& k == 49 ==> is_text(option_line("message-command-style"@, o.other.message_command_style@, Written::Filled), x) && is_text(option_line("message-command-style"@, q.other.message_command_style@, Written::Filled), y)
    &&& k != 50 ==> o.other.mode_style == q.other.mode_style
    &&& k == 50 ==> is_text(option_line("mode-style"@, o.other.mode_style@, Written::Filled), x) && is_text(option_line("mode-style"@, q.other.mode_style@, Written::Filled), y)
}

#[verifier::spinoff_prover]
proof fn lemma_five_of(
    a: Seq<char>,
    b: Seq<char>,
    k: int,
    x: Seq<char>,
    y: Seq<char>,
    v0: Seq<char>,
    w0: Seq<char>,
    v1: Seq<char>,
    w1: Seq<char>,
    v2: Seq<char>,
    w2: Seq<char>,
    v3: Seq<char>,
    w3: Seq<char>,
    v4: Seq<char>,
    w4: Seq<char>,
    v5: Seq<char>,
    w5: Seq<char>,
    v6: Seq<char>,
    w6: Seq<char>,
    v7: Seq<char>,
    w7: Seq<char>,
    v8: Seq<char>,
    w8: Seq<char>,
)
    requires
        walked(a, b, 42, k, x, y),
        k != 42 ==> is_text(v0, w0),
        k == 42 ==> is_text(option_line("status-justify"@, v0, Written::Plain), x) && is_text(
            option_line("status-justify"@, w0, Written::Plain),
            y,
        ),
        k != 43 ==> is_text(v1, w1),
        k == 43 ==> is_text(option_line("window-status-format"@, v1, Written::Quoted), x) && is_text(
            option_line("window-status-format"@, w1, Written::Quoted),
            y,
        ),
        k != 44 ==> is_text(v2, w2),
        k == 44 ==> is_text(option_line("window-status-current-format"@, v2, Written::Quoted), x) && is_text(
            option_line("window-status-current-format"@, w2, Written::Quoted),
            y,
        ),
        k != 45 ==> is_text(v3, w3),
        k == 45 ==> is_text(option_line("window-status-style"@, v3, Written::Filled), x) && is_text(
            option_line("window-status-style"@, w3, Written::Filled),
            y,
        ),
        k != 46 ==> is_text(v4, w4),
        k == 46 ==> is_text(option_line("window-status-current-style"@, v4, Written::Filled), x) && is_text(
            option_line("window-status-current-style"@, w4, Written::Filled),
            y,
        ),
        k != 47 ==> is_text(v5, w5),
        k == 47 ==> is_text(option_line("window-status-activity-style"@, v5, Written::Filled), x) && is_text(
            option_line("window-status-activity-style"@, w5, Written::Filled),
            y,
        ),
        k != 48 ==> is_text(v6, w6),
        k == 48 ==> is_text(option_line("message-style"@, v6, Written::Filled), x) && is_text(
            option_line("message-style"@, w6, Written::Filled),
            y,
        ),
        k != 49 ==> is_text(v7, w7),
        k == 49 ==> is_text(option_line("message-command-style"@, v7, Written::Filled), x) && is_text(
            option_line("message-command-style"@, w7, Written::Filled),
            y,
        ),
        k != 50 ==> is_text(v8, w8),
        k == 50 ==> is_text(option_line("mode-style"@, v8, Written::Filled), x) && is_text(
            option_line("mode-style"@, w8, Written::Filled),
            y,
        ),
    ensures
        walked(
            listed_filled(listed_filled(listed_filled(listed_filled(listed_filled(listed_filled(listed_quoted(listed_quoted(listed(a, "status-justify"@, v0), "window-status-format"@, v1), "window-status-current-format"@, v2), "window-status-style"@, v3), "window-status-current-style"@, v4), "window-status-activity-style"@, v5), "message-style"@, v6), "message-command-style"@, v7), "mode-style"@, v8),
            listed_filled(listed_filled(listed_filled(listed_filled(listed_filled(listed_filled(listed_quoted(listed_quoted(listed(b, "status-justify"@, w0), "window-status-format"@, w1), "window-status-current-format"@, w2), "window-status-style"@, w3), "window-status-current-style"@, w4), "window-status-activity-style"@, w5), "message-style"@, w6), "message-command-style"@, w7), "mode-style"@, w8),
            51,
            k,
            x,
            y,
        ),
{
    lemma_step_plain(a, b, 42, k, x, y, "status-justify"@, v0, w0);
    let a0 = listed(a, "status-justify"@, v0);
    let b0 = listed(b, "status-justify"@, w0);
    lemma_step_quoted(a0, b0, 43, k, x, y, "window-status-format"@, v1, w1);
    let a1 = listed_quoted(a0, "window-status-format"@, v1);
    let b1 = listed_quoted(b0, "window-status-format"@, w1);
    lemma_step_quoted(a1, b1, 44, k, x, y, "window-status-current-format"@, v2, w2);
    let a2 = listed_quoted(a1, "window-status-current-format"@, v2);
    let b2 = listed_quoted(b1, "window-status-current-format"@, w2);
    lemma_step_filled(a2, b2, 45, k, x, y, "window-status-style"@, v3, w3);
    let a3 = listed_filled(a2, "window-status-style"@, v3);
    let b3 = listed_filled(b2, "window-status-style"@, w3);
    lemma_step_filled(a3, b3, 46, k, x, y, "window-status-current-style"@, v4, w4);
    let a4 = listed_filled(a3, "window-status-current-style"@, v4);
    let b4 = listed_filled(b3, "window-status-current-style"@, w4);
    lemma_step_filled(a4, b4, 47, k, x, y, "window-status-activity-style"@, v5, w5);
    let a5 = listed_filled(a4, "window-status-activity-style"@, v5);
    let b5 = listed_filled(b4, "window-status-activity-style"@, w5);
    lemma_step_filled(a5, b5, 48, k, x, y, "message-style"@, v6, w6);
    let a6 = listed_filled(a5, "message-style"@, v6);
    let b6 = listed_filled(b5, "message-style"@, w6);
    lemma_step_filled(a6, b6, 49, k, x, y, "message-command-style"@, v7, w7);
    let a7 = listed_filled(a6, "message-command-style"@, v7);
    let b7 = listed_filled(b6, "message-command-style"@, w7);
    lemma_step_filled(a7, b7, 50, k, x, y, "mode-style"@, v8, w8);
    let a8 = listed_filled(a7, "mode-style"@, v8);
    let b8 = listed_filled(b7, "mode-style"@, w8);
}

#[verifier::spinoff_prover]
proof fn lemma_part_five(
    a: Seq<char>,
    b: Seq<char>,
    o: Options,
    q: Options,
    k: int,
    x: Seq<char>,
    y: Seq<char>,
)
    requires
        walked(a, b, 42, k, x, y),
        five_fit(o, q, k, x, y),
    ensures
        walked(listed_part_five(a, o), listed_part_five(b, q), 51, k, x, y),
{
    reveal(five_fit);
    lemma_five_of(
        a,
        b,
        k,
        x,
        y,
        o.other.status_justify@,
        q.other.status_justify@,
        o.looks.window_status_format@,
        q.looks.window_status_format@,
        o.looks.window_status_current_format@,
        q.looks.window_status_current_format@,
        o.other.window_status_style@,
        q.other.window_status_style@,
        o.other.window_status_current_style@,
        q.other.window_status_current_style@,
        o.other.window_status_activity_style@,
        q.other.window_status_activity_style@,
        o.other.message_style@,
        q.other.message_style@,
        o.other.message_command_style@,
        q.other.message_command_style@,
        o.other.mode_style@,
        q.other.mode_style@,
    );
}

#[verifier::opaque]
spec fn six_fit(o: Options, q: Options, k: int, x: Seq<char>, y: Seq<char>) -> bool {
    &&& k != 52 ==> o.limits.main_pane_width == q.limits.main_pane_width
    &&& k == 52 ==> is_text(option_line("main-pane-width"@, decimal(o.limits.main_pane_width as nat), Written::Plain), x) && is_text(option_line("main-pane-width"@, decimal(q.limits.main_pane_width as nat), Written::Plain), y)
    &&& k != 53 ==> o.limits.main_pane_height == q.limits.main_pane_height
    &&& k == 53 ==> is_text(option_line("main-pane-height"@, decimal(o.limits.main_pane_height as nat), Written::Plain), x) && is_text(option_line("main-pane-height"@, decimal(q.limits.main_pane_height as nat), Written::Plain), y)
    &&& k != 54 ==> o.limits.status_left_length == q.limits.status_left_length
    &&& k == 54 ==> is_text(option_line("status-left-length"@, decimal(o.limits.status_left_length as nat), Written::Plain), x) && is_text(option_line("status-left-length"@, decimal(q.limits.status_left_length as nat), Written::Plain), y)
    &&& k != 55 ==> o.limits.status_right_length == q.limits.status_right_length
    &&& k == 55 ==> is_text(option_line("status-right-length"@, decimal(o.limits.status_right_length as nat), Written::Plain), x) && is_text(option_line("status-right-length"@, decimal(q.limits.status_right_length as nat), Written::Plain), y)
    &&& k != 56 ==> o.other.window_size == q.other.window_size
    &&& k == 56 ==> is_text(option_line("window-size"@, o.other.window_size@, Written::Plain), x) && is_text(option_line("window-size"@, q.other.window_size@, Written::Plain), y)
    &&& k != 57 ==> o.other.allow_passthrough == q.other.allow_passthrough
    &&& k == 57 ==> is_text(option_line("allow-passthrough"@, o.other.allow_passthrough@, Written::Plain), x) && is_text(option_line("allow-passthrough"@, q.other.allow_passthrough@, Written::Plain), y)
    &&& k != 58 ==> o.other.set_clipboard == q.other.set_clipboard
    &&& k == 58 ==> is_text(option_line("set-clipboard"@, o.other.set_clipboard@, Written::Plain), x) && is_text(option_line("set-clipboard"@, q.other.set_clipboard@, Written::Plain), y)
    &&& k != 59 ==> o.other.copy_command == q.other.copy_command
    &&& k == 59 ==> is_text(option_line("copy-command"@, o.other.copy_command@, Written::Filled), x) && is_text(option_line("copy-command"@, q.other.copy_command@, Written::Filled), y)
    &&& k != 60 ==> o.switches.allow_rename == q.switches.allow_rename
    &&& k == 60 ==> is_text(option_line("allow-rename"@, on_off(o.switches.allow_rename), Written::Plain), x) && is_text(option_line("allow-rename"@, on_off(q.switches.allow_rename), Written::Plain), y)
    &&& k != 61 ==> o.switches.allow_set_title == q.switches.allow_set_title
    &&& k == 61 ==> is_text(option_line("allow-set-title"@, on_off(o.switches.allow_set_title), Written::Plain), x) && is_text(option_line("allow-set-title"@, on_off(q.switches.allow_set_title), Written::Plain), y)
}

#[verifier::spinoff_prover]
proof fn lemma_six_of(
    a: Seq<char>,
    b: Seq<char>,
    k: int,
    x: Seq<char>,
    y: Seq<char>,
    v0: Seq<char>,
    w0: Seq<char>,
    v1: Seq<char>,
    w1: Seq<char>,
    v2: Seq<char>,
    w2: Seq<char>,
    v3: Seq<char>,
    w3: Seq<char>,
    v4: Seq<char>,
    w4: Seq<char>,
    v5: Seq<char>,
    w5: Seq<char>,
    v6: Seq<char>,
    w6: Seq<char>,
    v7: Seq<char>,
    w7: Seq<char>,
    v8: Seq<char>,
    w8: Seq<char>,
    v9: Seq<char>,
    w9: Seq<char>,
)
    requires
        walked(a, b, 52, k, x, y),
        k != 52 ==> is_text(v0, w0),
        k == 52 ==> is_text(option_line("main-pane-width"@, v0, Written::Plain), x) && is_text(
            option_line("main-pane-width"@, w0, Written::Plain),
            y,
        ),
        k != 53 ==> is_text(v1, w1),
        k == 53 ==> is_text(option_line("main-pane-height"@, v1, Written::Plain), x) && is_text(
            option_line("main-pane-height"@, w1, Written::Plain),
            y,
        ),
        k != 54 ==> is_text(v2, w2),
        k == 54 ==> is_text(option_line("status-left-length"@, v2, Written::Plain), x) && is_text(
            option_line("status-left-length"@, w2, Written::Plain),
            y,
        ),
        k != 55 ==> is_text(v3, w3),
        k == 55 ==> is_text(option_line("status-right-length"@, v3, Written::Plain), x) && is_text(
            option_line("status-right-length"@, w3, Written::Plain),
            y,
        ),
        k != 56 ==> is_text(v4, w4),
        k == 56 ==> is_text(option_line("window-size"@, v4, Written::Plain), x) && is_text(
            option_line("window-size"@, w4, Written::Plain),
            y,
        ),
        k != 57 ==> is_text(v5, w5),
        k == 57 ==> is_text(option_line("allow-passthrough"@, v5, Written::Plain), x) && is_text(
            option_line("allow-passthrough"@, w5, Written::Plain),
            y,
        ),
        k != 58 ==> is_text(v6, w6),
        k == 58 ==> is_text(option_line("set-clipboard"@, v6, Written::Plain), x) && is_text(
            option_line("set-clipboard"@, w6, Written::Plain),
            y,
        ),
        k != 59 ==> is_text(v7, w7),
        k == 59 ==> is_text(option_line("copy-command"@, v7, Written::Filled), x) && is_text(
            option_line("copy-command"@, w7, Written::Filled),
            y,
        ),
        k != 60 ==> is_text(v8, w8),
        k == 60 ==> is_text(option_line("allow-rename"@, v8, Written::Plain), x) && is_text(
            option_line("allow-rename"@, w8, Written::Plain),
            y,
        ),
        k != 61 ==> is_text(v9, w9),
        k == 61 ==> is_text(option_line("allow-set-title"@, v9, Written::Plain), x) && is_text(
            option_line("allow-set-title"@, w9, Written::Plain),
            y,
        ),
    ensures
        walked(
            listed(listed(listed_filled(listed(listed(listed(listed(listed(listed(listed(a, "main-pane-width"@, v0), "main-pane-height"@, v1), "status-left-length"@, v2), "status-right-length"@, v3), "window-size"@, v4), "allow-passthrough"@, v5), "set-clipboard"@, v6), "copy-command"@, v7), "allow-rename"@, v8), "allow-set-title"@, v9),
            listed(listed(listed_filled(listed(listed(listed(listed(listed(listed(listed(b, "main-pane-width"@, w0), "main-pane-height"@, w1), "status-left-length"@, w2), "status-right-length"@, w3), "window-size"@, w4), "allow-passthrough"@, w5), "set-clipboard"@, w6), "copy-command"@, w7), "allow-rename"@, w8), "allow-set-title"@, w9),
            62,
            k,
            x,
            y,
        ),
{
    lemma_step_plain(a, b, 52, k, x, y, "main-pane-width"@, v0, w0);
    let a0 = listed(a, "main-pane-width"@, v0);
    let b0 = listed(b, "main-pane-width"@, w0);
    lemma_step_plain(a0, b0, 53, k, x, y, "main-pane-height"@, v1, w1);
    let a1 = listed(a0, "main-pane-height"@, v1);
    let b1 = listed(b0, "main-pane-height"@, w1);
    lemma_step_plain(a1, b1, 54, k, x, y, "status-left-length"@, v2, w2);
    let a2 = listed(a1, "status-left-length"@, v2);
    let b2 = listed(b1, "status-left-length"@, w2);
    lemma_step_plain(a2, b2, 55, k, x, y, "status-right-length"@, v3, w3);
    let a3 = listed(a2, "status-right-length"@, v3);
    let b3 = listed(b2, "status-right-length"@, w3);
    lemma_step_plain(a3, b3, 56, k, x, y, "window-size"@, v4, w4);
    let a4 = listed(a3, "window-size"@, v4);
    let b4 = listed(b3, "window-size"@, w4);
    lemma_step_plain(a4, b4, 57, k, x, y, "allow-passthrough"@, v5, w5);
    let a5 = listed(a4, "allow-passthrough"@, v5);
    let b5 = listed(b4, "allow-passthrough"@, w5);
    lemma_step_plain(a5, b5, 58, k, x, y, "set-clipboard"@, v6, w6);
    let a6 = listed(a5, "set-clipboard"@, v6);
    let b6 = listed(b5, "set-clipboard"@, w6);
    lemma_step_filled(a6, b6, 59, k, x, y, "copy-command"@, v7, w7);
    let a7 = listed_filled(a6, "copy-command"@, v7);
    let b7 = listed_filled(b6, "copy-command"@, w7);
    lemma_step_plain(a7, b7, 60, k, x, y, "allow-rename"@, v8, w8);
    let a8 = listed(a7, "allow-rename"@, v8);
    let b8 = listed(b7, "allow-rename"@, w8);
    lemma_step_plain(a8, b8, 61, k, x, y, "allow-set-title"@, v9, w9);
    let a9 = listed(a8, "allow-set-title"@, v9);
    let b9 = listed(b8, "allow-set-title"@, w9);
}

#[verifier::spinoff_prover]
proof fn lemma_part_six(
    a: Seq<char>,
    b: Seq<char>,
    o: Options,
    q: Options,
    k: int,
    x: Seq<char>,
    y: Seq<char>,
)
    requires
        walked(a, b, 52, k, x, y),
        six_fit(o, q, k, x, y),
    ensures
        walked(listed_part_six(a, o), listed_part_six(b, q), 62, k, x, y),
{
    reveal(six_fit);
    lemma_six_of(
        a,
        b,
        k,
        x,
        y,
        decimal(o.limits.main_pane_width as nat),
        decimal(q.limits.main_pane_width as nat),
        decimal(o.limits.main_pane_height as nat),
        decimal(q.limits.main_pane_height as nat),
        decimal(o.limits.status_left_length as nat),
        decimal(q.limits.status_left_length as nat),
        decimal(o.limits.status_right_length as nat),
        decimal(q.limits.status_right_length as nat),
        o.other.window_size@,
        q.other.window_size@,
        o.other.allow_passthrough@,
        q.other.allow_passthrough@,
        o.other.set_clipboard@,
        q.other.set_clipboard@,
        o.other.copy_command@,
        q.other.copy_command@,
        on_off(o.switches.allow_rename),
        on_off(q.switches.allow_rename),
        on_off(o.switches.allow_set_title),
        on_off(q.switches.allow_set_title),
    );
}

#[verifier::opaque]
spec fn seven_fit(o: Options, q: Options, k: int, x: Seq<char>, y: Seq<char>) -> bool {
    &&& k != 62 ==> o.other.bell_action == q.other.bell_action
    &&& k == 62 ==> is_text(option_line("bell-action"@, o.other.bell_action@, Written::Plain), x) && is_text(option_line("bell-action"@, q.other.bell_action@, Written::Plain), y)
    &&& k != 63 ==> o.other.activity_action == q.other.activity_action
    &&& k == 63 ==> is_text(option_line("activity-action"@, o.other.activity_action@, Written::Plain), x) && is_text(option_line("activity-action"@, q.other.activity_action@, Written::Plain), y)
    &&& k != 64 ==> o.other.silence_action == q.other.silence_action
    &&& k == 64 ==> is_text(option_line("silence-action"@, o.other.silence_action@, Written::Plain), x) && is_text(option_line("silence-action"@, q.other.silence_action@, Written::Plain), y)
}

#[verifier::spinoff_prover]
proof fn lemma_seven_of(
    a: Seq<char>,
    b: Seq<char>,
    k: int,
    x: Seq<char>,
    y: Seq<char>,
    v0: Seq<char>,
    w0: Seq<char>,
    v1: Seq<char>,
    w1: Seq<char>,
    v2: Seq<char>,
    w2: Seq<char>,
)
    requires
        walked(a, b, 62, k, x, y),
        k != 62 ==> is_text(v0, w0),
        k == 62 ==> is_text(option_line("bell-action"@, v0, Written::Plain), x) && is_text(
            option_line("bell-action"@, w0, Written::Plain),
            y,
        ),
        k != 63 ==> is_text(v1, w1),
        k == 63 ==> is_text(option_line("activity-action"@, v1, Written::Plain), x) && is_text(
            option_line("activity-action"@, w1, Written::Plain),
            y,
        ),
        k != 64 ==> is_text(v2, w2),
        k == 64 ==> is_text(option_line("silence-action"@, v2, Written::Plain), x) && is_text(
            option_line("silence-action"@, w2, Written::Plain),
            y,
        ),
    ensures
        walked(
            listed(listed(listed(a, "bell-action"@, v0), "activity-action"@, v1), "silence-action"@, v2),
            listed(listed(listed(b, "bell-action"@, w0), "activity-action"@, w1), "silence-action"@, w2),
            65,
            k,
            x,
            y,
        ),
{
    lemma_step_plain(a, b, 62, k, x, y, "bell-action"@, v0, w0);
    let a0 = listed(a, "bell-action"@, v0);
    let b0 = listed(b, "bell-action"@, w0);
    lemma_step_plain(a0, b0, 63, k, x, y, "activity-action"@, v1, w1);
    let a1 = listed(a0, "activity-action"@, v1);
    let b1 = listed(b0, "activity-action"@, w1);
    lemma_step_plain(a1, b1, 64, k, x, y, "silence-action"@, v2, w2);
    let a2 = listed(a1, "silence-action"@, v2);
    let b2 = listed(b1, "silence-action"@, w2);
}

#[verifier::spinoff_prover]
proof fn lemma_part_seven(
    a: Seq<char>,
    b: Seq<char>,
    o: Options,
    q: Options,
    k: int,
    x: Seq<char>,
    y: Seq<char>,
)
    requires
        walked(a, b, 62, k, x, y),
        seven_fit(o, q, k, x, y),
    ensures
        walked(listed_part_seven(a, o), listed_part_seven(b, q), 65, k, x, y),
{
    reveal(seven_fit);
    lemma_seven_of(
        a,
        b,
        k,
        x,
        y,
        o.other.bell_action@,
        q.other.bell_action@,
        o.other.activity_action@,
        q.other.activity_action@,
        o.other.silence_action@,
        q.other.silence_action@,
    );
}

proof fn lemma_entries(
    a: Seq<char>,
    b: Seq<char>,
    k: int,
    x: Seq<char>,
    y: Seq<char>,
    entries: Seq<crate::dict::Entry<String>>,
)
    requires
        walked(a, b, 51, k, x, y),
        k != 51,
    ensures
        walked(listed_entries(a, entries), listed_entries(b, entries), 51, k, x, y),
    decreases entries.len(),
{
    if entries.len() > 0 {
        lemma_entries(a, b, k, x, y, entries.drop_last());
        let c = listed_entries(a, entries.drop_last());
        let d = listed_entries(b, entries.drop_last());
        lemma_step_quoted(c, d, 51, k, x, y, entries.last().key@, entries.last().value@, entries.last().value@);
        assert(walked(listed_entries(a, entries), listed_entries(b, entries), 51, k, x, y)) by {
            reveal(walked);
        }
    }
}

proof fn lemma_aliases(
    a: Seq<char>,
    b: Seq<char>,
    k: int,
    x: Seq<char>,
    y: Seq<char>,
    entries: Seq<crate::dict::Entry<String>>,
)
    requires
        walked(a, b, 67, k, x, y),
        k < 67,
    ensures
        walked(listed_aliases(a, entries), listed_aliases(b, entries), 67, k, x, y),
    decreases entries.len(),
{
    if entries.len() > 0 {
        lemma_aliases(a, b, k, x, y, entries.drop_last());
        let c = listed_aliases(a, entries.drop_last());
        let d = listed_aliases(b, entries.drop_last());
        let v = entries.last().key@ + "="@ + entries.last().value@;
        lemma_step_quoted(c, d, 67, k, x, y, "command-alias"@, v, v);
        assert(walked(listed_aliases(a, entries), listed_aliases(b, entries), 67, k, x, y)) by {
            reveal(walked);
        }
    }
}

/// Whether what is listed beside the single options is the same, but for the one at the place.
#[verifier::opaque]
spec fn rest_fit(o: Options, q: Options, k: int, x: Seq<char>, y: Seq<char>) -> bool {
    &&& k != 0 ==> is_text(o.prefix@, q.prefix@)
    &&& k == 0 ==> is_text(option_line("prefix"@, o.prefix@, Written::Plain), x) && is_text(option_line("prefix"@, q.prefix@, Written::Plain), y)
    &&& o.prefix2 == q.prefix2
    &&& k != 1
    &&& k != 51
    &&& k < 66
    &&& o.user == q.user
    &&& o.command_aliases == q.command_aliases
    &&& o.other.session_group == q.other.session_group
    &&& k != 65 ==> is_text(joined(texts(o.other.update_environment@), " "@), joined(texts(q.other.update_environment@), " "@))
    &&& k == 65 ==> is_text(option_line("update-environment"@, joined(texts(o.other.update_environment@), " "@), Written::Quoted), x) && is_text(option_line("update-environment"@, joined(texts(q.other.update_environment@), " "@), Written::Quoted), y)
}

proof fn lemma_rest(
    a: Seq<char>,
    b: Seq<char>,
    o: Options,
    q: Options,
    k: int,
    x: Seq<char>,
    y: Seq<char>,
)
    requires
        walked(a, b, 65, k, x, y),
        rest_fit(o, q, k, x, y),
    ensures
        ({
            let c = listed_quoted(a, "update-environment"@, joined(texts(o.other.update_environment@), " "@));
            let d = listed_quoted(b, "update-environment"@, joined(texts(q.other.update_environment@), " "@));
            walked(
                listed_aliases(
                    (match opt_text(o.other.session_group) {
                        Some(g) => listed_quoted(c, "session-group"@, g),
                        None => c,
                    }),
                    o.command_aliases.entries@,
                ),
                listed_aliases(
                    (match opt_text(q.other.session_group) {
                        Some(g) => listed_quoted(d, "session-group"@, g),
                        None => d,
                    }),
                    q.command_aliases.entries@,
                ),
                67,
                k,
                x,
                y,
            )
        }),
{
    reveal(rest_fit);
    let v = joined(texts(o.other.update_environment@), " "@);
    let w = joined(texts(q.other.update_environment@), " "@);
    lemma_step_quoted(a, b, 65, k, x, y, "update-environment"@, v, w);
    let c = listed_quoted(a, "update-environment"@, v);
    let d = listed_quoted(b, "update-environment"@, w);
    match opt_text(o.other.session_group) {
        Some(g) => {
            lemma_step_quoted(c, d, 66, k, x, y, "session-group"@, g, g);
            lemma_aliases(
                listed_quoted(c, "session-group"@, g),
                listed_quoted(d, "session-group"@, g),
                k,
                x,
                y,
                o.command_aliases.entries@,
            );
        },
        None => {
            assert(walked(c, d, 67, k, x, y)) by {
                reveal(walked);
            }
            lemma_aliases(c, d, k, x, y, o.command_aliases.entries@);
        },
    }
}

proof fn lemma_front(o: Options, q: Options, k: int, x: Seq<char>, y: Seq<char>)
    requires
        rest_fit(o, q, k, x, y),
        k >= 0,
    ensures
        walked(listed_prefixes(Seq::empty(), o), listed_prefixes(Seq::empty(), q), 2, k, x, y),
{
    reveal(rest_fit);
    let none = Seq::<char>::empty();
    assert(walked(none, none, 0, k, x, y)) by {
        reveal(walked);
    }
    lemma_step_plain(none, none, 0, k, x, y, "prefix"@, o.prefix@, q.prefix@);
    let a = listed(none, "prefix"@, o.prefix@);
    let b = listed(none, "prefix"@, q.prefix@);
    match opt_text(o.prefix2) {
        Some(p) => lemma_step_plain(a, b, 1, k, x, y, "prefix2"@, p, p),
        None => assert(walked(a, b, 2, k, x, y)) by {
            reveal(walked);
        },
    }
}

#[verifier::spinoff_prover]
proof fn lemma_walk(o: Options, q: Options, shell: Option<Seq<char>>, k: int, x: Seq<char>, y: Seq<char>)
    requires
        0 <= k,
        rest_fit(o, q, k, x, y),
        one_fit(o, q, k, x, y),
        two_fit(o, q, k, x, y),
        three_fit(o, q, k, x, y),
        four_fit(o, q, shell, k, x, y),
        five_fit(o, q, k, x, y),
        six_fit(o, q, k, x, y),
        seven_fit(o, q, k, x, y),
    ensures
        line_changes(o, q, shell, x, y),
{
    reveal(line_changes);
    lemma_front(o, q, k, x, y);
    let a0 = listed_prefixes(Seq::empty(), o);
    let b0 = listed_prefixes(Seq::empty(), q);
    lemma_part_one(a0, b0, o, q, k, x, y);
    let a1 = listed_part_one(a0, o);
    let b1 = listed_part_one(b0, q);
    lemma_part_two(a1, b1, o, q, k, x, y);
    let a2 = listed_part_two(a1, o);
    let b2 = listed_part_two(b1, q);
    lemma_part_three(a2, b2, o, q, k, x, y);
    let a3 = listed_part_three(a2, o);
    let b3 = listed_part_three(b2, q);
    lemma_part_four(a3, b3, o, q, shell, k, x, y);
    let a4 = listed_part_four(a3, o, shell);
    let b4 = listed_part_four(b3, q, shell);
    lemma_part_five(a4, b4, o, q, k, x, y);
    let a5 = listed_part_five(a4, o);
    let b5 = listed_part_five(b4, q);
    let (u, n) = (o.user.entries@, q.user.entries@);
    assert(u == n && k != 51 && k < 66) by {
        reveal(rest_fit);
    }
    lemma_entries(a5, b5, k, x, y, u);
    let a6 = listed_entries(a5, u);
    let b6 = listed_entries(b5, u);
    assert(walked(a6, b6, 52, k, x, y)) by {
        reveal(walked);
    }
    lemma_part_six(a6, b6, o, q, k, x, y);
    let a7 = listed_part_six(a6, o);
    let b7 = listed_part_six(b6, q);
    lemma_part_seven(a7, b7, o, q, k, x, y);
    lemma_rest(listed_part_seven(a7, o), listed_part_seven(b7, q), o, q, k, x, y);
    reveal(walked);
}

proof fn lemma_prefix(o: Options, other: Options, shell: Option<Seq<char>>)
    ensures
        ({
            let q = Options { prefix: other.prefix, ..o };
            line_changes(
                o,
                q,
                shell,
                option_line("prefix"@, o.prefix@, Written::Plain),
                option_line("prefix"@, q.prefix@, Written::Plain),
            )
        }),
{
    let q = Options { prefix: other.prefix, ..o };
    reveal(rest_fit);
    reveal(one_fit);
    reveal(two_fit);
    reveal(three_fit);
    reveal(four_fit);
    reveal(five_fit);
    reveal(six_fit);
    reveal(seven_fit);
    lemma_walk(
        o,
        q,
        shell,
        0,
        option_line("prefix"@, o.prefix@, Written::Plain),
        option_line("prefix"@, q.prefix@, Written::Plain),
    );
}

proof fn lemma_base_index(o: Options, other: Options, shell: Option<Seq<char>>)
    ensures
        ({
            let q = Options { limits: Limits { window_base_index: other.limits.window_base_index, ..o.limits }, ..o };
            line_changes(
                o,
                q,
                shell,
                option_line("base-index"@, decimal(o.limits.window_base_index as nat), Written::Plain),
                option_line("base-index"@, decimal(q.limits.window_base_index as nat), Written::Plain),
            )
        }),
{
    let q = Options { limits: Limits { window_base_index: other.limits.window_base_index, ..o.limits }, ..o };
    reveal(rest_fit);
    reveal(one_fit);
    reveal(two_fit);
    reveal(three_fit);
    reveal(four_fit);
    reveal(five_fit);
    reveal(six_fit);
    reveal(seven_fit);
    lemma_walk(
        o,
        q,
        shell,
        2,
        option_line("base-index"@, decimal(o.limits.window_base_index as nat), Written::Plain),
        option_line("base-index"@, decimal(q.limits.window_base_index as nat), Written::Plain),
    );
}

proof fn lemma_pane_base_index(o: Options, other: Options, shell: Option<Seq<char>>)
    ensures
        ({
            let q = Options { limits: Limits { pane_base_index: other.limits.pane_base_index, ..o.limits }, ..o };
            line_changes(
                o,
                q,
                shell,
                option_line("pane-base-index"@, decimal(o.limits.pane_base_index as nat), Written::Plain),
                option_line("pane-base-index"@, decimal(q.limits.pane_base_index as nat), Written::Plain),
            )
        }),
{
    let q = Options { limits: Limits { pane_base_index: other.limits.pane_base_index, ..o.limits }, ..o };
    reveal(rest_fit);
    reveal(one_fit);
    reveal(two_fit);
    reveal(three_fit);
    reveal(four_fit);
    reveal(five_fit);
    reveal(six_fit);
    reveal(seven_fit);
    lemma_walk(
        o,
        q,
        shell,
        3,
        option_line("pane-base-index"@, decimal(o.limits.pane_base_index as nat), Written::Plain),
        option_line("pane-base-index"@, decimal(q.limits.pane_base_index as nat), Written::Plain),
    );
}

proof fn lemma_escape_time(o: Options, other: Options, shell: Option<Seq<char>>)
    ensures
        ({
            let q = Options { limits: Limits { escape_time_ms: other.limits.escape_time_ms, ..o.limits }, ..o };
            line_changes(
                o,
                q,
                shell,
                option_line("escape-time"@, decimal(o.limits.escape_time_ms as nat), Written::Plain),
                option_line("escape-time"@, decimal(q.limits.escape_time_ms as nat), Written::Plain),
            )
        }),
{
    let q = Options { limits: Limits { escape_time_ms: other.limits.escape_time_ms, ..o.limits }, ..o };
    reveal(rest_fit);
    reveal(one_fit);
    reveal(two_fit);
    reveal(three_fit);
    reveal(four_fit);
    reveal(five_fit);
    reveal(six_fit);
    reveal(seven_fit);
    lemma_walk(
        o,
        q,
        shell,
        4,
        option_line("escape-time"@, decimal(o.limits.escape_time_ms as nat), Written::Plain),
        option_line("escape-time"@, decimal(q.limits.escape_time_ms as nat), Written::Plain),
    );
}

proof fn lemma_mouse(o: Options, other: Options, shell: Option<Seq<char>>)
    ensures
        ({
            let q = Options { switches: Switches { mouse_enabled: other.switches.mouse_enabled, ..o.switches }, ..o };
            line_changes(
                o,
                q,
                shell,
                option_line("mouse"@, yes_or_no(o.switches.mouse_enabled), Written::Plain),
                option_line("mouse"@, yes_or_no(q.switches.mouse_enabled), Written::Plain),
            )
        }),
{
    let q = Options { switches: Switches { mouse_enabled: other.switches.mouse_enabled, ..o.switches }, ..o };
    lemma_switch(o.switches.mouse_enabled);
    lemma_switch(q.switches.mouse_enabled);
    reveal(rest_fit);
    reveal(one_fit);
    reveal(two_fit);
    reveal(three_fit);
    reveal(four_fit);
    reveal(five_fit);
    reveal(six_fit);
    reveal(seven_fit);
    lemma_walk(
        o,
        q,
        shell,
        5,
        option_line("mouse"@, on_off(o.switches.mouse_enabled), Written::Plain),
        option_line("mouse"@, on_off(q.switches.mouse_enabled), Written::Plain),
    );
}

proof fn lemma_scroll_enter_copy_mode(o: Options, other: Options, shell: Option<Seq<char>>)
    ensures
        ({
            let q = Options { switches: Switches { scroll_enter_copy_mode: other.switches.scroll_enter_copy_mode, ..o.switches }, ..o };
            line_changes(
                o,
                q,
                shell,
                option_line("scroll-enter-copy-mode"@, yes_or_no(o.switches.scroll_enter_copy_mode), Written::Plain),
                option_line("scroll-enter-copy-mode"@, yes_or_no(q.switches.scroll_enter_copy_mode), Written::Plain),
            )
        }),
{
    let q = Options { switches: Switches { scroll_enter_copy_mode: other.switches.scroll_enter_copy_mode, ..o.switches }, ..o };
    lemma_switch(o.switches.scroll_enter_copy_mode);
    lemma_switch(q.switches.scroll_enter_copy_mode);
    reveal(rest_fit);
    reveal(one_fit);
    reveal(two_fit);
    reveal(three_fit);
    reveal(four_fit);
    reveal(five_fit);
    reveal(six_fit);
    reveal(seven_fit);
    lemma_walk(
        o,
        q,
        shell,
        6,
        option_line("scroll-enter-copy-mode"@, on_off(o.switches.scroll_enter_copy_mode), Written::Plain),
        option_line("scroll-enter-copy-mode"@, on_off(q.switches.scroll_enter_copy_mode), Written::Plain),
    );
}

proof fn lemma_pwsh_mouse_selection(o: Options, other: Options, shell: Option<Seq<char>>)
    ensures
        ({
            let q = Options { switches: Switches { pwsh_mouse_selection: other.switches.pwsh_mouse_selection, ..o.switches }, ..o };
            line_changes(
                o,
                q,
                shell,
                option_line("pwsh-mouse-selection"@, yes_or_no(o.switches.pwsh_mouse_selection), Written::Plain),
                option_line("pwsh-mouse-selection"@, yes_or_no(q.switches.pwsh_mouse_selection), Written::Plain),
            )
        }),
{
    let q = Options { switches: Switches { pwsh_mouse_selection: other.switches.pwsh_mouse_selection, ..o.switches }, ..o };
    lemma_switch(o.switches.pwsh_mouse_selection);
    lemma_switch(q.switches.pwsh_mouse_selection);
    reveal(rest_fit);
    reveal(one_fit);
    reveal(two_fit);
    reveal(three_fit);
    reveal(four_fit);
    reveal(five_fit);
    reveal(six_fit);
    reveal(seven_fit);
    lemma_walk(
        o,
        q,
        shell,
        7,
        option_line("pwsh-mouse-selection"@, on_off(o.switches.pwsh_mouse_selection), Written::Plain),
        option_line("pwsh-mouse-selection"@, on_off(q.switches.pwsh_mouse_selection), Written::Plain),
    );
}

proof fn lemma_mouse_selection(o: Options, other: Options, shell: Option<Seq<char>>)
    ensures
        ({
            let q = Options { switches: Switches { mouse_selection: other.switches.mouse_selection, ..o.switches }, ..o };
            line_changes(
                o,
                q,
                shell,
                option_line("mouse-selection"@, yes_or_no(o.switches.mouse_selection), Written::Plain),
                option_line("mouse-selection"@, yes_or_no(q.switches.mouse_selection), Written::Plain),
            )
        }),
{
    let q = Options { switches: Switches { mouse_selection: other.switches.mouse_selection, ..o.switches }, ..o };
    lemma_switch(o.switches.mouse_selection);
    lemma_switch(q.switches.mouse_selection);
    reveal(rest_fit);
    reveal(one_fit);
    reveal(two_fit);
    reveal(three_fit);
    reveal(four_fit);
    reveal(five_fit);
    reveal(six_fit);
    reveal(seven_fit);
    lemma_walk(
        o,
        q,
        shell,
        8,
        option_line("mouse-selection"@, on_off(o.switches.mouse_selection), Written::Plain),
        option_line("mouse-selection"@, on_off(q.switches.mouse_selection), Written::Plain),
    );
}

proof fn lemma_paste_detection(o: Options, other: Options, shell: Option<Seq<char>>)
    ensures
        ({
            let q = Options { switches: Switches { paste_detection: other.switches.paste_detection, ..o.switches }, ..o };
            line_changes(
                o,
                q,
                shell,
                option_line("paste-detection"@, yes_or_no(o.switches.paste_detection), Written::Plain),
                option_line("paste-detection"@, yes_or_no(q.switches.paste_detection), Written::Plain),
            )
        }),
{
    let q = Options { switches: Switches { paste_detection: other.switches.paste_detection, ..o.switches }, ..o };
    lemma_switch(o.switches.paste_detection);
    lemma_switch(q.switches.paste_detection);
    reveal(rest_fit);
    reveal(one_fit);
    reveal(two_fit);
    reveal(three_fit);
    reveal(four_fit);
    reveal(five_fit);
    reveal(six_fit);
    reveal(seven_fit);
    lemma_walk(
        o,
        q,
        shell,
        9,
        option_line("paste-detection"@, on_off(o.switches.paste_detection), Written::Plain),
        option_line("paste-detection"@, on_off(q.switches.paste_detection), Written::Plain),
    );
}

proof fn lemma_choose_tree_preview(o: Options, other: Options, shell: Option<Seq<char>>)
    ensures
        ({
            let q = Options { switches: Switches { choose_tree_preview: other.switches.choose_tree_preview, ..o.switches }, ..o };
            line_changes(
                o,
                q,
                shell,
                option_line("choose-tree-preview"@, yes_or_no(o.switches.choose_tree_preview), Written::Plain),
                option_line("choose-tree-preview"@, yes_or_no(q.switches.choose_tree_preview), Written::Plain),
            )
        }),
{
    let q = Options { switches: Switches { choose_tree_preview: other.switches.choose_tree_preview, ..o.switches }, ..o };
    lemma_switch(o.switches.choose_tree_preview);
    lemma_switch(q.switches.choose_tree_preview);
    reveal(rest_fit);
    reveal(one_fit);
    reveal(two_fit);
    reveal(three_fit);
    reveal(four_fit);
    reveal(five_fit);
    reveal(six_fit);
    reveal(seven_fit);
    lemma_walk(
        o,
        q,
        shell,
        10,
        option_line("choose-tree-preview"@, on_off(o.switches.choose_tree_preview), Written::Plain),
        option_line("choose-tree-preview"@, on_off(q.switches.choose_tree_preview), Written::Plain),
    );
}

proof fn lemma_status(o: Options, other: Options, shell: Option<Seq<char>>)
    ensures
        ({
            let q = Options { switches: Switches { status_visible: other.switches.status_visible, ..o.switches }, ..o };
            line_changes(
                o,
                q,
                shell,
                option_line("status"@, yes_or_no(o.switches.status_visible), Written::Plain),
                option_line("status"@, yes_or_no(q.switches.status_visible), Written::Plain),
            )
        }),
{
    let q = Options { switches: Switches { status_visible: other.switches.status_visible, ..o.switches }, ..o };
    lemma_switch(o.switches.status_visible);
    lemma_switch(q.switches.status_visible);
    reveal(rest_fit);
    reveal(one_fit);
    reveal(two_fit);
    reveal(three_fit);
    reveal(four_fit);
    reveal(five_fit);
    reveal(six_fit);
    reveal(seven_fit);
    lemma_walk(
        o,
        q,
        shell,
        11,
        option_line("status"@, on_off(o.switches.status_visible), Written::Plain),
        option_line("status"@, on_off(q.switches.status_visible), Written::Plain),
    );
}

proof fn lemma_status_position(o: Options, other: Options, shell: Option<Seq<char>>)
    ensures
        ({
            let q = Options { looks: Looks { status_position: other.looks.status_position, ..o.looks }, ..o };
            line_changes(
                o,
                q,
                shell,
                option_line("status-position"@, o.looks.status_position@, Written::Plain),
                option_line("status-position"@, q.looks.status_position@, Written::Plain),
            )
        }),
{
    let q = Options { looks: Looks { status_position: other.looks.status_position, ..o.looks }, ..o };
    reveal(rest_fit);
    reveal(one_fit);
    reveal(two_fit);
    reveal(three_fit);
    reveal(four_fit);
    reveal(five_fit);
    reveal(six_fit);
    reveal(seven_fit);
    lemma_walk(
        o,
        q,
        shell,
        12,
        option_line("status-position"@, o.looks.status_position@, Written::Plain),
        option_line("status-position"@, q.looks.status_position@, Written::Plain),
    );
}

proof fn lemma_status_left(o: Options, other: Options, shell: Option<Seq<char>>)
    ensures
        ({
            let q = Options { looks: Looks { status_left: other.looks.status_left, ..o.looks }, ..o };
            line_changes(
                o,
                q,
                shell,
                option_line("status-left"@, o.looks.status_left@, Written::Quoted),
                option_line("status-left"@, q.looks.status_left@, Written::Quoted),
            )
        }),
{
    let q = Options { looks: Looks { status_left: other.looks.status_left, ..o.looks }, ..o };
    reveal(rest_fit);
    reveal(one_fit);
    reveal(two_fit);
    reveal(three_fit);
    reveal(four_fit);
    reveal(five_fit);
    reveal(six_fit);
    reveal(seven_fit);
    lemma_walk(
        o,
        q,
        shell,
        13,
        option_line("status-left"@, o.looks.status_left@, Written::Quoted),
        option_line("status-left"@, q.looks.status_left@, Written::Quoted),
    );
}

proof fn lemma_status_right(o: Options, other: Options, shell: Option<Seq<char>>)
    ensures
        ({
            let q = Options { looks: Looks { status_right: other.looks.status_right, ..o.looks }, ..o };
            line_changes(
                o,
                q,
                shell,
                option_line("status-right"@, o.looks.status_right@, Written::Quoted),
                option_line("status-right"@, q.looks.status_right@, Written::Quoted),
            )
        }),
{
    let q = Options { looks: Looks { status_right: other.looks.status_right, ..o.looks }, ..o };
    reveal(rest_fit);
    reveal(one_fit);
    reveal(two_fit);
    reveal(three_fit);
    reveal(four_fit);
    reveal(five_fit);
    reveal(six_fit);
    reveal(seven_fit);
    lemma_walk(
        o,
        q,
        shell,
        14,
        option_line("status-right"@, o.looks.status_right@, Written::Quoted),
        option_line("status-right"@, q.looks.status_right@, Written::Quoted),
    );
}

proof fn lemma_history_limit(o: Options, other: Options, shell: Option<Seq<char>>)
    ensures
        ({
            let q = Options { limits: Limits { history_limit: other.limits.history_limit, ..o.limits }, ..o };
            line_changes(
                o,
                q,
                shell,
                option_line("history-limit"@, decimal(o.limits.history_limit as nat), Written::Plain),
                option_line("history-limit"@, decimal(q.limits.history_limit as nat), Written::Plain),
            )
        }),
{
    let q = Options { limits: Limits { history_limit: other.limits.history_limit, ..o.limits }, ..o };
    reveal(rest_fit);
    reveal(one_fit);
    reveal(two_fit);
    reveal(three_fit);
    reveal(four_fit);
    reveal(five_fit);
    reveal(six_fit);
    reveal(seven_fit);
    lemma_walk(
        o,
        q,
        shell,
        15,
        option_line("history-limit"@, decimal(o.limits.history_limit as nat), Written::Plain),
        option_line("history-limit"@, decimal(q.limits.history_limit as nat), Written::Plain),
    );
}

proof fn lemma_display_time(o: Options, other: Options, shell: Option<Seq<char>>)
    ensures
        ({
            let q = Options { limits: Limits { display_time_ms: other.limits.display_time_ms, ..o.limits }, ..o };
            line_changes(
                o,
                q,
                shell,
                option_line("display-time"@, decimal(o.limits.display_time_ms as nat), Written::Plain),
                option_line("display-time"@, decimal(q.limits.display_time_ms as nat), Written::Plain),
            )
        }),
{
    let q = Options { limits: Limits { display_time_ms: other.limits.display_time_ms, ..o.limits }, ..o };
    reveal(rest_fit);
    reveal(one_fit);
    reveal(two_fit);
    reveal(three_fit);
    reveal(four_fit);
    reveal(five_fit);
    reveal(six_fit);
    reveal(seven_fit);
    lemma_walk(
        o,
        q,
        shell,
        16,
        option_line("display-time"@, decimal(o.limits.display_time_ms as nat), Written::Plain),
        option_line("display-time"@, decimal(q.limits.display_time_ms as nat), Written::Plain),
    );
}

proof fn lemma_display_panes_time(o: Options, other: Options, shell: Option<Seq<char>>)
    ensures
        ({
            let q = Options { limits: Limits { display_panes_time_ms: other.limits.display_panes_time_ms, ..o.limits }, ..o };
            line_changes(
                o,
                q,
                shell,
                option_line("display-panes-time"@, decimal(o.limits.display_panes_time_ms as nat), Written::Plain),
                option_line("display-panes-time"@, decimal(q.limits.display_panes_time_ms as nat), Written::Plain),
            )
        }),
{
    let q = Options { limits: Limits { display_panes_time_ms: other.limits.display_panes_time_ms, ..o.limits }, ..o };
    reveal(rest_fit);
    reveal(one_fit);
    reveal(two_fit);
    reveal(three_fit);
    reveal(four_fit);
    reveal(five_fit);
    reveal(six_fit);
    reveal(seven_fit);
    lemma_walk(
        o,
        q,
        shell,
        17,
        option_line("display-panes-time"@, decimal(o.limits.display_panes_time_ms as nat), Written::Plain),
        option_line("display-panes-time"@, decimal(q.limits.display_panes_time_ms as nat), Written::Plain),
    );
}

proof fn lemma_mode_keys(o: Options, other: Options, shell: Option<Seq<char>>)
    ensures
        ({
            let q = Options { looks: Looks { mode_keys: other.looks.mode_keys, ..o.looks }, ..o };
            line_changes(
                o,
                q,
                shell,
                option_line("mode-keys"@, o.looks.mode_keys@, Written::Plain),
                option_line("mode-keys"@, q.looks.mode_keys@, Written::Plain),
            )
        }),
{
    let q = Options { looks: Looks { mode_keys: other.looks.mode_keys, ..o.looks }, ..o };
    reveal(rest_fit);
    reveal(one_fit);
    reveal(two_fit);
    reveal(three_fit);
    reveal(four_fit);
    reveal(five_fit);
    reveal(six_fit);
    reveal(seven_fit);
    lemma_walk(
        o,
        q,
        shell,
        18,
        option_line("mode-keys"@, o.looks.mode_keys@, Written::Plain),
        option_line("mode-keys"@, q.looks.mode_keys@, Written::Plain),
    );
}

proof fn lemma_focus_events(o: Options, other: Options, shell: Option<Seq<char>>)
    ensures
        ({
            let q = Options { switches: Switches { focus_events: other.switches.focus_events, ..o.switches }, ..o };
            line_changes(
                o,
                q,
                shell,
                option_line("focus-events"@, yes_or_no(o.switches.focus_events), Written::Plain),
                option_line("focus-events"@, yes_or_no(q.switches.focus_events), Written::Plain),
            )
        }),
{
    let q = Options { switches: Switches { focus_events: other.switches.focus_events, ..o.switches }, ..o };
    lemma_switch(o.switches.focus_events);
    lemma_switch(q.switches.focus_events);
    reveal(rest_fit);
    reveal(one_fit);
    reveal(two_fit);
    reveal(three_fit);
    reveal(four_fit);
    reveal(five_fit);
    reveal(six_fit);
    reveal(seven_fit);
    lemma_walk(
        o,
        q,
        shell,
        19,
        option_line("focus-events"@, on_off(o.switches.focus_events), Written::Plain),
        option_line("focus-events"@, on_off(q.switches.focus_events), Written::Plain),
    );
}

proof fn lemma_renumber_windows(o: Options, other: Options, shell: Option<Seq<char>>)
    ensures
        ({
            let q = Options { switches: Switches { renumber_windows: other.switches.renumber_windows, ..o.switches }, ..o };
            line_changes(
                o,
                q,
                shell,
                option_line("renumber-windows"@, yes_or_no(o.switches.renumber_windows), Written::Plain),
                option_line("renumber-windows"@, yes_or_no(q.switches.renumber_windows), Written::Plain),
            )
        }),
{
    let q = Options { switches: Switches { renumber_windows: other.switches.renumber_windows, ..o.switches }, ..o };
    lemma_switch(o.switches.renumber_windows);
    lemma_switch(q.switches.renumber_windows);
    reveal(rest_fit);
    reveal(one_fit);
    reveal(two_fit);
    reveal(three_fit);
    reveal(four_fit);
    reveal(five_fit);
    reveal(six_fit);
    reveal(seven_fit);
    lemma_walk(
        o,
        q,
        shell,
        20,
        option_line("renumber-windows"@, on_off(o.switches.renumber_windows), Written::Plain),
        option_line("renumber-windows"@, on_off(q.switches.renumber_windows), Written::Plain),
    );
}

proof fn lemma_automatic_rename(o: Options, other: Options, shell: Option<Seq<char>>)
    ensures
        ({
            let q = Options { switches: Switches { automatic_rename: other.switches.automatic_rename, ..o.switches }, ..o };
            line_changes(
                o,
                q,
                shell,
                option_line("automatic-rename"@, yes_or_no(o.switches.automatic_rename), Written::Plain),
                option_line("automatic-rename"@, yes_or_no(q.switches.automatic_rename), Written::Plain),
            )
        }),
{
    let q = Options { switches: Switches { automatic_rename: other.switches.automatic_rename, ..o.switches }, ..o };
    lemma_switch(o.switches.automatic_rename);
    lemma_switch(q.switches.automatic_rename);
    reveal(rest_fit);
    reveal(one_fit);
    reveal(two_fit);
    reveal(three_fit);
    reveal(four_fit);
    reveal(five_fit);
    reveal(six_fit);
    reveal(seven_fit);
    lemma_walk(
        o,
        q,
        shell,
        21,
        option_line("automatic-rename"@, on_off(o.switches.automatic_rename), Written::Plain),
        option_line("automatic-rename"@, on_off(q.switches.automatic_rename), Written::Plain),
    );
}

proof fn lemma_monitor_activity(o: Options, other: Options, shell: Option<Seq<char>>)
    ensures
        ({
            let q = Options { switches: Switches { monitor_activity: other.switches.monitor_activity, ..o.switches }, ..o };
            line_changes(
                o,
                q,
                shell,
                option_line("monitor-activity"@, yes_or_no(o.switches.monitor_activity), Written::Plain),
                option_line("monitor-activity"@, yes_or_no(q.switches.monitor_activity), Written::Plain),
            )
        }),
{
    let q = Options { switches: Switches { monitor_activity: other.switches.monitor_activity, ..o.switches }, ..o };
    lemma_switch(o.switches.monitor_activity);
    lemma_switch(q.switches.monitor_activity);
    reveal(rest_fit);
    reveal(one_fit);
    reveal(two_fit);
    reveal(three_fit);
    reveal(four_fit);
    reveal(five_fit);
    reveal(six_fit);
    reveal(seven_fit);
    lemma_walk(
        o,
        q,
        shell,
        22,
        option_line("monitor-activity"@, on_off(o.switches.monitor_activity), Written::Plain),
        option_line("monitor-activity"@, on_off(q.switches.monitor_activity), Written::Plain),
    );
}

proof fn lemma_synchronize_panes(o: Options, other: Options, shell: Option<Seq<char>>)
    ensures
        ({
            let q = Options { switches: Switches { sync_input: other.switches.sync_input, ..o.switches }, ..o };
            line_changes(
                o,
                q,
                shell,
                option_line("synchronize-panes"@, yes_or_no(o.switches.sync_input), Written::Plain),
                option_line("synchronize-panes"@, yes_or_no(q.switches.sync_input), Written::Plain),
            )
        }),
{
    let q = Options { switches: Switches { sync_input: other.switches.sync_input, ..o.switches }, ..o };
    lemma_switch(o.switches.sync_input);
    lemma_switch(q.switches.sync_input);
    reveal(rest_fit);
    reveal(one_fit);
    reveal(two_fit);
    reveal(three_fit);
    reveal(four_fit);
    reveal(five_fit);
    reveal(six_fit);
    reveal(seven_fit);
    lemma_walk(
        o,
        q,
        shell,
        23,
        option_line("synchronize-panes"@, on_off(o.switches.sync_input), Written::Plain),
        option_line("synchronize-panes"@, on_off(q.switches.sync_input), Written::Plain),
    );
}

proof fn lemma_remain_on_exit(o: Options, other: Options, shell: Option<Seq<char>>)
    ensures
        ({
            let q = Options { switches: Switches { remain_on_exit: other.switches.remain_on_exit, ..o.switches }, ..o };
            line_changes(
                o,
                q,
                shell,
                option_line("remain-on-exit"@, yes_or_no(o.switches.remain_on_exit), Written::Plain),
                option_line("remain-on-exit"@, yes_or_no(q.switches.remain_on_exit), Written::Plain),
            )
        }),
{
    let q = Options { switches: Switches { remain_on_exit: other.switches.remain_on_exit, ..o.switches }, ..o };
    lemma_switch(o.switches.remain_on_exit);
    lemma_switch(q.switches.remain_on_exit);
    reveal(rest_fit);
    reveal(one_fit);
    reveal(two_fit);
    reveal(three_fit);
    reveal(four_fit);
    reveal(five_fit);
    reveal(six_fit);
    reveal(seven_fit);
    lemma_walk(
        o,
        q,
        shell,
        24,
        option_line("remain-on-exit"@, on_off(o.switches.remain_on_exit), Written::Plain),
        option_line("remain-on-exit"@, on_off(q.switches.remain_on_exit), Written::Plain),
    );
}

proof fn lemma_destroy_unattached(o: Options, other: Options, shell: Option<Seq<char>>)
    ensures
        ({
            let q = Options { switches: Switches { destroy_unattached: other.switches.destroy_unattached, ..o.switches }, ..o };
            line_changes(
                o,
                q,
                shell,
                option_line("destroy-unattached"@, yes_or_no(o.switches.destroy_unattached), Written::Plain),
                option_line("destroy-unattached"@, yes_or_no(q.switches.destroy_unattached), Written::Plain),
            )
        }),
{
    let q = Options { switches: Switches { destroy_unattached: other.switches.destroy_unattached, ..o.switches }, ..o };
    lemma_switch(o.switches.destroy_unattached);
    lemma_switch(q.switches.destroy_unattached);
    reveal(rest_fit);
    reveal(one_fit);
    reveal(two_fit);
    reveal(three_fit);
    reveal(four_fit);
    reveal(five_fit);
    reveal(six_fit);
    reveal(seven_fit);
    lemma_walk(
        o,
        q,
        shell,
        25,
        option_line("destroy-unattached"@, on_off(o.switches.destroy_unattached), Written::Plain),
        option_line("destroy-unattached"@, on_off(q.switches.destroy_unattached), Written::Plain),
    );
}

proof fn lemma_exit_empty(o: Options, other: Options, shell: Option<Seq<char>>)
    ensures
        ({
            let q = Options { switches: Switches { exit_empty: other.switches.exit_empty, ..o.switches }, ..o };
            line_changes(
                o,
                q,
                shell,
                option_line("exit-empty"@, yes_or_no(o.switches.exit_empty), Written::Plain),
                option_line("exit-empty"@, yes_or_no(q.switches.exit_empty), Written::Plain),
            )
        }),
{
    let q = Options { switches: Switches { exit_empty: other.switches.exit_empty, ..o.switches }, ..o };
    lemma_switch(o.switches.exit_empty);
    lemma_switch(q.switches.exit_empty);
    reveal(rest_fit);
    reveal(one_fit);
    reveal(two_fit);
    reveal(three_fit);
    reveal(four_fit);
    reveal(five_fit);
    reveal(six_fit);
    reveal(seven_fit);
    lemma_walk(
        o,
        q,
        shell,
        26,
        option_line("exit-empty"@, on_off(o.switches.exit_empty), Written::Plain),
        option_line("exit-empty"@, on_off(q.switches.exit_empty), Written::Plain),
    );
}

proof fn lemma_set_titles(o: Options, other: Options, shell: Option<Seq<char>>)
    ensures
        ({
            let q = Options { switches: Switches { set_titles: other.switches.set_titles, ..o.switches }, ..o };
            line_changes(
                o,
                q,
                shell,
                option_line("set-titles"@, yes_or_no(o.switches.set_titles), Written::Plain),
                option_line("set-titles"@, yes_or_no(q.switches.set_titles), Written::Plain),
            )
        }),
{
    let q = Options { switches: Switches { set_titles: other.switches.set_titles, ..o.switches }, ..o };
    lemma_switch(o.switches.set_titles);
    lemma_switch(q.switches.set_titles);
    reveal(rest_fit);
    reveal(one_fit);
    reveal(two_fit);
    reveal(three_fit);
    reveal(four_fit);
    reveal(five_fit);
    reveal(six_fit);
    reveal(seven_fit);
    lemma_walk(
        o,
        q,
        shell,
        27,
        option_line("set-titles"@, on_off(o.switches.set_titles), Written::Plain),
        option_line("set-titles"@, on_off(q.switches.set_titles), Written::Plain),
    );
}

proof fn lemma_set_titles_string(o: Options, other: Options, shell: Option<Seq<char>>)
    ensures
        ({
            let q = Options { other: OtherTexts { set_titles_string: other.other.set_titles_string, ..o.other }, ..o };
            line_changes(
                o,
                q,
                shell,
                option_line("set-titles-string"@, o.other.set_titles_string@, Written::Filled),
                option_line("set-titles-string"@, q.other.set_titles_string@, Written::Filled),
            )
        }),
{
    let q = Options { other: OtherTexts { set_titles_string: other.other.set_titles_string, ..o.other }, ..o };
    reveal(rest_fit);
    reveal(one_fit);
    reveal(two_fit);
    reveal(three_fit);
    reveal(four_fit);
    reveal(five_fit);
    reveal(six_fit);
    reveal(seven_fit);
    lemma_walk(
        o,
        q,
        shell,
        28,
        option_line("set-titles-string"@, o.other.set_titles_string@, Written::Filled),
        option_line("set-titles-string"@, q.other.set_titles_string@, Written::Filled),
    );
}

proof fn lemma_prediction_dimming(o: Options, other: Options, shell: Option<Seq<char>>)
    ensures
        ({
            let q = Options { switches: Switches { prediction_dimming: other.switches.prediction_dimming, ..o.switches }, ..o };
            line_changes(
                o,
                q,
                shell,
                option_line("prediction-dimming"@, yes_or_no(o.switches.prediction_dimming), Written::Plain),
                option_line("prediction-dimming"@, yes_or_no(q.switches.prediction_dimming), Written::Plain),
            )
        }),
{
    let q = Options { switches: Switches { prediction_dimming: other.switches.prediction_dimming, ..o.switches }, ..o };
    lemma_switch(o.switches.prediction_dimming);
    lemma_switch(q.switches.prediction_dimming);
    reveal(rest_fit);
    reveal(one_fit);
    reveal(two_fit);
    reveal(three_fit);
    reveal(four_fit);
    reveal(five_fit);
    reveal(six_fit);
    reveal(seven_fit);
    lemma_walk(
        o,
        q,
        shell,
        29,
        option_line("prediction-dimming"@, on_off(o.switches.prediction_dimming), Written::Plain),
        option_line("prediction-dimming"@, on_off(q.switches.prediction_dimming), Written::Plain),
    );
}

proof fn lemma_allow_predictions(o: Options, other: Options, shell: Option<Seq<char>>)
    ensures
        ({
            let q = Options { switches: Switches { allow_predictions: other.switches.allow_predictions, ..o.switches }, ..o };
            line_changes(
                o,
                q,
                shell,
                option_line("allow-predictions"@, yes_or_no(o.switches.allow_predictions), Written::Plain),
                option_line("allow-predictions"@, yes_or_no(q.switches.allow_predictions), Written::Plain),
            )
        }),
{
    let q = Options { switches: Switches { allow_predictions: other.switches.allow_predictions, ..o.switches }, ..o };
    lemma_switch(o.switches.allow_predictions);
    lemma_switch(q.switches.allow_predictions);
    reveal(rest_fit);
    reveal(one_fit);
    reveal(two_fit);
    reveal(three_fit);
    reveal(four_fit);
    reveal(five_fit);
    reveal(six_fit);
    reveal(seven_fit);
    lemma_walk(
        o,
        q,
        shell,
        30,
        option_line("allow-predictions"@, on_off(o.switches.allow_predictions), Written::Plain),
        option_line("allow-predictions"@, on_off(q.switches.allow_predictions), Written::Plain),
    );
}

proof fn lemma_cursor_style(o: Options, other: Options, shell: Option<Seq<char>>)
    ensures
        ({
            let q = Options { looks: Looks { cursor_style: other.looks.cursor_style, ..o.looks }, ..o };
            line_changes(
                o,
                q,
                shell,
                option_line("cursor-style"@, o.looks.cursor_style@, Written::Plain),
                option_line("cursor-style"@, q.looks.cursor_style@, Written::Plain),
            )
        }),
{
    let q = Options { looks: Looks { cursor_style: other.looks.cursor_style, ..o.looks }, ..o };
    reveal(rest_fit);
    reveal(one_fit);
    reveal(two_fit);
    reveal(three_fit);
    reveal(four_fit);
    reveal(five_fit);
    reveal(six_fit);
    reveal(seven_fit);
    lemma_walk(
        o,
        q,
        shell,
        31,
        option_line("cursor-style"@, o.looks.cursor_style@, Written::Plain),
        option_line("cursor-style"@, q.looks.cursor_style@, Written::Plain),
    );
}

proof fn lemma_cursor_blink(o: Options, other: Options, shell: Option<Seq<char>>)
    ensures
        ({
            let q = Options { looks: Looks { cursor_blink: other.looks.cursor_blink, ..o.looks }, ..o };
            line_changes(
                o,
                q,
                shell,
                option_line("cursor-blink"@, yes_or_no(o.looks.cursor_blink@ != seq!['0']), Written::Plain),
                option_line("cursor-blink"@, yes_or_no(q.looks.cursor_blink@ != seq!['0']), Written::Plain),
            )
        }),
{
    let q = Options { looks: Looks { cursor_blink: other.looks.cursor_blink, ..o.looks }, ..o };
    reveal_strlit("0");
    assert("0"@ =~= seq!['0']);
    lemma_switch(o.looks.cursor_blink@ != "0"@);
    lemma_switch(q.looks.cursor_blink@ != "0"@);
    reveal(rest_fit);
    reveal(one_fit);
    reveal(two_fit);
    reveal(three_fit);
    reveal(four_fit);
    reveal(five_fit);
    reveal(six_fit);
    reveal(seven_fit);
    lemma_walk(
        o,
        q,
        shell,
        32,
        option_line("cursor-blink"@, on_off(o.looks.cursor_blink@ != "0"@), Written::Plain),
        option_line("cursor-blink"@, on_off(q.looks.cursor_blink@ != "0"@), Written::Plain),
    );
}

proof fn lemma_default_shell(o: Options, other: Options, shell: Option<Seq<char>>)
    ensures
        ({
            let q = Options { other: OtherTexts { default_shell: other.other.default_shell, ..o.other }, ..o };
            line_changes(
                o,
                q,
                shell,
                option_line("default-shell"@, shell_shown(o.other.default_shell@, shell), Written::Plain),
                option_line("default-shell"@, shell_shown(q.other.default_shell@, shell), Written::Plain),
            )
        }),
{
    let q = Options { other: OtherTexts { default_shell: other.other.default_shell, ..o.other }, ..o };
    reveal(rest_fit);
    reveal(one_fit);
    reveal(two_fit);
    reveal(three_fit);
    reveal(four_fit);
    reveal(five_fit);
    reveal(six_fit);
    reveal(seven_fit);
    lemma_walk(
        o,
        q,
        shell,
        33,
        option_line("default-shell"@, shell_shown(o.other.default_shell@, shell), Written::Plain),
        option_line("default-shell"@, shell_shown(q.other.default_shell@, shell), Written::Plain),
    );
}

proof fn lemma_word_separators(o: Options, other: Options, shell: Option<Seq<char>>)
    ensures
        ({
            let q = Options { other: OtherTexts { word_separators: other.other.word_separators, ..o.other }, ..o };
            line_changes(
                o,
                q,
                shell,
                option_line("word-separators"@, o.other.word_separators@, Written::Quoted),
                option_line("word-separators"@, q.other.word_separators@, Written::Quoted),
            )
        }),
{
    let q = Options { other: OtherTexts { word_separators: other.other.word_separators, ..o.other }, ..o };
    reveal(rest_fit);
    reveal(one_fit);
    reveal(two_fit);
    reveal(three_fit);
    reveal(four_fit);
    reveal(five_fit);
    reveal(six_fit);
    reveal(seven_fit);
    lemma_walk(
        o,
        q,
        shell,
        34,
        option_line("word-separators"@, o.other.word_separators@, Written::Quoted),
        option_line("word-separators"@, q.other.word_separators@, Written::Quoted),
    );
}

proof fn lemma_pane_border_style(o: Options, other: Options, shell: Option<Seq<char>>)
    ensures
        ({
            let q = Options { looks: Looks { pane_border_style: other.looks.pane_border_style, ..o.looks }, ..o };
            line_changes(
                o,
                q,
                shell,
                option_line("pane-border-style"@, o.looks.pane_border_style@, Written::Filled),
                option_line("pane-border-style"@, q.looks.pane_border_style@, Written::Filled),
            )
        }),
{
    let q = Options { looks: Looks { pane_border_style: other.looks.pane_border_style, ..o.looks }, ..o };
    reveal(rest_fit);
    reveal(one_fit);
    reveal(two_fit);
    reveal(three_fit);
    reveal(four_fit);
    reveal(five_fit);
    reveal(six_fit);
    reveal(seven_fit);
    lemma_walk(
        o,
        q,
        shell,
        35,
        option_line("pane-border-style"@, o.looks.pane_border_style@, Written::Filled),
        option_line("pane-border-style"@, q.looks.pane_border_style@, Written::Filled),
    );
}

proof fn lemma_pane_active_border_style(o: Options, other: Options, shell: Option<Seq<char>>)
    ensures
        ({
            let q = Options { looks: Looks { pane_active_border_style: other.looks.pane_active_border_style, ..o.looks }, ..o };
            line_changes(
                o,
                q,
                shell,
                option_line("pane-active-border-style"@, o.looks.pane_active_border_style@, Written::Filled),
                option_line("pane-active-border-style"@, q.looks.pane_active_border_style@, Written::Filled),
            )
        }),
{
    let q = Options { looks: Looks { pane_active_border_style: other.looks.pane_active_border_style, ..o.looks }, ..o };
    reveal(rest_fit);
    reveal(one_fit);
    reveal(two_fit);
    reveal(three_fit);
    reveal(four_fit);
    reveal(five_fit);
    reveal(six_fit);
    reveal(seven_fit);
    lemma_walk(
        o,
        q,
        shell,
        36,
        option_line("pane-active-border-style"@, o.looks.pane_active_border_style@, Written::Filled),
        option_line("pane-active-border-style"@, q.looks.pane_active_border_style@, Written::Filled),
    );
}

proof fn lemma_pane_border_hover_style(o: Options, other: Options, shell: Option<Seq<char>>)
    ensures
        ({
            let q = Options { looks: Looks { pane_border_hover_style: other.looks.pane_border_hover_style, ..o.looks }, ..o };
            line_changes(
                o,
                q,
                shell,
                option_line("pane-border-hover-style"@, o.looks.pane_border_hover_style@, Written::Filled),
                option_line("pane-border-hover-style"@, q.looks.pane_border_hover_style@, Written::Filled),
            )
        }),
{
    let q = Options { looks: Looks { pane_border_hover_style: other.looks.pane_border_hover_style, ..o.looks }, ..o };
    reveal(rest_fit);
    reveal(one_fit);
    reveal(two_fit);
    reveal(three_fit);
    reveal(four_fit);
    reveal(five_fit);
    reveal(six_fit);
    reveal(seven_fit);
    lemma_walk(
        o,
        q,
        shell,
        37,
        option_line("pane-border-hover-style"@, o.looks.pane_border_hover_style@, Written::Filled),
        option_line("pane-border-hover-style"@, q.looks.pane_border_hover_style@, Written::Filled),
    );
}

proof fn lemma_status_style(o: Options, other: Options, shell: Option<Seq<char>>)
    ensures
        ({
            let q = Options { looks: Looks { status_style: other.looks.status_style, ..o.looks }, ..o };
            line_changes(
                o,
                q,
                shell,
                option_line("status-style"@, o.looks.status_style@, Written::Filled),
                option_line("status-style"@, q.looks.status_style@, Written::Filled),
            )
        }),
{
    let q = Options { looks: Looks { status_style: other.looks.status_style, ..o.looks }, ..o };
    reveal(rest_fit);
    reveal(one_fit);
    reveal(two_fit);
    reveal(three_fit);
    reveal(four_fit);
    reveal(five_fit);
    reveal(six_fit);
    reveal(seven_fit);
    lemma_walk(
        o,
        q,
        shell,
        38,
        option_line("status-style"@, o.looks.status_style@, Written::Filled),
        option_line("status-style"@, q.looks.status_style@, Written::Filled),
    );
}

proof fn lemma_status_left_style(o: Options, other: Options, shell: Option<Seq<char>>)
    ensures
        ({
            let q = Options { other: OtherTexts { status_left_style: other.other.status_left_style, ..o.other }, ..o };
            line_changes(
                o,
                q,
                shell,
                option_line("status-left-style"@, o.other.status_left_style@, Written::Filled),
                option_line("status-left-style"@, q.other.status_left_style@, Written::Filled),
            )
        }),
{
    let q = Options { other: OtherTexts { status_left_style: other.other.status_left_style, ..o.other }, ..o };
    reveal(rest_fit);
    reveal(one_fit);
    reveal(two_fit);
    reveal(three_fit);
    reveal(four_fit);
    reveal(five_fit);
    reveal(six_fit);
    reveal(seven_fit);
    lemma_walk(
        o,
        q,
        shell,
        39,
        option_line("status-left-style"@, o.other.status_left_style@, Written::Filled),
        option_line("status-left-style"@, q.other.status_left_style@, Written::Filled),
    );
}

proof fn lemma_status_right_style(o: Options, other: Options, shell: Option<Seq<char>>)
    ensures
        ({
            let q = Options { other: OtherTexts { status_right_style: other.other.status_right_style, ..o.other }, ..o };
            line_changes(
                o,
                q,
                shell,
                option_line("status-right-style"@, o.other.status_right_style@, Written::Filled),
                option_line("status-right-style"@, q.other.status_right_style@, Written::Filled),
            )
        }),
{
    let q = Options { other: OtherTexts { status_right_style: other.other.status_right_style, ..o.other }, ..o };
    reveal(rest_fit);
    reveal(one_fit);
    reveal(two_fit);
    reveal(three_fit);
    reveal(four_fit);
    reveal(five_fit);
    reveal(six_fit);
    reveal(seven_fit);
    lemma_walk(
        o,
        q,
        shell,
        40,
        option_line("status-right-style"@, o.other.status_right_style@, Written::Filled),
        option_line("status-right-style"@, q.other.status_right_style@, Written::Filled),
    );
}

proof fn lemma_status_interval(o: Options, other: Options, shell: Option<Seq<char>>)
    ensures
        ({
            let q = Options { limits: Limits { status_interval: other.limits.status_interval, ..o.limits }, ..o };
            line_changes(
                o,
                q,
                shell,
                option_line("status-interval"@, decimal(o.limits.status_interval as nat), Written::Plain),
                option_line("status-interval"@, decimal(q.limits.status_interval as nat), Written::Plain),
            )
        }),
{
    let q = Options { limits: Limits { status_interval: other.limits.status_interval, ..o.limits }, ..o };
    reveal(rest_fit);
    reveal(one_fit);
    reveal(two_fit);
    reveal(three_fit);
    reveal(four_fit);
    reveal(five_fit);
    reveal(six_fit);
    reveal(seven_fit);
    lemma_walk(
        o,
        q,
        shell,
        41,
        option_line("status-interval"@, decimal(o.limits.status_interval as nat), Written::Plain),
        option_line("status-interval"@, decimal(q.limits.status_interval as nat), Written::Plain),
    );
}

proof fn lemma_status_justify(o: Options, other: Options, shell: Option<Seq<char>>)
    ensures
        ({
            let q = Options { other: OtherTexts { status_justify: other.other.status_justify, ..o.other }, ..o };
            line_changes(
                o,
                q,
                shell,
                option_line("status-justify"@, o.other.status_justify@, Written::Plain),
                option_line("status-justify"@, q.other.status_justify@, Written::Plain),
            )
        }),
{
    let q = Options { other: OtherTexts { status_justify: other.other.status_justify, ..o.other }, ..o };
    reveal(rest_fit);
    reveal(one_fit);
    reveal(two_fit);
    reveal(three_fit);
    reveal(four_fit);
    reveal(five_fit);
    reveal(six_fit);
    reveal(seven_fit);
    lemma_walk(
        o,
        q,
        shell,
        42,
        option_line("status-justify"@, o.other.status_justify@, Written::Plain),
        option_line("status-justify"@, q.other.status_justify@, Written::Plain),
    );
}

proof fn lemma_window_status_format(o: Options, other: Options, shell: Option<Seq<char>>)
    ensures
        ({
            let q = Options { looks: Looks { window_status_format: other.looks.window_status_format, ..o.looks }, ..o };
            line_changes(
                o,
                q,
                shell,
                option_line("window-status-format"@, o.looks.window_status_format@, Written::Quoted),
                option_line("window-status-format"@, q.looks.window_status_format@, Written::Quoted),
            )
        }),
{
    let q = Options { looks: Looks { window_status_format: other.looks.window_status_format, ..o.looks }, ..o };
    reveal(rest_fit);
    reveal(one_fit);
    reveal(two_fit);
    reveal(three_fit);
    reveal(four_fit);
    reveal(five_fit);
    reveal(six_fit);
    reveal(seven_fit);
    lemma_walk(
        o,
        q,
        shell,
        43,
        option_line("window-status-format"@, o.looks.window_status_format@, Written::Quoted),
        option_line("window-status-format"@, q.looks.window_status_format@, Written::Quoted),
    );
}

proof fn lemma_window_status_current_format(o: Options, other: Options, shell: Option<Seq<char>>)
    ensures
        ({
            let q = Options { looks: Looks { window_status_current_format: other.looks.window_status_current_format, ..o.looks }, ..o };
            line_changes(
                o,
                q,
                shell,
                option_line("window-status-current-format"@, o.looks.window_status_current_format@, Written::Quoted),
                option_line("window-status-current-format"@, q.looks.window_status_current_format@, Written::Quoted),
            )
        }),
{
    let q = Options { looks: Looks { window_status_current_format: other.looks.window_status_current_format, ..o.looks }, ..o };
    reveal(rest_fit);
    reveal(one_fit);
    reveal(two_fit);
    reveal(three_fit);
    reveal(four_fit);
    reveal(five_fit);
    reveal(six_fit);
    reveal(seven_fit);
    lemma_walk(
        o,
        q,
        shell,
        44,
        option_line("window-status-current-format"@, o.looks.window_status_current_format@, Written::Quoted),
        option_line("window-status-current-format"@, q.looks.window_status_current_format@, Written::Quoted),
    );
}

proof fn lemma_window_status_style(o: Options, other: Options, shell: Option<Seq<char>>)
    ensures
        ({
            let q = Options { other: OtherTexts { window_status_style: other.other.window_status_style, ..o.other }, ..o };
            line_changes(
                o,
                q,
                shell,
                option_line("window-status-style"@, o.other.window_status_style@, Written::Filled),
                option_line("window-status-style"@, q.other.window_status_style@, Written::Filled),
            )
        }),
{
    let q = Options { other: OtherTexts { window_status_style: other.other.window_status_style, ..o.other }, ..o };
    reveal(rest_fit);
    reveal(one_fit);
    reveal(two_fit);
    reveal(three_fit);
    reveal(four_fit);
    reveal(five_fit);
    reveal(six_fit);
    reveal(seven_fit);
    lemma_walk(
        o,
        q,
        shell,
        45,
        option_line("window-status-style"@, o.other.window_status_style@, Written::Filled),
        option_line("window-status-style"@, q.other.window_status_style@, Written::Filled),
    );
}

proof fn lemma_window_status_current_style(o: Options, other: Options, shell: Option<Seq<char>>)
    ensures
        ({
            let q = Options { other: OtherTexts { window_status_current_style: other.other.window_status_current_style, ..o.other }, ..o };
            line_changes(
                o,
                q,
                shell,
                option_line("window-status-current-style"@, o.other.window_status_current_style@, Written::Filled),
                option_line("window-status-current-style"@, q.other.window_status_current_style@, Written::Filled),
            )
        }),
{
    let q = Options { other: OtherTexts { window_status_current_style: other.other.window_status_current_style, ..o.other }, ..o };
    reveal(rest_fit);
    reveal(one_fit);
    reveal(two_fit);
    reveal(three_fit);
    reveal(four_fit);
    reveal(five_fit);
    reveal(six_fit);
    reveal(seven_fit);
    lemma_walk(
        o,
        q,
        shell,
        46,
        option_line("window-status-current-style"@, o.other.window_status_current_style@, Written::Filled),
        option_line("window-status-current-style"@, q.other.window_status_current_style@, Written::Filled),
    );
}

proof fn lemma_window_status_activity_style(o: Options, other: Options, shell: Option<Seq<char>>)
    ensures
        ({
            let q = Options { other: OtherTexts { window_status_activity_style: other.other.window_status_activity_style, ..o.other }, ..o };
            line_changes(
                o,
                q,
                shell,
                option_line("window-status-activity-style"@, o.other.window_status_activity_style@, Written::Filled),
                option_line("window-status-activity-style"@, q.other.window_status_activity_style@, Written::Filled),
            )
        }),
{
    let q = Options { other: OtherTexts { window_status_activity_style: other.other.window_status_activity_style, ..o.other }, ..o };
    reveal(rest_fit);
    reveal(one_fit);
    reveal(two_fit);
    reveal(three_fit);
    reveal(four_fit);
    reveal(five_fit);
    reveal(six_fit);
    reveal(seven_fit);
    lemma_walk(
        o,
        q,
        shell,
        47,
        option_line("window-status-activity-style"@, o.other.window_status_activity_style@, Written::Filled),
        option_line("window-status-activity-style"@, q.other.window_status_activity_style@, Written::Filled),
    );
}

proof fn lemma_message_style(o: Options, other: Options, shell: Option<Seq<char>>)
    ensures
        ({
            let q = Options { other: OtherTexts { message_style: other.other.message_style, ..o.other }, ..o };
            line_changes(
                o,
                q,
                shell,
                option_line("message-style"@, o.other.message_style@, Written::Filled),
                option_line("message-style"@, q.other.message_style@, Written::Filled),
            )
        }),
{
    let q = Options { other: OtherTexts { message_style: other.other.message_style, ..o.other }, ..o };
    reveal(rest_fit);
    reveal(one_fit);
    reveal(two_fit);
    reveal(three_fit);
    reveal(four_fit);
    reveal(five_fit);
    reveal(six_fit);
    reveal(seven_fit);
    lemma_walk(
        o,
        q,
        shell,
        48,
        option_line("message-style"@, o.other.message_style@, Written::Filled),
        option_line("message-style"@, q.other.message_style@, Written::Filled),
    );
}

proof fn lemma_message_command_style(o: Options, other: Options, shell: Option<Seq<char>>)
    ensures
        ({
            let q = Options { other: OtherTexts { message_command_style: other.other.message_command_style, ..o.other }, ..o };
            line_changes(
                o,
                q,
                shell,
                option_line("message-command-style"@, o.other.message_command_style@, Written::Filled),
                option_line("message-command-style"@, q.other.message_command_style@, Written::Filled),
            )
        }),
{
    let q = Options { other: OtherTexts { message_command_style: other.other.message_command_style, ..o.other }, ..o };
    reveal(rest_fit);
    reveal(one_fit);
    reveal(two_fit);
    reveal(three_fit);
    reveal(four_fit);
    reveal(five_fit);
    reveal(six_fit);
    reveal(seven_fit);
    lemma_walk(
        o,
        q,
        shell,
        49,
        option_line("message-command-style"@, o.other.message_command_style@, Written::Filled),
        option_line("message-command-style"@, q.other.message_command_style@, Written::Filled),
    );
}

proof fn lemma_mode_style(o: Options, other: Options, shell: Option<Seq<char>>)
    ensures
        ({
            let q = Options { other: OtherTexts { mode_style: other.other.mode_style, ..o.other }, ..o };
            line_changes(
                o,
                q,
                shell,
                option_line("mode-style"@, o.other.mode_style@, Written::Filled),
                option_line("mode-style"@, q.other.mode_style@, Written::Filled),
            )
        }),
{
    let q = Options { other: OtherTexts { mode_style: other.other.mode_style, ..o.other }, ..o };
    reveal(rest_fit);
    reveal(one_fit);
    reveal(two_fit);
    reveal(three_fit);
    reveal(four_fit);
    reveal(five_fit);
    reveal(six_fit);
    reveal(seven_fit);
    lemma_walk(
        o,
        q,
        shell,
        50,
        option_line("mode-style"@, o.other.mode_style@, Written::Filled),
        option_line("mode-style"@, q.other.mode_style@, Written::Filled),
    );
}

proof fn lemma_main_pane_width(o: Options, other: Options, shell: Option<Seq<char>>)
    ensures
        ({
            let q = Options { limits: Limits { main_pane_width: other.limits.main_pane_width, ..o.limits }, ..o };
            line_changes(
                o,
                q,
                shell,
                option_line("main-pane-width"@, decimal(o.limits.main_pane_width as nat), Written::Plain),
                option_line("main-pane-width"@, decimal(q.limits.main_pane_width as nat), Written::Plain),
            )
        }),
{
    let q = Options { limits: Limits { main_pane_width: other.limits.main_pane_width, ..o.limits }, ..o };
    reveal(rest_fit);
    reveal(one_fit);
    reveal(two_fit);
    reveal(three_fit);
    reveal(four_fit);
    reveal(five_fit);
    reveal(six_fit);
    reveal(seven_fit);
    lemma_walk(
        o,
        q,
        shell,
        52,
        option_line("main-pane-width"@, decimal(o.limits.main_pane_width as nat), Written::Plain),
        option_line("main-pane-width"@, decimal(q.limits.main_pane_width as nat), Written::Plain),
    );
}

proof fn lemma_main_pane_height(o: Options, other: Options, shell: Option<Seq<char>>)
    ensures
        ({
            let q = Options { limits: Limits { main_pane_height: other.limits.main_pane_height, ..o.limits }, ..o };
            line_changes(
                o,
                q,
                shell,
                option_line("main-pane-height"@, decimal(o.limits.main_pane_height as nat), Written::Plain),
                option_line("main-pane-height"@, decimal(q.limits.main_pane_height as nat), Written::Plain),
            )
        }),
{
    let q = Options { limits: Limits { main_pane_height: other.limits.main_pane_height, ..o.limits }, ..o };
    reveal(rest_fit);
    reveal(one_fit);
    reveal(two_fit);
    reveal(three_fit);
    reveal(four_fit);
    reveal(five_fit);
    reveal(six_fit);
    reveal(seven_fit);
    lemma_walk(
        o,
        q,
        shell,
        53,
        option_line("main-pane-height"@, decimal(o.limits.main_pane_height as nat), Written::Plain),
        option_line("main-pane-height"@, decimal(q.limits.main_pane_height as nat), Written::Plain),
    );
}

proof fn lemma_status_left_length(o: Options, other: Options, shell: Option<Seq<char>>)
    ensures
        ({
            let q = Options { limits: Limits { status_left_length: other.limits.status_left_length, ..o.limits }, ..o };
            line_changes(
                o,
                q,
                shell,
                option_line("status-left-length"@, decimal(o.limits.status_left_length as nat), Written::Plain),
                option_line("status-left-length"@, decimal(q.limits.status_left_length as nat), Written::Plain),
            )
        }),
{
    let q = Options { limits: Limits { status_left_length: other.limits.status_left_length, ..o.limits }, ..o };
    reveal(rest_fit);
    reveal(one_fit);
    reveal(two_fit);
    reveal(three_fit);
    reveal(four_fit);
    reveal(five_fit);
    reveal(six_fit);
    reveal(seven_fit);
    lemma_walk(
        o,
        q,
        shell,
        54,
        option_line("status-left-length"@, decimal(o.limits.status_left_length as nat), Written::Plain),
        option_line("status-left-length"@, decimal(q.limits.status_left_length as nat), Written::Plain),
    );
}

proof fn lemma_status_right_length(o: Options, other: Options, shell: Option<Seq<char>>)
    ensures
        ({
            let q = Options { limits: Limits { status_right_length: other.limits.status_right_length, ..o.limits }, ..o };
            line_changes(
                o,
                q,
                shell,
                option_line("status-right-length"@, decimal(o.limits.status_right_length as nat), Written::Plain),
                option_line("status-right-length"@, decimal(q.limits.status_right_length as nat), Written::Plain),
            )
        }),
{
    let q = Options { limits: Limits { status_right_length: other.limits.status_right_length, ..o.limits }, ..o };
    reveal(rest_fit);
    reveal(one_fit);
    reveal(two_fit);
    reveal(three_fit);
    reveal(four_fit);
    reveal(five_fit);
    reveal(six_fit);
    reveal(seven_fit);
    lemma_walk(
        o,
        q,
        shell,
        55,
        option_line("status-right-length"@, decimal(o.limits.status_right_length as nat), Written::Plain),
        option_line("status-right-length"@, decimal(q.limits.status_right_length as nat), Written::Plain),
    );
}

proof fn lemma_window_size(o: Options, other: Options, shell: Option<Seq<char>>)
    ensures
        ({
            let q = Options { other: OtherTexts { window_size: other.other.window_size, ..o.other }, ..o };
            line_changes(
                o,
                q,
                shell,
                option_line("window-size"@, o.other.window_size@, Written::Plain),
                option_line("window-size"@, q.other.window_size@, Written::Plain),
            )
        }),
{
    let q = Options { other: OtherTexts { window_size: other.other.window_size, ..o.other }, ..o };
    reveal(rest_fit);
    reveal(one_fit);
    reveal(two_fit);
    reveal(three_fit);
    reveal(four_fit);
    reveal(five_fit);
    reveal(six_fit);
    reveal(seven_fit);
    lemma_walk(
        o,
        q,
        shell,
        56,
        option_line("window-size"@, o.other.window_size@, Written::Plain),
        option_line("window-size"@, q.other.window_size@, Written::Plain),
    );
}

proof fn lemma_allow_passthrough(o: Options, other: Options, shell: Option<Seq<char>>)
    ensures
        ({
            let q = Options { other: OtherTexts { allow_passthrough: other.other.allow_passthrough, ..o.other }, ..o };
            line_changes(
                o,
                q,
                shell,
                option_line("allow-passthrough"@, o.other.allow_passthrough@, Written::Plain),
                option_line("allow-passthrough"@, q.other.allow_passthrough@, Written::Plain),
            )
        }),
{
    let q = Options { other: OtherTexts { allow_passthrough: other.other.allow_passthrough, ..o.other }, ..o };
    reveal(rest_fit);
    reveal(one_fit);
    reveal(two_fit);
    reveal(three_fit);
    reveal(four_fit);
    reveal(five_fit);
    reveal(six_fit);
    reveal(seven_fit);
    lemma_walk(
        o,
        q,
        shell,
        57,
        option_line("allow-passthrough"@, o.other.allow_passthrough@, Written::Plain),
        option_line("allow-passthrough"@, q.other.allow_passthrough@, Written::Plain),
    );
}

proof fn lemma_set_clipboard(o: Options, other: Options, shell: Option<Seq<char>>)
    ensures
        ({
            let q = Options { other: OtherTexts { set_clipboard: other.other.set_clipboard, ..o.other }, ..o };
            line_changes(
                o,
                q,
                shell,
                option_line("set-clipboard"@, o.other.set_clipboard@, Written::Plain),
                option_line("set-clipboard"@, q.other.set_clipboard@, Written::Plain),
            )
        }),
{
    let q = Options { other: OtherTexts { set_clipboard: other.other.set_clipboard, ..o.other }, ..o };
    reveal(rest_fit);
    reveal(one_fit);
    reveal(two_fit);
    reveal(three_fit);
    reveal(four_fit);
    reveal(five_fit);
    reveal(six_fit);
    reveal(seven_fit);
    lemma_walk(
        o,
        q,
        shell,
        58,
        option_line("set-clipboard"@, o.other.set_clipboard@, Written::Plain),
        option_line("set-clipboard"@, q.other.set_clipboard@, Written::Plain),
    );
}

proof fn lemma_copy_command(o: Options, other: Options, shell: Option<Seq<char>>)
    ensures
        ({
            let q = Options { other: OtherTexts { copy_command: other.other.copy_command, ..o.other }, ..o };
            line_changes(
                o,
                q,
                shell,
                option_line("copy-command"@, o.other.copy_command@, Written::Filled),
                option_line("copy-command"@, q.other.copy_command@, Written::Filled),
            )
        }),
{
    let q = Options { other: OtherTexts { copy_command: other.other.copy_command, ..o.other }, ..o };
    reveal(rest_fit);
    reveal(one_fit);
    reveal(two_fit);
    reveal(three_fit);
    reveal(four_fit);
    reveal(five_fit);
    reveal(six_fit);
    reveal(seven_fit);
    lemma_walk(
        o,
        q,
        shell,
        59,
        option_line("copy-command"@, o.other.copy_command@, Written::Filled),
        option_line("copy-command"@, q.other.copy_command@, Written::Filled),
    );
}

proof fn lemma_allow_rename(o: Options, other: Options, shell: Option<Seq<char>>)
    ensures
        ({
            let q = Options { switches: Switches { allow_rename: other.switches.allow_rename, ..o.switches }, ..o };
            line_changes(
                o,
                q,
                shell,
                option_line("allow-rename"@, yes_or_no(o.switches.allow_rename), Written::Plain),
                option_line("allow-rename"@, yes_or_no(q.switches.allow_rename), Written::Plain),
            )
        }),
{
    let q = Options { switches: Switches { allow_rename: other.switches.allow_rename, ..o.switches }, ..o };
    lemma_switch(o.switches.allow_rename);
    lemma_switch(q.switches.allow_rename);
    reveal(rest_fit);
    reveal(one_fit);
    reveal(two_fit);
    reveal(three_fit);
    reveal(four_fit);
    reveal(five_fit);
    reveal(six_fit);
    reveal(seven_fit);
    lemma_walk(
        o,
        q,
        shell,
        60,
        option_line("allow-rename"@, on_off(o.switches.allow_rename), Written::Plain),
        option_line("allow-rename"@, on_off(q.switches.allow_rename), Written::Plain),
    );
}

proof fn lemma_allow_set_title(o: Options, other: Options, shell: Option<Seq<char>>)
    ensures
        ({
            let q = Options { switches: Switches { allow_set_title: other.switches.allow_set_title, ..o.switches }, ..o };
            line_changes(
                o,
                q,
                shell,
                option_line("allow-set-title"@, yes_or_no(o.switches.allow_set_title), Written::Plain),
                option_line("allow-set-title"@, yes_or_no(q.switches.allow_set_title), Written::Plain),
            )
        }),
{
    let q = Options { switches: Switches { allow_set_title: other.switches.allow_set_title, ..o.switches }, ..o };
    lemma_switch(o.switches.allow_set_title);
    lemma_switch(q.switches.allow_set_title);
    reveal(rest_fit);
    reveal(one_fit);
    reveal(two_fit);
    reveal(three_fit);
    reveal(four_fit);
    reveal(five_fit);
    reveal(six_fit);
    reveal(seven_fit);
    lemma_walk(
        o,
        q,
        shell,
        61,
        option_line("allow-set-title"@, on_off(o.switches.allow_set_title), Written::Plain),
        option_line("allow-set-title"@, on_off(q.switches.allow_set_title), Written::Plain),
    );
}

proof fn lemma_bell_action(o: Options, other: Options, shell: Option<Seq<char>>)
    ensures
        ({
            let q = Options { other: OtherTexts { bell_action: other.other.bell_action, ..o.other }, ..o };
            line_changes(
                o,
                q,
                shell,
                option_line("bell-action"@, o.other.bell_action@, Written::Plain),
                option_line("bell-action"@, q.other.bell_action@, Written::Plain),
            )
        }),
{
    let q = Options { other: OtherTexts { bell_action: other.other.bell_action, ..o.other }, ..o };
    reveal(rest_fit);
    reveal(one_fit);
    reveal(two_fit);
    reveal(three_fit);
    reveal(four_fit);
    reveal(five_fit);
    reveal(six_fit);
    reveal(seven_fit);
    lemma_walk(
        o,
        q,
        shell,
        62,
        option_line("bell-action"@, o.other.bell_action@, Written::Plain),
        option_line("bell-action"@, q.other.bell_action@, Written::Plain),
    );
}

proof fn lemma_activity_action(o: Options, other: Options, shell: Option<Seq<char>>)
    ensures
        ({
            let q = Options { other: OtherTexts { activity_action: other.other.activity_action, ..o.other }, ..o };
            line_changes(
                o,
                q,
                shell,
                option_line("activity-action"@, o.other.activity_action@, Written::Plain),
                option_line("activity-action"@, q.other.activity_action@, Written::Plain),
            )
        }),
{
    let q = Options { other: OtherTexts { activity_action: other.other.activity_action, ..o.other }, ..o };
    reveal(rest_fit);
    reveal(one_fit);
    reveal(two_fit);
    reveal(three_fit);
    reveal(four_fit);
    reveal(five_fit);
    reveal(six_fit);
    reveal(seven_fit);
    lemma_walk(
        o,
        q,
        shell,
        63,
        option_line("activity-action"@, o.other.activity_action@, Written::Plain),
        option_line("activity-action"@, q.other.activity_action@, Written::Plain),
    );
}

proof fn lemma_silence_action(o: Options, other: Options, shell: Option<Seq<char>>)
    ensures
        ({
            let q = Options { other: OtherTexts { silence_action: other.other.silence_action, ..o.other }, ..o };
            line_changes(
                o,
                q,
                shell,
                option_line("silence-action"@, o.other.silence_action@, Written::Plain),
                option_line("silence-action"@, q.other.silence_action@, Written::Plain),
            )
        }),
{
    let q = Options { other: OtherTexts { silence_action: other.other.silence_action, ..o.other }, ..o };
    reveal(rest_fit);
    reveal(one_fit);
    reveal(two_fit);
    reveal(three_fit);
    reveal(four_fit);
    reveal(five_fit);
    reveal(six_fit);
    reveal(seven_fit);
    lemma_walk(
        o,
        q,
        shell,
        64,
        option_line("silence-action"@, o.other.silence_action@, Written::Plain),
        option_line("silence-action"@, q.other.silence_action@, Written::Plain),
    );
}

proof fn lemma_update_environment(o: Options, other: Options, shell: Option<Seq<char>>)
    ensures
        ({
            let q = Options { other: OtherTexts { update_environment: other.other.update_environment, ..o.other }, ..o };
            line_changes(
                o,
                q,
                shell,
                option_line("update-environment"@, joined(texts(o.other.update_environment@), seq![' ']), Written::Quoted),
                option_line("update-environment"@, joined(texts(q.other.update_environment@), seq![' ']), Written::Quoted),
            )
        }),
{
    let q = Options { other: OtherTexts { update_environment: other.other.update_environment, ..o.other }, ..o };
    reveal_strlit(" ");
    assert(" "@ =~= seq![' ']);
    reveal(rest_fit);
    reveal(one_fit);
    reveal(two_fit);
    reveal(three_fit);
    reveal(four_fit);
    reveal(five_fit);
    reveal(six_fit);
    reveal(seven_fit);
    lemma_walk(
        o,
        q,
        shell,
        65,
        option_line("update-environment"@, joined(texts(o.other.update_environment@), " "@), Written::Quoted),
        option_line("update-environment"@, joined(texts(q.other.update_environment@), " "@), Written::Quoted),
    );
}

/// Each text is listed under its own name, and nowhere else; some of them only where they are not
/// empty.
pub proof fn texts_are_listed_under_their_names(o: Options, other: Options, shell: Option<Seq<char>>)
    ensures
        ({
            let q = Options { prefix: other.prefix, ..o };
            line_changes(
                o,
                q,
                shell,
                option_line("prefix"@, o.prefix@, Written::Plain),
                option_line("prefix"@, q.prefix@, Written::Plain),
            )
        }),
        ({
            let q = Options { looks: Looks { status_position: other.looks.status_position, ..o.looks }, ..o };
            line_changes(
                o,
                q,
                shell,
                option_line("status-position"@, o.looks.status_position@, Written::Plain),
                option_line("status-position"@, q.looks.status_position@, Written::Plain),
            )
        }),
        ({
            let q = Options { looks: Looks { status_left: other.looks.status_left, ..o.looks }, ..o };
            line_changes(
                o,
                q,
                shell,
                option_line("status-left"@, o.looks.status_left@, Written::Quoted),
                option_line("status-left"@, q.looks.status_left@, Written::Quoted),
            )
        }),
        ({
            let q = Options { looks: Looks { status_right: other.looks.status_right, ..o.looks }, ..o };
            line_changes(
                o,
                q,
                shell,
                option_line("status-right"@, o.looks.status_right@, Written::Quoted),
                option_line("status-right"@, q.looks.status_right@, Written::Quoted),
            )
        }),
        ({
            let q = Options { looks: Looks { mode_keys: other.looks.mode_keys, ..o.looks }, ..o };
            line_changes(
                o,
                q,
                shell,
                option_line("mode-keys"@, o.looks.mode_keys@, Written::Plain),
                option_line("mode-keys"@, q.looks.mode_keys@, Written::Plain),
            )
        }),
        ({
            let q = Options { other: OtherTexts { set_titles_string: other.other.set_titles_string, ..o.other }, ..o };
            line_changes(
                o,
                q,
                shell,
                option_line("set-titles-string"@, o.other.set_titles_string@, Written::Filled),
                option_line("set-titles-string"@, q.other.set_titles_string@, Written::Filled),
            )
        }),
        ({
            let q = Options { looks: Looks { cursor_style: other.looks.cursor_style, ..o.looks }, ..o };
            line_changes(
                o,
                q,
                shell,
                option_line("cursor-style"@, o.looks.cursor_style@, Written::Plain),
                option_line("cursor-style"@, q.looks.cursor_style@, Written::Plain),
            )
        }),
        ({
            let q = Options { other: OtherTexts { default_shell: other.other.default_shell, ..o.other }, ..o };
            line_changes(
                o,
                q,
                shell,
                option_line("default-shell"@, shell_shown(o.other.default_shell@, shell), Written::Plain),
                option_line("default-shell"@, shell_shown(q.other.default_shell@, shell), Written::Plain),
            )
        }),
        ({
            let q = Options { other: OtherTexts { word_separators: other.other.word_separators, ..o.other }, ..o };
            line_changes(
                o,
                q,
                shell,
                option_line("word-separators"@, o.other.word_separators@, Written::Quoted),
                option_line("word-separators"@, q.other.word_separators@, Written::Quoted),
            )
        }),
        ({
            let q = Options { looks: Looks { pane_border_style: other.looks.pane_border_style, ..o.looks }, ..o };
            line_changes(
                o,
                q,
                shell,
                option_line("pane-border-style"@, o.looks.pane_border_style@, Written::Filled),
                option_line("pane-border-style"@, q.looks.pane_border_style@, Written::Filled),
            )
        }),
        ({
            let q = Options { looks: Looks { pane_active_border_style: other.looks.pane_active_border_style, ..o.looks }, ..o };
            line_changes(
                o,
                q,
                shell,
                option_line("pane-active-border-style"@, o.looks.pane_active_border_style@, Written::Filled),
                option_line("pane-active-border-style"@, q.looks.pane_active_border_style@, Written::Filled),
            )
        }),
        ({
            let q = Options { looks: Looks { pane_border_hover_style: other.looks.pane_border_hover_style, ..o.looks }, ..o };
            line_changes(
                o,
                q,
                shell,
                option_line("pane-border-hover-style"@, o.looks.pane_border_hover_style@, Written::Filled),
                option_line("pane-border-hover-style"@, q.looks.pane_border_hover_style@, Written::Filled),
            )
        }),
        ({
            let q = Options { looks: Looks { status_style: other.looks.status_style, ..o.looks }, ..o };
            line_changes(
                o,
                q,
                shell,
                option_line("status-style"@, o.looks.status_style@, Written::Filled),
                option_line("status-style"@, q.looks.status_style@, Written::Filled),
            )
        }),
        ({
            let q = Options { other: OtherTexts { status_left_style: other.other.status_left_style, ..o.other }, ..o };
            line_changes(
                o,
                q,
                shell,
                option_line("status-left-style"@, o.other.status_left_style@, Written::Filled),
                option_line("status-left-style"@, q.other.status_left_style@, Written::Filled),
            )
        }),
        ({
            let q = Options { other: OtherTexts { status_right_style: other.other.status_right_style, ..o.other }, ..o };
            line_changes(
                o,
                q,
                shell,
                option_line("status-right-style"@, o.other.status_right_style@, Written::Filled),
                option_line("status-right-style"@, q.other.status_right_style@, Written::Filled),
            )
        }),
        ({
            let q = Options { other: OtherTexts { status_justify: other.other.status_justify, ..o.other }, ..o };
            line_changes(
                o,
                q,
                shell,
                option_line("status-justify"@, o.other.status_justify@, Written::Plain),
                option_line("status-justify"@, q.other.status_justify@, Written::Plain),
            )
        }),
        ({
            let q = Options { looks: Looks { window_status_format: other.looks.window_status_format, ..o.looks }, ..o };
            line_changes(
                o,
                q,
                shell,
                option_line("window-status-format"@, o.looks.window_status_format@, Written::Quoted),
                option_line("window-status-format"@, q.looks.window_status_format@, Written::Quoted),
            )
        }),
        ({
            let q = Options { looks: Looks { window_status_current_format: other.looks.window_status_current_format, ..o.looks }, ..o };
            line_changes(
                o,
                q,
                shell,
                option_line("window-status-current-format"@, o.looks.window_status_current_format@, Written::Quoted),
                option_line("window-status-current-format"@, q.looks.window_status_current_format@, Written::Quoted),
            )
        }),
        ({
            let q = Options { other: OtherTexts { window_status_style: other.other.window_status_style, ..o.other }, ..o };
            line_changes(
                o,
                q,
                shell,
                option_line("window-status-style"@, o.other.window_status_style@, Written::Filled),
                option_line("window-status-style"@, q.other.window_status_style@, Written::Filled),
            )
        }),
        ({
            let q = Options { other: OtherTexts { window_status_current_style: other.other.window_status_current_style, ..o.other }, ..o };
            line_changes(
                o,
                q,
                shell,
                option_line("window-status-current-style"@, o.other.window_status_current_style@, Written::Filled),
                option_line("window-status-current-style"@, q.other.window_status_current_style@, Written::Filled),
            )
        }),
        ({
            let q = Options { other: OtherTexts { window_status_activity_style: other.other.window_status_activity_style, ..o.other }, ..o };
            line_changes(
                o,
                q,
                shell,
                option_line("window-status-activity-style"@, o.other.window_status_activity_style@, Written::Filled),
                option_line("window-status-activity-style"@, q.other.window_status_activity_style@, Written::Filled),
            )
        }),
        ({
            let q = Options { other: OtherTexts { message_style: other.other.message_style, ..o.other }, ..o };
            line_changes(
                o,
                q,
                shell,
                option_line("message-style"@, o.other.message_style@, Written::Filled),
                option_line("message-style"@, q.other.message_style@, Written::Filled),
            )
        }),
        ({
            let q = Options { other: OtherTexts { message_command_style: other.other.message_command_style, ..o.other }, ..o };
            line_changes(
                o,
                q,
                shell,
                option_line("message-command-style"@, o.other.message_command_style@, Written::Filled),
                option_line("message-command-style"@, q.other.message_command_style@, Written::Filled),
            )
        }),
        ({
            let q = Options { other: OtherTexts { mode_style: other.other.mode_style, ..o.other }, ..o };
            line_changes(
                o,
                q,
                shell,
                option_line("mode-style"@, o.other.mode_style@, Written::Filled),
                option_line("mode-style"@, q.other.mode_style@, Written::Filled),
            )
        }),
        ({
            let q = Options { other: OtherTexts { window_size: other.other.window_size, ..o.other }, ..o };
            line_changes(
                o,
                q,
                shell,
                option_line("window-size"@, o.other.window_size@, Written::Plain),
                option_line("window-size"@, q.other.window_size@, Written::Plain),
            )
        }),
        ({
            let q = Options { other: OtherTexts { allow_passthrough: other.other.allow_passthrough, ..o.other }, ..o };
            line_changes(
                o,
                q,
                shell,
                option_line("allow-passthrough"@, o.other.allow_passthrough@, Written::Plain),
                option_line("allow-passthrough"@, q.other.allow_passthrough@, Written::Plain),
            )
        }),
        ({
            let q = Options { other: OtherTexts { set_clipboard: other.other.set_clipboard, ..o.other }, ..o };
            line_changes(
                o,
                q,
                shell,
                option_line("set-clipboard"@, o.other.set_clipboard@, Written::Plain),
                option_line("set-clipboard"@, q.other.set_clipboard@, Written::Plain),
            )
        }),
        ({
            let q = Options { other: OtherTexts { copy_command: other.other.copy_command, ..o.other }, ..o };
            line_changes(
                o,
                q,
                shell,
                option_line("copy-command"@, o.other.copy_command@, Written::Filled),
                option_line("copy-command"@, q.other.copy_command@, Written::Filled),
            )
        }),
        ({
            let q = Options { other: OtherTexts { bell_action: other.other.bell_action, ..o.other }, ..o };
            line_changes(
                o,
                q,
                shell,
                option_line("bell-action"@, o.other.bell_action@, Written::Plain),
                option_line("bell-action"@, q.other.bell_action@, Written::Plain),
            )
        }),
        ({
            let q = Options { other: OtherTexts { activity_action: other.other.activity_action, ..o.other }, ..o };
            line_changes(
                o,
                q,
                shell,
                option_line("activity-action"@, o.other.activity_action@, Written::Plain),
                option_line("activity-action"@, q.other.activity_action@, Written::Plain),
            )
        }),
        ({
            let q = Options { other: OtherTexts { silence_action: other.other.silence_action, ..o.other }, ..o };
            line_changes(
                o,
                q,
                shell,
                option_line("silence-action"@, o.other.silence_action@, Written::Plain),
                option_line("silence-action"@, q.other.silence_action@, Written::Plain),
            )
        }),
        ({
            let q = Options { other: OtherTexts { update_environment: other.other.update_environment, ..o.other }, ..o };
            line_changes(
                o,
                q,
                shell,
                option_line("update-environment"@, joined(texts(o.other.update_environment@), seq![' ']), Written::Quoted),
                option_line("update-environment"@, joined(texts(q.other.update_environment@), seq![' ']), Written::Quoted),
            )
        }),
{
    lemma_prefix(o, other, shell);
    lemma_status_position(o, other, shell);
    lemma_status_left(o, other, shell);
    lemma_status_right(o, other, shell);
    lemma_mode_keys(o, other, shell);
    lemma_set_titles_string(o, other, shell);
    lemma_cursor_style(o, other, shell);
    lemma_default_shell(o, other, shell);
    lemma_word_separators(o, other, shell);
    lemma_pane_border_style(o, other, shell);
    lemma_pane_active_border_style(o, other, shell);
    lemma_pane_border_hover_style(o, other, shell);
    lemma_status_style(o, other, shell);
    lemma_status_left_style(o, other, shell);
    lemma_status_right_style(o, other, shell);
    lemma_status_justify(o, other, shell);
    lemma_window_status_format(o, other, shell);
    lemma_window_status_current_format(o, other, shell);
    lemma_window_status_style(o, other, shell);
    lemma_window_status_current_style(o, other, shell);
    lemma_window_status_activity_style(o, other, shell);
    lemma_message_style(o, other, shell);
    lemma_message_command_style(o, other, shell);
    lemma_mode_style(o, other, shell);
    lemma_window_size(o, other, shell);
    lemma_allow_passthrough(o, other, shell);
    lemma_set_clipboard(o, other, shell);
    lemma_copy_command(o, other, shell);
    lemma_bell_action(o, other, shell);
    lemma_activity_action(o, other, shell);
    lemma_silence_action(o, other, shell);
    lemma_update_environment(o, other, shell);
}

/// Each number is listed under its own name, and nowhere else.
pub proof fn numbers_are_listed_under_their_names(o: Options, other: Options, shell: Option<Seq<char>>)
    ensures
        ({
            let q = Options { limits: Limits { window_base_index: other.limits.window_base_index, ..o.limits }, ..o };
            line_changes(
                o,
                q,
                shell,
                option_line("base-index"@, decimal(o.limits.window_base_index as nat), Written::Plain),
                option_line("base-index"@, decimal(q.limits.window_base_index as nat), Written::Plain),
            )
        }),
        ({
            let q = Options { limits: Limits { pane_base_index: other.limits.pane_base_index, ..o.limits }, ..o };
            line_changes(
                o,
                q,
                shell,
                option_line("pane-base-index"@, decimal(o.limits.pane_base_index as nat), Written::Plain),
                option_line("pane-base-index"@, decimal(q.limits.pane_base_index as nat), Written::Plain),
            )
        }),
        ({
            let q = Options { limits: Limits { escape_time_ms: other.limits.escape_time_ms, ..o.limits }, ..o };
            line_changes(
                o,
                q,
                shell,
                option_line("escape-time"@, decimal(o.limits.escape_time_ms as nat), Written::Plain),
                option_line("escape-time"@, decimal(q.limits.escape_time_ms as nat), Written::Plain),
            )
        }),
        ({
            let q = Options { limits: Limits { history_limit: other.limits.history_limit, ..o.limits }, ..o };
            line_changes(
                o,
                q,
                shell,
                option_line("history-limit"@, decimal(o.limits.history_limit as nat), Written::Plain),
                option_line("history-limit"@, decimal(q.limits.history_limit as nat), Written::Plain),
            )
        }),
        ({
            let q = Options { limits: Limits { display_time_ms: other.limits.display_time_ms, ..o.limits }, ..o };
            line_changes(
                o,
                q,
                shell,
                option_line("display-time"@, decimal(o.limits.display_time_ms as nat), Written::Plain),
                option_line("display-time"@, decimal(q.limits.display_time_ms as nat), Written::Plain),
            )
        }),
        ({
            let q = Options { limits: Limits { display_panes_time_ms: other.limits.display_panes_time_ms, ..o.limits }, ..o };
            line_changes(
                o,
                q,
                shell,
                option_line("display-panes-time"@, decimal(o.limits.display_panes_time_ms as nat), Written::Plain),
                option_line("display-panes-time"@, decimal(q.limits.display_panes_time_ms as nat), Written::Plain),
            )
        }),
        ({
            let q = Options { limits: Limits { status_interval: other.limits.status_interval, ..o.limits }, ..o };
            line_changes(
                o,
                q,
                shell,
                option_line("status-interval"@, decimal(o.limits.status_interval as nat), Written::Plain),
                option_line("status-interval"@, decimal(q.limits.status_interval as nat), Written::Plain),
            )
        }),
        ({
            let q = Options { limits: Limits { main_pane_width: other.limits.main_pane_width, ..o.limits }, ..o };
            line_changes(
                o,
                q,
                shell,
                option_line("main-pane-width"@, decimal(o.limits.main_pane_width as nat), Written::Plain),
                option_line("main-pane-width"@, decimal(q.limits.main_pane_width as nat), Written::Plain),
            )
        }),
        ({
            let q = Options { limits: Limits { main_pane_height: other.limits.main_pane_height, ..o.limits }, ..o };
            line_changes(
                o,
                q,
                shell,
                option_line("main-pane-height"@, decimal(o.limits.main_pane_height as nat), Written::Plain),
                option_line("main-pane-height"@, decimal(q.limits.main_pane_height as nat), Written::Plain),
            )
        }),
        ({
            let q = Options { limits: Limits { status_left_length: other.limits.status_left_length, ..o.limits }, ..o };
            line_changes(
                o,
                q,
                shell,
                option_line("status-left-length"@, decimal(o.limits.status_left_length as nat), Written::Plain),
                option_line("status-left-length"@, decimal(q.limits.status_left_length as nat), Written::Plain),
            )
        }),
        ({
            let q = Options { limits: Limits { status_right_length: other.limits.status_right_length, ..o.limits }, ..o };
            line_changes(
                o,
                q,
                shell,
                option_line("status-right-length"@, decimal(o.limits.status_right_length as nat), Written::Plain),
                option_line("status-right-length"@, decimal(q.limits.status_right_length as nat), Written::Plain),
            )
        }),
{
    lemma_base_index(o, other, shell);
    lemma_pane_base_index(o, other, shell);
    lemma_escape_time(o, other, shell);
    lemma_history_limit(o, other, shell);
    lemma_display_time(o, other, shell);
    lemma_display_panes_time(o, other, shell);
    lemma_status_interval(o, other, shell);
    lemma_main_pane_width(o, other, shell);
    lemma_main_pane_height(o, other, shell);
    lemma_status_left_length(o, other, shell);
    lemma_status_right_length(o, other, shell);
}

/// Each switch is listed under its own name as on or off, and nowhere else: with the switch the other
/// way the listing is the same but for its line.
pub proof fn switches_are_listed_under_their_names(o: Options, other: Options, shell: Option<Seq<char>>)
    ensures
        ({
            let q = Options { switches: Switches { mouse_enabled: other.switches.mouse_enabled, ..o.switches }, ..o };
            line_changes(
                o,
                q,
                shell,
                option_line("mouse"@, yes_or_no(o.switches.mouse_enabled), Written::Plain),
                option_line("mouse"@, yes_or_no(q.switches.mouse_enabled), Written::Plain),
            )
        }),
        ({
            let q = Options { switches: Switches { scroll_enter_copy_mode: other.switches.scroll_enter_copy_mode, ..o.switches }, ..o };
            line_changes(
                o,
                q,
                shell,
                option_line("scroll-enter-copy-mode"@, yes_or_no(o.switches.scroll_enter_copy_mode), Written::Plain),
                option_line("scroll-enter-copy-mode"@, yes_or_no(q.switches.scroll_enter_copy_mode), Written::Plain),
            )
        }),
        ({
            let q = Options { switches: Switches { pwsh_mouse_selection: other.switches.pwsh_mouse_selection, ..o.switches }, ..o };
            line_changes(
                o,
                q,
                shell,
                option_line("pwsh-mouse-selection"@, yes_or_no(o.switches.pwsh_mouse_selection), Written::Plain),
                option_line("pwsh-mouse-selection"@, yes_or_no(q.switches.pwsh_mouse_selection), Written::Plain),
            )
        }),
        ({
            let q = Options { switches: Switches { mouse_selection: other.switches.mouse_selection, ..o.switches }, ..o };
            line_changes(
                o,
                q,
                shell,
                option_line("mouse-selection"@, yes_or_no(o.switches.mouse_selection), Written::Plain),
                option_line("mouse-selection"@, yes_or_no(q.switches.mouse_selection), Written::Plain),
            )
        }),
        ({
            let q = Options { switches: Switches { paste_detection: other.switches.paste_detection, ..o.switches }, ..o };
            line_changes(
                o,
                q,
                shell,
                option_line("paste-detection"@, yes_or_no(o.switches.paste_detection), Written::Plain),
                option_line("paste-detection"@, yes_or_no(q.switches.paste_detection), Written::Plain),
            )
        }),
        ({
            let q = Options { switches: Switches { choose_tree_preview: other.switches.choose_tree_preview, ..o.switches }, ..o };
            line_changes(
                o,
                q,
                shell,
                option_line("choose-tree-preview"@, yes_or_no(o.switches.choose_tree_preview), Written::Plain),
                option_line("choose-tree-preview"@, yes_or_no(q.switches.choose_tree_preview), Written::Plain),
            )
        }),
        ({
            let q = Options { switches: Switches { status_visible: other.switches.status_visible, ..o.switches }, ..o };
            line_changes(
                o,
                q,
                shell,
                option_line("status"@, yes_or_no(o.switches.status_visible), Written::Plain),
                option_line("status"@, yes_or_no(q.switches.status_visible), Written::Plain),
            )
        }),
        ({
            let q = Options { switches: Switches { focus_events: other.switches.focus_events, ..o.switches }, ..o };
            line_changes(
                o,
                q,
                shell,
                option_line("focus-events"@, yes_or_no(o.switches.focus_events), Written::Plain),
                option_line("focus-events"@, yes_or_no(q.switches.focus_events), Written::Plain),
            )
        }),
        ({
            let q = Options { switches: Switches { renumber_windows: other.switches.renumber_windows, ..o.switches }, ..o };
            line_changes(
                o,
                q,
                shell,
                option_line("renumber-windows"@, yes_or_no(o.switches.renumber_windows), Written::Plain),
                option_line("renumber-windows"@, yes_or_no(q.switches.renumber_windows), Written::Plain),
            )
        }),
        ({
            let q = Options { switches: Switches { automatic_rename: other.switches.automatic_rename, ..o.switches }, ..o };
            line_changes(
                o,
                q,
                shell,
                option_line("automatic-rename"@, yes_or_no(o.switches.automatic_rename), Written::Plain),
                option_line("automatic-rename"@, yes_or_no(q.switches.automatic_rename), Written::Plain),
            )
        }),
        ({
            let q = Options { switches: Switches { monitor_activity: other.switches.monitor_activity, ..o.switches }, ..o };
            line_changes(
                o,
                q,
                shell,
                option_line("monitor-activity"@, yes_or_no(o.switches.monitor_activity), Written::Plain),
                option_line("monitor-activity"@, yes_or_no(q.switches.monitor_activity), Written::Plain),
            )
        }),
        ({
            let q = Options { switches: Switches { sync_input: other.switches.sync_input, ..o.switches }, ..o };
            line_changes(
                o,
                q,
                shell,
                option_line("synchronize-panes"@, yes_or_no(o.switches.sync_input), Written::Plain),
                option_line("synchronize-panes"@, yes_or_no(q.switches.sync_input), Written::Plain),
            )
        }),
        ({
            let q = Options { switches: Switches { remain_on_exit: other.switches.remain_on_exit, ..o.switches }, ..o };
            line_changes(
                o,
                q,
                shell,
                option_line("remain-on-exit"@, yes_or_no(o.switches.remain_on_exit), Written::Plain),
                option_line("remain-on-exit"@, yes_or_no(q.switches.remain_on_exit), Written::Plain),
            )
        }),
        ({
            let q = Options { switches: Switches { destroy_unattached: other.switches.destroy_unattached, ..o.switches }, ..o };
            line_changes(
                o,
                q,
                shell,
                option_line("destroy-unattached"@, yes_or_no(o.switches.destroy_unattached), Written::Plain),
                option_line("destroy-unattached"@, yes_or_no(q.switches.destroy_unattached), Written::Plain),
            )
        }),
        ({
            let q = Options { switches: Switches { exit_empty: other.switches.exit_empty, ..o.switches }, ..o };
            line_changes(
                o,
                q,
                shell,
                option_line("exit-empty"@, yes_or_no(o.switches.exit_empty), Written::Plain),
                option_line("exit-empty"@, yes_or_no(q.switches.exit_empty), Written::Plain),
            )
        }),
        ({
            let q = Options { switches: Switches { set_titles: other.switches.set_titles, ..o.switches }, ..o };
            line_changes(
                o,
                q,
                shell,
                option_line("set-titles"@, yes_or_no(o.switches.set_titles), Written::Plain),
                option_line("set-titles"@, yes_or_no(q.switches.set_titles), Written::Plain),
            )
        }),
        ({
            let q = Options { switches: Switches { prediction_dimming: other.switches.prediction_dimming, ..o.switches }, ..o };
            line_changes(
                o,
                q,
                shell,
                option_line("prediction-dimming"@, yes_or_no(o.switches.prediction_dimming), Written::Plain),
                option_line("prediction-dimming"@, yes_or_no(q.switches.prediction_dimming), Written::Plain),
            )
        }),
        ({
            let q = Options { switches: Switches { allow_predictions: other.switches.allow_predictions, ..o.switches }, ..o };
            line_changes(
                o,
                q,
                shell,
                option_line("allow-predictions"@, yes_or_no(o.switches.allow_predictions), Written::Plain),
                option_line("allow-predictions"@, yes_or_no(q.switches.allow_predictions), Written::Plain),
            )
        }),
        ({
            let q = Options { looks: Looks { cursor_blink: other.looks.cursor_blink, ..o.looks }, ..o };
            line_changes(
                o,
                q,
                shell,
                option_line("cursor-blink"@, yes_or_no(o.looks.cursor_blink@ != seq!['0']), Written::Plain),
                option_line("cursor-blink"@, yes_or_no(q.looks.cursor_blink@ != seq!['0']), Written::Plain),
            )
        }),
        ({
            let q = Options { switches: Switches { allow_rename: other.switches.allow_rename, ..o.switches }, ..o };
            line_changes(
                o,
                q,
                shell,
                option_line("allow-rename"@, yes_or_no(o.switches.allow_rename), Written::Plain),
                option_line("allow-rename"@, yes_or_no(q.switches.allow_rename), Written::Plain),
            )
        }),
        ({
            let q = Options { switches: Switches { allow_set_title: other.switches.allow_set_title, ..o.switches }, ..o };
            line_changes(
                o,
                q,
                shell,
                option_line("allow-set-title"@, yes_or_no(o.switches.allow_set_title), Written::Plain),
                option_line("allow-set-title"@, yes_or_no(q.switches.allow_set_title), Written::Plain),
            )
        }),
{
    lemma_mouse(o, other, shell);
    lemma_scroll_enter_copy_mode(o, other, shell);
    lemma_pwsh_mouse_selection(o, other, shell);
    lemma_mouse_selection(o, other, shell);
    lemma_paste_detection(o, other, shell);
    lemma_choose_tree_preview(o, other, shell);
    lemma_status(o, other, shell);
    lemma_focus_events(o, other, shell);
    lemma_renumber_windows(o, other, shell);
    lemma_automatic_rename(o, other, shell);
    lemma_monitor_activity(o, other, shell);
    lemma_synchronize_panes(o, other, shell);
    lemma_remain_on_exit(o, other, shell);
    lemma_destroy_unattached(o, other, shell);
    lemma_exit_empty(o, other, shell);
    lemma_set_titles(o, other, shell);
    lemma_prediction_dimming(o, other, shell);
    lemma_allow_predictions(o, other, shell);
    lemma_cursor_blink(o, other, shell);
    lemma_allow_rename(o, other, shell);
    lemma_allow_set_title(o, other, shell);
}

/// The shell that is shown is the one that was set, or else the one that was found, or else the
/// common one.
pub proof fn shell_is_found(set: Seq<char>, found: Seq<char>)
    ensures
        set.len() > 0 ==> shell_shown(set, Some(found)) == set && shell_shown(set, None) == set,
        set.len() == 0 ==> shell_shown(set, Some(found)) == found && shell_shown(set, None) == seq![
            'p', 'w', 's', 'h', '.', 'e', 'x', 'e',
        ],
{
    reveal_strlit("pwsh.exe");
    assert("pwsh.exe"@ =~= seq!['p', 'w', 's', 'h', '.', 'e', 'x', 'e']);
}

/// A user's option and an alias are each listed on a line of their own, behind those before them.
pub proof fn entries_have_their_lines(
    s: Seq<char>,
    entries: Seq<crate::dict::Entry<String>>,
    more: crate::dict::Entry<String>,
)
    ensures
        listed_entries(s, entries.push(more)) == listed_entries(s, entries) + option_line(
            more.key@,
            more.value@,
            Written::Quoted,
        ),
        listed_aliases(s, entries.push(more)) == listed_aliases(s, entries) + option_line(
            "command-alias"@,
            more.key@ + seq!['='] + more.value@,
            Written::Quoted,
        ),
        listed_entries(s, Seq::empty()) == s && listed_aliases(s, Seq::empty()) == s,
{
    reveal_strlit("=");
    assert("="@ =~= seq!['=']);
    assert(entries.push(more).drop_last() =~= entries);
    lemma_quoted(listed_entries(s, entries), more.key@, more.value@);
    lemma_quoted(listed_aliases(s, entries), "command-alias"@, more.key@ + "="@ + more.value@);
}

proof fn lemma_names()
    ensures
        "mouse"@.len() == 5 && "mouse"@[0] == 'm' && "mouse"@[1] == 'o' && "mouse"@[2] == 'u' && "mouse"@[3] == 's' && "mouse"@[4] == 'e',
        "scroll-enter-copy-mode"@.len() == 22 && "scroll-enter-copy-mode"@[0] == 's' && "scroll-enter-copy-mode"@[1] == 'c' && "scroll-enter-copy-mode"@[2] == 'r' && "scroll-enter-copy-mode"@[3] == 'o' && "scroll-enter-copy-mode"@[4] == 'l' && "scroll-enter-copy-mode"@[5] == 'l' && "scroll-enter-copy-mode"@[6] == '-' && "scroll-enter-copy-mode"@[7] == 'e' && "scroll-enter-copy-mode"@[8] == 'n' && "scroll-enter-copy-mode"@[9] == 't' && "scroll-enter-copy-mode"@[10] == 'e' && "scroll-enter-copy-mode"@[11] == 'r' && "scroll-enter-copy-mode"@[12] == '-' && "scroll-enter-copy-mode"@[13] == 'c' && "scroll-enter-copy-mode"@[14] == 'o' && "scroll-enter-copy-mode"@[15] == 'p' && "scroll-enter-copy-mode"@[16] == 'y' && "scroll-enter-copy-mode"@[17] == '-' && "scroll-enter-copy-mode"@[18] == 'm' && "scroll-enter-copy-mode"@[19] == 'o' && "scroll-enter-copy-mode"@[20] == 'd' && "scroll-enter-copy-mode"@[21] == 'e',
        "pwsh-mouse-selection"@.len() == 20 && "pwsh-mouse-selection"@[0] == 'p' && "pwsh-mouse-selection"@[1] == 'w' && "pwsh-mouse-selection"@[2] == 's' && "pwsh-mouse-selection"@[3] == 'h' && "pwsh-mouse-selection"@[4] == '-' && "pwsh-mouse-selection"@[5] == 'm' && "pwsh-mouse-selection"@[6] == 'o' && "pwsh-mouse-selection"@[7] == 'u' && "pwsh-mouse-selection"@[8] == 's' && "pwsh-mouse-selection"@[9] == 'e' && "pwsh-mouse-selection"@[10] == '-' && "pwsh-mouse-selection"@[11] == 's' && "pwsh-mouse-selection"@[12] == 'e' && "pwsh-mouse-selection"@[13] == 'l' && "pwsh-mouse-selection"@[14] == 'e' && "pwsh-mouse-selection"@[15] == 'c' && "pwsh-mouse-selection"@[16] == 't' && "pwsh-mouse-selection"@[17] == 'i' && "pwsh-mouse-selection"@[18] == 'o' && "pwsh-mouse-selection"@[19] == 'n',
        "mouse-selection"@.len() == 15 && "mouse-selection"@[0] == 'm' && "mouse-selection"@[1] == 'o' && "mouse-selection"@[2] == 'u' && "mouse-selection"@[3] == 's' && "mouse-selection"@[4] == 'e' && "mouse-selection"@[5] == '-' && "mouse-selection"@[6] == 's' && "mouse-selection"@[7] == 'e' && "mouse-selection"@[8] == 'l' && "mouse-selection"@[9] == 'e' && "mouse-selection"@[10] == 'c' && "mouse-selection"@[11] == 't' && "mouse-selection"@[12] == 'i' && "mouse-selection"@[13] == 'o' && "mouse-selection"@[14] == 'n',
        "paste-detection"@.len() == 15 && "paste-detection"@[0] == 'p' && "paste-detection"@[1] == 'a' && "paste-detection"@[2] == 's' && "paste-detection"@[3] == 't' && "paste-detection"@[4] == 'e' && "paste-detection"@[5] == '-' && "paste-detection"@[6] == 'd' && "paste-detection"@[7] == 'e' && "paste-detection"@[8] == 't' && "paste-detection"@[9] == 'e' && "paste-detection"@[10] == 'c' && "paste-detection"@[11] == 't' && "paste-detection"@[12] == 'i' && "paste-detection"@[13] == 'o' && "paste-detection"@[14] == 'n',
        "choose-tree-preview"@.len() == 19 && "choose-tree-preview"@[0] == 'c' && "choose-tree-preview"@[1] == 'h' && "choose-tree-preview"@[2] == 'o' && "choose-tree-preview"@[3] == 'o' && "choose-tree-preview"@[4] == 's' && "choose-tree-preview"@[5] == 'e' && "choose-tree-preview"@[6] == '-' && "choose-tree-preview"@[7] == 't' && "choose-tree-preview"@[8] == 'r' && "choose-tree-preview"@[9] == 'e' && "choose-tree-preview"@[10] == 'e' && "choose-tree-preview"@[11] == '-' && "choose-tree-preview"@[12] == 'p' && "choose-tree-preview"@[13] == 'r' && "choose-tree-preview"@[14] == 'e' && "choose-tree-preview"@[15] == 'v' && "choose-tree-preview"@[16] == 'i' && "choose-tree-preview"@[17] == 'e' && "choose-tree-preview"@[18] == 'w',
        "alternate-screen"@.len() == 16 && "alternate-screen"@[0] == 'a' && "alternate-screen"@[1] == 'l' && "alternate-screen"@[2] == 't' && "alternate-screen"@[3] == 'e' && "alternate-screen"@[4] == 'r' && "alternate-screen"@[5] == 'n' && "alternate-screen"@[6] == 'a' && "alternate-screen"@[7] == 't' && "alternate-screen"@[8] == 'e' && "alternate-screen"@[9] == '-' && "alternate-screen"@[10] == 's' && "alternate-screen"@[11] == 'c' && "alternate-screen"@[12] == 'r' && "alternate-screen"@[13] == 'e' && "alternate-screen"@[14] == 'e' && "alternate-screen"@[15] == 'n',
        "status"@.len() == 6 && "status"@[0] == 's' && "status"@[1] == 't' && "status"@[2] == 'a' && "status"@[3] == 't' && "status"@[4] == 'u' && "status"@[5] == 's',
        "renumber-windows"@.len() == 16 && "renumber-windows"@[0] == 'r' && "renumber-windows"@[1] == 'e' && "renumber-windows"@[2] == 'n' && "renumber-windows"@[3] == 'u' && "renumber-windows"@[4] == 'm' && "renumber-windows"@[5] == 'b' && "renumber-windows"@[6] == 'e' && "renumber-windows"@[7] == 'r' && "renumber-windows"@[8] == '-' && "renumber-windows"@[9] == 'w' && "renumber-windows"@[10] == 'i' && "renumber-windows"@[11] == 'n' && "renumber-windows"@[12] == 'd' && "renumber-windows"@[13] == 'o' && "renumber-windows"@[14] == 'w' && "renumber-windows"@[15] == 's',
        "remain-on-exit"@.len() == 14 && "remain-on-exit"@[0] == 'r' && "remain-on-exit"@[1] == 'e' && "remain-on-exit"@[2] == 'm' && "remain-on-exit"@[3] == 'a' && "remain-on-exit"@[4] == 'i' && "remain-on-exit"@[5] == 'n' && "remain-on-exit"@[6] == '-' && "remain-on-exit"@[7] == 'o' && "remain-on-exit"@[8] == 'n' && "remain-on-exit"@[9] == '-' && "remain-on-exit"@[10] == 'e' && "remain-on-exit"@[11] == 'x' && "remain-on-exit"@[12] == 'i' && "remain-on-exit"@[13] == 't',
        "destroy-unattached"@.len() == 18 && "destroy-unattached"@[0] == 'd' && "destroy-unattached"@[1] == 'e' && "destroy-unattached"@[2] == 's' && "destroy-unattached"@[3] == 't' && "destroy-unattached"@[4] == 'r' && "destroy-unattached"@[5] == 'o' && "destroy-unattached"@[6] == 'y' && "destroy-unattached"@[7] == '-' && "destroy-unattached"@[8] == 'u' && "destroy-unattached"@[9] == 'n' && "destroy-unattached"@[10] == 'a' && "destroy-unattached"@[11] == 't' && "destroy-unattached"@[12] == 't' && "destroy-unattached"@[13] == 'a' && "destroy-unattached"@[14] == 'c' && "destroy-unattached"@[15] == 'h' && "destroy-unattached"@[16] == 'e' && "destroy-unattached"@[17] == 'd',
        "exit-empty"@.len() == 10 && "exit-empty"@[0] == 'e' && "exit-empty"@[1] == 'x' && "exit-empty"@[2] == 'i' && "exit-empty"@[3] == 't' && "exit-empty"@[4] == '-' && "exit-empty"@[5] == 'e' && "exit-empty"@[6] == 'm' && "exit-empty"@[7] == 'p' && "exit-empty"@[8] == 't' && "exit-empty"@[9] == 'y',
        "automatic-rename"@.len() == 16 && "automatic-rename"@[0] == 'a' && "automatic-rename"@[1] == 'u' && "automatic-rename"@[2] == 't' && "automatic-rename"@[3] == 'o' && "automatic-rename"@[4] == 'm' && "automatic-rename"@[5] == 'a' && "automatic-rename"@[6] == 't' && "automatic-rename"@[7] == 'i' && "automatic-rename"@[8] == 'c' && "automatic-rename"@[9] == '-' && "automatic-rename"@[10] == 'r' && "automatic-rename"@[11] == 'e' && "automatic-rename"@[12] == 'n' && "automatic-rename"@[13] == 'a' && "automatic-rename"@[14] == 'm' && "automatic-rename"@[15] == 'e',
        "escape-time"@.len() == 11 && "escape-time"@[0] == 'e' && "escape-time"@[1] == 's' && "escape-time"@[2] == 'c' && "escape-time"@[3] == 'a' && "escape-time"@[4] == 'p' && "escape-time"@[5] == 'e' && "escape-time"@[6] == '-' && "escape-time"@[7] == 't' && "escape-time"@[8] == 'i' && "escape-time"@[9] == 'm' && "escape-time"@[10] == 'e',
        "history-limit"@.len() == 13 && "history-limit"@[0] == 'h' && "history-limit"@[1] == 'i' && "history-limit"@[2] == 's' && "history-limit"@[3] == 't' && "history-limit"@[4] == 'o' && "history-limit"@[5] == 'r' && "history-limit"@[6] == 'y' && "history-limit"@[7] == '-' && "history-limit"@[8] == 'l' && "history-limit"@[9] == 'i' && "history-limit"@[10] == 'm' && "history-limit"@[11] == 'i' && "history-limit"@[12] == 't',
        "display-time"@.len() == 12 && "display-time"@[0] == 'd' && "display-time"@[1] == 'i' && "display-time"@[2] == 's' && "display-time"@[3] == 'p' && "display-time"@[4] == 'l' && "display-time"@[5] == 'a' && "display-time"@[6] == 'y' && "display-time"@[7] == '-' && "display-time"@[8] == 't' && "display-time"@[9] == 'i' && "display-time"@[10] == 'm' && "display-time"@[11] == 'e',
        "status-left"@.len() == 11 && "status-left"@[0] == 's' && "status-left"@[1] == 't' && "status-left"@[2] == 'a' && "status-left"@[3] == 't' && "status-left"@[4] == 'u' && "status-left"@[5] == 's' && "status-left"@[6] == '-' && "status-left"@[7] == 'l' && "status-left"@[8] == 'e' && "status-left"@[9] == 'f' && "status-left"@[10] == 't',
        "status-right"@.len() == 12 && "status-right"@[0] == 's' && "status-right"@[1] == 't' && "status-right"@[2] == 'a' && "status-right"@[3] == 't' && "status-right"@[4] == 'u' && "status-right"@[5] == 's' && "status-right"@[6] == '-' && "status-right"@[7] == 'r' && "status-right"@[8] == 'i' && "status-right"@[9] == 'g' && "status-right"@[10] == 'h' && "status-right"@[11] == 't',
        "mode-keys"@.len() == 9 && "mode-keys"@[0] == 'm' && "mode-keys"@[1] == 'o' && "mode-keys"@[2] == 'd' && "mode-keys"@[3] == 'e' && "mode-keys"@[4] == '-' && "mode-keys"@[5] == 'k' && "mode-keys"@[6] == 'e' && "mode-keys"@[7] == 'y' && "mode-keys"@[8] == 's',
        "status-position"@.len() == 15 && "status-position"@[0] == 's' && "status-position"@[1] == 't' && "status-position"@[2] == 'a' && "status-position"@[3] == 't' && "status-position"@[4] == 'u' && "status-position"@[5] == 's' && "status-position"@[6] == '-' && "status-position"@[7] == 'p' && "status-position"@[8] == 'o' && "status-position"@[9] == 's' && "status-position"@[10] == 'i' && "status-position"@[11] == 't' && "status-position"@[12] == 'i' && "status-position"@[13] == 'o' && "status-position"@[14] == 'n',
        "status-style"@.len() == 12 && "status-style"@[0] == 's' && "status-style"@[1] == 't' && "status-style"@[2] == 'a' && "status-style"@[3] == 't' && "status-style"@[4] == 'u' && "status-style"@[5] == 's' && "status-style"@[6] == '-' && "status-style"@[7] == 's' && "status-style"@[8] == 't' && "status-style"@[9] == 'y' && "status-style"@[10] == 'l' && "status-style"@[11] == 'e',
        "pane-border-style"@.len() == 17 && "pane-border-style"@[0] == 'p' && "pane-border-style"@[1] == 'a' && "pane-border-style"@[2] == 'n' && "pane-border-style"@[3] == 'e' && "pane-border-style"@[4] == '-' && "pane-border-style"@[5] == 'b' && "pane-border-style"@[6] == 'o' && "pane-border-style"@[7] == 'r' && "pane-border-style"@[8] == 'd' && "pane-border-style"@[9] == 'e' && "pane-border-style"@[10] == 'r' && "pane-border-style"@[11] == '-' && "pane-border-style"@[12] == 's' && "pane-border-style"@[13] == 't' && "pane-border-style"@[14] == 'y' && "pane-border-style"@[15] == 'l' && "pane-border-style"@[16] == 'e',
        "pane-active-border-style"@.len() == 24 && "pane-active-border-style"@[0] == 'p' && "pane-active-border-style"@[1] == 'a' && "pane-active-border-style"@[2] == 'n' && "pane-active-border-style"@[3] == 'e' && "pane-active-border-style"@[4] == '-' && "pane-active-border-style"@[5] == 'a' && "pane-active-border-style"@[6] == 'c' && "pane-active-border-style"@[7] == 't' && "pane-active-border-style"@[8] == 'i' && "pane-active-border-style"@[9] == 'v' && "pane-active-border-style"@[10] == 'e' && "pane-active-border-style"@[11] == '-' && "pane-active-border-style"@[12] == 'b' && "pane-active-border-style"@[13] == 'o' && "pane-active-border-style"@[14] == 'r' && "pane-active-border-style"@[15] == 'd' && "pane-active-border-style"@[16] == 'e' && "pane-active-border-style"@[17] == 'r' && "pane-active-border-style"@[18] == '-' && "pane-active-border-style"@[19] == 's' && "pane-active-border-style"@[20] == 't' && "pane-active-border-style"@[21] == 'y' && "pane-active-border-style"@[22] == 'l' && "pane-active-border-style"@[23] == 'e',
        "pane-border-hover-style"@.len() == 23 && "pane-border-hover-style"@[0] == 'p' && "pane-border-hover-style"@[1] == 'a' && "pane-border-hover-style"@[2] == 'n' && "pane-border-hover-style"@[3] == 'e' && "pane-border-hover-style"@[4] == '-' && "pane-border-hover-style"@[5] == 'b' && "pane-border-hover-style"@[6] == 'o' && "pane-border-hover-style"@[7] == 'r' && "pane-border-hover-style"@[8] == 'd' && "pane-border-hover-style"@[9] == 'e' && "pane-border-hover-style"@[10] == 'r' && "pane-border-hover-style"@[11] == '-' && "pane-border-hover-style"@[12] == 'h' && "pane-border-hover-style"@[13] == 'o' && "pane-border-hover-style"@[14] == 'v' && "pane-border-hover-style"@[15] == 'e' && "pane-border-hover-style"@[16] == 'r' && "pane-border-hover-style"@[17] == '-' && "pane-border-hover-style"@[18] == 's' && "pane-border-hover-style"@[19] == 't' && "pane-border-hover-style"@[20] == 'y' && "pane-border-hover-style"@[21] == 'l' && "pane-border-hover-style"@[22] == 'e',
        "window-status-format"@.len() == 20 && "window-status-format"@[0] == 'w' && "window-status-format"@[1] == 'i' && "window-status-format"@[2] == 'n' && "window-status-format"@[3] == 'd' && "window-status-format"@[4] == 'o' && "window-status-format"@[5] == 'w' && "window-status-format"@[6] == '-' && "window-status-format"@[7] == 's' && "window-status-format"@[8] == 't' && "window-status-format"@[9] == 'a' && "window-status-format"@[10] == 't' && "window-status-format"@[11] == 'u' && "window-status-format"@[12] == 's' && "window-status-format"@[13] == '-' && "window-status-format"@[14] == 'f' && "window-status-format"@[15] == 'o' && "window-status-format"@[16] == 'r' && "window-status-format"@[17] == 'm' && "window-status-format"@[18] == 'a' && "window-status-format"@[19] == 't',
        "window-status-current-format"@.len() == 28 && "window-status-current-format"@[0] == 'w' && "window-status-current-format"@[1] == 'i' && "window-status-current-format"@[2] == 'n' && "window-status-current-format"@[3] == 'd' && "window-status-current-format"@[4] == 'o' && "window-status-current-format"@[5] == 'w' && "window-status-current-format"@[6] == '-' && "window-status-current-format"@[7] == 's' && "window-status-current-format"@[8] == 't' && "window-status-current-format"@[9] == 'a' && "window-status-current-format"@[10] == 't' && "window-status-current-format"@[11] == 'u' && "window-status-current-format"@[12] == 's' && "window-status-current-format"@[13] == '-' && "window-status-current-format"@[14] == 'c' && "window-status-current-format"@[15] == 'u' && "window-status-current-format"@[16] == 'r' && "window-status-current-format"@[17] == 'r' && "window-status-current-format"@[18] == 'e' && "window-status-current-format"@[19] == 'n' && "window-status-current-format"@[20] == 't' && "window-status-current-format"@[21] == '-' && "window-status-current-format"@[22] == 'f' && "window-status-current-format"@[23] == 'o' && "window-status-current-format"@[24] == 'r' && "window-status-current-format"@[25] == 'm' && "window-status-current-format"@[26] == 'a' && "window-status-current-format"@[27] == 't',
        "window-status-separator"@.len() == 23 && "window-status-separator"@[0] == 'w' && "window-status-separator"@[1] == 'i' && "window-status-separator"@[2] == 'n' && "window-status-separator"@[3] == 'd' && "window-status-separator"@[4] == 'o' && "window-status-separator"@[5] == 'w' && "window-status-separator"@[6] == '-' && "window-status-separator"@[7] == 's' && "window-status-separator"@[8] == 't' && "window-status-separator"@[9] == 'a' && "window-status-separator"@[10] == 't' && "window-status-separator"@[11] == 'u' && "window-status-separator"@[12] == 's' && "window-status-separator"@[13] == '-' && "window-status-separator"@[14] == 's' && "window-status-separator"@[15] == 'e' && "window-status-separator"@[16] == 'p' && "window-status-separator"@[17] == 'a' && "window-status-separator"@[18] == 'r' && "window-status-separator"@[19] == 'a' && "window-status-separator"@[20] == 't' && "window-status-separator"@[21] == 'o' && "window-status-separator"@[22] == 'r',
        "cursor-style"@.len() == 12 && "cursor-style"@[0] == 'c' && "cursor-style"@[1] == 'u' && "cursor-style"@[2] == 'r' && "cursor-style"@[3] == 's' && "cursor-style"@[4] == 'o' && "cursor-style"@[5] == 'r' && "cursor-style"@[6] == '-' && "cursor-style"@[7] == 's' && "cursor-style"@[8] == 't' && "cursor-style"@[9] == 'y' && "cursor-style"@[10] == 'l' && "cursor-style"@[11] == 'e',
        "cursor-blink"@.len() == 12 && "cursor-blink"@[0] == 'c' && "cursor-blink"@[1] == 'u' && "cursor-blink"@[2] == 'r' && "cursor-blink"@[3] == 's' && "cursor-blink"@[4] == 'o' && "cursor-blink"@[5] == 'r' && "cursor-blink"@[6] == '-' && "cursor-blink"@[7] == 'b' && "cursor-blink"@[8] == 'l' && "cursor-blink"@[9] == 'i' && "cursor-blink"@[10] == 'n' && "cursor-blink"@[11] == 'k',
{
    reveal_strlit("mouse");
    reveal_strlit("scroll-enter-copy-mode");
    reveal_strlit("pwsh-mouse-selection");
    reveal_strlit("mouse-selection");
    reveal_strlit("paste-detection");
    reveal_strlit("choose-tree-preview");
    reveal_strlit("alternate-screen");
    reveal_strlit("status");
    reveal_strlit("renumber-windows");
    reveal_strlit("remain-on-exit");
    reveal_strlit("destroy-unattached");
    reveal_strlit("exit-empty");
    reveal_strlit("automatic-rename");
    reveal_strlit("escape-time");
    reveal_strlit("history-limit");
    reveal_strlit("display-time");
    reveal_strlit("status-left");
    reveal_strlit("status-right");
    reveal_strlit("mode-keys");
    reveal_strlit("status-position");
    reveal_strlit("status-style");
    reveal_strlit("pane-border-style");
    reveal_strlit("pane-active-border-style");
    reveal_strlit("pane-border-hover-style");
    reveal_strlit("window-status-format");
    reveal_strlit("window-status-current-format");
    reveal_strlit("window-status-separator");
    reveal_strlit("cursor-style");
    reveal_strlit("cursor-blink");
}

/// An option that is unset has its default again: that is what it was before it was ever set.
pub proof fn unset_options_have_their_defaults(old: Options, new: Options, option: Seq<char>)
    requires
        is_reset(old, new, option),
    ensures
        option == "mouse"@ ==> new.switches.mouse_enabled,
        option == "scroll-enter-copy-mode"@ ==> new.switches.scroll_enter_copy_mode,
        option == "pwsh-mouse-selection"@ ==> !new.switches.pwsh_mouse_selection,
        option == "mouse-selection"@ ==> new.switches.mouse_selection,
        option == "paste-detection"@ ==> new.switches.paste_detection,
        option == "choose-tree-preview"@ ==> !new.switches.choose_tree_preview,
        option == "alternate-screen"@ ==> new.switches.allow_alternate_screen,
        option == "status"@ ==> new.switches.status_visible,
        option == "renumber-windows"@ ==> !new.switches.renumber_windows,
        option == "remain-on-exit"@ ==> !new.switches.remain_on_exit,
        option == "destroy-unattached"@ ==> !new.switches.destroy_unattached,
        option == "exit-empty"@ ==> new.switches.exit_empty,
        option == "automatic-rename"@ ==> new.switches.automatic_rename,
        option == "escape-time"@ ==> new.limits.escape_time_ms == 500,
        option == "history-limit"@ ==> new.limits.history_limit == 2000,
        option == "display-time"@ ==> new.limits.display_time_ms == 750,
        option == "status-left"@ ==> new.looks.status_left@ == "psmux:#I"@,
        option == "status-right"@ ==> new.looks.status_right@ == "#{?window_bigger,[#{window_offset_x}#,#{window_offset_y}] ,}\"#{=21:pane_title}\" %H:%M %d-%b-%y"@,
        option == "mode-keys"@ ==> new.looks.mode_keys@ == "emacs"@,
        option == "status-position"@ ==> new.looks.status_position@ == "bottom"@,
        option == "status-style"@ ==> new.looks.status_style@ == ""@,
        option == "pane-border-style"@ ==> new.looks.pane_border_style@ == ""@,
        option == "pane-active-border-style"@ ==> new.looks.pane_active_border_style@ == "fg=green"@,
        option == "pane-border-hover-style"@ ==> new.looks.pane_border_hover_style@ == "fg=yellow"@,
        option == "window-status-format"@ ==> new.looks.window_status_format@ == "#I:#W#{?window_flags,#{window_flags}, }"@,
        option == "window-status-current-format"@ ==> new.looks.window_status_current_format@ == "#I:#W#{?window_flags,#{window_flags}, }"@,
        option == "window-status-separator"@ ==> new.looks.window_status_separator@ == " "@,
        option == "cursor-style"@ ==> new.looks.cursor_style@ == "bar"@,
        option == "cursor-blink"@ ==> new.looks.cursor_blink@ == "1"@,
{
    lemma_names();
}

/// Unsetting an option leaves all others as they are, and doing it again changes nothing.
pub proof fn unsetting_changes_one_option(old: Options, new: Options, option: Seq<char>)
    requires
        is_reset(old, new, option),
    ensures
        is_reset(new, new, option),
        new.prefix == old.prefix && new.prefix2 == old.prefix2 && new.other == old.other && new.user
            == old.user && new.command_aliases == old.command_aliases && new.explicit == old.explicit,
        option != "mouse"@ ==> new.switches.mouse_enabled == old.switches.mouse_enabled,
        option != "scroll-enter-copy-mode"@ ==> new.switches.scroll_enter_copy_mode == old.switches.scroll_enter_copy_mode,
        option != "pwsh-mouse-selection"@ ==> new.switches.pwsh_mouse_selection == old.switches.pwsh_mouse_selection,
        option != "mouse-selection"@ ==> new.switches.mouse_selection == old.switches.mouse_selection,
        option != "paste-detection"@ ==> new.switches.paste_detection == old.switches.paste_detection,
        option != "choose-tree-preview"@ ==> new.switches.choose_tree_preview == old.switches.choose_tree_preview,
        option != "alternate-screen"@ ==> new.switches.allow_alternate_screen == old.switches.allow_alternate_screen,
        option != "status"@ ==> new.switches.status_visible == old.switches.status_visible,
        option != "renumber-windows"@ ==> new.switches.renumber_windows == old.switches.renumber_windows,
        option != "remain-on-exit"@ ==> new.switches.remain_on_exit == old.switches.remain_on_exit,
        option != "destroy-unattached"@ ==> new.switches.destroy_unattached == old.switches.destroy_unattached,
        option != "exit-empty"@ ==> new.switches.exit_empty == old.switches.exit_empty,
        option != "automatic-rename"@ ==> new.switches.automatic_rename == old.switches.automatic_rename,
        option != "escape-time"@ ==> new.limits.escape_time_ms == old.limits.escape_time_ms,
        option != "history-limit"@ ==> new.limits.history_limit == old.limits.history_limit,
        option != "display-time"@ ==> new.limits.display_time_ms == old.limits.display_time_ms,
        option != "status-left"@ ==> new.looks.status_left == old.looks.status_left,
        option != "status-right"@ ==> new.looks.status_right == old.looks.status_right,
        option != "mode-keys"@ ==> new.looks.mode_keys == old.looks.mode_keys,
        option != "status-position"@ ==> new.looks.status_position == old.looks.status_position,
        option != "status-style"@ ==> new.looks.status_style == old.looks.status_style,
        option != "pane-border-style"@ ==> new.looks.pane_border_style == old.looks.pane_border_style,
        option != "pane-active-border-style"@ ==> new.looks.pane_active_border_style == old.looks.pane_active_border_style,
        option != "pane-border-hover-style"@ ==> new.looks.pane_border_hover_style == old.looks.pane_border_hover_style,
        option != "window-status-format"@ ==> new.looks.window_status_format == old.looks.window_status_format,
        option != "window-status-current-format"@ ==> new.looks.window_status_current_format == old.looks.window_status_current_format,
        option != "window-status-separator"@ ==> new.looks.window_status_separator == old.looks.window_status_separator,
        option != "cursor-style"@ ==> new.looks.cursor_style == old.looks.cursor_style,
        option != "cursor-blink"@ ==> new.looks.cursor_blink == old.looks.cursor_blink,
{
    lemma_names();
}

/// A text that is appended to has the value at its end, and no other option changes.
pub proof fn appending_goes_to_the_end(old: Options, new: Options, option: Seq<char>, value: Seq<char>)
    requires
        is_longer(old, new, option, value),
    ensures
        new.looks.status_left@ == (if option == "status-left"@ {
            old.looks.status_left@ + value
        } else {
            old.looks.status_left@
        }),
        new.looks.status_right@ == (if option == "status-right"@ {
            old.looks.status_right@ + value
        } else {
            old.looks.status_right@
        }),
        new.looks.status_style@ == (if option == "status-style"@ {
            old.looks.status_style@ + value
        } else {
            old.looks.status_style@
        }),
        new.looks.pane_border_style@ == (if option == "pane-border-style"@ {
            old.looks.pane_border_style@ + value
        } else {
            old.looks.pane_border_style@
        }),
        new.looks.pane_active_border_style@ == (if option == "pane-active-border-style"@ {
            old.looks.pane_active_border_style@ + value
        } else {
            old.looks.pane_active_border_style@
        }),
        new.looks.pane_border_hover_style@ == (if option == "pane-border-hover-style"@ {
            old.looks.pane_border_hover_style@ + value
        } else {
            old.looks.pane_border_hover_style@
        }),
        new.looks.window_status_format@ == (if option == "window-status-format"@ {
            old.looks.window_status_format@ + value
        } else {
            old.looks.window_status_format@
        }),
        new.looks.window_status_current_format@ == (if option == "window-status-current-format"@ {
            old.looks.window_status_current_format@ + value
        } else {
            old.looks.window_status_current_format@
        }),
        new.looks.status_position == old.looks.status_position,
        new.looks.mode_keys == old.looks.mode_keys,
        new.looks.cursor_style == old.looks.cursor_style,
        new.looks.cursor_blink == old.looks.cursor_blink,
        new.looks.window_status_separator == old.looks.window_status_separator,
        new.switches == old.switches && new.limits == old.limits && new.other == old.other && new.user
            == old.user,
{
    lemma_names();
}

} // verus!
