//! The frames that clients draw: a JSON object of everything that is on the screen,
//! and when a client is told that nothing has changed.

use vstd::prelude::*;
use crate::cli::words::opt_text;
use crate::text::{decimal, join, joined, push_number, texts};

verus! {

/// What a frame is made of. Texts come as they stand between quotes, and layouts,
/// lists and trees as JSON.
pub struct FrameParts {
    pub layout: String,
    pub windows: String,
    pub prefix: String,
    pub prefix2: String,
    pub tree: String,
    pub base_index: u64,
    pub pane_base_index: u64,
    pub prediction_dimming: bool,
    pub status_style: String,
    pub status_left: String,
    pub status_right: String,
    pub pane_border_style: String,
    pub pane_active_border_style: String,
    pub pane_border_hover_style: String,
    pub window_status_format: String,
    pub window_status_current_format: String,
    pub window_status_separator: String,
    pub window_status_style: String,
    pub window_status_current_style: String,
    pub clock_mode: bool,
    pub bindings: String,
    pub status_left_length: u64,
    pub status_right_length: u64,
    pub status_lines: u64,
    pub status_format: Vec<String>,
    pub mode_style: String,
    pub status_position: String,
    pub status_justify: String,
    pub cursor_style_code: u64,
    pub status_visible: bool,
    pub repeat_time: u64,
    pub zoomed: bool,
    pub defaults_suppressed: bool,
    pub pwsh_mouse_selection: bool,
    pub mouse_selection: bool,
    pub paste_detection: bool,
    pub choose_tree_preview: bool,
    pub scroll_enter_copy_mode: bool,
    pub clock_colour: Option<String>,
    pub pane_border_status: Option<String>,
    pub pane_border_format: Option<String>,
    /// The title of the terminal that a client runs in.
    pub host_title: Option<String>,
    /// The state and the value of a progress bar.
    pub host_progress: Option<(u8, u8)>,
    /// The members of overlays, each behind a comma.
    pub overlay: String,
}

/// A member whose value is JSON.
pub open spec fn raw_member(name: Seq<char>, value: Seq<char>) -> Seq<char> {
    seq!['"'] + name + seq!['"', ':'] + value
}

/// A member whose value is a text.
pub open spec fn text_member(name: Seq<char>, value: Seq<char>) -> Seq<char> {
    seq!['"'] + name + seq!['"', ':', '"'] + value + seq!['"']
}

/// How a truth value is written.
pub open spec fn truth(b: bool) -> Seq<char> {
    if b {
        "true"@
    } else {
        "false"@
    }
}

/// A text between quotes.
pub open spec fn quoted_text(s: Seq<char>) -> Seq<char> {
    seq!['"'] + s + seq!['"']
}

/// A list of texts.
pub open spec fn list_json(items: Seq<Seq<char>>) -> Seq<char> {
    seq!['['] + joined(Seq::new(items.len(), |i: int| quoted_text(items[i])), ","@) + seq![']']
}

/// The members that every frame has, up to those on the selection with the mouse.
pub open spec fn common_members(p: FrameParts) -> Seq<Seq<char>> {
    Seq::<Seq<char>>::empty().push(
        raw_member("layout"@, p.layout@),
    ).push(
        raw_member("windows"@, p.windows@),
    ).push(
        text_member("prefix"@, p.prefix@),
    ).push(
        text_member("prefix2"@, p.prefix2@),
    ).push(
        raw_member("tree"@, p.tree@),
    ).push(
        raw_member("base_index"@, decimal(p.base_index as nat)),
    ).push(
        raw_member("pane_base_index"@, decimal(p.pane_base_index as nat)),
    ).push(
        raw_member("prediction_dimming"@, truth(p.prediction_dimming)),
    ).push(
        text_member("status_style"@, p.status_style@),
    ).push(
        text_member("status_left"@, p.status_left@),
    ).push(
        text_member("status_right"@, p.status_right@),
    ).push(
        text_member("pane_border_style"@, p.pane_border_style@),
    ).push(
        text_member("pane_active_border_style"@, p.pane_active_border_style@),
    ).push(
        text_member("pane_border_hover_style"@, p.pane_border_hover_style@),
    ).push(
        text_member("wsf"@, p.window_status_format@),
    ).push(
        text_member("wscf"@, p.window_status_current_format@),
    ).push(
        text_member("wss"@, p.window_status_separator@),
    ).push(
        text_member("ws_style"@, p.window_status_style@),
    ).push(
        text_member("wsc_style"@, p.window_status_current_style@),
    ).push(
        raw_member("clock_mode"@, truth(p.clock_mode)),
    ).push(
        raw_member("bindings"@, p.bindings@),
    ).push(
        raw_member("status_left_length"@, decimal(p.status_left_length as nat)),
    ).push(
        raw_member("status_right_length"@, decimal(p.status_right_length as nat)),
    ).push(
        raw_member("status_lines"@, decimal(p.status_lines as nat)),
    ).push(
        raw_member("status_format"@, list_json(texts(p.status_format@))),
    ).push(
        text_member("mode_style"@, p.mode_style@),
    ).push(
        text_member("status_position"@, p.status_position@),
    ).push(
        text_member("status_justify"@, p.status_justify@),
    ).push(
        raw_member("cursor_style_code"@, decimal(p.cursor_style_code as nat)),
    ).push(
        raw_member("status_visible"@, truth(p.status_visible)),
    ).push(
        raw_member("repeat_time"@, decimal(p.repeat_time as nat)),
    ).push(
        raw_member("zoomed"@, truth(p.zoomed)),
    )
}

/// The members of a frame. One that is pushed lacks two that only matter to a
/// client that asks.
pub open spec fn frame_members(p: FrameParts, pushed: bool) -> Seq<Seq<char>> {
    let a = common_members(p);
    let b = if pushed {
        a
    } else {
        a.push(raw_member("defaults_suppressed"@, truth(p.defaults_suppressed)))
    };
    let c = b.push(raw_member("pwsh_mouse_selection"@, truth(p.pwsh_mouse_selection))).push(
        raw_member("mouse_selection"@, truth(p.mouse_selection)),
    );
    let d = if pushed {
        c
    } else {
        c.push(raw_member("paste_detection"@, truth(p.paste_detection)))
    };
    d.push(raw_member("choose_tree_preview"@, truth(p.choose_tree_preview))).push(
        raw_member("scroll_enter_copy_mode"@, truth(p.scroll_enter_copy_mode)),
    )
}

/// A member that is there only with a value.
pub open spec fn opt_member(name: Seq<char>, value: Option<Seq<char>>) -> Seq<Seq<char>> {
    match value {
        Some(v) => seq![text_member(name, v)],
        None => Seq::empty(),
    }
}

/// The members that are there only if they have a value. The format of borders
/// goes with their status.
pub open spec fn extra_members(p: FrameParts) -> Seq<Seq<char>> {
    opt_member("clock_colour"@, opt_text(p.clock_colour)) + opt_member(
        "pane_border_status"@,
        opt_text(p.pane_border_status),
    ) + (if p.pane_border_status is Some {
        opt_member("pane_border_format"@, opt_text(p.pane_border_format))
    } else {
        Seq::empty()
    }) + opt_member("host_title"@, opt_text(p.host_title)) + opt_member(
        "host_progress"@,
        match p.host_progress {
            Some((s, v)) => Some(decimal(s as nat) + seq![';'] + decimal(v as nat)),
            None => None,
        },
    )
}

/// A frame without what is said once only.
pub open spec fn frame_text(p: FrameParts, pushed: bool) -> Seq<char> {
    seq!['{'] + joined(frame_members(p, pushed) + extra_members(p), ","@) + p.overlay@ + seq!['}']
}

/// An object with one more member.
pub open spec fn with_member(object: Seq<char>, member: Seq<char>) -> Seq<char> {
    object.drop_last() + seq![','] + member + seq!['}']
}

fn push_raw(v: Vec<String>, name: &str, value: &str) -> (r: Vec<String>)
    ensures
        texts(r@) == texts(v@).push(raw_member(name@, value@)),
{
    let mut v = v;
    let ghost before = texts(v@);
    let mut s = String::new();
    s.push('"');
    s.append(name);
    s.push('"');
    s.push(':');
    s.append(value);
    assert(s@ =~= raw_member(name@, value@));
    v.push(s);
    assert(texts(v@) =~= before.push(raw_member(name@, value@)));
    v
}

fn push_text(v: Vec<String>, name: &str, value: &str) -> (r: Vec<String>)
    ensures
        texts(r@) == texts(v@).push(text_member(name@, value@)),
{
    let mut v = v;
    let ghost before = texts(v@);
    let mut s = String::new();
    s.push('"');
    s.append(name);
    s.push('"');
    s.push(':');
    s.push('"');
    s.append(value);
    s.push('"');
    assert(s@ =~= text_member(name@, value@));
    v.push(s);
    assert(texts(v@) =~= before.push(text_member(name@, value@)));
    v
}

fn push_num(v: Vec<String>, name: &str, value: u64) -> (r: Vec<String>)
    ensures
        texts(r@) == texts(v@).push(raw_member(name@, decimal(value as nat))),
{
    let s = crate::text::number_text(value);
    push_raw(v, name, s.as_str())
}

fn push_truth(v: Vec<String>, name: &str, value: bool) -> (r: Vec<String>)
    ensures
        texts(r@) == texts(v@).push(raw_member(name@, truth(value))),
{
    push_raw(
        v,
        name,
        if value {
            "true"
        } else {
            "false"
        },
    )
}

fn push_list(v: Vec<String>, name: &str, items: &Vec<String>) -> (r: Vec<String>)
    ensures
        texts(r@) == texts(v@).push(raw_member(name@, list_json(texts(items@)))),
{
    let ghost all = Seq::new(texts(items@).len(), |i: int| quoted_text(texts(items@)[i]));
    let mut parts: Vec<String> = Vec::new();
    let mut i: usize = 0;
    while i < items.len()
        invariant
            i <= items.len(),
            all == Seq::new(texts(items@).len(), |i: int| quoted_text(texts(items@)[i])),
            texts(parts@) == all.take(i as int),
        decreases items.len() - i,
    {
        let ghost before = texts(parts@);
        let mut q = String::new();
        q.push('"');
        q.append(items[i].as_str());
        q.push('"');
        assert(q@ =~= quoted_text(items@[i as int]@));
        parts.push(q);
        assert(texts(parts@) =~= before.push(all[i as int]));
        assert(texts(parts@) =~= all.take(i + 1));
        i += 1;
    }
    assert(all.take(items.len() as int) =~= all);
    let mut s = String::new();
    s.push('[');
    let j = join(&parts, ",");
    s.append(j.as_str());
    s.push(']');
    assert(s@ =~= list_json(texts(items@)));
    push_raw(v, name, s.as_str())
}

fn push_opt(v: Vec<String>, name: &str, value: &Option<String>) -> (r: Vec<String>)
    ensures
        texts(r@) == texts(v@) + opt_member(name@, opt_text(*value)),
{
    let ghost before = texts(v@);
    match value {
        Some(s) => {
            let r = push_text(v, name, s.as_str());
            assert(texts(r@) =~= before + opt_member(name@, opt_text(*value)));
            r
        },
        None => {
            assert(before =~= before + opt_member(name@, opt_text(*value)));
            v
        },
    }
}

fn common(p: &FrameParts) -> (r: Vec<String>)
    ensures
        texts(r@) == common_members(*p),
{
    let mut v: Vec<String> = Vec::new();
    assert(texts(v@) =~= Seq::<Seq<char>>::empty());
    v = push_raw(v, "layout", p.layout.as_str());
    v = push_raw(v, "windows", p.windows.as_str());
    v = push_text(v, "prefix", p.prefix.as_str());
    v = push_text(v, "prefix2", p.prefix2.as_str());
    v = push_raw(v, "tree", p.tree.as_str());
    v = push_num(v, "base_index", p.base_index);
    v = push_num(v, "pane_base_index", p.pane_base_index);
    v = push_truth(v, "prediction_dimming", p.prediction_dimming);
    v = push_text(v, "status_style", p.status_style.as_str());
    v = push_text(v, "status_left", p.status_left.as_str());
    v = push_text(v, "status_right", p.status_right.as_str());
    v = push_text(v, "pane_border_style", p.pane_border_style.as_str());
    v = push_text(v, "pane_active_border_style", p.pane_active_border_style.as_str());
    v = push_text(v, "pane_border_hover_style", p.pane_border_hover_style.as_str());
    v = push_text(v, "wsf", p.window_status_format.as_str());
    v = push_text(v, "wscf", p.window_status_current_format.as_str());
    v = push_text(v, "wss", p.window_status_separator.as_str());
    v = push_text(v, "ws_style", p.window_status_style.as_str());
    v = push_text(v, "wsc_style", p.window_status_current_style.as_str());
    v = push_truth(v, "clock_mode", p.clock_mode);
    v = push_raw(v, "bindings", p.bindings.as_str());
    v = push_num(v, "status_left_length", p.status_left_length);
    v = push_num(v, "status_right_length", p.status_right_length);
    v = push_num(v, "status_lines", p.status_lines);
    v = push_list(v, "status_format", &p.status_format);
    v = push_text(v, "mode_style", p.mode_style.as_str());
    v = push_text(v, "status_position", p.status_position.as_str());
    v = push_text(v, "status_justify", p.status_justify.as_str());
    v = push_num(v, "cursor_style_code", p.cursor_style_code);
    v = push_truth(v, "status_visible", p.status_visible);
    v = push_num(v, "repeat_time", p.repeat_time);
    v = push_truth(v, "zoomed", p.zoomed);
    v
}

fn all_members(p: &FrameParts, pushed: bool) -> (r: Vec<String>)
    ensures
        texts(r@) == frame_members(*p, pushed) + extra_members(*p),
{
    let mut v = common(p);
    if !pushed {
        v = push_truth(v, "defaults_suppressed", p.defaults_suppressed);
    }
    v = push_truth(v, "pwsh_mouse_selection", p.pwsh_mouse_selection);
    v = push_truth(v, "mouse_selection", p.mouse_selection);
    if !pushed {
        v = push_truth(v, "paste_detection", p.paste_detection);
    }
    v = push_truth(v, "choose_tree_preview", p.choose_tree_preview);
    v = push_truth(v, "scroll_enter_copy_mode", p.scroll_enter_copy_mode);
    let ghost head = texts(v@);
    assert(head == frame_members(*p, pushed));
    v = push_opt(v, "clock_colour", &p.clock_colour);
    v = push_opt(v, "pane_border_status", &p.pane_border_status);
    let ghost before = texts(v@);
    if p.pane_border_status.is_some() {
        v = push_opt(v, "pane_border_format", &p.pane_border_format);
    } else {
        assert(before =~= before + Seq::<Seq<char>>::empty());
    }
    v = push_opt(v, "host_title", &p.host_title);
    let progress: Option<String> = match p.host_progress {
        Some((s, n)) => {
            let mut t = String::new();
            push_number(&mut t, s as u64);
            t.push(';');
            push_number(&mut t, n as u64);
            assert(t@ =~= decimal(s as nat) + seq![';'] + decimal(n as nat));
            Some(t)
        },
        None => None,
    };
    v = push_opt(v, "host_progress", &progress);
    assert(texts(v@) =~= head + extra_members(*p));
    v
}

/// A frame without what is said once only.
pub fn build_frame(p: &FrameParts, pushed: bool) -> (r: String)
    ensures
        r@ == frame_text(*p, pushed),
{
    let v = all_members(p, pushed);
    let mut s = String::new();
    s.push('{');
    let j = join(&v, ",");
    s.append(j.as_str());
    s.append(p.overlay.as_str());
    s.push('}');
    assert(s@ =~= frame_text(*p, pushed));
    s
}

/// What a frame says once only.
pub struct OneShot {
    /// A text for the clipboard, encoded.
    pub clipboard: Option<String>,
    /// The bell rings.
    pub bell: bool,
}

/// A frame with a text for the clipboard.
pub open spec fn with_clipboard(frame: Seq<char>, clipboard: Option<Seq<char>>) -> Seq<char> {
    match clipboard {
        Some(c) => with_member(frame, text_member("clipboard_osc52"@, c)),
        None => frame,
    }
}

/// A frame with the bell.
pub open spec fn with_bell(frame: Seq<char>, bell: bool) -> Seq<char> {
    if bell {
        with_member(frame, raw_member("bell"@, "true"@))
    } else {
        frame
    }
}

fn add_member(frame: &str, member: &str) -> (r: String)
    requires
        frame@.len() > 0,
    ensures
        r@ == with_member(frame@, member@),
{
    let v = crate::text::chars_of(frame);
    let mut s = crate::text::range_text(&v, 0, v.len() - 1);
    assert(v@.subrange(0, v.len() - 1) =~= frame@.drop_last());
    s.push(',');
    s.append(member);
    s.push('}');
    assert(s@ =~= with_member(frame@, member@));
    s
}

fn clipboard_member(c: &str) -> (r: String)
    ensures
        r@ == text_member("clipboard_osc52"@, c@),
{
    let v = push_text(Vec::new(), "clipboard_osc52", c);
    assert(texts(v@).len() == 1);
    let s = v[0].clone();
    assert(texts(v@)[0] == s@);
    s
}

fn bell_member() -> (r: String)
    ensures
        r@ == raw_member("bell"@, "true"@),
{
    let v = push_raw(Vec::new(), "bell", "true");
    assert(texts(v@).len() == 1);
    let s = v[0].clone();
    assert(texts(v@)[0] == s@);
    s
}

/// The frame that a client gets, and the one that is kept to compare with. What is
/// said once only is in the former; of a frame that is pushed the text for the
/// clipboard is in both. Nothing is left to be said afterwards.
pub fn finish_frame(p: &FrameParts, pushed: bool, once: &mut OneShot) -> (r: (String, String))
    ensures
        ({
            let frame = frame_text(*p, pushed);
            let clip = with_clipboard(frame, opt_text(old(once).clipboard));
            &&& r.0@ == with_bell(clip, old(once).bell)
            &&& r.1@ == (if pushed {
                clip
            } else {
                frame
            })
        }),
        final(once).clipboard is None,
        !final(once).bell,
{
    let frame = build_frame(p, pushed);
    let clip: String = match &once.clipboard {
        Some(c) => {
            let m = clipboard_member(c.as_str());
            add_member(frame.as_str(), m.as_str())
        },
        None => frame.clone(),
    };
    let sent: String = if once.bell {
        let m = bell_member();
        add_member(clip.as_str(), m.as_str())
    } else {
        clip.clone()
    };
    once.clipboard = None;
    once.bell = false;
    let kept: String = if pushed { clip } else { frame };
    (sent, kept)
}

/// Every frame that is sent is an object: it begins with a brace and ends with one.
pub proof fn frames_are_objects(p: FrameParts, pushed: bool, clipboard: Option<Seq<char>>, bell: bool)
    ensures
        ({
            let f = with_bell(with_clipboard(frame_text(p, pushed), clipboard), bell);
            f.len() >= 2 && f[0] == '{' && f.last() == '}'
        }),
{
}

proof fn lemma_joined_more(a: Seq<Seq<char>>, m: Seq<char>, sep: Seq<char>)
    requires
        a.len() > 0,
    ensures
        joined(a.push(m), sep) == joined(a, sep) + sep + m,
{
    assert(a.push(m).drop_last() =~= a);
}

/// A member that is added to an object stands there like the ones before it.
pub proof fn added_member_joins_the_others(members: Seq<Seq<char>>, m: Seq<char>)
    requires
        members.len() > 0,
    ensures
        with_member(seq!['{'] + joined(members, ","@) + seq!['}'], m) == seq!['{'] + joined(
            members.push(m),
            ","@,
        ) + seq!['}'],
{
    lemma_joined_more(members, m, ","@);
    reveal_strlit(",");
    let o = seq!['{'] + joined(members, ","@) + seq!['}'];
    assert(o.drop_last() =~= seq!['{'] + joined(members, ","@));
    assert(","@ =~= seq![',']);
    assert(with_member(o, m) =~= seq!['{'] + joined(members.push(m), ","@) + seq!['}']);
}

/// Whether a client that has the last frame is told that nothing has changed.
pub fn unchanged(
    allowed: bool,
    state_dirty: bool,
    bell: bool,
    squelched: bool,
    has_cached: bool,
    cached_version: u64,
    version: u64,
) -> (r: bool)
    ensures
        r == (allowed && !state_dirty && !bell && !squelched && has_cached && cached_version
            == version),
{
    allowed && !state_dirty && !bell && !squelched && has_cached && cached_version == version
}

/// A message on the status line.
pub struct StatusMessage {
    /// The text as it stands between quotes.
    pub text: String,
    /// For how many milliseconds it has been there.
    pub age_ms: u64,
    /// For how many milliseconds it is to stay, if it has a time of its own.
    pub duration_ms: Option<u64>,
}

/// Whether a message is still shown: its time is not over, or it has none and
/// stays until a key is pressed.
pub open spec fn message_shown(m: StatusMessage, display_time_ms: u64) -> bool {
    let time = match m.duration_ms {
        Some(d) => d,
        None => display_time_ms,
    };
    time == 0 || m.age_ms < time
}

/// The members of overlays: those of popups, as they come, and the message on the
/// status line while it is shown.
pub open spec fn overlay_text(
    popup: Seq<char>,
    message: Option<StatusMessage>,
    display_time_ms: u64,
) -> Seq<char> {
    match message {
        Some(m) => if message_shown(m, display_time_ms) {
            popup + seq![','] + text_member("status_message"@, m.text@)
        } else {
            popup
        },
        None => popup,
    }
}

/// The members of overlays.
pub fn serialize_overlay_json(
    popup: &str,
    message: &Option<StatusMessage>,
    display_time_ms: u64,
) -> (r: String)
    ensures
        r@ == overlay_text(popup@, *message, display_time_ms),
{
    let mut out: String = popup.to_owned();
    if let Some(m) = message {
        let time: u64 = match m.duration_ms {
            Some(d) => d,
            None => display_time_ms,
        };
        if time == 0 || m.age_ms < time {
            out.push(',');
            let v = push_text(Vec::new(), "status_message", m.text.as_str());
            assert(texts(v@).len() == 1);
            assert(texts(v@)[0] == v@[0]@);
            out.append(v[0].as_str());
        }
    }
    assert(out@ =~= overlay_text(popup@, *message, display_time_ms));
    out
}

/// The format of a host terminal's title: the one that is set, or a common one.
pub fn title_format(set: &str) -> (r: String)
    ensures
        r@ == (if set@.len() == 0 {
            "#S:#I:#W"@
        } else {
            set@
        }),
{
    if set.is_empty() {
        "#S:#I:#W".to_owned()
    } else {
        set.to_owned()
    }
}

} // verus!
