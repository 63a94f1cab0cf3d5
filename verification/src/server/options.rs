//! The options of a session: setting, appending to and unsetting them, and their
//! listing.

use vstd::prelude::*;
use crate::cli::words::opt_text;
use crate::dict::{Dict, Entry};
use crate::text::{decimal, has_prefix, join, joined, number_text, same, starts_with, texts};

verus! {

/// The options that are on or off.
#[derive(Clone, Copy, PartialEq, Eq, Structural, Debug)]
pub struct Switches {
    pub mouse_enabled: bool,
    pub scroll_enter_copy_mode: bool,
    pub pwsh_mouse_selection: bool,
    pub mouse_selection: bool,
    pub paste_detection: bool,
    pub choose_tree_preview: bool,
    pub status_visible: bool,
    pub focus_events: bool,
    pub renumber_windows: bool,
    pub automatic_rename: bool,
    pub monitor_activity: bool,
    pub sync_input: bool,
    pub remain_on_exit: bool,
    pub destroy_unattached: bool,
    pub exit_empty: bool,
    pub set_titles: bool,
    pub prediction_dimming: bool,
    pub allow_predictions: bool,
    pub allow_rename: bool,
    pub allow_set_title: bool,
    pub allow_alternate_screen: bool,
}

/// The options that are numbers.
#[derive(Clone, Copy, PartialEq, Eq, Structural, Debug)]
pub struct Limits {
    pub window_base_index: u64,
    pub pane_base_index: u64,
    pub escape_time_ms: u64,
    pub history_limit: u64,
    pub display_time_ms: u64,
    pub display_panes_time_ms: u64,
    pub status_interval: u64,
    pub main_pane_width: u64,
    pub main_pane_height: u64,
    pub status_left_length: u64,
    pub status_right_length: u64,
}

/// The texts that can be unset or appended to.
pub struct Looks {
    pub status_position: String,
    pub status_left: String,
    pub status_right: String,
    pub mode_keys: String,
    pub cursor_style: String,
    pub cursor_blink: String,
    pub pane_border_style: String,
    pub pane_active_border_style: String,
    pub pane_border_hover_style: String,
    pub status_style: String,
    pub window_status_format: String,
    pub window_status_current_format: String,
    pub window_status_separator: String,
}

/// The other texts.
pub struct OtherTexts {
    pub set_titles_string: String,
    pub default_shell: String,
    pub word_separators: String,
    pub status_left_style: String,
    pub status_right_style: String,
    pub status_justify: String,
    pub window_status_style: String,
    pub window_status_current_style: String,
    pub window_status_activity_style: String,
    pub message_style: String,
    pub message_command_style: String,
    pub mode_style: String,
    pub window_size: String,
    pub allow_passthrough: String,
    pub set_clipboard: String,
    pub copy_command: String,
    pub bell_action: String,
    pub activity_action: String,
    pub silence_action: String,
    pub update_environment: Vec<String>,
    pub session_group: Option<String>,
}

/// The options of a session.
pub struct Options {
    /// The prefix key, as it is written.
    pub prefix: String,
    /// The second prefix key, as it is written.
    pub prefix2: Option<String>,
    pub switches: Switches,
    pub limits: Limits,
    pub looks: Looks,
    pub other: OtherTexts,
    pub command_aliases: Dict<String>,
    /// The options whose names begin with an at sign.
    pub user: Dict<String>,
    /// The names of the options that were set explicitly.
    pub explicit: Vec<String>,
}

/// How a switch is written.
pub open spec fn on_off(b: bool) -> Seq<char> {
    if b {
        "on"@
    } else {
        "off"@
    }
}

/// A listing, followed by an option.
pub open spec fn listed(s: Seq<char>, name: Seq<char>, value: Seq<char>) -> Seq<char> {
    s + name + " "@ + value + "\n"@
}

/// A listing, followed by an option whose value is quoted.
pub open spec fn listed_quoted(s: Seq<char>, name: Seq<char>, value: Seq<char>) -> Seq<char> {
    s + name + " \""@ + value + "\"\n"@
}

/// A listing, followed by an option whose value is quoted, unless it is empty.
pub open spec fn listed_filled(s: Seq<char>, name: Seq<char>, value: Seq<char>) -> Seq<char> {
    if value.len() == 0 {
        s
    } else {
        listed_quoted(s, name, value)
    }
}

/// A listing, followed by the options of a dictionary.
pub open spec fn listed_entries(s: Seq<char>, entries: Seq<Entry<String>>) -> Seq<char>
    decreases entries.len(),
{
    if entries.len() == 0 {
        s
    } else {
        listed_quoted(
            listed_entries(s, entries.drop_last()),
            entries.last().key@,
            entries.last().value@,
        )
    }
}

/// A listing, followed by the aliases of commands.
pub open spec fn listed_aliases(s: Seq<char>, entries: Seq<Entry<String>>) -> Seq<char>
    decreases entries.len(),
{
    if entries.len() == 0 {
        s
    } else {
        listed_quoted(
            listed_aliases(s, entries.drop_last()),
            "command-alias"@,
            entries.last().key@ + "="@ + entries.last().value@,
        )
    }
}

/// The shell that is started where none was set.
pub open spec fn shell_shown(set: Seq<char>, found: Option<Seq<char>>) -> Seq<char> {
    if set.len() > 0 {
        set
    } else {
        match found {
            Some(s) => s,
            None => "pwsh.exe"@,
        }
    }
}

/// A listing, followed by the prefix keys.
pub open spec fn listed_prefixes(s: Seq<char>, o: Options) -> Seq<char> {
    let first = listed(s, "prefix"@, o.prefix@);
    match opt_text(o.prefix2) {
        Some(p) => listed(first, "prefix2"@, p),
        None => first,
    }
}

/// A listing, followed by the options from `base-index` to `status`.
pub open spec fn listed_part_one(s: Seq<char>, o: Options) -> Seq<char> {
    let s0 = listed(s, "base-index"@, decimal(o.limits.window_base_index as nat));
    let s1 = listed(s0, "pane-base-index"@, decimal(o.limits.pane_base_index as nat));
    let s2 = listed(s1, "escape-time"@, decimal(o.limits.escape_time_ms as nat));
    let s3 = listed(s2, "mouse"@, on_off(o.switches.mouse_enabled));
    let s4 = listed(s3, "scroll-enter-copy-mode"@, on_off(o.switches.scroll_enter_copy_mode));
    let s5 = listed(s4, "pwsh-mouse-selection"@, on_off(o.switches.pwsh_mouse_selection));
    let s6 = listed(s5, "mouse-selection"@, on_off(o.switches.mouse_selection));
    let s7 = listed(s6, "paste-detection"@, on_off(o.switches.paste_detection));
    let s8 = listed(s7, "choose-tree-preview"@, on_off(o.switches.choose_tree_preview));
    listed(s8, "status"@, on_off(o.switches.status_visible))
}

/// A listing, followed by the options from `status-position` to `automatic-rename`.
pub open spec fn listed_part_two(s: Seq<char>, o: Options) -> Seq<char> {
    let s0 = listed(s, "status-position"@, o.looks.status_position@);
    let s1 = listed_quoted(s0, "status-left"@, o.looks.status_left@);
    let s2 = listed_quoted(s1, "status-right"@, o.looks.status_right@);
    let s3 = listed(s2, "history-limit"@, decimal(o.limits.history_limit as nat));
    let s4 = listed(s3, "display-time"@, decimal(o.limits.display_time_ms as nat));
    let s5 = listed(s4, "display-panes-time"@, decimal(o.limits.display_panes_time_ms as nat));
    let s6 = listed(s5, "mode-keys"@, o.looks.mode_keys@);
    let s7 = listed(s6, "focus-events"@, on_off(o.switches.focus_events));
    let s8 = listed(s7, "renumber-windows"@, on_off(o.switches.renumber_windows));
    listed(s8, "automatic-rename"@, on_off(o.switches.automatic_rename))
}

/// A listing, followed by the options from `monitor-activity` to `cursor-style`.
pub open spec fn listed_part_three(s: Seq<char>, o: Options) -> Seq<char> {
    let s0 = listed(s, "monitor-activity"@, on_off(o.switches.monitor_activity));
    let s1 = listed(s0, "synchronize-panes"@, on_off(o.switches.sync_input));
    let s2 = listed(s1, "remain-on-exit"@, on_off(o.switches.remain_on_exit));
    let s3 = listed(s2, "destroy-unattached"@, on_off(o.switches.destroy_unattached));
    let s4 = listed(s3, "exit-empty"@, on_off(o.switches.exit_empty));
    let s5 = listed(s4, "set-titles"@, on_off(o.switches.set_titles));
    let s6 = listed_filled(s5, "set-titles-string"@, o.other.set_titles_string@);
    let s7 = listed(s6, "prediction-dimming"@, on_off(o.switches.prediction_dimming));
    let s8 = listed(s7, "allow-predictions"@, on_off(o.switches.allow_predictions));
    listed(s8, "cursor-style"@, o.looks.cursor_style@)
}

/// A listing, followed by the options from `cursor-blink` to `status-interval`.
pub open spec fn listed_part_four(s: Seq<char>, o: Options, shell: Option<Seq<char>>) -> Seq<char> {
    let s0 = listed(s, "cursor-blink"@, on_off(o.looks.cursor_blink@ != "0"@));
    let s1 = listed(s0, "default-shell"@, shell_shown(o.other.default_shell@, shell));
    let s2 = listed_quoted(s1, "word-separators"@, o.other.word_separators@);
    let s3 = listed_filled(s2, "pane-border-style"@, o.looks.pane_border_style@);
    let s4 = listed_filled(s3, "pane-active-border-style"@, o.looks.pane_active_border_style@);
    let s5 = listed_filled(s4, "pane-border-hover-style"@, o.looks.pane_border_hover_style@);
    let s6 = listed_filled(s5, "status-style"@, o.looks.status_style@);
    let s7 = listed_filled(s6, "status-left-style"@, o.other.status_left_style@);
    let s8 = listed_filled(s7, "status-right-style"@, o.other.status_right_style@);
    listed(s8, "status-interval"@, decimal(o.limits.status_interval as nat))
}

/// A listing, followed by the options from `status-justify` to `mode-style`.
pub open spec fn listed_part_five(s: Seq<char>, o: Options) -> Seq<char> {
    let s0 = listed(s, "status-justify"@, o.other.status_justify@);
    let s1 = listed_quoted(s0, "window-status-format"@, o.looks.window_status_format@);
    let s2 = listed_quoted(s1, "window-status-current-format"@, o.looks.window_status_current_format@);
    let s3 = listed_filled(s2, "window-status-style"@, o.other.window_status_style@);
    let s4 = listed_filled(s3, "window-status-current-style"@, o.other.window_status_current_style@);
    let s5 = listed_filled(s4, "window-status-activity-style"@, o.other.window_status_activity_style@);
    let s6 = listed_filled(s5, "message-style"@, o.other.message_style@);
    let s7 = listed_filled(s6, "message-command-style"@, o.other.message_command_style@);
    listed_filled(s7, "mode-style"@, o.other.mode_style@)
}

/// A listing, followed by the options from `main-pane-width` to `allow-set-title`.
pub open spec fn listed_part_six(s: Seq<char>, o: Options) -> Seq<char> {
    let s0 = listed(s, "main-pane-width"@, decimal(o.limits.main_pane_width as nat));
    let s1 = listed(s0, "main-pane-height"@, decimal(o.limits.main_pane_height as nat));
    let s2 = listed(s1, "status-left-length"@, decimal(o.limits.status_left_length as nat));
    let s3 = listed(s2, "status-right-length"@, decimal(o.limits.status_right_length as nat));
    let s4 = listed(s3, "window-size"@, o.other.window_size@);
    let s5 = listed(s4, "allow-passthrough"@, o.other.allow_passthrough@);
    let s6 = listed(s5, "set-clipboard"@, o.other.set_clipboard@);
    let s7 = listed_filled(s6, "copy-command"@, o.other.copy_command@);
    let s8 = listed(s7, "allow-rename"@, on_off(o.switches.allow_rename));
    listed(s8, "allow-set-title"@, on_off(o.switches.allow_set_title))
}

/// A listing, followed by the options from `bell-action` to `silence-action`.
pub open spec fn listed_part_seven(s: Seq<char>, o: Options) -> Seq<char> {
    let s0 = listed(s, "bell-action"@, o.other.bell_action@);
    let s1 = listed(s0, "activity-action"@, o.other.activity_action@);
    listed(s1, "silence-action"@, o.other.silence_action@)
}

/// The listing of all options. `shell` is the shell that was found where none was set.
pub open spec fn options_text(o: Options, shell: Option<Seq<char>>) -> Seq<char> {
    listed_aliases((match opt_text(o.other.session_group) { Some(g) => listed_quoted(listed_quoted(listed_part_seven(listed_part_six(listed_entries(listed_part_five(listed_part_four(listed_part_three(listed_part_two(listed_part_one(listed_prefixes(Seq::empty(), o), o), o), o), o, shell), o), o.user.entries@), o), o), "update-environment"@, joined(texts(o.other.update_environment@), " "@)), "session-group"@, g), None => listed_quoted(listed_part_seven(listed_part_six(listed_entries(listed_part_five(listed_part_four(listed_part_three(listed_part_two(listed_part_one(listed_prefixes(Seq::empty(), o), o), o), o), o, shell), o), o.user.entries@), o), o), "update-environment"@, joined(texts(o.other.update_environment@), " "@)) }), o.command_aliases.entries@)
}

fn push_option(s: &mut String, name: &str, value: &str)
    ensures
        final(s)@ == listed(old(s)@, name@, value@),
{
    s.append(name);
    s.append(" ");
    s.append(value);
    s.append("\n");
}

fn push_quoted_option(s: &mut String, name: &str, value: &str)
    ensures
        final(s)@ == listed_quoted(old(s)@, name@, value@),
{
    s.append(name);
    s.append(" \"");
    s.append(value);
    s.append("\"\n");
}

fn push_filled_option(s: &mut String, name: &str, value: &str)
    ensures
        final(s)@ == listed_filled(old(s)@, name@, value@),
{
    if value.unicode_len() > 0 {
        push_quoted_option(s, name, value);
    }
}

fn push_number_option(s: &mut String, name: &str, value: u64)
    ensures
        final(s)@ == listed(old(s)@, name@, decimal(value as nat)),
{
    let text = number_text(value);
    push_option(s, name, text.as_str());
}

fn push_switch(s: &mut String, name: &str, value: bool)
    ensures
        final(s)@ == listed(old(s)@, name@, on_off(value)),
{
    if value {
        push_option(s, name, "on");
    } else {
        push_option(s, name, "off");
    }
}

fn push_shell(s: &mut String, set: &str, found: &Option<String>)
    ensures
        final(s)@ == listed(old(s)@, "default-shell"@, shell_shown(set@, opt_text(*found))),
{
    if set.unicode_len() > 0 {
        push_option(s, "default-shell", set);
    } else {
        match found {
            Some(f) => push_option(s, "default-shell", f.as_str()),
            None => push_option(s, "default-shell", "pwsh.exe"),
        }
    }
}

fn push_prefixes(s: &mut String, o: &Options)
    ensures
        final(s)@ == listed_prefixes(old(s)@, *o),
{
    push_option(s, "prefix", o.prefix.as_str());
    if let Some(p) = &o.prefix2 {
        push_option(s, "prefix2", p.as_str());
    }
}

fn push_entries(s: &mut String, entries: &Vec<Entry<String>>)
    ensures
        final(s)@ == listed_entries(old(s)@, entries@),
{
    let ghost start = s@;
    let mut i: usize = 0;
    while i < entries.len()
        invariant
            i <= entries.len(),
            s@ == listed_entries(start, entries@.take(i as int)),
        decreases entries.len() - i,
    {
        push_quoted_option(s, entries[i].key.as_str(), entries[i].value.as_str());
        assert(entries@.take(i + 1).drop_last() =~= entries@.take(i as int));
        i += 1;
    }
    assert(entries@.take(i as int) =~= entries@);
}

fn push_aliases(s: &mut String, entries: &Vec<Entry<String>>)
    ensures
        final(s)@ == listed_aliases(old(s)@, entries@),
{
    let ghost start = s@;
    let mut i: usize = 0;
    while i < entries.len()
        invariant
            i <= entries.len(),
            s@ == listed_aliases(start, entries@.take(i as int)),
        decreases entries.len() - i,
    {
        let mut alias = entries[i].key.clone();
        alias.append("=");
        alias.append(entries[i].value.as_str());
        push_quoted_option(s, "command-alias", alias.as_str());
        assert(entries@.take(i + 1).drop_last() =~= entries@.take(i as int));
        i += 1;
    }
    assert(entries@.take(i as int) =~= entries@);
}

fn push_part_one(s: &mut String, o: &Options)
    ensures
        final(s)@ == listed_part_one(old(s)@, *o),
{
    push_number_option(s, "base-index", o.limits.window_base_index);
    push_number_option(s, "pane-base-index", o.limits.pane_base_index);
    push_number_option(s, "escape-time", o.limits.escape_time_ms);
    push_switch(s, "mouse", o.switches.mouse_enabled);
    push_switch(s, "scroll-enter-copy-mode", o.switches.scroll_enter_copy_mode);
    push_switch(s, "pwsh-mouse-selection", o.switches.pwsh_mouse_selection);
    push_switch(s, "mouse-selection", o.switches.mouse_selection);
    push_switch(s, "paste-detection", o.switches.paste_detection);
    push_switch(s, "choose-tree-preview", o.switches.choose_tree_preview);
    push_switch(s, "status", o.switches.status_visible);
}

fn push_part_two(s: &mut String, o: &Options)
    ensures
        final(s)@ == listed_part_two(old(s)@, *o),
{
    push_option(s, "status-position", o.looks.status_position.as_str());
    push_quoted_option(s, "status-left", o.looks.status_left.as_str());
    push_quoted_option(s, "status-right", o.looks.status_right.as_str());
    push_number_option(s, "history-limit", o.limits.history_limit);
    push_number_option(s, "display-time", o.limits.display_time_ms);
    push_number_option(s, "display-panes-time", o.limits.display_panes_time_ms);
    push_option(s, "mode-keys", o.looks.mode_keys.as_str());
    push_switch(s, "focus-events", o.switches.focus_events);
    push_switch(s, "renumber-windows", o.switches.renumber_windows);
    push_switch(s, "automatic-rename", o.switches.automatic_rename);
}

fn push_part_three(s: &mut String, o: &Options)
    ensures
        final(s)@ == listed_part_three(old(s)@, *o),
{
    push_switch(s, "monitor-activity", o.switches.monitor_activity);
    push_switch(s, "synchronize-panes", o.switches.sync_input);
    push_switch(s, "remain-on-exit", o.switches.remain_on_exit);
    push_switch(s, "destroy-unattached", o.switches.destroy_unattached);
    push_switch(s, "exit-empty", o.switches.exit_empty);
    push_switch(s, "set-titles", o.switches.set_titles);
    push_filled_option(s, "set-titles-string", o.other.set_titles_string.as_str());
    push_switch(s, "prediction-dimming", o.switches.prediction_dimming);
    push_switch(s, "allow-predictions", o.switches.allow_predictions);
    push_option(s, "cursor-style", o.looks.cursor_style.as_str());
}

fn push_part_four(s: &mut String, o: &Options, shell: &Option<String>)
    ensures
        final(s)@ == listed_part_four(old(s)@, *o, opt_text(*shell)),
{
    push_switch(s, "cursor-blink", !same(o.looks.cursor_blink.as_str(), "0"));
    push_shell(s, o.other.default_shell.as_str(), shell);
    push_quoted_option(s, "word-separators", o.other.word_separators.as_str());
    push_filled_option(s, "pane-border-style", o.looks.pane_border_style.as_str());
    push_filled_option(s, "pane-active-border-style", o.looks.pane_active_border_style.as_str());
    push_filled_option(s, "pane-border-hover-style", o.looks.pane_border_hover_style.as_str());
    push_filled_option(s, "status-style", o.looks.status_style.as_str());
    push_filled_option(s, "status-left-style", o.other.status_left_style.as_str());
    push_filled_option(s, "status-right-style", o.other.status_right_style.as_str());
    push_number_option(s, "status-interval", o.limits.status_interval);
}

fn push_part_five(s: &mut String, o: &Options)
    ensures
        final(s)@ == listed_part_five(old(s)@, *o),
{
    push_option(s, "status-justify", o.other.status_justify.as_str());
    push_quoted_option(s, "window-status-format", o.looks.window_status_format.as_str());
    push_quoted_option(s, "window-status-current-format", o.looks.window_status_current_format.as_str());
    push_filled_option(s, "window-status-style", o.other.window_status_style.as_str());
    push_filled_option(s, "window-status-current-style", o.other.window_status_current_style.as_str());
    push_filled_option(s, "window-status-activity-style", o.other.window_status_activity_style.as_str());
    push_filled_option(s, "message-style", o.other.message_style.as_str());
    push_filled_option(s, "message-command-style", o.other.message_command_style.as_str());
    push_filled_option(s, "mode-style", o.other.mode_style.as_str());
}

fn push_part_six(s: &mut String, o: &Options)
    ensures
        final(s)@ == listed_part_six(old(s)@, *o),
{
    push_number_option(s, "main-pane-width", o.limits.main_pane_width);
    push_number_option(s, "main-pane-height", o.limits.main_pane_height);
    push_number_option(s, "status-left-length", o.limits.status_left_length);
    push_number_option(s, "status-right-length", o.limits.status_right_length);
    push_option(s, "window-size", o.other.window_size.as_str());
    push_option(s, "allow-passthrough", o.other.allow_passthrough.as_str());
    push_option(s, "set-clipboard", o.other.set_clipboard.as_str());
    push_filled_option(s, "copy-command", o.other.copy_command.as_str());
    push_switch(s, "allow-rename", o.switches.allow_rename);
    push_switch(s, "allow-set-title", o.switches.allow_set_title);
}

fn push_part_seven(s: &mut String, o: &Options)
    ensures
        final(s)@ == listed_part_seven(old(s)@, *o),
{
    push_option(s, "bell-action", o.other.bell_action.as_str());
    push_option(s, "activity-action", o.other.activity_action.as_str());
    push_option(s, "silence-action", o.other.silence_action.as_str());
}

/// Lists all options. `shell` is the shell that was found where none was set.
pub fn show_options(o: &Options, shell: &Option<String>) -> (s: String)
    ensures
        s@ == options_text(*o, opt_text(*shell)),
{
    let mut s = String::new();
    push_prefixes(&mut s, o);
    push_part_one(&mut s, o);
    push_part_two(&mut s, o);
    push_part_three(&mut s, o);
    push_part_four(&mut s, o, shell);
    push_part_five(&mut s, o);
    push_entries(&mut s, &o.user.entries);
    push_part_six(&mut s, o);
    push_part_seven(&mut s, o);
    let environment = join(&o.other.update_environment, " ");
    push_quoted_option(&mut s, "update-environment", environment.as_str());
    if let Some(g) = &o.other.session_group {
        push_quoted_option(&mut s, "session-group", g.as_str());
    }
    push_aliases(&mut s, &o.command_aliases.entries);
    s
}

/// The switches once an option has its default value again.
pub open spec fn switches_reset(s: Switches, option: Seq<char>) -> Switches {
    if option == "mouse"@ {
        Switches { mouse_enabled: true, ..s }
    } else if option == "scroll-enter-copy-mode"@ {
        Switches { scroll_enter_copy_mode: true, ..s }
    } else if option == "pwsh-mouse-selection"@ {
        Switches { pwsh_mouse_selection: false, ..s }
    } else if option == "mouse-selection"@ {
        Switches { mouse_selection: true, ..s }
    } else if option == "paste-detection"@ {
        Switches { paste_detection: true, ..s }
    } else if option == "choose-tree-preview"@ {
        Switches { choose_tree_preview: false, ..s }
    } else if option == "alternate-screen"@ {
        Switches { allow_alternate_screen: true, ..s }
    } else if option == "status"@ {
        Switches { status_visible: true, ..s }
    } else if option == "renumber-windows"@ {
        Switches { renumber_windows: false, ..s }
    } else if option == "remain-on-exit"@ {
        Switches { remain_on_exit: false, ..s }
    } else if option == "destroy-unattached"@ {
        Switches { destroy_unattached: false, ..s }
    } else if option == "exit-empty"@ {
        Switches { exit_empty: true, ..s }
    } else if option == "automatic-rename"@ {
        Switches { automatic_rename: true, ..s }
    } else {
        s
    }
}

/// The numbers once an option has its default value again.
pub open spec fn limits_reset(l: Limits, option: Seq<char>) -> Limits {
    if option == "escape-time"@ {
        Limits { escape_time_ms: 500, ..l }
    } else if option == "history-limit"@ {
        Limits { history_limit: 2000, ..l }
    } else if option == "display-time"@ {
        Limits { display_time_ms: 750, ..l }
    } else {
        l
    }
}

/// Whether only one text changed, and to its default value; or none, where the option
/// is no such text.
pub open spec fn looks_reset(old: Looks, new: Looks, option: Seq<char>) -> bool {
    if option == "status-left"@ {
        new == (Looks { status_left: new.status_left, ..old }) && new.status_left@ == "psmux:#I"@
    } else if option == "status-right"@ {
        new == (Looks { status_right: new.status_right, ..old }) && new.status_right@ == "#{?window_bigger,[#{window_offset_x}#,#{window_offset_y}] ,}\"#{=21:pane_title}\" %H:%M %d-%b-%y"@
    } else if option == "mode-keys"@ {
        new == (Looks { mode_keys: new.mode_keys, ..old }) && new.mode_keys@ == "emacs"@
    } else if option == "status-position"@ {
        new == (Looks { status_position: new.status_position, ..old }) && new.status_position@ == "bottom"@
    } else if option == "status-style"@ {
        new == (Looks { status_style: new.status_style, ..old }) && new.status_style@ == ""@
    } else if option == "pane-border-style"@ {
        new == (Looks { pane_border_style: new.pane_border_style, ..old }) && new.pane_border_style@ == ""@
    } else if option == "pane-active-border-style"@ {
        new == (Looks { pane_active_border_style: new.pane_active_border_style, ..old }) && new.pane_active_border_style@ == "fg=green"@
    } else if option == "pane-border-hover-style"@ {
        new == (Looks { pane_border_hover_style: new.pane_border_hover_style, ..old }) && new.pane_border_hover_style@ == "fg=yellow"@
    } else if option == "window-status-format"@ {
        new == (Looks { window_status_format: new.window_status_format, ..old }) && new.window_status_format@ == "#I:#W#{?window_flags,#{window_flags}, }"@
    } else if option == "window-status-current-format"@ {
        new == (Looks { window_status_current_format: new.window_status_current_format, ..old }) && new.window_status_current_format@ == "#I:#W#{?window_flags,#{window_flags}, }"@
    } else if option == "window-status-separator"@ {
        new == (Looks { window_status_separator: new.window_status_separator, ..old }) && new.window_status_separator@ == " "@
    } else if option == "cursor-style"@ {
        new == (Looks { cursor_style: new.cursor_style, ..old }) && new.cursor_style@ == "bar"@
    } else if option == "cursor-blink"@ {
        new == (Looks { cursor_blink: new.cursor_blink, ..old }) && new.cursor_blink@ == "1"@
    } else {
        new == old
    }
}

/// Whether an option of built-in name got its default value, and nothing else changed. One
/// that has no default stays as it is.
pub open spec fn is_reset(old: Options, new: Options, option: Seq<char>) -> bool {
    &&& new == (Options {
        switches: switches_reset(old.switches, option),
        limits: limits_reset(old.limits, option),
        looks: new.looks,
        ..old
    })
    &&& looks_reset(old.looks, new.looks, option)
}

/// Whether only one text changed, by `value` at its end; or none, where the option takes
/// no appending.
pub open spec fn looks_longer(old: Looks, new: Looks, option: Seq<char>, value: Seq<char>) -> bool {
    if option == "status-left"@ {
        new == (Looks { status_left: new.status_left, ..old }) && new.status_left@ == old.status_left@ + value
    } else if option == "status-right"@ {
        new == (Looks { status_right: new.status_right, ..old }) && new.status_right@ == old.status_right@ + value
    } else if option == "status-style"@ {
        new == (Looks { status_style: new.status_style, ..old }) && new.status_style@ == old.status_style@ + value
    } else if option == "pane-border-style"@ {
        new == (Looks { pane_border_style: new.pane_border_style, ..old }) && new.pane_border_style@ == old.pane_border_style@ + value
    } else if option == "pane-active-border-style"@ {
        new == (Looks { pane_active_border_style: new.pane_active_border_style, ..old }) && new.pane_active_border_style@ == old.pane_active_border_style@ + value
    } else if option == "pane-border-hover-style"@ {
        new == (Looks { pane_border_hover_style: new.pane_border_hover_style, ..old }) && new.pane_border_hover_style@ == old.pane_border_hover_style@ + value
    } else if option == "window-status-format"@ {
        new == (Looks { window_status_format: new.window_status_format, ..old }) && new.window_status_format@ == old.window_status_format@ + value
    } else if option == "window-status-current-format"@ {
        new == (Looks { window_status_current_format: new.window_status_current_format, ..old }) && new.window_status_current_format@ == old.window_status_current_format@ + value
    } else {
        new == old
    }
}

/// Whether an option of built-in name grew by `value` at its end, and nothing else changed.
pub open spec fn is_longer(old: Options, new: Options, option: Seq<char>, value: Seq<char>) -> bool {
    &&& new == (Options { looks: new.looks, ..old })
    &&& looks_longer(old.looks, new.looks, option, value)
}

fn reset_switches(s: Switches, option: &str) -> (r: Switches)
    ensures
        r == switches_reset(s, option@),
{
    if same(option, "mouse") {
        Switches { mouse_enabled: true, ..s }
    } else if same(option, "scroll-enter-copy-mode") {
        Switches { scroll_enter_copy_mode: true, ..s }
    } else if same(option, "pwsh-mouse-selection") {
        Switches { pwsh_mouse_selection: false, ..s }
    } else if same(option, "mouse-selection") {
        Switches { mouse_selection: true, ..s }
    } else if same(option, "paste-detection") {
        Switches { paste_detection: true, ..s }
    } else if same(option, "choose-tree-preview") {
        Switches { choose_tree_preview: false, ..s }
    } else if same(option, "alternate-screen") {
        Switches { allow_alternate_screen: true, ..s }
    } else if same(option, "status") {
        Switches { status_visible: true, ..s }
    } else if same(option, "renumber-windows") {
        Switches { renumber_windows: false, ..s }
    } else if same(option, "remain-on-exit") {
        Switches { remain_on_exit: false, ..s }
    } else if same(option, "destroy-unattached") {
        Switches { destroy_unattached: false, ..s }
    } else if same(option, "exit-empty") {
        Switches { exit_empty: true, ..s }
    } else if same(option, "automatic-rename") {
        Switches { automatic_rename: true, ..s }
    } else {
        s
    }
}

fn reset_limits(l: &mut Limits, option: &str)
    ensures
        *final(l) == limits_reset(*old(l), option@),
{
    if same(option, "escape-time") {
        l.escape_time_ms = 500;
    } else if same(option, "history-limit") {
        l.history_limit = 2000;
    } else if same(option, "display-time") {
        l.display_time_ms = 750;
    }
}

fn reset_looks(l: &mut Looks, option: &str)
    ensures
        looks_reset(*old(l), *final(l), option@),
{
    if same(option, "status-left") {
        l.status_left = "psmux:#I".to_owned();
    } else if same(option, "status-right") {
        l.status_right = "#{?window_bigger,[#{window_offset_x}#,#{window_offset_y}] ,}\"#{=21:pane_title}\" %H:%M %d-%b-%y".to_owned();
    } else if same(option, "mode-keys") {
        l.mode_keys = "emacs".to_owned();
    } else if same(option, "status-position") {
        l.status_position = "bottom".to_owned();
    } else if same(option, "status-style") {
        l.status_style = "".to_owned();
    } else if same(option, "pane-border-style") {
        l.pane_border_style = "".to_owned();
    } else if same(option, "pane-active-border-style") {
        l.pane_active_border_style = "fg=green".to_owned();
    } else if same(option, "pane-border-hover-style") {
        l.pane_border_hover_style = "fg=yellow".to_owned();
    } else if same(option, "window-status-format") {
        l.window_status_format = "#I:#W#{?window_flags,#{window_flags}, }".to_owned();
    } else if same(option, "window-status-current-format") {
        l.window_status_current_format = "#I:#W#{?window_flags,#{window_flags}, }".to_owned();
    } else if same(option, "window-status-separator") {
        l.window_status_separator = " ".to_owned();
    } else if same(option, "cursor-style") {
        l.cursor_style = "bar".to_owned();
    } else if same(option, "cursor-blink") {
        l.cursor_blink = "1".to_owned();
    }
}

fn append_looks(l: &mut Looks, option: &str, value: &str)
    ensures
        looks_longer(*old(l), *final(l), option@, value@),
{
    if same(option, "status-left") {
        l.status_left.append(value);
    } else if same(option, "status-right") {
        l.status_right.append(value);
    } else if same(option, "status-style") {
        l.status_style.append(value);
    } else if same(option, "pane-border-style") {
        l.pane_border_style.append(value);
    } else if same(option, "pane-active-border-style") {
        l.pane_active_border_style.append(value);
    } else if same(option, "pane-border-hover-style") {
        l.pane_border_hover_style.append(value);
    } else if same(option, "window-status-format") {
        l.window_status_format.append(value);
    } else if same(option, "window-status-current-format") {
        l.window_status_current_format.append(value);
    }
}

/// Whether only one of the options that a plugin may append to changed, by `value` at
/// its end.
pub open spec fn is_longer_early(old: Options, new: Options, option: Seq<char>, value: Seq<char>) -> bool {
    if option == "status-left"@ || option == "status-right"@ || option == "status-style"@ {
        is_longer(old, new, option, value)
    } else {
        new == old
    }
}

/// Whether the name is one of the user's options.
pub open spec fn is_user_option(name: Seq<char>) -> bool {
    has_prefix(name, "@"@)
}

/// What an entry holds, or nothing where there is none.
pub open spec fn held(d: Dict<String>, name: Seq<char>) -> Seq<char> {
    if d.map().dom().contains(name) {
        d.map()[name]@
    } else {
        Seq::empty()
    }
}

/// Whether a user's option grew by `value` at its end, and nothing else changed.
pub open spec fn user_is_longer(old: Options, new: Options, option: Seq<char>, value: Seq<char>) -> bool {
    &&& new == (Options { user: new.user, ..old })
    &&& new.user.map() == old.user.map().insert(option, new.user.map()[option])
    &&& new.user.map()[option]@ == held(old.user, option) + value
}

/// Whether a user's option is gone, and nothing else changed.
pub open spec fn user_is_gone(old: Options, new: Options, option: Seq<char>) -> bool {
    &&& new == (Options { user: new.user, ..old })
    &&& new.user.map() == old.user.map().remove(option)
}

/// Whether an option counts as set.
pub open spec fn is_set(o: Options, option: Seq<char>) -> bool {
    if is_user_option(option) {
        o.user.map().dom().contains(option)
    } else {
        texts(o.explicit@).contains(option)
    }
}

/// Whether an option is remembered as set explicitly, and nothing else changed.
pub open spec fn is_remembered(old: Options, new: Options, option: Seq<char>) -> bool {
    &&& new == (Options { explicit: new.explicit, ..old })
    &&& texts(new.explicit@) == (if texts(old.explicit@).contains(option) {
        texts(old.explicit@)
    } else {
        texts(old.explicit@).push(option)
    })
}

/// What is left to do once an option was set.
#[derive(Clone, Copy, PartialEq, Eq, Structural, Debug)]
pub struct OptionWork {
    /// The value is to be applied.
    pub apply: bool,
    /// The pane that is kept ready is to follow the option.
    pub sync_warm_pane: bool,
    /// The aliases are to be handed to the connections.
    pub publish_aliases: bool,
    /// The panes are to be resized.
    pub resize_panes: bool,
    /// What clients show has changed.
    pub dirty: bool,
}

/// What is left to do once an option was set.
pub open spec fn work_of(option: Seq<char>, main_loop: bool, resizes: bool) -> OptionWork {
    OptionWork {
        apply: true,
        sync_warm_pane: main_loop && resizes,
        publish_aliases: option == "command-alias"@,
        resize_panes: resizes && option == "pane-border-status"@,
        dirty: main_loop,
    }
}

/// Nothing to do.
pub open spec fn no_work() -> OptionWork {
    OptionWork {
        apply: false,
        sync_warm_pane: false,
        publish_aliases: false,
        resize_panes: false,
        dirty: false,
    }
}

impl Options {
    /// Whether the dictionaries are well formed.
    pub open spec fn wf(self) -> bool {
        self.user.wf() && self.command_aliases.wf()
    }

    fn remember(&mut self, option: &str)
        ensures
            is_remembered(*old(self), *final(self), option@),
    {
        let mut i: usize = 0;
        while i < self.explicit.len()
            invariant
                i <= self.explicit.len(),
                forall|j: int| 0 <= j < i ==> (#[trigger] self.explicit@[j])@ != option@,
                *self == *old(self),
            decreases self.explicit.len() - i,
        {
            if same(self.explicit[i].as_str(), option) {
                assert(texts(self.explicit@)[i as int] == option@);
                return;
            }
            i += 1;
        }
        proof {
            if texts(self.explicit@).contains(option@) {
                let k = texts(self.explicit@).index_of(option@);
                assert(self.explicit@[k]@ == option@);
            }
        }
        self.explicit.push(option.to_owned());
        assert(texts(self.explicit@) =~= texts(old(self).explicit@).push(option@));
    }

    /// Whether an option counts as set: a user's option when it has a value, another
    /// one when it was set explicitly.
    pub fn is_set(&self, option: &str) -> (r: bool)
        requires
            self.wf(),
        ensures
            r == is_set(*self, option@),
    {
        if starts_with(option, "@") {
            return self.user.has(option);
        }
        let mut i: usize = 0;
        while i < self.explicit.len()
            invariant
                i <= self.explicit.len(),
                forall|j: int| 0 <= j < i ==> (#[trigger] self.explicit@[j])@ != option@,
                !is_user_option(option@),
            decreases self.explicit.len() - i,
        {
            if same(self.explicit[i].as_str(), option) {
                assert(texts(self.explicit@)[i as int] == option@);
                return true;
            }
            i += 1;
        }
        proof {
            if texts(self.explicit@).contains(option@) {
                let k = texts(self.explicit@).index_of(option@);
                assert(self.explicit@[k]@ == option@);
            }
        }
        false
    }

    /// Sets an option: its name is remembered, and what is left to do is handed back.
    /// `main_loop` tells whether the session runs already.
    pub fn set_option(&mut self, option: &str, main_loop: bool) -> (w: OptionWork)
        ensures
            is_remembered(*old(self), *final(self), option@),
            w == work_of(option@, main_loop, true),
    {
        self.remember(option);
        OptionWork {
            apply: true,
            sync_warm_pane: main_loop,
            publish_aliases: same(option, "command-alias"),
            resize_panes: same(option, "pane-border-status"),
            dirty: main_loop,
        }
    }

    /// Sets an option unless it is set already.
    pub fn set_if_unset(&mut self, option: &str, main_loop: bool) -> (w: OptionWork)
        requires
            old(self).wf(),
        ensures
            is_set(*old(self), option@) ==> *final(self) == *old(self) && w == no_work(),
            !is_set(*old(self), option@) ==> is_remembered(*old(self), *final(self), option@) && w
                == work_of(option@, main_loop, false),
    {
        if self.is_set(option) {
            return OptionWork {
                apply: false,
                sync_warm_pane: false,
                publish_aliases: false,
                resize_panes: false,
                dirty: false,
            };
        }
        self.remember(option);
        OptionWork {
            apply: true,
            sync_warm_pane: false,
            publish_aliases: same(option, "command-alias"),
            resize_panes: false,
            dirty: main_loop,
        }
    }

    fn append_user(&mut self, option: &str, value: &str)
        requires
            old(self).wf(),
        ensures
            final(self).wf(),
            user_is_longer(*old(self), *final(self), option@, value@),
    {
        let mut text = match self.user.get(option) {
            Some(v) => v.clone(),
            None => String::new(),
        };
        text.append(value);
        assert(text@ =~= held(self.user, option@) + value@);
        self.user.insert(option.to_owned(), text);
    }

    /// Unsets an option: a user's option goes, another one gets its default value.
    pub fn unset_option(&mut self, option: &str)
        requires
            old(self).wf(),
        ensures
            final(self).wf(),
            is_user_option(option@) ==> user_is_gone(*old(self), *final(self), option@),
            !is_user_option(option@) ==> is_reset(*old(self), *final(self), option@),
    {
        if starts_with(option, "@") {
            let _ = self.user.remove(option);
        } else {
            self.switches = reset_switches(self.switches, option);
            reset_limits(&mut self.limits, option);
            reset_looks(&mut self.looks, option);
        }
    }

    /// Appends to an option. One that takes no appending stays as it is.
    pub fn append_option(&mut self, option: &str, value: &str)
        requires
            old(self).wf(),
        ensures
            final(self).wf(),
            is_user_option(option@) ==> user_is_longer(*old(self), *final(self), option@, value@),
            !is_user_option(option@) ==> is_longer(*old(self), *final(self), option@, value@),
    {
        if starts_with(option, "@") {
            self.append_user(option, value);
            return;
        }
        append_looks(&mut self.looks, option, value);
    }

    /// Appends to an option before the session runs, as a plugin may: a user's option,
    /// or one of the texts of the status line.
    pub fn append_option_early(&mut self, option: &str, value: &str)
        requires
            old(self).wf(),
        ensures
            final(self).wf(),
            is_user_option(option@) ==> user_is_longer(*old(self), *final(self), option@, value@),
            !is_user_option(option@) ==> is_longer_early(*old(self), *final(self), option@, value@),
    {
        if starts_with(option, "@") {
            self.append_user(option, value);
        } else if same(option, "status-left") {
            self.looks.status_left.append(value);
        } else if same(option, "status-right") {
            self.looks.status_right.append(value);
        } else if same(option, "status-style") {
            self.looks.status_style.append(value);
        }
    }
}

/// An option that was appended to twice holds both texts, one behind the other.
pub proof fn appending_twice_joins(a: Options, b: Options, c: Options, option: Seq<char>, v: Seq<char>, w: Seq<char>)
    requires
        is_user_option(option),
        user_is_longer(a, b, option, v),
        user_is_longer(b, c, option, w),
    ensures
        held(c.user, option) == held(a.user, option) + v + w,
{
}

/// An option that was set counts as set from then on, so setting it where it is unset
/// does nothing more.
pub proof fn set_option_is_set(old: Options, new: Options, option: Seq<char>)
    requires
        !is_user_option(option),
        is_remembered(old, new, option),
    ensures
        is_set(new, option),
{
    if !texts(old.explicit@).contains(option) {
        assert(texts(old.explicit@).push(option).last() == option);
        assert(texts(new.explicit@)[texts(old.explicit@).len() as int] == option);
    }
}

} // verus!
