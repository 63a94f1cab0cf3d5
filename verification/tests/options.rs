use psmux::dict::Dict;
use psmux::server::frame::{build_frame, finish_frame, FrameParts, OneShot};
use psmux::server::key_tables::{Key, KeyTables};
use psmux::server::options::{show_options, Limits, Looks, Options, OtherTexts, Switches};
use psmux::server::plugins::{PluginReq, PluginState, PluginWork};

fn some(s: &str) -> Option<String> {
    Some(s.to_string())
}

fn switches() -> Switches {
    Switches {
        mouse_enabled: false,
        scroll_enter_copy_mode: false,
        pwsh_mouse_selection: false,
        mouse_selection: false,
        paste_detection: false,
        choose_tree_preview: false,
        status_visible: false,
        focus_events: false,
        renumber_windows: false,
        automatic_rename: false,
        monitor_activity: false,
        sync_input: false,
        remain_on_exit: false,
        destroy_unattached: false,
        exit_empty: false,
        set_titles: false,
        prediction_dimming: false,
        allow_predictions: false,
        allow_rename: false,
        allow_set_title: false,
        allow_alternate_screen: false,
    }
}

fn limits() -> Limits {
    Limits {
        window_base_index: 0,
        pane_base_index: 0,
        escape_time_ms: 0,
        history_limit: 0,
        display_time_ms: 0,
        display_panes_time_ms: 0,
        status_interval: 0,
        main_pane_width: 0,
        main_pane_height: 0,
        status_left_length: 0,
        status_right_length: 0,
    }
}

fn looks() -> Looks {
    Looks {
        status_position: String::new(),
        status_left: String::new(),
        status_right: String::new(),
        mode_keys: String::new(),
        cursor_style: String::new(),
        cursor_blink: String::new(),
        pane_border_style: String::new(),
        pane_active_border_style: String::new(),
        pane_border_hover_style: String::new(),
        status_style: String::new(),
        window_status_format: String::new(),
        window_status_current_format: String::new(),
        window_status_separator: String::new(),
    }
}

fn other() -> OtherTexts {
    OtherTexts {
        set_titles_string: String::new(),
        default_shell: String::new(),
        word_separators: String::new(),
        status_left_style: String::new(),
        status_right_style: String::new(),
        status_justify: String::new(),
        window_status_style: String::new(),
        window_status_current_style: String::new(),
        window_status_activity_style: String::new(),
        message_style: String::new(),
        message_command_style: String::new(),
        mode_style: String::new(),
        window_size: String::new(),
        allow_passthrough: String::new(),
        set_clipboard: String::new(),
        copy_command: String::new(),
        bell_action: String::new(),
        activity_action: String::new(),
        silence_action: String::new(),
        update_environment: Vec::new(),
        session_group: None,
    }
}

fn options() -> Options {
    Options {
        prefix: "C-b".to_string(),
        prefix2: None,
        switches: switches(),
        limits: limits(),
        looks: looks(),
        other: other(),
        command_aliases: Dict::new(),
        user: Dict::new(),
        explicit: Vec::new(),
    }
}

#[test]
fn options_are_listed() {
    let mut o = options();
    o.switches.mouse_enabled = true;
    o.limits.history_limit = 2000;
    o.looks.status_left = "[#S]".to_string();
    o.looks.cursor_style = "bar".to_string();
    o.looks.cursor_blink = "1".to_string();
    o.other.update_environment = vec!["A".to_string(), "B".to_string()];
    o.user.insert("@theme".to_string(), "dark".to_string());
    o.command_aliases.insert("ll".to_string(), "list-sessions".to_string());
    let text = show_options(&o, &None);
    assert!(text.starts_with("prefix C-b\nbase-index 0\npane-base-index 0\nescape-time 0\nmouse on\n"));
    assert!(text.contains("\nstatus-left \"[#S]\"\n"));
    assert!(text.contains("\nhistory-limit 2000\n"));
    assert!(text.contains("\ncursor-style bar\ncursor-blink on\ndefault-shell pwsh.exe\n"));
    assert!(!text.contains("pane-border-style"));
    assert!(text.contains("\n@theme \"dark\"\nmain-pane-width 0\n"));
    assert!(text.contains("\nupdate-environment \"A B\"\n"));
    assert!(text.ends_with("command-alias \"ll=list-sessions\"\n"));
    assert!(show_options(&o, &some("zsh")).contains("\ndefault-shell zsh\n"));
    assert!(!text.contains("prefix2"));
    o.prefix2 = some("C-a");
    assert!(show_options(&o, &None).starts_with("prefix C-b\nprefix2 C-a\n"));
}

#[test]
fn options_get_their_defaults_back() {
    let mut o = options();
    o.unset_option("escape-time");
    assert_eq!(o.limits.escape_time_ms, 500);
    o.unset_option("mouse");
    assert!(o.switches.mouse_enabled);
    o.unset_option("pane-active-border-style");
    assert_eq!(o.looks.pane_active_border_style, "fg=green");
    o.unset_option("window-status-separator");
    assert_eq!(o.looks.window_status_separator, " ");
    o.user.insert("@x".to_string(), "1".to_string());
    o.unset_option("@x");
    assert!(!o.user.has("@x"));
}

#[test]
fn options_are_appended_to() {
    let mut o = options();
    o.append_option("status-left", "a");
    o.append_option("status-left", "b");
    assert_eq!(o.looks.status_left, "ab");
    o.append_option("@x", "1");
    o.append_option("@x", "2");
    assert_eq!(o.user.get("@x"), Some(&"12".to_string()));
    o.append_option("mode-keys", "vi");
    assert_eq!(o.looks.mode_keys, "");
    o.append_option_early("pane-border-style", "x");
    assert_eq!(o.looks.pane_border_style, "");
    o.append_option("pane-border-style", "x");
    assert_eq!(o.looks.pane_border_style, "x");
}

#[test]
fn options_that_were_set_stay() {
    let mut o = options();
    let w = o.set_option("command-alias", true);
    assert!(w.apply && w.publish_aliases && w.sync_warm_pane && !w.resize_panes && w.dirty);
    assert!(o.set_option("pane-border-status", false).resize_panes);
    assert!(o.is_set("command-alias"));
    assert!(!o.set_if_unset("command-alias", true).apply);
    let w = o.set_if_unset("status", true);
    assert!(w.apply && !w.sync_warm_pane);
    assert!(o.is_set("status"));
    assert!(!o.is_set("@x"));
}

#[test]
fn plugins_are_answered_while_a_session_starts() {
    let mut p = PluginState { options: options(), keys: KeyTables::new() };
    let key = Some(Key { code: 1, modifiers: 0 });
    let bind = PluginReq::BindKey {
        table: "prefix".to_string(),
        key,
        parts: Vec::new(),
        command: some("kill-pane"),
        repeat: false,
    };
    assert!(matches!(p.drain_plugin_req(bind), PluginWork::Nothing));
    assert_eq!(p.keys.tables.get("prefix").unwrap().len(), 1);
    assert!(matches!(
        p.drain_plugin_req(PluginReq::SetOption { option: "status".to_string() }),
        PluginWork::Option(w) if w.apply && !w.dirty
    ));
    assert!(matches!(
        p.drain_plugin_req(PluginReq::SetIfUnset { option: "status".to_string() }),
        PluginWork::Option(w) if !w.apply
    ));
    p.drain_plugin_req(PluginReq::AppendOption { option: "@x".to_string(), value: "1".to_string() });
    assert!(p.options.is_set("@x"));
    p.drain_plugin_req(PluginReq::UnsetOption { option: "@x".to_string() });
    assert!(!p.options.is_set("@x"));
    p.options.looks.mode_keys = "vi".to_string();
    p.drain_plugin_req(PluginReq::UnsetOption { option: "mode-keys".to_string() });
    assert_eq!(p.options.looks.mode_keys, "vi");
    assert!(matches!(p.drain_plugin_req(PluginReq::ShowOptions), PluginWork::AnswerNothing));
    assert!(matches!(
        p.drain_plugin_req(PluginReq::ShowOption { name: "x".to_string() }),
        PluginWork::AnswerOption { name } if name == "x"
    ));
    p.drain_plugin_req(PluginReq::UnbindKey { key, in_table: None });
    assert!(p.keys.tables.get("prefix").unwrap().is_empty());
    p.drain_plugin_req(PluginReq::UnbindAll);
    assert!(p.keys.defaults_suppressed);
    assert!(matches!(
        p.drain_plugin_req(PluginReq::SourceFile { path: "f".to_string() }),
        PluginWork::ReadFile { path } if path == "f"
    ));
    assert!(!p.keys.defaults_suppressed);
    assert!(matches!(p.drain_plugin_req(PluginReq::Other), PluginWork::Nothing));
}

fn parts() -> FrameParts {
    FrameParts {
        layout: "[]".to_string(),
        windows: "[]".to_string(),
        prefix: String::new(),
        prefix2: String::new(),
        tree: "[]".to_string(),
        base_index: 0,
        pane_base_index: 0,
        prediction_dimming: false,
        status_style: String::new(),
        status_left: String::new(),
        status_right: String::new(),
        pane_border_style: String::new(),
        pane_active_border_style: String::new(),
        pane_border_hover_style: String::new(),
        window_status_format: String::new(),
        window_status_current_format: String::new(),
        window_status_separator: String::new(),
        window_status_style: String::new(),
        window_status_current_style: String::new(),
        clock_mode: false,
        bindings: "[]".to_string(),
        status_left_length: 0,
        status_right_length: 0,
        status_lines: 0,
        status_format: Vec::new(),
        mode_style: String::new(),
        status_position: String::new(),
        status_justify: String::new(),
        cursor_style_code: 0,
        status_visible: false,
        repeat_time: 0,
        zoomed: false,
        defaults_suppressed: false,
        pwsh_mouse_selection: false,
        mouse_selection: false,
        paste_detection: false,
        choose_tree_preview: false,
        scroll_enter_copy_mode: false,
        clock_colour: None,
        pane_border_status: None,
        pane_border_format: None,
        host_title: None,
        host_progress: None,
        overlay: String::new(),
    }
}

#[test]
fn frames_are_objects_with_members() {
    let mut p = parts();
    p.status_left = "left".to_string();
    p.host_progress = Some((1, 50));
    p.overlay = ",\"popup\":true".to_string();
    let frame = build_frame(&p, true);
    assert!(frame.starts_with("{\"layout\":[],\"windows\":[],\"prefix\":\"\","));
    assert!(frame.contains("\"status_left\":\"left\""));
    assert!(frame.contains("\"host_progress\":\"1;50\""));
    assert!(frame.ends_with(",\"popup\":true}"));
}

#[test]
fn bells_ring_once() {
    let p = parts();
    let mut once = OneShot { clipboard: some("QUJD"), bell: true };
    let (sent, kept) = finish_frame(&p, true, &mut once);
    assert!(kept.ends_with(",\"clipboard_osc52\":\"QUJD\"}"));
    assert!(sent.ends_with(",\"bell\":true}"));
    assert!(once.clipboard.is_none() && !once.bell);
    let (sent, kept) = finish_frame(&p, true, &mut once);
    assert_eq!(kept, sent);
}
