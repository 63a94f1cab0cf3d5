use psmux::dict::Dict;
use psmux::server::buffers::Buffers;
use psmux::server::clients::{compute_effective_client_size, size_policy, tty_of, ClientSize, Clients, SizePolicy};
use psmux::server::control_clients::{
    control_client_resize, exit_notification, gone_client_name, notification_of, reap_notes, ControlClient, Notification, ReapNote, WindowState,
};
use psmux::server::copy_commands::{
    copy_command, pipe_program_of, CopyMode, CopyState, CopyStep, Place, SelectionMode,
};
use psmux::server::customize::{Customize, OptionRow};
use psmux::server::environment::{
    refresh_variable, show_environment, variable_to_refresh, wait_for, Hooks, WaitChannel, WaitOp,
};
use psmux::server::frame::{serialize_overlay_json, title_format, unchanged, StatusMessage};
use psmux::server::key_tables::{action_from, BoundAction, Key, KeyTables};
use psmux::server::main_loop::{
    automatic_name, mutates_state, order_requests, overlay_times_out, poll_timeout, restores_focus,
    session_ends, status_interval_due, NameSource, TimedOverlay,
};
use psmux::server::overlays::{
    confirm_prompt, confirm_respond, display_popup, overlay_close, popup_input, prompt_history, Menu, MenuItem, PopupAction,
    ScreenMode,
};
use psmux::server::pane_focus::{
    directed_move, forget_pane, join_windows, pane_choice, resolve_pane, DirectedMove, PaneChoice, PaneFocus,
};
use psmux::server::pane_tree::{close_pane, split_pane};
use psmux::server::panes::{collect_panes, list_all_panes, list_panes, Node, Pane, PaneTitle};
use psmux::server::plugins::{plugin_command, wait_for_plugins, PluginWait};
use psmux::server::request_effects::{effects, event_name, Event, Request};
use psmux::server::requests::{
    focus_sequence, link_failed_message, pipe_pane, send_prefix, source_file, unavailable_message, SourcePlan,
};
use psmux::server::send_keys::{
    control_char_of, control_char_upper, copy_key_name, copy_mode_key, copy_mode_key_upper, is_key_name, key_sequence, send_key, send_key_upper,
    send_keys, CopyKey, KeyLookup,
};
use psmux::server::session::{
    cd_command, is_active_pane_squelched, rename_session, server_info, session_info, session_info_line,
    should_spawn_warm_server, spawn_warm_server, starts_pane_early,
};
use psmux::server::sizes::{
    inside_frame, pane_width, parse_popup_dim, resize_percent, resize_step, split_sizes, text_popup_size, ResizeStep,
};
use psmux::server::startup_log::{measure_environment, write_startup_error_log, EnvVar, StartupFailure};
use psmux::server::switch_client::{switch_client, Switch};
use psmux::server::windows::{TempFocus, Window, Windows};

fn strings(v: &[&str]) -> Vec<String> {
    v.iter().map(|s| s.to_string()).collect()
}

fn some(s: &str) -> Option<String> {
    Some(s.to_string())
}

fn window(id: usize, name: &str) -> Window {
    Window {
        id,
        name: name.to_string(),
        manual_rename: false,
        activity: false,
        bell: false,
        silence: false,
        linked_from: None,
    }
}

fn three_windows() -> Windows {
    Windows {
        list: vec![window(1, "one"), window(2, "two"), window(3, "three")],
        active: 0,
        last: 0,
        base_index: 1,
    }
}

fn names(w: &Windows) -> Vec<String> {
    w.list.iter().map(|x| x.name.clone()).collect()
}

fn leaf(id: usize) -> Node {
    Node::Leaf(Pane { id, cols: 80, rows: 24 })
}

fn tree() -> Node {
    Node::Split(vec![leaf(5), Node::Split(vec![leaf(6), leaf(7)])])
}

#[test]
fn windows_are_selected_and_cycled() {
    let mut w = three_windows();
    assert!(w.select_window(3));
    assert_eq!((w.active, w.last), (2, 0));
    assert!(w.next_window());
    assert_eq!(w.active, 0);
    assert!(w.previous_window());
    assert_eq!(w.active, 2);
    w.select_window(0);
    assert_eq!(w.active, 2);
    assert!(w.focus_window_by_name("two"));
    assert_eq!(w.active, 1);
    assert!(w.focus_window_by_id(3));
    assert_eq!(w.active, 2);
    assert_eq!(w.position_by_number(2), Some(1));
    assert_eq!(w.position_by_number(0), None);
}

#[test]
fn windows_are_moved_and_swapped() {
    let mut w = three_windows();
    w.swap_window(2);
    assert_eq!(names(&w), strings(&["three", "two", "one"]));
    assert_eq!(w.active, 0);
    w.swap_window(2);
    assert_eq!(names(&w), strings(&["one", "two", "three"]));
    w.swap_window(3);
    assert_eq!(names(&w), strings(&["one", "two", "three"]));
    let mut m = three_windows();
    m.move_window(Some(2));
    assert_eq!(names(&m), strings(&["two", "one", "three"]));
    assert_eq!(m.active, 1);
    m.move_window(Some(9));
    assert_eq!(names(&m), strings(&["two", "one", "three"]));
}

#[test]
fn renamed_windows_keep_their_names() {
    let mut w = three_windows();
    w.rename_window("mine".to_string());
    assert_eq!(w.list[0].name, "mine");
    assert!(w.list[0].manual_rename);
    let killed = w.kill_window().unwrap();
    assert_eq!(killed.name, "mine");
    assert_eq!(w.list.len(), 2);
}

#[test]
fn lent_focus_goes_back() {
    let mut w = three_windows();
    let mut t = TempFocus { saved: None };
    t.save(w.active, Some(9));
    w.focus_temporarily(Some(2));
    assert_eq!(w.active, 2);
    assert_eq!(t.restore(&mut w, true), None);
    assert_eq!(w.active, 2);
    assert_eq!(t.restore(&mut w, false), Some(9));
    assert_eq!(w.active, 0);
}

#[test]
fn sizes_of_clients_are_agreed_on() {
    let sizes = vec![
        ClientSize { id: 1, width: 100, height: 30 },
        ClientSize { id: 2, width: 80, height: 50 },
    ];
    assert_eq!(compute_effective_client_size(&sizes, SizePolicy::Smallest, None), Some((80, 30)));
    assert_eq!(compute_effective_client_size(&sizes, SizePolicy::Largest, None), Some((100, 50)));
    assert_eq!(compute_effective_client_size(&sizes, SizePolicy::Latest, Some(2)), Some((80, 50)));
    assert_eq!(compute_effective_client_size(&sizes, SizePolicy::Latest, Some(9)), Some((80, 30)));
    assert_eq!(compute_effective_client_size(&vec![], SizePolicy::Latest, None), None);
    assert_eq!(size_policy("smallest"), SizePolicy::Smallest);
    assert_eq!(size_policy("anything"), SizePolicy::Latest);
    assert_eq!(tty_of(4), "/dev/pts/4");
}

#[test]
fn clients_attach_and_detach() {
    let mut c = Clients::new(120, 30);
    c.attach(4, 1000);
    assert_eq!((c.attached, c.latest), (1, Some(4)));
    c.resize(4, 90, 20, SizePolicy::Latest, 2000);
    assert_eq!(c.area, (90, 20));
    let text = c.list_clients("main", "pwsh", 5000);
    assert_eq!(text, "/dev/pts/4: main: pwsh [90x20] (utf8) [activity=3s ago]\n");
    let format = c.list_clients_format("#{client_tty} #{client_width} #{client_control_mode}", "main", 5000);
    assert_eq!(format, "/dev/pts/4 90 0\n");
    let d = c.detach(4, SizePolicy::Latest, true);
    assert!(d.destroy);
    assert!(c.registry.is_empty());
    assert_eq!(c.list_clients("main", "pwsh", 0), "/dev/pts/0: main: pwsh [90x20] (utf8)\n");
}

#[test]
fn control_clients_are_registered_as_such() {
    let mut c = Clients::new(120, 30);
    c.register_control(7, 0);
    assert_eq!(c.list_clients("s", "w", 0), "/dev/pts/7: s: w [120x30] (utf8) (control mode) [activity=0s ago]\n");
    assert_eq!(c.attached, 1);
    c.deregister_control(7);
    assert_eq!(c.attached, 0);
    assert!(c.registry.is_empty());
}

#[test]
fn output_of_a_slow_client_is_held_back() {
    let mut c = ControlClient::new(1, true);
    assert!(matches!(c.deliver(3, "a".to_string(), 0), Some(Notification::Output { pane: 3, .. })));
    c.set_pause_after(Some(2));
    match c.deliver(3, "b".to_string(), 100) {
        Some(Notification::ExtendedOutput { pane, age_ms, data }) => assert_eq!((pane, age_ms, data.as_str()), (3, 0, "b")),
        _ => panic!("no output"),
    }
    assert!(matches!(c.deliver(3, "c".to_string(), 2100), Some(Notification::Pause { pane: 3 })));
    assert!(c.deliver(3, "d".to_string(), 2200).is_none());
    assert!(matches!(c.deliver(4, "e".to_string(), 2200), Some(Notification::ExtendedOutput { pane: 4, .. })));
    assert!(matches!(c.continue_pane(3), Some(Notification::Continue { pane: 3 })));
    assert!(c.continue_pane(3).is_none());
    assert!(c.deliver(3, "f".to_string(), 2300).is_some());
    c.set_pause_after(None);
    assert!(matches!(c.deliver(3, "g".to_string(), 99999), Some(Notification::Output { .. })));
}

#[test]
fn subscriptions_are_looked_at_once_a_second() {
    let mut c = ControlClient::new(1, false);
    c.subscribe("title".to_string(), "%1".to_string(), "#{pane_title}".to_string());
    assert_eq!(c.check_subscriptions(5000), vec![("title".to_string(), "#{pane_title}".to_string())]);
    assert!(c.check_subscriptions(5999).is_empty());
    assert_eq!(c.check_subscriptions(6000).len(), 1);
    assert!(c.take_value("title", "vim"));
    assert!(!c.take_value("title", "vim"));
    assert!(c.take_value("title", "less"));
    c.unsubscribe("title");
    assert!(c.check_subscriptions(9000).is_empty());
}

#[test]
fn events_are_told_to_control_clients() {
    let note = |e: &str| notification_of(e, 0, 2, 5, "w".to_string(), "s".to_string(), "L".to_string());
    assert!(matches!(note("after-new-window"), Some(Notification::WindowAdd { window: 2 })));
    assert!(matches!(note("window-unlinked"), Some(Notification::WindowClose { window: 2 })));
    assert!(matches!(note("after-select-pane"), Some(Notification::WindowPaneChanged { window: 2, pane: 5 })));
    assert!(matches!(note("after-swap-pane"), Some(Notification::LayoutChange { window: 2, .. })));
    assert!(matches!(note("client-detached"), Some(Notification::ClientDetached { id: None })));
    assert!(note("pane-focus-in").is_none());
    assert_eq!(gone_client_name(Some(3)), "/dev/pts/3");
    assert_eq!(gone_client_name(None), "client");
}

#[test]
fn dead_panes_are_told() {
    let before = vec![
        WindowState { id: 1, active: Some(5), panes: 2 },
        WindowState { id: 2, active: Some(6), panes: 1 },
    ];
    let after = vec![WindowState { id: 1, active: Some(7), panes: 1 }];
    assert_eq!(
        reap_notes(&before, &after, Some(2), Some(1)),
        vec![
            ReapNote::LayoutChanged { window: 1 },
            ReapNote::PaneChanged { window: 1, pane: 7 },
            ReapNote::Closed { window: 2 },
            ReapNote::WindowChanged { window: 1 },
        ]
    );
    assert!(reap_notes(&before, &before, Some(2), Some(2)).is_empty());
    assert_eq!(control_client_resize(80, 24, (100, 30)), Some((80, 24)));
    assert_eq!(control_client_resize(80, 24, (80, 24)), None);
    assert_eq!(control_client_resize(0, 24, (80, 24)), None);
}

#[test]
fn buffers_are_stacked() {
    let mut b = Buffers::new();
    for i in 0..12 {
        b.set_buffer(format!("text {}", i));
    }
    assert_eq!(b.stack.len(), 10);
    assert_eq!(b.show_buffer(0), "text 11");
    assert_eq!(b.show_buffer(1), "text 10");
    assert_eq!(b.show_buffer(10), "");
    assert_eq!(b.paste_buffer(9), some("text 2"));
    assert_eq!(b.paste_buffer(10), None);
    b.delete_buffer(0);
    assert_eq!(b.show_buffer(0), "text 10");
    b.append_buffers();
    assert_eq!(b.show_buffer(0), "text 9text 10");
}

#[test]
fn buffers_are_listed_by_name() {
    let mut b = Buffers::new();
    b.set_buffer("é\nx".to_string());
    b.set_named_buffer("zeta".to_string(), "z".to_string());
    b.set_named_buffer("alpha".to_string(), "y".repeat(60));
    let fifty = "y".repeat(50);
    assert_eq!(
        b.list_buffers(false),
        format!("buffer0: 4 bytes: \"é\nx\"\nalpha: 60 bytes: \"{}\"\nzeta: 1 bytes: \"z\"\n", fifty)
    );
    assert!(b.list_buffers(true).starts_with("buffer0: 4 bytes: \"é\\nx\"\n"));
    assert_eq!(b.sorted_names(), strings(&["alpha", "zeta"]));
    assert_eq!(b.show_named_buffer("zeta"), "z");
    b.delete_named_buffer("zeta");
    assert_eq!(b.show_named_buffer("zeta"), "");
}

#[test]
fn keys_are_bound_once() {
    let k = Key { code: 99, modifiers: 2 };
    let mut t = KeyTables::new();
    t.bind_key("prefix".to_string(), Some(k), action_from(vec![], some("new-window")), false);
    t.bind_key("prefix".to_string(), Some(k), action_from(strings(&["a", "b"]), None), true);
    let binds = t.tables.get("prefix").unwrap();
    assert_eq!(binds.len(), 1);
    assert!(binds[0].repeat);
    assert!(matches!(&binds[0].action, BoundAction::Chain(c) if c.len() == 2));
    t.bind_key("prefix".to_string(), None, action_from(vec![], some("x")), false);
    t.bind_key("prefix".to_string(), Some(k), action_from(vec![], None), false);
    assert_eq!(t.tables.get("prefix").unwrap().len(), 1);
    t.unbind_key(Some(k), None);
    assert!(t.tables.get("prefix").unwrap().is_empty());
    t.unbind_key(Some(k), some("nowhere"));
    assert!(!t.tables.has("nowhere"));
    t.unbind_all();
    assert!(t.defaults_suppressed && !t.tables.has("prefix"));
    t.start_over();
    assert!(!t.defaults_suppressed);
}

#[test]
fn panes_are_listed_from_the_first() {
    let root = tree();
    let ids: Vec<usize> = collect_panes(&root).iter().map(|l| l.pane.id).collect();
    assert_eq!(ids, vec![5, 6, 7]);
    assert_eq!(collect_panes(&root)[2].path, vec![1, 1]);
    assert_eq!(
        list_panes(&root, 1, 2000, Some(6)),
        "1: [80x24] [history 2000/2000, 0 bytes] %5\n2: [80x24] [history 2000/2000, 0 bytes] %6 (active)\n3: [80x24] [history 2000/2000, 0 bytes] %7\n"
    );
    assert_eq!(
        list_all_panes("main", 1, &vec![leaf(1), leaf(9)]),
        "main:1: %1 [80x24]\nmain:2: %9 [80x24]\n"
    );
}

#[test]
fn focus_cycles_through_the_panes() {
    let root = tree();
    let mut f = PaneFocus { active: vec![0], last: vec![], marked: None };
    assert!(!f.select_last());
    assert!(f.cycle(&root, false));
    assert_eq!(f.active, vec![1, 1]);
    assert!(f.cycle(&root, true));
    assert_eq!(f.active, vec![0]);
    assert_eq!(f.last, vec![1, 1]);
    assert!(f.select_last());
    assert_eq!(f.active, vec![1, 1]);
    f.last_pane(false);
    assert_eq!(f.active, vec![1, 0]);
    f.select_digit(&root, 1, 3);
    assert_eq!((f.active.clone(), f.last.clone()), (vec![1, 1], vec![1, 0]));
    f.select_digit(&root, 1, 8);
    assert_eq!(f.active, vec![1, 1]);
    f.mark(0, Some(7));
    assert_eq!(f.marked, Some((0, 7)));
    f.unmark();
    assert_eq!(f.marked, None);
    f.moved_to(vec![0], false);
    assert_eq!(f.last, vec![1, 1]);
    f.after_detached_split(&vec![0]);
    assert_eq!(f.active, vec![0, 0]);
    let mut lost = PaneFocus { active: vec![9], last: vec![], marked: None };
    assert!(!lost.cycle(&root, true));
    assert_eq!(lost.active, vec![9]);
}

#[test]
fn panes_are_found_by_number() {
    assert_eq!(resolve_pane(&tree(), Some(1), &vec![0]), vec![1, 0]);
    assert_eq!(resolve_pane(&tree(), Some(9), &vec![0]), vec![0]);
    assert_eq!(resolve_pane(&tree(), None, &vec![0]), vec![0]);
    assert_eq!(join_windows(Some(1), None, 0, 2), Some((1, 0)));
    assert_eq!(join_windows(None, None, 0, 2), None);
    assert_eq!(join_windows(Some(5), None, 0, 2), None);
    assert_eq!(forget_pane(&vec![3, 5, 3, 6], 3), vec![5, 6]);
    assert_eq!(pane_choice("L"), PaneChoice::Left);
    assert_eq!(pane_choice("prev"), PaneChoice::Previous);
    assert_eq!(pane_choice("x"), PaneChoice::Nothing);
    assert_eq!(directed_move(true, true, false), DirectedMove::KeepZoom);
    assert_eq!(directed_move(false, true, false), DirectedMove::ZoomAgain);
    assert_eq!(directed_move(false, true, true), DirectedMove::Move);
}

#[test]
fn sizes_are_cells_or_percent() {
    assert_eq!(parse_popup_dim("80", 200, 10), 80);
    assert_eq!(parse_popup_dim("50%", 121, 10), 60);
    assert_eq!(parse_popup_dim("300%", 121, 10), 121);
    assert_eq!(parse_popup_dim("x%", 121, 10), 10);
    assert_eq!(parse_popup_dim("", 121, 10), 10);
    assert_eq!(split_sizes(30, true, 0), (70, 30));
    assert_eq!(split_sizes(150, true, 0), (1, 99));
    assert_eq!(split_sizes(20, false, 80), (75, 25));
    assert_eq!(split_sizes(20, false, 0), (50, 50));
    assert_eq!(resize_percent("x", 50, 81, 24), 40);
    assert_eq!(resize_percent("y", 0, 81, 24), 1);
    assert_eq!(resize_step("U", 5), ResizeStep::Vertical { amount: -5 });
    assert_eq!(resize_step("R", 5), ResizeStep::Horizontal { amount: 5 });
    assert_eq!(resize_step("x", 5), ResizeStep::Nothing);
    assert_eq!(resize_step("D", 0x8000), ResizeStep::Vertical { amount: i16::MIN });
    assert_eq!(inside_frame(80, 1), (78, 0));
    assert_eq!(text_popup_size("a\nb", 100), (24, 5));
    assert_eq!(text_popup_size("", 100), (44, 5));
    assert_eq!(text_popup_size(&"x".repeat(300), 100), (120, 5));
    assert_eq!(text_popup_size(&"l\n".repeat(60), 40), (24, 40));
}

#[test]
fn sessions_describe_themselves() {
    assert_eq!(
        session_info_line("main", 2, "Fri May 15 00:00:00 2015", &some("g"), 1),
        "main: 2 windows (created Fri May 15 00:00:00 2015) (group g) (attached)\n"
    );
    assert_eq!(
        session_info("main", 1, 1431648000, 0, &None, 0),
        some("main: 1 windows (created Fri May 15 00:00:00 2015)\n")
    );
    assert_eq!(
        session_info("main", 1, 1431648000, -3600, &None, 0),
        some("main: 1 windows (created Thu May 14 23:00:00 2015)\n")
    );
    assert_eq!(
        session_info("main", 1, 1430438400, 0, &None, 0),
        some("main: 1 windows (created Fri May  1 00:00:00 2015)\n")
    );
    assert_eq!(session_info("main", 1, 0, 86400, &None, 0), None);
    assert_eq!(
        server_info("3.0", 42, "main", 2, 60, "p"),
        "psmux 3.0 (Windows)\npid: 42\nsession: main\nwindows: 2\nuptime: 60s\nsocket: p"
    );
}

#[test]
fn sessions_are_renamed_with_their_files() {
    let p = rename_session("C:\\h", &some("l"), "old", "new");
    assert_eq!(p.old_port, "C:\\h\\.psmux\\l__old.port");
    assert_eq!(p.old_key, "C:\\h\\.psmux\\l__old.key");
    assert_eq!(p.new_port, "C:\\h\\.psmux\\l__new.port");
    assert_eq!(p.new_key, "C:\\h\\.psmux\\l__new.key");
    assert_eq!(p.target, "l__new");
    assert_eq!(cd_command("C:\\it's", true), " cd 'C:\\it''s'; cls\r");
    assert_eq!(cd_command("/x", false), " cd '/x'; clear\r");
}

#[test]
fn another_server_stands_by() {
    assert!(should_spawn_warm_server(true, "main", false));
    assert!(!should_spawn_warm_server(true, "__warm__", false));
    assert!(!should_spawn_warm_server(true, "main", true));
    let s = spawn_warm_server(&None, (100, 40));
    assert_eq!((s.width, s.height), (Some(100), Some(40)));
    assert_eq!(spawn_warm_server(&None, (1, 40)).width, None);
    assert!(starts_pane_early(&None, &None, &None));
    assert!(!starts_pane_early(&some("x"), &None, &None));
    assert!(is_active_pane_squelched(Some(500), false, 499));
    assert!(!is_active_pane_squelched(Some(500), true, 499));
    assert!(!is_active_pane_squelched(Some(500), false, 500));
}

#[test]
fn clients_switch_between_sessions() {
    let all = strings(&["alpha", "beta", "gamma"]);
    let go = |flag: char, target: &str, current: &str, last: Option<String>| match switch_client(flag, target, current, &all, &last) {
        Switch::Go { line } => line,
        Switch::Stay { message } => message,
    };
    assert_eq!(go('t', "beta", "alpha", None), "SWITCH beta");
    assert_eq!(go('t', "ga", "alpha", None), "SWITCH gamma");
    assert_eq!(go('t', "nope", "alpha", None), "switch-client: session not found: nope");
    assert_eq!(go('t', "alpha", "alpha", None), "switch-client: already on that session");
    assert_eq!(go('t', "", "alpha", None), "switch-client: no target session");
    assert_eq!(go('n', "", "gamma", None), "SWITCH alpha");
    assert_eq!(go('p', "", "alpha", None), "SWITCH gamma");
    assert_eq!(go('l', "", "alpha", some(" beta\n")), "SWITCH beta");
    assert_eq!(go('l', "", "alpha", some("alpha")), "switch-client: no last session");
    let one = strings(&["alpha"]);
    match switch_client('x', "", "alpha", &one, &None) {
        Switch::Stay { message } => assert_eq!(message, "switch-client: only one session available"),
        Switch::Go { .. } => panic!("went"),
    }
}

#[test]
fn requests_that_show_the_screen_come_last() {
    let kinds = vec![Request::DumpState, Request::SendKey, Request::WindowDump, Request::NextWindow, Request::DumpLayout];
    assert_eq!(order_requests(&kinds), vec![1, 3, 0, 2, 4]);
    assert!(mutates_state(Request::NextWindow) && mutates_state(Request::DumpLayout));
    assert!(!mutates_state(Request::SendText));
    assert!(!restores_focus(Request::FocusPaneTemp));
}

#[test]
fn requests_bring_hooks_and_drawing() {
    let e = effects(Request::NewWindow, true);
    assert_eq!(e.before, Some(Event::BeforeNewWindow));
    assert_eq!(e.after.map(event_name), Some("after-new-window"));
    assert!(e.resize && e.meta_dirty && !e.unzoom);
    assert!(effects(Request::SplitWindow, true).unzoom);
    assert!(effects(Request::MouseDrag, true).awaits_echo);
    assert!(!effects(Request::MouseDrag, false).state_dirty);
    assert_eq!(effects(Request::JoinPane, false).after, None);
    assert!(effects(Request::CopyEnterPageUp, false).awaits_echo);
    let quiet = effects(Request::ListPanes, true);
    assert_eq!((quiet.before, quiet.after), (None, None));
    assert!(!quiet.state_dirty);
}

#[test]
fn loop_waits_as_long_as_it_may() {
    assert_eq!(poll_timeout(Some(10), false, 100, false), 1);
    assert_eq!(poll_timeout(None, true, 100, false), 1);
    assert_eq!(poll_timeout(Some(60), false, 1, false), 5);
    assert_eq!(poll_timeout(None, false, 2, true), 16);
    assert_eq!(poll_timeout(None, false, 2, false), 50);
    assert!(status_interval_due(15, 15));
    assert!(!status_interval_due(0, 15));
    assert!(overlay_times_out(TimedOverlay::PaneNumbers { shown_ms: 1001 }, 1000));
    assert!(!overlay_times_out(TimedOverlay::PaneNumbers { shown_ms: 1000 }, 1000));
    assert!(!overlay_times_out(TimedOverlay::Popup { ended: true, close_on_exit: false }, 0));
}

#[test]
fn windows_are_named_after_their_programs() {
    let source = |manual: bool, fg: Option<String>| NameSource {
        manual,
        dead: false,
        since_check_ms: 1000,
        has_process: true,
        foreground: fg,
        pane_title: "title".to_string(),
        screen_title: "screen".to_string(),
    };
    assert_eq!(automatic_name(&source(false, some("vim")), "pwsh", true, false, false), (true, some("vim")));
    assert_eq!(automatic_name(&source(false, some("vim")), "vim", true, false, false), (true, None));
    assert_eq!(automatic_name(&source(true, some("vim")), "pwsh", true, true, false), (false, None));
    assert_eq!(automatic_name(&source(false, None), "pwsh", true, true, false), (true, None));
    assert_eq!(automatic_name(&source(false, None), "pwsh", false, true, false), (true, some("screen")));
    assert_eq!(automatic_name(&source(false, some("vim")), "pwsh", true, false, true), (false, None));
}

#[test]
fn environment_is_shown_and_refreshed() {
    let mut env: Dict<String> = Dict::new();
    env.insert("A".to_string(), "1".to_string());
    env.insert("TMUX".to_string(), "own".to_string());
    let process = vec![
        ("TMUX".to_string(), "outer".to_string()),
        ("PSMUX_X".to_string(), "2".to_string()),
        ("PATH".to_string(), "p".to_string()),
    ];
    assert_eq!(show_environment(&env, &process), "A=1\nTMUX=own\nPSMUX_X=2\n");
    refresh_variable(&mut env, "A", some("9"));
    assert_eq!(env.get("A"), Some(&"9".to_string()));
    refresh_variable(&mut env, "-A", some("9"));
    assert!(!env.has("A"));
    refresh_variable(&mut env, "TMUX", None);
    assert!(!env.has("TMUX"));
    assert_eq!(variable_to_refresh("-A"), "A");
}

#[test]
fn hooks_are_replaced_or_added_to() {
    let mut h = Hooks::new();
    assert_eq!(h.show_hooks(), "(no hooks)\n");
    h.replace_hook("client-attached".to_string(), "a".to_string());
    h.replace_hook("client-attached".to_string(), "b".to_string());
    assert_eq!(h.show_hooks(), "client-attached -> b\n");
    h.append_hook("client-attached".to_string(), "c".to_string());
    assert_eq!(h.commands("client-attached"), strings(&["b", "c"]));
    assert_eq!(h.show_hooks(), "client-attached[0] -> b\nclient-attached[1] -> c\n");
    h.remove_hook("client-attached");
    assert!(h.commands("client-attached").is_empty());
}

#[test]
fn waiters_are_woken() {
    let mut c: Dict<WaitChannel> = Dict::new();
    assert!(wait_for(&mut c, "x".to_string(), WaitOp::Signal).is_empty());
    assert!(!c.has("x"));
    c.insert("x".to_string(), WaitChannel { locked: true, waiters: vec![4, 5] });
    assert!(wait_for(&mut c, "x".to_string(), WaitOp::Wait).is_empty());
    assert_eq!(wait_for(&mut c, "x".to_string(), WaitOp::Unlock), vec![4, 5]);
    assert!(!c.get("x").unwrap().locked);
    assert!(wait_for(&mut c, "x".to_string(), WaitOp::Signal).is_empty());
    wait_for(&mut c, "y".to_string(), WaitOp::Lock);
    assert!(c.get("y").unwrap().locked);
}

#[test]
fn menus_skip_the_lines_between_items() {
    let item = |label: &str, command: &str, sep: bool| MenuItem {
        label: label.to_string(),
        command: command.to_string(),
        is_separator: sep,
    };
    let mut m = Menu {
        items: vec![item("a", "x", false), item("", "", true), item("b", "", false)],
        selected: 0,
    };
    assert!(m.navigate(true));
    assert_eq!(m.selected, 2);
    m.navigate(true);
    assert_eq!(m.selected, 0);
    m.navigate(false);
    assert_eq!(m.selected, 2);
    m.navigate(false);
    assert_eq!(m.selected, 0);
    assert_eq!(m.select(0), some("x"));
    assert_eq!(m.select(1), None);
    assert_eq!(m.select(2), None);
    let mut lines = Menu { items: vec![item("", "", true), item("", "", true)], selected: 0 };
    lines.navigate(true);
    assert_eq!(lines.selected, 1);
    let mut none = Menu { items: vec![], selected: 0 };
    assert!(!none.navigate(true));
}

#[test]
fn questions_tell_their_answers() {
    assert_eq!(confirm_prompt("", "kill-pane"), "Confirm: kill-pane? (y/n)");
    assert_eq!(confirm_prompt("Sure??", "x"), "Sure? (y/n)");
    assert_eq!(confirm_prompt("Kill it (y/n)", "x"), "Kill it (y/n)");
    assert_eq!(overlay_close(ScreenMode::Menu), ScreenMode::Passthrough);
    assert_eq!(overlay_close(ScreenMode::Copy), ScreenMode::Copy);
    assert_eq!(popup_input(true, &b"q".to_vec()), PopupAction::Write);
    assert_eq!(popup_input(false, &b"q".to_vec()), PopupAction::Close);
    assert_eq!(popup_input(false, &b"x".to_vec()), PopupAction::Nothing);
    let p = display_popup("htop", "50%", "", false, (100, 40));
    assert_eq!((p.width, p.height, p.inside), (50, 24, (48, 22)));
    assert!(p.starts_program && !p.close_on_exit);
    let p = display_popup("", "", "", false, (100, 40));
    assert!(p.close_on_exit && p.output.starts_with("Press"));
    assert_eq!(prompt_history(&vec![]), "(no prompt history)\n");
    assert_eq!(prompt_history(&strings(&["ls", "kill-pane"])), "0: ls\n1: kill-pane");
}

#[test]
fn options_are_looked_through_and_changed() {
    let rows = (0..30)
        .map(|i| OptionRow { name: format!("option-{}", i), value: format!("v{}", i), note: format!("n{}", i) })
        .collect();
    let mut c = Customize::open(rows);
    c.navigate(25);
    assert_eq!((c.selected, c.scroll), (25, 6));
    c.navigate(-30);
    assert_eq!((c.selected, c.scroll), (0, 0));
    c.set_filter("-2".to_string());
    assert_eq!(c.selected, 2);
    c.navigate(1);
    assert_eq!(c.selected, 20);
    assert!(c.edit());
    assert_eq!((c.buffer.as_str(), c.cursor), ("v20", 3));
    c.navigate(1);
    assert_eq!(c.selected, 20);
    assert!(c.edit_update("new".to_string()));
    assert_eq!(c.edit_confirm(), Some(("option-20".to_string(), "new".to_string())));
    assert_eq!(c.rows[20].value, "new");
    assert_eq!(c.edit_confirm(), None);
    assert_eq!(c.reset_default(some("d")), some("option-20"));
    assert_eq!(c.rows[20].value, "d");
    assert_eq!(c.rows[20].note, "n20");
    assert!(c.edit());
    assert_eq!(c.reset_default(some("e")), None);
    assert!(c.edit_cancel());
    assert!(c.buffer.is_empty());
    c.set_filter("nothing like this".to_string());
    assert_eq!(c.selected, 20);
}

#[test]
fn pipes_are_opened_and_closed() {
    let mut pipes = vec![3, 5];
    assert_eq!(pipe_pane(&mut pipes, 4, true, false), (None, true));
    assert_eq!(pipes, vec![3, 5, 4]);
    assert_eq!(pipe_pane(&mut pipes, 5, true, false), (Some(1), true));
    assert_eq!(pipes, vec![3, 4, 5]);
    assert_eq!(pipe_pane(&mut pipes, 5, true, true), (Some(2), false));
    assert_eq!(pipe_pane(&mut pipes, 3, false, false), (Some(0), false));
    assert_eq!(pipes, vec![4]);
}

#[test]
fn files_of_configuration_are_found() {
    match source_file("~/conf/*.conf", "C:\\h") {
        SourcePlan::Pattern { pattern } => assert_eq!(pattern, "C:\\h/conf/*.conf"),
        SourcePlan::OneFile => panic!("no pattern"),
    }
    assert!(matches!(source_file("-F #{x}*", "h"), SourcePlan::OneFile));
    assert!(matches!(source_file("a.conf", "h"), SourcePlan::OneFile));
    assert_eq!(send_prefix(Some('B'), true), vec![2]);
    assert_eq!(send_prefix(Some('é'), false), "é".as_bytes().to_vec());
    assert_eq!(send_prefix(None, true), Vec::<u8>::new());
    assert_eq!(focus_sequence(true, true), Some("\x1b[I"));
    assert_eq!(focus_sequence(true, false), Some("\x1b[O"));
    assert_eq!(focus_sequence(false, true), None);
}

#[test]
fn plugins_are_waited_for() {
    assert_eq!(wait_for_plugins(true, 0), PluginWait::Finish);
    assert_eq!(wait_for_plugins(false, 5000), PluginWait::Finish);
    assert_eq!(wait_for_plugins(false, 100), PluginWait::Wait { ms: 50 });
    assert_eq!(wait_for_plugins(false, 4990), PluginWait::Wait { ms: 10 });
    let (shell, args) = plugin_command(false, "x.ps1");
    assert_eq!(shell, "powershell");
    assert_eq!(args, strings(&["-NoProfile", "-ExecutionPolicy", "Bypass", "-File", "x.ps1"]));
}

#[test]
fn environment_is_measured() {
    let var = |name: &str, n: usize, v: usize| EnvVar { name: name.to_string(), name_len: n, value_len: v };
    let e = measure_environment(&vec![var("A", 1, 3), var("PATH", 4, 10), var("TEMP", 4, 10)]);
    assert_eq!((e.count, e.chars, e.largest.as_str(), e.largest_len), (3, 6 + 16 + 16, "PATH", 15));
    let f = StartupFailure {
        version: "1.0".to_string(),
        epoch_secs: 7,
        error: "boom".to_string(),
        directory: "None".to_string(),
        home: "None".to_string(),
        shell: "None".to_string(),
        cloud_files: true,
    };
    let text = write_startup_error_log(&f, &e);
    assert!(text.starts_with("psmux server startup error\n==========================\npsmux version : 1.0\n"));
    assert!(text.contains("\nerror:\nboom\n\nspawn context:\n"));
    assert!(text.contains("OneDrive present    : true\nenv vars (count)    : 3\n"));
    assert!(text.contains("largest env entry   : PATH (15 chars)\n"));
    assert!(text.ends_with("and attach this file\n"));
}

#[test]
fn keys_are_sent_by_name() {
    assert_eq!(key_sequence("F5"), Some("\x1b[15~"));
    assert_eq!(key_sequence("x"), None);
    assert_eq!(copy_key_name("PPAGE"), Some("pageup"));
    assert!(is_key_name("C-A") && is_key_name("ENTER") && !is_key_name("LS"));
    assert_eq!(control_char_of("c-x"), Some('X'));
    assert_eq!(send_key("enter", &None, &None, None, None).texts, strings(&["\r"]));
    assert_eq!(send_key("ls", &some("-la"), &None, None, None).texts, strings(&["ls", " "]));
    assert_eq!(send_key("ls", &some("Enter"), &None, None, None).texts, strings(&["ls"]));
    assert_eq!(send_key("M-x", &None, &None, None, None).texts, strings(&["\x1bx"]));
    let c = send_key_upper("C-c", "C-C", &None, &None, Some(3), Some((67, 46)));
    assert!(c.interrupt);
    assert_eq!(c.texts, strings(&["\x1b[67;46;3;1;8;1_\x1b[67;46;3;0;8;1_"]));
    assert_eq!(send_key("C-c", &None, &None, Some(3), None).texts, strings(&["\x03"]));
    assert!(send_key("C-?", &None, &None, None, None).texts.is_empty());
    assert_eq!(send_key("C-Left", &None, &some("\x1b[1;5D"), None, None).texts, strings(&["\x1b[1;5D"]));
}

#[test]
fn words_are_sent_with_spaces_between() {
    let look = || KeyLookup { modified: None, ctrl: None, codes: None };
    let out = send_keys(&strings(&["echo", "hi", "Enter"]), &vec![look(), look(), look()]);
    let sent: String = out.iter().flat_map(|o| o.texts.iter().cloned()).collect();
    assert_eq!(sent, "echo hi\r");
}

#[test]
fn keys_of_copying_have_their_own_names() {
    assert!(matches!(copy_mode_key("Enter"), CopyKey::Key(s) if s == "enter"));
    assert!(matches!(copy_mode_key("C-U"), CopyKey::Key(s) if s == "c-u"));
    assert!(matches!(copy_mode_key("F12"), CopyKey::Key(s) if s == "f12"));
    assert!(matches!(copy_mode_key("j"), CopyKey::Text(s) if s == "j"));
}

#[test]
fn copying_takes_steps() {
    let mut s = CopyState {
        mode: CopyMode::Copy,
        anchor: None,
        anchor_scroll: 0,
        cursor: Some(Place { row: 2, col: 3 }),
        scroll: 4,
        selection: SelectionMode::Char,
        find_pending: None,
    };
    let here = Some(Place { row: 2, col: 3 });
    for step in copy_command("begin-selection", true, 10, true) {
        s.take_step(step, here, 80);
    }
    assert_eq!(s.anchor, here);
    for step in copy_command("rectangle-toggle", true, 10, true) {
        s.take_step(step, here, 80);
    }
    assert_eq!(s.selection, SelectionMode::Rect);
    assert!(copy_command("copy-selection", true, 10, true).contains(&CopyStep::Yank));
    for step in copy_command("cancel", true, 10, true) {
        s.take_step(step, here, 80);
    }
    assert_eq!(s.mode, CopyMode::Off);
    assert_eq!(s.anchor, None);
    assert_eq!(pipe_program_of("copy-pipe-and-cancel clip.exe"), "clip.exe");
    assert_eq!(pipe_program_of("copy-pipe  clip"), "clip");
}

#[test]
fn messages_are_shown_for_a_time() {
    let message = |age: u64, duration: Option<u64>| Some(StatusMessage { text: "hi".to_string(), age_ms: age, duration_ms: duration });
    assert_eq!(serialize_overlay_json("", &message(10, None), 750), ",\"status_message\":\"hi\"");
    assert_eq!(serialize_overlay_json("", &message(750, None), 750), "");
    assert_eq!(serialize_overlay_json("", &message(99999, Some(0)), 750), ",\"status_message\":\"hi\"");
    assert_eq!(serialize_overlay_json(",\"popup\":1", &None, 750), ",\"popup\":1");
    assert_eq!(title_format(""), "#S:#I:#W");
    assert_eq!(title_format("x"), "x");
    assert!(unchanged(true, false, false, false, true, 4, 4));
    assert!(!unchanged(true, true, false, false, true, 4, 4));
    assert!(!unchanged(true, false, false, false, true, 4, 5));
}

fn plain_pane(id: usize) -> Pane {
    Pane { id, cols: 80, rows: 24 }
}

fn ids(root: &Node) -> Vec<usize> {
    collect_panes(root).iter().map(|l| l.pane.id).collect()
}

#[test]
fn a_split_puts_the_new_pane_behind_the_one_it_splits() {
    let root = split_pane(Node::Leaf(plain_pane(1)), &vec![], plain_pane(2));
    let root = split_pane(root, &vec![0], plain_pane(3));
    assert_eq!(ids(&root), vec![1, 3, 2]);
    let root = split_pane(root, &vec![1], plain_pane(4));
    assert_eq!(ids(&root), vec![1, 3, 2, 4]);
    let root = split_pane(root, &vec![7], plain_pane(5));
    assert_eq!(ids(&root), vec![1, 3, 2, 4, 5]);
}

#[test]
fn closing_a_pane_undoes_the_split_that_brought_it() {
    let root = Node::Split(vec![Node::Leaf(plain_pane(1)), Node::Leaf(plain_pane(2))]);
    let root = split_pane(root, &vec![0], plain_pane(3));
    let root = close_pane(root, 3).unwrap();
    assert_eq!(ids(&root), vec![1, 2]);
    let root = close_pane(root, 9).unwrap();
    assert_eq!(ids(&root), vec![1, 2]);
    let root = close_pane(root, 1).unwrap();
    assert!(matches!(root, Node::Leaf(_)));
    assert!(close_pane(root, 2).is_none());
}

#[test]
fn panes_share_the_width() {
    assert_eq!(pane_width(120, 3, 0, None), 40);
    assert_eq!(pane_width(120, 2, 1, Some(25)), 30);
    assert_eq!(pane_width(120, 2, 0, Some(25)), 90);
    assert_eq!(pane_width(120, 2, 0, Some(300)), 1);
    assert_eq!(pane_width(2, 5, 0, None), 1);
    assert_eq!(pane_width(120, 0, 0, Some(10)), 120);
}

#[test]
fn control_characters_are_upper_case() {
    assert_eq!(control_char_upper("c-x", "C-X"), Some('X'));
    assert_eq!(control_char_upper("c-m-x", "C-M-X"), Some('x'));
    assert_eq!(control_char_upper("x", "X"), None);
}

#[test]
fn keys_of_copy_mode_are_small_letters() {
    assert!(matches!(copy_mode_key_upper("F12", "F12", "f12".to_string()), CopyKey::Key(k) if k == "f12"));
    assert!(matches!(copy_mode_key_upper("C-B", "C-B", "c-b".to_string()), CopyKey::Key(k) if k == "c-b"));
    assert!(matches!(copy_mode_key_upper("Ab", "AB", "ab".to_string()), CopyKey::Text(t) if t == "Ab"));
}

#[test]
fn the_way_to_a_pane_that_was_split_leads_to_both_halves() {
    let root = Node::Split(vec![Node::Leaf(plain_pane(1)), Node::Leaf(plain_pane(2))]);
    let root = split_pane(root, &vec![1], plain_pane(3));
    let ways: Vec<(Vec<usize>, usize)> = collect_panes(&root).into_iter().map(|l| (l.path, l.pane.id)).collect();
    assert_eq!(ways, vec![(vec![0], 1), (vec![1, 0], 2), (vec![1, 1], 3)]);
    let root = close_pane(root, 2).unwrap();
    let ways: Vec<(Vec<usize>, usize)> = collect_panes(&root).into_iter().map(|l| (l.path, l.pane.id)).collect();
    assert_eq!(ways, vec![(vec![0], 1), (vec![1], 3)]);
}

#[test]
fn a_title_that_was_given_is_kept() {
    let mut t = PaneTitle { title: "a".to_string(), locked: false };
    t.set_title("b".to_string());
    assert!(t.locked && t.title == "b");
    t.set_title(String::new());
    assert!(!t.locked);
}

#[test]
fn a_command_is_run_only_after_yes() {
    assert_eq!(confirm_respond(ScreenMode::Confirm, "kill", true), (ScreenMode::Passthrough, Some("kill".to_string())));
    assert_eq!(confirm_respond(ScreenMode::Confirm, "kill", false), (ScreenMode::Passthrough, None));
    assert_eq!(confirm_respond(ScreenMode::Menu, "kill", true), (ScreenMode::Menu, None));
}

#[test]
fn what_the_system_lacks_is_said() {
    assert_eq!(unavailable_message(Request::LockClient), Some("lock: not available on Windows".to_string()));
    assert_eq!(unavailable_message(Request::SuspendClient), Some("suspend: not available on Windows".to_string()));
    assert_eq!(unavailable_message(Request::KillPane), None);
    assert_eq!(link_failed_message(), "link-window: failed to create linked window");
}

#[test]
fn control_clients_are_told_why_a_session_ends() {
    assert!(exit_notification(0, true).is_none());
    assert!(matches!(exit_notification(1, true), Some(Notification::Exit { reason: Some(r) }) if r == "server exited"));
    assert!(matches!(exit_notification(2, false), Some(Notification::Exit { reason: None })));
}

#[test]
fn the_stack_holds_the_ten_newest_texts() {
    let mut b = Buffers::new();
    for i in 0..12 {
        b.set_buffer(i.to_string());
    }
    assert_eq!(b.stack.len(), 10);
    assert_eq!(b.stack[0], "11");
    assert_eq!(b.stack[9], "2");
}

#[test]
fn unbinding_a_key_undoes_binding_it() {
    let mut t = KeyTables::new();
    let key = Key { code: 97, modifiers: 0 };
    let other = Key { code: 98, modifiers: 0 };
    t.bind_key("prefix".to_string(), Some(other), Some(BoundAction::Single("x".to_string())), false);
    t.bind_key("prefix".to_string(), Some(key), Some(BoundAction::Single("y".to_string())), false);
    t.unbind_key(Some(key), None);
    let left: Vec<Key> = t.tables.get("prefix").unwrap().iter().map(|b| b.key).collect();
    assert_eq!(left, vec![other]);
}

#[test]
fn a_session_without_windows_ends_unless_it_is_kept() {
    assert!(session_ends(true, true));
    assert!(!session_ends(false, true));
    assert!(!session_ends(true, false));
    assert!(!session_ends(false, false));
}
