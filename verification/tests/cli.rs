use psmux::cli::commands::{
    buffer_line, detach_client, detach_line, display_message, has_session_target, kill_session_target, list_buffers, new_window,
    parse_detach, rename_session_name, rename_window_name, send_keys, send_paste, session_for_routing,
    set_buffer, split_window,
};
use psmux::cli::control_mode::{
    auth_line, check_auth, control_endpoint, exit_text, is_ssh_session, mode_line, translate_input, ControlError,
    InputEvent, InputState, InputStep,
};
use psmux::cli::dispatch::{fixed_line, kind_of, printed_line, unknown_command, Kind};
use psmux::cli::forward::{command_named, forward, Command};
use psmux::cli::global::{
    command_args, global_flags, nesting_refused, parse_port, port_file_base, port_of_environment,
    session_with_port, target_session, PortFile,
};
use psmux::cli::line::{line_words, quote_word, session_of_target, window_of_target};
use psmux::cli::new_session::parse_new_session;
use psmux::cli::scripting::{
    chosen_command, default_key_listed, expand_home, find_window, format_is_true, literal_condition,
    load_buffer_line, pane_of, parse_buffer_file, parse_if_shell, parse_join, plan_join, quoted_line, run_shell,
    select_layout, source_file, source_step, wait_for, whole_line, JoinPlan, SourceStep,
};
use psmux::cli::server_args::{parse_server_args, server_args, ServerSetup};
use psmux::cli::sessions::{
    claim_line, display_name, existing_session, is_killed, is_listed, is_warm_base, may_claim_warm,
    parse_list_sessions, start_failure, start_step,
    session_line, session_of_file, session_query, session_to_attach, warm_base, warm_setup, warm_switched_off,
    Existing, StartStep,
};
use psmux::cli::settings::{has_faulty_setting, parse_setting, parse_settings, server_settings};
use psmux::cli::words::trim_quotes;

fn strings(v: &[&str]) -> Vec<String> {
    v.iter().map(|s| s.to_string()).collect()
}

fn some(s: &str) -> Option<String> {
    Some(s.to_string())
}

#[test]
fn global_flags_end_at_the_command() {
    let g = global_flags(&strings(&["psmux", "-L", "work", "-f", "c.conf", "new", "-L", "x"]));
    assert_eq!(g.socket, some("work"));
    assert_eq!(g.config, some("c.conf"));
    assert_eq!(g.control, 0);
    assert_eq!(global_flags(&strings(&["psmux", "-CC", "attach"])).control, 2);
}

#[test]
fn target_is_left_out_of_the_arguments() {
    let args = strings(&["psmux", "send-keys", "-t", "work", "ls", "Enter"]);
    let rest = command_args(&args);
    assert!(!rest.contains(&"work".to_string()));
    assert!(rest.contains(&"ls".to_string()));
}

#[test]
fn sessions_are_found_by_their_files() {
    assert_eq!(port_file_base(&None, "main"), "main");
    assert_eq!(port_file_base(&some("work"), "main"), "work__main");
    assert_eq!(parse_port(" 4711\n"), Some(4711));
    assert_eq!(parse_port("70000"), None);
    assert_eq!(port_of_environment("/tmp/psmux-1/default,4711,0"), Some(4711));
    let files = vec![
        PortFile { base: "a".to_string(), text: some("1"), warm: false },
        PortFile { base: "b".to_string(), text: some("4711\n"), warm: false },
    ];
    assert_eq!(session_with_port(&files, 4711), some("b"));
    assert_eq!(session_with_port(&files, 9), None);
    assert_eq!(target_session(&some("l"), &some("s"), &strings(&["ls"])), some("l__s"));
    assert_eq!(target_session(&None, &some("s"), &strings(&["switch-client"])), None);
}

#[test]
fn nesting_is_refused_inside_a_session() {
    assert!(nesting_refused(&None, &some("1"), &None));
    assert!(!nesting_refused(&some("1"), &some("1"), &None));
    assert!(!nesting_refused(&None, &None, &None));
}

#[test]
fn words_name_commands() {
    assert_eq!(kind_of("new-session"), Kind::NewSession);
    assert_eq!(kind_of("new"), Kind::NewSession);
    assert_eq!(kind_of("ls"), Kind::ListSessions);
    assert_eq!(kind_of("kill-server"), Kind::KillServer);
    assert_eq!(kind_of("no-such-command"), Kind::Unknown);
    assert_eq!(kind_of("selectp"), Kind::Forward(Command::SelectPane));
    assert!(fixed_line("next-window").is_some());
    assert!(fixed_line("no-such-command").is_none());
    assert!(printed_line("no-such-command").is_none());
    assert!(unknown_command("frob").contains("frob"));
}

#[test]
fn flags_are_passed_on() {
    assert_eq!(command_named("capture-pane"), Some(Command::CapturePane));
    let (line, _) = forward(Command::SelectPane, &strings(&["select-pane", "-U"]));
    assert_eq!(line, "select-pane -U\n");
    let (line, _) = forward(Command::ResizePane, &strings(&["resize-pane", "-D", "5"]));
    assert_eq!(line, "resize-pane -D 5\n");
}

#[test]
fn window_lines_quote_names() {
    let (line, _) = new_window(&strings(&["new-window", "-n", "my win"]));
    assert!(line.starts_with("new-window"));
    assert!(line.contains("-n \"my win\""));
    assert!(line.ends_with('\n'));
    let (line, _) = split_window(&strings(&["split-window", "-h"]));
    assert!(line.contains("-h"));
}

#[test]
fn keys_with_spaces_are_quoted() {
    let line = send_keys(&strings(&["send-keys", "ls -la", "Enter"]));
    assert_eq!(line, "send-keys \"ls -la\" Enter\n");
    assert!(send_keys(&strings(&["send-keys", "-l", "x"])).contains("-l"));
    assert!(send_paste(&strings(&["send-paste"])).is_none());
}

#[test]
fn detaching_is_parsed() {
    let d = parse_detach(&strings(&["detach-client", "-a", "-P"]));
    assert!(d.all && d.kill_parent);
    assert!(d.target.is_none());
    assert_eq!(detach_line(&d), "detach-client -a -P\n");
    assert_eq!(session_for_routing(&some("l"), &some("s"), &None), "l__s");
}

#[test]
fn sessions_are_named_on_the_line() {
    assert_eq!(kill_session_target(&strings(&["kill-session", "-t", "work"])), some("work"));
    assert_eq!(kill_session_target(&strings(&["kill-session"])), None);
    assert_eq!(has_session_target(&strings(&["has-session", "-t", "=work"]), &None), "work");
    assert_eq!(rename_session_name(&strings(&["rename-session", "new"])), some("new"));
    assert_eq!(rename_window_name(&strings(&["rename-window", "new"])), some("new"));
}

#[test]
fn buffers_are_set_and_listed() {
    let b = set_buffer(&strings(&["set-buffer", "-w", "text"]));
    assert!(b.clipboard);
    assert_eq!(b.data, some("text"));
    assert!(list_buffers(&strings(&["list-buffers"])).starts_with("list-buffers"));
    assert!(buffer_line("show-buffer", &strings(&["show-buffer", "-b", "x"])).contains("-b x"));
    let (line, print) = display_message(&strings(&["display-message", "-p", "hi there"]));
    assert!(print);
    assert!(line.contains("\"hi there\""));
}

#[test]
fn new_sessions_are_parsed() {
    let n = parse_new_session(&strings(&["new-session", "-d", "-s", "work", "-n", "w", "-x", "100", "-y", "40"]));
    assert!(n.detached);
    assert_eq!(n.name, some("work"));
    assert_eq!(n.window, some("w"));
    assert_eq!((n.width, n.height), (Some(100), Some(40)));
    let grouped = parse_new_session(&strings(&["new-session", "-dP", "-s", "x"]));
    assert!(grouped.detached && grouped.print_info);
    let e = parse_new_session(&strings(&["new-session", "-e", "A=1", "-e", "B=2"]));
    assert_eq!(e.env, strings(&["A=1", "B=2"]));
}

#[test]
fn server_reads_its_own_arguments() {
    let s = ServerSetup {
        name: "work".to_string(),
        socket: some("l"),
        command: None,
        dir: some("C:\\x"),
        window: some("w"),
        width: Some(100),
        height: Some(40),
        group: None,
        env: Vec::new(),
        raw: None,
    };
    let args = server_args(&s);
    assert_eq!(args[..3], strings(&["server", "-s", "work"])[..]);
    let o = parse_server_args(&args);
    assert_eq!(o.name, "work");
    assert_eq!(o.socket, some("l"));
    assert_eq!(o.dir, some("C:\\x"));
    assert_eq!(o.window, some("w"));
    assert_eq!(o.size, Some((100, 40)));
}

#[test]
fn scripts_are_parsed() {
    assert!(run_shell(&strings(&["run-shell"])).is_none());
    let (command, background) = run_shell(&strings(&["run-shell", "-b", "echo", "hi"])).unwrap();
    assert_eq!(command, "echo hi");
    assert!(background);
    assert_eq!(expand_home("~/x", "C:\\h"), "C:\\h/x");
    assert_eq!(expand_home("/x", "C:\\h"), "/x");
    let (path, _) = source_file(&strings(&["source-file", "a.conf"]), "C:\\h");
    assert_eq!(path, some("a.conf"));
    assert_eq!(literal_condition("true"), Some(true));
    assert_eq!(literal_condition("false"), Some(false));
    assert_eq!(literal_condition("test -f x"), None);
    assert!(format_is_true("1"));
    assert!(!format_is_true("0"));
    assert!(!format_is_true(""));
}

#[test]
fn conditions_choose_commands() {
    let c = parse_if_shell(&strings(&["if-shell", "-F", "#{x}", "yes", "no"]));
    assert!(c.format);
    assert_eq!(chosen_command(c, true), some("yes"));
    let c = parse_if_shell(&strings(&["if-shell", "c", "yes"]));
    assert_eq!(chosen_command(c, false), None);
}

#[test]
fn panes_are_joined_within_a_session() {
    let j = parse_join(&strings(&["join-pane", "-h", "-s", "1.0"]));
    assert!(j.horizontal);
    assert_eq!(j.source, "1.0");
    assert_eq!(pane_of("main:2.1"), "2.1");
    assert_eq!(pane_of("2.1"), "2.1");
    assert!(matches!(plan_join(&j, "main", "main", Some(1), Some(0)), JoinPlan::Within { .. }));
}

#[test]
fn lines_are_put_together() {
    assert_eq!(whole_line(&strings(&["bind-key", "x", "kill-pane"])), "bind-key x kill-pane\n");
    assert!(quoted_line(&strings(&["set", "-g", "status-left", "a b"]), true).contains("\"a b\""));
    assert!(wait_for(&strings(&["wait-for"])).is_none());
    assert!(select_layout(&strings(&["select-layout", "tiled"])).contains("tiled"));
    assert_eq!(find_window(&strings(&["find-window", "log"])).unwrap(), "find-window log\n");
    let f = parse_buffer_file(&strings(&["load-buffer", "-b", "x", "file"]));
    assert_eq!(f.buffer, some("x"));
    assert_eq!(f.path, some("file"));
    assert_eq!(load_buffer_line(&None, "a\nb").matches('\n').count(), 1);
    assert!(default_key_listed(&None, &None, "prefix", "c"));
    assert!(!default_key_listed(&some("root"), &None, "prefix", "c"));
    assert_eq!(trim_quotes("\"x\""), "x");
}

#[test]
fn sessions_are_listed_by_namespace() {
    assert_eq!(session_of_file("work.port"), some("work"));
    assert_eq!(session_of_file("work.key"), None);
    assert!(is_listed("main", &None));
    assert!(!is_listed("__warm__", &None));
    assert!(is_listed("l__main", &some("l")));
    assert!(!is_listed("main", &some("l")));
    assert!(is_listed("foo__main", &some("foo")));
    assert!(!is_listed("foo____warm__", &some("foo")));
    assert!(!is_listed("foo____warm__", &None));
    assert!(is_killed("main", &None));
    assert!(!is_killed("main", &some("l")));
    assert_eq!(display_name("l__main", &some("l")), "main");
    assert_eq!(session_query(&None), "session-info\n");
    let (format, filter) = parse_list_sessions(&strings(&["ls", "-F", "#S"]));
    assert_eq!(format, some("#S"));
    assert_eq!(filter, None);
    assert!(session_line("main: 1 windows", false, "main", &None, &None).is_some());
}

#[test]
fn existing_sessions_are_attached_or_refused() {
    assert_eq!(existing_session(false, false, false), Existing::Create);
    assert_eq!(existing_session(true, false, false), Existing::Replace);
    assert_eq!(existing_session(true, true, true), Existing::Attach);
    assert_eq!(existing_session(true, true, false), Existing::Duplicate);
}

#[test]
fn server_that_stands_by_is_claimed() {
    assert_eq!(warm_base(&None), "__warm__");
    assert_eq!(warm_base(&some("l")), "l____warm__");
    assert!(warm_switched_off(&some("1")));
    assert!(!warm_switched_off(&some("0")));
    let plain = parse_new_session(&strings(&["new-session"]));
    assert!(may_claim_warm(false, false, &plain));
    assert!(!may_claim_warm(true, false, &plain));
    assert_eq!(claim_line("work", &some("'C:\\x'")), "claim-session work 'C:\\x'\n");
    let setup = warm_setup(&None, Some((100, 41)));
    assert_eq!((setup.width, setup.height), (Some(100), Some(40)));
    assert_eq!(session_to_attach(some("a"), None, some("b"), &None), "a");
}

#[test]
fn control_mode_checks_its_endpoint() {
    let (port, key) = control_endpoint("main", &some("4711"), &some("abc")).unwrap();
    assert_eq!((port, key.as_str()), (4711, "abc"));
    assert!(matches!(control_endpoint("main", &None, &some("k")), Err(ControlError::NoSession { .. })));
    assert!(matches!(control_endpoint("main", &some("x"), &some("k")), Err(ControlError::CorruptedPort)));
    assert!(matches!(control_endpoint("main", &some("1"), &None), Err(ControlError::NoKey)));
    assert_eq!(auth_line("abc"), "AUTH abc\n");
    assert!(check_auth("OK\n").is_ok());
    assert!(matches!(check_auth("NO\n"), Err(ControlError::Refused { .. })));
    assert!(mode_line(2) != mode_line(1));
    assert!(exit_text(2) != exit_text(1));
    assert!(is_ssh_session(false, true, false));
    assert!(!is_ssh_session(false, false, false));
}

#[test]
fn bare_carriage_returns_become_line_feeds() {
    assert_eq!(translate_input(b"a\rb\r\nc"), b"a\nb\r\nc".to_vec());
    let once = translate_input(b"x\r\r\n");
    assert_eq!(translate_input(&once), once);
}

#[test]
fn input_that_fails_is_retried() {
    let mut s = InputState::new();
    assert_eq!(s.take(InputEvent::Read(5)), InputStep::Deliver);
    assert_eq!(s.take(InputEvent::Read(0)), InputStep::Stop);
}

#[test]
fn lines_are_taken_apart_into_words() {
    assert_eq!(line_words("new-window -n \"my shell\"  x"), vec!["new-window", "-n", "my shell", "x"]);
    assert_eq!(line_words("a\"b c\"d"), vec!["ab cd"]);
    assert_eq!(line_words("say \"a \\\"b\\\" c\""), vec!["say", "a \"b\" c"]);
    assert_eq!(line_words("cd \"C:\\x y\""), vec!["cd", "C:\\x y"]);
    assert_eq!(line_words("x \"\""), vec!["x", ""]);
    assert_eq!(line_words("  "), Vec::<String>::new());
    assert_eq!(line_words("\"open end"), vec!["open end"]);
}

#[test]
fn words_on_a_line_read_back() {
    assert_eq!(quote_word("plain"), "plain");
    assert_eq!(quote_word("C:\\x"), "C:\\x");
    assert_eq!(quote_word("a b"), "\"a b\"");
    assert_eq!(quote_word("it's"), "\"it's\"");
    assert_eq!(quote_word(""), "\"\"");
    for word in ["plain", "C:\\x", "C:\\x\\", "C:\\x y", "a \"b\" c", "a \\\"b", "", "it's", "\t"] {
        assert_eq!(line_words(&quote_word(word)), vec![word]);
    }
}

#[test]
fn targets_name_sessions_and_windows() {
    assert_eq!(session_of_target("work:1.2"), Some("work".to_string()));
    assert_eq!(session_of_target("=work"), Some("work".to_string()));
    assert_eq!(session_of_target("0.2"), Some("0".to_string()));
    assert_eq!(session_of_target("a.b:1"), Some("a.b".to_string()));
    assert_eq!(session_of_target(":1"), None);
    assert_eq!(session_of_target("%3"), None);
    assert_eq!(session_of_target("@3"), None);
    assert_eq!(window_of_target("2.1"), Some(2));
    assert_eq!(window_of_target("x"), None);
}

#[test]
fn servers_that_stand_by_are_known_by_their_files() {
    assert!(is_warm_base("__warm__"));
    assert!(is_warm_base("work____warm__"));
    assert!(!is_warm_base("warm"));
    assert!(is_warm_base(&warm_base(&Some("x".to_string()))));
}

#[test]
fn a_named_client_alone_is_detached() {
    let named = strings(&["psmux", "detach-client", "-t", "/dev/pts/2"]);
    let (d, line) = detach_client(&named);
    assert_eq!(d.target, some("/dev/pts/2"));
    assert_eq!(line, "detach-client -t /dev/pts/2\n");
    assert_eq!(detach_client(&strings(&["psmux", "-L", "x", "detach", "-t", "a b"])).1, "detach-client -t \"a b\"\n");
    assert_eq!(detach_client(&strings(&["psmux", "detach-client"])).1, "detach-client -a\n");
    assert_eq!(detach_client(&strings(&["psmux", "detach", "-P", "-E", "ls"])).1, "detach-client -P -E ls\n");
    assert_eq!(detach_client(&strings(&["psmux", "detach", "-a", "-t", "c"])).1, "detach-client -a -t c\n");
    assert_eq!(detach_client(&strings(&["psmux", "detach", "-s", "work"])).0.session, some("work"));
}

#[test]
fn settings_are_a_name_and_a_value() {
    assert_eq!(parse_setting("A=1"), Some(("A".to_string(), "1".to_string())));
    assert_eq!(parse_setting("A=b=c"), Some(("A".to_string(), "b=c".to_string())));
    assert_eq!(parse_setting("A="), Some(("A".to_string(), "".to_string())));
    assert_eq!(parse_setting("A"), None);
    assert_eq!(parse_setting("=1"), None);
    assert_eq!(parse_settings(&strings(&["A=1", "B=2"])).unwrap().len(), 2);
    assert_eq!(parse_settings(&strings(&["A=1", "B", "C"])), Err("not a setting: B".to_string()));
    assert!(has_faulty_setting(&parse_new_session(&strings(&["new", "-e", "A"]))));
    assert!(!has_faulty_setting(&parse_new_session(&strings(&["new", "-e", "A=1"]))));
}

#[test]
fn a_server_reads_its_settings() {
    let s = ServerSetup {
        name: "work".to_string(),
        socket: None,
        command: some("ls"),
        dir: None,
        window: None,
        width: Some(80),
        height: None,
        group: None,
        env: strings(&["A=1", "B=2"]),
        raw: Some(strings(&["sh", "-e", "x"])),
    };
    assert_eq!(server_settings(&server_args(&s)), strings(&["A=1", "B=2"]));
    assert_eq!(server_settings(&strings(&["server", "-e"])), strings(&[""]));
}

#[test]
fn the_session_to_switch_to_is_not_on_the_line() {
    let words = strings(&["switch-client"]);
    assert_eq!(forward(Command::SwitchClient, &words).0, "switch-client\n");
    let next = strings(&["switchc", "-n"]);
    assert_eq!(forward(Command::SwitchClient, &next).0, "switch-client -n\n");
}

#[test]
fn a_new_server_is_waited_for() {
    assert_eq!(start_step(0, false), StartStep::Wait { ms: 10 });
    assert_eq!(start_step(499, false), StartStep::Wait { ms: 10 });
    assert_eq!(start_step(500, false), StartStep::Late);
    assert_eq!(start_step(500, true), StartStep::Started);
    assert_eq!(start_failure("a", false, false), some("psmux: failed to create session 'a'"));
    assert_eq!(start_failure("a", true, false), some("psmux: session 'a' exited immediately (check shell command)"));
    assert_eq!(start_failure("a", true, true), None);
}

#[test]
fn a_file_that_cannot_be_read_is_not_sourced() {
    assert!(matches!(source_step("a b", &None, false), SourceStep::Send { line } if line == "source-file \"a b\"\n"));
    assert!(matches!(source_step("x", &some("gone"), false), SourceStep::Complain { message } if message == "psmux: x: gone"));
    assert!(matches!(source_step("x", &some("gone"), true), SourceStep::Nothing));
}
