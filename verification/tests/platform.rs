use psmux::platform::caret::{console_cell_size, destroy, update};
use psmux::platform::console::{
    augment_enter_shift, console_output_device_name, disable_vti_on_stdin, enable_virtual_terminal_processing,
    handle_ctrl_event, open_console_output_handle, prepare_tui_stdout, raw_modes, OutputHandle, ALT, CONTROL,
    SHIFT,
};
use psmux::platform::console_writer::{flush_plan, FlushWriter, FrameBuffer, WriteReply, WriteStep};
use psmux::platform::ime::{ime_disable, ime_restore};
use psmux::platform::mouse_inject::{
    char_to_vk, key_unit, query_mouse_input_enabled, query_vti_enabled, send_alt_key_event,
    send_bracketed_paste, send_ctrl_c_event, send_modified_enter_event, send_modified_key_event,
    send_mouse_event, send_vt_sequence, vk_to_scan, Call, Injection, InputRecord, Outcome, Reply,
};
use psmux::platform::portable;
use psmux::platform::process_info::{
    exe_name_from_entry, find_foreground_child_pid, get_foreground_cwd, get_foreground_process_name,
    get_process_cwd, has_vt_bridge_descendant, is_system_exe, is_vt_bridge_exe, is_wrapper_exe,
    logs_entry, read_process_cwd, stem_of, CwdReply, CwdStep, Proc,
};
use psmux::platform::process_kill::{
    collect_descendants_from_table, current_parent_pid, kill_parent_process, kill_process_tree,
    kill_process_trees_batch,
};
use psmux::platform::spawn::{after_attempt, escape_arg_msvcrt, spawn_server_hidden, SpawnStep};

fn strings(v: &[&str]) -> Vec<String> {
    v.iter().map(|s| s.to_string()).collect()
}

fn proc(pid: u32, ppid: u32, name: &str) -> Proc {
    Proc { pid, ppid, name: name.to_string() }
}

/// Walks through an injection on a console whose input mode is `mode`, and gives the calls and
/// the outcome.
fn walk(mut i: Injection, mode: u32) -> (Vec<Call>, Outcome) {
    let mut calls = Vec::new();
    while i.machine.call != Call::Finish {
        let call = i.machine.call;
        calls.push(call);
        let reply = match call {
            Call::Attach { .. } | Call::AttachParent | Call::Open { .. } | Call::Interrupt => Reply::Status(true),
            Call::GetMode => Reply::Mode(Some(mode)),
            Call::Write { count, .. } => Reply::Written { ok: true, count: count as u32 },
            Call::SetMode { .. } => Reply::Status(true),
            _ => Reply::Done,
        };
        i.machine.step(reply);
    }
    (calls, i.machine.outcome)
}

fn units(i: &Injection) -> Vec<u16> {
    i.records
        .iter()
        .map(|r| match r {
            InputRecord::Key(k) => k.u_char,
            InputRecord::Mouse(_) => 0,
        })
        .collect()
}

#[test]
fn arguments_are_quoted_for_the_c_runtime() {
    assert_eq!(escape_arg_msvcrt("plain"), "plain");
    assert_eq!(escape_arg_msvcrt(""), "\"\"");
    assert_eq!(escape_arg_msvcrt("two words"), "\"two words\"");
    assert_eq!(escape_arg_msvcrt("say \"hi\""), "\"say \\\"hi\\\"\"");
    assert_eq!(escape_arg_msvcrt("dir\\"), "dir\\");
    assert_eq!(escape_arg_msvcrt("my dir\\"), "\"my dir\\\\\"");
}

#[test]
fn command_line_is_ended() {
    let s = spawn_server_hidden("C:\\psmux.exe", &strings(&["server", "-s", "a b"]));
    let text = String::from_utf16(&s.command_line).unwrap();
    assert_eq!(text, "\"C:\\psmux.exe\" server -s \"a b\"\0");
    assert_ne!(s.first_flags, s.second_flags);
    assert_eq!(after_attempt(true, true), SpawnStep::CloseHandles);
    assert_eq!(after_attempt(true, false), SpawnStep::Retry);
    assert_eq!(after_attempt(false, false), SpawnStep::Fail);
}

#[test]
fn descendants_come_level_by_level() {
    let table = vec![(10, 1), (11, 10), (12, 10), (13, 11), (14, 13), (99, 2)];
    assert_eq!(collect_descendants_from_table(&table, 10), vec![11, 12, 13, 14]);
    assert_eq!(collect_descendants_from_table(&table, 50), Vec::<u32>::new());
}

#[test]
fn loops_in_the_table_end() {
    let table = vec![(10, 12), (11, 10), (12, 11)];
    assert_eq!(collect_descendants_from_table(&table, 10), vec![11, 12]);
}

#[test]
fn children_are_killed_before_parents() {
    let table = vec![(11, 10), (12, 11)];
    assert_eq!(kill_process_tree(&table, Some(10)), vec![12, 11, 10]);
    assert_eq!(kill_process_tree(&table, None), Vec::<u32>::new());
    let batch = kill_process_trees_batch(&table, &vec![Some(11), None]);
    assert_eq!(batch, vec![vec![12, 11], vec![]]);
}

#[test]
fn parent_is_looked_up() {
    let table = vec![(11, 10), (12, 11)];
    assert_eq!(current_parent_pid(&table, 12), Some(11));
    assert_eq!(current_parent_pid(&table, 77), None);
    assert_eq!(kill_parent_process(Some(40)), Some(40));
    assert_eq!(kill_parent_process(None), None);
    assert_eq!(kill_parent_process(Some(0)), None);
    assert_eq!(kill_parent_process(Some(4)), None);
}

#[test]
fn names_of_programs_are_told_apart() {
    let field: Vec<u16> = "PwSh.EXE\0rest".encode_utf16().collect();
    assert_eq!(exe_name_from_entry(&field), "pwsh.exe");
    assert!(is_system_exe("conhost.exe"));
    assert!(!is_system_exe("vim.exe"));
    assert_eq!(stem_of("vim.exe"), "vim");
    assert_eq!(stem_of("vim"), "vim");
    assert!(is_wrapper_exe("cmd.exe") && is_wrapper_exe("npx"));
    assert!(!is_wrapper_exe("vim.exe"));
    assert!(is_vt_bridge_exe("wsl.exe"));
    assert!(!is_vt_bridge_exe("vim.exe"));
}

#[test]
fn foreground_is_the_program_below() {
    let procs = vec![proc(10, 1, "pwsh.exe"), proc(11, 10, "conhost.exe"), proc(12, 10, "vim.exe")];
    assert_eq!(find_foreground_child_pid(&procs, 10), Some(12));
    assert_eq!(find_foreground_child_pid(&procs, 12), None);
    let wrapped = vec![proc(11, 10, "cmd.exe"), proc(12, 11, "node.exe"), proc(13, 12, "git.exe")];
    assert_eq!(find_foreground_child_pid(&wrapped, 10), Some(12));
}

#[test]
fn bridge_is_found_at_any_depth() {
    let procs = vec![proc(11, 10, "cmd.exe"), proc(12, 11, "wsl.exe"), proc(13, 99, "ssh.exe")];
    assert!(has_vt_bridge_descendant(&procs, 10));
    assert!(!has_vt_bridge_descendant(&procs, 12));
}

#[test]
fn foreground_name_and_directory_fall_back() {
    assert_eq!(get_foreground_process_name(10, Some(12), Some("vim".to_string())), Some("vim".to_string()));
    assert_eq!(get_foreground_process_name(10, Some(12), None), None);
    let own = Some("C:\\own".to_string());
    let target = Some("C:\\target".to_string());
    assert_eq!(get_foreground_cwd(10, Some(12), target.clone(), own.clone()), target);
    assert_eq!(get_foreground_cwd(10, Some(12), None, own.clone()), own);
}

#[test]
fn directory_is_read_step_by_step() {
    assert!(matches!(get_process_cwd(0), CwdStep::Unreadable));
    assert!(matches!(get_process_cwd(5), CwdStep::QueryBlock));
    assert!(matches!(
        read_process_cwd(true, CwdReply::Block { status: 0, address: 0x1000 }),
        CwdStep::ReadPointer { at: 0x1020 }
    ));
    assert!(matches!(read_process_cwd(true, CwdReply::Block { status: -1, address: 0x1000 }), CwdStep::Unreadable));
    assert!(matches!(
        read_process_cwd(true, CwdReply::Counted { ok: true, length: 0, buffer: 4 }),
        CwdStep::Unreadable
    ));
    let wide: Vec<u16> = "C:\\Users\\".encode_utf16().collect();
    match read_process_cwd(true, CwdReply::Text { ok: true, units: wide }) {
        CwdStep::Found(s) => assert_eq!(s, "C:\\Users"),
        _ => panic!("no directory"),
    }
}

#[test]
fn console_modes_gain_and_lose_bits() {
    assert_eq!(enable_virtual_terminal_processing(Some(3)), Some(7));
    assert_eq!(enable_virtual_terminal_processing(None), None);
    assert_eq!(disable_vti_on_stdin(Some(0x201)), Some(0x001));
    assert_eq!(disable_vti_on_stdin(Some(0x001)), None);
    assert_eq!(handle_ctrl_event(2), 1);
    assert_eq!(handle_ctrl_event(0), 0);
    assert_eq!(console_output_device_name(), "CONOUT$");
    assert_eq!(open_console_output_handle(false, true), OutputHandle::Device);
    assert_eq!(open_console_output_handle(true, true), OutputHandle::Standard);
    assert!(prepare_tui_stdout(false, true));
    assert!(!prepare_tui_stdout(true, true));
    assert_eq!(raw_modes(0x1F7, 3).1, 0x0F);
}

#[test]
fn shift_is_added_to_enter() {
    assert_eq!(augment_enter_shift(true, 0, true, false, false), SHIFT);
    assert_eq!(augment_enter_shift(true, CONTROL | ALT, true, false, true), SHIFT | ALT);
    assert_eq!(augment_enter_shift(false, CONTROL, true, false, false), CONTROL);
    assert_eq!(augment_enter_shift(true, CONTROL, false, false, false), CONTROL);
}

#[test]
fn caret_follows_the_cell() {
    assert_eq!(console_cell_size(Some((10, 20))), (10, 20));
    let u = update(3, 4, true, false, Some((10, 20))).unwrap();
    assert_eq!(u.create, Some((10, 20)));
    assert_eq!(u.position, (30, 80));
    let again = update(1, 1, true, true, Some((10, 20))).unwrap();
    assert_eq!(again.create, None);
    assert!(update(1, 1, false, true, None).is_none());
    let mut created = true;
    assert!(destroy(&mut created));
    assert!(!created);
    assert!(!destroy(&mut created));
}

#[test]
fn ime_is_put_back_only_if_it_was_on() {
    assert!(ime_disable(Some(true)));
    assert!(!ime_disable(Some(false)));
    assert!(!ime_disable(None));
    assert!(ime_restore(true, true));
    assert!(!ime_restore(true, false));
}

#[test]
fn text_that_is_split_between_writes_comes_out_whole() {
    let mut b = FrameBuffer::new();
    assert!(b.flush().is_none());
    let bytes = "a€".as_bytes();
    assert_eq!(b.write(&bytes[..2]), 2);
    let plan = b.flush().unwrap();
    assert_eq!(plan.narrow, b"a");
    assert_eq!(plan.wide, vec![0x61]);
    assert_eq!(plan.keep_from, 1);
    b.settle(plan.keep_from);
    b.write(&bytes[2..]);
    let plan = b.flush().unwrap();
    assert_eq!(plan.wide, vec![0x20AC]);
    b.settle(plan.keep_from);
    assert!(b.bytes.is_empty());
}

#[test]
fn faulty_bytes_are_skipped() {
    let mut b = FrameBuffer::new();
    b.write(&[0x61, 0xFF, 0x62]);
    let plan = b.flush().unwrap();
    assert_eq!(plan.narrow, b"a");
    assert_eq!(plan.keep_from, 2);
    b.settle(plan.keep_from);
    assert_eq!(b.bytes, b"b");
}

#[test]
fn flush_goes_on_after_a_partial_write() {
    let mut b = FrameBuffer::new();
    b.write(b"hello");
    let plan = b.flush().unwrap();
    let mut w = FlushWriter::start(&plan);
    assert_eq!(w.step, WriteStep::Wide { from: 0, count: 5 });
    w.advance(WriteReply::Took(2));
    assert_eq!(w.step, WriteStep::Wide { from: 2, count: 3 });
    w.advance(WriteReply::Took(3));
    assert_eq!(w.step, WriteStep::Finished);
}

#[test]
fn mouse_events_go_to_the_other_console_and_back() {
    let (i, moved) = send_mouse_event(7, 3, 4, 1, 0, true, true, None);
    assert!(!moved);
    let (calls, outcome) = walk(i.unwrap(), 0x40);
    assert_eq!(calls[0], Call::Free);
    assert_eq!(calls[1], Call::Attach { pid: 7 });
    let changed = calls.iter().position(|c| *c == Call::SetMode { mode: 0x90 }).unwrap();
    let written = calls.iter().position(|c| *c == Call::Write { from: 0, count: 1 }).unwrap();
    let restored = calls.iter().position(|c| *c == Call::SetMode { mode: 0x40 }).unwrap();
    assert!(changed < written && written < restored);
    assert_eq!(*calls.last().unwrap(), Call::AttachParent);
    assert_eq!(outcome, Outcome::Sent(true));
}

#[test]
fn drags_are_throttled() {
    assert!(send_mouse_event(7, 3, 4, 1, 1, true, true, Some(0)).0.is_none());
    assert!(send_mouse_event(7, 3, 4, 1, 1, true, true, Some(1000)).0.is_some());
    assert!(send_mouse_event(7, 3, 4, 1, 0, true, true, Some(0)).0.is_some());
}

#[test]
fn queries_read_a_bit_of_the_mode() {
    assert_eq!(walk(query_vti_enabled(7, true), 0x200).1, Outcome::Answer(Some(true)));
    assert_eq!(walk(query_vti_enabled(7, true), 0x1FF).1, Outcome::Answer(Some(false)));
    assert_eq!(walk(query_mouse_input_enabled(7, false), 0x10).1, Outcome::Answer(Some(true)));
}

#[test]
fn console_that_cannot_be_attached_is_left() {
    let mut i = query_vti_enabled(7, true);
    i.machine.step(Reply::Done);
    i.machine.step(Reply::Status(false));
    assert_eq!(i.machine.call, Call::AttachParent);
    i.machine.step(Reply::Done);
    assert_eq!(i.machine.call, Call::Finish);
    assert_eq!(i.machine.outcome, Outcome::Answer(None));
}

#[test]
fn sequences_are_written_and_the_mode_restored() {
    let (calls, outcome) = walk(send_vt_sequence(7, b"\x1b[A", true), 0x40);
    assert_eq!(outcome, Outcome::Sent(true));
    let restored = calls.iter().rev().find(|c| matches!(c, Call::SetMode { .. })).unwrap();
    assert_eq!(*restored, Call::SetMode { mode: 0x40 });
}

#[test]
fn pastes_have_carriage_returns_only() {
    let i = send_bracketed_paste(7, "a\nb\r\nc\rd", true, true);
    let text = String::from_utf16(&units(&i)).unwrap();
    assert_eq!(text, "\x1b[200~a\rb\rc\rd\x1b[201~");
    let bare = send_bracketed_paste(7, "x😀", false, true);
    assert_eq!(String::from_utf16(&units(&bare)).unwrap(), "x😀");
    assert_eq!(walk(bare, 0).1, Outcome::Sent(true));
}

#[test]
fn long_pastes_go_in_chunks() {
    let text = "x".repeat(5000);
    let (calls, outcome) = walk(send_bracketed_paste(7, &text, false, true), 0);
    let writes: Vec<Call> = calls.iter().copied().filter(|c| matches!(c, Call::Write { .. })).collect();
    assert_eq!(
        writes,
        vec![
            Call::Write { from: 0, count: 2048 },
            Call::Write { from: 2048, count: 2048 },
            Call::Write { from: 4096, count: 904 },
        ]
    );
    assert!(calls.contains(&Call::Sleep { ms: 5 }));
    assert_eq!(outcome, Outcome::Sent(true));
}

#[test]
fn interrupts_are_not_heeded_here() {
    let (calls, outcome) = walk(send_ctrl_c_event(7, true, true), 0);
    let ignore = calls.iter().position(|c| *c == Call::IgnoreInterrupts { on: true }).unwrap();
    let interrupt = calls.iter().position(|c| *c == Call::Interrupt).unwrap();
    let heed = calls.iter().position(|c| *c == Call::IgnoreInterrupts { on: false }).unwrap();
    assert!(ignore < interrupt && interrupt < heed);
    assert_eq!(outcome, Outcome::Sent(true));
}

#[test]
fn keys_are_pressed_and_released() {
    let i = send_modified_key_event(7, 'a', true, false, false, 0x41, 0x1E, true);
    assert_eq!(i.records.len(), 2);
    match (i.records[0], i.records[1]) {
        (InputRecord::Key(down), InputRecord::Key(up)) => {
            assert_eq!((down.key_down, up.key_down), (1, 0));
            assert_eq!(down.virtual_key_code, 0x41);
            assert_eq!(down.u_char, 1);
            assert_eq!(down.control_key_state & 0x8, 0x8);
        }
        _ => panic!("no keys"),
    }
    let enter = send_modified_enter_event(7, false, false, true, 0x1C, true);
    match enter.records[0] {
        InputRecord::Key(k) => {
            assert_eq!(k.virtual_key_code, 0x0D);
            assert_eq!(k.control_key_state & 0x10, 0x10);
        }
        _ => panic!("no key"),
    }
    let alt = send_alt_key_event(7, 'x', 0x58, 0x2D, true);
    match alt.records[0] {
        InputRecord::Key(k) => assert_eq!(k.control_key_state & 0x2, 0x2),
        _ => panic!("no key"),
    }
    assert_eq!(key_unit('é'), 0xE9);
    assert_eq!(char_to_vk(0x0141), 0x41);
    assert_eq!(vk_to_scan(0x1E), 0x1E);
}

#[test]
fn other_systems_have_no_console() {
    portable::enable_virtual_terminal_processing();
    portable::disable_vti_on_stdin();
    portable::install_console_ctrl_handler();
    portable::prepare_tui_stdout();
    assert!(!portable::send_mouse_event(1, 0, 0, 0, 0, true));
    assert!(!portable::send_vt_sequence(1, b"x"));
    assert_eq!(portable::query_vti_enabled(1), None);
    assert_eq!(portable::get_process_name(1), None);
    assert!(!portable::has_vt_bridge_descendant(1));
    assert_eq!(portable::char_to_vk('a'), 0);
}

#[test]
fn faulty_sequences_are_dropped_as_a_whole() {
    for (bytes, keep) in [
        (&[0xF0u8, 0x90, 0x41][..], 2),
        (&[0xE0, 0x80, 0x41][..], 1),
        (&[0xF0, 0x90, 0x80, 0x41][..], 3),
        (&[0x80][..], 1),
        (&[0xF0, 0x90, 0x80][..], 0),
    ] {
        let mut b = FrameBuffer::new();
        b.write(bytes);
        assert_eq!(b.flush().unwrap().keep_from, keep);
    }
}

#[test]
fn a_flush_goes_by_the_answer_of_the_check() {
    let bytes = b"ab\xFFc".to_vec();
    let plan = flush_plan(&bytes, Some((2, Some(1))));
    assert_eq!((plan.narrow.as_slice(), plan.keep_from), (&b"ab"[..], 3));
    let plan = flush_plan(&bytes, Some((2, None)));
    assert_eq!(plan.keep_from, 2);
    let plan = flush_plan(&b"ab".to_vec(), None);
    assert_eq!((plan.wide, plan.keep_from), (vec![0x61, 0x62], 2));
}

#[test]
fn the_log_of_names_holds_a_hundred_entries() {
    assert!(logs_entry(0) && logs_entry(99));
    assert!(!logs_entry(100));
}

#[test]
fn descendants_come_by_their_distance() {
    let table = vec![(5, 4), (2, 1), (4, 2), (3, 1)];
    assert_eq!(collect_descendants_from_table(&table, 1), vec![2, 3, 4, 5]);
}
