//! The session as a whole: its description, its files, its name, and the server that
//! stands by for the next one.

use vstd::prelude::*;
use crate::cli::global::{file_base, port_file_base};
use crate::cli::server_args::ServerSetup;
use crate::cli::words::opt_text;
use crate::text::{
    decimal, lemma_replaced_first, push_number, push_signed, replace, replaced, same, signed_decimal,
};

verus! {

/// The text of a time, where there is one: `secs` are the seconds since 1970 began, `offset`
/// how far the clock is ahead of the universal one, in seconds.
pub uninterp spec fn time_text(secs: i64, offset: i32, format: Seq<char>) -> Option<Seq<char>>;

/// `chrono::DateTime::format` writes a time in a format. It is a function of the time, the
/// offset and the format. An offset of a day or more is refused by
/// `chrono::FixedOffset::east_opt`, and times up to the end of the year 9999 are within
/// what `chrono::DateTime::from_timestamp` takes. The one format that is admitted holds no
/// specifier that would make writing fail.
#[verifier::external_body]
fn format_time(secs: i64, offset: i32, format: &str) -> (r: Option<String>)
    requires
        format@ == "%a %b %e %H:%M:%S %Y"@,
    ensures
        opt_text(r) == time_text(secs, offset, format@),
        !(-86400 < offset < 86400) ==> r is None,
        -86400 < offset < 86400 && 0 <= secs <= 253402300799 ==> r is Some,
{
    let zone = chrono::FixedOffset::east_opt(offset)?;
    let time = chrono::DateTime::from_timestamp(secs, 0)?;
    Some(time.with_timezone(&zone).format(format).to_string())
}

/// The line that describes a session.
pub open spec fn info_line(
    name: Seq<char>,
    windows: nat,
    created: Seq<char>,
    group: Option<Seq<char>>,
    attached: bool,
) -> Seq<char> {
    name + ": "@ + decimal(windows) + " windows (created "@ + created + ")"@ + (match group {
        Some(g) => " (group "@ + g + ")"@,
        None => Seq::empty(),
    }) + (if attached {
        " (attached)"@
    } else {
        ""@
    }) + "\n"@
}

/// The line that describes a session: its name, its windows, when it was made, the group it
/// belongs to, and whether a client is attached.
pub fn session_info_line(
    name: &str,
    windows: usize,
    created: &str,
    group: &Option<String>,
    clients: usize,
) -> (r: String)
    ensures
        r@ == info_line(name@, windows as nat, created@, opt_text(*group), clients > 0),
{
    let mut line = name.to_owned();
    line.append(": ");
    push_number(&mut line, windows as u64);
    line.append(" windows (created ");
    line.append(created);
    line.append(")");
    let mut in_group = String::new();
    if let Some(g) = group {
        in_group = " (group ".to_owned();
        in_group.append(g.as_str());
        in_group.append(")");
    }
    line.append(in_group.as_str());
    if clients > 0 {
        line.append(" (attached)");
    } else {
        line.append("");
    }
    line.append("\n");
    line
}

/// The line that describes a session which was made at a time. There is none where the
/// calendar knows no such time.
pub fn session_info(
    name: &str,
    windows: usize,
    created_secs: i64,
    utc_offset: i32,
    group: &Option<String>,
    clients: usize,
) -> (r: Option<String>)
    ensures
        opt_text(r) == (match time_text(created_secs, utc_offset, "%a %b %e %H:%M:%S %Y"@) {
            Some(t) => Some(info_line(name@, windows as nat, t, opt_text(*group), clients > 0)),
            None => None,
        }),
        -86400 < utc_offset < 86400 && 0 <= created_secs <= 253402300799 ==> r is Some,
{
    match format_time(created_secs, utc_offset, "%a %b %e %H:%M:%S %Y") {
        Some(created) => Some(session_info_line(name, windows, created.as_str(), group, clients)),
        None => None,
    }
}

/// The description of a server.
pub open spec fn server_text(
    version: Seq<char>,
    pid: u32,
    session: Seq<char>,
    windows: nat,
    uptime: int,
    socket: Seq<char>,
) -> Seq<char> {
    "psmux "@ + version + " (Windows)\npid: "@ + decimal(pid as nat) + "\nsession: "@ + session
        + "\nwindows: "@ + decimal(windows) + "\nuptime: "@ + signed_decimal(uptime) + "s\nsocket: "@
        + socket
}

/// Describes a server: `uptime` is how long the session has been there, in seconds.
pub fn server_info(
    version: &str,
    pid: u32,
    session: &str,
    windows: usize,
    uptime: i64,
    socket: &str,
) -> (r: String)
    ensures
        r@ == server_text(version@, pid, session@, windows as nat, uptime as int, socket@),
{
    let mut s = "psmux ".to_owned();
    s.append(version);
    s.append(" (Windows)\npid: ");
    push_number(&mut s, pid as u64);
    s.append("\nsession: ");
    s.append(session);
    s.append("\nwindows: ");
    push_number(&mut s, windows as u64);
    s.append("\nuptime: ");
    push_signed(&mut s, uptime);
    s.append("s\nsocket: ");
    s.append(socket);
    s
}

/// The path of a file of a session.
pub open spec fn session_file(home: Seq<char>, base: Seq<char>, extension: Seq<char>) -> Seq<char> {
    home + "\\.psmux\\"@ + base + extension
}

/// The path of a file of a session.
pub fn session_path(home: &str, base: &str, extension: &str) -> (r: String)
    ensures
        r@ == session_file(home@, base@, extension@),
{
    let mut s = home.to_owned();
    s.append("\\.psmux\\");
    s.append(base);
    s.append(extension);
    s
}

/// The files that a session has under its name, and those that it has under another.
pub struct RenamePlan {
    pub old_port: String,
    pub old_key: String,
    pub new_port: String,
    pub new_key: String,
    /// The name of the files, which the processes of the session find it by.
    pub target: String,
}

/// Plans to rename a session: its files go from one name to the other.
pub fn rename_session(home: &str, socket: &Option<String>, old_name: &str, new_name: &str) -> (r:
    RenamePlan)
    ensures
        r.old_port@ == session_file(home@, file_base(opt_text(*socket), old_name@), ".port"@),
        r.old_key@ == session_file(home@, file_base(opt_text(*socket), old_name@), ".key"@),
        r.new_port@ == session_file(home@, file_base(opt_text(*socket), new_name@), ".port"@),
        r.new_key@ == session_file(home@, file_base(opt_text(*socket), new_name@), ".key"@),
        r.target@ == file_base(opt_text(*socket), new_name@),
{
    let old_base = port_file_base(socket, old_name);
    let new_base = port_file_base(socket, new_name);
    RenamePlan {
        old_port: session_path(home, old_base.as_str(), ".port"),
        old_key: session_path(home, old_base.as_str(), ".key"),
        new_port: session_path(home, new_base.as_str(), ".port"),
        new_key: session_path(home, new_base.as_str(), ".key"),
        target: new_base,
    }
}

/// What is typed into the shell of a session that stood by, to bring it to a directory. The
/// space in front keeps it out of the shell's history.
pub open spec fn cd_text(dir: Seq<char>, windows: bool) -> Seq<char> {
    " cd '"@ + replaced(dir, '\'', "''"@) + "'; "@ + (if windows {
        "cls"@
    } else {
        "clear"@
    }) + "\r"@
}

/// What is typed into the shell of a session that stood by, to bring it to a directory.
pub fn cd_command(dir: &str, windows: bool) -> (r: String)
    ensures
        r@ == cd_text(dir@, windows),
{
    let escaped = replace(dir, '\'', "''");
    let mut s = " cd '".to_owned();
    s.append(escaped.as_str());
    s.append("'; ");
    if windows {
        s.append("cls");
    } else {
        s.append("clear");
    }
    s.append("\r");
    s
}

/// What a text in single quotes stands for, from behind the first quote on: two quotes stand
/// for one, and one alone ends the text. With it comes what stands behind the end.
pub open spec fn single_quoted(s: Seq<char>) -> Option<(Seq<char>, Seq<char>)>
    decreases s.len(),
{
    if s.len() == 0 {
        None
    } else if s[0] != '\'' {
        match single_quoted(s.skip(1)) {
            Some((t, rest)) => Some((seq![s[0]] + t, rest)),
            None => None,
        }
    } else if s.len() > 1 && s[1] == '\'' {
        match single_quoted(s.skip(2)) {
            Some((t, rest)) => Some((seq!['\''] + t, rest)),
            None => None,
        }
    } else {
        Some((Seq::empty(), s.skip(1)))
    }
}

/// The shell reads the very directory back, whatever quotes stand in its name, and the
/// command behind it stays apart.
pub proof fn directory_reads_back(dir: Seq<char>, rest: Seq<char>)
    requires
        rest.len() > 0 ==> rest[0] != '\'',
    ensures
        single_quoted(replaced(dir, '\'', "''"@) + seq!['\''] + rest) == Some((dir, rest)),
    decreases dir.len(),
{
    reveal_strlit("''");
    let text = replaced(dir, '\'', "''"@) + seq!['\''] + rest;
    if dir.len() == 0 {
        assert(text =~= seq!['\''] + rest);
        assert(text.skip(1) =~= rest);
        assert(dir =~= Seq::empty());
    } else {
        lemma_replaced_first(dir, '\'', "''"@);
        directory_reads_back(dir.skip(1), rest);
        let tail = replaced(dir.skip(1), '\'', "''"@) + seq!['\''] + rest;
        if dir[0] == '\'' {
            assert("''"@ =~= seq!['\'', '\'']);
            assert(text =~= seq!['\'', '\''] + tail);
            assert(text.skip(2) =~= tail);
        } else {
            assert(text =~= seq![dir[0]] + tail);
            assert(text.skip(1) =~= tail);
        }
        assert(seq![dir[0]] + dir.skip(1) =~= dir);
    }
}

/// Whether a server that stands by is started: where that is enabled, where the session is
/// none itself, and where the session may live on without clients.
pub fn should_spawn_warm_server(warm_enabled: bool, session: &str, destroy_unattached: bool) -> (r: bool)
    ensures
        r == (warm_enabled && session@ != "__warm__"@ && !destroy_unattached),
{
    warm_enabled && !same(session, "__warm__") && !destroy_unattached
}

/// The setup of a server that stands by: it has the size of this session's windows, unless
/// they are no larger than one cell.
pub fn spawn_warm_server(socket: &Option<String>, area: (u16, u16)) -> (r: ServerSetup)
    ensures
        r.name@ == "__warm__"@,
        opt_text(r.socket) == opt_text(*socket),
        r.command is None && r.dir is None && r.window is None && r.group is None && r.raw is None,
        r.env@.len() == 0,
        area.0 > 1 && area.1 > 1 ==> r.width == Some(area.0) && r.height == Some(area.1),
        !(area.0 > 1 && area.1 > 1) ==> r.width is None && r.height is None,
{
    let sized: bool = area.0 > 1 && area.1 > 1;
    ServerSetup {
        name: "__warm__".to_owned(),
        socket: socket.clone(),
        command: None,
        dir: None,
        window: None,
        width: if sized {
            Some(area.0)
        } else {
            None
        },
        height: if sized {
            Some(area.1)
        } else {
            None
        },
        group: None,
        env: Vec::new(),
        raw: None,
    }
}

/// Whether a pane is started before the configuration is read: where the first one runs the
/// shell, in the common directory.
pub fn starts_pane_early(command: &Option<String>, raw: &Option<Vec<String>>, dir: &Option<String>) -> (r:
    bool)
    ensures
        r == (command is None && raw is None && dir is None),
{
    command.is_none() && raw.is_none() && dir.is_none()
}

/// Whether what a pane shows is hidden for now: until the screen was cleared behind an
/// injected command, or a time has come. Times are in milliseconds.
pub fn is_active_pane_squelched(until: Option<u64>, cleared: bool, now: u64) -> (r: bool)
    ensures
        r == (until is Some && !cleared && now < until->0),
{
    match until {
        Some(t) => !cleared && now < t,
        None => false,
    }
}

} // verus!
