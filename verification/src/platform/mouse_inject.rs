//! Writing input straight into the console of a pane's process.
//!
//! A process has one console at a time. To reach the console of another process it
//! gives up its own, attaches to the other's, opens the input buffer there, does
//! its work, and goes back. An [`Injection`] is that walk: it names the next system
//! call, takes the reply, and goes on, until it names none.

use vstd::prelude::*;
use crate::text::{chars_of, lower_ascii, lowered_ascii, upper_ascii, uppered_ascii};
use crate::utf16::{encode, first_unit, first_unit_of, push_units, units_of, utf16};

verus! {

pub const ENABLE_PROCESSED_INPUT: u32 = 0x0001;

pub const ENABLE_MOUSE_INPUT: u32 = 0x0010;

pub const ENABLE_QUICK_EDIT_MODE: u32 = 0x0040;

pub const ENABLE_EXTENDED_FLAGS: u32 = 0x0080;

pub const ENABLE_VIRTUAL_TERMINAL_INPUT: u32 = 0x0200;

/// The left button is down.
pub const FROM_LEFT_1ST_BUTTON_PRESSED: u32 = 0x0001;

/// The right button is down.
pub const RIGHTMOST_BUTTON_PRESSED: u32 = 0x0002;

/// The middle button is down.
pub const FROM_LEFT_2ND_BUTTON_PRESSED: u32 = 0x0004;

/// The mouse was moved.
pub const MOUSE_MOVED: u32 = 0x0001;

/// The wheel was turned.
pub const MOUSE_WHEELED: u32 = 0x0004;

pub const LEFT_ALT_PRESSED: u32 = 0x0002;

pub const LEFT_CTRL_PRESSED: u32 = 0x0008;

pub const SHIFT_PRESSED: u32 = 0x0010;

/// The virtual key of Enter.
pub const VK_RETURN: u16 = 0x0D;

/// How many milliseconds lie at least between two drag events.
pub const DRAG_THROTTLE_MS: u64 = 16;

/// How many records of a paste are written at once.
pub const CHUNK_SIZE: usize = 2048;

/// The input buffer is opened to read.
pub const GENERIC_READ: u32 = 0x80000000;

/// The input buffer is opened to write.
pub const GENERIC_WRITE: u32 = 0x40000000;

/// A key pressed or released.
#[derive(Clone, Copy, PartialEq, Eq, Structural, Debug)]
pub struct KeyRecord {
    pub key_down: i32,
    pub repeat_count: u16,
    pub virtual_key_code: u16,
    pub virtual_scan_code: u16,
    pub u_char: u16,
    pub control_key_state: u32,
}

/// A mouse event.
#[derive(Clone, Copy, PartialEq, Eq, Structural, Debug)]
pub struct MouseRecord {
    pub x: i16,
    pub y: i16,
    pub button_state: u32,
    pub control_key_state: u32,
    pub event_flags: u32,
}

/// A record of a console's input buffer.
#[derive(Clone, Copy, PartialEq, Eq, Structural, Debug)]
pub enum InputRecord {
    Key(KeyRecord),
    Mouse(MouseRecord),
}

/// What is done while attached to the other console.
#[derive(Clone, Copy, PartialEq, Eq, Structural, Debug)]
pub enum Task {
    /// Tell whether a bit of the input mode is set.
    Query { bit: u32 },
    /// Write a mouse event, with mouse input switched on meanwhile.
    Mouse,
    /// Write a sequence of characters, with terminal input switched on meanwhile.
    Sequence,
    /// Write a paste, in chunks.
    Paste,
    /// Press and release a key.
    Key,
    /// Interrupt the processes on the console.
    Interrupt,
}

/// A system call that an injection asks for.
#[derive(Clone, Copy, PartialEq, Eq, Structural, Debug)]
pub enum Call {
    /// Give up the console.
    Free,
    /// Attach to the console of a process.
    Attach { pid: u32 },
    /// Attach to the console of the parent process, the one given up before.
    AttachParent,
    /// Open the input buffer.
    Open { access: u32 },
    /// Close the input buffer.
    Close,
    /// Read the input mode.
    GetMode,
    /// Set the input mode.
    SetMode { mode: u32 },
    /// Write `count` records, starting with record `from`.
    Write { from: usize, count: usize },
    /// Wait.
    Sleep { ms: u64 },
    /// Let this process ignore interrupts, or no longer.
    IgnoreInterrupts { on: bool },
    /// Interrupt all processes on the console.
    Interrupt,
    /// Nothing more.
    Finish,
}

/// The reply to a system call. A call without a result is answered `Done`.
#[derive(Clone, Copy, PartialEq, Eq, Structural, Debug)]
pub enum Reply {
    Done,
    /// Whether the call succeeded.
    Status(bool),
    /// The mode, where it could be read.
    Mode(Option<u32>),
    /// Whether the write succeeded, and how many records it took.
    Written { ok: bool, count: u32 },
}

/// What an injection came to.
#[derive(Clone, Copy, PartialEq, Eq, Structural, Debug)]
pub enum Outcome {
    /// The answer to a query, where there is one.
    Answer(Option<bool>),
    /// Whether the input was delivered.
    Sent(bool),
}

/// Where an injection stands.
#[derive(Clone, Copy, PartialEq, Eq, Structural, Debug)]
pub enum Phase {
    Leaving,
    Attaching,
    Opening,
    ReadingMode,
    SettingMode,
    Writing { again: bool },
    Waiting { again: bool },
    RestoringMode,
    Closing,
    Detaching,
    Ignoring,
    Interrupting,
    Draining,
    Settling,
    Heeding,
    Returning,
    Over,
}

/// The walk to another console and back.
#[derive(Clone, Copy, PartialEq, Eq, Structural, Debug)]
pub struct Machine {
    pub task: Task,
    pub pid: u32,
    /// Whether there was a console to go back to.
    pub had_console: bool,
    /// How many records there are to write.
    pub total: usize,
    /// How many records have been written.
    pub offset: usize,
    /// The input mode as it was found.
    pub saved: Option<u32>,
    pub outcome: Outcome,
    pub phase: Phase,
    /// The call to make now.
    pub call: Call,
}

/// The outcome of a task that was not carried out.
pub open spec fn failure(task: Task) -> Outcome {
    if task is Query {
        Outcome::Answer(None)
    } else {
        Outcome::Sent(false)
    }
}

/// The start of a walk.
pub open spec fn started(task: Task, pid: u32, had_console: bool, total: usize) -> Machine {
    Machine {
        task,
        pid,
        had_console,
        total,
        offset: 0,
        saved: None,
        outcome: failure(task),
        phase: Phase::Leaving,
        call: Call::Free,
    }
}

/// The input mode in which mouse events reach the foreground process.
pub open spec fn mouse_mode(mode: u32) -> u32 {
    (mode | ENABLE_MOUSE_INPUT | ENABLE_EXTENDED_FLAGS) & !ENABLE_QUICK_EDIT_MODE
}

/// The input mode in which a sequence of characters reaches it unchanged.
pub open spec fn sequence_mode(mode: u32) -> u32 {
    (mode | ENABLE_EXTENDED_FLAGS | ENABLE_VIRTUAL_TERMINAL_INPUT) & !ENABLE_QUICK_EDIT_MODE
}

/// The mode that a task wants, given the one it found.
pub open spec fn wanted_mode(task: Task, mode: u32) -> u32 {
    match task {
        Task::Mouse => mouse_mode(mode),
        Task::Sequence => sequence_mode(mode),
        Task::Interrupt => if mode & ENABLE_PROCESSED_INPUT == 0 {
            mode | ENABLE_PROCESSED_INPUT
        } else {
            mode
        },
        _ => mode,
    }
}

/// How a task opens the input buffer.
pub open spec fn access(task: Task) -> u32 {
    if task is Query {
        GENERIC_READ
    } else {
        GENERIC_READ | GENERIC_WRITE
    }
}

/// The same walk in another phase, about to make a call.
pub open spec fn at(m: Machine, phase: Phase, call: Call) -> Machine {
    Machine { phase, call, ..m }
}

/// How many records the next write takes.
pub open spec fn chunk(m: Machine) -> usize {
    if m.task is Paste && m.total - m.offset > CHUNK_SIZE {
        CHUNK_SIZE
    } else {
        (m.total - m.offset) as usize
    }
}

/// The walk as it goes on to write, or to close where nothing is left to write.
pub open spec fn writing(m: Machine, again: bool) -> Machine {
    if m.task is Paste && m.offset >= m.total {
        at(Machine { outcome: Outcome::Sent(m.offset == m.total), ..m }, Phase::Closing, Call::Close)
    } else {
        at(m, Phase::Writing { again }, Call::Write { from: m.offset, count: chunk(m) })
    }
}

/// The walk as it goes on once the mode is what the task wants.
pub open spec fn ready(m: Machine) -> Machine {
    match m.task {
        Task::Mouse | Task::Sequence => writing(m, false),
        _ => at(m, Phase::Closing, Call::Close),
    }
}

/// The walk as it goes back to its own console, if there was one.
pub open spec fn returning(m: Machine) -> Machine {
    if m.had_console {
        at(m, Phase::Returning, Call::AttachParent)
    } else {
        at(m, Phase::Over, Call::Finish)
    }
}

/// The walk after the input buffer was closed, or could not be opened.
pub open spec fn closed(m: Machine) -> Machine {
    if m.task is Interrupt {
        at(m, Phase::Ignoring, Call::IgnoreInterrupts { on: true })
    } else {
        at(m, Phase::Detaching, Call::Free)
    }
}

/// The walk after a write.
pub open spec fn after_write(m: Machine, again: bool, ok: bool, count: u32) -> Machine {
    match m.task {
        Task::Paste => if !ok || count == 0 {
            if again {
                at(Machine { outcome: Outcome::Sent(false), ..m }, Phase::Closing, Call::Close)
            } else {
                at(m, Phase::Waiting { again: true }, Call::Sleep { ms: 10 })
            }
        } else if m.offset + count > m.total {
            at(Machine { outcome: Outcome::Sent(false), ..m }, Phase::Closing, Call::Close)
        } else {
            let n = Machine { offset: (m.offset + count) as usize, ..m };
            if n.offset < n.total && chunk(m) >= CHUNK_SIZE {
                at(n, Phase::Waiting { again: false }, Call::Sleep { ms: 5 })
            } else {
                writing(n, false)
            }
        },
        Task::Mouse | Task::Sequence => {
            let n = Machine { outcome: Outcome::Sent(ok), ..m };
            match m.saved {
                Some(mode) => at(n, Phase::RestoringMode, Call::SetMode { mode }),
                None => at(n, Phase::Closing, Call::Close),
            }
        },
        Task::Key => at(
            Machine { outcome: Outcome::Sent(ok && count >= 1), ..m },
            Phase::Closing,
            Call::Close,
        ),
        _ => at(Machine { outcome: Outcome::Sent(ok), ..m }, Phase::Closing, Call::Close),
    }
}

/// The walk after the input mode was read.
pub open spec fn after_mode(m: Machine, mode: Option<u32>) -> Machine {
    let n = Machine { saved: mode, ..m };
    match m.task {
        Task::Query { bit } => at(
            Machine {
                outcome: Outcome::Answer(
                    match mode {
                        Some(v) => Some(v & bit != 0),
                        None => None,
                    },
                ),
                ..n
            },
            Phase::Closing,
            Call::Close,
        ),
        _ => match mode {
            Some(v) => if wanted_mode(m.task, v) != v {
                at(n, Phase::SettingMode, Call::SetMode { mode: wanted_mode(m.task, v) })
            } else {
                ready(n)
            },
            None => ready(n),
        },
    }
}

/// The walk one reply further.
pub open spec fn next(m: Machine, reply: Reply) -> Machine {
    match m.phase {
        Phase::Leaving => at(m, Phase::Attaching, Call::Attach { pid: m.pid }),
        Phase::Attaching => if reply == Reply::Status(true) {
            at(m, Phase::Opening, Call::Open { access: access(m.task) })
        } else {
            returning(m)
        },
        Phase::Opening => if reply == Reply::Status(true) {
            match m.task {
                Task::Paste | Task::Key => writing(m, false),
                _ => at(m, Phase::ReadingMode, Call::GetMode),
            }
        } else {
            closed(m)
        },
        Phase::ReadingMode => after_mode(
            m,
            match reply {
                Reply::Mode(mode) => mode,
                _ => None,
            },
        ),
        Phase::SettingMode => ready(m),
        Phase::Writing { again } => match reply {
            Reply::Written { ok, count } => after_write(m, again, ok, count),
            _ => after_write(m, again, false, 0),
        },
        Phase::Waiting { again } => writing(m, again),
        Phase::RestoringMode => at(m, Phase::Closing, Call::Close),
        Phase::Closing => closed(m),
        Phase::Detaching => returning(m),
        Phase::Ignoring => at(m, Phase::Interrupting, Call::Interrupt),
        Phase::Interrupting => at(
            Machine { outcome: Outcome::Sent(reply == Reply::Status(true)), ..m },
            Phase::Draining,
            Call::Free,
        ),
        Phase::Draining => at(m, Phase::Settling, Call::Sleep { ms: 5 }),
        Phase::Settling => at(m, Phase::Heeding, Call::IgnoreInterrupts { on: false }),
        Phase::Heeding => returning(m),
        Phase::Returning => at(m, Phase::Over, Call::Finish),
        Phase::Over => m,
    }
}

impl Machine {
    /// What every walk keeps: no more was written than there is.
    pub open spec fn wf(self) -> bool {
        self.offset <= self.total
    }

    fn go(&mut self, phase: Phase, call: Call)
        ensures
            *final(self) == at(*old(self), phase, call),
    {
        self.phase = phase;
        self.call = call;
    }

    fn go_write(&mut self, again: bool)
        requires
            old(self).wf(),
        ensures
            *final(self) == writing(*old(self), again),
    {
        let is_paste = matches!(self.task, Task::Paste);
        if is_paste && self.offset >= self.total {
            self.outcome = Outcome::Sent(self.offset == self.total);
            self.go(Phase::Closing, Call::Close);
        } else {
            let left: usize = self.total - self.offset;
            let count: usize = if is_paste && left > CHUNK_SIZE { CHUNK_SIZE } else { left };
            let from: usize = self.offset;
            self.go(Phase::Writing { again }, Call::Write { from, count });
        }
    }

    fn go_ready(&mut self)
        requires
            old(self).wf(),
        ensures
            *final(self) == ready(*old(self)),
    {
        match self.task {
            Task::Mouse => self.go_write(false),
            Task::Sequence => self.go_write(false),
            _ => self.go(Phase::Closing, Call::Close),
        }
    }

    fn go_return(&mut self)
        ensures
            *final(self) == returning(*old(self)),
    {
        if self.had_console {
            self.go(Phase::Returning, Call::AttachParent);
        } else {
            self.go(Phase::Over, Call::Finish);
        }
    }

    fn go_closed(&mut self)
        ensures
            *final(self) == closed(*old(self)),
    {
        if matches!(self.task, Task::Interrupt) {
            self.go(Phase::Ignoring, Call::IgnoreInterrupts { on: true });
        } else {
            self.go(Phase::Detaching, Call::Free);
        }
    }

    fn take_mode(&mut self, mode: Option<u32>)
        requires
            old(self).wf(),
        ensures
            *final(self) == after_mode(*old(self), mode),
    {
        self.saved = mode;
        if let Task::Query { bit } = self.task {
            self.outcome = Outcome::Answer(
                match mode {
                    Some(v) => Some(v & bit != 0),
                    None => None,
                },
            );
            self.go(Phase::Closing, Call::Close);
        } else {
            match mode {
                Some(v) => {
                    let wanted: u32 = match self.task {
                        Task::Mouse => (v | ENABLE_MOUSE_INPUT | ENABLE_EXTENDED_FLAGS)
                            & !ENABLE_QUICK_EDIT_MODE,
                        Task::Sequence => (v | ENABLE_EXTENDED_FLAGS
                            | ENABLE_VIRTUAL_TERMINAL_INPUT) & !ENABLE_QUICK_EDIT_MODE,
                        Task::Interrupt => if v & ENABLE_PROCESSED_INPUT == 0 {
                            v | ENABLE_PROCESSED_INPUT
                        } else {
                            v
                        },
                        _ => v,
                    };
                    if wanted != v {
                        self.go(Phase::SettingMode, Call::SetMode { mode: wanted });
                    } else {
                        self.go_ready();
                    }
                },
                None => self.go_ready(),
            }
        }
    }

    fn take_written(&mut self, again: bool, ok: bool, count: u32)
        requires
            old(self).wf(),
        ensures
            *final(self) == after_write(*old(self), again, ok, count),
    {
        match self.task {
            Task::Paste => {
                if !ok || count == 0 {
                    if again {
                        self.outcome = Outcome::Sent(false);
                        self.go(Phase::Closing, Call::Close);
                    } else {
                        self.go(Phase::Waiting { again: true }, Call::Sleep { ms: 10 });
                    }
                } else if count as usize > self.total - self.offset {
                    self.outcome = Outcome::Sent(false);
                    self.go(Phase::Closing, Call::Close);
                } else {
                    let whole: bool = self.total - self.offset >= CHUNK_SIZE;
                    self.offset = self.offset + count as usize;
                    if self.offset < self.total && whole {
                        self.go(Phase::Waiting { again: false }, Call::Sleep { ms: 5 });
                    } else {
                        self.go_write(false);
                    }
                }
            },
            Task::Mouse | Task::Sequence => {
                self.outcome = Outcome::Sent(ok);
                match self.saved {
                    Some(mode) => self.go(Phase::RestoringMode, Call::SetMode { mode }),
                    None => self.go(Phase::Closing, Call::Close),
                }
            },
            Task::Key => {
                self.outcome = Outcome::Sent(ok && count >= 1);
                self.go(Phase::Closing, Call::Close);
            },
            _ => {
                self.outcome = Outcome::Sent(ok);
                self.go(Phase::Closing, Call::Close);
            },
        }
    }

    /// Takes the reply to the call that was made and goes on to the next one.
    pub fn step(&mut self, reply: Reply)
        requires
            old(self).wf(),
        ensures
            *final(self) == next(*old(self), reply),
            final(self).wf(),
    {
        let succeeded: bool = matches!(reply, Reply::Status(true));
        let pid: u32 = self.pid;
        match self.phase {
            Phase::Leaving => self.go(Phase::Attaching, Call::Attach { pid }),
            Phase::Attaching => {
                if succeeded {
                    let access: u32 = if matches!(self.task, Task::Query { .. }) {
                        GENERIC_READ
                    } else {
                        GENERIC_READ | GENERIC_WRITE
                    };
                    self.go(Phase::Opening, Call::Open { access });
                } else {
                    self.go_return();
                }
            },
            Phase::Opening => {
                if succeeded {
                    match self.task {
                        Task::Paste => self.go_write(false),
                        Task::Key => self.go_write(false),
                        _ => self.go(Phase::ReadingMode, Call::GetMode),
                    }
                } else {
                    self.go_closed();
                }
            },
            Phase::ReadingMode => {
                let mode: Option<u32> = match reply {
                    Reply::Mode(mode) => mode,
                    _ => None,
                };
                self.take_mode(mode);
            },
            Phase::SettingMode => self.go_ready(),
            Phase::Writing { again } => {
                match reply {
                    Reply::Written { ok, count } => self.take_written(again, ok, count),
                    _ => self.take_written(again, false, 0),
                }
            },
            Phase::Waiting { again } => self.go_write(again),
            Phase::RestoringMode => self.go(Phase::Closing, Call::Close),
            Phase::Closing => self.go_closed(),
            Phase::Detaching => self.go_return(),
            Phase::Ignoring => self.go(Phase::Interrupting, Call::Interrupt),
            Phase::Interrupting => {
                self.outcome = Outcome::Sent(succeeded);
                self.go(Phase::Draining, Call::Free);
            },
            Phase::Draining => self.go(Phase::Settling, Call::Sleep { ms: 5 }),
            Phase::Settling => self.go(Phase::Heeding, Call::IgnoreInterrupts { on: false }),
            Phase::Heeding => self.go_return(),
            Phase::Returning => self.go(Phase::Over, Call::Finish),
            Phase::Over => {},
        }
    }
}

/// Whose console a process is attached to.
pub enum Attached {
    Nobody,
    Own,
    Other,
}

/// What the calls of a walk change.
pub struct World {
    pub console: Attached,
    /// Whether the input buffer is open.
    pub open: bool,
    /// Whether this process ignores interrupts.
    pub ignoring: bool,
    /// The input mode of the other console.
    pub mode: u32,
}

/// What a call with its reply does to the world.
pub open spec fn effect(w: World, call: Call, reply: Reply) -> World {
    match call {
        Call::Free => World { console: Attached::Nobody, ..w },
        Call::Attach { pid } => if reply == Reply::Status(true) {
            World { console: Attached::Other, ..w }
        } else {
            w
        },
        Call::AttachParent => World { console: Attached::Own, ..w },
        Call::Open { access } => World { open: reply == Reply::Status(true), ..w },
        Call::Close => World { open: false, ..w },
        Call::SetMode { mode } => World { mode, ..w },
        Call::IgnoreInterrupts { on } => World { ignoring: on, ..w },
        _ => w,
    }
}

/// Whether a reply can come in this world: a mode that is read is the one that is
/// set.
pub open spec fn plausible(w: World, call: Call, reply: Reply) -> bool {
    call is GetMode ==> (reply matches Reply::Mode(Some(v)) ==> v == w.mode)
}

/// Whether the input buffer is open in a phase.
pub open spec fn open_in(p: Phase) -> bool {
    p is ReadingMode || p is SettingMode || p is Writing || p is Waiting || p is RestoringMode
        || p is Closing
}

/// Whether the process is on the other console in a phase.
pub open spec fn away_in(p: Phase) -> bool {
    open_in(p) || p is Opening || p is Detaching || p is Ignoring || p is Interrupting
        || p is Draining
}

/// How a walk that began with input mode `mode` and the world fit together, at
/// every step.
pub open spec fn fits(m: Machine, w: World, mode: u32) -> bool {
    &&& m.wf()
    &&& m.phase is Over <==> m.call is Finish
    &&& !(m.phase is Leaving) ==> w.console == (if away_in(m.phase) {
        Attached::Other
    } else if m.phase is Over && m.had_console && m.call is Finish {
        Attached::Own
    } else {
        Attached::Nobody
    })
    &&& w.open == open_in(m.phase)
    &&& w.ignoring == (m.phase is Interrupting || m.phase is Draining || m.phase is Settling
        || m.phase is Heeding)
    &&& match m.phase {
        Phase::Leaving => m.call is Free,
        Phase::Attaching => m.call is Attach,
        Phase::Opening => m.call is Open,
        Phase::ReadingMode => m.call is GetMode,
        Phase::SettingMode => m.saved is Some && m.call == Call::SetMode {
            mode: wanted_mode(m.task, mode),
        },
        Phase::Writing { again } => m.call is Write,
        Phase::Waiting { again } => m.call is Sleep,
        Phase::RestoringMode => m.saved is Some && m.call == Call::SetMode { mode: m.saved->0 },
        Phase::Closing => m.call is Close,
        Phase::Detaching => m.call is Free,
        Phase::Ignoring => m.call == Call::IgnoreInterrupts { on: true },
        Phase::Interrupting => m.call is Interrupt,
        Phase::Draining => m.call is Free,
        Phase::Settling => m.call is Sleep,
        Phase::Heeding => m.call == Call::IgnoreInterrupts { on: false },
        Phase::Returning => m.call is AttachParent && m.had_console,
        Phase::Over => true,
    }
    &&& (m.phase is Ignoring || m.phase is Interrupting || m.phase is Draining || m.phase is Settling
        || m.phase is Heeding) ==> m.task is Interrupt
    &&& m.phase is SettingMode || m.phase is ReadingMode ==> (m.task is Query || m.task is Mouse
        || m.task is Sequence || m.task is Interrupt)
    &&& m.phase is RestoringMode ==> m.task is Mouse || m.task is Sequence
    &&& m.phase is Waiting ==> m.task is Paste
    &&& m.saved matches Some(v) ==> v == mode
    &&& (m.phase is Leaving || m.phase is Attaching || m.phase is Opening || m.phase is ReadingMode
        || m.phase is SettingMode) ==> w.mode == mode
    &&& (m.task is Query || m.task is Paste || m.task is Key) ==> w.mode == mode && !(m.phase
        is SettingMode)
    &&& m.task is Mouse || m.task is Sequence ==> w.mode == mode || (m.saved is Some && (m.phase
        is Writing || m.phase is RestoringMode))
    &&& (m.task is Mouse || m.task is Sequence) && m.phase is Writing && m.saved is Some ==> w.mode
        == wanted_mode(m.task, mode)
    &&& m.task is Paste && m.outcome == Outcome::Sent(true) ==> m.offset == m.total
}

/// A walk fits the world it begins in.
pub proof fn walk_begins_well(
    task: Task,
    pid: u32,
    had_console: bool,
    total: usize,
    w: World,
)
    requires
        !w.open,
        !w.ignoring,
    ensures
        fits(started(task, pid, had_console, total), w, w.mode),
{
}

/// Each reply leaves walk and world fitting.
pub proof fn walk_goes_on_well(m: Machine, w: World, mode: u32, reply: Reply)
    requires
        fits(m, w, mode),
        plausible(w, m.call, reply),
    ensures
        fits(next(m, reply), effect(w, m.call, reply), mode),
{
}

/// When a walk is over, whatever the replies were, the input buffer is closed,
/// interrupts are heeded again, and the process is back on its own console where
/// it had one to go back to and on none otherwise. The input mode of the other
/// console is as it was, but for an interrupt: a mouse event and a sequence change
/// it only meanwhile. A paste counts as sent only if every record was written.
pub proof fn walk_ends_well(m: Machine, w: World, mode: u32)
    requires
        fits(m, w, mode),
        m.call is Finish,
    ensures
        !w.open,
        !w.ignoring,
        w.console == (if m.had_console {
            Attached::Own
        } else {
            Attached::Nobody
        }),
        !(m.task is Interrupt) ==> w.mode == mode,
        m.task is Paste && m.outcome == Outcome::Sent(true) ==> m.offset == m.total,
{
}

/// While a mouse event is written, the console takes mouse events and does not select text, where
/// its mode could be read; so it does terminal input while a sequence is written.
pub proof fn written_in_the_mode_wanted(m: Machine, w: World, mode: u32)
    requires
        fits(m, w, mode),
        m.call is Write,
        m.saved is Some,
    ensures
        m.task is Mouse ==> w.mode == mouse_mode(mode) && w.mode & ENABLE_MOUSE_INPUT != 0 && w.mode
            & ENABLE_QUICK_EDIT_MODE == 0,
        m.task is Sequence ==> w.mode == sequence_mode(mode),
{
    mouse_mode_takes_mouse(mode);
}

/// How far a walk is from its end, at most.
pub open spec fn distance(m: Machine) -> int {
    20 * (m.total - m.offset) + match m.phase {
        Phase::Over => 0int,
        Phase::Returning => 1,
        Phase::Heeding => 2,
        Phase::Detaching => 2,
        Phase::Settling => 3,
        Phase::Draining => 4,
        Phase::Interrupting => 5,
        Phase::Ignoring => 6,
        Phase::Closing => 7,
        Phase::RestoringMode => 8,
        Phase::Writing { again } => if again {
            9
        } else {
            11
        },
        Phase::Waiting { again } => if again {
            10
        } else {
            12
        },
        Phase::SettingMode => 13,
        Phase::ReadingMode => 14,
        Phase::Opening => 15,
        Phase::Attaching => 16,
        Phase::Leaving => 17,
    }
}

/// Every walk comes to an end: each reply, whatever it says, brings it closer.
pub proof fn walk_ends(m: Machine, reply: Reply)
    requires
        m.wf(),
        !(m.phase is Over),
    ensures
        0 <= distance(next(m, reply)) < distance(m),
{
}

/// The mode in which a mouse event is written has mouse input switched on and quick
/// editing off; a mode that is so already is kept.
pub proof fn mouse_mode_takes_mouse(mode: u32)
    ensures
        mouse_mode(mode) & ENABLE_MOUSE_INPUT != 0,
        mouse_mode(mode) & ENABLE_QUICK_EDIT_MODE == 0,
        mouse_mode(mouse_mode(mode)) == mouse_mode(mode),
{
    assert(((mode | 0x0010u32 | 0x0080u32) & !0x0040u32) & 0x0010u32 != 0) by (bit_vector);
    assert(((mode | 0x0010u32 | 0x0080u32) & !0x0040u32) & 0x0040u32 == 0) by (bit_vector);
    assert(((((mode | 0x0010u32 | 0x0080u32) & !0x0040u32) | 0x0010u32 | 0x0080u32) & !0x0040u32)
        == ((mode | 0x0010u32 | 0x0080u32) & !0x0040u32)) by (bit_vector);
}

/// A walk with the records that it writes.
pub struct Injection {
    pub machine: Machine,
    pub records: Vec<InputRecord>,
}

impl Injection {
    /// Whether an injection begins with the given work, process and records.
    pub open spec fn begins(
        self,
        task: Task,
        pid: u32,
        had_console: bool,
        records: Seq<InputRecord>,
    ) -> bool {
        &&& self.records@ == records
        &&& records.len() <= usize::MAX
        &&& self.machine == started(task, pid, had_console, records.len() as usize)
    }
}

fn begin(task: Task, pid: u32, had_console: bool, records: Vec<InputRecord>) -> (i: Injection)
    ensures
        i.begins(task, pid, had_console, records@),
{
    let outcome = if matches!(task, Task::Query { .. }) {
        Outcome::Answer(None)
    } else {
        Outcome::Sent(false)
    };
    Injection {
        machine: Machine {
            task,
            pid,
            had_console,
            total: records.len(),
            offset: 0,
            saved: None,
            outcome,
            phase: Phase::Leaving,
            call: Call::Free,
        },
        records,
    }
}

/// Asks whether a pane's console takes terminal input.
pub fn query_vti_enabled(child_pid: u32, has_console: bool) -> (i: Injection)
    ensures
        i.begins(
            Task::Query { bit: ENABLE_VIRTUAL_TERMINAL_INPUT },
            child_pid,
            has_console,
            Seq::empty(),
        ),
{
    begin(Task::Query { bit: ENABLE_VIRTUAL_TERMINAL_INPUT }, child_pid, has_console, Vec::new())
}

/// Asks whether a pane's console takes mouse events.
pub fn query_mouse_input_enabled(child_pid: u32, has_console: bool) -> (i: Injection)
    ensures
        i.begins(Task::Query { bit: ENABLE_MOUSE_INPUT }, child_pid, has_console, Seq::empty()),
{
    begin(Task::Query { bit: ENABLE_MOUSE_INPUT }, child_pid, has_console, Vec::new())
}

/// Whether a drag event comes too soon after the one before it.
pub open spec fn throttled(event_flags: u32, since_last_drag_ms: Option<u64>) -> bool {
    event_flags & MOUSE_MOVED != 0 && (since_last_drag_ms matches Some(ms) && ms
        < DRAG_THROTTLE_MS)
}

/// Writes a mouse event. A drag event that comes too soon is dropped; one that
/// does not starts the time anew, as the second result tells. The console is
/// gone back to only where `reattach` asks for it.
pub fn send_mouse_event(
    child_pid: u32,
    col: i16,
    row: i16,
    button_state: u32,
    event_flags: u32,
    reattach: bool,
    has_console: bool,
    since_last_drag_ms: Option<u64>,
) -> (r: (Option<Injection>, bool))
    ensures
        r.0 is None <==> throttled(event_flags, since_last_drag_ms),
        r.0 matches Some(i) ==> i.begins(
            Task::Mouse,
            child_pid,
            reattach && has_console,
            seq![
                InputRecord::Mouse(
                    MouseRecord {
                        x: col,
                        y: row,
                        button_state,
                        control_key_state: 0,
                        event_flags,
                    },
                ),
            ],
        ),
        r.1 == (event_flags & MOUSE_MOVED != 0 && !throttled(event_flags, since_last_drag_ms)),
{
    let moved: bool = event_flags & MOUSE_MOVED != 0;
    if moved {
        if let Some(ms) = since_last_drag_ms {
            if ms < DRAG_THROTTLE_MS {
                return (None, false);
            }
        }
    }
    let mut records: Vec<InputRecord> = Vec::new();
    records.push(
        InputRecord::Mouse(
            MouseRecord { x: col, y: row, button_state, control_key_state: 0, event_flags },
        ),
    );
    (Some(begin(Task::Mouse, child_pid, reattach && has_console, records)), moved)
}

/// The record of one code unit that is typed.
pub open spec fn typed_unit(u: u16) -> InputRecord {
    InputRecord::Key(
        KeyRecord {
            key_down: 1,
            repeat_count: 1,
            virtual_key_code: 0,
            virtual_scan_code: 0,
            u_char: u,
            control_key_state: 0,
        },
    )
}

/// The records of code units that are typed.
pub open spec fn typed(units: Seq<u16>) -> Seq<InputRecord> {
    Seq::new(units.len(), |i: int| typed_unit(units[i]))
}

fn type_units(units: &Vec<u16>) -> (r: Vec<InputRecord>)
    ensures
        r@ == typed(units@),
{
    let mut records: Vec<InputRecord> = Vec::new();
    let mut i: usize = 0;
    while i < units.len()
        invariant
            i <= units.len(),
            records@ == typed(units@).take(i as int),
        decreases units.len() - i,
    {
        records.push(
            InputRecord::Key(
                KeyRecord {
                    key_down: 1,
                    repeat_count: 1,
                    virtual_key_code: 0,
                    virtual_scan_code: 0,
                    u_char: units[i],
                    control_key_state: 0,
                },
            ),
        );
        assert(records@ =~= typed(units@).take(i + 1));
        i += 1;
    }
    assert(typed(units@).take(units.len() as int) =~= typed(units@));
    records
}

/// Bytes as code units of the same value.
pub open spec fn widened(bytes: Seq<u8>) -> Seq<u16> {
    Seq::new(bytes.len(), |i: int| bytes[i] as u16)
}

/// Writes an escape sequence, one key press for each of its bytes.
pub fn send_vt_sequence(child_pid: u32, sequence: &[u8], has_console: bool) -> (r: Injection)
    ensures
        r.begins(Task::Sequence, child_pid, has_console, typed(widened(sequence@))),
{
    let mut units: Vec<u16> = Vec::new();
    let mut i: usize = 0;
    while i < sequence.len()
        invariant
            i <= sequence.len(),
            units@ == widened(sequence@).take(i as int),
        decreases sequence.len() - i,
    {
        units.push(sequence[i] as u16);
        assert(units@ =~= widened(sequence@).take(i + 1));
        i += 1;
    }
    assert(units@ =~= widened(sequence@));
    let records = type_units(&units);
    begin(Task::Sequence, child_pid, has_console, records)
}

/// The code units that the character at position `i` of a pasted text is typed
/// as: a line feed as a carriage return, or as nothing right after one.
pub open spec fn pasted_char(text: Seq<char>, i: int) -> Seq<u16> {
    if text[i] == '\n' {
        if i > 0 && text[i - 1] == '\r' {
            Seq::empty()
        } else {
            seq![0x0Du16]
        }
    } else {
        units_of(text[i])
    }
}

/// The code units that the first `n` characters of a pasted text are typed as.
pub open spec fn pasted(text: Seq<char>, n: int) -> Seq<u16>
    decreases n,
{
    if n <= 0 {
        Seq::empty()
    } else {
        pasted(text, n - 1) + pasted_char(text, n - 1)
    }
}

/// The code units of a paste, between brackets or not.
pub open spec fn paste_units(text: Seq<char>, bracket: bool) -> Seq<u16> {
    if bracket {
        utf16("\x1b[200~"@) + pasted(text, text.len() as int) + utf16("\x1b[201~"@)
    } else {
        pasted(text, text.len() as int)
    }
}

fn append_units(units: &mut Vec<u16>, more: &str)
    ensures
        final(units)@ == old(units)@ + utf16(more@),
{
    let mut extra = encode(more);
    units.append(&mut extra);
}

/// Writes a pasted text, between the brackets of a bracketed paste or not.
pub fn send_bracketed_paste(child_pid: u32, text: &str, bracket: bool, has_console: bool) -> (r:
    Injection)
    ensures
        r.begins(Task::Paste, child_pid, has_console, typed(paste_units(text@, bracket))),
{
    let mut units: Vec<u16> = Vec::new();
    if bracket {
        append_units(&mut units, "\x1b[200~");
    }
    let ghost head = units@;
    let cs = chars_of(text);
    let mut prev_cr: bool = false;
    let mut i: usize = 0;
    assert(units@ =~= head + pasted(cs@, 0));
    while i < cs.len()
        invariant
            i <= cs.len(),
            prev_cr == (i > 0 && cs@[i - 1] == '\r'),
            units@ == head + pasted(cs@, i as int),
        decreases cs.len() - i,
    {
        let c: char = cs[i];
        if c == '\n' {
            if !prev_cr {
                units.push(0x0D);
            }
            prev_cr = false;
        } else {
            prev_cr = c == '\r';
            push_units(&mut units, c);
        }
        assert(units@ =~= head + pasted(cs@, i + 1));
        i += 1;
    }
    if bracket {
        append_units(&mut units, "\x1b[201~");
    }
    assert(units@ =~= paste_units(text@, bracket));
    let records = type_units(&units);
    begin(Task::Paste, child_pid, has_console, records)
}

proof fn lemma_no_line_feed(text: Seq<char>, n: int)
    requires
        0 <= n <= text.len(),
    ensures
        !pasted(text, n).contains(0x0Au16),
    decreases n,
{
    if n > 0 {
        lemma_no_line_feed(text, n - 1);
        let a = pasted(text, n - 1);
        let b = pasted_char(text, n - 1);
        let c = text[n - 1];
        assert(!b.contains(0x0Au16)) by {
            if b.contains(0x0Au16) {
                let k = choose|k: int| 0 <= k < b.len() && b[k] == 0x0Au16;
                lemma_unit_of_line_feed(c, k);
            }
        }
        assert forall|k: int| 0 <= k < (a + b).len() implies (a + b)[k] != 0x0Au16 by {
            if k < a.len() {
                assert(a.contains(a[k]));
            } else {
                assert(b.contains(b[k - a.len()]));
            }
        }
    }
}

proof fn lemma_unit_of_line_feed(c: char, k: int)
    requires
        0 <= k < units_of(c).len(),
        units_of(c)[k] == 0x0Au16,
    ensures
        c == '\n',
{
}

/// A pasted text is typed without a line feed.
pub proof fn paste_has_no_line_feed(text: Seq<char>)
    ensures
        !paste_units(text, false).contains(0x0Au16),
{
    lemma_no_line_feed(text, text.len() as int);
}

/// Interrupts the processes on a pane's console. The console is gone back to only
/// where `reattach` asks for it.
pub fn send_ctrl_c_event(child_pid: u32, reattach: bool, has_console: bool) -> (r: Injection)
    ensures
        r.begins(Task::Interrupt, child_pid, reattach && has_console, Seq::empty()),
{
    begin(Task::Interrupt, child_pid, reattach && has_console, Vec::new())
}

/// The code unit whose key is asked for to type `ch`.
pub fn key_unit(ch: char) -> (u: u16)
    ensures
        u == first_unit(lowered_ascii(ch)),
{
    first_unit_of(lower_ascii(ch))
}

/// The virtual key in the system's answer to a character: none where the answer
/// is minus one.
pub fn char_to_vk(answer: i16) -> (vk: u16)
    ensures
        vk == (if answer == -1 {
            0
        } else {
            (answer as u16) & 0xFF
        }),
{
    if answer == -1 {
        0
    } else {
        (answer as u16) & 0xFF
    }
}

/// The scan code in the system's answer to a virtual key.
pub fn vk_to_scan(answer: u32) -> (scan: u16)
    ensures
        scan == answer as u16,
{
    answer as u16
}

/// The state of the modifier keys.
pub open spec fn key_state(ctrl: bool, alt: bool, shift: bool) -> u32 {
    (if ctrl {
        LEFT_CTRL_PRESSED
    } else {
        0
    }) | (if alt {
        LEFT_ALT_PRESSED
    } else {
        0
    }) | (if shift {
        SHIFT_PRESSED
    } else {
        0
    })
}

/// The code unit that a key with modifiers types: a control character with the
/// control key, the upper-case letter with shift alone, else the character.
pub open spec fn typed_by(ch: char, ctrl: bool, shift: bool) -> u16 {
    if ctrl {
        ((lowered_ascii(ch) as u32) & 0x1F) as u16
    } else if shift {
        first_unit(uppered_ascii(ch))
    } else {
        first_unit(ch)
    }
}

/// A key pressed or released.
pub open spec fn key(down: bool, vk: u16, scan: u16, unit: u16, state: u32) -> InputRecord {
    InputRecord::Key(
        KeyRecord {
            key_down: if down {
                1
            } else {
                0
            },
            repeat_count: 1,
            virtual_key_code: vk,
            virtual_scan_code: scan,
            u_char: unit,
            control_key_state: state,
        },
    )
}

fn press(vk: u16, scan: u16, unit: u16, ctrl: bool, alt: bool, shift: bool) -> (r: Vec<InputRecord>)
    ensures
        r@ == seq![
            key(true, vk, scan, unit, key_state(ctrl, alt, shift)),
            key(false, vk, scan, unit, key_state(ctrl, alt, shift)),
        ],
{
    let c: u32 = if ctrl { LEFT_CTRL_PRESSED } else { 0 };
    let a: u32 = if alt { LEFT_ALT_PRESSED } else { 0 };
    let s: u32 = if shift { SHIFT_PRESSED } else { 0 };
    let down = KeyRecord {
        key_down: 1,
        repeat_count: 1,
        virtual_key_code: vk,
        virtual_scan_code: scan,
        u_char: unit,
        control_key_state: c | a | s,
    };
    let up = KeyRecord {
        key_down: 0,
        repeat_count: 1,
        virtual_key_code: vk,
        virtual_scan_code: scan,
        u_char: unit,
        control_key_state: c | a | s,
    };
    let mut records: Vec<InputRecord> = Vec::new();
    records.push(InputRecord::Key(down));
    records.push(InputRecord::Key(up));
    records
}

/// Presses and releases a character's key with modifiers. The virtual key is that
/// of the lower-case character, and the scan code that of the virtual key.
pub fn send_modified_key_event(
    child_pid: u32,
    ch: char,
    ctrl: bool,
    alt: bool,
    shift: bool,
    vk: u16,
    scan: u16,
    has_console: bool,
) -> (r: Injection)
    ensures
        r.begins(
            Task::Key,
            child_pid,
            has_console,
            seq![
                key(true, vk, scan, typed_by(ch, ctrl, shift), key_state(ctrl, alt, shift)),
                key(false, vk, scan, typed_by(ch, ctrl, shift), key_state(ctrl, alt, shift)),
            ],
        ),
{
    let unit: u16 = if ctrl {
        ((lower_ascii(ch) as u32) & 0x1F) as u16
    } else if shift {
        first_unit_of(upper_ascii(ch))
    } else {
        first_unit_of(ch)
    };
    let records = press(vk, scan, unit, ctrl, alt, shift);
    begin(Task::Key, child_pid, has_console, records)
}

/// Presses and releases a character's key together with Alt.
pub fn send_alt_key_event(child_pid: u32, ch: char, vk: u16, scan: u16, has_console: bool) -> (r:
    Injection)
    ensures
        r.begins(
            Task::Key,
            child_pid,
            has_console,
            seq![
                key(true, vk, scan, first_unit(ch), LEFT_ALT_PRESSED),
                key(false, vk, scan, first_unit(ch), LEFT_ALT_PRESSED),
            ],
        ),
{
    assert(0u32 | 2u32 | 0u32 == 2u32) by (bit_vector);
    send_modified_key_event(child_pid, ch, false, true, false, vk, scan, has_console)
}

/// Presses and releases Enter with modifiers.
pub fn send_modified_enter_event(
    child_pid: u32,
    ctrl: bool,
    alt: bool,
    shift: bool,
    scan: u16,
    has_console: bool,
) -> (r: Injection)
    ensures
        r.begins(
            Task::Key,
            child_pid,
            has_console,
            seq![
                key(true, VK_RETURN, scan, 0x0Du16, key_state(ctrl, alt, shift)),
                key(false, VK_RETURN, scan, 0x0Du16, key_state(ctrl, alt, shift)),
            ],
        ),
{
    let records = press(VK_RETURN, scan, 0x0D, ctrl, alt, shift);
    begin(Task::Key, child_pid, has_console, records)
}

} // verus!
