//! A client in control mode: it connects to a session, hands the lines from its
//! input to the server, and tells when it leaves.

use vstd::prelude::*;
use crate::cli::global::parse_port;
use crate::text::{has_prefix, number, starts_with, trim, trimmed};

verus! {

/// Why a client in control mode cannot begin.
#[derive(Debug)]
pub enum ControlError {
    /// The session has no port file.
    NoSession { name: String },
    /// The port file holds no port.
    CorruptedPort,
    /// The session has no key file.
    NoKey,
    /// The server refused the key, with this answer.
    Refused { answer: String },
}

impl ControlError {
    /// What is said of the error.
    pub open spec fn text(self) -> Seq<char> {
        match self {
            ControlError::NoSession { name } => "session '"@ + name@
                + "' not found (no port file)"@,
            ControlError::CorruptedPort => "corrupted port file"@,
            ControlError::NoKey => "session key file not found"@,
            ControlError::Refused { answer } => "auth failed: "@ + answer@,
        }
    }

    /// What is said of the error.
    pub fn message(&self) -> (r: String)
        ensures
            r@ == self.text(),
    {
        match self {
            ControlError::NoSession { name } => {
                let mut s: String = "session '".to_owned();
                s.append(name.as_str());
                s.append("' not found (no port file)");
                s
            },
            ControlError::CorruptedPort => "corrupted port file".to_owned(),
            ControlError::NoKey => "session key file not found".to_owned(),
            ControlError::Refused { answer } => {
                let mut s: String = "auth failed: ".to_owned();
                s.append(answer.as_str());
                s
            },
        }
    }
}

/// The port and the key of a session, out of what its files hold where they could
/// be read. The port is looked at first.
pub fn control_endpoint(
    session: &str,
    port_text: &Option<String>,
    key_text: &Option<String>,
) -> (r: Result<(u16, String), ControlError>)
    ensures
        match port_text {
            None => r matches Err(ControlError::NoSession { name }) && name@ == session@,
            Some(p) => match number(trimmed(p@), 0xFFFF) {
                None => r matches Err(ControlError::CorruptedPort),
                Some(n) => match key_text {
                    None => r matches Err(ControlError::NoKey),
                    Some(k) => r matches Ok((port, key)) && port == n && key@ == trimmed(k@),
                },
            },
        },
{
    match port_text {
        None => Err(ControlError::NoSession { name: session.to_owned() }),
        Some(p) => match parse_port(p.as_str()) {
            None => Err(ControlError::CorruptedPort),
            Some(port) => match key_text {
                None => Err(ControlError::NoKey),
                Some(k) => Ok((port, trim(k.as_str()))),
            },
        },
    }
}

/// The line that shows the key.
pub fn auth_line(key: &str) -> (r: String)
    ensures
        r@ == "AUTH "@ + key@ + seq!['\n'],
{
    let mut s: String = "AUTH ".to_owned();
    s.append(key);
    s.push('\n');
    s
}

/// Whether the server took the key: its answer begins with the word for it.
pub fn check_auth(answer: &str) -> (r: Result<(), ControlError>)
    ensures
        r is Ok <==> has_prefix(trimmed(answer@), "OK"@),
        r matches Err(e) ==> e matches ControlError::Refused { answer: a } && a@ == trimmed(
            answer@,
        ),
{
    let t = trim(answer);
    if starts_with(t.as_str(), "OK") {
        Ok(())
    } else {
        Err(ControlError::Refused { answer: t })
    }
}

/// The line that begins control mode: with echo for mode 1, without for others.
pub fn mode_line(mode: u8) -> (r: &'static str)
    ensures
        r@ == (if mode == 1 {
            "CONTROL\n"@
        } else {
            "CONTROL_NOECHO\n"@
        }),
{
    if mode == 1 {
        "CONTROL\n"
    } else {
        "CONTROL_NOECHO\n"
    }
}

/// The line that leaves control mode; in mode 2 the device control string that it
/// ran in is closed too.
pub fn exit_text(mode: u8) -> (r: &'static str)
    ensures
        r@ == (if mode == 2 {
            "%exit\n\x1b\\"@
        } else {
            "%exit\n"@
        }),
{
    if mode == 2 {
        "%exit\n\x1b\\"
    } else {
        "%exit\n"
    }
}

/// The byte that goes to the server for the one at position `i`: a carriage return
/// that no line feed follows becomes one.
pub open spec fn line_byte(chunk: Seq<u8>, i: int) -> u8 {
    if chunk[i] == 0x0D && !(i + 1 < chunk.len() && chunk[i + 1] == 0x0A) {
        0x0A
    } else {
        chunk[i]
    }
}

/// The bytes that go to the server for a chunk of input.
pub open spec fn line_bytes(chunk: Seq<u8>) -> Seq<u8> {
    Seq::new(chunk.len(), |i: int| line_byte(chunk, i))
}

/// The bytes that go to the server for a chunk of input.
pub fn translate_input(chunk: &[u8]) -> (r: Vec<u8>)
    ensures
        r@ == line_bytes(chunk@),
{
    let mut out: Vec<u8> = Vec::new();
    let mut i: usize = 0;
    while i < chunk.len()
        invariant
            i <= chunk.len(),
            out@ == line_bytes(chunk@).take(i as int),
        decreases chunk.len() - i,
    {
        let b: u8 = chunk[i];
        let paired: bool = i + 1 < chunk.len() && chunk[i + 1] == 0x0A;
        if b == 0x0D && !paired {
            out.push(0x0A);
        } else {
            out.push(b);
        }
        assert(out@ =~= line_bytes(chunk@).take(i + 1));
        i += 1;
    }
    assert(line_bytes(chunk@).take(chunk.len() as int) =~= line_bytes(chunk@));
    out
}

/// No carriage return goes to the server but right before a line feed.
pub proof fn no_bare_carriage_return(chunk: Seq<u8>, i: int)
    requires
        0 <= i < line_bytes(chunk).len(),
        line_bytes(chunk)[i] == 0x0D,
    ensures
        i + 1 < line_bytes(chunk).len(),
        line_bytes(chunk)[i + 1] == 0x0A,
{
}

/// Translating what was translated changes nothing.
pub proof fn translation_is_stable(chunk: Seq<u8>)
    ensures
        line_bytes(line_bytes(chunk)) == line_bytes(chunk),
{
    assert(line_bytes(line_bytes(chunk)) =~= line_bytes(chunk));
}

/// How often an input that ends at once is tried again.
pub const MAX_EOF_RETRIES: u32 = 20;

/// The pipe is broken.
pub const ERROR_BROKEN_PIPE: u32 = 109;

/// The pipe is being closed.
pub const ERROR_NO_DATA: u32 = 232;

/// How a read of the input ended.
#[derive(Clone, Copy, PartialEq, Eq, Structural, Debug)]
pub enum InputEvent {
    /// It gave this many bytes.
    Read(u32),
    /// It failed with this error.
    Error(u32),
}

/// What is done after a read of the input.
#[derive(Clone, Copy, PartialEq, Eq, Structural, Debug)]
pub enum InputStep {
    /// Wait a moment and read again.
    Retry,
    /// Hand the bytes to the server.
    Deliver,
    /// Read no more.
    Stop,
}

/// What is known of the input so far.
#[derive(Clone, Copy, PartialEq, Eq, Structural, Debug)]
pub struct InputState {
    /// Whether any byte has come.
    pub any: bool,
    /// How often it was tried again.
    pub retries: u32,
}

/// Whether an input that ended may still come up: nothing has come yet, and it was
/// not tried too often.
pub open spec fn may_retry(s: InputState) -> bool {
    !s.any && s.retries < MAX_EOF_RETRIES
}

/// Whether a read found the input ended.
pub open spec fn is_end(e: InputEvent) -> bool {
    e == InputEvent::Read(0) || e == InputEvent::Error(ERROR_BROKEN_PIPE) || e
        == InputEvent::Error(ERROR_NO_DATA)
}

impl InputState {
    /// What every input keeps: it is never tried again more often than allowed.
    pub open spec fn wf(self) -> bool {
        self.retries <= MAX_EOF_RETRIES
    }

    /// An input of which nothing is known yet.
    pub fn new() -> (s: InputState)
        ensures
            s.wf(),
            !s.any,
            s.retries == 0,
    {
        InputState { any: false, retries: 0 }
    }

    /// Takes the end of a read.
    pub fn take(&mut self, e: InputEvent) -> (step: InputStep)
        requires
            old(self).wf(),
        ensures
            final(self).wf(),
            step == (if is_end(e) {
                if may_retry(*old(self)) {
                    InputStep::Retry
                } else {
                    InputStep::Stop
                }
            } else if e is Read {
                InputStep::Deliver
            } else {
                InputStep::Stop
            }),
            match step {
                InputStep::Retry => !final(self).any && final(self).retries == old(self).retries + 1,
                InputStep::Deliver => final(self).any && final(self).retries == 0,
                InputStep::Stop => *final(self) == *old(self),
            },
    {
        match e {
            InputEvent::Read(n) => {
                if n > 0 {
                    self.any = true;
                    self.retries = 0;
                    return InputStep::Deliver;
                }
            },
            InputEvent::Error(code) => {
                if code != ERROR_BROKEN_PIPE && code != ERROR_NO_DATA {
                    return InputStep::Stop;
                }
            },
        }
        if !self.any && self.retries < MAX_EOF_RETRIES {
            self.retries = self.retries + 1;
            InputStep::Retry
        } else {
            InputStep::Stop
        }
    }
}

/// Whether the program runs in a secure shell's session.
pub fn is_ssh_session(client: bool, connection: bool, tty: bool) -> (r: bool)
    ensures
        r == (client || connection || tty),
{
    client || connection || tty
}

} // verus!
