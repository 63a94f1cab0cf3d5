//! Output to a console as UTF-16: bytes are gathered until a frame is complete,
//! and an unfinished character at the end of a frame waits for the next one.

use vstd::prelude::*;
use vstd::utf8::{
    encode_utf8, encode_utf8_decode_utf8, encode_utf8_valid_utf8, partial_valid_partial_invalid_utf8,
    valid_utf8,
};
use crate::utf16::{encode, utf16};

verus! {

/// Whether bytes are the beginning of valid UTF-8.
pub open spec fn continuable(bytes: Seq<u8>) -> bool {
    exists|more: Seq<u8>| valid_utf8(#[trigger] (bytes + more))
}

/// How long the longest beginning of valid UTF-8 is that the bytes start with, up to `n` bytes. It
/// counts as one byte at least.
pub open spec fn longest_start(bytes: Seq<u8>, n: int) -> int
    decreases n,
{
    if n <= 1 || continuable(bytes.take(n)) {
        if n < 1 {
            1
        } else {
            n
        }
    } else {
        longest_start(bytes, n - 1)
    }
}

/// How many bytes the faulty sequence has that begins at `up_to`; none where the bytes merely end
/// within a sequence.
pub open spec fn fault_len(bytes: Seq<u8>, up_to: int) -> Option<int> {
    let rest = bytes.skip(up_to);
    if continuable(bytes) {
        None
    } else {
        Some(longest_start(rest, rest.len() as int))
    }
}

/// The answer of a check.
pub open spec fn fault_view(len: Option<usize>) -> Option<int> {
    match len {
        Some(k) => Some(k as int),
        None => None,
    }
}

/// Asks `std::str::from_utf8` whether bytes are valid UTF-8. Where they are not, the error tells
/// the longest valid prefix (`Utf8Error::valid_up_to`) and the length of the faulty sequence after
/// it (`Utf8Error::error_len`): as many bytes as a sequence could begin with, one at least and
/// three at most. It is none where the input ends too early, within a sequence that more bytes
/// could complete; then one to three bytes are left.
#[verifier::external_body]
fn check_utf8(bytes: &Vec<u8>) -> (r: Option<(usize, Option<usize>)>)
    ensures
        r is None <==> valid_utf8(bytes@),
        r matches Some((up_to, len)) ==> {
            &&& up_to < bytes@.len()
            &&& valid_utf8(bytes@.take(up_to as int))
            &&& forall|n: int| up_to < n <= bytes@.len() ==> !valid_utf8(#[trigger] bytes@.take(n))
            &&& fault_view(len) == fault_len(bytes@, up_to as int)
            &&& len matches Some(k) ==> 1 <= k <= 3 && up_to + k <= bytes@.len()
            &&& len is None ==> 1 <= bytes@.len() - up_to <= 3
        },
{
    match std::str::from_utf8(bytes) {
        Ok(_) => None,
        Err(e) => Some((e.valid_up_to(), e.error_len())),
    }
}

/// Has `String::from_utf8` make a string of bytes: it succeeds exactly on valid
/// UTF-8, and the string is the one whose encoding the bytes are.
#[verifier::external_body]
fn string_of_bytes(bytes: Vec<u8>) -> (r: Option<String>)
    ensures
        r is Some <==> valid_utf8(bytes@),
        r matches Some(s) ==> encode_utf8(s@) == bytes@,
{
    String::from_utf8(bytes).ok()
}

/// The bytes of a frame that is not complete yet.
pub struct FrameBuffer {
    pub bytes: Vec<u8>,
}

/// What a flush puts out, and what it leaves.
pub struct FlushPlan {
    /// The text in UTF-16.
    pub wide: Vec<u16>,
    /// The same text in UTF-8.
    pub narrow: Vec<u8>,
    /// Where the bytes begin that stay in the buffer.
    pub keep_from: usize,
}

/// Whether a flush of `bytes` puts out `narrow`, which is `wide` in UTF-16, and
/// keeps the bytes from `keep_from` on: the longest valid text at the front goes
/// out, a faulty sequence after it is skipped, an unfinished one stays.
pub open spec fn is_flush(bytes: Seq<u8>, narrow: Seq<u8>, wide: Seq<u16>, keep_from: int) -> bool {
    &&& narrow.len() <= keep_from <= bytes.len()
    &&& narrow == bytes.take(narrow.len() as int)
    &&& valid_utf8(narrow)
    &&& forall|n: int| narrow.len() < n <= bytes.len() ==> !valid_utf8(#[trigger] bytes.take(n))
    &&& exists|text: Seq<char>| narrow == #[trigger] encode_utf8(text) && wide == utf16(text)
    &&& keep_from == narrow.len() + (if narrow.len() == bytes.len() {
        0
    } else {
        match fault_len(bytes, narrow.len() as int) {
            Some(k) => k,
            None => 0,
        }
    })
}

/// How many bytes at the front are valid, by the answer of a check.
pub open spec fn valid_len(bytes: Seq<u8>, checked: Option<(usize, Option<usize>)>) -> int {
    match checked {
        Some((up_to, _)) => up_to as int,
        None => bytes.len() as int,
    }
}

/// How many bytes behind them are faulty, by the answer of a check.
pub open spec fn skipped_len(checked: Option<(usize, Option<usize>)>) -> int {
    match checked {
        Some((_, Some(k))) => k as int,
        _ => 0,
    }
}

/// What a flush puts out, given the answer of a check of its bytes: how long the valid text at
/// the front is, and how long the faulty sequence behind it. Where there is no length for that,
/// the sequence is unfinished and stays.
pub fn flush_plan(bytes: &Vec<u8>, checked: Option<(usize, Option<usize>)>) -> (p: FlushPlan)
    requires
        valid_len(bytes@, checked) + skipped_len(checked) <= bytes@.len(),
        valid_utf8(bytes@.take(valid_len(bytes@, checked))),
    ensures
        p.narrow@ == bytes@.take(valid_len(bytes@, checked)),
        exists|text: Seq<char>|
            p.narrow@ == #[trigger] encode_utf8(text) && p.wide@ == utf16(text),
        p.keep_from == valid_len(bytes@, checked) + skipped_len(checked),
{
    let (valid, skip): (usize, usize) = match checked {
        None => (bytes.len(), 0),
        Some((up_to, len)) => (
            up_to,
            match len {
                Some(k) => k,
                None => 0,
            },
        ),
    };
    let mut narrow: Vec<u8> = Vec::new();
    let mut copy: Vec<u8> = Vec::new();
    let mut i: usize = 0;
    while i < valid
        invariant
            i <= valid <= bytes.len(),
            narrow@ == bytes@.take(i as int),
            copy@ == bytes@.take(i as int),
        decreases valid - i,
    {
        narrow.push(bytes[i]);
        copy.push(bytes[i]);
        assert(narrow@ =~= bytes@.take(i + 1));
        assert(copy@ =~= bytes@.take(i + 1));
        i += 1;
    }
    let text: String = match string_of_bytes(copy) {
        Some(s) => s,
        None => String::new(),
    };
    let wide = encode(text.as_str());
    assert(narrow@ == encode_utf8(text@));
    FlushPlan { wide, narrow, keep_from: valid + skip }
}

impl FrameBuffer {
    /// An empty buffer.
    pub fn new() -> (b: FrameBuffer)
        ensures
            b.bytes@ == Seq::<u8>::empty(),
    {
        FrameBuffer { bytes: Vec::new() }
    }

    /// Adds bytes to the frame; all of them are taken.
    pub fn write(&mut self, buf: &[u8]) -> (n: usize)
        ensures
            final(self).bytes@ == old(self).bytes@ + buf@,
            n == buf@.len(),
    {
        let mut i: usize = 0;
        while i < buf.len()
            invariant
                i <= buf.len(),
                self.bytes@ == old(self).bytes@ + buf@.take(i as int),
            decreases buf.len() - i,
        {
            self.bytes.push(buf[i]);
            assert(self.bytes@ =~= old(self).bytes@ + buf@.take(i + 1));
            i += 1;
        }
        assert(buf@.take(buf.len() as int) =~= buf@);
        buf.len()
    }

    /// What a flush puts out: the longest valid text at the front. A faulty
    /// sequence after it is skipped, an unfinished one stays. Nothing is put out
    /// of an empty buffer.
    pub fn flush(&self) -> (r: Option<FlushPlan>)
        ensures
            r is None <==> self.bytes@.len() == 0,
            r matches Some(p) ==> is_flush(self.bytes@, p.narrow@, p.wide@, p.keep_from as int),
    {
        if self.bytes.len() == 0 {
            return None;
        }
        assert(self.bytes@.take(self.bytes@.len() as int) =~= self.bytes@);
        Some(flush_plan(&self.bytes, check_utf8(&self.bytes)))
    }

    /// Drops what a flush has put out or skipped.
    pub fn settle(&mut self, keep_from: usize)
        requires
            keep_from <= old(self).bytes@.len(),
        ensures
            final(self).bytes@ == old(self).bytes@.skip(keep_from as int),
    {
        let mut rest: Vec<u8> = Vec::new();
        let mut i: usize = keep_from;
        while i < self.bytes.len()
            invariant
                keep_from <= i <= self.bytes.len(),
                rest@ == self.bytes@.subrange(keep_from as int, i as int),
            decreases self.bytes.len() - i,
        {
            rest.push(self.bytes[i]);
            assert(rest@ =~= self.bytes@.subrange(keep_from as int, i + 1));
            i += 1;
        }
        assert(rest@ =~= self.bytes@.skip(keep_from as int));
        self.bytes = rest;
    }
}

proof fn lemma_encode_concat(a: Seq<char>, b: Seq<char>)
    ensures
        encode_utf8(a + b) == encode_utf8(a) + encode_utf8(b),
    decreases a.len(),
{
    if a.len() == 0 {
        assert(a + b =~= b);
        assert(encode_utf8(a) + encode_utf8(b) =~= encode_utf8(b));
    } else {
        assert((a + b).drop_first() =~= a.drop_first() + b);
        lemma_encode_concat(a.drop_first(), b);
        assert(encode_utf8(a + b) =~= encode_utf8(a) + encode_utf8(b));
    }
}

proof fn lemma_utf16_concat(a: Seq<char>, b: Seq<char>)
    ensures
        utf16(a + b) == utf16(a) + utf16(b),
    decreases b.len(),
{
    if b.len() == 0 {
        assert(a + b =~= a);
        assert(utf16(a) + utf16(b) =~= utf16(a));
    } else {
        assert((a + b).drop_last() =~= a + b.drop_last());
        lemma_utf16_concat(a, b.drop_last());
        assert(utf16(a + b) =~= utf16(a) + utf16(b));
    }
}

proof fn lemma_longest_start(bytes: Seq<u8>, n: int)
    requires
        1 <= n,
    ensures
        1 <= longest_start(bytes, n) <= n,
    decreases n,
{
    if n > 1 && !continuable(bytes.take(n)) {
        lemma_longest_start(bytes, n - 1);
    }
}

/// A flush never leaves a faulty sequence at the front of the buffer: either nothing more than an
/// unfinished sequence stays, or at least one byte beyond the text is dropped.
pub proof fn faulty_bytes_are_dropped(bytes: Seq<u8>, narrow: Seq<u8>, wide: Seq<u16>, keep: int)
    requires
        is_flush(bytes, narrow, wide, keep),
        !continuable(bytes),
    ensures
        keep > narrow.len(),
{
    if narrow.len() == bytes.len() {
        assert(bytes.take(narrow.len() as int) =~= bytes);
        assert(bytes + Seq::<u8>::empty() =~= bytes);
        assert(valid_utf8(bytes + Seq::<u8>::empty()));
    } else {
        let rest = bytes.skip(narrow.len() as int);
        lemma_longest_start(rest, rest.len() as int);
    }
}

/// A text that is written in two pieces, parted anywhere, even within a
/// character, with a flush after each, comes out as the text, and nothing stays in
/// the buffer.
pub proof fn split_text_comes_out_whole(
    text: Seq<char>,
    a: Seq<u8>,
    b: Seq<u8>,
    narrow1: Seq<u8>,
    wide1: Seq<u16>,
    keep1: int,
    narrow2: Seq<u8>,
    wide2: Seq<u16>,
    keep2: int,
)
    requires
        encode_utf8(text) == a + b,
        is_flush(a, narrow1, wide1, keep1),
        is_flush(a.skip(keep1) + b, narrow2, wide2, keep2),
    ensures
        wide1 + wide2 == utf16(text),
        narrow1 + narrow2 == encode_utf8(text),
        (a.skip(keep1) + b).skip(keep2) == Seq::<u8>::empty(),
{
    let all = a + b;
    let rest = a.skip(keep1) + b;
    encode_utf8_valid_utf8(text);
    assert(continuable(a)) by {
        assert(valid_utf8(a + b));
    }
    assert(all.subrange(0, keep1) =~= narrow1);
    assert(all.subrange(keep1, all.len() as int) =~= rest);
    if !valid_utf8(rest) {
        partial_valid_partial_invalid_utf8(all, keep1);
    }
    assert(rest.take(rest.len() as int) =~= rest);
    assert(narrow2 =~= rest);
    let t1 = choose|t: Seq<char>| narrow1 == #[trigger] encode_utf8(t) && wide1 == utf16(t);
    let t2 = choose|t: Seq<char>| narrow2 == #[trigger] encode_utf8(t) && wide2 == utf16(t);
    assert(narrow1 + narrow2 =~= all);
    lemma_encode_concat(t1, t2);
    lemma_utf16_concat(t1, t2);
    encode_utf8_decode_utf8(t1 + t2);
    encode_utf8_decode_utf8(text);
}

/// The next step of a flush.
#[derive(Clone, Copy, PartialEq, Eq, Structural, Debug)]
pub enum WriteStep {
    /// Write this many code units, from this one on.
    Wide { from: u64, count: u64 },
    /// Write this many bytes, from this one on.
    Narrow { from: u64, count: u64 },
    /// All is written that the console takes.
    Finished,
    /// The flush fails with the last error.
    Failed,
}

/// How a write ended.
#[derive(Clone, Copy, PartialEq, Eq, Structural, Debug)]
pub enum WriteReply {
    /// It took this many units or bytes.
    Took(u32),
    /// It failed with this error of the system.
    Error(Option<i32>),
}

/// The part of a flush that writes.
#[derive(Clone, Copy, PartialEq, Eq, Structural, Debug)]
pub struct FlushWriter {
    /// How many code units there are.
    pub wide: u64,
    /// How many bytes there are.
    pub narrow: u64,
    pub step: WriteStep,
}

/// A device that takes no code units reports this error.
pub const ERROR_INVALID_FUNCTION: i32 = 1;

/// The step that writes bytes from this one on.
pub open spec fn narrow_step(len: u64, from: int) -> WriteStep {
    if from < len {
        WriteStep::Narrow {
            from: from as u64,
            count: if len - from > u32::MAX {
                u32::MAX as u64
            } else {
                (len - from) as u64
            },
        }
    } else {
        WriteStep::Finished
    }
}

/// The step that writes code units from this one on.
pub open spec fn wide_step(len: u64, from: int) -> WriteStep {
    if from < len {
        WriteStep::Wide { from: from as u64, count: (len - from) as u64 }
    } else {
        WriteStep::Finished
    }
}

/// The step after a reply.
pub open spec fn step_after(w: FlushWriter, reply: WriteReply) -> WriteStep {
    match (w.step, reply) {
        (WriteStep::Wide { from, count }, WriteReply::Took(n)) => if n == 0 {
            WriteStep::Finished
        } else {
            wide_step(w.wide, from + n)
        },
        (WriteStep::Wide { from, count }, WriteReply::Error(code)) => if code == Some(
            ERROR_INVALID_FUNCTION,
        ) {
            narrow_step(w.narrow, 0)
        } else {
            WriteStep::Failed
        },
        (WriteStep::Narrow { from, count }, WriteReply::Took(n)) => if n == 0 {
            WriteStep::Finished
        } else {
            narrow_step(w.narrow, from + n)
        },
        (WriteStep::Narrow { from, count }, WriteReply::Error(code)) => WriteStep::Failed,
        (s, _) => s,
    }
}

impl FlushWriter {
    /// What every writer keeps: it writes within what there is.
    pub open spec fn wf(self) -> bool {
        match self.step {
            WriteStep::Wide { from, count } => from < self.wide && count == self.wide - from,
            WriteStep::Narrow { from, count } => from < self.narrow,
            _ => true,
        }
    }

    /// Starts to write a plan's text, as code units first.
    pub fn start(plan: &FlushPlan) -> (w: FlushWriter)
        ensures
            w.wf(),
            w.wide == plan.wide@.len(),
            w.narrow == plan.narrow@.len(),
            w.step == wide_step(w.wide, 0),
    {
        let wide: u64 = plan.wide.len() as u64;
        let step = if wide > 0 {
            WriteStep::Wide { from: 0, count: wide }
        } else {
            WriteStep::Finished
        };
        FlushWriter { wide, narrow: plan.narrow.len() as u64, step }
    }

    fn narrow_from(&self, from: u64) -> (s: WriteStep)
        ensures
            s == narrow_step(self.narrow, from as int),
    {
        if from < self.narrow {
            let left: u64 = self.narrow - from;
            WriteStep::Narrow {
                from,
                count: if left > u32::MAX as u64 {
                    u32::MAX as u64
                } else {
                    left
                },
            }
        } else {
            WriteStep::Finished
        }
    }

    /// Takes the reply to a write: code units that the device does not take at all
    /// are written as bytes instead.
    pub fn advance(&mut self, reply: WriteReply)
        requires
            old(self).wf(),
        ensures
            final(self).wf(),
            final(self).wide == old(self).wide,
            final(self).narrow == old(self).narrow,
            final(self).step == step_after(*old(self), reply),
    {
        match self.step {
            WriteStep::Wide { from, count } => {
                match reply {
                    WriteReply::Took(n) => {
                        if n == 0 || n as u64 >= count {
                            self.step = WriteStep::Finished;
                        } else {
                            self.step = WriteStep::Wide {
                                from: from + n as u64,
                                count: count - n as u64,
                            };
                        }
                    },
                    WriteReply::Error(code) => {
                        let invalid: bool = match code {
                            Some(c) => c == ERROR_INVALID_FUNCTION,
                            None => false,
                        };
                        if invalid {
                            self.step = self.narrow_from(0);
                        } else {
                            self.step = WriteStep::Failed;
                        }
                    },
                }
            },
            WriteStep::Narrow { from, count } => {
                match reply {
                    WriteReply::Took(n) => {
                        if n == 0 || n as u64 >= self.narrow - from {
                            self.step = WriteStep::Finished;
                        } else {
                            self.step = self.narrow_from(from + n as u64);
                        }
                    },
                    WriteReply::Error(_) => {
                        self.step = WriteStep::Failed;
                    },
                }
            },
            _ => {},
        }
    }
}

} // verus!
