//! The buffers that text is copied to and pasted from: a stack of the last ones, and
//! those that have names.

use vstd::prelude::*;
use crate::dict::Dict;
use crate::text::{
    byte_count, byte_len, chars_of, decimal, push_number, range_text, replace, replaced, sort_texts,
    sorted_texts, texts,
};

verus! {

/// How many buffers the stack holds.
pub const STACK_LIMIT: usize = 10;

/// How many characters of a buffer a listing shows.
pub const PREVIEW_LEN: usize = 50;

/// The buffers of a session.
pub struct Buffers {
    /// The last buffers, the newest one first.
    pub stack: Vec<String>,
    /// The buffers that have names.
    pub named: Dict<String>,
}

/// A stack with one more text on top, and without the lowest one where it is too high.
pub open spec fn stacked(stack: Seq<Seq<char>>, text: Seq<char>) -> Seq<Seq<char>> {
    let all = seq![text] + stack;
    if all.len() > STACK_LIMIT {
        all.drop_last()
    } else {
        all
    }
}

/// The first characters of a text.
pub open spec fn preview(text: Seq<char>) -> Seq<char> {
    if text.len() > PREVIEW_LEN {
        text.take(PREVIEW_LEN as int)
    } else {
        text
    }
}

/// A text on one line: a line feed is written as an escape, and carriage returns are
/// left out.
pub open spec fn on_one_line(text: Seq<char>) -> Seq<char> {
    replaced(replaced(text, '\n', "\\n"@), '\r', ""@)
}

/// The line of a buffer.
pub open spec fn buffer_entry(name: Seq<char>, text: Seq<char>, one_line: bool) -> Seq<char> {
    let shown = if one_line {
        on_one_line(preview(text))
    } else {
        preview(text)
    };
    name + ": "@ + decimal(byte_count(text) as nat) + " bytes: \""@ + shown + "\"\n"@
}

/// The name of a buffer of the stack.
pub open spec fn stack_name(i: nat) -> Seq<char> {
    "buffer"@ + decimal(i)
}

/// The lines of the buffers of the stack.
pub open spec fn stack_lines(stack: Seq<Seq<char>>, one_line: bool) -> Seq<char>
    decreases stack.len(),
{
    if stack.len() == 0 {
        Seq::empty()
    } else {
        stack_lines(stack.drop_last(), one_line) + buffer_entry(
            stack_name((stack.len() - 1) as nat),
            stack.last(),
            one_line,
        )
    }
}

/// The lines of buffers that have names.
pub open spec fn named_lines(names: Seq<Seq<char>>, named: Map<Seq<char>, String>, one_line: bool) -> Seq<
    char,
>
    decreases names.len(),
{
    if names.len() == 0 {
        Seq::empty()
    } else {
        named_lines(names.drop_last(), named, one_line) + buffer_entry(
            names.last(),
            named[names.last()]@,
            one_line,
        )
    }
}

/// The names of buffers, in the order in which they came.
pub open spec fn names_of(d: Dict<String>) -> Seq<Seq<char>> {
    Seq::new(d.entries@.len(), |i: int| d.entries@[i].key@)
}

/// The listing of all buffers: the stack from its top, and the named ones in the order of
/// their names.
pub open spec fn buffers_text(b: Buffers, one_line: bool) -> Seq<char> {
    stack_lines(texts(b.stack@), one_line) + named_lines(
        sorted_texts(names_of(b.named)),
        b.named.map(),
        one_line,
    )
}

fn push_entry(out: &mut String, name: &str, text: &str, one_line: bool)
    ensures
        final(out)@ == old(out)@ + buffer_entry(name@, text@, one_line),
{
    let v = chars_of(text);
    let to: usize = if v.len() > PREVIEW_LEN { PREVIEW_LEN } else { v.len() };
    let mut shown = range_text(&v, 0, to);
    assert(shown@ =~= preview(text@));
    if one_line {
        let escaped = replace(shown.as_str(), '\n', "\\n");
        shown = replace(escaped.as_str(), '\r', "");
    }
    out.append(name);
    out.append(": ");
    push_number(out, byte_len(text) as u64);
    out.append(" bytes: \"");
    out.append(shown.as_str());
    out.append("\"\n");
    assert(out@ =~= old(out)@ + buffer_entry(name@, text@, one_line));
}

impl Buffers {
    /// Whether no two named buffers have the same name.
    pub open spec fn wf(self) -> bool {
        self.named.wf()
    }

    /// No buffers.
    pub fn new() -> (b: Buffers)
        ensures
            b.wf(),
            b.stack@.len() == 0,
            b.named.map() == Map::<Seq<char>, String>::empty(),
    {
        Buffers { stack: Vec::new(), named: Dict::new() }
    }

    /// Puts a text on top of the stack.
    pub fn set_buffer(&mut self, text: String)
        requires
            old(self).wf(),
        ensures
            final(self).wf(),
            texts(final(self).stack@) == stacked(texts(old(self).stack@), text@),
            final(self).named == old(self).named,
    {
        let ghost before = texts(self.stack@);
        let ghost new = text@;
        self.stack.insert(0, text);
        assert(texts(self.stack@) =~= seq![new] + before);
        if self.stack.len() > STACK_LIMIT {
            let _ = self.stack.pop();
            assert(texts(self.stack@) =~= (seq![new] + before).drop_last());
        }
    }

    /// Gives a named buffer a text.
    pub fn set_named_buffer(&mut self, name: String, text: String)
        requires
            old(self).wf(),
        ensures
            final(self).wf(),
            final(self).stack == old(self).stack,
            final(self).named.map() == old(self).named.map().insert(name@, text),
    {
        self.named.insert(name, text);
    }

    /// The text of a buffer of the stack, which is empty where there is none.
    pub fn show_buffer(&self, at: usize) -> (r: String)
        ensures
            r@ == (if at < self.stack@.len() {
                self.stack@[at as int]@
            } else {
                Seq::<char>::empty()
            }),
    {
        if at < self.stack.len() {
            self.stack[at].clone()
        } else {
            String::new()
        }
    }

    /// The text of a named buffer, which is empty where there is none.
    pub fn show_named_buffer(&self, name: &str) -> (r: String)
        requires
            self.wf(),
        ensures
            self.named.map().dom().contains(name@) ==> r@ == self.named.map()[name@]@,
            !self.named.map().dom().contains(name@) ==> r@ == Seq::<char>::empty(),
    {
        match self.named.get(name) {
            Some(t) => t.clone(),
            None => String::new(),
        }
    }

    /// The text that is pasted from a buffer of the stack, if there is one.
    pub fn paste_buffer(&self, at: usize) -> (r: Option<String>)
        ensures
            at < self.stack@.len() ==> r is Some && (r->0)@ == self.stack@[at as int]@,
            at >= self.stack@.len() ==> r is None,
    {
        if at < self.stack.len() {
            Some(self.stack[at].clone())
        } else {
            None
        }
    }

    /// Takes a buffer out of the stack. Where there is none, nothing happens.
    pub fn delete_buffer(&mut self, at: usize)
        requires
            old(self).wf(),
        ensures
            final(self).wf(),
            final(self).named == old(self).named,
            at < old(self).stack@.len() ==> final(self).stack@ == old(self).stack@.remove(at as int),
            at >= old(self).stack@.len() ==> final(self).stack == old(self).stack,
    {
        if at < self.stack.len() {
            let _ = self.stack.remove(at);
        }
    }

    /// Takes a named buffer away.
    pub fn delete_named_buffer(&mut self, name: &str)
        requires
            old(self).wf(),
        ensures
            final(self).wf(),
            final(self).stack == old(self).stack,
            final(self).named.map() == old(self).named.map().remove(name@),
    {
        let _ = self.named.remove(name);
    }

    /// Puts the text of the second buffer in front of the first one's. Where there are no
    /// two, nothing happens.
    pub fn append_buffers(&mut self)
        requires
            old(self).wf(),
        ensures
            final(self).wf(),
            final(self).named == old(self).named,
            old(self).stack@.len() >= 2 ==> texts(final(self).stack@) == texts(old(self).stack@).update(
                0,
                old(self).stack@[1]@ + old(self).stack@[0]@,
            ),
            old(self).stack@.len() < 2 ==> final(self).stack == old(self).stack,
    {
        if self.stack.len() >= 2 {
            let mut joint = self.stack[1].clone();
            joint.append(self.stack[0].as_str());
            self.stack.set(0, joint);
            assert(texts(self.stack@) =~= texts(old(self).stack@).update(
                0,
                old(self).stack@[1]@ + old(self).stack@[0]@,
            ));
        }
    }

    /// The names of the buffers that have names, in order.
    pub fn sorted_names(&self) -> (r: Vec<String>)
        ensures
            texts(r@) == sorted_texts(names_of(self.named)),
    {
        let mut names: Vec<String> = Vec::new();
        let mut i: usize = 0;
        while i < self.named.entries.len()
            invariant
                i <= self.named.entries.len(),
                texts(names@) == names_of(self.named).take(i as int),
            decreases self.named.entries.len() - i,
        {
            let name = self.named.entries[i].key.clone();
            let ghost done = texts(names@);
            let ghost new = name@;
            names.push(name);
            assert(texts(names@) =~= done.push(new));
            assert(names_of(self.named).take(i + 1) =~= names_of(self.named).take(i as int).push(new));
            i += 1;
        }
        assert(names_of(self.named).take(i as int) =~= names_of(self.named));
        sort_texts(&names)
    }

    /// Lists all buffers. To choose one, each stands on a line of its own.
    pub fn list_buffers(&self, one_line: bool) -> (r: String)
        requires
            self.wf(),
        ensures
            r@ == buffers_text(*self, one_line),
    {
        let mut out = String::new();
        let mut i: usize = 0;
        while i < self.stack.len()
            invariant
                i <= self.stack.len(),
                out@ == stack_lines(texts(self.stack@).take(i as int), one_line),
            decreases self.stack.len() - i,
        {
            let mut name = "buffer".to_owned();
            push_number(&mut name, i as u64);
            push_entry(&mut out, name.as_str(), self.stack[i].as_str(), one_line);
            assert(texts(self.stack@).take(i + 1).drop_last() =~= texts(self.stack@).take(i as int));
            i += 1;
        }
        assert(texts(self.stack@).take(i as int) =~= texts(self.stack@));
        let names = self.sorted_names();
        let ghost head = out@;
        let ghost map = self.named.map();
        let mut k: usize = 0;
        assert(head + named_lines(texts(names@).take(0), map, one_line) =~= head);
        proof {
            lemma_all_named(self.named);
        }
        while k < names.len()
            invariant
                k <= names.len(),
                self.wf(),
                map == self.named.map(),
                forall|j: int|
                    0 <= j < names@.len() ==> map.dom().contains(#[trigger] texts(names@)[j]),
                out@ == head + named_lines(texts(names@).take(k as int), map, one_line),
            decreases names.len() - k,
        {
            assert(map.dom().contains(texts(names@)[k as int]));
            if let Some(text) = self.named.get(names[k].as_str()) {
                push_entry(&mut out, names[k].as_str(), text.as_str(), one_line);
            }
            assert(texts(names@).take(k + 1).drop_last() =~= texts(names@).take(k as int));
            assert(out@ =~= head + named_lines(texts(names@).take(k + 1), map, one_line));
            k += 1;
        }
        assert(texts(names@).take(k as int) =~= texts(names@));
        out
    }
}

proof fn lemma_all_named(d: Dict<String>)
    requires
        d.wf(),
    ensures
        forall|j: int|
            0 <= j < sorted_texts(names_of(d)).len() ==> d.map().dom().contains(
                #[trigger] sorted_texts(names_of(d))[j],
            ),
{
    broadcast use vstd::seq_lib::group_to_multiset_ensures;

    let names = names_of(d);
    crate::text::sorting_orders(names);
    assert forall|j: int| 0 <= j < sorted_texts(names).len() implies d.map().dom().contains(
        #[trigger] sorted_texts(names)[j],
    ) by {
        let t = sorted_texts(names)[j];
        assert(sorted_texts(names).to_multiset().contains(t));
        assert(names.to_multiset().contains(t));
        assert(names.contains(t));
        let k = names.index_of(t);
        crate::dict::lemma_contents_at(d.entries@, k);
    }
}

/// The stack never grows over its limit.
pub proof fn stack_stays_small(stack: Seq<Seq<char>>, text: Seq<char>)
    requires
        stack.len() <= STACK_LIMIT,
    ensures
        stacked(stack, text).len() <= STACK_LIMIT,
        stacked(stack, text).len() >= 1 && stacked(stack, text)[0] == text,
{
}

/// The text that was set last is the one that is shown and pasted; the one before it
/// comes next.
pub proof fn newest_text_is_on_top(stack: Seq<Seq<char>>, first: Seq<char>, second: Seq<char>)
    requires
        stack.len() <= STACK_LIMIT,
    ensures
        stacked(stacked(stack, first), second)[0] == second,
        stacked(stacked(stack, first), second)[1] == first,
{
}

/// A stack once some texts were set, one after the other.
pub open spec fn stacked_all(stack: Seq<Seq<char>>, set: Seq<Seq<char>>) -> Seq<Seq<char>>
    decreases set.len(),
{
    if set.len() == 0 {
        stack
    } else {
        stacked(stacked_all(stack, set.drop_last()), set.last())
    }
}

/// However many texts are set, the stack holds the newest ones, as many as it has room for, the
/// newest first.
pub proof fn stack_holds_the_newest(stack: Seq<Seq<char>>, set: Seq<Seq<char>>)
    requires
        stack.len() <= STACK_LIMIT,
    ensures
        ({
            let all = set.reverse() + stack;
            stacked_all(stack, set) == (if all.len() > STACK_LIMIT {
                all.take(STACK_LIMIT as int)
            } else {
                all
            })
        }),
    decreases set.len(),
{
    let all = set.reverse() + stack;
    if set.len() == 0 {
        assert(all =~= stack);
    } else {
        let front = set.drop_last();
        let older = front.reverse() + stack;
        stack_holds_the_newest(stack, front);
        assert(all =~= seq![set.last()] + older);
        let kept = if older.len() > STACK_LIMIT {
            older.take(STACK_LIMIT as int)
        } else {
            older
        };
        if older.len() >= STACK_LIMIT {
            assert((seq![set.last()] + kept).drop_last() =~= all.take(STACK_LIMIT as int));
        }
    }
}

} // verus!
