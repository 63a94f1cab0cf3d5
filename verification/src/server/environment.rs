//! What a session keeps by name: variables of the environment, hooks, and the channels that
//! commands wait on.

use vstd::prelude::*;
use crate::dict::{Dict, Entry};
use crate::text::{decimal, has_prefix, push_number, skip, starts_with, texts};

verus! {

/// A line that sets a variable.
pub open spec fn variable_line(name: Seq<char>, value: Seq<char>) -> Seq<char> {
    name + "="@ + value + "\n"@
}

/// The lines of the variables of a session.
pub open spec fn variable_lines(entries: Seq<Entry<String>>) -> Seq<char>
    decreases entries.len(),
{
    if entries.len() == 0 {
        Seq::empty()
    } else {
        variable_lines(entries.drop_last()) + variable_line(
            entries.last().key@,
            entries.last().value@,
        )
    }
}

/// Whether a variable of the process is shown among those of the session: it is one of the
/// program's own, and the session has none of its name.
pub open spec fn is_inherited(env: Dict<String>, name: Seq<char>) -> bool {
    (has_prefix(name, "PSMUX"@) || has_prefix(name, "TMUX"@)) && !env.map().dom().contains(name)
}

/// The lines of the variables of the process that are shown.
pub open spec fn inherited_lines(env: Dict<String>, process: Seq<(String, String)>) -> Seq<char>
    decreases process.len(),
{
    if process.len() == 0 {
        Seq::empty()
    } else {
        let rest = inherited_lines(env, process.drop_last());
        if is_inherited(env, process.last().0@) {
            rest + variable_line(process.last().0@, process.last().1@)
        } else {
            rest
        }
    }
}

fn text_of_variable(name: &str, value: &str) -> (line: String)
    ensures
        line@ == variable_line(name@, value@),
{
    let mut line = name.to_owned();
    line.append("=");
    line.append(value);
    line.append("\n");
    line
}

/// Lists the variables of a session, and behind them those of the process that belong to the
/// program.
pub fn show_environment(env: &Dict<String>, process: &Vec<(String, String)>) -> (r: String)
    requires
        env.wf(),
    ensures
        r@ == variable_lines(env.entries@) + inherited_lines(*env, process@),
{
    let mut out = String::new();
    let mut i: usize = 0;
    while i < env.entries.len()
        invariant
            i <= env.entries.len(),
            out@ == variable_lines(env.entries@.take(i as int)),
        decreases env.entries.len() - i,
    {
        let line = text_of_variable(env.entries[i].key.as_str(), env.entries[i].value.as_str());
        out.append(line.as_str());
        assert(env.entries@.take(i + 1).drop_last() =~= env.entries@.take(i as int));
        i += 1;
    }
    assert(env.entries@.take(i as int) =~= env.entries@);
    let ghost own = out@;
    let mut k: usize = 0;
    assert(own + inherited_lines(*env, process@.take(0)) =~= own);
    while k < process.len()
        invariant
            k <= process.len(),
            env.wf(),
            out@ == own + inherited_lines(*env, process@.take(k as int)),
        decreases process.len() - k,
    {
        let name = process[k].0.as_str();
        assert(process@.take(k + 1).drop_last() =~= process@.take(k as int));
        if (starts_with(name, "PSMUX") || starts_with(name, "TMUX")) && !env.has(name) {
            let line = text_of_variable(name, process[k].1.as_str());
            out.append(line.as_str());
        }
        assert(out@ =~= own + inherited_lines(*env, process@.take(k + 1)));
        k += 1;
    }
    assert(process@.take(k as int) =~= process@);
    out
}

/// The name of the variable that an entry of the list of refreshed ones means: without the
/// dash that asks for its removal.
pub open spec fn refreshed_name(entry: Seq<char>) -> Seq<char> {
    if has_prefix(entry, "-"@) {
        entry.skip(1)
    } else {
        entry
    }
}

/// The variables of a session once one of them was refreshed: it has the value that the
/// process has, or none where that has none or its removal is asked for.
pub open spec fn refreshed(
    env: Map<Seq<char>, String>,
    entry: Seq<char>,
    value: Option<String>,
) -> Map<Seq<char>, String> {
    if has_prefix(entry, "-"@) || value is None {
        env.remove(refreshed_name(entry))
    } else {
        env.insert(refreshed_name(entry), value->0)
    }
}

/// The name of the variable that an entry of the list of refreshed ones means.
pub fn variable_to_refresh(entry: &str) -> (r: String)
    ensures
        r@ == refreshed_name(entry@),
{
    if starts_with(entry, "-") {
        proof {
            reveal_strlit("-");
        }
        skip(entry, 1)
    } else {
        entry.to_owned()
    }
}

/// Refreshes a variable of a session when a client attaches. `value` is what the process has
/// under its name.
pub fn refresh_variable(env: &mut Dict<String>, entry: &str, value: Option<String>)
    requires
        old(env).wf(),
    ensures
        final(env).wf(),
        final(env).map() == refreshed(old(env).map(), entry@, value),
{
    let name = variable_to_refresh(entry);
    if starts_with(entry, "-") {
        let _ = env.remove(name.as_str());
    } else {
        match value {
            Some(v) => {
                env.insert(name, v);
            },
            None => {
                let _ = env.remove(name.as_str());
            },
        }
    }
}

/// The commands that run at each event.
pub struct Hooks {
    pub by_event: Dict<Vec<String>>,
}

/// The commands of an event; none where there is no hook.
pub open spec fn hook_commands(h: Hooks, event: Seq<char>) -> Seq<Seq<char>> {
    if h.by_event.map().dom().contains(event) {
        texts(h.by_event.map()[event]@)
    } else {
        Seq::empty()
    }
}

/// Whether only the hook of one event differs.
pub open spec fn same_but_event(old: Hooks, new: Hooks, event: Seq<char>) -> bool {
    forall|other: Seq<char>|
        other != event ==> new.by_event.map().dom().contains(other) == old.by_event.map().dom().contains(
            other,
        ) && (old.by_event.map().dom().contains(other) ==> #[trigger] new.by_event.map()[other]
            == old.by_event.map()[other])
}

/// The lines of one hook: a single command stands alone, several are numbered.
pub open spec fn hook_lines(event: Seq<char>, commands: Seq<Seq<char>>, n: nat) -> Seq<char>
    decreases n,
{
    if n == 0 || n > commands.len() {
        Seq::empty()
    } else {
        hook_lines(event, commands, (n - 1) as nat) + (if commands.len() == 1 {
            event + " -> "@ + commands[n - 1] + "\n"@
        } else {
            event + "["@ + decimal((n - 1) as nat) + "] -> "@ + commands[n - 1] + "\n"@
        })
    }
}

/// The lines of all hooks.
pub open spec fn all_hook_lines(entries: Seq<Entry<Vec<String>>>) -> Seq<char>
    decreases entries.len(),
{
    if entries.len() == 0 {
        Seq::empty()
    } else {
        let commands = texts(entries.last().value@);
        all_hook_lines(entries.drop_last()) + hook_lines(entries.last().key@, commands, commands.len())
    }
}

fn text_of_hook(event: &str, commands: &Vec<String>, k: usize) -> (line: String)
    requires
        k < commands@.len(),
    ensures
        line@ == (if commands@.len() == 1 {
            event@ + " -> "@ + commands@[k as int]@ + "\n"@
        } else {
            event@ + "["@ + decimal(k as nat) + "] -> "@ + commands@[k as int]@ + "\n"@
        }),
{
    let mut line = event.to_owned();
    if commands.len() == 1 {
        line.append(" -> ");
    } else {
        line.append("[");
        push_number(&mut line, k as u64);
        line.append("] -> ");
    }
    line.append(commands[k].as_str());
    line.append("\n");
    line
}

impl Hooks {
    /// Whether no two hooks have the same event.
    pub open spec fn wf(self) -> bool {
        self.by_event.wf()
    }

    /// No hooks.
    pub fn new() -> (h: Hooks)
        ensures
            h.wf(),
            h.by_event.map() == Map::<Seq<char>, Vec<String>>::empty(),
    {
        Hooks { by_event: Dict::new() }
    }

    /// The commands that run at an event, in order.
    pub fn commands(&self, event: &str) -> (r: Vec<String>)
        requires
            self.wf(),
        ensures
            texts(r@) == hook_commands(*self, event@),
    {
        let mut r: Vec<String> = Vec::new();
        assert(texts(r@) =~= Seq::empty());
        if let Some(v) = self.by_event.get(event) {
            let mut i: usize = 0;
            while i < v.len()
                invariant
                    i <= v.len(),
                    texts(r@) == texts(v@).take(i as int),
                decreases v.len() - i,
            {
                let c = v[i].clone();
                let ghost done = texts(r@);
                let ghost new = c@;
                r.push(c);
                assert(texts(r@) =~= done.push(new));
                assert(texts(v@).take(i + 1) =~= texts(v@).take(i as int).push(new));
                i += 1;
            }
            assert(texts(v@).take(i as int) =~= texts(v@));
        }
        r
    }

    /// Sets the hook of an event, in place of the one that it had: reading a configuration
    /// twice runs no command twice.
    pub fn replace_hook(&mut self, event: String, command: String)
        requires
            old(self).wf(),
        ensures
            final(self).wf(),
            final(self).by_event.map().dom().contains(event@),
            hook_commands(*final(self), event@) == seq![command@],
            same_but_event(*old(self), *final(self), event@),
    {
        let mut v: Vec<String> = Vec::new();
        let ghost text = command@;
        v.push(command);
        assert(texts(v@) =~= seq![text]);
        self.by_event.insert(event, v);
    }

    /// Adds a command to the hook of an event.
    pub fn append_hook(&mut self, event: String, command: String)
        requires
            old(self).wf(),
        ensures
            final(self).wf(),
            final(self).by_event.map().dom().contains(event@),
            hook_commands(*final(self), event@) == hook_commands(*old(self), event@).push(command@),
            same_but_event(*old(self), *final(self), event@),
    {
        let mut v = match self.by_event.remove(event.as_str()) {
            Some(v) => v,
            None => Vec::new(),
        };
        assert(texts(v@) =~= hook_commands(*old(self), event@));
        let ghost before = texts(v@);
        let ghost text = command@;
        v.push(command);
        assert(texts(v@) =~= before.push(text));
        self.by_event.insert(event, v);
    }

    /// Takes the hook of an event away.
    pub fn remove_hook(&mut self, event: &str)
        requires
            old(self).wf(),
        ensures
            final(self).wf(),
            !final(self).by_event.map().dom().contains(event@),
            same_but_event(*old(self), *final(self), event@),
    {
        let _ = self.by_event.remove(event);
    }

    /// Lists all hooks.
    pub fn show_hooks(&self) -> (r: String)
        ensures
            r@ == (if all_hook_lines(self.by_event.entries@).len() == 0 {
                "(no hooks)\n"@
            } else {
                all_hook_lines(self.by_event.entries@)
            }),
    {
        let mut out = String::new();
        let ghost all = self.by_event.entries@;
        let mut i: usize = 0;
        while i < self.by_event.entries.len()
            invariant
                i <= self.by_event.entries.len(),
                all == self.by_event.entries@,
                out@ == all_hook_lines(all.take(i as int)),
            decreases self.by_event.entries.len() - i,
        {
            let event = self.by_event.entries[i].key.as_str();
            let commands = &self.by_event.entries[i].value;
            let ghost done = out@;
            let ghost t = texts(commands@);
            let mut k: usize = 0;
            assert(done + hook_lines(event@, t, 0) =~= done);
            while k < commands.len()
                invariant
                    k <= commands.len(),
                    t == texts(commands@),
                    out@ == done + hook_lines(event@, t, k as nat),
                decreases commands.len() - k,
            {
                let line = text_of_hook(event, commands, k);
                out.append(line.as_str());
                assert(t[k as int] == commands@[k as int]@);
                assert(out@ =~= done + hook_lines(event@, t, (k + 1) as nat));
                k += 1;
            }
            assert(all.take(i + 1).drop_last() =~= all.take(i as int));
            i += 1;
        }
        assert(all.take(i as int) =~= all);
        if out.as_str().unicode_len() == 0 {
            out = "(no hooks)\n".to_owned();
        }
        out
    }
}

/// A channel that commands wait on.
pub struct WaitChannel {
    pub locked: bool,
    /// The numbers of those that wait.
    pub waiters: Vec<u64>,
}

/// What is done on a channel.
#[derive(Clone, Copy, PartialEq, Eq, Structural, Debug)]
pub enum WaitOp {
    Lock,
    Unlock,
    Signal,
    Wait,
}

/// Does something on a channel, and hands back those that need not wait any longer. A channel
/// is made when it is locked or waited on.
pub fn wait_for(channels: &mut Dict<WaitChannel>, name: String, op: WaitOp) -> (woken: Vec<u64>)
    requires
        old(channels).wf(),
    ensures
        final(channels).wf(),
        ({
            let before = old(channels).map();
            let after = final(channels).map();
            let there = before.dom().contains(name@);
            let made = op == WaitOp::Lock || op == WaitOp::Wait;
            let frees = (op == WaitOp::Unlock || op == WaitOp::Signal) && there;
            &&& after.dom() == (if made {
                before.dom().insert(name@)
            } else {
                before.dom()
            })
            &&& forall|other: Seq<char>|
                other != name@ && before.dom().contains(other) ==> #[trigger] after[other] == before[other]
            &&& woken@ == (if frees {
                before[name@].waiters@
            } else {
                Seq::<u64>::empty()
            })
            &&& (there || made) ==> after[name@].locked == (if op == WaitOp::Lock {
                true
            } else if op == WaitOp::Unlock || !there {
                false
            } else {
                before[name@].locked
            })
            &&& (there || made) ==> after[name@].waiters@ == (if frees || !there {
                Seq::<u64>::empty()
            } else {
                before[name@].waiters@
            })
        }),
{
    let ghost before = channels.map();
    let ghost key = name@;
    let mut woken: Vec<u64> = Vec::new();
    match channels.remove(name.as_str()) {
        Some(c) => {
            let mut channel = c;
            match op {
                WaitOp::Lock => {
                    channel.locked = true;
                },
                WaitOp::Unlock => {
                    channel.locked = false;
                    woken = channel.waiters;
                    channel = WaitChannel { locked: false, waiters: Vec::new() };
                },
                WaitOp::Signal => {
                    woken = channel.waiters;
                    channel = WaitChannel { locked: channel.locked, waiters: Vec::new() };
                },
                WaitOp::Wait => {},
            }
            channels.insert(name, channel);
            assert(channels.map().dom() =~= before.dom());
            assert(before.dom().insert(key) =~= before.dom());
        },
        None => {
            assert(before.remove(key) =~= before);
            match op {
                WaitOp::Lock => {
                    channels.insert(name, WaitChannel { locked: true, waiters: Vec::new() });
                },
                WaitOp::Wait => {
                    channels.insert(name, WaitChannel { locked: false, waiters: Vec::new() });
                },
                _ => {},
            }
        },
    }
    woken
}

} // verus!
