//! The windows of a session: their order, which one is active, and how requests
//! move between them.

use vstd::prelude::*;
use crate::text::{contains, decimal, has_substring, push_number, same};

verus! {

/// A window.
#[derive(Debug)]
pub struct Window {
    pub id: usize,
    pub name: String,
    /// The name was given by hand, so that it does not follow the program.
    pub manual_rename: bool,
    pub activity: bool,
    pub bell: bool,
    pub silence: bool,
    /// The window that it is linked to.
    pub linked_from: Option<usize>,
}

/// The windows of a session.
pub struct Windows {
    pub list: Vec<Window>,
    /// The position of the active window.
    pub active: usize,
    /// The position of the window that was active before.
    pub last: usize,
    /// The number of the first window.
    pub base_index: usize,
}

/// The position that a window's number means: none where it is too small.
pub open spec fn position_of(number: usize, base_index: usize) -> Option<int> {
    if number >= base_index {
        Some(number - base_index)
    } else {
        None
    }
}

/// The first window with a name, from position `i` on.
pub open spec fn first_named(list: Seq<Window>, name: Seq<char>, i: int) -> Option<int>
    decreases list.len() - i,
{
    if i < 0 || i >= list.len() {
        None
    } else if list[i].name@ == name {
        Some(i)
    } else {
        first_named(list, name, i + 1)
    }
}

/// The first window with a number of its own, from position `i` on.
pub open spec fn first_with_id(list: Seq<Window>, id: usize, i: int) -> Option<int>
    decreases list.len() - i,
{
    if i < 0 || i >= list.len() {
        None
    } else if list[i].id == id {
        Some(i)
    } else {
        first_with_id(list, id, i + 1)
    }
}

/// A window that has nothing to report any more.
pub open spec fn quiet(w: Window) -> Window {
    Window { activity: false, bell: false, silence: false, ..w }
}

/// Whether asking for the window at a position changes the active one.
pub open spec fn switches(w: Windows, at: Option<int>) -> bool {
    at is Some && 0 <= at->0 < w.list@.len() && at->0 != w.active
}

/// The list once the window at a position was asked for.
pub open spec fn focused_list(w: Windows, at: Option<int>, clear: bool) -> Seq<Window> {
    if switches(w, at) && clear {
        w.list@.update(at->0, quiet(w.list@[at->0]))
    } else {
        w.list@
    }
}

/// Whether `new` is `w` with the window at a position asked for: nothing changes where it
/// is there already or there is none; else the active window is remembered, and the new one
/// has nothing to report if that is asked.
pub open spec fn is_focused(w: Windows, new: Windows, at: Option<int>, clear: bool) -> bool {
    &&& new.list@ == focused_list(w, at, clear)
    &&& new.active == (if switches(w, at) {
        at->0
    } else {
        w.active as int
    })
    &&& new.last == (if switches(w, at) {
        w.active
    } else {
        w.last
    })
    &&& new.base_index == w.base_index
}

/// The windows in the order after the one at `from` was moved to `to`.
pub open spec fn moved(list: Seq<Window>, from: int, to: int) -> Seq<Window> {
    list.remove(from).insert(to, list[from])
}

/// Where a window comes to stand that is moved to a position: one before it where
/// the window stood ahead of it.
pub open spec fn landing(from: usize, to: usize) -> usize {
    if to > from {
        (to - 1) as usize
    } else {
        to
    }
}

impl Windows {
    /// What the windows always keep: the active one is one of them.
    pub open spec fn wf(self) -> bool {
        self.list@.len() > 0 ==> self.active < self.list@.len()
    }

    fn position_with_name(&self, name: &str) -> (r: Option<usize>)
        ensures
            (match r {
                Some(i) => Some(i as int),
                None => None,
            }) == first_named(self.list@, name@, 0),
            r matches Some(i) ==> i < self.list@.len(),
    {
        let mut i: usize = 0;
        while i < self.list.len()
            invariant
                first_named(self.list@, name@, i as int) == first_named(self.list@, name@, 0),
            decreases self.list.len() - i,
        {
            if same(self.list[i].name.as_str(), name) {
                return Some(i);
            }
            i += 1;
        }
        None
    }

    fn position_with_id(&self, id: usize) -> (r: Option<usize>)
        ensures
            (match r {
                Some(i) => Some(i as int),
                None => None,
            }) == first_with_id(self.list@, id, 0),
            r matches Some(i) ==> i < self.list@.len(),
    {
        let mut i: usize = 0;
        while i < self.list.len()
            invariant
                first_with_id(self.list@, id, i as int) == first_with_id(self.list@, id, 0),
            decreases self.list.len() - i,
        {
            if self.list[i].id == id {
                return Some(i);
            }
            i += 1;
        }
        None
    }

    fn focus(&mut self, at: Option<usize>, clear: bool) -> (r: bool)
        requires
            old(self).wf(),
        ensures
            final(self).wf(),
            ({
                let i = match at {
                    Some(i) => Some(i as int),
                    None => None,
                };
                is_focused(*old(self), *final(self), i, clear) && r == switches(*old(self), i)
            }),
    {
        if let Some(i) = at {
            if i < self.list.len() && i != self.active {
                self.last = self.active;
                self.active = i;
                if clear {
                    let w = self.list.remove(i);
                    self.list.insert(
                        i,
                        Window {
                            id: w.id,
                            name: w.name,
                            manual_rename: w.manual_rename,
                            activity: false,
                            bell: false,
                            silence: false,
                            linked_from: w.linked_from,
                        },
                    );
                    assert(self.list@ =~= old(self).list@.update(
                        i as int,
                        quiet(old(self).list@[i as int]),
                    ));
                }
                return true;
            }
        }
        false
    }

    fn place(&self, number: usize) -> (r: Option<usize>)
        ensures
            (match r {
                Some(i) => Some(i as int),
                None => None,
            }) == position_of(number, self.base_index),
    {
        if number >= self.base_index {
            Some(number - self.base_index)
        } else {
            None
        }
    }

    /// Goes to the window with a number, which has nothing to report afterwards;
    /// whether the active window changed.
    pub fn focus_window(&mut self, number: usize) -> (r: bool)
        requires
            old(self).wf(),
        ensures
            final(self).wf(),
            is_focused(
                *old(self),
                *final(self),
                position_of(number, old(self).base_index),
                true,
            ),
            r == switches(*old(self), position_of(number, old(self).base_index)),
    {
        let at = self.place(number);
        self.focus(at, true)
    }

    /// Goes to the first window with a name, which has nothing to report
    /// afterwards.
    pub fn focus_window_by_name(&mut self, name: &str) -> (r: bool)
        requires
            old(self).wf(),
        ensures
            final(self).wf(),
            is_focused(*old(self), *final(self), first_named(old(self).list@, name@, 0), true),
            r == switches(*old(self), first_named(old(self).list@, name@, 0)),
    {
        let at = self.position_with_name(name);
        self.focus(at, true)
    }

    /// Goes to the window with a number of its own, which has nothing to report
    /// afterwards.
    pub fn focus_window_by_id(&mut self, id: usize) -> (r: bool)
        requires
            old(self).wf(),
        ensures
            final(self).wf(),
            is_focused(*old(self), *final(self), first_with_id(old(self).list@, id, 0), true),
            r == switches(*old(self), first_with_id(old(self).list@, id, 0)),
    {
        let at = self.position_with_id(id);
        self.focus(at, true)
    }

    /// Goes to the window with a number, which keeps what it has to report.
    pub fn select_window(&mut self, number: usize) -> (r: bool)
        requires
            old(self).wf(),
        ensures
            final(self).wf(),
            is_focused(
                *old(self),
                *final(self),
                position_of(number, old(self).base_index),
                false,
            ),
            r == switches(*old(self), position_of(number, old(self).base_index)),
    {
        let at = self.place(number);
        self.focus(at, false)
    }

    /// Goes to the next window, from the last one to the first; whether there is
    /// any.
    pub fn next_window(&mut self) -> (r: bool)
        requires
            old(self).wf(),
        ensures
            final(self).wf(),
            final(self).list@ == old(self).list@,
            final(self).base_index == old(self).base_index,
            r == (old(self).list@.len() > 0),
            !r ==> final(self).active == old(self).active && final(self).last == old(self).last,
            r ==> final(self).last == old(self).active && final(self).active == (old(self).active
                + 1) % old(self).list@.len() as int,
    {
        let n: usize = self.list.len();
        if n == 0 {
            return false;
        }
        self.last = self.active;
        if self.active + 1 == n {
            self.active = 0;
        } else {
            self.active = self.active + 1;
        }
        proof {
            let a = old(self).active as int;
            if a + 1 == n {
                vstd::arithmetic::div_mod::lemma_mod_self_0(n as int);
            } else {
                vstd::arithmetic::div_mod::lemma_small_mod((a + 1) as nat, n as nat);
            }
        }
        true
    }

    /// Goes to the window before, from the first one to the last; whether there is
    /// any.
    pub fn previous_window(&mut self) -> (r: bool)
        requires
            old(self).wf(),
        ensures
            final(self).wf(),
            final(self).list@ == old(self).list@,
            final(self).base_index == old(self).base_index,
            r == (old(self).list@.len() > 0),
            !r ==> final(self).active == old(self).active && final(self).last == old(self).last,
            r ==> final(self).last == old(self).active && final(self).active == (old(self).active
                + old(self).list@.len() - 1) % old(self).list@.len() as int,
    {
        let n: usize = self.list.len();
        if n == 0 {
            return false;
        }
        self.last = self.active;
        if self.active == 0 {
            self.active = n - 1;
        } else {
            self.active = self.active - 1;
        }
        proof {
            let a = old(self).active as int;
            if a == 0 {
                vstd::arithmetic::div_mod::lemma_small_mod((n - 1) as nat, n as nat);
            } else {
                vstd::arithmetic::div_mod::lemma_mod_add_multiples_vanish(a - 1, n as int);
                vstd::arithmetic::div_mod::lemma_small_mod((a - 1) as nat, n as nat);
            }
        }
        true
    }

    /// Goes back to the window that was active before, if it is still there; the
    /// two change places.
    pub fn last_window(&mut self) -> (r: bool)
        requires
            old(self).wf(),
        ensures
            final(self).wf(),
            final(self).list@ == old(self).list@,
            final(self).base_index == old(self).base_index,
            r == (old(self).list@.len() > 1 && old(self).last < old(self).list@.len()),
            if r {
                final(self).active == old(self).last && final(self).last == old(self).active
            } else {
                final(self).active == old(self).active && final(self).last == old(self).last
            },
    {
        if self.list.len() > 1 && self.last < self.list.len() {
            let was: usize = self.active;
            self.active = self.last;
            self.last = was;
            true
        } else {
            false
        }
    }

    /// Gives the active window a name by hand.
    pub fn rename_window(&mut self, name: String)
        requires
            old(self).wf(),
            old(self).list@.len() > 0,
        ensures
            final(self).wf(),
            final(self).active == old(self).active,
            final(self).last == old(self).last,
            final(self).base_index == old(self).base_index,
            final(self).list@ == old(self).list@.update(
                old(self).active as int,
                Window { name, manual_rename: true, ..old(self).list@[old(self).active as int] },
            ),
    {
        let i: usize = self.active;
        self.name_window(i, name);
    }

    fn name_window(&mut self, i: usize, name: String)
        requires
            i < old(self).list@.len(),
        ensures
            final(self).active == old(self).active,
            final(self).last == old(self).last,
            final(self).base_index == old(self).base_index,
            final(self).list@ == old(self).list@.update(
                i as int,
                Window { name, manual_rename: true, ..old(self).list@[i as int] },
            ),
    {
        let w = self.list.remove(i);
        self.list.insert(
            i,
            Window {
                id: w.id,
                name,
                manual_rename: true,
                activity: w.activity,
                bell: w.bell,
                silence: w.silence,
                linked_from: w.linked_from,
            },
        );
        assert(self.list@ =~= old(self).list@.update(
            i as int,
            Window { name, manual_rename: true, ..old(self).list@[i as int] },
        ));
    }

    /// Takes a window in that was created at the end. It gets its name by hand if
    /// one is given, and a detached one leaves the active window as it was.
    pub fn opened(&mut self, name: Option<String>, detached: bool, active_before: usize)
        requires
            old(self).wf(),
            detached ==> active_before < old(self).list@.len(),
        ensures
            final(self).wf(),
            final(self).last == old(self).last,
            final(self).base_index == old(self).base_index,
            final(self).active == (if detached {
                active_before
            } else {
                old(self).active
            }),
            final(self).list@ == (match name {
                Some(n) => if old(self).list@.len() > 0 {
                    old(self).list@.update(
                        old(self).list@.len() - 1,
                        Window { name: n, manual_rename: true, ..old(self).list@.last() },
                    )
                } else {
                    old(self).list@
                },
                None => old(self).list@,
            }),
    {
        if let Some(n) = name {
            if self.list.len() > 0 {
                let i: usize = self.list.len() - 1;
                self.name_window(i, n);
            }
        }
        if detached {
            self.active = active_before;
        }
    }

    /// Removes the active window, unless it is the only one; the active position
    /// stays, or goes to the last window where it was that. Whether it was
    /// removed: of the only one just the processes are ended.
    pub fn kill_window(&mut self) -> (r: Option<Window>)
        requires
            old(self).wf(),
        ensures
            final(self).wf(),
            final(self).last == old(self).last,
            final(self).base_index == old(self).base_index,
            r is Some <==> old(self).list@.len() > 1,
            match r {
                Some(w) => {
                    &&& w == old(self).list@[old(self).active as int]
                    &&& final(self).list@ == old(self).list@.remove(old(self).active as int)
                    &&& final(self).active == (if old(self).active == old(self).list@.len() - 1 {
                        (old(self).active - 1) as usize
                    } else {
                        old(self).active
                    })
                },
                None => final(self).list@ == old(self).list@ && final(self).active == old(
                    self,
                ).active,
            },
    {
        if self.list.len() > 1 {
            let i: usize = self.active;
            let w = self.list.remove(i);
            if self.active >= self.list.len() {
                self.active = self.list.len() - 1;
            }
            Some(w)
        } else {
            None
        }
    }

    /// Moves the active window to a position and keeps it active.
    pub fn move_window(&mut self, target: Option<usize>)
        requires
            old(self).wf(),
        ensures
            final(self).wf(),
            final(self).last == old(self).last,
            final(self).base_index == old(self).base_index,
            match target {
                Some(t) => if t < old(self).list@.len() && t != old(self).active {
                    &&& final(self).active == landing(old(self).active, t)
                    &&& final(self).list@ == moved(
                        old(self).list@,
                        old(self).active as int,
                        landing(old(self).active, t) as int,
                    )
                } else {
                    final(self).list@ == old(self).list@ && final(self).active == old(self).active
                },
                None => final(self).list@ == old(self).list@ && final(self).active == old(
                    self,
                ).active,
            },
    {
        if let Some(t) = target {
            if t < self.list.len() && t != self.active {
                let from: usize = self.active;
                let to: usize = if t > from { t - 1 } else { t };
                let w = self.list.remove(from);
                self.list.insert(to, w);
                self.active = to;
            }
        }
    }

    /// Lets the active window and another change places; the active position
    /// stays.
    pub fn swap_window(&mut self, target: usize)
        requires
            old(self).wf(),
        ensures
            final(self).wf(),
            final(self).last == old(self).last,
            final(self).base_index == old(self).base_index,
            final(self).active == old(self).active,
            final(self).list@ == (if target < old(self).list@.len() && target != old(self).active {
                swapped(old(self).list@, old(self).active as int, target as int)
            } else {
                old(self).list@
            }),
    {
        if target < self.list.len() && target != self.active {
            let (lo, hi): (usize, usize) = if target < self.active {
                (target, self.active)
            } else {
                (self.active, target)
            };
            let b = self.list.remove(hi);
            let a = self.list.remove(lo);
            self.list.insert(lo, b);
            self.list.insert(hi, a);
            assert(self.list@ =~= swapped(
                old(self).list@,
                old(self).active as int,
                target as int,
            ));
        }
    }

    /// The window that is linked to: the one at the given place, or the active one. A message
    /// where there is none.
    pub fn link_source(&self, source: Option<usize>) -> (r: Result<(usize, String), String>)
        ensures
            ({
                let at = match source {
                    Some(i) => i,
                    None => self.active,
                };
                match r {
                    Result::Ok((id, name)) => at < self.list@.len() && id == self.list@[at as int].id
                        && name@ == self.list@[at as int].name@,
                    Result::Err(message) => at >= self.list@.len() && message@
                        == "link-window: source window not found"@,
                }
            }),
    {
        let at: usize = match source {
            Some(i) => i,
            None => self.active,
        };
        if at < self.list.len() {
            Ok((self.list[at].id, self.list[at].name.clone()))
        } else {
            Err("link-window: source window not found".to_owned())
        }
    }

    /// Takes in a window that was created at the end as a link to another one: it
    /// gets that one's name and is moved to its place, where that lies ahead.
    pub fn link_window(&mut self, source_id: usize, source_name: String, destination: Option<usize>)
        requires
            old(self).wf(),
            old(self).list@.len() > 0,
        ensures
            final(self).wf(),
            final(self).last == old(self).last,
            final(self).base_index == old(self).base_index,
            ({
                let n = old(self).list@.len() - 1;
                let linked = Window {
                    linked_from: Some(source_id),
                    name: source_name,
                    ..old(self).list@[n]
                };
                let named = old(self).list@.update(n, linked);
                if destination is Some && destination->0 < n {
                    &&& final(self).list@ == moved(named, n, destination->0 as int)
                    &&& final(self).active == (if old(self).active > destination->0 {
                        (old(self).active - 1) as usize
                    } else {
                        old(self).active
                    })
                } else {
                    final(self).list@ == named && final(self).active == old(self).active
                }
            }),
    {
        let n: usize = self.list.len() - 1;
        let w = self.list.remove(n);
        let linked = Window {
            id: w.id,
            name: source_name,
            manual_rename: w.manual_rename,
            activity: w.activity,
            bell: w.bell,
            silence: w.silence,
            linked_from: Some(source_id),
        };
        let ghost named = old(self).list@.update(n as int, linked);
        let d: usize = match destination {
            Some(d) => d,
            None => n,
        };
        if d < n {
            self.list.insert(d, linked);
            if self.active > d && self.active <= n {
                self.active = self.active - 1;
            }
            assert(named.remove(n as int) =~= old(self).list@.remove(n as int));
            assert(self.list@ =~= moved(named, n as int, d as int));
        } else {
            self.list.push(linked);
            assert(self.list@ =~= named);
        }
    }

    /// Goes to a window for one command only; what was active is kept elsewhere.
    pub fn focus_temporarily(&mut self, at: Option<usize>)
        requires
            old(self).wf(),
        ensures
            final(self).wf(),
            final(self).list@ == old(self).list@,
            final(self).last == old(self).last,
            final(self).base_index == old(self).base_index,
            final(self).active == (if at is Some && at->0 < old(self).list@.len() {
                at->0
            } else {
                old(self).active
            }),
    {
        if let Some(i) = at {
            if i < self.list.len() {
                self.active = i;
            }
        }
    }

    /// The position of the window with a number, for one command.
    pub fn position_by_number(&self, number: usize) -> (r: Option<usize>)
        ensures
            (match r {
                Some(i) => Some(i as int),
                None => None,
            }) == position_of(number, self.base_index),
    {
        self.place(number)
    }

    /// The position of the first window with a name, for one command.
    pub fn position_by_name(&self, name: &str) -> (r: Option<usize>)
        ensures
            (match r {
                Some(i) => Some(i as int),
                None => None,
            }) == first_named(self.list@, name@, 0),
    {
        self.position_with_name(name)
    }

    /// The position of the window with a number of its own, for one command.
    pub fn position_by_id(&self, id: usize) -> (r: Option<usize>)
        ensures
            (match r {
                Some(i) => Some(i as int),
                None => None,
            }) == first_with_id(self.list@, id, 0),
    {
        self.position_with_id(id)
    }

    /// Where a pane that is joined comes to: the window's position after the
    /// source window, emptied, is gone.
    pub fn close_emptied(&mut self, source: usize, target: usize) -> (r: usize)
        requires
            old(self).wf(),
            source < old(self).list@.len(),
            target < old(self).list@.len(),
            source != target,
        ensures
            final(self).wf(),
            final(self).list@ == old(self).list@.remove(source as int),
            r == landing(source, target),
            r < final(self).list@.len(),
            final(self).list@[r as int] == old(self).list@[target as int],
            final(self).last == old(self).last,
            final(self).base_index == old(self).base_index,
            final(self).active == (if old(self).active == old(self).list@.len() - 1 {
                (old(self).active - 1) as usize
            } else {
                old(self).active
            }),
    {
        self.list.remove(source);
        if self.active >= self.list.len() {
            self.active = self.list.len() - 1;
        }
        if target > source {
            target - 1
        } else {
            target
        }
    }

    /// The windows whose name holds a pattern, one on each line.
    pub fn find_window(&self, pattern: &str) -> (r: String)
        requires
            self.base_index + self.list@.len() <= usize::MAX,
        ensures
            r@ == found_windows(self.list@, self.base_index, pattern@, self.list@.len() as int),
    {
        let mut out = String::new();
        let mut i: usize = 0;
        while i < self.list.len()
            invariant
                i <= self.list.len(),
                self.base_index + self.list@.len() <= usize::MAX,
                out@ == found_windows(self.list@, self.base_index, pattern@, i as int),
            decreases self.list.len() - i,
        {
            if contains(self.list[i].name.as_str(), pattern) {
                push_number(&mut out, (i + self.base_index) as u64);
                out.append(": ");
                out.append(self.list[i].name.as_str());
                out.append(" []\n");
            }
            assert(out@ =~= found_windows(self.list@, self.base_index, pattern@, i + 1));
            i += 1;
        }
        out
    }
}

/// The lines of the first `n` windows whose name holds a pattern.
pub open spec fn found_windows(
    list: Seq<Window>,
    base_index: usize,
    pattern: Seq<char>,
    n: int,
) -> Seq<char>
    decreases n,
{
    if n <= 0 {
        Seq::empty()
    } else {
        found_windows(list, base_index, pattern, n - 1) + (if has_substring(
            list[n - 1].name@,
            pattern,
        ) {
            decimal((n - 1 + base_index) as nat) + ": "@ + list[n - 1].name@ + " []\n"@
        } else {
            Seq::empty()
        })
    }
}

/// Two windows in each other's place.
pub open spec fn swapped(list: Seq<Window>, i: int, j: int) -> Seq<Window> {
    list.update(i, list[j]).update(j, list[i])
}

/// Going to the next window and then to the one before comes back.
pub proof fn previous_undoes_next(active: int, n: int)
    requires
        0 <= active < n,
    ensures
        ((active + 1) % n + n - 1) % n == active,
{
    if active + 1 == n {
        vstd::arithmetic::div_mod::lemma_mod_self_0(n);
        vstd::arithmetic::div_mod::lemma_small_mod((n - 1) as nat, n as nat);
    } else {
        vstd::arithmetic::div_mod::lemma_small_mod((active + 1) as nat, n as nat);
        vstd::arithmetic::div_mod::lemma_mod_add_multiples_vanish(active, n);
        vstd::arithmetic::div_mod::lemma_small_mod(active as nat, n as nat);
    }
}

/// Swapping two windows twice leaves the order as it was.
pub proof fn swapping_twice_changes_nothing(list: Seq<Window>, i: int, j: int)
    requires
        0 <= i < list.len(),
        0 <= j < list.len(),
    ensures
        swapped(swapped(list, i, j), i, j) == list,
{
    assert(swapped(swapped(list, i, j), i, j) =~= list);
}

/// Moving a window neither loses nor doubles one, and puts it where it was to go.
pub proof fn moving_keeps_the_windows(list: Seq<Window>, from: int, to: int)
    requires
        0 <= from < list.len(),
        0 <= to < list.len(),
    ensures
        moved(list, from, to).len() == list.len(),
        moved(list, from, to)[to] == list[from],
        moved(list, from, to).to_multiset() == list.to_multiset(),
{
    list.to_multiset_ensures();
    list.remove(from).to_multiset_ensures();
    assert(moved(list, from, to).to_multiset() =~= list.to_multiset()) by {
        vstd::seq_lib::to_multiset_insert(list.remove(from), to, list[from]);
        vstd::seq_lib::to_multiset_remove(list, from);
    }
}

/// The focus that a command with a target leaves behind: the window and the pane
/// that were active before, by position and by number.
#[derive(Clone, Copy, PartialEq, Eq, Structural, Debug)]
pub struct SavedFocus {
    pub window: usize,
    pub pane: usize,
}

/// What is kept while a command with a target runs.
pub struct TempFocus {
    pub saved: Option<SavedFocus>,
}

impl TempFocus {
    /// Remembers the focus before the first target of a command.
    pub fn save(&mut self, window: usize, pane: Option<usize>)
        ensures
            final(self).saved == (match old(self).saved {
                Some(s) => Some(s),
                None => Some(
                    SavedFocus {
                        window,
                        pane: match pane {
                            Some(p) => p,
                            None => usize::MAX,
                        },
                    },
                ),
            }),
    {
        if self.saved.is_none() {
            let pane: usize = match pane {
                Some(p) => p,
                None => usize::MAX,
            };
            self.saved = Some(SavedFocus { window, pane });
        }
    }

    /// Goes back to what was remembered, once a command that is no target has run:
    /// the window's position, if it is still there, and the pane to look for in
    /// it. Nothing is remembered afterwards.
    pub fn restore(&mut self, windows: &mut Windows, is_target: bool) -> (r: Option<usize>)
        requires
            old(windows).wf(),
        ensures
            final(windows).wf(),
            final(windows).list@ == old(windows).list@,
            final(windows).last == old(windows).last,
            final(windows).base_index == old(windows).base_index,
            is_target ==> final(self).saved == old(self).saved && r is None
                && final(windows).active == old(windows).active,
            !is_target ==> final(self).saved is None && (match old(self).saved {
                Some(s) => if s.window < old(windows).list@.len() {
                    final(windows).active == s.window && r == Some(s.pane)
                } else {
                    final(windows).active == old(windows).active && r is None
                },
                None => final(windows).active == old(windows).active && r is None,
            }),
    {
        if is_target {
            return None;
        }
        let saved = self.saved;
        self.saved = None;
        if let Some(s) = saved {
            if s.window < windows.list.len() {
                windows.active = s.window;
                return Some(s.pane);
            }
        }
        None
    }
}

} // verus!
