//! The list of options that can be looked through and changed on the screen.

use vstd::prelude::*;
use crate::text::{byte_count, byte_len, contains, has_substring};

verus! {

/// An option in the list.
pub struct OptionRow {
    pub name: String,
    pub value: String,
    /// What the list of options says of it.
    pub note: String,
}

/// The list, with what is selected and typed in it.
pub struct Customize {
    pub rows: Vec<OptionRow>,
    pub selected: usize,
    /// How many rows are scrolled out at the top.
    pub scroll: usize,
    pub editing: bool,
    /// The value as it is typed.
    pub buffer: String,
    /// Where the next character goes, in bytes.
    pub cursor: usize,
    /// What the names of the shown options hold.
    pub filter: String,
}

/// How many rows are shown.
pub const SHOWN_ROWS: usize = 20;

/// Whether an option is shown.
pub open spec fn is_shown(name: Seq<char>, filter: Seq<char>) -> bool {
    filter.len() == 0 || has_substring(name, filter)
}

/// The places of the options that are shown.
pub open spec fn shown_places(rows: Seq<OptionRow>, filter: Seq<char>) -> Seq<usize>
    decreases rows.len(),
{
    if rows.len() == 0 {
        Seq::empty()
    } else if is_shown(rows.last().name@, filter) {
        shown_places(rows.drop_last(), filter).push((rows.len() - 1) as usize)
    } else {
        shown_places(rows.drop_last(), filter)
    }
}

/// Where a place stands among those that are shown; at the first where it is not.
pub open spec fn rank_of(places: Seq<usize>, place: usize, i: int) -> int
    decreases places.len() - i,
{
    if i < 0 || i >= places.len() {
        0
    } else if places[i] == place {
        i
    } else {
        rank_of(places, place, i + 1)
    }
}

/// The rank that the selection moves to.
pub open spec fn moved_rank(rank: int, delta: int, n: int) -> int {
    if delta > 0 {
        if rank + delta < n - 1 {
            rank + delta
        } else {
            n - 1
        }
    } else if rank + delta > 0 {
        rank + delta
    } else {
        0
    }
}

/// How far the list is scrolled so that a rank is shown.
pub open spec fn scrolled_to(scroll: int, rank: int) -> int {
    if rank < scroll {
        rank
    } else if rank >= scroll + SHOWN_ROWS {
        rank - (SHOWN_ROWS - 1)
    } else {
        scroll
    }
}

/// The first option that is shown.
pub open spec fn first_shown(rows: Seq<OptionRow>, filter: Seq<char>, i: int) -> Option<int>
    decreases rows.len() - i,
{
    if i < 0 || i >= rows.len() {
        None
    } else if is_shown(rows[i].name@, filter) {
        Some(i)
    } else {
        first_shown(rows, filter, i + 1)
    }
}

fn shown(name: &str, filter: &str) -> (r: bool)
    ensures
        r == is_shown(name@, filter@),
{
    filter.unicode_len() == 0 || contains(name, filter)
}

fn collect_shown(rows: &Vec<OptionRow>, filter: &str) -> (r: Vec<usize>)
    ensures
        r@ == shown_places(rows@, filter@),
        r@.len() <= rows@.len(),
{
    let mut r: Vec<usize> = Vec::new();
    let mut i: usize = 0;
    while i < rows.len()
        invariant
            i <= rows.len(),
            r@ == shown_places(rows@.take(i as int), filter@),
            r@.len() <= i,
        decreases rows.len() - i,
    {
        assert(rows@.take(i + 1).drop_last() =~= rows@.take(i as int));
        if shown(rows[i].name.as_str(), filter) {
            r.push(i);
        }
        i += 1;
    }
    assert(rows@.take(i as int) =~= rows@);
    r
}

fn find_rank(places: &Vec<usize>, place: usize) -> (r: usize)
    ensures
        r == rank_of(places@, place, 0),
        places@.len() > 0 ==> r < places@.len(),
{
    let mut i: usize = 0;
    while i < places.len()
        invariant
            i <= places.len(),
            rank_of(places@, place, i as int) == rank_of(places@, place, 0),
        decreases places.len() - i,
    {
        if places[i] == place {
            return i;
        }
        i += 1;
    }
    0
}

impl Customize {
    /// The list, with nothing selected but its first row.
    pub fn open(rows: Vec<OptionRow>) -> (c: Customize)
        ensures
            c.rows == rows,
            c.selected == 0 && c.scroll == 0 && !c.editing && c.cursor == 0,
            c.buffer@.len() == 0 && c.filter@.len() == 0,
    {
        Customize {
            rows,
            selected: 0,
            scroll: 0,
            editing: false,
            buffer: String::new(),
            cursor: 0,
            filter: String::new(),
        }
    }

    /// Moves the selection over the rows that are shown, and scrolls the list so that it can be
    /// seen. While a value is typed, it stays.
    pub fn navigate(&mut self, delta: i32)
        requires
            delta > i32::MIN,
            old(self).scroll <= usize::MAX - SHOWN_ROWS,
        ensures
            ({
                let places = shown_places(old(self).rows@, old(self).filter@);
                let rank = moved_rank(
                    rank_of(places, old(self).selected, 0),
                    delta as int,
                    places.len() as int,
                );
                *final(self) == (if old(self).editing || places.len() == 0 {
                    *old(self)
                } else {
                    Customize {
                        selected: places[rank],
                        scroll: scrolled_to(old(self).scroll as int, rank) as usize,
                        ..*old(self)
                    }
                })
            }),
    {
        if self.editing {
            return;
        }
        let places = collect_shown(&self.rows, self.filter.as_str());
        let n: usize = places.len();
        if n == 0 {
            return;
        }
        let rank: usize = find_rank(&places, self.selected);
        let to: usize = if delta > 0 {
            let far: usize = n - 1 - rank;
            if (delta as usize) < far {
                rank + delta as usize
            } else {
                n - 1
            }
        } else {
            let back: usize = (-delta) as usize;
            if back < rank {
                rank - back
            } else {
                0
            }
        };
        self.selected = places[to];
        if to < self.scroll {
            self.scroll = to;
        } else if to >= self.scroll + SHOWN_ROWS {
            self.scroll = to - (SHOWN_ROWS - 1);
        }
    }

    /// Begins to type a value over the selected one. Tells whether it does.
    pub fn edit(&mut self) -> (r: bool)
        ensures
            r == (!old(self).editing && old(self).selected < old(self).rows@.len()),
            r ==> *final(self) == (Customize {
                buffer: final(self).buffer,
                cursor: byte_count(final(self).buffer@),
                editing: true,
                ..*old(self)
            }) && final(self).buffer@ == old(self).rows@[old(self).selected as int].value@,
            !r ==> *final(self) == *old(self),
    {
        if self.editing || self.selected >= self.rows.len() {
            return false;
        }
        self.buffer = self.rows[self.selected].value.clone();
        self.cursor = byte_len(self.buffer.as_str());
        self.editing = true;
        true
    }

    /// Takes in what was typed. Tells whether a value is typed.
    pub fn edit_update(&mut self, text: String) -> (r: bool)
        ensures
            r == old(self).editing,
            r ==> *final(self) == (Customize { buffer: text, cursor: byte_count(text@), ..*old(self) }),
            !r ==> *final(self) == *old(self),
    {
        if !self.editing {
            return false;
        }
        self.cursor = byte_len(text.as_str());
        self.buffer = text;
        true
    }

    /// Ends typing: the selected option gets the value. The option and its value, which is to
    /// be applied, come back.
    pub fn edit_confirm(&mut self) -> (r: Option<(String, String)>)
        requires
            old(self).editing ==> old(self).selected < old(self).rows@.len(),
        ensures
            r is Some == old(self).editing,
            r is None ==> *final(self) == *old(self),
            r matches Some((name, value)) ==> {
                &&& name@ == old(self).rows@[old(self).selected as int].name@
                &&& value@ == old(self).buffer@
                &&& *final(self) == (Customize { rows: final(self).rows, editing: false, ..*old(self) })
                &&& row_becomes(old(self).rows@, final(self).rows@, old(self).selected as int, value@)
            },
    {
        if !self.editing {
            return None;
        }
        let name = self.rows[self.selected].name.clone();
        let value = self.buffer.clone();
        self.give_value(value.clone());
        self.editing = false;
        Some((name, value))
    }

    fn give_value(&mut self, value: String)
        requires
            old(self).selected < old(self).rows@.len(),
        ensures
            *final(self) == (Customize { rows: final(self).rows, ..*old(self) }),
            row_becomes(old(self).rows@, final(self).rows@, old(self).selected as int, value@),
    {
        let name = self.rows[self.selected].name.clone();
        let note = self.rows[self.selected].note.clone();
        self.rows.set(self.selected, OptionRow { name, value, note });
    }

    /// Ends typing without a new value. Tells whether a value was typed.
    pub fn edit_cancel(&mut self) -> (r: bool)
        ensures
            r == old(self).editing,
            r ==> *final(self) == (Customize { buffer: final(self).buffer, editing: false, ..*old(self) })
                && final(self).buffer@.len() == 0,
            !r ==> *final(self) == *old(self),
    {
        if !self.editing {
            return false;
        }
        self.editing = false;
        self.buffer = String::new();
        true
    }

    /// Gives the selected option its default value, where it has one and no value is typed. The
    /// option, which is to be set, comes back.
    pub fn reset_default(&mut self, default: Option<String>) -> (r: Option<String>)
        requires
            old(self).selected < old(self).rows@.len(),
        ensures
            r is Some == (!old(self).editing && default is Some),
            r is None ==> *final(self) == *old(self),
            r matches Some(name) ==> {
                &&& name@ == old(self).rows@[old(self).selected as int].name@
                &&& *final(self) == (Customize { rows: final(self).rows, ..*old(self) })
                &&& row_becomes(
                    old(self).rows@,
                    final(self).rows@,
                    old(self).selected as int,
                    (default->0)@,
                )
            },
    {
        if self.editing {
            return None;
        }
        match default {
            Some(value) => {
                let name = self.rows[self.selected].name.clone();
                self.give_value(value);
                Some(name)
            },
            None => None,
        }
    }

    /// Shows the options whose names hold a text, and selects the first of them. Where there is
    /// none, the selection stays.
    pub fn set_filter(&mut self, text: String)
        ensures
            *final(self) == (Customize {
                filter: text,
                scroll: 0,
                selected: (match first_shown(old(self).rows@, text@, 0) {
                    Some(i) => i as usize,
                    None => old(self).selected,
                }),
                ..*old(self)
            }),
    {
        let mut i: usize = 0;
        let mut at: usize = self.selected;
        while i < self.rows.len()
            invariant_except_break
                i <= self.rows.len(),
                at == old(self).selected,
                *self == *old(self),
                first_shown(self.rows@, text@, i as int) == first_shown(self.rows@, text@, 0),
            ensures
                *self == *old(self),
                at == (match first_shown(self.rows@, text@, 0) {
                    Some(i) => i as usize,
                    None => self.selected,
                }),
            decreases self.rows.len() - i,
        {
            if shown(self.rows[i].name.as_str(), text.as_str()) {
                at = i;
                break;
            }
            i += 1;
        }
        self.filter = text;
        self.selected = at;
        self.scroll = 0;
    }
}

/// Whether only the value of one row differs.
pub open spec fn row_becomes(old: Seq<OptionRow>, new: Seq<OptionRow>, at: int, value: Seq<char>) -> bool {
    &&& new.len() == old.len()
    &&& new[at].name@ == old[at].name@
    &&& new[at].value@ == value
    &&& new[at].note@ == old[at].note@
    &&& forall|i: int| 0 <= i < old.len() && i != at ==> #[trigger] new[i] == old[i]
}

/// The row that the selection moves to can be seen.
pub proof fn selection_can_be_seen(scroll: int, rank: int)
    requires
        0 <= scroll,
        0 <= rank,
    ensures
        scrolled_to(scroll, rank) <= rank < scrolled_to(scroll, rank) + SHOWN_ROWS,
        scrolled_to(scroll, rank) >= 0,
{
}

proof fn lemma_places_are_shown(rows: Seq<OptionRow>, filter: Seq<char>)
    requires
        rows.len() <= usize::MAX,
    ensures
        forall|i: int|
            0 <= i < shown_places(rows, filter).len() ==> #[trigger] shown_places(rows, filter)[i]
                < rows.len() && is_shown(rows[shown_places(rows, filter)[i] as int].name@, filter),
    decreases rows.len(),
{
    if rows.len() > 0 {
        let front = rows.drop_last();
        lemma_places_are_shown(front, filter);
        let before = shown_places(front, filter);
        let after = shown_places(rows, filter);
        assert forall|i: int| 0 <= i < after.len() implies #[trigger] after[i] < rows.len() && is_shown(
            rows[after[i] as int].name@,
            filter,
        ) by {
            if i < before.len() {
                assert(after[i] == before[i]);
                assert(rows[before[i] as int] == front[before[i] as int]);
            }
        }
    }
}

/// Moving the selection ends at an option that is shown.
pub proof fn selection_is_shown(rows: Seq<OptionRow>, filter: Seq<char>, rank: int, delta: int)
    requires
        rows.len() <= usize::MAX,
        0 <= rank < shown_places(rows, filter).len(),
    ensures
        ({
            let places = shown_places(rows, filter);
            let to = places[moved_rank(rank, delta, places.len() as int)];
            to < rows.len() && is_shown(rows[to as int].name@, filter)
        }),
{
    lemma_places_are_shown(rows, filter);
    let places = shown_places(rows, filter);
    let to = moved_rank(rank, delta, places.len() as int);
    assert(0 <= to < places.len());
    assert(places[to] < rows.len());
}

} // verus!
