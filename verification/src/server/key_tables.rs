//! Tables of keys that are bound to commands.

use vstd::prelude::*;
use crate::cli::words::opt_text;
use crate::dict::Dict;

verus! {

/// A key with its modifiers.
#[derive(Clone, Copy, PartialEq, Eq, Structural, Debug)]
pub struct Key {
    pub code: u32,
    pub modifiers: u8,
}

/// What a key is bound to.
pub enum BoundAction {
    /// Several commands, one after the other.
    Chain(Vec<String>),
    /// One command.
    Single(String),
}

/// A bound key.
pub struct Bind {
    pub key: Key,
    pub action: BoundAction,
    /// Whether the key may be pressed again without the prefix.
    pub repeat: bool,
}

/// All tables of keys.
pub struct KeyTables {
    pub tables: Dict<Vec<Bind>>,
    /// Whether the keys that are bound by default are left out.
    pub defaults_suppressed: bool,
}

/// A table without a key.
pub open spec fn without_key(s: Seq<Bind>, key: Key) -> Seq<Bind>
    decreases s.len(),
{
    if s.len() == 0 {
        s
    } else if s.last().key == key {
        without_key(s.drop_last(), key)
    } else {
        without_key(s.drop_last(), key).push(s.last())
    }
}

/// Whether some key of a table is this one.
pub open spec fn binds_key(s: Seq<Bind>, key: Key) -> bool {
    exists|i: int| 0 <= i < s.len() && (#[trigger] s[i]).key == key
}

fn retain_others(binds: &mut Vec<Bind>, key: Key)
    ensures
        final(binds)@ == without_key(old(binds)@, key),
{
    let ghost all = binds@;
    let mut i: usize = binds.len();
    assert(binds@.take(i as int) =~= binds@);
    assert(without_key(binds@.take(i as int), key) + binds@.skip(i as int) =~= without_key(all, key));
    while i > 0
        invariant
            i <= binds.len(),
            without_key(binds@.take(i as int), key) + binds@.skip(i as int) == without_key(all, key),
        decreases i,
    {
        let ghost before = binds@;
        assert(before.take(i as int).drop_last() =~= before.take(i - 1));
        if binds[i - 1].key == key {
            let _ = binds.remove(i - 1);
            assert(binds@.take(i - 1) =~= before.take(i - 1));
            assert(binds@.skip(i - 1) =~= before.skip(i as int));
        } else {
            assert(before.skip(i - 1) =~= seq![before[i - 1]] + before.skip(i as int));
            assert(without_key(before.take(i - 1), key) + before.skip(i - 1) =~= without_key(
                before.take(i as int),
                key,
            ) + before.skip(i as int));
        }
        i -= 1;
    }
    assert(binds@.skip(0) =~= binds@);
    assert(without_key(binds@.take(0), key) + binds@.skip(0) =~= binds@);
}

/// What the bindings of a table are; none where there is no such table.
pub open spec fn binds_in(t: KeyTables, table: Seq<char>) -> Seq<Bind> {
    if t.tables.map().dom().contains(table) {
        t.tables.map()[table]@
    } else {
        Seq::empty()
    }
}

/// What a key is bound to, from the commands that the text falls into: a chain where
/// there are several, else the one command that the text denotes, if it does.
pub open spec fn action_of(parts: Vec<String>, command: Option<String>) -> Option<BoundAction> {
    if parts@.len() > 1 {
        Some(BoundAction::Chain(parts))
    } else {
        match command {
            Some(c) => Some(BoundAction::Single(c)),
            None => None,
        }
    }
}

/// What a key is bound to, from the commands that the text falls into.
pub fn action_from(parts: Vec<String>, command: Option<String>) -> (a: Option<BoundAction>)
    ensures
        a == action_of(parts, command),
{
    if parts.len() > 1 {
        Some(BoundAction::Chain(parts))
    } else {
        match command {
            Some(c) => Some(BoundAction::Single(c)),
            None => None,
        }
    }
}

/// Whether one table changed to `binds`, and nothing else.
pub open spec fn table_becomes(old: KeyTables, new: KeyTables, table: Seq<char>, binds: Seq<Bind>) -> bool {
    &&& new.defaults_suppressed == old.defaults_suppressed
    &&& new.tables.map().dom() == old.tables.map().dom().insert(table)
    &&& new.tables.map()[table]@ == binds
    &&& forall|other: Seq<char>|
        other != table && old.tables.map().dom().contains(other) ==> #[trigger] new.tables.map()[other]
            == old.tables.map()[other]
}

impl KeyTables {
    /// Whether the tables have different names.
    pub open spec fn wf(self) -> bool {
        self.tables.wf()
    }

    /// No tables.
    pub fn new() -> (t: KeyTables)
        ensures
            t.wf(),
            t.tables.map() == Map::<Seq<char>, Vec<Bind>>::empty(),
            !t.defaults_suppressed,
    {
        KeyTables { tables: Dict::new(), defaults_suppressed: false }
    }

    /// Binds a key in a table, in place of what it was bound to. A text that is no key,
    /// or no command, binds nothing.
    pub fn bind_key(&mut self, table: String, key: Option<Key>, action: Option<BoundAction>, repeat: bool)
        requires
            old(self).wf(),
        ensures
            final(self).wf(),
            (key is Some && action is Some) ==> table_becomes(
                *old(self),
                *final(self),
                table@,
                without_key(binds_in(*old(self), table@), key->0).push(
                    (Bind { key: key->0, action: action->0, repeat }),
                ),
            ),
            (key is None || action is None) ==> *final(self) == *old(self),
    {
        if let Some(k) = key {
            if let Some(a) = action {
                let mut binds = match self.tables.remove(table.as_str()) {
                    Some(b) => b,
                    None => Vec::new(),
                };
                assert(binds@ == binds_in(*old(self), table@));
                retain_others(&mut binds, k);
                binds.push(Bind { key: k, action: a, repeat });
                let ghost name = table@;
                self.tables.insert(table, binds);
                assert(self.tables.map().dom() =~= old(self).tables.map().dom().insert(name));
            }
        }
    }

    /// Unbinds a key in a table, the one behind the prefix where none is named. Where
    /// there is no such table, nothing happens.
    pub fn unbind_key(&mut self, key: Option<Key>, table: Option<String>)
        requires
            old(self).wf(),
        ensures
            final(self).wf(),
            ({
                let name = match opt_text(table) {
                    Some(t) => t,
                    None => "prefix"@,
                };
                if key is Some && old(self).tables.map().dom().contains(name) {
                    table_becomes(
                        *old(self),
                        *final(self),
                        name,
                        without_key(binds_in(*old(self), name), key->0),
                    )
                } else {
                    final(self).tables.map() == old(self).tables.map()
                        && final(self).defaults_suppressed == old(self).defaults_suppressed
                }
            }),
    {
        if let Some(k) = key {
            let name = match table {
                Some(t) => t,
                None => "prefix".to_owned(),
            };
            match self.tables.remove(name.as_str()) {
                Some(b) => {
                    let mut binds = b;
                    retain_others(&mut binds, k);
                    self.tables.insert(name, binds);
                    assert(self.tables.map().dom() =~= old(self).tables.map().dom().insert(name@));
                },
                None => {
                    assert(old(self).tables.map().remove(name@) =~= old(self).tables.map());
                },
            }
        }
    }

    /// Unbinds all keys, those that are bound by default too.
    pub fn unbind_all(&mut self)
        ensures
            final(self).wf(),
            final(self).tables.map() == Map::<Seq<char>, Vec<Bind>>::empty(),
            final(self).defaults_suppressed,
    {
        self.tables = Dict::new();
        self.defaults_suppressed = true;
    }

    /// Forgets all keys, before a configuration is read again.
    pub fn start_over(&mut self)
        ensures
            final(self).wf(),
            final(self).tables.map() == Map::<Seq<char>, Vec<Bind>>::empty(),
            !final(self).defaults_suppressed,
    {
        self.tables = Dict::new();
        self.defaults_suppressed = false;
    }

    /// Unbinds all keys of a table. Where there is no such table, nothing happens.
    pub fn unbind_all_in_table(&mut self, table: String)
        requires
            old(self).wf(),
        ensures
            final(self).wf(),
            old(self).tables.map().dom().contains(table@) ==> table_becomes(
                *old(self),
                *final(self),
                table@,
                Seq::empty(),
            ),
            !old(self).tables.map().dom().contains(table@) ==> *final(self) == *old(self),
    {
        if self.tables.has(table.as_str()) {
            self.tables.insert(table, Vec::new());
        }
    }
}

proof fn lemma_without_key(s: Seq<Bind>, key: Key, other: Key)
    ensures
        !binds_key(without_key(s, key), key),
        other != key ==> binds_key(without_key(s, key), other) == binds_key(s, other),
        forall|i: int| 0 <= i < without_key(s, key).len() ==> s.contains(#[trigger] without_key(s, key)[i]),
    decreases s.len(),
{
    if s.len() > 0 {
        let front = s.drop_last();
        let kept = without_key(front, key);
        lemma_without_key(front, key, other);
        assert forall|i: int| 0 <= i < without_key(s, key).len() implies s.contains(
            #[trigger] without_key(s, key)[i],
        ) by {
            if i < kept.len() {
                assert(without_key(s, key)[i] == kept[i]);
                let j = front.index_of(kept[i]);
                assert(s[j] == kept[i]);
            } else {
                assert(s[s.len() - 1] == without_key(s, key)[i]);
            }
        }
        if s.last().key != key {
            if binds_key(without_key(s, key), key) {
                let i = choose|i: int|
                    0 <= i < without_key(s, key).len() && (#[trigger] without_key(s, key)[i]).key == key;
                assert(i < kept.len());
                assert(kept[i].key == key);
            }
        }
        if other != key {
            if binds_key(s, other) {
                let i = choose|i: int| 0 <= i < s.len() && (#[trigger] s[i]).key == other;
                if i < front.len() {
                    assert(front[i].key == other);
                    let j = choose|j: int| 0 <= j < kept.len() && (#[trigger] kept[j]).key == other;
                    assert(without_key(s, key)[j].key == other);
                } else {
                    assert(without_key(s, key)[kept.len() as int].key == other);
                }
            }
            if binds_key(without_key(s, key), other) {
                let i = choose|i: int|
                    0 <= i < without_key(s, key).len() && (#[trigger] without_key(s, key)[i]).key == other;
                if i < kept.len() {
                    assert(kept[i].key == other);
                    let j = choose|j: int| 0 <= j < front.len() && (#[trigger] front[j]).key == other;
                    assert(s[j].key == other);
                } else {
                    assert(s[s.len() - 1].key == other);
                }
            }
        }
    }
}

/// A key that was unbound is bound to nothing, and every other key is bound as before.
pub proof fn unbound_key_is_gone(binds: Seq<Bind>, key: Key, other: Key)
    ensures
        !binds_key(without_key(binds, key), key),
        other != key ==> binds_key(without_key(binds, key), other) == binds_key(binds, other),
{
    lemma_without_key(binds, key, other);
}

/// Binding a key that was bound before leaves one binding of it, the new one.
pub proof fn key_is_bound_once(binds: Seq<Bind>, bind: Bind, i: int)
    requires
        0 <= i < without_key(binds, bind.key).push(bind).len(),
        without_key(binds, bind.key).push(bind)[i].key == bind.key,
    ensures
        without_key(binds, bind.key).push(bind)[i] == bind,
{
    lemma_without_key(binds, bind.key, bind.key);
    if i < without_key(binds, bind.key).len() {
        assert(without_key(binds, bind.key)[i].key == bind.key);
    }
}

proof fn lemma_without_unbound(s: Seq<Bind>, key: Key)
    requires
        !binds_key(s, key),
    ensures
        without_key(s, key) == s,
    decreases s.len(),
{
    if s.len() > 0 {
        let front = s.drop_last();
        assert(!binds_key(front, key)) by {
            if binds_key(front, key) {
                let i = choose|i: int| 0 <= i < front.len() && (#[trigger] front[i]).key == key;
                assert(s[i].key == key);
            }
        }
        lemma_without_unbound(front, key);
        assert(s[s.len() - 1].key != key);
        assert(front.push(s.last()) =~= s);
    }
}

/// Unbinding a key undoes binding it, where it was not bound before: every table has its bindings
/// as they were.
pub proof fn unbinding_undoes_binding(
    before: KeyTables,
    bound: KeyTables,
    unbound: KeyTables,
    table: Seq<char>,
    bind: Bind,
    any: Seq<char>,
)
    requires
        !binds_key(binds_in(before, table), bind.key),
        table_becomes(
            before,
            bound,
            table,
            without_key(binds_in(before, table), bind.key).push(bind),
        ),
        table_becomes(bound, unbound, table, without_key(binds_in(bound, table), bind.key)),
    ensures
        binds_in(unbound, any) == binds_in(before, any),
        unbound.defaults_suppressed == before.defaults_suppressed,
{
    let s = binds_in(before, table);
    lemma_without_unbound(s, bind.key);
    assert(s.push(bind).drop_last() =~= s);
    assert(binds_in(bound, table) == s.push(bind));
    if any != table && before.tables.map().dom().contains(any) {
        assert(bound.tables.map()[any] == before.tables.map()[any]);
        assert(unbound.tables.map()[any] == bound.tables.map()[any]);
    }
}

} // verus!
