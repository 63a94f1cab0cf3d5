//! Process trees: who descends from whom in a snapshot of the process table, and
//! in what order a tree is put to an end.

use vstd::prelude::*;

verus! {

/// Whether the table holds a process `pid` with parent `ppid`.
pub open spec fn is_child(table: Seq<(u32, u32)>, pid: u32, ppid: u32) -> bool {
    table.contains((pid, ppid))
}

/// Whether each process on the path is a child of the one before it.
pub open spec fn is_path(table: Seq<(u32, u32)>, path: Seq<u32>) -> bool {
    path.len() > 0 && forall|i: int|
        0 <= i < path.len() - 1 ==> is_child(table, #[trigger] path[i + 1], path[i])
}

/// Whether `path` leads from `root` to `pid`.
pub open spec fn leads(table: Seq<(u32, u32)>, path: Seq<u32>, root: u32, pid: u32) -> bool {
    is_path(table, path) && path[0] == root && path.last() == pid
}

/// Whether `pid` is `root` or descends from it.
pub open spec fn descends(table: Seq<(u32, u32)>, root: u32, pid: u32) -> bool {
    exists|path: Seq<u32>| leads(table, path, root, pid)
}

/// The queue once the first `i` entries were looked at for children of `parent`:
/// each child that is not in it yet joins at the end.
pub open spec fn scan(table: Seq<(u32, u32)>, i: int, queue: Seq<u32>, parent: u32) -> Seq<u32>
    decreases i,
{
    if i <= 0 {
        queue
    } else {
        let q = scan(table, i - 1, queue, parent);
        if table[i - 1].1 == parent && !q.contains(table[i - 1].0) {
            q.push(table[i - 1].0)
        } else {
            q
        }
    }
}

/// The queue of a breadth-first walk from `root` after its first `k` members
/// were looked at.
pub open spec fn visit(table: Seq<(u32, u32)>, root: u32, k: nat) -> Seq<u32>
    decreases k,
{
    if k == 0 {
        seq![root]
    } else {
        let q = visit(table, root, (k - 1) as nat);
        if k - 1 < q.len() {
            scan(table, table.len() as int, q, q[k - 1])
        } else {
            q
        }
    }
}

/// `root` and its descendants in breadth-first order. A walk is over after as many
/// steps as the table has entries, and one for the root.
pub open spec fn breadth_first(table: Seq<(u32, u32)>, root: u32) -> Seq<u32> {
    visit(table, root, table.len() + 1)
}

/// What every queue of a walk keeps: the root comes first, nobody occurs twice,
/// and everybody else has a parent further ahead.
pub open spec fn is_walk(table: Seq<(u32, u32)>, root: u32, q: Seq<u32>) -> bool {
    &&& q.len() > 0
    &&& q[0] == root
    &&& q.no_duplicates()
    &&& forall|i: int| 1 <= i < q.len() ==> has_parent_ahead(table, q, i)
}

/// Whether a member before position `i` is the parent of the one at `i`.
pub open spec fn has_parent_ahead(table: Seq<(u32, u32)>, q: Seq<u32>, i: int) -> bool {
    exists|j: int| 0 <= j < i && is_child(table, q[i], #[trigger] q[j])
}

pub(crate) proof fn lemma_scan(table: Seq<(u32, u32)>, i: int, root: u32, queue: Seq<u32>, p: int)
    requires
        0 <= i <= table.len(),
        is_walk(table, root, queue),
        0 <= p < queue.len(),
    ensures
        is_walk(table, root, scan(table, i, queue, queue[p])),
        queue.len() <= scan(table, i, queue, queue[p]).len(),
        scan(table, i, queue, queue[p]).take(queue.len() as int) == queue,
        forall|e: int|
            0 <= e < i && #[trigger] table[e].1 == queue[p] ==> scan(
                table,
                i,
                queue,
                queue[p],
            ).contains(table[e].0),
    decreases i,
{
    let parent = queue[p];
    let s = scan(table, i, queue, parent);
    if i > 0 {
        lemma_scan(table, i - 1, root, queue, p);
        let q = scan(table, i - 1, queue, parent);
        assert(q[p] == parent) by {
            assert(q.take(queue.len() as int)[p] == queue[p]);
        }
        if table[i - 1].1 == parent && !q.contains(table[i - 1].0) {
            assert(s == q.push(table[i - 1].0));
            assert(s.take(queue.len() as int) =~= q.take(queue.len() as int));
            assert(table.contains((table[i - 1].0, parent))) by {
                assert(table[i - 1] == (table[i - 1].0, parent));
            }
            assert forall|k: int| 1 <= k < s.len() implies has_parent_ahead(table, s, k) by {
                if k < q.len() {
                    assert(has_parent_ahead(table, q, k));
                    let j = choose|j: int| 0 <= j < k && is_child(table, q[k], #[trigger] q[j]);
                    assert(is_child(table, s[k], s[j]));
                } else {
                    assert(is_child(table, s[k], s[p]));
                }
            }
            assert forall|e: int|
                0 <= e < i && #[trigger] table[e].1 == parent implies s.contains(table[e].0) by {
                if e < i - 1 {
                    let j = choose|j: int| 0 <= j < q.len() && q[j] == table[e].0;
                    assert(s[j] == table[e].0);
                } else {
                    assert(s[q.len() as int] == table[e].0);
                }
            }
        }
    } else {
        assert(s.take(queue.len() as int) =~= queue);
    }
}

pub(crate) proof fn lemma_visit(table: Seq<(u32, u32)>, root: u32, k: nat)
    ensures
        is_walk(table, root, visit(table, root, k)),
        forall|j: int, e: int|
            0 <= j < k && j < visit(table, root, k).len() && 0 <= e < table.len()
                && #[trigger] table[e].1 == #[trigger] visit(table, root, k)[j] ==> visit(
                table,
                root,
                k,
            ).contains(table[e].0),
    decreases k,
{
    let v = visit(table, root, k);
    if k > 0 {
        let q = visit(table, root, (k - 1) as nat);
        lemma_visit(table, root, (k - 1) as nat);
        if k - 1 < q.len() {
            lemma_scan(table, table.len() as int, root, q, k - 1);
            assert forall|j: int, e: int|
                0 <= j < k && j < v.len() && 0 <= e < table.len() && #[trigger] table[e].1
                    == #[trigger] v[j] implies v.contains(table[e].0) by {
                assert(v.take(q.len() as int)[j] == v[j]);
                if j < k - 1 {
                    assert(q[j] == v[j]);
                    let m = choose|m: int| 0 <= m < q.len() && q[m] == table[e].0;
                    assert(v.take(q.len() as int)[m] == v[m]);
                }
            }
        }
    }
}

/// The process numbers of a table.
spec fn pids(table: Seq<(u32, u32)>) -> Seq<u32> {
    Seq::new(table.len(), |i: int| table[i].0)
}

pub(crate) proof fn lemma_walk_length(table: Seq<(u32, u32)>, root: u32, q: Seq<u32>)
    requires
        is_walk(table, root, q),
    ensures
        q.len() <= table.len() + 1,
{
    let rest = q.skip(1);
    let all = pids(table);
    assert(rest.no_duplicates());
    rest.unique_seq_to_set();
    vstd::seq_lib::seq_to_set_is_finite(all);
    all.lemma_cardinality_of_set();
    assert(rest.to_set().subset_of(all.to_set())) by {
        assert forall|x: u32| rest.to_set().contains(x) implies all.to_set().contains(x) by {
            let i = choose|i: int| 0 <= i < rest.len() && rest[i] == x;
            assert(q[i + 1] == x);
            assert(has_parent_ahead(table, q, i + 1));
            let j = choose|j: int| 0 <= j < i + 1 && is_child(table, q[i + 1], #[trigger] q[j]);
            let e = choose|e: int| 0 <= e < table.len() && table[e] == (x, q[j]);
            assert(all[e] == x);
        }
    }
    vstd::set_lib::lemma_len_subset(rest.to_set(), all.to_set());
}

pub(crate) proof fn lemma_visit_settles(table: Seq<(u32, u32)>, root: u32, k: nat, m: nat)
    requires
        visit(table, root, k).len() <= k,
        k <= m,
    ensures
        visit(table, root, m) == visit(table, root, k),
    decreases m - k,
{
    if k < m {
        lemma_visit_settles(table, root, k, (m - 1) as nat);
    }
}

pub(crate) proof fn lemma_walk_descends(table: Seq<(u32, u32)>, root: u32, q: Seq<u32>, i: int)
    requires
        is_walk(table, root, q),
        0 <= i < q.len(),
    ensures
        descends(table, root, q[i]),
    decreases i,
{
    if i == 0 {
        assert(leads(table, seq![root], root, root));
    } else {
        assert(has_parent_ahead(table, q, i));
        let j = choose|j: int| 0 <= j < i && is_child(table, q[i], #[trigger] q[j]);
        lemma_walk_descends(table, root, q, j);
        let path = choose|path: Seq<u32>| leads(table, path, root, q[j]);
        let longer = path.push(q[i]);
        assert forall|n: int| 0 <= n < longer.len() - 1 implies is_child(
            table,
            #[trigger] longer[n + 1],
            longer[n],
        ) by {
            if n < path.len() - 1 {
                assert(is_child(table, path[n + 1], path[n]));
            }
        }
        assert(leads(table, longer, root, q[i]));
    }
}

proof fn lemma_closed_holds_path(
    table: Seq<(u32, u32)>,
    root: u32,
    q: Seq<u32>,
    path: Seq<u32>,
    n: int,
)
    requires
        q.contains(root),
        forall|e: int| 0 <= e < table.len() && q.contains(#[trigger] table[e].1) ==> q.contains(table[e].0),
        is_path(table, path),
        path[0] == root,
        0 <= n < path.len(),
    ensures
        q.contains(path[n]),
    decreases n,
{
    if n > 0 {
        lemma_closed_holds_path(table, root, q, path, n - 1);
        assert(is_child(table, path[n - 1 + 1], path[n - 1]));
        let e = choose|e: int| 0 <= e < table.len() && table[e] == (path[n], path[n - 1]);
        assert(table[e].1 == path[n - 1]);
    }
}

proof fn lemma_breadth_first(table: Seq<(u32, u32)>, root: u32)
    ensures
        is_walk(table, root, breadth_first(table, root)),
        forall|e: int|
            0 <= e < table.len() && breadth_first(table, root).contains(#[trigger] table[e].1)
                ==> breadth_first(table, root).contains(table[e].0),
{
    let k = (table.len() + 1) as nat;
    let q = breadth_first(table, root);
    lemma_visit(table, root, k);
    lemma_walk_length(table, root, q);
    assert forall|e: int|
        0 <= e < table.len() && q.contains(#[trigger] table[e].1) implies q.contains(
        table[e].0,
    ) by {
        let j = choose|j: int| 0 <= j < q.len() && q[j] == table[e].1;
        assert(table[e].1 == visit(table, root, k)[j]);
    }
}

/// A breadth-first walk holds exactly the root and its descendants.
pub proof fn walk_is_complete(table: Seq<(u32, u32)>, root: u32, pid: u32)
    ensures
        breadth_first(table, root).contains(pid) <==> descends(table, root, pid),
{
    let q = breadth_first(table, root);
    lemma_breadth_first(table, root);
    if q.contains(pid) {
        let i = choose|i: int| 0 <= i < q.len() && q[i] == pid;
        lemma_walk_descends(table, root, q, i);
    }
    if descends(table, root, pid) {
        let path = choose|path: Seq<u32>| leads(table, path, root, pid);
        assert(q[0] == root);
        lemma_closed_holds_path(table, root, q, path, path.len() - 1);
    }
}

/// In a breadth-first walk nobody occurs twice, and everybody but the root stands
/// behind its parent.
pub proof fn walk_visits_parents_first(table: Seq<(u32, u32)>, root: u32)
    ensures
        is_walk(table, root, breadth_first(table, root)),
{
    lemma_breadth_first(table, root);
}

/// Whether `pid` is in the queue.
pub(crate) fn queued(queue: &Vec<u32>, pid: u32) -> (r: bool)
    ensures
        r == queue@.contains(pid),
{
    let mut i: usize = 0;
    while i < queue.len()
        invariant
            i <= queue.len(),
            forall|j: int| 0 <= j < i ==> queue@[j] != pid,
        decreases queue.len() - i,
    {
        if queue[i] == pid {
            return true;
        }
        i += 1;
    }
    false
}

/// The descendants of a process in breadth-first order, without the process
/// itself.
pub fn collect_descendants_from_table(entries: &Vec<(u32, u32)>, root_pid: u32) -> (r: Vec<u32>)
    ensures
        r@ == breadth_first(entries@, root_pid).skip(1),
{
    let mut queue: Vec<u32> = Vec::new();
    queue.push(root_pid);
    let mut descendants: Vec<u32> = Vec::new();
    let mut head: usize = 0;
    assert(queue@ =~= visit(entries@, root_pid, 0));
    while head < queue.len()
        invariant
            head <= queue.len(),
            queue@ == visit(entries@, root_pid, head as nat),
            is_walk(entries@, root_pid, queue@),
            descendants@ == queue@.skip(1),
        decreases entries.len() + 1 - head,
    {
        let parent: u32 = queue[head];
        let ghost before = queue@;
        let mut i: usize = 0;
        while i < entries.len()
            invariant
                i <= entries.len(),
                head < before.len(),
                parent == before[head as int],
                is_walk(entries@, root_pid, before),
                queue@ == scan(entries@, i as int, before, parent),
                is_walk(entries@, root_pid, queue@),
                descendants@ == queue@.skip(1),
            decreases entries.len() - i,
        {
            let (pid, ppid) = entries[i];
            let ghost q = queue@;
            if ppid == parent && pid != root_pid && !queued(&queue, pid) {
                queue.push(pid);
                descendants.push(pid);
                assert(queue@.skip(1) =~= q.skip(1).push(pid));
            }
            proof {
                assert(q[0] == root_pid);
                lemma_scan(entries@, i + 1, root_pid, before, head as int);
            }
            i += 1;
        }
        proof {
            lemma_walk_length(entries@, root_pid, before);
            lemma_scan(entries@, entries.len() as int, root_pid, before, head as int);
        }
        head += 1;
    }
    proof {
        lemma_walk_length(entries@, root_pid, queue@);
        lemma_visit_settles(entries@, root_pid, head as nat, (entries.len() + 1) as nat);
    }
    descendants
}

/// The processes to terminate, in order: descendants before their parents, the
/// root last.
pub open spec fn kill_order(table: Seq<(u32, u32)>, root: u32) -> Seq<u32> {
    breadth_first(table, root).reverse()
}

/// The order in which a process tree is terminated; nothing where the root is
/// not known. The root's own handle is killed afterwards in either case.
pub fn kill_process_tree(entries: &Vec<(u32, u32)>, root_pid: Option<u32>) -> (r: Vec<u32>)
    ensures
        r@ == (match root_pid {
            Some(root) => kill_order(entries@, root),
            None => Seq::empty(),
        }),
{
    let mut order: Vec<u32> = Vec::new();
    if let Some(root) = root_pid {
        let found = collect_descendants_from_table(entries, root);
        let ghost walk = breadth_first(entries@, root);
        proof {
            lemma_breadth_first(entries@, root);
        }
        let mut i: usize = found.len();
        while i > 0
            invariant
                i <= found.len(),
                found@ == walk.skip(1),
                walk.len() == found.len() + 1,
                order@ == walk.skip(i + 1).reverse(),
            decreases i,
        {
            i -= 1;
            order.push(found[i]);
            assert(order@ =~= walk.skip(i + 1).reverse());
        }
        order.push(root);
        assert(order@ =~= walk.reverse());
    }
    order
}

/// The order in which several process trees are terminated, all read from one
/// snapshot of the process table.
pub fn kill_process_trees_batch(
    entries: &Vec<(u32, u32)>,
    root_pids: &Vec<Option<u32>>,
) -> (r: Vec<Vec<u32>>)
    ensures
        r@.len() == root_pids@.len(),
        forall|i: int|
            0 <= i < root_pids@.len() ==> (#[trigger] r@[i])@ == (match root_pids@[i] {
                Some(root) => kill_order(entries@, root),
                None => Seq::empty(),
            }),
{
    let mut orders: Vec<Vec<u32>> = Vec::new();
    let mut i: usize = 0;
    while i < root_pids.len()
        invariant
            i <= root_pids.len(),
            orders@.len() == i,
            forall|j: int|
                0 <= j < i ==> (#[trigger] orders@[j])@ == (match root_pids@[j] {
                    Some(root) => kill_order(entries@, root),
                    None => Seq::empty(),
                }),
        decreases root_pids.len() - i,
    {
        orders.push(kill_process_tree(entries, root_pids[i]));
        i += 1;
    }
    orders
}

/// Whether a member after position `i` is the parent of the one at `i`.
pub open spec fn has_parent_behind(table: Seq<(u32, u32)>, q: Seq<u32>, i: int) -> bool {
    exists|j: int| i < j < q.len() && is_child(table, q[i], #[trigger] q[j])
}

/// A process tree is terminated from the leaves up: the order ends with the
/// root, nobody occurs twice, and everybody else stands before a parent of its
/// own.
pub proof fn children_die_before_parents(table: Seq<(u32, u32)>, root: u32)
    ensures
        kill_order(table, root).len() > 0,
        kill_order(table, root).last() == root,
        kill_order(table, root).no_duplicates(),
        forall|i: int|
            0 <= i < kill_order(table, root).len() - 1 ==> has_parent_behind(
                table,
                kill_order(table, root),
                i,
            ),
{
    let w = breadth_first(table, root);
    let r = kill_order(table, root);
    lemma_breadth_first(table, root);
    assert forall|i: int| 0 <= i < r.len() - 1 implies has_parent_behind(table, r, i) by {
        let n = w.len() - 1 - i;
        assert(has_parent_ahead(table, w, n));
        let j = choose|j: int| 0 <= j < n && is_child(table, w[n], #[trigger] w[j]);
        assert(r[w.len() - 1 - j] == w[j]);
        assert(is_child(table, r[i], r[w.len() - 1 - j]));
    }
}

/// The parent of the first entry of `pid`.
pub open spec fn parent_in(table: Seq<(u32, u32)>, pid: u32, i: int) -> Option<u32>
    decreases table.len() - i,
{
    if i < 0 || i >= table.len() {
        None
    } else if table[i].0 == pid {
        Some(table[i].1)
    } else {
        parent_in(table, pid, i + 1)
    }
}

/// The parent of a process, as the first of its entries in the table has it.
pub fn current_parent_pid(entries: &Vec<(u32, u32)>, pid: u32) -> (r: Option<u32>)
    ensures
        r == parent_in(entries@, pid, 0),
{
    let mut i: usize = 0;
    while i < entries.len()
        invariant
            i <= entries.len(),
            parent_in(entries@, pid, i as int) == parent_in(entries@, pid, 0),
        decreases entries.len() - i,
    {
        if entries[i].0 == pid {
            return Some(entries[i].1);
        }
        i += 1;
    }
    None
}

/// Which process to terminate as the parent: none where there is none or where
/// it is the idle process or the kernel.
pub fn kill_parent_process(parent: Option<u32>) -> (r: Option<u32>)
    ensures
        r == (match parent {
            Some(p) => if p == 0 || p == 4 {
                None
            } else {
                Some(p)
            },
            None => None,
        }),
{
    match parent {
        Some(p) => if p == 0 || p == 4 {
            None
        } else {
            Some(p)
        },
        None => None,
    }
}

/// How far from the root each member of a walk was found, once its first `k` members were looked
/// at.
spec fn depths(table: Seq<(u32, u32)>, root: u32, k: nat) -> Seq<nat>
    decreases k,
{
    if k == 0 {
        seq![0nat]
    } else {
        let q = visit(table, root, (k - 1) as nat);
        let d = depths(table, root, (k - 1) as nat);
        if k - 1 < q.len() {
            d + Seq::new(
                (visit(table, root, k).len() - q.len()) as nat,
                |i: int| d[k - 1] + 1,
            )
        } else {
            d
        }
    }
}

proof fn lemma_scan_finds_children(table: Seq<(u32, u32)>, i: int, queue: Seq<u32>, parent: u32, m: int)
    requires
        0 <= i <= table.len(),
        queue.len() <= m < scan(table, i, queue, parent).len(),
    ensures
        is_child(table, scan(table, i, queue, parent)[m], parent),
    decreases i,
{
    if i > 0 {
        let q = scan(table, i - 1, queue, parent);
        if m < q.len() {
            lemma_scan_finds_children(table, i - 1, queue, parent, m);
        } else {
            assert(table[i - 1] == (table[i - 1].0, parent));
        }
    }
}

/// Whether a path of this length leads from the root to a process.
spec fn at_depth(table: Seq<(u32, u32)>, root: u32, pid: u32, d: nat) -> bool {
    exists|path: Seq<u32>| #[trigger] leads(table, path, root, pid) && path.len() == d + 1
}

/// Whether every child of a member that was looked at is a member, and at most one step further
/// away.
spec fn children_are_near(table: Seq<(u32, u32)>, q: Seq<u32>, d: Seq<nat>, k: nat) -> bool {
    forall|j: int, e: int|
        0 <= j < k && j < q.len() && 0 <= e < table.len() && #[trigger] table[e].1 == #[trigger] q[j]
            ==> found_near(q, d, table[e].0, d[j])
}

/// Whether a process is a member, and at most one step further away than `depth`.
spec fn found_near(q: Seq<u32>, d: Seq<nat>, pid: u32, depth: nat) -> bool {
    exists|m: int| 0 <= m < q.len() && #[trigger] q[m] == pid && d[m] <= depth + 1
}

proof fn lemma_one_deeper(table: Seq<(u32, u32)>, root: u32, parent: u32, pid: u32, d: nat)
    requires
        at_depth(table, root, parent, d),
        is_child(table, pid, parent),
    ensures
        at_depth(table, root, pid, d + 1),
{
    let path = choose|path: Seq<u32>| #[trigger] leads(table, path, root, parent) && path.len() == d + 1;
    let longer = path.push(pid);
    assert forall|n: int| 0 <= n < longer.len() - 1 implies is_child(
        table,
        #[trigger] longer[n + 1],
        longer[n],
    ) by {
        if n < path.len() - 1 {
            assert(is_child(table, path[n + 1], path[n]));
        }
    }
    assert(leads(table, longer, root, pid));
}

proof fn lemma_depths(table: Seq<(u32, u32)>, root: u32, k: nat)
    ensures
        ({
            let q = visit(table, root, k);
            let d = depths(table, root, k);
            &&& d.len() == q.len()
            &&& forall|i: int, j: int| 0 <= i <= j < d.len() ==> d[i] <= d[j]
            &&& 0 < k <= q.len() ==> d.last() <= d[k - 1] + 1
            &&& d[0] == 0
            &&& forall|i: int| 0 <= i < q.len() ==> at_depth(table, root, #[trigger] q[i], d[i])
            &&& children_are_near(table, q, d, k)
        }),
    decreases k,
{
    let v = visit(table, root, k);
    let dv = depths(table, root, k);
    if k == 0 {
        assert(leads(table, seq![root], root, root));
        assert forall|i: int| 0 <= i < v.len() implies at_depth(table, root, #[trigger] v[i], dv[i]) by {
            assert(seq![root].len() == dv[i] + 1);
        }
    } else {
        let q = visit(table, root, (k - 1) as nat);
        let d = depths(table, root, (k - 1) as nat);
        lemma_depths(table, root, (k - 1) as nat);
        lemma_visit(table, root, (k - 1) as nat);
        if k - 1 < q.len() {
            let p = k - 1;
            lemma_scan(table, table.len() as int, root, q, p);
            assert forall|i: int| 0 <= i < q.len() implies v[i] == q[i] by {
                assert(v.take(q.len() as int)[i] == q[i]);
            }
            assert(d.last() <= d[p] + 1) by {
                if p > 0 {
                    assert(d[p - 1] <= d[p]);
                }
            }
            assert forall|i: int, j: int| 0 <= i <= j < dv.len() implies dv[i] <= dv[j] by {
                if i < d.len() {
                    assert(d[i] <= d.last());
                }
            }
            assert forall|i: int| 0 <= i < v.len() implies at_depth(
                table,
                root,
                #[trigger] v[i],
                dv[i],
            ) by {
                if i < q.len() {
                    assert(at_depth(table, root, q[i], d[i]));
                } else {
                    lemma_scan_finds_children(table, table.len() as int, q, q[p], i);
                    assert(at_depth(table, root, q[p], d[p]));
                    lemma_one_deeper(table, root, q[p], v[i], d[p]);
                }
            }
            assert forall|j: int, e: int|
                0 <= j < k && j < v.len() && 0 <= e < table.len() && #[trigger] table[e].1
                    == #[trigger] v[j] implies found_near(v, dv, table[e].0, dv[j]) by {
                assert(v[j] == q[j]);
                if j < p {
                    assert(found_near(q, d, table[e].0, d[j]));
                    let m = choose|m: int|
                        0 <= m < q.len() && #[trigger] q[m] == table[e].0 && d[m] <= d[j] + 1;
                    assert(v[m] == table[e].0 && dv[m] <= dv[j] + 1);
                } else {
                    let m = choose|m: int| 0 <= m < v.len() && v[m] == table[e].0;
                    assert(dv[m] <= dv[p] + 1) by {
                        if m < d.len() {
                            assert(d[m] <= d.last());
                        }
                    }
                    assert(v[m] == table[e].0);
                }
            }
        }
    }
}

proof fn lemma_no_shorter_path(
    table: Seq<(u32, u32)>,
    root: u32,
    q: Seq<u32>,
    d: Seq<nat>,
    path: Seq<u32>,
    n: int,
) -> (m: int)
    requires
        q.len() > 0,
        q[0] == root,
        d.len() == q.len(),
        d[0] == 0,
        children_are_near(table, q, d, q.len()),
        is_path(table, path),
        path[0] == root,
        0 <= n < path.len(),
    ensures
        0 <= m < q.len(),
        q[m] == path[n],
        d[m] <= n,
    decreases n,
{
    if n == 0 {
        0
    } else {
        let j = lemma_no_shorter_path(table, root, q, d, path, n - 1);
        assert(is_child(table, path[n - 1 + 1], path[n - 1]));
        let e = choose|e: int| 0 <= e < table.len() && table[e] == (path[n], path[n - 1]);
        assert(table[e].1 == q[j]);
        assert(found_near(q, d, table[e].0, d[j]));
        choose|m: int| 0 <= m < q.len() && #[trigger] q[m] == path[n] && d[m] <= d[j] + 1
    }
}

/// Along a breadth-first walk the distance from the root does not decrease: whatever path leads to
/// a member, one that is no longer leads to each member before it.
pub proof fn walk_goes_outward(table: Seq<(u32, u32)>, root: u32, i: int, j: int, path: Seq<u32>)
    requires
        0 <= i <= j < breadth_first(table, root).len(),
        leads(table, path, root, breadth_first(table, root)[j]),
    ensures
        exists|other: Seq<u32>| #[trigger]
            leads(table, other, root, breadth_first(table, root)[i]) && other.len() <= path.len(),
{
    let k = (table.len() + 1) as nat;
    let q = breadth_first(table, root);
    let d = depths(table, root, k);
    lemma_depths(table, root, k);
    lemma_breadth_first(table, root);
    lemma_walk_length(table, root, q);
    assert(children_are_near(table, q, d, q.len()));
    let m = lemma_no_shorter_path(table, root, q, d, path, path.len() - 1);
    assert(q[m] == q[j]);
    assert(m == j);
    assert(d[i] <= d[j]);
    assert(at_depth(table, root, q[i], d[i]));
    let other = choose|other: Seq<u32>| #[trigger]
        leads(table, other, root, q[i]) && other.len() == d[i] + 1;
    assert(leads(table, other, root, q[i]) && other.len() <= path.len());
}

} // verus!
