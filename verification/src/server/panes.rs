//! The panes of a window: a tree of splits with the panes at its leaves, the lists of
//! panes, and which pane has the focus.

use vstd::prelude::*;
use crate::text::{decimal, number_text, push_number};

verus! {

/// A pane as it is listed.
#[derive(Clone, Copy, PartialEq, Eq, Structural, Debug)]
pub struct Pane {
    pub id: usize,
    pub cols: u16,
    pub rows: u16,
}

/// A part of a window: a pane, or a split into parts.
pub enum Node {
    Leaf(Pane),
    Split(Vec<Node>),
}

/// A pane with the way to it: which part is taken at each split.
pub struct Leaf {
    pub path: Vec<usize>,
    pub pane: Pane,
}

/// A pane with the way to it.
pub struct LeafView {
    pub path: Seq<usize>,
    pub pane: Pane,
}

impl View for Leaf {
    type V = LeafView;

    open spec fn view(&self) -> LeafView {
        LeafView { path: self.path@, pane: self.pane }
    }
}

/// Panes with the ways to them.
pub open spec fn leaf_views(v: Seq<Leaf>) -> Seq<LeafView> {
    Seq::new(v.len(), |i: int| v[i]@)
}

/// The panes of a part, from the first to the last, below the way `path`.
pub open spec fn leaves(node: Node, path: Seq<usize>) -> Seq<LeafView>
    decreases node, 1nat, 0nat,
{
    match node {
        Node::Leaf(pane) => seq![LeafView { path, pane }],
        Node::Split(children) => leaves_of(node, path, children@.len()),
    }
}

/// The panes of the first `n` parts of a split.
pub open spec fn leaves_of(node: Node, path: Seq<usize>, n: nat) -> Seq<LeafView>
    decreases node, 0nat, n,
{
    if n == 0 || !(node is Split) || n > (node->Split_0)@.len() {
        Seq::empty()
    } else {
        leaves_of(node, path, (n - 1) as nat) + leaves(
            (node->Split_0)@[n - 1],
            path.push((n - 1) as usize),
        )
    }
}

/// The panes of a window, from the first to the last.
pub open spec fn panes_of(root: Node) -> Seq<LeafView> {
    leaves(root, Seq::empty())
}

/// A copy of a way to a pane.
pub(crate) fn copy_path(p: &Vec<usize>) -> (r: Vec<usize>)
    ensures
        r@ == p@,
{
    let mut r: Vec<usize> = Vec::new();
    let mut i: usize = 0;
    while i < p.len()
        invariant
            i <= p.len(),
            r@ == p@.take(i as int),
        decreases p.len() - i,
    {
        r.push(p[i]);
        assert(p@.take(i + 1) =~= p@.take(i as int).push(p@[i as int]));
        i += 1;
    }
    assert(p@.take(i as int) =~= p@);
    r
}

/// Whether two ways to a pane are the same.
pub(crate) fn same_path(a: &Vec<usize>, b: &Vec<usize>) -> (r: bool)
    ensures
        r == (a@ == b@),
{
    if a.len() != b.len() {
        return false;
    }
    let mut i: usize = 0;
    while i < a.len()
        invariant
            i <= a.len(),
            a.len() == b.len(),
            forall|j: int| 0 <= j < i ==> a@[j] == b@[j],
        decreases a.len() - i,
    {
        if a[i] != b[i] {
            return false;
        }
        i += 1;
    }
    assert(a@ =~= b@);
    true
}

fn collect(node: &Node, path: &mut Vec<usize>, out: &mut Vec<Leaf>)
    ensures
        final(path)@ == old(path)@,
        leaf_views(final(out)@) == leaf_views(old(out)@) + leaves(*node, old(path)@),
    decreases node,
{
    match node {
        Node::Leaf(pane) => {
            let ghost done = leaf_views(out@);
            out.push(Leaf { path: copy_path(path), pane: *pane });
            assert(leaf_views(out@) =~= done + leaves(*node, path@));
        },
        Node::Split(children) => {
            let ghost start = path@;
            let ghost done = leaf_views(out@);
            let mut i: usize = 0;
            assert(leaf_views(out@) =~= done + leaves_of(*node, start, 0));
            while i < children.len()
                invariant
                    i <= children.len(),
                    path@ == start,
                    *node == Node::Split(*children),
                    leaf_views(out@) == done + leaves_of(*node, start, i as nat),
                decreases children.len() - i,
            {
                path.push(i);
                proof {
                    assert(decreases_to!(*node => children@[i as int]));
                }
                collect(&children[i], path, out);
                let _ = path.pop();
                assert(path@ =~= start);
                assert(leaves_of(*node, start, (i + 1) as nat) == leaves_of(*node, start,
                    i as nat,
                ) + leaves(children@[i as int], start.push(i)));
                assert(leaf_views(out@) =~= done + leaves_of(*node, start, (i + 1) as nat));
                i += 1;
            }
        },
    }
}

/// The panes of a window, from the first to the last, with the ways to them.
pub fn collect_panes(root: &Node) -> (r: Vec<Leaf>)
    ensures
        leaf_views(r@) == panes_of(*root),
{
    let mut path: Vec<usize> = Vec::new();
    let mut out: Vec<Leaf> = Vec::new();
    assert(path@ =~= Seq::empty());
    collect(root, &mut path, &mut out);
    assert(leaf_views(out@) =~= panes_of(*root));
    out
}

/// The line of a pane of the window. `number` is its number.
pub open spec fn pane_line(number: nat, pane: Pane, history: u64, active: bool) -> Seq<char> {
    decimal(number) + ": ["@ + decimal(pane.cols as nat) + "x"@ + decimal(pane.rows as nat)
        + "] [history "@ + decimal(history as nat) + "/"@ + decimal(history as nat) + ", 0 bytes] %"@
        + decimal(pane.id as nat) + (if active {
        " (active)"@
    } else {
        ""@
    }) + "\n"@
}

/// The lines of panes.
pub open spec fn pane_lines(panes: Seq<LeafView>, base: nat, history: u64, active: Option<usize>) -> Seq<
    char,
>
    decreases panes.len(),
{
    if panes.len() == 0 {
        Seq::empty()
    } else {
        pane_lines(panes.drop_last(), base, history, active) + pane_line(
            base + (panes.len() - 1) as nat,
            panes.last().pane,
            history,
            active == Some(panes.last().pane.id),
        )
    }
}

fn text_of_pane(number: u64, p: Pane, history: u64, active: bool) -> (line: String)
    ensures
        line@ == pane_line(number as nat, p, history, active),
{
    let mut line = number_text(number);
    line.append(": [");
    push_number(&mut line, p.cols as u64);
    line.append("x");
    push_number(&mut line, p.rows as u64);
    line.append("] [history ");
    push_number(&mut line, history);
    line.append("/");
    push_number(&mut line, history);
    line.append(", 0 bytes] %");
    push_number(&mut line, p.id as u64);
    if active {
        line.append(" (active)");
    } else {
        line.append("");
    }
    line.append("\n");
    line
}

/// Lists the panes of a window. `base` is the number of the first one, `history` how many
/// lines each of them keeps, and `active` the pane that has the focus.
pub fn list_panes(root: &Node, base: u64, history: u64, active: Option<usize>) -> (r: String)
    requires
        base + panes_of(*root).len() <= u64::MAX,
    ensures
        r@ == pane_lines(panes_of(*root), base as nat, history, active),
{
    let panes = collect_panes(root);
    let ghost views = panes_of(*root);
    let mut out = String::new();
    let mut i: usize = 0;
    while i < panes.len()
        invariant
            i <= panes.len(),
            views == leaf_views(panes@),
            base + views.len() <= u64::MAX,
            out@ == pane_lines(views.take(i as int), base as nat, history, active),
        decreases panes.len() - i,
    {
        let p: Pane = panes[i].pane;
        assert(views[i as int].pane == p);
        let is_active: bool = match active {
            Some(id) => id == p.id,
            None => false,
        };
        let line = text_of_pane(base + i as u64, p, history, is_active);
        out.append(line.as_str());
        proof {
            assert(views.take(i + 1).drop_last() =~= views.take(i as int));
        }
        i += 1;
    }
    assert(views.take(i as int) =~= views);
    out
}

/// The line of a pane among those of all windows.
pub open spec fn any_pane_line(session: Seq<char>, window: nat, pane: Pane) -> Seq<char> {
    session + ":"@ + decimal(window) + ": %"@ + decimal(pane.id as nat) + " ["@ + decimal(
        pane.cols as nat,
    ) + "x"@ + decimal(pane.rows as nat) + "]\n"@
}

/// The lines of the panes of a window, among those of all windows.
pub open spec fn window_pane_lines(session: Seq<char>, window: nat, panes: Seq<LeafView>) -> Seq<char>
    decreases panes.len(),
{
    if panes.len() == 0 {
        Seq::empty()
    } else {
        window_pane_lines(session, window, panes.drop_last()) + any_pane_line(
            session,
            window,
            panes.last().pane,
        )
    }
}

/// The lines of the panes of all windows.
pub open spec fn all_pane_lines(session: Seq<char>, base: nat, roots: Seq<Node>) -> Seq<char>
    decreases roots.len(),
{
    if roots.len() == 0 {
        Seq::empty()
    } else {
        all_pane_lines(session, base, roots.drop_last()) + window_pane_lines(
            session,
            base + (roots.len() - 1) as nat,
            panes_of(roots.last()),
        )
    }
}

fn text_of_any_pane(session: &str, window: u64, p: Pane) -> (line: String)
    ensures
        line@ == any_pane_line(session@, window as nat, p),
{
    let mut line = session.to_owned();
    line.append(":");
    push_number(&mut line, window);
    line.append(": %");
    push_number(&mut line, p.id as u64);
    line.append(" [");
    push_number(&mut line, p.cols as u64);
    line.append("x");
    push_number(&mut line, p.rows as u64);
    line.append("]\n");
    line
}

fn push_window_panes(out: &mut String, session: &str, window: u64, root: &Node)
    ensures
        final(out)@ == old(out)@ + window_pane_lines(session@, window as nat, panes_of(*root)),
{
    let panes = collect_panes(root);
    let ghost views = panes_of(*root);
    let ghost start = out@;
    let mut i: usize = 0;
    assert(start + window_pane_lines(session@, window as nat, views.take(0)) =~= start);
    while i < panes.len()
        invariant
            i <= panes.len(),
            views == leaf_views(panes@),
            out@ == start + window_pane_lines(session@, window as nat, views.take(i as int)),
        decreases panes.len() - i,
    {
        let p: Pane = panes[i].pane;
        assert(views[i as int].pane == p);
        let line = text_of_any_pane(session, window, p);
        out.append(line.as_str());
        proof {
            assert(views.take(i + 1).drop_last() =~= views.take(i as int));
            assert(out@ =~= start + window_pane_lines(session@, window as nat, views.take(i + 1)));
        }
        i += 1;
    }
    assert(views.take(i as int) =~= views);
}

/// Lists the panes of all windows. `base` is the number of the first window.
pub fn list_all_panes(session: &str, base: u64, roots: &Vec<Node>) -> (r: String)
    requires
        base + roots@.len() <= u64::MAX,
    ensures
        r@ == all_pane_lines(session@, base as nat, roots@),
{
    let mut out = String::new();
    let mut i: usize = 0;
    while i < roots.len()
        invariant
            i <= roots.len(),
            base + roots@.len() <= u64::MAX,
            out@ == all_pane_lines(session@, base as nat, roots@.take(i as int)),
        decreases roots.len() - i,
    {
        push_window_panes(&mut out, session, base + i as u64, &roots[i]);
        assert(roots@.take(i + 1).drop_last() =~= roots@.take(i as int));
        i += 1;
    }
    assert(roots@.take(i as int) =~= roots@);
    out
}

proof fn lemma_leaf_paths(node: Node, path: Seq<usize>, i: int)
    requires
        0 <= i < leaves(node, path).len(),
    ensures
        leaves(node, path)[i].path.len() >= path.len(),
        leaves(node, path)[i].path.take(path.len() as int) == path,
    decreases node, 1nat, 0nat,
{
    match node {
        Node::Leaf(pane) => {
            assert(path.take(path.len() as int) =~= path);
        },
        Node::Split(children) => {
            lemma_leaf_paths_of(node, path, children@.len(), i);
        },
    }
}

proof fn lemma_leaf_paths_of(node: Node, path: Seq<usize>, n: nat, i: int)
    requires
        node is Split,
        n <= (node->Split_0)@.len(),
        0 <= i < leaves_of(node, path, n).len(),
    ensures
        leaves_of(node, path, n)[i].path.len() > path.len(),
        leaves_of(node, path, n)[i].path.take(path.len() as int) == path,
        exists|k: int|
            0 <= k < n && leaves_of(node, path, n)[i].path[path.len() as int] == #[trigger] (
            k as usize),
    decreases node, 0nat, n,
{
    if n > 0 {
        let front = leaves_of(node, path, (n - 1) as nat);
        let child = (node->Split_0)@[n - 1];
        let below = path.push((n - 1) as usize);
        if i < front.len() {
            lemma_leaf_paths_of(node, path, (n - 1) as nat, i);
        } else {
            assert(decreases_to!(node => (node->Split_0)@[n - 1]));
            lemma_leaf_paths(child, below, i - front.len());
            let p = leaves(child, below)[i - front.len()].path;
            assert(p.take(below.len() as int)[path.len() as int] == (n - 1) as usize);
            assert(p.take(path.len() as int) =~= path) by {
                assert forall|j: int| 0 <= j < path.len() implies p[j] == path[j] by {
                    assert(p.take(below.len() as int)[j] == below[j]);
                }
            }
            assert(p[path.len() as int] == ((n - 1) as int) as usize);
        }
    }
}

proof fn lemma_paths_distinct(node: Node, path: Seq<usize>, i: int, j: int)
    requires
        0 <= i < j < leaves(node, path).len(),
        fits(node),
    ensures
        leaves(node, path)[i].path != leaves(node, path)[j].path,
    decreases node, 1nat, 0nat,
{
    match node {
        Node::Leaf(pane) => {},
        Node::Split(children) => {
            lemma_paths_distinct_of(node, path, children@.len(), i, j);
        },
    }
}

proof fn lemma_paths_distinct_of(
    node: Node,
    path: Seq<usize>,
    n: nat,
    i: int,
    j: int,
)
    requires
        node is Split,
        n <= (node->Split_0)@.len(),
        fits(node),
        0 <= i < j < leaves_of(node, path, n).len(),
    ensures
        leaves_of(node, path, n)[i].path != leaves_of(node, path, n)[j].path,
    decreases node, 0nat, n,
{
    if n > 0 {
        let front = leaves_of(node, path, (n - 1) as nat);
        let child = (node->Split_0)@[n - 1];
        let below = path.push((n - 1) as usize);
        if j < front.len() {
            lemma_paths_distinct_of(node, path, (n - 1) as nat, i, j);
        } else {
            assert(decreases_to!(node => (node->Split_0)@[n - 1]));
            assert(fits((node->Split_0)@[n - 1]));
            if i >= front.len() {
                lemma_paths_distinct(child, below, i - front.len(), j - front.len());
            } else {
                lemma_leaf_paths_of(node, path, (n - 1) as nat, i);
                lemma_leaf_paths(child, below, j - front.len());
                let p = leaves(child, below)[j - front.len()].path;
                let q = front[i].path;
                let k = choose|k: int|
                    0 <= k < n - 1 && q[path.len() as int] == #[trigger] (k as usize);
                assert(p.take(below.len() as int)[path.len() as int] == (n - 1) as usize);
                assert(q[path.len() as int] != p[path.len() as int]);
            }
        }
    }
}

/// Whether every split has no more parts than can be counted. Every tree that exists in
/// memory is such a tree.
pub open spec fn fits(node: Node) -> bool
    decreases node,
{
    match node {
        Node::Leaf(pane) => true,
        Node::Split(children) => children@.len() <= usize::MAX && forall|i: int|
            0 <= i < children@.len() ==> fits(#[trigger] children@[i]),
    }
}

/// No two panes of a window are reached on the same way.
pub proof fn panes_have_their_own_ways(root: Node, i: int, j: int)
    requires
        fits(root),
        0 <= i < j < panes_of(root).len(),
    ensures
        panes_of(root)[i].path != panes_of(root)[j].path,
{
    lemma_paths_distinct(root, Seq::empty(), i, j);
}

/// The title of a pane.
pub struct PaneTitle {
    pub title: String,
    /// Whether the program in the pane may not change it.
    pub locked: bool,
}

impl PaneTitle {
    /// Gives the pane a title, which the program in it may not change then. An empty one lets the
    /// program choose again.
    pub fn set_title(&mut self, title: String)
        ensures
            final(self).title == title,
            final(self).locked == (title@.len() > 0),
    {
        self.locked = !title.as_str().is_empty();
        self.title = title;
    }
}

} // verus!
