//! How the tree of panes of a window changes: a pane is split, or a pane is closed.

use vstd::prelude::*;
use crate::server::panes::{leaves, leaves_of, panes_of, LeafView, Node, Pane};

verus! {

/// The panes of a part, from the first to the last.
pub open spec fn members(node: Node) -> Seq<Pane>
    decreases node,
{
    match node {
        Node::Leaf(pane) => seq![pane],
        Node::Split(children) => joined(children@),
    }
}

/// The panes of parts that stand side by side.
pub open spec fn joined(parts: Seq<Node>) -> Seq<Pane>
    decreases parts,
{
    if parts.len() == 0 {
        Seq::empty()
    } else {
        joined(parts.subrange(0, parts.len() - 1)) + members(parts[parts.len() - 1])
    }
}

/// How many panes stand before the end of the part that a way leads to. A way that leads out of
/// the tree ends where it leaves it.
pub open spec fn end_of(node: Node, path: Seq<usize>) -> int
    decreases path.len(),
{
    match node {
        Node::Split(children) => if path.len() > 0 && path[0] < children@.len() {
            joined(children@.take(path[0] as int)).len() + end_of(
                children@[path[0] as int],
                path.skip(1),
            )
        } else {
            members(node).len() as int
        },
        Node::Leaf(_) => 1,
    }
}

/// The part that a way leads to, if it does not lead out of the tree.
pub open spec fn part_at(node: Node, path: Seq<usize>) -> Option<Node>
    decreases path.len(),
{
    if path.len() == 0 {
        Some(node)
    } else {
        match node {
            Node::Split(children) => if path[0] < children@.len() {
                part_at(children@[path[0] as int], path.skip(1))
            } else {
                None
            },
            Node::Leaf(_) => None,
        }
    }
}

/// Whether two ways part: neither leads on from the other.
pub open spec fn apart(a: Seq<usize>, b: Seq<usize>) -> bool
    decreases a.len(),
{
    a.len() > 0 && b.len() > 0 && (a[0] != b[0] || apart(a.skip(1), b.skip(1)))
}

/// How a part is made up: of a pane, or of parts that stand side by side.
#[verifier::ext_equal]
pub enum Shape {
    Leaf(Pane),
    Split(Seq<Shape>),
}

/// How a part is made up.
pub open spec fn shape(node: Node) -> Shape
    decreases node,
{
    match node {
        Node::Leaf(pane) => Shape::Leaf(pane),
        Node::Split(children) => Shape::Split(shapes(children@)),
    }
}

/// How each of some parts is made up.
pub open spec fn shapes(parts: Seq<Node>) -> Seq<Shape>
    decreases parts,
{
    if parts.len() == 0 {
        Seq::empty()
    } else {
        shapes(parts.subrange(0, parts.len() - 1)).push(shape(parts[parts.len() - 1]))
    }
}

/// A part once the pane or the split that a way leads to was split: that and the new pane are the
/// two parts of a split in its place. A way that leads out of the tree ends where it leaves it.
pub open spec fn split_shape(s: Shape, path: Seq<usize>, new: Pane) -> Shape
    decreases path.len(),
{
    match s {
        Shape::Split(parts) => if path.len() > 0 && path[0] < parts.len() {
            Shape::Split(
                parts.update(
                    path[0] as int,
                    split_shape(parts[path[0] as int], path.skip(1), new),
                ),
            )
        } else {
            Shape::Split(seq![s, Shape::Leaf(new)])
        },
        Shape::Leaf(_) => Shape::Split(seq![s, Shape::Leaf(new)]),
    }
}

/// A part once a pane was closed, if anything is left of it: a split of which one part is left is
/// that part.
pub open spec fn closed_shape(s: Shape, id: usize) -> Option<Shape>
    decreases s,
{
    match s {
        Shape::Leaf(pane) => if pane.id == id {
            None
        } else {
            Some(s)
        },
        Shape::Split(parts) => {
            let left = left_shapes(parts, id);
            if left.len() == 0 {
                None
            } else if left.len() == 1 {
                Some(left[0])
            } else {
                Some(Shape::Split(left))
            }
        },
    }
}

/// What is left of some parts once a pane was closed.
pub open spec fn left_shapes(parts: Seq<Shape>, id: usize) -> Seq<Shape>
    decreases parts,
{
    if parts.len() == 0 {
        Seq::empty()
    } else {
        let front = left_shapes(parts.subrange(0, parts.len() - 1), id);
        match closed_shape(parts[parts.len() - 1], id) {
            Some(s) => front.push(s),
            None => front,
        }
    }
}

proof fn lemma_shapes_push(parts: Seq<Node>, part: Node)
    ensures
        shapes(parts.push(part)) == shapes(parts).push(shape(part)),
{
    assert(parts.push(part).subrange(0, parts.len() as int) =~= parts);
}

proof fn lemma_shapes(parts: Seq<Node>)
    ensures
        shapes(parts).len() == parts.len(),
        forall|i: int| 0 <= i < parts.len() ==> #[trigger] shapes(parts)[i] == shape(parts[i]),
    decreases parts.len(),
{
    if parts.len() > 0 {
        let front = parts.subrange(0, parts.len() - 1);
        lemma_shapes(front);
        assert forall|i: int| 0 <= i < parts.len() implies #[trigger] shapes(parts)[i] == shape(
            parts[i],
        ) by {
            if i < front.len() {
                assert(shapes(front)[i] == shape(front[i]));
            }
        }
    }
}

proof fn lemma_shapes_update(parts: Seq<Node>, i: int, part: Node)
    requires
        0 <= i < parts.len(),
    ensures
        shapes(parts.update(i, part)) == shapes(parts).update(i, shape(part)),
{
    let next = parts.update(i, part);
    lemma_shapes(parts);
    lemma_shapes(next);
    assert forall|j: int| 0 <= j < parts.len() implies #[trigger] shapes(next)[j] == shapes(
        parts,
    ).update(i, shape(part))[j] by {
        assert(shapes(parts)[j] == shape(parts[j]));
    }
    assert(shapes(next) =~= shapes(parts).update(i, shape(part)));
}

proof fn lemma_left_push(parts: Seq<Shape>, part: Shape, id: usize)
    ensures
        left_shapes(parts.push(part), id) == (match closed_shape(part, id) {
            Some(s) => left_shapes(parts, id).push(s),
            None => left_shapes(parts, id),
        }),
{
    assert(parts.push(part).subrange(0, parts.len() as int) =~= parts);
}

/// Panes without the one that has this number.
pub open spec fn without(panes: Seq<Pane>, id: usize) -> Seq<Pane>
    decreases panes.len(),
{
    if panes.len() == 0 {
        Seq::empty()
    } else if panes.last().id == id {
        without(panes.drop_last(), id)
    } else {
        without(panes.drop_last(), id).push(panes.last())
    }
}

proof fn lemma_without_each(a: Seq<Pane>, b: Seq<Pane>, id: usize)
    ensures
        without(a + b, id) == without(a, id) + without(b, id),
    decreases b.len(),
{
    if b.len() == 0 {
        assert(a + b =~= a);
        assert(without(a, id) + without(b, id) =~= without(a, id));
    } else {
        lemma_without_each(a, b.drop_last(), id);
        assert((a + b).drop_last() =~= a + b.drop_last());
        assert((a + b).last() == b.last());
        assert(without(a + b, id) =~= without(a, id) + without(b, id));
    }
}

proof fn lemma_push(parts: Seq<Node>, part: Node)
    ensures
        joined(parts.push(part)) == joined(parts) + members(part),
{
    assert(parts.push(part).subrange(0, parts.len() as int) =~= parts);
}

proof fn lemma_apart(parts: Seq<Node>, i: int)
    requires
        0 <= i <= parts.len(),
    ensures
        joined(parts) == joined(parts.take(i)) + joined(parts.skip(i)),
    decreases parts.len() - i,
{
    if i == parts.len() {
        assert(parts.take(i) =~= parts);
        assert(parts.skip(i) =~= Seq::empty());
        assert(joined(parts.skip(i)) =~= Seq::empty());
        assert(joined(parts) + joined(parts.skip(i)) =~= joined(parts));
    } else {
        let front = parts.subrange(0, parts.len() - 1);
        let last = parts[parts.len() - 1];
        lemma_apart(front, i);
        assert(front.take(i) =~= parts.take(i));
        assert(parts.skip(i) =~= front.skip(i).push(last));
        lemma_push(front.skip(i), last);
        assert(joined(parts.take(i)) + joined(front.skip(i)) + members(last) =~= joined(
            parts.take(i),
        ) + (joined(front.skip(i)) + members(last)));
    }
}

proof fn lemma_around(parts: Seq<Node>, i: int)
    requires
        0 <= i < parts.len(),
    ensures
        joined(parts) == joined(parts.take(i)) + members(parts[i]) + joined(parts.skip(i + 1)),
{
    lemma_apart(parts, i + 1);
    assert(parts.take(i + 1) =~= parts.take(i).push(parts[i]));
    lemma_push(parts.take(i), parts[i]);
}

proof fn lemma_end(node: Node, path: Seq<usize>)
    ensures
        0 <= end_of(node, path) <= members(node).len(),
    decreases path.len(),
{
    match node {
        Node::Split(children) => {
            if path.len() > 0 && path[0] < children@.len() {
                let i = path[0] as int;
                lemma_around(children@, i);
                lemma_end(children@[i], path.skip(1));
            }
        },
        Node::Leaf(_) => {},
    }
}

proof fn lemma_without_one(pane: Pane, id: usize)
    ensures
        without(seq![pane], id) == (if pane.id == id {
            Seq::empty()
        } else {
            seq![pane]
        }),
{
    let one = seq![pane];
    assert(one.drop_last() =~= Seq::empty());
    assert(one.last() == pane);
    assert(without(one.drop_last(), id) =~= Seq::empty());
    assert(Seq::<Pane>::empty().push(pane) =~= one);
}

proof fn lemma_insert_inside(a: Seq<Pane>, b: Seq<Pane>, c: Seq<Pane>, at: int, new: Pane)
    requires
        0 <= at <= b.len(),
    ensures
        a + b.insert(at, new) + c == (a + b + c).insert(a.len() + at, new),
{
    assert(a + b.insert(at, new) + c =~= (a + b + c).insert(a.len() + at, new));
}

proof fn lemma_replace_part(parts: Seq<Node>, i: int, part: Node, at: int, new: Pane)
    requires
        0 <= i < parts.len(),
        0 <= at <= members(parts[i]).len(),
        members(part) == members(parts[i]).insert(at, new),
    ensures
        joined(parts.update(i, part)) == joined(parts).insert(
            joined(parts.take(i)).len() + at,
            new,
        ),
{
    let next = parts.update(i, part);
    lemma_around(parts, i);
    lemma_around(next, i);
    assert(next.take(i) =~= parts.take(i));
    assert(next.skip(i + 1) =~= parts.skip(i + 1));
    lemma_insert_inside(
        joined(parts.take(i)),
        members(parts[i]),
        joined(parts.skip(i + 1)),
        at,
        new,
    );
}

fn split_below(root: Node, path: &Vec<usize>, depth: usize, new: Pane) -> (r: Node)
    requires
        depth <= path@.len(),
    ensures
        members(r) == members(root).insert(end_of(root, path@.skip(depth as int)), new),
        0 <= end_of(root, path@.skip(depth as int)) <= members(root).len(),
        shape(r) == split_shape(shape(root), path@.skip(depth as int), new),
        part_at(root, path@.skip(depth as int)) matches Some(p) ==> {
            &&& part_at(r, path@.skip(depth as int)) matches Some(Node::Split(c)) && c@ =~= seq![
                p,
                Node::Leaf(new),
            ]
            &&& forall|q: Seq<usize>| #[trigger]
                apart(path@.skip(depth as int), q) ==> part_at(r, q) == part_at(root, q)
        },
    decreases path.len() - depth,
{
    let ghost rest = path@.skip(depth as int);
    proof {
        lemma_end(root, rest);
    }
    match root {
        Node::Split(children) => {
            if depth < path.len() && path[depth] < children.len() {
                let i: usize = path[depth];
                let ghost before = children@;
                let mut children = children;
                let child = children.remove(i);
                assert(child == before[i as int]);
                let part = split_below(child, path, depth + 1, new);
                children.insert(i, part);
                proof {
                    assert(rest.skip(1) =~= path@.skip(depth + 1));
                    assert(children@ =~= before.update(i as int, part));
                    lemma_replace_part(before, i as int, part, end_of(child, rest.skip(1)), new);
                    lemma_shapes(before);
                    lemma_shapes_update(before, i as int, part);
                    assert(shapes(before)[i as int] == shape(child));
                }
                let r = Node::Split(children);
                proof {
                    if part_at(root, rest) is Some {
                        assert forall|q: Seq<usize>| #[trigger] apart(rest, q) implies part_at(r, q)
                            == part_at(root, q) by {
                            if q[0] == i {
                                assert(apart(rest.skip(1), q.skip(1)));
                            }
                        }
                    }
                }
                return r;
            }
            proof {
                lemma_shapes(children@);
            }
            halves(Node::Split(children), new)
        },
        Node::Leaf(pane) => halves(Node::Leaf(pane), new),
    }
}

fn halves(part: Node, new: Pane) -> (r: Node)
    ensures
        members(r) == members(part).push(new),
        shape(r) == Shape::Split(seq![shape(part), Shape::Leaf(new)]),
        r matches Node::Split(c) && c@ == seq![part, Node::Leaf(new)],
{
    let ghost empty = Seq::<Node>::empty();
    let mut parts: Vec<Node> = Vec::new();
    parts.push(part);
    parts.push(Node::Leaf(new));
    proof {
        assert(parts@ =~= empty.push(part).push(Node::Leaf(new)));
        lemma_push(empty, part);
        lemma_push(empty.push(part), Node::Leaf(new));
        assert(joined(parts@) =~= members(part).push(new));
        lemma_shapes(parts@);
        assert(shapes(parts@)[0] == shape(part) && shapes(parts@)[1] == shape(Node::Leaf(new)));
        assert(shapes(parts@) =~= seq![shape(part), Shape::Leaf(new)]);
        assert(parts@ =~= seq![part, Node::Leaf(new)]);
    }
    Node::Split(parts)
}

/// Splits the part of a window that a way leads to: the way leads to a split then, of the part
/// that it led to and the new pane. All that stands beside the way stays as it was.
pub fn split_pane(root: Node, path: &Vec<usize>, new: Pane) -> (r: Node)
    ensures
        shape(r) == split_shape(shape(root), path@, new),
        part_at(root, path@) matches Some(p) ==> {
            &&& part_at(r, path@) matches Some(Node::Split(c)) && c@ =~= seq![p, Node::Leaf(new)]
            &&& forall|q: Seq<usize>| #[trigger]
                apart(path@, q) ==> part_at(r, q) == part_at(root, q)
        },
        0 <= end_of(root, path@) <= members(root).len(),
        members(r) == members(root).insert(end_of(root, path@), new),
{
    assert(path@.skip(0) =~= path@);
    split_below(root, path, 0, new)
}

/// Closes a pane. A split of which one part is left is that part. `None` where no pane is left.
pub fn close_pane(root: Node, id: usize) -> (r: Option<Node>)
    ensures
        closed_shape(shape(root), id) == (match r {
            Some(node) => Some(shape(node)),
            None => None,
        }),
        r is None <==> without(members(root), id).len() == 0,
        r matches Some(node) ==> members(node) == without(members(root), id),
    decreases root,
{
    match root {
        Node::Leaf(pane) => {
            proof {
                lemma_without_one(pane, id);
            }
            if pane.id == id {
                None
            } else {
                Some(Node::Leaf(pane))
            }
        },
        Node::Split(children) => {
            let ghost before = children@;
            let mut children = children;
            let mut left: Vec<Node> = Vec::new();
            let ghost mut i: int = 0;
            proof {
                assert(before.take(0) =~= Seq::empty());
                assert(before.skip(0) =~= before);
                assert(without(joined(before.take(0)), id) =~= Seq::empty());
                assert(joined(left@) =~= Seq::empty());
                assert(shapes(before.take(0)) =~= Seq::empty());
            }
            while children.len() > 0
                invariant
                    0 <= i <= before.len(),
                    root matches Node::Split(c) && c@ == before,
                    children@ == before.skip(i),
                    joined(left@) == without(joined(before.take(i)), id),
                    shapes(left@) == left_shapes(shapes(before.take(i)), id),
                    forall|j: int| 0 <= j < left@.len() ==> members(#[trigger] left@[j]).len() > 0,
                decreases children.len(),
            {
                let child = children.remove(0);
                assert(child == before[i]);
                let ghost done = left@;
                let ghost part = child;
                proof {
                    assert(before.take(i + 1) =~= before.take(i).push(child));
                    lemma_push(before.take(i), child);
                    lemma_shapes_push(before.take(i), child);
                    lemma_left_push(shapes(before.take(i)), shape(child), id);
                    lemma_without_each(joined(before.take(i)), members(child), id);
                    assert(before.skip(i).remove(0) =~= before.skip(i + 1));
                }
                match close_pane(child, id) {
                    Some(node) => {
                        left.push(node);
                        proof {
                            lemma_push(done, node);
                            lemma_shapes_push(done, node);
                        }
                    },
                    None => {
                        proof {
                            assert(without(members(part), id) =~= Seq::empty());
                            assert(joined(done) + without(members(part), id) =~= joined(done));
                        }
                    },
                }
                proof {
                    i = i + 1;
                }
            }
            proof {
                assert(before.take(i) =~= before);
                lemma_shapes(left@);
                if left@.len() == 1 {
                    assert(shapes(left@)[0] == shape(left@[0]));
                }
            }
            if left.len() == 0 {
                None
            } else if left.len() == 1 {
                proof {
                    assert(left@ =~= Seq::<Node>::empty().push(left@[0]));
                    lemma_push(Seq::empty(), left@[0]);
                    assert(joined(left@) =~= members(left@[0]));
                }
                left.pop()
            } else {
                proof {
                    lemma_around(left@, 0);
                    assert(members(left@[0]).len() > 0);
                }
                Some(Node::Split(left))
            }
        },
    }
}

proof fn lemma_one_further(node: Node, path: Seq<usize>, k: usize)
    requires
        part_at(node, path) is Some,
    ensures
        part_at(node, path.push(k)) == part_at(part_at(node, path)->0, seq![k]),
    decreases path.len(),
{
    if path.len() == 0 {
        assert(path.push(k) =~= seq![k]);
    } else {
        assert(path.push(k).skip(1) =~= path.skip(1).push(k));
        match node {
            Node::Split(children) => {
                lemma_one_further(children@[path[0] as int], path.skip(1), k);
            },
            Node::Leaf(_) => {},
        }
    }
}

/// One step behind the way to the part that was split stand that part and the new pane, in this
/// order.
pub proof fn halves_have_their_ways(root: Node, path: Seq<usize>, new: Pane, part: Node, split: Node)
    requires
        part_at(root, path) == Some(part),
        part_at(split, path) matches Some(Node::Split(c)) && c@ == seq![part, Node::Leaf(new)],
    ensures
        part_at(split, path.push(0)) == Some(part),
        part_at(split, path.push(1)) == Some(Node::Leaf(new)),
{
    lemma_one_further(split, path, 0);
    lemma_one_further(split, path, 1);
    reveal_with_fuel(part_at, 2);
}

/// Whether every split has two parts or more.
pub open spec fn branches(s: Shape) -> bool
    decreases s,
{
    match s {
        Shape::Leaf(_) => true,
        Shape::Split(parts) => parts.len() >= 2 && all_branch(parts),
    }
}

/// Whether every split within some parts has two parts or more.
pub open spec fn all_branch(parts: Seq<Shape>) -> bool
    decreases parts,
{
    parts.len() == 0 || (all_branch(parts.subrange(0, parts.len() - 1)) && branches(
        parts[parts.len() - 1],
    ))
}

proof fn lemma_all_branch(parts: Seq<Shape>, i: int)
    requires
        all_branch(parts),
        0 <= i < parts.len(),
    ensures
        branches(parts[i]),
    decreases parts.len(),
{
    if i < parts.len() - 1 {
        lemma_all_branch(parts.subrange(0, parts.len() - 1), i);
    }
}

proof fn lemma_left_branches(parts: Seq<Shape>, id: usize)
    requires
        all_branch(parts),
    ensures
        all_branch(left_shapes(parts, id)),
    decreases parts,
{
    if parts.len() > 0 {
        let front = parts.subrange(0, parts.len() - 1);
        lemma_left_branches(front, id);
        closing_leaves_no_lone_part(parts[parts.len() - 1], id);
        if let Some(s) = closed_shape(parts[parts.len() - 1], id) {
            let before = left_shapes(front, id);
            assert(before.push(s).subrange(0, before.len() as int) =~= before);
        }
    }
}

/// Closing a pane leaves no split of a single part, where there was none.
pub proof fn closing_leaves_no_lone_part(s: Shape, id: usize)
    requires
        branches(s),
    ensures
        closed_shape(s, id) matches Some(left) ==> branches(left),
    decreases s,
{
    match s {
        Shape::Leaf(_) => {},
        Shape::Split(parts) => {
            lemma_left_branches(parts, id);
            let left = left_shapes(parts, id);
            if left.len() == 1 {
                lemma_all_branch(left, 0);
            }
        },
    }
}

/// The panes alone, without the ways to them.
pub open spec fn bare(panes: Seq<LeafView>) -> Seq<Pane> {
    Seq::new(panes.len(), |i: int| panes[i].pane)
}

proof fn lemma_bare(node: Node, path: Seq<usize>)
    ensures
        bare(leaves(node, path)) == members(node),
    decreases node, 1nat, 0nat,
{
    match node {
        Node::Leaf(pane) => {
            assert(bare(leaves(node, path)) =~= seq![pane]);
        },
        Node::Split(children) => {
            lemma_bare_of(node, path, children@.len());
            assert(children@.take(children@.len() as int) =~= children@);
        },
    }
}

proof fn lemma_bare_of(node: Node, path: Seq<usize>, n: nat)
    requires
        node is Split,
        n <= (node->Split_0)@.len(),
    ensures
        bare(leaves_of(node, path, n)) == joined((node->Split_0)@.take(n as int)),
    decreases node, 0nat, n,
{
    let parts = (node->Split_0)@;
    if n == 0 {
        assert(parts.take(0) =~= Seq::empty());
        assert(bare(leaves_of(node, path, n)) =~= joined(parts.take(0)));
    } else {
        let below = path.push((n - 1) as usize);
        lemma_bare_of(node, path, (n - 1) as nat);
        assert(decreases_to!(node => (node->Split_0)@[n - 1]));
        lemma_bare((node->Split_0)@[n - 1], below);
        assert(parts.take(n as int) =~= parts.take(n - 1).push(parts[n - 1]));
        lemma_push(parts.take(n - 1), parts[n - 1]);
        assert(bare(leaves_of(node, path, n)) =~= bare(leaves_of(node, path, (n - 1) as nat)) + bare(
            leaves(parts[n - 1], below),
        ));
    }
}

/// The panes that are listed are the panes of the tree, in the same order.
pub proof fn listed_panes_are_members(root: Node)
    ensures
        bare(panes_of(root)) == members(root),
{
    lemma_bare(root, Seq::empty());
}

proof fn lemma_all_stay(panes: Seq<Pane>, id: usize)
    requires
        forall|i: int| 0 <= i < panes.len() ==> (#[trigger] panes[i]).id != id,
    ensures
        without(panes, id) == panes,
    decreases panes.len(),
{
    if panes.len() > 0 {
        let front = panes.drop_last();
        assert forall|i: int| 0 <= i < front.len() implies (#[trigger] front[i]).id != id by {
            assert(front[i] == panes[i]);
        }
        lemma_all_stay(front, id);
        assert(panes.last() == panes[panes.len() - 1]);
        assert(front.push(panes.last()) =~= panes);
    }
}

proof fn lemma_insert_without(panes: Seq<Pane>, at: int, new: Pane)
    requires
        0 <= at <= panes.len(),
        forall|i: int| 0 <= i < panes.len() ==> (#[trigger] panes[i]).id != new.id,
    ensures
        without(panes.insert(at, new), new.id) == panes,
{
    let front = panes.take(at);
    let back = panes.skip(at);
    let one = seq![new];
    assert(panes.insert(at, new) =~= (front + one) + back);
    lemma_without_each(front + one, back, new.id);
    lemma_without_each(front, one, new.id);
    lemma_without_one(new, new.id);
    assert forall|i: int| 0 <= i < back.len() implies (#[trigger] back[i]).id != new.id by {
        assert(back[i] == panes[at + i]);
    }
    assert forall|i: int| 0 <= i < front.len() implies (#[trigger] front[i]).id != new.id by {
        assert(front[i] == panes[i]);
    }
    lemma_all_stay(front, new.id);
    lemma_all_stay(back, new.id);
    assert(front + Seq::<Pane>::empty() + back =~= panes);
}

/// Closing a pane that a split brought leaves the panes that there were before, in their order.
pub proof fn closing_undoes_splitting(root: Node, path: Seq<usize>, new: Pane, split: Node)
    requires
        forall|i: int| 0 <= i < members(root).len() ==> (#[trigger] members(root)[i]).id != new.id,
        members(split) == members(root).insert(end_of(root, path), new),
    ensures
        without(members(split), new.id) == members(root),
{
    lemma_end(root, path);
    lemma_insert_without(members(root), end_of(root, path), new);
}

} // verus!
