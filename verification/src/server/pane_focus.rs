//! Which pane of a window has the focus, and how it moves.

use vstd::prelude::*;
use crate::server::panes::{
    collect_panes, copy_path, fits, leaf_views, panes_have_their_own_ways, panes_of, same_path, Leaf,
    LeafView, Node,
};
use crate::text::same;

verus! {

/// The way to the pane that has the focus, and to the one that had it before.
pub struct PaneFocus {
    pub active: Vec<usize>,
    /// Empty where no other pane had the focus.
    pub last: Vec<usize>,
    /// The pane that is marked: the position of its window, and its number.
    pub marked: Option<(usize, usize)>,
}

/// What a request to select a pane asks for.
#[derive(Clone, Copy, PartialEq, Eq, Structural, Debug)]
pub enum PaneChoice {
    Up,
    Down,
    Left,
    Right,
    /// The pane that had the focus before.
    Last,
    Mark,
    Next,
    Previous,
    Unmark,
    Nothing,
}

/// What a word asks for.
pub open spec fn choice(word: Seq<char>) -> PaneChoice {
    if word == "U"@ {
        PaneChoice::Up
    } else if word == "D"@ {
        PaneChoice::Down
    } else if word == "L"@ {
        PaneChoice::Left
    } else if word == "R"@ {
        PaneChoice::Right
    } else if word == "last"@ {
        PaneChoice::Last
    } else if word == "mark"@ {
        PaneChoice::Mark
    } else if word == "next"@ {
        PaneChoice::Next
    } else if word == "prev"@ {
        PaneChoice::Previous
    } else if word == "unmark"@ {
        PaneChoice::Unmark
    } else {
        PaneChoice::Nothing
    }
}

/// What a word asks for.
pub fn pane_choice(word: &str) -> (r: PaneChoice)
    ensures
        r == choice(word@),
{
    if same(word, "U") {
        PaneChoice::Up
    } else if same(word, "D") {
        PaneChoice::Down
    } else if same(word, "L") {
        PaneChoice::Left
    } else if same(word, "R") {
        PaneChoice::Right
    } else if same(word, "last") {
        PaneChoice::Last
    } else if same(word, "mark") {
        PaneChoice::Mark
    } else if same(word, "next") {
        PaneChoice::Next
    } else if same(word, "prev") {
        PaneChoice::Previous
    } else if same(word, "unmark") {
        PaneChoice::Unmark
    } else {
        PaneChoice::Nothing
    }
}

/// How the focus moves in a direction.
#[derive(Clone, Copy, PartialEq, Eq, Structural, Debug)]
pub enum DirectedMove {
    /// To the neighbour, which is shown as large as the pane before it.
    KeepZoom,
    /// To the neighbour.
    Move,
    /// Nowhere: the pane is shown as large as before.
    ZoomAgain,
}

/// How the focus moves in a direction. `keep_zoom` tells whether a pane that is shown
/// alone hands that on; `was_zoomed` whether there was one, which is shown among the
/// others again; `has_target` whether another pane lies in the direction, if need be
/// around the edge.
pub fn directed_move(keep_zoom: bool, was_zoomed: bool, has_target: bool) -> (r: DirectedMove)
    ensures
        keep_zoom ==> r == DirectedMove::KeepZoom,
        !keep_zoom && was_zoomed && !has_target ==> r == DirectedMove::ZoomAgain,
        !keep_zoom && !(was_zoomed && !has_target) ==> r == DirectedMove::Move,
{
    if keep_zoom {
        DirectedMove::KeepZoom
    } else if was_zoomed && !has_target {
        DirectedMove::ZoomAgain
    } else {
        DirectedMove::Move
    }
}

/// Where the way stands among panes.
pub open spec fn place_of(panes: Seq<LeafView>, path: Seq<usize>, i: int) -> Option<int>
    decreases panes.len() - i,
{
    if i < 0 || i >= panes.len() {
        None
    } else if panes[i].path == path {
        Some(i)
    } else {
        place_of(panes, path, i + 1)
    }
}

/// The pane behind the one at `at`, or before it; around the end.
pub open spec fn neighbour(at: int, n: int, forward: bool) -> int {
    if forward {
        (at + 1) % n
    } else {
        (at + n - 1) % n
    }
}

/// The pane that a digit denotes when the panes show their numbers.
pub open spec fn digit_pane(n: nat, base: nat, digit: nat, i: nat) -> Option<nat>
    decreases n - i,
{
    if i >= n || i >= 10 {
        None
    } else if (i + base) % 10 == digit {
        Some(i)
    } else {
        digit_pane(n, base, digit, i + 1)
    }
}

fn find_place(panes: &Vec<Leaf>, path: &Vec<usize>) -> (r: Option<usize>)
    ensures
        r matches Some(i) ==> i < panes@.len() && place_of(leaf_views(panes@), path@, 0) == Some(i as int),
        r is None ==> place_of(leaf_views(panes@), path@, 0) is None,
{
    let ghost views = leaf_views(panes@);
    let mut i: usize = 0;
    while i < panes.len()
        invariant
            i <= panes.len(),
            views == leaf_views(panes@),
            place_of(views, path@, i as int) == place_of(views, path@, 0),
        decreases panes.len() - i,
    {
        assert(views[i as int].path == panes@[i as int].path@);
        if same_path(&panes[i].path, path) {
            return Some(i);
        }
        i += 1;
    }
    None
}

/// The way to the pane with a number, or to the one that has the focus where there is no
/// such pane.
pub open spec fn resolved(panes: Seq<LeafView>, number: Option<usize>, active: Seq<usize>) -> Seq<usize> {
    if number is Some && number->0 < panes.len() {
        panes[number->0 as int].path
    } else {
        active
    }
}

/// The way to the pane with a number, or to the one that has the focus where there is no
/// such pane.
pub fn resolve_pane(root: &Node, number: Option<usize>, active: &Vec<usize>) -> (r: Vec<usize>)
    ensures
        r@ == resolved(panes_of(*root), number, active@),
{
    let panes = collect_panes(root);
    if let Some(n) = number {
        if n < panes.len() {
            assert(leaf_views(panes@)[n as int].path == panes@[n as int].path@);
            return copy_path(&panes[n].path);
        }
    }
    copy_path(active)
}

/// The windows that a pane is moved from and to, where it can be: both exist, and they
/// are different. Where one is not named, it is the one that has the focus.
pub fn join_windows(source: Option<usize>, target: Option<usize>, active: usize, windows: usize) -> (r:
    Option<(usize, usize)>)
    ensures
        ({
            let s = if source is Some {
                source->0
            } else {
                active
            };
            let t = if target is Some {
                target->0
            } else {
                active
            };
            r == (if s < windows && t < windows && s != t {
                Some((s, t))
            } else {
                None
            })
        }),
{
    let s: usize = match source {
        Some(w) => w,
        None => active,
    };
    let t: usize = match target {
        Some(w) => w,
        None => active,
    };
    if s < windows && t < windows && s != t {
        Some((s, t))
    } else {
        None
    }
}

/// The ways to the panes that have and had the focus, once it went back to the last one.
pub open spec fn after_last(active: Seq<usize>, last: Seq<usize>) -> (Seq<usize>, Seq<usize>) {
    if last.len() > 0 {
        (last, active)
    } else {
        (active, last)
    }
}

impl PaneFocus {
    /// Moves the focus to the next pane of the window, or to the one before. Tells
    /// whether it moved.
    pub fn cycle(&mut self, root: &Node, forward: bool) -> (moved: bool)
        ensures
            final(self).marked == old(self).marked,
            ({
                let panes = panes_of(*root);
                match place_of(panes, old(self).active@, 0) {
                    Some(at) => final(self).last@ == old(self).active@ && final(self).active@ == panes[neighbour(
                        at,
                        panes.len() as int,
                        forward,
                    )].path,
                    None => final(self).last == old(self).last && final(self).active == old(self).active,
                }
            }),
            moved == (final(self).active@ != old(self).active@),
    {
        let panes = collect_panes(root);
        match find_place(&panes, &self.active) {
            Some(at) => {
                let n: usize = panes.len();
                let to: usize = if forward {
                    if at + 1 == n {
                        0
                    } else {
                        at + 1
                    }
                } else if at == 0 {
                    n - 1
                } else {
                    at - 1
                };
                proof {
                    let (a, m) = (at as int, n as int);
                    if forward {
                        if a + 1 == m {
                            assert((a + 1) % m == 0) by (nonlinear_arith)
                                requires
                                    a + 1 == m,
                                    m > 0,
                            ;
                        } else {
                            vstd::arithmetic::div_mod::lemma_small_mod((a + 1) as nat, m as nat);
                        }
                    } else if a == 0 {
                        vstd::arithmetic::div_mod::lemma_small_mod((m - 1) as nat, m as nat);
                    } else {
                        vstd::arithmetic::div_mod::lemma_mod_add_multiples_vanish(a - 1, m);
                        vstd::arithmetic::div_mod::lemma_small_mod((a - 1) as nat, m as nat);
                        assert((a + m - 1) % m == a - 1);
                    }
                    assert(leaf_views(panes@)[to as int].path == panes@[to as int].path@);
                }
                let new = copy_path(&panes[to].path);
                let moved: bool = !same_path(&new, &self.active);
                self.last = copy_path(&self.active);
                self.active = new;
                moved
            },
            None => false,
        }
    }

    /// Moves the focus back to the pane that had it before, if there is one. Tells whether
    /// it moved.
    pub fn select_last(&mut self) -> (moved: bool)
        ensures
            final(self).marked == old(self).marked,
            (final(self).active@, final(self).last@) == after_last(old(self).active@, old(self).last@),
            moved == (final(self).active@ != old(self).active@),
    {
        if self.last.len() == 0 {
            return false;
        }
        let moved: bool = !same_path(&self.active, &self.last);
        let before = copy_path(&self.active);
        self.active = copy_path(&self.last);
        self.last = before;
        moved
    }

    /// Moves the focus back to the pane that had it before, if `exists` tells that it is
    /// still there; else to the other half of the split that the pane is in.
    pub fn last_pane(&mut self, exists: bool)
        requires
            old(self).active@.len() > 0 ==> old(self).active@.last() < usize::MAX,
        ensures
            final(self).marked == old(self).marked,
            old(self).last@.len() > 0 && exists ==> final(self).active@ == old(self).last@
                && final(self).last@ == old(self).active@,
            !(old(self).last@.len() > 0 && exists) ==> final(self).last == old(self).last,
            !(old(self).last@.len() > 0 && exists) && old(self).active@.len() > 0 ==> final(self).active@
                == old(self).active@.drop_last().push(((old(self).active@.last() + 1) % 2) as usize),
            !(old(self).last@.len() > 0 && exists) && old(self).active@.len() == 0 ==> final(self).active
                == old(self).active,
    {
        if self.last.len() > 0 && exists {
            let _ = self.select_last();
        } else if self.active.len() > 0 {
            let at: usize = self.active.len() - 1;
            let i: usize = self.active[at];
            self.active.set(at, (i + 1) % 2);
            assert(self.active@ =~= old(self).active@.drop_last().push(
                ((old(self).active@.last() + 1) % 2) as usize,
            ));
        }
    }

    /// Gives the pane the focus that a digit denotes, while the panes show their numbers.
    /// `base` is the number of the first pane.
    pub fn select_digit(&mut self, root: &Node, base: usize, digit: usize)
        requires
            base <= usize::MAX - 10,
        ensures
            final(self).marked == old(self).marked,
            ({
                let panes = panes_of(*root);
                match digit_pane(panes.len(), base as nat, digit as nat, 0) {
                    Some(i) => final(self).active@ == panes[i as int].path && (if panes[i as int].path
                        != old(self).active@ {
                        final(self).last@ == old(self).active@
                    } else {
                        final(self).last == old(self).last
                    }),
                    None => *final(self) == *old(self),
                }
            }),
    {
        let panes = collect_panes(root);
        let mut i: usize = 0;
        while i < panes.len() && i < 10
            invariant
                i <= panes.len(),
                i <= 10,
                base <= usize::MAX - 10,
                leaf_views(panes@) == panes_of(*root),
                *self == *old(self),
                digit_pane(panes_of(*root).len(), base as nat, digit as nat, i as nat) == digit_pane(
                    panes_of(*root).len(),
                    base as nat,
                    digit as nat,
                    0,
                ),
            decreases panes.len() - i,
        {
            if (i + base) % 10 == digit {
                assert(leaf_views(panes@)[i as int].path == panes@[i as int].path@);
                let new = copy_path(&panes[i].path);
                if !same_path(&new, &self.active) {
                    self.last = copy_path(&self.active);
                }
                self.active = new;
                return;
            }
            i += 1;
        }
    }

    /// Remembers where the focus was, once it moved in a direction. `always` tells that it
    /// did; else it is seen from the way.
    pub fn moved_to(&mut self, new: Vec<usize>, always: bool)
        ensures
            final(self).marked == old(self).marked,
            final(self).active == new,
            (always || new@ != old(self).active@) ==> final(self).last@ == old(self).active@,
            !(always || new@ != old(self).active@) ==> final(self).last == old(self).last,
    {
        if always || !same_path(&new, &self.active) {
            self.last = copy_path(&self.active);
        }
        self.active = new;
    }

    /// Marks a pane. Where no pane has the focus, the mark stays.
    pub fn mark(&mut self, window: usize, pane: Option<usize>)
        ensures
            final(self).active == old(self).active,
            final(self).last == old(self).last,
            final(self).marked == (match pane {
                Some(p) => Some((window, p)),
                None => old(self).marked,
            }),
    {
        if let Some(p) = pane {
            self.marked = Some((window, p));
        }
    }

    /// Takes the mark away.
    pub fn unmark(&mut self)
        ensures
            final(self).active == old(self).active,
            final(self).last == old(self).last,
            final(self).marked is None,
    {
        self.marked = None;
    }

    /// Gives the focus back to the pane that was split. It is the first half of the split
    /// now that stands where it stood.
    pub fn after_detached_split(&mut self, before: &Vec<usize>)
        ensures
            final(self).active@ == before@.push(0),
            final(self).last == old(self).last,
            final(self).marked == old(self).marked,
    {
        let mut path = copy_path(before);
        path.push(0);
        self.active = path;
    }
}

/// The panes that had the focus, without one.
pub open spec fn without_id(s: Seq<usize>, id: usize) -> Seq<usize>
    decreases s.len(),
{
    if s.len() == 0 {
        s
    } else if s.last() == id {
        without_id(s.drop_last(), id)
    } else {
        without_id(s.drop_last(), id).push(s.last())
    }
}

/// The panes that had the focus, without the one that was made by a split and never had it.
pub fn forget_pane(recent: &Vec<usize>, id: usize) -> (r: Vec<usize>)
    ensures
        r@ == without_id(recent@, id),
{
    let mut r: Vec<usize> = Vec::new();
    let mut i: usize = 0;
    while i < recent.len()
        invariant
            i <= recent.len(),
            r@ == without_id(recent@.take(i as int), id),
        decreases recent.len() - i,
    {
        assert(recent@.take(i + 1).drop_last() =~= recent@.take(i as int));
        if recent[i] != id {
            r.push(recent[i]);
        }
        i += 1;
    }
    assert(recent@.take(i as int) =~= recent@);
    r
}

proof fn lemma_place_of(panes: Seq<LeafView>, path: Seq<usize>, i: int, at: int)
    requires
        0 <= i <= at < panes.len(),
        panes[at].path == path,
        forall|j: int| 0 <= j < panes.len() && j != at ==> (#[trigger] panes[j]).path != path,
    ensures
        place_of(panes, path, i) == Some(at),
    decreases at - i,
{
    if i < at {
        lemma_place_of(panes, path, i + 1, at);
    }
}

proof fn lemma_place_found(panes: Seq<LeafView>, path: Seq<usize>, i: int)
    requires
        0 <= i,
    ensures
        place_of(panes, path, i) matches Some(at) ==> i <= at < panes.len() && panes[at].path == path,
    decreases panes.len() - i,
{
    if i < panes.len() && panes[i].path != path {
        lemma_place_found(panes, path, i + 1);
    }
}

/// Going to the next pane and back, or back and to the next, ends at the pane where it
/// began.
pub proof fn cycling_back_returns(root: Node, path: Seq<usize>, forward: bool)
    requires
        fits(root),
        place_of(panes_of(root), path, 0) is Some,
    ensures
        ({
            let panes = panes_of(root);
            let n = panes.len() as int;
            let at = place_of(panes, path, 0)->0;
            let to = neighbour(at, n, forward);
            place_of(panes, panes[to].path, 0) == Some(to) && panes[neighbour(to, n, !forward)].path == path
        }),
{
    let panes = panes_of(root);
    let n = panes.len() as int;
    lemma_place_found(panes, path, 0);
    let at = place_of(panes, path, 0)->0;
    let to = neighbour(at, n, forward);
    assert(0 <= to < n && neighbour(to, n, !forward) == at) by {
        if forward {
            if at + 1 == n {
                assert((at + 1) % n == 0) by (nonlinear_arith)
                    requires
                        at + 1 == n,
                        n > 0,
                ;
                vstd::arithmetic::div_mod::lemma_small_mod((n - 1) as nat, n as nat);
            } else {
                vstd::arithmetic::div_mod::lemma_small_mod((at + 1) as nat, n as nat);
                vstd::arithmetic::div_mod::lemma_mod_add_multiples_vanish(at, n);
                vstd::arithmetic::div_mod::lemma_small_mod(at as nat, n as nat);
                assert((to + n - 1) == n + at);
            }
        } else if at == 0 {
            vstd::arithmetic::div_mod::lemma_small_mod((n - 1) as nat, n as nat);
            assert((to + 1) % n == 0) by (nonlinear_arith)
                requires
                    to + 1 == n,
                    n > 0,
            ;
        } else {
            vstd::arithmetic::div_mod::lemma_mod_add_multiples_vanish(at - 1, n);
            vstd::arithmetic::div_mod::lemma_small_mod((at - 1) as nat, n as nat);
            vstd::arithmetic::div_mod::lemma_small_mod(at as nat, n as nat);
            assert(at + n - 1 == n + (at - 1));
        }
    }
    assert forall|j: int| 0 <= j < n && j != to implies (#[trigger] panes[j]).path != panes[to].path by {
        if j < to {
            panes_have_their_own_ways(root, j, to);
        } else {
            panes_have_their_own_ways(root, to, j);
        }
    }
    lemma_place_of(panes, panes[to].path, 0, to);
}

/// Going back to the last pane twice ends at the pane where it began.
pub proof fn last_pane_twice_returns(active: Seq<usize>, last: Seq<usize>)
    requires
        active.len() > 0,
    ensures
        ({
            let (a, l) = after_last(active, last);
            after_last(a, l) == (active, last)
        }),
{
}

} // verus!
