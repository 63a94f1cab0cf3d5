//! The clients of a session and the size that they agree on.

use vstd::prelude::*;
use crate::text::{decimal, number_text, push_number, replace_text, replaced_text, same};

verus! {

/// The size that a client's terminal has.
#[derive(Clone, Copy, PartialEq, Eq, Structural, Debug)]
pub struct ClientSize {
    pub id: u64,
    pub width: u16,
    pub height: u16,
}

/// What is known of an attached client.
#[derive(Debug)]
pub struct ClientInfo {
    pub id: u64,
    pub width: u16,
    pub height: u16,
    pub tty: String,
    pub control: bool,
    /// When it was last heard of, in milliseconds.
    pub last_activity: u64,
}

/// The clients of a session.
pub struct Clients {
    /// The attached clients, by number.
    pub registry: Vec<ClientInfo>,
    /// The sizes that clients have reported, by number.
    pub sizes: Vec<ClientSize>,
    /// How many clients are attached.
    pub attached: usize,
    /// The client that was active last.
    pub latest: Option<u64>,
    /// Whether a client awaits the key after the prefix.
    pub prefix_active: bool,
    /// The width and height of the session's windows.
    pub area: (u16, u16),
}

/// How the size of the windows follows from those of the clients.
#[derive(Clone, Copy, PartialEq, Eq, Structural, Debug)]
pub enum SizePolicy {
    Smallest,
    Largest,
    Latest,
}

/// The policy that a name means.
pub fn size_policy(name: &str) -> (p: SizePolicy)
    ensures
        p == (if name@ == "smallest"@ {
            SizePolicy::Smallest
        } else if name@ == "largest"@ {
            SizePolicy::Largest
        } else {
            SizePolicy::Latest
        }),
{
    if same(name, "smallest") {
        SizePolicy::Smallest
    } else if same(name, "largest") {
        SizePolicy::Largest
    } else {
        SizePolicy::Latest
    }
}

/// Whether sizes are in the order of their clients' numbers, each once.
pub open spec fn sizes_sorted(s: Seq<ClientSize>) -> bool {
    forall|i: int, j: int| 0 <= i < j < s.len() ==> (#[trigger] s[i]).id < (#[trigger] s[j]).id
}

/// Whether clients are in the order of their numbers, each once.
pub open spec fn registry_sorted(s: Seq<ClientInfo>) -> bool {
    forall|i: int, j: int| 0 <= i < j < s.len() ==> (#[trigger] s[i]).id < (#[trigger] s[j]).id
}

/// Whether a client is among the attached ones.
pub open spec fn registered(s: Seq<ClientInfo>, id: u64) -> bool {
    exists|i: int| 0 <= i < s.len() && (#[trigger] s[i]).id == id
}

/// Whether `w` and `h` are the least width and the least height.
pub open spec fn is_smallest(s: Seq<ClientSize>, w: u16, h: u16) -> bool {
    &&& forall|i: int| 0 <= i < s.len() ==> w <= (#[trigger] s[i]).width && h <= s[i].height
    &&& exists|i: int| 0 <= i < s.len() && (#[trigger] s[i]).width == w
    &&& exists|i: int| 0 <= i < s.len() && (#[trigger] s[i]).height == h
}

/// Whether `w` and `h` are the greatest width and the greatest height.
pub open spec fn is_largest(s: Seq<ClientSize>, w: u16, h: u16) -> bool {
    &&& forall|i: int| 0 <= i < s.len() ==> w >= (#[trigger] s[i]).width && h >= s[i].height
    &&& exists|i: int| 0 <= i < s.len() && (#[trigger] s[i]).width == w
    &&& exists|i: int| 0 <= i < s.len() && (#[trigger] s[i]).height == h
}

/// Whether a client with this number has reported a size.
pub open spec fn has_size(s: Seq<ClientSize>, id: u64) -> bool {
    exists|i: int| 0 <= i < s.len() && (#[trigger] s[i]).id == id
}

/// Whether the clients' sizes come to `w` and `h` under a policy. The size of the
/// client that was active last counts alone where it is known.
pub open spec fn is_effective(
    s: Seq<ClientSize>,
    policy: SizePolicy,
    latest: Option<u64>,
    w: u16,
    h: u16,
) -> bool {
    match policy {
        SizePolicy::Smallest => is_smallest(s, w, h),
        SizePolicy::Largest => is_largest(s, w, h),
        SizePolicy::Latest => if latest is Some && has_size(s, latest->0) {
            s.contains(ClientSize { id: latest->0, width: w, height: h })
        } else {
            is_smallest(s, w, h)
        },
    }
}

fn smallest(s: &Vec<ClientSize>) -> (r: (u16, u16))
    requires
        s.len() > 0,
    ensures
        is_smallest(s@, r.0, r.1),
{
    let mut w: u16 = s[0].width;
    let mut h: u16 = s[0].height;
    let mut i: usize = 1;
    while i < s.len()
        invariant
            1 <= i <= s.len(),
            forall|k: int| 0 <= k < i ==> w <= (#[trigger] s@[k]).width && h <= s@[k].height,
            exists|k: int| 0 <= k < i && (#[trigger] s@[k]).width == w,
            exists|k: int| 0 <= k < i && (#[trigger] s@[k]).height == h,
        decreases s.len() - i,
    {
        let c: ClientSize = s[i];
        if c.width < w {
            w = c.width;
        }
        if c.height < h {
            h = c.height;
        }
        i += 1;
    }
    (w, h)
}

fn largest(s: &Vec<ClientSize>) -> (r: (u16, u16))
    requires
        s.len() > 0,
    ensures
        is_largest(s@, r.0, r.1),
{
    let mut w: u16 = s[0].width;
    let mut h: u16 = s[0].height;
    let mut i: usize = 1;
    while i < s.len()
        invariant
            1 <= i <= s.len(),
            forall|k: int| 0 <= k < i ==> w >= (#[trigger] s@[k]).width && h >= s@[k].height,
            exists|k: int| 0 <= k < i && (#[trigger] s@[k]).width == w,
            exists|k: int| 0 <= k < i && (#[trigger] s@[k]).height == h,
        decreases s.len() - i,
    {
        let c: ClientSize = s[i];
        if c.width > w {
            w = c.width;
        }
        if c.height > h {
            h = c.height;
        }
        i += 1;
    }
    (w, h)
}

/// The size that the clients' sizes come to; none where none is known.
pub fn compute_effective_client_size(
    sizes: &Vec<ClientSize>,
    policy: SizePolicy,
    latest: Option<u64>,
) -> (r: Option<(u16, u16)>)
    ensures
        r is None <==> sizes@.len() == 0,
        r matches Some((w, h)) ==> is_effective(sizes@, policy, latest, w, h),
{
    if sizes.len() == 0 {
        return None;
    }
    match policy {
        SizePolicy::Smallest => Some(smallest(sizes)),
        SizePolicy::Largest => Some(largest(sizes)),
        SizePolicy::Latest => {
            if let Some(id) = latest {
                let mut i: usize = 0;
                while i < sizes.len()
                    invariant
                        i <= sizes.len(),
                        policy is Latest,
                        latest == Some(id),
                        forall|k: int| 0 <= k < i ==> (#[trigger] sizes@[k]).id != id,
                    decreases sizes.len() - i,
                {
                    let c: ClientSize = sizes[i];
                    if c.id == id {
                        assert(sizes@.contains(c));
                        return Some((c.width, c.height));
                    }
                    i += 1;
                }
            }
            Some(smallest(sizes))
        },
    }
}

/// There is one size at most that distinct clients' sizes come to.
pub proof fn effective_size_is_unique(
    s: Seq<ClientSize>,
    policy: SizePolicy,
    latest: Option<u64>,
    a: (u16, u16),
    b: (u16, u16),
)
    requires
        sizes_sorted(s),
        is_effective(s, policy, latest, a.0, a.1),
        is_effective(s, policy, latest, b.0, b.1),
    ensures
        a == b,
{
    if policy is Latest && latest is Some && has_size(s, latest->0) {
        let x = ClientSize { id: latest->0, width: a.0, height: a.1 };
        let y = ClientSize { id: latest->0, width: b.0, height: b.1 };
        let i = choose|i: int| 0 <= i < s.len() && s[i] == x;
        let j = choose|j: int| 0 <= j < s.len() && s[j] == y;
        assert(s[i].id == s[j].id);
        assert(i == j);
    } else {
        let i = choose|i: int| 0 <= i < s.len() && (#[trigger] s[i]).width == a.0;
        let j = choose|j: int| 0 <= j < s.len() && (#[trigger] s[j]).width == b.0;
        let k = choose|k: int| 0 <= k < s.len() && (#[trigger] s[k]).height == a.1;
        let m = choose|m: int| 0 <= m < s.len() && (#[trigger] s[m]).height == b.1;
        assert(a.0 == b.0 && a.1 == b.1);
    }
}

/// The sizes without a client's.
pub open spec fn sizes_without(s: Set<ClientSize>, id: u64) -> Set<ClientSize> {
    s.filter(|c: ClientSize| c.id != id)
}

/// Records a client's size in place of the one before.
fn put_size(sizes: &mut Vec<ClientSize>, c: ClientSize)
    requires
        sizes_sorted(old(sizes)@),
    ensures
        sizes_sorted(final(sizes)@),
        final(sizes)@.to_set() == sizes_without(old(sizes)@.to_set(), c.id).insert(c),
        final(sizes)@.len() > 0,
{
    let ghost before = sizes@;
    let mut i: usize = 0;
    while i < sizes.len() && sizes[i].id < c.id
        invariant
            i <= sizes.len(),
            sizes@ == before,
            before == old(sizes)@,
            forall|k: int| 0 <= k < i ==> (#[trigger] before[k]).id < c.id,
        decreases sizes.len() - i,
    {
        i += 1;
    }
    if i < sizes.len() && sizes[i].id == c.id {
        sizes.set(i, c);
        proof {
            let after = sizes@;
            assert forall|x: ClientSize| after.to_set().contains(x) <==> sizes_without(
                before.to_set(),
                c.id,
            ).insert(c).contains(x) by {
                if after.to_set().contains(x) {
                    let k = choose|k: int| 0 <= k < after.len() && after[k] == x;
                    if k != i {
                        assert(before[k] == x);
                        assert(before[k].id != before[i as int].id);
                    }
                }
                if before.to_set().contains(x) && x.id != c.id {
                    let k = choose|k: int| 0 <= k < before.len() && before[k] == x;
                    assert(after[k] == x);
                }
                assert(after[i as int] == c);
            }
            assert(after.to_set() =~= sizes_without(before.to_set(), c.id).insert(c));
        }
    } else {
        sizes.insert(i, c);
        proof {
            let after = sizes@;
            assert(after == before.insert(i as int, c));
            assert forall|k: int| i <= k < before.len() implies (#[trigger] before[k]).id > c.id by {
                if k > i {
                    assert(before[i as int].id < before[k].id);
                }
            }
            assert forall|a: int, b: int| 0 <= a < b < after.len() implies (#[trigger] after[a]).id < (
            #[trigger] after[b]).id by {
                let x = if a < i {
                    a
                } else {
                    a - 1
                };
                let y = if b < i {
                    b
                } else {
                    b - 1
                };
                if a != i && b != i {
                    assert(after[a] == before[x] && after[b] == before[y]);
                }
            }
            assert forall|x: ClientSize| after.to_set().contains(x) <==> sizes_without(
                before.to_set(),
                c.id,
            ).insert(c).contains(x) by {
                if after.to_set().contains(x) {
                    let k = choose|k: int| 0 <= k < after.len() && after[k] == x;
                    if k < i {
                        assert(before[k] == x);
                    } else if k > i {
                        assert(before[k - 1] == x);
                    }
                }
                if before.to_set().contains(x) {
                    let k = choose|k: int| 0 <= k < before.len() && before[k] == x;
                    if k < i {
                        assert(after[k] == x);
                    } else {
                        assert(after[k + 1] == x);
                    }
                }
                assert(after[i as int] == c);
            }
            assert(after.to_set() =~= sizes_without(before.to_set(), c.id).insert(c));
        }
    }
}

/// Forgets a client's size.
fn drop_size(sizes: &mut Vec<ClientSize>, id: u64)
    requires
        sizes_sorted(old(sizes)@),
    ensures
        sizes_sorted(final(sizes)@),
        final(sizes)@.to_set() == sizes_without(old(sizes)@.to_set(), id),
{
    let ghost before = sizes@;
    let mut i: usize = 0;
    while i < sizes.len()
        invariant
            i <= sizes.len(),
            sizes@ == before,
            before == old(sizes)@,
            sizes_sorted(before),
            forall|k: int| 0 <= k < i ==> (#[trigger] before[k]).id != id,
        decreases sizes.len() - i,
    {
        if sizes[i].id == id {
            sizes.remove(i);
            proof {
                let after = sizes@;
                assert(after == before.remove(i as int));
                assert forall|a: int, b: int| 0 <= a < b < after.len() implies (
                #[trigger] after[a]).id < (#[trigger] after[b]).id by {
                    let x = if a < i {
                        a
                    } else {
                        a + 1
                    };
                    let y = if b < i {
                        b
                    } else {
                        b + 1
                    };
                    assert(after[a] == before[x] && after[b] == before[y]);
                }
                assert forall|x: ClientSize| after.to_set().contains(x) <==> sizes_without(
                    before.to_set(),
                    id,
                ).contains(x) by {
                    if after.to_set().contains(x) {
                        let k = choose|k: int| 0 <= k < after.len() && after[k] == x;
                        let n = if k < i {
                            k
                        } else {
                            k + 1
                        };
                        assert(before[n] == x);
                        assert(before[i as int].id == id);
                    }
                    if before.to_set().contains(x) && x.id != id {
                        let k = choose|k: int| 0 <= k < before.len() && before[k] == x;
                        if k < i {
                            assert(after[k] == x);
                        } else {
                            assert(after[k - 1] == x);
                        }
                    }
                }
                assert(after.to_set() =~= sizes_without(before.to_set(), id));
            }
            return;
        }
        i += 1;
    }
    proof {
        assert forall|x: ClientSize| before.to_set().contains(x) implies x.id != id by {
            let k = choose|k: int| 0 <= k < before.len() && before[k] == x;
            assert(before[k].id != id);
        }
        assert(before.to_set() =~= sizes_without(before.to_set(), id));
    }
}

/// The attached clients without one.
pub open spec fn registry_without(s: Set<ClientInfo>, id: u64) -> Set<ClientInfo> {
    s.filter(|c: ClientInfo| c.id != id)
}

/// Removes a client from the attached ones; whether it was among them.
fn unregister(registry: &mut Vec<ClientInfo>, id: u64) -> (r: bool)
    requires
        registry_sorted(old(registry)@),
    ensures
        registry_sorted(final(registry)@),
        r == registered(old(registry)@, id),
        final(registry)@.to_set() == registry_without(old(registry)@.to_set(), id),
        final(registry)@.len() == old(registry)@.len() - (if r {
            1int
        } else {
            0
        }),
{
    let ghost before = registry@;
    let mut i: usize = 0;
    while i < registry.len()
        invariant
            i <= registry.len(),
            registry@ == before,
            before == old(registry)@,
            registry_sorted(before),
            forall|k: int| 0 <= k < i ==> (#[trigger] before[k]).id != id,
        decreases registry.len() - i,
    {
        if registry[i].id == id {
            registry.remove(i);
            proof {
                let after = registry@;
                assert(after == before.remove(i as int));
                assert(before[i as int].id == id);
                assert forall|a: int, b: int| 0 <= a < b < after.len() implies (
                #[trigger] after[a]).id < (#[trigger] after[b]).id by {
                    let x = if a < i {
                        a
                    } else {
                        a + 1
                    };
                    let y = if b < i {
                        b
                    } else {
                        b + 1
                    };
                    assert(after[a] == before[x] && after[b] == before[y]);
                }
                assert forall|x: ClientInfo| after.to_set().contains(x) <==> registry_without(
                    before.to_set(),
                    id,
                ).contains(x) by {
                    if after.to_set().contains(x) {
                        let k = choose|k: int| 0 <= k < after.len() && after[k] == x;
                        let n = if k < i {
                            k
                        } else {
                            k + 1
                        };
                        assert(before[n] == x);
                    }
                    if before.to_set().contains(x) && x.id != id {
                        let k = choose|k: int| 0 <= k < before.len() && before[k] == x;
                        if k < i {
                            assert(after[k] == x);
                        } else {
                            assert(after[k - 1] == x);
                        }
                    }
                }
                assert(after.to_set() =~= registry_without(before.to_set(), id));
            }
            return true;
        }
        i += 1;
    }
    proof {
        assert forall|x: ClientInfo| before.to_set().contains(x) implies x.id != id by {
            let k = choose|k: int| 0 <= k < before.len() && before[k] == x;
            assert(before[k].id != id);
        }
        assert(before.to_set() =~= registry_without(before.to_set(), id));
    }
    false
}

/// The terminal name of a client.
pub open spec fn tty_name(id: u64) -> Seq<char> {
    "/dev/pts/"@ + decimal(id as nat)
}

/// The terminal name of a client.
pub fn tty_of(id: u64) -> (s: String)
    ensures
        s@ == tty_name(id),
{
    let mut s: String = "/dev/pts/".to_owned();
    push_number(&mut s, id);
    s
}

/// Adds a client to the attached ones unless it is among them.
fn register(registry: &mut Vec<ClientInfo>, id: u64, area: (u16, u16), control: bool, now: u64)
    requires
        registry_sorted(old(registry)@),
    ensures
        registry_sorted(final(registry)@),
        registered(old(registry)@, id) ==> final(registry)@ == old(registry)@,
        !registered(old(registry)@, id) ==> exists|c: ClientInfo|
            final(registry)@.to_set() == #[trigger] old(registry)@.to_set().insert(c) && c.id == id
                && c.width == area.0 && c.height == area.1 && c.tty@ == tty_name(id) && c.control == control
                && c.last_activity == now,
        final(registry)@.len() == old(registry)@.len() + (if registered(old(registry)@, id) {
            0int
        } else {
            1
        }),
{
    let ghost before = registry@;
    let mut i: usize = 0;
    while i < registry.len() && registry[i].id < id
        invariant
            i <= registry.len(),
            registry@ == before,
            before == old(registry)@,
            forall|k: int| 0 <= k < i ==> (#[trigger] before[k]).id < id,
        decreases registry.len() - i,
    {
        i += 1;
    }
    if i < registry.len() && registry[i].id == id {
        return;
    }
    assert(!registered(before, id)) by {
        if registered(before, id) {
            let k = choose|k: int| 0 <= k < before.len() && (#[trigger] before[k]).id == id;
            if k > i {
                assert(before[i as int].id < before[k].id);
            }
        }
    }
    let c = ClientInfo {
        id,
        width: area.0,
        height: area.1,
        tty: tty_of(id),
        control,
        last_activity: now,
    };
    let ghost g = c;
    registry.insert(i, c);
    proof {
        let after = registry@;
        assert(after == before.insert(i as int, g));
        assert forall|k: int| i <= k < before.len() implies (#[trigger] before[k]).id > id by {
            if k > i {
                assert(before[i as int].id < before[k].id);
            }
        }
        assert forall|a: int, b: int| 0 <= a < b < after.len() implies (#[trigger] after[a]).id < (
        #[trigger] after[b]).id by {
            let x = if a < i {
                a
            } else {
                a - 1
            };
            let y = if b < i {
                b
            } else {
                b - 1
            };
            if a != i && b != i {
                assert(after[a] == before[x] && after[b] == before[y]);
            }
        }
        assert forall|x: ClientInfo| after.to_set().contains(x) <==> before.to_set().insert(
            g,
        ).contains(x) by {
            if after.to_set().contains(x) {
                let k = choose|k: int| 0 <= k < after.len() && after[k] == x;
                if k < i {
                    assert(before[k] == x);
                } else if k > i {
                    assert(before[k - 1] == x);
                }
            }
            if before.to_set().contains(x) {
                let k = choose|k: int| 0 <= k < before.len() && before[k] == x;
                if k < i {
                    assert(after[k] == x);
                } else {
                    assert(after[k + 1] == x);
                }
            }
            assert(after[i as int] == g);
        }
        assert(after.to_set() =~= before.to_set().insert(g));
    }
}

/// Whether `new` is the windows' size that follows from the clients' sizes, or
/// still `old` where no size is known.
pub open spec fn area_follows(
    sizes: Seq<ClientSize>,
    policy: SizePolicy,
    latest: Option<u64>,
    old_area: (u16, u16),
    new_area: (u16, u16),
) -> bool {
    if sizes.len() == 0 {
        new_area == old_area
    } else {
        is_effective(sizes, policy, latest, new_area.0, new_area.1)
    }
}

/// The greatest number among the attached clients.
pub open spec fn greatest_id(s: Seq<ClientInfo>) -> Option<u64> {
    if s.len() == 0 {
        None
    } else {
        Some(s.last().id)
    }
}

/// The last of clients in order has the greatest number.
pub proof fn last_client_is_greatest(s: Seq<ClientInfo>, i: int)
    requires
        registry_sorted(s),
        0 <= i < s.len(),
    ensures
        s[i].id <= greatest_id(s)->0,
{
    if i < s.len() - 1 {
        assert(s[i].id < s[s.len() - 1].id);
    }
}

/// What detaching clients leads to.
#[derive(Clone, Copy, PartialEq, Eq, Structural, Debug)]
pub struct Detached {
    /// The windows' size was computed anew.
    pub resized: bool,
    /// The session ends: nobody is attached, and it does not outlive that.
    pub destroy: bool,
}

/// One less, but not less than none.
pub open spec fn one_less(n: usize) -> usize {
    if n == 0 {
        0
    } else {
        (n - 1) as usize
    }
}

impl Clients {
    /// What the clients always keep: both lists are in order, each client once.
    pub open spec fn wf(self) -> bool {
        sizes_sorted(self.sizes@) && registry_sorted(self.registry@)
    }

    /// No clients, and windows of the given size.
    pub fn new(width: u16, height: u16) -> (c: Clients)
        ensures
            c.wf(),
            c.registry@.len() == 0,
            c.sizes@.len() == 0,
            c.attached == 0,
            c.latest is None,
            !c.prefix_active,
            c.area == (width, height),
    {
        Clients {
            registry: Vec::new(),
            sizes: Vec::new(),
            attached: 0,
            latest: None,
            prefix_active: false,
            area: (width, height),
        }
    }

    fn recompute(&mut self, policy: SizePolicy) -> (r: bool)
        ensures
            final(self).registry == old(self).registry,
            final(self).sizes == old(self).sizes,
            final(self).attached == old(self).attached,
            final(self).latest == old(self).latest,
            final(self).prefix_active == old(self).prefix_active,
            r == (old(self).sizes@.len() > 0),
            area_follows(
                old(self).sizes@,
                policy,
                old(self).latest,
                old(self).area,
                final(self).area,
            ),
    {
        match compute_effective_client_size(&self.sizes, policy, self.latest) {
            Some((w, h)) => {
                self.area = (w, h);
                true
            },
            None => false,
        }
    }

    /// A client attaches: it is counted, it is the latest, and it is registered
    /// with the windows' size unless it was before.
    pub fn attach(&mut self, id: u64, now: u64)
        requires
            old(self).wf(),
        ensures
            final(self).wf(),
            final(self).attached == (if old(self).attached == usize::MAX {
                usize::MAX
            } else {
                (old(self).attached + 1) as usize
            }),
            final(self).latest == Some(id),
            final(self).sizes == old(self).sizes,
            final(self).prefix_active == old(self).prefix_active,
            final(self).area == old(self).area,
            registered(old(self).registry@, id) ==> final(self).registry@ == old(self).registry@,
            !registered(old(self).registry@, id) ==> exists|c: ClientInfo|
                final(self).registry@.to_set() == #[trigger] old(self).registry@.to_set().insert(c)
                    && c.id == id && c.width == old(self).area.0 && c.height == old(self).area.1
                    && c.tty@ == tty_name(id) && !c.control && c.last_activity == now,
    {
        self.attached = self.attached.saturating_add(1);
        self.latest = Some(id);
        register(&mut self.registry, id, self.area, false, now);
    }

    /// A client detaches: everything that is known of it is forgotten.
    pub fn detach(&mut self, id: u64, policy: SizePolicy, destroy_unattached: bool) -> (r: Detached)
        requires
            old(self).wf(),
        ensures
            final(self).wf(),
            final(self).attached == one_less(old(self).attached),
            final(self).sizes@.to_set() == sizes_without(old(self).sizes@.to_set(), id),
            final(self).registry@.to_set() == registry_without(old(self).registry@.to_set(), id),
            !final(self).prefix_active,
            final(self).latest == (if old(self).latest == Some(id) {
                None
            } else {
                old(self).latest
            }),
            area_follows(
                final(self).sizes@,
                policy,
                final(self).latest,
                old(self).area,
                final(self).area,
            ),
            r.resized == (final(self).sizes@.len() > 0),
            r.destroy == (final(self).attached == 0 && destroy_unattached),
    {
        self.attached = self.attached.saturating_sub(1);
        drop_size(&mut self.sizes, id);
        unregister(&mut self.registry, id);
        self.prefix_active = false;
        if let Some(l) = self.latest {
            if l == id {
                self.latest = None;
            }
        }
        let resized: bool = self.recompute(policy);
        Detached { resized, destroy: self.attached == 0 && destroy_unattached }
    }

    /// A client in control mode attaches: it is counted, and registered as such with the
    /// windows' size.
    pub fn register_control(&mut self, id: u64, now: u64)
        requires
            old(self).wf(),
        ensures
            final(self).wf(),
            final(self).attached == (if old(self).attached == usize::MAX {
                usize::MAX
            } else {
                (old(self).attached + 1) as usize
            }),
            final(self).latest == old(self).latest,
            final(self).sizes == old(self).sizes,
            final(self).prefix_active == old(self).prefix_active,
            final(self).area == old(self).area,
            exists|c: ClientInfo|
                final(self).registry@.to_set() == #[trigger] registry_without(
                    old(self).registry@.to_set(),
                    id,
                ).insert(c) && c.id == id && c.width == old(self).area.0 && c.height == old(self).area.1
                    && c.tty@ == tty_name(id) && c.control && c.last_activity == now,
    {
        self.attached = self.attached.saturating_add(1);
        unregister(&mut self.registry, id);
        let ghost between = self.registry@;
        assert(!registered(between, id)) by {
            if registered(between, id) {
                let k = choose|k: int| 0 <= k < between.len() && (#[trigger] between[k]).id == id;
                assert(between.to_set().contains(between[k]));
            }
        }
        register(&mut self.registry, id, self.area, true, now);
    }

    /// A client in control mode detaches.
    pub fn deregister_control(&mut self, id: u64)
        requires
            old(self).wf(),
        ensures
            final(self).wf(),
            final(self).attached == one_less(old(self).attached),
            final(self).registry@.to_set() == registry_without(old(self).registry@.to_set(), id),
            final(self).latest == old(self).latest,
            final(self).sizes == old(self).sizes,
            final(self).prefix_active == old(self).prefix_active,
            final(self).area == old(self).area,
    {
        unregister(&mut self.registry, id);
        self.attached = self.attached.saturating_sub(1);
    }

    /// A client is detached by force: it is counted out only if it was registered,
    /// and the registered client with the greatest number becomes the latest in
    /// its place.
    pub fn force_detach(&mut self, id: u64, policy: SizePolicy, destroy_unattached: bool) -> (r:
        Detached)
        requires
            old(self).wf(),
        ensures
            final(self).wf(),
            final(self).attached == (if registered(old(self).registry@, id) {
                one_less(old(self).attached)
            } else {
                old(self).attached
            }),
            final(self).sizes@.to_set() == sizes_without(old(self).sizes@.to_set(), id),
            final(self).registry@.to_set() == registry_without(old(self).registry@.to_set(), id),
            final(self).prefix_active == old(self).prefix_active,
            final(self).latest == (if old(self).latest == Some(id) {
                greatest_id(final(self).registry@)
            } else {
                old(self).latest
            }),
            area_follows(
                final(self).sizes@,
                policy,
                final(self).latest,
                old(self).area,
                final(self).area,
            ),
            r.resized == (final(self).sizes@.len() > 0),
            r.destroy == (final(self).attached == 0 && destroy_unattached),
    {
        drop_size(&mut self.sizes, id);
        if unregister(&mut self.registry, id) {
            self.attached = self.attached.saturating_sub(1);
        }
        if let Some(l) = self.latest {
            if l == id {
                self.latest = self.greatest();
            }
        }
        let resized: bool = self.recompute(policy);
        Detached { resized, destroy: self.attached == 0 && destroy_unattached }
    }

    fn greatest(&self) -> (r: Option<u64>)
        ensures
            r == greatest_id(self.registry@),
    {
        if self.registry.len() == 0 {
            None
        } else {
            Some(self.registry[self.registry.len() - 1].id)
        }
    }

    /// A client reports its size and is the latest from then on.
    pub fn resize(&mut self, id: u64, width: u16, height: u16, policy: SizePolicy, now: u64)
        requires
            old(self).wf(),
        ensures
            final(self).wf(),
            final(self).latest == Some(id),
            final(self).attached == old(self).attached,
            final(self).prefix_active == old(self).prefix_active,
            final(self).sizes@.to_set() == sizes_without(old(self).sizes@.to_set(), id).insert(
                ClientSize { id, width, height },
            ),
            is_effective(
                final(self).sizes@,
                policy,
                Some(id),
                final(self).area.0,
                final(self).area.1,
            ),
            final(self).registry@.len() == old(self).registry@.len(),
            forall|i: int|
                0 <= i < old(self).registry@.len() ==> (#[trigger] final(self).registry@[i]).id
                    == old(self).registry@[i].id && final(self).registry@[i].tty
                    == old(self).registry@[i].tty && final(self).registry@[i].control
                    == old(self).registry@[i].control && (if old(self).registry@[i].id == id {
                    final(self).registry@[i].width == width && final(self).registry@[i].height
                        == height && final(self).registry@[i].last_activity == now
                } else {
                    final(self).registry@[i] == old(self).registry@[i]
                }),
    {
        put_size(&mut self.sizes, ClientSize { id, width, height });
        self.latest = Some(id);
        let ghost before = self.registry@;
        let mut i: usize = 0;
        while i < self.registry.len()
            invariant
                i <= self.registry.len(),
                before == old(self).registry@,
                self.registry@.len() == before.len(),
                sizes_sorted(self.sizes@),
                self.sizes@.len() > 0,
                self.sizes@.to_set() == sizes_without(old(self).sizes@.to_set(), id).insert(
                    ClientSize { id, width, height },
                ),
                self.latest == Some(id),
                self.attached == old(self).attached,
                self.prefix_active == old(self).prefix_active,
                self.area == old(self).area,
                forall|k: int|
                    i <= k < before.len() ==> (#[trigger] self.registry@[k]) == before[k],
                forall|k: int|
                    0 <= k < i ==> (#[trigger] self.registry@[k]).id == before[k].id
                        && self.registry@[k].tty == before[k].tty && self.registry@[k].control
                        == before[k].control && (if before[k].id == id {
                        self.registry@[k].width == width && self.registry@[k].height == height
                            && self.registry@[k].last_activity == now
                    } else {
                        self.registry@[k] == before[k]
                    }),
            decreases self.registry.len() - i,
        {
            if self.registry[i].id == id {
                let old_info = self.registry.remove(i);
                let info = ClientInfo {
                    id: old_info.id,
                    width,
                    height,
                    tty: old_info.tty,
                    control: old_info.control,
                    last_activity: now,
                };
                self.registry.insert(i, info);
            }
            i += 1;
        }
        assert(registry_sorted(self.registry@)) by {
            let r = self.registry@;
            assert forall|a: int, b: int| 0 <= a < b < r.len() implies (#[trigger] r[a]).id < (
            #[trigger] r[b]).id by {
                assert(before[a].id < before[b].id);
            }
        }
        self.recompute(policy);
    }

    /// A mouse event of a client makes it the latest, where the mouse is in use.
    pub fn mouse(&mut self, id: u64, mouse_enabled: bool) -> (r: bool)
        ensures
            r == mouse_enabled,
            final(self).latest == (if mouse_enabled {
                Some(id)
            } else {
                old(self).latest
            }),
            final(self).registry == old(self).registry,
            final(self).sizes == old(self).sizes,
            final(self).attached == old(self).attached,
            final(self).prefix_active == old(self).prefix_active,
            final(self).area == old(self).area,
    {
        if mouse_enabled {
            self.latest = Some(id);
        }
        mouse_enabled
    }

    /// The first attached client with a terminal name.
    pub fn client_at_tty(&self, tty: &str) -> (r: Option<u64>)
        ensures
            r matches Some(id) ==> exists|i: int|
                0 <= i < self.registry@.len() && (#[trigger] self.registry@[i]).id == id
                    && self.registry@[i].tty@ == tty@ && forall|k: int|
                    0 <= k < i ==> (#[trigger] self.registry@[k]).tty@ != tty@,
            r is None ==> forall|i: int|
                0 <= i < self.registry@.len() ==> (#[trigger] self.registry@[i]).tty@ != tty@,
    {
        let mut i: usize = 0;
        while i < self.registry.len()
            invariant
                i <= self.registry.len(),
                forall|k: int| 0 <= k < i ==> (#[trigger] self.registry@[k]).tty@ != tty@,
            decreases self.registry.len() - i,
        {
            if same(self.registry[i].tty.as_str(), tty) {
                return Some(self.registry[i].id);
            }
            i += 1;
        }
        None
    }

    /// The attached clients, but for one, in order.
    pub fn others(&self, except: Option<u64>) -> (r: Vec<u64>)
        ensures
            r@ == ids_but(self.registry@, except),
    {
        let mut r: Vec<u64> = Vec::new();
        let mut i: usize = 0;
        while i < self.registry.len()
            invariant
                i <= self.registry.len(),
                r@ == ids_but(self.registry@.take(i as int), except),
            decreases self.registry.len() - i,
        {
            let id: u64 = self.registry[i].id;
            assert(self.registry@.take(i + 1).drop_last() =~= self.registry@.take(i as int));
            let spared: bool = match except {
                Some(e) => e == id,
                None => false,
            };
            if !spared {
                r.push(id);
            }
            i += 1;
        }
        assert(self.registry@.take(self.registry.len() as int) =~= self.registry@);
        r
    }

    /// Every attached client is detached by force, but for one: all of them are
    /// forgotten, and each is counted out. Where that one is left and the latest
    /// is gone, the greatest number that is left becomes the latest; where none is
    /// spared, there is no latest, and no key after the prefix is awaited.
    pub fn detach_others(
        &mut self,
        except: Option<u64>,
        policy: SizePolicy,
        destroy_unattached: bool,
    ) -> (r: (Vec<u64>, Detached))
        requires
            old(self).wf(),
        ensures
            final(self).wf(),
            r.0@ == ids_but(old(self).registry@, except),
            final(self).attached == less_by(old(self).attached, r.0@.len()),
            final(self).sizes@.to_set() == old(self).sizes@.to_set().filter(
                |c: ClientSize| !r.0@.contains(c.id),
            ),
            final(self).registry@.to_set() == old(self).registry@.to_set().filter(
                |c: ClientInfo| !r.0@.contains(c.id),
            ),
            r.0@.len() == 0 ==> final(self).latest == old(self).latest && final(self).prefix_active
                == old(self).prefix_active && final(self).area == old(self).area
                && !r.1.resized,
            r.0@.len() > 0 ==> {
                &&& final(self).latest == (if except is None {
                    None
                } else if old(self).latest is Some && !registered(
                    final(self).registry@,
                    old(self).latest->0,
                ) {
                    greatest_id(final(self).registry@)
                } else {
                    old(self).latest
                })
                &&& final(self).prefix_active == (except is Some && old(self).prefix_active)
                &&& area_follows(
                    final(self).sizes@,
                    policy,
                    final(self).latest,
                    old(self).area,
                    final(self).area,
                )
                &&& r.1.resized == (final(self).sizes@.len() > 0)
            },
            r.1.destroy == (final(self).attached == 0 && destroy_unattached),
    {
        let targets = self.others(except);
        let mut i: usize = 0;
        assert(self.sizes@.to_set() =~= old(self).sizes@.to_set().filter(
            |c: ClientSize| !targets@.take(0).contains(c.id),
        ));
        assert(self.registry@.to_set() =~= old(self).registry@.to_set().filter(
            |c: ClientInfo| !targets@.take(0).contains(c.id),
        ));
        proof {
            lemma_ids_but(old(self).registry@, except);
        }
        while i < targets.len()
            invariant
                i <= targets.len(),
                self.wf(),
                targets@ == ids_but(old(self).registry@, except),
                targets@.no_duplicates(),
                forall|k: int|
                    0 <= k < targets@.len() ==> registered(
                        old(self).registry@,
                        #[trigger] targets@[k],
                    ),
                self.latest == old(self).latest,
                self.prefix_active == old(self).prefix_active,
                self.area == old(self).area,
                self.attached == less_by(old(self).attached, i as nat),
                self.sizes@.to_set() == old(self).sizes@.to_set().filter(
                    |c: ClientSize| !targets@.take(i as int).contains(c.id),
                ),
                self.registry@.to_set() == old(self).registry@.to_set().filter(
                    |c: ClientInfo| !targets@.take(i as int).contains(c.id),
                ),
            decreases targets.len() - i,
        {
            let id: u64 = targets[i];
            let ghost sizes_before = self.sizes@.to_set();
            let ghost registry_before = self.registry@;
            proof {
                assert(registered(old(self).registry@, id));
                let k = choose|k: int|
                    0 <= k < old(self).registry@.len() && (#[trigger] old(self).registry@[k]).id
                        == id;
                let c = old(self).registry@[k];
                assert(old(self).registry@.to_set().contains(c));
                assert(!targets@.take(i as int).contains(id)) by {
                    if targets@.take(i as int).contains(id) {
                        let m = choose|m: int|
                            0 <= m < targets@.take(i as int).len() && targets@.take(i as int)[m]
                                == id;
                        assert(targets@[m] == targets@[i as int]);
                    }
                }
                assert(registry_before.to_set().contains(c));
                let n = choose|n: int| 0 <= n < registry_before.len() && registry_before[n] == c;
                assert(registry_before[n].id == id);
            }
            drop_size(&mut self.sizes, id);
            if unregister(&mut self.registry, id) {
                self.attached = self.attached.saturating_sub(1);
            }
            proof {
                let next = targets@.take(i + 1);
                assert(next =~= targets@.take(i as int).push(id));
                assert forall|x: u64| next.contains(x) <==> targets@.take(i as int).contains(x) || x
                    == id by {
                    if targets@.take(i as int).contains(x) {
                        let m = choose|m: int|
                            0 <= m < targets@.take(i as int).len() && targets@.take(i as int)[m]
                                == x;
                        assert(next[m] == x);
                    }
                    if next.contains(x) {
                        let m = choose|m: int| 0 <= m < next.len() && next[m] == x;
                        if m < i {
                            assert(targets@.take(i as int)[m] == x);
                        }
                    }
                    assert(next[i as int] == id);
                }
                assert(self.sizes@.to_set() =~= old(self).sizes@.to_set().filter(
                    |c: ClientSize| !next.contains(c.id),
                ));
                assert(self.registry@.to_set() =~= old(self).registry@.to_set().filter(
                    |c: ClientInfo| !next.contains(c.id),
                ));
            }
            i += 1;
        }
        assert(targets@.take(targets.len() as int) =~= targets@);
        let mut resized: bool = false;
        if targets.len() > 0 {
            if except.is_none() {
                self.latest = None;
                self.prefix_active = false;
            } else if let Some(l) = self.latest {
                if !self.is_registered(l) {
                    self.latest = self.greatest();
                }
            }
            resized = self.recompute(policy);
        }
        let destroy: bool = self.attached == 0 && destroy_unattached;
        (targets, Detached { resized, destroy })
    }

    fn is_registered(&self, id: u64) -> (r: bool)
        ensures
            r == registered(self.registry@, id),
    {
        let mut i: usize = 0;
        while i < self.registry.len()
            invariant
                i <= self.registry.len(),
                forall|k: int| 0 <= k < i ==> (#[trigger] self.registry@[k]).id != id,
            decreases self.registry.len() - i,
        {
            if self.registry[i].id == id {
                return true;
            }
            i += 1;
        }
        false
    }
}

/// So many less, but not less than none.
pub open spec fn less_by(n: usize, k: nat) -> usize {
    if n <= k {
        0
    } else {
        (n - k) as usize
    }
}

/// The numbers of the clients but for one.
pub open spec fn ids_but(s: Seq<ClientInfo>, except: Option<u64>) -> Seq<u64>
    decreases s.len(),
{
    if s.len() == 0 {
        Seq::empty()
    } else if except == Some(s.last().id) {
        ids_but(s.drop_last(), except)
    } else {
        ids_but(s.drop_last(), except).push(s.last().id)
    }
}

proof fn lemma_ids_but(s: Seq<ClientInfo>, except: Option<u64>)
    requires
        registry_sorted(s),
    ensures
        ids_but(s, except).no_duplicates(),
        forall|k: int|
            0 <= k < ids_but(s, except).len() ==> registered(s, #[trigger] ids_but(s, except)[k]),
    decreases s.len(),
{
    if s.len() > 0 {
        let front = s.drop_last();
        lemma_ids_but(front, except);
        let a = ids_but(front, except);
        let b = ids_but(s, except);
        assert forall|k: int| 0 <= k < a.len() implies registered(s, #[trigger] a[k]) && a[k]
            < s.last().id by {
            assert(registered(front, a[k]));
            let j = choose|j: int| 0 <= j < front.len() && (#[trigger] front[j]).id == a[k];
            assert(s[j].id == a[k]);
            assert(s[j].id < s[s.len() - 1].id);
        }
        assert(registered(s, s.last().id)) by {
            assert(s[s.len() - 1].id == s.last().id);
        }
        if except != Some(s.last().id) {
            assert(b == a.push(s.last().id));
            assert forall|k: int| 0 <= k < b.len() implies registered(s, #[trigger] b[k]) by {
                if k < a.len() {
                    assert(b[k] == a[k]);
                }
            }
        }
    }
}

/// Detaching a client that had just attached leaves the registered clients as they were
/// before.
pub proof fn detaching_undoes_attaching(registry: Set<ClientInfo>, c: ClientInfo)
    requires
        forall|x: ClientInfo| registry.contains(x) ==> x.id != c.id,
    ensures
        registry_without(registry.insert(c), c.id) == registry,
{
    assert(registry_without(registry.insert(c), c.id) =~= registry);
}

/// How long ago a client was heard of, in whole seconds.
pub open spec fn idle_seconds(c: ClientInfo, now: u64) -> nat {
    if now < c.last_activity {
        0
    } else {
        ((now - c.last_activity) / 1000) as nat
    }
}

/// The line of a client.
pub open spec fn client_line(c: ClientInfo, session: Seq<char>, window: Seq<char>, now: u64) -> Seq<char> {
    c.tty@ + ": "@ + session + ": "@ + window + " ["@ + decimal(c.width as nat) + "x"@ + decimal(
        c.height as nat,
    ) + "] (utf8)"@ + (if c.control {
        " (control mode)"@
    } else {
        ""@
    }) + " [activity="@ + decimal(idle_seconds(c, now)) + "s ago]\n"@
}

/// The lines of clients.
pub open spec fn client_lines(
    registry: Seq<ClientInfo>,
    session: Seq<char>,
    window: Seq<char>,
    now: u64,
) -> Seq<char>
    decreases registry.len(),
{
    if registry.len() == 0 {
        Seq::empty()
    } else {
        client_lines(registry.drop_last(), session, window, now) + client_line(
            registry.last(),
            session,
            window,
            now,
        )
    }
}

/// The line of a session that no client is registered with.
pub open spec fn no_client_line(area: (u16, u16), session: Seq<char>, window: Seq<char>) -> Seq<char> {
    "/dev/pts/0: "@ + session + ": "@ + window + " ["@ + decimal(area.0 as nat) + "x"@ + decimal(
        area.1 as nat,
    ) + "] (utf8)\n"@
}

/// A format with the names of a client's properties replaced by their values.
pub open spec fn client_format(c: ClientInfo, format: Seq<char>, session: Seq<char>, now: u64) -> Seq<char> {
    let s1 = replaced_text(format, "#{client_name}"@, c.tty@);
    let s2 = replaced_text(s1, "#{client_tty}"@, c.tty@);
    let s3 = replaced_text(s2, "#{client_width}"@, decimal(c.width as nat));
    let s4 = replaced_text(s3, "#{client_height}"@, decimal(c.height as nat));
    let s5 = replaced_text(s4, "#{client_activity}"@, decimal(idle_seconds(c, now)));
    let s6 = replaced_text(s5, "#{client_session}"@, session);
    let s7 = replaced_text(s6, "#{session_name}"@, session);
    replaced_text(
        s7,
        "#{client_control_mode}"@,
        if c.control {
            "1"@
        } else {
            "0"@
        },
    )
}

/// The formats of clients, one on each line.
pub open spec fn client_formats(
    registry: Seq<ClientInfo>,
    format: Seq<char>,
    session: Seq<char>,
    now: u64,
) -> Seq<char>
    decreases registry.len(),
{
    if registry.len() == 0 {
        Seq::empty()
    } else {
        client_formats(registry.drop_last(), format, session, now) + client_format(
            registry.last(),
            format,
            session,
            now,
        ) + "\n"@
    }
}

fn idle_of(c: &ClientInfo, now: u64) -> (r: u64)
    ensures
        r == idle_seconds(*c, now),
{
    if now < c.last_activity {
        0
    } else {
        (now - c.last_activity) / 1000
    }
}

fn line_of(c: &ClientInfo, session: &str, window: &str, now: u64) -> (line: String)
    ensures
        line@ == client_line(*c, session@, window@, now),
{
    let mut line = c.tty.clone();
    line.append(": ");
    line.append(session);
    line.append(": ");
    line.append(window);
    line.append(" [");
    push_number(&mut line, c.width as u64);
    line.append("x");
    push_number(&mut line, c.height as u64);
    line.append("] (utf8)");
    if c.control {
        line.append(" (control mode)");
    } else {
        line.append("");
    }
    line.append(" [activity=");
    push_number(&mut line, idle_of(c, now));
    line.append("s ago]\n");
    line
}

fn formatted(c: &ClientInfo, format: &str, session: &str, now: u64) -> (s: String)
    ensures
        s@ == client_format(*c, format@, session@, now),
{
    proof {
        reveal_strlit("#{client_name}");
        reveal_strlit("#{client_tty}");
        reveal_strlit("#{client_width}");
        reveal_strlit("#{client_height}");
        reveal_strlit("#{client_activity}");
        reveal_strlit("#{client_session}");
        reveal_strlit("#{session_name}");
        reveal_strlit("#{client_control_mode}");
    }
    let width = number_text(c.width as u64);
    let height = number_text(c.height as u64);
    let idle = number_text(idle_of(c, now));
    let s1 = replace_text(format, "#{client_name}", c.tty.as_str());
    let s2 = replace_text(s1.as_str(), "#{client_tty}", c.tty.as_str());
    let s3 = replace_text(s2.as_str(), "#{client_width}", width.as_str());
    let s4 = replace_text(s3.as_str(), "#{client_height}", height.as_str());
    let s5 = replace_text(s4.as_str(), "#{client_activity}", idle.as_str());
    let s6 = replace_text(s5.as_str(), "#{client_session}", session);
    let s7 = replace_text(s6.as_str(), "#{session_name}", session);
    if c.control {
        replace_text(s7.as_str(), "#{client_control_mode}", "1")
    } else {
        replace_text(s7.as_str(), "#{client_control_mode}", "0")
    }
}

impl Clients {
    /// Lists the clients, in the order of their numbers.
    pub fn list_clients(&self, session: &str, window: &str, now: u64) -> (r: String)
        ensures
            self.registry@.len() == 0 ==> r@ == no_client_line(self.area, session@, window@),
            self.registry@.len() > 0 ==> r@ == client_lines(self.registry@, session@, window@, now),
    {
        if self.registry.len() == 0 {
            let mut line = "/dev/pts/0: ".to_owned();
            line.append(session);
            line.append(": ");
            line.append(window);
            line.append(" [");
            push_number(&mut line, self.area.0 as u64);
            line.append("x");
            push_number(&mut line, self.area.1 as u64);
            line.append("] (utf8)\n");
            return line;
        }
        let mut out = String::new();
        let mut i: usize = 0;
        while i < self.registry.len()
            invariant
                i <= self.registry.len(),
                out@ == client_lines(self.registry@.take(i as int), session@, window@, now),
            decreases self.registry.len() - i,
        {
            let line = line_of(&self.registry[i], session, window, now);
            out.append(line.as_str());
            assert(self.registry@.take(i + 1).drop_last() =~= self.registry@.take(i as int));
            i += 1;
        }
        assert(self.registry@.take(i as int) =~= self.registry@);
        out
    }

    /// Lists the clients in a format, in the order of their numbers.
    pub fn list_clients_format(&self, format: &str, session: &str, now: u64) -> (r: String)
        ensures
            r@ == client_formats(self.registry@, format@, session@, now),
    {
        let mut out = String::new();
        let mut i: usize = 0;
        while i < self.registry.len()
            invariant
                i <= self.registry.len(),
                out@ == client_formats(self.registry@.take(i as int), format@, session@, now),
            decreases self.registry.len() - i,
        {
            let line = formatted(&self.registry[i], format, session, now);
            out.append(line.as_str());
            out.append("\n");
            assert(self.registry@.take(i + 1).drop_last() =~= self.registry@.take(i as int));
            i += 1;
        }
        assert(self.registry@.take(i as int) =~= self.registry@);
        out
    }
}

} // verus!
