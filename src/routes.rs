use vstd::prelude::*;

use crate::addr::{HostIp, Target};

verus! {

/// The map that a list of routes describes when they are taken in order and a
/// later route for a host replaces an earlier one.
pub open spec fn map_of(entries: Seq<(HostIp, Target)>) -> Map<HostIp, Target>
    decreases entries.len(),
{
    if entries.len() == 0 {
        Map::empty()
    } else {
        map_of(entries.drop_last()).insert(entries.last().0, entries.last().1)
    }
}

/// No host appears twice among the routes.
pub open spec fn keys_unique(entries: Seq<(HostIp, Target)>) -> bool {
    forall|i: int, j: int|
        0 <= i < entries.len() && 0 <= j < entries.len() && i != j ==> #[trigger] entries[i].0
            != #[trigger] entries[j].0
}

proof fn lemma_map_of_absent(entries: Seq<(HostIp, Target)>, k: HostIp)
    requires
        forall|i: int| 0 <= i < entries.len() ==> #[trigger] entries[i].0 != k,
    ensures
        !map_of(entries).contains_key(k),
    decreases entries.len(),
{
    if entries.len() > 0 {
        let init = entries.drop_last();
        assert forall|i: int| 0 <= i < init.len() implies #[trigger] init[i].0 != k by {
            assert(init[i] == entries[i]);
        }
        lemma_map_of_absent(init, k);
    }
}

proof fn lemma_map_of_at(entries: Seq<(HostIp, Target)>, i: int)
    requires
        keys_unique(entries),
        0 <= i < entries.len(),
    ensures
        map_of(entries).contains_key(entries[i].0),
        map_of(entries)[entries[i].0] == entries[i].1,
    decreases entries.len(),
{
    let init = entries.drop_last();
    if i < entries.len() - 1 {
        assert(init[i] == entries[i]);
        assert(keys_unique(init)) by {
            assert forall|a: int, b: int|
                0 <= a < init.len() && 0 <= b < init.len() && a != b implies #[trigger] init[a].0
                != #[trigger] init[b].0 by {
                assert(init[a] == entries[a] && init[b] == entries[b]);
            }
        }
        lemma_map_of_at(init, i);
        assert(entries[i].0 != entries.last().0);
    }
}

proof fn lemma_map_of_update(entries: Seq<(HostIp, Target)>, i: int, t: Target)
    requires
        keys_unique(entries),
        0 <= i < entries.len(),
    ensures
        map_of(entries.update(i, (entries[i].0, t))) == map_of(entries).insert(entries[i].0, t),
    decreases entries.len(),
{
    let k = entries[i].0;
    let upd = entries.update(i, (k, t));
    let init = entries.drop_last();
    if i == entries.len() - 1 {
        assert(upd.drop_last() == init);
        assert(map_of(upd) =~= map_of(entries).insert(k, t));
    } else {
        assert(keys_unique(init)) by {
            assert forall|a: int, b: int|
                0 <= a < init.len() && 0 <= b < init.len() && a != b implies #[trigger] init[a].0
                != #[trigger] init[b].0 by {
                assert(init[a] == entries[a] && init[b] == entries[b]);
            }
        }
        assert(init[i] == entries[i]);
        lemma_map_of_update(init, i, t);
        assert(upd.drop_last() == init.update(i, (k, t)));
        assert(entries.last().0 != k);
        assert(map_of(upd) =~= map_of(entries).insert(k, t));
    }
}

/// The routes of the router: for each local host that inbound connections may
/// arrive on, the upstream target that they are sent to. Each host has at most
/// one route.
pub struct RouteTable {
    entries: Vec<(HostIp, Target)>,
}

impl View for RouteTable {
    type V = Map<HostIp, Target>;

    closed spec fn view(&self) -> Map<HostIp, Target> {
        map_of(self.entries@)
    }
}

impl RouteTable {
    /// The table keeps one entry per host.
    pub closed spec fn wf(&self) -> bool {
        keys_unique(self.entries@)
    }

    /// A table without routes.
    pub fn new() -> (r: RouteTable)
        ensures
            r.wf(),
            r@ == Map::<HostIp, Target>::empty(),
    {
        RouteTable { entries: Vec::new() }
    }

    /// Sets the route of `local` to `target`, replacing any earlier one.
    pub fn insert(&mut self, local: HostIp, target: Target)
        requires
            old(self).wf(),
        ensures
            final(self).wf(),
            final(self)@ == old(self)@.insert(local, target),
    {
        let n = self.entries.len();
        let mut i: usize = 0;
        while i < n
            invariant
                n == self.entries.len(),
                self.entries@ == old(self).entries@,
                keys_unique(self.entries@),
                i <= n,
                forall|j: int| 0 <= j < i ==> #[trigger] self.entries@[j].0 != local,
            decreases n - i,
        {
            if self.entries[i].0 == local {
                proof {
                    lemma_map_of_update(self.entries@, i as int, target);
                }
                self.entries.set(i, (local, target));
                assert(keys_unique(self.entries@)) by {
                    let s = self.entries@;
                    assert forall|a: int, b: int|
                        0 <= a < s.len() && 0 <= b < s.len() && a != b implies #[trigger] s[a].0
                        != #[trigger] s[b].0 by {
                        assert(s[a].0 == old(self).entries@[a].0);
                        assert(s[b].0 == old(self).entries@[b].0);
                    }
                }
                return;
            }
            i = i + 1;
        }
        let ghost before = self.entries@;
        self.entries.push((local, target));
        assert(self.entries@.drop_last() == before);
        assert(keys_unique(self.entries@)) by {
            let s = self.entries@;
            assert forall|a: int, b: int|
                0 <= a < s.len() && 0 <= b < s.len() && a != b implies #[trigger] s[a].0
                != #[trigger] s[b].0 by {
                if a < before.len() {
                    assert(s[a] == before[a]);
                }
                if b < before.len() {
                    assert(s[b] == before[b]);
                }
            }
        }
    }

    /// Builds a table from routes taken in order; where a host occurs more
    /// than once, the last route for it wins.
    pub fn from_entries(entries: &Vec<(HostIp, Target)>) -> (r: RouteTable)
        ensures
            r.wf(),
            r@ == map_of(entries@),
    {
        let mut table = RouteTable::new();
        let mut i: usize = 0;
        while i < entries.len()
            invariant
                i <= entries.len(),
                table.wf(),
                table@ == map_of(entries@.subrange(0, i as int)),
            decreases entries.len() - i,
        {
            let (local, target) = entries[i];
            table.insert(local, target);
            assert(entries@.subrange(0, i + 1).drop_last() == entries@.subrange(0, i as int));
            i = i + 1;
        }
        assert(entries@.subrange(0, i as int) == entries@);
        table
    }

    /// The target of the route for `local`, if there is one.
    pub fn resolve(&self, local: &HostIp) -> (r: Option<Target>)
        requires
            self.wf(),
        ensures
            r == (if self@.contains_key(*local) {
                Some(self@[*local])
            } else {
                None::<Target>
            }),
    {
        let mut i: usize = 0;
        while i < self.entries.len()
            invariant
                i <= self.entries.len(),
                keys_unique(self.entries@),
                forall|j: int| 0 <= j < i ==> #[trigger] self.entries@[j].0 != *local,
            decreases self.entries.len() - i,
        {
            if self.entries[i].0 == *local {
                proof {
                    lemma_map_of_at(self.entries@, i as int);
                }
                return Some(self.entries[i].1);
            }
            i = i + 1;
        }
        proof {
            lemma_map_of_absent(self.entries@, *local);
        }
        None
    }

    /// Whether the table has no routes.
    pub fn is_empty(&self) -> (r: bool)
        ensures
            r == (self@ == Map::<HostIp, Target>::empty()),
    {
        if self.entries.len() == 0 {
            true
        } else {
            proof {
                let k = self.entries@.last().0;
                assert(map_of(self.entries@).contains_key(k));
            }
            false
        }
    }
}

} // verus!
