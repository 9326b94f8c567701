use vstd::prelude::*;

verus! {

/// No node identity appears twice among the keys, which is what makes a
/// list of `(node, neighbors)` pairs a mapping.
pub open spec fn distinct_keys(entries: Seq<(String, Vec<String>)>) -> bool {
    forall|i: int, j: int| 0 <= i < j < entries.len() ==> entries[i].0@ != entries[j].0@
}

/// The mapping described by a list of `(node, neighbors)` pairs.
pub open spec fn topo_map(entries: Seq<(String, Vec<String>)>) -> Map<Seq<char>, Seq<Seq<char>>> {
    Map::new(
        |k: Seq<char>| exists|i: int| 0 <= i < entries.len() && entries[i].0@ == k,
        |k: Seq<char>|
            entries[choose|i: int| 0 <= i < entries.len() && entries[i].0@ == k].1.deep_view(),
    )
}

/// The fanout list a table prescribes for `id`: its entry when there is
/// one, and the empty list otherwise. A node may be asked to fan out
/// before any topology message has arrived, so an absent entry is not an
/// error.
pub open spec fn neighbors_in(t: Map<Seq<char>, Seq<Seq<char>>>, id: Seq<char>) -> Seq<Seq<char>> {
    if t.dom().contains(id) {
        t[id]
    } else {
        Seq::<Seq<char>>::empty()
    }
}

/// The mapping from each node's identity to the list of neighbors it
/// must gossip to. A `topology` message replaces it wholesale.
pub struct TopologyTable {
    entries: Vec<(String, Vec<String>)>,
}

impl View for TopologyTable {
    type V = Map<Seq<char>, Seq<Seq<char>>>;

    closed spec fn view(&self) -> Map<Seq<char>, Seq<Seq<char>>> {
        topo_map(self.entries@)
    }
}

impl TopologyTable {
    /// The table's invariant: each node has at most one entry.
    pub closed spec fn wf(&self) -> bool {
        distinct_keys(self.entries@)
    }

    /// An empty table, the state of a node before any `topology` message.
    pub fn new() -> (t: Self)
        ensures
            t@ == Map::<Seq<char>, Seq<Seq<char>>>::empty(),
            t.wf(),
    {
        let t = TopologyTable { entries: Vec::new() };
        proof {
            assert(t@ =~= Map::<Seq<char>, Seq<Seq<char>>>::empty());
        }
        t
    }

    /// Swaps the entire table for `mapping`; nothing of the old table
    /// survives.
    pub fn replace(&mut self, mapping: Vec<(String, Vec<String>)>)
        requires
            distinct_keys(mapping@),
        ensures
            final(self)@ == topo_map(mapping@),
            final(self).wf(),
    {
        self.entries = mapping;
    }

    /// The configured fanout list for `node_id`, empty when the table has
    /// no entry for it.
    pub fn neighbors_of(&self, node_id: &String) -> (r: Vec<String>)
        requires
            self.wf(),
        ensures
            r.deep_view() == neighbors_in(self@, node_id@),
    {
        let n = self.entries.len();
        let mut i: usize = 0;
        while i < n
            invariant
                n == self.entries@.len(),
                i <= n,
                forall|k: int| 0 <= k < i ==> self.entries@[k].0@ != node_id@,
                self.wf(),
            decreases n - i,
        {
            if self.entries[i].0 == *node_id {
                proof {
                    lemma_topo_map_at(self.entries@, i as int);
                }
                let r = self.entries[i].1.clone();
                proof {
                    assert(r.deep_view() =~= self.entries@[i as int].1.deep_view());
                }
                return r;
            }
            i += 1;
        }
        proof {
            assert(!self@.dom().contains(node_id@));
        }
        Vec::new()
    }
}

/// With distinct keys, the mapping sends the key of each entry to that
/// entry's own neighbor list.
proof fn lemma_topo_map_at(entries: Seq<(String, Vec<String>)>, i: int)
    requires
        distinct_keys(entries),
        0 <= i < entries.len(),
    ensures
        topo_map(entries).dom().contains(entries[i].0@),
        topo_map(entries)[entries[i].0@] == entries[i].1.deep_view(),
{
    let k = entries[i].0@;
    assert(exists|j: int| 0 <= j < entries.len() && entries[j].0@ == k);
    let j = choose|j: int| 0 <= j < entries.len() && entries[j].0@ == k;
    assert(j == i);
}

} // verus!
