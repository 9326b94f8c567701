use vstd::prelude::*;

use crate::handler::{fanout, step, ActionModel, EventModel, StateModel};
use crate::store::{distinct_values, recorded};
use crate::topology::neighbors_in;

verus! {

/// How many copies of `v` a sequence holds.
pub open spec fn copies_of(s: Seq<u64>, v: u64) -> nat
    decreases s.len(),
{
    if s.len() == 0 {
        0
    } else {
        copies_of(s.drop_last(), v) + if s.last() == v {
            1nat
        } else {
            0nat
        }
    }
}

/// A duplicate-free sequence holds one copy of each value it contains
/// and none of any other.
pub proof fn lemma_copies_in_distinct(s: Seq<u64>, v: u64)
    requires
        distinct_values(s),
    ensures
        s.contains(v) ==> copies_of(s, v) == 1,
        !s.contains(v) ==> copies_of(s, v) == 0,
    decreases s.len(),
{
    if s.len() > 0 {
        let pre = s.drop_last();
        assert(distinct_values(pre)) by {
            assert(forall|i: int, j: int|
                0 <= i < j < pre.len() ==> pre[i] == s[i] && pre[j] == s[j]);
        }
        lemma_copies_in_distinct(pre, v);
        if s.last() == v {
            assert(s.contains(v)) by {
                assert(s[s.len() - 1] == v);
            }
            assert(!pre.contains(v)) by {
                if pre.contains(v) {
                    let i = choose|i: int| 0 <= i < pre.len() && pre[i] == v;
                    assert(s[i] == s[s.len() - 1]);
                }
            }
        } else {
            if s.contains(v) {
                let i = choose|i: int| 0 <= i < s.len() && s[i] == v;
                assert(pre[i] == v);
                assert(pre.contains(v));
            } else {
                assert(!pre.contains(v)) by {
                    if pre.contains(v) {
                        let i = choose|i: int| 0 <= i < pre.len() && pre[i] == v;
                        assert(s[i] == v);
                    }
                }
            }
        }
    }
}

/// Recording a value a node had not seen accepts it, and recording it
/// again is rejected and changes nothing; afterwards the store holds
/// exactly one copy of it. (`record` returns `true` exactly on a value
/// its store does not yet contain.)
pub proof fn lemma_record_idempotent(s: Seq<u64>, v: u64)
    requires
        distinct_values(s),
        !s.contains(v),
    ensures
        recorded(s, v) == s.push(v),
        recorded(s, v).contains(v),
        recorded(recorded(s, v), v) == recorded(s, v),
        copies_of(recorded(s, v), v) == 1,
{
    let r = recorded(s, v);
    assert(r == s.push(v));
    assert(r[r.len() - 1] == v);
    assert(r.contains(v));
    assert(distinct_values(r)) by {
        assert(forall|i: int| 0 <= i < s.len() ==> r[i] == s[i]);
        assert(forall|i: int| 0 <= i < s.len() ==> s[i] != v) by {
            assert(forall|i: int| 0 <= i < s.len() && s[i] == v ==> s.contains(v));
        }
    }
    lemma_copies_in_distinct(r, v);
}

/// A node that receives `broadcast(v)` twice fans `v` out at most once:
/// the second delivery, from whichever sender, is only acknowledged and
/// neither changes the state nor issues any fanout call.
pub proof fn lemma_no_duplicate_fanout(s: StateModel, self_id: Seq<char>, v: u64)
    ensures
        ({
            let (s1, _) = step(s, self_id, EventModel::Broadcast(v));
            let (s2, acts2) = step(s1, self_id, EventModel::Broadcast(v));
            &&& s2 == s1
            &&& acts2 == seq![ActionModel::BroadcastOk]
        }),
{
    let (s1, _) = step(s, self_id, EventModel::Broadcast(v));
    assert(s1.values.contains(v)) by {
        if !s.values.contains(v) {
            assert(s1.values == s.values.push(v));
            assert(s1.values[s1.values.len() - 1] == v);
        }
    }
}

/// The local piece of convergence: a `broadcast` of a value the node had
/// not seen records it and issues one fanout call per configured
/// neighbor, carrying that value, in the neighbor list's order. (Whether
/// the value then reaches every node is up to the substrate delivering
/// these calls and to the neighbors applying this same rule.)
pub proof fn lemma_fanout_covers_neighbors(s: StateModel, self_id: Seq<char>, v: u64)
    requires
        !s.values.contains(v),
    ensures
        ({
            let neigh = neighbors_in(s.topology, self_id);
            let (s1, acts) = step(s, self_id, EventModel::Broadcast(v));
            &&& s1.values.contains(v)
            &&& acts.len() == neigh.len() + 1
            &&& forall|i: int| 0 <= i < neigh.len() ==> acts[i] == ActionModel::Rpc(neigh[i], v)
            &&& acts.last() == ActionModel::BroadcastOk
        }),
{
    let (s1, _) = step(s, self_id, EventModel::Broadcast(v));
    assert(s1.values == s.values.push(v));
    assert(s1.values[s1.values.len() - 1] == v);
}

/// Immediately after any `broadcast(v)`, a `read` on the same node
/// answers with exactly the node's recorded values, and `v` is among
/// them; the `read` changes nothing.
pub proof fn lemma_read_reflects_store(s: StateModel, self_id: Seq<char>, v: u64)
    ensures
        ({
            let (s1, _) = step(s, self_id, EventModel::Broadcast(v));
            let (s2, acts) = step(s1, self_id, EventModel::Read);
            &&& s2 == s1
            &&& acts == seq![ActionModel::ReadOk(s1.values)]
            &&& s1.values.contains(v)
        }),
{
    let (s1, _) = step(s, self_id, EventModel::Broadcast(v));
    assert(s1.values.contains(v)) by {
        if !s.values.contains(v) {
            assert(s1.values == s.values.push(v));
            assert(s1.values[s1.values.len() - 1] == v);
        }
    }
}

/// A `topology` message replaces the table wholesale: after two of them
/// the first mapping leaves no trace, and a following `broadcast` of a
/// fresh value fans out exactly per the second mapping — to nobody, when
/// it lists no neighbors for this node.
pub proof fn lemma_topology_replace_total(
    s: StateModel,
    self_id: Seq<char>,
    m1: Map<Seq<char>, Seq<Seq<char>>>,
    m2: Map<Seq<char>, Seq<Seq<char>>>,
    v: u64,
)
    ensures
        ({
            let (s1, _) = step(s, self_id, EventModel::Topology(m1));
            let (s2, _) = step(s1, self_id, EventModel::Topology(m2));
            let (s3, acts) = step(s2, self_id, EventModel::Broadcast(v));
            &&& s2.topology == m2
            &&& s2.values == s.values
            &&& (!s.values.contains(v) ==> acts == fanout(neighbors_in(m2, self_id), v).push(
                ActionModel::BroadcastOk,
            ))
            &&& (!s.values.contains(v) && neighbors_in(m2, self_id).len() == 0 ==> acts == seq![
                ActionModel::BroadcastOk,
            ])
        }),
{
    let (s2, _) = step(
        step(s, self_id, EventModel::Topology(m1)).0,
        self_id,
        EventModel::Topology(m2),
    );
    let (_, acts) = step(s2, self_id, EventModel::Broadcast(v));
    if !s.values.contains(v) {
        if neighbors_in(m2, self_id).len() == 0 {
            assert(acts =~= seq![ActionModel::BroadcastOk]);
        }
    }
}

} // verus!
