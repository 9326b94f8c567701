use vstd::prelude::*;

use crate::store::{recorded, ValueStore};
use crate::topology::{distinct_keys, neighbors_in, topo_map, TopologyTable};

verus! {

/// One inbound message, decoded at the boundary into a closed set of
/// kinds. Anything the engine does not handle arrives as `Other`.
#[derive(Clone, Debug, PartialEq, Eq)]
pub enum Event {
    Broadcast { message: u64 },
    Read,
    Topology { mapping: Vec<(String, Vec<String>)> },
    Other,
}

/// One outbound message the engine asks the substrate to transmit, in
/// order: acknowledgments back to the sender and fanout calls to
/// neighbors.
#[derive(Clone, Debug, PartialEq, Eq)]
pub enum Action {
    BroadcastOk,
    ReadOk { messages: Vec<u64> },
    TopologyOk,
    Rpc { dest: String, message: u64 },
}

/// The mathematical value of an `Event`.
pub ghost enum EventModel {
    Broadcast(u64),
    Read,
    Topology(Map<Seq<char>, Seq<Seq<char>>>),
    Other,
}

/// The mathematical value of an `Action`.
pub ghost enum ActionModel {
    BroadcastOk,
    ReadOk(Seq<u64>),
    TopologyOk,
    Rpc(Seq<char>, u64),
}

impl View for Event {
    type V = EventModel;

    open spec fn view(&self) -> EventModel {
        match self {
            Event::Broadcast { message } => EventModel::Broadcast(*message),
            Event::Read => EventModel::Read,
            Event::Topology { mapping } => EventModel::Topology(topo_map(mapping@)),
            Event::Other => EventModel::Other,
        }
    }
}

impl Event {
    /// A `topology` payload must be a mapping: no node may be given two
    /// neighbor lists.
    pub open spec fn wf(&self) -> bool {
        match self {
            Event::Topology { mapping } => distinct_keys(mapping@),
            _ => true,
        }
    }
}

impl View for Action {
    type V = ActionModel;

    open spec fn view(&self) -> ActionModel {
        match self {
            Action::BroadcastOk => ActionModel::BroadcastOk,
            Action::ReadOk { messages } => ActionModel::ReadOk(messages@),
            Action::TopologyOk => ActionModel::TopologyOk,
            Action::Rpc { dest, message } => ActionModel::Rpc(dest@, *message),
        }
    }
}

/// The mathematical values of a list of actions.
pub open spec fn acts_model(acts: Seq<Action>) -> Seq<ActionModel> {
    Seq::new(acts.len(), |i: int| acts[i]@)
}

/// Everything a node remembers between messages: the values it has
/// learned and the cluster topology it was told.
pub ghost struct StateModel {
    pub values: Seq<u64>,
    pub topology: Map<Seq<char>, Seq<Seq<char>>>,
}

/// The fanout calls for `v`, one per neighbor, in the neighbor list's
/// order.
pub open spec fn fanout(neigh: Seq<Seq<char>>, v: u64) -> Seq<ActionModel> {
    Seq::new(neigh.len(), |i: int| ActionModel::Rpc(neigh[i], v))
}

/// The dissemination rule: what one inbound message does to a node's
/// state, and which outbound messages it causes, in order.
///
/// - A `broadcast` of a value already recorded is only acknowledged: the
///   dedup short-circuit that keeps a value from ever being re-fanned-out.
/// - A `broadcast` of a new value records it, fans it out to every
///   configured neighbor, and acknowledges the sender last.
/// - A `read` answers with the recorded values and changes nothing.
/// - A `topology` replaces the table wholesale and is acknowledged.
/// - Anything else is ignored.
pub open spec fn step(s: StateModel, self_id: Seq<char>, e: EventModel) -> (StateModel, Seq<
    ActionModel,
>) {
    match e {
        EventModel::Broadcast(v) => if s.values.contains(v) {
            (s, seq![ActionModel::BroadcastOk])
        } else {
            (
                StateModel { values: s.values.push(v), topology: s.topology },
                fanout(neighbors_in(s.topology, self_id), v).push(ActionModel::BroadcastOk),
            )
        },
        EventModel::Read => (s, seq![ActionModel::ReadOk(s.values)]),
        EventModel::Topology(m) => (StateModel { values: s.values, topology: m }, seq![ActionModel::TopologyOk]),
        EventModel::Other => (s, Seq::<ActionModel>::empty()),
    }
}

/// One node's state: its value store and its topology table.
pub struct NodeState {
    pub store: ValueStore,
    pub topology: TopologyTable,
}

impl View for NodeState {
    type V = StateModel;

    open spec fn view(&self) -> StateModel {
        StateModel { values: self.store@, topology: self.topology@ }
    }
}

impl NodeState {
    /// Both stores satisfy their invariants.
    pub open spec fn wf(&self) -> bool {
        self.store.wf() && self.topology.wf()
    }

    /// A fresh node: nothing learned, nobody to gossip to yet.
    pub fn new() -> (s: Self)
        ensures
            s@.values == Seq::<u64>::empty(),
            s@.topology == Map::<Seq<char>, Seq<Seq<char>>>::empty(),
            s.wf(),
    {
        NodeState { store: ValueStore::new(), topology: TopologyTable::new() }
    }

    /// Handles one inbound message on the node whose identity is
    /// `self_id`: mutates the state and returns the outbound messages the
    /// substrate must transmit, in order. Exactly the `step` rule.
    pub fn process(&mut self, self_id: &String, event: Event) -> (acts: Vec<Action>)
        requires
            old(self).wf(),
            event.wf(),
        ensures
            final(self).wf(),
            final(self)@ == step(old(self)@, self_id@, event@).0,
            acts_model(acts@) == step(old(self)@, self_id@, event@).1,
    {
        match event {
            Event::Broadcast { message } => {
                let newly = self.store.record(message);
                let mut acts: Vec<Action> = Vec::new();
                if newly {
                    let neigh = self.topology.neighbors_of(self_id);
                    let ghost fan = fanout(neighbors_in(old(self)@.topology, self_id@), message);
                    let mut i: usize = 0;
                    while i < neigh.len()
                        invariant
                            i <= neigh@.len(),
                            neigh.deep_view() == neighbors_in(old(self)@.topology, self_id@),
                            fan == fanout(neighbors_in(old(self)@.topology, self_id@), message),
                            acts@.len() == i,
                            forall|k: int| 0 <= k < i ==> acts@[k]@ == fan[k],
                        decreases neigh@.len() - i,
                    {
                        acts.push(Action::Rpc { dest: neigh[i].clone(), message });
                        i += 1;
                    }
                    acts.push(Action::BroadcastOk);
                    proof {
                        assert(acts_model(acts@) =~= fan.push(ActionModel::BroadcastOk));
                    }
                } else {
                    acts.push(Action::BroadcastOk);
                    proof {
                        assert(acts_model(acts@) =~= seq![ActionModel::BroadcastOk]);
                    }
                }
                acts
            },
            Event::Read => {
                let mut acts: Vec<Action> = Vec::new();
                acts.push(Action::ReadOk { messages: self.store.snapshot() });
                proof {
                    assert(acts_model(acts@) =~= seq![ActionModel::ReadOk(self@.values)]);
                }
                acts
            },
            Event::Topology { mapping } => {
                self.topology.replace(mapping);
                let mut acts: Vec<Action> = Vec::new();
                acts.push(Action::TopologyOk);
                proof {
                    assert(acts_model(acts@) =~= seq![ActionModel::TopologyOk]);
                }
                acts
            },
            Event::Other => {
                let acts: Vec<Action> = Vec::new();
                proof {
                    assert(acts_model(acts@) =~= Seq::<ActionModel>::empty());
                }
                acts
            },
        }
    }
}

} // verus!
