//! A node in a value-dissemination protocol: values learned from
//! `broadcast` messages are deduplicated, recorded, fanned out to the
//! node's configured neighbors and acknowledged; `read` answers with a
//! snapshot of everything recorded; `topology` replaces the fanout
//! configuration wholesale. The dissemination rule itself is the spec
//! function `step`, and `NodeState::process` is proved to follow it; the
//! laws module states what the rule guarantees.

use vstd::prelude::*;

mod store;
mod topology;
mod handler;
mod reply;
mod guid;
pub mod laws;

pub use store::{distinct_values, recorded, ValueStore};
pub use topology::{distinct_keys, neighbors_in, topo_map, TopologyTable};
pub use handler::{
    acts_model, fanout, step, Action, ActionModel, Event, EventModel, NodeState, StateModel,
};
pub use reply::{ReadReply, ReplyGenerate};
pub use guid::generate_reply;

verus! {

} // verus!
