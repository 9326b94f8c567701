use gossip_node::{generate_reply, Action, Event, NodeState, ReadReply, ReplyGenerate, TopologyTable, ValueStore};

fn node_with_neighbors(id: &str, neighbors: &[&str]) -> (NodeState, String) {
    let mut node = NodeState::new();
    let self_id = id.to_string();
    let mapping = vec![(
        self_id.clone(),
        neighbors.iter().map(|n| n.to_string()).collect::<Vec<String>>(),
    )];
    let acts = node.process(&self_id, Event::Topology { mapping });
    assert_eq!(acts, vec![Action::TopologyOk]);
    (node, self_id)
}

fn read_messages(node: &mut NodeState, self_id: &String) -> Vec<u64> {
    let acts = node.process(self_id, Event::Read);
    assert_eq!(acts.len(), 1);
    match &acts[0] {
        Action::ReadOk { messages } => messages.clone(),
        other => panic!("expected a read reply, got {:?}", other),
    }
}

#[test]
fn handler_process_broadcast_no_panic() {
    let mut node = NodeState::new();
    let self_id = "n1".to_string();
    let _ = node.process(&self_id, Event::Broadcast { message: 0 });
    assert_eq!(read_messages(&mut node, &self_id), vec![0]);
}

#[test]
fn handler_process_read_no_panic() {
    let mut node = NodeState::new();
    let self_id = "n1".to_string();
    let _ = node.process(&self_id, Event::Broadcast { message: 1 });
    let _ = node.process(&self_id, Event::Read);
    assert_eq!(read_messages(&mut node, &self_id), vec![1]);
}

#[test]
fn handler_process_topology_no_panic() {
    let mut node = NodeState::new();
    let self_id = "n1".to_string();
    let mapping = vec![("n0".to_string(), vec!["n0".to_string()])];
    let _ = node.process(&self_id, Event::Topology { mapping });
    assert_eq!(read_messages(&mut node, &self_id), Vec::<u64>::new());
}

#[test]
fn broadcast_fans_out_then_acknowledges() {
    // node n1 with neighbors [n2, n3] receives broadcast(message = 42)
    let (mut node, self_id) = node_with_neighbors("n1", &["n2", "n3"]);
    let acts = node.process(&self_id, Event::Broadcast { message: 42 });
    assert_eq!(
        acts,
        vec![
            Action::Rpc { dest: "n2".to_string(), message: 42 },
            Action::Rpc { dest: "n3".to_string(), message: 42 },
            Action::BroadcastOk,
        ]
    );
    assert_eq!(read_messages(&mut node, &self_id), vec![42]);
}

#[test]
fn duplicate_broadcast_is_only_acknowledged() {
    let (mut node, self_id) = node_with_neighbors("n1", &["n2", "n3"]);
    let first = node.process(&self_id, Event::Broadcast { message: 5 });
    assert_eq!(first.len(), 3);
    // the same value arriving again, e.g. from another sender
    let second = node.process(&self_id, Event::Broadcast { message: 5 });
    assert_eq!(second, vec![Action::BroadcastOk]);
    assert_eq!(read_messages(&mut node, &self_id), vec![5]);
}

#[test]
fn broadcast_before_topology_reaches_nobody() {
    let mut node = NodeState::new();
    let self_id = "n1".to_string();
    let acts = node.process(&self_id, Event::Broadcast { message: 9 });
    assert_eq!(acts, vec![Action::BroadcastOk]);
    assert_eq!(read_messages(&mut node, &self_id), vec![9]);
}

#[test]
fn topology_replace_is_wholesale() {
    let (mut node, self_id) = node_with_neighbors("n1", &["n2", "n3"]);
    let acts = node.process(
        &self_id,
        Event::Topology { mapping: vec![(self_id.clone(), Vec::new())] },
    );
    assert_eq!(acts, vec![Action::TopologyOk]);
    let acts = node.process(&self_id, Event::Broadcast { message: 3 });
    assert_eq!(acts, vec![Action::BroadcastOk]);
    assert_eq!(read_messages(&mut node, &self_id), vec![3]);
}

#[test]
fn unhandled_message_does_nothing() {
    let (mut node, self_id) = node_with_neighbors("n1", &["n2"]);
    let acts = node.process(&self_id, Event::Other);
    assert_eq!(acts, Vec::<Action>::new());
    assert_eq!(read_messages(&mut node, &self_id), Vec::<u64>::new());
}

#[test]
fn record_twice_yields_true_then_false() {
    let mut store = ValueStore::new();
    assert!(store.record(7));
    assert!(!store.record(7));
    assert_eq!(store.snapshot(), vec![7]);
}

#[test]
fn record_keeps_first_learned_order() {
    let mut store = ValueStore::new();
    assert!(store.record(3));
    assert!(store.record(1));
    assert!(!store.record(3));
    assert!(store.record(2));
    assert_eq!(store.snapshot(), vec![3, 1, 2]);
    assert!(store.contains(1));
    assert!(!store.contains(4));
}

#[test]
fn snapshot_of_empty_store_is_empty() {
    let store = ValueStore::new();
    assert_eq!(store.snapshot(), Vec::<u64>::new());
}

#[test]
fn neighbors_of_unknown_node_is_empty() {
    let table = TopologyTable::new();
    assert_eq!(table.neighbors_of(&"n1".to_string()), Vec::<String>::new());
}

#[test]
fn neighbors_of_returns_configured_entry() {
    let mut table = TopologyTable::new();
    table.replace(vec![
        ("n1".to_string(), vec!["n2".to_string(), "n3".to_string()]),
        ("n2".to_string(), vec!["n1".to_string()]),
    ]);
    assert_eq!(
        table.neighbors_of(&"n1".to_string()),
        vec!["n2".to_string(), "n3".to_string()]
    );
    assert_eq!(table.neighbors_of(&"n2".to_string()), vec!["n1".to_string()]);
    assert_eq!(table.neighbors_of(&"n3".to_string()), Vec::<String>::new());
}

#[test]
fn with_messages_copies_the_list() {
    let reply = ReadReply::default().with_messages(&vec![4, 8, 15]);
    assert_eq!(reply.messages, vec![4, 8, 15]);
}

#[test]
fn with_guid_and_with_type_set_their_fields() {
    let reply = ReplyGenerate::default().with_type("generate_ok").with_guid(99);
    assert_eq!(reply.typ, "generate_ok");
    assert_eq!(reply.id, 99);
}

#[test]
fn generate_reply_is_tagged_generate_ok() {
    let reply = generate_reply();
    assert_eq!(reply.typ, "generate_ok");
}
