use halo::handler::{is_known_kind, successor_list_len, HandleError, HandlerInner, Outbound, FAILURE_THRESHOLD};
use halo::hash::{hash, in_range, M, RING_SIZE};
use halo::kv::{same_text, KvStore};
use halo::msg::{GetFailResponse, RcvdMessage};
use halo::node::{Node, NodeEntry, QueryType, TransferType};

fn blank(kind: &str) -> RcvdMessage {
    RcvdMessage {
        kind: kind.to_string(),
        key: None,
        value: None,
        id: None,
        destination: None,
        source: None,
        query_id: None,
        node_name: None,
        node_id: None,
        pred_id: None,
        pred_name: None,
        min: None,
        max: None,
        keys: None,
        values: None,
        failed: None,
    }
}

fn strings(v: &[&str]) -> Vec<String> {
    v.iter().map(|s| s.to_string()).collect()
}

#[test]
fn hash_is_last_digest_byte() {
    assert_eq!(hash("apple"), 64);
    assert_eq!(hash("banana"), 168);
    assert_eq!(hash("A"), 27);
    assert_eq!(hash("B"), 236);
    assert_eq!(hash("C"), 125);
    assert_eq!(hash(""), 9);
}

#[test]
fn hash_is_deterministic() {
    let k = String::from("some key");
    assert_eq!(hash(&k), hash("some key"));
    for i in 0..50 {
        let s = format!("key{}", i);
        let h = hash(&s);
        assert_eq!(h, hash(&s.clone()));
        assert!(0 <= h && h < RING_SIZE);
    }
}

#[test]
fn in_range_whole_ring() {
    for x in [0, 5, 100, 255] {
        assert!(in_range(x, 7, 7, false));
        assert!(in_range(x, 7, 7, true));
    }
}

#[test]
fn in_range_excludes_lower_end() {
    assert!(!in_range(10, 10, 20, false));
    assert!(!in_range(200, 200, 20, false));
    assert!(!in_range(10, 10, 20, true));
}

#[test]
fn in_range_includes_upper_end() {
    assert!(in_range(20, 10, 20, true));
    assert!(in_range(20, 200, 20, true));
    assert!(!in_range(20, 10, 20, false));
    assert!(!in_range(20, 200, 20, false));
}

#[test]
fn in_range_wrapping_interval() {
    assert!(in_range(250, 200, 20, false));
    assert!(in_range(0, 200, 20, false));
    assert!(in_range(19, 200, 20, false));
    assert!(!in_range(100, 200, 20, true));
    assert!(in_range(15, 10, 20, false));
    assert!(!in_range(25, 10, 20, true));
}

#[test]
fn successor_list_lengths() {
    assert_eq!(successor_list_len(0), 1);
    assert_eq!(successor_list_len(1), 1);
    assert_eq!(successor_list_len(2), 2);
    assert_eq!(successor_list_len(3), 2);
    assert_eq!(successor_list_len(4), 3);
    assert_eq!(successor_list_len(7), 3);
    assert_eq!(successor_list_len(8), 4);
    assert_eq!(successor_list_len(usize::MAX), 64);
}

#[test]
fn same_text_compares_characters() {
    assert!(same_text("hello", "hello"));
    assert!(!same_text("hello", "hellO"));
    assert!(!same_text("hello", "hell"));
    assert!(same_text("", ""));
}

#[test]
fn kv_store_insert_get_replace() {
    let mut s = KvStore::new();
    assert_eq!(s.get("a"), None);
    s.insert("a".to_string(), "1".to_string());
    s.insert("b".to_string(), "2".to_string());
    s.insert("a".to_string(), "3".to_string());
    assert_eq!(s.get("a").map(|v| v.as_str()), Some("3"));
    assert_eq!(s.get("b").map(|v| v.as_str()), Some("2"));
    let (ks, vs) = s.snapshot();
    assert_eq!(ks, strings(&["a", "b"]));
    assert_eq!(vs, strings(&["3", "2"]));
}

#[test]
fn kv_store_insert_all_stops_at_shorter_list() {
    let mut s = KvStore::new();
    s.insert_all(&strings(&["x", "y", "x"]), &strings(&["1", "2", "3", "4"]));
    assert_eq!(s.get("x").map(|v| v.as_str()), Some("3"));
    assert_eq!(s.get("y").map(|v| v.as_str()), Some("2"));
    let mut t = KvStore::new();
    t.insert_all(&strings(&["p", "q"]), &strings(&["1"]));
    assert_eq!(t.get("p").map(|v| v.as_str()), Some("1"));
    assert_eq!(t.get("q"), None);
}

#[test]
fn kv_store_merge_prefers_other() {
    let mut s = KvStore::new();
    s.insert("a".to_string(), "1".to_string());
    s.insert("b".to_string(), "2".to_string());
    let mut o = KvStore::new();
    o.insert("b".to_string(), "9".to_string());
    o.insert("c".to_string(), "8".to_string());
    s.merge(&o);
    assert_eq!(s.get("a").map(|v| v.as_str()), Some("1"));
    assert_eq!(s.get("b").map(|v| v.as_str()), Some("9"));
    assert_eq!(s.get("c").map(|v| v.as_str()), Some("8"));
}

#[test]
fn kv_store_extract_range() {
    let mut s = KvStore::new();
    // apple hashes to 64, banana to 168.
    s.insert("apple".to_string(), "red".to_string());
    s.insert("banana".to_string(), "yellow".to_string());
    let (ks, vs) = s.extract_range(60, 64);
    assert_eq!(ks, strings(&["apple"]));
    assert_eq!(vs, strings(&["red"]));
    assert_eq!(s.get("apple"), None);
    assert_eq!(s.get("banana").map(|v| v.as_str()), Some("yellow"));
    let (ks, _) = s.extract_range(64, 64);
    assert_eq!(ks, strings(&["banana"]));
    assert_eq!(s.get("banana"), None);
}

#[test]
fn node_starts_alone() {
    let n = Node::new(M, "A", 27, 2);
    assert_eq!(n.get_id(), 27);
    assert_eq!(n.get_successor().node_name, "A");
    assert_eq!(n.get_predecessor().map(|p| p.id), Some(27));
    assert!(n.get_failed_successor().is_none());
    let starts: Vec<i32> = (0..8).map(|i| n.get_finger_start(i)).collect();
    assert_eq!(starts, vec![28, 29, 31, 35, 43, 59, 91, 155]);
    let m = Node::new(M, "B", 236, 1);
    let starts: Vec<i32> = (0..8).map(|i| m.get_finger_start(i)).collect();
    assert_eq!(starts, vec![237, 238, 240, 244, 252, 12, 44, 108]);
    assert!(n.live_successors().is_empty());
    assert!(n.live_successor_indexes().is_empty());
}

#[test]
fn node_set_successor_updates_all_three() {
    let mut n = Node::new(M, "A", 27, 3);
    n.set_successor(NodeEntry::new(125, "C"));
    assert_eq!(n.get_successor().node_name, "C");
    assert_eq!(n.finger_node(0).node_name, "C");
    assert_eq!(n.successor_at_index(0), 125);
    assert_eq!(n.live_successor_indexes(), vec![0]);
    let live: Vec<String> = n.live_successors().into_iter().map(|e| e.node_name).collect();
    assert_eq!(live, strings(&["C"]));
}

#[test]
fn node_find_predecessor() {
    let mut n = Node::new(M, "A", 27, 1);
    n.set_successor(NodeEntry::new(125, "C"));
    let (own, who) = n.find_predecessor(100);
    assert!(own);
    assert_eq!(who.node_name, "A");
    let (own, who) = n.find_predecessor(200);
    assert!(!own);
    assert_eq!(who.node_name, "C");
    n.set_finger(7, NodeEntry::new(160, "D"));
    let (own, who) = n.find_predecessor(200);
    assert!(!own);
    assert_eq!(who.node_name, "D");
    let (own, who) = n.find_predecessor(20);
    assert!(!own);
    assert_eq!(who.node_name, "D");
    assert_eq!(n.closest_preceding_finger(150).node_name, "C");
    assert_eq!(n.closest_preceding_finger(120).node_name, "A");
}

#[test]
fn node_queries_resolve_once() {
    let mut n = Node::new(M, "A", 27, 1);
    n.push_query(5, QueryType::Get("k".to_string()));
    n.push_query(5, QueryType::FixFinger);
    assert!(matches!(n.pop_query(5), Some(QueryType::FixFinger)));
    assert!(n.pop_query(5).is_none());
}

#[test]
fn node_stabilize_predecessor_directives() {
    // No predecessor: ask the successor for the range.
    let mut n = Node::new(M, "A", 27, 1);
    assert!(matches!(n.set_predecessor(None), TransferType::Send(..)) == false);
    assert!(matches!(n.stabilize_predecessor(10, "X", false), TransferType::Get(10, 27)));
    assert_eq!(n.get_predecessor().map(|p| p.node_name), Some("X".to_string()));
    // A closer predecessor: send it the keys from the old one to it.
    match n.stabilize_predecessor(20, "Y", false) {
        TransferType::Send(a, b, name) => {
            assert_eq!((a, b, name.as_str()), (10, 20, "Y"));
        }
        _ => panic!("expected a send"),
    }
    // A farther one: nothing.
    assert!(matches!(n.stabilize_predecessor(15, "Z", false), TransferType::Nothing));
    assert_eq!(n.get_predecessor().map(|p| p.id), Some(20));
    // The previous predecessor failed: reclaim its replica.
    let mut r = KvStore::new();
    r.insert("lost".to_string(), "v".to_string());
    n.set_for_replica(20, r);
    let mut other = KvStore::new();
    other.insert("kept".to_string(), "w".to_string());
    n.set_for_replica(100, other);
    assert!(matches!(n.stabilize_predecessor(5, "W", true), TransferType::Duplicate));
    assert_eq!(n.get("lost").map(|v| v.as_str()), Some("v"));
    assert_eq!(n.get("kept"), None);
    assert_eq!(n.get_predecessor().map(|p| p.node_name), Some("W".to_string()));
}

#[test]
fn node_set_predecessor_to_self_moves_nothing() {
    let mut n = Node::new(M, "A", 27, 1);
    assert!(matches!(n.set_predecessor(Some(NodeEntry::new(27, "A"))), TransferType::Nothing));
    assert!(matches!(n.set_predecessor(None), TransferType::Nothing));
    assert!(n.get_predecessor().is_none());
    assert!(matches!(n.set_predecessor(None), TransferType::Nothing));
}

#[test]
fn node_fix_successor_says_when_to_copy() {
    let mut n = Node::new(M, "A", 27, 3);
    // A failed entry coming back live.
    assert!(n.fix_successor(1, NodeEntry::new(27, "A")) == false);
    assert!(n.fix_successor(2, NodeEntry::new(125, "C")));
    // The same live node again.
    assert!(!n.fix_successor(2, NodeEntry::new(125, "C")));
    // Another node.
    assert!(n.fix_successor(2, NodeEntry::new(236, "B")));
    assert_eq!(n.successor_at_index(2), 236);
}

#[test]
fn node_successor_failure_shifts_list() {
    let mut n = Node::new(M, "A", 27, 3);
    n.set_successor(NodeEntry::new(125, "C"));
    n.fix_successor(1, NodeEntry::new(236, "B"));
    n.successor_failure();
    assert_eq!(n.get_successor().node_name, "B");
    assert_eq!(n.finger_node(0).node_name, "B");
    assert_eq!(n.get_failed_successor().map(|e| e.node_name), Some("C".to_string()));
    assert_eq!(n.successor_at_index(2), 27);
    n.reset_failed_successor();
    assert!(n.get_failed_successor().is_none());
}

#[test]
fn node_transfer_and_duplicate_store() {
    let mut n = Node::new(M, "A", 27, 1);
    n.set("apple".to_string(), "red".to_string());
    n.set("banana".to_string(), "yellow".to_string());
    let (ks, vs) = n.duplicate_store();
    assert_eq!(ks, strings(&["apple", "banana"]));
    assert_eq!(vs, strings(&["red", "yellow"]));
    let (ks, vs) = n.transfer_kvs_range(100, 170);
    assert_eq!(ks, strings(&["banana"]));
    assert_eq!(vs, strings(&["yellow"]));
    assert_eq!(n.get("banana"), None);
    assert_eq!(n.get("apple").map(|v| v.as_str()), Some("red"));
}

#[test]
fn get_fail_text() {
    let m = GetFailResponse::new(3, "banana");
    assert_eq!(m.kind, "getResponse");
    assert_eq!(m.id, 3);
    assert_eq!(m.error, "No such key: banana");
}

#[test]
fn missing_field_is_refused() {
    let mut h = HandlerInner::new("A", None);
    let mut m = blank("set");
    m.id = Some(1);
    m.key = Some("k".to_string());
    assert_eq!(h.handle_messages(m).err(), Some(HandleError::MissingField));
    let mut m = blank("notify");
    m.source = Some("B".to_string());
    m.node_id = Some(3);
    assert_eq!(h.handle_messages(m).err(), Some(HandleError::MissingField));
    assert!(h.node().get("k").is_none());
    assert!(h.node().get_predecessor().map(|p| p.id) == Some(27));
}

#[test]
fn known_kinds() {
    for k in ["hello", "set", "get", "findSuccResponse", "pongSelf", "rejoinAck"] {
        assert!(is_known_kind(k));
    }
    assert!(!is_known_kind("shout"));
    assert!(!is_known_kind("Hello"));
    assert!(!is_known_kind(""));
}

#[test]
fn unknown_type_is_discarded() {
    let mut h = HandlerInner::new("A", None);
    let outs = h.handle_messages(blank("shout")).unwrap();
    assert!(outs.is_empty());
    let outs = h.handle_messages(blank("pongSelf")).unwrap();
    assert!(outs.is_empty());
}

#[test]
fn hello_greets_once() {
    let mut h = HandlerInner::new("A", Some(strings(&["B", "C"])));
    let outs = h.handle_messages(blank("hello")).unwrap();
    assert_eq!(outs.len(), 3);
    assert!(matches!(&outs[0], Outbound::HelloResponse(m) if m.source == "A"));
    assert!(matches!(&outs[1], Outbound::Join(m) if m.source == "A" && m.destination == "B"));
    assert!(matches!(&outs[2], Outbound::Join(m) if m.source == "A" && m.destination == "C"));
    assert!(h.is_connected());
    let outs = h.handle_messages(blank("hello")).unwrap();
    assert_eq!(outs.len(), 2);
    assert!(matches!(&outs[0], Outbound::Join(_)));
}

#[test]
fn fix_fingers_picks_a_finger_past_the_first() {
    let mut h = HandlerInner::new("A", None);
    for _ in 0..50 {
        match h.fix_fingers() {
            Outbound::FindSuccResponse(m) => {
                let i = m.id.unwrap();
                assert!(1 <= i && i < M);
                assert_eq!(m.query_id, h.node().get_finger_start(i));
            }
            _ => panic!("a lone node answers itself"),
        }
    }
}

#[test]
fn fix_successors_refreshes_after_a_live_entry() {
    let mut h = HandlerInner::new("A", Some(strings(&["B", "C", "D"])));
    assert!(h.fix_successors().is_none());
    let mut m = blank("getPredResponse");
    m.pred_id = Some(27);
    m.pred_name = Some("A".to_string());
    h.handle_messages(m).unwrap();
    match h.fix_successors() {
        Some(Outbound::FindSuccResponse(m)) => {
            assert_eq!(m.id, Some(1));
            assert_eq!(m.query_id, 28);
        }
        _ => panic!("expected a refresh of the second entry"),
    }
}

#[test]
fn ping_successor_counts_then_fails_over() {
    let mut h = HandlerInner::new("A", Some(strings(&["B"])));
    assert!(h.ping_successor().is_none());
    let mut m = blank("findSuccResponse");
    m.node_name = Some("B".to_string());
    m.node_id = Some(236);
    m.query_id = Some(27);
    let mut ack = blank("joinAck");
    ack.source = Some("B".to_string());
    h.handle_messages(ack).unwrap();
    h.handle_messages(m).unwrap();
    assert_eq!(h.node().get_successor().node_name, "B");
    for k in 0..FAILURE_THRESHOLD {
        assert!(matches!(h.ping_successor(), Some(Outbound::Ping(p)) if p.destination == "B"));
        assert_eq!(h.missed_pings(), k + 1);
    }
    match h.ping_successor() {
        Some(Outbound::Notify(n)) => {
            assert_eq!(n.destination, "A");
            assert!(n.failed);
            assert_eq!(n.node_id, 27);
        }
        _ => panic!("expected the failure notice"),
    }
    assert_eq!(h.missed_pings(), 0);
    assert_eq!(h.node().get_failed_successor().map(|e| e.node_name), Some("B".to_string()));
    h.handle_messages(blank("pong")).unwrap();
    assert_eq!(h.missed_pings(), 0);
}

#[test]
fn duplicate_replaces_replica() {
    let mut h = HandlerInner::new("A", None);
    let mut d = blank("duplicate");
    d.id = Some(100);
    d.keys = Some(strings(&["x"]));
    d.values = Some(strings(&["1"]));
    h.handle_messages(d).unwrap();
    let mut d = blank("duplicate");
    d.id = Some(100);
    d.keys = Some(strings(&["y"]));
    d.values = Some(strings(&["2"]));
    h.handle_messages(d).unwrap();
    // The predecessor (A itself, id 27) failed, reclaim owners in (90, 27].
    let mut n = blank("notify");
    n.source = Some("Z".to_string());
    n.node_id = Some(90);
    n.failed = Some(true);
    h.handle_messages(n).unwrap();
    assert_eq!(h.node().get("y").map(|v| v.as_str()), Some("2"));
    assert_eq!(h.node().get("x"), None);
}

#[test]
fn transfer_request_hands_range_over() {
    let mut h = HandlerInner::new("A", None);
    let mut t = blank("transferKeys");
    t.keys = Some(strings(&["apple", "banana"]));
    t.values = Some(strings(&["red", "yellow"]));
    assert!(h.handle_messages(t).unwrap().is_empty());
    let mut r = blank("transferRequest");
    r.source = Some("B".to_string());
    r.min = Some(27);
    r.max = Some(100);
    let outs = h.handle_messages(r).unwrap();
    match &outs[..] {
        [Outbound::TransferKeys(m)] => {
            assert_eq!(m.destination, "B");
            assert_eq!(m.keys, strings(&["apple"]));
            assert_eq!(m.values, strings(&["red"]));
        }
        _ => panic!("expected one handover"),
    }
    assert_eq!(h.node().get("apple"), None);
}

#[test]
fn get_pred_without_predecessor() {
    let mut h = HandlerInner::new("A", None);
    let mut ack = blank("joinAck");
    ack.source = Some("B".to_string());
    h.handle_messages(ack).unwrap();
    let mut g = blank("getPred");
    g.source = Some("C".to_string());
    let outs = h.handle_messages(g).unwrap();
    match &outs[..] {
        [Outbound::GetPredResponse(m)] => {
            assert_eq!(m.destination, "C");
            assert_eq!(m.pred_id, None);
            assert_eq!(m.pred_name, None);
        }
        _ => panic!("expected one answer"),
    }
}

#[test]
fn ring_arcs_cover_each_id_once() {
    let ids = [27, 125, 236];
    for x in 0..RING_SIZE {
        let owners = (0..3)
            .filter(|&i| in_range(x, ids[(i + 2) % 3], ids[i], true))
            .count();
        assert_eq!(owners, 1, "identifier {}", x);
    }
}

#[test]
fn two_arcs_split_the_ring() {
    for x in 0..RING_SIZE {
        assert!(in_range(x, 40, 200, true) != in_range(x, 200, 40, true));
        let whole = in_range(x, 40, 200, true);
        let left = in_range(x, 40, 90, true);
        let right = in_range(x, 90, 200, true);
        assert_eq!(whole, left || right);
        assert!(!(left && right));
    }
}
