use halo::handler::{HandlerInner, Outbound, FAILURE_THRESHOLD};
use halo::hash::hash;
use halo::msg::RcvdMessage;
use std::collections::VecDeque;

fn blank(kind: &str) -> RcvdMessage {
    RcvdMessage {
        kind: kind.to_string(),
        key: None,
        value: None,
        id: None,
        destination: None,
        source: None,
        query_id: None,
        node_name: None,
        node_id: None,
        pred_id: None,
        pred_name: None,
        min: None,
        max: None,
        keys: None,
        values: None,
        failed: None,
    }
}

/// Turns an outbound message into the record the broker hands on, with its
/// destination; messages for the client have none.
fn route(o: Outbound) -> (Option<String>, RcvdMessage) {
    match o {
        Outbound::HelloResponse(m) => {
            let mut r = blank(&m.kind);
            r.source = Some(m.source);
            (None, r)
        }
        Outbound::SetResponse(m) => {
            let mut r = blank(&m.kind);
            r.id = Some(m.id);
            r.key = Some(m.key);
            r.value = Some(m.value);
            (None, r)
        }
        Outbound::GetSuccessResponse(m) => {
            let mut r = blank(&m.kind);
            r.id = Some(m.id);
            r.key = Some(m.key);
            r.value = Some(m.value);
            (None, r)
        }
        Outbound::GetFailResponse(m) => {
            let mut r = blank(&m.kind);
            r.id = Some(m.id);
            r.value = Some(m.error);
            (None, r)
        }
        Outbound::Join(m) => pair(&m.kind, m.source, m.destination),
        Outbound::JoinAck(m) => pair(&m.kind, m.source, m.destination),
        Outbound::FindSucc(m) => {
            let (d, mut r) = pair(&m.kind, m.source, m.destination);
            r.query_id = Some(m.query_id);
            r.id = m.id;
            (d, r)
        }
        Outbound::FindSuccResponse(m) => {
            let (d, mut r) = pair(&m.kind, m.source, m.destination);
            r.node_name = Some(m.node_name);
            r.node_id = Some(m.node_id);
            r.query_id = Some(m.query_id);
            r.id = m.id;
            (d, r)
        }
        Outbound::GetPred(m) => pair(&m.kind, m.source, m.destination),
        Outbound::GetPredResponse(m) => {
            let (d, mut r) = pair(&m.kind, m.source, m.destination);
            r.pred_id = m.pred_id;
            r.pred_name = m.pred_name;
            (d, r)
        }
        Outbound::Notify(m) => {
            let (d, mut r) = pair(&m.kind, m.source, m.destination);
            r.node_id = Some(m.node_id);
            r.failed = Some(m.failed);
            (d, r)
        }
        Outbound::Retrieve(m) => {
            let (d, mut r) = pair(&m.kind, m.source, m.destination);
            r.key = Some(m.key);
            r.id = Some(m.id);
            (d, r)
        }
        Outbound::Store(m) => {
            let (d, mut r) = pair(&m.kind, m.source, m.destination);
            r.key = Some(m.key);
            r.value = Some(m.value);
            (d, r)
        }
        Outbound::TransferRequest(m) => {
            let (d, mut r) = pair(&m.kind, m.source, m.destination);
            r.min = Some(m.min);
            r.max = Some(m.max);
            (d, r)
        }
        Outbound::TransferKeys(m) => {
            let (d, mut r) = pair(&m.kind, m.source, m.destination);
            r.keys = Some(m.keys);
            r.values = Some(m.values);
            (d, r)
        }
        Outbound::Duplicate(m) => {
            let (d, mut r) = pair(&m.kind, m.source, m.destination);
            r.id = Some(m.id);
            r.keys = Some(m.keys);
            r.values = Some(m.values);
            (d, r)
        }
        Outbound::Ping(m) => pair(&m.kind, m.source, m.destination),
        Outbound::Pong(m) => pair(&m.kind, m.source, m.destination),
        Outbound::PingSelf(m) => {
            let mut r = blank(&m.kind);
            r.destination = Some(m.destination.clone());
            (Some(m.destination), r)
        }
        Outbound::PongSelf(m) => {
            let mut r = blank(&m.kind);
            r.destination = Some(m.destination.clone());
            (Some(m.destination), r)
        }
        Outbound::Rejoin(m) => pair(&m.kind, m.source, m.destination),
        Outbound::RejoinAck(m) => pair(&m.kind, m.source, m.destination),
    }
}

fn pair(kind: &str, source: String, destination: String) -> (Option<String>, RcvdMessage) {
    let mut r = blank(kind);
    r.source = Some(source);
    r.destination = Some(destination.clone());
    (Some(destination), r)
}

/// A broker: routes each message to the node it is addressed to, drops
/// those for stopped nodes or across a cut link, and keeps those for the
/// client.
struct Net {
    nodes: Vec<HandlerInner>,
    names: Vec<String>,
    down: Vec<bool>,
    cut: Option<(String, String)>,
    client: Vec<RcvdMessage>,
    log: Vec<(Option<String>, RcvdMessage)>,
}

impl Net {
    fn new() -> Net {
        Net { nodes: Vec::new(), names: Vec::new(), down: Vec::new(), cut: None, client: Vec::new(), log: Vec::new() }
    }

    fn add(&mut self, name: &str, peers: &[&str]) -> usize {
        let p: Vec<String> = peers.iter().map(|s| s.to_string()).collect();
        let peer = if p.is_empty() { None } else { Some(p) };
        self.nodes.push(HandlerInner::new(name, peer));
        self.names.push(name.to_string());
        self.down.push(false);
        self.nodes.len() - 1
    }

    fn index(&self, name: &str) -> Option<usize> {
        self.names.iter().position(|n| n == name)
    }

    fn blocked(&self, from: &Option<String>, to: &str) -> bool {
        match (&self.cut, from) {
            (Some((a, b)), Some(f)) => (f == a && to == b) || (f == b && to == a),
            _ => false,
        }
    }

    fn run(&mut self, from: usize, outs: Vec<Outbound>) {
        let mut queue: VecDeque<(String, Outbound)> = outs.into_iter().map(|o| (self.names[from].clone(), o)).collect();
        let mut steps = 0;
        while let Some((sender, o)) = queue.pop_front() {
            steps += 1;
            assert!(steps < 10000, "message storm");
            let (dest, m) = route(o);
            self.log.push((dest.clone(), clone_msg(&m)));
            match dest {
                None => self.client.push(m),
                Some(d) => {
                    if self.blocked(&Some(sender.clone()), &d) {
                        continue;
                    }
                    let i = match self.index(&d) {
                        Some(i) => i,
                        None => continue,
                    };
                    if self.down[i] {
                        continue;
                    }
                    let outs = self.nodes[i].handle_messages(m).unwrap();
                    for o in outs {
                        queue.push_back((d.clone(), o));
                    }
                }
            }
        }
    }

    fn deliver(&mut self, to: usize, m: RcvdMessage) {
        let outs = self.nodes[to].handle_messages(m).unwrap();
        self.run(to, outs);
    }

    fn tick(&mut self, i: usize) {
        if self.down[i] {
            return;
        }
        let mut outs = vec![self.nodes[i].stabilize_ring(), self.nodes[i].ping_self()];
        if let Some(o) = self.nodes[i].heal_partition() {
            outs.push(o);
        }
        self.run(i, outs);
        let mut outs = vec![self.nodes[i].fix_fingers()];
        if let Some(o) = self.nodes[i].fix_successors() {
            outs.push(o);
        }
        if let Some(o) = self.nodes[i].ping_successor() {
            outs.push(o);
        }
        self.run(i, outs);
    }

    fn round(&mut self) {
        for i in 0..self.nodes.len() {
            self.tick(i);
        }
    }

    fn successor(&self, i: usize) -> String {
        self.nodes[i].node().get_successor().node_name
    }

    fn predecessor(&self, i: usize) -> Option<String> {
        self.nodes[i].node().get_predecessor().map(|p| p.node_name)
    }

    fn stored(&self, i: usize, key: &str) -> Option<String> {
        self.nodes[i].node().get(key).cloned()
    }
}

fn clone_msg(m: &RcvdMessage) -> RcvdMessage {
    RcvdMessage {
        kind: m.kind.clone(),
        key: m.key.clone(),
        value: m.value.clone(),
        id: m.id,
        destination: m.destination.clone(),
        source: m.source.clone(),
        query_id: m.query_id,
        node_name: m.node_name.clone(),
        node_id: m.node_id,
        pred_id: m.pred_id,
        pred_name: m.pred_name.clone(),
        min: m.min,
        max: m.max,
        keys: m.keys.clone(),
        values: m.values.clone(),
        failed: m.failed,
    }
}

fn set_msg(id: i32, key: &str, value: &str) -> RcvdMessage {
    let mut m = blank("set");
    m.id = Some(id);
    m.key = Some(key.to_string());
    m.value = Some(value.to_string());
    m
}

fn get_msg(id: i32, key: &str) -> RcvdMessage {
    let mut m = blank("get");
    m.id = Some(id);
    m.key = Some(key.to_string());
    m
}

/// The first names, in order, whose identifiers are distinct and satisfy `ok`.
fn names_with(n: usize, ok: &dyn Fn(&[i32]) -> bool) -> Vec<String> {
    let pool: Vec<String> = (0..60).map(|i| format!("node{}", i)).collect();
    let mut pick = vec![0usize; n];
    fn search(pool: &[String], pick: &mut Vec<usize>, k: usize, ok: &dyn Fn(&[i32]) -> bool) -> bool {
        if k == pick.len() {
            let ids: Vec<i32> = pick.iter().map(|&i| hash(&pool[i])).collect();
            let mut d = ids.clone();
            d.sort();
            d.dedup();
            return d.len() == ids.len() && ok(&ids);
        }
        for i in 0..pool.len() {
            if pick[..k].contains(&i) {
                continue;
            }
            pick[k] = i;
            if search(pool, pick, k + 1, ok) {
                return true;
            }
        }
        false
    }
    assert!(search(&pool, &mut pick, 0, ok));
    pick.iter().map(|&i| pool[i].clone()).collect()
}

#[test]
fn solo_ring_set_get() {
    let mut net = Net::new();
    let a = net.add("A", &[]);
    net.deliver(a, set_msg(1, "apple", "red"));
    assert_eq!(net.client.len(), 1);
    assert_eq!(net.client[0].kind, "setResponse");
    assert_eq!(net.client[0].id, Some(1));
    assert_eq!(net.client[0].key.as_deref(), Some("apple"));
    assert_eq!(net.client[0].value.as_deref(), Some("red"));
    assert!(net.log.iter().any(|(d, m)| m.kind == "store" && d.as_deref() == Some("A")));
    assert_eq!(net.stored(a, "apple").as_deref(), Some("red"));

    net.deliver(a, get_msg(2, "apple"));
    let r = net.client.last().unwrap();
    assert_eq!(r.kind, "getResponse");
    assert_eq!(r.id, Some(2));
    assert_eq!(r.key.as_deref(), Some("apple"));
    assert_eq!(r.value.as_deref(), Some("red"));

    net.deliver(a, get_msg(3, "banana"));
    let r = net.client.last().unwrap();
    assert_eq!(r.kind, "getResponse");
    assert_eq!(r.id, Some(3));
    assert_eq!(r.value.as_deref(), Some("No such key: banana"));
}

#[test]
fn two_node_join() {
    let mut net = Net::new();
    let a = net.add("A", &[]);
    net.deliver(a, blank("hello"));
    let b = net.add("B", &["A"]);
    net.log.clear();
    net.deliver(b, blank("hello"));
    let kinds: Vec<&str> = net.log.iter().map(|(_, m)| m.kind.as_str()).collect();
    assert_eq!(&kinds[..4], &["helloResponse", "join", "joinAck", "findSucc"]);
    let (d, join) = &net.log[1];
    assert_eq!(d.as_deref(), Some("A"));
    assert_eq!(join.source.as_deref(), Some("B"));
    let (d, ack) = &net.log[2];
    assert_eq!(d.as_deref(), Some("B"));
    assert_eq!(ack.source.as_deref(), Some("A"));
    let (d, fs) = &net.log[3];
    assert_eq!(d.as_deref(), Some("A"));
    assert_eq!(fs.source.as_deref(), Some("B"));
    assert_eq!(fs.query_id, Some(hash("B")));
    for _ in 0..2 {
        net.round();
    }
    assert_eq!(net.successor(a), "B");
    assert_eq!(net.successor(b), "A");
    assert_eq!(net.predecessor(a).as_deref(), Some("B"));
    assert_eq!(net.predecessor(b).as_deref(), Some("A"));
}

#[test]
fn key_handoff_on_join() {
    let apple = hash("apple");
    let names = names_with(2, &|ids: &[i32]| apple < ids[1] && ids[1] < ids[0]);
    let (na, nb) = (names[0].as_str(), names[1].as_str());
    let mut net = Net::new();
    let a = net.add(na, &[]);
    net.deliver(a, blank("hello"));
    net.deliver(a, set_msg(1, "apple", "red"));
    assert_eq!(net.stored(a, "apple").as_deref(), Some("red"));
    let b = net.add(nb, &[na]);
    net.deliver(b, blank("hello"));
    for _ in 0..2 {
        net.round();
    }
    assert_eq!(net.stored(b, "apple").as_deref(), Some("red"));
    assert_eq!(net.stored(a, "apple"), None);
}

/// Three nodes forming the ring C -> A -> B -> C, with a key that B owns.
fn three_node_ring() -> (Net, usize, usize, usize, String) {
    let names = names_with(3, &|ids: &[i32]| ids[2] < ids[0] && ids[0] < ids[1]);
    let (na, nb, nc) = (names[0].clone(), names[1].clone(), names[2].clone());
    let mut net = Net::new();
    let a = net.add(&na, &[&nb, &nc]);
    net.deliver(a, blank("hello"));
    let b = net.add(&nb, &[&na]);
    net.deliver(b, blank("hello"));
    let c = net.add(&nc, &[&na]);
    net.deliver(c, blank("hello"));
    for _ in 0..6 {
        net.round();
    }
    assert_eq!(net.successor(c), na);
    assert_eq!(net.successor(a), nb);
    assert_eq!(net.successor(b), nc);
    let (ha, hb) = (hash(&na), hash(&nb));
    let key = (0..1000)
        .map(|i| format!("key{}", i))
        .find(|k| ha < hash(k) && hash(k) <= hb)
        .unwrap();
    net.deliver(a, set_msg(7, &key, "blue"));
    assert_eq!(net.stored(b, &key).as_deref(), Some("blue"));
    (net, a, b, c, key)
}

#[test]
fn successor_failure_rotates_and_reclaims() {
    let (mut net, a, b, c, key) = three_node_ring();
    assert_eq!(net.stored(c, &key), None);
    net.down[b] = true;
    net.log.clear();
    for _ in 0..(FAILURE_THRESHOLD + 1) {
        net.round();
    }
    assert_eq!(net.successor(a), net.names[c]);
    assert!(net.log.iter().any(|(d, m)| m.kind == "notify"
        && m.failed == Some(true)
        && m.source.as_deref() == Some(net.names[a].as_str())
        && d.as_deref() == Some(net.names[c].as_str())));
    assert_eq!(net.stored(c, &key).as_deref(), Some("blue"));
    assert_eq!(net.nodes[a].node().get_failed_successor().map(|n| n.node_name), Some(net.names[b].clone()));
}

#[test]
fn partition_heal() {
    let (mut net, a, b, _c, _key) = three_node_ring();
    net.cut = Some((net.names[a].clone(), net.names[b].clone()));
    for _ in 0..4 {
        net.round();
    }
    assert_eq!(net.nodes[a].node().get_failed_successor().map(|n| n.node_name), Some(net.names[b].clone()));
    net.cut = None;
    net.log.clear();
    net.tick(a);
    let kinds: Vec<(&str, Option<&str>)> = net.log.iter().map(|(d, m)| (m.kind.as_str(), d.as_deref())).collect();
    assert!(kinds.contains(&("rejoin", Some(net.names[b].as_str()))));
    assert!(kinds.contains(&("rejoinAck", Some(net.names[a].as_str()))));
    assert!(net.log.iter().any(|(_, m)| m.kind == "findSucc"
        && m.source.as_deref() == Some(net.names[a].as_str())
        && m.query_id == Some(hash(&net.names[a]))));
    assert!(net.nodes[a].node().get_failed_successor().is_none());
}

/// The successor on the ring of the identifier `x`.
fn true_successor(ids: &[(i32, String)], x: i32) -> String {
    let mut sorted = ids.to_vec();
    sorted.sort();
    sorted.iter().find(|(id, _)| *id >= x).unwrap_or(&sorted[0]).1.clone()
}

#[test]
fn fix_finger_convergence() {
    let mut net = Net::new();
    let a = net.add("A", &[]);
    net.deliver(a, blank("hello"));
    let b = net.add("B", &["A"]);
    net.deliver(b, blank("hello"));
    let c = net.add("C", &["A"]);
    net.deliver(c, blank("hello"));
    for _ in 0..6 {
        net.round();
    }
    let ids: Vec<(i32, String)> = ["A", "B", "C"].iter().map(|n| (hash(n), n.to_string())).collect();
    for i in [a, b, c] {
        for f in 1..8 {
            let out = net.nodes[i].fix_finger(f);
            net.run(i, vec![out]);
        }
        for f in 0..8usize {
            let start = net.nodes[i].node().get_finger_start(f as i32);
            let finger = net.nodes[i].node().finger_node(f).node_name;
            assert_eq!(finger, true_successor(&ids, start), "node {} finger {}", net.names[i], f);
        }
    }
}
