//! The message handler and the periodic stabilizer, as a state machine:
//! each operation updates the node's state and returns, in order, the
//! messages to hand to the broker.
use crate::hash::{hash, in_range_spec, key_id, M};
use crate::kv::{same_text, strings_view, pairs_hold, pairs_to_map, range_part, rest_part, KvStore};
use crate::msg::{
    opt_view, Duplicate, FindSucc, FindSuccResponse, GetFailResponse, GetPred, GetPredResponse, GetSuccessResponse, HelloResponse, Join, JoinAck, Notify, Ping, PingSelf, Pong, PongSelf, RcvdMessage, Rejoin, RejoinAck, Retrieve, SetResponse, Store, TransferKeys, TransferRequest, Wire, duplicate_wire, find_succ_response_wire, find_succ_wire, get_fail_wire, get_pred_response_wire, get_pred_wire, get_success_wire, hello_response_wire, join_ack_wire, join_wire, no_such_key, notify_wire, ping_self_wire, ping_wire, pong_self_wire, pong_wire, rejoin_ack_wire, rejoin_wire, retrieve_wire, set_response_wire, store_wire, transfer_keys_wire, transfer_request_wire,
};
use crate::node::{
    after_notify, after_successor_failure, closest_preceding, fresh_node, live_nodes,
    refreshable, refreshable_indexes, replica_set, Node, NodeEntry, NodeRef, NodeView, QueryType,
    Transfer, TransferType,
};
use rand::Rng;
use vstd::arithmetic::power2::{lemma2_to64, lemma_pow2_unfold, pow2};
use vstd::prelude::*;

verus! {

/// The number of pongs a node can miss before its successor is declared
/// failed.
pub const FAILURE_THRESHOLD: i32 = 2;

/// Period of the stabilizer, in milliseconds.
pub const STABILIZE_TIME: u32 = 1000;

/// Relies on `rand::thread_rng` and `rand::Rng::gen_range`: a number drawn
/// from `[0, high)`; `gen_range` panics when the range is empty, which the
/// precondition rules out.
#[verifier::external_body]
fn random_below(high: usize) -> (r: usize)
    requires
        0 < high,
    ensures
        r < high,
{
    rand::thread_rng().gen_range(0, high)
}

/// A message to hand to the broker.
pub enum Outbound {
    HelloResponse(HelloResponse),
    SetResponse(SetResponse),
    GetSuccessResponse(GetSuccessResponse),
    GetFailResponse(GetFailResponse),
    Join(Join),
    JoinAck(JoinAck),
    FindSucc(FindSucc),
    FindSuccResponse(FindSuccResponse),
    GetPred(GetPred),
    GetPredResponse(GetPredResponse),
    Notify(Notify),
    Retrieve(Retrieve),
    Store(Store),
    TransferRequest(TransferRequest),
    TransferKeys(TransferKeys),
    Duplicate(Duplicate),
    Ping(Ping),
    Pong(Pong),
    PingSelf(PingSelf),
    PongSelf(PongSelf),
    Rejoin(Rejoin),
    RejoinAck(RejoinAck),
}

impl View for Outbound {
    type V = Wire;

    open spec fn view(&self) -> Wire {
        match self {
            Outbound::HelloResponse(m) => m@,
            Outbound::SetResponse(m) => m@,
            Outbound::GetSuccessResponse(m) => m@,
            Outbound::GetFailResponse(m) => m@,
            Outbound::Join(m) => m@,
            Outbound::JoinAck(m) => m@,
            Outbound::FindSucc(m) => m@,
            Outbound::FindSuccResponse(m) => m@,
            Outbound::GetPred(m) => m@,
            Outbound::GetPredResponse(m) => m@,
            Outbound::Notify(m) => m@,
            Outbound::Retrieve(m) => m@,
            Outbound::Store(m) => m@,
            Outbound::TransferRequest(m) => m@,
            Outbound::TransferKeys(m) => m@,
            Outbound::Duplicate(m) => m@,
            Outbound::Ping(m) => m@,
            Outbound::Pong(m) => m@,
            Outbound::PingSelf(m) => m@,
            Outbound::PongSelf(m) => m@,
            Outbound::Rejoin(m) => m@,
            Outbound::RejoinAck(m) => m@,
        }
    }
}

/// The records of a sequence of messages.
pub open spec fn wires(s: Seq<Outbound>) -> Seq<Wire> {
    s.map_values(|o: Outbound| o@)
}

/// The identifier after `x`, wrapping at the end of `i32`.
pub open spec fn next_id(x: i32) -> i32 {
    if x == i32::MAX {
        i32::MIN
    } else {
        (x + 1) as i32
    }
}

/// The length of the successor list for `n` configured peers: the least
/// `t >= 1` with `2^t >= n + 1`.
pub open spec fn is_successor_list_len(t: int, n: int) -> bool {
    &&& 1 <= t <= 64
    &&& pow2(t as nat) >= n + 1
    &&& (t == 1 || pow2((t - 1) as nat) < n + 1)
}

/// Returns the length of the successor list for `n_peers` configured
/// peers, `ceil(log2(n_peers + 1))`, and at least one.
pub fn successor_list_len(n_peers: usize) -> (r: i32)
    ensures
        is_successor_list_len(r as int, n_peers as int),
{
    let n = n_peers as u128;
    let mut p: u128 = 1;
    let mut t: i32 = 0;
    proof {
        lemma2_to64();
    }
    while p <= n
        invariant
            0 <= t <= 64,
            p == pow2(t as nat),
            n < 0x1_0000_0000_0000_0000,
            t == 0 || pow2((t - 1) as nat) <= n,
        decreases 64 - t,
    {
        proof {
            lemma_pow2_unfold((t + 1) as nat);
            lemma2_to64();
            if t == 64 {
                assert(false);
            }
        }
        p = p * 2;
        t += 1;
    }
    if t == 0 {
        proof {
            lemma_pow2_unfold(1);
        }
        1
    } else {
        t
    }
}

/// The state of a handler, as plain values.
pub struct HandlerView {
    pub connected: bool,
    pub name: Seq<char>,
    pub peers: Seq<Seq<char>>,
    pub node: NodeView,
    pub pings: i32,
}

/// The node's state together with what the handler keeps: whether the
/// broker has greeted it, its name, its configured peers and the number of
/// pings its successor has left unanswered.
pub struct HandlerInner {
    connected: bool,
    node_name: String,
    peer_names: Vec<String>,
    node: Node,
    pings: i32,
}

impl View for HandlerInner {
    type V = HandlerView;

    closed spec fn view(&self) -> HandlerView {
        HandlerView {
            connected: self.connected,
            name: self.node_name@,
            peers: self.peer_names@.map_values(|s: String| s@),
            node: self.node@,
            pings: self.pings,
        }
    }
}

/// The answer to `findSucc` for `query_id` asked by `src`: the successor
/// when the query lies in `(node, successor]`, else the query passed on to
/// the closest preceding finger.
pub open spec fn find_successor_wire(
    v: HandlerView,
    query_id: i32,
    src: Seq<char>,
    id: Option<i32>,
) -> Wire {
    if in_range_spec(query_id as int, v.node.me.id as int, v.node.successor.id as int, true) {
        find_succ_response_wire(v.name, src, v.node.successor.name, v.node.successor.id, query_id, id)
    } else {
        find_succ_wire(
            src,
            closest_preceding(v.node.me, v.node.fingers, query_id as int, v.node.fingers.len() as int).name,
            query_id,
            id,
        )
    }
}

/// The nodes of `s` among the first `n` that are not named `name`.
pub open spec fn others(s: Seq<NodeRef>, name: Seq<char>, n: int) -> Seq<NodeRef>
    decreases n,
{
    if n <= 0 {
        Seq::empty()
    } else if s[n - 1].name != name {
        others(s, name, n - 1).push(s[n - 1])
    } else {
        others(s, name, n - 1)
    }
}

/// The live successors other than the node itself, which receive replicas.
pub open spec fn replica_targets(v: HandlerView) -> Seq<NodeRef> {
    let live = live_nodes(v.node.successors, v.node.successors.len() as int);
    others(live, v.name, live.len() as int)
}

/// A `duplicate` from `src` to `dst` for owner `id` carrying exactly `store`.
pub open spec fn is_copy(w: Wire, src: Seq<char>, dst: Seq<char>, id: i32, store: Map<Seq<char>, Seq<char>>) -> bool {
    &&& w.keys.is_some()
    &&& w.values.is_some()
    &&& w == duplicate_wire(src, dst, id, w.keys.unwrap(), w.values.unwrap())
    &&& pairs_hold(w.keys.unwrap(), w.values.unwrap(), store)
}

/// A `transferKeys` from `src` to `dst` carrying exactly `part`.
pub open spec fn is_handover(w: Wire, src: Seq<char>, dst: Seq<char>, part: Map<Seq<char>, Seq<char>>) -> bool {
    &&& w.keys.is_some()
    &&& w.values.is_some()
    &&& w == transfer_keys_wire(src, dst, w.keys.unwrap(), w.values.unwrap())
    &&& pairs_hold(w.keys.unwrap(), w.values.unwrap(), part)
}

/// One `duplicate` of the store to each replica target, in order.
pub open spec fn copies_to_successors(outs: Seq<Wire>, v: HandlerView) -> bool {
    let t = replica_targets(v);
    &&& outs.len() == t.len()
    &&& forall|i: int| 0 <= i < t.len() ==> is_copy(#[trigger] outs[i], v.name, t[i].name, v.node.me.id, v.node.store)
}

/// The state with another node view.
pub open spec fn with_node(v: HandlerView, n: NodeView) -> HandlerView {
    HandlerView { node: n, ..v }
}

/// The node after `stabilize_successor` with the successor's predecessor.
pub open spec fn after_stabilize_successor(n: NodeView, pred: NodeRef) -> NodeView {
    if in_range_spec(pred.id as int, n.me.id as int, n.successor.id as int, false) {
        n.with_successor(pred)
    } else {
        n
    }
}

/// The state after refreshing finger `i`, and the query it sends.
pub open spec fn fix_finger_ok(v: HandlerView, i: i32, v2: HandlerView, out: Wire) -> bool {
    let start = v.node.fingers[i as int].0;
    &&& v2 == with_node(v, NodeView { queries: v.node.queries.insert(start, QueryType::FixFinger), ..v.node })
    &&& out == find_successor_wire(v, start, v.name, Some(i))
}

/// The state after refreshing the successor-list entry after `slot`, and
/// the query it sends.
pub open spec fn fix_successor_ok(v: HandlerView, slot: int, v2: HandlerView, out: Wire) -> bool {
    let q = next_id(v.node.successors[slot].0.id);
    &&& v2 == with_node(v, NodeView { queries: v.node.queries.insert(q, QueryType::FixSuccessor), ..v.node })
    &&& out == find_successor_wire(v, q, v.name, Some((slot + 1) as i32))
}

/// The state and messages after the periodic successor check: below the
/// threshold, a ping counted and sent unless the node is its own
/// successor; at the threshold, the successor declared failed, the new
/// successor notified, and the count reset.
pub open spec fn ping_successor_ok(v: HandlerView, v2: HandlerView, r: Option<Wire>) -> bool {
    if v.pings < FAILURE_THRESHOLD {
        if v.node.successor.name != v.name {
            &&& v2 == HandlerView { pings: (v.pings + 1) as i32, ..v }
            &&& r == Some(ping_wire(v.name, v.node.successor.name))
        } else {
            v2 == v && r.is_none()
        }
    } else {
        let n2 = after_successor_failure(v.node);
        &&& v2 == HandlerView { node: n2, pings: 0, ..v }
        &&& r == Some(notify_wire(v.name, n2.successor.name, v.node.me.id, true))
    }
}

/// `hello`: greet the broker once, then ask every peer to join.
pub open spec fn hello_ok(v: HandlerView, v2: HandlerView, outs: Seq<Wire>) -> bool {
    &&& v2 == HandlerView { connected: true, ..v }
    &&& outs == (if v.connected { Seq::empty() } else { seq![hello_response_wire(v.name)] }) + Seq::new(
        v.peers.len(),
        |i: int| join_wire(v.name, v.peers[i]),
    )
}

/// `set`: confirm, record the query under the key's identifier and route
/// it.
pub open spec fn set_ok(v: HandlerView, id: i32, key: String, value: String, v2: HandlerView, outs: Seq<Wire>) -> bool {
    let q = key_id(key@) as i32;
    &&& v2 == with_node(v, NodeView { queries: v.node.queries.insert(q, QueryType::Put(key, value)), ..v.node })
    &&& outs == seq![set_response_wire(id, key@, value@), find_successor_wire(v, q, v.name, None)]
}

/// `get`: record the query under the key's identifier and route it.
pub open spec fn get_ok(v: HandlerView, id: i32, key: String, v2: HandlerView, outs: Seq<Wire>) -> bool {
    let q = key_id(key@) as i32;
    &&& v2 == with_node(v, NodeView { queries: v.node.queries.insert(q, QueryType::Get(key)), ..v.node })
    &&& outs == seq![find_successor_wire(v, q, v.name, Some(id))]
}

/// `joinAck`: forget the predecessor and ask the acknowledger for the
/// successor of the node's own identifier.
pub open spec fn join_ack_ok(v: HandlerView, source: Seq<char>, v2: HandlerView, outs: Seq<Wire>) -> bool {
    &&& v2 == with_node(
        v,
        NodeView { predecessor: None, queries: v.node.queries.insert(v.node.me.id, QueryType::JoinAck), ..v.node },
    )
    &&& outs == seq![find_succ_wire(v.name, source, v.node.me.id, None)]
}

/// `findSuccResponse`: resolve the pending query, if any, by its kind.
pub open spec fn find_succ_response_ok(
    v: HandlerView,
    node: NodeRef,
    query_id: i32,
    id: Option<i32>,
    v2: HandlerView,
    outs: Seq<Wire>,
) -> bool {
    let n1 = NodeView { queries: v.node.queries.remove(query_id), ..v.node };
    if !v.node.queries.contains_key(query_id) {
        v2 == with_node(v, n1) && outs.len() == 0
    } else {
        match v.node.queries[query_id] {
            QueryType::JoinAck => v2 == with_node(v, n1.with_successor(node)) && outs.len() == 0,
            QueryType::FixFinger => outs.len() == 0 && v2 == with_node(
                v,
                match id {
                    Some(i) => if 1 <= i < n1.fingers.len() {
                        NodeView { fingers: n1.fingers.update(i as int, (n1.fingers[i as int].0, node)), ..n1 }
                    } else {
                        n1
                    },
                    None => n1,
                },
            ),
            QueryType::Get(k) => v2 == with_node(v, n1) && outs == match id {
                Some(i) => seq![retrieve_wire(v.name, node.name, k@, i)],
                None => Seq::empty(),
            },
            QueryType::Put(k, val) => v2 == with_node(v, n1) && outs == seq![store_wire(v.name, node.name, k@, val@)],
            QueryType::FixSuccessor => match id {
                Some(i) => if 1 <= i < n1.successors.len() {
                    let old_entry = n1.successors[i as int];
                    let copy = (old_entry.0.name != node.name || old_entry.1) && node.name != n1.me.name;
                    &&& v2 == with_node(v, NodeView { successors: n1.successors.update(i as int, (node, false)), ..n1 })
                    &&& outs.len() == (if copy { 1int } else { 0int })
                    &&& copy ==> is_copy(outs[0], v.name, node.name, n1.me.id, n1.store)
                } else {
                    v2 == with_node(v, n1) && outs.len() == 0
                },
                None => v2 == with_node(v, n1) && outs.len() == 0,
            },
        }
    }
}

/// `getPredResponse`: adopt the successor's predecessor when it is closer,
/// then notify the successor.
pub open spec fn get_pred_response_ok(
    v: HandlerView,
    pred_id: Option<i32>,
    pred_name: Option<Seq<char>>,
    v2: HandlerView,
    outs: Seq<Wire>,
) -> bool {
    let n2 = if pred_id.is_some() && pred_name.is_some() {
        after_stabilize_successor(v.node, NodeRef { id: pred_id.unwrap(), name: pred_name.unwrap() })
    } else {
        v.node
    };
    &&& v2 == with_node(v, n2)
    &&& outs == seq![notify_wire(v.name, n2.successor.name, v.node.me.id, false)]
}

/// `notify`: update the predecessor and move keys as the directive says.
pub open spec fn notify_ok(v: HandlerView, node: NodeRef, failed: bool, v2: HandlerView, outs: Seq<Wire>) -> bool {
    let (n2, t) = after_notify(v.node, node, failed);
    match t {
        Transfer::Get(min, max) => v2 == with_node(v, n2) && outs == seq![
            transfer_request_wire(v.name, n2.successor.name, min, max),
        ],
        Transfer::Send(min, max, pred) => {
            &&& v2 == with_node(v, NodeView { store: rest_part(n2.store, min as int, max as int), ..n2 })
            &&& outs.len() == 1
            &&& is_handover(outs[0], v.name, pred, range_part(n2.store, min as int, max as int))
        },
        Transfer::Duplicate => v2 == with_node(v, n2) && copies_to_successors(outs, v2),
        Transfer::Nothing => v2 == with_node(v, n2) && outs.len() == 0,
    }
}

/// `retrieve`: answer the client from the local store.
pub open spec fn retrieve_ok(v: HandlerView, id: i32, key: Seq<char>, v2: HandlerView, outs: Seq<Wire>) -> bool {
    &&& v2 == v
    &&& outs == seq![
        if v.node.store.contains_key(key) {
            get_success_wire(id, key, v.node.store[key])
        } else {
            get_fail_wire(id, key)
        },
    ]
}

/// `store`: keep the pair and copy the store to the successors.
pub open spec fn store_ok(v: HandlerView, key: Seq<char>, value: Seq<char>, v2: HandlerView, outs: Seq<Wire>) -> bool {
    &&& v2 == with_node(v, NodeView { store: v.node.store.insert(key, value), ..v.node })
    &&& copies_to_successors(outs, v2)
}

/// `transferRequest`: hand the keys of the range over to the requester.
pub open spec fn transfer_request_ok(
    v: HandlerView,
    source: Seq<char>,
    min: i32,
    max: i32,
    v2: HandlerView,
    outs: Seq<Wire>,
) -> bool {
    &&& v2 == with_node(v, NodeView { store: rest_part(v.node.store, min as int, max as int), ..v.node })
    &&& outs.len() == 1
    &&& is_handover(outs[0], v.name, source, range_part(v.node.store, min as int, max as int))
}

/// The map made of the pairs of two lists, up to the shorter one.
pub open spec fn zip_map(keys: Seq<String>, values: Seq<String>) -> Map<Seq<char>, Seq<char>> {
    pairs_to_map(
        strings_view(keys),
        strings_view(values),
        if keys.len() < values.len() { keys.len() as int } else { values.len() as int },
    )
}

/// `transferKeys`: keep the pairs and copy the store to the successors.
pub open spec fn transfer_keys_ok(
    v: HandlerView,
    keys: Seq<String>,
    values: Seq<String>,
    v2: HandlerView,
    outs: Seq<Wire>,
) -> bool {
    &&& v2 == with_node(v, NodeView { store: v.node.store.union_prefer_right(zip_map(keys, values)), ..v.node })
    &&& copies_to_successors(outs, v2)
}

/// `duplicate`: replace the replica kept for the owner.
pub open spec fn duplicate_ok(
    v: HandlerView,
    id: i32,
    keys: Seq<String>,
    values: Seq<String>,
    v2: HandlerView,
    outs: Seq<Wire>,
) -> bool {
    &&& v2 == with_node(v, NodeView { replicas: replica_set(v.node.replicas, id, zip_map(keys, values)), ..v.node })
    &&& outs.len() == 0
}

/// `rejoinAck`: forget the failed successor and ask the acknowledger for
/// the successor of the node's own identifier.
pub open spec fn rejoin_ack_ok(v: HandlerView, source: Seq<char>, v2: HandlerView, outs: Seq<Wire>) -> bool {
    &&& v2 == with_node(
        v,
        NodeView { last_failed: None, queries: v.node.queries.insert(v.node.me.id, QueryType::JoinAck), ..v.node },
    )
    &&& outs == seq![find_succ_wire(v.name, source, v.node.me.id, None)]
}

/// Every index that `refreshable_indexes` lists is a refreshable slot.
proof fn lemma_refreshable_indexes(s: Seq<(NodeRef, bool)>, n: int)
    requires
        0 <= n <= s.len(),
    ensures
        forall|j: int|
            0 <= j < refreshable_indexes(s, n).len() ==> 0 <= #[trigger] refreshable_indexes(s, n)[j] < n
                && refreshable(s, refreshable_indexes(s, n)[j]),
    decreases n,
{
    if n > 0 {
        lemma_refreshable_indexes(s, n - 1);
        let prev = refreshable_indexes(s, n - 1);
        assert forall|j: int| 0 <= j < refreshable_indexes(s, n).len() implies 0
            <= #[trigger] refreshable_indexes(s, n)[j] < n && refreshable(s, refreshable_indexes(s, n)[j]) by {
            if j < prev.len() {
                assert(refreshable_indexes(s, n)[j] == prev[j]);
            }
        }
    }
}

/// Whether the handler recognizes a message type.
pub open spec fn known_kind(k: Seq<char>) -> bool {
    k == "hello"@
    || k == "set"@
    || k == "get"@
    || k == "join"@
    || k == "joinAck"@
    || k == "findSucc"@
    || k == "findSuccResponse"@
    || k == "getPred"@
    || k == "getPredResponse"@
    || k == "notify"@
    || k == "retrieve"@
    || k == "store"@
    || k == "transferRequest"@
    || k == "transferKeys"@
    || k == "duplicate"@
    || k == "ping"@
    || k == "pong"@
    || k == "pingSelf"@
    || k == "pongSelf"@
    || k == "rejoin"@
    || k == "rejoinAck"@
}

/// Returns whether the handler recognizes the message type `kind`;
/// messages of other types are discarded.
pub fn is_known_kind(kind: &str) -> (r: bool)
    ensures
        r == known_kind(kind@),
{
    same_text(kind, "hello")
        || same_text(kind, "set")
        || same_text(kind, "get")
        || same_text(kind, "join")
        || same_text(kind, "joinAck")
        || same_text(kind, "findSucc")
        || same_text(kind, "findSuccResponse")
        || same_text(kind, "getPred")
        || same_text(kind, "getPredResponse")
        || same_text(kind, "notify")
        || same_text(kind, "retrieve")
        || same_text(kind, "store")
        || same_text(kind, "transferRequest")
        || same_text(kind, "transferKeys")
        || same_text(kind, "duplicate")
        || same_text(kind, "ping")
        || same_text(kind, "pong")
        || same_text(kind, "pingSelf")
        || same_text(kind, "pongSelf")
        || same_text(kind, "rejoin")
        || same_text(kind, "rejoinAck")
}

/// Why a received message was refused.
#[derive(Debug, PartialEq, Eq)]
pub enum HandleError {
    /// The message lacks a field that its type requires.
    MissingField,
}

/// Whether a message lacks a field that its type requires.
pub open spec fn missing_field(m: RcvdMessage) -> bool {
    if m.kind@ == "hello"@ {
        false
    } else if m.kind@ == "set"@ {
        m.id.is_none() || m.key.is_none() || m.value.is_none()
    } else if m.kind@ == "get"@ {
        m.id.is_none() || m.key.is_none()
    } else if m.kind@ == "join"@ {
        m.destination.is_none() || m.source.is_none()
    } else if m.kind@ == "joinAck"@ {
        m.source.is_none()
    } else if m.kind@ == "findSucc"@ {
        m.query_id.is_none() || m.source.is_none()
    } else if m.kind@ == "findSuccResponse"@ {
        m.node_name.is_none() || m.node_id.is_none() || m.query_id.is_none()
    } else if m.kind@ == "getPred"@ {
        m.source.is_none()
    } else if m.kind@ == "getPredResponse"@ {
        false
    } else if m.kind@ == "notify"@ {
        m.source.is_none() || m.node_id.is_none() || m.failed.is_none()
    } else if m.kind@ == "retrieve"@ {
        m.id.is_none() || m.key.is_none()
    } else if m.kind@ == "store"@ {
        m.key.is_none() || m.value.is_none()
    } else if m.kind@ == "transferRequest"@ {
        m.source.is_none() || m.min.is_none() || m.max.is_none()
    } else if m.kind@ == "transferKeys"@ {
        m.keys.is_none() || m.values.is_none()
    } else if m.kind@ == "duplicate"@ {
        m.id.is_none() || m.keys.is_none() || m.values.is_none()
    } else if m.kind@ == "ping"@ {
        m.source.is_none()
    } else if m.kind@ == "pong"@ {
        false
    } else if m.kind@ == "pingSelf"@ {
        false
    } else if m.kind@ == "pongSelf"@ {
        false
    } else if m.kind@ == "rejoin"@ {
        m.destination.is_none() || m.source.is_none()
    } else if m.kind@ == "rejoinAck"@ {
        m.source.is_none()
    } else {
        false
    }
}

/// What handling a message of each type does to the state and emits; a
/// message of an unknown type is discarded.
pub open spec fn handled(v: HandlerView, m: RcvdMessage, v2: HandlerView, outs: Seq<Wire>) -> bool {
    if m.kind@ == "hello"@ {
        hello_ok(v, v2, outs)
    } else if m.kind@ == "set"@ {
        set_ok(v, m.id.unwrap(), m.key.unwrap(), m.value.unwrap(), v2, outs)
    } else if m.kind@ == "get"@ {
        get_ok(v, m.id.unwrap(), m.key.unwrap(), v2, outs)
    } else if m.kind@ == "join"@ {
        v2 == v && outs == seq![join_ack_wire(m.destination.unwrap()@, m.source.unwrap()@)]
    } else if m.kind@ == "joinAck"@ {
        join_ack_ok(v, m.source.unwrap()@, v2, outs)
    } else if m.kind@ == "findSucc"@ {
        v2 == v && outs == seq![find_successor_wire(v, m.query_id.unwrap(), m.source.unwrap()@, m.id)]
    } else if m.kind@ == "findSuccResponse"@ {
        find_succ_response_ok(v, NodeRef { id: m.node_id.unwrap(), name: m.node_name.unwrap()@ }, m.query_id.unwrap(), m.id, v2, outs)
    } else if m.kind@ == "getPred"@ {
        v2 == v && outs == seq![get_pred_response_wire(v.name, m.source.unwrap()@, match v.node.predecessor { Some(p) => Some(p.id), None => None }, match v.node.predecessor { Some(p) => Some(p.name), None => None })]
    } else if m.kind@ == "getPredResponse"@ {
        get_pred_response_ok(v, m.pred_id, opt_view(m.pred_name), v2, outs)
    } else if m.kind@ == "notify"@ {
        notify_ok(v, NodeRef { id: m.node_id.unwrap(), name: m.source.unwrap()@ }, m.failed.unwrap(), v2, outs)
    } else if m.kind@ == "retrieve"@ {
        retrieve_ok(v, m.id.unwrap(), m.key.unwrap()@, v2, outs)
    } else if m.kind@ == "store"@ {
        store_ok(v, m.key.unwrap()@, m.value.unwrap()@, v2, outs)
    } else if m.kind@ == "transferRequest"@ {
        transfer_request_ok(v, m.source.unwrap()@, m.min.unwrap(), m.max.unwrap(), v2, outs)
    } else if m.kind@ == "transferKeys"@ {
        transfer_keys_ok(v, m.keys.unwrap()@, m.values.unwrap()@, v2, outs)
    } else if m.kind@ == "duplicate"@ {
        duplicate_ok(v, m.id.unwrap(), m.keys.unwrap()@, m.values.unwrap()@, v2, outs)
    } else if m.kind@ == "ping"@ {
        v2 == v && outs == seq![pong_wire(v.name, m.source.unwrap()@)]
    } else if m.kind@ == "pong"@ {
        v2 == (HandlerView { pings: 0, ..v }) && outs.len() == 0
    } else if m.kind@ == "pingSelf"@ {
        v2 == v && outs == seq![pong_self_wire(v.name)]
    } else if m.kind@ == "pongSelf"@ {
        v2 == v && outs.len() == 0
    } else if m.kind@ == "rejoin"@ {
        v2 == v && outs == seq![rejoin_ack_wire(m.destination.unwrap()@, m.source.unwrap()@)]
    } else if m.kind@ == "rejoinAck"@ {
        rejoin_ack_ok(v, m.source.unwrap()@, v2, outs)
    } else {
        v2 == v && outs.len() == 0
    }
}

/// A response resolves its query at most once: after a `findSuccResponse`
/// no query stays pending under its identifier.
pub proof fn lemma_response_resolves_query(
    v: HandlerView,
    node: NodeRef,
    query_id: i32,
    id: Option<i32>,
    v2: HandlerView,
    outs: Seq<Wire>,
)
    requires
        find_succ_response_ok(v, node, query_id, id, v2, outs),
    ensures
        !v2.node.queries.contains_key(query_id),
{
}

impl HandlerInner {
    /// Well-formedness: the node is well formed and named as the handler,
    /// the finger table has `M` entries, the successor list is short, and
    /// the missed pings stay within the threshold.
    pub closed spec fn wf(&self) -> bool {
        &&& self.node.wf()
        &&& self.node_name@ == self.node@.me.name
        &&& self.node@.fingers.len() == M
        &&& self.node@.successors.len() <= 64
        &&& 0 <= self.pings <= FAILURE_THRESHOLD
    }

    /// A handler for the node named `node_name` with the configured peers,
    /// alone on its ring and not yet greeted by the broker.
    pub fn new(node_name: &str, peer: Option<Vec<String>>) -> (r: HandlerInner)
        ensures
            r.wf(),
            !r@.connected,
            r@.name == node_name@,
            r@.peers == match peer {
                Some(p) => p@.map_values(|s: String| s@),
                None => Seq::empty(),
            },
            r@.pings == 0,
            fresh_node(
                r@.node,
                NodeRef { id: key_id(node_name@) as i32, name: node_name@ },
                M as int,
                r@.node.successors.len() as int,
            ),
            is_successor_list_len(r@.node.successors.len() as int, r@.peers.len() as int),
    {
        let peer_names = match peer {
            Some(peers) => peers,
            None => Vec::new(),
        };
        let tau = successor_list_len(peer_names.len());
        let id = hash(node_name);
        proof {
            lemma2_to64();
        }
        HandlerInner {
            connected: false,
            node_name: node_name.to_owned(),
            node: Node::new(M, node_name, id, tau),
            peer_names,
            pings: 0,
        }
    }

    /// The successor, the first finger and the head of the successor list
    /// name the same node in every well-formed state.
    pub proof fn lemma_successor_agreement(&self)
        requires
            self.wf(),
        ensures
            self@.node.fingers[0].1 == self@.node.successor,
            self@.node.successors[0].0 == self@.node.successor,
    {
    }

    /// The node's state.
    pub fn node(&self) -> (r: &Node)
        ensures
            r@ == self@.node,
    {
        &self.node
    }

    /// Whether the broker has greeted the node.
    pub fn is_connected(&self) -> (r: bool)
        ensures
            r == self@.connected,
    {
        self.connected
    }

    /// The number of pings the successor has left unanswered.
    pub fn missed_pings(&self) -> (r: i32)
        ensures
            r == self@.pings,
    {
        self.pings
    }

    /// A `join` to every configured peer, in order.
    pub fn join(&self) -> (r: Vec<Outbound>)
        ensures
            wires(r@) == Seq::new(self@.peers.len(), |i: int| join_wire(self@.name, self@.peers[i])),
    {
        let mut out: Vec<Outbound> = Vec::new();
        let mut i: usize = 0;
        while i < self.peer_names.len()
            invariant
                i <= self@.peers.len(),
                wires(out@) == Seq::new(i as nat, |j: int| join_wire(self@.name, self@.peers[j])),
            decreases self@.peers.len() - i,
        {
            let ghost before = wires(out@);
            let j = Join::new(self.node_name.as_str(), self.peer_names[i].as_str());
            out.push(Outbound::Join(j));
            assert(self@.peers[i as int] == self.peer_names@[i as int]@);
            assert(wires(out@) =~= before.push(j@));
            assert(wires(out@) =~= Seq::new((i + 1) as nat, |j: int| join_wire(self@.name, self@.peers[j])));
            i += 1;
        }
        out
    }

    /// Asks the successor for its predecessor.
    pub fn stabilize_ring(&self) -> (r: Outbound)
        ensures
            r@ == get_pred_wire(self@.name, self@.node.successor.name),
    {
        let successor = self.node.get_successor();
        Outbound::GetPred(GetPred::new(self.node_name.as_str(), successor.node_name.as_str()))
    }

    /// A ping from the node to itself.
    pub fn ping_self(&self) -> (r: Outbound)
        ensures
            r@ == ping_self_wire(self@.name),
    {
        Outbound::PingSelf(PingSelf::new(self.node_name.as_str()))
    }

    /// A `rejoin` to the last failed successor, if there is one.
    pub fn heal_partition(&self) -> (r: Option<Outbound>)
        ensures
            match self@.node.last_failed {
                Some(f) => r.is_some() && r.unwrap()@ == rejoin_wire(self@.name, f.0.name),
                None => r.is_none(),
            },
    {
        match self.node.get_failed_successor() {
            Some(last_fail) => Some(
                Outbound::Rejoin(Rejoin::new(self.node_name.as_str(), last_fail.node_name.as_str())),
            ),
            None => None,
        }
    }

    /// Routes a query for the successor of `query_id` on behalf of `src`.
    pub fn find_successor(&self, query_id: i32, src: &str, id: Option<i32>) -> (r: Outbound)
        requires
            self.wf(),
        ensures
            r@ == find_successor_wire(self@, query_id, src@, id),
    {
        let (is_self, next) = self.node.find_predecessor(query_id);
        if is_self {
            let successor = self.node.get_successor();
            Outbound::FindSuccResponse(
                FindSuccResponse::new(
                    self.node_name.as_str(),
                    src,
                    successor.node_name.as_str(),
                    successor.id,
                    query_id,
                    id,
                ),
            )
        } else {
            Outbound::FindSucc(FindSucc::new(src, next.node_name.as_str(), query_id, id))
        }
    }

    /// A `duplicate` of the store to each live successor other than the
    /// node itself.
    pub fn duplicate_to_successors(&self) -> (r: Vec<Outbound>)
        requires
            self.wf(),
        ensures
            copies_to_successors(wires(r@), self@),
    {
        let live = self.node.live_successors();
        let ghost lv = live@.map_values(|e: NodeEntry| e@);
        let mut out: Vec<Outbound> = Vec::new();
        let mut i: usize = 0;
        while i < live.len()
            invariant
                self.wf(),
                lv == live@.map_values(|e: NodeEntry| e@),
                lv == live_nodes(self@.node.successors, self@.node.successors.len() as int),
                i <= live@.len(),
                wires(out@).len() == others(lv, self@.name, i as int).len(),
                forall|j: int|
                    0 <= j < wires(out@).len() ==> is_copy(
                        #[trigger] wires(out@)[j],
                        self@.name,
                        others(lv, self@.name, i as int)[j].name,
                        self@.node.me.id,
                        self@.node.store,
                    ),
            decreases live@.len() - i,
        {
            if !(live[i].node_name == self.node_name) {
                let (keys, values) = self.node.duplicate_store();
                let d = Duplicate::new(
                    self.node_name.as_str(),
                    live[i].node_name.as_str(),
                    self.node.get_id(),
                    keys,
                    values,
                );
                let ghost before = wires(out@);
                out.push(Outbound::Duplicate(d));
                assert(wires(out@) =~= before.push(d@));
            }
            i += 1;
        }
        out
    }

    /// Refreshes finger `i`: records the query under the finger's start and
    /// routes it.
    pub fn fix_finger(&mut self, i: i32) -> (r: Outbound)
        requires
            old(self).wf(),
            1 <= i < M,
        ensures
            final(self).wf(),
            fix_finger_ok(old(self)@, i, final(self)@, r@),
    {
        let query_id = self.node.get_finger_start(i);
        self.node.push_query(query_id, QueryType::FixFinger);
        self.find_successor(query_id, self.node_name.as_str(), Some(i))
    }

    /// Refreshes a finger drawn at random among all but the first.
    pub fn fix_fingers(&mut self) -> (r: Outbound)
        requires
            old(self).wf(),
        ensures
            final(self).wf(),
            exists|i: i32| 1 <= i < M && fix_finger_ok(old(self)@, i, final(self)@, r@),
    {
        let i = 1 + random_below((M - 1) as usize) as i32;
        self.fix_finger(i)
    }

    /// Refreshes the successor-list entry after `slot`: records the query
    /// under the identifier after the one at `slot` and routes it.
    pub fn fix_successor_from(&mut self, slot: usize) -> (r: Outbound)
        requires
            old(self).wf(),
            slot < old(self)@.node.successors.len(),
        ensures
            final(self).wf(),
            fix_successor_ok(old(self)@, slot as int, final(self)@, r@),
    {
        let sid = self.node.successor_at_index(slot);
        let query_id = if sid == i32::MAX {
            i32::MIN
        } else {
            sid + 1
        };
        self.node.push_query(query_id, QueryType::FixSuccessor);
        self.find_successor(query_id, self.node_name.as_str(), Some((slot + 1) as i32))
    }

    /// Refreshes the entry after a live successor drawn at random, the last
    /// slot left out; nothing happens when there is none.
    pub fn fix_successors(&mut self) -> (r: Option<Outbound>)
        requires
            old(self).wf(),
        ensures
            final(self).wf(),
            refreshable_indexes(old(self)@.node.successors, old(self)@.node.successors.len() as int).len()
                == 0 ==> final(self)@ == old(self)@ && r.is_none(),
            refreshable_indexes(old(self)@.node.successors, old(self)@.node.successors.len() as int).len()
                > 0 ==> exists|slot: int|
                0 <= slot < old(self)@.node.successors.len() && refreshable(old(self)@.node.successors, slot)
                    && r.is_some() && fix_successor_ok(old(self)@, slot, final(self)@, r.unwrap()@),
    {
        let indexes = self.node.live_successor_indexes();
        let ghost ix = refreshable_indexes(self@.node.successors, self@.node.successors.len() as int);
        assert(indexes@.len() == ix.len()) by {
            assert(indexes@.map_values(|x: usize| x as int).len() == indexes@.len());
        }
        if indexes.len() == 0 {
            return None;
        }
        let k = random_below(indexes.len());
        let slot = indexes[k];
        proof {
            assert(indexes@.map_values(|x: usize| x as int)[k as int] == slot as int);
            lemma_refreshable_indexes(self@.node.successors, self@.node.successors.len() as int);
        }
        Some(self.fix_successor_from(slot))
    }

    /// Checks on the successor: pings it while it has missed fewer pongs
    /// than the threshold, and otherwise declares it failed and notifies
    /// the new successor.
    pub fn ping_successor(&mut self) -> (r: Option<Outbound>)
        requires
            old(self).wf(),
        ensures
            final(self).wf(),
            ping_successor_ok(
                old(self)@,
                final(self)@,
                match r {
                    Some(o) => Some(o@),
                    None => None,
                },
            ),
    {
        if self.pings < FAILURE_THRESHOLD {
            let successor = self.node.get_successor();
            if !(successor.node_name == self.node_name) {
                self.pings += 1;
                Some(Outbound::Ping(Ping::new(self.node_name.as_str(), successor.node_name.as_str())))
            } else {
                None
            }
        } else {
            self.node.successor_failure();
            let new_successor = self.node.get_successor();
            let id = self.node.get_id();
            self.pings = 0;
            Some(
                Outbound::Notify(
                    Notify::new(self.node_name.as_str(), new_successor.node_name.as_str(), id, true),
                ),
            )
        }
    }

    /// `hello`: greets the broker once, then asks every peer to join.
    pub fn on_hello(&mut self) -> (r: Vec<Outbound>)
        requires
            old(self).wf(),
        ensures
            final(self).wf(),
            hello_ok(old(self)@, final(self)@, wires(r@)),
    {
        let mut out: Vec<Outbound> = Vec::new();
        if !self.connected {
            out.push(Outbound::HelloResponse(HelloResponse::new(self.node_name.as_str())));
        }
        self.connected = true;
        let mut joins = self.join();
        let ghost first = wires(out@);
        let ghost rest = wires(joins@);
        out.append(&mut joins);
        proof {
            assert(wires(out@) =~= first + rest);
            if !old(self)@.connected {
                assert(first =~= seq![hello_response_wire(old(self)@.name)]);
            } else {
                assert(first =~= Seq::<Wire>::empty());
            }
        }
        out
    }

    /// `set`: confirms to the client, records the query under the key's
    /// identifier and routes it.
    pub fn on_set(&mut self, id: i32, key: String, value: String) -> (r: Vec<Outbound>)
        requires
            old(self).wf(),
        ensures
            final(self).wf(),
            set_ok(old(self)@, id, key, value, final(self)@, wires(r@)),
    {
        let confirm = SetResponse::new(id, key.as_str(), value.as_str());
        let query_id = hash(key.as_str());
        self.node.push_query(query_id, QueryType::Put(key, value));
        let route = self.find_successor(query_id, self.node_name.as_str(), None);
        let out = vec![Outbound::SetResponse(confirm), route];
        assert(wires(out@) =~= seq![confirm@, route@]);
        out
    }

    /// `get`: records the query under the key's identifier and routes it.
    pub fn on_get(&mut self, id: i32, key: String) -> (r: Vec<Outbound>)
        requires
            old(self).wf(),
        ensures
            final(self).wf(),
            get_ok(old(self)@, id, key, final(self)@, wires(r@)),
    {
        let query_id = hash(key.as_str());
        self.node.push_query(query_id, QueryType::Get(key));
        let route = self.find_successor(query_id, self.node_name.as_str(), Some(id));
        let out = vec![route];
        assert(wires(out@) =~= seq![route@]);
        out
    }

    /// `join`: acknowledges, the addressee as the source.
    pub fn on_join(&self, source: &str, destination: &str) -> (r: Vec<Outbound>)
        ensures
            wires(r@) == seq![join_ack_wire(destination@, source@)],
    {
        let ack = JoinAck::new(destination, source);
        let out = vec![Outbound::JoinAck(ack)];
        assert(wires(out@) =~= seq![ack@]);
        out
    }

    /// `joinAck`: forgets the predecessor and asks the acknowledger for the
    /// successor of the node's own identifier.
    pub fn on_join_ack(&mut self, source: &str) -> (r: Vec<Outbound>)
        requires
            old(self).wf(),
        ensures
            final(self).wf(),
            join_ack_ok(old(self)@, source@, final(self)@, wires(r@)),
    {
        self.node.set_predecessor(None);
        let id = self.node.get_id();
        self.node.push_query(id, QueryType::JoinAck);
        let ask = FindSucc::new(self.node_name.as_str(), source, id, None);
        let out = vec![Outbound::FindSucc(ask)];
        assert(wires(out@) =~= seq![ask@]);
        out
    }

    /// `findSucc`: routes the query on behalf of its source.
    pub fn on_find_succ(&self, query_id: i32, source: &str, id: Option<i32>) -> (r: Vec<Outbound>)
        requires
            self.wf(),
        ensures
            wires(r@) == seq![find_successor_wire(self@, query_id, source@, id)],
    {
        let route = self.find_successor(query_id, source, id);
        let out = vec![route];
        assert(wires(out@) =~= seq![route@]);
        out
    }

    /// `getPred`: answers with the predecessor, or with nothing.
    pub fn on_get_pred(&self, source: &str) -> (r: Vec<Outbound>)
        ensures
            wires(r@) == seq![
                get_pred_response_wire(
                    self@.name,
                    source@,
                    match self@.node.predecessor {
                        Some(p) => Some(p.id),
                        None => None,
                    },
                    match self@.node.predecessor {
                        Some(p) => Some(p.name),
                        None => None,
                    },
                ),
            ],
    {
        let answer = match self.node.get_predecessor() {
            Some(predecessor) => GetPredResponse::new(
                self.node_name.as_str(),
                source,
                Some(predecessor.id),
                Some(predecessor.node_name),
            ),
            None => GetPredResponse::new(self.node_name.as_str(), source, None, None),
        };
        let out = vec![Outbound::GetPredResponse(answer)];
        assert(wires(out@) =~= seq![answer@]);
        out
    }

    /// `getPredResponse`: adopts the successor's predecessor when it is
    /// closer, then notifies the successor.
    pub fn on_get_pred_response(&mut self, pred_id: Option<i32>, pred_name: Option<String>) -> (r: Vec<Outbound>)
        requires
            old(self).wf(),
        ensures
            final(self).wf(),
            get_pred_response_ok(old(self)@, pred_id, opt_view(pred_name), final(self)@, wires(r@)),
    {
        if let Some(pid) = pred_id {
            if let Some(pname) = pred_name {
                self.node.stabilize_successor(pid, pname.as_str());
            }
        }
        let successor = self.node.get_successor();
        let id = self.node.get_id();
        let note = Notify::new(self.node_name.as_str(), successor.node_name.as_str(), id, false);
        let out = vec![Outbound::Notify(note)];
        assert(wires(out@) =~= seq![note@]);
        out
    }

    /// `retrieve`: answers the client from the local store.
    pub fn on_retrieve(&self, id: i32, key: &str) -> (r: Vec<Outbound>)
        requires
            self.wf(),
        ensures
            retrieve_ok(self@, id, key@, self@, wires(r@)),
    {
        let answer = match self.node.get(key) {
            Some(v) => Outbound::GetSuccessResponse(GetSuccessResponse::new(id, key, v.as_str())),
            None => Outbound::GetFailResponse(GetFailResponse::new(id, key)),
        };
        let out = vec![answer];
        assert(wires(out@) =~= seq![answer@]);
        out
    }

    /// `ping`: answers with a pong.
    pub fn on_ping(&self, source: &str) -> (r: Vec<Outbound>)
        ensures
            wires(r@) == seq![pong_wire(self@.name, source@)],
    {
        let p = Pong::new(self.node_name.as_str(), source);
        let out = vec![Outbound::Pong(p)];
        assert(wires(out@) =~= seq![p@]);
        out
    }

    /// `pong`: the successor is alive; the missed pings start over.
    pub fn on_pong(&mut self)
        requires
            old(self).wf(),
        ensures
            final(self).wf(),
            final(self)@ == (HandlerView { pings: 0, ..old(self)@ }),
    {
        self.pings = 0;
    }

    /// `pingSelf`: answers the node itself.
    pub fn on_ping_self(&self) -> (r: Vec<Outbound>)
        ensures
            wires(r@) == seq![pong_self_wire(self@.name)],
    {
        let p = PongSelf::new(self.node_name.as_str());
        let out = vec![Outbound::PongSelf(p)];
        assert(wires(out@) =~= seq![p@]);
        out
    }

    /// `rejoin`: acknowledges, the addressee as the source.
    pub fn on_rejoin(&self, source: &str, destination: &str) -> (r: Vec<Outbound>)
        ensures
            wires(r@) == seq![rejoin_ack_wire(destination@, source@)],
    {
        let ack = RejoinAck::new(destination, source);
        let out = vec![Outbound::RejoinAck(ack)];
        assert(wires(out@) =~= seq![ack@]);
        out
    }

    /// `rejoinAck`: forgets the failed successor and asks the acknowledger
    /// for the successor of the node's own identifier.
    pub fn on_rejoin_ack(&mut self, source: &str) -> (r: Vec<Outbound>)
        requires
            old(self).wf(),
        ensures
            final(self).wf(),
            rejoin_ack_ok(old(self)@, source@, final(self)@, wires(r@)),
    {
        self.node.reset_failed_successor();
        let id = self.node.get_id();
        self.node.push_query(id, QueryType::JoinAck);
        let ask = FindSucc::new(self.node_name.as_str(), source, id, None);
        let out = vec![Outbound::FindSucc(ask)];
        assert(wires(out@) =~= seq![ask@]);
        out
    }

    /// A `duplicate` of the store to `dst`.
    fn copy_of_store(&self, dst: &str) -> (r: Outbound)
        requires
            self.wf(),
        ensures
            is_copy(r@, self@.name, dst@, self@.node.me.id, self@.node.store),
    {
        let (keys, values) = self.node.duplicate_store();
        Outbound::Duplicate(Duplicate::new(self.node_name.as_str(), dst, self.node.get_id(), keys, values))
    }

    /// `findSuccResponse`: resolves the pending query, if any, by its kind:
    /// a join takes the responder as successor, a finger or successor-list
    /// refresh stores it, and a client get or set is sent on to it.
    pub fn on_find_succ_response(&mut self, node_name: &str, node_id: i32, query_id: i32, id: Option<i32>) -> (r:
        Vec<Outbound>)
        requires
            old(self).wf(),
        ensures
            final(self).wf(),
            find_succ_response_ok(
                old(self)@,
                NodeRef { id: node_id, name: node_name@ },
                query_id,
                id,
                final(self)@,
                wires(r@),
            ),
    {
        let mut out: Vec<Outbound> = Vec::new();
        match self.node.pop_query(query_id) {
            Some(QueryType::JoinAck) => {
                self.node.set_successor(NodeEntry::new(node_id, node_name));
            },
            Some(QueryType::FixFinger) => {
                if let Some(i) = id {
                    if 1 <= i && i < M {
                        self.node.set_finger(i, NodeEntry::new(node_id, node_name));
                    }
                }
            },
            Some(QueryType::Get(k)) => {
                if let Some(i) = id {
                    let m = Retrieve::new(self.node_name.as_str(), node_name, k.as_str(), i);
                    out.push(Outbound::Retrieve(m));
                    assert(wires(out@) =~= seq![m@]);
                } else {
                    assert(wires(out@) =~= Seq::<Wire>::empty());
                }
            },
            Some(QueryType::Put(k, v)) => {
                let m = Store::new(self.node_name.as_str(), node_name, k.as_str(), v.as_str());
                out.push(Outbound::Store(m));
                assert(wires(out@) =~= seq![m@]);
            },
            Some(QueryType::FixSuccessor) => {
                if let Some(i) = id {
                    if 1 <= i && (i as usize) < self.node.successor_count() {
                        if self.node.fix_successor(i, NodeEntry::new(node_id, node_name)) {
                            let m = self.copy_of_store(node_name);
                            out.push(m);
                            assert(wires(out@) =~= seq![m@]);
                        }
                    }
                }
            },
            None => {},
        }
        out
    }

    /// `notify`: updates the predecessor and moves keys as the directive
    /// says: asks the successor for the new range, hands the keys of the
    /// range over to the new predecessor, or copies the reclaimed store to
    /// the successors.
    pub fn on_notify(&mut self, source: &str, node_id: i32, failed: bool) -> (r: Vec<Outbound>)
        requires
            old(self).wf(),
        ensures
            final(self).wf(),
            notify_ok(old(self)@, NodeRef { id: node_id, name: source@ }, failed, final(self)@, wires(r@)),
    {
        let transfer = self.node.stabilize_predecessor(node_id, source, failed);
        match transfer {
            TransferType::Get(min, max) => {
                let successor = self.node.get_successor();
                let m = TransferRequest::new(self.node_name.as_str(), successor.node_name.as_str(), min, max);
                let out = vec![Outbound::TransferRequest(m)];
                assert(wires(out@) =~= seq![m@]);
                out
            },
            TransferType::Send(min, max, pred) => {
                let (keys, values) = self.node.transfer_kvs_range(min, max);
                let m = TransferKeys::new(self.node_name.as_str(), pred.as_str(), keys, values);
                let out = vec![Outbound::TransferKeys(m)];
                assert(wires(out@) =~= seq![m@]);
                out
            },
            TransferType::Duplicate => self.duplicate_to_successors(),
            TransferType::Nothing => Vec::new(),
        }
    }

    /// `store`: keeps the pair and copies the store to the successors.
    pub fn on_store(&mut self, key: String, value: String) -> (r: Vec<Outbound>)
        requires
            old(self).wf(),
        ensures
            final(self).wf(),
            store_ok(old(self)@, key@, value@, final(self)@, wires(r@)),
    {
        self.node.set(key, value);
        self.duplicate_to_successors()
    }

    /// `transferRequest`: hands the keys of the range over to the
    /// requester.
    pub fn on_transfer_request(&mut self, source: &str, min: i32, max: i32) -> (r: Vec<Outbound>)
        requires
            old(self).wf(),
        ensures
            final(self).wf(),
            transfer_request_ok(old(self)@, source@, min, max, final(self)@, wires(r@)),
    {
        let (keys, values) = self.node.transfer_kvs_range(min, max);
        let m = TransferKeys::new(self.node_name.as_str(), source, keys, values);
        let out = vec![Outbound::TransferKeys(m)];
        assert(wires(out@) =~= seq![m@]);
        out
    }

    /// `transferKeys`: keeps the pairs, in order, and copies the store to
    /// the successors.
    pub fn on_transfer_keys(&mut self, keys: &Vec<String>, values: &Vec<String>) -> (r: Vec<Outbound>)
        requires
            old(self).wf(),
        ensures
            final(self).wf(),
            transfer_keys_ok(old(self)@, keys@, values@, final(self)@, wires(r@)),
    {
        self.node.set_all(keys, values);
        self.duplicate_to_successors()
    }

    /// `duplicate`: replaces the replica kept for the owner `id`.
    pub fn on_duplicate(&mut self, id: i32, keys: &Vec<String>, values: &Vec<String>)
        requires
            old(self).wf(),
        ensures
            final(self).wf(),
            duplicate_ok(old(self)@, id, keys@, values@, final(self)@, Seq::empty()),
    {
        let mut kvs = KvStore::new();
        kvs.insert_all(keys, values);
        assert(kvs@ =~= zip_map(keys@, values@));
        self.node.set_for_replica(id, kvs);
    }

    /// Handles a received message: dispatches it by its type, updates the
    /// state and returns the messages to send, in order. A message that
    /// lacks a field its type requires is refused and changes nothing; one
    /// of an unknown type is discarded.
    pub fn handle_messages(&mut self, msg: RcvdMessage) -> (r: Result<Vec<Outbound>, HandleError>)
        requires
            old(self).wf(),
        ensures
            final(self).wf(),
            r.is_err() == missing_field(msg),
            r.is_err() ==> final(self)@ == old(self)@,
            r.is_ok() ==> handled(old(self)@, msg, final(self)@, wires(r.unwrap()@)),
            !known_kind(msg.kind@) ==> r.is_ok() && final(self)@ == old(self)@ && r.unwrap()@.len() == 0,
    {
        let ghost m = msg;
        let RcvdMessage {
            kind,
            key,
            value,
            id,
            destination,
            source,
            query_id,
            node_name,
            node_id,
            pred_id,
            pred_name,
            min,
            max,
            keys,
            values,
            failed,
        } = msg;
        let t = kind.as_str();
        if same_text(t, "hello") {
            Ok(self.on_hello())
        } else if same_text(t, "set") {
            match (id, key, value) {
                (Some(id), Some(key), Some(value)) => Ok(self.on_set(id, key, value)),
                _ => Err(HandleError::MissingField),
            }
        } else if same_text(t, "get") {
            match (id, key) {
                (Some(id), Some(key)) => Ok(self.on_get(id, key)),
                _ => Err(HandleError::MissingField),
            }
        } else if same_text(t, "join") {
            match (destination, source) {
                (Some(destination), Some(source)) => Ok(self.on_join(source.as_str(), destination.as_str())),
                _ => Err(HandleError::MissingField),
            }
        } else if same_text(t, "joinAck") {
            match source {
                Some(source) => Ok(self.on_join_ack(source.as_str())),
                _ => Err(HandleError::MissingField),
            }
        } else if same_text(t, "findSucc") {
            match (query_id, source) {
                (Some(query_id), Some(source)) => Ok(self.on_find_succ(query_id, source.as_str(), id)),
                _ => Err(HandleError::MissingField),
            }
        } else if same_text(t, "findSuccResponse") {
            match (node_name, node_id, query_id) {
                (Some(node_name), Some(node_id), Some(query_id)) => Ok(self.on_find_succ_response(node_name.as_str(), node_id, query_id, id)),
                _ => Err(HandleError::MissingField),
            }
        } else if same_text(t, "getPred") {
            match source {
                Some(source) => Ok(self.on_get_pred(source.as_str())),
                _ => Err(HandleError::MissingField),
            }
        } else if same_text(t, "getPredResponse") {
            Ok(self.on_get_pred_response(pred_id, pred_name))
        } else if same_text(t, "notify") {
            match (source, node_id, failed) {
                (Some(source), Some(node_id), Some(failed)) => Ok(self.on_notify(source.as_str(), node_id, failed)),
                _ => Err(HandleError::MissingField),
            }
        } else if same_text(t, "retrieve") {
            match (id, key) {
                (Some(id), Some(key)) => Ok(self.on_retrieve(id, key.as_str())),
                _ => Err(HandleError::MissingField),
            }
        } else if same_text(t, "store") {
            match (key, value) {
                (Some(key), Some(value)) => Ok(self.on_store(key, value)),
                _ => Err(HandleError::MissingField),
            }
        } else if same_text(t, "transferRequest") {
            match (source, min, max) {
                (Some(source), Some(min), Some(max)) => Ok(self.on_transfer_request(source.as_str(), min, max)),
                _ => Err(HandleError::MissingField),
            }
        } else if same_text(t, "transferKeys") {
            match (keys, values) {
                (Some(keys), Some(values)) => Ok(self.on_transfer_keys(&keys, &values)),
                _ => Err(HandleError::MissingField),
            }
        } else if same_text(t, "duplicate") {
            match (id, keys, values) {
                (Some(id), Some(keys), Some(values)) => {
                    self.on_duplicate(id, &keys, &values);
                    Ok(Vec::new())
                },
                _ => Err(HandleError::MissingField),
            }
        } else if same_text(t, "ping") {
            match source {
                Some(source) => Ok(self.on_ping(source.as_str())),
                _ => Err(HandleError::MissingField),
            }
        } else if same_text(t, "pong") {
            self.on_pong();
            Ok(Vec::new())
        } else if same_text(t, "pingSelf") {
            Ok(self.on_ping_self())
        } else if same_text(t, "pongSelf") {
            Ok(Vec::new())
        } else if same_text(t, "rejoin") {
            match (destination, source) {
                (Some(destination), Some(source)) => Ok(self.on_rejoin(source.as_str(), destination.as_str())),
                _ => Err(HandleError::MissingField),
            }
        } else if same_text(t, "rejoinAck") {
            match source {
                Some(source) => Ok(self.on_rejoin_ack(source.as_str())),
                _ => Err(HandleError::MissingField),
            }
        } else {
            Ok(Vec::new())
        }
    }
}

} // verus!
