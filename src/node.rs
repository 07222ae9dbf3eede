//! A node's local state: its identity, finger table, successor list,
//! predecessor, primary store, replica stores, pending queries and last
//! failed successor, with the Chord operations on them.
use crate::hash::{in_range, in_range_spec};
use crate::kv::{lists_hold, pairs_to_map, range_part, rest_part, strings_view, KvStore};
use std::collections::HashMap;
use vstd::arithmetic::power2::{lemma2_to64, lemma_pow2_strictly_increases, lemma_pow2_unfold, pow2};
use vstd::prelude::*;

verus! {

broadcast use vstd::std_specs::hash::group_hash_axioms;

/// A node as the contracts see it: its ring identifier and its name.
pub struct NodeRef {
    pub id: i32,
    pub name: Seq<char>,
}

/// Node metadata.
pub struct NodeEntry {
    pub id: i32,
    pub node_name: String,
}

impl View for NodeEntry {
    type V = NodeRef;

    open spec fn view(&self) -> NodeRef {
        NodeRef { id: self.id, name: self.node_name@ }
    }
}

impl NodeEntry {
    /// A node entry with the given identifier and name.
    pub fn new(id: i32, node_name: &str) -> (r: NodeEntry)
        ensures
            r@ == (NodeRef { id, name: node_name@ }),
    {
        NodeEntry { id, node_name: node_name.to_owned() }
    }

    /// A copy of this entry.
    pub fn duplicate(&self) -> (r: NodeEntry)
        ensures
            r@ == self@,
    {
        NodeEntry { id: self.id, node_name: self.node_name.clone() }
    }
}

/// A finger: the start of the interval it covers and the node that
/// succeeds that start.
struct FingerEntry {
    start: i32,
    node: NodeEntry,
}

impl FingerEntry {
    fn new(start: i32, id: i32, node_name: &str) -> (r: FingerEntry)
        ensures
            r.start == start,
            r.node@ == (NodeRef { id, name: node_name@ }),
    {
        FingerEntry { start, node: NodeEntry::new(id, node_name) }
    }
}

/// An entry of the successor list and whether it is taken to be failed.
struct SuccessorEntry {
    node: NodeEntry,
    failed: bool,
}

impl SuccessorEntry {
    fn new(id: i32, node_name: &str) -> (r: SuccessorEntry)
        ensures
            r.node@ == (NodeRef { id, name: node_name@ }),
            r.failed,
    {
        SuccessorEntry { node: NodeEntry::new(id, node_name), failed: true }
    }
}

/// Types of key queries a node can make to other nodes.
pub enum QueryType {
    JoinAck,
    FixFinger,
    Get(String),
    Put(String, String),
    FixSuccessor,
}

/// Ways that a node can transfer keys, or be transferred them, after a
/// change of predecessor.
pub enum TransferType {
    /// Ask the successor for the keys in this range.
    Get(i32, i32),
    /// Send the keys in this range to the named new predecessor.
    Send(i32, i32, String),
    /// Push the store to the successors as replicas.
    Duplicate,
    Nothing,
}

/// The start of finger `i` of a node with identifier `id` on a ring of
/// `2^m` identifiers.
pub open spec fn finger_start(id: int, i: int, m: int) -> int {
    (id + pow2(i as nat)) % (pow2(m as nat) as int)
}

/// A node alone on a ring: every finger and successor-list entry names the
/// node itself, the successor entries are marked failed, the node is its
/// own predecessor, and nothing is stored or pending.
pub open spec fn fresh_node(v: NodeView, me: NodeRef, m: int, tau: int) -> bool {
    &&& v.me == me
    &&& v.successor == me
    &&& v.predecessor == Some(me)
    &&& v.fingers.len() == m
    &&& forall|i: int| 0 <= i < m ==> (#[trigger] v.fingers[i]).1 == me
    &&& v.successors.len() == tau
    &&& forall|i: int| 0 <= i < tau ==> #[trigger] v.successors[i] == (me, true)
    &&& v.store.is_empty()
    &&& v.replicas.len() == 0
    &&& v.queries.is_empty()
    &&& v.last_failed.is_none()
}

/// What a node holds, as plain values.
pub struct NodeView {
    pub me: NodeRef,
    /// Each finger's start and node.
    pub fingers: Seq<(i32, NodeRef)>,
    pub successor: NodeRef,
    pub predecessor: Option<NodeRef>,
    /// Each successor-list entry's node and failed flag.
    pub successors: Seq<(NodeRef, bool)>,
    pub store: Map<Seq<char>, Seq<char>>,
    /// Each replica's owner identifier and contents, in insertion order.
    pub replicas: Seq<(i32, Map<Seq<char>, Seq<char>>)>,
    pub queries: Map<i32, QueryType>,
    /// The last failed successor's node and failed flag.
    pub last_failed: Option<(NodeRef, bool)>,
}

impl NodeView {
    /// The invariant of every reachable state: the tables are not empty, the
    /// successor, the first finger and the head of the successor list agree,
    /// the fingers start where the ring arithmetic puts them, and no owner
    /// has two replicas.
    pub open spec fn consistent(self) -> bool {
        &&& 1 <= self.fingers.len() <= 30
        &&& 1 <= self.successors.len()
        &&& self.fingers[0].1 == self.successor
        &&& self.successors[0].0 == self.successor
        &&& forall|i: int|
            0 <= i < self.fingers.len() ==> #[trigger] self.fingers[i].0 == finger_start(
                self.me.id as int,
                i,
                self.fingers.len() as int,
            )
        &&& forall|i: int, j: int|
            0 <= i < j < self.replicas.len() ==> self.replicas[i].0 != self.replicas[j].0
    }

    /// The same state with a new successor, as the first finger and the
    /// live head of the successor list too.
    pub open spec fn with_successor(self, s: NodeRef) -> NodeView {
        NodeView {
            successor: s,
            fingers: self.fingers.update(0, (self.fingers[0].0, s)),
            successors: self.successors.update(0, (s, false)),
            ..self
        }
    }
}

/// A transfer directive as plain values.
pub enum Transfer {
    Get(i32, i32),
    Send(i32, i32, Seq<char>),
    Duplicate,
    Nothing,
}

impl View for TransferType {
    type V = Transfer;

    open spec fn view(&self) -> Transfer {
        match self {
            TransferType::Get(a, b) => Transfer::Get(*a, *b),
            TransferType::Send(a, b, n) => Transfer::Send(*a, *b, n@),
            TransferType::Duplicate => Transfer::Duplicate,
            TransferType::Nothing => Transfer::Nothing,
        }
    }
}

/// The finger that `closest_preceding_finger` picks among the first `n`
/// fingers: the highest one whose node lies strictly between the node and
/// `id`, or the node itself when there is none.
pub open spec fn closest_preceding(me: NodeRef, fingers: Seq<(i32, NodeRef)>, id: int, n: int) -> NodeRef
    decreases n,
{
    if n <= 0 {
        me
    } else if in_range_spec(fingers[n - 1].1.id as int, me.id as int, id, false) {
        fingers[n - 1].1
    } else {
        closest_preceding(me, fingers, id, n - 1)
    }
}

/// Whether successor-list slot `i` is live and is not the last slot.
pub open spec fn refreshable(s: Seq<(NodeRef, bool)>, i: int) -> bool {
    !s[i].1 && i != s.len() - 1
}

/// The slots among the first `n` that `refreshable` admits, in order.
pub open spec fn refreshable_indexes(s: Seq<(NodeRef, bool)>, n: int) -> Seq<int>
    decreases n,
{
    if n <= 0 {
        Seq::empty()
    } else if refreshable(s, n - 1) {
        refreshable_indexes(s, n - 1).push(n - 1)
    } else {
        refreshable_indexes(s, n - 1)
    }
}

/// The nodes of the live entries among the first `n`, in order.
pub open spec fn live_nodes(s: Seq<(NodeRef, bool)>, n: int) -> Seq<NodeRef>
    decreases n,
{
    if n <= 0 {
        Seq::empty()
    } else if !s[n - 1].1 {
        live_nodes(s, n - 1).push(s[n - 1].0)
    } else {
        live_nodes(s, n - 1)
    }
}

/// The primary store after the replicas among the first `n` whose owners
/// lie in `(min, max]` are merged into it, in order.
pub open spec fn reclaimed(
    store: Map<Seq<char>, Seq<char>>,
    reps: Seq<(i32, Map<Seq<char>, Seq<char>>)>,
    min: int,
    max: int,
    n: int,
) -> Map<Seq<char>, Seq<char>>
    decreases n,
{
    if n <= 0 {
        store
    } else if in_range_spec(reps[n - 1].0 as int, min, max, true) {
        reclaimed(store, reps, min, max, n - 1).union_prefer_right(reps[n - 1].1)
    } else {
        reclaimed(store, reps, min, max, n - 1)
    }
}

/// The replicas after the one of owner `id` is set to `m`: replaced in its
/// place when present, else added at the end.
pub open spec fn replica_set(
    reps: Seq<(i32, Map<Seq<char>, Seq<char>>)>,
    id: i32,
    m: Map<Seq<char>, Seq<char>>,
) -> Seq<(i32, Map<Seq<char>, Seq<char>>)> {
    if exists|j: int| 0 <= j < reps.len() && #[trigger] reps[j].0 == id {
        reps.update(choose|j: int| 0 <= j < reps.len() && #[trigger] reps[j].0 == id, (id, m))
    } else {
        reps.push((id, m))
    }
}

/// The state after the successor is declared failed: it becomes the last
/// failed successor, marked failed, the successor list moves up by one with
/// the node itself appended, and the new head becomes the successor.
pub open spec fn after_successor_failure(v: NodeView) -> NodeView {
    let s1 = v.successors.drop_first().push((v.me, true));
    NodeView { successors: s1, last_failed: Some((v.successors[0].0, true)), ..v }.with_successor(
        s1[0].0,
    )
}

/// The state and directive after `node` notifies that it may be the
/// predecessor, `failed` telling that the previous predecessor died.
pub open spec fn after_notify(v: NodeView, node: NodeRef, failed: bool) -> (NodeView, Transfer) {
    match v.predecessor {
        None => (NodeView { predecessor: Some(node), ..v }, Transfer::Get(node.id, v.me.id)),
        Some(o) => if failed {
            (
                NodeView {
                    store: reclaimed(v.store, v.replicas, node.id as int, o.id as int, v.replicas.len() as int),
                    predecessor: Some(node),
                    ..v
                },
                Transfer::Duplicate,
            )
        } else if in_range_spec(node.id as int, o.id as int, v.me.id as int, false) {
            (
                NodeView { predecessor: Some(node), ..v },
                if node.name != v.me.name {
                    Transfer::Send(o.id, node.id, node.name)
                } else {
                    Transfer::Nothing
                },
            )
        } else {
            (v, Transfer::Nothing)
        },
    }
}

/// Contains all local node storage.
pub struct Node {
    id: NodeEntry,
    finger_table: Vec<FingerEntry>,
    successor: NodeEntry,
    predecessor: Option<NodeEntry>,
    successor_list: Vec<SuccessorEntry>,
    store: KvStore,
    replica_store: Vec<(i32, KvStore)>,
    current_queries: HashMap<i32, QueryType>,
    last_failed_successor: Option<SuccessorEntry>,
}

impl View for Node {
    type V = NodeView;

    closed spec fn view(&self) -> NodeView {
        NodeView {
            me: self.id@,
            fingers: self.finger_table@.map_values(|f: FingerEntry| (f.start, f.node@)),
            successor: self.successor@,
            predecessor: match self.predecessor {
                Some(p) => Some(p@),
                None => None,
            },
            successors: self.successor_list@.map_values(|s: SuccessorEntry| (s.node@, s.failed)),
            store: self.store@,
            replicas: self.replica_store@.map_values(|r: (i32, KvStore)| (r.0, r.1@)),
            queries: self.current_queries@,
            last_failed: match self.last_failed_successor {
                Some(s) => Some((s.node@, s.failed)),
                None => None,
            },
        }
    }
}

impl Node {
    /// Well-formedness: the view's invariant and that of each store.
    pub open spec fn wf(&self) -> bool {
        self@.consistent() && self.stores_wf()
    }

    /// The primary store and every replica store are well formed.
    pub closed spec fn stores_wf(&self) -> bool {
        &&& self.store.wf()
        &&& forall|i: int| 0 <= i < self.replica_store@.len() ==> (#[trigger] self.replica_store@[i]).1.wf()
    }

    /// A node alone on a ring of `2^m` identifiers.
    pub fn new(m: i32, node_name: &str, id: i32, tau: i32) -> (r: Node)
        requires
            1 <= m <= 30,
            0 <= id < pow2(m as nat),
            1 <= tau,
        ensures
            r.wf(),
            fresh_node(r@, NodeRef { id, name: node_name@ }, m as int, tau as int),
    {
        let ghost me = NodeRef { id, name: node_name@ };
        let mut new_finger_table: Vec<FingerEntry> = Vec::new();
        let mut new_successor_list: Vec<SuccessorEntry> = Vec::new();
        proof {
            lemma2_to64();
            if m < 30 {
                lemma_pow2_strictly_increases(m as nat, 30);
            }
        }

        let mut ring: i32 = 1;
        let mut k: i32 = 0;
        while k < m
            invariant
                1 <= m <= 30,
                0 <= k <= m,
                ring == pow2(k as nat),
                pow2(m as nat) <= pow2(30),
            decreases m - k,
        {
            proof {
                lemma_pow2_unfold((k + 1) as nat);
                if k + 1 < 30 {
                    lemma_pow2_strictly_increases((k + 1) as nat, 30);
                }
                lemma2_to64();
            }
            ring = ring * 2;
            k += 1;
        }
        let mut p: i32 = 1;
        let mut i: i32 = 0;
        while i < m
            invariant
                1 <= m <= 30,
                me == (NodeRef { id, name: node_name@ }),
                0 <= id < ring,
                ring <= pow2(30),
                ring == pow2(m as nat),
                0 <= i <= m,
                i < m ==> p == pow2(i as nat),
                new_finger_table@.len() == i,
                forall|j: int|
                    0 <= j < i ==> (#[trigger] new_finger_table@[j]).start == finger_start(
                        id as int,
                        j,
                        m as int,
                    ) && new_finger_table@[j].node@ == me,
            decreases m - i,
        {
            proof {
                lemma_pow2_strictly_increases(i as nat, m as nat);
                lemma2_to64();
            }
            new_finger_table.push(FingerEntry::new((id + p) % ring, id, node_name));
            proof {
                lemma_pow2_unfold((i + 1) as nat);
            }
            if i + 1 < m {
                proof {
                    lemma_pow2_strictly_increases((i + 1) as nat, m as nat);
                }
                p = p * 2;
            }
            i += 1;
        }
        let mut j: i32 = 0;
        while j < tau
            invariant
                me == (NodeRef { id, name: node_name@ }),
                0 <= j <= tau,
                new_successor_list@.len() == j,
                forall|k: int|
                    0 <= k < j ==> (#[trigger] new_successor_list@[k]).node@ == me
                        && new_successor_list@[k].failed,
            decreases tau - j,
        {
            new_successor_list.push(SuccessorEntry::new(id, node_name));
            j += 1;
        }
        let r = Node {
            id: NodeEntry::new(id, node_name),
            finger_table: new_finger_table,
            successor: NodeEntry::new(id, node_name),
            predecessor: Some(NodeEntry::new(id, node_name)),
            successor_list: new_successor_list,
            store: KvStore::new(),
            replica_store: Vec::new(),
            current_queries: HashMap::new(),
            last_failed_successor: None,
        };
        assert(r@.successors[0].0 == r@.successor);
        assert(r@.store =~= Map::empty());
        r
    }

    /// Installs a successor in the three places that name it.
    fn install_successor(&mut self, succ: NodeEntry)
        requires
            old(self).finger_table@.len() >= 1,
            old(self).successor_list@.len() >= 1,
        ensures
            final(self)@ == old(self)@.with_successor(succ@),
            final(self).store == old(self).store,
            final(self).replica_store == old(self).replica_store,
            final(self).finger_table@.len() == old(self).finger_table@.len(),
    {
        let s0 = self.finger_table[0].start;
        self.finger_table.set(0, FingerEntry { start: s0, node: succ.duplicate() });
        self.successor_list.set(0, SuccessorEntry { node: succ.duplicate(), failed: false });
        self.successor = succ;
        assert(self@.fingers =~= old(self)@.fingers.update(0, (old(self)@.fingers[0].0, succ@)));
        assert(self@.successors =~= old(self)@.successors.update(0, (succ@, false)));
    }

    /// The successor, the first finger and the head of the successor list
    /// name the same node in every well-formed state.
    pub proof fn lemma_successor_agreement(&self)
        requires
            self.wf(),
        ensures
            self@.fingers[0].1 == self@.successor,
            self@.successors[0].0 == self@.successor,
    {
    }

    /// Returns the data for a key, if the local store holds it.
    pub fn get(&self, key: &str) -> (r: Option<&String>)
        requires
            self.wf(),
        ensures
            r.is_some() == self@.store.contains_key(key@),
            r.is_some() ==> r.unwrap()@ == self@.store[key@],
    {
        self.store.get(key)
    }

    /// Sets the data for a key in the local store.
    pub fn set(&mut self, key: String, value: String)
        requires
            old(self).wf(),
        ensures
            final(self).wf(),
            final(self)@ == (NodeView { store: old(self)@.store.insert(key@, value@), ..old(self)@ }),
    {
        self.store.insert(key, value);
    }

    /// Sets each key of `keys` to the value beside it, in order, up to the
    /// shorter of the two lists.
    pub fn set_all(&mut self, keys: &Vec<String>, values: &Vec<String>)
        requires
            old(self).wf(),
        ensures
            final(self).wf(),
            final(self)@ == (NodeView {
                store: old(self)@.store.union_prefer_right(
                    pairs_to_map(
                        strings_view(keys@),
                        strings_view(values@),
                        if keys@.len() < values@.len() { keys@.len() as int } else { values@.len() as int },
                    ),
                ),
                ..old(self)@
            }),
    {
        self.store.insert_all(keys, values);
    }

    /// Returns the node's successor.
    pub fn get_successor(&self) -> (r: NodeEntry)
        ensures
            r@ == self@.successor,
    {
        self.successor.duplicate()
    }

    /// Sets the node's successor, which is also its first finger and the
    /// live head of its successor list.
    pub fn set_successor(&mut self, succ: NodeEntry)
        requires
            old(self).wf(),
        ensures
            final(self).wf(),
            final(self)@ == old(self)@.with_successor(succ@),
    {
        self.install_successor(succ);
        assert(self@.fingers.len() == old(self)@.fingers.len());
        assert forall|i: int| 0 <= i < self@.fingers.len() implies #[trigger] self@.fingers[i].0
            == finger_start(self@.me.id as int, i, self@.fingers.len() as int) by {
            assert(old(self)@.fingers[i].0 == finger_start(
                old(self)@.me.id as int,
                i,
                old(self)@.fingers.len() as int,
            ));
        }
    }

    /// Returns the node's predecessor, if it has one.
    pub fn get_predecessor(&self) -> (r: Option<NodeEntry>)
        ensures
            r.is_some() == self@.predecessor.is_some(),
            r.is_some() ==> r.unwrap()@ == self@.predecessor.unwrap(),
    {
        match &self.predecessor {
            Some(pred) => Some(pred.duplicate()),
            None => None,
        }
    }

    /// Sets the node's predecessor and says how keys should move: with no
    /// predecessor before, ask the successor for the new predecessor's
    /// range; with one before, send the keys from the old to the new
    /// predecessor to the new one, unless it is the node itself.
    pub fn set_predecessor(&mut self, pred: Option<NodeEntry>) -> (r: TransferType)
        requires
            old(self).wf(),
        ensures
            final(self).wf(),
            final(self)@ == (NodeView {
                predecessor: match pred {
                    Some(p) => Some(p@),
                    None => None,
                },
                ..old(self)@
            }),
            r@ == match (old(self)@.predecessor, pred) {
                (None, Some(p)) => Transfer::Get(p.id, old(self)@.me.id),
                (Some(o), Some(p)) => if p.node_name@ != old(self)@.me.name {
                    Transfer::Send(o.id, p.id, p.node_name@)
                } else {
                    Transfer::Nothing
                },
                (_, None) => Transfer::Nothing,
            },
    {
        match &self.predecessor {
            None => {
                if let Some(new_pred) = pred {
                    let pid = new_pred.id;
                    self.predecessor = Some(new_pred);
                    TransferType::Get(pid, self.id.id)
                } else {
                    TransferType::Nothing
                }
            },
            Some(old_pred) => {
                let old_id = old_pred.id;
                if let Some(new_pred) = pred {
                    let pid = new_pred.id;
                    let differs = !(new_pred.node_name == self.id.node_name);
                    let name = new_pred.node_name.clone();
                    self.predecessor = Some(new_pred);
                    if differs {
                        TransferType::Send(old_id, pid, name)
                    } else {
                        TransferType::Nothing
                    }
                } else {
                    self.predecessor = None;
                    TransferType::Nothing
                }
            },
        }
    }

    /// Returns the node's ring identifier.
    pub fn get_id(&self) -> (r: i32)
        ensures
            r == self@.me.id,
    {
        self.id.id
    }

    /// Finds the predecessor of `id`: the node itself when `id` lies in
    /// `(node, successor]`, else the closest preceding finger to route the
    /// query to.
    pub fn find_predecessor(&self, id: i32) -> (r: (bool, NodeEntry))
        requires
            self.wf(),
        ensures
            r.0 == in_range_spec(id as int, self@.me.id as int, self@.successor.id as int, true),
            r.0 ==> r.1@ == self@.me,
            !r.0 ==> r.1@ == closest_preceding(self@.me, self@.fingers, id as int, self@.fingers.len() as int),
    {
        if in_range(id, self.id.id, self.successor.id, true) {
            (true, self.id.duplicate())
        } else {
            (false, self.closest_preceding_finger(id))
        }
    }

    /// Records an outstanding query; a later one under the same key
    /// replaces it.
    pub fn push_query(&mut self, query: i32, kind: QueryType)
        requires
            old(self).wf(),
        ensures
            final(self).wf(),
            final(self)@ == (NodeView { queries: old(self)@.queries.insert(query, kind), ..old(self)@ }),
    {
        self.current_queries.insert(query, kind);
    }

    /// Removes and returns an outstanding query, if there is one.
    pub fn pop_query(&mut self, query: i32) -> (r: Option<QueryType>)
        requires
            old(self).wf(),
        ensures
            final(self).wf(),
            final(self)@ == (NodeView { queries: old(self)@.queries.remove(query), ..old(self)@ }),
            r.is_some() == old(self)@.queries.contains_key(query),
            r.is_some() ==> r.unwrap() == old(self)@.queries[query],
    {
        let r = self.current_queries.remove(&query);
        assert(self@.queries =~= old(self)@.queries.remove(query));
        r
    }

    /// Takes the successor's predecessor as the new successor when it lies
    /// strictly between the node and its successor.
    pub fn stabilize_successor(&mut self, pred_id: i32, pred_name: &str)
        requires
            old(self).wf(),
        ensures
            final(self).wf(),
            final(self)@ == if in_range_spec(
                pred_id as int,
                old(self)@.me.id as int,
                old(self)@.successor.id as int,
                false,
            ) {
                old(self)@.with_successor(NodeRef { id: pred_id, name: pred_name@ })
            } else {
                old(self)@
            },
    {
        if in_range(pred_id, self.id.id, self.successor.id, false) {
            self.set_successor(NodeEntry::new(pred_id, pred_name))
        }
    }

    /// Returns the start of finger `i`.
    pub fn get_finger_start(&self, i: i32) -> (r: i32)
        requires
            0 <= i < self@.fingers.len(),
        ensures
            r == self@.fingers[i as int].0,
    {
        self.finger_table[i as usize].start
    }

    /// Returns the node of finger `i`.
    pub fn finger_node(&self, i: usize) -> (r: NodeEntry)
        requires
            i < self@.fingers.len(),
        ensures
            r@ == self@.fingers[i as int].1,
    {
        self.finger_table[i].node.duplicate()
    }

    /// Sets the node of finger `i`; the first finger is the successor and
    /// changes with it only.
    pub fn set_finger(&mut self, i: i32, node: NodeEntry)
        requires
            old(self).wf(),
            1 <= i < old(self)@.fingers.len(),
        ensures
            final(self).wf(),
            final(self)@ == (NodeView {
                fingers: old(self)@.fingers.update(i as int, (old(self)@.fingers[i as int].0, node@)),
                ..old(self)@
            }),
    {
        let start = self.finger_table[i as usize].start;
        let ghost nv = node@;
        self.finger_table.set(i as usize, FingerEntry { start, node });
        assert(self@.fingers =~= old(self)@.fingers.update(i as int, (old(self)@.fingers[i as int].0, nv)));
        assert forall|j: int| 0 <= j < self@.fingers.len() implies #[trigger] self@.fingers[j].0
            == finger_start(self@.me.id as int, j, self@.fingers.len() as int) by {
            assert(old(self)@.fingers[j].0 == finger_start(
                old(self)@.me.id as int,
                j,
                old(self)@.fingers.len() as int,
            ));
        }
    }

    /// Removes the local entries whose keys hash into `(min, max]` and
    /// returns them as keys and values side by side.
    pub fn transfer_kvs_range(&mut self, min: i32, max: i32) -> (r: (Vec<String>, Vec<String>))
        requires
            old(self).wf(),
        ensures
            final(self).wf(),
            final(self)@ == (NodeView {
                store: rest_part(old(self)@.store, min as int, max as int),
                ..old(self)@
            }),
            lists_hold(r.0@, r.1@, range_part(old(self)@.store, min as int, max as int)),
    {
        self.store.extract_range(min, max)
    }

    /// The indexes of the live successor-list entries, the last slot left
    /// out, in order.
    pub fn live_successor_indexes(&self) -> (r: Vec<usize>)
        ensures
            r@.map_values(|x: usize| x as int) == refreshable_indexes(
                self@.successors,
                self@.successors.len() as int,
            ),
    {
        let mut indexes: Vec<usize> = Vec::new();
        let n = self.successor_list.len();
        let mut i: usize = 0;
        while i < n
            invariant
                n == self@.successors.len(),
                i <= n,
                indexes@.map_values(|x: usize| x as int) == refreshable_indexes(self@.successors, i as int),
            decreases n - i,
        {
            if !self.successor_list[i].failed && i != n - 1 {
                indexes.push(i);
                assert(indexes@.map_values(|x: usize| x as int) =~= refreshable_indexes(
                    self@.successors,
                    i as int,
                ).push(i as int));
            }
            i += 1;
        }
        indexes
    }

    /// Returns the length of the successor list.
    pub fn successor_count(&self) -> (r: usize)
        ensures
            r == self@.successors.len(),
    {
        self.successor_list.len()
    }

    /// Returns the identifier of successor-list entry `i`.
    pub fn successor_at_index(&self, i: usize) -> (r: i32)
        requires
            i < self@.successors.len(),
        ensures
            r == self@.successors[i as int].0.id,
    {
        self.successor_list[i].node.id
    }

    /// Refreshes successor-list entry `i` and marks it live; returns whether
    /// it should receive a fresh replica: it names another node than before
    /// or was failed, and it is not the node itself.
    pub fn fix_successor(&mut self, i: i32, succ: NodeEntry) -> (r: bool)
        requires
            old(self).wf(),
            1 <= i < old(self)@.successors.len(),
        ensures
            final(self).wf(),
            final(self)@ == (NodeView {
                successors: old(self)@.successors.update(i as int, (succ@, false)),
                ..old(self)@
            }),
            r == ((old(self)@.successors[i as int].0.name != succ@.name || old(self)@.successors[i as int].1)
                && succ@.name != old(self)@.me.name),
    {
        let idx = i as usize;
        let changed = !(self.successor_list[idx].node.node_name == succ.node_name);
        let was_failed = self.successor_list[idx].failed;
        let is_self = succ.node_name == self.id.node_name;
        let ghost sv = succ@;
        self.successor_list.set(idx, SuccessorEntry { node: succ, failed: false });
        assert(self@.successors =~= old(self)@.successors.update(i as int, (sv, false)));
        (changed || was_failed) && !is_self
    }

    /// Sets the replica held for the node with identifier `id`.
    pub fn set_for_replica(&mut self, id: i32, kvs: KvStore)
        requires
            old(self).wf(),
            kvs.wf(),
        ensures
            final(self).wf(),
            final(self)@ == (NodeView { replicas: replica_set(old(self)@.replicas, id, kvs@), ..old(self)@ }),
    {
        let n = self.replica_store.len();
        let mut i: usize = 0;
        while i < n
            invariant
                self == old(self),
                old(self).wf(),
                kvs.wf(),
                n == self.replica_store@.len(),
                i <= n,
                forall|j: int| 0 <= j < i ==> self.replica_store@[j].0 != id,
            decreases n - i,
        {
            if self.replica_store[i].0 == id {
                let ghost kv = kvs@;
                proof {
                    let reps = old(self)@.replicas;
                    assert(reps[i as int].0 == id);
                    let c = choose|j: int| 0 <= j < reps.len() && #[trigger] reps[j].0 == id;
                    assert(c == i);
                }
                let ghost kvg = kvs;
                self.replica_store.set(i, (id, kvs));
                assert(self.replica_store@[i as int].1 == kvg);
                assert(self@.replicas =~= old(self)@.replicas.update(i as int, (id, kv)));
                assert forall|j: int| 0 <= j < self.replica_store@.len() implies (
                #[trigger] self.replica_store@[j]).1.wf() by {
                    if j != i {
                        assert(old(self).replica_store@[j].1.wf());
                    } else {
                        assert(kvg.wf());
                    }
                }
                assert forall|a: int, b: int| 0 <= a < b < self@.replicas.len() implies self@.replicas[a].0
                    != self@.replicas[b].0 by {
                    assert(old(self)@.replicas[a].0 != old(self)@.replicas[b].0);
                }
                return;
            }
            i += 1;
        }
        let ghost kv = kvs@;
        proof {
            let reps = old(self)@.replicas;
            assert(!exists|j: int| 0 <= j < reps.len() && #[trigger] reps[j].0 == id) by {
                if exists|j: int| 0 <= j < reps.len() && #[trigger] reps[j].0 == id {
                    let j = choose|j: int| 0 <= j < reps.len() && #[trigger] reps[j].0 == id;
                    assert(self.replica_store@[j].0 == id);
                }
            }
        }
        self.replica_store.push((id, kvs));
        assert(self@.replicas =~= old(self)@.replicas.push((id, kv)));
    }

    /// Returns the nodes of the live successor-list entries, in order.
    pub fn live_successors(&self) -> (r: Vec<NodeEntry>)
        ensures
            r@.map_values(|e: NodeEntry| e@) == live_nodes(self@.successors, self@.successors.len() as int),
    {
        let mut successors: Vec<NodeEntry> = Vec::new();
        let n = self.successor_list.len();
        let mut i: usize = 0;
        while i < n
            invariant
                n == self@.successors.len(),
                i <= n,
                successors@.map_values(|e: NodeEntry| e@) == live_nodes(self@.successors, i as int),
            decreases n - i,
        {
            if !self.successor_list[i].failed {
                let e = self.successor_list[i].node.duplicate();
                successors.push(e);
                assert(successors@.map_values(|e: NodeEntry| e@) =~= live_nodes(
                    self@.successors,
                    i as int,
                ).push(self@.successors[i as int].0));
            }
            i += 1;
        }
        successors
    }

    /// Copies the primary store out as keys and values side by side.
    pub fn duplicate_store(&self) -> (r: (Vec<String>, Vec<String>))
        requires
            self.wf(),
        ensures
            lists_hold(r.0@, r.1@, self@.store),
    {
        self.store.snapshot()
    }

    /// Returns the last failed successor, if there is one.
    pub fn get_failed_successor(&self) -> (r: Option<NodeEntry>)
        ensures
            r.is_some() == self@.last_failed.is_some(),
            r.is_some() ==> r.unwrap()@ == self@.last_failed.unwrap().0,
    {
        match &self.last_failed_successor {
            Some(fail) => Some(fail.node.duplicate()),
            None => None,
        }
    }

    /// Forgets the last failed successor.
    pub fn reset_failed_successor(&mut self)
        requires
            old(self).wf(),
        ensures
            final(self).wf(),
            final(self)@ == (NodeView { last_failed: None, ..old(self)@ }),
    {
        self.last_failed_successor = None;
    }

    /// Finds the highest finger whose node lies strictly between this node
    /// and `id`, or this node when there is none.
    pub fn closest_preceding_finger(&self, id: i32) -> (r: NodeEntry)
        ensures
            r@ == closest_preceding(self@.me, self@.fingers, id as int, self@.fingers.len() as int),
    {
        let mut i: usize = self.finger_table.len();
        while i > 0
            invariant
                i <= self@.fingers.len(),
                closest_preceding(self@.me, self@.fingers, id as int, self@.fingers.len() as int) == closest_preceding(
                    self@.me,
                    self@.fingers,
                    id as int,
                    i as int,
                ),
            decreases i,
        {
            if in_range(self.finger_table[i - 1].node.id, self.id.id, id, false) {
                return self.finger_table[i - 1].node.duplicate();
            }
            i -= 1;
        }
        self.id.duplicate()
    }

    /// Handles a node that thinks it is this node's predecessor and says
    /// how keys should move. With no predecessor it is taken and its range
    /// is asked of the successor; when the previous predecessor failed, the
    /// replicas of the owners in `(node_id, old predecessor]` are reclaimed
    /// into the store and it is taken; when it lies strictly between the
    /// previous predecessor and this node it is taken; otherwise nothing
    /// changes.
    pub fn stabilize_predecessor(&mut self, node_id: i32, node_name: &str, failed: bool) -> (r:
        TransferType)
        requires
            old(self).wf(),
        ensures
            final(self).wf(),
            (final(self)@, r@) == after_notify(old(self)@, NodeRef { id: node_id, name: node_name@ }, failed),
    {
        match &self.predecessor {
            Some(pred) => {
                if failed {
                    let id = pred.id;
                    self.transfer_from_replicas(node_id, id);
                    self.predecessor = Some(NodeEntry::new(node_id, node_name));
                    TransferType::Duplicate
                } else if in_range(node_id, pred.id, self.id.id, false) {
                    self.set_predecessor(Some(NodeEntry::new(node_id, node_name)))
                } else {
                    TransferType::Nothing
                }
            },
            None => self.set_predecessor(Some(NodeEntry::new(node_id, node_name))),
        }
    }

    /// Declares the successor failed: it is remembered as the last failed
    /// successor, the successor list moves up by one with this node
    /// appended, and the new head becomes the successor.
    pub fn successor_failure(&mut self)
        requires
            old(self).wf(),
        ensures
            final(self).wf(),
            final(self)@ == after_successor_failure(old(self)@),
    {
        let removed = self.successor_list.remove(0);
        self.last_failed_successor = Some(SuccessorEntry { node: removed.node, failed: true });
        self.successor_list.push(SuccessorEntry::new(self.id.id, self.id.node_name.as_str()));
        let ghost mid = self@;
        assert(mid.successors =~= old(self)@.successors.drop_first().push((old(self)@.me, true)));
        let head = self.successor_list[0].node.duplicate();
        self.install_successor(head);
        assert forall|i: int| 0 <= i < self@.fingers.len() implies #[trigger] self@.fingers[i].0
            == finger_start(self@.me.id as int, i, self@.fingers.len() as int) by {
            assert(old(self)@.fingers[i].0 == finger_start(
                old(self)@.me.id as int,
                i,
                old(self)@.fingers.len() as int,
            ));
        }
    }

    /// Merges into the store every replica whose owner lies in `(min, max]`;
    /// the replicas stay.
    fn transfer_from_replicas(&mut self, min: i32, max: i32)
        requires
            old(self).wf(),
        ensures
            final(self).wf(),
            final(self)@ == (NodeView {
                store: reclaimed(
                    old(self)@.store,
                    old(self)@.replicas,
                    min as int,
                    max as int,
                    old(self)@.replicas.len() as int,
                ),
                ..old(self)@
            }),
    {
        let n = self.replica_store.len();
        let mut i: usize = 0;
        while i < n
            invariant
                old(self).wf(),
                self.wf(),
                n == old(self)@.replicas.len(),
                i <= n,
                self@ == (NodeView {
                    store: reclaimed(old(self)@.store, old(self)@.replicas, min as int, max as int, i as int),
                    ..old(self)@
                }),
                self.replica_store == old(self).replica_store,
            decreases n - i,
        {
            if in_range(self.replica_store[i].0, min, max, true) {
                assert(self.replica_store@[i as int].1.wf());
                self.store.merge(&self.replica_store[i].1);
            }
            i += 1;
        }
    }
}

} // verus!
