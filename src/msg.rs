//! The messages exchanged with the broker, and a uniform view of them as
//! flat records of optional fields.
use crate::kv::strings_view;
use vstd::prelude::*;
use vstd::string::StringExecFns;

verus! {

/// A message as a flat record: its `type` tag and the fields it carries.
pub struct Wire {
    pub kind: Seq<char>,
    pub source: Option<Seq<char>>,
    pub destination: Option<Seq<char>>,
    pub id: Option<i32>,
    pub key: Option<Seq<char>>,
    pub value: Option<Seq<char>>,
    pub error: Option<Seq<char>>,
    pub query_id: Option<i32>,
    pub node_name: Option<Seq<char>>,
    pub node_id: Option<i32>,
    pub pred_id: Option<i32>,
    pub pred_name: Option<Seq<char>>,
    pub min: Option<i32>,
    pub max: Option<i32>,
    pub keys: Option<Seq<Seq<char>>>,
    pub values: Option<Seq<Seq<char>>>,
    pub failed: Option<bool>,
}

/// A record of the given type that carries no field.
pub open spec fn blank(kind: Seq<char>) -> Wire {
    Wire {
        kind,
        source: None,
        destination: None,
        id: None,
        key: None,
        value: None,
        error: None,
        query_id: None,
        node_name: None,
        node_id: None,
        pred_id: None,
        pred_name: None,
        min: None,
        max: None,
        keys: None,
        values: None,
        failed: None,
    }
}

/// The view of an optional string.
pub open spec fn opt_view(s: Option<String>) -> Option<Seq<char>> {
    match s {
        Some(x) => Some(x@),
        None => None,
    }
}

/// The error text of a failed get.
pub open spec fn no_such_key(key: Seq<char>) -> Seq<char> {
    "No such key: "@ + key
}

/// For parsing data from a received message of any type.
pub struct RcvdMessage {
    pub kind: String,
    pub key: Option<String>,
    pub value: Option<String>,
    pub id: Option<i32>,
    pub destination: Option<String>,
    pub source: Option<String>,
    pub query_id: Option<i32>,
    pub node_name: Option<String>,
    pub node_id: Option<i32>,
    pub pred_id: Option<i32>,
    pub pred_name: Option<String>,
    pub min: Option<i32>,
    pub max: Option<i32>,
    pub keys: Option<Vec<String>>,
    pub values: Option<Vec<String>>,
    pub failed: Option<bool>,
}

/// The record of a `helloResponse` message.
pub open spec fn hello_response_wire(source: Seq<char>) -> Wire {
    Wire { source: Some(source), ..blank("helloResponse"@) }
}

/// To send to broker to confirm joining the network.
pub struct HelloResponse {
    pub kind: String,
    pub source: String,
}

impl View for HelloResponse {
    type V = Wire;

    open spec fn view(&self) -> Wire {
        Wire { source: Some(self.source@), ..blank(self.kind@) }
    }
}

impl HelloResponse {
    /// Returns a new `helloResponse` message.
    pub fn new(source: &str) -> (r: HelloResponse)
        ensures
            r@ == hello_response_wire(source@),
    {
        HelloResponse { kind: "helloResponse".to_owned(), source: source.to_owned() }
    }
}

/// The record of a `setResponse` message.
pub open spec fn set_response_wire(id: i32, key: Seq<char>, value: Seq<char>) -> Wire {
    Wire { id: Some(id), key: Some(key), value: Some(value), ..blank("setResponse"@) }
}

/// A confirmation of a set operation.
pub struct SetResponse {
    pub kind: String,
    pub id: i32,
    pub key: String,
    pub value: String,
}

impl View for SetResponse {
    type V = Wire;

    open spec fn view(&self) -> Wire {
        Wire { id: Some(self.id), key: Some(self.key@), value: Some(self.value@), ..blank(self.kind@) }
    }
}

impl SetResponse {
    /// Returns a new `setResponse` message.
    pub fn new(id: i32, key: &str, value: &str) -> (r: SetResponse)
        ensures
            r@ == set_response_wire(id, key@, value@),
    {
        SetResponse { kind: "setResponse".to_owned(), id, key: key.to_owned(), value: value.to_owned() }
    }
}

/// The record of a `getResponse` message that found the key.
pub open spec fn get_success_wire(id: i32, key: Seq<char>, value: Seq<char>) -> Wire {
    Wire { id: Some(id), key: Some(key), value: Some(value), ..blank("getResponse"@) }
}

/// A successful get query response.
pub struct GetSuccessResponse {
    pub kind: String,
    pub id: i32,
    pub key: String,
    pub value: String,
}

impl View for GetSuccessResponse {
    type V = Wire;

    open spec fn view(&self) -> Wire {
        Wire { id: Some(self.id), key: Some(self.key@), value: Some(self.value@), ..blank(self.kind@) }
    }
}

impl GetSuccessResponse {
    /// Returns a new `getResponse` message.
    pub fn new(id: i32, key: &str, value: &str) -> (r: GetSuccessResponse)
        ensures
            r@ == get_success_wire(id, key@, value@),
    {
        GetSuccessResponse { kind: "getResponse".to_owned(), id, key: key.to_owned(), value: value.to_owned() }
    }
}

/// The record of a `getResponse` message that found nothing.
pub open spec fn get_fail_wire(id: i32, key: Seq<char>) -> Wire {
    Wire { id: Some(id), error: Some(no_such_key(key)), ..blank("getResponse"@) }
}

/// A failed get query response.
pub struct GetFailResponse {
    pub kind: String,
    pub id: i32,
    pub error: String,
}

impl View for GetFailResponse {
    type V = Wire;

    open spec fn view(&self) -> Wire {
        Wire { id: Some(self.id), error: Some(self.error@), ..blank(self.kind@) }
    }
}

impl GetFailResponse {
    /// Returns the answer to a get of `key` that found nothing.
    pub fn new(id: i32, key: &str) -> (r: GetFailResponse)
        ensures
            r@ == get_fail_wire(id, key@),
    {
        let mut error = "No such key: ".to_owned();
        error.append(key);
        GetFailResponse { kind: "getResponse".to_owned(), id, error }
    }
}

/// The record of a `join` message.
pub open spec fn join_wire(source: Seq<char>, destination: Seq<char>) -> Wire {
    Wire { source: Some(source), destination: Some(destination), ..blank("join"@) }
}

/// A request to join the ring.
pub struct Join {
    pub kind: String,
    pub source: String,
    pub destination: String,
}

impl View for Join {
    type V = Wire;

    open spec fn view(&self) -> Wire {
        Wire { source: Some(self.source@), destination: Some(self.destination@), ..blank(self.kind@) }
    }
}

impl Join {
    /// Returns a new `join` message.
    pub fn new(source: &str, destination: &str) -> (r: Join)
        ensures
            r@ == join_wire(source@, destination@),
    {
        Join { kind: "join".to_owned(), source: source.to_owned(), destination: destination.to_owned() }
    }
}

/// The record of a `joinAck` message.
pub open spec fn join_ack_wire(source: Seq<char>, destination: Seq<char>) -> Wire {
    Wire { source: Some(source), destination: Some(destination), ..blank("joinAck"@) }
}

/// A response to a node wanting to join the ring.
pub struct JoinAck {
    pub kind: String,
    pub source: String,
    pub destination: String,
}

impl View for JoinAck {
    type V = Wire;

    open spec fn view(&self) -> Wire {
        Wire { source: Some(self.source@), destination: Some(self.destination@), ..blank(self.kind@) }
    }
}

impl JoinAck {
    /// Returns a new `joinAck` message.
    pub fn new(source: &str, destination: &str) -> (r: JoinAck)
        ensures
            r@ == join_ack_wire(source@, destination@),
    {
        JoinAck { kind: "joinAck".to_owned(), source: source.to_owned(), destination: destination.to_owned() }
    }
}

/// The record of a `findSucc` message.
pub open spec fn find_succ_wire(source: Seq<char>, destination: Seq<char>, query_id: i32, id: Option<i32>) -> Wire {
    Wire { source: Some(source), destination: Some(destination), query_id: Some(query_id), id: id, ..blank("findSucc"@) }
}

/// A request to find the successor of a key query.
pub struct FindSucc {
    pub kind: String,
    pub source: String,
    pub destination: String,
    pub query_id: i32,
    pub id: Option<i32>,
}

impl View for FindSucc {
    type V = Wire;

    open spec fn view(&self) -> Wire {
        Wire { source: Some(self.source@), destination: Some(self.destination@), query_id: Some(self.query_id), id: self.id, ..blank(self.kind@) }
    }
}

impl FindSucc {
    /// Returns a new `findSucc` message.
    pub fn new(source: &str, destination: &str, query_id: i32, id: Option<i32>) -> (r: FindSucc)
        ensures
            r@ == find_succ_wire(source@, destination@, query_id, id),
    {
        FindSucc { kind: "findSucc".to_owned(), source: source.to_owned(), destination: destination.to_owned(), query_id, id }
    }
}

/// The record of a `findSuccResponse` message.
pub open spec fn find_succ_response_wire(source: Seq<char>, destination: Seq<char>, node_name: Seq<char>, node_id: i32, query_id: i32, id: Option<i32>) -> Wire {
    Wire { source: Some(source), destination: Some(destination), node_name: Some(node_name), node_id: Some(node_id), query_id: Some(query_id), id: id, ..blank("findSuccResponse"@) }
}

/// A response returning the successor of a key query.
pub struct FindSuccResponse {
    pub kind: String,
    pub source: String,
    pub destination: String,
    pub node_name: String,
    pub node_id: i32,
    pub query_id: i32,
    pub id: Option<i32>,
}

impl View for FindSuccResponse {
    type V = Wire;

    open spec fn view(&self) -> Wire {
        Wire { source: Some(self.source@), destination: Some(self.destination@), node_name: Some(self.node_name@), node_id: Some(self.node_id), query_id: Some(self.query_id), id: self.id, ..blank(self.kind@) }
    }
}

impl FindSuccResponse {
    /// Returns a new `findSuccResponse` message.
    pub fn new(source: &str, destination: &str, node_name: &str, node_id: i32, query_id: i32, id: Option<i32>) -> (r: FindSuccResponse)
        ensures
            r@ == find_succ_response_wire(source@, destination@, node_name@, node_id, query_id, id),
    {
        FindSuccResponse { kind: "findSuccResponse".to_owned(), source: source.to_owned(), destination: destination.to_owned(), node_name: node_name.to_owned(), node_id, query_id, id }
    }
}

/// The record of a `getPred` message.
pub open spec fn get_pred_wire(source: Seq<char>, destination: Seq<char>) -> Wire {
    Wire { source: Some(source), destination: Some(destination), ..blank("getPred"@) }
}

/// A request for the predecessor of a node.
pub struct GetPred {
    pub kind: String,
    pub source: String,
    pub destination: String,
}

impl View for GetPred {
    type V = Wire;

    open spec fn view(&self) -> Wire {
        Wire { source: Some(self.source@), destination: Some(self.destination@), ..blank(self.kind@) }
    }
}

impl GetPred {
    /// Returns a new `getPred` message.
    pub fn new(source: &str, destination: &str) -> (r: GetPred)
        ensures
            r@ == get_pred_wire(source@, destination@),
    {
        GetPred { kind: "getPred".to_owned(), source: source.to_owned(), destination: destination.to_owned() }
    }
}

/// The record of a `getPredResponse` message.
pub open spec fn get_pred_response_wire(source: Seq<char>, destination: Seq<char>, pred_id: Option<i32>, pred_name: Option<Seq<char>>) -> Wire {
    Wire { source: Some(source), destination: Some(destination), pred_id: pred_id, pred_name: pred_name, ..blank("getPredResponse"@) }
}

/// A response carrying a node's predecessor, if it has one.
pub struct GetPredResponse {
    pub kind: String,
    pub source: String,
    pub destination: String,
    pub pred_id: Option<i32>,
    pub pred_name: Option<String>,
}

impl View for GetPredResponse {
    type V = Wire;

    open spec fn view(&self) -> Wire {
        Wire { source: Some(self.source@), destination: Some(self.destination@), pred_id: self.pred_id, pred_name: opt_view(self.pred_name), ..blank(self.kind@) }
    }
}

impl GetPredResponse {
    /// Returns a new `getPredResponse` message.
    pub fn new(source: &str, destination: &str, pred_id: Option<i32>, pred_name: Option<String>) -> (r: GetPredResponse)
        ensures
            r@ == get_pred_response_wire(source@, destination@, pred_id, opt_view(pred_name)),
    {
        GetPredResponse { kind: "getPredResponse".to_owned(), source: source.to_owned(), destination: destination.to_owned(), pred_id, pred_name }
    }
}

/// The record of a `notify` message.
pub open spec fn notify_wire(source: Seq<char>, destination: Seq<char>, node_id: i32, failed: bool) -> Wire {
    Wire { source: Some(source), destination: Some(destination), node_id: Some(node_id), failed: Some(failed), ..blank("notify"@) }
}

/// A node telling its successor that it may be its predecessor.
pub struct Notify {
    pub kind: String,
    pub source: String,
    pub destination: String,
    pub node_id: i32,
    pub failed: bool,
}

impl View for Notify {
    type V = Wire;

    open spec fn view(&self) -> Wire {
        Wire { source: Some(self.source@), destination: Some(self.destination@), node_id: Some(self.node_id), failed: Some(self.failed), ..blank(self.kind@) }
    }
}

impl Notify {
    /// Returns a new `notify` message.
    pub fn new(source: &str, destination: &str, node_id: i32, failed: bool) -> (r: Notify)
        ensures
            r@ == notify_wire(source@, destination@, node_id, failed),
    {
        Notify { kind: "notify".to_owned(), source: source.to_owned(), destination: destination.to_owned(), node_id, failed }
    }
}

/// The record of a `retrieve` message.
pub open spec fn retrieve_wire(source: Seq<char>, destination: Seq<char>, key: Seq<char>, id: i32) -> Wire {
    Wire { source: Some(source), destination: Some(destination), key: Some(key), id: Some(id), ..blank("retrieve"@) }
}

/// A request for a node to look data up and answer the client.
pub struct Retrieve {
    pub kind: String,
    pub source: String,
    pub destination: String,
    pub key: String,
    pub id: i32,
}

impl View for Retrieve {
    type V = Wire;

    open spec fn view(&self) -> Wire {
        Wire { source: Some(self.source@), destination: Some(self.destination@), key: Some(self.key@), id: Some(self.id), ..blank(self.kind@) }
    }
}

impl Retrieve {
    /// Returns a new `retrieve` message.
    pub fn new(source: &str, destination: &str, key: &str, id: i32) -> (r: Retrieve)
        ensures
            r@ == retrieve_wire(source@, destination@, key@, id),
    {
        Retrieve { kind: "retrieve".to_owned(), source: source.to_owned(), destination: destination.to_owned(), key: key.to_owned(), id }
    }
}

/// The record of a `store` message.
pub open spec fn store_wire(source: Seq<char>, destination: Seq<char>, key: Seq<char>, value: Seq<char>) -> Wire {
    Wire { source: Some(source), destination: Some(destination), key: Some(key), value: Some(value), ..blank("store"@) }
}

/// A request for a node to store data locally.
pub struct Store {
    pub kind: String,
    pub source: String,
    pub destination: String,
    pub key: String,
    pub value: String,
}

impl View for Store {
    type V = Wire;

    open spec fn view(&self) -> Wire {
        Wire { source: Some(self.source@), destination: Some(self.destination@), key: Some(self.key@), value: Some(self.value@), ..blank(self.kind@) }
    }
}

impl Store {
    /// Returns a new `store` message.
    pub fn new(source: &str, destination: &str, key: &str, value: &str) -> (r: Store)
        ensures
            r@ == store_wire(source@, destination@, key@, value@),
    {
        Store { kind: "store".to_owned(), source: source.to_owned(), destination: destination.to_owned(), key: key.to_owned(), value: value.to_owned() }
    }
}

/// The record of a `transferRequest` message.
pub open spec fn transfer_request_wire(source: Seq<char>, destination: Seq<char>, min: i32, max: i32) -> Wire {
    Wire { source: Some(source), destination: Some(destination), min: Some(min), max: Some(max), ..blank("transferRequest"@) }
}

/// A request for a node to transfer its keys in a range.
pub struct TransferRequest {
    pub kind: String,
    pub source: String,
    pub destination: String,
    pub min: i32,
    pub max: i32,
}

impl View for TransferRequest {
    type V = Wire;

    open spec fn view(&self) -> Wire {
        Wire { source: Some(self.source@), destination: Some(self.destination@), min: Some(self.min), max: Some(self.max), ..blank(self.kind@) }
    }
}

impl TransferRequest {
    /// Returns a new `transferRequest` message.
    pub fn new(source: &str, destination: &str, min: i32, max: i32) -> (r: TransferRequest)
        ensures
            r@ == transfer_request_wire(source@, destination@, min, max),
    {
        TransferRequest { kind: "transferRequest".to_owned(), source: source.to_owned(), destination: destination.to_owned(), min, max }
    }
}

/// The record of a `transferKeys` message.
pub open spec fn transfer_keys_wire(source: Seq<char>, destination: Seq<char>, keys: Seq<Seq<char>>, values: Seq<Seq<char>>) -> Wire {
    Wire { source: Some(source), destination: Some(destination), keys: Some(keys), values: Some(values), ..blank("transferKeys"@) }
}

/// Keys and values handed over from one node to another.
pub struct TransferKeys {
    pub kind: String,
    pub source: String,
    pub destination: String,
    pub keys: Vec<String>,
    pub values: Vec<String>,
}

impl View for TransferKeys {
    type V = Wire;

    open spec fn view(&self) -> Wire {
        Wire { source: Some(self.source@), destination: Some(self.destination@), keys: Some(strings_view(self.keys@)), values: Some(strings_view(self.values@)), ..blank(self.kind@) }
    }
}

impl TransferKeys {
    /// Returns a new `transferKeys` message.
    pub fn new(source: &str, destination: &str, keys: Vec<String>, values: Vec<String>) -> (r: TransferKeys)
        ensures
            r@ == transfer_keys_wire(source@, destination@, strings_view(keys@), strings_view(values@)),
    {
        TransferKeys { kind: "transferKeys".to_owned(), source: source.to_owned(), destination: destination.to_owned(), keys, values }
    }
}

/// The record of a `duplicate` message.
pub open spec fn duplicate_wire(source: Seq<char>, destination: Seq<char>, id: i32, keys: Seq<Seq<char>>, values: Seq<Seq<char>>) -> Wire {
    Wire { source: Some(source), destination: Some(destination), id: Some(id), keys: Some(keys), values: Some(values), ..blank("duplicate"@) }
}

/// A node's store copied to a successor to be kept as a replica.
pub struct Duplicate {
    pub kind: String,
    pub source: String,
    pub destination: String,
    pub id: i32,
    pub keys: Vec<String>,
    pub values: Vec<String>,
}

impl View for Duplicate {
    type V = Wire;

    open spec fn view(&self) -> Wire {
        Wire { source: Some(self.source@), destination: Some(self.destination@), id: Some(self.id), keys: Some(strings_view(self.keys@)), values: Some(strings_view(self.values@)), ..blank(self.kind@) }
    }
}

impl Duplicate {
    /// Returns a new `duplicate` message.
    pub fn new(source: &str, destination: &str, id: i32, keys: Vec<String>, values: Vec<String>) -> (r: Duplicate)
        ensures
            r@ == duplicate_wire(source@, destination@, id, strings_view(keys@), strings_view(values@)),
    {
        Duplicate { kind: "duplicate".to_owned(), source: source.to_owned(), destination: destination.to_owned(), id, keys, values }
    }
}

/// The record of a `ping` message.
pub open spec fn ping_wire(source: Seq<char>, destination: Seq<char>) -> Wire {
    Wire { source: Some(source), destination: Some(destination), ..blank("ping"@) }
}

/// A node checking that its successor is alive.
pub struct Ping {
    pub kind: String,
    pub source: String,
    pub destination: String,
}

impl View for Ping {
    type V = Wire;

    open spec fn view(&self) -> Wire {
        Wire { source: Some(self.source@), destination: Some(self.destination@), ..blank(self.kind@) }
    }
}

impl Ping {
    /// Returns a new `ping` message.
    pub fn new(source: &str, destination: &str) -> (r: Ping)
        ensures
            r@ == ping_wire(source@, destination@),
    {
        Ping { kind: "ping".to_owned(), source: source.to_owned(), destination: destination.to_owned() }
    }
}

/// The record of a `pong` message.
pub open spec fn pong_wire(source: Seq<char>, destination: Seq<char>) -> Wire {
    Wire { source: Some(source), destination: Some(destination), ..blank("pong"@) }
}

/// A successor answering a ping.
pub struct Pong {
    pub kind: String,
    pub source: String,
    pub destination: String,
}

impl View for Pong {
    type V = Wire;

    open spec fn view(&self) -> Wire {
        Wire { source: Some(self.source@), destination: Some(self.destination@), ..blank(self.kind@) }
    }
}

impl Pong {
    /// Returns a new `pong` message.
    pub fn new(source: &str, destination: &str) -> (r: Pong)
        ensures
            r@ == pong_wire(source@, destination@),
    {
        Pong { kind: "pong".to_owned(), source: source.to_owned(), destination: destination.to_owned() }
    }
}

/// The record of a `pingSelf` message.
pub open spec fn ping_self_wire(destination: Seq<char>) -> Wire {
    Wire { destination: Some(destination), ..blank("pingSelf"@) }
}

/// A ping from a node to itself, which lets the periodic task take its turn.
pub struct PingSelf {
    pub kind: String,
    pub destination: String,
}

impl View for PingSelf {
    type V = Wire;

    open spec fn view(&self) -> Wire {
        Wire { destination: Some(self.destination@), ..blank(self.kind@) }
    }
}

impl PingSelf {
    /// Returns a new `pingSelf` message.
    pub fn new(destination: &str) -> (r: PingSelf)
        ensures
            r@ == ping_self_wire(destination@),
    {
        PingSelf { kind: "pingSelf".to_owned(), destination: destination.to_owned() }
    }
}

/// The record of a `pongSelf` message.
pub open spec fn pong_self_wire(destination: Seq<char>) -> Wire {
    Wire { destination: Some(destination), ..blank("pongSelf"@) }
}

/// The answer to a ping from a node to itself.
pub struct PongSelf {
    pub kind: String,
    pub destination: String,
}

impl View for PongSelf {
    type V = Wire;

    open spec fn view(&self) -> Wire {
        Wire { destination: Some(self.destination@), ..blank(self.kind@) }
    }
}

impl PongSelf {
    /// Returns a new `pongSelf` message.
    pub fn new(destination: &str) -> (r: PongSelf)
        ensures
            r@ == pong_self_wire(destination@),
    {
        PongSelf { kind: "pongSelf".to_owned(), destination: destination.to_owned() }
    }
}

/// The record of a `rejoin` message.
pub open spec fn rejoin_wire(source: Seq<char>, destination: Seq<char>) -> Wire {
    Wire { source: Some(source), destination: Some(destination), ..blank("rejoin"@) }
}

/// A request from a node to rejoin a failed successor.
pub struct Rejoin {
    pub kind: String,
    pub source: String,
    pub destination: String,
}

impl View for Rejoin {
    type V = Wire;

    open spec fn view(&self) -> Wire {
        Wire { source: Some(self.source@), destination: Some(self.destination@), ..blank(self.kind@) }
    }
}

impl Rejoin {
    /// Returns a new `rejoin` message.
    pub fn new(source: &str, destination: &str) -> (r: Rejoin)
        ensures
            r@ == rejoin_wire(source@, destination@),
    {
        Rejoin { kind: "rejoin".to_owned(), source: source.to_owned(), destination: destination.to_owned() }
    }
}

/// The record of a `rejoinAck` message.
pub open spec fn rejoin_ack_wire(source: Seq<char>, destination: Seq<char>) -> Wire {
    Wire { source: Some(source), destination: Some(destination), ..blank("rejoinAck"@) }
}

/// A response to a node trying to rejoin the ring.
pub struct RejoinAck {
    pub kind: String,
    pub source: String,
    pub destination: String,
}

impl View for RejoinAck {
    type V = Wire;

    open spec fn view(&self) -> Wire {
        Wire { source: Some(self.source@), destination: Some(self.destination@), ..blank(self.kind@) }
    }
}

impl RejoinAck {
    /// Returns a new `rejoinAck` message.
    pub fn new(source: &str, destination: &str) -> (r: RejoinAck)
        ensures
            r@ == rejoin_ack_wire(source@, destination@),
    {
        RejoinAck { kind: "rejoinAck".to_owned(), source: source.to_owned(), destination: destination.to_owned() }
    }
}

} // verus!
