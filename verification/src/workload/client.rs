use bytes::Bytes;
use vstd::prelude::*;

verus! {

/// An add: store the value only if the key is absent.
#[derive(Clone, Debug, PartialEq)]
pub struct Add {
    pub key: Vec<u8>,
    pub value: Bytes,
    pub ttl: Option<u64>,
}

/// A read of one key.
#[derive(Clone, Debug, PartialEq)]
pub struct Get {
    pub key: Vec<u8>,
}

/// A write of one key.
#[derive(Clone, Debug, PartialEq)]
pub struct SetValue {
    pub key: Vec<u8>,
    pub value: Bytes,
    pub ttl: Option<u64>,
}

/// A removal of one key.
#[derive(Clone, Debug, PartialEq)]
pub struct Delete {
    pub key: Vec<u8>,
}

/// A write of a key only if it is present.
#[derive(Clone, Debug, PartialEq)]
pub struct Replace {
    pub key: Vec<u8>,
    pub value: Bytes,
    pub ttl: Option<u64>,
}

/// A read of some fields of a hash.
#[derive(Clone, Debug, PartialEq)]
pub struct HashGet {
    pub key: Vec<u8>,
    pub fields: Vec<Vec<u8>>,
}

/// A read of all fields of a hash.
#[derive(Clone, Debug, PartialEq)]
pub struct HashGetAll {
    pub key: Vec<u8>,
}

/// A removal of some fields of a hash.
#[derive(Clone, Debug, PartialEq)]
pub struct HashDelete {
    pub key: Vec<u8>,
    pub fields: Vec<Vec<u8>>,
}

/// A test for one field of a hash.
#[derive(Clone, Debug, PartialEq)]
pub struct HashExists {
    pub key: Vec<u8>,
    pub field: Vec<u8>,
}

/// An increment of one field of a hash.
#[derive(Clone, Debug, PartialEq)]
pub struct HashIncrement {
    pub key: Vec<u8>,
    pub field: Vec<u8>,
    pub amount: i64,
    pub ttl: Option<u64>,
}

/// A write of some fields of a hash: distinct fields, each with its value.
#[derive(Clone, Debug, PartialEq)]
pub struct HashSet {
    pub key: Vec<u8>,
    pub data: Vec<(Vec<u8>, Bytes)>,
    pub ttl: Option<u64>,
}

/// A push of elements at the front of a list, optionally truncating it.
#[derive(Clone, Debug, PartialEq)]
pub struct ListPushFront {
    pub key: Vec<u8>,
    pub elements: Vec<Vec<u8>>,
    pub truncate: Option<u32>,
    pub ttl: Option<u64>,
}

/// A push of elements at the back of a list, optionally truncating it.
#[derive(Clone, Debug, PartialEq)]
pub struct ListPushBack {
    pub key: Vec<u8>,
    pub elements: Vec<Vec<u8>>,
    pub truncate: Option<u32>,
    pub ttl: Option<u64>,
}

/// A read of a whole list.
#[derive(Clone, Debug, PartialEq)]
pub struct ListFetch {
    pub key: Vec<u8>,
}

/// A read of the length of a list.
#[derive(Clone, Debug, PartialEq)]
pub struct ListLength {
    pub key: Vec<u8>,
}

/// A pop from the front of a list.
#[derive(Clone, Debug, PartialEq)]
pub struct ListPopFront {
    pub key: Vec<u8>,
}

/// A pop from the back of a list.
#[derive(Clone, Debug, PartialEq)]
pub struct ListPopBack {
    pub key: Vec<u8>,
}

/// A removal of an element from a list.
#[derive(Clone, Debug, PartialEq)]
pub struct ListRemove {
    pub key: Vec<u8>,
    pub element: Vec<u8>,
}

/// A ping.
#[derive(Clone, Debug, PartialEq)]
pub struct Ping {
}

/// An addition of distinct members to a set.
#[derive(Clone, Debug, PartialEq)]
pub struct SetAdd {
    pub key: Vec<u8>,
    pub members: Vec<Vec<u8>>,
    pub ttl: Option<u64>,
}

/// A read of the members of a set.
#[derive(Clone, Debug, PartialEq)]
pub struct SetMembers {
    pub key: Vec<u8>,
}

/// A removal of distinct members from a set.
#[derive(Clone, Debug, PartialEq)]
pub struct SetRemove {
    pub key: Vec<u8>,
    pub members: Vec<Vec<u8>>,
}

/// An addition of distinct members to a sorted set; their scores are drawn where the request is sent.
#[derive(Clone, Debug, PartialEq)]
pub struct SortedSetAdd {
    pub key: Vec<u8>,
    pub members: Vec<Vec<u8>>,
    pub ttl: Option<u64>,
}

/// A read of a range of a sorted set, by rank or by score.
#[derive(Clone, Debug, PartialEq)]
pub struct SortedSetRange {
    pub key: Vec<u8>,
    pub start: Option<i32>,
    pub end: Option<i32>,
    pub by_score: bool,
}

/// A removal of distinct members from a sorted set.
#[derive(Clone, Debug, PartialEq)]
pub struct SortedSetRemove {
    pub key: Vec<u8>,
    pub members: Vec<Vec<u8>>,
}

/// An increment of the score of one member; the amount is drawn where the request is sent.
#[derive(Clone, Debug, PartialEq)]
pub struct SortedSetIncrement {
    pub key: Vec<u8>,
    pub member: Vec<u8>,
    pub ttl: Option<u64>,
}

/// A read of the scores of distinct members.
#[derive(Clone, Debug, PartialEq)]
pub struct SortedSetScore {
    pub key: Vec<u8>,
    pub members: Vec<Vec<u8>>,
}

/// A read of the rank of one member.
#[derive(Clone, Debug, PartialEq)]
pub struct SortedSetRank {
    pub key: Vec<u8>,
    pub member: Vec<u8>,
}

/// A request to a cache.
#[derive(Clone, Debug, PartialEq)]
pub enum ClientRequest {
    Add(Add),
    Get(Get),
    SetValue(SetValue),
    Delete(Delete),
    Replace(Replace),
    HashGet(HashGet),
    HashGetAll(HashGetAll),
    HashDelete(HashDelete),
    HashExists(HashExists),
    HashIncrement(HashIncrement),
    HashSet(HashSet),
    ListPushFront(ListPushFront),
    ListPushBack(ListPushBack),
    ListFetch(ListFetch),
    ListLength(ListLength),
    ListPopFront(ListPopFront),
    ListPopBack(ListPopBack),
    ListRemove(ListRemove),
    Ping(Ping),
    SetAdd(SetAdd),
    SetMembers(SetMembers),
    SetRemove(SetRemove),
    SortedSetAdd(SortedSetAdd),
    SortedSetRange(SortedSetRange),
    SortedSetRemove(SortedSetRemove),
    SortedSetIncrement(SortedSetIncrement),
    SortedSetScore(SortedSetScore),
    SortedSetRank(SortedSetRank),
}

/// The inner keys (hash fields, list elements, set members) a request
/// carries, in order.
pub open spec fn inner_keys(req: ClientRequest) -> Seq<Vec<u8>> {
    match req {
        ClientRequest::HashGet(r) => r.fields@,
        ClientRequest::HashDelete(r) => r.fields@,
        ClientRequest::HashExists(r) => seq![r.field],
        ClientRequest::HashIncrement(r) => seq![r.field],
        ClientRequest::HashSet(r) => r.data@.map_values(|e: (Vec<u8>, Bytes)| e.0),
        ClientRequest::ListPushFront(r) => r.elements@,
        ClientRequest::ListPushBack(r) => r.elements@,
        ClientRequest::ListRemove(r) => seq![r.element],
        ClientRequest::SetAdd(r) => r.members@,
        ClientRequest::SetRemove(r) => r.members@,
        ClientRequest::SortedSetAdd(r) => r.members@,
        ClientRequest::SortedSetRemove(r) => r.members@,
        ClientRequest::SortedSetIncrement(r) => seq![r.member],
        ClientRequest::SortedSetScore(r) => r.members@,
        ClientRequest::SortedSetRank(r) => seq![r.member],
        _ => Seq::empty(),
    }
}

/// How many inner keys a request carries.
pub open spec fn inner_key_count(req: ClientRequest) -> nat {
    inner_keys(req).len()
}

/// The truncation a request asks for: only list pushes carry one.
pub open spec fn request_truncate(req: ClientRequest) -> Option<u32> {
    match req {
        ClientRequest::ListPushFront(r) => r.truncate,
        ClientRequest::ListPushBack(r) => r.truncate,
        _ => None,
    }
}

} // verus!
