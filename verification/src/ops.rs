//! Redis writes as plain values: the library decides which writes to make, and the
//! program around it sends them.

use crate::text::owned;
use vstd::prelude::*;

verus! {

/// One Redis write.
#[derive(Clone, Debug)]
pub enum RedisOp {
    /// `HSET key f1 v1 f2 v2 ...`
    HashSet { key: String, fields: Vec<(String, String)> },
    /// `HDEL key f1 f2 ...`
    HashDelete { key: String, names: Vec<String> },
    /// `RPUSH key value`
    PushBack { key: String, value: String },
    /// `LPUSH key value`
    PushFront { key: String, value: String },
    /// `LTRIM key start stop`
    Trim { key: String, start: i64, stop: i64 },
    /// `ZADD key score member`
    SortedAdd { key: String, member: String, score: i64 },
    /// `ZREM key member`
    SortedRemove { key: String, member: String },
    /// `SADD key member`
    SetAdd { key: String, member: String },
    /// `DEL key`
    Delete { key: String },
    /// `INCRBY key by`
    Increment { key: String, by: i64 },
}

/// The content of a `RedisOp`.
pub enum OpView {
    HashSet { key: Seq<char>, fields: Seq<(Seq<char>, Seq<char>)> },
    HashDelete { key: Seq<char>, names: Seq<Seq<char>> },
    PushBack { key: Seq<char>, value: Seq<char> },
    PushFront { key: Seq<char>, value: Seq<char> },
    Trim { key: Seq<char>, start: i64, stop: i64 },
    SortedAdd { key: Seq<char>, member: Seq<char>, score: i64 },
    SortedRemove { key: Seq<char>, member: Seq<char> },
    SetAdd { key: Seq<char>, member: Seq<char> },
    Delete { key: Seq<char> },
    Increment { key: Seq<char>, by: i64 },
}

/// The contents of a sequence of field/value pairs.
pub open spec fn pairs_view(v: Seq<(String, String)>) -> Seq<(Seq<char>, Seq<char>)> {
    v.map_values(|p: (String, String)| (p.0@, p.1@))
}

impl View for RedisOp {
    type V = OpView;

    open spec fn view(&self) -> OpView {
        match self {
            RedisOp::HashSet { key, fields } => OpView::HashSet {
                key: key@,
                fields: pairs_view(fields@),
            },
            RedisOp::HashDelete { key, names } => OpView::HashDelete {
                key: key@,
                names: names@.map_values(|f: String| f@),
            },
            RedisOp::PushBack { key, value } => OpView::PushBack { key: key@, value: value@ },
            RedisOp::PushFront { key, value } => OpView::PushFront { key: key@, value: value@ },
            RedisOp::Trim { key, start, stop } => OpView::Trim {
                key: key@,
                start: *start,
                stop: *stop,
            },
            RedisOp::SortedAdd { key, member, score } => OpView::SortedAdd {
                key: key@,
                member: member@,
                score: *score,
            },
            RedisOp::SortedRemove { key, member } => OpView::SortedRemove {
                key: key@,
                member: member@,
            },
            RedisOp::SetAdd { key, member } => OpView::SetAdd { key: key@, member: member@ },
            RedisOp::Delete { key } => OpView::Delete { key: key@ },
            RedisOp::Increment { key, by } => OpView::Increment { key: key@, by: *by },
        }
    }
}

/// The contents of a sequence of writes.
pub open spec fn ops_view(v: Seq<RedisOp>) -> Seq<OpView> {
    v.map_values(|o: RedisOp| o@)
}

/// A field/value pair whose field name is `name`.
pub fn field(name: &str, value: String) -> (r: (String, String))
    ensures
        r.0@ == name@,
        r.1@ == value@,
{
    (owned(name), value)
}

} // verus!
