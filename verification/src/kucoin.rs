//! KuCoin `/market/level2` incremental order-book payloads.

use vstd::prelude::*;

use crate::json::{
    json_accepts, json_at, len_at, lookup_len, lookup_str, lookup_u64, parse_json, pointer_child, pointer_index, ptr_idx, ptr_key,
    str_at, u64_at, JsonDoc, JsonNode,
};
use crate::model::ExchangeError;

verus! {

/// `[price, size, sequence]`, all strings.
#[derive(Debug, Clone, PartialEq, Eq)]
pub struct KucoinChange(pub String, pub String, pub String);

/// The changes of one update; a missing side is empty.
#[derive(Debug, Clone, PartialEq, Eq)]
pub struct KucoinChanges {
    pub asks: Vec<KucoinChange>,
    pub bids: Vec<KucoinChange>,
}

impl Default for KucoinChanges {
    fn default() -> (c: KucoinChanges)
        ensures
            c.asks@.len() == 0,
            c.bids@.len() == 0,
    {
        KucoinChanges { asks: Vec::new(), bids: Vec::new() }
    }
}

/// An incremental update covering the sequence range `sequence_start..=sequence_end`.
#[derive(Debug, Clone, PartialEq, Eq)]
pub struct KucoinL2Data {
    pub sequence_start: u64,
    pub sequence_end: u64,
    pub symbol: String,
    pub changes: KucoinChanges,
}

/// Whether the value at `p` reads as a change: an array of exactly three strings.
pub open spec fn change_ok(t: Seq<char>, p: Seq<char>) -> bool {
    &&& len_at(t, p) == Some(3usize)
    &&& str_at(t, ptr_idx(p, 0)) is Some
    &&& str_at(t, ptr_idx(p, 1)) is Some
    &&& str_at(t, ptr_idx(p, 2)) is Some
}

/// Whether `c` is the change read at `p`.
pub open spec fn change_is(t: Seq<char>, p: Seq<char>, c: KucoinChange) -> bool {
    &&& str_at(t, ptr_idx(p, 0)) == Some(c.0@)
    &&& str_at(t, ptr_idx(p, 1)) == Some(c.1@)
    &&& str_at(t, ptr_idx(p, 2)) == Some(c.2@)
}

/// Whether the value at `p` reads as a side of changes: absent (empty) or
/// an array of changes.
pub open spec fn side_ok(t: Seq<char>, p: Seq<char>) -> bool {
    json_at(t, p) is None || (len_at(t, p) is Some
        && forall|i: nat| i < len_at(t, p)->0 ==> #[trigger] change_ok(t, ptr_idx(p, i)))
}

/// Whether `side` is the side read at `p`.
pub open spec fn side_is(t: Seq<char>, p: Seq<char>, side: Seq<KucoinChange>) -> bool {
    if json_at(t, p) is None {
        side.len() == 0
    } else {
        &&& len_at(t, p) == Some(side.len() as usize)
        &&& forall|i: int| 0 <= i < side.len() ==> #[trigger] change_is(t, ptr_idx(p, i as nat), side[i])
    }
}

/// Whether a text reads as an update: `sequenceStart`, `sequenceEnd`,
/// `symbol` and a `changes` object whose `asks` and `bids` read as sides.
pub open spec fn l2_ok(t: Seq<char>) -> bool {
    let c = ptr_key(Seq::empty(), "changes"@);
    &&& crate::json::json_accepts(t)
    &&& u64_at(t, ptr_key(Seq::empty(), "sequenceStart"@)) is Some
    &&& u64_at(t, ptr_key(Seq::empty(), "sequenceEnd"@)) is Some
    &&& str_at(t, ptr_key(Seq::empty(), "symbol"@)) is Some
    &&& json_at(t, c) matches Some(JsonNode::Object(_))
    &&& side_ok(t, ptr_key(c, "asks"@))
    &&& side_ok(t, ptr_key(c, "bids"@))
}

/// Whether `d` is the update read from `t`.
pub open spec fn l2_is(t: Seq<char>, d: KucoinL2Data) -> bool {
    let c = ptr_key(Seq::empty(), "changes"@);
    &&& u64_at(t, ptr_key(Seq::empty(), "sequenceStart"@)) == Some(d.sequence_start)
    &&& u64_at(t, ptr_key(Seq::empty(), "sequenceEnd"@)) == Some(d.sequence_end)
    &&& str_at(t, ptr_key(Seq::empty(), "symbol"@)) == Some(d.symbol@)
    &&& side_is(t, ptr_key(c, "asks"@), d.changes.asks@)
    &&& side_is(t, ptr_key(c, "bids"@), d.changes.bids@)
}

fn decode_change(doc: &JsonDoc, p: &String) -> (r: Result<KucoinChange, ExchangeError>)
    ensures
        r is Ok <==> change_ok(doc@, p@),
        r matches Ok(c) ==> change_is(doc@, p@, c),
{
    let n = lookup_len(doc, p);
    let a = lookup_str(doc, &pointer_index(p, 0));
    let b = lookup_str(doc, &pointer_index(p, 1));
    let s = lookup_str(doc, &pointer_index(p, 2));
    match (n, a, b, s) {
        (Some(3), Some(a), Some(b), Some(s)) => Ok(KucoinChange(a, b, s)),
        _ => Err(ExchangeError::MalformedFrame("kucoin change")),
    }
}

fn decode_side(doc: &JsonDoc, p: &String) -> (r: Result<Vec<KucoinChange>, ExchangeError>)
    ensures
        r is Ok <==> side_ok(doc@, p@),
        r matches Ok(side) ==> side_is(doc@, p@, side@),
{
    if crate::json::json_lookup(doc, p.as_str()).is_none() {
        return Ok(Vec::new());
    }
    let n = match lookup_len(doc, p) {
        Some(n) => n,
        None => return Err(ExchangeError::MalformedFrame("kucoin side")),
    };
    let mut side: Vec<KucoinChange> = Vec::new();
    let mut i: usize = 0;
    while i < n
        invariant
            i <= n,
            json_at(doc@, p@) is Some,
            len_at(doc@, p@) == Some(n),
            side@.len() == i,
            forall|k: int| 0 <= k < i ==> #[trigger] change_is(doc@, ptr_idx(p@, k as nat), side@[k]),
            forall|k: nat| k < i ==> #[trigger] change_ok(doc@, ptr_idx(p@, k)),
        decreases n - i,
    {
        match decode_change(doc, &pointer_index(p, i)) {
            Ok(c) => side.push(c),
            Err(e) => return Err(e),
        }
        i += 1;
    }
    Ok(side)
}

impl KucoinL2Data {
    /// Reads an update from its JSON text.
    pub fn from_json(raw: &str) -> (r: Result<KucoinL2Data, ExchangeError>)
        ensures
            r is Ok <==> l2_ok(raw@),
            r matches Ok(d) ==> l2_is(raw@, d),
            !json_accepts(raw@) ==> r == Err::<KucoinL2Data, ExchangeError>(ExchangeError::MalformedFrame("not json")),
            json_accepts(raw@) && !l2_ok(raw@) ==>
                r == Err::<KucoinL2Data, ExchangeError>(ExchangeError::MalformedFrame("kucoin level2")),
    {
        let doc = match parse_json(raw) {
            Some(d) => d,
            None => return Err(ExchangeError::MalformedFrame("not json")),
        };
        let root = String::new();
        let start = lookup_u64(&doc, &pointer_child(&root, "sequenceStart"));
        let end = lookup_u64(&doc, &pointer_child(&root, "sequenceEnd"));
        let symbol = lookup_str(&doc, &pointer_child(&root, "symbol"));
        let c = pointer_child(&root, "changes");
        let is_obj = crate::json::lookup_is_object(&doc, &c);
        let asks = decode_side(&doc, &pointer_child(&c, "asks"));
        let bids = decode_side(&doc, &pointer_child(&c, "bids"));
        match (start, end, symbol, is_obj, asks, bids) {
            (Some(sequence_start), Some(sequence_end), Some(symbol), true, Ok(asks), Ok(bids)) =>
                Ok(KucoinL2Data { sequence_start, sequence_end, symbol, changes: KucoinChanges { asks, bids } }),
            _ => Err(ExchangeError::MalformedFrame("kucoin level2")),
        }
    }
}

} // verus!
