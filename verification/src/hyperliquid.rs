//! The Hyperliquid venue: wire payloads, their decoding from JSON frames, and
//! their normalization into domain events; subscription framing and the
//! venue's profile.

use vstd::prelude::*;

use crate::decimal::{parsed_dec, Dec};
use crate::json::{
    is_object_at, is_opt_str_at, json_accepts, len_at, lookup_is_object, lookup_len, lookup_opt_str, lookup_str,
    json_quote, json_quoted, lookup_u64, opt_str_ok, parse_json, pointer_child, pointer_index, ptr_idx, ptr_key, str_at, u64_at, JsonDoc,
};
use crate::model::{
    epoch_to_us, ms_to_us, ConnectionBudget, FundingSettlement, ExchangeError, ExchangeProfile, Heartbeat, RateWindow,
    ReconstructionModel, wrapped_add, DeclaredDatatype, DeclaredSet, DomainEvent, FundingRate, NormalizedDelta,
    OpenInterest, SourceMetrics, SymbolCodec, Trade, TradeOrigin, TradeSide, TradingPair,
};
use crate::text::{decimal_text, lacks, push_str, u64_to_text};

verus! {

/// One price level of a book: price and size keep their wire text.
#[derive(Debug, PartialEq, Eq)]
pub struct HyperliquidLevel {
    pub px: String,
    pub sz: String,
    pub n: u64,
}

/// An `l2Book` payload: `levels` should hold the bids then the asks.
#[derive(Debug, PartialEq, Eq)]
pub struct HyperliquidBook {
    pub coin: String,
    pub time: u64,
    pub levels: Vec<Vec<HyperliquidLevel>>,
}

/// One entry of a `trades` payload; `side` is `B` (buy) or `A` (sell).
#[derive(Debug, PartialEq, Eq)]
pub struct HyperliquidTrade {
    pub coin: String,
    pub side: String,
    pub px: String,
    pub sz: String,
    pub time: u64,
    pub tid: u64,
}

/// The fields of an `activeAssetCtx` context that the normalizer reads.
#[derive(Debug, PartialEq, Eq)]
pub struct HyperliquidAssetCtx {
    pub funding: Option<String>,
    pub open_interest: Option<String>,
    pub mark_px: Option<String>,
    pub premium: Option<String>,
}

/// An `activeAssetCtx` payload.
#[derive(Debug, PartialEq, Eq)]
pub struct HyperliquidAssetCtxMsg {
    pub coin: String,
    pub ctx: HyperliquidAssetCtx,
}

/// One row of a `fundingHistory` answer.
#[derive(Debug, PartialEq, Eq)]
pub struct HyperliquidFundingHistoryRow {
    pub coin: String,
    pub funding_rate: String,
    pub premium: Option<String>,
    pub time: u64,
}

/// A decoded Hyperliquid websocket frame.
#[derive(Debug, PartialEq, Eq)]
pub enum HyperliquidWssEvent {
    Book(HyperliquidBook),
    Trades(Vec<HyperliquidTrade>),
    AssetCtx(HyperliquidAssetCtxMsg),
}

/// Hyperliquid names coins bare; every pair is quoted in USDC.
pub fn hyperliquid_codec() -> (c: SymbolCodec)
    ensures
        c == (SymbolCodec::BareCoin { quote: "USDC" }),
{
    SymbolCodec::BareCoin { quote: "USDC" }
}

/// The exchange name on every Hyperliquid record.
pub open spec fn venue_name() -> Seq<char> {
    "hyperliquid"@
}

/// Whether the codec accepts `coin` and quotes it in USDC.
pub open spec fn is_pair_of(p: TradingPair, coin: Seq<char>) -> bool {
    p.base@ == coin && p.quote@ == "USDC"@
}

/// Whether Hyperliquid's codec accepts a coin.
pub open spec fn coin_ok(coin: Seq<char>) -> bool {
    coin.len() > 0 && lacks(coin, '/')
}

/// The side a wire side letter stands for: `B` or `b` is a buy, `A` or `a` a
/// sell (the match ignores ASCII case); anything else is unknown.
pub open spec fn side_of(s: Seq<char>) -> Option<TradeSide> {
    if s =~= seq!['B'] || s =~= seq!['b'] {
        Some(TradeSide::Buy)
    } else if s =~= seq!['A'] || s =~= seq!['a'] {
        Some(TradeSide::Sell)
    } else {
        None
    }
}

/// The decimal an optional wire text stands for; none when absent or unparseable.
pub open spec fn opt_dec(o: Option<String>) -> Option<Dec> {
    match o {
        Some(s) => parsed_dec(s@),
        None => None,
    }
}

/// Reads a wire side letter.
pub fn classify_side(side: &str) -> (r: Option<TradeSide>)
    ensures
        r == side_of(side@),
{
    let cs = crate::text::chars_of(side);
    if cs.len() != 1 {
        return None;
    }
    let c = cs[0];
    if c == 'B' || c == 'b' {
        assert(side@ =~= seq![c]);
        Some(TradeSide::Buy)
    } else if c == 'A' || c == 'a' {
        assert(side@ =~= seq![c]);
        Some(TradeSide::Sell)
    } else {
        proof {
            assert(side@ =~= seq![c]);
            assert(seq![c] != seq!['B']) by { assert(seq![c][0] != seq!['B'][0]); }
            assert(seq![c] != seq!['b']) by { assert(seq![c][0] != seq!['b'][0]); }
            assert(seq![c] != seq!['A']) by { assert(seq![c][0] != seq!['A'][0]); }
            assert(seq![c] != seq!['a']) by { assert(seq![c][0] != seq!['a'][0]); }
        }
        None
    }
}

/// Whether a trade survives normalization: a known coin, a known side, and a
/// size and price that parse as decimals.
pub open spec fn trade_kept(t: HyperliquidTrade) -> bool {
    trade_kept_with(t, parsed_dec(t.sz@), parsed_dec(t.px@))
}

/// Whether a trade survives normalization once its size and price were
/// parsed to `amount` and `price`: a known coin, a known side, and both parsed.
pub open spec fn trade_kept_with(t: HyperliquidTrade, amount: Option<Dec>, price: Option<Dec>) -> bool {
    &&& coin_ok(t.coin@)
    &&& side_of(t.side@) is Some
    &&& amount is Some
    &&& price is Some
}

/// Whether `ev` is the normalized form of the trade `t`.
pub open spec fn is_trade_of(t: HyperliquidTrade, ev: DomainEvent) -> bool {
    is_trade_with(t, parsed_dec(t.sz@), parsed_dec(t.px@), ev)
}

/// Whether `ev` is the normalized form of the trade `t` whose size and
/// price were parsed to `amount` and `price`.
pub open spec fn is_trade_with(t: HyperliquidTrade, amount: Option<Dec>, price: Option<Dec>, ev: DomainEvent) -> bool {
    &&& ev matches DomainEvent::Trade { trade, sequence }
    &&& sequence is None
    &&& trade.source_trade_ts_us == ms_to_us(t.time)
    &&& trade.local_trade_ts_us == 0
    &&& trade.source_trade_rtt_us == 0
    &&& is_pair_of(trade.pair, t.coin@)
    &&& side_of(t.side@) == Some(trade.side)
    &&& amount == Some(trade.amount)
    &&& price == Some(trade.price)
    &&& trade.exchange@ == venue_name()
    &&& trade.id@ == decimal_text(t.tid as nat)
    &&& trade.origin == TradeOrigin::Ws
}

/// The event of one trade whose size and price were parsed to `amount` and
/// `price`; `None` when it is dropped (see [`trade_kept_with`]).
pub fn trade_event(t: &HyperliquidTrade, amount: Option<Dec>, price: Option<Dec>) -> (r: Option<DomainEvent>)
    ensures
        r is Some <==> trade_kept_with(*t, amount, price),
        r matches Some(ev) ==> is_trade_with(*t, amount, price, ev),
{
    let codec = hyperliquid_codec();
    let pair = match codec.decode(t.coin.as_str()) {
        Some(p) => p,
        None => return None,
    };
    let side = match classify_side(t.side.as_str()) {
        Some(s) => s,
        None => return None,
    };
    match (amount, price) {
        (Some(amount), Some(price)) => {
            let trade = Trade {
                source_trade_ts_us: epoch_to_us(t.time),
                local_trade_ts_us: 0,
                source_trade_rtt_us: 0,
                pair,
                side,
                amount,
                price,
                exchange: String::from_str("hyperliquid"),
                id: u64_to_text(t.tid),
                origin: TradeOrigin::default(),
            };
            Some(DomainEvent::Trade { trade, sequence: None })
        },
        _ => None,
    }
}

/// Normalizes one trade; `None` when it is dropped (see [`trade_kept`]).
pub fn normalize_trade(t: &HyperliquidTrade) -> (r: Option<DomainEvent>)
    ensures
        r is Some <==> trade_kept(*t),
        r matches Some(ev) ==> is_trade_of(*t, ev),
{
    trade_event(t, Dec::parse(t.sz.as_str()), Dec::parse(t.px.as_str()))
}

/// The trades of `ts` that survive normalization, in order.
pub open spec fn kept_trades(ts: Seq<HyperliquidTrade>) -> Seq<HyperliquidTrade>
    decreases ts.len(),
{
    if ts.len() == 0 {
        ts
    } else if trade_kept(ts.last()) {
        kept_trades(ts.drop_last()).push(ts.last())
    } else {
        kept_trades(ts.drop_last())
    }
}

/// The number of entries of `kept_trades(ts)` is at most that of `ts`.
pub proof fn lemma_kept_trades_len(ts: Seq<HyperliquidTrade>)
    ensures
        kept_trades(ts).len() <= ts.len(),
    decreases ts.len(),
{
    if ts.len() > 0 {
        lemma_kept_trades_len(ts.drop_last());
    }
}

/// The decimals an asset context carries, once parsed: each `None` when the
/// field is absent or does not parse.
#[derive(Debug, Clone, Copy, PartialEq, Eq, Structural)]
pub struct AssetCtxDecimals {
    pub funding: Option<Dec>,
    pub open_interest: Option<Dec>,
    pub mark_px: Option<Dec>,
    pub premium: Option<Dec>,
}

/// The decimals of an asset context as `rust_decimal` reads its fields.
pub open spec fn ctx_decimals(msg: HyperliquidAssetCtxMsg) -> AssetCtxDecimals {
    AssetCtxDecimals {
        funding: opt_dec(msg.ctx.funding),
        open_interest: opt_dec(msg.ctx.open_interest),
        mark_px: opt_dec(msg.ctx.mark_px),
        premium: opt_dec(msg.ctx.premium),
    }
}

/// Whether `ev` is the funding sample of an asset context with decimals `d`.
pub open spec fn is_funding_with(msg: HyperliquidAssetCtxMsg, d: AssetCtxDecimals, ev: DomainEvent) -> bool {
    &&& ev matches DomainEvent::FundingRate(f)
    &&& f.funding_rate_ts_us == 0
    &&& f.local_funding_ts_us == 0
    &&& f.recv_seq == 0
    &&& f.conn_epoch == 0
    &&& is_pair_of(f.pair, msg.coin@)
    &&& d.funding == Some(f.funding_rate)
    &&& f.premium == d.premium
    &&& f.interval_hours == 1
    &&& f.next_funding_ts_us == 0
    &&& f.exchange@ == venue_name()
}

/// Whether `ev` is the funding sample of an asset context.
pub open spec fn is_funding_of(msg: HyperliquidAssetCtxMsg, ev: DomainEvent) -> bool {
    is_funding_with(msg, ctx_decimals(msg), ev)
}

/// Whether `ev` is the open-interest sample of an asset context with decimals `d`.
pub open spec fn is_oi_with(msg: HyperliquidAssetCtxMsg, d: AssetCtxDecimals, ev: DomainEvent) -> bool {
    &&& ev matches DomainEvent::OpenInterest(o)
    &&& o.open_interest_ts_us == 0
    &&& o.local_oi_ts_us == 0
    &&& o.recv_seq == 0
    &&& o.conn_epoch == 0
    &&& is_pair_of(o.pair, msg.coin@)
    &&& d.open_interest == Some(o.open_interest)
    &&& o.open_interest_value is None
    &&& o.mark_px == d.mark_px
    &&& o.exchange@ == venue_name()
}

/// Whether `ev` is the open-interest sample of an asset context.
pub open spec fn is_oi_of(msg: HyperliquidAssetCtxMsg, ev: DomainEvent) -> bool {
    is_oi_with(msg, ctx_decimals(msg), ev)
}

/// A funding sample is asked for: the set declares funding rates and the
/// context carries a rate.
pub open spec fn wants_funding(declared: DeclaredSet, msg: HyperliquidAssetCtxMsg) -> bool {
    declared.has(DeclaredDatatype::FundingRates) && msg.ctx.funding is Some
}

/// An open-interest sample is asked for.
pub open spec fn wants_oi(declared: DeclaredSet, msg: HyperliquidAssetCtxMsg) -> bool {
    declared.has(DeclaredDatatype::OpenInterest) && msg.ctx.open_interest is Some
}

/// The funding sample is emitted, given decimals `d`: asked for and its rate parsed.
pub open spec fn emits_funding_with(declared: DeclaredSet, msg: HyperliquidAssetCtxMsg, d: AssetCtxDecimals) -> bool {
    coin_ok(msg.coin@) && wants_funding(declared, msg) && d.funding is Some
}

/// The open-interest sample is emitted, given decimals `d`.
pub open spec fn emits_oi_with(declared: DeclaredSet, msg: HyperliquidAssetCtxMsg, d: AssetCtxDecimals) -> bool {
    coin_ok(msg.coin@) && wants_oi(declared, msg) && d.open_interest is Some
}

/// The funding sample is emitted: asked for and its rate parses.
pub open spec fn emits_funding(declared: DeclaredSet, msg: HyperliquidAssetCtxMsg) -> bool {
    emits_funding_with(declared, msg, ctx_decimals(msg))
}

/// The open-interest sample is emitted.
pub open spec fn emits_oi(declared: DeclaredSet, msg: HyperliquidAssetCtxMsg) -> bool {
    emits_oi_with(declared, msg, ctx_decimals(msg))
}

/// The events of an asset context with decimals `d`: the funding sample
/// first, then the open-interest sample, each only when emitted.
pub open spec fn asset_ctx_events_with(
    declared: DeclaredSet,
    msg: HyperliquidAssetCtxMsg,
    d: AssetCtxDecimals,
    evs: Seq<DomainEvent>,
) -> bool {
    let nf: int = if emits_funding_with(declared, msg, d) { 1 } else { 0 };
    let no: int = if emits_oi_with(declared, msg, d) { 1 } else { 0 };
    &&& evs.len() == nf + no
    &&& emits_funding_with(declared, msg, d) ==> is_funding_with(msg, d, evs[0])
    &&& emits_oi_with(declared, msg, d) ==> is_oi_with(msg, d, evs[nf])
}

/// The events of an asset context, as the normalizer emits them.
pub open spec fn asset_ctx_events_ok(declared: DeclaredSet, msg: HyperliquidAssetCtxMsg, evs: Seq<DomainEvent>) -> bool {
    asset_ctx_events_with(declared, msg, ctx_decimals(msg), evs)
}

/// How many frames an asset context with decimals `d` drops: one for an
/// unknown coin; otherwise one per sample that is asked for but not parsed.
pub open spec fn asset_ctx_drops_with(declared: DeclaredSet, msg: HyperliquidAssetCtxMsg, d: AssetCtxDecimals) -> nat {
    if !coin_ok(msg.coin@) {
        1
    } else {
        (if wants_funding(declared, msg) && d.funding is None { 1nat } else { 0nat })
            + (if wants_oi(declared, msg) && d.open_interest is None { 1nat } else { 0nat })
    }
}

/// How many frames normalizing an asset context drops.
pub open spec fn asset_ctx_drops(declared: DeclaredSet, msg: HyperliquidAssetCtxMsg) -> nat {
    asset_ctx_drops_with(declared, msg, ctx_decimals(msg))
}

/// Whether `ev` is the snapshot event of a two-sided book.
pub open spec fn is_book_of(book: HyperliquidBook, ev: DomainEvent) -> bool {
    &&& ev matches DomainEvent::Book(d)
    &&& d.symbol == book.coin
    &&& d.bids@ == book.levels@[0]@.map_values(|l: HyperliquidLevel| (l.px, l.sz))
    &&& d.asks@ == book.levels@[1]@.map_values(|l: HyperliquidLevel| (l.px, l.sz))
    &&& d.update_id == book.time
    &&& d.sequence == 0
    &&& d.source_orderbook_ts_us == ms_to_us(book.time)
    &&& d.local_orderbook_ts_us == 0
    &&& d.source_orderbook_rtt_us == 0
    &&& d.checksum is None
    &&& d.is_snapshot
}

/// What normalizing a frame emits.
pub open spec fn normalized(declared: DeclaredSet, event: HyperliquidWssEvent, evs: Seq<DomainEvent>) -> bool {
    match event {
        HyperliquidWssEvent::Book(book) =>
            if book.levels.len() == 2 {
                evs.len() == 1 && is_book_of(book, evs[0])
            } else {
                evs.len() == 0
            },
        HyperliquidWssEvent::Trades(ts) => {
            let kept = kept_trades(ts@);
            &&& evs.len() == kept.len()
            &&& forall|i: int| 0 <= i < kept.len() ==> #[trigger] is_trade_of(kept[i], evs[i])
        },
        HyperliquidWssEvent::AssetCtx(msg) => asset_ctx_events_ok(declared, msg, evs),
    }
}

/// How many frames normalizing a frame drops.
pub open spec fn normalize_drops(declared: DeclaredSet, event: HyperliquidWssEvent) -> nat {
    match event {
        HyperliquidWssEvent::Book(book) => if book.levels.len() == 2 { 0 } else { 1 },
        HyperliquidWssEvent::Trades(ts) => (ts.len() - kept_trades(ts@).len()) as nat,
        HyperliquidWssEvent::AssetCtx(msg) => asset_ctx_drops(declared, msg),
    }
}

/// Turns Hyperliquid frames into domain events, counting what it drops.
pub struct HyperliquidNormalizer {
    pub metrics: SourceMetrics,
    pub declared: DeclaredSet,
}

impl Default for HyperliquidNormalizer {
    fn default() -> (n: HyperliquidNormalizer)
        ensures
            n.metrics == (SourceMetrics { msgs: 0, dropped_frames: 0, gaps: 0, decode_err: 0 }),
            forall|d: DeclaredDatatype| n.declared.has(d),
    {
        HyperliquidNormalizer { metrics: SourceMetrics::new(), declared: DeclaredSet::all() }
    }
}

impl HyperliquidNormalizer {
    /// Normalizes one frame. A book needs exactly two sides (bids, asks) and
    /// becomes one full snapshot that keeps the wire price and size texts;
    /// trades become one event each, dropping unusable ones; an asset
    /// context becomes funding and open-interest samples as declared. Every
    /// drop is counted in `metrics.dropped_frames`.
    pub fn normalize(&mut self, event: HyperliquidWssEvent) -> (evs: Vec<DomainEvent>)
        ensures
            normalized(old(self).declared, event, evs@),
            final(self).declared == old(self).declared,
            final(self).metrics == (SourceMetrics {
                dropped_frames: wrapped_add(old(self).metrics.dropped_frames,
                    normalize_drops(old(self).declared, event) as u64),
                ..old(self).metrics
            }),
    {
        match event {
            HyperliquidWssEvent::Book(book) => {
                let ghost g = book;
                if book.levels.len() != 2 {
                    self.metrics.add_dropped_frames(1);
                    return Vec::new();
                }
                let bids = level_pairs(&book.levels[0]);
                let asks = level_pairs(&book.levels[1]);
                let delta = NormalizedDelta {
                    symbol: book.coin,
                    bids,
                    asks,
                    update_id: book.time,
                    sequence: 0,
                    source_orderbook_ts_us: epoch_to_us(book.time),
                    local_orderbook_ts_us: 0,
                    source_orderbook_rtt_us: 0,
                    checksum: None,
                    is_snapshot: true,
                };
                let mut evs = Vec::new();
                evs.push(DomainEvent::Book(delta));
                self.metrics.add_dropped_frames(0);
                assert(wrapped_add(old(self).metrics.dropped_frames, 0) == old(self).metrics.dropped_frames);
                evs
            },
            HyperliquidWssEvent::Trades(trades) => {
                let (evs, dropped) = normalize_trades(trades);
                self.metrics.add_dropped_frames(dropped);
                evs
            },
            HyperliquidWssEvent::AssetCtx(msg) => {
                let (evs, dropped) = normalize_asset_ctx(&self.declared, msg);
                self.metrics.add_dropped_frames(dropped);
                evs
            },
        }
    }
}

/// The (price, size) pairs of one book side, wire texts unchanged.
fn level_pairs(levels: &Vec<HyperliquidLevel>) -> (r: Vec<(String, String)>)
    ensures
        r@ == levels@.map_values(|l: HyperliquidLevel| (l.px, l.sz)),
{
    let mut r: Vec<(String, String)> = Vec::new();
    let mut i: usize = 0;
    while i < levels.len()
        invariant
            i <= levels.len(),
            r@ == levels@.take(i as int).map_values(|l: HyperliquidLevel| (l.px, l.sz)),
        decreases levels.len() - i,
    {
        r.push((levels[i].px.clone(), levels[i].sz.clone()));
        assert(levels@.take(i + 1).drop_last() =~= levels@.take(i as int));
        i += 1;
    }
    assert(levels@.take(levels.len() as int) =~= levels@);
    r
}

/// Normalizes a batch of trades; returns the events and how many trades were dropped.
fn normalize_trades(trades: Vec<HyperliquidTrade>) -> (r: (Vec<DomainEvent>, u64))
    ensures
        r.0@.len() == kept_trades(trades@).len(),
        forall|i: int| 0 <= i < kept_trades(trades@).len() ==> #[trigger] is_trade_of(kept_trades(trades@)[i], r.0@[i]),
        r.1 == trades.len() - kept_trades(trades@).len(),
{
    let ghost all = trades@;
    let mut evs: Vec<DomainEvent> = Vec::new();
    let mut dropped: u64 = 0;
    let mut i: usize = 0;
    let n = trades.len();
    while i < n
        invariant
            n == all.len(),
            all == trades@,
            i <= n,
            evs@.len() == kept_trades(all.take(i as int)).len(),
            forall|j: int| 0 <= j < evs@.len() ==> #[trigger] is_trade_of(kept_trades(all.take(i as int))[j], evs@[j]),
            dropped == i - kept_trades(all.take(i as int)).len(),
        decreases n - i,
    {
        assert(all.take(i + 1).drop_last() =~= all.take(i as int));
        assert(all.take(i + 1).last() == all[i as int]);
        proof { lemma_kept_trades_len(all.take(i as int)); }
        match normalize_trade(&trades[i]) {
            Some(ev) => {
                evs.push(ev);
            },
            None => {
                dropped = dropped + 1;
            },
        }
        i += 1;
    }
    assert(all.take(n as int) =~= all);
    (evs, dropped)
}

/// The events of an asset context whose decimals were parsed to `d`, and
/// how many samples were dropped (see [`asset_ctx_events_with`] and
/// [`asset_ctx_drops_with`]).
pub fn asset_ctx_events(declared: &DeclaredSet, msg: &HyperliquidAssetCtxMsg, d: &AssetCtxDecimals) -> (r: (Vec<DomainEvent>, u64))
    ensures
        asset_ctx_events_with(*declared, *msg, *d, r.0@),
        r.1 == asset_ctx_drops_with(*declared, *msg, *d),
{
    let codec = hyperliquid_codec();
    let pair = match codec.decode(msg.coin.as_str()) {
        Some(p) => p,
        None => return (Vec::new(), 1),
    };
    let mut events: Vec<DomainEvent> = Vec::new();
    let mut dropped: u64 = 0;
    if declared.contains(DeclaredDatatype::FundingRates) && msg.ctx.funding.is_some() {
        match d.funding {
            Some(rate) => {
                events.push(DomainEvent::FundingRate(FundingRate {
                    funding_rate_ts_us: 0,
                    local_funding_ts_us: 0,
                    recv_seq: 0,
                    conn_epoch: 0,
                    pair: pair.clone(),
                    funding_rate: rate,
                    premium: d.premium,
                    interval_hours: 1,
                    next_funding_ts_us: 0,
                    exchange: String::from_str("hyperliquid"),
                }));
            },
            None => {
                dropped = dropped + 1;
            },
        }
    }
    if declared.contains(DeclaredDatatype::OpenInterest) && msg.ctx.open_interest.is_some() {
        match d.open_interest {
            Some(oi) => {
                events.push(DomainEvent::OpenInterest(OpenInterest {
                    open_interest_ts_us: 0,
                    local_oi_ts_us: 0,
                    recv_seq: 0,
                    conn_epoch: 0,
                    pair,
                    open_interest: oi,
                    open_interest_value: None,
                    mark_px: d.mark_px,
                    exchange: String::from_str("hyperliquid"),
                }));
            },
            None => {
                dropped = dropped + 1;
            },
        }
    }
    (events, dropped)
}

/// Normalizes an asset context; returns the events and how many were dropped.
fn normalize_asset_ctx(declared: &DeclaredSet, msg: HyperliquidAssetCtxMsg) -> (r: (Vec<DomainEvent>, u64))
    ensures
        asset_ctx_events_ok(*declared, msg, r.0@),
        r.1 == asset_ctx_drops(*declared, msg),
{
    let d = AssetCtxDecimals {
        funding: opt_parse(&msg.ctx.funding),
        open_interest: opt_parse(&msg.ctx.open_interest),
        mark_px: opt_parse(&msg.ctx.mark_px),
        premium: opt_parse(&msg.ctx.premium),
    };
    asset_ctx_events(declared, &msg, &d)
}

/// Parses an optional decimal text; none when absent or unparseable.
fn opt_parse(o: &Option<String>) -> (r: Option<Dec>)
    ensures
        r == opt_dec(*o),
{
    match o {
        Some(s) => Dec::parse(s.as_str()),
        None => None,
    }
}

} // verus!
verus! {

/// The pointer `/name`.
pub open spec fn top(name: Seq<char>) -> Seq<char> {
    ptr_key(Seq::empty(), name)
}

/// Whether the value at `lp` reads as a price level.
pub open spec fn level_ok(t: Seq<char>, lp: Seq<char>) -> bool {
    &&& str_at(t, ptr_key(lp, "px"@)) is Some
    &&& str_at(t, ptr_key(lp, "sz"@)) is Some
    &&& u64_at(t, ptr_key(lp, "n"@)) is Some
}

/// Whether `l` is the price level read at `lp`.
pub open spec fn level_is(t: Seq<char>, lp: Seq<char>, l: HyperliquidLevel) -> bool {
    &&& str_at(t, ptr_key(lp, "px"@)) == Some(l.px@)
    &&& str_at(t, ptr_key(lp, "sz"@)) == Some(l.sz@)
    &&& u64_at(t, ptr_key(lp, "n"@)) == Some(l.n)
}

/// Whether the value at `sp` reads as a book side: an array of levels.
pub open spec fn side_ok(t: Seq<char>, sp: Seq<char>) -> bool {
    &&& len_at(t, sp) is Some
    &&& forall|j: nat| j < len_at(t, sp)->0 ==> #[trigger] level_ok(t, ptr_idx(sp, j))
}

/// Whether `side` is the book side read at `sp`.
pub open spec fn side_is(t: Seq<char>, sp: Seq<char>, side: Seq<HyperliquidLevel>) -> bool {
    &&& len_at(t, sp) == Some(side.len() as usize)
    &&& forall|j: int| 0 <= j < side.len() ==> #[trigger] level_is(t, ptr_idx(sp, j as nat), side[j])
}

/// Whether the value at `bp` reads as an `l2Book` payload.
pub open spec fn book_ok(t: Seq<char>, bp: Seq<char>) -> bool {
    let lv = ptr_key(bp, "levels"@);
    &&& str_at(t, ptr_key(bp, "coin"@)) is Some
    &&& u64_at(t, ptr_key(bp, "time"@)) is Some
    &&& len_at(t, lv) is Some
    &&& forall|i: nat| i < len_at(t, lv)->0 ==> #[trigger] side_ok(t, ptr_idx(lv, i))
}

/// Whether `b` is the `l2Book` payload read at `bp`.
pub open spec fn book_is(t: Seq<char>, bp: Seq<char>, b: HyperliquidBook) -> bool {
    let lv = ptr_key(bp, "levels"@);
    &&& str_at(t, ptr_key(bp, "coin"@)) == Some(b.coin@)
    &&& u64_at(t, ptr_key(bp, "time"@)) == Some(b.time)
    &&& len_at(t, lv) == Some(b.levels.len())
    &&& forall|i: int| 0 <= i < b.levels.len() ==> #[trigger] side_is(t, ptr_idx(lv, i as nat), b.levels@[i]@)
}

/// Whether the value at `p` reads as a trade entry.
pub open spec fn trade_ok(t: Seq<char>, p: Seq<char>) -> bool {
    &&& str_at(t, ptr_key(p, "coin"@)) is Some
    &&& str_at(t, ptr_key(p, "side"@)) is Some
    &&& str_at(t, ptr_key(p, "px"@)) is Some
    &&& str_at(t, ptr_key(p, "sz"@)) is Some
    &&& u64_at(t, ptr_key(p, "time"@)) is Some
    &&& u64_at(t, ptr_key(p, "tid"@)) is Some
}

/// Whether `tr` is the trade entry read at `p`.
pub open spec fn trade_is(t: Seq<char>, p: Seq<char>, tr: HyperliquidTrade) -> bool {
    &&& str_at(t, ptr_key(p, "coin"@)) == Some(tr.coin@)
    &&& str_at(t, ptr_key(p, "side"@)) == Some(tr.side@)
    &&& str_at(t, ptr_key(p, "px"@)) == Some(tr.px@)
    &&& str_at(t, ptr_key(p, "sz"@)) == Some(tr.sz@)
    &&& u64_at(t, ptr_key(p, "time"@)) == Some(tr.time)
    &&& u64_at(t, ptr_key(p, "tid"@)) == Some(tr.tid)
}

/// Whether the value at `p` reads as a `trades` payload: an array of entries.
pub open spec fn trades_ok(t: Seq<char>, p: Seq<char>) -> bool {
    &&& len_at(t, p) is Some
    &&& forall|i: nat| i < len_at(t, p)->0 ==> #[trigger] trade_ok(t, ptr_idx(p, i))
}

/// Whether `ts` is the `trades` payload read at `p`.
pub open spec fn trades_is(t: Seq<char>, p: Seq<char>, ts: Seq<HyperliquidTrade>) -> bool {
    &&& len_at(t, p) == Some(ts.len() as usize)
    &&& forall|i: int| 0 <= i < ts.len() ==> #[trigger] trade_is(t, ptr_idx(p, i as nat), ts[i])
}

/// Whether the value at `p` reads as an `activeAssetCtx` payload.
pub open spec fn asset_ctx_ok(t: Seq<char>, p: Seq<char>) -> bool {
    let c = ptr_key(p, "ctx"@);
    &&& str_at(t, ptr_key(p, "coin"@)) is Some
    &&& is_object_at(t, c)
    &&& opt_str_ok(t, ptr_key(c, "funding"@))
    &&& opt_str_ok(t, ptr_key(c, "openInterest"@))
    &&& opt_str_ok(t, ptr_key(c, "markPx"@))
    &&& opt_str_ok(t, ptr_key(c, "premium"@))
}

/// Whether `m` is the `activeAssetCtx` payload read at `p`.
pub open spec fn asset_ctx_is(t: Seq<char>, p: Seq<char>, m: HyperliquidAssetCtxMsg) -> bool {
    let c = ptr_key(p, "ctx"@);
    &&& str_at(t, ptr_key(p, "coin"@)) == Some(m.coin@)
    &&& is_opt_str_at(t, ptr_key(c, "funding"@), m.ctx.funding)
    &&& is_opt_str_at(t, ptr_key(c, "openInterest"@), m.ctx.open_interest)
    &&& is_opt_str_at(t, ptr_key(c, "markPx"@), m.ctx.mark_px)
    &&& is_opt_str_at(t, ptr_key(c, "premium"@), m.ctx.premium)
}

/// What decoding a frame text yields: a JSON object with a string `channel`
/// is required; `l2Book`, `trades` and `activeAssetCtx` frames decode their
/// `data`; any other channel (subscription answers, pongs) is a control frame
/// and yields nothing.
pub open spec fn decoded(raw: Seq<char>, r: Result<Option<HyperliquidWssEvent>, ExchangeError>) -> bool {
    let d = top("data"@);
    if !json_accepts(raw) {
        r is Err
    } else {
        match str_at(raw, top("channel"@)) {
            None => r is Err,
            Some(c) => if c == "l2Book"@ {
                &&& (r is Ok <==> book_ok(raw, d))
                &&& r is Ok ==> (r matches Ok(Some(HyperliquidWssEvent::Book(b))) && book_is(raw, d, b))
            } else if c == "trades"@ {
                &&& (r is Ok <==> trades_ok(raw, d))
                &&& r is Ok ==> (r matches Ok(Some(HyperliquidWssEvent::Trades(ts))) && trades_is(raw, d, ts@))
            } else if c == "activeAssetCtx"@ {
                &&& (r is Ok <==> asset_ctx_ok(raw, d))
                &&& r is Ok ==> (r matches Ok(Some(HyperliquidWssEvent::AssetCtx(m))) && asset_ctx_is(raw, d, m))
            } else {
                r == Ok::<Option<HyperliquidWssEvent>, ExchangeError>(None)
            },
        }
    }
}

/// Decodes Hyperliquid websocket frames.
pub struct HyperliquidDecoder;

impl HyperliquidDecoder {
    /// Decodes one frame text; see [`decoded`].
    pub fn decode(raw: &str) -> (r: Result<Option<HyperliquidWssEvent>, ExchangeError>)
        ensures
            decoded(raw@, r),
            !json_accepts(raw@) ==> r == Err::<Option<HyperliquidWssEvent>, ExchangeError>(
                ExchangeError::MalformedFrame("not json")),
            json_accepts(raw@) && str_at(raw@, top("channel"@)) is None ==>
                r == Err::<Option<HyperliquidWssEvent>, ExchangeError>(ExchangeError::MalformedFrame("channel")),
            r is Err && json_accepts(raw@) && str_at(raw@, top("channel"@)) == Some("l2Book"@) ==>
                r == Err::<Option<HyperliquidWssEvent>, ExchangeError>(ExchangeError::MalformedFrame("l2Book")),
            r is Err && json_accepts(raw@) && str_at(raw@, top("channel"@)) == Some("trades"@) ==>
                r == Err::<Option<HyperliquidWssEvent>, ExchangeError>(ExchangeError::MalformedFrame("trades")),
            r is Err && json_accepts(raw@) && str_at(raw@, top("channel"@)) == Some("activeAssetCtx"@) ==>
                r == Err::<Option<HyperliquidWssEvent>, ExchangeError>(ExchangeError::MalformedFrame("activeAssetCtx")),
    {
        let doc = match parse_json(raw) {
            Some(d) => d,
            None => return Err(ExchangeError::MalformedFrame("not json")),
        };
        let root = String::new();
        let channel = match lookup_str(&doc, &pointer_child(&root, "channel")) {
            Some(c) => c,
            None => return Err(ExchangeError::MalformedFrame("channel")),
        };
        let data = pointer_child(&root, "data");
        proof {
            reveal_strlit("l2Book");
            reveal_strlit("trades");
            reveal_strlit("activeAssetCtx");
            assert("l2Book"@ != "trades"@) by { assert("l2Book"@[0] != "trades"@[0]); }
            assert("l2Book"@ != "activeAssetCtx"@) by { assert("l2Book"@.len() != "activeAssetCtx"@.len()); }
            assert("trades"@ != "activeAssetCtx"@) by { assert("trades"@.len() != "activeAssetCtx"@.len()); }
        }
        if channel == String::from_str("l2Book") {
            match decode_book(&doc, &data) {
                Ok(b) => Ok(Some(HyperliquidWssEvent::Book(b))),
                Err(e) => Err(e),
            }
        } else if channel == String::from_str("trades") {
            match decode_trades(&doc, &data) {
                Ok(ts) => Ok(Some(HyperliquidWssEvent::Trades(ts))),
                Err(e) => Err(e),
            }
        } else if channel == String::from_str("activeAssetCtx") {
            match decode_asset_ctx(&doc, &data) {
                Ok(m) => Ok(Some(HyperliquidWssEvent::AssetCtx(m))),
                Err(e) => Err(e),
            }
        } else {
            Ok(None)
        }
    }
}

fn decode_level(doc: &JsonDoc, lp: &String) -> (r: Result<HyperliquidLevel, ExchangeError>)
    ensures
        r is Ok <==> level_ok(doc@, lp@),
        r matches Ok(l) ==> level_is(doc@, lp@, l),
        r matches Err(e) ==> e == ExchangeError::MalformedFrame("l2Book"),
{
    let px = lookup_str(doc, &pointer_child(lp, "px"));
    let sz = lookup_str(doc, &pointer_child(lp, "sz"));
    let n = lookup_u64(doc, &pointer_child(lp, "n"));
    match (px, sz, n) {
        (Some(px), Some(sz), Some(n)) => Ok(HyperliquidLevel { px, sz, n }),
        _ => Err(ExchangeError::MalformedFrame("l2Book")),
    }
}

fn decode_side(doc: &JsonDoc, sp: &String) -> (r: Result<Vec<HyperliquidLevel>, ExchangeError>)
    ensures
        r is Ok <==> side_ok(doc@, sp@),
        r matches Ok(side) ==> side_is(doc@, sp@, side@),
        r matches Err(e) ==> e == ExchangeError::MalformedFrame("l2Book"),
{
    let m = match lookup_len(doc, sp) {
        Some(m) => m,
        None => return Err(ExchangeError::MalformedFrame("l2Book")),
    };
    let mut side: Vec<HyperliquidLevel> = Vec::new();
    let mut j: usize = 0;
    while j < m
        invariant
            j <= m,
            len_at(doc@, sp@) == Some(m),
            side@.len() == j,
            forall|k: int| 0 <= k < j ==> #[trigger] level_is(doc@, ptr_idx(sp@, k as nat), side@[k]),
            forall|k: nat| k < j ==> #[trigger] level_ok(doc@, ptr_idx(sp@, k)),
        decreases m - j,
    {
        let lp = pointer_index(sp, j);
        match decode_level(doc, &lp) {
            Ok(l) => side.push(l),
            Err(e) => return Err(e),
        }
        j += 1;
    }
    Ok(side)
}

fn decode_book(doc: &JsonDoc, bp: &String) -> (r: Result<HyperliquidBook, ExchangeError>)
    ensures
        r is Ok <==> book_ok(doc@, bp@),
        r matches Ok(b) ==> book_is(doc@, bp@, b),
        r matches Err(e) ==> e == ExchangeError::MalformedFrame("l2Book"),
{
    let coin = lookup_str(doc, &pointer_child(bp, "coin"));
    let time = lookup_u64(doc, &pointer_child(bp, "time"));
    let lv = pointer_child(bp, "levels");
    let n = lookup_len(doc, &lv);
    let (coin, time, n) = match (coin, time, n) {
        (Some(c), Some(t), Some(n)) => (c, t, n),
        _ => return Err(ExchangeError::MalformedFrame("l2Book")),
    };
    let mut levels: Vec<Vec<HyperliquidLevel>> = Vec::new();
    let mut i: usize = 0;
    while i < n
        invariant
            i <= n,
            lv@ == ptr_key(bp@, "levels"@),
            len_at(doc@, lv@) == Some(n),
            levels@.len() == i,
            forall|k: int| 0 <= k < i ==> #[trigger] side_is(doc@, ptr_idx(lv@, k as nat), levels@[k]@),
            forall|k: nat| k < i ==> #[trigger] side_ok(doc@, ptr_idx(lv@, k)),
        decreases n - i,
    {
        let sp = pointer_index(&lv, i);
        match decode_side(doc, &sp) {
            Ok(s) => levels.push(s),
            Err(e) => return Err(e),
        }
        i += 1;
    }
    Ok(HyperliquidBook { coin, time, levels })
}

fn decode_trade(doc: &JsonDoc, p: &String) -> (r: Result<HyperliquidTrade, ExchangeError>)
    ensures
        r is Ok <==> trade_ok(doc@, p@),
        r matches Ok(tr) ==> trade_is(doc@, p@, tr),
        r matches Err(e) ==> e == ExchangeError::MalformedFrame("trades"),
{
    let coin = lookup_str(doc, &pointer_child(p, "coin"));
    let side = lookup_str(doc, &pointer_child(p, "side"));
    let px = lookup_str(doc, &pointer_child(p, "px"));
    let sz = lookup_str(doc, &pointer_child(p, "sz"));
    let time = lookup_u64(doc, &pointer_child(p, "time"));
    let tid = lookup_u64(doc, &pointer_child(p, "tid"));
    match (coin, side, px, sz, time, tid) {
        (Some(coin), Some(side), Some(px), Some(sz), Some(time), Some(tid)) =>
            Ok(HyperliquidTrade { coin, side, px, sz, time, tid }),
        _ => Err(ExchangeError::MalformedFrame("trades")),
    }
}

fn decode_trades(doc: &JsonDoc, p: &String) -> (r: Result<Vec<HyperliquidTrade>, ExchangeError>)
    ensures
        r is Ok <==> trades_ok(doc@, p@),
        r matches Ok(ts) ==> trades_is(doc@, p@, ts@),
        r matches Err(e) ==> e == ExchangeError::MalformedFrame("trades"),
{
    let n = match lookup_len(doc, p) {
        Some(n) => n,
        None => return Err(ExchangeError::MalformedFrame("trades")),
    };
    let mut ts: Vec<HyperliquidTrade> = Vec::new();
    let mut i: usize = 0;
    while i < n
        invariant
            i <= n,
            len_at(doc@, p@) == Some(n),
            ts@.len() == i,
            forall|k: int| 0 <= k < i ==> #[trigger] trade_is(doc@, ptr_idx(p@, k as nat), ts@[k]),
            forall|k: nat| k < i ==> #[trigger] trade_ok(doc@, ptr_idx(p@, k)),
        decreases n - i,
    {
        let tp = pointer_index(p, i);
        match decode_trade(doc, &tp) {
            Ok(t) => ts.push(t),
            Err(e) => return Err(e),
        }
        i += 1;
    }
    Ok(ts)
}

fn decode_asset_ctx(doc: &JsonDoc, p: &String) -> (r: Result<HyperliquidAssetCtxMsg, ExchangeError>)
    ensures
        r is Ok <==> asset_ctx_ok(doc@, p@),
        r matches Ok(m) ==> asset_ctx_is(doc@, p@, m),
        r matches Err(e) ==> e == ExchangeError::MalformedFrame("activeAssetCtx"),
{
    let coin = lookup_str(doc, &pointer_child(p, "coin"));
    let c = pointer_child(p, "ctx");
    let is_obj = lookup_is_object(doc, &c);
    let funding = lookup_opt_str(doc, &pointer_child(&c, "funding"));
    let open_interest = lookup_opt_str(doc, &pointer_child(&c, "openInterest"));
    let mark_px = lookup_opt_str(doc, &pointer_child(&c, "markPx"));
    let premium = lookup_opt_str(doc, &pointer_child(&c, "premium"));
    match (coin, is_obj, funding, open_interest, mark_px, premium) {
        (Some(coin), true, Ok(funding), Ok(open_interest), Ok(mark_px), Ok(premium)) =>
            Ok(HyperliquidAssetCtxMsg { coin, ctx: HyperliquidAssetCtx { funding, open_interest, mark_px, premium } }),
        _ => Err(ExchangeError::MalformedFrame("activeAssetCtx")),
    }
}

} // verus!
verus! {

/// The text of a subscription frame for `channel` and `coin`, as
/// `serde_json` prints the object
/// `{"method":"subscribe","subscription":{"type":channel,"coin":coin}}`
/// (keys in sorted order).
pub open spec fn subscribe_frame_text(channel: Seq<char>, coin: Seq<char>) -> Seq<char> {
    "{\"method\":\"subscribe\",\"subscription\":{\"coin\":"@ + json_quoted(coin) + ",\"type\":"@
        + json_quoted(channel) + "}}"@
}

/// The channels subscribed per coin for a declared set, in order: `l2Book`
/// for books, `trades` for trades, `activeAssetCtx` for funding rates or
/// open interest.
pub open spec fn channels_for(declared: DeclaredSet) -> Seq<Seq<char>> {
    (if declared.has(DeclaredDatatype::Orderbook) { seq!["l2Book"@] } else { Seq::empty() })
        + (if declared.has(DeclaredDatatype::Trades) { seq!["trades"@] } else { Seq::empty() })
        + (if declared.has(DeclaredDatatype::FundingRates) || declared.has(DeclaredDatatype::OpenInterest) {
            seq!["activeAssetCtx"@]
        } else {
            Seq::empty()
        })
}

/// The frames for `coins`, coin by coin, each coin's channels in order.
pub open spec fn frames_for(coins: Seq<Seq<char>>, channels: Seq<Seq<char>>) -> Seq<Seq<char>>
    decreases coins.len(),
{
    if coins.len() == 0 {
        Seq::empty()
    } else {
        frames_for(coins.drop_last(), channels)
            + channels.map_values(|c: Seq<char>| subscribe_frame_text(c, coins.last()))
    }
}

/// There is one frame per coin and channel.
pub proof fn lemma_frames_for_len(coins: Seq<Seq<char>>, channels: Seq<Seq<char>>)
    ensures
        frames_for(coins, channels).len() == coins.len() * channels.len(),
    decreases coins.len(),
{
    if coins.len() > 0 {
        lemma_frames_for_len(coins.drop_last(), channels);
        assert((coins.len() - 1) * channels.len() + channels.len() == coins.len() * channels.len())
            by (nonlinear_arith);
    }
}

/// The views of a list of strings.
pub open spec fn texts(v: Seq<String>) -> Seq<Seq<char>> {
    v.map_values(|s: String| s@)
}

/// Builds one subscription frame.
pub fn subscribe_frame(channel: &str, coin: &str) -> (f: String)
    ensures
        f@ == subscribe_frame_text(channel@, coin@),
{
    let mut f = String::from_str("{\"method\":\"subscribe\",\"subscription\":{\"coin\":");
    let qc = json_quote(coin);
    push_str(&mut f, qc.as_str());
    push_str(&mut f, ",\"type\":");
    let qt = json_quote(channel);
    push_str(&mut f, qt.as_str());
    push_str(&mut f, "}}");
    f
}

/// The channels of a declared set.
fn channels(declared: &DeclaredSet) -> (r: Vec<&'static str>)
    ensures
        r@.map_values(|c: &'static str| c@) == channels_for(*declared),
{
    let mut r: Vec<&'static str> = Vec::new();
    if declared.contains(DeclaredDatatype::Orderbook) {
        r.push("l2Book");
    }
    if declared.contains(DeclaredDatatype::Trades) {
        r.push("trades");
    }
    if declared.contains(DeclaredDatatype::FundingRates) || declared.contains(DeclaredDatatype::OpenInterest) {
        r.push("activeAssetCtx");
    }
    assert(r@.map_values(|c: &'static str| c@) =~= channels_for(*declared));
    r
}

/// The transport side of the Hyperliquid websocket protocol.
pub struct HyperliquidHooks;

impl HyperliquidHooks {
    /// The websocket endpoint.
    pub fn endpoint(&self) -> (s: String)
        ensures
            s@ == "wss://api.hyperliquid.xyz/ws"@,
    {
        String::from_str("wss://api.hyperliquid.xyz/ws")
    }

    /// The subscription frames for `symbols` under a declared set: per
    /// symbol, one frame per channel of [`channels_for`].
    pub fn subscribe_frames(&self, symbols: &[String], declared: &DeclaredSet) -> (frames: Vec<String>)
        ensures
            texts(frames@) == frames_for(texts(symbols@), channels_for(*declared)),
            frames@.len() == symbols@.len() * channels_for(*declared).len(),
    {
        let chans = channels(declared);
        let ghost cv = chans@.map_values(|c: &'static str| c@);
        let mut frames: Vec<String> = Vec::new();
        let mut i: usize = 0;
        while i < symbols.len()
            invariant
                i <= symbols@.len(),
                cv == channels_for(*declared),
                cv == chans@.map_values(|c: &'static str| c@),
                texts(frames@) == frames_for(texts(symbols@).take(i as int), cv),
            decreases symbols@.len() - i,
        {
            let ghost before = texts(frames@);
            let mut j: usize = 0;
            while j < chans.len()
                invariant
                    i < symbols@.len(),
                    j <= chans@.len(),
                    cv == chans@.map_values(|c: &'static str| c@),
                    texts(frames@) == before + cv.take(j as int).map_values(
                        |c: Seq<char>| subscribe_frame_text(c, symbols@[i as int]@)),
                decreases chans@.len() - j,
            {
                let f = subscribe_frame(chans[j], symbols[i].as_str());
                let ghost prev = texts(frames@);
                let ghost fv = f@;
                frames.push(f);
                assert(texts(frames@) =~= prev.push(fv));
                assert(fv == subscribe_frame_text(cv[j as int], symbols@[i as int]@));
                assert(cv.take(j + 1) =~= cv.take(j as int).push(cv[j as int]));
                assert(texts(frames@) =~= before + cv.take(j + 1).map_values(
                    |c: Seq<char>| subscribe_frame_text(c, symbols@[i as int]@)));
                j += 1;
            }
            assert(cv.take(chans@.len() as int) =~= cv);
            assert(texts(symbols@).take(i + 1).drop_last() =~= texts(symbols@).take(i as int));
            assert(texts(symbols@).take(i + 1).last() == symbols@[i as int]@);
            i += 1;
        }
        assert(texts(symbols@).take(symbols@.len() as int) =~= texts(symbols@));
        proof { lemma_frames_for_len(texts(symbols@), cv); }
        frames
    }

    /// The keep-alive: the text `{"method":"ping"}` every 30 seconds.
    pub fn heartbeat(&self) -> (h: Heartbeat)
        ensures
            h matches Heartbeat::Text { every_secs, payload } && every_secs == 30 && payload@ == "{\"method\":\"ping\"}"@,
    {
        Heartbeat::Text { every_secs: 30, payload: String::from_str("{\"method\":\"ping\"}") }
    }
}

} // verus!
verus! {

/// The Hyperliquid adapter: its profile, book model and replay of recorded frames.
pub struct HyperliquidAdapter;

/// The venue id.
pub open spec fn hyperliquid_id() -> Seq<char> {
    "hyperliquid"@
}

impl HyperliquidAdapter {
    /// The venue id, `hyperliquid`.
    pub fn id(&self) -> (s: &'static str)
        ensures
            s@ == hyperliquid_id(),
    {
        "hyperliquid"
    }

    /// The venue profile: bare-coin symbols quoted in USDC; at most 10
    /// connections of at most 1000 streams; 2000 subscriptions and 30
    /// connection attempts per 60 s; no connection lifetime; schema 1.
    pub fn profile(&self) -> (p: ExchangeProfile)
        ensures
            p.id@ == hyperliquid_id(),
            p.symbol_codec == (SymbolCodec::BareCoin { quote: "USDC" }),
            p.budget.max_connections == Some(10u32),
            p.budget.max_streams_per_socket == Some(1000u32),
            p.budget.subscribe_rate@ == seq![RateWindow { max: 2000, per_secs: 60 }],
            p.budget.connect_attempt_rate == Some(RateWindow { max: 30, per_secs: 60 }),
            p.budget.connection_lifetime_secs is None,
            p.schema_version == 1,
            p.protocol_revision@ == "hyperliquid-v1"@,
    {
        let mut subscribe_rate = Vec::new();
        subscribe_rate.push(RateWindow { max: 2000, per_secs: 60 });
        ExchangeProfile {
            id: "hyperliquid",
            symbol_codec: hyperliquid_codec(),
            budget: ConnectionBudget {
                max_connections: Some(10),
                max_streams_per_socket: Some(1000),
                subscribe_rate,
                connect_attempt_rate: Some(RateWindow { max: 30, per_secs: 60 }),
                connection_lifetime_secs: None,
            },
            schema_version: 1,
            protocol_revision: "hyperliquid-v1",
        }
    }

    /// Hyperliquid books are full refreshes, on every channel.
    pub fn book_model(&self, channel: &str) -> (m: ReconstructionModel)
        ensures
            m == ReconstructionModel::FullRefresh,
    {
        ReconstructionModel::FullRefresh
    }

    /// Books, trades, funding rates and open interest.
    pub fn supported_datatypes(&self) -> (v: Vec<DeclaredDatatype>)
        ensures
            v@ == seq![DeclaredDatatype::Orderbook, DeclaredDatatype::Trades,
                DeclaredDatatype::FundingRates, DeclaredDatatype::OpenInterest],
    {
        let mut v = Vec::new();
        v.push(DeclaredDatatype::Orderbook);
        v.push(DeclaredDatatype::Trades);
        v.push(DeclaredDatatype::FundingRates);
        v.push(DeclaredDatatype::OpenInterest);
        assert(v@ =~= seq![DeclaredDatatype::Orderbook, DeclaredDatatype::Trades,
            DeclaredDatatype::FundingRates, DeclaredDatatype::OpenInterest]);
        v
    }

    /// Whether collecting `declared` also polls funding settlements over REST:
    /// exactly when funding rates are declared.
    pub fn polls_settlements(&self, declared: &DeclaredSet) -> (b: bool)
        ensures
            b == declared.has(DeclaredDatatype::FundingRates),
    {
        declared.contains(DeclaredDatatype::FundingRates)
    }

    /// The texts of the subscription frames, as the hooks build them.
    pub fn subscribe_frames_preview(&self, symbols: &[String], declared: &DeclaredSet) -> (frames: Vec<String>)
        ensures
            texts(frames@) == frames_for(texts(symbols@), channels_for(*declared)),
    {
        HyperliquidHooks.subscribe_frames(symbols, declared)
    }

    /// Decodes a recorded frame and normalizes it with every datatype
    /// declared. Control frames yield no event; undecodable frames are errors.
    pub fn replay_frame(&self, raw: &str) -> (r: Result<Vec<DomainEvent>, ExchangeError>)
        ensures
            r is Err <==> exists|x: ExchangeError| #[trigger] decoded(raw@, Err(x)),
            r matches Ok(evs) ==> (decoded(raw@, Ok(None)) && evs@.len() == 0)
                || exists|e: HyperliquidWssEvent| #[trigger] decoded(raw@, Ok(Some(e)))
                    && normalized_with_all(e, evs@),
    {
        let mut normalizer = HyperliquidNormalizer::default();
        match HyperliquidDecoder::decode(raw) {
            Ok(Some(event)) => {
                let ghost e = event;
                let ghost d = normalizer.declared;
                let evs = normalizer.normalize(event);
                proof {
                    assert forall|s: DeclaredSet| declares_all(s) implies normalized(s, e, evs@) by {
                        DeclaredSet::lemma_same_members(s, d);
                    }
                    assert forall|x: ExchangeError| !decoded(raw@, Err(x)) by {
                        lemma_decoded_err_excludes_ok(raw@, x, Some(e));
                    }
                }
                Ok(evs)
            },
            Ok(None) => {
                proof {
                    assert forall|x: ExchangeError| !decoded(raw@, Err(x)) by {
                        lemma_decoded_err_excludes_ok(raw@, x, None);
                    }
                }
                Ok(Vec::new())
            },
            Err(e) => Err(e),
        }
    }
}

/// Whether a set declares every datatype.
pub open spec fn declares_all(s: DeclaredSet) -> bool {
    forall|d: DeclaredDatatype| s.has(d)
}

/// Whether `evs` is what normalizing `e` emits when every datatype is declared.
pub open spec fn normalized_with_all(e: HyperliquidWssEvent, evs: Seq<DomainEvent>) -> bool {
    forall|s: DeclaredSet| declares_all(s) ==> #[trigger] normalized(s, e, evs)
}

/// A frame that decodes without error does not also decode to an error.
pub proof fn lemma_decoded_err_excludes_ok(raw: Seq<char>, x: ExchangeError, o: Option<HyperliquidWssEvent>)
    requires
        decoded(raw, Ok(o)),
    ensures
        !decoded(raw, Err(x)),
{
}

} // verus!
verus! {

/// How far back the first settlement poll reaches: one day.
pub const SETTLEMENT_BACKFILL_MS: u64 = 24 * 3600 * 1000;

/// How far back every later poll reaches: two hours.
pub const SETTLEMENT_OVERLAP_MS: u64 = 2 * 3600 * 1000;

/// How long after the top of the hour a poll runs.
pub const SETTLEMENT_FETCH_DELAY_SECS: u64 = 5;

/// How many times one coin's settlements are fetched before giving up until the next round.
pub const SETTLEMENT_MAX_ATTEMPTS: u32 = 2;

/// The pause between two attempts for one coin.
pub const SETTLEMENT_RETRY_SECS: u64 = 30;

/// One hour in milliseconds.
pub const HOUR_MS: u64 = 3_600_000;

/// `a - b`, or 0 when `b > a`.
pub open spec fn sat_sub(a: u64, b: u64) -> u64 {
    if a >= b { (a - b) as u64 } else { 0 }
}

/// The start (Unix ms) of the first settlement poll at `now_us`: one day back.
pub fn settlement_backfill_start_ms(now_us: u64) -> (ms: u64)
    ensures
        ms == sat_sub(now_us / 1000, SETTLEMENT_BACKFILL_MS),
{
    (now_us / 1000).saturating_sub(SETTLEMENT_BACKFILL_MS)
}

/// The start (Unix ms) of every later poll at `now_us`: two hours back.
pub fn settlement_overlap_start_ms(now_us: u64) -> (ms: u64)
    ensures
        ms == sat_sub(now_us / 1000, SETTLEMENT_OVERLAP_MS),
{
    (now_us / 1000).saturating_sub(SETTLEMENT_OVERLAP_MS)
}

/// How long (ms) to wait at `now_us` before the next poll: until the next
/// top of the hour, plus the fetch delay.
pub fn settlement_wait_ms(now_us: u64) -> (ms: u64)
    ensures
        ms == ((now_us / 1000) / HOUR_MS + 1) * HOUR_MS - now_us / 1000 + SETTLEMENT_FETCH_DELAY_SECS * 1000,
        SETTLEMENT_FETCH_DELAY_SECS * 1000 < ms <= HOUR_MS + SETTLEMENT_FETCH_DELAY_SECS * 1000,
        (now_us / 1000 + ms - SETTLEMENT_FETCH_DELAY_SECS * 1000) % (HOUR_MS as int) == 0,
{
    let now_ms = now_us / 1000;
    let hours = now_ms / HOUR_MS;
    assert(hours * HOUR_MS <= now_ms < (hours + 1) * HOUR_MS) by (nonlinear_arith)
        requires
            hours == now_ms / HOUR_MS,
            HOUR_MS == 3_600_000;
    assert(((hours + 1) * HOUR_MS) % (HOUR_MS as int) == 0) by (nonlinear_arith)
        requires
            HOUR_MS == 3_600_000;
    let next_hour_ms = (hours + 1) * HOUR_MS;
    next_hour_ms.saturating_sub(now_ms) + SETTLEMENT_FETCH_DELAY_SECS * 1000
}

/// The body of a `fundingHistory` request for `coin` from `start_ms`, as
/// `serde_json` prints `{"type":"fundingHistory","coin":coin,"startTime":start_ms}`.
pub open spec fn funding_history_body(coin: Seq<char>, start_ms: u64) -> Seq<char> {
    "{\"coin\":"@ + json_quoted(coin) + ",\"startTime\":"@ + decimal_text(start_ms as nat)
        + ",\"type\":\"fundingHistory\"}"@
}

/// Builds the body of a `fundingHistory` request.
pub fn funding_history_request(coin: &str, start_ms: u64) -> (body: String)
    ensures
        body@ == funding_history_body(coin@, start_ms),
{
    let mut body = String::from_str("{\"coin\":");
    let q = json_quote(coin);
    push_str(&mut body, q.as_str());
    push_str(&mut body, ",\"startTime\":");
    let digits = u64_to_text(start_ms);
    push_str(&mut body, digits.as_str());
    push_str(&mut body, ",\"type\":\"fundingHistory\"}");
    body
}

/// Whether the value at `p` reads as a funding-history row.
pub open spec fn history_row_ok(t: Seq<char>, p: Seq<char>) -> bool {
    &&& str_at(t, ptr_key(p, "coin"@)) is Some
    &&& str_at(t, ptr_key(p, "fundingRate"@)) is Some
    &&& opt_str_ok(t, ptr_key(p, "premium"@))
    &&& u64_at(t, ptr_key(p, "time"@)) is Some
}

/// Whether `row` is the funding-history row read at `p`.
pub open spec fn history_row_is(t: Seq<char>, p: Seq<char>, row: HyperliquidFundingHistoryRow) -> bool {
    &&& str_at(t, ptr_key(p, "coin"@)) == Some(row.coin@)
    &&& str_at(t, ptr_key(p, "fundingRate"@)) == Some(row.funding_rate@)
    &&& is_opt_str_at(t, ptr_key(p, "premium"@), row.premium)
    &&& u64_at(t, ptr_key(p, "time"@)) == Some(row.time)
}

/// Whether a `fundingHistory` answer reads: a JSON array of rows.
pub open spec fn history_ok(t: Seq<char>) -> bool {
    &&& json_accepts(t)
    &&& len_at(t, Seq::empty()) is Some
    &&& forall|i: nat| i < len_at(t, Seq::empty())->0 ==> #[trigger] history_row_ok(t, ptr_idx(Seq::empty(), i))
}

/// Whether `rows` is the `fundingHistory` answer read from `t`.
pub open spec fn history_is(t: Seq<char>, rows: Seq<HyperliquidFundingHistoryRow>) -> bool {
    &&& len_at(t, Seq::empty()) == Some(rows.len() as usize)
    &&& forall|i: int| 0 <= i < rows.len() ==> #[trigger] history_row_is(t, ptr_idx(Seq::empty(), i as nat), rows[i])
}

fn decode_history_row(doc: &JsonDoc, p: &String) -> (r: Result<HyperliquidFundingHistoryRow, ExchangeError>)
    ensures
        r is Ok <==> history_row_ok(doc@, p@),
        r matches Ok(row) ==> history_row_is(doc@, p@, row),
        r matches Err(e) ==> e == ExchangeError::MalformedFrame("fundingHistory row"),
{
    let coin = lookup_str(doc, &pointer_child(p, "coin"));
    let rate = lookup_str(doc, &pointer_child(p, "fundingRate"));
    let premium = lookup_opt_str(doc, &pointer_child(p, "premium"));
    let time = lookup_u64(doc, &pointer_child(p, "time"));
    match (coin, rate, premium, time) {
        (Some(coin), Some(funding_rate), Ok(premium), Some(time)) =>
            Ok(HyperliquidFundingHistoryRow { coin, funding_rate, premium, time }),
        _ => Err(ExchangeError::MalformedFrame("fundingHistory row")),
    }
}

/// Decodes a `fundingHistory` answer.
pub fn decode_funding_history(raw: &str) -> (r: Result<Vec<HyperliquidFundingHistoryRow>, ExchangeError>)
    ensures
        r is Ok <==> history_ok(raw@),
        r matches Ok(rows) ==> history_is(raw@, rows@),
        !json_accepts(raw@) ==> r == Err::<Vec<HyperliquidFundingHistoryRow>, ExchangeError>(
            ExchangeError::MalformedFrame("not json")),
        json_accepts(raw@) && len_at(raw@, Seq::empty()) is None ==>
            r == Err::<Vec<HyperliquidFundingHistoryRow>, ExchangeError>(ExchangeError::MalformedFrame("fundingHistory")),
        json_accepts(raw@) && len_at(raw@, Seq::empty()) is Some && !history_ok(raw@) ==>
            r == Err::<Vec<HyperliquidFundingHistoryRow>, ExchangeError>(ExchangeError::MalformedFrame("fundingHistory row")),
{
    let doc = match parse_json(raw) {
        Some(d) => d,
        None => return Err(ExchangeError::MalformedFrame("not json")),
    };
    let root = String::new();
    let n = match lookup_len(&doc, &root) {
        Some(n) => n,
        None => return Err(ExchangeError::MalformedFrame("fundingHistory")),
    };
    let mut rows: Vec<HyperliquidFundingHistoryRow> = Vec::new();
    let mut i: usize = 0;
    while i < n
        invariant
            i <= n,
            root@ == Seq::<char>::empty(),
            doc@ == raw@,
            json_accepts(raw@),
            len_at(doc@, root@) == Some(n),
            rows@.len() == i,
            forall|k: int| 0 <= k < i ==> #[trigger] history_row_is(doc@, ptr_idx(root@, k as nat), rows@[k]),
            forall|k: nat| k < i ==> #[trigger] history_row_ok(doc@, ptr_idx(root@, k)),
        decreases n - i,
    {
        let rp = pointer_index(&root, i);
        match decode_history_row(&doc, &rp) {
            Ok(row) => rows.push(row),
            Err(e) => return Err(e),
        }
        i += 1;
    }
    Ok(rows)
}

/// Whether a funding-history row becomes a settlement: a known coin and a
/// rate that parses.
pub open spec fn row_kept(row: HyperliquidFundingHistoryRow) -> bool {
    row_kept_with(row, parsed_dec(row.funding_rate@))
}

/// Whether a funding-history row whose rate was parsed to `rate` becomes a
/// settlement: a known coin and a parsed rate.
pub open spec fn row_kept_with(row: HyperliquidFundingHistoryRow, rate: Option<Dec>) -> bool {
    coin_ok(row.coin@) && rate is Some
}

/// The rows that become settlements, in order.
pub open spec fn kept_rows(rows: Seq<HyperliquidFundingHistoryRow>) -> Seq<HyperliquidFundingHistoryRow>
    decreases rows.len(),
{
    if rows.len() == 0 {
        rows
    } else if row_kept(rows.last()) {
        kept_rows(rows.drop_last()).push(rows.last())
    } else {
        kept_rows(rows.drop_last())
    }
}

/// Whether `ev` is the settlement of `row`, received at `local_ts_us` after `rtt_us`.
pub open spec fn is_settlement_of(row: HyperliquidFundingHistoryRow, rtt_us: u64, local_ts_us: u64, ev: DomainEvent) -> bool {
    is_settlement_with(row, parsed_dec(row.funding_rate@), opt_dec(row.premium), rtt_us, local_ts_us, ev)
}

/// Whether `ev` is the settlement of `row`, its rate and premium parsed to
/// `rate` and `premium`, received at `local_ts_us` after `rtt_us`.
pub open spec fn is_settlement_with(
    row: HyperliquidFundingHistoryRow,
    rate: Option<Dec>,
    premium: Option<Dec>,
    rtt_us: u64,
    local_ts_us: u64,
    ev: DomainEvent,
) -> bool {
    &&& ev matches DomainEvent::FundingSettlement(s)
    &&& s.funding_time_us == ms_to_us(row.time)
    &&& s.local_ts_us == local_ts_us
    &&& s.rtt_us == rtt_us
    &&& is_pair_of(s.pair, row.coin@)
    &&& rate == Some(s.funding_rate)
    &&& s.premium == premium
    &&& s.exchange@ == venue_name()
}

/// The settlement of one funding-history row whose rate and premium were
/// parsed to `rate` and `premium`; `None` when the row is skipped (see
/// [`row_kept_with`]).
pub fn settlement_event(
    row: &HyperliquidFundingHistoryRow,
    rate: Option<Dec>,
    premium: Option<Dec>,
    rtt_us: u64,
    local_ts_us: u64,
) -> (r: Option<DomainEvent>)
    ensures
        r is Some <==> row_kept_with(*row, rate),
        r matches Some(ev) ==> is_settlement_with(*row, rate, premium, rtt_us, local_ts_us, ev),
{
    let codec = hyperliquid_codec();
    match (codec.decode(row.coin.as_str()), rate) {
        (Some(pair), Some(rate)) => Some(DomainEvent::FundingSettlement(FundingSettlement {
            funding_time_us: epoch_to_us(row.time),
            local_ts_us,
            rtt_us,
            pair,
            funding_rate: rate,
            premium,
            exchange: String::from_str("hyperliquid"),
        })),
        _ => None,
    }
}

/// The settlements of a `fundingHistory` answer, skipping rows with an
/// unknown coin or an unparseable rate.
pub fn settlement_events(rows: &Vec<HyperliquidFundingHistoryRow>, rtt_us: u64, local_ts_us: u64) -> (evs: Vec<DomainEvent>)
    ensures
        evs@.len() == kept_rows(rows@).len(),
        forall|i: int| 0 <= i < evs@.len() ==> #[trigger] is_settlement_of(kept_rows(rows@)[i], rtt_us, local_ts_us, evs@[i]),
{
    let ghost all = rows@;
    let mut evs: Vec<DomainEvent> = Vec::new();
    let mut i: usize = 0;
    while i < rows.len()
        invariant
            all == rows@,
            i <= rows.len(),
            evs@.len() == kept_rows(all.take(i as int)).len(),
            forall|j: int| 0 <= j < evs@.len() ==> #[trigger] is_settlement_of(kept_rows(all.take(i as int))[j], rtt_us, local_ts_us, evs@[j]),
        decreases rows.len() - i,
    {
        assert(all.take(i + 1).drop_last() =~= all.take(i as int));
        assert(all.take(i + 1).last() == all[i as int]);
        let row = &rows[i];
        let rate = Dec::parse(row.funding_rate.as_str());
        let premium = opt_parse(&row.premium);
        match settlement_event(row, rate, premium, rtt_us, local_ts_us) {
            Some(ev) => evs.push(ev),
            None => {},
        }
        i += 1;
    }
    assert(all.take(rows.len() as int) =~= all);
    evs
}

} // verus!
verus! {

/// Every trade of a batch is accounted for: it is either emitted as an
/// event or counted as dropped.
pub proof fn lemma_trades_accounted(declared: DeclaredSet, ts: Vec<HyperliquidTrade>, evs: Seq<DomainEvent>)
    requires
        normalized(declared, HyperliquidWssEvent::Trades(ts), evs),
    ensures
        evs.len() + normalize_drops(declared, HyperliquidWssEvent::Trades(ts)) == ts@.len(),
{
    lemma_kept_trades_len(ts@);
}

/// Every sample an asset context of a known coin is asked for is accounted
/// for: it is either emitted or counted as dropped.
pub proof fn lemma_asset_ctx_accounted(declared: DeclaredSet, msg: HyperliquidAssetCtxMsg, evs: Seq<DomainEvent>)
    requires
        normalized(declared, HyperliquidWssEvent::AssetCtx(msg), evs),
        coin_ok(msg.coin@),
    ensures
        evs.len() + normalize_drops(declared, HyperliquidWssEvent::AssetCtx(msg))
            == (if wants_funding(declared, msg) { 1int } else { 0 }) + (if wants_oi(declared, msg) { 1int } else { 0 }),
{
}

/// A two-sided book is never dropped and a one-sided one always is.
pub proof fn lemma_book_accounted(declared: DeclaredSet, book: HyperliquidBook, evs: Seq<DomainEvent>)
    requires
        normalized(declared, HyperliquidWssEvent::Book(book), evs),
    ensures
        evs.len() + normalize_drops(declared, HyperliquidWssEvent::Book(book)) == 1,
{
}

} // verus!
