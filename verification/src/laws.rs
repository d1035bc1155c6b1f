//! Laws of the library: what normalization, decoding, replay, subscription
//! and flushing give, stated directly over their inputs and results.

use vstd::prelude::*;

use crate::decimal::parsed_dec;
use crate::entrepot::stamped_events;
use crate::hyperliquid::{
    decoded, is_trade_of, kept_trades, normalized, top, trade_kept, HyperliquidBook, HyperliquidLevel,
    HyperliquidTrade, HyperliquidWssEvent,
};
use crate::json::{ptr_idx, ptr_key, str_at, u64_at};
use crate::model::{ms_to_us, DeclaredDatatype, DeclaredSet, DomainEvent};
use crate::persist::{flush_plan_of, FlushTarget, GroupSizes};
use crate::hyperliquid::{
    asset_ctx_events_ok, channels_for, frames_for, subscribe_frame_text, history_is, is_settlement_of, kept_rows, row_kept, side_of,
    HyperliquidAssetCtxMsg,
    HyperliquidFundingHistoryRow,
};
use crate::kucoin::{l2_is, KucoinL2Data};
use crate::model::TradeSide;
use crate::persist::{dashed, total_of};
use crate::s3::{scan, scan_start, verdict_of, ObjectView, Verdict, XmlEvent};
use crate::text::{all_digits, decimal_text, digits_value, u64_from_text};
use crate::entrepot::{hour_keys, key_text, lemma_hour_keys_len, window_days};
use crate::calendar::{lemma_next_ymd, next_ymd, ymd_key};

verus! {

/// A normalized trade carries the size and price read from its own wire
/// texts: the amount is the decimal of `sz`, the price the decimal of `px`.
pub proof fn lemma_trade_amount_is_size(t: HyperliquidTrade, ev: DomainEvent)
    requires
        is_trade_of(t, ev),
    ensures
        ev matches DomainEvent::Trade { trade, .. } && parsed_dec(t.sz@) == Some(trade.amount)
            && parsed_dec(t.px@) == Some(trade.price) && trade.pair.base@ == t.coin@
            && trade.source_trade_ts_us == ms_to_us(t.time) && side_of(t.side@) == Some(trade.side),
{
}

/// The trades a batch keeps are exactly those of the batch that survive
/// normalization, in their order.
pub proof fn lemma_kept_trades_filter(ts: Seq<HyperliquidTrade>)
    ensures
        kept_trades(ts) == ts.filter(|t: HyperliquidTrade| trade_kept(t)),
    decreases ts.len(),
{
    reveal(Seq::filter);
    if ts.len() > 0 {
        lemma_kept_trades_filter(ts.drop_last());
    }
}

/// Normalizing a batch of trades gives, for its `i`-th kept trade, an event
/// with that trade's size and price.
pub proof fn lemma_normalized_trade_reads_wire(declared: DeclaredSet, ts: Vec<HyperliquidTrade>, evs: Seq<DomainEvent>, i: int)
    requires
        normalized(declared, HyperliquidWssEvent::Trades(ts), evs),
        0 <= i < evs.len(),
    ensures
        i < kept_trades(ts@).len(),
        evs[i] matches DomainEvent::Trade { trade, .. }
            && parsed_dec(kept_trades(ts@)[i].sz@) == Some(trade.amount)
            && parsed_dec(kept_trades(ts@)[i].px@) == Some(trade.price),
{
    lemma_trade_amount_is_size(kept_trades(ts@)[i], evs[i]);
}

/// A normalized two-sided book keeps its first side as the bids and its
/// second as the asks, level by level, with their wire texts.
pub proof fn lemma_normalized_book_sides(declared: DeclaredSet, book: HyperliquidBook, evs: Seq<DomainEvent>, k: int)
    requires
        normalized(declared, HyperliquidWssEvent::Book(book), evs),
        book.levels.len() == 2,
    ensures
        evs.len() == 1,
        evs[0] matches DomainEvent::Book(d) && d.symbol == book.coin && d.is_snapshot
            && d.bids@.len() == book.levels@[0]@.len() && d.asks@.len() == book.levels@[1]@.len()
            && (0 <= k < d.bids@.len() ==> d.bids@[k] == (book.levels@[0]@[k].px, book.levels@[0]@[k].sz))
            && (0 <= k < d.asks@.len() ==> d.asks@[k] == (book.levels@[1]@[k].px, book.levels@[1]@[k].sz)),
{
}

/// Replay stamping changes nothing but the local receive fields: the `i`-th
/// stamped event has the `i`-th event's content, the local time `now_us`,
/// no round trip, and receive sequence `base + i + 1` (wrapping).
pub proof fn lemma_stamped_events_keep_content(evs: Seq<DomainEvent>, now_us: u64, base: u64, i: int)
    requires
        0 <= i < evs.len(),
    ensures
        stamped_events(evs, now_us, base).len() == evs.len(),
        match (evs[i], stamped_events(evs, now_us, base)[i]) {
            (DomainEvent::Book(d0), DomainEvent::Book(d)) => {
                &&& d.symbol == d0.symbol
                &&& d.bids == d0.bids
                &&& d.asks == d0.asks
                &&& d.update_id == d0.update_id
                &&& d.sequence == d0.sequence
                &&& d.source_orderbook_ts_us == d0.source_orderbook_ts_us
                &&& d.checksum == d0.checksum
                &&& d.is_snapshot == d0.is_snapshot
                &&& d.local_orderbook_ts_us == now_us
                &&& d.source_orderbook_rtt_us == 0
            },
            (DomainEvent::Trade { trade: t0, sequence: s0 }, DomainEvent::Trade { trade: t, sequence: s }) => {
                &&& s == s0
                &&& t.source_trade_ts_us == t0.source_trade_ts_us
                &&& t.pair == t0.pair
                &&& t.side == t0.side
                &&& t.amount == t0.amount
                &&& t.price == t0.price
                &&& t.exchange == t0.exchange
                &&& t.id == t0.id
                &&& t.origin == t0.origin
                &&& t.local_trade_ts_us == now_us
                &&& t.source_trade_rtt_us == 0
            },
            (DomainEvent::FundingRate(f0), DomainEvent::FundingRate(f)) => {
                &&& f.funding_rate_ts_us == f0.funding_rate_ts_us
                &&& f.pair == f0.pair
                &&& f.funding_rate == f0.funding_rate
                &&& f.premium == f0.premium
                &&& f.interval_hours == f0.interval_hours
                &&& f.next_funding_ts_us == f0.next_funding_ts_us
                &&& f.exchange == f0.exchange
                &&& f.conn_epoch == f0.conn_epoch
                &&& f.local_funding_ts_us == now_us
                &&& f.recv_seq == crate::model::wrapped_add(base, (i + 1) as u64)
            },
            (DomainEvent::OpenInterest(o0), DomainEvent::OpenInterest(o)) => {
                &&& o.open_interest_ts_us == o0.open_interest_ts_us
                &&& o.pair == o0.pair
                &&& o.open_interest == o0.open_interest
                &&& o.open_interest_value == o0.open_interest_value
                &&& o.mark_px == o0.mark_px
                &&& o.exchange == o0.exchange
                &&& o.conn_epoch == o0.conn_epoch
                &&& o.local_oi_ts_us == now_us
                &&& o.recv_seq == crate::model::wrapped_add(base, (i + 1) as u64)
            },
            (DomainEvent::FundingSettlement(s0), DomainEvent::FundingSettlement(s)) => {
                &&& s.funding_time_us == s0.funding_time_us
                &&& s.pair == s0.pair
                &&& s.funding_rate == s0.funding_rate
                &&& s.premium == s0.premium
                &&& s.exchange == s0.exchange
                &&& s.local_ts_us == now_us
                &&& s.rtt_us == 0
            },
            _ => false,
        },
{
}

/// The pointer of level `j` of side `i` of an `l2Book` frame.
pub open spec fn book_level_ptr(i: int, j: int) -> Seq<char> {
    ptr_idx(ptr_idx(ptr_key(top("data"@), "levels"@), i as nat), j as nat)
}

/// The pointer of entry `i` of a `trades` frame.
pub open spec fn trade_entry_ptr(i: int) -> Seq<char> {
    ptr_idx(top("data"@), i as nat)
}

/// A decoded book holds what the frame's JSON holds: its coin and time, and
/// each level's `px`, `sz` and `n` members, side by side and level by level.
pub proof fn lemma_decoded_book_reads_members(raw: Seq<char>, b: HyperliquidBook, i: int, j: int)
    requires
        decoded(raw, Ok(Some(HyperliquidWssEvent::Book(b)))),
    ensures
        str_at(raw, top("channel"@)) == Some("l2Book"@),
        str_at(raw, ptr_key(top("data"@), "coin"@)) == Some(b.coin@),
        u64_at(raw, ptr_key(top("data"@), "time"@)) == Some(b.time),
        0 <= i < b.levels@.len() && 0 <= j < b.levels@[i]@.len() ==> {
            &&& str_at(raw, ptr_key(book_level_ptr(i, j), "px"@)) == Some(b.levels@[i]@[j].px@)
            &&& str_at(raw, ptr_key(book_level_ptr(i, j), "sz"@)) == Some(b.levels@[i]@[j].sz@)
            &&& u64_at(raw, ptr_key(book_level_ptr(i, j), "n"@)) == Some(b.levels@[i]@[j].n)
        },
{
    reveal_strlit("l2Book");
    reveal_strlit("trades");
    reveal_strlit("activeAssetCtx");
    assert("l2Book"@ != "trades"@) by { assert("l2Book"@[0] != "trades"@[0]); }
    assert("l2Book"@ != "activeAssetCtx"@) by { assert("l2Book"@.len() != "activeAssetCtx"@.len()); }
    let lv = ptr_key(top("data"@), "levels"@);
    if 0 <= i < b.levels@.len() && 0 <= j < b.levels@[i]@.len() {
        assert(crate::hyperliquid::side_is(raw, ptr_idx(lv, i as nat), b.levels@[i]@));
        assert(crate::hyperliquid::level_is(raw, ptr_idx(ptr_idx(lv, i as nat), j as nat), b.levels@[i]@[j]));
    }
}

/// Decoded trades hold what the frame's JSON holds: each entry's coin, side,
/// `px`, `sz`, time and id members, entry by entry.
pub proof fn lemma_decoded_trades_read_members(raw: Seq<char>, ts: Vec<HyperliquidTrade>, i: int)
    requires
        decoded(raw, Ok(Some(HyperliquidWssEvent::Trades(ts)))),
    ensures
        str_at(raw, top("channel"@)) == Some("trades"@),
        0 <= i < ts@.len() ==> {
            &&& str_at(raw, ptr_key(trade_entry_ptr(i), "coin"@)) == Some(ts@[i].coin@)
            &&& str_at(raw, ptr_key(trade_entry_ptr(i), "side"@)) == Some(ts@[i].side@)
            &&& str_at(raw, ptr_key(trade_entry_ptr(i), "px"@)) == Some(ts@[i].px@)
            &&& str_at(raw, ptr_key(trade_entry_ptr(i), "sz"@)) == Some(ts@[i].sz@)
            &&& u64_at(raw, ptr_key(trade_entry_ptr(i), "time"@)) == Some(ts@[i].time)
            &&& u64_at(raw, ptr_key(trade_entry_ptr(i), "tid"@)) == Some(ts@[i].tid)
        },
{
    reveal_strlit("l2Book");
    reveal_strlit("trades");
    reveal_strlit("activeAssetCtx");
    assert("l2Book"@ != "trades"@) by { assert("l2Book"@[0] != "trades"@[0]); }
    assert("trades"@ != "activeAssetCtx"@) by { assert("trades"@.len() != "activeAssetCtx"@.len()); }
    if 0 <= i < ts@.len() {
        assert(crate::hyperliquid::trade_is(raw, ptr_idx(top("data"@), i as nat), ts@[i]));
    }
}

/// The place of a group in the fixed order of a flush.
pub open spec fn flush_rank(t: FlushTarget) -> int {
    match t {
        FlushTarget::Orderbooks => 0,
        FlushTarget::Trades => 1,
        FlushTarget::Liquidations => 2,
        FlushTarget::FundingRates => 3,
        FlushTarget::OpenInterests => 4,
        FlushTarget::FundingSettlements => 5,
    }
}

/// How many records of a batch belong to a group.
pub open spec fn group_size(g: GroupSizes, t: FlushTarget) -> usize {
    match t {
        FlushTarget::Orderbooks => g.orderbooks,
        FlushTarget::Trades => g.trades,
        FlushTarget::Liquidations => g.liquidations,
        FlushTarget::FundingRates => g.funding_rates,
        FlushTarget::OpenInterests => g.open_interests,
        FlushTarget::FundingSettlements => g.funding_settlements,
    }
}

/// Whether the ranks of a plan strictly increase and stay below `bound`.
pub open spec fn ranked_below(p: Seq<FlushTarget>, bound: int) -> bool {
    &&& forall|i: int, j: int| 0 <= i < j < p.len() ==> flush_rank(#[trigger] p[i]) < flush_rank(#[trigger] p[j])
    &&& forall|i: int| 0 <= i < p.len() ==> flush_rank(#[trigger] p[i]) < bound
}

proof fn lemma_plan_step(a: Seq<FlushTarget>, step: Seq<FlushTarget>, on: bool, x: FlushTarget, g: GroupSizes)
    requires
        step == (if on { seq![x] } else { Seq::<FlushTarget>::empty() }),
        ranked_below(a, flush_rank(x)),
        forall|t: FlushTarget| flush_rank(t) < flush_rank(x) ==> (a.contains(t) <==> group_size(g, t) > 0),
        forall|t: FlushTarget| flush_rank(t) >= flush_rank(x) ==> !a.contains(t),
        on == (group_size(g, x) > 0),
    ensures
        ranked_below(a + step, flush_rank(x) + 1),
        forall|t: FlushTarget| flush_rank(t) <= flush_rank(x) ==> ((a + step).contains(t) <==> group_size(g, t) > 0),
        forall|t: FlushTarget| flush_rank(t) > flush_rank(x) ==> !(a + step).contains(t),
        (a + step).len() == a.len() + (if on { 1int } else { 0 }),
{
    let b = a + step;
    assert forall|t: FlushTarget| flush_rank(t) <= flush_rank(x) implies (b.contains(t) <==> group_size(g, t) > 0) by {
        if flush_rank(t) < flush_rank(x) {
            if a.contains(t) {
                let k = choose|k: int| 0 <= k < a.len() && a[k] == t;
                assert(b[k] == t);
            }
            if b.contains(t) {
                let k = choose|k: int| 0 <= k < b.len() && b[k] == t;
                if k >= a.len() {
                    assert(b[k] == x);
                }
                assert(a[k] == t);
            }
        } else {
            assert(t == x);
            if on {
                assert(b[a.len() as int] == x);
            } else {
                assert(b =~= a);
            }
        }
    }
    assert forall|t: FlushTarget| flush_rank(t) > flush_rank(x) implies !b.contains(t) by {
        if b.contains(t) {
            let k = choose|k: int| 0 <= k < b.len() && b[k] == t;
            if k < a.len() {
                assert(a[k] == t);
                assert(flush_rank(a[k]) < flush_rank(x));
            } else {
                assert(b[k] == x);
            }
        }
    }
}

/// A flush writes every group that has records, and only those, each once,
/// in the fixed order orderbooks, trades, liquidations, funding rates, open
/// interest, funding settlements.
pub proof fn lemma_flush_plan_complete(g: GroupSizes)
    ensures
        forall|t: FlushTarget| #![auto] flush_plan_of(g).contains(t) <==> group_size(g, t) > 0,
        forall|i: int, j: int| 0 <= i < j < flush_plan_of(g).len()
            ==> flush_rank(#[trigger] flush_plan_of(g)[i]) < flush_rank(#[trigger] flush_plan_of(g)[j]),
        flush_plan_of(g).len() == (if g.orderbooks > 0 { 1int } else { 0 }) + (if g.trades > 0 { 1int } else { 0 })
            + (if g.liquidations > 0 { 1int } else { 0 }) + (if g.funding_rates > 0 { 1int } else { 0 })
            + (if g.open_interests > 0 { 1int } else { 0 }) + (if g.funding_settlements > 0 { 1int } else { 0 }),
{
    let e = Seq::<FlushTarget>::empty();
    let s0 = if g.orderbooks > 0 { seq![FlushTarget::Orderbooks] } else { e };
    let s1 = if g.trades > 0 { seq![FlushTarget::Trades] } else { e };
    let s2 = if g.liquidations > 0 { seq![FlushTarget::Liquidations] } else { e };
    let s3 = if g.funding_rates > 0 { seq![FlushTarget::FundingRates] } else { e };
    let s4 = if g.open_interests > 0 { seq![FlushTarget::OpenInterests] } else { e };
    let s5 = if g.funding_settlements > 0 { seq![FlushTarget::FundingSettlements] } else { e };
    assert forall|t: FlushTarget| flush_rank(t) >= 0 implies !e.contains(t) by {}
    lemma_plan_step(e, s0, g.orderbooks > 0, FlushTarget::Orderbooks, g);
    let a1 = e + s0;
    lemma_plan_step(a1, s1, g.trades > 0, FlushTarget::Trades, g);
    let a2 = a1 + s1;
    lemma_plan_step(a2, s2, g.liquidations > 0, FlushTarget::Liquidations, g);
    let a3 = a2 + s2;
    lemma_plan_step(a3, s3, g.funding_rates > 0, FlushTarget::FundingRates, g);
    let a4 = a3 + s3;
    lemma_plan_step(a4, s4, g.open_interests > 0, FlushTarget::OpenInterests, g);
    let a5 = a4 + s4;
    lemma_plan_step(a5, s5, g.funding_settlements > 0, FlushTarget::FundingSettlements, g);
    let a6 = a5 + s5;
    assert(e + s0 =~= s0);
    assert(a6 =~= flush_plan_of(g));
    assert forall|t: FlushTarget| #![auto] flush_plan_of(g).contains(t) <==> group_size(g, t) > 0 by {
        assert(flush_rank(t) <= 5);
    }
}

/// The three channel names are different texts.
pub proof fn lemma_channel_names_distinct()
    ensures
        "l2Book"@ != "trades"@,
        "l2Book"@ != "activeAssetCtx"@,
        "trades"@ != "activeAssetCtx"@,
{
    reveal_strlit("l2Book");
    reveal_strlit("trades");
    reveal_strlit("activeAssetCtx");
    assert("l2Book"@[0] != "trades"@[0]);
    assert("l2Book"@.len() != "activeAssetCtx"@.len());
    assert("trades"@.len() != "activeAssetCtx"@.len());
}

/// A coin is subscribed to `l2Book` exactly when books are declared, to
/// `trades` exactly when trades are, and to `activeAssetCtx` exactly when
/// funding rates or open interest are; to nothing else, and to each channel
/// at most once.
pub proof fn lemma_channels_cover_declared(declared: DeclaredSet)
    ensures
        channels_for(declared).contains("l2Book"@) <==> declared.has(DeclaredDatatype::Orderbook),
        channels_for(declared).contains("trades"@) <==> declared.has(DeclaredDatatype::Trades),
        channels_for(declared).contains("activeAssetCtx"@)
            <==> (declared.has(DeclaredDatatype::FundingRates) || declared.has(DeclaredDatatype::OpenInterest)),
        forall|i: int| 0 <= i < channels_for(declared).len() ==> {
            let c = #[trigger] channels_for(declared)[i];
            c == "l2Book"@ || c == "trades"@ || c == "activeAssetCtx"@
        },
        forall|i: int, j: int| 0 <= i < j < channels_for(declared).len()
            ==> #[trigger] channels_for(declared)[i] != #[trigger] channels_for(declared)[j],
{
    lemma_channel_names_distinct();
    let ob = declared.has(DeclaredDatatype::Orderbook);
    let tr = declared.has(DeclaredDatatype::Trades);
    let ctx = declared.has(DeclaredDatatype::FundingRates) || declared.has(DeclaredDatatype::OpenInterest);
    let l = "l2Book"@;
    let t = "trades"@;
    let a = "activeAssetCtx"@;
    let c = channels_for(declared);
    if ob && tr && ctx { assert(c =~= seq![l, t, a]); }
    else if ob && tr && !ctx { assert(c =~= seq![l, t]); }
    else if ob && !tr && ctx { assert(c =~= seq![l, a]); }
    else if ob && !tr && !ctx { assert(c =~= seq![l]); }
    else if !ob && tr && ctx { assert(c =~= seq![t, a]); }
    else if !ob && tr && !ctx { assert(c =~= seq![t]); }
    else if !ob && !tr && ctx { assert(c =~= seq![a]); }
    else { assert(c =~= Seq::<Seq<char>>::empty()); }
    if c.contains(l) {
        let k = choose|k: int| 0 <= k < c.len() && c[k] == l;
        assert(c[k] == l);
    }
    if c.contains(t) {
        let k = choose|k: int| 0 <= k < c.len() && c[k] == t;
        assert(c[k] == t);
    }
    if c.contains(a) {
        let k = choose|k: int| 0 <= k < c.len() && c[k] == a;
        assert(c[k] == a);
    }
    if ob { assert(c[0] == l); }
    if tr { assert(c[if ob { 1int } else { 0 }] == t); }
    if ctx { assert(c[(if ob { 1int } else { 0 }) + (if tr { 1int } else { 0 })] == a); }
}

/// A wire side letter is a buy exactly when it is `B` or `b`, a sell
/// exactly when it is `A` or `a`, and unknown otherwise.
pub proof fn lemma_side_letters(s: Seq<char>)
    ensures
        side_of(s) == Some(TradeSide::Buy) <==> (s == seq!['B'] || s == seq!['b']),
        side_of(s) == Some(TradeSide::Sell) <==> (s == seq!['A'] || s == seq!['a']),
        side_of(s) is None <==> !(s == seq!['B'] || s == seq!['b'] || s == seq!['A'] || s == seq!['a']),
{
    assert(seq!['B'] != seq!['A']) by { assert(seq!['B'][0] != seq!['A'][0]); }
    assert(seq!['B'] != seq!['a']) by { assert(seq!['B'][0] != seq!['a'][0]); }
    assert(seq!['b'] != seq!['A']) by { assert(seq!['b'][0] != seq!['A'][0]); }
    assert(seq!['b'] != seq!['a']) by { assert(seq!['b'][0] != seq!['a'][0]); }
}

/// A decoded KuCoin update holds what its JSON holds: the sequence range,
/// the symbol, and each change of `changes.asks` and `changes.bids` as its
/// price, size and sequence strings, in order.
pub proof fn lemma_kucoin_reads_members(t: Seq<char>, d: KucoinL2Data, i: int)
    requires
        l2_is(t, d),
    ensures
        u64_at(t, ptr_key(Seq::empty(), "sequenceStart"@)) == Some(d.sequence_start),
        u64_at(t, ptr_key(Seq::empty(), "sequenceEnd"@)) == Some(d.sequence_end),
        str_at(t, ptr_key(Seq::empty(), "symbol"@)) == Some(d.symbol@),
        0 <= i < d.changes.asks@.len() ==> {
            let p = ptr_idx(ptr_key(ptr_key(Seq::empty(), "changes"@), "asks"@), i as nat);
            &&& str_at(t, ptr_idx(p, 0)) == Some(d.changes.asks@[i].0@)
            &&& str_at(t, ptr_idx(p, 1)) == Some(d.changes.asks@[i].1@)
            &&& str_at(t, ptr_idx(p, 2)) == Some(d.changes.asks@[i].2@)
        },
        0 <= i < d.changes.bids@.len() ==> {
            let p = ptr_idx(ptr_key(ptr_key(Seq::empty(), "changes"@), "bids"@), i as nat);
            &&& str_at(t, ptr_idx(p, 0)) == Some(d.changes.bids@[i].0@)
            &&& str_at(t, ptr_idx(p, 1)) == Some(d.changes.bids@[i].1@)
            &&& str_at(t, ptr_idx(p, 2)) == Some(d.changes.bids@[i].2@)
        },
{
    let c = ptr_key(Seq::empty(), "changes"@);
    if 0 <= i < d.changes.asks@.len() {
        assert(crate::kucoin::change_is(t, ptr_idx(ptr_key(c, "asks"@), i as nat), d.changes.asks@[i]));
    }
    if 0 <= i < d.changes.bids@.len() {
        assert(crate::kucoin::change_is(t, ptr_idx(ptr_key(c, "bids"@), i as nat), d.changes.bids@[i]));
    }
}

/// Decoded funding-history rows hold what the JSON array holds, row by row:
/// the coin, the rate text, the premium text and the time.
pub proof fn lemma_history_reads_members(raw: Seq<char>, rows: Seq<HyperliquidFundingHistoryRow>, i: int)
    requires
        history_is(raw, rows),
        0 <= i < rows.len(),
    ensures
        str_at(raw, ptr_key(ptr_idx(Seq::empty(), i as nat), "coin"@)) == Some(rows[i].coin@),
        str_at(raw, ptr_key(ptr_idx(Seq::empty(), i as nat), "fundingRate"@)) == Some(rows[i].funding_rate@),
        u64_at(raw, ptr_key(ptr_idx(Seq::empty(), i as nat), "time"@)) == Some(rows[i].time),
        match rows[i].premium {
            Some(p) => str_at(raw, ptr_key(ptr_idx(Seq::empty(), i as nat), "premium"@)) == Some(p@),
            None => str_at(raw, ptr_key(ptr_idx(Seq::empty(), i as nat), "premium"@)) is None,
        },
{
    assert(crate::hyperliquid::history_row_is(raw, ptr_idx(Seq::empty(), i as nat), rows[i]));
}

/// A settlement carries its row's parsed rate and premium, its time in
/// microseconds, the coin quoted in USDC, and the given receive stamps.
pub proof fn lemma_settlement_reads_row(row: HyperliquidFundingHistoryRow, rtt_us: u64, local_ts_us: u64, ev: DomainEvent)
    requires
        is_settlement_of(row, rtt_us, local_ts_us, ev),
    ensures
        ev matches DomainEvent::FundingSettlement(s) && {
            &&& parsed_dec(row.funding_rate@) == Some(s.funding_rate)
            &&& (match row.premium {
                Some(p) => s.premium == parsed_dec(p@),
                None => s.premium is None,
            })
            &&& s.funding_time_us == ms_to_us(row.time)
            &&& s.rtt_us == rtt_us
            &&& s.local_ts_us == local_ts_us
            &&& s.pair.base@ == row.coin@
            &&& s.pair.quote@ == "USDC"@
        },
{
}

/// The samples of an asset context carry its own decimals: a funding sample
/// the parsed `funding` and `premium` texts, an open-interest sample the
/// parsed `openInterest` and `markPx` texts; a funding sample comes exactly
/// when funding rates are declared, the coin is known and `funding` parses,
/// and likewise for open interest.
pub proof fn lemma_asset_ctx_samples(declared: DeclaredSet, msg: HyperliquidAssetCtxMsg, evs: Seq<DomainEvent>)
    requires
        asset_ctx_events_ok(declared, msg, evs),
    ensures
        ({
            let coin_known = msg.coin@.len() > 0 && crate::text::lacks(msg.coin@, '/');
            let f = declared.has(DeclaredDatatype::FundingRates) && coin_known
                && (match msg.ctx.funding { Some(x) => parsed_dec(x@) is Some, None => false });
            let o = declared.has(DeclaredDatatype::OpenInterest) && coin_known
                && (match msg.ctx.open_interest { Some(x) => parsed_dec(x@) is Some, None => false });
            &&& evs.len() == (if f { 1int } else { 0 }) + (if o { 1int } else { 0 })
            &&& f ==> (evs[0] matches DomainEvent::FundingRate(fr) && {
                &&& (msg.ctx.funding matches Some(x) && parsed_dec(x@) == Some(fr.funding_rate))
                &&& (match msg.ctx.premium { Some(p) => fr.premium == parsed_dec(p@), None => fr.premium is None })
                &&& fr.pair.base@ == msg.coin@
            })
            &&& o ==> (evs[if f { 1int } else { 0 }] matches DomainEvent::OpenInterest(oi) && {
                &&& (msg.ctx.open_interest matches Some(x) && parsed_dec(x@) == Some(oi.open_interest))
                &&& (match msg.ctx.mark_px { Some(p) => oi.mark_px == parsed_dec(p@), None => oi.mark_px is None })
                &&& oi.pair.base@ == msg.coin@
            })
        }),
{
}

/// The total of two lists of sizes put together is the sum of their totals.
pub proof fn lemma_total_of_concat(a: Seq<u64>, b: Seq<u64>, x: u64)
    ensures
        total_of(a + b) == total_of(a) + total_of(b),
        total_of(Seq::<u64>::empty()) == 0,
        total_of(seq![x]) == x,
    decreases b.len(),
{
    if b.len() > 0 {
        lemma_total_of_concat(a, b.drop_last(), x);
        assert((a + b).drop_last() =~= a + b.drop_last());
    } else {
        assert(a + b =~= a);
    }
    assert(seq![x].drop_last() =~= Seq::<u64>::empty());
}

/// A decoded asset context holds what the frame's JSON holds: the coin and
/// the `funding`, `openInterest`, `markPx` and `premium` strings of `ctx`.
pub proof fn lemma_decoded_asset_ctx_reads_members(raw: Seq<char>, m: HyperliquidAssetCtxMsg)
    requires
        decoded(raw, Ok(Some(HyperliquidWssEvent::AssetCtx(m)))),
    ensures
        str_at(raw, top("channel"@)) == Some("activeAssetCtx"@),
        str_at(raw, ptr_key(top("data"@), "coin"@)) == Some(m.coin@),
        ({
            let c = ptr_key(ptr_key(top("data"@), "ctx"@), "funding"@);
            match m.ctx.funding { Some(x) => str_at(raw, c) == Some(x@), None => str_at(raw, c) is None }
        }),
        ({
            let c = ptr_key(ptr_key(top("data"@), "ctx"@), "openInterest"@);
            match m.ctx.open_interest { Some(x) => str_at(raw, c) == Some(x@), None => str_at(raw, c) is None }
        }),
        ({
            let c = ptr_key(ptr_key(top("data"@), "ctx"@), "markPx"@);
            match m.ctx.mark_px { Some(x) => str_at(raw, c) == Some(x@), None => str_at(raw, c) is None }
        }),
        ({
            let c = ptr_key(ptr_key(top("data"@), "ctx"@), "premium"@);
            match m.ctx.premium { Some(x) => str_at(raw, c) == Some(x@), None => str_at(raw, c) is None }
        }),
{
    lemma_channel_names_distinct();
}

/// Key `h * n + c` of the first `hours` hours of a day with `n` coins is the
/// key of hour `h` and coin `c`: hour by hour, coins in their order.
pub proof fn lemma_hour_keys_at(day: Seq<char>, hours: nat, coins: Seq<Seq<char>>, h: int, c: int)
    requires
        0 <= h < hours,
        0 <= c < coins.len(),
    ensures
        h * coins.len() + c < hour_keys(day, hours, coins).len(),
        hour_keys(day, hours, coins)[h * coins.len() + c] == key_text(day, h as nat, coins[c]),
    decreases hours,
{
    let n = coins.len();
    let h1 = (hours - 1) as nat;
    lemma_hour_keys_len(day, hours, coins);
    lemma_hour_keys_len(day, h1, coins);
    let row = coins.map_values(|x: Seq<char>| key_text(day, h1, x));
    assert(hour_keys(day, hours, coins) == hour_keys(day, h1, coins) + row);
    assert(h * n + c < hours * n) by (nonlinear_arith)
        requires
            0 <= h < hours,
            0 <= c < n;
    if h < h1 {
        lemma_hour_keys_at(day, h1, coins, h, c);
    } else {
        assert(h1 * n + c - h1 * n == c);
        assert(row[c] == key_text(day, h1, coins[c]));
    }
}

/// The days of a window run from its first day, one calendar day at a time,
/// none after the end, up to the last day before the end: it starts at the
/// first day (when that is not after the end), each day's successor is the
/// next entry, every entry is on or before the end, and the last entry has
/// no successor on or before the end.
pub proof fn lemma_window_days_consecutive(y: int, m: int, d: int, end_key: int)
    ensures
        ({
            let w = window_days(y, m, d, end_key);
            &&& (ymd_key(y, m, d) <= end_key <==> w.len() > 0)
            &&& w.len() > 0 ==> w[0] == (y, m, d)
            &&& forall|i: int| 0 <= i < w.len() ==> ymd_key((#[trigger] w[i]).0, w[i].1, w[i].2) <= end_key
            &&& forall|i: int| 0 <= i < w.len() - 1 ==> next_ymd((#[trigger] w[i]).0, w[i].1, w[i].2) == Some(w[i + 1])
            &&& w.len() > 0 ==> match next_ymd(w.last().0, w.last().1, w.last().2) {
                Some(n) => ymd_key(n.0, n.1, n.2) > end_key,
                None => true,
            }
        }),
    decreases end_key - ymd_key(y, m, d),
{
    let w = window_days(y, m, d, end_key);
    if ymd_key(y, m, d) <= end_key {
        match next_ymd(y, m, d) {
            None => {},
            Some(n) => {
                lemma_next_ymd(y, m, d);
                if ymd_key(n.0, n.1, n.2) <= end_key {
                    lemma_window_days_consecutive(n.0, n.1, n.2, end_key);
                    let rest = window_days(n.0, n.1, n.2, end_key);
                    assert(w == seq![(y, m, d)] + rest);
                    assert forall|i: int| 0 <= i < w.len() - 1 implies
                        next_ymd((#[trigger] w[i]).0, w[i].1, w[i].2) == Some(w[i + 1]) by {
                        if i > 0 {
                            assert(w[i] == rest[i - 1]);
                            assert(w[i + 1] == rest[i]);
                        } else {
                            assert(w[1] == rest[0]);
                        }
                    }
                    assert forall|i: int| 0 <= i < w.len() implies
                        ymd_key((#[trigger] w[i]).0, w[i].1, w[i].2) <= end_key by {
                        if i > 0 {
                            assert(w[i] == rest[i - 1]);
                        }
                    }
                    assert(w.last() == rest.last());
                }
            },
        }
    }
}

/// The rows that become settlements are exactly those that survive, in
/// their order.
pub proof fn lemma_kept_rows_filter(rows: Seq<HyperliquidFundingHistoryRow>)
    ensures
        kept_rows(rows) == rows.filter(|r: HyperliquidFundingHistoryRow| row_kept(r)),
    decreases rows.len(),
{
    reveal(Seq::filter);
    if rows.len() > 0 {
        lemma_kept_rows_filter(rows.drop_last());
    }
}

/// A funding-history row survives exactly when its coin is a non-empty text
/// without `/` and its rate text parses as a decimal.
pub proof fn lemma_row_kept_when(row: HyperliquidFundingHistoryRow)
    ensures
        row_kept(row) <==> (row.coin@.len() > 0 && crate::text::lacks(row.coin@, '/')
            && parsed_dec(row.funding_rate@) is Some),
{
}

/// A trade survives exactly when its coin is a non-empty text without `/`,
/// its side letter is `A`, `a`, `B` or `b`, and its size and price texts
/// parse as decimals.
pub proof fn lemma_trade_kept_when(t: HyperliquidTrade)
    ensures
        trade_kept(t) <==> (t.coin@.len() > 0 && crate::text::lacks(t.coin@, '/')
            && (t.side@ == seq!['B'] || t.side@ == seq!['b'] || t.side@ == seq!['A'] || t.side@ == seq!['a'])
            && parsed_dec(t.sz@) is Some && parsed_dec(t.px@) is Some),
{
    lemma_side_letters(t.side@);
}

/// Frame `i * c + j` of the subscription frames of `coins` over `c`
/// channels is the frame of coin `i` on channel `j`: coin by coin, each
/// coin's channels in order, and every coin gets every channel.
pub proof fn lemma_frames_for_at(coins: Seq<Seq<char>>, channels: Seq<Seq<char>>, i: int, j: int)
    requires
        0 <= i < coins.len(),
        0 <= j < channels.len(),
    ensures
        i * channels.len() + j < frames_for(coins, channels).len(),
        frames_for(coins, channels)[i * channels.len() + j] == subscribe_frame_text(channels[j], coins[i]),
    decreases coins.len(),
{
    let n = channels.len();
    let k = coins.len();
    let prev = coins.drop_last();
    crate::hyperliquid::lemma_frames_for_len(coins, channels);
    crate::hyperliquid::lemma_frames_for_len(prev, channels);
    let row = channels.map_values(|c: Seq<char>| subscribe_frame_text(c, coins.last()));
    assert(frames_for(coins, channels) == frames_for(prev, channels) + row);
    assert(i * n + j < k * n) by (nonlinear_arith)
        requires
            0 <= i < k,
            0 <= j < n;
    if i < k - 1 {
        lemma_frames_for_at(prev, channels, i, j);
        assert(prev[i] == coins[i]);
    } else {
        assert((k - 1) * n + j - (k - 1) * n == j);
        assert(row[j] == subscribe_frame_text(channels[j], coins.last()));
    }
}

/// A 2xx answer is read; 408, 429 and every 5xx answer are retried after a
/// pause; every other status is final.
pub proof fn lemma_status_verdicts(status: u16)
    ensures
        verdict_of(status) == Verdict::Success <==> 200 <= status < 300,
        verdict_of(status) == Verdict::RetryAfterBackoff
            <==> (status == 408 || status == 429 || 500 <= status < 600),
        verdict_of(status) == Verdict::Fatal
            <==> !(200 <= status < 300 || status == 408 || status == 429 || 500 <= status < 600),
{
}

/// The decimal rendering of a number is a non-empty string of digits whose
/// value is the number: rendering then reading gives the number back.
pub proof fn lemma_decimal_text_round_trip(n: nat)
    ensures
        decimal_text(n).len() > 0,
        all_digits(decimal_text(n)),
        digits_value(decimal_text(n)) == n,
        n <= u64::MAX ==> u64_from_text(decimal_text(n)) == Some(n as u64),
    decreases n,
{
    let t = decimal_text(n);
    let c = crate::text::digit_char(n % 10);
    assert(c as int == 48 + n % 10);
    if n >= 10 {
        lemma_decimal_text_round_trip(n / 10);
        let p = decimal_text(n / 10);
        assert(t == p.push(c));
        assert(t.drop_last() =~= p);
        assert(t.last() == c);
        assert(digits_value(t) == digits_value(p) * 10 + (n % 10));
        assert(n == (n / 10) * 10 + n % 10);
        assert forall|i: int| 0 <= i < t.len() implies '0' <= #[trigger] t[i] <= '9' by {
            if i < p.len() {
                assert(t[i] == p[i]);
            }
        }
    } else {
        assert(t == seq![c]);
        assert(t.drop_last() =~= Seq::<char>::empty());
        assert(digits_value(t) == digits_value(Seq::<char>::empty()) * 10 + n);
    }
    assert('0' <= t[0] <= '9');
}

/// Dashing a name keeps its length and every character but `/`, which
/// becomes `-`; no `/` is left.
pub proof fn lemma_dashed(s: Seq<char>)
    ensures
        dashed(s).len() == s.len(),
        forall|i: int| 0 <= i < s.len() ==> #[trigger] dashed(s)[i] == (if s[i] == '/' { '-' } else { s[i] }),
        forall|i: int| 0 <= i < s.len() ==> #[trigger] dashed(s)[i] != '/',
{
}

/// A listing's `Contents` element with a `Key` and a `Size` becomes one
/// listed object with that key and size, appended to the objects read so
/// far, whatever came before it at the top level.
pub proof fn lemma_listing_reads_contents(
    before: Seq<XmlEvent>,
    contents: String,
    key_tag: String,
    size_tag: String,
    key: String,
    size: String,
    close_contents: String,
    close_key: String,
    close_size: String,
)
    requires
        contents@ == "Contents"@,
        close_contents@ == "Contents"@,
        key_tag@ == "Key"@,
        close_key@ == "Key"@,
        size_tag@ == "Size"@,
        close_size@ == "Size"@,
        scan(before).path.len() == 0,
        key@.len() > 0,
        u64_from_text(size@) is Some,
    ensures
        ({
            let evs = before + seq![
                XmlEvent::Start(contents),
                XmlEvent::Start(key_tag),
                XmlEvent::Text(key),
                XmlEvent::End(close_key),
                XmlEvent::Start(size_tag),
                XmlEvent::Text(size),
                XmlEvent::End(close_size),
                XmlEvent::End(close_contents)
            ];
            &&& scan(evs).objects == scan(before).objects.push(ObjectView {
                key: key@,
                size: u64_from_text(size@)->0,
                etag: None,
                last_modified: None,
            })
            &&& scan(evs).is_truncated == scan(before).is_truncated
            &&& scan(evs).next_token == scan(before).next_token
            &&& scan(evs).path.len() == 0
        }),
{
    reveal_strlit("Contents");
    reveal_strlit("Key");
    reveal_strlit("Size");
    reveal_strlit("ETag");
    reveal_strlit("LastModified");
    reveal_strlit("IsTruncated");
    reveal_strlit("NextContinuationToken");
    assert("Key"@ != "Contents"@) by { assert("Key"@.len() != "Contents"@.len()); }
    assert("Size"@ != "Contents"@) by { assert("Size"@.len() != "Contents"@.len()); }
    assert("Key"@ != "Size"@) by { assert("Key"@.len() != "Size"@.len()); }
    assert("Key"@ != "ETag"@) by { assert("Key"@.len() != "ETag"@.len()); }
    assert("Size"@ != "ETag"@) by { assert("Size"@[0] != "ETag"@[0]); }
    assert("Key"@ != "LastModified"@) by { assert("Key"@.len() != "LastModified"@.len()); }
    assert("Size"@ != "LastModified"@) by { assert("Size"@.len() != "LastModified"@.len()); }
    let e = seq![
        XmlEvent::Start(contents),
        XmlEvent::Start(key_tag),
        XmlEvent::Text(key),
        XmlEvent::End(close_key),
        XmlEvent::Start(size_tag),
        XmlEvent::Text(size),
        XmlEvent::End(close_size),
        XmlEvent::End(close_contents)
    ];
    let evs = before + e;
    let b = before.len() as int;
    assert forall|k: int| 0 <= k <= 8 implies #[trigger] evs.take(b + k) == before + e.take(k) by {
        assert(evs.take(b + k) =~= before + e.take(k));
    }
    assert(evs.take(b) =~= before);
    let s1 = scan(evs.take(b + 1));
    assert(evs.take(b + 1).drop_last() =~= before);
    assert(s1.path =~= seq!["Contents"@]);
    assert(s1.key.len() == 0 && s1.size is None);
    let s2 = scan(evs.take(b + 2));
    assert(evs.take(b + 2).drop_last() =~= evs.take(b + 1));
    assert(s2.path =~= seq!["Contents"@, "Key"@]);
    let s3 = scan(evs.take(b + 3));
    assert(evs.take(b + 3).drop_last() =~= evs.take(b + 2));
    assert(crate::s3::in_contents(s2.path));
    assert(s3.key == key@);
    let s4 = scan(evs.take(b + 4));
    assert(evs.take(b + 4).drop_last() =~= evs.take(b + 3));
    assert(s4.path =~= seq!["Contents"@]);
    let s5 = scan(evs.take(b + 5));
    assert(evs.take(b + 5).drop_last() =~= evs.take(b + 4));
    assert(s5.path =~= seq!["Contents"@, "Size"@]);
    let s6 = scan(evs.take(b + 6));
    assert(evs.take(b + 6).drop_last() =~= evs.take(b + 5));
    assert(crate::s3::in_contents(s5.path));
    assert(s6.size == u64_from_text(size@));
    let s7 = scan(evs.take(b + 7));
    assert(evs.take(b + 7).drop_last() =~= evs.take(b + 6));
    assert(s7.path =~= seq!["Contents"@]);
    assert(evs.take(b + 8) =~= evs);
    assert(evs.drop_last() =~= evs.take(b + 7));
    assert(scan(evs).path =~= Seq::<Seq<char>>::empty());
}

} // verus!
