//! The canonical market-data model: trading pairs, declared datatypes and the
//! domain events that adapters emit.

use vstd::prelude::*;

use crate::decimal::Dec;
use crate::text::{chars_of, lacks, push_char, push_str, string_of_range};

verus! {

/// A kind of market data a venue can be asked for.
#[derive(Debug, Clone, Copy, PartialEq, Eq, Structural)]
pub enum DeclaredDatatype {
    Orderbook,
    Trades,
    FundingRates,
    OpenInterest,
    Liquidations,
}

/// The set of datatypes a market declares.
#[derive(Debug, Clone, Copy, PartialEq, Eq, Structural)]
pub struct DeclaredSet {
    orderbook: bool,
    trades: bool,
    funding_rates: bool,
    open_interest: bool,
    liquidations: bool,
}

impl DeclaredSet {
    /// Whether `d` belongs to the set.
    pub closed spec fn has(self, d: DeclaredDatatype) -> bool {
        match d {
            DeclaredDatatype::Orderbook => self.orderbook,
            DeclaredDatatype::Trades => self.trades,
            DeclaredDatatype::FundingRates => self.funding_rates,
            DeclaredDatatype::OpenInterest => self.open_interest,
            DeclaredDatatype::Liquidations => self.liquidations,
        }
    }

    /// Every datatype.
    pub fn all() -> (s: DeclaredSet)
        ensures
            forall|d: DeclaredDatatype| s.has(d),
    {
        DeclaredSet { orderbook: true, trades: true, funding_rates: true, open_interest: true, liquidations: true }
    }

    /// Exactly one datatype.
    pub fn only(d: DeclaredDatatype) -> (s: DeclaredSet)
        ensures
            forall|e: DeclaredDatatype| s.has(e) <==> e == d,
    {
        DeclaredSet {
            orderbook: d == DeclaredDatatype::Orderbook,
            trades: d == DeclaredDatatype::Trades,
            funding_rates: d == DeclaredDatatype::FundingRates,
            open_interest: d == DeclaredDatatype::OpenInterest,
            liquidations: d == DeclaredDatatype::Liquidations,
        }
    }

    /// The set with `d` removed.
    pub fn without(self, d: DeclaredDatatype) -> (s: DeclaredSet)
        ensures
            forall|e: DeclaredDatatype| s.has(e) <==> (self.has(e) && e != d),
    {
        let mut s = self;
        match d {
            DeclaredDatatype::Orderbook => s.orderbook = false,
            DeclaredDatatype::Trades => s.trades = false,
            DeclaredDatatype::FundingRates => s.funding_rates = false,
            DeclaredDatatype::OpenInterest => s.open_interest = false,
            DeclaredDatatype::Liquidations => s.liquidations = false,
        }
        s
    }

    /// Two sets with the same members are the same set.
    pub proof fn lemma_same_members(a: DeclaredSet, b: DeclaredSet)
        requires
            forall|d: DeclaredDatatype| a.has(d) == b.has(d),
        ensures
            a == b,
    {
        assert(a.has(DeclaredDatatype::Orderbook) == b.has(DeclaredDatatype::Orderbook));
        assert(a.has(DeclaredDatatype::Trades) == b.has(DeclaredDatatype::Trades));
        assert(a.has(DeclaredDatatype::FundingRates) == b.has(DeclaredDatatype::FundingRates));
        assert(a.has(DeclaredDatatype::OpenInterest) == b.has(DeclaredDatatype::OpenInterest));
        assert(a.has(DeclaredDatatype::Liquidations) == b.has(DeclaredDatatype::Liquidations));
    }

    /// Whether `d` is declared.
    pub fn contains(&self, d: DeclaredDatatype) -> (b: bool)
        ensures
            b == self.has(d),
    {
        match d {
            DeclaredDatatype::Orderbook => self.orderbook,
            DeclaredDatatype::Trades => self.trades,
            DeclaredDatatype::FundingRates => self.funding_rates,
            DeclaredDatatype::OpenInterest => self.open_interest,
            DeclaredDatatype::Liquidations => self.liquidations,
        }
    }
}

/// A base/quote pair such as `BTC/USDT`.
#[derive(Debug, PartialEq, Eq)]
pub struct TradingPair {
    pub base: String,
    pub quote: String,
}

impl Clone for TradingPair {
    fn clone(&self) -> (p: TradingPair)
        ensures
            p == *self,
    {
        TradingPair { base: self.base.clone(), quote: self.quote.clone() }
    }
}

/// The canonical text `BASE/QUOTE`.
pub open spec fn canonical(base: Seq<char>, quote: Seq<char>) -> Seq<char> {
    base + seq!['/'] + quote
}

/// Whether `base` and `quote` make a well-formed pair: both non-empty and
/// free of `/`.
pub open spec fn pair_parts_ok(base: Seq<char>, quote: Seq<char>) -> bool {
    &&& base.len() > 0
    &&& quote.len() > 0
    &&& lacks(base, '/')
    &&& lacks(quote, '/')
}

/// Whether `s` is a canonical pair text: exactly one `/`, neither first nor last.
pub open spec fn is_canonical_text(s: Seq<char>) -> bool {
    exists|i: int| 0 < i < s.len() - 1 && s[i] == '/' && #[trigger] slash_only_at(s, i)
}

/// Whether `i` is the only position of `/` in `s`.
pub open spec fn slash_only_at(s: Seq<char>, i: int) -> bool {
    forall|j: int| 0 <= j < s.len() && j != i ==> s[j] != '/'
}

impl TradingPair {
    /// The pair `base/quote`.
    pub fn new(base: &str, quote: &str) -> (p: TradingPair)
        ensures
            p.base@ == base@,
            p.quote@ == quote@,
    {
        TradingPair { base: String::from_str(base), quote: String::from_str(quote) }
    }

    /// The canonical text `BASE/QUOTE`.
    pub fn to_canonical(&self) -> (s: String)
        ensures
            s@ == canonical(self.base@, self.quote@),
    {
        let mut s = self.base.clone();
        push_char(&mut s, '/');
        push_str(&mut s, self.quote.as_str());
        s
    }

    /// Reads a canonical pair text. Succeeds exactly when the text has one `/`
    /// with non-empty text on both sides.
    pub fn parse(text: &str) -> (r: Option<TradingPair>)
        ensures
            r is Some <==> is_canonical_text(text@),
            r matches Some(p) ==> canonical(p.base@, p.quote@) == text@ && pair_parts_ok(p.base@, p.quote@),
    {
        let cs = chars_of(text);
        let n = cs.len();
        let mut slash: Option<usize> = None;
        let mut count: usize = 0;
        let mut i: usize = 0;
        while i < n
            invariant
                n == cs.len(),
                cs@ == text@,
                i <= n,
                count <= i,
                count == 0 <==> slash is None,
                slash is None ==> forall|j: int| 0 <= j < i ==> cs@[j] != '/',
                slash matches Some(k) ==> k < i && cs@[k as int] == '/' && forall|j: int| 0 <= j < k ==> cs@[j] != '/',
                count == 1 ==> (slash matches Some(k) && forall|j: int| 0 <= j < i && j != k ==> cs@[j] != '/'),
                count >= 2 ==> (slash matches Some(k) && exists|j: int| k < j < i && cs@[j] == '/'),
            decreases n - i,
        {
            if cs[i] == '/' {
                if slash.is_none() {
                    slash = Some(i);
                }
                if count < 2 {
                    count = count + 1;
                }
            }
            i += 1;
        }
        match slash {
            Some(k) => {
                if count == 1 && k > 0 && k + 1 < n {
                    let base = string_of_range(&cs, 0, k);
                    let quote = string_of_range(&cs, k + 1, n);
                    assert(slash_only_at(text@, k as int));
                    assert(canonical(base@, quote@) =~= text@);
                    Some(TradingPair { base, quote })
                } else {
                    proof {
                        if is_canonical_text(text@) {
                            let w = choose|w: int| 0 < w < text@.len() - 1 && text@[w] == '/' && #[trigger] slash_only_at(text@, w);
                            assert(w == k);
                            if count >= 2 {
                                let j = choose|j: int| k < j < n && cs@[j] == '/';
                                assert(false);
                            }
                        }
                    }
                    None
                }
            },
            None => {
                proof {
                    if is_canonical_text(text@) {
                        let w = choose|w: int| 0 < w < text@.len() - 1 && text@[w] == '/' && #[trigger] slash_only_at(text@, w);
                        assert(cs@[w] == '/');
                    }
                }
                None
            },
        }
    }
}

/// A canonical pair text splits back into the parts it was made of.
pub proof fn lemma_canonical_unique(b1: Seq<char>, q1: Seq<char>, b2: Seq<char>, q2: Seq<char>)
    requires
        pair_parts_ok(b1, q1),
        pair_parts_ok(b2, q2),
        canonical(b1, q1) == canonical(b2, q2),
    ensures
        b1 == b2,
        q1 == q2,
{
    let s = canonical(b1, q1);
    assert(s[b1.len() as int] == '/');
    assert(s[b2.len() as int] == '/');
    if b1.len() < b2.len() {
        assert(s[b1.len() as int] == b2[b1.len() as int]);
    } else if b2.len() < b1.len() {
        assert(s[b2.len() as int] == b1[b2.len() as int]);
    }
    assert(b1 =~= s.take(b1.len() as int));
    assert(b2 =~= s.take(b2.len() as int));
    assert(q1 =~= s.skip(b1.len() as int + 1));
    assert(q2 =~= s.skip(b2.len() as int + 1));
}

/// Reading back the canonical text of a well-formed pair gives the pair
/// back: `parse(to_canonical(p)) == p`.
pub proof fn lemma_canonical_round_trip(base: Seq<char>, quote: Seq<char>)
    requires
        pair_parts_ok(base, quote),
    ensures
        is_canonical_text(canonical(base, quote)),
        forall|b: Seq<char>, q: Seq<char>|
            pair_parts_ok(b, q) && #[trigger] canonical(b, q) == canonical(base, quote) ==> b == base && q == quote,
{
    let s = canonical(base, quote);
    let i = base.len() as int;
    assert(s[i] == '/');
    assert forall|j: int| 0 <= j < s.len() && j != i implies s[j] != '/' by {
        if j < i {
            assert(s[j] == base[j]);
        } else {
            assert(s[j] == quote[j - i - 1]);
        }
    }
    assert(slash_only_at(s, i));
    assert forall|b: Seq<char>, q: Seq<char>|
        pair_parts_ok(b, q) && #[trigger] canonical(b, q) == canonical(base, quote) implies b == base && q == quote by {
        lemma_canonical_unique(b, q, base, quote);
    }
}

} // verus!
verus! {

/// Converts a venue timestamp in milliseconds to microseconds, saturating
/// at `u64::MAX`.
pub open spec fn ms_to_us(ms: u64) -> u64 {
    if ms * 1000 <= u64::MAX { (ms * 1000) as u64 } else { u64::MAX }
}

/// Converts a venue epoch timestamp in milliseconds to microseconds.
pub fn epoch_to_us(ms: u64) -> (us: u64)
    ensures
        us == ms_to_us(ms),
{
    if ms <= u64::MAX / 1000 {
        ms * 1000
    } else {
        u64::MAX
    }
}

/// How a venue writes its symbols.
#[derive(Debug, Clone, Copy, PartialEq, Eq)]
pub enum SymbolCodec {
    /// The symbol is the bare base coin; every pair is quoted in `quote`.
    BareCoin { quote: &'static str },
}

impl SymbolCodec {
    /// Whether `coin` names a pair under this codec: a non-empty text without `/`.
    pub open spec fn accepts(self, coin: Seq<char>) -> bool {
        coin.len() > 0 && lacks(coin, '/')
    }

    /// The quote currency of every pair under this codec.
    pub open spec fn quote_of(self) -> Seq<char> {
        match self {
            SymbolCodec::BareCoin { quote } => quote@,
        }
    }

    /// Decodes a venue symbol into a pair.
    pub fn decode(&self, coin: &str) -> (r: Option<TradingPair>)
        ensures
            r is Some <==> self.accepts(coin@),
            r matches Some(p) ==> p.base@ == coin@ && p.quote@ == self.quote_of(),
    {
        let cs = chars_of(coin);
        if cs.len() == 0 {
            return None;
        }
        let mut i: usize = 0;
        while i < cs.len()
            invariant
                cs@ == coin@,
                i <= cs.len(),
                forall|j: int| 0 <= j < i ==> cs@[j] != '/',
            decreases cs.len() - i,
        {
            if cs[i] == '/' {
                return None;
            }
            i += 1;
        }
        match self {
            SymbolCodec::BareCoin { quote } => Some(TradingPair::new(coin, quote)),
        }
    }
}

/// The side of the taker of a trade.
#[derive(Debug, Clone, Copy, PartialEq, Eq, Structural)]
pub enum TradeSide {
    Buy,
    Sell,
}

/// Where a trade record came from.
#[derive(Debug, Clone, Copy, PartialEq, Eq, Structural)]
pub enum TradeOrigin {
    /// The live websocket stream.
    Ws,
    /// A REST recovery.
    Rest,
}

impl Default for TradeOrigin {
    fn default() -> (o: TradeOrigin)
        ensures
            o == TradeOrigin::Ws,
    {
        TradeOrigin::Ws
    }
}

/// One executed trade.
#[derive(Debug, PartialEq, Eq)]
pub struct Trade {
    pub source_trade_ts_us: u64,
    pub local_trade_ts_us: u64,
    pub source_trade_rtt_us: u64,
    pub pair: TradingPair,
    pub side: TradeSide,
    pub amount: Dec,
    pub price: Dec,
    pub exchange: String,
    pub id: String,
    pub origin: TradeOrigin,
}

/// An order-book update as the venue sent it; prices and sizes keep their
/// wire text.
#[derive(Debug, PartialEq, Eq)]
pub struct NormalizedDelta {
    pub symbol: String,
    pub bids: Vec<(String, String)>,
    pub asks: Vec<(String, String)>,
    pub update_id: u64,
    pub sequence: u64,
    pub source_orderbook_ts_us: u64,
    pub local_orderbook_ts_us: u64,
    pub source_orderbook_rtt_us: u64,
    pub checksum: Option<u32>,
    pub is_snapshot: bool,
}

/// A funding-rate observation.
#[derive(Debug, PartialEq, Eq)]
pub struct FundingRate {
    /// When the rate was observed (Unix µs).
    pub funding_rate_ts_us: u64,
    pub local_funding_ts_us: u64,
    pub recv_seq: u64,
    pub conn_epoch: u32,
    pub pair: TradingPair,
    /// The rate as a decimal (`0.0001` is one basis point).
    pub funding_rate: Dec,
    pub premium: Option<Dec>,
    pub interval_hours: u32,
    /// The next settlement (Unix µs); 0 when unknown.
    pub next_funding_ts_us: u64,
    pub exchange: String,
}

/// An open-interest observation.
#[derive(Debug, PartialEq, Eq)]
pub struct OpenInterest {
    pub open_interest_ts_us: u64,
    pub local_oi_ts_us: u64,
    pub recv_seq: u64,
    pub conn_epoch: u32,
    pub pair: TradingPair,
    /// Open interest in contracts.
    pub open_interest: Dec,
    /// Open interest in quote currency, when known.
    pub open_interest_value: Option<Dec>,
    pub mark_px: Option<Dec>,
    pub exchange: String,
}

/// A settled funding payment.
#[derive(Debug, PartialEq, Eq)]
pub struct FundingSettlement {
    pub funding_time_us: u64,
    pub local_ts_us: u64,
    pub rtt_us: u64,
    pub pair: TradingPair,
    pub funding_rate: Dec,
    pub premium: Option<Dec>,
    pub exchange: String,
}

/// What an adapter emits.
#[derive(Debug, PartialEq, Eq)]
pub enum DomainEvent {
    Book(NormalizedDelta),
    Trade { trade: Trade, sequence: Option<u64> },
    FundingRate(FundingRate),
    OpenInterest(OpenInterest),
    FundingSettlement(FundingSettlement),
}

impl DomainEvent {
    /// The event with its local receive stamp set: the local timestamp and
    /// round trip where the event has them, the receive sequence where it
    /// has one; every other field unchanged.
    pub open spec fn stamped(self, local_ts_us: u64, rtt_us: u64, recv_seq: u64) -> DomainEvent {
        match self {
            DomainEvent::Book(d) => DomainEvent::Book(NormalizedDelta {
                local_orderbook_ts_us: local_ts_us,
                source_orderbook_rtt_us: rtt_us,
                ..d
            }),
            DomainEvent::Trade { trade, sequence } => DomainEvent::Trade {
                trade: Trade { local_trade_ts_us: local_ts_us, source_trade_rtt_us: rtt_us, ..trade },
                sequence,
            },
            DomainEvent::FundingRate(f) => DomainEvent::FundingRate(FundingRate {
                local_funding_ts_us: local_ts_us,
                recv_seq,
                ..f
            }),
            DomainEvent::OpenInterest(o) => DomainEvent::OpenInterest(OpenInterest {
                local_oi_ts_us: local_ts_us,
                recv_seq,
                ..o
            }),
            DomainEvent::FundingSettlement(s) => DomainEvent::FundingSettlement(FundingSettlement {
                local_ts_us,
                rtt_us,
                ..s
            }),
        }
    }

    /// Stamps the event with its local receive time, round trip and sequence.
    pub fn stamp_local(&mut self, local_ts_us: u64, rtt_us: u64, recv_seq: u64)
        ensures
            *final(self) == old(self).stamped(local_ts_us, rtt_us, recv_seq),
    {
        match self {
            DomainEvent::Book(d) => {
                d.local_orderbook_ts_us = local_ts_us;
                d.source_orderbook_rtt_us = rtt_us;
            },
            DomainEvent::Trade { trade, .. } => {
                trade.local_trade_ts_us = local_ts_us;
                trade.source_trade_rtt_us = rtt_us;
            },
            DomainEvent::FundingRate(f) => {
                f.local_funding_ts_us = local_ts_us;
                f.recv_seq = recv_seq;
            },
            DomainEvent::OpenInterest(o) => {
                o.local_oi_ts_us = local_ts_us;
                o.recv_seq = recv_seq;
            },
            DomainEvent::FundingSettlement(s) => {
                s.local_ts_us = local_ts_us;
                s.rtt_us = rtt_us;
            },
        }
    }
}

} // verus!
verus! {

/// Why a venue payload could not be used.
#[derive(Debug, Clone, Copy, PartialEq, Eq)]
pub enum ExchangeError {
    /// The frame is not what the venue's protocol describes; the text says which part.
    MalformedFrame(&'static str),
}

/// Why a builder could not build.
#[derive(Debug, Clone, Copy, PartialEq, Eq)]
pub enum BuildError {
    /// A required field was not set; the name is the field's.
    MissingField(&'static str),
}

/// Whether `r` is the error for the missing field called `name`.
pub open spec fn is_missing<T>(r: Result<T, BuildError>, name: Seq<char>) -> bool {
    r matches Err(BuildError::MissingField(f)) && f@ == name
}

/// Builds a [`FundingRate`]. Required: the timestamp, the pair, the rate and
/// the exchange. The next funding timestamp defaults to 0, the premium to
/// none, the interval to 8 hours, the local stamps to 0.
#[derive(Debug)]
pub struct FundingRateBuilder {
    funding_rate_ts_us: Option<u64>,
    pair: Option<TradingPair>,
    funding_rate: Option<Dec>,
    next_funding_ts_us: Option<u64>,
    exchange: Option<String>,
}

impl FundingRate {
    /// An empty [`FundingRateBuilder`].
    pub fn builder() -> (b: FundingRateBuilder)
        ensures
            b.spec_empty(),
    {
        FundingRateBuilder::new()
    }
}

impl FundingRateBuilder {
    pub closed spec fn ts(self) -> Option<u64> { self.funding_rate_ts_us }
    pub closed spec fn pair_set(self) -> Option<TradingPair> { self.pair }
    pub closed spec fn rate(self) -> Option<Dec> { self.funding_rate }
    pub closed spec fn next_ts(self) -> Option<u64> { self.next_funding_ts_us }
    pub closed spec fn exchange_set(self) -> Option<String> { self.exchange }

    /// Nothing is set.
    pub open spec fn spec_empty(self) -> bool {
        &&& self.ts() is None
        &&& self.pair_set() is None
        &&& self.rate() is None
        &&& self.next_ts() is None
        &&& self.exchange_set() is None
    }

    /// An empty builder.
    pub fn new() -> (b: FundingRateBuilder)
        ensures
            b.spec_empty(),
    {
        FundingRateBuilder {
            funding_rate_ts_us: None,
            pair: None,
            funding_rate: None,
            next_funding_ts_us: None,
            exchange: None,
        }
    }

    /// Sets the observation timestamp (Unix µs).
    pub fn funding_rate_ts_us(self, ts: u64) -> (b: FundingRateBuilder)
        ensures
            b.ts() == Some(ts),
            b.pair_set() == self.pair_set(),
            b.rate() == self.rate(),
            b.next_ts() == self.next_ts(),
            b.exchange_set() == self.exchange_set(),
    {
        FundingRateBuilder { funding_rate_ts_us: Some(ts), ..self }
    }

    /// Sets the pair.
    pub fn pair(self, pair: TradingPair) -> (b: FundingRateBuilder)
        ensures
            b.ts() == self.ts(),
            b.pair_set() == Some(pair),
            b.rate() == self.rate(),
            b.next_ts() == self.next_ts(),
            b.exchange_set() == self.exchange_set(),
    {
        FundingRateBuilder { pair: Some(pair), ..self }
    }

    /// Sets the rate.
    pub fn funding_rate(self, rate: Dec) -> (b: FundingRateBuilder)
        ensures
            b.ts() == self.ts(),
            b.pair_set() == self.pair_set(),
            b.rate() == Some(rate),
            b.next_ts() == self.next_ts(),
            b.exchange_set() == self.exchange_set(),
    {
        FundingRateBuilder { funding_rate: Some(rate), ..self }
    }

    /// Sets the next settlement timestamp (optional).
    pub fn next_funding_ts_us(self, ts: u64) -> (b: FundingRateBuilder)
        ensures
            b.ts() == self.ts(),
            b.pair_set() == self.pair_set(),
            b.rate() == self.rate(),
            b.next_ts() == Some(ts),
            b.exchange_set() == self.exchange_set(),
    {
        FundingRateBuilder { next_funding_ts_us: Some(ts), ..self }
    }

    /// Sets the exchange name.
    pub fn exchange(self, exchange: String) -> (b: FundingRateBuilder)
        ensures
            b.ts() == self.ts(),
            b.pair_set() == self.pair_set(),
            b.rate() == self.rate(),
            b.next_ts() == self.next_ts(),
            b.exchange_set() == Some(exchange),
    {
        FundingRateBuilder { exchange: Some(exchange), ..self }
    }

    /// Builds the record, or names the first required field that is missing,
    /// in the order timestamp, pair, rate, exchange.
    pub fn build(self) -> (r: Result<FundingRate, BuildError>)
        ensures
            r is Ok <==> (self.ts() is Some && self.pair_set() is Some && self.rate() is Some
                && self.exchange_set() is Some),
            r matches Ok(f) ==> f == (FundingRate {
                funding_rate_ts_us: self.ts()->0,
                local_funding_ts_us: 0,
                recv_seq: 0,
                conn_epoch: 0,
                pair: self.pair_set()->0,
                funding_rate: self.rate()->0,
                premium: None,
                interval_hours: 8,
                next_funding_ts_us: match self.next_ts() { Some(t) => t, None => 0 },
                exchange: self.exchange_set()->0,
            }),
            self.ts() is None ==> is_missing(r, "ts"@),
            self.ts() is Some && self.pair_set() is None ==> is_missing(r, "pair"@),
            self.ts() is Some && self.pair_set() is Some && self.rate() is None ==> is_missing(r, "funding_rate"@),
            self.ts() is Some && self.pair_set() is Some && self.rate() is Some && self.exchange_set() is None
                ==> is_missing(r, "exchange"@),
    {
        let ts = match self.funding_rate_ts_us {
            Some(t) => t,
            None => return Err(BuildError::MissingField("ts")),
        };
        let pair = match self.pair {
            Some(p) => p,
            None => return Err(BuildError::MissingField("pair")),
        };
        let rate = match self.funding_rate {
            Some(x) => x,
            None => return Err(BuildError::MissingField("funding_rate")),
        };
        let next = match self.next_funding_ts_us {
            Some(t) => t,
            None => 0,
        };
        let exchange = match self.exchange {
            Some(e) => e,
            None => return Err(BuildError::MissingField("exchange")),
        };
        Ok(FundingRate {
            funding_rate_ts_us: ts,
            local_funding_ts_us: 0,
            recv_seq: 0,
            conn_epoch: 0,
            pair,
            funding_rate: rate,
            premium: None,
            interval_hours: 8,
            next_funding_ts_us: next,
            exchange,
        })
    }
}

impl Default for FundingRateBuilder {
    fn default() -> (b: FundingRateBuilder)
        ensures
            b.spec_empty(),
    {
        FundingRateBuilder::new()
    }
}

/// Builds an [`OpenInterest`]. Required: the timestamp, the pair, the open
/// interest and the exchange. The value in quote currency defaults to zero,
/// the mark price to none, the local stamps to 0.
#[derive(Debug)]
pub struct OpenInterestBuilder {
    open_interest_ts_us: Option<u64>,
    pair: Option<TradingPair>,
    open_interest: Option<Dec>,
    open_interest_value: Option<Dec>,
    exchange: Option<String>,
}

impl OpenInterest {
    /// An empty [`OpenInterestBuilder`].
    pub fn builder() -> (b: OpenInterestBuilder)
        ensures
            b.spec_empty(),
    {
        OpenInterestBuilder::new()
    }
}

impl OpenInterestBuilder {
    pub closed spec fn ts(self) -> Option<u64> { self.open_interest_ts_us }
    pub closed spec fn pair_set(self) -> Option<TradingPair> { self.pair }
    pub closed spec fn oi(self) -> Option<Dec> { self.open_interest }
    pub closed spec fn value(self) -> Option<Dec> { self.open_interest_value }
    pub closed spec fn exchange_set(self) -> Option<String> { self.exchange }

    /// Nothing is set.
    pub open spec fn spec_empty(self) -> bool {
        &&& self.ts() is None
        &&& self.pair_set() is None
        &&& self.oi() is None
        &&& self.value() is None
        &&& self.exchange_set() is None
    }

    /// An empty builder.
    pub fn new() -> (b: OpenInterestBuilder)
        ensures
            b.spec_empty(),
    {
        OpenInterestBuilder {
            open_interest_ts_us: None,
            pair: None,
            open_interest: None,
            open_interest_value: None,
            exchange: None,
        }
    }

    /// Sets the observation timestamp (Unix µs).
    pub fn open_interest_ts_us(self, ts: u64) -> (b: OpenInterestBuilder)
        ensures
            b.ts() == Some(ts),
            b.pair_set() == self.pair_set(),
            b.oi() == self.oi(),
            b.value() == self.value(),
            b.exchange_set() == self.exchange_set(),
    {
        OpenInterestBuilder { open_interest_ts_us: Some(ts), ..self }
    }

    /// Sets the pair.
    pub fn pair(self, pair: TradingPair) -> (b: OpenInterestBuilder)
        ensures
            b.ts() == self.ts(),
            b.pair_set() == Some(pair),
            b.oi() == self.oi(),
            b.value() == self.value(),
            b.exchange_set() == self.exchange_set(),
    {
        OpenInterestBuilder { pair: Some(pair), ..self }
    }

    /// Sets the open interest in contracts.
    pub fn open_interest(self, oi: Dec) -> (b: OpenInterestBuilder)
        ensures
            b.ts() == self.ts(),
            b.pair_set() == self.pair_set(),
            b.oi() == Some(oi),
            b.value() == self.value(),
            b.exchange_set() == self.exchange_set(),
    {
        OpenInterestBuilder { open_interest: Some(oi), ..self }
    }

    /// Sets the open interest in quote currency (optional).
    pub fn open_interest_value(self, value: Dec) -> (b: OpenInterestBuilder)
        ensures
            b.ts() == self.ts(),
            b.pair_set() == self.pair_set(),
            b.oi() == self.oi(),
            b.value() == Some(value),
            b.exchange_set() == self.exchange_set(),
    {
        OpenInterestBuilder { open_interest_value: Some(value), ..self }
    }

    /// Sets the exchange name.
    pub fn exchange(self, exchange: String) -> (b: OpenInterestBuilder)
        ensures
            b.ts() == self.ts(),
            b.pair_set() == self.pair_set(),
            b.oi() == self.oi(),
            b.value() == self.value(),
            b.exchange_set() == Some(exchange),
    {
        OpenInterestBuilder { exchange: Some(exchange), ..self }
    }

    /// Builds the record, or names the first required field that is missing,
    /// in the order timestamp, pair, open interest, exchange.
    pub fn build(self) -> (r: Result<OpenInterest, BuildError>)
        ensures
            r is Ok <==> (self.ts() is Some && self.pair_set() is Some && self.oi() is Some
                && self.exchange_set() is Some),
            r matches Ok(o) ==> o == (OpenInterest {
                open_interest_ts_us: self.ts()->0,
                local_oi_ts_us: 0,
                recv_seq: 0,
                conn_epoch: 0,
                pair: self.pair_set()->0,
                open_interest: self.oi()->0,
                open_interest_value: match self.value() {
                    Some(v) => Some(v),
                    None => Some(Dec { mantissa: 0, scale: 0 }),
                },
                mark_px: None,
                exchange: self.exchange_set()->0,
            }),
            self.ts() is None ==> is_missing(r, "ts"@),
            self.ts() is Some && self.pair_set() is None ==> is_missing(r, "pair"@),
            self.ts() is Some && self.pair_set() is Some && self.oi() is None ==> is_missing(r, "open_interest"@),
            self.ts() is Some && self.pair_set() is Some && self.oi() is Some && self.exchange_set() is None
                ==> is_missing(r, "exchange"@),
    {
        let ts = match self.open_interest_ts_us {
            Some(t) => t,
            None => return Err(BuildError::MissingField("ts")),
        };
        let pair = match self.pair {
            Some(p) => p,
            None => return Err(BuildError::MissingField("pair")),
        };
        let oi = match self.open_interest {
            Some(x) => x,
            None => return Err(BuildError::MissingField("open_interest")),
        };
        let value = match self.open_interest_value {
            Some(v) => v,
            None => Dec::zero(),
        };
        let exchange = match self.exchange {
            Some(e) => e,
            None => return Err(BuildError::MissingField("exchange")),
        };
        Ok(OpenInterest {
            open_interest_ts_us: ts,
            local_oi_ts_us: 0,
            recv_seq: 0,
            conn_epoch: 0,
            pair,
            open_interest: oi,
            open_interest_value: Some(value),
            mark_px: None,
            exchange,
        })
    }
}

impl Default for OpenInterestBuilder {
    fn default() -> (b: OpenInterestBuilder)
        ensures
            b.spec_empty(),
    {
        OpenInterestBuilder::new()
    }
}

} // verus!
verus! {

/// `x + n`, wrapping at `2^64` as an atomic counter does.
pub open spec fn wrapped_add(x: u64, n: u64) -> u64 {
    ((x + n) % 0x1_0000_0000_0000_0000) as u64
}

/// Per-source counters of what a collector saw.
#[derive(Debug, Clone, Copy, PartialEq, Eq, Structural)]
pub struct SourceMetrics {
    /// Messages handed on.
    pub msgs: u64,
    /// Frames or records dropped as unusable.
    pub dropped_frames: u64,
    /// Expected data found absent.
    pub gaps: u64,
    /// Payloads that could not be decoded.
    pub decode_err: u64,
}

impl SourceMetrics {
    /// All counters at zero.
    pub fn new() -> (m: SourceMetrics)
        ensures
            m == (SourceMetrics { msgs: 0, dropped_frames: 0, gaps: 0, decode_err: 0 }),
    {
        SourceMetrics { msgs: 0, dropped_frames: 0, gaps: 0, decode_err: 0 }
    }

    /// Counts `n` dropped frames.
    pub fn add_dropped_frames(&mut self, n: u64)
        ensures
            *final(self) == (SourceMetrics { dropped_frames: wrapped_add(old(self).dropped_frames, n), ..*old(self) }),
    {
        self.dropped_frames = self.dropped_frames.wrapping_add(n);
    }

    /// Counts one message.
    pub fn bump_msgs(&mut self)
        ensures
            *final(self) == (SourceMetrics { msgs: wrapped_add(old(self).msgs, 1), ..*old(self) }),
    {
        self.msgs = self.msgs.wrapping_add(1);
    }

    /// Counts one gap.
    pub fn bump_gaps(&mut self)
        ensures
            *final(self) == (SourceMetrics { gaps: wrapped_add(old(self).gaps, 1), ..*old(self) }),
    {
        self.gaps = self.gaps.wrapping_add(1);
    }

    /// Counts one decode error.
    pub fn bump_decode_err(&mut self)
        ensures
            *final(self) == (SourceMetrics { decode_err: wrapped_add(old(self).decode_err, 1), ..*old(self) }),
    {
        self.decode_err = self.decode_err.wrapping_add(1);
    }
}

impl Default for SourceMetrics {
    fn default() -> (m: SourceMetrics)
        ensures
            m == (SourceMetrics { msgs: 0, dropped_frames: 0, gaps: 0, decode_err: 0 }),
    {
        SourceMetrics::new()
    }
}

} // verus!
verus! {

/// How a venue's book is reconstructed from its stream.
#[derive(Debug, Clone, Copy, PartialEq, Eq, Structural)]
pub enum ReconstructionModel {
    /// Every book message replaces the whole book.
    FullRefresh,
    /// Deltas chained by sequence numbers, seeded by a snapshot.
    SeqDelta,
    /// Deltas checked by a book checksum.
    ChecksumDelta,
    /// Order-by-order (level 3) updates.
    L3,
}

/// At most `max` actions per `per_secs` seconds.
#[derive(Debug, Clone, Copy, PartialEq, Eq, Structural)]
pub struct RateWindow {
    pub max: u32,
    pub per_secs: u64,
}

/// What a venue allows a collector in connections and subscriptions.
#[derive(Debug, Clone, PartialEq, Eq)]
pub struct ConnectionBudget {
    pub max_connections: Option<u32>,
    pub max_streams_per_socket: Option<u32>,
    pub subscribe_rate: Vec<RateWindow>,
    pub connect_attempt_rate: Option<RateWindow>,
    pub connection_lifetime_secs: Option<u64>,
}

impl Default for ConnectionBudget {
    /// No limits.
    fn default() -> (b: ConnectionBudget)
        ensures
            b.max_connections is None,
            b.max_streams_per_socket is None,
            b.subscribe_rate@.len() == 0,
            b.connect_attempt_rate is None,
            b.connection_lifetime_secs is None,
    {
        ConnectionBudget {
            max_connections: None,
            max_streams_per_socket: None,
            subscribe_rate: Vec::new(),
            connect_attempt_rate: None,
            connection_lifetime_secs: None,
        }
    }
}

/// A venue's identity and limits.
#[derive(Debug, Clone, PartialEq, Eq)]
pub struct ExchangeProfile {
    pub id: &'static str,
    pub symbol_codec: SymbolCodec,
    pub budget: ConnectionBudget,
    pub schema_version: u32,
    pub protocol_revision: &'static str,
}

/// A keep-alive a collector sends on its own.
#[derive(Debug, Clone, PartialEq, Eq)]
pub enum Heartbeat {
    /// A text frame `payload` every `every_secs` seconds.
    Text { every_secs: u64, payload: String },
}

} // verus!
