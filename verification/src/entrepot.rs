//! Replay of Hyperliquid's hourly `l2Book` archive: the object keys of a
//! window of days, and the replay that turns fetched objects into events.

use vstd::prelude::*;

use crate::calendar::{lemma_next_ymd, lemma_next_ymd_exists, next_ymd, valid_ymd, ymd_key, ymd_text, CalendarDate, MAX_YEAR};
use crate::hyperliquid::{decoded, normalized_with_all, texts, HyperliquidAdapter, HyperliquidWssEvent};
use crate::hyperliquid::hyperliquid_codec;
use crate::model::{
    wrapped_add, ConnectionBudget, DeclaredDatatype, DomainEvent, ExchangeError, ExchangeProfile, ReconstructionModel,
    SourceMetrics, SymbolCodec,
};
use crate::store::{is_absent, object_absent, EntrepotError};
use crate::text::{decimal_text, lines_of, push_str, split_lines, u64_to_text};

verus! {

/// A window of whole days (both ends included) and the coins to replay.
#[derive(Debug, Clone)]
pub struct EntrepotWindow {
    pub start: CalendarDate,
    pub end: CalendarDate,
    pub coins: Vec<String>,
}

/// The archive key of one coin's book for one hour of one day, e.g.
/// `market_data/20260805/9/l2Book/BTC.lz4` (the hour is not padded).
pub open spec fn key_text(day: Seq<char>, hour: nat, coin: Seq<char>) -> Seq<char> {
    "market_data/"@ + day + "/"@ + decimal_text(hour) + "/l2Book/"@ + coin + ".lz4"@
}

/// The keys of the first `hours` hours of a day, hour by hour, coins in order.
pub open spec fn hour_keys(day: Seq<char>, hours: nat, coins: Seq<Seq<char>>) -> Seq<Seq<char>>
    decreases hours,
{
    if hours == 0 {
        Seq::empty()
    } else {
        hour_keys(day, (hours - 1) as nat, coins) + coins.map_values(|c: Seq<char>| key_text(day, (hours - 1) as nat, c))
    }
}

/// The days from (y, m, d) up to the day with order key `end_key`, in order.
pub open spec fn window_days(y: int, m: int, d: int, end_key: int) -> Seq<(int, int, int)>
    decreases end_key - ymd_key(y, m, d),
{
    if ymd_key(y, m, d) > end_key {
        Seq::empty()
    } else {
        match next_ymd(y, m, d) {
            None => seq![(y, m, d)],
            Some(n) => {
                proof { lemma_next_ymd(y, m, d); }
                if ymd_key(n.0, n.1, n.2) > end_key {
                    seq![(y, m, d)]
                } else {
                    seq![(y, m, d)] + window_days(n.0, n.1, n.2, end_key)
                }
            },
        }
    }
}

/// The keys of a list of days: day by day, 24 hours each.
pub open spec fn keys_for_days(days: Seq<(int, int, int)>, coins: Seq<Seq<char>>) -> Seq<Seq<char>>
    decreases days.len(),
{
    if days.len() == 0 {
        Seq::empty()
    } else {
        hour_keys(ymd_text(days[0].0, days[0].1, days[0].2), 24, coins) + keys_for_days(days.drop_first(), coins)
    }
}

/// The archive keys of a window: for each day from start to end, for each
/// hour 0 to 23, for each coin.
pub open spec fn window_keys(w: EntrepotWindow) -> Seq<Seq<char>> {
    keys_for_days(window_days(w.start.y(), w.start.m(), w.start.d(), w.end.key()), texts(w.coins@))
}

/// One key.
fn archive_key(day: &String, hour: u64, coin: &String) -> (k: String)
    ensures
        k@ == key_text(day@, hour as nat, coin@),
{
    let mut k = String::from_str("market_data/");
    push_str(&mut k, day.as_str());
    push_str(&mut k, "/");
    let h = u64_to_text(hour);
    push_str(&mut k, h.as_str());
    push_str(&mut k, "/l2Book/");
    push_str(&mut k, coin.as_str());
    push_str(&mut k, ".lz4");
    k
}

/// The archive keys of a window (see [`window_keys`]). The window's end must
/// come before chrono's last representable date, which has no next day.
pub fn hyperliquid_l2book_keys(window: &EntrepotWindow) -> (keys: Vec<String>)
    requires
        window.end.key() < ymd_key(MAX_YEAR as int, 12, 31),
    ensures
        texts(keys@) == window_keys(*window),
{
    let coins = &window.coins;
    let ghost cv = texts(coins@);
    let ghost end_key = window.end.key();
    let ghost all = window_keys(*window);
    let mut keys: Vec<String> = Vec::new();
    let mut date = window.start;
    let _ = window.start.le(&window.end);
    while date.le(&window.end)
        invariant
            cv == texts(coins@),
            end_key == window.end.key(),
            end_key < ymd_key(MAX_YEAR as int, 12, 31),
            all == window_keys(*window),
            valid_ymd(date.y(), date.m(), date.d()),
            texts(keys@) + keys_for_days(window_days(date.y(), date.m(), date.d(), end_key), cv) == all,
        decreases if date.key() <= end_key { end_key - date.key() + 1 } else { 0 },
    {
        let day = date.ymd_text();
        let ghost before = texts(keys@);
        let mut hour: u64 = 0;
        while hour < 24
            invariant
                hour <= 24,
                cv == texts(coins@),
                texts(keys@) == before + hour_keys(day@, hour as nat, cv),
            decreases 24 - hour,
        {
            let ghost at_hour = texts(keys@);
            let mut c: usize = 0;
            while c < coins.len()
                invariant
                    hour < 24,
                    c <= coins@.len(),
                    cv == texts(coins@),
                    texts(keys@) == at_hour + cv.take(c as int).map_values(|x: Seq<char>| key_text(day@, hour as nat, x)),
                decreases coins@.len() - c,
            {
                let k = archive_key(&day, hour, &coins[c]);
                let ghost prev = texts(keys@);
                let ghost kv = k@;
                keys.push(k);
                assert(texts(keys@) =~= prev.push(kv));
                assert(cv.take(c + 1) =~= cv.take(c as int).push(cv[c as int]));
                assert(texts(keys@) =~= at_hour + cv.take(c + 1).map_values(|x: Seq<char>| key_text(day@, hour as nat, x)));
                c += 1;
            }
            assert(cv.take(coins@.len() as int) =~= cv);
            assert(texts(keys@) =~= before + hour_keys(day@, (hour + 1) as nat, cv));
            hour += 1;
        }
        proof {
            lemma_next_ymd_exists(date.y(), date.m(), date.d());
            lemma_next_ymd(date.y(), date.m(), date.d());
        }
        let next = date.succ_opt();
        let ghost days = window_days(date.y(), date.m(), date.d(), end_key);
        match next {
            Some(n) => {
                proof {
                    let rest = window_days(n.y(), n.m(), n.d(), end_key);
                    if n.key() > end_key {
                        assert(days =~= seq![(date.y(), date.m(), date.d())]);
                        assert(rest =~= Seq::<(int, int, int)>::empty());
                        assert(days.drop_first() =~= rest);
                    } else {
                        assert(days =~= seq![(date.y(), date.m(), date.d())] + rest);
                        assert(days.drop_first() =~= rest);
                    }
                    assert(keys_for_days(days, cv) == hour_keys(day@, 24, cv) + keys_for_days(rest, cv));
                    assert(texts(keys@) + keys_for_days(rest, cv) =~= all);
                }
                date = n;
            },
            None => {
                proof { assert(false); }
            },
        }
    }
    proof {
        let days = window_days(date.y(), date.m(), date.d(), end_key);
        assert(days =~= Seq::<(int, int, int)>::empty());
        assert(texts(keys@) =~= all);
    }
    keys
}

} // verus!
verus! {

/// Decodes one line of an archived object into events.
pub trait LineDecoder {
    /// Whether `r` is a possible outcome of decoding `line`.
    spec fn decodes(&self, line: Seq<char>, r: Result<Vec<DomainEvent>, ExchangeError>) -> bool;

    fn decode_line(&self, line: &str) -> (r: Result<Vec<DomainEvent>, ExchangeError>)
        ensures
            self.decodes(line@, r);
}

/// Lines of the Hyperliquid archive are websocket frames, replayed as such.
pub struct HyperliquidEnvelopeLines;

/// What replaying a recorded Hyperliquid frame gives (see
/// [`HyperliquidAdapter::replay_frame`]).
pub open spec fn frame_replayed(line: Seq<char>, r: Result<Vec<DomainEvent>, ExchangeError>) -> bool {
    &&& (r is Err <==> exists|x: ExchangeError| #[trigger] decoded(line, Err(x)))
    &&& r matches Ok(evs) ==> (decoded(line, Ok(None)) && evs@.len() == 0)
        || exists|e: HyperliquidWssEvent| #[trigger] decoded(line, Ok(Some(e))) && normalized_with_all(e, evs@)
}

impl LineDecoder for HyperliquidEnvelopeLines {
    open spec fn decodes(&self, line: Seq<char>, r: Result<Vec<DomainEvent>, ExchangeError>) -> bool {
        frame_replayed(line, r)
    }

    fn decode_line(&self, line: &str) -> (r: Result<Vec<DomainEvent>, ExchangeError>) {
        HyperliquidAdapter.replay_frame(line)
    }
}

/// How a collector task ended.
#[derive(Debug, Clone, PartialEq, Eq)]
pub enum TaskExit {
    /// Asked to stop, or nobody listens any more.
    Completed,
    /// Every object was replayed.
    Exhausted,
    /// The task failed: a fetch failed for another reason than absence, or
    /// the connection was lost; the error says how.
    Failed(EntrepotError),
}

/// What the replay wants done next.
#[derive(Debug, Clone, PartialEq, Eq)]
pub enum ReplayStep {
    /// Fetch the object with this key and report back.
    Fetch(String),
    /// Stop with this exit.
    Finish(TaskExit),
}

/// The events of one decoded line, stamped with the local time `now_us`, no
/// round trip, and receive sequence numbers following `base`.
pub open spec fn stamped_events(evs: Seq<DomainEvent>, now_us: u64, base: u64) -> Seq<DomainEvent> {
    Seq::new(evs.len(), |i: int| evs[i].stamped(now_us, 0, wrapped_add(base, (i + 1) as u64)))
}

/// The progress of replaying a list of archive objects, key by key.
pub struct EntrepotReplay {
    keys: Vec<String>,
    next: usize,
    recv_seq: u64,
    metrics: SourceMetrics,
}

impl EntrepotReplay {
    pub closed spec fn key_list(self) -> Seq<String> {
        self.keys@
    }

    pub closed spec fn position(self) -> int {
        self.next as int
    }

    pub closed spec fn last_seq(self) -> u64 {
        self.recv_seq
    }

    pub closed spec fn counts(self) -> SourceMetrics {
        self.metrics
    }

    /// The counters so far.
    pub fn metrics(&self) -> (m: SourceMetrics)
        ensures
            m == self.counts(),
    {
        self.metrics
    }

    /// A replay of `keys` from the first, with nothing counted yet.
    pub fn new(keys: Vec<String>) -> (r: EntrepotReplay)
        ensures
            r.key_list() == keys@,
            r.position() == 0,
            r.last_seq() == 0,
            r.counts() == (SourceMetrics { msgs: 0, dropped_frames: 0, gaps: 0, decode_err: 0 }),
    {
        EntrepotReplay { keys, next: 0, recv_seq: 0, metrics: SourceMetrics::new() }
    }

    /// The next step: stop as completed when shutdown was asked, fetch the
    /// next key while there is one, stop as exhausted after the last.
    pub fn next_step(&mut self, shutdown: bool) -> (s: ReplayStep)
        requires
            0 <= old(self).position() <= old(self).key_list().len(),
        ensures
            final(self).key_list() == old(self).key_list(),
            final(self).last_seq() == old(self).last_seq(),
            final(self).counts() == old(self).counts(),
            0 <= final(self).position() <= final(self).key_list().len(),
            shutdown ==> s == ReplayStep::Finish(TaskExit::Completed) && final(self).position() == old(self).position(),
            !shutdown && old(self).position() < old(self).key_list().len() ==>
                s == ReplayStep::Fetch(old(self).key_list()[old(self).position()])
                && final(self).position() == old(self).position() + 1,
            !shutdown && old(self).position() == old(self).key_list().len() ==>
                s == ReplayStep::Finish(TaskExit::Exhausted) && final(self).position() == old(self).position(),
    {
        if shutdown {
            return ReplayStep::Finish(TaskExit::Completed);
        }
        if self.next < self.keys.len() {
            let k = self.keys[self.next].clone();
            self.next = self.next + 1;
            ReplayStep::Fetch(k)
        } else {
            ReplayStep::Finish(TaskExit::Exhausted)
        }
    }

    /// The fetch of the current object failed: an absent object counts as a
    /// gap and the replay goes on; any other failure ends it, carrying the error.
    pub fn fetch_failed(&mut self, err: EntrepotError) -> (exit: Option<TaskExit>)
        ensures
            final(self).key_list() == old(self).key_list(),
            final(self).position() == old(self).position(),
            final(self).last_seq() == old(self).last_seq(),
            is_absent(err) ==> exit is None && final(self).counts() == (SourceMetrics {
                gaps: wrapped_add(old(self).counts().gaps, 1),
                ..old(self).counts()
            }),
            !is_absent(err) ==> exit == Some(TaskExit::Failed(err)) && final(self).counts() == old(self).counts(),
    {
        if object_absent(&err) {
            self.metrics.bump_gaps();
            None
        } else {
            Some(TaskExit::Failed(err))
        }
    }

    /// The current object's payload could not be decoded: counted, and the
    /// replay goes on.
    pub fn payload_undecodable(&mut self)
        ensures
            final(self).key_list() == old(self).key_list(),
            final(self).position() == old(self).position(),
            final(self).last_seq() == old(self).last_seq(),
            final(self).counts() == (SourceMetrics {
                decode_err: wrapped_add(old(self).counts().decode_err, 1),
                ..old(self).counts()
            }),
    {
        self.metrics.bump_decode_err();
    }

    /// Decodes one line of the current object. Its events are stamped with
    /// `now_us` and the next receive sequence numbers, and counted as
    /// messages; an undecodable line yields nothing and counts as a decode
    /// error.
    #[verifier::rlimit(40)]
    #[verifier::spinoff_prover]
    pub fn replay_line<D: LineDecoder>(&mut self, decoder: &D, line: &str, now_us: u64) -> (evs: Vec<DomainEvent>)
        ensures
            final(self).key_list() == old(self).key_list(),
            final(self).position() == old(self).position(),
            exists|r: Result<Vec<DomainEvent>, ExchangeError>| #[trigger] decoder.decodes(line@, r) && match r {
                Ok(got) => {
                    &&& evs@ == stamped_events(got@, now_us, old(self).last_seq())
                    &&& evs@.len() == got@.len()
                    &&& forall|i: int| 0 <= i < got@.len() ==> #[trigger] evs@[i]
                        == got@[i].stamped(now_us, 0, wrapped_add(old(self).last_seq(), (i + 1) as u64))
                    &&& final(self).last_seq() == wrapped_add(old(self).last_seq(), got@.len() as u64)
                    &&& final(self).counts() == (SourceMetrics {
                        msgs: wrapped_add(old(self).counts().msgs, got@.len() as u64),
                        ..old(self).counts()
                    })
                },
                Err(_) => {
                    &&& evs@.len() == 0
                    &&& final(self).last_seq() == old(self).last_seq()
                    &&& final(self).counts() == (SourceMetrics {
                        decode_err: wrapped_add(old(self).counts().decode_err, 1),
                        ..old(self).counts()
                    })
                },
            },
    {
        let r = decoder.decode_line(line);
        let ghost rr = r;
        match r {
            Ok(got) => {
                let ghost g = got@;
                let ghost base = self.recv_seq;
                let ghost m0 = self.metrics;
                let mut out: Vec<DomainEvent> = Vec::new();
                let mut got = got;
                let mut rest: Vec<DomainEvent> = Vec::new();
                while got.len() > 0
                    invariant
                        got@ + rest@.reverse() == g,
                    decreases got.len(),
                {
                    let e = got.pop().unwrap();
                    rest.push(e);
                    assert(got@ + rest@.reverse() =~= g);
                }
                let n = rest.len();
                assert(rest@.reverse() =~= g);
                let mut i: usize = 0;
                while i < n
                    invariant
                        i <= n,
                        n == g.len(),
                        rest@.len() == n - i,
                        forall|j: int| 0 <= j < n - i ==> #[trigger] rest@[j] == g[n - 1 - j],
                        out@ == stamped_events(g.take(i as int), now_us, base),
                        self.recv_seq == wrapped_add(base, i as u64),
                        self.metrics == (SourceMetrics { msgs: wrapped_add(m0.msgs, i as u64), ..m0 }),
                        self.keys == old(self).keys,
                        self.next == old(self).next,
                    decreases n - i,
                {
                    let mut e = rest.pop().unwrap();
                    assert(e == g[i as int]);
                    self.recv_seq = self.recv_seq.wrapping_add(1);
                    e.stamp_local(now_us, 0, self.recv_seq);
                    self.metrics.bump_msgs();
                    out.push(e);
                    assert(wrapped_add(wrapped_add(base, i as u64), 1) == wrapped_add(base, (i + 1) as u64));
                    assert(wrapped_add(wrapped_add(m0.msgs, i as u64), 1) == wrapped_add(m0.msgs, (i + 1) as u64));
                    assert(out@ =~= stamped_events(g.take(i + 1), now_us, base));
                    i += 1;
                }
                assert(g.take(n as int) =~= g);
                out
            },
            Err(_) => {
                self.metrics.bump_decode_err();
                Vec::new()
            },
        }
    }
}

} // verus!
verus! {

/// Copies a list of strings.
fn clone_strings(v: &Vec<String>) -> (r: Vec<String>)
    ensures
        r@ == v@,
{
    let mut r: Vec<String> = Vec::new();
    let mut i: usize = 0;
    while i < v.len()
        invariant
            i <= v.len(),
            r@ == v@.take(i as int),
        decreases v.len() - i,
    {
        r.push(v[i].clone());
        assert(r@ =~= v@.take(i + 1));
        i += 1;
    }
    assert(v@.take(v.len() as int) =~= v@);
    r
}

/// Replays Hyperliquid's `l2Book` archive for a window, decoding each line
/// with `decoder`.
pub struct HyperliquidEntrepotAdapter<D: LineDecoder> {
    keys: Vec<String>,
    decoder: D,
}

impl HyperliquidEntrepotAdapter<HyperliquidEnvelopeLines> {
    /// The adapter for a window, decoding lines as websocket frames.
    pub fn new(window: &EntrepotWindow) -> (a: HyperliquidEntrepotAdapter<HyperliquidEnvelopeLines>)
        requires
            window.end.key() < ymd_key(MAX_YEAR as int, 12, 31),
        ensures
            texts(a.key_list()) == window_keys(*window),
    {
        HyperliquidEntrepotAdapter { keys: hyperliquid_l2book_keys(window), decoder: HyperliquidEnvelopeLines }
    }
}

impl<D: LineDecoder> HyperliquidEntrepotAdapter<D> {
    pub closed spec fn key_list(self) -> Seq<String> {
        self.keys@
    }

    pub closed spec fn line_decoder(self) -> D {
        self.decoder
    }

    /// The same adapter with another line decoder.
    pub fn with_decoder<E: LineDecoder>(self, decoder: E) -> (a: HyperliquidEntrepotAdapter<E>)
        ensures
            a.key_list() == self.key_list(),
            a.line_decoder() == decoder,
    {
        HyperliquidEntrepotAdapter { keys: self.keys, decoder }
    }

    /// The keys it replays, in order.
    pub fn keys(&self) -> (k: &Vec<String>)
        ensures
            k@ == self.key_list(),
    {
        &self.keys
    }

    /// Its line decoder.
    pub fn decoder(&self) -> (d: &D)
        ensures
            *d == self.line_decoder(),
    {
        &self.decoder
    }

    /// A fresh replay of its keys.
    pub fn replay(&self) -> (r: EntrepotReplay)
        ensures
            r.key_list() == self.key_list(),
            r.position() == 0,
            r.last_seq() == 0,
            r.counts() == (SourceMetrics { msgs: 0, dropped_frames: 0, gaps: 0, decode_err: 0 }),
    {
        EntrepotReplay::new(clone_strings(&self.keys))
    }

    /// The venue id, `hyperliquid`.
    pub fn id(&self) -> (s: &'static str)
        ensures
            s@ == "hyperliquid"@,
    {
        "hyperliquid"
    }

    /// The archive's profile: bare-coin symbols quoted in USDC, no
    /// connection budget, schema 1.
    pub fn profile(&self) -> (p: ExchangeProfile)
        ensures
            p.id@ == "hyperliquid"@,
            p.symbol_codec == (SymbolCodec::BareCoin { quote: "USDC" }),
            p.budget.max_connections is None,
            p.budget.max_streams_per_socket is None,
            p.budget.subscribe_rate@.len() == 0,
            p.budget.connect_attempt_rate is None,
            p.budget.connection_lifetime_secs is None,
            p.schema_version == 1,
            p.protocol_revision@ == "hyperliquid-entrepot-v0"@,
    {
        ExchangeProfile {
            id: "hyperliquid",
            symbol_codec: hyperliquid_codec(),
            budget: ConnectionBudget::default(),
            schema_version: 1,
            protocol_revision: "hyperliquid-entrepot-v0",
        }
    }

    /// Archived books are full refreshes.
    pub fn book_model(&self, channel: &str) -> (m: ReconstructionModel)
        ensures
            m == ReconstructionModel::FullRefresh,
    {
        ReconstructionModel::FullRefresh
    }

    /// Books, trades, funding rates and open interest.
    pub fn supported_datatypes(&self) -> (v: Vec<DeclaredDatatype>)
        ensures
            v@ == seq![DeclaredDatatype::Orderbook, DeclaredDatatype::Trades,
                DeclaredDatatype::FundingRates, DeclaredDatatype::OpenInterest],
    {
        HyperliquidAdapter.supported_datatypes()
    }

    /// The archive carries full books: no depth limit.
    pub fn max_declared_depth(&self) -> (d: Option<usize>)
        ensures
            d is None,
    {
        None
    }
}

/// The archive adapter of a venue: only Hyperliquid has one.
pub fn build_entrepot_adapter(venue: &str, window: &EntrepotWindow) -> (r: Option<HyperliquidEntrepotAdapter<HyperliquidEnvelopeLines>>)
    requires
        window.end.key() < ymd_key(MAX_YEAR as int, 12, 31),
    ensures
        r is Some <==> venue@ == "hyperliquid"@,
        r matches Some(a) ==> texts(a.key_list()) == window_keys(*window),
{
    if String::from_str(venue) == String::from_str("hyperliquid") {
        Some(HyperliquidEntrepotAdapter::new(window))
    } else {
        None
    }
}

} // verus!
verus! {

/// A day has 24 hours of keys, one per coin.
pub proof fn lemma_hour_keys_len(day: Seq<char>, hours: nat, coins: Seq<Seq<char>>)
    ensures
        hour_keys(day, hours, coins).len() == hours * coins.len(),
    decreases hours,
{
    let n = coins.len();
    if hours > 0 {
        let h1 = (hours - 1) as nat;
        lemma_hour_keys_len(day, h1, coins);
        let row = coins.map_values(|c: Seq<char>| key_text(day, h1, c));
        assert(row.len() == n);
        assert(hour_keys(day, hours, coins) == hour_keys(day, h1, coins) + row);
        assert(h1 * n + n == hours * n) by (nonlinear_arith)
            requires
                h1 + 1 == hours,
        ;
    } else {
        assert(hours * n == 0) by (nonlinear_arith)
            requires
                hours == 0,
        ;
    }
}

/// A window has 24 keys per day and coin.
pub proof fn lemma_keys_for_days_len(days: Seq<(int, int, int)>, coins: Seq<Seq<char>>)
    ensures
        keys_for_days(days, coins).len() == days.len() * 24 * coins.len(),
    decreases days.len(),
{
    let n = coins.len();
    let d = days.len();
    if d > 0 {
        lemma_keys_for_days_len(days.drop_first(), coins);
        lemma_hour_keys_len(ymd_text(days[0].0, days[0].1, days[0].2), 24, coins);
        assert(days.drop_first().len() == d - 1);
        assert(24 * n + (d - 1) * 24 * n == d * 24 * n) by (nonlinear_arith);
    } else {
        assert(d * 24 * n == 0) by (nonlinear_arith)
            requires
                d == 0,
        ;
    }
}

/// The number of archive keys of a window: 24 per day and coin.
pub proof fn lemma_window_keys_len(w: EntrepotWindow)
    ensures
        window_keys(w).len()
            == window_days(w.start.y(), w.start.m(), w.start.d(), w.end.key()).len() * 24 * w.coins@.len(),
{
    lemma_keys_for_days_len(window_days(w.start.y(), w.start.m(), w.start.d(), w.end.key()), texts(w.coins@));
}

} // verus!
verus! {

/// What `lz4_flex`'s frame decoder reads from the bytes of an object: the
/// decompressed bytes, or `None` where the frame is malformed.
pub uninterp spec fn lz4_frame_decoded(bytes: Seq<u8>) -> Option<Seq<u8>>;

/// Decompresses an LZ4 frame with `lz4_flex::frame::FrameDecoder` read to
/// its end; `None` where the decoder reports an error. The outcome is the
/// name `lz4_frame_decoded`.
#[verifier::external_body]
fn lz4_frame_decode(bytes: &[u8]) -> (r: Option<Vec<u8>>)
    ensures
        r is Some <==> lz4_frame_decoded(bytes@) is Some,
        r matches Some(v) ==> lz4_frame_decoded(bytes@) == Some(v@),
{
    let mut out = Vec::new();
    let mut decoder = lz4_flex::frame::FrameDecoder::new(bytes);
    match std::io::Read::read_to_end(&mut decoder, &mut out) {
        Ok(_) => Some(out),
        Err(_) => None,
    }
}

/// `String::from_utf8`: the text the bytes encode, or `None` where they are
/// not valid UTF-8.
#[verifier::external_body]
fn string_from_utf8(bytes: Vec<u8>) -> (r: Option<String>)
    ensures
        r is Some <==> vstd::utf8::valid_utf8(bytes@),
        r matches Some(s) ==> s@ == vstd::utf8::decode_utf8(bytes@),
{
    match String::from_utf8(bytes) {
        Ok(s) => Some(s),
        Err(_) => None,
    }
}

/// The lines of a decompressed payload: its UTF-8 text split as
/// `str::lines` does; `None` where it is not UTF-8.
pub open spec fn payload_lines_of(raw: Seq<u8>) -> Option<Seq<Seq<char>>> {
    if vstd::utf8::valid_utf8(raw) {
        Some(lines_of(vstd::utf8::decode_utf8(raw)))
    } else {
        None
    }
}

/// The lines of an archived object: its LZ4 frame decompressed, then read
/// as UTF-8 lines; `None` where either step fails.
pub open spec fn object_lines_of(bytes: Seq<u8>) -> Option<Seq<Seq<char>>> {
    match lz4_frame_decoded(bytes) {
        Some(raw) => payload_lines_of(raw),
        None => None,
    }
}

/// Splits a decompressed payload into its text lines (see [`payload_lines_of`]).
pub fn payload_lines(raw: Vec<u8>) -> (r: Option<Vec<String>>)
    ensures
        match payload_lines_of(raw@) {
            None => r is None,
            Some(lines) => r matches Some(v) && texts(v@) == lines,
        },
{
    match string_from_utf8(raw) {
        Some(text) => {
            let lines = split_lines(text.as_str());
            assert(texts(lines@) =~= lines@.map_values(|l: String| l@));
            Some(lines)
        },
        None => None,
    }
}

/// The text lines of an archived object (see [`object_lines_of`]): a
/// malformed frame or a payload that is not UTF-8 gives `None`.
pub fn object_lines(bytes: &[u8]) -> (r: Option<Vec<String>>)
    ensures
        match object_lines_of(bytes@) {
            None => r is None,
            Some(lines) => r matches Some(v) && texts(v@) == lines,
        },
{
    match lz4_frame_decode(bytes) {
        Some(raw) => payload_lines(raw),
        None => None,
    }
}

} // verus!
