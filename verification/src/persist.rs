//! Persistence helpers: update statistics, the columnar layout of funding
//! and open-interest records and their reading back, the names of
//! timestamped output files, and the plan and report of a snapshot flush.

use vstd::prelude::*;

use crate::decimal::Dec;
use crate::model::{
    canonical, is_canonical_text, pair_parts_ok, FundingRate, OpenInterest, TradingPair,
};
use crate::text::{decimal_text, push_str, string_of_range, u64_to_text};

verus! {

/// What applying one order-book update did.
#[derive(Debug, Clone, Copy, PartialEq, Eq, Structural)]
pub struct OrderbookUpdate {
    /// The update replaced the whole book.
    pub was_reset: bool,
    pub levels_inserted: usize,
    pub levels_deleted: usize,
}

/// Counters of applied order-book updates.
#[derive(Debug, Clone, Copy, PartialEq, Eq, Structural)]
pub struct Stats {
    pub total_updates: u64,
    pub snapshots: u64,
    pub deltas: u64,
    pub inserts: u64,
    pub deletes: u64,
    pub errors: u64,
}

impl Stats {
    /// Every update is either a snapshot or a delta.
    pub open spec fn consistent(self) -> bool {
        self.total_updates == self.snapshots + self.deltas
    }

    /// All counters at zero.
    pub fn new() -> (s: Stats)
        ensures
            s == (Stats { total_updates: 0, snapshots: 0, deltas: 0, inserts: 0, deletes: 0, errors: 0 }),
            s.consistent(),
    {
        Stats { total_updates: 0, snapshots: 0, deltas: 0, inserts: 0, deletes: 0, errors: 0 }
    }

    /// Counts one update: a snapshot when it reset the book, a delta
    /// otherwise, and the levels it inserted and deleted.
    pub fn record_update(&mut self, update: &OrderbookUpdate)
        requires
            old(self).total_updates < u64::MAX,
            old(self).snapshots < u64::MAX,
            old(self).deltas < u64::MAX,
            old(self).inserts + update.levels_inserted <= u64::MAX,
            old(self).deletes + update.levels_deleted <= u64::MAX,
        ensures
            final(self).total_updates == old(self).total_updates + 1,
            final(self).snapshots == old(self).snapshots + (if update.was_reset { 1int } else { 0 }),
            final(self).deltas == old(self).deltas + (if update.was_reset { 0int } else { 1 }),
            final(self).inserts == old(self).inserts + update.levels_inserted,
            final(self).deletes == old(self).deletes + update.levels_deleted,
            final(self).errors == old(self).errors,
            old(self).consistent() ==> final(self).consistent(),
    {
        self.total_updates += 1;
        if update.was_reset {
            self.snapshots += 1;
        } else {
            self.deltas += 1;
        }
        self.inserts += update.levels_inserted as u64;
        self.deletes += update.levels_deleted as u64;
    }
}

impl Default for Stats {
    fn default() -> (s: Stats)
        ensures
            s == (Stats { total_updates: 0, snapshots: 0, deltas: 0, inserts: 0, deletes: 0, errors: 0 }),
    {
        Stats::new()
    }
}

/// Why records could not be persisted or read back.
#[derive(Debug, Clone, PartialEq, Eq)]
pub enum PersistError {
    /// A file's content could not be read as records; the text says where
    /// and why (see [`malformed_symbol_text`]).
    Parse(String),
    /// The file system failed.
    Io(String),
    /// The file format failed.
    Format(String),
}

/// The message for row `row` of `file` holding the symbol `symbol`, which
/// is not a canonical pair: `row {row}: malformed symbol '{symbol}' in {file}`.
pub open spec fn malformed_symbol_text(row: nat, symbol: Seq<char>, file: Seq<char>) -> Seq<char> {
    "row "@ + decimal_text(row) + ": malformed symbol '"@ + symbol + "' in "@ + file
}

/// Builds the message of [`malformed_symbol_text`].
pub fn malformed_symbol(row: usize, symbol: &str, file: &str) -> (e: PersistError)
    ensures
        e matches PersistError::Parse(m) && m@ == malformed_symbol_text(row as nat, symbol@, file@),
{
    let mut m = String::from_str("row ");
    let digits = u64_to_text(row as u64);
    push_str(&mut m, digits.as_str());
    push_str(&mut m, ": malformed symbol '");
    push_str(&mut m, symbol);
    push_str(&mut m, "' in ");
    push_str(&mut m, file);
    PersistError::Parse(m)
}

/// Whether a funding file carries the columns added in later versions
/// (local stamps, receive sequence, connection epoch, premium, interval):
/// files with at least ten columns do; older files have the first five only.
pub fn funding_file_has_extras(num_columns: usize) -> (b: bool)
    ensures
        b == (num_columns >= 10),
{
    num_columns >= 10
}

/// `s` with every `/` replaced by `-`, for file names.
pub open spec fn dashed(s: Seq<char>) -> Seq<char> {
    s.map_values(|c: char| if c == '/' { '-' } else { c })
}

/// `str::replace('/', "-")`.
pub fn replace_slashes(s: &str) -> (r: String)
    ensures
        r@ == dashed(s@),
{
    let v = crate::text::chars_of(s);
    let mut r = String::new();
    let mut i: usize = 0;
    while i < v.len()
        invariant
            i <= v.len(),
            r@ == dashed(v@.take(i as int)),
        decreases v.len() - i,
    {
        let c = if v[i] == '/' { '-' } else { v[i] };
        crate::text::push_char(&mut r, c);
        assert(dashed(v@.take(i + 1)) =~= dashed(v@.take(i as int)).push(c));
        i += 1;
    }
    assert(v@.take(v.len() as int) =~= v@);
    r
}

/// The name of a timestamped output file:
/// `{exchange}_{symbol}_{kind}_{mode}_{file_ts}.parquet`, the symbol with its
/// `/` made `-`.
pub open spec fn output_file_name(exchange: Seq<char>, symbol: Seq<char>, kind: Seq<char>, mode: Seq<char>, file_ts: Seq<char>) -> Seq<char> {
    exchange + "_"@ + dashed(symbol) + "_"@ + kind + "_"@ + mode + "_"@ + file_ts + ".parquet"@
}

/// Builds the name of a timestamped output file.
pub fn output_filename(exchange: &str, symbol: &str, kind: &str, mode: &str, file_ts: &str) -> (name: String)
    ensures
        name@ == output_file_name(exchange@, symbol@, kind@, mode@, file_ts@),
{
    let mut name = String::from_str(exchange);
    push_str(&mut name, "_");
    let s = replace_slashes(symbol);
    push_str(&mut name, s.as_str());
    push_str(&mut name, "_");
    push_str(&mut name, kind);
    push_str(&mut name, "_");
    push_str(&mut name, mode);
    push_str(&mut name, "_");
    push_str(&mut name, file_ts);
    push_str(&mut name, ".parquet");
    name
}

/// The file name for funding records: named after the first record's
/// exchange and pair (`unknown` for both when there is none).
pub fn funding_file_name(rates: &Vec<FundingRate>, mode: &str, file_ts: &str) -> (name: String)
    ensures
        rates@.len() > 0 ==> name@ == output_file_name(rates@[0].exchange@,
            canonical(rates@[0].pair.base@, rates@[0].pair.quote@), "funding"@, mode@, file_ts@),
        rates@.len() == 0 ==> name@ == output_file_name("unknown"@, "unknown"@, "funding"@, mode@, file_ts@),
{
    if rates.len() > 0 {
        let symbol = rates[0].pair.to_canonical();
        output_filename(rates[0].exchange.as_str(), symbol.as_str(), "funding", mode, file_ts)
    } else {
        output_filename("unknown", "unknown", "funding", mode, file_ts)
    }
}

/// The file name for open-interest records, as for funding records.
pub fn oi_file_name(records: &Vec<OpenInterest>, mode: &str, file_ts: &str) -> (name: String)
    ensures
        records@.len() > 0 ==> name@ == output_file_name(records@[0].exchange@,
            canonical(records@[0].pair.base@, records@[0].pair.quote@), "oi"@, mode@, file_ts@),
        records@.len() == 0 ==> name@ == output_file_name("unknown"@, "unknown"@, "oi"@, mode@, file_ts@),
{
    if records.len() > 0 {
        let symbol = records[0].pair.to_canonical();
        output_filename(records[0].exchange.as_str(), symbol.as_str(), "oi", mode, file_ts)
    } else {
        output_filename("unknown", "unknown", "oi", mode, file_ts)
    }
}

} // verus!
verus! {

/// Funding records laid out column by column, as the Parquet writer stores
/// them (rates and premiums are converted to floats there).
#[derive(Debug)]
pub struct FundingColumns {
    pub funding_rate_ts_us: Vec<u64>,
    pub symbol: Vec<String>,
    pub funding_rate: Vec<Dec>,
    pub next_funding_ts_us: Vec<u64>,
    pub exchange: Vec<String>,
    pub local_funding_ts_us: Vec<u64>,
    pub recv_seq: Vec<u64>,
    pub conn_epoch: Vec<u32>,
    pub premium: Vec<Option<Dec>>,
    pub interval_hours: Vec<u32>,
}

/// Whether row `i` of the columns holds record `r`.
pub open spec fn funding_row_holds(c: FundingColumns, i: int, r: FundingRate) -> bool {
    &&& c.funding_rate_ts_us@[i] == r.funding_rate_ts_us
    &&& c.symbol@[i]@ == canonical(r.pair.base@, r.pair.quote@)
    &&& c.funding_rate@[i] == r.funding_rate
    &&& c.next_funding_ts_us@[i] == r.next_funding_ts_us
    &&& c.exchange@[i]@ == r.exchange@
    &&& c.local_funding_ts_us@[i] == r.local_funding_ts_us
    &&& c.recv_seq@[i] == r.recv_seq
    &&& c.conn_epoch@[i] == r.conn_epoch
    &&& c.premium@[i] == r.premium
    &&& c.interval_hours@[i] == r.interval_hours
}

/// Whether the columns hold exactly `rates`, in order.
pub open spec fn funding_columns_hold(c: FundingColumns, rates: Seq<FundingRate>) -> bool {
    &&& c.funding_rate_ts_us@.len() == rates.len()
    &&& c.symbol@.len() == rates.len()
    &&& c.funding_rate@.len() == rates.len()
    &&& c.next_funding_ts_us@.len() == rates.len()
    &&& c.exchange@.len() == rates.len()
    &&& c.local_funding_ts_us@.len() == rates.len()
    &&& c.recv_seq@.len() == rates.len()
    &&& c.conn_epoch@.len() == rates.len()
    &&& c.premium@.len() == rates.len()
    &&& c.interval_hours@.len() == rates.len()
    &&& forall|i: int| 0 <= i < rates.len() ==> #[trigger] funding_row_holds(c, i, rates[i])
}

/// Lays funding records out in columns.
pub fn funding_columns(rates: &Vec<FundingRate>) -> (c: FundingColumns)
    ensures
        funding_columns_hold(c, rates@),
{
    let mut c = FundingColumns {
        funding_rate_ts_us: Vec::new(),
        symbol: Vec::new(),
        funding_rate: Vec::new(),
        next_funding_ts_us: Vec::new(),
        exchange: Vec::new(),
        local_funding_ts_us: Vec::new(),
        recv_seq: Vec::new(),
        conn_epoch: Vec::new(),
        premium: Vec::new(),
        interval_hours: Vec::new(),
    };
    let mut i: usize = 0;
    while i < rates.len()
        invariant
            i <= rates.len(),
            funding_columns_hold(c, rates@.take(i as int)),
        decreases rates.len() - i,
    {
        let r = &rates[i];
        let ghost c0 = c;
        c.funding_rate_ts_us.push(r.funding_rate_ts_us);
        c.symbol.push(r.pair.to_canonical());
        c.funding_rate.push(r.funding_rate);
        c.next_funding_ts_us.push(r.next_funding_ts_us);
        c.exchange.push(r.exchange.clone());
        c.local_funding_ts_us.push(r.local_funding_ts_us);
        c.recv_seq.push(r.recv_seq);
        c.conn_epoch.push(r.conn_epoch);
        c.premium.push(r.premium);
        c.interval_hours.push(r.interval_hours);
        assert forall|k: int| 0 <= k < i + 1 implies #[trigger] funding_row_holds(c, k, rates@.take(i + 1)[k]) by {
            if k < i {
                assert(funding_row_holds(c0, k, rates@.take(i as int)[k]));
                assert(rates@.take(i + 1)[k] == rates@.take(i as int)[k]);
            }
        }
        i += 1;
    }
    assert(rates@.take(rates.len() as int) =~= rates@);
    c
}

/// The columns added in later versions of the funding file.
#[derive(Debug, Clone, Copy, PartialEq, Eq)]
pub struct FundingExtras {
    pub local_funding_ts_us: u64,
    pub recv_seq: u64,
    pub conn_epoch: u32,
    pub premium: Option<Dec>,
    pub interval_hours: u32,
}

/// One row of a funding file as read back; older files lack the extras.
#[derive(Debug)]
pub struct FundingRow {
    pub funding_rate_ts_us: u64,
    pub symbol: String,
    pub funding_rate: Dec,
    pub next_funding_ts_us: u64,
    pub exchange: String,
    pub extras: Option<FundingExtras>,
}

/// The extras a record takes from a row: the row's own, or, for older files,
/// no local stamps, no premium and an 8-hour interval.
pub open spec fn extras_or_default(e: Option<FundingExtras>) -> FundingExtras {
    match e {
        Some(x) => x,
        None => FundingExtras { local_funding_ts_us: 0, recv_seq: 0, conn_epoch: 0, premium: None, interval_hours: 8 },
    }
}

/// Whether `f` is the record read from `row`.
pub open spec fn funding_read_from(row: FundingRow, f: FundingRate) -> bool {
    let x = extras_or_default(row.extras);
    &&& f.funding_rate_ts_us == row.funding_rate_ts_us
    &&& canonical(f.pair.base@, f.pair.quote@) == row.symbol@
    &&& pair_parts_ok(f.pair.base@, f.pair.quote@)
    &&& f.funding_rate == row.funding_rate
    &&& f.next_funding_ts_us == row.next_funding_ts_us
    &&& f.exchange@ == row.exchange@
    &&& f.local_funding_ts_us == x.local_funding_ts_us
    &&& f.recv_seq == x.recv_seq
    &&& f.conn_epoch == x.conn_epoch
    &&& f.premium == x.premium
    &&& f.interval_hours == x.interval_hours
}

/// Row `i` of the columns, with its extras.
pub fn funding_row(c: &FundingColumns, i: usize) -> (row: FundingRow)
    requires
        i < c.funding_rate_ts_us@.len(),
        i < c.symbol@.len(),
        i < c.funding_rate@.len(),
        i < c.next_funding_ts_us@.len(),
        i < c.exchange@.len(),
        i < c.local_funding_ts_us@.len(),
        i < c.recv_seq@.len(),
        i < c.conn_epoch@.len(),
        i < c.premium@.len(),
        i < c.interval_hours@.len(),
    ensures
        row.funding_rate_ts_us == c.funding_rate_ts_us@[i as int],
        row.symbol@ == c.symbol@[i as int]@,
        row.funding_rate == c.funding_rate@[i as int],
        row.next_funding_ts_us == c.next_funding_ts_us@[i as int],
        row.exchange@ == c.exchange@[i as int]@,
        row.extras == Some((FundingExtras {
            local_funding_ts_us: c.local_funding_ts_us@[i as int],
            recv_seq: c.recv_seq@[i as int],
            conn_epoch: c.conn_epoch@[i as int],
            premium: c.premium@[i as int],
            interval_hours: c.interval_hours@[i as int],
        })),
{
    FundingRow {
        funding_rate_ts_us: c.funding_rate_ts_us[i],
        symbol: c.symbol[i].clone(),
        funding_rate: c.funding_rate[i],
        next_funding_ts_us: c.next_funding_ts_us[i],
        exchange: c.exchange[i].clone(),
        extras: Some(FundingExtras {
            local_funding_ts_us: c.local_funding_ts_us[i],
            recv_seq: c.recv_seq[i],
            conn_epoch: c.conn_epoch[i],
            premium: c.premium[i],
            interval_hours: c.interval_hours[i],
        }),
    }
}

/// Reads a funding record back from row `index` (counted within its record
/// batch) of the file `file`: the symbol must be a canonical pair.
pub fn funding_rate_from_row(row: FundingRow, index: usize, file: &str) -> (r: Result<FundingRate, PersistError>)
    ensures
        r is Ok <==> is_canonical_text(row.symbol@),
        r matches Ok(f) ==> funding_read_from(row, f),
        r matches Err(e) ==> e matches PersistError::Parse(m)
            && m@ == malformed_symbol_text(index as nat, row.symbol@, file@),
{
    let x = match row.extras {
        Some(x) => x,
        None => FundingExtras { local_funding_ts_us: 0, recv_seq: 0, conn_epoch: 0, premium: None, interval_hours: 8 },
    };
    match TradingPair::parse(row.symbol.as_str()) {
        Some(pair) => Ok(FundingRate {
            funding_rate_ts_us: row.funding_rate_ts_us,
            local_funding_ts_us: x.local_funding_ts_us,
            recv_seq: x.recv_seq,
            conn_epoch: x.conn_epoch,
            pair,
            funding_rate: row.funding_rate,
            premium: x.premium,
            interval_hours: x.interval_hours,
            next_funding_ts_us: row.next_funding_ts_us,
            exchange: row.exchange,
        }),
        None => Err(malformed_symbol(index, row.symbol.as_str(), file)),
    }
}

/// Whether two funding records agree field by field (strings by their text).
pub open spec fn same_funding(a: FundingRate, b: FundingRate) -> bool {
    &&& a.funding_rate_ts_us == b.funding_rate_ts_us
    &&& a.local_funding_ts_us == b.local_funding_ts_us
    &&& a.recv_seq == b.recv_seq
    &&& a.conn_epoch == b.conn_epoch
    &&& a.pair.base@ == b.pair.base@
    &&& a.pair.quote@ == b.pair.quote@
    &&& a.funding_rate == b.funding_rate
    &&& a.premium == b.premium
    &&& a.interval_hours == b.interval_hours
    &&& a.next_funding_ts_us == b.next_funding_ts_us
    &&& a.exchange@ == b.exchange@
}

/// Reading back what was laid out gives the record back: when row `i` of
/// the columns holds `r` (a record with a well-formed pair), the row read
/// from the columns is read as a record equal to `r`.
pub proof fn lemma_funding_round_trip(c: FundingColumns, i: int, r: FundingRate, row: FundingRow, f: FundingRate)
    requires
        pair_parts_ok(r.pair.base@, r.pair.quote@),
        funding_row_holds(c, i, r),
        row.funding_rate_ts_us == c.funding_rate_ts_us@[i],
        row.symbol@ == c.symbol@[i]@,
        row.funding_rate == c.funding_rate@[i],
        row.next_funding_ts_us == c.next_funding_ts_us@[i],
        row.exchange@ == c.exchange@[i]@,
        row.extras == Some((FundingExtras {
            local_funding_ts_us: c.local_funding_ts_us@[i],
            recv_seq: c.recv_seq@[i],
            conn_epoch: c.conn_epoch@[i],
            premium: c.premium@[i],
            interval_hours: c.interval_hours@[i],
        })),
        funding_read_from(row, f),
    ensures
        same_funding(f, r),
        is_canonical_text(row.symbol@),
{
    crate::model::lemma_canonical_round_trip(r.pair.base@, r.pair.quote@);
    crate::model::lemma_canonical_unique(f.pair.base@, f.pair.quote@, r.pair.base@, r.pair.quote@);
}

} // verus!
verus! {

/// Open-interest records laid out column by column, as the Parquet writer
/// stores them.
#[derive(Debug)]
pub struct OiColumns {
    pub open_interest_ts_us: Vec<u64>,
    pub symbol: Vec<String>,
    pub open_interest: Vec<Dec>,
    pub open_interest_value: Vec<Option<Dec>>,
    pub exchange: Vec<String>,
}

/// Whether row `i` of the columns holds record `r`.
pub open spec fn oi_row_holds(c: OiColumns, i: int, r: OpenInterest) -> bool {
    &&& c.open_interest_ts_us@[i] == r.open_interest_ts_us
    &&& c.symbol@[i]@ == canonical(r.pair.base@, r.pair.quote@)
    &&& c.open_interest@[i] == r.open_interest
    &&& c.open_interest_value@[i] == r.open_interest_value
    &&& c.exchange@[i]@ == r.exchange@
}

/// Whether the columns hold exactly `records`, in order.
pub open spec fn oi_columns_hold(c: OiColumns, records: Seq<OpenInterest>) -> bool {
    &&& c.open_interest_ts_us@.len() == records.len()
    &&& c.symbol@.len() == records.len()
    &&& c.open_interest@.len() == records.len()
    &&& c.open_interest_value@.len() == records.len()
    &&& c.exchange@.len() == records.len()
    &&& forall|i: int| 0 <= i < records.len() ==> #[trigger] oi_row_holds(c, i, records[i])
}

/// Lays open-interest records out in columns.
pub fn oi_columns(records: &Vec<OpenInterest>) -> (c: OiColumns)
    ensures
        oi_columns_hold(c, records@),
{
    let mut c = OiColumns {
        open_interest_ts_us: Vec::new(),
        symbol: Vec::new(),
        open_interest: Vec::new(),
        open_interest_value: Vec::new(),
        exchange: Vec::new(),
    };
    let mut i: usize = 0;
    while i < records.len()
        invariant
            i <= records.len(),
            oi_columns_hold(c, records@.take(i as int)),
        decreases records.len() - i,
    {
        let r = &records[i];
        let ghost c0 = c;
        c.open_interest_ts_us.push(r.open_interest_ts_us);
        c.symbol.push(r.pair.to_canonical());
        c.open_interest.push(r.open_interest);
        c.open_interest_value.push(r.open_interest_value);
        c.exchange.push(r.exchange.clone());
        assert forall|k: int| 0 <= k < i + 1 implies #[trigger] oi_row_holds(c, k, records@.take(i + 1)[k]) by {
            if k < i {
                assert(oi_row_holds(c0, k, records@.take(i as int)[k]));
                assert(records@.take(i + 1)[k] == records@.take(i as int)[k]);
            }
        }
        i += 1;
    }
    assert(records@.take(records.len() as int) =~= records@);
    c
}

/// One row of an open-interest file as read back.
#[derive(Debug)]
pub struct OiRow {
    pub open_interest_ts_us: u64,
    pub symbol: String,
    pub open_interest: Dec,
    pub open_interest_value: Option<Dec>,
    pub exchange: String,
}

/// Whether `o` is the record read from `row`: the file keeps no local
/// stamps and no mark price.
pub open spec fn oi_read_from(row: OiRow, o: OpenInterest) -> bool {
    &&& o.open_interest_ts_us == row.open_interest_ts_us
    &&& canonical(o.pair.base@, o.pair.quote@) == row.symbol@
    &&& pair_parts_ok(o.pair.base@, o.pair.quote@)
    &&& o.open_interest == row.open_interest
    &&& o.open_interest_value == row.open_interest_value
    &&& o.exchange@ == row.exchange@
    &&& o.local_oi_ts_us == 0
    &&& o.recv_seq == 0
    &&& o.conn_epoch == 0
    &&& o.mark_px is None
}

/// Row `i` of the columns.
pub fn oi_row(c: &OiColumns, i: usize) -> (row: OiRow)
    requires
        i < c.open_interest_ts_us@.len(),
        i < c.symbol@.len(),
        i < c.open_interest@.len(),
        i < c.open_interest_value@.len(),
        i < c.exchange@.len(),
    ensures
        row.open_interest_ts_us == c.open_interest_ts_us@[i as int],
        row.symbol@ == c.symbol@[i as int]@,
        row.open_interest == c.open_interest@[i as int],
        row.open_interest_value == c.open_interest_value@[i as int],
        row.exchange@ == c.exchange@[i as int]@,
{
    OiRow {
        open_interest_ts_us: c.open_interest_ts_us[i],
        symbol: c.symbol[i].clone(),
        open_interest: c.open_interest[i],
        open_interest_value: c.open_interest_value[i],
        exchange: c.exchange[i].clone(),
    }
}

/// Reads an open-interest record back from row `index` (counted within its
/// record batch) of the file `file`: the symbol must be a canonical pair.
pub fn open_interest_from_row(row: OiRow, index: usize, file: &str) -> (r: Result<OpenInterest, PersistError>)
    ensures
        r is Ok <==> is_canonical_text(row.symbol@),
        r matches Ok(o) ==> oi_read_from(row, o),
        r matches Err(e) ==> e matches PersistError::Parse(m)
            && m@ == malformed_symbol_text(index as nat, row.symbol@, file@),
{
    match TradingPair::parse(row.symbol.as_str()) {
        Some(pair) => Ok(OpenInterest {
            open_interest_ts_us: row.open_interest_ts_us,
            local_oi_ts_us: 0,
            recv_seq: 0,
            conn_epoch: 0,
            pair,
            open_interest: row.open_interest,
            open_interest_value: row.open_interest_value,
            mark_px: None,
            exchange: row.exchange,
        }),
        None => Err(malformed_symbol(index, row.symbol.as_str(), file)),
    }
}

/// Reading back what was laid out gives the stored fields back: when row
/// `i` of the columns holds `r` (with a well-formed pair), the record read
/// from that row has `r`'s timestamp, pair, amounts and exchange.
pub proof fn lemma_oi_round_trip(c: OiColumns, i: int, r: OpenInterest, row: OiRow, o: OpenInterest)
    requires
        pair_parts_ok(r.pair.base@, r.pair.quote@),
        oi_row_holds(c, i, r),
        row.open_interest_ts_us == c.open_interest_ts_us@[i],
        row.symbol@ == c.symbol@[i]@,
        row.open_interest == c.open_interest@[i],
        row.open_interest_value == c.open_interest_value@[i],
        row.exchange@ == c.exchange@[i]@,
        oi_read_from(row, o),
    ensures
        is_canonical_text(row.symbol@),
        o.open_interest_ts_us == r.open_interest_ts_us,
        o.pair.base@ == r.pair.base@,
        o.pair.quote@ == r.pair.quote@,
        o.open_interest == r.open_interest,
        o.open_interest_value == r.open_interest_value,
        o.exchange@ == r.exchange@,
{
    crate::model::lemma_canonical_round_trip(r.pair.base@, r.pair.quote@);
    crate::model::lemma_canonical_unique(o.pair.base@, o.pair.quote@, r.pair.base@, r.pair.quote@);
}

/// A group of a decomposed snapshot batch, each written to its own directory.
#[derive(Debug, Clone, Copy, PartialEq, Eq, Structural)]
pub enum FlushTarget {
    Orderbooks,
    Trades,
    Liquidations,
    FundingRates,
    OpenInterests,
    FundingSettlements,
}

impl FlushTarget {
    /// The directory of a group under the output directory.
    pub open spec fn dir_text(self) -> Seq<char> {
        match self {
            FlushTarget::Orderbooks => "orderbooks"@,
            FlushTarget::Trades => "trades"@,
            FlushTarget::Liquidations => "liquidations"@,
            FlushTarget::FundingRates => "fundings"@,
            FlushTarget::OpenInterests => "open_interests"@,
            FlushTarget::FundingSettlements => "funding_settlements"@,
        }
    }

    /// The directory of a group.
    pub fn dir_name(&self) -> (s: &'static str)
        ensures
            s@ == self.dir_text(),
    {
        match self {
            FlushTarget::Orderbooks => "orderbooks",
            FlushTarget::Trades => "trades",
            FlushTarget::Liquidations => "liquidations",
            FlushTarget::FundingRates => "fundings",
            FlushTarget::OpenInterests => "open_interests",
            FlushTarget::FundingSettlements => "funding_settlements",
        }
    }
}

/// How many records of each group a batch holds.
#[derive(Debug, Clone, Copy, PartialEq, Eq, Structural)]
pub struct GroupSizes {
    pub orderbooks: usize,
    pub trades: usize,
    pub liquidations: usize,
    pub funding_rates: usize,
    pub open_interests: usize,
    pub funding_settlements: usize,
}

/// The groups to write, in the fixed order orderbooks, trades,
/// liquidations, funding rates, open interest, funding settlements; empty
/// groups are skipped.
pub open spec fn flush_plan_of(g: GroupSizes) -> Seq<FlushTarget> {
    (if g.orderbooks > 0 { seq![FlushTarget::Orderbooks] } else { Seq::empty() })
        + (if g.trades > 0 { seq![FlushTarget::Trades] } else { Seq::empty() })
        + (if g.liquidations > 0 { seq![FlushTarget::Liquidations] } else { Seq::empty() })
        + (if g.funding_rates > 0 { seq![FlushTarget::FundingRates] } else { Seq::empty() })
        + (if g.open_interests > 0 { seq![FlushTarget::OpenInterests] } else { Seq::empty() })
        + (if g.funding_settlements > 0 { seq![FlushTarget::FundingSettlements] } else { Seq::empty() })
}

/// The groups a flush writes, in order.
pub fn flush_plan(g: &GroupSizes) -> (plan: Vec<FlushTarget>)
    ensures
        plan@ == flush_plan_of(*g),
{
    let mut plan: Vec<FlushTarget> = Vec::new();
    if g.orderbooks > 0 {
        plan.push(FlushTarget::Orderbooks);
    }
    if g.trades > 0 {
        plan.push(FlushTarget::Trades);
    }
    if g.liquidations > 0 {
        plan.push(FlushTarget::Liquidations);
    }
    if g.funding_rates > 0 {
        plan.push(FlushTarget::FundingRates);
    }
    if g.open_interests > 0 {
        plan.push(FlushTarget::OpenInterests);
    }
    if g.funding_settlements > 0 {
        plan.push(FlushTarget::FundingSettlements);
    }
    assert(plan@ =~= flush_plan_of(*g));
    plan
}

/// What a flush wrote.
#[derive(Debug, Clone, Copy, PartialEq, Eq, Structural)]
pub struct FlushReport {
    pub total_bytes: u64,
    pub total_files: u32,
}

impl FlushReport {
    /// Nothing written.
    pub fn empty() -> (r: FlushReport)
        ensures
            r == (FlushReport { total_bytes: 0, total_files: 0 }),
    {
        FlushReport { total_bytes: 0, total_files: 0 }
    }

    /// Counts one more file of `bytes` bytes.
    pub fn add_file(&mut self, bytes: u64)
        requires
            old(self).total_bytes + bytes <= u64::MAX,
            old(self).total_files < u32::MAX,
        ensures
            final(self).total_bytes == old(self).total_bytes + bytes,
            final(self).total_files == old(self).total_files + 1,
    {
        self.total_bytes = self.total_bytes + bytes;
        self.total_files = self.total_files + 1;
    }
}

/// The sum of a list of sizes.
pub open spec fn total_of(sizes: Seq<u64>) -> int
    decreases sizes.len(),
{
    if sizes.len() == 0 { 0 } else { total_of(sizes.drop_last()) + sizes.last() }
}

/// The report of a flush that wrote files of the given sizes, in order; a
/// flush that overflows the counters is refused (`None`).
pub fn flush_report(sizes: &Vec<u64>) -> (r: Option<FlushReport>)
    ensures
        r is Some <==> (total_of(sizes@) <= u64::MAX && sizes@.len() <= u32::MAX),
        r matches Some(rep) ==> rep.total_bytes == total_of(sizes@) && rep.total_files == sizes@.len(),
{
    let mut rep = FlushReport::empty();
    let mut i: usize = 0;
    while i < sizes.len()
        invariant
            i <= sizes.len(),
            rep.total_bytes == total_of(sizes@.take(i as int)),
            rep.total_files == i,
        decreases sizes.len() - i,
    {
        assert(sizes@.take(i + 1).drop_last() =~= sizes@.take(i as int));
        if rep.total_bytes > u64::MAX - sizes[i] || rep.total_files == u32::MAX {
            proof { lemma_total_prefix(sizes@, i as int + 1); }
            return None;
        }
        rep.add_file(sizes[i]);
        i += 1;
    }
    assert(sizes@.take(sizes.len() as int) =~= sizes@);
    Some(rep)
}

/// The total of a prefix is at most the total of the whole list.
pub proof fn lemma_total_prefix(sizes: Seq<u64>, k: int)
    requires
        0 <= k <= sizes.len(),
    ensures
        total_of(sizes.take(k)) <= total_of(sizes),
    decreases sizes.len() - k,
{
    if k < sizes.len() {
        lemma_total_prefix(sizes, k + 1);
        assert(sizes.take(k + 1).drop_last() =~= sizes.take(k));
    } else {
        assert(sizes.take(k) =~= sizes);
    }
}

} // verus!
