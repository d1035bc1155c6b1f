use aetelier::decimal::Dec;
use aetelier::model::{FundingRate, OpenInterest, TradingPair};
use aetelier::persist::{
    flush_plan, flush_report, funding_columns, funding_file_name, funding_rate_from_row, funding_row, oi_columns,
    oi_file_name, oi_row, open_interest_from_row, output_filename, replace_slashes, FlushReport, FlushTarget,
    FundingRow, GroupSizes, OrderbookUpdate, PersistError, Stats,
};

fn d(s: &str) -> Dec {
    Dec::parse(s).unwrap()
}

fn rate(ts: u64, base: &str) -> FundingRate {
    FundingRate {
        funding_rate_ts_us: ts,
        local_funding_ts_us: ts + 5,
        recv_seq: 3,
        conn_epoch: 2,
        pair: TradingPair::new(base, "USDT"),
        funding_rate: d("0.0001"),
        premium: Some(d("-0.0002")),
        interval_hours: 4,
        next_funding_ts_us: ts + 14_400_000_000,
        exchange: "bybit".to_string(),
    }
}

fn oi(ts: u64) -> OpenInterest {
    OpenInterest {
        open_interest_ts_us: ts,
        local_oi_ts_us: 11,
        recv_seq: 12,
        conn_epoch: 13,
        pair: TradingPair::new("ETH", "USDT"),
        open_interest: d("1234.5"),
        open_interest_value: Some(d("4000000")),
        mark_px: Some(d("3240.1")),
        exchange: "okx".to_string(),
    }
}

#[test]
fn file_names_carry_exchange_symbol_kind_mode_and_stamp() {
    assert_eq!(replace_slashes("BTC/USDT/X"), "BTC-USDT-X");
    assert_eq!(
        output_filename("bybit", "BTC/USDT", "funding", "sync", "20250101_120000.000"),
        "bybit_BTC-USDT_funding_sync_20250101_120000.000.parquet"
    );
    assert_eq!(
        funding_file_name(&vec![rate(1, "BTC"), rate(2, "ETH")], "stream", "T"),
        "bybit_BTC-USDT_funding_stream_T.parquet"
    );
    assert_eq!(funding_file_name(&Vec::new(), "sync", "T"), "unknown_unknown_funding_sync_T.parquet");
    assert_eq!(oi_file_name(&vec![oi(1)], "sync", "T"), "okx_ETH-USDT_oi_sync_T.parquet");
    assert_eq!(oi_file_name(&Vec::new(), "sync", "T"), "unknown_unknown_oi_sync_T.parquet");
}

#[test]
fn funding_records_survive_columns_and_rows() {
    let rates = vec![rate(1_000, "BTC"), rate(2_000, "SOL")];
    let cols = funding_columns(&rates);
    assert_eq!(cols.symbol, vec!["BTC/USDT".to_string(), "SOL/USDT".to_string()]);
    for (i, r) in rates.iter().enumerate() {
        let back = funding_rate_from_row(funding_row(&cols, i), i, "mem").unwrap();
        assert_eq!(&back, r);
    }
}

#[test]
fn older_funding_files_get_default_extras() {
    let row = FundingRow {
        funding_rate_ts_us: 9,
        symbol: "BTC/USDT".to_string(),
        funding_rate: d("0.01"),
        next_funding_ts_us: 0,
        exchange: "binance".to_string(),
        extras: None,
    };
    let f = funding_rate_from_row(row, 0, "old.parquet").unwrap();
    assert_eq!(f.interval_hours, 8);
    assert_eq!(f.premium, None);
    assert_eq!(f.local_funding_ts_us, 0);
    assert_eq!(f.recv_seq, 0);
    assert_eq!(f.pair, TradingPair::new("BTC", "USDT"));
}

#[test]
fn a_malformed_symbol_names_its_row() {
    for bad in ["BTCUSDT", "/USDT", "BTC/", "A/B/C", ""] {
        let row = FundingRow {
            funding_rate_ts_us: 9,
            symbol: bad.to_string(),
            funding_rate: d("0.01"),
            next_funding_ts_us: 0,
            exchange: "binance".to_string(),
            extras: None,
        };
        assert_eq!(
            funding_rate_from_row(row, 7, "/data/fundings/f.parquet"),
            Err(PersistError::Parse(format!("row 7: malformed symbol '{bad}' in /data/fundings/f.parquet")))
        );
    }
}

#[test]
fn open_interest_keeps_all_but_local_stamps_and_mark_price() {
    let records = vec![oi(100)];
    let cols = oi_columns(&records);
    let back = open_interest_from_row(oi_row(&cols, 0), 0, "mem").unwrap();
    assert_eq!(back.open_interest_ts_us, 100);
    assert_eq!(back.pair, TradingPair::new("ETH", "USDT"));
    assert_eq!(back.open_interest, d("1234.5"));
    assert_eq!(back.open_interest_value, Some(d("4000000")));
    assert_eq!(back.exchange, "okx");
    assert_eq!(back.local_oi_ts_us, 0);
    assert_eq!(back.mark_px, None);
}

#[test]
fn stats_count_snapshots_and_deltas() {
    let mut s = Stats::new();
    s.record_update(&OrderbookUpdate { was_reset: true, levels_inserted: 10, levels_deleted: 0 });
    s.record_update(&OrderbookUpdate { was_reset: false, levels_inserted: 2, levels_deleted: 3 });
    s.record_update(&OrderbookUpdate { was_reset: false, levels_inserted: 0, levels_deleted: 1 });
    assert_eq!(s.total_updates, 3);
    assert_eq!(s.snapshots, 1);
    assert_eq!(s.deltas, 2);
    assert_eq!(s.inserts, 12);
    assert_eq!(s.deletes, 4);
    assert_eq!(s.errors, 0);
    assert_eq!(s.total_updates, s.snapshots + s.deltas);
    assert_eq!(Stats::default(), Stats::new());
}

#[test]
fn flush_writes_non_empty_groups_in_fixed_order() {
    let g = GroupSizes {
        orderbooks: 0,
        trades: 4,
        liquidations: 0,
        funding_rates: 1,
        open_interests: 0,
        funding_settlements: 2,
    };
    assert_eq!(flush_plan(&g), vec![FlushTarget::Trades, FlushTarget::FundingRates, FlushTarget::FundingSettlements]);
    let names: Vec<&str> = flush_plan(&g).iter().map(|t| t.dir_name()).collect();
    assert_eq!(names, vec!["trades", "fundings", "funding_settlements"]);
    let empty = GroupSizes {
        orderbooks: 0,
        trades: 0,
        liquidations: 0,
        funding_rates: 0,
        open_interests: 0,
        funding_settlements: 0,
    };
    assert!(flush_plan(&empty).is_empty());
}

#[test]
fn flush_report_sums_files_and_refuses_overflow() {
    assert_eq!(flush_report(&vec![10, 20, 30]), Some(FlushReport { total_bytes: 60, total_files: 3 }));
    assert_eq!(flush_report(&Vec::new()), Some(FlushReport::empty()));
    assert_eq!(flush_report(&vec![u64::MAX, 1]), None);
    let mut r = FlushReport::empty();
    r.add_file(5);
    assert_eq!(r, FlushReport { total_bytes: 5, total_files: 1 });
}
