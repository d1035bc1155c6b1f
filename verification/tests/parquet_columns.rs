use aetelier::decimal::Dec;
use aetelier::model::{FundingRate, OpenInterest, TradingPair};
use aetelier::persist::{
    funding_columns, funding_file_name, funding_rate_from_row, funding_row, oi_columns, oi_file_name,
    oi_row, open_interest_from_row,
};

const STAMP: &str = "20260226_153000.123";

fn d(s: &str) -> Dec {
    Dec::parse(s).unwrap()
}

fn funding(ts: u64, rate: &str, next: u64, exchange: &str) -> FundingRate {
    FundingRate {
        funding_rate_ts_us: ts,
        local_funding_ts_us: 0,
        recv_seq: 0,
        conn_epoch: 0,
        pair: TradingPair::new("BTC", "USDT"),
        funding_rate: d(rate),
        premium: None,
        interval_hours: 8,
        next_funding_ts_us: next,
        exchange: exchange.to_string(),
    }
}

fn make_funding_rates(exchange: &str) -> Vec<FundingRate> {
    vec![
        funding(1672304484000, "0.0001", 1672308000000, exchange),
        funding(1672308000000, "-0.00015", 1672311600000, exchange),
    ]
}

/// Lays the records out in columns and reads every row back.
fn funding_round_trip(rates: &Vec<FundingRate>) -> Vec<FundingRate> {
    let cols = funding_columns(rates);
    (0..cols.symbol.len()).map(|i| funding_rate_from_row(funding_row(&cols, i), i, "mem").unwrap()).collect()
}

fn assert_funding(fr: &FundingRate, exchange: &str, rate: &str, next_ts: u64) {
    assert_eq!(fr.pair, TradingPair::new("BTC", "USDT"));
    assert_eq!(fr.exchange, exchange);
    assert_eq!(fr.funding_rate, d(rate));
    assert_eq!(fr.next_funding_ts_us, next_ts);
    assert!(fr.funding_rate_ts_us > 0);
}

#[test]
fn test_bybit_funding_parquet_roundtrip() {
    let loaded = funding_round_trip(&make_funding_rates("bybit"));
    assert_eq!(loaded.len(), 2);
    assert_funding(&loaded[0], "bybit", "0.0001", 1672308000000);
    assert_funding(&loaded[1], "bybit", "-0.00015", 1672311600000);
}

#[test]
fn test_multi_exchange_funding_parquet_roundtrip() {
    for exchange in ["bybit", "coinbase", "kraken"] {
        let loaded = funding_round_trip(&make_funding_rates(exchange));
        assert_eq!(loaded.len(), 2);
        assert_funding(&loaded[0], exchange, "0.0001", 1672308000000);
        assert_funding(&loaded[1], exchange, "-0.00015", 1672311600000);
    }
}

#[test]
fn test_negative_funding_rate_preserved() {
    let loaded = funding_round_trip(&vec![funding(1672304484000, "-0.000375", 0, "bybit")]);
    assert_eq!(loaded.len(), 1);
    assert_eq!(loaded[0].funding_rate, d("-0.000375"));
}

#[test]
fn test_funding_parquet_roundtrip_test_timestamps_preserved_in_order() {
    let rates = vec![
        funding(1000, "0.0001", 2000, "bybit"),
        funding(2000, "0.0002", 3000, "bybit"),
        funding(3000, "0.0003", 4000, "bybit"),
    ];
    let loaded = funding_round_trip(&rates);
    assert_eq!(loaded.len(), 3);
    assert_eq!(loaded[0].funding_rate_ts_us, 1000);
    assert_eq!(loaded[1].funding_rate_ts_us, 2000);
    assert_eq!(loaded[2].funding_rate_ts_us, 3000);
}

#[test]
fn test_funding_parquet_roundtrip_test_timestamped_writer_filename_and_mode() {
    let rates = make_funding_rates("bybit");
    let fname = funding_file_name(&rates, "sync", STAMP);
    assert!(fname.starts_with("bybit_BTC-USDT_funding_sync_"), "got: {fname}");
    assert!(fname.ends_with(".parquet"));
    assert_eq!(funding_round_trip(&rates).len(), 2);
    let fname_raw = funding_file_name(&rates, "raw", STAMP);
    assert!(fname_raw.starts_with("bybit_BTC-USDT_funding_raw_"), "got: {fname_raw}");
}

fn oi(ts: u64, interest: &str, value: &str, exchange: &str) -> OpenInterest {
    OpenInterest {
        open_interest_ts_us: ts,
        local_oi_ts_us: 0,
        recv_seq: 0,
        conn_epoch: 0,
        pair: TradingPair::new("BTC", "USDT"),
        open_interest: d(interest),
        open_interest_value: Some(d(value)),
        mark_px: None,
        exchange: exchange.to_string(),
    }
}

fn make_oi_records(exchange: &str) -> Vec<OpenInterest> {
    vec![
        oi(1672304484000, "32000.5", "752000000", exchange),
        oi(1672304784000, "32100.0", "754350000", exchange),
    ]
}

fn oi_round_trip(records: &Vec<OpenInterest>) -> Vec<OpenInterest> {
    let cols = oi_columns(records);
    (0..cols.symbol.len()).map(|i| open_interest_from_row(oi_row(&cols, i), i, "mem").unwrap()).collect()
}

fn assert_oi(o: &OpenInterest, exchange: &str, interest: &str, value: &str) {
    assert_eq!(o.pair, TradingPair::new("BTC", "USDT"));
    assert_eq!(o.exchange, exchange);
    assert_eq!(o.open_interest, d(interest));
    assert_eq!(o.open_interest_value, Some(d(value)));
    assert!(o.open_interest_ts_us > 0);
}

#[test]
fn test_bybit_oi_parquet_roundtrip() {
    let loaded = oi_round_trip(&make_oi_records("bybit"));
    assert_eq!(loaded.len(), 2);
    assert_oi(&loaded[0], "bybit", "32000.5", "752000000");
    assert_oi(&loaded[1], "bybit", "32100.0", "754350000");
}

#[test]
fn test_multi_exchange_oi_parquet_roundtrip() {
    for exchange in ["bybit", "coinbase", "kraken"] {
        let loaded = oi_round_trip(&make_oi_records(exchange));
        assert_eq!(loaded.len(), 2);
        assert_oi(&loaded[0], exchange, "32000.5", "752000000");
        assert_oi(&loaded[1], exchange, "32100.0", "754350000");
    }
}

#[test]
fn test_oi_parquet_roundtrip_test_timestamps_preserved_in_order() {
    let records = vec![
        oi(1000, "100", "1000000", "bybit"),
        oi(2000, "200", "2000000", "bybit"),
        oi(3000, "300", "3000000", "bybit"),
    ];
    let loaded = oi_round_trip(&records);
    assert_eq!(loaded.len(), 3);
    assert_eq!(loaded[0].open_interest_ts_us, 1000);
    assert_eq!(loaded[1].open_interest_ts_us, 2000);
    assert_eq!(loaded[2].open_interest_ts_us, 3000);
}

#[test]
fn test_oi_parquet_roundtrip_test_timestamped_writer_filename_and_mode() {
    let records = make_oi_records("bybit");
    let fname = oi_file_name(&records, "sync", STAMP);
    assert!(fname.starts_with("bybit_BTC-USDT_oi_sync_"), "got: {fname}");
    assert!(fname.ends_with(".parquet"));
    assert_eq!(oi_round_trip(&records).len(), 2);
    let fname_raw = oi_file_name(&records, "raw", STAMP);
    assert!(fname_raw.starts_with("bybit_BTC-USDT_oi_raw_"), "got: {fname_raw}");
}
