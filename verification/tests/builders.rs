use aetelier::decimal::Dec;
use aetelier::model::{BuildError, FundingRate, OpenInterest, TradingPair};

fn dec(s: &str) -> Dec {
    Dec::parse(s).unwrap()
}

#[test]
fn test_funding_builder_build_happy_path() {
    let fr = FundingRate::builder()
        .funding_rate_ts_us(1_700_000_000_000)
        .pair(TradingPair::new("BTC", "USDT"))
        .funding_rate(dec("0.0001"))
        .exchange("bybit".into())
        .next_funding_ts_us(1_700_028_800_000)
        .build()
        .expect("all fields set");

    assert_eq!(fr.funding_rate_ts_us, 1_700_000_000_000);
    assert_eq!(fr.pair, TradingPair::new("BTC", "USDT"));
    assert_eq!(fr.funding_rate, dec("0.0001"));
    assert_eq!(fr.next_funding_ts_us, 1_700_028_800_000);
    assert_eq!(fr.exchange, "bybit");
}

#[test]
fn next_funding_ts_defaults_to_zero() {
    let fr = FundingRate::builder()
        .funding_rate_ts_us(1)
        .pair(TradingPair::new("X", "USDT"))
        .funding_rate(dec("0.01"))
        .exchange("e".into())
        .build()
        .unwrap();
    assert_eq!(fr.next_funding_ts_us, 0);
}

#[test]
fn test_funding_builder_missing_ts() {
    let err = FundingRate::builder()
        .pair(TradingPair::new("X", "USDT"))
        .funding_rate(dec("0.01"))
        .exchange("e".into())
        .build()
        .unwrap_err();
    assert_eq!(err, BuildError::MissingField("ts"));
}

#[test]
fn test_funding_builder_missing_symbol() {
    let err = FundingRate::builder().funding_rate_ts_us(1).funding_rate(dec("0.01")).exchange("e".into()).build().unwrap_err();
    assert_eq!(err, BuildError::MissingField("pair"));
}

#[test]
fn missing_funding_rate() {
    let err = FundingRate::builder()
        .funding_rate_ts_us(1)
        .pair(TradingPair::new("X", "USDT"))
        .exchange("e".into())
        .build()
        .unwrap_err();
    assert_eq!(err, BuildError::MissingField("funding_rate"));
}

#[test]
fn test_funding_builder_missing_exchange() {
    let err = FundingRate::builder()
        .funding_rate_ts_us(1)
        .pair(TradingPair::new("X", "USDT"))
        .funding_rate(dec("0.01"))
        .build()
        .unwrap_err();
    assert_eq!(err, BuildError::MissingField("exchange"));
}

#[test]
fn test_funding_builder_empty_builder() {
    let err = FundingRate::builder().build().unwrap_err();
    assert_eq!(err, BuildError::MissingField("ts"));
}

#[test]
fn test_open_interest_builder_build_happy_path() {
    let oi = OpenInterest::builder()
        .open_interest_ts_us(1_700_000_000_000)
        .pair(TradingPair::new("BTC", "USDT"))
        .open_interest(dec("50000"))
        .open_interest_value(dec("2100000000"))
        .exchange("bybit".into())
        .build()
        .expect("all fields set");

    assert_eq!(oi.open_interest_ts_us, 1_700_000_000_000);
    assert_eq!(oi.pair, TradingPair::new("BTC", "USDT"));
    assert_eq!(oi.open_interest, dec("50000"));
    assert_eq!(oi.open_interest_value, Some(dec("2100000000")));
    assert_eq!(oi.exchange, "bybit");
}

#[test]
fn open_interest_value_defaults_to_zero() {
    let oi = OpenInterest::builder()
        .open_interest_ts_us(1)
        .pair(TradingPair::new("X", "USDT"))
        .open_interest(dec("100"))
        .exchange("e".into())
        .build()
        .unwrap();
    assert_eq!(oi.open_interest_value, Some(Dec::zero()));
}

#[test]
fn test_open_interest_builder_missing_ts() {
    let err = OpenInterest::builder()
        .pair(TradingPair::new("X", "USDT"))
        .open_interest(dec("1"))
        .exchange("e".into())
        .build()
        .unwrap_err();
    assert_eq!(err, BuildError::MissingField("ts"));
}

#[test]
fn test_open_interest_builder_missing_symbol() {
    let err = OpenInterest::builder().open_interest_ts_us(1).open_interest(dec("1")).exchange("e".into()).build().unwrap_err();
    assert_eq!(err, BuildError::MissingField("pair"));
}

#[test]
fn missing_open_interest() {
    let err = OpenInterest::builder()
        .open_interest_ts_us(1)
        .pair(TradingPair::new("X", "USDT"))
        .exchange("e".into())
        .build()
        .unwrap_err();
    assert_eq!(err, BuildError::MissingField("open_interest"));
}

#[test]
fn test_open_interest_builder_missing_exchange() {
    let err = OpenInterest::builder()
        .open_interest_ts_us(1)
        .pair(TradingPair::new("X", "USDT"))
        .open_interest(dec("1"))
        .build()
        .unwrap_err();
    assert_eq!(err, BuildError::MissingField("exchange"));
}

#[test]
fn test_open_interest_builder_empty_builder() {
    let err = OpenInterest::builder().build().unwrap_err();
    assert_eq!(err, BuildError::MissingField("ts"));
}
