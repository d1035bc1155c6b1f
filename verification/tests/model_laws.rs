use aetelier::calendar::CalendarDate;
use aetelier::clock::{micros_u64, now_us};
use aetelier::decimal::Dec;
use aetelier::kucoin::{KucoinChange, KucoinL2Data};
use aetelier::model::{
    epoch_to_us, DeclaredDatatype as DD, DeclaredSet, DomainEvent, ExchangeError, FundingSettlement, SourceMetrics,
    SymbolCodec, TradingPair,
};
use aetelier::text::split_lines;

#[test]
fn canonical_text_reads_back_as_the_same_pair() {
    for (b, q) in [("BTC", "USDT"), ("1000PEPE", "USDC"), ("é", "x")] {
        let p = TradingPair::new(b, q);
        let text = p.to_canonical();
        assert_eq!(TradingPair::parse(&text), Some(p));
    }
}

#[test]
fn parse_accepts_exactly_one_inner_slash() {
    assert_eq!(TradingPair::parse("ETH/BTC"), Some(TradingPair::new("ETH", "BTC")));
    for bad in ["", "/", "ETH", "/BTC", "ETH/", "A/B/C", "A//B"] {
        assert_eq!(TradingPair::parse(bad), None, "{bad}");
    }
}

#[test]
fn bare_coin_codec_quotes_every_pair() {
    let c = SymbolCodec::BareCoin { quote: "USDC" };
    assert_eq!(c.decode("SOL"), Some(TradingPair::new("SOL", "USDC")));
    assert_eq!(c.decode(""), None);
    assert_eq!(c.decode("SOL/USDC"), None);
}

#[test]
fn milliseconds_to_microseconds_saturate() {
    assert_eq!(epoch_to_us(0), 0);
    assert_eq!(epoch_to_us(1_700_000_000_123), 1_700_000_000_123_000);
    assert_eq!(epoch_to_us(u64::MAX / 1000), (u64::MAX / 1000) * 1000);
    assert_eq!(epoch_to_us(u64::MAX / 1000 + 1), u64::MAX);
}

#[test]
fn declared_sets_behave_as_sets() {
    let all = DeclaredSet::all();
    for d in [DD::Orderbook, DD::Trades, DD::FundingRates, DD::OpenInterest, DD::Liquidations] {
        assert!(all.contains(d));
        assert!(!all.without(d).contains(d));
        assert!(DeclaredSet::only(d).contains(d));
        assert_eq!(DeclaredSet::only(d).without(d), DeclaredSet::only(DD::Trades).without(DD::Trades));
    }
    assert!(!DeclaredSet::only(DD::Trades).contains(DD::Orderbook));
    assert!(all.without(DD::Trades).contains(DD::Orderbook));
}

#[test]
fn stamping_sets_only_the_local_fields() {
    let mut ev = DomainEvent::FundingSettlement(FundingSettlement {
        funding_time_us: 1,
        local_ts_us: 0,
        rtt_us: 0,
        pair: TradingPair::new("BTC", "USDC"),
        funding_rate: Dec::zero(),
        premium: None,
        exchange: "hyperliquid".to_string(),
    });
    ev.stamp_local(50, 7, 99);
    match ev {
        DomainEvent::FundingSettlement(s) => {
            assert_eq!(s.local_ts_us, 50);
            assert_eq!(s.rtt_us, 7);
            assert_eq!(s.funding_time_us, 1);
        }
        other => panic!("unexpected {other:?}"),
    }
}

#[test]
fn counters_wrap_like_atomics() {
    let mut m = SourceMetrics::new();
    m.add_dropped_frames(u64::MAX);
    m.add_dropped_frames(2);
    m.bump_msgs();
    m.bump_gaps();
    m.bump_decode_err();
    assert_eq!(m, SourceMetrics { msgs: 1, dropped_frames: 1, gaps: 1, decode_err: 1 });
    assert_eq!(SourceMetrics::default(), SourceMetrics::new());
}

#[test]
fn decimals_keep_mantissa_and_scale() {
    assert_eq!(Dec::parse("50000.10"), Some(Dec { mantissa: 5_000_010, scale: 2 }));
    assert_eq!(Dec::parse("-0.00001"), Some(Dec { mantissa: -1, scale: 5 }));
    assert_eq!(Dec::parse("7"), Some(Dec { mantissa: 7, scale: 0 }));
    assert_eq!(Dec::parse("abc"), None);
    assert_eq!(Dec::parse(""), None);
}

#[test]
fn calendar_follows_the_gregorian_rules() {
    assert!(CalendarDate::from_ymd_opt(2024, 2, 29).is_some());
    assert!(CalendarDate::from_ymd_opt(1900, 2, 29).is_none());
    assert!(CalendarDate::from_ymd_opt(2000, 2, 29).is_some());
    assert!(CalendarDate::from_ymd_opt(2023, 4, 31).is_none());
    assert!(CalendarDate::from_ymd_opt(2023, 13, 1).is_none());
    assert!(CalendarDate::from_ymd_opt(2023, 1, 0).is_none());
    let eve = CalendarDate::from_ymd_opt(2023, 12, 31).unwrap();
    let next = eve.succ_opt().unwrap();
    assert_eq!((next.year(), next.month(), next.day()), (2024, 1, 1));
    assert!(eve.le(&next) && !next.le(&eve) && eve.le(&eve));
    let leap = CalendarDate::from_ymd_opt(2024, 2, 28).unwrap().succ_opt().unwrap();
    assert_eq!((leap.month(), leap.day()), (2, 29));
    assert_eq!(CalendarDate::from_ymd_opt(2026, 8, 5).unwrap().ymd_text(), "20260805");
    assert_eq!(CalendarDate::from_ymd_opt(812, 3, 9).unwrap().ymd_text(), "08120309");
    assert_eq!(CalendarDate::from_ymd_opt(-1, 1, 1).unwrap().ymd_text(), "-00010101");
    assert_eq!(CalendarDate::from_ymd_opt(12345, 1, 2).unwrap().ymd_text(), "+123450102");
    assert!(CalendarDate::from_ymd_opt(262142, 12, 31).unwrap().succ_opt().is_none());
}

#[test]
fn lines_split_like_str_lines() {
    assert_eq!(split_lines("a\nb\r\n\nc"), vec!["a", "b", "", "c"]);
    assert_eq!(split_lines("a\n"), vec!["a"]);
    assert_eq!(split_lines(""), Vec::<String>::new());
    assert_eq!(split_lines("x\r"), vec!["x\r"]);
    assert_eq!(split_lines("\n\n"), vec!["", ""]);
}

#[test]
fn clock_reads_microseconds_since_the_epoch() {
    assert_eq!(micros_u64(5), 5);
    assert_eq!(micros_u64((1u128 << 64) + 3), 3);
    assert!(now_us() > 1_600_000_000_000_000);
}

#[test]
fn kucoin_level2_reads_sides_and_sequences() {
    let raw = r#"{"sequenceStart":10,"sequenceEnd":12,"symbol":"BTC-USDT","changes":{"asks":[["6","1","10"]],"bids":[["5","0","11"],["4","2","12"]]}}"#;
    let d = KucoinL2Data::from_json(raw).unwrap();
    assert_eq!(d.sequence_start, 10);
    assert_eq!(d.sequence_end, 12);
    assert_eq!(d.symbol, "BTC-USDT");
    assert_eq!(d.changes.asks, vec![KucoinChange("6".into(), "1".into(), "10".into())]);
    assert_eq!(d.changes.bids.len(), 2);
    let no_bids = r#"{"sequenceStart":1,"sequenceEnd":1,"symbol":"X","changes":{"asks":[]}}"#;
    assert!(KucoinL2Data::from_json(no_bids).unwrap().changes.bids.is_empty());
    assert_eq!(KucoinL2Data::from_json("{"), Err(ExchangeError::MalformedFrame("not json")));
    assert!(KucoinL2Data::from_json(r#"{"sequenceStart":1,"sequenceEnd":1,"symbol":"X","changes":{"asks":[["6","1"]]}}"#).is_err());
    assert!(KucoinL2Data::from_json(r#"{"sequenceEnd":1,"symbol":"X","changes":{}}"#).is_err());
}
