use aetelier::decimal::Dec;
use aetelier::hyperliquid::{
    decode_funding_history, HyperliquidAssetCtx, HyperliquidAssetCtxMsg, HyperliquidBook, funding_history_request, settlement_backfill_start_ms, settlement_events,
    settlement_overlap_start_ms, settlement_wait_ms, subscribe_frame, HyperliquidAdapter, HyperliquidDecoder,
    HyperliquidFundingHistoryRow, HyperliquidHooks, HyperliquidNormalizer, HyperliquidTrade, HyperliquidWssEvent,
};
use aetelier::model::{DomainEvent, ExchangeError, Heartbeat};

const HOUR_US: u64 = 3_600_000_000;

#[test]
fn first_poll_reaches_back_a_day_later_ones_two_hours() {
    assert_eq!(settlement_backfill_start_ms(100_000_000_000), 13_600_000);
    assert_eq!(settlement_overlap_start_ms(100_000_000_000), 92_800_000);
    assert_eq!(settlement_backfill_start_ms(5_000_000), 0);
    assert_eq!(settlement_overlap_start_ms(0), 0);
}

#[test]
fn polls_wait_for_the_next_top_of_the_hour_plus_five_seconds() {
    assert_eq!(settlement_wait_ms(10 * HOUR_US + 1_000_000), 3_599_000 + 5_000);
    assert_eq!(settlement_wait_ms(10 * HOUR_US), 3_600_000 + 5_000);
    assert_eq!(settlement_wait_ms(11 * HOUR_US - 1_000), 1 + 5_000);
}

#[test]
fn funding_history_request_is_the_json_body_with_sorted_keys() {
    assert_eq!(
        funding_history_request("BTC", 1_700_000_000_000),
        r#"{"coin":"BTC","startTime":1700000000000,"type":"fundingHistory"}"#
    );
    assert_eq!(funding_history_request("a\"b", 0), r#"{"coin":"a\"b","startTime":0,"type":"fundingHistory"}"#);
}

const HISTORY: &str = r#"[
  {"coin":"BTC","fundingRate":"0.0000125","premium":"0.0003","time":1700000000000},
  {"coin":"ETH","fundingRate":"-0.00001","premium":null,"time":1700003600000},
  {"coin":"SOL","fundingRate":"oops","time":1700007200000},
  {"coin":"","fundingRate":"0.1","time":1700007200000}
]"#;

#[test]
fn funding_history_decodes_every_row() {
    let rows = decode_funding_history(HISTORY).unwrap();
    assert_eq!(rows.len(), 4);
    assert_eq!(rows[0].coin, "BTC");
    assert_eq!(rows[0].premium, Some("0.0003".to_string()));
    assert_eq!(rows[1].premium, None);
    assert_eq!(rows[2].premium, None);
    assert_eq!(rows[1].time, 1_700_003_600_000);
}

#[test]
fn funding_history_rejects_what_is_not_an_array_of_rows() {
    assert_eq!(decode_funding_history("nope"), Err(ExchangeError::MalformedFrame("not json")));
    assert!(decode_funding_history(r#"{"coin":"BTC"}"#).is_err());
    assert!(decode_funding_history(r#"[{"coin":"BTC","fundingRate":"0.1"}]"#).is_err());
    assert!(decode_funding_history(r#"[{"coin":"BTC","fundingRate":"0.1","time":1,"premium":5}]"#).is_err());
    assert_eq!(decode_funding_history("[]").unwrap().len(), 0);
}

#[test]
fn settlements_skip_unknown_coins_and_unreadable_rates() {
    let rows = decode_funding_history(HISTORY).unwrap();
    let evs = settlement_events(&rows, 1_500, 1_700_010_000_000_000);
    assert_eq!(evs.len(), 2);
    match &evs[0] {
        DomainEvent::FundingSettlement(s) => {
            assert_eq!(s.pair.to_canonical(), "BTC/USDC");
            assert_eq!(s.funding_time_us, 1_700_000_000_000_000);
            assert_eq!(s.funding_rate, Dec::parse("0.0000125").unwrap());
            assert_eq!(s.premium, Some(Dec::parse("0.0003").unwrap()));
            assert_eq!(s.rtt_us, 1_500);
            assert_eq!(s.local_ts_us, 1_700_010_000_000_000);
            assert_eq!(s.exchange, "hyperliquid");
        }
        other => panic!("unexpected {other:?}"),
    }
    match &evs[1] {
        DomainEvent::FundingSettlement(s) => {
            assert_eq!(s.pair.to_canonical(), "ETH/USDC");
            assert_eq!(s.funding_rate, Dec { mantissa: -1, scale: 5 });
            assert_eq!(s.premium, None);
        }
        other => panic!("unexpected {other:?}"),
    }
    let none: Vec<HyperliquidFundingHistoryRow> = Vec::new();
    assert!(settlement_events(&none, 0, 0).is_empty());
}

#[test]
fn subscribe_frame_and_heartbeat_texts() {
    assert_eq!(subscribe_frame("trades", "ETH"), r#"{"method":"subscribe","subscription":{"coin":"ETH","type":"trades"}}"#);
    assert_eq!(HyperliquidHooks.endpoint(), "wss://api.hyperliquid.xyz/ws");
    match HyperliquidHooks.heartbeat() {
        Heartbeat::Text { every_secs, payload } => {
            assert_eq!(every_secs, 30);
            assert_eq!(payload, r#"{"method":"ping"}"#);
        }
    }
    let frames = HyperliquidAdapter.subscribe_frames_preview(
        &["BTC".to_string(), "ETH".to_string()],
        &aetelier::model::DeclaredSet::all(),
    );
    assert_eq!(frames.len(), 6);
    assert_eq!(frames[3], r#"{"method":"subscribe","subscription":{"coin":"ETH","type":"l2Book"}}"#);
}

fn trade(coin: &str, side: &str, px: &str) -> HyperliquidTrade {
    HyperliquidTrade {
        coin: coin.to_string(),
        side: side.to_string(),
        px: px.to_string(),
        sz: "1".to_string(),
        time: 7,
        tid: 9,
    }
}

#[test]
fn every_dropped_trade_is_counted() {
    let mut n = HyperliquidNormalizer::default();
    let ts = vec![trade("BTC", "B", "1.5"), trade("BTC", "X", "1"), trade("", "A", "1"), trade("BTC", "A", "x")];
    let evs = n.normalize(HyperliquidWssEvent::Trades(ts));
    assert_eq!(evs.len(), 1);
    assert_eq!(evs.len() as u64 + n.metrics.dropped_frames, 4);
    match &evs[0] {
        DomainEvent::Trade { trade, .. } => {
            assert_eq!(trade.price, Dec { mantissa: 15, scale: 1 });
            assert_eq!(trade.source_trade_ts_us, 7_000);
        }
        other => panic!("unexpected {other:?}"),
    }
}

#[test]
fn replay_frame_normalizes_with_every_datatype_and_reports_bad_frames() {
    let a = HyperliquidAdapter;
    let evs = a
        .replay_frame(r#"{"channel":"l2Book","data":{"coin":"ETH","time":5,"levels":[[{"px":"1","sz":"2","n":1}],[]]}}"#)
        .unwrap();
    assert_eq!(evs.len(), 1);
    assert!(a.replay_frame(r#"{"channel":"pong"}"#).unwrap().is_empty());
    assert!(a.replay_frame("garbage").is_err());
    assert_eq!(HyperliquidDecoder::decode(r#"{"data":{}}"#), Err(ExchangeError::MalformedFrame("channel")));
    assert_eq!(
        HyperliquidDecoder::decode(r#"{"channel":"trades","data":{"coin":"BTC"}}"#),
        Err(ExchangeError::MalformedFrame("trades"))
    );
    assert_eq!(
        HyperliquidDecoder::decode(r#"{"channel":"l2Book","data":{"coin":"BTC","time":1,"levels":[[{"px":"1"}]]}}"#),
        Err(ExchangeError::MalformedFrame("l2Book"))
    );
    assert_eq!(HyperliquidDecoder::decode("{"), Err(ExchangeError::MalformedFrame("not json")));
}

fn ctx(coin: &str, funding: Option<&str>, oi: Option<&str>) -> HyperliquidWssEvent {
    HyperliquidWssEvent::AssetCtx(HyperliquidAssetCtxMsg {
        coin: coin.to_string(),
        ctx: HyperliquidAssetCtx {
            funding: funding.map(str::to_string),
            open_interest: oi.map(str::to_string),
            mark_px: None,
            premium: Some("bad".to_string()),
        },
    })
}

#[test]
fn every_asked_for_sample_is_emitted_or_counted() {
    let mut n = HyperliquidNormalizer::default();
    let evs = n.normalize(ctx("BTC", Some("oops"), Some("12.5")));
    assert_eq!(evs.len(), 1);
    assert!(matches!(evs[0], DomainEvent::OpenInterest(_)));
    assert_eq!(n.metrics.dropped_frames, 1);

    let evs = n.normalize(ctx("BTC", Some("0.01"), None));
    assert_eq!(evs.len(), 1);
    match &evs[0] {
        DomainEvent::FundingRate(f) => assert_eq!(f.premium, None),
        other => panic!("unexpected {other:?}"),
    }
    assert_eq!(n.metrics.dropped_frames, 1);

    let evs = n.normalize(ctx("BTC/USDC", Some("0.01"), Some("1")));
    assert!(evs.is_empty());
    assert_eq!(n.metrics.dropped_frames, 2);
}

#[test]
fn a_one_sided_book_is_counted_as_dropped() {
    let mut n = HyperliquidNormalizer::default();
    let book = HyperliquidBook { coin: "BTC".to_string(), time: 1, levels: vec![Vec::new()] };
    assert!(n.normalize(HyperliquidWssEvent::Book(book)).is_empty());
    assert_eq!(n.metrics.dropped_frames, 1);
    let book = HyperliquidBook { coin: "BTC".to_string(), time: 1, levels: vec![Vec::new(), Vec::new()] };
    assert_eq!(n.normalize(HyperliquidWssEvent::Book(book)).len(), 1);
    assert_eq!(n.metrics.dropped_frames, 1);
}
