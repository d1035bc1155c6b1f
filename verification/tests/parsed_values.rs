use std::io::Write;

use aetelier::decimal::Dec;
use aetelier::entrepot::{object_lines, payload_lines};
use aetelier::hyperliquid::{
    asset_ctx_events, settlement_event, subscribe_frame, trade_event, AssetCtxDecimals, HyperliquidAssetCtx,
    HyperliquidAssetCtxMsg, HyperliquidFundingHistoryRow, HyperliquidTrade,
};
use aetelier::model::{DeclaredDatatype as DD, DeclaredSet, DomainEvent, TradeSide};
use aetelier::persist::{funding_file_has_extras, malformed_symbol, PersistError};

fn dec(m: i128, s: u32) -> Dec {
    Dec { mantissa: m, scale: s }
}

fn lz4(payload: &[u8]) -> Vec<u8> {
    let mut enc = lz4_flex::frame::FrameEncoder::new(Vec::new());
    enc.write_all(payload).unwrap();
    enc.finish().unwrap()
}

#[test]
fn archived_objects_unpack_into_lines() {
    let lines = object_lines(&lz4(b"first\r\nsecond\n\nthird")).unwrap();
    assert_eq!(lines, vec!["first", "second", "", "third"]);
    assert_eq!(object_lines(&lz4(b"")).unwrap(), Vec::<String>::new());
    assert_eq!(object_lines(b"not an lz4 frame"), None);
    assert_eq!(object_lines(&lz4(&[0x66, 0xff, 0x0a])), None);
    assert_eq!(payload_lines(vec![0xc3, 0xa9, b'\n', b'x']).unwrap(), vec!["é", "x"]);
    assert_eq!(payload_lines(vec![0xc3]), None);
}

#[test]
fn trade_event_uses_the_given_decimals() {
    let t = HyperliquidTrade {
        coin: "ETH".to_string(),
        side: "a".to_string(),
        px: "ignored".to_string(),
        sz: "ignored".to_string(),
        time: 3,
        tid: 77,
    };
    match trade_event(&t, Some(dec(5, 1)), Some(dec(2500, 0))) {
        Some(DomainEvent::Trade { trade, sequence }) => {
            assert_eq!(trade.amount, dec(5, 1));
            assert_eq!(trade.price, dec(2500, 0));
            assert_eq!(trade.side, TradeSide::Sell);
            assert_eq!(trade.id, "77");
            assert_eq!(trade.source_trade_ts_us, 3_000);
            assert_eq!(sequence, None);
        }
        other => panic!("unexpected {other:?}"),
    }
    assert!(trade_event(&t, None, Some(dec(1, 0))).is_none());
    assert!(trade_event(&t, Some(dec(1, 0)), None).is_none());
}

fn msg(coin: &str) -> HyperliquidAssetCtxMsg {
    HyperliquidAssetCtxMsg {
        coin: coin.to_string(),
        ctx: HyperliquidAssetCtx {
            funding: Some("x".to_string()),
            open_interest: Some("y".to_string()),
            mark_px: None,
            premium: None,
        },
    }
}

#[test]
fn asset_ctx_events_use_the_given_decimals() {
    let d = AssetCtxDecimals {
        funding: Some(dec(1, 4)),
        open_interest: None,
        mark_px: Some(dec(3, 0)),
        premium: Some(dec(-2, 5)),
    };
    let (evs, dropped) = asset_ctx_events(&DeclaredSet::all(), &msg("SOL"), &d);
    assert_eq!(evs.len(), 1);
    assert_eq!(dropped, 1);
    match &evs[0] {
        DomainEvent::FundingRate(f) => {
            assert_eq!(f.funding_rate, dec(1, 4));
            assert_eq!(f.premium, Some(dec(-2, 5)));
            assert_eq!(f.pair.to_canonical(), "SOL/USDC");
        }
        other => panic!("unexpected {other:?}"),
    }
    let d2 = AssetCtxDecimals { open_interest: Some(dec(9, 0)), ..d };
    let (evs, dropped) = asset_ctx_events(&DeclaredSet::only(DD::OpenInterest), &msg("SOL"), &d2);
    assert_eq!((evs.len(), dropped), (1, 0));
    match &evs[0] {
        DomainEvent::OpenInterest(o) => assert_eq!((o.open_interest, o.mark_px), (dec(9, 0), Some(dec(3, 0)))),
        other => panic!("unexpected {other:?}"),
    }
    assert_eq!(asset_ctx_events(&DeclaredSet::all(), &msg(""), &d2).1, 1);
}

#[test]
fn settlement_event_uses_the_given_decimals() {
    let row = HyperliquidFundingHistoryRow {
        coin: "BTC".to_string(),
        funding_rate: "ignored".to_string(),
        premium: None,
        time: 2,
    };
    match settlement_event(&row, Some(dec(7, 6)), Some(dec(1, 1)), 10, 20) {
        Some(DomainEvent::FundingSettlement(s)) => {
            assert_eq!(s.funding_rate, dec(7, 6));
            assert_eq!(s.premium, Some(dec(1, 1)));
            assert_eq!((s.funding_time_us, s.rtt_us, s.local_ts_us), (2_000, 10, 20));
        }
        other => panic!("unexpected {other:?}"),
    }
    assert!(settlement_event(&row, None, None, 0, 0).is_none());
}

#[test]
fn malformed_symbols_name_row_symbol_and_file() {
    assert_eq!(
        malformed_symbol(12, "BTCUSDT", "/out/f.parquet"),
        PersistError::Parse("row 12: malformed symbol 'BTCUSDT' in /out/f.parquet".to_string())
    );
    assert!(funding_file_has_extras(10));
    assert!(funding_file_has_extras(11));
    assert!(!funding_file_has_extras(5));
}

#[test]
fn json_strings_are_escaped_as_serde_json_does() {
    let coin = "a\"b\\c\u{1}\u{8}\t\n\u{c}\r\u{1f}é\u{7f}";
    let frame = subscribe_frame("trades", coin);
    let quoted = serde_json::to_string(coin).unwrap();
    let expected = format!("\"a\\\"b\\\\c\\u0001\\b\\t\\n\\f\\r\\u001fé{}\"", '\u{7f}');
    assert_eq!(quoted, expected);
    assert_eq!(frame, format!(r#"{{"method":"subscribe","subscription":{{"coin":{quoted},"type":"trades"}}}}"#));
}
