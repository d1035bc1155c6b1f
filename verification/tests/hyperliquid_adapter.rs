use aetelier::decimal::Dec;
use aetelier::hyperliquid::{
    HyperliquidAdapter, HyperliquidBook, HyperliquidDecoder, HyperliquidHooks, HyperliquidLevel,
    HyperliquidNormalizer, HyperliquidWssEvent,
};
use aetelier::model::{
    DeclaredDatatype as DD, DeclaredSet, DomainEvent, ReconstructionModel, SourceMetrics, SymbolCodec, TradeSide,
};

fn level(px: &str, sz: &str) -> HyperliquidLevel {
    HyperliquidLevel { px: px.to_string(), sz: sz.to_string(), n: 1 }
}

fn dec(s: &str) -> Dec {
    Dec::parse(s).unwrap()
}

#[test]
fn normalizes_full_book_snapshot_preserving_wire_decimal_strings() {
    let book = HyperliquidBook {
        coin: "BTC".into(),
        time: 1_700_000_000_000,
        levels: vec![vec![level("50000.0", "1.5"), level("49999.5", "2.0")], vec![level("50000.5", "0.75")]],
    };
    let evs = HyperliquidNormalizer::default().normalize(HyperliquidWssEvent::Book(book));
    assert_eq!(evs.len(), 1);
    match &evs[0] {
        DomainEvent::Book(nd) => {
            assert_eq!(nd.symbol, "BTC");
            assert!(nd.is_snapshot);
            assert_eq!(nd.bids.len(), 2);
            assert_eq!(nd.asks.len(), 1);
            assert_eq!(nd.bids[0], ("50000.0".to_string(), "1.5".to_string()));
            assert_eq!(nd.source_orderbook_ts_us, 1_700_000_000_000_000);
        }
        other => panic!("expected Book, got {other:?}"),
    }
}

#[test]
fn drops_book_without_two_sides() {
    let book = HyperliquidBook { coin: "BTC".into(), time: 1, levels: vec![vec![level("1", "1")]] };
    let evs = HyperliquidNormalizer::default().normalize(HyperliquidWssEvent::Book(book));
    assert!(evs.is_empty());
}

#[test]
fn normalizes_trades_b_is_buy_a_is_sell_sequence_unarmed() {
    let raw = r#"{"channel":"trades","data":[
        {"coin":"BTC","side":"B","px":"50000.1","sz":"0.01","time":1700000000000,"tid":123,"users":["0xa","0xb"],"hash":"0xc"},
        {"coin":"BTC","side":"A","px":"50000.0","sz":"0.02","time":1700000000001,"tid":124,"users":["0xd","0xe"],"hash":"0xf"}
    ]}"#;
    let event = HyperliquidDecoder::decode(raw).unwrap().unwrap();
    let evs = HyperliquidNormalizer::default().normalize(event);
    assert_eq!(evs.len(), 2);
    match &evs[0] {
        DomainEvent::Trade { trade, sequence } => {
            assert_eq!(trade.side, TradeSide::Buy);
            assert_eq!(trade.exchange, "hyperliquid");
            assert_eq!(trade.id, "123");
            assert_eq!(trade.pair.to_canonical(), "BTC/USDC");
            assert_eq!(trade.source_trade_ts_us, 1_700_000_000_000_000);
            assert_eq!(sequence, &None);
        }
        other => panic!("expected Trade, got {other:?}"),
    }
    match &evs[1] {
        DomainEvent::Trade { trade, .. } => {
            assert_eq!(trade.side, TradeSide::Sell);
        }
        other => panic!("expected Trade, got {other:?}"),
    }
}

#[test]
fn drops_trade_with_unparseable_decimal() {
    let raw = r#"{"channel":"trades","data":[
        {"coin":"BTC","side":"B","px":"not-a-number","sz":"0.01","time":1,"tid":1}
    ]}"#;
    let event = HyperliquidDecoder::decode(raw).unwrap().unwrap();
    let evs = HyperliquidNormalizer::default().normalize(event);
    assert!(evs.is_empty());
}

#[test]
fn subscribe_frames_filter_on_declared_datatypes() {
    let symbols = vec!["BTC".to_string()];
    let both = HyperliquidHooks.subscribe_frames(&symbols, &DeclaredSet::all());
    assert_eq!(both.len(), 3);
    let ob_only = HyperliquidHooks.subscribe_frames(&symbols, &DeclaredSet::only(DD::Orderbook));
    assert_eq!(ob_only.len(), 1);
    let body = &ob_only[0];
    let v: serde_json::Value = serde_json::from_str(body).unwrap();
    assert_eq!(v["method"], "subscribe");
    assert_eq!(v["subscription"]["type"], "l2Book");
    assert_eq!(v["subscription"]["coin"], "BTC");
    let trades_only = HyperliquidHooks.subscribe_frames(&symbols, &DeclaredSet::only(DD::Trades));
    assert_eq!(trades_only.len(), 1);
    let none = HyperliquidHooks.subscribe_frames(&symbols, &DeclaredSet::only(DD::Orderbook).without(DD::Orderbook));
    assert!(none.is_empty());
}

const CTX_FRAME: &str = r#"{"channel":"activeAssetCtx","data":{"coin":"BTC","ctx":{"funding":"0.0000125","openInterest":"12345.678","prevDayPx":"50000.0","dayNtlVlm":"123456789.0","markPx":"50100.5","midPx":"50100.0","oraclePx":"50099.0","premium":"0.00001","impactPxs":["50099.5","50100.5"],"dayBaseVlm":"2500.0"}}}"#;

#[test]
fn normalizes_asset_ctx_into_funding_and_oi_samples() {
    let event = HyperliquidDecoder::decode(CTX_FRAME).unwrap().unwrap();
    let evs = HyperliquidNormalizer::default().normalize(event);
    assert_eq!(evs.len(), 2);
    match &evs[0] {
        DomainEvent::FundingRate(fr) => {
            assert_eq!(fr.pair.to_canonical(), "BTC/USDC");
            assert_eq!(fr.funding_rate, dec("0.0000125"));
            assert_eq!(fr.premium, Some(dec("0.00001")));
            assert_eq!(fr.interval_hours, 1);
            assert_eq!(fr.funding_rate_ts_us, 0);
            assert_eq!(fr.exchange, "hyperliquid");
        }
        other => panic!("expected FundingRate, got {other:?}"),
    }
    match &evs[1] {
        DomainEvent::OpenInterest(oi) => {
            assert_eq!(oi.open_interest, dec("12345.678"));
            assert_eq!(oi.mark_px, Some(dec("50100.5")));
            assert_eq!(oi.open_interest_value, None);
            assert_eq!(oi.open_interest_ts_us, 0);
        }
        other => panic!("expected OpenInterest, got {other:?}"),
    }
}

#[test]
fn asset_ctx_respects_the_declared_set() {
    let event = HyperliquidDecoder::decode(CTX_FRAME).unwrap().unwrap();
    let mut normalizer =
        HyperliquidNormalizer { metrics: SourceMetrics::default(), declared: DeclaredSet::only(DD::FundingRates) };
    let evs = normalizer.normalize(event);
    assert_eq!(evs.len(), 1);
    assert!(matches!(evs[0], DomainEvent::FundingRate(_)));

    let event = HyperliquidDecoder::decode(CTX_FRAME).unwrap().unwrap();
    let mut normalizer =
        HyperliquidNormalizer { metrics: SourceMetrics::default(), declared: DeclaredSet::only(DD::Orderbook) };
    assert!(normalizer.normalize(event).is_empty());
}

#[test]
fn subscribe_adds_asset_ctx_only_for_derivative_datatypes() {
    let symbols = vec!["BTC".to_string()];
    let all = HyperliquidHooks.subscribe_frames(&symbols, &DeclaredSet::all());
    assert_eq!(all.len(), 3);
    let v: serde_json::Value = serde_json::from_str(&all[2]).unwrap();
    assert_eq!(v["subscription"]["type"], "activeAssetCtx");

    let funding_only = HyperliquidHooks.subscribe_frames(&symbols, &DeclaredSet::only(DD::FundingRates));
    assert_eq!(funding_only.len(), 1);

    let book_trades = HyperliquidHooks.subscribe_frames(
        &symbols,
        &DeclaredSet::only(DD::Orderbook).without(DD::Orderbook).without(DD::Trades),
    );
    assert!(book_trades.is_empty());
    let spot_style = HyperliquidHooks.subscribe_frames(
        &symbols,
        &DeclaredSet::all().without(DD::FundingRates).without(DD::OpenInterest).without(DD::Liquidations),
    );
    assert_eq!(spot_style.len(), 2);
}

#[test]
fn decoder_dispatches_on_channel_and_swallows_control_frames() {
    let book = r#"{"channel":"l2Book","data":{"coin":"BTC","time":1,"levels":[[],[]]}}"#;
    assert!(matches!(HyperliquidDecoder::decode(book).unwrap(), Some(HyperliquidWssEvent::Book(_))));
    assert!(HyperliquidDecoder::decode(r#"{"channel":"subscriptionResponse","data":{}}"#).unwrap().is_none());
    assert!(HyperliquidDecoder::decode(r#"{"channel":"pong"}"#).unwrap().is_none());
}

#[test]
fn profile_uses_bare_coin_codec_full_refresh_and_ten_connection_cap() {
    let a = HyperliquidAdapter;
    assert_eq!(a.id(), "hyperliquid");
    assert!(matches!(a.profile().symbol_codec, SymbolCodec::BareCoin { quote: "USDC" }));
    assert!(matches!(a.book_model("orderbook"), ReconstructionModel::FullRefresh));
    assert_eq!(a.profile().budget.max_connections, Some(10));
}
