use aetelier::calendar::CalendarDate;
use aetelier::entrepot::{build_entrepot_adapter, hyperliquid_l2book_keys, EntrepotWindow};

fn window(coins: &[&str]) -> EntrepotWindow {
    EntrepotWindow {
        start: CalendarDate::from_ymd_opt(2026, 8, 5).unwrap(),
        end: CalendarDate::from_ymd_opt(2026, 8, 6).unwrap(),
        coins: coins.iter().map(|c| c.to_string()).collect(),
    }
}

#[test]
fn key_grammar_matches_the_documented_layout() {
    let keys = hyperliquid_l2book_keys(&window(&["BTC"]));
    assert_eq!(keys.len(), 48);
    assert_eq!(keys[0], "market_data/20260805/0/l2Book/BTC.lz4");
    assert_eq!(keys[9], "market_data/20260805/9/l2Book/BTC.lz4");
    assert_eq!(keys[47], "market_data/20260806/23/l2Book/BTC.lz4");
    assert!(keys.iter().all(|k| !k.contains("/09/")));
}

#[test]
fn factory_knows_hyperliquid_and_nothing_else() {
    assert!(build_entrepot_adapter("hyperliquid", &window(&["BTC"])).is_some());
    assert!(build_entrepot_adapter("binance", &window(&["BTC"])).is_none());
}
