use aetelier::calendar::CalendarDate;
use aetelier::entrepot::{
    hyperliquid_l2book_keys, EntrepotReplay, EntrepotWindow, HyperliquidEntrepotAdapter, HyperliquidEnvelopeLines,
    LineDecoder, ReplayStep, TaskExit,
};
use aetelier::model::{DeclaredDatatype as DD, DomainEvent, ReconstructionModel, SourceMetrics};
use aetelier::store::{EntrepotError, IoKind};

fn window(start: (i32, u32, u32), end: (i32, u32, u32), coins: &[&str]) -> EntrepotWindow {
    EntrepotWindow {
        start: CalendarDate::from_ymd_opt(start.0, start.1, start.2).unwrap(),
        end: CalendarDate::from_ymd_opt(end.0, end.1, end.2).unwrap(),
        coins: coins.iter().map(|c| c.to_string()).collect(),
    }
}

const BOOK: &str = r#"{"channel":"l2Book","data":{"coin":"BTC","time":1700000000000,"levels":[[{"px":"1","sz":"2","n":1}],[{"px":"3","sz":"4","n":2}]]}}"#;
const TRADES: &str = r#"{"channel":"trades","data":[{"coin":"BTC","side":"B","px":"1","sz":"1","time":1,"tid":1},{"coin":"BTC","side":"A","px":"2","sz":"1","time":2,"tid":2}]}"#;

#[test]
fn window_keys_run_day_by_day_hour_by_hour_coin_by_coin() {
    let keys = hyperliquid_l2book_keys(&window((2024, 2, 28), (2024, 3, 1), &["BTC", "ETH"]));
    assert_eq!(keys.len(), 3 * 24 * 2);
    assert_eq!(keys[0], "market_data/20240228/0/l2Book/BTC.lz4");
    assert_eq!(keys[1], "market_data/20240228/0/l2Book/ETH.lz4");
    assert_eq!(keys[48], "market_data/20240229/0/l2Book/BTC.lz4");
    assert_eq!(keys[143], "market_data/20240301/23/l2Book/ETH.lz4");
    assert!(hyperliquid_l2book_keys(&window((2024, 3, 2), (2024, 3, 1), &["BTC"])).is_empty());
    assert!(hyperliquid_l2book_keys(&window((2024, 3, 1), (2024, 3, 1), &[])).is_empty());
}

#[test]
fn replay_fetches_keys_in_order_then_exhausts() {
    let mut r = EntrepotReplay::new(vec!["a".to_string(), "b".to_string()]);
    assert_eq!(r.next_step(false), ReplayStep::Fetch("a".to_string()));
    assert_eq!(r.next_step(false), ReplayStep::Fetch("b".to_string()));
    assert_eq!(r.next_step(false), ReplayStep::Finish(TaskExit::Exhausted));
    assert_eq!(r.next_step(false), ReplayStep::Finish(TaskExit::Exhausted));
    let mut r = EntrepotReplay::new(vec!["a".to_string()]);
    assert_eq!(r.next_step(true), ReplayStep::Finish(TaskExit::Completed));
    assert_eq!(r.next_step(false), ReplayStep::Fetch("a".to_string()));
}

#[test]
fn absent_objects_are_gaps_other_failures_end_the_replay() {
    let mut r = EntrepotReplay::new(vec!["a".to_string()]);
    let _ = r.next_step(false);
    let missing = EntrepotError::Status { status: 404, key: "a".to_string(), body: String::new() };
    assert_eq!(r.fetch_failed(missing), None);
    let gone = EntrepotError::Io { key: "a".to_string(), kind: IoKind::NotFound };
    assert_eq!(r.fetch_failed(gone), None);
    assert_eq!(r.metrics().gaps, 2);
    let denied = EntrepotError::Status { status: 403, key: "a".to_string(), body: String::new() };
    assert_eq!(r.fetch_failed(denied.clone()), Some(TaskExit::Failed(denied)));
    let creds = EntrepotError::Credentials("no key".to_string());
    assert_eq!(r.fetch_failed(creds.clone()), Some(TaskExit::Failed(creds)));
    assert_eq!(r.metrics().gaps, 2);
    r.payload_undecodable();
    assert_eq!(r.metrics(), SourceMetrics { msgs: 0, dropped_frames: 0, gaps: 2, decode_err: 1 });
}

#[test]
fn replayed_lines_are_stamped_and_numbered_in_order() {
    let mut r = EntrepotReplay::new(Vec::new());
    let dec = HyperliquidEnvelopeLines;
    let evs = r.replay_line(&dec, BOOK, 42);
    assert_eq!(evs.len(), 1);
    match &evs[0] {
        DomainEvent::Book(d) => {
            assert_eq!(d.local_orderbook_ts_us, 42);
            assert_eq!(d.source_orderbook_rtt_us, 0);
            assert_eq!(d.source_orderbook_ts_us, 1_700_000_000_000_000);
        }
        other => panic!("unexpected {other:?}"),
    }
    let evs = r.replay_line(&dec, TRADES, 43);
    assert_eq!(evs.len(), 2);
    for e in &evs {
        match e {
            DomainEvent::Trade { trade, .. } => assert_eq!(trade.local_trade_ts_us, 43),
            other => panic!("unexpected {other:?}"),
        }
    }
    assert!(r.replay_line(&dec, "not a frame", 44).is_empty());
    assert!(r.replay_line(&dec, r#"{"channel":"pong"}"#, 45).is_empty());
    assert_eq!(r.metrics(), SourceMetrics { msgs: 3, dropped_frames: 0, gaps: 0, decode_err: 1 });
}

#[test]
fn envelope_lines_are_replayed_frames() {
    let dec = HyperliquidEnvelopeLines;
    assert_eq!(dec.decode_line(BOOK).unwrap().len(), 1);
    assert!(dec.decode_line("{").is_err());
}

#[test]
fn entrepot_adapter_describes_the_archive() {
    let a = HyperliquidEntrepotAdapter::new(&window((2026, 8, 5), (2026, 8, 5), &["BTC"]));
    assert_eq!(a.keys().len(), 24);
    assert_eq!(a.id(), "hyperliquid");
    let p = a.profile();
    assert_eq!(p.id, "hyperliquid");
    assert_eq!(p.schema_version, 1);
    assert_eq!(a.book_model("l2Book"), ReconstructionModel::FullRefresh);
    assert_eq!(a.supported_datatypes()[0], DD::Orderbook);
    let r = a.replay();
    assert_eq!(r.metrics(), SourceMetrics::new());
    let b = a.with_decoder(HyperliquidEnvelopeLines);
    assert_eq!(b.keys().len(), 24);
}

/// Drives a replay of one day of BTC keys to its end: `staged` says what
/// the store holds for a key (the lines of the object, or `Err` for an
/// object whose payload cannot be read); other keys are absent (404).
fn drive_day(
    staged: &dyn Fn(&str) -> Option<Result<Vec<String>, ()>>,
    shutdown: bool,
) -> (TaskExit, Vec<DomainEvent>, SourceMetrics) {
    let adapter = HyperliquidEntrepotAdapter::new(&window((2026, 8, 5), (2026, 8, 5), &["BTC"]));
    let mut replay = adapter.replay();
    let mut events = Vec::new();
    let mut clock: u64 = 1_000;
    loop {
        let key = match replay.next_step(shutdown) {
            ReplayStep::Fetch(k) => k,
            ReplayStep::Finish(exit) => return (exit, events, replay.metrics()),
        };
        match staged(&key) {
            None => {
                let err = EntrepotError::Status { status: 404, key: key.clone(), body: String::new() };
                if let Some(exit) = replay.fetch_failed(err) {
                    return (exit, events, replay.metrics());
                }
            }
            Some(Err(())) => replay.payload_undecodable(),
            Some(Ok(lines)) => {
                for line in lines {
                    clock += 1;
                    events.extend(replay.replay_line(adapter.decoder(), &line, clock));
                }
            }
        }
    }
}

fn fixture_lines(n: usize) -> Vec<String> {
    (0..n).map(|i| if i % 2 == 0 { BOOK.to_string() } else { TRADES.to_string() }).collect()
}

#[test]
fn replays_a_staged_hour_and_exhausts() {
    let lines = fixture_lines(200);
    let staged = |k: &str| (k == "market_data/20260805/12/l2Book/BTC.lz4").then(|| Ok(lines.clone()));
    let (exit, events, m) = drive_day(&staged, false);
    assert_eq!(exit, TaskExit::Exhausted);
    assert!(!events.is_empty());
    let books = events.iter().filter(|e| matches!(e, DomainEvent::Book(_))).count();
    assert!(books > 0);
    for ev in &events {
        if let DomainEvent::Book(d) = ev {
            assert!(d.local_orderbook_ts_us > 0);
            assert!(d.is_snapshot);
        }
    }
    assert!(m.msgs > 0);
    assert_eq!(m.msgs as usize, events.len());
    assert_eq!(m.gaps, 23);
}

#[test]
fn missing_hours_skip_and_corrupt_objects_count() {
    let lines = fixture_lines(40);
    let staged = |k: &str| match k {
        "market_data/20260805/3/l2Book/BTC.lz4" => Some(Ok(lines.clone())),
        "market_data/20260805/4/l2Book/BTC.lz4" => Some(Err(())),
        _ => None,
    };
    let (exit, events, m) = drive_day(&staged, false);
    assert_eq!(exit, TaskExit::Exhausted);
    assert!(!events.is_empty());
    assert_eq!(m.gaps, 22);
    assert_eq!(m.decode_err, 1);
}

#[test]
fn shutdown_interrupts_with_completed_not_exhausted() {
    let (exit, events, _) = drive_day(&|_| None, true);
    assert_eq!(exit, TaskExit::Completed);
    assert!(events.is_empty());
}
