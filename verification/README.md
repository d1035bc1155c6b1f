# aetelier

Market-data collection helpers for the aetelier engine, written in Verus:
the executable code carries `requires`/`ensures` contracts and is proved
against them.

## Layout

- `src/` — the verified library.
  - `text`, `decimal`, `json`, `calendar`, `clock` — plain-value views of
    strings, `rust_decimal` decimals, `serde_json` documents, `chrono` dates
    and the wall clock. The few calls into those crates sit behind small
    trusted wrappers whose contracts say what the crates document.
  - `model` — trading pairs, declared datatypes, domain events, builders,
    per-source counters and venue profiles.
  - `hyperliquid` — frame decoding, normalization (with drop accounting),
    subscription frames and the funding-settlement poll.
  - `kucoin` — level-2 update payloads.
  - `store`, `s3` — object listings, request URLs, retry decisions and the
    reading of `ListObjectsV2` pages.
  - `entrepot` — archive keys of a window of days and the replay state
    machine that turns archived lines into stamped events.
  - `persist` — the column layout of funding and open-interest files, reading
    rows back, file names, and the plan and report of a snapshot flush.
- `tests/` — tests of the library on concrete values.
- `app/` — the unverified I/O around it: the HTTP client, local and S3
  object sources, websocket and replay tasks, and Parquet files.

## Limits

- Requests to S3 are not signed: the library builds the unsigned headers of
  a request (payload hash, requester-pays), but no SigV4 signature. The
  client in `app/` therefore refuses credentialed configurations and works
  with anonymous (public or path-style) buckets only.
- The app is built without a TLS feature for `reqwest` and
  `tokio-tungstenite`; `https`/`wss` endpoints need one enabled.
