use aetelier::s3::{
    after_status, after_transport_error, classify_status, list_query, next_list_token, parse_retry_after,
    request_url, status_error, unsigned_headers, uri_encode, AttemptDecision, Credentials, ListPage, RetryPolicy,
    S3Config, Verdict, EMPTY_PAYLOAD_SHA256,
};
use aetelier::store::{object_absent, EntrepotError, IoKind};

fn local(endpoint: &str) -> S3Config {
    S3Config::anonymous("hyperliquid-archive", "ap-northeast-1", Some(endpoint.to_string()))
}

#[test]
fn endpoint_host_drops_scheme_and_trailing_slashes() {
    assert_eq!(local("http://localhost:9000/").host(), "localhost:9000");
    assert_eq!(local("https://minio.local//").host(), "minio.local");
    assert_eq!(local("minio.local").host(), "minio.local");
    assert_eq!(local("http://localhost:9000/").base_url(), "http://localhost:9000");
}

#[test]
fn aws_endpoint_is_virtual_hosted_over_https() {
    let cfg = S3Config::anonymous("hyperliquid-archive", "ap-northeast-1", None);
    assert_eq!(cfg.host(), "hyperliquid-archive.s3.ap-northeast-1.amazonaws.com");
    assert_eq!(cfg.base_url(), "https://hyperliquid-archive.s3.ap-northeast-1.amazonaws.com");
}

#[test]
fn request_url_encodes_query_values_slashes_included() {
    let cfg = local("http://localhost:9000/");
    let q = list_query("market_data/20230916/9/", &None);
    assert_eq!(
        request_url(&cfg, "/hyperliquid-archive", &q),
        "http://localhost:9000/hyperliquid-archive?list-type=2&prefix=market_data%2F20230916%2F9%2F"
    );
    let q = list_query("p", &Some("a b+c".to_string()));
    assert_eq!(q.len(), 3);
    assert_eq!(
        request_url(&cfg, "/b", &q),
        "http://localhost:9000/b?list-type=2&prefix=p&continuation-token=a%20b%2Bc"
    );
    assert_eq!(request_url(&cfg, "/b/key.lz4", &Vec::new()), "http://localhost:9000/b/key.lz4");
}

#[test]
fn uri_encode_keeps_unreserved_bytes_and_optionally_slashes() {
    assert_eq!(uri_encode("a/b c~é-_.", false), "a/b%20c~%C3%A9-_.");
    assert_eq!(uri_encode("a/b c~é-_.", true), "a%2Fb%20c~%C3%A9-_.");
    assert_eq!(uri_encode("", true), "");
}

#[test]
fn only_a_truncated_page_continues() {
    let page = ListPage { objects: Vec::new(), is_truncated: true, next_token: Some("tok".to_string()) };
    assert_eq!(next_list_token(&page), Some("tok".to_string()));
    let page = ListPage { objects: Vec::new(), is_truncated: false, next_token: Some("tok".to_string()) };
    assert_eq!(next_list_token(&page), None);
    let page = ListPage { objects: Vec::new(), is_truncated: true, next_token: None };
    assert_eq!(next_list_token(&page), None);
}

#[test]
fn signed_configuration_sends_payload_hash_and_requester_pays() {
    let creds = Credentials { access_key: "AK".to_string(), secret_key: "SK".to_string() };
    let cfg = S3Config::with_credentials("b", "us-east-1", creds);
    let h = unsigned_headers(&cfg);
    assert_eq!(h.len(), 2);
    assert_eq!(h[0], ("x-amz-content-sha256".to_string(), EMPTY_PAYLOAD_SHA256.to_string()));
    assert_eq!(h[1], ("x-amz-request-payer".to_string(), "requester".to_string()));
    let mut cfg = cfg;
    cfg.requester_pays = false;
    assert_eq!(unsigned_headers(&cfg).len(), 1);
}

#[test]
fn statuses_split_into_success_retry_and_fatal() {
    assert_eq!(classify_status(200), Verdict::Success);
    assert_eq!(classify_status(206), Verdict::Success);
    assert_eq!(classify_status(408), Verdict::RetryAfterBackoff);
    assert_eq!(classify_status(429), Verdict::RetryAfterBackoff);
    assert_eq!(classify_status(503), Verdict::RetryAfterBackoff);
    assert_eq!(classify_status(404), Verdict::Fatal);
    assert_eq!(classify_status(403), Verdict::Fatal);
    assert_eq!(classify_status(301), Verdict::Fatal);
}

#[test]
fn backoff_doubles_from_the_base_up_to_the_cap() {
    let p = RetryPolicy::default();
    assert_eq!(p.delay_for(0, None), 500);
    assert_eq!(p.delay_for(1, None), 1000);
    assert_eq!(p.delay_for(5, None), 16_000);
    assert_eq!(p.delay_for(6, None), 30_000);
    assert_eq!(p.delay_for(40, None), 30_000);
    assert_eq!(p.delay_for(0, Some(2)), 2000);
    assert_eq!(p.delay_for(0, Some(100)), 30_000);
    assert!(!p.exhausted(4));
    assert!(p.exhausted(5));
}

#[test]
fn retry_after_is_read_as_seconds() {
    assert_eq!(parse_retry_after("120"), Some(120));
    assert_eq!(parse_retry_after("+7"), Some(7));
    assert_eq!(parse_retry_after(""), None);
    assert_eq!(parse_retry_after(" 5"), None);
    assert_eq!(parse_retry_after("Wed, 21 Oct 2015 07:28:00 GMT"), None);
    assert_eq!(parse_retry_after("18446744073709551616"), None);
}

#[test]
fn decisions_after_a_status() {
    let p = RetryPolicy::default();
    assert_eq!(after_status(&p, 0, "k", 200, None), AttemptDecision::ReadBody);
    assert_eq!(after_status(&p, 0, "k", 404, None), AttemptDecision::ReadErrorBody);
    assert_eq!(after_status(&p, 2, "k", 503, None), AttemptDecision::Retry { delay_ms: 2000 });
    assert_eq!(after_status(&p, 0, "k", 429, Some(3)), AttemptDecision::Retry { delay_ms: 3000 });
    assert_eq!(
        after_status(&p, 5, "market_data/x", 503, None),
        AttemptDecision::Fail(EntrepotError::Exhausted {
            attempts: 6,
            key: "market_data/x".to_string(),
            last: "http 503".to_string(),
        })
    );
}

#[test]
fn decisions_after_a_transport_error() {
    let p = RetryPolicy::default();
    assert_eq!(after_transport_error(&p, 1, true, "reset".to_string()), AttemptDecision::Retry { delay_ms: 1000 });
    assert_eq!(
        after_transport_error(&p, 1, false, "dns".to_string()),
        AttemptDecision::Fail(EntrepotError::Transport("dns".to_string()))
    );
    assert_eq!(
        after_transport_error(&p, 5, true, "reset".to_string()),
        AttemptDecision::Fail(EntrepotError::Transport("reset".to_string()))
    );
}

#[test]
fn status_error_keeps_at_most_2048_characters_of_the_body() {
    let long = "é".repeat(3000);
    match status_error(403, "k", &long) {
        EntrepotError::Status { status, key, body } => {
            assert_eq!(status, 403);
            assert_eq!(key, "k");
            assert_eq!(body.chars().count(), 2048);
        }
        other => panic!("unexpected {other:?}"),
    }
    assert_eq!(
        status_error(400, "k", "bad"),
        EntrepotError::Status { status: 400, key: "k".to_string(), body: "bad".to_string() }
    );
}

#[test]
fn absence_is_a_404_or_a_missing_file() {
    let s = |status| EntrepotError::Status { status, key: "k".to_string(), body: String::new() };
    assert!(object_absent(&s(404)));
    assert!(!object_absent(&s(403)));
    assert!(object_absent(&EntrepotError::Io { key: "k".to_string(), kind: IoKind::NotFound }));
    assert!(!object_absent(&EntrepotError::Io { key: "k".to_string(), kind: IoKind::PermissionDenied }));
    assert!(!object_absent(&EntrepotError::Transport("x".to_string())));
}
