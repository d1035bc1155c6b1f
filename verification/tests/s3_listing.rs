use aetelier::s3::{parse_list_page, unsigned_headers, S3Config};

const LIST_XML: &str = r#"<?xml version="1.0" encoding="UTF-8"?>
<ListBucketResult xmlns="http://s3.amazonaws.com/doc/2006-03-01/">
  <Name>hyperliquid-archive</Name>
  <Prefix>market_data/20230916/9/l2Book/</Prefix>
  <KeyCount>2</KeyCount>
  <MaxKeys>1000</MaxKeys>
  <IsTruncated>true</IsTruncated>
  <NextContinuationToken>1ueGcxLPRx1Tr</NextContinuationToken>
  <Contents>
    <Key>market_data/20230916/9/l2Book/BTC.lz4</Key>
    <LastModified>2023-10-01T12:00:00.000Z</LastModified>
    <ETag>&quot;9b2cf535f27731c974343645a3985328&quot;</ETag>
    <Size>1048576</Size>
    <StorageClass>STANDARD</StorageClass>
  </Contents>
  <Contents>
    <Key>market_data/20230916/9/l2Book/SOL.lz4</Key>
    <LastModified>2023-10-01T12:00:01.000Z</LastModified>
    <ETag>&quot;abcdef0123456789abcdef0123456789-3&quot;</ETag>
    <Size>524288</Size>
    <StorageClass>STANDARD</StorageClass>
  </Contents>
</ListBucketResult>"#;

#[test]
fn parses_a_v2_list_page() {
    let page = parse_list_page(LIST_XML).unwrap();
    assert!(page.is_truncated);
    assert_eq!(page.next_token.as_deref(), Some("1ueGcxLPRx1Tr"));
    assert_eq!(page.objects.len(), 2);
    assert_eq!(page.objects[0].key, "market_data/20230916/9/l2Book/BTC.lz4");
    assert_eq!(page.objects[0].size, 1_048_576);
    assert_eq!(page.objects[0].etag.as_deref(), Some("9b2cf535f27731c974343645a3985328"));
    assert_eq!(page.objects[1].etag.as_deref(), Some("abcdef0123456789abcdef0123456789-3"));
}

#[test]
fn final_page_reports_no_token() {
    let xml = LIST_XML
        .replace("<IsTruncated>true</IsTruncated>", "<IsTruncated>false</IsTruncated>")
        .replace("<NextContinuationToken>1ueGcxLPRx1Tr</NextContinuationToken>", "");
    let page = parse_list_page(&xml).unwrap();
    assert!(!page.is_truncated);
    assert_eq!(page.next_token, None);
}

#[test]
fn anonymous_mode_sends_no_headers_and_honors_a_path_style_endpoint() {
    let cfg = S3Config::anonymous(
        "public.bitmex.com",
        "eu-west-1",
        Some("https://s3-eu-west-1.amazonaws.com/public.bitmex.com".to_string()),
    );
    assert_eq!(cfg.base_url(), "https://s3-eu-west-1.amazonaws.com/public.bitmex.com");
    assert!(!cfg.requester_pays);
    assert!(unsigned_headers(&cfg).is_empty());
}

#[test]
fn virtual_hosted_url_derives_from_bucket_and_region() {
    let cfg = S3Config {
        bucket: "hyperliquid-archive".to_string(),
        region: "us-east-1".to_string(),
        requester_pays: true,
        credentials: Some(aetelier::s3::Credentials { access_key: "a".to_string(), secret_key: "s".to_string() }),
        endpoint: None,
    };
    assert_eq!(cfg.host(), "hyperliquid-archive.s3.us-east-1.amazonaws.com");
    assert_eq!(cfg.base_url(), "https://hyperliquid-archive.s3.us-east-1.amazonaws.com");
}
