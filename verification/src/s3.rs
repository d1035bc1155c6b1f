//! The S3 object store: addressing a bucket, reading `ListObjectsV2` pages,
//! and deciding what to do after each request attempt.

use vstd::prelude::*;

use quick_xml::events::Event;
use vstd::string::StringSliceAdditionalSpecFns;

use crate::store::{EntrepotError, ObjectMeta};
use crate::text::{
    decimal_text, parse_u64, push_str, trim_char, trim_end_char, trim_end_matches, trim_matches, trim_prefixes_and_end,
    trim_start_all, u64_from_text, u64_to_text,
};

verus! {

/// An access key pair.
#[derive(Debug, Clone, PartialEq, Eq)]
pub struct Credentials {
    pub access_key: String,
    pub secret_key: String,
}

/// Where a bucket is and how to reach it.
#[derive(Debug, Clone, PartialEq, Eq)]
pub struct S3Config {
    pub bucket: String,
    pub region: String,
    /// Whether the requester pays for transfer (sent as `x-amz-request-payer`).
    pub requester_pays: bool,
    /// Requests are signed when present, anonymous otherwise.
    pub credentials: Option<Credentials>,
    /// A custom endpoint (path style); the virtual-hosted AWS endpoint otherwise.
    pub endpoint: Option<String>,
}

/// The host a configuration talks to: the endpoint without scheme and
/// trailing slashes, or `BUCKET.s3.REGION.amazonaws.com`.
pub open spec fn host_of(c: S3Config) -> Seq<char> {
    match c.endpoint {
        Some(e) => trim_end_char(trim_start_all(trim_start_all(e@, "https://"@), "http://"@), '/'),
        None => c.bucket@ + ".s3."@ + c.region@ + ".amazonaws.com"@,
    }
}

/// The base URL of requests: the endpoint without trailing slashes, or
/// `https://` and the host.
pub open spec fn base_url_of(c: S3Config) -> Seq<char> {
    match c.endpoint {
        Some(e) => trim_end_char(e@, '/'),
        None => "https://"@ + host_of(c),
    }
}

impl S3Config {
    /// An anonymous configuration (no credentials, requester does not pay).
    pub fn anonymous(bucket: &str, region: &str, endpoint: Option<String>) -> (c: S3Config)
        ensures
            c.bucket@ == bucket@,
            c.region@ == region@,
            !c.requester_pays,
            c.credentials is None,
            c.endpoint == endpoint,
    {
        S3Config {
            bucket: String::from_str(bucket),
            region: String::from_str(region),
            requester_pays: false,
            credentials: None,
            endpoint,
        }
    }

    /// A configuration that signs with `credentials` and pays as requester,
    /// on the AWS endpoint.
    pub fn with_credentials(bucket: &str, region: &str, credentials: Credentials) -> (c: S3Config)
        ensures
            c.bucket@ == bucket@,
            c.region@ == region@,
            c.requester_pays,
            c.credentials == Some(credentials),
            c.endpoint is None,
    {
        S3Config {
            bucket: String::from_str(bucket),
            region: String::from_str(region),
            requester_pays: true,
            credentials: Some(credentials),
            endpoint: None,
        }
    }

    /// The host requests go to.
    pub fn host(&self) -> (h: String)
        ensures
            h@ == host_of(*self),
    {
        match &self.endpoint {
            Some(e) => {
                proof {
                    reveal_strlit("https://");
                    reveal_strlit("http://");
                }
                trim_prefixes_and_end(e.as_str(), "https://", "http://", '/')
            },
            None => {
                let mut h = self.bucket.clone();
                push_str(&mut h, ".s3.");
                push_str(&mut h, self.region.as_str());
                push_str(&mut h, ".amazonaws.com");
                h
            },
        }
    }

    /// The base URL of requests.
    pub fn base_url(&self) -> (u: String)
        ensures
            u@ == base_url_of(*self),
    {
        match &self.endpoint {
            Some(e) => trim_end_matches(e.as_str(), '/'),
            None => {
                let mut u = String::from_str("https://");
                let h = self.host();
                push_str(&mut u, h.as_str());
                u
            },
        }
    }
}

} // verus!
verus! {

/// One event of an XML document, as the listing reader needs it.
#[derive(Debug, Clone, PartialEq, Eq)]
pub enum XmlEvent {
    /// An opening tag, by its local name.
    Start(String),
    /// A closing tag, by its local name.
    End(String),
    /// Text between tags, trimmed and unescaped.
    Text(String),
    /// Anything else (declarations, comments, empty tags, CDATA).
    Other,
}

/// The events `quick_xml` reads from a document, up to its end, or the text
/// of its first error.
pub uninterp spec fn xml_event_stream(xml: Seq<char>) -> Result<Vec<XmlEvent>, String>;

/// Reads a document with `quick_xml::Reader::from_str` and text trimming
/// on, calling `read_event` up to `Eof`: each start and end tag by its
/// `local_name`, each text by `unescape`; other events as `Other`. The first
/// error ends the read. The outcome is the name `xml_event_stream`.
#[verifier::external_body]
fn quick_xml_events(xml: &str) -> (r: Result<Vec<XmlEvent>, String>)
    ensures
        r == xml_event_stream(xml@),
{
    let mut reader = quick_xml::Reader::from_str(xml);
    reader.config_mut().trim_text(true);
    let mut out = Vec::new();
    loop {
        out.push(match reader.read_event().map_err(|e| e.to_string())? {
            Event::Start(t) => XmlEvent::Start(String::from_utf8_lossy(t.local_name().as_ref()).to_string()),
            Event::End(t) => XmlEvent::End(String::from_utf8_lossy(t.local_name().as_ref()).to_string()),
            Event::Text(t) => XmlEvent::Text(t.unescape().map_err(|e| e.to_string())?.into_owned()),
            Event::Eof => return Ok(out),
            _ => XmlEvent::Other,
        });
    }
}

/// An object of a listing, by its views.
pub struct ObjectView {
    pub key: Seq<char>,
    pub size: u64,
    pub etag: Option<Seq<char>>,
    pub last_modified: Option<Seq<char>>,
}

/// The view of an optional string.
pub open spec fn opt_view(o: Option<String>) -> Option<Seq<char>> {
    match o {
        Some(s) => Some(s@),
        None => None,
    }
}

/// The view of a listed object.
pub open spec fn object_view(o: ObjectMeta) -> ObjectView {
    ObjectView { key: o.key@, size: o.size, etag: opt_view(o.etag), last_modified: opt_view(o.last_modified) }
}

/// The state of reading a listing page.
pub struct ListScan {
    pub objects: Seq<ObjectView>,
    pub is_truncated: bool,
    pub next_token: Option<Seq<char>>,
    /// The names of the open tags, outermost first.
    pub path: Seq<Seq<char>>,
    /// The fields of the `Contents` element being read.
    pub key: Seq<char>,
    pub size: Option<u64>,
    pub etag: Option<Seq<char>>,
    pub last_modified: Option<Seq<char>>,
}

/// The state before the first event.
pub open spec fn scan_start() -> ListScan {
    ListScan {
        objects: Seq::empty(),
        is_truncated: false,
        next_token: None,
        path: Seq::empty(),
        key: Seq::empty(),
        size: None,
        etag: None,
        last_modified: None,
    }
}

/// Whether the innermost open tag is a child of `Contents`.
pub open spec fn in_contents(path: Seq<Seq<char>>) -> bool {
    path.len() >= 2 && path[path.len() - 2] == "Contents"@
}

/// One step of reading a listing page. An opening `Contents` starts a fresh
/// object; a closing `Contents` lists it when it has a size and a non-empty
/// key; texts fill the field named by the innermost tag (`Key`, `Size`,
/// `ETag` with its quotes trimmed, `LastModified` inside `Contents`;
/// `IsTruncated` and `NextContinuationToken` anywhere).
pub open spec fn scan_step(s: ListScan, e: XmlEvent) -> ListScan {
    match e {
        XmlEvent::Start(name) => {
            let path = s.path.push(name@);
            if name@ == "Contents"@ {
                ListScan { path, key: Seq::empty(), size: None, etag: None, last_modified: None, ..s }
            } else {
                ListScan { path, ..s }
            }
        },
        XmlEvent::End(name) => {
            let path = if s.path.len() > 0 { s.path.drop_last() } else { s.path };
            if name@ == "Contents"@ && s.size is Some && s.key.len() > 0 {
                ListScan {
                    objects: s.objects.push(ObjectView {
                        key: s.key,
                        size: s.size->0,
                        etag: s.etag,
                        last_modified: s.last_modified,
                    }),
                    path,
                    ..s
                }
            } else {
                ListScan { path, ..s }
            }
        },
        XmlEvent::Text(value) => {
            let v = value@;
            if s.path.len() == 0 {
                s
            } else {
                let last = s.path.last();
                if last == "Key"@ && in_contents(s.path) {
                    ListScan { key: v, ..s }
                } else if last == "Size"@ && in_contents(s.path) {
                    ListScan { size: u64_from_text(v), ..s }
                } else if last == "ETag"@ && in_contents(s.path) {
                    ListScan { etag: Some(trim_char(v, '"')), ..s }
                } else if last == "LastModified"@ && in_contents(s.path) {
                    ListScan { last_modified: Some(v), ..s }
                } else if last == "IsTruncated"@ {
                    ListScan { is_truncated: v == "true"@, ..s }
                } else if last == "NextContinuationToken"@ {
                    ListScan { next_token: Some(v), ..s }
                } else {
                    s
                }
            }
        },
        XmlEvent::Other => s,
    }
}

/// The state after reading `evs`.
pub open spec fn scan(evs: Seq<XmlEvent>) -> ListScan
    decreases evs.len(),
{
    if evs.len() == 0 {
        scan_start()
    } else {
        scan_step(scan(evs.drop_last()), evs.last())
    }
}

/// One page of a `ListObjectsV2` answer.
#[derive(Debug, Clone, PartialEq, Eq)]
pub struct ListPage {
    pub objects: Vec<ObjectMeta>,
    pub is_truncated: bool,
    pub next_token: Option<String>,
}

/// Whether `page` is what reading the events `evs` gives.
pub open spec fn page_of(evs: Seq<XmlEvent>, page: ListPage) -> bool {
    let s = scan(evs);
    &&& page.objects@.map_values(|o: ObjectMeta| object_view(o)) == s.objects
    &&& page.is_truncated == s.is_truncated
    &&& opt_view(page.next_token) == s.next_token
}

fn opt_clone(o: &Option<String>) -> (r: Option<String>)
    ensures
        r == *o,
{
    match o {
        Some(s) => Some(s.clone()),
        None => None,
    }
}

/// Reads a listing page from its XML events (see [`scan_step`]).
pub fn list_page_from_events(evs: &Vec<XmlEvent>) -> (page: ListPage)
    ensures
        page_of(evs@, page),
{
    let mut objects: Vec<ObjectMeta> = Vec::new();
    let mut is_truncated = false;
    let mut next_token: Option<String> = None;
    let mut path: Vec<String> = Vec::new();
    let mut key = String::new();
    let mut size: Option<u64> = None;
    let mut etag: Option<String> = None;
    let mut last_modified: Option<String> = None;
    let contents = String::from_str("Contents");
    let mut i: usize = 0;
    while i < evs.len()
        invariant
            i <= evs.len(),
            contents@ == "Contents"@,
            ({
                let s = scan(evs@.take(i as int));
                &&& objects@.map_values(|o: ObjectMeta| object_view(o)) == s.objects
                &&& is_truncated == s.is_truncated
                &&& opt_view(next_token) == s.next_token
                &&& path@.map_values(|p: String| p@) == s.path
                &&& key@ == s.key
                &&& size == s.size
                &&& opt_view(etag) == s.etag
                &&& opt_view(last_modified) == s.last_modified
            }),
        decreases evs.len() - i,
    {
        let ghost before = scan(evs@.take(i as int));
        assert(evs@.take(i + 1).drop_last() =~= evs@.take(i as int));
        let ghost objs0 = objects@;
        let ghost path0 = path@;
        match &evs[i] {
            XmlEvent::Start(name) => {
                if *name == contents {
                    key = String::new();
                    size = None;
                    etag = None;
                    last_modified = None;
                }
                path.push(name.clone());
                assert(path@.map_values(|p: String| p@) =~= path0.map_values(|p: String| p@).push(name@));
            },
            XmlEvent::End(name) => {
                if *name == contents && size.is_some() && key.unicode_len() > 0 {
                    let meta = ObjectMeta {
                        key: key.clone(),
                        size: size.unwrap(),
                        etag: opt_clone(&etag),
                        last_modified: opt_clone(&last_modified),
                    };
                    objects.push(meta);
                    assert(objects@.map_values(|o: ObjectMeta| object_view(o)) =~= objs0.map_values(
                        |o: ObjectMeta| object_view(o)).push(object_view(meta)));
                }
                if path.len() > 0 {
                    let _ = path.pop();
                    assert(path@.map_values(|p: String| p@) =~= path0.map_values(|p: String| p@).drop_last());
                }
            },
            XmlEvent::Text(value) => {
                if path.len() > 0 {
                    let n = path.len();
                    let last = &path[n - 1];
                    let inside = n >= 2 && path[n - 2] == contents;
                    assert(inside == in_contents(before.path));
                    assert(last@ == before.path.last());
                    if *last == String::from_str("Key") && inside {
                        key = value.clone();
                    } else if *last == String::from_str("Size") && inside {
                        size = parse_u64(value.as_str());
                    } else if *last == String::from_str("ETag") && inside {
                        etag = Some(trim_matches(value.as_str(), '"'));
                    } else if *last == String::from_str("LastModified") && inside {
                        last_modified = Some(value.clone());
                    } else if *last == String::from_str("IsTruncated") {
                        is_truncated = *value == String::from_str("true");
                    } else if *last == String::from_str("NextContinuationToken") {
                        next_token = Some(value.clone());
                    }
                }
            },
            XmlEvent::Other => {},
        }
        i += 1;
    }
    assert(evs@.take(evs.len() as int) =~= evs@);
    ListPage { objects, is_truncated, next_token }
}

/// Reads a `ListObjectsV2` page: an XML error becomes a listing error; the
/// page is otherwise what its events give.
pub fn parse_list_page(xml: &str) -> (r: Result<ListPage, EntrepotError>)
    ensures
        match xml_event_stream(xml@) {
            Err(msg) => r == Err::<ListPage, EntrepotError>(EntrepotError::ListParse(msg)),
            Ok(evs) => r matches Ok(page) && page_of(evs@, page),
        },
{
    match quick_xml_events(xml) {
        Err(msg) => Err(EntrepotError::ListParse(msg)),
        Ok(evs) => Ok(list_page_from_events(&evs)),
    }
}

} // verus!
verus! {

/// Whether a byte is left as it is by URI encoding: `A-Z a-z 0-9 - _ . ~`.
pub open spec fn unreserved(b: u8) -> bool {
    (65 <= b <= 90) || (97 <= b <= 122) || (48 <= b <= 57) || b == 45 || b == 95 || b == 46 || b == 126
}

/// The uppercase hexadecimal digit of `d < 16`.
pub open spec fn hex_digit(d: int) -> char {
    if d < 10 { (48 + d) as char } else { (55 + d) as char }
}

/// How one byte is written in a URI: itself when unreserved (or a `/` that
/// is kept), `%XX` otherwise.
pub open spec fn uri_byte(b: u8, encode_slash: bool) -> Seq<char> {
    if unreserved(b) || (b == 47 && !encode_slash) {
        seq![b as char]
    } else {
        seq!['%', hex_digit(b as int / 16), hex_digit(b as int % 16)]
    }
}

/// The URI encoding of a byte string, as S3 signing requires.
pub open spec fn uri_encoded(bytes: Seq<u8>, encode_slash: bool) -> Seq<char>
    decreases bytes.len(),
{
    if bytes.len() == 0 {
        Seq::empty()
    } else {
        uri_encoded(bytes.drop_last(), encode_slash) + uri_byte(bytes.last(), encode_slash)
    }
}

fn hex(d: u8) -> (c: char)
    requires
        d < 16,
    ensures
        c == hex_digit(d as int),
{
    if d < 10 {
        crate::text::digit_of(d as u64)
    } else if d == 10 { 'A' } else if d == 11 { 'B' } else if d == 12 { 'C' } else if d == 13 { 'D' }
    else if d == 14 { 'E' } else { 'F' }
}

/// URI-encodes the UTF-8 bytes of `s`.
pub fn uri_encode(s: &str, encode_slash: bool) -> (r: String)
    ensures
        r@ == uri_encoded(s.spec_bytes(), encode_slash),
{
    let bytes = s.as_bytes();
    let mut r = String::new();
    let mut i: usize = 0;
    while i < bytes.len()
        invariant
            i <= bytes@.len(),
            bytes@ == s.spec_bytes(),
            r@ == uri_encoded(bytes@.take(i as int), encode_slash),
        decreases bytes@.len() - i,
    {
        let b = bytes[i];
        assert(bytes@.take(i + 1).drop_last() =~= bytes@.take(i as int));
        let ghost prev = r@;
        if (65 <= b && b <= 90) || (97 <= b && b <= 122) || (48 <= b && b <= 57) || b == 45 || b == 95 || b == 46
            || b == 126 || (b == 47 && !encode_slash) {
            crate::text::push_char(&mut r, b as char);
            assert(r@ =~= prev + seq![b as char]);
        } else {
            crate::text::push_char(&mut r, '%');
            crate::text::push_char(&mut r, hex(b / 16));
            crate::text::push_char(&mut r, hex(b % 16));
            assert(r@ =~= prev + seq!['%', hex_digit(b as int / 16), hex_digit(b as int % 16)]);
        }
        i += 1;
    }
    assert(bytes@.take(bytes@.len() as int) =~= bytes@);
    r
}

/// `key=value` with the value URI-encoded (slashes too).
pub open spec fn query_pair(k: Seq<char>, v: Seq<char>) -> Seq<char> {
    k + seq!['='] + uri_encoded(vstd::utf8::encode_utf8(v), true)
}

/// The query string of a list of parameters, joined by `&`.
pub open spec fn query_text(q: Seq<(String, String)>) -> Seq<char>
    decreases q.len(),
{
    if q.len() == 0 {
        Seq::empty()
    } else if q.len() == 1 {
        query_pair(q[0].0@, q[0].1@)
    } else {
        query_text(q.drop_last()) + seq!['&'] + query_pair(q.last().0@, q.last().1@)
    }
}

/// The URL of a request: the base URL and the path, then `?` and the query
/// when there is one.
pub open spec fn request_url_of(c: S3Config, path: Seq<char>, q: Seq<(String, String)>) -> Seq<char> {
    if q.len() == 0 {
        base_url_of(c) + path
    } else {
        base_url_of(c) + path + seq!['?'] + query_text(q)
    }
}

/// Builds the URL of a request.
pub fn request_url(cfg: &S3Config, path: &str, query: &Vec<(String, String)>) -> (u: String)
    ensures
        u@ == request_url_of(*cfg, path@, query@),
{
    let mut u = cfg.base_url();
    push_str(&mut u, path);
    if query.len() == 0 {
        return u;
    }
    crate::text::push_char(&mut u, '?');
    let ghost head = u@;
    let mut i: usize = 0;
    while i < query.len()
        invariant
            i <= query@.len(),
            query@.len() > 0,
            u@ == head + query_text(query@.take(i as int)),
        decreases query@.len() - i,
    {
        assert(query@.take(i + 1).drop_last() =~= query@.take(i as int));
        let ghost prev = u@;
        if i > 0 {
            crate::text::push_char(&mut u, '&');
        }
        push_str(&mut u, query[i].0.as_str());
        crate::text::push_char(&mut u, '=');
        let enc = uri_encode(query[i].1.as_str(), true);
        push_str(&mut u, enc.as_str());
        if i == 0 {
            assert(u@ =~= head + query_text(query@.take(i + 1)));
        } else {
            assert(u@ =~= head + query_text(query@.take(i + 1)));
        }
        i += 1;
    }
    assert(query@.take(query@.len() as int) =~= query@);
    u
}

/// The parameters of a listing request for `prefix`, continuing after
/// `token` when there is one.
pub fn list_query(prefix: &str, token: &Option<String>) -> (q: Vec<(String, String)>)
    ensures
        q@.len() == if token is Some { 3nat } else { 2nat },
        q@[0].0@ == "list-type"@ && q@[0].1@ == "2"@,
        q@[1].0@ == "prefix"@ && q@[1].1@ == prefix@,
        token matches Some(t) ==> q@[2].0@ == "continuation-token"@ && q@[2].1 == t,
{
    let mut q: Vec<(String, String)> = Vec::new();
    q.push((String::from_str("list-type"), String::from_str("2")));
    q.push((String::from_str("prefix"), String::from_str(prefix)));
    if let Some(t) = token {
        q.push((String::from_str("continuation-token"), t.clone()));
    }
    q
}

/// The token to continue a listing with: only a truncated page continues,
/// and only when it names its continuation.
pub fn next_list_token(page: &ListPage) -> (t: Option<String>)
    ensures
        t == (if page.is_truncated { page.next_token } else { None }),
{
    if page.is_truncated {
        opt_clone(&page.next_token)
    } else {
        None
    }
}

/// The SHA-256 of an empty payload, sent with every signed GET.
pub const EMPTY_PAYLOAD_SHA256: &'static str = "e3b0c44298fc1c149afbf4c8996fb92427ae41e4649b934ca495991b7852b855";

/// The headers a request carries before its signature: none for an
/// anonymous configuration; otherwise the payload hash and, when the
/// requester pays, `x-amz-request-payer: requester`.
pub fn unsigned_headers(cfg: &S3Config) -> (h: Vec<(String, String)>)
    ensures
        cfg.credentials is None ==> h@.len() == 0,
        cfg.credentials is Some ==> {
            &&& h@.len() == if cfg.requester_pays { 2nat } else { 1nat }
            &&& h@[0].0@ == "x-amz-content-sha256"@ && h@[0].1@ == EMPTY_PAYLOAD_SHA256@
            &&& cfg.requester_pays ==> h@[1].0@ == "x-amz-request-payer"@ && h@[1].1@ == "requester"@
        },
{
    let mut h: Vec<(String, String)> = Vec::new();
    if cfg.credentials.is_none() {
        return h;
    }
    h.push((String::from_str("x-amz-content-sha256"), String::from_str(EMPTY_PAYLOAD_SHA256)));
    if cfg.requester_pays {
        h.push((String::from_str("x-amz-request-payer"), String::from_str("requester")));
    }
    h
}

} // verus!
verus! {

/// What an HTTP status means for a request.
#[derive(Debug, Clone, Copy, PartialEq, Eq, Structural)]
pub enum Verdict {
    /// 2xx: read the body.
    Success,
    /// 408, 429 and 5xx: try again after a pause.
    RetryAfterBackoff,
    /// Anything else: give up.
    Fatal,
}

/// The verdict on a status.
pub open spec fn verdict_of(status: u16) -> Verdict {
    if 200 <= status <= 299 {
        Verdict::Success
    } else if status == 408 || status == 429 || (500 <= status <= 599) {
        Verdict::RetryAfterBackoff
    } else {
        Verdict::Fatal
    }
}

/// Classifies an HTTP status.
pub fn classify_status(status: u16) -> (v: Verdict)
    ensures
        v == verdict_of(status),
{
    if 200 <= status && status <= 299 {
        Verdict::Success
    } else if status == 408 || status == 429 || (500 <= status && status <= 599) {
        Verdict::RetryAfterBackoff
    } else {
        Verdict::Fatal
    }
}

/// How often and how patiently a request is retried.
#[derive(Debug, Clone, Copy, PartialEq, Eq, Structural)]
pub struct RetryPolicy {
    /// Attempts after the first.
    pub max_retries: u32,
    /// The pause before the first retry.
    pub base_delay_ms: u64,
    /// No pause is longer.
    pub max_delay_ms: u64,
}

/// The smaller of two numbers.
pub open spec fn min_u64(a: u64, b: u64) -> u64 {
    if a <= b { a } else { b }
}

/// The exponential pause before retry `attempt`: `base * 2^attempt`, capped.
pub open spec fn backoff_ms(base: u64, attempt: nat, cap: u64) -> u64
    decreases attempt,
{
    if attempt == 0 {
        min_u64(base, cap)
    } else {
        let prev = backoff_ms(base, (attempt - 1) as nat, cap);
        if 2 * prev <= cap { (2 * prev) as u64 } else { cap }
    }
}

impl Default for RetryPolicy {
    /// Five retries, from half a second up to thirty seconds.
    fn default() -> (p: RetryPolicy)
        ensures
            p == (RetryPolicy { max_retries: 5, base_delay_ms: 500, max_delay_ms: 30_000 }),
    {
        RetryPolicy { max_retries: 5, base_delay_ms: 500, max_delay_ms: 30_000 }
    }
}

impl RetryPolicy {
    /// Whether attempt number `attempt` (counting from 0) was the last allowed.
    pub fn exhausted(&self, attempt: u32) -> (b: bool)
        ensures
            b == (attempt >= self.max_retries),
    {
        attempt >= self.max_retries
    }

    /// The pause after attempt `attempt`: the server's `Retry-After` (in
    /// seconds) when it gave one, else the exponential backoff; never more
    /// than the cap.
    pub fn delay_for(&self, attempt: u32, hint_secs: Option<u64>) -> (ms: u64)
        ensures
            ms == match hint_secs {
                Some(s) => if s * 1000 <= self.max_delay_ms { (s * 1000) as u64 } else { self.max_delay_ms },
                None => backoff_ms(self.base_delay_ms, attempt as nat, self.max_delay_ms),
            },
    {
        match hint_secs {
            Some(s) => {
                if s <= self.max_delay_ms / 1000 {
                    s * 1000
                } else {
                    self.max_delay_ms
                }
            },
            None => {
                let cap = self.max_delay_ms;
                let mut d = if self.base_delay_ms <= cap { self.base_delay_ms } else { cap };
                let mut k: u32 = 0;
                while k < attempt
                    invariant
                        k <= attempt,
                        cap == self.max_delay_ms,
                        d == backoff_ms(self.base_delay_ms, k as nat, cap),
                        d <= cap,
                    decreases attempt - k,
                {
                    d = if d <= cap / 2 { 2 * d } else { cap };
                    k += 1;
                }
                d
            },
        }
    }
}

/// Reads a `Retry-After` header given in seconds.
pub fn parse_retry_after(value: &str) -> (r: Option<u64>)
    ensures
        r == u64_from_text(value@),
{
    parse_u64(value)
}

/// What to do after one attempt of a request.
#[derive(Debug, Clone, PartialEq, Eq)]
pub enum AttemptDecision {
    /// The request succeeded: read the body.
    ReadBody,
    /// The request failed for good: read the error body for the report.
    ReadErrorBody,
    /// Wait this long, then try again.
    Retry { delay_ms: u64 },
    /// Give up with this error.
    Fail(EntrepotError),
}

/// The decision after an answer with `status` to attempt `attempt` of the
/// request labelled `label`.
pub fn after_status(policy: &RetryPolicy, attempt: u32, label: &str, status: u16, retry_after_secs: Option<u64>) -> (d: AttemptDecision)
    ensures
        verdict_of(status) == Verdict::Success ==> d == AttemptDecision::ReadBody,
        verdict_of(status) == Verdict::Fatal ==> d == AttemptDecision::ReadErrorBody,
        verdict_of(status) == Verdict::RetryAfterBackoff && attempt >= policy.max_retries ==>
            (d matches AttemptDecision::Fail(EntrepotError::Exhausted { attempts, key, last })
            && attempts == (if attempt < u32::MAX { attempt + 1 } else { attempt as int })
            && key@ == label@ && last@ == "http "@ + decimal_text(status as nat)),
        verdict_of(status) == Verdict::RetryAfterBackoff && attempt < policy.max_retries ==>
            d == (AttemptDecision::Retry { delay_ms: policy.delay_for_spec(attempt, retry_after_secs) }),
{
    match classify_status(status) {
        Verdict::Success => AttemptDecision::ReadBody,
        Verdict::Fatal => AttemptDecision::ReadErrorBody,
        Verdict::RetryAfterBackoff => {
            if policy.exhausted(attempt) {
                let mut last = String::from_str("http ");
                let digits = u64_to_text(status as u64);
                push_str(&mut last, digits.as_str());
                AttemptDecision::Fail(EntrepotError::Exhausted {
                    attempts: attempt.saturating_add(1),
                    key: String::from_str(label),
                    last,
                })
            } else {
                AttemptDecision::Retry { delay_ms: policy.delay_for(attempt, retry_after_secs) }
            }
        },
    }
}

/// No pause is longer than the cap, and none is shorter than the base
/// pause when the base is within the cap.
pub proof fn lemma_backoff_bounds(base: u64, attempt: nat, cap: u64)
    ensures
        backoff_ms(base, attempt, cap) <= cap,
        base <= cap ==> base <= backoff_ms(base, attempt, cap),
    decreases attempt,
{
    if attempt > 0 {
        lemma_backoff_bounds(base, (attempt - 1) as nat, cap);
    }
}

impl RetryPolicy {
    /// The pause [`RetryPolicy::delay_for`] returns.
    pub open spec fn delay_for_spec(self, attempt: u32, hint_secs: Option<u64>) -> u64 {
        match hint_secs {
            Some(s) => if s * 1000 <= self.max_delay_ms { (s * 1000) as u64 } else { self.max_delay_ms },
            None => backoff_ms(self.base_delay_ms, attempt as nat, self.max_delay_ms),
        }
    }
}

/// The decision after attempt `attempt` failed to connect: give up when the
/// failure is not retryable or retries ran out, else wait the backoff.
pub fn after_transport_error(policy: &RetryPolicy, attempt: u32, retryable: bool, message: String) -> (d: AttemptDecision)
    ensures
        (!retryable || attempt >= policy.max_retries) ==> d == AttemptDecision::Fail(EntrepotError::Transport(message)),
        (retryable && attempt < policy.max_retries) ==>
            d == (AttemptDecision::Retry { delay_ms: policy.delay_for_spec(attempt, None) }),
{
    if !retryable || policy.exhausted(attempt) {
        AttemptDecision::Fail(EntrepotError::Transport(message))
    } else {
        AttemptDecision::Retry { delay_ms: policy.delay_for(attempt, None) }
    }
}

/// The longest error body kept in a report, in characters.
pub const ERROR_BODY_CHARS: usize = 2048;

/// The error for a fatal status, keeping the first 2048 characters of the body.
pub fn status_error(status: u16, label: &str, body: &str) -> (e: EntrepotError)
    ensures
        e matches EntrepotError::Status { status: s, key, body: b }
        && s == status && key@ == label@
        && b@ == body@.take(if body@.len() <= ERROR_BODY_CHARS { body@.len() as int } else { ERROR_BODY_CHARS as int }),
{
    let v = crate::text::chars_of(body);
    let n = if v.len() <= ERROR_BODY_CHARS { v.len() } else { ERROR_BODY_CHARS };
    let b = crate::text::string_of_range(&v, 0, n);
    assert(v@.subrange(0, n as int) =~= body@.take(n as int));
    EntrepotError::Status { status, key: String::from_str(label), body: b }
}

} // verus!
