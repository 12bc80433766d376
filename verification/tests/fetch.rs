use std::sync::{Arc, Mutex};

use blitz_canvas::body::{Body, EncodedBody, EntryValue, FormEntry, MultipartPart, PartKind};
use blitz_canvas::fetch::{
    file_path_of, resolve_request, scheme_of, user_agent, FetchPlan, FetchRequest, Scheme,
};
use blitz_canvas::provider::{NetWaker, Provider};
use blitz_canvas::EngineError;

struct CountingWaker {
    hits: Arc<Mutex<Vec<usize>>>,
}

impl NetWaker for CountingWaker {
    fn wake(&self, doc_id: usize) {
        self.hits.lock().unwrap().push(doc_id);
    }
}

fn request(url: &str) -> FetchRequest {
    FetchRequest {
        method: "GET".to_owned(),
        url: url.to_owned(),
        headers: Vec::new(),
        content_type: "text/plain".to_owned(),
        body: Body::Empty,
    }
}

#[test]
fn scheme_classification() {
    assert_eq!(scheme_of("data:text/plain,hi"), Scheme::Data);
    assert_eq!(scheme_of("DATA:text/plain,hi"), Scheme::Data);
    assert_eq!(scheme_of("file:///tmp/x"), Scheme::File);
    assert_eq!(scheme_of("https://example.org/"), Scheme::Network);
    assert_eq!(scheme_of("datax://nope"), Scheme::Network);
    assert_eq!(scheme_of(""), Scheme::Network);
}

#[test]
fn data_url_decodes_to_hello_and_wakes_once() {
    // Fetching data:text/plain;base64,SGVsbG8= yields bytes decoding to
    // "Hello", and the waker fires exactly once.
    let hits = Arc::new(Mutex::new(Vec::new()));
    let provider = Provider::new(CountingWaker { hits: hits.clone() });
    let job = provider.fetch(1, request("data:text/plain;base64,SGVsbG8="));
    let outcome = match job.plan() {
        FetchPlan::Resolved(Ok((u, b))) => Ok((u.clone(), b.clone())),
        _ => panic!("a data URL must resolve synchronously"),
    };
    let delivered = job.complete(outcome);
    let (final_url, payload) = delivered.expect("success delivers a payload");
    assert_eq!(final_url, "data:text/plain;base64,SGVsbG8=");
    assert_eq!(payload, b"Hello".to_vec());
    assert_eq!(hits.lock().unwrap().clone(), vec![1]);
}

#[test]
fn malformed_data_url_fails_and_still_wakes_once() {
    // A data URL with no comma fails with DataUrlError; the waker still fires
    // exactly once, and the handler sees no payload.
    let hits = Arc::new(Mutex::new(Vec::new()));
    let provider = Provider::new(CountingWaker { hits: hits.clone() });
    let job = provider.fetch(6, request("data:text/plain"));
    let outcome = match job.plan() {
        FetchPlan::Resolved(Err(e)) => Err(*e),
        _ => panic!("malformed data URL must resolve to an error"),
    };
    assert_eq!(outcome, Err(EngineError::DataUrlError));
    let delivered = job.complete(outcome);
    assert!(delivered.is_none());
    assert_eq!(hits.lock().unwrap().clone(), vec![6]);
}

#[test]
fn bad_base64_body_fails_with_base64_error() {
    let plan = resolve_request(request("data:text/plain;base64,@@@@*"));
    match plan {
        FetchPlan::Resolved(Err(e)) => assert_eq!(e, EngineError::Base64Error),
        _ => panic!("invalid base64 must resolve to Base64Error"),
    }
}

#[test]
fn concurrent_fetches_wake_independently_and_count_in_flight() {
    // Two concurrent fetches for the same document id each invoke the waker
    // once; the in-flight counter reads 2 while both are pending and 0 once
    // both complete.
    let hits = Arc::new(Mutex::new(Vec::new()));
    let provider = Provider::new(CountingWaker { hits: hits.clone() });
    assert_eq!(provider.count(), 0);
    assert!(provider.is_empty());
    let job1 = provider.fetch(7, request("data:,first"));
    let job2 = provider.fetch(7, request("data:,second"));
    assert_eq!(provider.count(), 2);
    assert!(!provider.is_empty());
    assert!(job1.complete(Ok(("data:,first".to_owned(), b"first".to_vec()))).is_some());
    assert_eq!(provider.count(), 1);
    assert!(job2.complete(Err(EngineError::TransportError)).is_none());
    assert_eq!(provider.count(), 0);
    assert!(provider.is_empty());
    assert_eq!(hits.lock().unwrap().clone(), vec![7, 7]);
}

#[test]
fn file_scheme_resolves_to_a_path_read() {
    let plan = resolve_request(request("file:///tmp/styles.css"));
    match plan {
        FetchPlan::ReadFile(p) => assert_eq!(p, "/tmp/styles.css"),
        _ => panic!("file scheme must resolve to a read"),
    }
}

#[test]
fn file_paths_strip_scheme_authority_query_and_fragment() {
    assert_eq!(file_path_of("file:///a/b.png"), "/a/b.png");
    assert_eq!(file_path_of("file:///a/b.png?x=1"), "/a/b.png");
    assert_eq!(file_path_of("file:///a/b.png#frag"), "/a/b.png");
    assert_eq!(file_path_of("file://localhost/a"), "/a");
    assert_eq!(file_path_of("file:relative.txt"), "relative.txt");
}

#[test]
fn network_requests_get_content_type_and_user_agent_headers() {
    let req = FetchRequest {
        method: "POST".to_owned(),
        url: "https://example.org/submit".to_owned(),
        headers: vec![("Accept".to_owned(), "text/html".to_owned())],
        content_type: "text/plain".to_owned(),
        body: Body::Bytes(b"hi".to_vec()),
    };
    match resolve_request(req) {
        FetchPlan::SendNetwork(pr) => {
            assert_eq!(pr.method, "POST");
            assert_eq!(pr.url, "https://example.org/submit");
            assert_eq!(pr.headers.len(), 3);
            assert_eq!(pr.headers[0], ("Accept".to_owned(), "text/html".to_owned()));
            assert_eq!(pr.headers[1], ("Content-Type".to_owned(), "text/plain".to_owned()));
            assert_eq!(pr.headers[2], ("User-Agent".to_owned(), user_agent().to_owned()));
            match pr.body {
                EncodedBody::Raw(b) => assert_eq!(b, b"hi".to_vec()),
                _ => panic!("byte bodies pass through raw"),
            }
        },
        _ => panic!("https must resolve to a network send"),
    }
}

#[test]
fn urlencoded_form_bodies_are_percent_encoded() {
    let req = FetchRequest {
        method: "POST".to_owned(),
        url: "https://example.org/form".to_owned(),
        headers: Vec::new(),
        content_type: "application/x-www-form-urlencoded".to_owned(),
        body: Body::Form(vec![
            FormEntry { name: "a b".to_owned(), value: EntryValue::Text("x&y=1".to_owned()) },
            FormEntry { name: "plain".to_owned(), value: EntryValue::Text("A-Z_z.9*".to_owned()) },
        ]),
    };
    match resolve_request(req) {
        FetchPlan::SendNetwork(pr) => match pr.body {
            EncodedBody::FormUrlEncoded(bytes) => {
                assert_eq!(
                    String::from_utf8(bytes).unwrap(),
                    "a+b=x%26y%3D1&plain=A-Z_z.9*"
                );
            },
            _ => panic!("urlencoded content type must encode the form"),
        },
        _ => panic!("https must resolve to a network send"),
    }
}

#[test]
fn multipart_form_bodies_keep_one_part_per_supported_entry() {
    let req = FetchRequest {
        method: "POST".to_owned(),
        url: "https://example.org/upload".to_owned(),
        headers: Vec::new(),
        content_type: "multipart/form-data".to_owned(),
        body: Body::Form(vec![
            FormEntry { name: "text".to_owned(), value: EntryValue::Text("hello".to_owned()) },
            FormEntry { name: "doc".to_owned(), value: EntryValue::File("/tmp/d".to_owned()) },
            FormEntry { name: "empty".to_owned(), value: EntryValue::EmptyFile },
        ]),
    };
    match resolve_request(req) {
        FetchPlan::SendNetwork(pr) => match pr.body {
            EncodedBody::Multipart(parts) => {
                assert_eq!(parts.len(), 2);
                match &parts[0] {
                    MultipartPart { name, kind: PartKind::Text(v) } => {
                        assert_eq!(name, "text");
                        assert_eq!(v, "hello");
                    },
                    _ => panic!("text entries become text parts"),
                }
                match &parts[1] {
                    MultipartPart { name, kind: PartKind::EmptyOctetStream } => {
                        assert_eq!(name, "empty");
                    },
                    _ => panic!("empty file entries become empty octet-stream parts"),
                }
            },
            _ => panic!("multipart content type must build parts"),
        },
        _ => panic!("https must resolve to a network send"),
    }
}

#[test]
fn form_under_other_content_type_sends_no_body() {
    let req = FetchRequest {
        method: "POST".to_owned(),
        url: "https://example.org/".to_owned(),
        headers: Vec::new(),
        content_type: "application/json".to_owned(),
        body: Body::Form(vec![FormEntry {
            name: "a".to_owned(),
            value: EntryValue::Text("b".to_owned()),
        }]),
    };
    match resolve_request(req) {
        FetchPlan::SendNetwork(pr) => assert!(matches!(pr.body, EncodedBody::NoBody)),
        _ => panic!("https must resolve to a network send"),
    }
}

#[test]
fn empty_body_sends_nothing() {
    match resolve_request(request("https://example.org/")) {
        FetchPlan::SendNetwork(pr) => assert!(matches!(pr.body, EncodedBody::NoBody)),
        _ => panic!("https must resolve to a network send"),
    }
}

#[test]
fn data_url_fragments_are_not_part_of_the_payload() {
    match resolve_request(request("data:,abc#frag")) {
        FetchPlan::Resolved(Ok((u, payload))) => {
            assert_eq!(u, "data:,abc#frag");
            assert_eq!(payload, b"abc".to_vec());
        },
        _ => panic!("plain data URL must decode"),
    }
}

#[test]
fn scheme_prefixes_match_case_insensitively() {
    match resolve_request(request("FILE:///upper/case")) {
        FetchPlan::ReadFile(p) => assert_eq!(p, "/upper/case"),
        _ => panic!("an upper-case file scheme still resolves to a read"),
    }
}

#[test]
fn data_url_without_base64_marker_is_percent_decoded() {
    match resolve_request(request("data:,Hello%20world")) {
        FetchPlan::Resolved(Ok((_, payload))) => assert_eq!(payload, b"Hello world".to_vec()),
        _ => panic!("plain data URL must decode"),
    }
}
