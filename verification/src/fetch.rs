//! Resolution of fetch requests by URL scheme.
//!
//! A `data:` URL is decoded synchronously; a `file:` URL becomes a read of its
//! local path, which the host performs; anything else becomes a network
//! request with finalized headers (the declared ones plus a forced
//! Content-Type and a fixed User-Agent identity) and an encoded body.

use vstd::prelude::*;
use vstd::string::StrSliceExecFns;
use crate::EngineError;
use crate::body::{Body, EncodedBody, encode_body, spec_form_parts, spec_form_urlencoded,
    spec_parts_view};
use crate::text::{ascii_ci_has_prefix, has_ci_prefix};

verus! {

/// The three mutually exclusive resolution classes of a URL.
#[derive(Clone, Copy, Debug, PartialEq, Eq, Structural)]
pub enum Scheme {
    Data,
    File,
    Network,
}

/// Classify a URL string: `data:` and `file:` prefixes (ASCII case
/// insensitive) are resolved locally, everything else goes to the network.
pub open spec fn spec_scheme_of(u: Seq<char>) -> Scheme {
    if has_ci_prefix(u, "data:"@) {
        Scheme::Data
    } else if has_ci_prefix(u, "file:"@) {
        Scheme::File
    } else {
        Scheme::Network
    }
}

pub fn scheme_of(url: &str) -> (r: Scheme)
    ensures
        r == spec_scheme_of(url@),
{
    if ascii_ci_has_prefix(url, "data:") {
        Scheme::Data
    } else if ascii_ci_has_prefix(url, "file:") {
        Scheme::File
    } else {
        Scheme::Network
    }
}

/// The index of the first `?` or `#` at or after `i`, or the end of the
/// string.
pub open spec fn scan_path_stop(u: Seq<char>, i: int) -> int
    decreases u.len() - i when 0 <= i
{
    if i >= u.len() {
        u.len() as int
    } else if u[i] == '?' || u[i] == '#' {
        i
    } else {
        scan_path_stop(u, i + 1)
    }
}

/// The index of the first `/` at or after `i`, or the end of the string.
pub open spec fn scan_authority_end(u: Seq<char>, i: int) -> int
    decreases u.len() - i when 0 <= i
{
    if i >= u.len() {
        u.len() as int
    } else if u[i] == '/' {
        i
    } else {
        scan_authority_end(u, i + 1)
    }
}

proof fn lemma_scan_path_stop_bounds(u: Seq<char>, i: int)
    requires
        0 <= i <= u.len(),
    ensures
        i <= scan_path_stop(u, i) <= u.len(),
    decreases u.len() - i,
{
    if i < u.len() && !(u[i] == '?' || u[i] == '#') {
        lemma_scan_path_stop_bounds(u, i + 1);
    }
}

/// Where the path of a `file:` URL starts: after the scheme, and after the
/// authority component when one is present (a `//` pair introduces it and the
/// next `/` ends it).
pub open spec fn spec_path_start(u: Seq<char>) -> int {
    if u.len() >= 7 && u[5] == '/' && u[6] == '/' {
        scan_authority_end(u, 7)
    } else {
        5
    }
}

/// The local path of a `file:` URL: its path component, up to the first `?`
/// or `#`.
pub open spec fn spec_file_path(u: Seq<char>) -> Seq<char> {
    u.subrange(spec_path_start(u), scan_path_stop(u, spec_path_start(u)))
}

fn char_is_slash(s: &str, i: usize) -> (r: bool)
    requires
        i < s@.len(),
    ensures
        r == (s@[i as int] == '/'),
{
    s.get_char(i) == '/'
}

fn char_is_path_stop(s: &str, i: usize) -> (r: bool)
    requires
        i < s@.len(),
    ensures
        r == (s@[i as int] == '?' || s@[i as int] == '#'),
{
    let c = s.get_char(i);
    c == '?' || c == '#'
}

/// Extract the local path of a `file:` URL.
pub fn file_path_of(url: &str) -> (r: String)
    requires
        spec_scheme_of(url@) == Scheme::File,
    ensures
        r@ == spec_file_path(url@),
{
    proof {
        broadcast use vstd::string::group_string_axioms;

        reveal_strlit("data:");
        reveal_strlit("file:");
        assert("file:"@.len() == 5);
        assert(url@.len() >= 5);
    }
    let n = url.unicode_len();
    let mut start: usize = 5;
    if n >= 7 && char_is_slash(url, 5) && char_is_slash(url, 6) {
        start = 7;
        while start < n && !char_is_slash(url, start)
            invariant
                7 <= start <= n,
                n == url@.len(),
                scan_authority_end(url@, 7) == scan_authority_end(url@, start as int),
            decreases n - start,
        {
            proof {
                assert(scan_authority_end(url@, start as int) == scan_authority_end(
                    url@,
                    start as int + 1,
                ));
            }
            start += 1;
        }
        proof {
            assert(scan_authority_end(url@, start as int) == start as int);
            assert(spec_path_start(url@) == start as int);
        }
    } else {
        proof {
            assert(spec_path_start(url@) == 5);
        }
    }
    let mut end: usize = start;
    proof {
        lemma_scan_path_stop_bounds(url@, start as int);
    }
    while end < n && !char_is_path_stop(url, end)
        invariant
            start <= end <= n,
            n == url@.len(),
            scan_path_stop(url@, start as int) == scan_path_stop(url@, end as int),
        decreases n - end,
    {
        proof {
            assert(scan_path_stop(url@, end as int) == scan_path_stop(url@, end as int + 1));
        }
        end += 1;
    }
    proof {
        assert(scan_path_stop(url@, end as int) == end as int);
    }
    let path = url.substring_char(start, end);
    path.to_owned()
}

/// Whether the string names this engine to servers; fixed for all network
/// requests.
pub open spec fn spec_user_agent() -> Seq<char> {
    "Mozilla/5.0 (X11; Linux x86_64; rv:60.0) Gecko/20100101 Firefox/81.0"@
}

/// The fixed User-Agent identity sent with every network request.
pub fn user_agent() -> (r: &'static str)
    ensures
        r@ == spec_user_agent(),
{
    "Mozilla/5.0 (X11; Linux x86_64; rv:60.0) Gecko/20100101 Firefox/81.0"
}

/// The final header list of a network request: the declared headers in order,
/// then the forced Content-Type entry, then the fixed User-Agent identity.
pub open spec fn headers_finalized(
    declared: Seq<(String, String)>,
    content_type: Seq<char>,
    r: Seq<(String, String)>,
) -> bool {
    &&& r.len() == declared.len() + 2
    &&& forall|i: int|
        0 <= i < declared.len() ==> (#[trigger] r[i]).0@ == declared[i].0@ && r[i].1@
            == declared[i].1@
    &&& r[declared.len() as int].0@ == "Content-Type"@
    &&& r[declared.len() as int].1@ == content_type
    &&& r[declared.len() as int + 1].0@ == "User-Agent"@
    &&& r[declared.len() as int + 1].1@ == spec_user_agent()
}

/// Build the final header list of a network request.
pub fn finalize_headers(declared: &Vec<(String, String)>, content_type: &String) -> (r: Vec<
    (String, String),
>)
    ensures
        headers_finalized(declared@, content_type@, r@),
{
    let mut out: Vec<(String, String)> = Vec::new();
    let mut i: usize = 0;
    while i < declared.len()
        invariant
            i <= declared@.len(),
            out@.len() == i,
            forall|j: int|
                0 <= j < i ==> (#[trigger] out@[j]).0@ == declared@[j].0@ && out@[j].1@
                    == declared@[j].1@,
        decreases declared@.len() - i,
    {
        out.push((declared[i].0.clone(), declared[i].1.clone()));
        i += 1;
    }
    out.push(("Content-Type".to_owned(), content_type.clone()));
    out.push(("User-Agent".to_owned(), user_agent().to_owned()));
    out
}

/// Whether a `data:` URL passes WHATWG data-URL processing (its syntax is
/// accepted); determined by the URL string alone.
pub uninterp spec fn data_url_well_formed(s: Seq<char>) -> bool;

/// Whether the body of a well-formed `data:` URL decodes (forgiving base64 or
/// percent decoding); determined by the URL string alone.
pub uninterp spec fn data_url_body_decodes(s: Seq<char>) -> bool;

/// The decoded payload of a `data:` URL whose body decodes; determined by the
/// URL string alone.
pub uninterp spec fn data_url_payload(s: Seq<char>) -> Seq<u8>;

/// Relies on `data_url::DataUrl::process` (WHATWG `data:` URL processing) and
/// `data_url::DataUrl::decode_to_vec` (percent or forgiving-base64 decoding
/// of the body): whether each succeeds, and the decoded payload, are
/// functions of the URL string alone. A processing failure is reported as
/// `DataUrlError`, a decode failure as `Base64Error`.
#[verifier::external_body]
fn decode_data_url(url: &str) -> (r: Result<Vec<u8>, EngineError>)
    ensures
        r matches Ok(p) ==> p@ == data_url_payload(url@),
        (r is Ok) == (data_url_well_formed(url@) && data_url_body_decodes(url@)),
        r matches Err(e) ==> e == (if !data_url_well_formed(url@) { EngineError::DataUrlError } else { EngineError::Base64Error }),
{
    match data_url::DataUrl::process(url) {
        Ok(d) => match d.decode_to_vec() {
            Ok((body, _fragment)) => Ok(body),
            Err(_) => Err(EngineError::Base64Error),
        },
        Err(_) => Err(EngineError::DataUrlError),
    }
}

/// A fetch request as the embedder declares it.
pub struct FetchRequest {
    pub method: String,
    pub url: String,
    pub headers: Vec<(String, String)>,
    pub content_type: String,
    pub body: Body,
}

/// A network request, prepared for the transport.
pub struct PreparedRequest {
    pub method: String,
    pub url: String,
    pub headers: Vec<(String, String)>,
    pub body: EncodedBody,
}

/// What resolving a request produced: a synchronously resolved result (the
/// `data:` scheme), a local file read for the host to perform, or a prepared
/// network request for the host to send.
pub enum FetchPlan {
    Resolved(Result<(String, Vec<u8>), EngineError>),
    ReadFile(String),
    SendNetwork(PreparedRequest),
}

/// The encoded body is the declared body's encoding under the declared
/// content type.
pub open spec fn body_encoded(body: Body, content_type: Seq<char>, enc: EncodedBody) -> bool {
    &&& (body matches Body::Bytes(b) ==> (enc matches EncodedBody::Raw(b2) && b2@ == b@))
    &&& (body is Empty ==> enc is NoBody)
    &&& body matches Body::Form(es) ==> {
        &&& content_type == "application/x-www-form-urlencoded"@ ==> (
        enc matches EncodedBody::FormUrlEncoded(out) && out@ == spec_form_urlencoded(es@))
        &&& content_type == "multipart/form-data"@ ==> (enc matches EncodedBody::Multipart(parts)
            && spec_parts_view(parts@) == spec_form_parts(es@))
        &&& (content_type != "application/x-www-form-urlencoded"@ && content_type
            != "multipart/form-data"@) ==> enc is NoBody
    }
}

/// The plan is the correct resolution of the request.
pub open spec fn plan_matches(req: FetchRequest, plan: FetchPlan) -> bool {
    match spec_scheme_of(req.url@) {
        Scheme::Data => match plan {
            FetchPlan::Resolved(res) => {
                &&& (res is Ok <==> data_url_well_formed(req.url@) && data_url_body_decodes(
                    req.url@,
                ))
                &&& (res matches Ok(p) ==> p.0@ == req.url@ && p.1@ == data_url_payload(req.url@))
                &&& (res matches Err(e) ==> (e == EngineError::DataUrlError <==> !data_url_well_formed(
                    req.url@,
                )))
                &&& (res matches Err(e) ==> (e == EngineError::Base64Error <==> data_url_well_formed(
                    req.url@,
                ) && !data_url_body_decodes(req.url@)))
            },
            _ => false,
        },
        Scheme::File => plan matches FetchPlan::ReadFile(p) && p@ == spec_file_path(req.url@),
        Scheme::Network => match plan {
            FetchPlan::SendNetwork(pr) => {
                &&& pr.method@ == req.method@
                &&& pr.url@ == req.url@
                &&& headers_finalized(req.headers@, req.content_type@, pr.headers@)
                &&& body_encoded(req.body, req.content_type@, pr.body)
            },
            _ => false,
        },
    }
}

/// Resolve a request by its URL scheme: decode a `data:` URL now, turn a
/// `file:` URL into a read of its path, and prepare anything else as a
/// network request with finalized headers and an encoded body.
pub fn resolve_request(req: FetchRequest) -> (r: FetchPlan)
    ensures
        plan_matches(req, r),
{
    match scheme_of(req.url.as_str()) {
        Scheme::Data => match decode_data_url(req.url.as_str()) {
            Ok(bytes) => FetchPlan::Resolved(Ok((req.url, bytes))),
            Err(e) => FetchPlan::Resolved(Err(e)),
        },
        Scheme::File => FetchPlan::ReadFile(file_path_of(req.url.as_str())),
        Scheme::Network => {
            let headers = finalize_headers(&req.headers, &req.content_type);
            let body = encode_body(req.body, req.content_type.as_str());
            FetchPlan::SendNetwork(
                PreparedRequest { method: req.method, url: req.url, headers, body },
            )
        },
    }
}

} // verus!
