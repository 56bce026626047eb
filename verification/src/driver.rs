//! The invocation driver's decisions: which export a request dispatches
//! to, how the request context is built, and how the HTTP reply is
//! harvested from it. The HTTP server, the guest runtime, and the file
//! reads around these stay outside the library and hand plain values in.

use vstd::prelude::*;

use crate::context::FlowsParams;
use vstd::utf8::encode_utf8;

verus! {

/// The view of a list of string pairs, pair by pair.
pub open spec fn pairs_view(s: Seq<(String, String)>) -> Seq<(Seq<char>, Seq<char>)> {
    Seq::new(s.len(), |i: int| (s[i].0@, s[i].1@))
}

/// What serde_json::to_string returns for a vector of string pairs: the
/// JSON array of two-element arrays; the result depends on the pairs
/// alone.
pub uninterp spec fn headers_json_of(pairs: Seq<(Seq<char>, Seq<char>)>) -> Seq<char>;

/// Relies on serde_json::to_string: encodes the pairs as a JSON array of
/// `[name, value]` arrays. Serializing a vector of strings cannot fail.
#[verifier::external_body]
fn encode_headers_json(pairs: &Vec<(String, String)>) -> (r: String)
    ensures
        r@ == headers_json_of(pairs_view(pairs@)),
{
    serde_json::to_string(pairs).unwrap()
}

/// What serde_json::from_slice returns for a vector of string pairs:
/// the decoded pairs where the bytes are a JSON array of two-element
/// string arrays, absent otherwise; the result depends on the bytes
/// alone.
pub uninterp spec fn pairs_of_json(bytes: Seq<u8>) -> Option<Seq<(Seq<char>, Seq<char>)>>;

/// Relies on serde_json::from_slice for `Vec<(String, String)>`.
#[verifier::external_body]
fn decode_headers_json(bytes: &Vec<u8>) -> (r: Option<Vec<(String, String)>>)
    ensures
        (r is Some) == (pairs_of_json(bytes@) is Some),
        r matches Some(v) ==> pairs_of_json(bytes@) == Some(pairs_view(v@)),
{
    serde_json::from_slice::<Vec<(String, String)>>(bytes).ok()
}

/// What serde_json::from_slice returns for a vector of strings: the
/// decoded list where the bytes are a JSON array of strings, absent
/// otherwise; the result depends on the bytes alone.
pub uninterp spec fn env_list_of_json(bytes: Seq<u8>) -> Option<Seq<Seq<char>>>;

/// Relies on serde_json::from_slice for `Vec<String>`.
#[verifier::external_body]
fn parse_env_json(bytes: &Vec<u8>) -> (r: Option<Vec<String>>)
    ensures
        (r is Some) == (env_list_of_json(bytes@) is Some),
        r matches Some(v) ==> env_list_of_json(bytes@) == Some(v.deep_view()),
{
    serde_json::from_slice::<Vec<String>>(bytes).ok()
}

/// The environment the guest starts with: the decoded `KEY=VALUE` list
/// where the environment file's bytes were read and hold a JSON array of
/// strings, nothing otherwise.
pub fn load_env(data: Option<Vec<u8>>) -> (r: Option<Vec<String>>)
    ensures
        data is None ==> r is None,
        data matches Some(d) ==> {
            &&& (r is Some) == (env_list_of_json(d@) is Some)
            &&& (r matches Some(v) ==> env_list_of_json(d@) == Some(v.deep_view()))
        },
{
    match data {
        None => None,
        Some(d) => parse_env_json(&d),
    }
}

/// The export name a handler and a method combine to.
pub fn export_name(handler: &str, method: &str) -> (r: String)
    ensures
        r@ == handler@ + "_"@ + method@,
{
    let mut r = String::from_str(handler);
    r.append("_");
    r.append(method);
    r
}

/// Export selection: the method-specific export `{handler}_{method}` is
/// chosen when the module exports it as a function, else the bare
/// `{handler}` export when that exists, else nothing — and the request
/// is then answered with method-not-allowed. The two flags say what the
/// loaded module exports.
pub fn select_export(
    handler: &str,
    method: &str,
    primary_exists: bool,
    fallback_exists: bool,
) -> (r: Option<String>)
    ensures
        (r is Some) == (primary_exists || fallback_exists),
        primary_exists ==> (r matches Some(name) && name@ == handler@ + "_"@ + method@),
        !primary_exists && fallback_exists ==> (r matches Some(name) && name@ == handler@),
{
    if primary_exists {
        Some(export_name(handler, method))
    } else if fallback_exists {
        Some(String::from_str(handler))
    } else {
        None
    }
}

/// Keep the headers whose value was valid text, in their original order.
pub open spec fn folded_headers(s: Seq<(String, Option<String>)>) -> Seq<(Seq<char>, Seq<char>)>
    decreases s.len(),
{
    if s.len() == 0 {
        Seq::empty()
    } else {
        (match s[0].1 {
            Some(v) => seq![(s[0].0@, v@)],
            None => Seq::<(Seq<char>, Seq<char>)>::empty(),
        }) + folded_headers(s.skip(1))
    }
}

proof fn lemma_folded_headers_snoc(s: Seq<(String, Option<String>)>, x: (String, Option<String>))
    ensures
        folded_headers(s.push(x)) == folded_headers(s) + (match x.1 {
            Some(v) => seq![(x.0@, v@)],
            None => Seq::<(Seq<char>, Seq<char>)>::empty(),
        }),
    decreases s.len(),
{
    let sx = s.push(x);
    if s.len() == 0 {
        assert(sx[0] == x);
        assert(sx.skip(1) =~= Seq::<(String, Option<String>)>::empty());
        assert(folded_headers(sx.skip(1)) =~= Seq::<(Seq<char>, Seq<char>)>::empty());
        assert(folded_headers(s) + (match x.1 {
            Some(v) => seq![(x.0@, v@)],
            None => Seq::<(Seq<char>, Seq<char>)>::empty(),
        }) =~= folded_headers(sx));
    } else {
        assert(sx[0] == s[0]);
        assert(sx.skip(1) =~= s.skip(1).push(x));
        lemma_folded_headers_snoc(s.skip(1), x);
        assert(folded_headers(sx) =~= folded_headers(s) + (match x.1 {
            Some(v) => seq![(x.0@, v@)],
            None => Seq::<(Seq<char>, Seq<char>)>::empty(),
        }));
    }
}

/// Fold the raw request headers into name/value pairs, skipping headers
/// whose value was not valid text and keeping the original order.
pub fn fold_headers(raw: &Vec<(String, Option<String>)>) -> (r: Vec<(String, String)>)
    ensures
        pairs_view(r@) == folded_headers(raw@),
{
    let mut r: Vec<(String, String)> = Vec::new();
    let mut i: usize = 0;
    proof {
        assert(raw@.subrange(0, 0) =~= Seq::<(String, Option<String>)>::empty());
    }
    while i < raw.len()
        invariant
            i <= raw@.len(),
            pairs_view(r@) == folded_headers(raw@.subrange(0, i as int)),
        decreases raw@.len() - i,
    {
        let ghost pre = r@;
        let ghost prefix = raw@.subrange(0, i as int);
        match &raw[i].1 {
            Some(v) => {
                r.push((raw[i].0.clone(), v.clone()));
                proof {
                    assert forall|j: int|
                        0 <= j < r@.len() implies pairs_view(r@)[j] == (folded_headers(prefix)
                        + seq![(raw@[i as int].0@, raw@[i as int].1->0@)])[j] by {
                        if j < pre.len() {
                            assert(r@[j] == pre[j]);
                            assert(pairs_view(pre)[j] == (pre[j].0@, pre[j].1@));
                        }
                    }
                    assert(pairs_view(r@) =~= folded_headers(prefix) + seq![
                        (raw@[i as int].0@, raw@[i as int].1->0@),
                    ]);
                }
            },
            None => {
                proof {
                    assert(pairs_view(r@) =~= folded_headers(prefix) + Seq::<
                        (Seq<char>, Seq<char>),
                    >::empty());
                }
            },
        }
        proof {
            lemma_folded_headers_snoc(prefix, raw@[i as int]);
            assert(prefix.push(raw@[i as int]) =~= raw@.subrange(0, i + 1));
        }
        i += 1;
    }
    proof {
        assert(raw@.subrange(0, raw@.len() as int) =~= raw@);
    }
    r
}

/// Build the request context for one invocation: the identity and event
/// fields as given, the header list JSON-encoded, one preopen mapping
/// the guest root to the work directory, and every output slot empty —
/// in particular the response status starts at zero, the driver's mark
/// for "never set".
pub fn build_context(
    flows_user: String,
    flow_id: String,
    method: String,
    headers: Vec<(String, String)>,
    query_json: String,
    subpath: String,
    body: Vec<u8>,
    wasm_func: String,
    wasm_env: Option<Vec<String>>,
    work_dir: String,
) -> (r: FlowsParams)
    ensures
        r.listening == 0,
        r.flows_user == flows_user,
        r.flow_id == flow_id,
        r.event_method == method,
        r.event_query == query_json,
        r.event_headers@ == headers_json_of(pairs_view(headers@)),
        r.event_subpath == subpath,
        r.event_body == body,
        r.wasm_func == wasm_func,
        r.wasm_env == wasm_env,
        r.preopen matches Some(p) && p@.len() == 1 && p@[0].0@ == "/"@ && p@[0].1 == work_dir,
        r.flows is None,
        r.error_log is None,
        r.output@.len() == 0,
        r.response is None,
        r.response_headers is None,
        r.response_status == 0,
        r.error_code == 0,
{
    let event_headers = encode_headers_json(&headers);
    let mut preopen: Vec<(String, String)> = Vec::new();
    preopen.push((String::from_str("/"), work_dir));
    FlowsParams {
        listening: 0,
        flows_user,
        flow_id,
        event_method: method,
        event_query: query_json,
        event_headers,
        event_subpath: subpath,
        event_body: body,
        wasm_func,
        wasm_env,
        preopen: Some(preopen),
        flows: None,
        error_log: None,
        output: Vec::new(),
        response: None,
        response_headers: None,
        response_status: 0,
        error_code: 0,
    }
}

/// The HTTP reply harvested from a finished invocation.
pub struct HttpReply {
    pub status: u16,
    pub headers: Vec<(String, String)>,
    pub body: Vec<u8>,
}

/// The reply status a context yields: the status the guest set, or 204
/// where it never set one.
pub open spec fn spec_harvest_status(d: FlowsParams) -> u16 {
    if d.response_status > 0 {
        d.response_status
    } else {
        204u16
    }
}

/// The response-header bytes a context yields: what the guest set, or
/// nothing.
pub open spec fn spec_header_bytes(d: FlowsParams) -> Seq<u8> {
    match d.response_headers {
        Some(v) => v@,
        None => Seq::empty(),
    }
}

/// Harvest the HTTP reply from a finished invocation: the status the
/// guest set (204 where unset), the response headers where they decode
/// as a JSON list of pairs (none otherwise), and the response body
/// (empty where unset).
pub fn harvest_response(d: &FlowsParams) -> (r: HttpReply)
    ensures
        r.status == spec_harvest_status(*d),
        d.response matches Some(v) ==> r.body@ == v@,
        d.response is None ==> r.body@ == Seq::<u8>::empty(),
        pairs_of_json(spec_header_bytes(*d)) matches Some(ps) ==> pairs_view(r.headers@) == ps,
        pairs_of_json(spec_header_bytes(*d)) is None ==> r.headers@.len() == 0,
{
    let status: u16 = if d.response_status > 0 {
        d.response_status
    } else {
        204
    };
    let header_bytes: Vec<u8> = match &d.response_headers {
        Some(v) => v.clone(),
        None => Vec::new(),
    };
    let headers: Vec<(String, String)> = match decode_headers_json(&header_bytes) {
        Some(h) => h,
        None => Vec::new(),
    };
    proof {
        if pairs_of_json(spec_header_bytes(*d)) is None {
        } else {
            assert(pairs_view(headers@) == pairs_of_json(spec_header_bytes(*d))->0);
        }
    }
    let body: Vec<u8> = match &d.response {
        Some(v) => v.clone(),
        None => Vec::new(),
    };
    HttpReply { status, headers, body }
}

/// Status default: a context whose guest never stored a response status
/// still holds zero there — `build_context` starts it at zero and every
/// setter but `set_response_status` leaves it unchanged, by their
/// contracts — and the harvested reply's status is then exactly 204.
pub proof fn lemma_status_default(d: FlowsParams)
    requires
        d.response_status == 0,
    ensures
        spec_harvest_status(d) == 204,
{
}

} // verus!
