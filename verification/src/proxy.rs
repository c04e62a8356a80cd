//! What the proxy keeps for all requests, and the requests that it sends
//! upstream.
use crate::json::seq_view;
use crate::text::{eq_ignore_ascii_case, lowercase};
use crate::utils::{UriParts, UriPartsView};
use crate::UpstreamType;
use vstd::prelude::*;
use vstd::string::*;

verus! {

/// The state that all requests share. It is set at startup and never changes.
#[derive(Debug)]
pub struct ProxyState {
    /// The base URI of the upstream service.
    pub uri: UriParts,
    /// The kind of service that runs upstream.
    pub upstream_type: UpstreamType,
}

/// What a `ProxyState` stands for.
pub struct ProxyStateView {
    pub uri: UriPartsView,
    pub upstream_type: UpstreamType,
}

impl View for ProxyState {
    type V = ProxyStateView;

    open spec fn view(&self) -> ProxyStateView {
        ProxyStateView { uri: self.uri@, upstream_type: self.upstream_type }
    }
}

impl Clone for ProxyState {
    fn clone(&self) -> (r: ProxyState)
        ensures
            r@ == self@,
    {
        ProxyState { uri: self.uri.clone(), upstream_type: self.upstream_type }
    }
}

/// A header of a request: its name, and its value as bytes.
#[derive(Debug)]
pub struct Header {
    pub name: String,
    pub value: Vec<u8>,
}

/// What a `Header` stands for.
pub struct HeaderView {
    pub name: Seq<char>,
    pub value: Seq<u8>,
}

impl View for Header {
    type V = HeaderView;

    open spec fn view(&self) -> HeaderView {
        HeaderView { name: self.name@, value: self.value@ }
    }
}

impl Clone for Header {
    fn clone(&self) -> (r: Header)
        ensures
            r@ == self@,
    {
        Header { name: self.name.clone(), value: self.value.clone() }
    }
}

/// A request that the proxy sends to the upstream service.
#[derive(Debug)]
pub struct UpstreamRequest {
    /// The HTTP method, that of the request that came in.
    pub method: String,
    pub uri: UriParts,
    pub headers: Vec<Header>,
    pub body: Vec<u8>,
}

/// What an `UpstreamRequest` stands for.
pub struct UpstreamRequestView {
    pub method: Seq<char>,
    pub uri: UriPartsView,
    pub headers: Seq<HeaderView>,
    pub body: Seq<u8>,
}

impl View for UpstreamRequest {
    type V = UpstreamRequestView;

    open spec fn view(&self) -> UpstreamRequestView {
        UpstreamRequestView {
            method: self.method@,
            uri: self.uri@,
            headers: seq_view(self.headers@),
            body: self.body@,
        }
    }
}

/// Whether a header name is `name`, whatever the case of its ASCII letters.
pub open spec fn is_named(header_name: Seq<char>, name: Seq<char>) -> bool {
    lowercase(header_name) == lowercase(name)
}

/// The value of the first header of the name `name`, if there is one.
pub open spec fn header_value(headers: Seq<HeaderView>, name: Seq<char>) -> Option<Seq<u8>>
    decreases headers.len(),
{
    if headers.len() == 0 {
        None
    } else if is_named(headers[0].name, name) {
        Some(headers[0].value)
    } else {
        header_value(headers.drop_first(), name)
    }
}

/// Whether a header is held back from the upstream request: the header of the
/// policy on extra parameters, and those on the connection and the framing of
/// the body, which the forwarding client sets itself.
pub open spec fn is_stripped(name: Seq<char>) -> bool {
    ||| is_named(name, "extra-parameters"@)
    ||| is_named(name, "connection"@)
    ||| is_named(name, "content-length"@)
    ||| is_named(name, "transfer-encoding"@)
}

/// The headers that are forwarded upstream: all but the stripped ones, in
/// order.
pub open spec fn forwarded_headers(headers: Seq<HeaderView>) -> Seq<HeaderView> {
    headers.filter(|header: HeaderView| !is_stripped(header.name))
}

/// The index of the first header of the name `name`, if there is one.
pub fn find_header(headers: &Vec<Header>, name: &str) -> (r: Option<usize>)
    ensures
        match r {
            Some(i) => i < headers.len() && is_named(headers[i as int].name@, name@)
                && header_value(seq_view(headers@), name@) == Some(headers[i as int].value@),
            None => header_value(seq_view(headers@), name@) is None,
        },
{
    let mut i: usize = 0;
    assert(seq_view(headers@).skip(0) == seq_view(headers@));
    while i < headers.len()
        invariant
            i <= headers.len(),
            header_value(seq_view(headers@), name@) == header_value(
                seq_view(headers@).skip(i as int),
                name@,
            ),
        decreases headers.len() - i,
    {
        let ghost rest = seq_view(headers@).skip(i as int);
        assert(rest[0] == headers[i as int]@);
        assert(rest.drop_first() == seq_view(headers@).skip(i + 1));
        if eq_ignore_ascii_case(headers[i].name.as_str(), name) {
            return Some(i);
        }
        i = i + 1;
    }
    None
}

/// Whether a header of the name `name` is held back from the upstream request.
pub fn is_stripped_name(name: &str) -> (r: bool)
    ensures
        r == is_stripped(name@),
{
    eq_ignore_ascii_case(name, "extra-parameters") || eq_ignore_ascii_case(name, "connection")
        || eq_ignore_ascii_case(name, "content-length") || eq_ignore_ascii_case(
        name,
        "transfer-encoding",
    )
}

/// The headers that are forwarded upstream.
pub fn forward_headers(headers: &Vec<Header>) -> (r: Vec<Header>)
    ensures
        seq_view(r@) == forwarded_headers(seq_view(headers@)),
{
    let ghost pred = |header: HeaderView| !is_stripped(header.name);
    let mut kept: Vec<Header> = Vec::new();
    let mut i: usize = 0;
    assert(seq_view(headers@).take(0) == Seq::<HeaderView>::empty());
    while i < headers.len()
        invariant
            pred == |header: HeaderView| !is_stripped(header.name),
            i <= headers.len(),
            seq_view(kept@) == seq_view(headers@).take(i as int).filter(pred),
        decreases headers.len() - i,
    {
        proof {
            let all = seq_view(headers@);
            assert(all.take(i + 1) == all.take(i as int).push(all[i as int]));
            all.take(i as int).lemma_filter_push(all[i as int], pred);
        }
        if !is_stripped_name(headers[i].name.as_str()) {
            let ghost before = seq_view(kept@);
            kept.push(headers[i].clone());
            assert(seq_view(kept@) == before.push(headers[i as int]@));
        }
        i = i + 1;
    }
    assert(seq_view(headers@).take(headers.len() as int) == seq_view(headers@));
    kept
}

/// A copy of a list of headers.
pub fn copy_headers(headers: &Vec<Header>) -> (r: Vec<Header>)
    ensures
        seq_view(r@) == seq_view(headers@),
{
    let mut copy: Vec<Header> = Vec::new();
    let mut i: usize = 0;
    while i < headers.len()
        invariant
            i <= headers.len(),
            copy.len() == i,
            forall|j: int| 0 <= j < i ==> (#[trigger] copy[j])@ == headers[j]@,
        decreases headers.len() - i,
    {
        copy.push(headers[i].clone());
        i = i + 1;
    }
    assert(seq_view(copy@) == seq_view(headers@));
    copy
}

} // verus!
