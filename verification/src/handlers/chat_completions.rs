//! The chat-completion route: `/chat/completions` in front of the upstream
//! `/v1/chat/completions`.
use crate::errors::{AzureError, AzureErrorView};
use crate::json::{parsed_json, printed_json, seq_view, Json};
use crate::proxy::{
    find_header, forward_headers, forwarded_headers, header_value, Header, HeaderView, ProxyState,
    ProxyStateView, UpstreamRequest, UpstreamRequestView,
};
use crate::schemas::azure::{ExtraParameters, QueryParameters};
use crate::schemas::chat_completions::{ChatRequest, ChatRequestView};
use crate::text::opt_view;
use crate::utils::{
    check_api_version, check_api_version_spec, path_and_query_text, try_append_path_spec,
    try_append_path_to_uri,
};
use vstd::prelude::*;
use vstd::string::*;

verus! {

/// The path of the upstream route for chat completions.
pub open spec fn chat_completions_path() -> Seq<char> {
    "/v1/chat/completions"@
}

/// The policy on extra parameters that the headers of a request ask for: that
/// of the first `extra-parameters` header, where its value names one, else
/// `PassThrough`.
pub open spec fn policy_of(headers: Seq<HeaderView>) -> ExtraParameters {
    ExtraParameters::from_header_spec(header_value(headers, "extra-parameters"@))
}

/// What the proxy does with a chat-completion request, given what was read from
/// its body and from the upstream path: the request that it sends upstream, or
/// the failure that it answers with. The `api-version` is tested first, then
/// the body is decoded under the policy of the headers, then the upstream URI
/// is built. The upstream request keeps the method, has the headers that are
/// forwarded, and carries the request as written again.
pub open spec fn chat_completions_plan(
    state: ProxyStateView,
    method: Seq<char>,
    headers: Seq<HeaderView>,
    api_version: Option<Seq<char>>,
    body: Result<Json, Seq<char>>,
    path: Option<Seq<char>>,
) -> Result<UpstreamRequestView, AzureErrorView> {
    match check_api_version_spec(api_version) {
        Err(e) => Err(e),
        Ok(_) => match ChatRequestView::from_parsed(body, policy_of(headers)) {
            Err(e) => Err(e),
            Ok(request) => match try_append_path_spec(state.uri, path) {
                Err(e) => Err(e),
                Ok(uri) => Ok(
                    UpstreamRequestView {
                        method,
                        uri,
                        headers: forwarded_headers(headers),
                        body: printed_json(request.encode()),
                    },
                ),
            },
        },
    }
}

/// What the proxy answers to a chat-completion request once the upstream call
/// has ended: the upstream response as it is, or, where the call failed, a
/// failure of status 502 with the message of the transport.
pub open spec fn chat_completions_outcome<R>(outcome: Result<R, Seq<char>>) -> Result<
    R,
    AzureErrorView,
> {
    match outcome {
        Ok(response) => Ok(response),
        Err(message) => Err(AzureErrorView::Upstream(502, message)),
    }
}

/// How an upstream call ended: with a response, or with the text of the
/// transport's failure.
pub open spec fn outcome_view<R>(outcome: Result<R, String>) -> Result<R, Seq<char>> {
    match outcome {
        Ok(response) => Ok(response),
        Err(message) => Err(message@),
    }
}

/// The policy on extra parameters that the headers of a request ask for.
pub fn extra_parameters_policy(headers: &Vec<Header>) -> (r: ExtraParameters)
    ensures
        r == policy_of(seq_view(headers@)),
{
    match find_header(headers, "extra-parameters") {
        Some(i) => ExtraParameters::from_header(Some(headers[i].value.as_slice())),
        None => ExtraParameters::from_header(None),
    }
}

/// Decides what is sent upstream for a request to `/chat/completions`: tests
/// the `api-version`, reads the policy on extra parameters from the headers,
/// decodes the body under it, and builds the request to
/// `/v1/chat/completions` with the headers that are forwarded.
pub fn chat_completions_handler(
    state: &ProxyState,
    method: String,
    headers: &Vec<Header>,
    query: QueryParameters,
    body: &[u8],
) -> (r: Result<UpstreamRequest, AzureError>)
    ensures
        match r {
            Ok(request) => chat_completions_plan(
                state@,
                method@,
                seq_view(headers@),
                opt_view(query.api_version),
                parsed_json(body@),
                path_and_query_text(chat_completions_path()),
            ) == Ok::<UpstreamRequestView, AzureErrorView>(request@),
            Err(e) => chat_completions_plan(
                state@,
                method@,
                seq_view(headers@),
                opt_view(query.api_version),
                parsed_json(body@),
                path_and_query_text(chat_completions_path()),
            ) == Err::<UpstreamRequestView, AzureErrorView>(e@),
        },
{
    match check_api_version(query.api_version) {
        Err(e) => {
            return Err(e);
        },
        Ok(_) => {},
    }
    let policy = extra_parameters_policy(headers);
    let payload = match ChatRequest::from_slice(body, policy) {
        Ok(payload) => payload,
        Err(e) => {
            return Err(e);
        },
    };
    let uri = match try_append_path_to_uri(state.uri.clone(), "/v1/chat/completions") {
        Ok(uri) => uri,
        Err(e) => {
            return Err(e);
        },
    };
    Ok(UpstreamRequest { method, uri, headers: forward_headers(headers), body: payload.to_vec() })
}

/// Decides what is answered to a request to `/chat/completions` once the
/// upstream call has ended, with the upstream response or with the message of
/// the transport's failure.
pub fn chat_completions_response<R>(outcome: Result<R, String>) -> (r: Result<R, AzureError>)
    ensures
        match r {
            Ok(answer) => chat_completions_outcome(outcome_view(outcome)) == Ok::<
                R,
                AzureErrorView,
            >(answer),
            Err(e) => chat_completions_outcome(outcome_view(outcome)) == Err::<R, AzureErrorView>(
                e@,
            ),
        },
{
    match outcome {
        Ok(response) => Ok(response),
        Err(message) => Err(AzureError::Upstream(502, message)),
    }
}

} // verus!
