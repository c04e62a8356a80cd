//! The model-information route: `/info` in front of the upstream `/v1/models`.
use crate::errors::{AzureError, AzureErrorView, ProxyResponse};
use crate::json::{parsed_json, printed_json, seq_view, Json};
use crate::proxy::{
    copy_headers, Header, HeaderView, ProxyState, ProxyStateView, UpstreamRequest,
    UpstreamRequestView,
};
use crate::schemas::azure::QueryParameters;
use crate::schemas::info::{InfoResponse, InfoResponseView, ModelType};
use crate::text::opt_view;
use crate::utils::{
    check_api_version, check_api_version_spec, path_and_query_text, try_append_path_spec,
    try_append_path_to_uri,
};
use vstd::prelude::*;
use vstd::string::*;

verus! {

/// The path of the upstream route that lists the models.
pub open spec fn models_path() -> Seq<char> {
    "/v1/models"@
}

/// How the upstream call of a model-information request ended.
#[derive(Debug)]
pub enum InfoOutcome {
    /// The call failed in the transport, with this message.
    Failed(String),
    /// The upstream service replied and its body could not be read, with this
    /// message.
    Unreadable(String),
    /// The upstream service replied with this status and this body.
    Replied { status: u16, body: Vec<u8> },
}

/// What an `InfoOutcome` stands for, with what was read from a reply's body.
pub enum InfoOutcomeView {
    Failed(Seq<char>),
    Unreadable(Seq<char>),
    Replied { status: u16, body: Result<Json, Seq<char>> },
}

impl InfoOutcome {
    /// What the outcome stands for: the body of a reply is taken as what is read
    /// from it.
    pub open spec fn parsed(self) -> InfoOutcomeView {
        match self {
            InfoOutcome::Failed(message) => InfoOutcomeView::Failed(message@),
            InfoOutcome::Unreadable(message) => InfoOutcomeView::Unreadable(message@),
            InfoOutcome::Replied { status, body } => InfoOutcomeView::Replied {
                status,
                body: parsed_json(body@),
            },
        }
    }
}

/// Whether a status is one of success.
pub open spec fn is_success(status: u16) -> bool {
    200 <= status < 300
}

/// The message of the failure that reports an upstream error status.
pub open spec fn upstream_status_message() -> Seq<char> {
    "the upstream service answered with an error status"@
}

/// What the proxy does with a model-information request, given what was read
/// from the upstream path: the request that it sends upstream, or the failure
/// that it answers with. The upstream request keeps the method and the headers
/// and has no body.
pub open spec fn info_plan(
    state: ProxyStateView,
    method: Seq<char>,
    headers: Seq<HeaderView>,
    api_version: Option<Seq<char>>,
    path: Option<Seq<char>>,
) -> Result<UpstreamRequestView, AzureErrorView> {
    match check_api_version_spec(api_version) {
        Err(e) => Err(e),
        Ok(_) => match try_append_path_spec(state.uri, path) {
            Err(e) => Err(e),
            Ok(uri) => Ok(UpstreamRequestView { method, uri, headers, body: Seq::empty() }),
        },
    }
}

/// What the proxy answers to a model-information request once the upstream call
/// has ended. A failure of the transport is a failure of status 502; a body
/// that cannot be read, or that holds no model listing, is an internal failure;
/// a reply with a status that is not one of success is a failure of that
/// status. Else the answer is the model information, reshaped from the first
/// model listed, with the model type of the configuration.
pub open spec fn info_outcome(state: ProxyStateView, outcome: InfoOutcomeView) -> Result<
    Json,
    AzureErrorView,
> {
    match outcome {
        InfoOutcomeView::Failed(message) => Err(AzureErrorView::Upstream(502, message)),
        InfoOutcomeView::Unreadable(message) => Err(AzureErrorView::InternalParsing(message)),
        InfoOutcomeView::Replied { status, body } => if !is_success(status) {
            Err(AzureErrorView::Upstream(status, upstream_status_message()))
        } else {
            match InfoResponseView::from_parsed(body) {
                Err(e) => Err(e),
                Ok(listing) => match listing.reshape(ModelType::of_upstream(state.upstream_type)) {
                    Err(e) => Err(e),
                    Ok(info) => Ok(info.encode()),
                },
            }
        },
    }
}

/// Decides what is sent upstream for a request to `/info`: tests the
/// `api-version` and builds the request to `/v1/models`, with the method and
/// the headers of the request and without a body.
pub fn info_handler(
    state: &ProxyState,
    method: String,
    headers: &Vec<Header>,
    query: QueryParameters,
) -> (r: Result<UpstreamRequest, AzureError>)
    ensures
        match r {
            Ok(request) => info_plan(
                state@,
                method@,
                seq_view(headers@),
                opt_view(query.api_version),
                path_and_query_text(models_path()),
            ) == Ok::<UpstreamRequestView, AzureErrorView>(request@),
            Err(e) => info_plan(
                state@,
                method@,
                seq_view(headers@),
                opt_view(query.api_version),
                path_and_query_text(models_path()),
            ) == Err::<UpstreamRequestView, AzureErrorView>(e@),
        },
{
    match check_api_version(query.api_version) {
        Err(e) => {
            return Err(e);
        },
        Ok(_) => {},
    }
    let uri = match try_append_path_to_uri(state.uri.clone(), "/v1/models") {
        Ok(uri) => uri,
        Err(e) => {
            return Err(e);
        },
    };
    Ok(UpstreamRequest { method, uri, headers: copy_headers(headers), body: Vec::new() })
}

/// Decides what is answered to a request to `/info` once the upstream call has
/// ended: the model information with status 200, or the failure.
pub fn info_response(state: &ProxyState, outcome: InfoOutcome) -> (r: Result<
    ProxyResponse,
    AzureError,
>)
    ensures
        match r {
            Ok(response) => response.status == 200 && match info_outcome(state@, outcome.parsed()) {
                Ok(info) => response.body@ == printed_json(info),
                Err(_) => false,
            },
            Err(e) => info_outcome(state@, outcome.parsed()) == Err::<Json, AzureErrorView>(e@),
        },
{
    match outcome {
        InfoOutcome::Failed(message) => Err(AzureError::Upstream(502, message)),
        InfoOutcome::Unreadable(message) => Err(AzureError::InternalParsing(message)),
        InfoOutcome::Replied { status, body } => {
            if status < 200 || status >= 300 {
                return Err(
                    AzureError::Upstream(
                        status,
                        String::from_str("the upstream service answered with an error status"),
                    ),
                );
            }
            let listing = match InfoResponse::from_slice(body.as_slice()) {
                Ok(listing) => listing,
                Err(e) => {
                    return Err(e);
                },
            };
            match listing.reshape(ModelType::from_upstream(state.upstream_type)) {
                Ok(info) => Ok(ProxyResponse { status: 200, body: info.to_json().to_vec() }),
                Err(e) => Err(e),
            }
        },
    }
}

} // verus!
