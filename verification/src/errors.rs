//! The failures of the proxy and the envelope that reports each to the caller.
use crate::json::{entries_view, printed_json, Json, JsonValue};
use vstd::prelude::*;
use vstd::string::*;

verus! {

/// A failure of the proxy, as the Azure AI Model Inference contract names it.
#[derive(Debug)]
pub enum AzureError {
    /// The request has no `api-version` query parameter.
    MissingApiVersionParameter,
    /// The `api-version` of the request (first) is none of the supported ones
    /// (second, as one text).
    UnsupportedApiVersionValue(String, String),
    /// A payload could not be decoded, a URI could not be built, or the request
    /// holds parameters that the policy refuses.
    InternalParsing(String),
    /// The upstream call failed, with the status to report and a message.
    Upstream(u16, String),
}

/// What an `AzureError` stands for.
pub enum AzureErrorView {
    MissingApiVersionParameter,
    UnsupportedApiVersionValue(Seq<char>, Seq<char>),
    InternalParsing(Seq<char>),
    Upstream(u16, Seq<char>),
}

impl View for AzureError {
    type V = AzureErrorView;

    open spec fn view(&self) -> AzureErrorView {
        match self {
            AzureError::MissingApiVersionParameter => AzureErrorView::MissingApiVersionParameter,
            AzureError::UnsupportedApiVersionValue(got, supported) => {
                AzureErrorView::UnsupportedApiVersionValue(got@, supported@)
            },
            AzureError::InternalParsing(message) => AzureErrorView::InternalParsing(message@),
            AzureError::Upstream(status, message) => AzureErrorView::Upstream(*status, message@),
        }
    }
}

/// An HTTP response that the proxy writes itself: a status and a JSON body.
#[derive(Debug)]
pub struct ProxyResponse {
    pub status: u16,
    pub body: Vec<u8>,
}

impl AzureErrorView {
    /// The HTTP status that answers the failure.
    pub open spec fn status(self) -> u16 {
        match self {
            AzureErrorView::MissingApiVersionParameter => 400,
            AzureErrorView::UnsupportedApiVersionValue(_, _) => 400,
            AzureErrorView::InternalParsing(_) => 500,
            AzureErrorView::Upstream(status, _) => status,
        }
    }

    /// The machine-readable code of the failure.
    pub open spec fn code(self) -> Seq<char> {
        match self {
            AzureErrorView::MissingApiVersionParameter => "MissingApiVersionParameter"@,
            AzureErrorView::UnsupportedApiVersionValue(_, _) => "UnsupportedApiVersionValue"@,
            AzureErrorView::InternalParsing(_) => "InternalProxyParsing"@,
            AzureErrorView::Upstream(_, _) => "UpstreamApi"@,
        }
    }

    /// The human-readable message of the failure.
    pub open spec fn message(self) -> Seq<char> {
        match self {
            AzureErrorView::MissingApiVersionParameter => {
                "The api-version query parameter (?api-version=) is required for all requests."@
            },
            AzureErrorView::UnsupportedApiVersionValue(got, supported) => {
                "Unsupported api-version '"@ + got + "'. The supported api-versions are '"@
                    + supported + "'."@
            },
            AzureErrorView::InternalParsing(message) => message,
            AzureErrorView::Upstream(_, message) => message,
        }
    }

    /// The JSON envelope of the failure: an object whose one field `error` holds
    /// the code and the message.
    pub open spec fn envelope(self) -> Json {
        Json::Object(
            seq![
                (
                    "error"@,
                    Json::Object(
                        seq![
                            ("code"@, Json::Str(self.code())),
                            ("message"@, Json::Str(self.message())),
                        ],
                    ),
                ),
            ],
        )
    }
}

impl AzureError {
    /// The HTTP status that answers the failure.
    pub fn status(&self) -> (r: u16)
        ensures
            r == self@.status(),
    {
        match self {
            AzureError::MissingApiVersionParameter => 400,
            AzureError::UnsupportedApiVersionValue(_, _) => 400,
            AzureError::InternalParsing(_) => 500,
            AzureError::Upstream(status, _) => *status,
        }
    }

    /// The machine-readable code of the failure.
    pub fn code(&self) -> (r: &'static str)
        ensures
            r@ == self@.code(),
    {
        match self {
            AzureError::MissingApiVersionParameter => "MissingApiVersionParameter",
            AzureError::UnsupportedApiVersionValue(_, _) => "UnsupportedApiVersionValue",
            AzureError::InternalParsing(_) => "InternalProxyParsing",
            AzureError::Upstream(_, _) => "UpstreamApi",
        }
    }

    /// The human-readable message of the failure.
    pub fn message(&self) -> (r: String)
        ensures
            r@ == self@.message(),
    {
        match self {
            AzureError::MissingApiVersionParameter => String::from_str(
                "The api-version query parameter (?api-version=) is required for all requests.",
            ),
            AzureError::UnsupportedApiVersionValue(got, supported) => {
                let mut out = String::from_str("Unsupported api-version '");
                out.append(got.as_str());
                out.append("'. The supported api-versions are '");
                out.append(supported.as_str());
                out.append("'.");
                out
            },
            AzureError::InternalParsing(message) => message.clone(),
            AzureError::Upstream(_, message) => message.clone(),
        }
    }

    /// The JSON envelope of the failure.
    pub fn envelope(&self) -> (r: JsonValue)
        ensures
            r@ == self@.envelope(),
    {
        let mut inner: Vec<(String, JsonValue)> = Vec::new();
        let code = (String::from_str("code"), JsonValue::Str(String::from_str(self.code())));
        let message = (String::from_str("message"), JsonValue::Str(self.message()));
        let mut outer: Vec<(String, JsonValue)> = Vec::new();
        inner.push(code);
        inner.push(message);
        assert(entries_view(inner@) == seq![
            ("code"@, Json::Str(self@.code())),
            ("message"@, Json::Str(self@.message())),
        ]);
        let error = (String::from_str("error"), JsonValue::Object(inner));
        outer.push(error);
        assert(entries_view(outer@) == seq![("error"@, error.1@)]);
        JsonValue::Object(outer)
    }

    /// The response that reports the failure to the caller: its status, and its
    /// envelope as the body.
    pub fn into_response(self) -> (r: ProxyResponse)
        ensures
            r.status == self@.status(),
            r.body@ == printed_json(self@.envelope()),
    {
        let status = self.status();
        let body = self.envelope().to_vec();
        ProxyResponse { status, body }
    }
}

} // verus!
