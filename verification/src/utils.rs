//! The test of the `api-version` query parameter, and the upstream URI.
use crate::errors::{AzureError, AzureErrorView};
use crate::text::{join, join_spec, opt_view, text_eq, views_of};
use vstd::prelude::*;
use vstd::string::*;

verus! {

/// The versions of the Azure AI Model Inference API that the proxy serves.
pub open spec fn api_versions() -> Seq<Seq<char>> {
    seq!["2024-05-01-preview"@, "2025-04-01"@]
}

/// The supported versions as one text, as an error message names them.
pub open spec fn api_versions_text() -> Seq<char> {
    join_spec(api_versions(), ", "@)
}

/// What is answered to a request's `api-version`, absent or present.
pub open spec fn check_api_version_spec(api_version: Option<Seq<char>>) -> Result<
    (),
    AzureErrorView,
> {
    match api_version {
        None => Err(AzureErrorView::MissingApiVersionParameter),
        Some(version) => if api_versions().contains(version) {
            Ok(())
        } else {
            Err(AzureErrorView::UnsupportedApiVersionValue(version, api_versions_text()))
        },
    }
}

fn supported_api_versions() -> (r: Vec<String>)
    ensures
        views_of(r@) == api_versions(),
{
    let mut versions: Vec<String> = Vec::new();
    versions.push(String::from_str("2024-05-01-preview"));
    versions.push(String::from_str("2025-04-01"));
    assert(views_of(versions@) == api_versions());
    versions
}

/// Checks that the `api-version` query parameter is there and names a supported
/// version.
pub fn check_api_version(api_version: Option<String>) -> (r: Result<(), AzureError>)
    ensures
        match r {
            Ok(_) => check_api_version_spec(opt_view(api_version)) is Ok,
            Err(e) => check_api_version_spec(opt_view(api_version)) == Err::<(), AzureErrorView>(e@),
        },
{
    match api_version {
        None => Err(AzureError::MissingApiVersionParameter),
        Some(version) => {
            let versions = supported_api_versions();
            let mut i: usize = 0;
            while i < versions.len()
                invariant
                    api_version == Some(version),
                    i <= versions.len(),
                    views_of(versions@) == api_versions(),
                    forall|j: int| 0 <= j < i ==> api_versions()[j] != version@,
                decreases versions.len() - i,
            {
                assert(views_of(versions@)[i as int] == versions[i as int]@);
                if text_eq(versions[i].as_str(), version.as_str()) {
                    assert(api_versions()[i as int] == version@);
                    assert(api_versions().contains(version@));
                    return Ok(());
                }
                i = i + 1;
            }
            let supported = join(&versions, ", ");
            Err(AzureError::UnsupportedApiVersionValue(version, supported))
        },
    }
}

/// The components of a URI that the proxy reads or replaces, each as text.
#[derive(Debug)]
pub struct UriParts {
    pub scheme: Option<String>,
    pub authority: Option<String>,
    pub path_and_query: Option<String>,
}

/// What a `UriParts` stands for.
pub struct UriPartsView {
    pub scheme: Option<Seq<char>>,
    pub authority: Option<Seq<char>>,
    pub path_and_query: Option<Seq<char>>,
}

impl View for UriParts {
    type V = UriPartsView;

    open spec fn view(&self) -> UriPartsView {
        UriPartsView {
            scheme: opt_view(self.scheme),
            authority: opt_view(self.authority),
            path_and_query: opt_view(self.path_and_query),
        }
    }
}

impl UriPartsView {
    /// The URI with its path and query replaced, and with the scheme `http`
    /// where it had none. Host and port stay as they are.
    pub open spec fn with_path(self, path_and_query: Seq<char>) -> UriPartsView {
        UriPartsView {
            scheme: if self.scheme is Some {
                self.scheme
            } else {
                Some("http"@)
            },
            authority: self.authority,
            path_and_query: Some(path_and_query),
        }
    }

    /// The URI as one text: the scheme with `://` after it, the authority, then
    /// the path and query, each where it is there.
    pub open spec fn text(self) -> Seq<char> {
        (match self.scheme {
            Some(scheme) => scheme + "://"@,
            None => Seq::empty(),
        }) + (match self.authority {
            Some(authority) => authority,
            None => Seq::empty(),
        }) + (match self.path_and_query {
            Some(path_and_query) => path_and_query,
            None => Seq::empty(),
        })
    }
}

/// The path and query that the `http` crate reads from a text, as it writes
/// them back; `None` where it refuses the text.
pub uninterp spec fn path_and_query_text(path: Seq<char>) -> Option<Seq<char>>;

/// Reads a path with its query.
///
/// Trusted: calls `http::uri::PathAndQuery`'s `from_str` and, where that
/// accepts the text, its `as_str`. The contract names what comes back and claims
/// nothing else of it.
#[verifier::external_body]
fn parse_path_and_query(path: &str) -> (r: Option<String>)
    ensures
        opt_view(r) == path_and_query_text(path@),
{
    match path.parse::<axum::http::uri::PathAndQuery>() {
        Ok(parsed) => Some(parsed.as_str().to_string()),
        Err(_) => None,
    }
}

impl Clone for UriParts {
    fn clone(&self) -> (r: UriParts)
        ensures
            r@ == self@,
    {
        UriParts {
            scheme: self.scheme.clone(),
            authority: self.authority.clone(),
            path_and_query: self.path_and_query.clone(),
        }
    }
}

impl UriParts {
    /// Replaces the path and query, and sets the scheme to `http` where there is
    /// none.
    pub fn with_path(self, path_and_query: String) -> (r: UriParts)
        ensures
            r@ == self@.with_path(path_and_query@),
    {
        let scheme = match self.scheme {
            Some(scheme) => Some(scheme),
            None => Some(String::from_str("http")),
        };
        UriParts { scheme, authority: self.authority, path_and_query: Some(path_and_query) }
    }

    /// The URI as one text.
    pub fn to_string(&self) -> (r: String)
        ensures
            r@ == self@.text(),
    {
        let mut out = String::new();
        match &self.scheme {
            Some(scheme) => {
                out.append(scheme.as_str());
                out.append("://");
            },
            None => {},
        }
        match &self.authority {
            Some(authority) => {
                out.append(authority.as_str());
            },
            None => {},
        }
        match &self.path_and_query {
            Some(path_and_query) => {
                out.append(path_and_query.as_str());
            },
            None => {},
        }
        assert(out@ == self@.text());
        out
    }
}

/// Appends a path (route) to a URI: the path and query of `uri` are replaced by
/// `path`, and the scheme defaults to `http`.
///
/// `path` must be one that the `http` crate reads as a path, and `uri` must name
/// a host: a URI with a scheme and no authority cannot be built.
pub fn append_path_to_uri(uri: UriParts, path: &str) -> (r: UriParts)
    requires
        path_and_query_text(path@) is Some,
        uri@.authority is Some,
    ensures
        r@ == uri@.with_path(path_and_query_text(path@)->0),
{
    uri.with_path(parse_path_and_query(path).unwrap())
}

/// The message of the failure to build a URI from a path that cannot be read.
pub open spec fn invalid_path_message() -> Seq<char> {
    "invalid uri: the path cannot be read"@
}

/// The message of the failure to build a URI without an authority.
pub open spec fn missing_authority_message() -> Seq<char> {
    "invalid uri: authority missing"@
}

/// What `try_append_path_to_uri` answers, given what was read from the path.
pub open spec fn try_append_path_spec(
    uri: UriPartsView,
    path_and_query: Option<Seq<char>>,
) -> Result<UriPartsView, AzureErrorView> {
    match path_and_query {
        None => Err(AzureErrorView::InternalParsing(invalid_path_message())),
        Some(path_and_query) => if uri.authority is Some {
            Ok(uri.with_path(path_and_query))
        } else {
            Err(AzureErrorView::InternalParsing(missing_authority_message()))
        },
    }
}

/// Appends a path to a URI as `append_path_to_uri` does, and reports a path that
/// cannot be read or a URI without authority as an internal failure.
pub fn try_append_path_to_uri(uri: UriParts, path: &str) -> (r: Result<UriParts, AzureError>)
    ensures
        match r {
            Ok(built) => try_append_path_spec(uri@, path_and_query_text(path@)) == Ok::<
                UriPartsView,
                AzureErrorView,
            >(built@),
            Err(e) => try_append_path_spec(uri@, path_and_query_text(path@)) == Err::<
                UriPartsView,
                AzureErrorView,
            >(e@),
        },
{
    match parse_path_and_query(path) {
        None => Err(
            AzureError::InternalParsing(String::from_str("invalid uri: the path cannot be read")),
        ),
        Some(_) => {
            if uri.authority.is_some() {
                Ok(append_path_to_uri(uri, path))
            } else {
                Err(AzureError::InternalParsing(String::from_str("invalid uri: authority missing")))
            }
        },
    }
}

} // verus!
