//! What the Azure AI Model Inference contract adds to a request: the
//! `api-version` query parameter and the policy on extra parameters.
use crate::errors::{AzureError, AzureErrorView};
use crate::json::{entries_view, Json, JsonValue};
use crate::text::{bytes_eq, join, join_spec, views_of};
use vstd::prelude::*;
use vstd::string::*;

verus! {

/// The query parameters of a request that the proxy reads.
#[derive(Debug)]
pub struct QueryParameters {
    /// The value of `api-version`, where the query has one.
    pub api_version: Option<String>,
}

/// What the proxy does with the fields of a payload that the contract does not
/// define.
#[derive(Clone, Copy, Debug, PartialEq, Eq, Structural)]
pub enum ExtraParameters {
    /// The extra parameters are passed to the upstream service.
    PassThrough,
    /// The extra parameters are dropped; only the known ones are passed on.
    Drop,
    /// A payload with extra parameters is refused.
    Error,
}

/// The keys of a sequence of entries, in order.
pub open spec fn entry_names(entries: Seq<(Seq<char>, Json)>) -> Seq<Seq<char>> {
    Seq::new(entries.len(), |i: int| entries[i].0)
}

/// The message with which a payload is refused for its extra parameters, whose
/// names it lists with commas between them.
pub open spec fn refused_parameters_message(names: Seq<Seq<char>>) -> Seq<char> {
    "As the header `extra-parameters` is set to `error`, since the following parameters have been provided "@
        + join_spec(names, ","@)
        + ", and those are not defined by the Azure AI Model Inference API."@
}

impl ExtraParameters {
    /// The policy that a header value names in kebab case, if it names one.
    pub open spec fn parse_spec(value: Seq<u8>) -> Option<ExtraParameters> {
        if value == "pass-through".spec_bytes() {
            Some(ExtraParameters::PassThrough)
        } else if value == "drop".spec_bytes() {
            Some(ExtraParameters::Drop)
        } else if value == "error".spec_bytes() {
            Some(ExtraParameters::Error)
        } else {
            None
        }
    }

    /// The policy of a request, given the value of its `extra-parameters` header
    /// where it has one: the policy that the value names, and `PassThrough`
    /// where there is no value or it names none.
    pub open spec fn from_header_spec(value: Option<Seq<u8>>) -> ExtraParameters {
        match value {
            Some(value) => match Self::parse_spec(value) {
                Some(policy) => policy,
                None => ExtraParameters::PassThrough,
            },
            None => ExtraParameters::PassThrough,
        }
    }

    /// What the policy makes of the extra fields of a payload.
    pub open spec fn apply_spec(self, extras: Seq<(Seq<char>, Json)>) -> Result<
        Seq<(Seq<char>, Json)>,
        AzureErrorView,
    > {
        match self {
            ExtraParameters::PassThrough => Ok(extras),
            ExtraParameters::Drop => Ok(Seq::empty()),
            ExtraParameters::Error => if extras.len() == 0 {
                Ok(Seq::empty())
            } else {
                Err(AzureErrorView::InternalParsing(refused_parameters_message(entry_names(extras))))
            },
        }
    }

    /// The policy that a header value names in kebab case, if it names one.
    pub fn parse(value: &[u8]) -> (r: Option<ExtraParameters>)
        ensures
            r == Self::parse_spec(value@),
    {
        if bytes_eq(value, "pass-through".as_bytes()) {
            Some(ExtraParameters::PassThrough)
        } else if bytes_eq(value, "drop".as_bytes()) {
            Some(ExtraParameters::Drop)
        } else if bytes_eq(value, "error".as_bytes()) {
            Some(ExtraParameters::Error)
        } else {
            None
        }
    }

    /// The policy of a request, given the value of its `extra-parameters` header
    /// where it has one.
    pub fn from_header(value: Option<&[u8]>) -> (r: ExtraParameters)
        ensures
            r == Self::from_header_spec(
                match value {
                    Some(v) => Some(v@),
                    None => None,
                },
            ),
    {
        match value {
            Some(value) => match Self::parse(value) {
                Some(policy) => policy,
                None => ExtraParameters::PassThrough,
            },
            None => ExtraParameters::PassThrough,
        }
    }

    /// Applies the policy to the extra fields of a payload: they are kept,
    /// dropped, or, where there are any, refused. The refusal lists the name
    /// of each entry; the extra fields of a well-formed request have each name
    /// once.
    pub fn apply(self, extras: Vec<(String, JsonValue)>) -> (r: Result<
        Vec<(String, JsonValue)>,
        AzureError,
    >)
        ensures
            match r {
                Ok(kept) => self.apply_spec(entries_view(extras@)) == Ok::<
                    Seq<(Seq<char>, Json)>,
                    AzureErrorView,
                >(entries_view(kept@)),
                Err(e) => self.apply_spec(entries_view(extras@)) == Err::<
                    Seq<(Seq<char>, Json)>,
                    AzureErrorView,
                >(e@),
            },
    {
        match self {
            ExtraParameters::PassThrough => Ok(extras),
            ExtraParameters::Drop => {
                let kept: Vec<(String, JsonValue)> = Vec::new();
                assert(entries_view(kept@) == Seq::<(Seq<char>, Json)>::empty());
                Ok(kept)
            },
            ExtraParameters::Error => {
                if extras.len() == 0 {
                    let kept: Vec<(String, JsonValue)> = Vec::new();
                    assert(entries_view(kept@) == Seq::<(Seq<char>, Json)>::empty());
                    Ok(kept)
                } else {
                    let mut names: Vec<String> = Vec::new();
                    let mut i: usize = 0;
                    while i < extras.len()
                        invariant
                            i <= extras.len(),
                            names.len() == i,
                            forall|j: int| 0 <= j < i ==> (#[trigger] names[j])@ == extras[j].0@,
                        decreases extras.len() - i,
                    {
                        names.push(extras[i].0.clone());
                        i = i + 1;
                    }
                    assert(views_of(names@) == entry_names(entries_view(extras@)));
                    let mut message = String::from_str(
                        "As the header `extra-parameters` is set to `error`, since the following parameters have been provided ",
                    );
                    message.append(join(&names, ",").as_str());
                    message.append(
                        ", and those are not defined by the Azure AI Model Inference API.",
                    );
                    Err(AzureError::InternalParsing(message))
                }
            },
        }
    }
}

} // verus!
