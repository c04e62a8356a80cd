//! What holds of the proxy as a whole, proved from the contracts of its parts.
use crate::errors::AzureErrorView;
use crate::handlers::chat_completions::{chat_completions_outcome, chat_completions_plan};
use crate::handlers::info::{info_outcome, info_plan, InfoOutcomeView};
use crate::json::Json;
use crate::proxy::{
    forwarded_headers, is_stripped, HeaderView, ProxyStateView, UpstreamRequestView,
};
use crate::schemas::azure::{entry_names, refused_parameters_message, ExtraParameters};
use crate::schemas::chat_completions::{extra_entries, is_recognized, ChatRequestView};
use crate::schemas::round_trip::{
    encoded_field, lemma_decoded_well_formed, lemma_encoded_extra, lemma_encoded_field,
    lemma_request_round_trip, lemma_rewritten_extra, lemma_rewritten_field,
};
use crate::schemas::info::{is_first_slash, split_model_id_spec};
use crate::utils::{api_versions, api_versions_text};
use vstd::prelude::*;

verus! {

/// A request without `api-version` is answered with status 400 and the code
/// `MissingApiVersionParameter`, on either route and whatever its method, its
/// headers and its body.
pub proof fn lemma_missing_api_version(
    state: ProxyStateView,
    method: Seq<char>,
    headers: Seq<HeaderView>,
    body: Result<Json, Seq<char>>,
    path: Option<Seq<char>>,
)
    ensures
        chat_completions_plan(state, method, headers, None, body, path) == Err::<
            UpstreamRequestView,
            AzureErrorView,
        >(AzureErrorView::MissingApiVersionParameter),
        info_plan(state, method, headers, None, path) == Err::<
            UpstreamRequestView,
            AzureErrorView,
        >(AzureErrorView::MissingApiVersionParameter),
        AzureErrorView::MissingApiVersionParameter.status() == 400,
        AzureErrorView::MissingApiVersionParameter.code() == "MissingApiVersionParameter"@,
{
}

/// A request whose `api-version` is none of the supported ones is answered with
/// status 400 and the code `UnsupportedApiVersionValue`, and the message names
/// the version received and the versions supported.
pub proof fn lemma_unsupported_api_version(
    state: ProxyStateView,
    method: Seq<char>,
    headers: Seq<HeaderView>,
    version: Seq<char>,
    body: Result<Json, Seq<char>>,
    path: Option<Seq<char>>,
)
    requires
        !api_versions().contains(version),
    ensures
        chat_completions_plan(state, method, headers, Some(version), body, path) == Err::<
            UpstreamRequestView,
            AzureErrorView,
        >(AzureErrorView::UnsupportedApiVersionValue(version, api_versions_text())),
        info_plan(state, method, headers, Some(version), path) == Err::<
            UpstreamRequestView,
            AzureErrorView,
        >(AzureErrorView::UnsupportedApiVersionValue(version, api_versions_text())),
        AzureErrorView::UnsupportedApiVersionValue(version, api_versions_text()).status() == 400,
        AzureErrorView::UnsupportedApiVersionValue(version, api_versions_text()).code()
            == "UnsupportedApiVersionValue"@,
        AzureErrorView::UnsupportedApiVersionValue(version, api_versions_text()).message()
            == "Unsupported api-version '"@ + version + "'. The supported api-versions are '"@
            + ("2024-05-01-preview"@ + ", "@ + "2025-04-01"@) + "'."@,
{
    let versions = api_versions();
    assert(versions.drop_last() == seq!["2024-05-01-preview"@]);
    assert(versions.last() == "2025-04-01"@);
    reveal_with_fuel(crate::text::join_spec, 3);
}

/// Dropping the extra parameters twice gives what dropping them once gives: the
/// request without extra parameters.
pub proof fn lemma_drop_idempotent(request: ChatRequestView)
    ensures
        request.apply(ExtraParameters::Drop) is Ok,
        request.apply(ExtraParameters::Drop)->Ok_0.extra_parameters.len() == 0,
        request.apply(ExtraParameters::Drop)->Ok_0.apply(ExtraParameters::Drop) == request.apply(
            ExtraParameters::Drop,
        ),
{
}

/// Dropping, writing and reading again: a request that was read from a payload
/// under the policy that drops extra parameters, once written as a payload and
/// read under that policy again, is the same request in every field.
pub proof fn lemma_drop_round_trip(json: Json)
    requires
        ChatRequestView::from_parsed(Ok(json), ExtraParameters::Drop) is Ok,
    ensures
        ({
            let request = ChatRequestView::from_parsed(Ok(json), ExtraParameters::Drop)->Ok_0;
            &&& request.extra_parameters.len() == 0
            &&& ChatRequestView::from_parsed(Ok(request.encode()), ExtraParameters::Drop) == Ok::<
                ChatRequestView,
                AzureErrorView,
            >(request)
        }),
{
    let request = ChatRequestView::from_parsed(Ok(json), ExtraParameters::Drop)->Ok_0;
    assert(request.well_formed());
    lemma_request_round_trip(request);
    assert(request.extra_parameters == Seq::<(Seq<char>, Json)>::empty());
}

/// The policy that drops extra parameters, on a payload: what is written for
/// the request has the fields of the contract that the payload had with a
/// value other than `null`, and no other field.
pub proof fn lemma_drop_removes_extras(json: Json)
    requires
        ChatRequestView::from_parsed(Ok(json), ExtraParameters::Drop) is Ok,
    ensures
        ({
            let request = ChatRequestView::from_parsed(Ok(json), ExtraParameters::Drop)->Ok_0;
            &&& request.extra_parameters.len() == 0
            &&& forall|key: Seq<char>|
                !is_recognized(key) ==> !(#[trigger] request.encode().has(key))
            &&& forall|key: Seq<char>|
                is_recognized(key) ==> (#[trigger] request.encode().has(key) <==> !json.lacks(key))
        }),
{
    let read = ChatRequestView::decode(json)->Ok_0;
    let request = ChatRequestView::from_parsed(Ok(json), ExtraParameters::Drop)->Ok_0;
    assert(request.well_formed());
    assert forall|key: Seq<char>| !is_recognized(key) implies !(#[trigger] request.encode().has(
        key,
    )) by {
        lemma_encoded_extra(request, key);
    }
    assert forall|key: Seq<char>| is_recognized(key) implies (#[trigger] request.encode().has(key)
        <==> !json.lacks(key)) by {
        lemma_rewritten_field(json, key);
        lemma_decoded_well_formed(json);
        lemma_encoded_field(read, key);
        lemma_encoded_field(request, key);
        assert(encoded_field(request, key) == encoded_field(read, key));
    }
}

/// A failure of the transport on the chat-completion route is answered with
/// status 502 and the code `UpstreamApi`; so is one on the model-information
/// route.
pub proof fn lemma_transport_failure<R>(state: ProxyStateView, message: Seq<char>)
    ensures
        chat_completions_outcome::<R>(Err(message)) == Err::<R, AzureErrorView>(
            AzureErrorView::Upstream(502, message),
        ),
        info_outcome(state, InfoOutcomeView::Failed(message)) == Err::<Json, AzureErrorView>(
            AzureErrorView::Upstream(502, message),
        ),
        AzureErrorView::Upstream(502, message).status() == 502,
        AzureErrorView::Upstream(502, message).code() == "UpstreamApi"@,
{
}

/// Round trip under the pass-through policy: a well-formed request that is
/// written as a payload, and read again under the policy that passes extra
/// parameters through, is the same request. No field that the contract defines
/// is lost, and no extra parameter.
pub proof fn lemma_pass_through_round_trip(request: ChatRequestView)
    requires
        request.well_formed(),
    ensures
        ChatRequestView::from_parsed(Ok(request.encode()), ExtraParameters::PassThrough) == Ok::<
            ChatRequestView,
            AzureErrorView,
        >(request),
{
    lemma_request_round_trip(request);
}

/// The fields of a payload under the pass-through policy: a payload that is
/// read as a request and written again has the fields that it had, but for
/// the fields of the contract that held `null`. What it holds under a name
/// that the contract does not define is what it held before, and it is read
/// as the same request again.
pub proof fn lemma_pass_through_fields(json: Json)
    requires
        ChatRequestView::from_parsed(Ok(json), ExtraParameters::PassThrough) is Ok,
    ensures
        ({
            let request = ChatRequestView::from_parsed(Ok(json), ExtraParameters::PassThrough)->Ok_0;
            let again = request.encode();
            &&& request.well_formed()
            &&& request.extra_parameters == extra_entries(json->Object_0)
            &&& forall|key: Seq<char>|
                !is_recognized(key) ==> (#[trigger] again.has(key) <==> json.has(key))
            &&& forall|key: Seq<char>|
                !is_recognized(key) && json.has(key) ==> #[trigger] again.at(key) == json.at(key)
            &&& forall|key: Seq<char>|
                is_recognized(key) ==> (#[trigger] again.has(key) <==> !json.lacks(key))
            &&& ChatRequestView::from_parsed(Ok(again), ExtraParameters::PassThrough) == Ok::<
                ChatRequestView,
                AzureErrorView,
            >(request)
        }),
{
    let request = ChatRequestView::decode(json)->Ok_0;
    let again = request.encode();
    lemma_decoded_well_formed(json);
    lemma_request_round_trip(request);
    assert(request.extra_parameters == extra_entries(json->Object_0)) by {
        reveal(ChatRequestView::decode);
    }
    assert forall|key: Seq<char>| !is_recognized(key) implies (#[trigger] again.has(key)
        <==> json.has(key)) by {
        lemma_rewritten_extra(json, key);
    }
    assert forall|key: Seq<char>| !is_recognized(key) && json.has(key) implies #[trigger] again.at(
        key,
    ) == json.at(key) by {
        lemma_rewritten_extra(json, key);
    }
    assert forall|key: Seq<char>| is_recognized(key) implies (#[trigger] again.has(key)
        <==> !json.lacks(key)) by {
        lemma_rewritten_field(json, key);
    }
}

/// The field set of a payload that holds `null` under no field of the
/// contract: read as a request under the pass-through policy and written
/// again, it has the fields that it had, whatever their order.
pub proof fn lemma_pass_through_field_set(json: Json)
    requires
        ChatRequestView::from_parsed(Ok(json), ExtraParameters::PassThrough) is Ok,
        forall|key: Seq<char>|
            is_recognized(key) && #[trigger] json.has(key) ==> !(json.at(key) is Null),
    ensures
        forall|key: Seq<char>|
            #[trigger] ChatRequestView::from_parsed(
                Ok(json),
                ExtraParameters::PassThrough,
            )->Ok_0.encode().has(key) <==> json.has(key),
{
    let again = ChatRequestView::decode(json)->Ok_0.encode();
    lemma_pass_through_fields(json);
    assert forall|key: Seq<char>| #[trigger] again.has(key) <==> json.has(key) by {
        if is_recognized(key) {
            assert(again.has(key) <==> !json.lacks(key));
        } else {
            assert(again.has(key) <==> json.has(key));
        }
    }
}

/// The policy that refuses extra parameters: a request with extra parameters is
/// refused with status 500 and the code `InternalProxyParsing`, and the message
/// lists their names in order with commas between them, each name once where
/// the request is well-formed. A request without is accepted as it is.
pub proof fn lemma_error_policy(request: ChatRequestView)
    ensures
        request.well_formed() ==> entry_names(request.extra_parameters).no_duplicates(),
        request.extra_parameters.len() > 0 ==> request.apply(ExtraParameters::Error) == Err::<
            ChatRequestView,
            AzureErrorView,
        >(
            AzureErrorView::InternalParsing(
                refused_parameters_message(entry_names(request.extra_parameters)),
            ),
        ),
        request.extra_parameters.len() == 0 ==> request.apply(ExtraParameters::Error) == Ok::<
            ChatRequestView,
            AzureErrorView,
        >(request),
        AzureErrorView::InternalParsing(
            refused_parameters_message(entry_names(request.extra_parameters)),
        ).status() == 500,
        AzureErrorView::InternalParsing(
            refused_parameters_message(entry_names(request.extra_parameters)),
        ).code() == "InternalProxyParsing"@,
{
    if request.extra_parameters.len() == 0 {
        assert(request.extra_parameters == Seq::<(Seq<char>, Json)>::empty());
    }
}

/// The headers that are forwarded upstream: none of them is a stripped one, and
/// every header of the request that is not stripped is among them.
pub proof fn lemma_forwarded_headers(headers: Seq<HeaderView>)
    ensures
        forall|i: int|
            0 <= i < forwarded_headers(headers).len() ==> !is_stripped(
                (#[trigger] forwarded_headers(headers)[i]).name,
            ),
        forall|i: int|
            0 <= i < headers.len() && !is_stripped((#[trigger] headers[i]).name)
                ==> forwarded_headers(headers).contains(headers[i]),
{
    let pred = |header: HeaderView| !is_stripped(header.name);
    assert forall|i: int| 0 <= i < forwarded_headers(headers).len() implies !is_stripped(
        (#[trigger] forwarded_headers(headers)[i]).name,
    ) by {
        headers.lemma_filter_pred(pred, i);
    }
    assert forall|i: int|
        0 <= i < headers.len() && !is_stripped(
            (#[trigger] headers[i]).name,
        ) implies forwarded_headers(headers).contains(headers[i]) by {
        headers.lemma_filter_contains(pred, i);
    }
}

/// The split of a model identifier: on the first `/`, where it has one.
pub proof fn lemma_split_model_id(id: Seq<char>, i: int)
    requires
        is_first_slash(id, i),
    ensures
        split_model_id_spec(id) == (id.subrange(0, i), id.subrange(i + 1, id.len() as int)),
{
    let chosen = choose|k: int| is_first_slash(id, k);
    assert(chosen == i);
}

/// The split of a model identifier without `/`: provider and name are both the
/// identifier.
pub proof fn lemma_split_model_id_plain(id: Seq<char>)
    requires
        forall|i: int| 0 <= i < id.len() ==> id[i] != '/',
    ensures
        split_model_id_spec(id) == (id, id),
{
}

} // verus!
