//! The model listing of the upstream service and the model information that the
//! proxy answers with.
use crate::errors::{AzureError, AzureErrorView};
use crate::json::{entries_view, items_view, parsed_json, seq_view, Json, JsonValue};
use crate::schemas::{
    invalid_field, invalid_field_message, missing_field, missing_field_message, not_an_object,
    not_an_object_message,
};
use crate::UpstreamType;
use vstd::prelude::*;
use vstd::string::*;

verus! {

/// The type of an AI model.
#[derive(Clone, Copy, Debug, PartialEq, Eq, Structural)]
pub enum ModelType {
    /// A model that takes chat-formatted messages and generates responses.
    ChatCompletion,
    /// A model that generates embeddings from a text.
    Embeddings,
}

/// A model that the upstream service offers.
#[derive(Debug)]
pub struct ModelInfo {
    /// The identifier of the model, read as `<provider>/<name>`.
    pub id: String,
}

/// The model listing of the upstream service.
#[derive(Debug)]
pub struct InfoResponse {
    pub data: Vec<ModelInfo>,
}

/// A model of the upstream service, under the name of the OpenAI API.
pub type OpenAIModelInfo = ModelInfo;

/// The model listing of the upstream service, under the name of the OpenAI API.
pub type OpenAIInfoResponse = InfoResponse;

/// The information on the model behind the proxy, as the Azure AI Model
/// Inference contract gives it.
#[derive(Debug)]
pub struct AzureInfoResponse {
    pub model_name: String,
    pub model_type: ModelType,
    pub model_provider_name: String,
}

/// What a `ModelInfo` stands for.
pub struct ModelInfoView {
    pub id: Seq<char>,
}

/// What an `InfoResponse` stands for.
pub struct InfoResponseView {
    pub data: Seq<ModelInfoView>,
}

/// What an `AzureInfoResponse` stands for.
pub struct AzureInfoResponseView {
    pub model_name: Seq<char>,
    pub model_type: ModelType,
    pub model_provider_name: Seq<char>,
}

impl View for ModelInfo {
    type V = ModelInfoView;

    open spec fn view(&self) -> ModelInfoView {
        ModelInfoView { id: self.id@ }
    }
}

impl View for InfoResponse {
    type V = InfoResponseView;

    open spec fn view(&self) -> InfoResponseView {
        InfoResponseView { data: seq_view(self.data@) }
    }
}

impl View for AzureInfoResponse {
    type V = AzureInfoResponseView;

    open spec fn view(&self) -> AzureInfoResponseView {
        AzureInfoResponseView {
            model_name: self.model_name@,
            model_type: self.model_type,
            model_provider_name: self.model_provider_name@,
        }
    }
}

/// The message of a model listing without a model.
pub open spec fn no_model_message() -> Seq<char> {
    "the upstream service lists no model"@
}

/// Whether `i` is the place of the first `/` of `id`.
pub open spec fn is_first_slash(id: Seq<char>, i: int) -> bool {
    &&& 0 <= i < id.len()
    &&& id[i] == '/'
    &&& forall|j: int| 0 <= j < i ==> id[j] != '/'
}

/// A model identifier split on its first `/` into the provider, before it, and
/// the name, after it; both are the whole identifier where it has no `/`.
pub open spec fn split_model_id_spec(id: Seq<char>) -> (Seq<char>, Seq<char>) {
    if exists|i: int| is_first_slash(id, i) {
        let i = choose|i: int| is_first_slash(id, i);
        (id.subrange(0, i), id.subrange(i + 1, id.len() as int))
    } else {
        (id, id)
    }
}

impl ModelType {
    /// The model type that the proxy reports for a kind of upstream service.
    pub open spec fn of_upstream(upstream_type: UpstreamType) -> ModelType {
        match upstream_type {
            UpstreamType::ChatCompletions => ModelType::ChatCompletion,
            UpstreamType::Embeddings => ModelType::Embeddings,
        }
    }

    /// The name of the model type on the wire.
    pub open spec fn wire_name(self) -> Seq<char> {
        match self {
            ModelType::ChatCompletion => "chat-completion"@,
            ModelType::Embeddings => "embeddings"@,
        }
    }

    /// The model type that the proxy reports for a kind of upstream service.
    pub fn from_upstream(upstream_type: UpstreamType) -> (r: ModelType)
        ensures
            r == Self::of_upstream(upstream_type),
    {
        match upstream_type {
            UpstreamType::ChatCompletions => ModelType::ChatCompletion,
            UpstreamType::Embeddings => ModelType::Embeddings,
        }
    }

    /// The name of the model type on the wire.
    pub fn as_str(&self) -> (r: &'static str)
        ensures
            r@ == self.wire_name(),
    {
        match self {
            ModelType::ChatCompletion => "chat-completion",
            ModelType::Embeddings => "embeddings",
        }
    }
}

impl ModelInfoView {
    /// The model that a JSON value describes: an object with a string `id`.
    pub open spec fn decode(json: Json) -> Option<ModelInfoView> {
        if json.has("id"@) {
            match json.at("id"@).as_text() {
                Some(id) => Some(ModelInfoView { id }),
                None => None,
            }
        } else {
            None
        }
    }
}

impl InfoResponseView {
    /// The model listing that a JSON value describes: an object whose field
    /// `data` is an array of models. Otherwise, the message of what is wrong.
    pub open spec fn decode(json: Json) -> Result<InfoResponseView, Seq<char>> {
        if !(json is Object) {
            Err(not_an_object_message())
        } else if !json.has("data"@) {
            Err(missing_field_message("data"@))
        } else {
            match json.at("data"@).as_list(|item: Json| ModelInfoView::decode(item)) {
                Some(data) => Ok(InfoResponseView { data }),
                None => Err(invalid_field_message("data"@)),
            }
        }
    }

    /// The model listing that the text of an upstream response describes, or the
    /// failure to read one from it.
    pub open spec fn from_parsed(parsed: Result<Json, Seq<char>>) -> Result<
        InfoResponseView,
        AzureErrorView,
    > {
        match parsed {
            Err(message) => Err(AzureErrorView::InternalParsing(message)),
            Ok(json) => match Self::decode(json) {
                Ok(info) => Ok(info),
                Err(message) => Err(AzureErrorView::InternalParsing(message)),
            },
        }
    }

    /// The model information that the proxy answers with: provider and name of
    /// the first model listed, and the configured model type. A listing without
    /// a model is a failure.
    pub open spec fn reshape(self, model_type: ModelType) -> Result<
        AzureInfoResponseView,
        AzureErrorView,
    > {
        if self.data.len() == 0 {
            Err(AzureErrorView::InternalParsing(no_model_message()))
        } else {
            let (provider, name) = split_model_id_spec(self.data[0].id);
            Ok(
                AzureInfoResponseView {
                    model_name: name,
                    model_type,
                    model_provider_name: provider,
                },
            )
        }
    }
}

impl AzureInfoResponseView {
    /// The JSON object that carries the model information.
    pub open spec fn encode(self) -> Json {
        Json::Object(
            seq![
                ("model_name"@, Json::Str(self.model_name)),
                ("model_type"@, Json::Str(self.model_type.wire_name())),
                ("model_provider_name"@, Json::Str(self.model_provider_name)),
            ],
        )
    }
}

/// Splits a model identifier on its first `/` into provider and name.
pub fn split_model_id(id: &str) -> (r: (String, String))
    ensures
        (r.0@, r.1@) == split_model_id_spec(id@),
{
    let n = id.unicode_len();
    let mut i: usize = 0;
    while i < n
        invariant
            n == id@.len(),
            i <= n,
            forall|j: int| 0 <= j < i ==> id@[j] != '/',
        decreases n - i,
    {
        if id.get_char(i) == '/' {
            assert(is_first_slash(id@, i as int));
            let ghost chosen = choose|k: int| is_first_slash(id@, k);
            assert(chosen == i);
            let provider = String::from_str(id.substring_char(0, i));
            let name = String::from_str(id.substring_char(i + 1, n));
            return (provider, name);
        }
        i = i + 1;
    }
    assert(!exists|k: int| is_first_slash(id@, k));
    (String::from_str(id), String::from_str(id))
}

impl ModelInfo {
    /// Reads a model from a JSON value.
    pub fn from_json(value: &JsonValue) -> (r: Option<ModelInfo>)
        ensures
            match r {
                Some(model) => ModelInfoView::decode(value@) == Some(model@),
                None => ModelInfoView::decode(value@) is None,
            },
    {
        match value.get("id") {
            Some(id) => match id.as_text() {
                Some(id) => Some(ModelInfo { id }),
                None => None,
            },
            None => None,
        }
    }
}

impl InfoResponse {
    /// Reads a model listing from a JSON value; on failure, the message of what
    /// is wrong.
    pub fn from_json(value: &JsonValue) -> (r: Result<InfoResponse, String>)
        ensures
            match r {
                Ok(info) => InfoResponseView::decode(value@) == Ok::<InfoResponseView, Seq<char>>(
                    info@,
                ),
                Err(message) => InfoResponseView::decode(value@) == Err::<
                    InfoResponseView,
                    Seq<char>,
                >(message@),
            },
    {
        match value {
            JsonValue::Object(_) => {},
            _ => {
                return Err(not_an_object());
            },
        }
        let data = match value.get("data") {
            Some(data) => data,
            None => {
                return Err(missing_field("data"));
            },
        };
        let ghost decode = |item: Json| ModelInfoView::decode(item);
        match data {
            JsonValue::Array(items) => {
                let mut models: Vec<ModelInfo> = Vec::new();
                let mut i: usize = 0;
                while i < items.len()
                    invariant
                        data@ == Json::Array(items_view(items@)),
                        InfoResponseView::decode(value@) == match data@.as_list(decode) {
                            Some(data) => Ok::<InfoResponseView, Seq<char>>(
                                InfoResponseView { data },
                            ),
                            None => Err::<InfoResponseView, Seq<char>>(
                                invalid_field_message("data"@),
                            ),
                        },
                        decode == |item: Json| ModelInfoView::decode(item),
                        i <= items.len(),
                        models.len() == i,
                        forall|j: int|
                            0 <= j < i ==> (#[trigger] decode(items_view(items@)[j])) == Some(
                                models[j]@,
                            ),
                    decreases items.len() - i,
                {
                    match ModelInfo::from_json(&items[i]) {
                        Some(model) => {
                            models.push(model);
                        },
                        None => {
                            assert(decode(items_view(items@)[i as int]) is None);
                            return Err(invalid_field("data"));
                        },
                    }
                    i = i + 1;
                }
                assert(data@.as_list(decode)->0 == seq_view(models@));
                Ok(InfoResponse { data: models })
            },
            _ => Err(invalid_field("data")),
        }
    }

    /// Reads the model listing from the body of an upstream response.
    pub fn from_slice(body: &[u8]) -> (r: Result<InfoResponse, AzureError>)
        ensures
            match r {
                Ok(info) => InfoResponseView::from_parsed(parsed_json(body@)) == Ok::<
                    InfoResponseView,
                    AzureErrorView,
                >(info@),
                Err(e) => InfoResponseView::from_parsed(parsed_json(body@)) == Err::<
                    InfoResponseView,
                    AzureErrorView,
                >(e@),
            },
    {
        match JsonValue::from_slice(body) {
            Err(message) => Err(AzureError::InternalParsing(message)),
            Ok(value) => match InfoResponse::from_json(&value) {
                Ok(info) => Ok(info),
                Err(message) => Err(AzureError::InternalParsing(message)),
            },
        }
    }

    /// Reshapes the model listing into the model information that the proxy
    /// answers with.
    pub fn reshape(&self, model_type: ModelType) -> (r: Result<AzureInfoResponse, AzureError>)
        ensures
            match r {
                Ok(info) => self@.reshape(model_type) == Ok::<AzureInfoResponseView, AzureErrorView>(
                    info@,
                ),
                Err(e) => self@.reshape(model_type) == Err::<AzureInfoResponseView, AzureErrorView>(
                    e@,
                ),
            },
    {
        if self.data.len() == 0 {
            Err(AzureError::InternalParsing(String::from_str("the upstream service lists no model")))
        } else {
            assert(self@.data[0] == self.data[0]@);
            let (provider, name) = split_model_id(self.data[0].id.as_str());
            Ok(AzureInfoResponse { model_name: name, model_type, model_provider_name: provider })
        }
    }
}

impl AzureInfoResponse {
    /// The JSON object that carries the model information.
    pub fn to_json(&self) -> (r: JsonValue)
        ensures
            r@ == self@.encode(),
    {
        let mut entries: Vec<(String, JsonValue)> = Vec::new();
        entries.push((String::from_str("model_name"), JsonValue::Str(self.model_name.clone())));
        entries.push((String::from_str("model_type"), JsonValue::text(self.model_type.as_str())));
        entries.push(
            (
                String::from_str("model_provider_name"),
                JsonValue::Str(self.model_provider_name.clone()),
            ),
        );
        assert(entries_view(entries@) == self@.encode()->Object_0);
        JsonValue::Object(entries)
    }
}

} // verus!
