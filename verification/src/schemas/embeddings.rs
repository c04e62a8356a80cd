//! The embeddings request: its input, its options, and the fields that the
//! contract does not define.
use crate::json::{
    distinct_names, entries_view, extras_of, extras_upto, is_last_of_name_at,
    lemma_extras_well_formed, opt_entry, opt_json_view, printed_json, push_entry, Json, JsonValue,
};
use crate::schemas::{
    invalid_field, invalid_field_message, missing_field, missing_field_message, not_an_object,
    not_an_object_message,
};
use crate::text::{text_eq, views_of};
use vstd::prelude::*;
use vstd::string::*;

verus! {

/// The text to embed: one text, or several in one request.
#[derive(Debug)]
pub enum EmbeddingInput {
    Single(String),
    Batch(Vec<String>),
}

/// The format in which the embeddings are returned.
#[derive(Clone, Copy, Debug, PartialEq, Eq, Structural)]
pub enum EmbeddingEncodingFormat {
    /// The binary representation of the embeddings, as a Base64 string.
    Base64,
    /// Signed binary embeddings.
    Binary,
    /// Full precision embeddings.
    Float,
    /// Signed int8 embeddings.
    Int8,
    /// Unsigned binary embeddings.
    UBinary,
    /// Unsigned int8 embeddings.
    UInt8,
}

/// What the input of an embedding search is.
#[derive(Clone, Copy, Debug, PartialEq, Eq, Structural)]
pub enum EmbeddingInputType {
    /// A document that is stored in a vector database.
    Document,
    /// A search query to find the most relevant documents.
    Query,
    /// A general text.
    Text,
}

/// An embeddings request: the fields that the contract defines, and every other
/// field of the payload under `extra_parameters`.
#[derive(Debug)]
pub struct EmbeddingsRequest {
    pub input: EmbeddingInput,
    /// The model to use.
    pub model: String,
    /// The number of dimensions of the embeddings.
    pub dimensions: Option<i32>,
    pub encoding_format: Option<EmbeddingEncodingFormat>,
    pub input_type: Option<EmbeddingInputType>,
    /// The fields of the payload that the contract does not define, each name
    /// once, in the order of the tree that was read: a payload that is read
    /// from its text has them sorted by name.
    pub extra_parameters: Vec<(String, JsonValue)>,
}

/// What an `EmbeddingInput` stands for.
pub enum EmbeddingInputView {
    Single(Seq<char>),
    Batch(Seq<Seq<char>>),
}

/// What an `EmbeddingsRequest` stands for.
pub struct EmbeddingsRequestView {
    pub input: EmbeddingInputView,
    pub model: Seq<char>,
    pub dimensions: Option<i32>,
    pub encoding_format: Option<EmbeddingEncodingFormat>,
    pub input_type: Option<EmbeddingInputType>,
    pub extra_parameters: Seq<(Seq<char>, Json)>,
}

impl View for EmbeddingInput {
    type V = EmbeddingInputView;

    open spec fn view(&self) -> EmbeddingInputView {
        match self {
            EmbeddingInput::Single(text) => EmbeddingInputView::Single(text@),
            EmbeddingInput::Batch(texts) => EmbeddingInputView::Batch(views_of(texts@)),
        }
    }
}

impl View for EmbeddingsRequest {
    type V = EmbeddingsRequestView;

    open spec fn view(&self) -> EmbeddingsRequestView {
        EmbeddingsRequestView {
            input: self.input@,
            model: self.model@,
            dimensions: self.dimensions,
            encoding_format: self.encoding_format,
            input_type: self.input_type,
            extra_parameters: entries_view(self.extra_parameters@),
        }
    }
}

impl EmbeddingInputView {
    /// The input that a JSON value describes: a string, or an array of strings.
    pub open spec fn decode(json: Json) -> Option<Self> {
        match json {
            Json::Str(text) => Some(EmbeddingInputView::Single(text)),
            Json::Array(_) => match json.as_texts() {
                Some(texts) => Some(EmbeddingInputView::Batch(texts)),
                None => None,
            },
            _ => None,
        }
    }

    /// The JSON value of the input.
    pub open spec fn encode(self) -> Json {
        match self {
            EmbeddingInputView::Single(text) => Json::Str(text),
            EmbeddingInputView::Batch(texts) => Json::texts(texts),
        }
    }
}

impl EmbeddingEncodingFormat {
    /// The name of the format on the wire.
    pub open spec fn wire_name(self) -> Seq<char> {
        match self {
            EmbeddingEncodingFormat::Base64 => "base64"@,
            EmbeddingEncodingFormat::Binary => "binary"@,
            EmbeddingEncodingFormat::Float => "float"@,
            EmbeddingEncodingFormat::Int8 => "int8"@,
            EmbeddingEncodingFormat::UBinary => "ubinary"@,
            EmbeddingEncodingFormat::UInt8 => "uint8"@,
        }
    }

    /// The format that a JSON value names.
    pub open spec fn decode(json: Json) -> Option<Self> {
        match json.as_text() {
            Some(name) => if name == "base64"@ {
                Some(EmbeddingEncodingFormat::Base64)
            } else if name == "binary"@ {
                Some(EmbeddingEncodingFormat::Binary)
            } else if name == "float"@ {
                Some(EmbeddingEncodingFormat::Float)
            } else if name == "int8"@ {
                Some(EmbeddingEncodingFormat::Int8)
            } else if name == "ubinary"@ {
                Some(EmbeddingEncodingFormat::UBinary)
            } else if name == "uint8"@ {
                Some(EmbeddingEncodingFormat::UInt8)
            } else {
                None
            },
            None => None,
        }
    }

    /// The name of the format on the wire.
    pub fn as_str(&self) -> (r: &'static str)
        ensures
            r@ == self.wire_name(),
    {
        match self {
            EmbeddingEncodingFormat::Base64 => "base64",
            EmbeddingEncodingFormat::Binary => "binary",
            EmbeddingEncodingFormat::Float => "float",
            EmbeddingEncodingFormat::Int8 => "int8",
            EmbeddingEncodingFormat::UBinary => "ubinary",
            EmbeddingEncodingFormat::UInt8 => "uint8",
        }
    }

    /// Reads a format from a JSON value.
    pub fn from_json(value: &JsonValue) -> (r: Option<Self>)
        ensures
            r == Self::decode(value@),
    {
        match value {
            JsonValue::Str(name) => {
                if text_eq(name.as_str(), "base64") {
                    Some(EmbeddingEncodingFormat::Base64)
                } else if text_eq(name.as_str(), "binary") {
                    Some(EmbeddingEncodingFormat::Binary)
                } else if text_eq(name.as_str(), "float") {
                    Some(EmbeddingEncodingFormat::Float)
                } else if text_eq(name.as_str(), "int8") {
                    Some(EmbeddingEncodingFormat::Int8)
                } else if text_eq(name.as_str(), "ubinary") {
                    Some(EmbeddingEncodingFormat::UBinary)
                } else if text_eq(name.as_str(), "uint8") {
                    Some(EmbeddingEncodingFormat::UInt8)
                } else {
                    None
                }
            },
            _ => None,
        }
    }
}

impl EmbeddingInputType {
    /// The name of the input type on the wire.
    pub open spec fn wire_name(self) -> Seq<char> {
        match self {
            EmbeddingInputType::Document => "document"@,
            EmbeddingInputType::Query => "query"@,
            EmbeddingInputType::Text => "text"@,
        }
    }

    /// The input type that a JSON value names.
    pub open spec fn decode(json: Json) -> Option<Self> {
        match json.as_text() {
            Some(name) => if name == "document"@ {
                Some(EmbeddingInputType::Document)
            } else if name == "query"@ {
                Some(EmbeddingInputType::Query)
            } else if name == "text"@ {
                Some(EmbeddingInputType::Text)
            } else {
                None
            },
            None => None,
        }
    }

    /// The name of the input type on the wire.
    pub fn as_str(&self) -> (r: &'static str)
        ensures
            r@ == self.wire_name(),
    {
        match self {
            EmbeddingInputType::Document => "document",
            EmbeddingInputType::Query => "query",
            EmbeddingInputType::Text => "text",
        }
    }

    /// Reads an input type from a JSON value.
    pub fn from_json(value: &JsonValue) -> (r: Option<Self>)
        ensures
            r == Self::decode(value@),
    {
        match value {
            JsonValue::Str(name) => {
                if text_eq(name.as_str(), "document") {
                    Some(EmbeddingInputType::Document)
                } else if text_eq(name.as_str(), "query") {
                    Some(EmbeddingInputType::Query)
                } else if text_eq(name.as_str(), "text") {
                    Some(EmbeddingInputType::Text)
                } else {
                    None
                }
            },
            _ => None,
        }
    }
}

/// Whether the contract defines a field of the name `key` for an embeddings
/// request.
pub open spec fn is_recognized(key: Seq<char>) -> bool {
    ||| key == "input"@
    ||| key == "model"@
    ||| key == "dimensions"@
    ||| key == "encoding_format"@
    ||| key == "input_type"@
}

/// The extra parameters of a payload, in the order of its entries: the entries
/// whose names the contract does not define, and of each such name the last
/// entry only.
pub open spec fn extra_entries(entries: Seq<(Seq<char>, Json)>) -> Seq<(Seq<char>, Json)> {
    extras_of(entries, |key: Seq<char>| is_recognized(key))
}

/// The encoding format of a payload, where it has one.
pub open spec fn encoding_format_of(json: Json) -> Option<Option<EmbeddingEncodingFormat>> {
    json.optional("encoding_format"@, |j: Json| EmbeddingEncodingFormat::decode(j))
}

/// The input type of a payload, where it has one.
pub open spec fn input_type_of(json: Json) -> Option<Option<EmbeddingInputType>> {
    json.optional("input_type"@, |j: Json| EmbeddingInputType::decode(j))
}

impl EmbeddingsRequestView {
    /// Whether the extra parameters stand for a map beside the fields of the
    /// contract: none of them has a name that the contract defines, and no two
    /// of them have the same name. A request that was read from a payload is so.
    pub open spec fn well_formed(self) -> bool {
        &&& distinct_names(self.extra_parameters)
        &&& forall|i: int|
            0 <= i < self.extra_parameters.len() ==> !is_recognized(
                (#[trigger] self.extra_parameters[i]).0,
            )
    }

    /// What is wrong with a payload, if anything is: the message on the first
    /// field, in the order of the contract, that is missing or has not the form
    /// that the contract asks for.
    pub open spec fn first_error(json: Json) -> Option<Seq<char>> {
        if !(json is Object) {
            Some(not_an_object_message())
        } else if !json.has("input"@) {
            Some(missing_field_message("input"@))
        } else if EmbeddingInputView::decode(json.at("input"@)) is None {
            Some(invalid_field_message("input"@))
        } else if !json.has("model"@) {
            Some(missing_field_message("model"@))
        } else if json.at("model"@).as_text() is None {
            Some(invalid_field_message("model"@))
        } else if json.optional_i32("dimensions"@) is None {
            Some(invalid_field_message("dimensions"@))
        } else if encoding_format_of(json) is None {
            Some(invalid_field_message("encoding_format"@))
        } else if input_type_of(json) is None {
            Some(invalid_field_message("input_type"@))
        } else {
            None
        }
    }

    /// The request that a payload describes: a JSON object with `input` and
    /// `model`, in which each of the other fields that the contract defines is
    /// absent, `null` or of the form asked for. Every other field is kept under
    /// `extra_parameters`, each name once. Otherwise, the message of what is
    /// wrong.
    pub open spec fn decode(json: Json) -> Result<EmbeddingsRequestView, Seq<char>> {
        match Self::first_error(json) {
            Some(message) => Err(message),
            None => Ok(
                EmbeddingsRequestView {
                    input: EmbeddingInputView::decode(json.at("input"@))->0,
                    model: json.at("model"@).as_text()->0,
                    dimensions: json.optional_i32("dimensions"@)->0,
                    encoding_format: encoding_format_of(json)->0,
                    input_type: input_type_of(json)->0,
                    extra_parameters: extra_entries(json->Object_0),
                },
            ),
        }
    }

    /// The payload of the request: one flat JSON object with the fields that
    /// the contract defines under their wire names, each written where the
    /// request has it, then the extra parameters.
    pub open spec fn encode(self) -> Json {
        Json::Object(
            opt_entry("input"@, Some(self.input.encode())) + opt_entry(
                "model"@,
                Some(Json::Str(self.model)),
            ) + opt_entry(
                "dimensions"@,
                match self.dimensions {
                    Some(dimensions) => Some(Json::integer(dimensions as i64)),
                    None => None,
                },
            ) + opt_entry(
                "encoding_format"@,
                match self.encoding_format {
                    Some(format) => Some(Json::Str(format.wire_name())),
                    None => None,
                },
            ) + opt_entry(
                "input_type"@,
                match self.input_type {
                    Some(input_type) => Some(Json::Str(input_type.wire_name())),
                    None => None,
                },
            ) + self.extra_parameters,
        )
    }
}

impl EmbeddingInput {
    /// Reads the input from a JSON value.
    pub fn from_json(value: &JsonValue) -> (r: Option<Self>)
        ensures
            match r {
                Some(input) => EmbeddingInputView::decode(value@) == Some(input@),
                None => EmbeddingInputView::decode(value@) is None,
            },
    {
        match value {
            JsonValue::Str(text) => Some(EmbeddingInput::Single(text.clone())),
            JsonValue::Array(_) => match value.as_texts() {
                Some(texts) => Some(EmbeddingInput::Batch(texts)),
                None => None,
            },
            _ => None,
        }
    }

    /// The JSON value of the input.
    pub fn to_json(&self) -> (r: JsonValue)
        ensures
            r@ == self@.encode(),
    {
        match self {
            EmbeddingInput::Single(text) => JsonValue::Str(text.clone()),
            EmbeddingInput::Batch(texts) => JsonValue::texts(texts),
        }
    }
}

/// Whether the contract defines a field of the name `key` for an embeddings
/// request.
pub fn is_recognized_name(key: &str) -> (r: bool)
    ensures
        r == is_recognized(key@),
{
    text_eq(key, "input") || text_eq(key, "model") || text_eq(key, "dimensions") || text_eq(
        key,
        "encoding_format",
    ) || text_eq(key, "input_type")
}

/// The extra parameters of an object, in the order of its entries.
pub fn extra_entries_of(entries: &Vec<(String, JsonValue)>) -> (r: Vec<(String, JsonValue)>)
    ensures
        entries_view(r@) == extra_entries(entries_view(entries@)),
{
    let ghost defined = |key: Seq<char>| is_recognized(key);
    let mut extras: Vec<(String, JsonValue)> = Vec::new();
    let mut i: usize = 0;
    while i < entries.len()
        invariant
            defined == |key: Seq<char>| is_recognized(key),
            i <= entries.len(),
            entries_view(extras@) == extras_upto(entries_view(entries@), defined, i as nat),
        decreases entries.len() - i,
    {
        let ghost before = entries_view(extras@);
        if !is_recognized_name(entries[i].0.as_str()) && is_last_of_name_at(entries, i) {
            extras.push((entries[i].0.clone(), entries[i].1.clone()));
            assert(entries_view(extras@) == before.push(entries_view(entries@)[i as int]));
        }
        i = i + 1;
    }
    extras
}

impl EmbeddingsRequest {
    /// Reads a request from a JSON value; on failure, the message of what is
    /// wrong.
    pub fn from_json(value: &JsonValue) -> (r: Result<EmbeddingsRequest, String>)
        ensures
            match r {
                Ok(request) => EmbeddingsRequestView::decode(value@) == Ok::<
                    EmbeddingsRequestView,
                    Seq<char>,
                >(request@),
                Err(message) => EmbeddingsRequestView::decode(value@) == Err::<
                    EmbeddingsRequestView,
                    Seq<char>,
                >(message@),
            },
            r matches Ok(request) ==> request@.well_formed(),
    {
        let entries = match value {
            JsonValue::Object(entries) => entries,
            _ => {
                return Err(not_an_object());
            },
        };
        let input = match value.get("input") {
            Some(input) => match EmbeddingInput::from_json(input) {
                Some(input) => input,
                None => {
                    return Err(invalid_field("input"));
                },
            },
            None => {
                return Err(missing_field("input"));
            },
        };
        let model = match value.get("model") {
            Some(model) => match model.as_text() {
                Some(model) => model,
                None => {
                    return Err(invalid_field("model"));
                },
            },
            None => {
                return Err(missing_field("model"));
            },
        };
        let dimensions = match value.optional_i32("dimensions") {
            Some(dimensions) => dimensions,
            None => {
                return Err(invalid_field("dimensions"));
            },
        };
        let encoding_format = match value.get_present("encoding_format") {
            None => None,
            Some(format) => match EmbeddingEncodingFormat::from_json(format) {
                Some(format) => Some(format),
                None => {
                    return Err(invalid_field("encoding_format"));
                },
            },
        };
        let input_type = match value.get_present("input_type") {
            None => None,
            Some(input_type) => match EmbeddingInputType::from_json(input_type) {
                Some(input_type) => Some(input_type),
                None => {
                    return Err(invalid_field("input_type"));
                },
            },
        };
        let extra_parameters = extra_entries_of(entries);
        proof {
            lemma_extras_well_formed(entries_view(entries@), |key: Seq<char>| is_recognized(key));
        }
        Ok(
            EmbeddingsRequest {
                input,
                model,
                dimensions,
                encoding_format,
                input_type,
                extra_parameters,
            },
        )
    }

    /// The payload of the request as a JSON value.
    pub fn to_json(&self) -> (r: JsonValue)
        ensures
            r@ == self@.encode(),
    {
        let mut entries: Vec<(String, JsonValue)> = Vec::new();
        assert(entries_view(entries@) == Seq::<(Seq<char>, Json)>::empty());
        let input = Some(self.input.to_json());
        push_entry(&mut entries, "input", input);
        assert(entries_view(entries@) == opt_entry("input"@, opt_json_view(input)));
        push_entry(&mut entries, "model", Some(JsonValue::Str(self.model.clone())));
        let dimensions = match self.dimensions {
            Some(dimensions) => Some(JsonValue::integer(dimensions as i64)),
            None => None,
        };
        push_entry(&mut entries, "dimensions", dimensions);
        let encoding_format = match &self.encoding_format {
            Some(format) => Some(JsonValue::text(format.as_str())),
            None => None,
        };
        push_entry(&mut entries, "encoding_format", encoding_format);
        let input_type = match &self.input_type {
            Some(input_type) => Some(JsonValue::text(input_type.as_str())),
            None => None,
        };
        push_entry(&mut entries, "input_type", input_type);
        let ghost recognized = entries_view(entries@);
        let mut i: usize = 0;
        while i < self.extra_parameters.len()
            invariant
                i <= self.extra_parameters.len(),
                entries_view(entries@) == recognized + entries_view(self.extra_parameters@).take(
                    i as int,
                ),
            decreases self.extra_parameters.len() - i,
        {
            let ghost before = entries_view(entries@);
            let ghost extras = entries_view(self.extra_parameters@);
            entries.push((self.extra_parameters[i].0.clone(), self.extra_parameters[i].1.clone()));
            assert(entries_view(entries@) == before.push(extras[i as int]));
            assert(extras.take(i + 1) == extras.take(i as int).push(extras[i as int]));
            assert(before.push(extras[i as int]) == recognized + extras.take(i + 1));
            i = i + 1;
        }
        assert(entries_view(self.extra_parameters@).take(self.extra_parameters.len() as int)
            == entries_view(self.extra_parameters@));
        JsonValue::Object(entries)
    }

    /// The payload of the request as the bytes that are sent upstream.
    pub fn to_vec(&self) -> (r: Vec<u8>)
        ensures
            r@ == printed_json(self@.encode()),
    {
        self.to_json().to_vec()
    }
}

} // verus!
