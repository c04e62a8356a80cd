//! The chat-completion request: its messages, its options, and the fields that
//! the contract does not define.
use crate::errors::{AzureError, AzureErrorView};
use crate::json::{
    distinct_names, entries_view, extras_of, extras_upto, is_last_of_name_at, items_view,
    lemma_extras_well_formed, opt_entry, opt_json_view, opt_number_view, opt_texts_view,
    parsed_json, printed_json, push_entry, seq_view, Json, JsonNumber, JsonValue, Num,
};
use crate::schemas::azure::ExtraParameters;
use crate::schemas::{
    invalid_field, invalid_field_message, missing_field, missing_field_message, not_an_object,
    not_an_object_message,
};
use crate::text::{opt_view, text_eq, views_of};
use vstd::prelude::*;
use vstd::string::*;

verus! {

/// A reference to an audio response of the model.
#[derive(Debug)]
pub struct ChatRequestAudioReference {
    pub id: String,
}

/// The name and the arguments of a function that the model calls.
#[derive(Debug)]
pub struct FunctionCall {
    pub arguments: String,
    pub name: String,
}

/// The definition of a function that the model may call.
#[derive(Debug)]
pub struct FunctionDefinition {
    pub description: String,
    pub name: String,
    /// The parameters that the function takes, as a JSON schema.
    pub parameters: JsonValue,
}

/// A tool call that the model asks for.
#[derive(Debug)]
pub enum ChatCompletionsToolCall {
    Function { id: String, function: FunctionCall },
}

/// A message of the conversation; its `role` tells the variants apart.
#[derive(Debug)]
pub enum ChatRequestMessage {
    System { content: String },
    User { content: String },
    Assistant {
        audio: Option<ChatRequestAudioReference>,
        content: String,
        tool_calls: Option<Vec<ChatCompletionsToolCall>>,
    },
    Tool { content: String, tool_call_id: String },
}

/// The format that the model must answer in; its `type` tells the variants
/// apart.
#[derive(Debug)]
pub enum ChatCompletionsResponseFormat {
    Text,
    JsonObject,
    JsonSchema { description: String, name: String, schema: JsonValue, strict: bool },
}

/// A modality that the model may answer in.
#[derive(Clone, Copy, Debug, PartialEq, Eq, Structural)]
pub enum ChatCompletionsModality {
    Text,
    Audio,
}

/// The name of the function of a function tool.
#[derive(Debug)]
pub struct FunctionSpec {
    pub name: String,
}

/// A function tool, as a tool choice names it.
#[derive(Debug)]
pub struct FunctionTool {
    /// The type of the tool, `type` on the wire.
    pub tool_type: String,
    pub function: FunctionSpec,
}

/// Which of the tools the model may use.
#[derive(Debug)]
pub enum ToolChoice {
    /// The model calls no tool; `none` on the wire.
    NoTool,
    Auto,
    Required,
    Function(FunctionTool),
}

/// What a `ChatRequestAudioReference` stands for.
pub struct ChatRequestAudioReferenceView {
    pub id: Seq<char>,
}

/// What a `FunctionCall` stands for.
pub struct FunctionCallView {
    pub arguments: Seq<char>,
    pub name: Seq<char>,
}

/// What a `FunctionDefinition` stands for.
pub struct FunctionDefinitionView {
    pub description: Seq<char>,
    pub name: Seq<char>,
    pub parameters: Json,
}

/// What a `ChatCompletionsToolCall` stands for.
pub enum ChatCompletionsToolCallView {
    Function { id: Seq<char>, function: FunctionCallView },
}

/// What a `ChatRequestMessage` stands for.
pub enum ChatRequestMessageView {
    System { content: Seq<char> },
    User { content: Seq<char> },
    Assistant {
        audio: Option<ChatRequestAudioReferenceView>,
        content: Seq<char>,
        tool_calls: Option<Seq<ChatCompletionsToolCallView>>,
    },
    Tool { content: Seq<char>, tool_call_id: Seq<char> },
}

/// What a `ChatCompletionsResponseFormat` stands for.
pub enum ChatCompletionsResponseFormatView {
    Text,
    JsonObject,
    JsonSchema { description: Seq<char>, name: Seq<char>, schema: Json, strict: bool },
}

/// What a `FunctionSpec` stands for.
pub struct FunctionSpecView {
    pub name: Seq<char>,
}

/// What a `FunctionTool` stands for.
pub struct FunctionToolView {
    pub tool_type: Seq<char>,
    pub function: FunctionSpecView,
}

/// What a `ToolChoice` stands for.
pub enum ToolChoiceView {
    NoTool,
    Auto,
    Required,
    Function(FunctionToolView),
}

impl View for ChatRequestAudioReference {
    type V = ChatRequestAudioReferenceView;

    open spec fn view(&self) -> ChatRequestAudioReferenceView {
        ChatRequestAudioReferenceView { id: self.id@ }
    }
}

impl View for FunctionCall {
    type V = FunctionCallView;

    open spec fn view(&self) -> FunctionCallView {
        FunctionCallView { arguments: self.arguments@, name: self.name@ }
    }
}

impl View for FunctionDefinition {
    type V = FunctionDefinitionView;

    open spec fn view(&self) -> FunctionDefinitionView {
        FunctionDefinitionView {
            description: self.description@,
            name: self.name@,
            parameters: self.parameters@,
        }
    }
}

impl View for ChatCompletionsToolCall {
    type V = ChatCompletionsToolCallView;

    open spec fn view(&self) -> ChatCompletionsToolCallView {
        match self {
            ChatCompletionsToolCall::Function { id, function } => {
                ChatCompletionsToolCallView::Function { id: id@, function: function@ }
            },
        }
    }
}

impl View for ChatRequestMessage {
    type V = ChatRequestMessageView;

    open spec fn view(&self) -> ChatRequestMessageView {
        match self {
            ChatRequestMessage::System { content } => ChatRequestMessageView::System {
                content: content@,
            },
            ChatRequestMessage::User { content } => ChatRequestMessageView::User {
                content: content@,
            },
            ChatRequestMessage::Assistant { audio, content, tool_calls } => {
                ChatRequestMessageView::Assistant {
                    audio: match audio {
                        Some(audio) => Some(audio@),
                        None => None,
                    },
                    content: content@,
                    tool_calls: match tool_calls {
                        Some(calls) => Some(seq_view(calls@)),
                        None => None,
                    },
                }
            },
            ChatRequestMessage::Tool { content, tool_call_id } => ChatRequestMessageView::Tool {
                content: content@,
                tool_call_id: tool_call_id@,
            },
        }
    }
}

impl View for ChatCompletionsResponseFormat {
    type V = ChatCompletionsResponseFormatView;

    open spec fn view(&self) -> ChatCompletionsResponseFormatView {
        match self {
            ChatCompletionsResponseFormat::Text => ChatCompletionsResponseFormatView::Text,
            ChatCompletionsResponseFormat::JsonObject => {
                ChatCompletionsResponseFormatView::JsonObject
            },
            ChatCompletionsResponseFormat::JsonSchema { description, name, schema, strict } => {
                ChatCompletionsResponseFormatView::JsonSchema {
                    description: description@,
                    name: name@,
                    schema: schema@,
                    strict: *strict,
                }
            },
        }
    }
}

impl View for FunctionSpec {
    type V = FunctionSpecView;

    open spec fn view(&self) -> FunctionSpecView {
        FunctionSpecView { name: self.name@ }
    }
}

impl View for FunctionTool {
    type V = FunctionToolView;

    open spec fn view(&self) -> FunctionToolView {
        FunctionToolView { tool_type: self.tool_type@, function: self.function@ }
    }
}

impl View for ToolChoice {
    type V = ToolChoiceView;

    open spec fn view(&self) -> ToolChoiceView {
        match self {
            ToolChoice::NoTool => ToolChoiceView::NoTool,
            ToolChoice::Auto => ToolChoiceView::Auto,
            ToolChoice::Required => ToolChoiceView::Required,
            ToolChoice::Function(tool) => ToolChoiceView::Function(tool@),
        }
    }
}

impl ChatRequestAudioReferenceView {
    /// The audio reference that a JSON value describes: an object with a string
    /// `id`.
    pub open spec fn decode(json: Json) -> Option<Self> {
        match json.text_at("id"@) {
            Some(id) => Some(ChatRequestAudioReferenceView { id }),
            None => None,
        }
    }

    /// The JSON object of the audio reference.
    pub open spec fn encode(self) -> Json {
        Json::Object(seq![("id"@, Json::Str(self.id))])
    }
}

impl FunctionCallView {
    /// The function call that a JSON value describes: an object with the strings
    /// `arguments` and `name`.
    pub open spec fn decode(json: Json) -> Option<Self> {
        match (json.text_at("arguments"@), json.text_at("name"@)) {
            (Some(arguments), Some(name)) => Some(FunctionCallView { arguments, name }),
            _ => None,
        }
    }

    /// The JSON object of the function call.
    pub open spec fn encode(self) -> Json {
        Json::Object(seq![("arguments"@, Json::Str(self.arguments)), ("name"@, Json::Str(self.name))])
    }
}

impl FunctionDefinitionView {
    /// The function definition that a JSON value describes: an object with the
    /// strings `description` and `name` and with any value under `parameters`.
    pub open spec fn decode(json: Json) -> Option<Self> {
        if json.has("parameters"@) {
            match (json.text_at("description"@), json.text_at("name"@)) {
                (Some(description), Some(name)) => Some(
                    FunctionDefinitionView {
                        description,
                        name,
                        parameters: json.at("parameters"@),
                    },
                ),
                _ => None,
            }
        } else {
            None
        }
    }

    /// The JSON object of the function definition.
    pub open spec fn encode(self) -> Json {
        Json::Object(
            seq![
                ("description"@, Json::Str(self.description)),
                ("name"@, Json::Str(self.name)),
                ("parameters"@, self.parameters),
            ],
        )
    }
}

impl ChatCompletionsToolCallView {
    /// The tool call that a JSON value describes: an object of `type`
    /// `function` with a string `id` and a function call under `function`.
    pub open spec fn decode(json: Json) -> Option<Self> {
        if json.text_at("type"@) == Some("function"@) && json.has("function"@) {
            match (json.text_at("id"@), FunctionCallView::decode(json.at("function"@))) {
                (Some(id), Some(function)) => Some(
                    ChatCompletionsToolCallView::Function { id, function },
                ),
                _ => None,
            }
        } else {
            None
        }
    }

    /// The JSON object of the tool call.
    pub open spec fn encode(self) -> Json {
        match self {
            ChatCompletionsToolCallView::Function { id, function } => Json::Object(
                seq![
                    ("type"@, Json::Str("function"@)),
                    ("id"@, Json::Str(id)),
                    ("function"@, function.encode()),
                ],
            ),
        }
    }
}

/// The tool calls that a JSON value describes: an array of tool calls.
pub open spec fn decode_tool_calls(json: Json) -> Option<Seq<ChatCompletionsToolCallView>> {
    json.as_list(|item: Json| ChatCompletionsToolCallView::decode(item))
}

/// The JSON array of a list of tool calls.
pub open spec fn encode_tool_calls(calls: Seq<ChatCompletionsToolCallView>) -> Json {
    Json::list(calls, |call: ChatCompletionsToolCallView| call.encode())
}

impl ChatRequestMessageView {
    /// The message that a JSON value describes: an object with the strings
    /// `role` and `content`, where `role` names a variant, and with the other
    /// fields of that variant. An assistant message may lack `audio` and
    /// `tool_calls`, or hold `null` under them.
    pub open spec fn decode(json: Json) -> Option<Self> {
        match (json.text_at("role"@), json.text_at("content"@)) {
            (Some(role), Some(content)) => if role == "system"@ {
                Some(ChatRequestMessageView::System { content })
            } else if role == "user"@ {
                Some(ChatRequestMessageView::User { content })
            } else if role == "assistant"@ {
                match (
                    json.optional("audio"@, |j: Json| ChatRequestAudioReferenceView::decode(j)),
                    json.optional("tool_calls"@, |j: Json| decode_tool_calls(j)),
                ) {
                    (Some(audio), Some(tool_calls)) => Some(
                        ChatRequestMessageView::Assistant { audio, content, tool_calls },
                    ),
                    _ => None,
                }
            } else if role == "tool"@ {
                match json.text_at("tool_call_id"@) {
                    Some(tool_call_id) => Some(
                        ChatRequestMessageView::Tool { content, tool_call_id },
                    ),
                    None => None,
                }
            } else {
                None
            },
            _ => None,
        }
    }

    /// The JSON object of the message. `audio` and `tool_calls` are written
    /// where the message has them.
    pub open spec fn encode(self) -> Json {
        match self {
            ChatRequestMessageView::System { content } => Json::Object(
                seq![("role"@, Json::Str("system"@)), ("content"@, Json::Str(content))],
            ),
            ChatRequestMessageView::User { content } => Json::Object(
                seq![("role"@, Json::Str("user"@)), ("content"@, Json::Str(content))],
            ),
            ChatRequestMessageView::Assistant { audio, content, tool_calls } => Json::Object(
                seq![("role"@, Json::Str("assistant"@))] + opt_entry(
                    "audio"@,
                    match audio {
                        Some(audio) => Some(audio.encode()),
                        None => None,
                    },
                ) + seq![("content"@, Json::Str(content))] + opt_entry(
                    "tool_calls"@,
                    match tool_calls {
                        Some(calls) => Some(encode_tool_calls(calls)),
                        None => None,
                    },
                ),
            ),
            ChatRequestMessageView::Tool { content, tool_call_id } => Json::Object(
                seq![
                    ("role"@, Json::Str("tool"@)),
                    ("content"@, Json::Str(content)),
                    ("tool_call_id"@, Json::Str(tool_call_id)),
                ],
            ),
        }
    }
}

impl ChatCompletionsResponseFormatView {
    /// The response format that a JSON value describes: an object whose string
    /// `type` names a variant, with the fields of that variant.
    pub open spec fn decode(json: Json) -> Option<Self> {
        match json.text_at("type"@) {
            Some(tag) => if tag == "text"@ {
                Some(ChatCompletionsResponseFormatView::Text)
            } else if tag == "json_object"@ {
                Some(ChatCompletionsResponseFormatView::JsonObject)
            } else if tag == "json_schema"@ && json.has("schema"@) && json.has("strict"@) {
                match (
                    json.text_at("description"@),
                    json.text_at("name"@),
                    json.at("strict"@).as_bool(),
                ) {
                    (Some(description), Some(name), Some(strict)) => Some(
                        ChatCompletionsResponseFormatView::JsonSchema {
                            description,
                            name,
                            schema: json.at("schema"@),
                            strict,
                        },
                    ),
                    _ => None,
                }
            } else {
                None
            },
            None => None,
        }
    }

    /// The JSON object of the response format.
    pub open spec fn encode(self) -> Json {
        match self {
            ChatCompletionsResponseFormatView::Text => Json::Object(
                seq![("type"@, Json::Str("text"@))],
            ),
            ChatCompletionsResponseFormatView::JsonObject => Json::Object(
                seq![("type"@, Json::Str("json_object"@))],
            ),
            ChatCompletionsResponseFormatView::JsonSchema {
                description,
                name,
                schema,
                strict,
            } => Json::Object(
                seq![
                    ("type"@, Json::Str("json_schema"@)),
                    ("description"@, Json::Str(description)),
                    ("name"@, Json::Str(name)),
                    ("schema"@, schema),
                    ("strict"@, Json::Bool(strict)),
                ],
            ),
        }
    }
}

impl ChatCompletionsModality {
    /// The modality that a JSON value names: the string `text` or `audio`.
    pub open spec fn decode(json: Json) -> Option<Self> {
        match json.as_text() {
            Some(name) => if name == "text"@ {
                Some(ChatCompletionsModality::Text)
            } else if name == "audio"@ {
                Some(ChatCompletionsModality::Audio)
            } else {
                None
            },
            None => None,
        }
    }

    /// The modalities in which the model answers a request that names none:
    /// text alone.
    pub open spec fn default_spec() -> Option<Seq<ChatCompletionsModality>> {
        Some(seq![ChatCompletionsModality::Text])
    }
}

impl FunctionSpecView {
    /// The function that a JSON value names: an object with a string `name`.
    pub open spec fn decode(json: Json) -> Option<Self> {
        match json.text_at("name"@) {
            Some(name) => Some(FunctionSpecView { name }),
            None => None,
        }
    }

    /// The JSON object of the function's name.
    pub open spec fn encode(self) -> Json {
        Json::Object(seq![("name"@, Json::Str(self.name))])
    }
}

impl FunctionToolView {
    /// The function tool that a JSON value describes: an object with a string
    /// `type` and a function under `function`.
    pub open spec fn decode(json: Json) -> Option<Self> {
        if json.has("function"@) {
            match (json.text_at("type"@), FunctionSpecView::decode(json.at("function"@))) {
                (Some(tool_type), Some(function)) => Some(FunctionToolView { tool_type, function }),
                _ => None,
            }
        } else {
            None
        }
    }

    /// The JSON object of the function tool.
    pub open spec fn encode(self) -> Json {
        Json::Object(
            seq![("type"@, Json::Str(self.tool_type)), ("function"@, self.function.encode())],
        )
    }
}

impl ToolChoiceView {
    /// The tool choice that a JSON value describes: one of the strings `none`,
    /// `auto` and `required`, or the object of a function tool. Any other shape
    /// is refused.
    pub open spec fn decode(json: Json) -> Option<Self> {
        match json {
            Json::Str(name) => if name == "none"@ {
                Some(ToolChoiceView::NoTool)
            } else if name == "auto"@ {
                Some(ToolChoiceView::Auto)
            } else if name == "required"@ {
                Some(ToolChoiceView::Required)
            } else {
                None
            },
            Json::Object(_) => match FunctionToolView::decode(json) {
                Some(tool) => Some(ToolChoiceView::Function(tool)),
                None => None,
            },
            _ => None,
        }
    }

    /// The JSON value of the tool choice, in the form in which it is read.
    pub open spec fn encode(self) -> Json {
        match self {
            ToolChoiceView::NoTool => Json::Str("none"@),
            ToolChoiceView::Auto => Json::Str("auto"@),
            ToolChoiceView::Required => Json::Str("required"@),
            ToolChoiceView::Function(tool) => tool.encode(),
        }
    }
}

impl ChatRequestAudioReference {
    /// Reads an audio reference from a JSON value.
    pub fn from_json(value: &JsonValue) -> (r: Option<Self>)
        ensures
            match r {
                Some(audio) => ChatRequestAudioReferenceView::decode(value@) == Some(audio@),
                None => ChatRequestAudioReferenceView::decode(value@) is None,
            },
    {
        match value.text_at("id") {
            Some(id) => Some(ChatRequestAudioReference { id }),
            None => None,
        }
    }

    /// The JSON object of the audio reference.
    pub fn to_json(&self) -> (r: JsonValue)
        ensures
            r@ == self@.encode(),
    {
        let mut entries: Vec<(String, JsonValue)> = Vec::new();
        entries.push((String::from_str("id"), JsonValue::Str(self.id.clone())));
        assert(entries_view(entries@) == self@.encode()->Object_0);
        JsonValue::Object(entries)
    }
}

impl FunctionCall {
    /// Reads a function call from a JSON value.
    pub fn from_json(value: &JsonValue) -> (r: Option<Self>)
        ensures
            match r {
                Some(call) => FunctionCallView::decode(value@) == Some(call@),
                None => FunctionCallView::decode(value@) is None,
            },
    {
        match (value.text_at("arguments"), value.text_at("name")) {
            (Some(arguments), Some(name)) => Some(FunctionCall { arguments, name }),
            _ => None,
        }
    }

    /// The JSON object of the function call.
    pub fn to_json(&self) -> (r: JsonValue)
        ensures
            r@ == self@.encode(),
    {
        let mut entries: Vec<(String, JsonValue)> = Vec::new();
        entries.push((String::from_str("arguments"), JsonValue::Str(self.arguments.clone())));
        entries.push((String::from_str("name"), JsonValue::Str(self.name.clone())));
        assert(entries_view(entries@) == self@.encode()->Object_0);
        JsonValue::Object(entries)
    }
}

impl FunctionDefinition {
    /// Reads a function definition from a JSON value.
    pub fn from_json(value: &JsonValue) -> (r: Option<Self>)
        ensures
            match r {
                Some(definition) => FunctionDefinitionView::decode(value@) == Some(definition@),
                None => FunctionDefinitionView::decode(value@) is None,
            },
    {
        let parameters = match value.get("parameters") {
            Some(parameters) => parameters,
            None => {
                return None;
            },
        };
        match (value.text_at("description"), value.text_at("name")) {
            (Some(description), Some(name)) => Some(
                FunctionDefinition { description, name, parameters: parameters.clone() },
            ),
            _ => None,
        }
    }

    /// The JSON object of the function definition.
    pub fn to_json(&self) -> (r: JsonValue)
        ensures
            r@ == self@.encode(),
    {
        let mut entries: Vec<(String, JsonValue)> = Vec::new();
        entries.push((String::from_str("description"), JsonValue::Str(self.description.clone())));
        entries.push((String::from_str("name"), JsonValue::Str(self.name.clone())));
        entries.push((String::from_str("parameters"), self.parameters.clone()));
        assert(entries_view(entries@) == self@.encode()->Object_0);
        JsonValue::Object(entries)
    }
}

impl ChatCompletionsToolCall {
    /// Reads a tool call from a JSON value.
    pub fn from_json(value: &JsonValue) -> (r: Option<Self>)
        ensures
            match r {
                Some(call) => ChatCompletionsToolCallView::decode(value@) == Some(call@),
                None => ChatCompletionsToolCallView::decode(value@) is None,
            },
    {
        let tag = match value.text_at("type") {
            Some(tag) => tag,
            None => {
                return None;
            },
        };
        if !text_eq(tag.as_str(), "function") {
            return None;
        }
        let function = match value.get("function") {
            Some(function) => function,
            None => {
                return None;
            },
        };
        match (value.text_at("id"), FunctionCall::from_json(function)) {
            (Some(id), Some(function)) => Some(ChatCompletionsToolCall::Function { id, function }),
            _ => None,
        }
    }

    /// The JSON object of the tool call.
    pub fn to_json(&self) -> (r: JsonValue)
        ensures
            r@ == self@.encode(),
    {
        match self {
            ChatCompletionsToolCall::Function { id, function } => {
                let mut entries: Vec<(String, JsonValue)> = Vec::new();
                entries.push((String::from_str("type"), JsonValue::text("function")));
                entries.push((String::from_str("id"), JsonValue::Str(id.clone())));
                entries.push((String::from_str("function"), function.to_json()));
                assert(entries_view(entries@) == self@.encode()->Object_0);
                JsonValue::Object(entries)
            },
        }
    }
}

/// Reads a list of tool calls from a JSON value.
pub fn tool_calls_from_json(value: &JsonValue) -> (r: Option<Vec<ChatCompletionsToolCall>>)
    ensures
        match r {
            Some(calls) => decode_tool_calls(value@) == Some(seq_view(calls@)),
            None => decode_tool_calls(value@) is None,
        },
{
    let ghost decode = |item: Json| ChatCompletionsToolCallView::decode(item);
    match value {
        JsonValue::Array(items) => {
            let mut calls: Vec<ChatCompletionsToolCall> = Vec::new();
            let mut i: usize = 0;
            while i < items.len()
                invariant
                    value@ == Json::Array(items_view(items@)),
                    decode == |item: Json| ChatCompletionsToolCallView::decode(item),
                    i <= items.len(),
                    calls.len() == i,
                    forall|j: int|
                        0 <= j < i ==> (#[trigger] decode(items_view(items@)[j])) == Some(calls[j]@),
                decreases items.len() - i,
            {
                match ChatCompletionsToolCall::from_json(&items[i]) {
                    Some(call) => {
                        calls.push(call);
                    },
                    None => {
                        assert(decode(items_view(items@)[i as int]) is None);
                        return None;
                    },
                }
                i = i + 1;
            }
            assert(value@.as_list(decode)->0 == seq_view(calls@));
            Some(calls)
        },
        _ => None,
    }
}

/// The JSON array of a list of tool calls.
pub fn tool_calls_to_json(calls: &Vec<ChatCompletionsToolCall>) -> (r: JsonValue)
    ensures
        r@ == encode_tool_calls(seq_view(calls@)),
{
    let mut items: Vec<JsonValue> = Vec::new();
    let mut i: usize = 0;
    while i < calls.len()
        invariant
            i <= calls.len(),
            items.len() == i,
            forall|j: int| 0 <= j < i ==> (#[trigger] items[j])@ == calls[j]@.encode(),
        decreases calls.len() - i,
    {
        items.push(calls[i].to_json());
        i = i + 1;
    }
    assert(items_view(items@) == encode_tool_calls(seq_view(calls@))->Array_0);
    JsonValue::Array(items)
}

impl ChatRequestMessage {
    /// Reads a message from a JSON value.
    pub fn from_json(value: &JsonValue) -> (r: Option<Self>)
        ensures
            match r {
                Some(message) => ChatRequestMessageView::decode(value@) == Some(message@),
                None => ChatRequestMessageView::decode(value@) is None,
            },
    {
        let (role, content) = match (value.text_at("role"), value.text_at("content")) {
            (Some(role), Some(content)) => (role, content),
            _ => {
                return None;
            },
        };
        if text_eq(role.as_str(), "system") {
            Some(ChatRequestMessage::System { content })
        } else if text_eq(role.as_str(), "user") {
            Some(ChatRequestMessage::User { content })
        } else if text_eq(role.as_str(), "assistant") {
            let audio = match value.get_present("audio") {
                None => None,
                Some(audio) => match ChatRequestAudioReference::from_json(audio) {
                    Some(audio) => Some(audio),
                    None => {
                        return None;
                    },
                },
            };
            let tool_calls = match value.get_present("tool_calls") {
                None => None,
                Some(calls) => match tool_calls_from_json(calls) {
                    Some(calls) => Some(calls),
                    None => {
                        return None;
                    },
                },
            };
            Some(ChatRequestMessage::Assistant { audio, content, tool_calls })
        } else if text_eq(role.as_str(), "tool") {
            match value.text_at("tool_call_id") {
                Some(tool_call_id) => Some(ChatRequestMessage::Tool { content, tool_call_id }),
                None => None,
            }
        } else {
            None
        }
    }

    /// The JSON object of the message.
    pub fn to_json(&self) -> (r: JsonValue)
        ensures
            r@ == self@.encode(),
    {
        let mut entries: Vec<(String, JsonValue)> = Vec::new();
        match self {
            ChatRequestMessage::System { content } => {
                entries.push((String::from_str("role"), JsonValue::text("system")));
                entries.push((String::from_str("content"), JsonValue::Str(content.clone())));
            },
            ChatRequestMessage::User { content } => {
                entries.push((String::from_str("role"), JsonValue::text("user")));
                entries.push((String::from_str("content"), JsonValue::Str(content.clone())));
            },
            ChatRequestMessage::Assistant { audio, content, tool_calls } => {
                entries.push((String::from_str("role"), JsonValue::text("assistant")));
                assert(entries_view(entries@) == seq![("role"@, Json::Str("assistant"@))]);
                let audio = match audio {
                    Some(audio) => Some(audio.to_json()),
                    None => None,
                };
                push_entry(&mut entries, "audio", audio);
                push_entry(&mut entries, "content", Some(JsonValue::Str(content.clone())));
                let tool_calls = match tool_calls {
                    Some(calls) => Some(tool_calls_to_json(calls)),
                    None => None,
                };
                push_entry(&mut entries, "tool_calls", tool_calls);
            },
            ChatRequestMessage::Tool { content, tool_call_id } => {
                entries.push((String::from_str("role"), JsonValue::text("tool")));
                entries.push((String::from_str("content"), JsonValue::Str(content.clone())));
                entries.push(
                    (String::from_str("tool_call_id"), JsonValue::Str(tool_call_id.clone())),
                );
            },
        }
        assert(entries_view(entries@) == self@.encode()->Object_0);
        JsonValue::Object(entries)
    }
}

/// The messages that a JSON value describes: an array of messages.
pub open spec fn decode_messages(json: Json) -> Option<Seq<ChatRequestMessageView>> {
    json.as_list(|item: Json| ChatRequestMessageView::decode(item))
}

/// The JSON array of a list of messages.
pub open spec fn encode_messages(messages: Seq<ChatRequestMessageView>) -> Json {
    Json::list(messages, |message: ChatRequestMessageView| message.encode())
}

/// Reads a list of messages from a JSON value.
pub fn messages_from_json(value: &JsonValue) -> (r: Option<Vec<ChatRequestMessage>>)
    ensures
        match r {
            Some(messages) => decode_messages(value@) == Some(seq_view(messages@)),
            None => decode_messages(value@) is None,
        },
{
    let ghost decode = |item: Json| ChatRequestMessageView::decode(item);
    match value {
        JsonValue::Array(items) => {
            let mut messages: Vec<ChatRequestMessage> = Vec::new();
            let mut i: usize = 0;
            while i < items.len()
                invariant
                    value@ == Json::Array(items_view(items@)),
                    decode == |item: Json| ChatRequestMessageView::decode(item),
                    i <= items.len(),
                    messages.len() == i,
                    forall|j: int|
                        0 <= j < i ==> (#[trigger] decode(items_view(items@)[j])) == Some(
                            messages[j]@,
                        ),
                decreases items.len() - i,
            {
                match ChatRequestMessage::from_json(&items[i]) {
                    Some(message) => {
                        messages.push(message);
                    },
                    None => {
                        assert(decode(items_view(items@)[i as int]) is None);
                        return None;
                    },
                }
                i = i + 1;
            }
            assert(value@.as_list(decode)->0 == seq_view(messages@));
            Some(messages)
        },
        _ => None,
    }
}

/// The JSON array of a list of messages.
pub fn messages_to_json(messages: &Vec<ChatRequestMessage>) -> (r: JsonValue)
    ensures
        r@ == encode_messages(seq_view(messages@)),
{
    let mut items: Vec<JsonValue> = Vec::new();
    let mut i: usize = 0;
    while i < messages.len()
        invariant
            i <= messages.len(),
            items.len() == i,
            forall|j: int| 0 <= j < i ==> (#[trigger] items[j])@ == messages[j]@.encode(),
        decreases messages.len() - i,
    {
        items.push(messages[i].to_json());
        i = i + 1;
    }
    assert(items_view(items@) == encode_messages(seq_view(messages@))->Array_0);
    JsonValue::Array(items)
}

impl ChatCompletionsResponseFormat {
    /// Reads a response format from a JSON value.
    pub fn from_json(value: &JsonValue) -> (r: Option<Self>)
        ensures
            match r {
                Some(format) => ChatCompletionsResponseFormatView::decode(value@) == Some(format@),
                None => ChatCompletionsResponseFormatView::decode(value@) is None,
            },
    {
        let tag = match value.text_at("type") {
            Some(tag) => tag,
            None => {
                return None;
            },
        };
        if text_eq(tag.as_str(), "text") {
            Some(ChatCompletionsResponseFormat::Text)
        } else if text_eq(tag.as_str(), "json_object") {
            Some(ChatCompletionsResponseFormat::JsonObject)
        } else if text_eq(tag.as_str(), "json_schema") {
            let (schema, strict) = match (value.get("schema"), value.get("strict")) {
                (Some(schema), Some(strict)) => (schema, strict),
                _ => {
                    return None;
                },
            };
            match (value.text_at("description"), value.text_at("name"), strict.as_bool()) {
                (Some(description), Some(name), Some(strict)) => Some(
                    ChatCompletionsResponseFormat::JsonSchema {
                        description,
                        name,
                        schema: schema.clone(),
                        strict,
                    },
                ),
                _ => None,
            }
        } else {
            None
        }
    }

    /// The JSON object of the response format.
    pub fn to_json(&self) -> (r: JsonValue)
        ensures
            r@ == self@.encode(),
    {
        let mut entries: Vec<(String, JsonValue)> = Vec::new();
        match self {
            ChatCompletionsResponseFormat::Text => {
                entries.push((String::from_str("type"), JsonValue::text("text")));
            },
            ChatCompletionsResponseFormat::JsonObject => {
                entries.push((String::from_str("type"), JsonValue::text("json_object")));
            },
            ChatCompletionsResponseFormat::JsonSchema { description, name, schema, strict } => {
                entries.push((String::from_str("type"), JsonValue::text("json_schema")));
                entries.push(
                    (String::from_str("description"), JsonValue::Str(description.clone())),
                );
                entries.push((String::from_str("name"), JsonValue::Str(name.clone())));
                entries.push((String::from_str("schema"), schema.clone()));
                entries.push((String::from_str("strict"), JsonValue::Bool(*strict)));
            },
        }
        assert(entries_view(entries@) == self@.encode()->Object_0);
        JsonValue::Object(entries)
    }
}

impl ChatCompletionsModality {
    /// The modalities in which the model answers a request that names none:
    /// text alone.
    pub fn default() -> (r: Option<Vec<Self>>)
        ensures
            match r {
                Some(modalities) => Self::default_spec() == Some(modalities@),
                None => false,
            },
    {
        let mut modalities: Vec<ChatCompletionsModality> = Vec::new();
        modalities.push(ChatCompletionsModality::Text);
        assert(modalities@ == seq![ChatCompletionsModality::Text]);
        Some(modalities)
    }

    /// Reads a modality from a JSON value.
    pub fn from_json(value: &JsonValue) -> (r: Option<Self>)
        ensures
            r == Self::decode(value@),
    {
        match value {
            JsonValue::Str(name) => {
                if text_eq(name.as_str(), "text") {
                    Some(ChatCompletionsModality::Text)
                } else if text_eq(name.as_str(), "audio") {
                    Some(ChatCompletionsModality::Audio)
                } else {
                    None
                }
            },
            _ => None,
        }
    }
}

impl FunctionSpec {
    /// Reads the name of a function from a JSON value.
    pub fn from_json(value: &JsonValue) -> (r: Option<Self>)
        ensures
            match r {
                Some(function) => FunctionSpecView::decode(value@) == Some(function@),
                None => FunctionSpecView::decode(value@) is None,
            },
    {
        match value.text_at("name") {
            Some(name) => Some(FunctionSpec { name }),
            None => None,
        }
    }

    /// The JSON object of the function's name.
    pub fn to_json(&self) -> (r: JsonValue)
        ensures
            r@ == self@.encode(),
    {
        let mut entries: Vec<(String, JsonValue)> = Vec::new();
        entries.push((String::from_str("name"), JsonValue::Str(self.name.clone())));
        assert(entries_view(entries@) == self@.encode()->Object_0);
        JsonValue::Object(entries)
    }
}

impl FunctionTool {
    /// Reads a function tool from a JSON value.
    pub fn from_json(value: &JsonValue) -> (r: Option<Self>)
        ensures
            match r {
                Some(tool) => FunctionToolView::decode(value@) == Some(tool@),
                None => FunctionToolView::decode(value@) is None,
            },
    {
        let function = match value.get("function") {
            Some(function) => function,
            None => {
                return None;
            },
        };
        match (value.text_at("type"), FunctionSpec::from_json(function)) {
            (Some(tool_type), Some(function)) => Some(FunctionTool { tool_type, function }),
            _ => None,
        }
    }

    /// The JSON object of the function tool.
    pub fn to_json(&self) -> (r: JsonValue)
        ensures
            r@ == self@.encode(),
    {
        let mut entries: Vec<(String, JsonValue)> = Vec::new();
        entries.push((String::from_str("type"), JsonValue::Str(self.tool_type.clone())));
        entries.push((String::from_str("function"), self.function.to_json()));
        assert(entries_view(entries@) == self@.encode()->Object_0);
        JsonValue::Object(entries)
    }
}

impl ToolChoice {
    /// Reads a tool choice from a JSON value: from one of the three names, or
    /// else from the object of a function tool.
    pub fn from_json(value: &JsonValue) -> (r: Option<Self>)
        ensures
            match r {
                Some(choice) => ToolChoiceView::decode(value@) == Some(choice@),
                None => ToolChoiceView::decode(value@) is None,
            },
    {
        match value {
            JsonValue::Str(name) => {
                if text_eq(name.as_str(), "none") {
                    Some(ToolChoice::NoTool)
                } else if text_eq(name.as_str(), "auto") {
                    Some(ToolChoice::Auto)
                } else if text_eq(name.as_str(), "required") {
                    Some(ToolChoice::Required)
                } else {
                    None
                }
            },
            JsonValue::Object(_) => match FunctionTool::from_json(value) {
                Some(tool) => Some(ToolChoice::Function(tool)),
                None => None,
            },
            _ => None,
        }
    }

    /// The JSON value of the tool choice.
    pub fn to_json(&self) -> (r: JsonValue)
        ensures
            r@ == self@.encode(),
    {
        match self {
            ToolChoice::NoTool => JsonValue::text("none"),
            ToolChoice::Auto => JsonValue::text("auto"),
            ToolChoice::Required => JsonValue::text("required"),
            ToolChoice::Function(tool) => tool.to_json(),
        }
    }
}

/// A chat-completion request: the fields that the contract defines, and every
/// other field of the payload under `extra_parameters`.
#[derive(Debug)]
pub struct ChatRequest {
    /// The model to use, where the endpoint offers more than one.
    pub model: Option<String>,
    /// The messages of the conversation, in order.
    pub messages: Vec<ChatRequestMessage>,
    /// How much tokens are penalised for their frequency in the text so far.
    pub frequency_penalty: Option<JsonNumber>,
    /// The largest number of tokens to generate.
    pub max_tokens: Option<u32>,
    /// How much tokens are penalised for their presence in the text so far.
    pub presence_penalty: Option<JsonNumber>,
    /// The probability mass of the tokens that nucleus sampling considers.
    pub top_p: Option<JsonNumber>,
    /// The seed of a sampling that is to be repeatable.
    pub seed: Option<i64>,
    /// The texts that end the generation.
    pub stop: Option<Vec<String>>,
    /// Whether the answer is to be streamed.
    pub stream: Option<bool>,
    /// The sampling temperature.
    pub temperature: Option<JsonNumber>,
    /// The format that the model must answer in.
    pub response_format: Option<ChatCompletionsResponseFormat>,
    /// Which of the tools the model may use.
    pub tool_choice: Option<ToolChoice>,
    /// The fields of the payload that the contract does not define, each name
    /// once, in the order of the tree that was read: a payload that is read
    /// from its text has them sorted by name.
    pub extra_parameters: Vec<(String, JsonValue)>,
}

/// What a `ChatRequest` stands for.
pub struct ChatRequestView {
    pub model: Option<Seq<char>>,
    pub messages: Seq<ChatRequestMessageView>,
    pub frequency_penalty: Option<Num>,
    pub max_tokens: Option<u32>,
    pub presence_penalty: Option<Num>,
    pub top_p: Option<Num>,
    pub seed: Option<i64>,
    pub stop: Option<Seq<Seq<char>>>,
    pub stream: Option<bool>,
    pub temperature: Option<Num>,
    pub response_format: Option<ChatCompletionsResponseFormatView>,
    pub tool_choice: Option<ToolChoiceView>,
    pub extra_parameters: Seq<(Seq<char>, Json)>,
}

impl View for ChatRequest {
    type V = ChatRequestView;

    open spec fn view(&self) -> ChatRequestView {
        ChatRequestView {
            model: opt_view(self.model),
            messages: seq_view(self.messages@),
            frequency_penalty: opt_number_view(self.frequency_penalty),
            max_tokens: self.max_tokens,
            presence_penalty: opt_number_view(self.presence_penalty),
            top_p: opt_number_view(self.top_p),
            seed: self.seed,
            stop: opt_texts_view(self.stop),
            stream: self.stream,
            temperature: opt_number_view(self.temperature),
            response_format: match self.response_format {
                Some(format) => Some(format@),
                None => None,
            },
            tool_choice: match self.tool_choice {
                Some(choice) => Some(choice@),
                None => None,
            },
            extra_parameters: entries_view(self.extra_parameters@),
        }
    }
}

/// Whether the contract defines a field of the name `key` for a chat-completion
/// request.
pub open spec fn is_recognized(key: Seq<char>) -> bool {
    ||| key == "model"@
    ||| key == "messages"@
    ||| key == "frequency_penalty"@
    ||| key == "max_tokens"@
    ||| key == "presence_penalty"@
    ||| key == "top_p"@
    ||| key == "seed"@
    ||| key == "stop"@
    ||| key == "stream"@
    ||| key == "temperature"@
    ||| key == "response_format"@
    ||| key == "tool_choice"@
}

/// The extra parameters of a payload, in the order of its entries: the entries
/// whose names the contract does not define, and of each such name the last
/// entry only.
pub open spec fn extra_entries(entries: Seq<(Seq<char>, Json)>) -> Seq<(Seq<char>, Json)> {
    extras_of(entries, |key: Seq<char>| is_recognized(key))
}

/// The response format of a payload, where it has one.
pub open spec fn response_format_of(json: Json) -> Option<
    Option<ChatCompletionsResponseFormatView>,
> {
    json.optional("response_format"@, |j: Json| ChatCompletionsResponseFormatView::decode(j))
}

/// The tool choice of a payload, where it has one.
pub open spec fn tool_choice_of(json: Json) -> Option<Option<ToolChoiceView>> {
    json.optional("tool_choice"@, |j: Json| ToolChoiceView::decode(j))
}

impl ChatRequestView {
    /// Whether the extra parameters stand for a map beside the fields of the
    /// contract: none of them has a name that the contract defines, and no two
    /// of them have the same name. A request that was read from a payload is so.
    pub open spec fn well_formed(self) -> bool {
        &&& distinct_names(self.extra_parameters)
        &&& forall|i: int|
            0 <= i < self.extra_parameters.len() ==> !is_recognized(
                (#[trigger] self.extra_parameters[i]).0,
            )
    }

    /// What is wrong with a payload, if anything is: the message on the first
    /// field, in the order of the contract, that is missing or has not the form
    /// that the contract asks for.
    pub open spec fn first_error(json: Json) -> Option<Seq<char>> {
        if !(json is Object) {
            Some(not_an_object_message())
        } else if json.optional_text("model"@) is None {
            Some(invalid_field_message("model"@))
        } else if !json.has("messages"@) {
            Some(missing_field_message("messages"@))
        } else if decode_messages(json.at("messages"@)) is None {
            Some(invalid_field_message("messages"@))
        } else if json.optional_number("frequency_penalty"@) is None {
            Some(invalid_field_message("frequency_penalty"@))
        } else if json.optional_u32("max_tokens"@) is None {
            Some(invalid_field_message("max_tokens"@))
        } else if json.optional_number("presence_penalty"@) is None {
            Some(invalid_field_message("presence_penalty"@))
        } else if json.optional_number("top_p"@) is None {
            Some(invalid_field_message("top_p"@))
        } else if json.optional_i64("seed"@) is None {
            Some(invalid_field_message("seed"@))
        } else if json.optional_texts("stop"@) is None {
            Some(invalid_field_message("stop"@))
        } else if json.optional_bool("stream"@) is None {
            Some(invalid_field_message("stream"@))
        } else if json.optional_number("temperature"@) is None {
            Some(invalid_field_message("temperature"@))
        } else if response_format_of(json) is None {
            Some(invalid_field_message("response_format"@))
        } else if tool_choice_of(json) is None {
            Some(invalid_field_message("tool_choice"@))
        } else {
            None
        }
    }

    /// The request that a payload describes: a JSON object with an array of
    /// messages under `messages`, in which each of the other fields that the
    /// contract defines is absent, `null` or of the form asked for. Every other
    /// field is kept under `extra_parameters`, each name once. Otherwise, the
    /// message of what is wrong.
    #[verifier::opaque]
    pub open spec fn decode(json: Json) -> Result<ChatRequestView, Seq<char>> {
        match Self::first_error(json) {
            Some(message) => Err(message),
            None => Ok(
                ChatRequestView {
                    model: json.optional_text("model"@)->0,
                    messages: decode_messages(json.at("messages"@))->0,
                    frequency_penalty: json.optional_number("frequency_penalty"@)->0,
                    max_tokens: json.optional_u32("max_tokens"@)->0,
                    presence_penalty: json.optional_number("presence_penalty"@)->0,
                    top_p: json.optional_number("top_p"@)->0,
                    seed: json.optional_i64("seed"@)->0,
                    stop: json.optional_texts("stop"@)->0,
                    stream: json.optional_bool("stream"@)->0,
                    temperature: json.optional_number("temperature"@)->0,
                    response_format: response_format_of(json)->0,
                    tool_choice: tool_choice_of(json)->0,
                    extra_parameters: extra_entries(json->Object_0),
                },
            ),
        }
    }

    /// The entries of the fields that the contract defines, each written where
    /// the request has it.
    #[verifier::opaque]
    pub open spec fn recognized_entries(self) -> Seq<(Seq<char>, Json)> {
        opt_entry(
            "model"@,
            match self.model {
                Some(model) => Some(Json::Str(model)),
                None => None,
            },
        ) + opt_entry("messages"@, Some(encode_messages(self.messages))) + opt_entry(
            "frequency_penalty"@,
            encode_number(self.frequency_penalty),
        ) + opt_entry(
            "max_tokens"@,
            match self.max_tokens {
                Some(max_tokens) => Some(Json::integer(max_tokens as i64)),
                None => None,
            },
        ) + opt_entry("presence_penalty"@, encode_number(self.presence_penalty)) + opt_entry(
            "top_p"@,
            encode_number(self.top_p),
        ) + opt_entry(
            "seed"@,
            match self.seed {
                Some(seed) => Some(Json::integer(seed)),
                None => None,
            },
        ) + opt_entry(
            "stop"@,
            match self.stop {
                Some(stop) => Some(Json::texts(stop)),
                None => None,
            },
        ) + opt_entry(
            "stream"@,
            match self.stream {
                Some(stream) => Some(Json::Bool(stream)),
                None => None,
            },
        ) + opt_entry("temperature"@, encode_number(self.temperature)) + opt_entry(
            "response_format"@,
            match self.response_format {
                Some(format) => Some(format.encode()),
                None => None,
            },
        ) + opt_entry(
            "tool_choice"@,
            match self.tool_choice {
                Some(choice) => Some(choice.encode()),
                None => None,
            },
        )
    }

    /// The payload of the request: one flat JSON object with the fields that
    /// the contract defines under their wire names, then the extra parameters.
    pub open spec fn encode(self) -> Json {
        Json::Object(self.recognized_entries() + self.extra_parameters)
    }

    /// The request after a policy on extra parameters, or the failure with
    /// which the policy refuses it.
    pub open spec fn apply(self, policy: ExtraParameters) -> Result<
        ChatRequestView,
        AzureErrorView,
    > {
        match policy.apply_spec(self.extra_parameters) {
            Ok(kept) => Ok(ChatRequestView { extra_parameters: kept, ..self }),
            Err(e) => Err(e),
        }
    }

    /// What the proxy makes of the text of a payload under a policy, given what
    /// was read from the text: the request, or the failure to read or to accept
    /// it.
    pub open spec fn from_parsed(parsed: Result<Json, Seq<char>>, policy: ExtraParameters) -> Result<
        ChatRequestView,
        AzureErrorView,
    > {
        match parsed {
            Err(message) => Err(AzureErrorView::InternalParsing(message)),
            Ok(json) => match Self::decode(json) {
                Err(message) => Err(AzureErrorView::InternalParsing(message)),
                Ok(request) => request.apply(policy),
            },
        }
    }
}

/// The JSON number of a number that may be absent.
pub open spec fn encode_number(number: Option<Num>) -> Option<Json> {
    match number {
        Some(number) => Some(Json::Number(number)),
        None => None,
    }
}

/// Whether the contract defines a field of the name `key` for a chat-completion
/// request.
pub fn is_recognized_name(key: &str) -> (r: bool)
    ensures
        r == is_recognized(key@),
{
    text_eq(key, "model") || text_eq(key, "messages") || text_eq(key, "frequency_penalty")
        || text_eq(key, "max_tokens") || text_eq(
        key,
        "presence_penalty",
    ) || text_eq(key, "top_p") || text_eq(key, "seed") || text_eq(key, "stop") || text_eq(
        key,
        "stream",
    ) || text_eq(key, "temperature") || text_eq(key, "response_format") || text_eq(
        key,
        "tool_choice",
    )
}

/// The extra parameters of an object, in the order of its entries.
pub fn extra_entries_of(entries: &Vec<(String, JsonValue)>) -> (r: Vec<(String, JsonValue)>)
    ensures
        entries_view(r@) == extra_entries(entries_view(entries@)),
{
    let ghost defined = |key: Seq<char>| is_recognized(key);
    let mut extras: Vec<(String, JsonValue)> = Vec::new();
    let mut i: usize = 0;
    while i < entries.len()
        invariant
            defined == |key: Seq<char>| is_recognized(key),
            i <= entries.len(),
            entries_view(extras@) == extras_upto(entries_view(entries@), defined, i as nat),
        decreases entries.len() - i,
    {
        let ghost before = entries_view(extras@);
        if !is_recognized_name(entries[i].0.as_str()) && is_last_of_name_at(entries, i) {
            extras.push((entries[i].0.clone(), entries[i].1.clone()));
            assert(entries_view(extras@) == before.push(entries_view(entries@)[i as int]));
        }
        i = i + 1;
    }
    extras
}

impl ChatRequest {
    /// Reads a request from a JSON value; on failure, the message of what is
    /// wrong.
    pub fn from_json(value: &JsonValue) -> (r: Result<ChatRequest, String>)
        ensures
            match r {
                Ok(request) => ChatRequestView::decode(value@) == Ok::<ChatRequestView, Seq<char>>(
                    request@,
                ),
                Err(message) => ChatRequestView::decode(value@) == Err::<
                    ChatRequestView,
                    Seq<char>,
                >(message@),
            },
            r matches Ok(request) ==> request@.well_formed(),
    {
        reveal(ChatRequestView::decode);
        let entries = match value {
            JsonValue::Object(entries) => entries,
            _ => {
                return Err(not_an_object());
            },
        };
        let model = match value.optional_text("model") {
            Some(model) => model,
            None => {
                return Err(invalid_field("model"));
            },
        };
        let messages = match value.get("messages") {
            Some(messages) => match messages_from_json(messages) {
                Some(messages) => messages,
                None => {
                    return Err(invalid_field("messages"));
                },
            },
            None => {
                return Err(missing_field("messages"));
            },
        };
        let frequency_penalty = match value.optional_number("frequency_penalty") {
            Some(number) => number,
            None => {
                return Err(invalid_field("frequency_penalty"));
            },
        };
        let max_tokens = match value.optional_u32("max_tokens") {
            Some(max_tokens) => max_tokens,
            None => {
                return Err(invalid_field("max_tokens"));
            },
        };
        let presence_penalty = match value.optional_number("presence_penalty") {
            Some(number) => number,
            None => {
                return Err(invalid_field("presence_penalty"));
            },
        };
        let top_p = match value.optional_number("top_p") {
            Some(number) => number,
            None => {
                return Err(invalid_field("top_p"));
            },
        };
        let seed = match value.optional_i64("seed") {
            Some(seed) => seed,
            None => {
                return Err(invalid_field("seed"));
            },
        };
        let stop = match value.optional_texts("stop") {
            Some(stop) => stop,
            None => {
                return Err(invalid_field("stop"));
            },
        };
        let stream = match value.optional_bool("stream") {
            Some(stream) => stream,
            None => {
                return Err(invalid_field("stream"));
            },
        };
        let temperature = match value.optional_number("temperature") {
            Some(number) => number,
            None => {
                return Err(invalid_field("temperature"));
            },
        };
        let response_format = match value.get_present("response_format") {
            None => None,
            Some(format) => match ChatCompletionsResponseFormat::from_json(format) {
                Some(format) => Some(format),
                None => {
                    return Err(invalid_field("response_format"));
                },
            },
        };
        let tool_choice = match value.get_present("tool_choice") {
            None => None,
            Some(choice) => match ToolChoice::from_json(choice) {
                Some(choice) => Some(choice),
                None => {
                    return Err(invalid_field("tool_choice"));
                },
            },
        };
        let extra_parameters = extra_entries_of(entries);
        proof {
            lemma_extras_well_formed(entries_view(entries@), |key: Seq<char>| is_recognized(key));
        }
        Ok(
            ChatRequest {
                model,
                messages,
                frequency_penalty,
                max_tokens,
                presence_penalty,
                top_p,
                seed,
                stop,
                stream,
                temperature,
                response_format,
                tool_choice,
                extra_parameters,
            },
        )
    }

    /// The payload of the request as a JSON value.
    pub fn to_json(&self) -> (r: JsonValue)
        ensures
            r@ == self@.encode(),
    {
        reveal(ChatRequestView::recognized_entries);
        let mut entries: Vec<(String, JsonValue)> = Vec::new();
        assert(entries_view(entries@) == Seq::<(Seq<char>, Json)>::empty());
        let model = match &self.model {
            Some(model) => Some(JsonValue::Str(model.clone())),
            None => None,
        };
        push_entry(&mut entries, "model", model);
        assert(entries_view(entries@) == opt_entry("model"@, opt_json_view(model)));
        push_entry(&mut entries, "messages", Some(messages_to_json(&self.messages)));
        push_entry(&mut entries, "frequency_penalty", number_to_json(&self.frequency_penalty));
        let max_tokens = match self.max_tokens {
            Some(max_tokens) => Some(JsonValue::integer(max_tokens as i64)),
            None => None,
        };
        push_entry(&mut entries, "max_tokens", max_tokens);
        push_entry(&mut entries, "presence_penalty", number_to_json(&self.presence_penalty));
        push_entry(&mut entries, "top_p", number_to_json(&self.top_p));
        let seed = match self.seed {
            Some(seed) => Some(JsonValue::integer(seed)),
            None => None,
        };
        push_entry(&mut entries, "seed", seed);
        let stop = match &self.stop {
            Some(stop) => Some(JsonValue::texts(stop)),
            None => None,
        };
        push_entry(&mut entries, "stop", stop);
        let stream = match self.stream {
            Some(stream) => Some(JsonValue::Bool(stream)),
            None => None,
        };
        push_entry(&mut entries, "stream", stream);
        push_entry(&mut entries, "temperature", number_to_json(&self.temperature));
        let response_format = match &self.response_format {
            Some(format) => Some(format.to_json()),
            None => None,
        };
        push_entry(&mut entries, "response_format", response_format);
        let tool_choice = match &self.tool_choice {
            Some(choice) => Some(choice.to_json()),
            None => None,
        };
        push_entry(&mut entries, "tool_choice", tool_choice);
        assert(entries_view(entries@) == self@.recognized_entries());
        let ghost recognized = entries_view(entries@);
        let mut i: usize = 0;
        while i < self.extra_parameters.len()
            invariant
                i <= self.extra_parameters.len(),
                entries_view(entries@) == recognized + entries_view(self.extra_parameters@).take(
                    i as int,
                ),
            decreases self.extra_parameters.len() - i,
        {
            let ghost before = entries_view(entries@);
            let ghost extras = entries_view(self.extra_parameters@);
            entries.push((self.extra_parameters[i].0.clone(), self.extra_parameters[i].1.clone()));
            assert(entries_view(entries@) == before.push(extras[i as int]));
            assert(extras.take(i + 1) == extras.take(i as int).push(extras[i as int]));
            assert(before.push(extras[i as int]) == recognized + extras.take(i + 1));
            i = i + 1;
        }
        assert(entries_view(self.extra_parameters@).take(self.extra_parameters.len() as int)
            == entries_view(self.extra_parameters@));
        JsonValue::Object(entries)
    }

    /// Applies a policy on extra parameters to the request: they stay, they are
    /// dropped, or the request is refused for them.
    pub fn apply_policy(self, policy: ExtraParameters) -> (r: Result<ChatRequest, AzureError>)
        ensures
            match r {
                Ok(request) => self@.apply(policy) == Ok::<ChatRequestView, AzureErrorView>(
                    request@,
                ),
                Err(e) => self@.apply(policy) == Err::<ChatRequestView, AzureErrorView>(e@),
            },
            self@.well_formed() ==> (r matches Ok(request) ==> request@.well_formed()),
    {
        let ChatRequest {
            model,
            messages,
            frequency_penalty,
            max_tokens,
            presence_penalty,
            top_p,
            seed,
            stop,
            stream,
            temperature,
            response_format,
            tool_choice,
            extra_parameters,
        } = self;
        match policy.apply(extra_parameters) {
            Ok(extra_parameters) => Ok(
                ChatRequest {
                    model,
                    messages,
                    frequency_penalty,
                    max_tokens,
                    presence_penalty,
                    top_p,
                    seed,
                    stop,
                    stream,
                    temperature,
                    response_format,
                    tool_choice,
                    extra_parameters,
                },
            ),
            Err(e) => Err(e),
        }
    }

    /// Reads a request from the bytes of a payload and applies the policy on
    /// extra parameters to it.
    pub fn from_slice(body: &[u8], extra_parameters: ExtraParameters) -> (r: Result<
        ChatRequest,
        AzureError,
    >)
        ensures
            match r {
                Ok(request) => ChatRequestView::from_parsed(parsed_json(body@), extra_parameters)
                    == Ok::<ChatRequestView, AzureErrorView>(request@),
                Err(e) => ChatRequestView::from_parsed(parsed_json(body@), extra_parameters)
                    == Err::<ChatRequestView, AzureErrorView>(e@),
            },
            r matches Ok(request) ==> request@.well_formed(),
    {
        match JsonValue::from_slice(body) {
            Err(message) => Err(AzureError::InternalParsing(message)),
            Ok(value) => match ChatRequest::from_json(&value) {
                Err(message) => Err(AzureError::InternalParsing(message)),
                Ok(request) => request.apply_policy(extra_parameters),
            },
        }
    }

    /// Reads a request from the text of a payload and applies the policy on
    /// extra parameters to it.
    pub fn from_str(value: &str, extra_parameters: ExtraParameters) -> (r: Result<
        ChatRequest,
        AzureError,
    >)
        ensures
            match r {
                Ok(request) => ChatRequestView::from_parsed(
                    parsed_json(value.spec_bytes()),
                    extra_parameters,
                ) == Ok::<ChatRequestView, AzureErrorView>(request@),
                Err(e) => ChatRequestView::from_parsed(
                    parsed_json(value.spec_bytes()),
                    extra_parameters,
                ) == Err::<ChatRequestView, AzureErrorView>(e@),
            },
            r matches Ok(request) ==> request@.well_formed(),
    {
        ChatRequest::from_slice(value.as_bytes(), extra_parameters)
    }

    /// The payload of the request as the bytes that are sent upstream.
    pub fn to_vec(&self) -> (r: Vec<u8>)
        ensures
            r@ == printed_json(self@.encode()),
    {
        self.to_json().to_vec()
    }
}

/// The JSON number of a number that may be absent.
pub fn number_to_json(number: &Option<JsonNumber>) -> (r: Option<JsonValue>)
    ensures
        opt_json_view(r) == encode_number(opt_number_view(*number)),
{
    match number {
        Some(number) => Some(JsonValue::Number(number.clone())),
        None => None,
    }
}

} // verus!
