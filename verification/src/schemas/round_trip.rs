//! Writing a request and reading it again.
use crate::json::{
    fields_of, lemma_extras_concat, lemma_extras_fields, lemma_extras_well_formed,
    lemma_fields_absent, lemma_fields_concat, lemma_fields_concat_at, lemma_fields_last,
    lemma_fields_opt_entry, opt_entry, Json,
};
use crate::schemas::chat_completions::{
    decode_messages, decode_tool_calls, encode_messages, encode_number, encode_tool_calls,
    extra_entries, is_recognized, response_format_of, tool_choice_of,
    ChatCompletionsResponseFormatView, ChatCompletionsToolCallView,
    ChatRequestAudioReferenceView, ChatRequestMessageView, ChatRequestView, FunctionCallView,
    FunctionSpecView, FunctionToolView, ToolChoiceView,
};
use vstd::prelude::*;

verus! {

/// An audio reference that is written and read again is the same.
pub proof fn lemma_audio_round_trip(audio: ChatRequestAudioReferenceView)
    ensures
        ChatRequestAudioReferenceView::decode(audio.encode()) == Some(audio),
{
    lemma_fields_last(audio.encode()->Object_0, "id"@, 0);
}

/// A function call that is written and read again is the same.
pub proof fn lemma_function_call_round_trip(call: FunctionCallView)
    ensures
        FunctionCallView::decode(call.encode()) == Some(call),
{
    reveal_strlit("arguments");
    reveal_strlit("name");
    assert("name"@.len() == 4 && "arguments"@.len() == 9);
    let entries = call.encode()->Object_0;
    assert(entries[1].0 == "name"@);
    lemma_fields_last(entries, "arguments"@, 0);
    lemma_fields_last(entries, "name"@, 1);
}

/// A tool call that is written and read again is the same.
pub proof fn lemma_tool_call_round_trip(call: ChatCompletionsToolCallView)
    ensures
        ChatCompletionsToolCallView::decode(call.encode()) == Some(call),
{
    reveal_strlit("type");
    reveal_strlit("id");
    reveal_strlit("function");
    assert("type"@.len() == 4 && "id"@.len() == 2 && "function"@.len() == 8);
    let entries = call.encode()->Object_0;
    assert(entries[1].0 == "id"@ && entries[2].0 == "function"@);
    lemma_fields_last(entries, "type"@, 0);
    lemma_fields_last(entries, "id"@, 1);
    lemma_fields_last(entries, "function"@, 2);
    lemma_function_call_round_trip(call->function);
}

/// A list of tool calls that is written and read again is the same.
pub proof fn lemma_tool_calls_round_trip(calls: Seq<ChatCompletionsToolCallView>)
    ensures
        decode_tool_calls(encode_tool_calls(calls)) == Some(calls),
{
    let items = encode_tool_calls(calls)->Array_0;
    assert forall|i: int| 0 <= i < items.len() implies ChatCompletionsToolCallView::decode(
        #[trigger] items[i],
    ) == Some(calls[i]) by {
        lemma_tool_call_round_trip(calls[i]);
    }
    assert(decode_tool_calls(encode_tool_calls(calls))->0 =~= calls);
}

/// A message that is written and read again is the same.
pub proof fn lemma_message_round_trip(message: ChatRequestMessageView)
    ensures
        ChatRequestMessageView::decode(message.encode()) == Some(message),
{
    reveal_strlit("role");
    reveal_strlit("content");
    reveal_strlit("audio");
    reveal_strlit("tool_calls");
    reveal_strlit("tool_call_id");
    reveal_strlit("system");
    reveal_strlit("user");
    reveal_strlit("assistant");
    reveal_strlit("tool");
    assert("role"@.len() == 4 && "content"@.len() == 7 && "audio"@.len() == 5 && "tool_calls"@.len()
        == 10 && "tool_call_id"@.len() == 12);
    assert("system"@.len() == 6 && "user"@.len() == 4 && "assistant"@.len() == 9 && "tool"@.len()
        == 4);
    assert("user"@[0] == 'u' && "tool"@[0] == 't');
    let entries = message.encode()->Object_0;
    match message {
        ChatRequestMessageView::System { content } => {
            assert(entries[1].0 == "content"@);
            lemma_fields_last(entries, "role"@, 0);
            lemma_fields_last(entries, "content"@, 1);
        },
        ChatRequestMessageView::User { content } => {
            assert(entries[1].0 == "content"@);
            lemma_fields_last(entries, "role"@, 0);
            lemma_fields_last(entries, "content"@, 1);
        },
        ChatRequestMessageView::Assistant { audio, content, tool_calls } => {
            let role = seq![("role"@, Json::Str("assistant"@))];
            let audio_json = match audio {
                Some(audio) => Some(audio.encode()),
                None => None,
            };
            let calls_json = match tool_calls {
                Some(calls) => Some(encode_tool_calls(calls)),
                None => None,
            };
            let content_entry = seq![("content"@, Json::Str(content))];
            lemma_fields_concat(role, opt_entry("audio"@, audio_json));
            lemma_fields_concat(role + opt_entry("audio"@, audio_json), content_entry);
            lemma_fields_concat(
                role + opt_entry("audio"@, audio_json) + content_entry,
                opt_entry("tool_calls"@, calls_json),
            );
            lemma_fields_opt_entry("role"@, Some(Json::Str("assistant"@)));
            lemma_fields_opt_entry("content"@, Some(Json::Str(content)));
            lemma_fields_opt_entry("audio"@, audio_json);
            lemma_fields_opt_entry("tool_calls"@, calls_json);
            assert(role == opt_entry("role"@, Some(Json::Str("assistant"@))));
            assert(content_entry == opt_entry("content"@, Some(Json::Str(content))));
            if audio is Some {
                lemma_audio_round_trip(audio->0);
            }
            if tool_calls is Some {
                lemma_tool_calls_round_trip(tool_calls->0);
            }
        },
        ChatRequestMessageView::Tool { content, tool_call_id } => {
            assert(entries[1].0 == "content"@ && entries[2].0 == "tool_call_id"@);
            lemma_fields_last(entries, "role"@, 0);
            lemma_fields_last(entries, "content"@, 1);
            lemma_fields_last(entries, "tool_call_id"@, 2);
        },
    }
}

/// A list of messages that is written and read again is the same.
pub proof fn lemma_messages_round_trip(messages: Seq<ChatRequestMessageView>)
    ensures
        decode_messages(encode_messages(messages)) == Some(messages),
{
    let items = encode_messages(messages)->Array_0;
    assert forall|i: int| 0 <= i < items.len() implies ChatRequestMessageView::decode(
        #[trigger] items[i],
    ) == Some(messages[i]) by {
        lemma_message_round_trip(messages[i]);
    }
    assert(decode_messages(encode_messages(messages))->0 =~= messages);
}

/// A response format that is written and read again is the same.
pub proof fn lemma_response_format_round_trip(format: ChatCompletionsResponseFormatView)
    ensures
        ChatCompletionsResponseFormatView::decode(format.encode()) == Some(format),
{
    reveal_strlit("type");
    reveal_strlit("description");
    reveal_strlit("name");
    reveal_strlit("schema");
    reveal_strlit("strict");
    reveal_strlit("text");
    reveal_strlit("json_object");
    reveal_strlit("json_schema");
    assert("type"@.len() == 4 && "description"@.len() == 11 && "name"@.len() == 4 && "schema"@.len()
        == 6 && "strict"@.len() == 6);
    assert("type"@[0] == 't' && "name"@[0] == 'n' && "schema"@[1] == 'c' && "strict"@[1] == 't');
    assert("text"@.len() == 4 && "json_object"@.len() == 11 && "json_schema"@.len() == 11);
    assert("json_object"@[5] == 'o' && "json_schema"@[5] == 's');
    let entries = format.encode()->Object_0;
    lemma_fields_last(entries, "type"@, 0);
    match format {
        ChatCompletionsResponseFormatView::JsonSchema { description, name, schema, strict } => {
            assert(entries[1].0 == "description"@ && entries[2].0 == "name"@ && entries[3].0
                == "schema"@ && entries[4].0 == "strict"@);
            lemma_fields_last(entries, "description"@, 1);
            lemma_fields_last(entries, "name"@, 2);
            lemma_fields_last(entries, "schema"@, 3);
            lemma_fields_last(entries, "strict"@, 4);
        },
        _ => {},
    }
}

/// A function tool that is written and read again is the same.
pub proof fn lemma_function_tool_round_trip(tool: FunctionToolView)
    ensures
        FunctionToolView::decode(tool.encode()) == Some(tool),
{
    reveal_strlit("type");
    reveal_strlit("function");
    assert("type"@.len() == 4 && "function"@.len() == 8);
    let entries = tool.encode()->Object_0;
    assert(entries[1].0 == "function"@);
    lemma_fields_last(entries, "type"@, 0);
    lemma_fields_last(entries, "function"@, 1);
    lemma_fields_last(tool.function.encode()->Object_0, "name"@, 0);
}

/// A tool choice that is written and read again is the same.
pub proof fn lemma_tool_choice_round_trip(choice: ToolChoiceView)
    ensures
        ToolChoiceView::decode(choice.encode()) == Some(choice),
{
    reveal_strlit("none");
    reveal_strlit("auto");
    reveal_strlit("required");
    assert("none"@.len() == 4 && "auto"@.len() == 4 && "required"@.len() == 8);
    assert("none"@[0] == 'n' && "auto"@[0] == 'a');
    match choice {
        ToolChoiceView::Function(tool) => {
            lemma_function_tool_round_trip(tool);
        },
        _ => {},
    }
}

/// The names of the fields that the contract defines differ from one another.
proof fn lemma_recognized_names()
    ensures
        "model"@.len() == 5 && "model"@[0] == 'm',
        "messages"@.len() == 8,
        "frequency_penalty"@.len() == 17,
        "max_tokens"@.len() == 10,
        "presence_penalty"@.len() == 16,
        "top_p"@.len() == 5 && "top_p"@[0] == 't',
        "seed"@.len() == 4 && "seed"@[1] == 'e',
        "stop"@.len() == 4 && "stop"@[1] == 't',
        "stream"@.len() == 6,
        "temperature"@.len() == 11 && "temperature"@[1] == 'e',
        "response_format"@.len() == 15,
        "tool_choice"@.len() == 11 && "tool_choice"@[1] == 'o',
{
    reveal_strlit("model");
    reveal_strlit("messages");
    reveal_strlit("frequency_penalty");
    reveal_strlit("max_tokens");
    reveal_strlit("presence_penalty");
    reveal_strlit("top_p");
    reveal_strlit("seed");
    reveal_strlit("stop");
    reveal_strlit("stream");
    reveal_strlit("temperature");
    reveal_strlit("response_format");
    reveal_strlit("tool_choice");
}

/// Whether the contract defines the name of every entry.
spec fn all_recognized(entries: Seq<(Seq<char>, Json)>) -> bool {
    forall|i: int| 0 <= i < entries.len() ==> is_recognized((#[trigger] entries[i]).0)
}

/// Entries with names of the contract, with one more field of the contract
/// written after them or not, have names of the contract.
proof fn lemma_all_recognized_step(
    before: Seq<(Seq<char>, Json)>,
    key: Seq<char>,
    value: Option<Json>,
)
    requires
        is_recognized(key),
        all_recognized(before),
    ensures
        all_recognized(before + opt_entry(key, value)),
{
    let after = before + opt_entry(key, value);
    assert forall|i: int| 0 <= i < after.len() implies is_recognized((#[trigger] after[i]).0) by {
        if i < before.len() {
            assert(after[i] == before[i]);
        }
    }
}

/// The entries of the fields that the contract defines have names of the
/// contract.
pub proof fn lemma_recognized_entries_names(request: ChatRequestView)
    ensures
        forall|i: int|
            0 <= i < request.recognized_entries().len() ==> is_recognized(
                (#[trigger] request.recognized_entries()[i]).0,
            ),
{
    let e0 = Seq::<(Seq<char>, Json)>::empty();
    let e1 = e0 + opt_entry("model"@, encoded_field(request, "model"@));
    lemma_all_recognized_step(e0, "model"@, encoded_field(request, "model"@));
    let e2 = e1 + opt_entry("messages"@, encoded_field(request, "messages"@));
    lemma_all_recognized_step(e1, "messages"@, encoded_field(request, "messages"@));
    let e3 = e2 + opt_entry("frequency_penalty"@, encoded_field(request, "frequency_penalty"@));
    lemma_all_recognized_step(e2, "frequency_penalty"@, encoded_field(request, "frequency_penalty"@));
    let e4 = e3 + opt_entry("max_tokens"@, encoded_field(request, "max_tokens"@));
    lemma_all_recognized_step(e3, "max_tokens"@, encoded_field(request, "max_tokens"@));
    let e5 = e4 + opt_entry("presence_penalty"@, encoded_field(request, "presence_penalty"@));
    lemma_all_recognized_step(e4, "presence_penalty"@, encoded_field(request, "presence_penalty"@));
    let e6 = e5 + opt_entry("top_p"@, encoded_field(request, "top_p"@));
    lemma_all_recognized_step(e5, "top_p"@, encoded_field(request, "top_p"@));
    let e7 = e6 + opt_entry("seed"@, encoded_field(request, "seed"@));
    lemma_all_recognized_step(e6, "seed"@, encoded_field(request, "seed"@));
    let e8 = e7 + opt_entry("stop"@, encoded_field(request, "stop"@));
    lemma_all_recognized_step(e7, "stop"@, encoded_field(request, "stop"@));
    let e9 = e8 + opt_entry("stream"@, encoded_field(request, "stream"@));
    lemma_all_recognized_step(e8, "stream"@, encoded_field(request, "stream"@));
    let e10 = e9 + opt_entry("temperature"@, encoded_field(request, "temperature"@));
    lemma_all_recognized_step(e9, "temperature"@, encoded_field(request, "temperature"@));
    let e11 = e10 + opt_entry("response_format"@, encoded_field(request, "response_format"@));
    lemma_all_recognized_step(e10, "response_format"@, encoded_field(request, "response_format"@));
    let e12 = e11 + opt_entry("tool_choice"@, encoded_field(request, "tool_choice"@));
    lemma_all_recognized_step(e11, "tool_choice"@, encoded_field(request, "tool_choice"@));
    assert(e12 == recognized_chain(request));
    lemma_recognized_chain(request);
}

/// The JSON value under which a request writes a field of the contract, where
/// it has the field.
pub open spec fn encoded_field(request: ChatRequestView, key: Seq<char>) -> Option<Json> {
    if key == "model"@ {
        match request.model {
            Some(model) => Some(Json::Str(model)),
            None => None,
        }
    } else if key == "messages"@ {
        Some(encode_messages(request.messages))
    } else if key == "frequency_penalty"@ {
        encode_number(request.frequency_penalty)
    } else if key == "max_tokens"@ {
        match request.max_tokens {
            Some(max_tokens) => Some(Json::integer(max_tokens as i64)),
            None => None,
        }
    } else if key == "presence_penalty"@ {
        encode_number(request.presence_penalty)
    } else if key == "top_p"@ {
        encode_number(request.top_p)
    } else if key == "seed"@ {
        match request.seed {
            Some(seed) => Some(Json::integer(seed)),
            None => None,
        }
    } else if key == "stop"@ {
        match request.stop {
            Some(stop) => Some(Json::texts(stop)),
            None => None,
        }
    } else if key == "stream"@ {
        match request.stream {
            Some(stream) => Some(Json::Bool(stream)),
            None => None,
        }
    } else if key == "temperature"@ {
        encode_number(request.temperature)
    } else if key == "response_format"@ {
        match request.response_format {
            Some(format) => Some(format.encode()),
            None => None,
        }
    } else if key == "tool_choice"@ {
        match request.tool_choice {
            Some(choice) => Some(choice.encode()),
            None => None,
        }
    } else {
        None
    }
}

/// Whether `entries` hold under `key` the field of `request` of that name,
/// where the name is in `names` and the request has the field, and else
/// nothing.
#[verifier::opaque]
spec fn holds_field(
    entries: Seq<(Seq<char>, Json)>,
    request: ChatRequestView,
    names: Set<Seq<char>>,
    key: Seq<char>,
) -> bool {
    &&& fields_of(entries).contains_key(key) <==> (names.contains(key) && encoded_field(
        request,
        key,
    ) is Some)
    &&& fields_of(entries).contains_key(key) ==> fields_of(entries)[key] == encoded_field(
        request,
        key,
    )->0
}

/// Entries that hold the fields of some names hold, with the entry of one more
/// name after them, the fields of those names and that one.
proof fn lemma_holds_field_step(
    entries: Seq<(Seq<char>, Json)>,
    request: ChatRequestView,
    names: Set<Seq<char>>,
    name: Seq<char>,
    key: Seq<char>,
)
    requires
        holds_field(entries, request, names, key),
    ensures
        holds_field(
            entries + opt_entry(name, encoded_field(request, name)),
            request,
            names.insert(name),
            key,
        ),
{
    reveal(holds_field);
    let added = opt_entry(name, encoded_field(request, name));
    lemma_fields_concat_at(entries, added, key);
    lemma_fields_opt_entry(name, encoded_field(request, name));
}

/// The entries of the fields that the contract defines, as the entries of the
/// fields that a request has, one name after the other.
spec fn recognized_chain(request: ChatRequestView) -> Seq<(Seq<char>, Json)> {
    Seq::<(Seq<char>, Json)>::empty() + opt_entry("model"@, encoded_field(request, "model"@))
        + opt_entry("messages"@, encoded_field(request, "messages"@)) + opt_entry(
        "frequency_penalty"@,
        encoded_field(request, "frequency_penalty"@),
    ) + opt_entry("max_tokens"@, encoded_field(request, "max_tokens"@)) + opt_entry(
        "presence_penalty"@,
        encoded_field(request, "presence_penalty"@),
    ) + opt_entry("top_p"@, encoded_field(request, "top_p"@)) + opt_entry(
        "seed"@,
        encoded_field(request, "seed"@),
    ) + opt_entry("stop"@, encoded_field(request, "stop"@)) + opt_entry(
        "stream"@,
        encoded_field(request, "stream"@),
    ) + opt_entry("temperature"@, encoded_field(request, "temperature"@)) + opt_entry(
        "response_format"@,
        encoded_field(request, "response_format"@),
    ) + opt_entry("tool_choice"@, encoded_field(request, "tool_choice"@))
}

proof fn lemma_recognized_chain(request: ChatRequestView)
    ensures
        recognized_chain(request) == request.recognized_entries(),
{
    reveal(ChatRequestView::recognized_entries);
    lemma_recognized_names();
    let e0 = Seq::<(Seq<char>, Json)>::empty();
    let e1 = opt_entry("model"@, encoded_field(request, "model"@));
    assert(e0 + e1 == e1);
}

/// What the entries of the fields that the contract defines hold under a key:
/// the field of the request of that name, where it has one.
#[verifier::rlimit(50)]
pub proof fn lemma_recognized_entries_at(request: ChatRequestView, key: Seq<char>)
    ensures
        fields_of(request.recognized_entries()).contains_key(key) <==> encoded_field(
            request,
            key,
        ) is Some,
        encoded_field(request, key) is Some ==> fields_of(request.recognized_entries())[key]
            == encoded_field(request, key)->0,
{
    let e0 = Seq::<(Seq<char>, Json)>::empty();
    let n0 = Set::<Seq<char>>::empty();
    assert(holds_field(e0, request, n0, key)) by {
        reveal(holds_field);
    }
    let e1 = e0 + opt_entry("model"@, encoded_field(request, "model"@));
    let n1 = n0.insert("model"@);
    lemma_holds_field_step(e0, request, n0, "model"@, key);
    let e2 = e1 + opt_entry("messages"@, encoded_field(request, "messages"@));
    let n2 = n1.insert("messages"@);
    lemma_holds_field_step(e1, request, n1, "messages"@, key);
    let e3 = e2 + opt_entry("frequency_penalty"@, encoded_field(request, "frequency_penalty"@));
    let n3 = n2.insert("frequency_penalty"@);
    lemma_holds_field_step(e2, request, n2, "frequency_penalty"@, key);
    let e4 = e3 + opt_entry("max_tokens"@, encoded_field(request, "max_tokens"@));
    let n4 = n3.insert("max_tokens"@);
    lemma_holds_field_step(e3, request, n3, "max_tokens"@, key);
    let e5 = e4 + opt_entry("presence_penalty"@, encoded_field(request, "presence_penalty"@));
    let n5 = n4.insert("presence_penalty"@);
    lemma_holds_field_step(e4, request, n4, "presence_penalty"@, key);
    let e6 = e5 + opt_entry("top_p"@, encoded_field(request, "top_p"@));
    let n6 = n5.insert("top_p"@);
    lemma_holds_field_step(e5, request, n5, "top_p"@, key);
    let e7 = e6 + opt_entry("seed"@, encoded_field(request, "seed"@));
    let n7 = n6.insert("seed"@);
    lemma_holds_field_step(e6, request, n6, "seed"@, key);
    let e8 = e7 + opt_entry("stop"@, encoded_field(request, "stop"@));
    let n8 = n7.insert("stop"@);
    lemma_holds_field_step(e7, request, n7, "stop"@, key);
    let e9 = e8 + opt_entry("stream"@, encoded_field(request, "stream"@));
    let n9 = n8.insert("stream"@);
    lemma_holds_field_step(e8, request, n8, "stream"@, key);
    let e10 = e9 + opt_entry("temperature"@, encoded_field(request, "temperature"@));
    let n10 = n9.insert("temperature"@);
    lemma_holds_field_step(e9, request, n9, "temperature"@, key);
    let e11 = e10 + opt_entry("response_format"@, encoded_field(request, "response_format"@));
    let n11 = n10.insert("response_format"@);
    lemma_holds_field_step(e10, request, n10, "response_format"@, key);
    let e12 = e11 + opt_entry("tool_choice"@, encoded_field(request, "tool_choice"@));
    let n12 = n11.insert("tool_choice"@);
    lemma_holds_field_step(e11, request, n11, "tool_choice"@, key);
    assert(e12 == recognized_chain(request));
    lemma_recognized_chain(request);
    assert(encoded_field(request, key) is Some ==> n12.contains(key));
    reveal(holds_field);
}

/// The extra parameters of the payload of a well-formed request are those of
/// the request, in order.
pub proof fn lemma_encoded_extras(request: ChatRequestView)
    requires
        request.well_formed(),
    ensures
        extra_entries(request.encode()->Object_0) == request.extra_parameters,
{
    lemma_recognized_entries_names(request);
    lemma_extras_concat(
        request.recognized_entries(),
        request.extra_parameters,
        |key: Seq<char>| is_recognized(key),
    );
}

/// What the payload of a well-formed request holds under a name that the
/// contract defines: the field of the request, where the request has it.
pub proof fn lemma_encoded_field(request: ChatRequestView, key: Seq<char>)
    requires
        request.well_formed(),
        is_recognized(key),
    ensures
        request.encode().has(key) <==> encoded_field(request, key) is Some,
        encoded_field(request, key) is Some ==> request.encode().at(key) == encoded_field(
            request,
            key,
        )->0,
{
    let recognized = request.recognized_entries();
    let extras = request.extra_parameters;
    lemma_recognized_entries_at(request, key);
    lemma_fields_concat_at(recognized, extras, key);
    assert forall|j: int| 0 <= j < extras.len() implies (#[trigger] extras[j]).0 != key by {}
    lemma_fields_absent(extras, key);
}

/// What the payload of a request holds under a name that the contract does not
/// define: the extra parameter of that name, where the request has one.
pub proof fn lemma_encoded_extra(request: ChatRequestView, key: Seq<char>)
    requires
        !is_recognized(key),
    ensures
        request.encode().has(key) <==> fields_of(request.extra_parameters).contains_key(key),
        request.encode().has(key) ==> request.encode().at(key) == fields_of(
            request.extra_parameters,
        )[key],
{
    let recognized = request.recognized_entries();
    let extras = request.extra_parameters;
    lemma_recognized_entries_at(request, key);
    lemma_fields_concat_at(recognized, extras, key);
    assert(encoded_field(request, key) is None);
}

/// Each field of the contract that is read back from the payload of a
/// well-formed request is the field of the request.
#[verifier::rlimit(50)]
proof fn lemma_fields_read_back(request: ChatRequestView)
    requires
        request.well_formed(),
    ensures
        request.encode().optional_text("model"@) == Some(request.model),
        request.encode().has("messages"@),
        decode_messages(request.encode().at("messages"@)) == Some(request.messages),
        request.encode().optional_number("frequency_penalty"@) == Some(request.frequency_penalty),
        request.encode().optional_u32("max_tokens"@) == Some(request.max_tokens),
        request.encode().optional_number("presence_penalty"@) == Some(request.presence_penalty),
        request.encode().optional_number("top_p"@) == Some(request.top_p),
        request.encode().optional_i64("seed"@) == Some(request.seed),
        request.encode().optional_texts("stop"@) == Some(request.stop),
        request.encode().optional_bool("stream"@) == Some(request.stream),
        request.encode().optional_number("temperature"@) == Some(request.temperature),
        response_format_of(request.encode()) == Some(request.response_format),
        tool_choice_of(request.encode()) == Some(request.tool_choice),
{
    let json = request.encode();
    lemma_recognized_names();
    lemma_encoded_field(request, "model"@);
    lemma_encoded_field(request, "messages"@);
    lemma_messages_round_trip(request.messages);
    lemma_encoded_field(request, "frequency_penalty"@);
    lemma_encoded_field(request, "max_tokens"@);
    lemma_encoded_field(request, "presence_penalty"@);
    lemma_encoded_field(request, "top_p"@);
    lemma_encoded_field(request, "seed"@);
    lemma_encoded_field(request, "stop"@);
    if request.stop is Some {
        assert(Json::texts(request.stop->0).as_texts()->0 =~= request.stop->0);
    }
    lemma_encoded_field(request, "stream"@);
    lemma_encoded_field(request, "temperature"@);
    lemma_encoded_field(request, "response_format"@);
    if request.response_format is Some {
        lemma_response_format_round_trip(request.response_format->0);
    }
    lemma_encoded_field(request, "tool_choice"@);
    if request.tool_choice is Some {
        lemma_tool_choice_round_trip(request.tool_choice->0);
    }
}

/// Whether the fields and the extra parameters of `request` are what is read
/// from the payload `json`.
#[verifier::opaque]
spec fn reads_as(json: Json, request: ChatRequestView) -> bool {
    &&& json is Object
    &&& json.optional_text("model"@) == Some(request.model)
    &&& json.has("messages"@)
    &&& decode_messages(json.at("messages"@)) == Some(request.messages)
    &&& json.optional_number("frequency_penalty"@) == Some(request.frequency_penalty)
    &&& json.optional_u32("max_tokens"@) == Some(request.max_tokens)
    &&& json.optional_number("presence_penalty"@) == Some(request.presence_penalty)
    &&& json.optional_number("top_p"@) == Some(request.top_p)
    &&& json.optional_i64("seed"@) == Some(request.seed)
    &&& json.optional_texts("stop"@) == Some(request.stop)
    &&& json.optional_bool("stream"@) == Some(request.stream)
    &&& json.optional_number("temperature"@) == Some(request.temperature)
    &&& response_format_of(json) == Some(request.response_format)
    &&& tool_choice_of(json) == Some(request.tool_choice)
    &&& extra_entries(json->Object_0) == request.extra_parameters
}

/// A payload from which the fields and the extra parameters of a request are
/// read is read as that request.
#[verifier::rlimit(50)]
proof fn lemma_decoded(json: Json, request: ChatRequestView)
    requires
        reads_as(json, request),
    ensures
        ChatRequestView::decode(json) == Ok::<ChatRequestView, Seq<char>>(request),
{
    reveal(reads_as);
    reveal(ChatRequestView::decode);
}

/// The fields and the extra parameters of a well-formed request are what is
/// read from its payload.
#[verifier::rlimit(50)]
proof fn lemma_reads_back(request: ChatRequestView)
    requires
        request.well_formed(),
    ensures
        reads_as(request.encode(), request),
{
    lemma_fields_read_back(request);
    lemma_encoded_extras(request);
    reveal(reads_as);
}

/// Round trip of a request: a well-formed request that is written as a payload
/// and read again is the same request. Nothing of the fields that the contract
/// defines is lost, and nothing of the extra parameters.
pub proof fn lemma_request_round_trip(request: ChatRequestView)
    requires
        request.well_formed(),
    ensures
        ChatRequestView::decode(request.encode()) == Ok::<ChatRequestView, Seq<char>>(request),
{
    lemma_reads_back(request);
    lemma_decoded(request.encode(), request);
}

/// A request that is read from a payload is well-formed: its extra parameters
/// are the entries of the payload whose names the contract does not define,
/// each name once.
pub proof fn lemma_decoded_well_formed(json: Json)
    requires
        ChatRequestView::decode(json) is Ok,
    ensures
        ChatRequestView::decode(json)->Ok_0.well_formed(),
{
    reveal(ChatRequestView::decode);
    lemma_extras_well_formed(json->Object_0, |key: Seq<char>| is_recognized(key));
}

/// What a payload that is read as a request and written again holds under a
/// name that the contract does not define: what it held before.
pub proof fn lemma_rewritten_extra(json: Json, key: Seq<char>)
    requires
        ChatRequestView::decode(json) is Ok,
        !is_recognized(key),
    ensures
        ChatRequestView::decode(json)->Ok_0.encode().has(key) <==> json.has(key),
        json.has(key) ==> ChatRequestView::decode(json)->Ok_0.encode().at(key) == json.at(key),
{
    reveal(ChatRequestView::decode);
    let request = ChatRequestView::decode(json)->Ok_0;
    lemma_encoded_extra(request, key);
    lemma_extras_fields(json->Object_0, |key: Seq<char>| is_recognized(key), key);
}

/// Whether a payload that is read as a request and written again has a field
/// that the contract defines: it has it where it had it with a value other
/// than `null`.
pub proof fn lemma_rewritten_field(json: Json, key: Seq<char>)
    requires
        ChatRequestView::decode(json) is Ok,
        is_recognized(key),
    ensures
        ChatRequestView::decode(json)->Ok_0.encode().has(key) <==> !json.lacks(key),
{
    reveal(ChatRequestView::decode);
    let request = ChatRequestView::decode(json)->Ok_0;
    lemma_decoded_well_formed(json);
    lemma_encoded_field(request, key);
    lemma_recognized_names();
    assert(ChatRequestView::first_error(json) is None);
}

} // verus!
