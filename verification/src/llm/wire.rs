//! The request that goes to a provider, as JSON.

use crate::json::{
    array_text, array_value, ascending_keys, bool_text, bool_value, clone_value, integer_text,
    integer_value, json_text, member_texts, object_text, object_value, string_text, string_value,
    text_before, value_texts,
};
use crate::llm::model::{
    tool_calls_view, ChatMessage, ChatMessageRole, ChatMessageView, ToolCall, ToolCallView,
};
use crate::llm::messages_view;
use vstd::prelude::*;
use vstd::string::StringExecFns;

verus! {

/// The path of the chat completions endpoint, behind the base URL of a provider.
pub const COMPLETIONS_PATH: &'static str = "/v1/chat/completions";

/// The name of a role on the wire.
pub open spec fn role_name(role: ChatMessageRole) -> Seq<char> {
    match role {
        ChatMessageRole::User => "user"@,
        ChatMessageRole::Assistant => "assistant"@,
        ChatMessageRole::System => "system"@,
        ChatMessageRole::Tool => "tool"@,
    }
}

/// A tool call on the wire: an object with the members `function`, `id`,
/// `index` and `type`; the function is an object with `arguments` and `name`.
pub open spec fn tool_call_text(call: ToolCallView) -> Seq<char> {
    object_text(
        seq![
            (
                "function"@,
                object_text(
                    seq![
                        ("arguments"@, string_text(call.function.arguments)),
                        ("name"@, string_text(call.function.name)),
                    ],
                ),
            ),
            ("id"@, string_text(call.id)),
            ("index"@, integer_text(call.index as int)),
            ("type"@, string_text(call.call_kind)),
        ],
    )
}

/// The members of a message on the wire: `content` and `role` always,
/// `tool_call_id` where the message has one, and `tool_calls` where it
/// carries any.
pub open spec fn message_members(message: ChatMessageView) -> Seq<(Seq<char>, Seq<char>)> {
    let always = seq![
        ("content"@, string_text(message.content)),
        ("role"@, string_text(role_name(message.role))),
    ];
    let answered = match message.tool_call_id {
        Some(id) => always.push(("tool_call_id"@, string_text(id))),
        None => always,
    };
    if message.tool_calls.len() > 0 {
        answered.push(
            (
                "tool_calls"@,
                array_text(message.tool_calls.map_values(|call: ToolCallView| tool_call_text(call))),
            ),
        )
    } else {
        answered
    }
}

/// A message on the wire.
pub open spec fn message_text(message: ChatMessageView) -> Seq<char> {
    object_text(message_members(message))
}

/// The body of a request for a completion: the conversation, the model,
/// whether the completion is to be streamed, and the tools on offer.
pub open spec fn request_text(
    model: Seq<char>,
    messages: Seq<ChatMessageView>,
    tools: Seq<Seq<char>>,
    stream: bool,
) -> Seq<char> {
    object_text(
        seq![
            (
                "messages"@,
                array_text(messages.map_values(|message: ChatMessageView| message_text(message))),
            ),
            ("model"@, string_text(model)),
            ("stream"@, bool_text(stream)),
            ("tools"@, array_text(tools)),
        ],
    )
}

/// The keys of the objects of a request stand in ascending order.
proof fn lemma_request_keys()
    ensures
        text_before("arguments"@, "name"@),
        text_before("function"@, "id"@),
        text_before("function"@, "index"@),
        text_before("function"@, "type"@),
        text_before("id"@, "index"@),
        text_before("id"@, "type"@),
        text_before("index"@, "type"@),
        text_before("content"@, "role"@),
        text_before("content"@, "tool_call_id"@),
        text_before("content"@, "tool_calls"@),
        text_before("role"@, "tool_call_id"@),
        text_before("role"@, "tool_calls"@),
        text_before("tool_call_id"@, "tool_calls"@),
        text_before("messages"@, "model"@),
        text_before("messages"@, "stream"@),
        text_before("messages"@, "tools"@),
        text_before("model"@, "stream"@),
        text_before("model"@, "tools"@),
        text_before("stream"@, "tools"@),
{
    reveal_with_fuel(text_before, 12);
    reveal_strlit("arguments");
    reveal_strlit("name");
    reveal_strlit("function");
    reveal_strlit("id");
    reveal_strlit("index");
    reveal_strlit("type");
    reveal_strlit("content");
    reveal_strlit("role");
    reveal_strlit("tool_call_id");
    reveal_strlit("tool_calls");
    reveal_strlit("messages");
    reveal_strlit("model");
    reveal_strlit("stream");
    reveal_strlit("tools");
}

/// The URL of the chat completions endpoint of the provider at `base_url`.
pub fn completions_url(base_url: &str) -> (r: String)
    ensures
        r@ == base_url@ + COMPLETIONS_PATH@,
{
    let mut url = base_url.to_string();
    url.append(COMPLETIONS_PATH);
    url
}

/// The tools that a client offers with a request: those handed to it with
/// the request, or its own where none are handed to it.
pub fn offered<'a>(handed: &'a [serde_json::Value], own: &'a [serde_json::Value]) -> (r: &'a [
    serde_json::Value
])
    ensures
        r@ == if handed@.len() > 0 {
            handed@
        } else {
            own@
        },
{
    if handed.len() > 0 {
        handed
    } else {
        own
    }
}

/// The name of a role on the wire.
pub fn role_str(role: ChatMessageRole) -> (r: &'static str)
    ensures
        r@ == role_name(role),
{
    match role {
        ChatMessageRole::User => "user",
        ChatMessageRole::Assistant => "assistant",
        ChatMessageRole::System => "system",
        ChatMessageRole::Tool => "tool",
    }
}

/// A tool call as a JSON value.
pub fn tool_call_value(call: &ToolCall) -> (r: serde_json::Value)
    ensures
        json_text(r) == tool_call_text(call@),
{
    proof {
        lemma_request_keys();
    }
    let mut function: Vec<(String, serde_json::Value)> = Vec::new();
    function.push(("arguments".to_string(), string_value(call.function.arguments.as_str())));
    function.push(("name".to_string(), string_value(call.function.name.as_str())));
    assert(member_texts(function@) =~= seq![
        ("arguments"@, string_text(call@.function.arguments)),
        ("name"@, string_text(call@.function.name)),
    ]);
    let function = object_value(function);
    let mut members: Vec<(String, serde_json::Value)> = Vec::new();
    members.push(("function".to_string(), function));
    members.push(("id".to_string(), string_value(call.id.as_str())));
    members.push(("index".to_string(), integer_value(call.index)));
    members.push(("type".to_string(), string_value(call.call_kind.as_str())));
    assert(member_texts(members@) =~= seq![
        ("function"@, json_text(function)),
        ("id"@, string_text(call@.id)),
        ("index"@, integer_text(call@.index as int)),
        ("type"@, string_text(call@.call_kind)),
    ]);
    object_value(members)
}

/// A message as a JSON value.
pub fn message_value(message: &ChatMessage) -> (r: serde_json::Value)
    ensures
        json_text(r) == message_text(message@),
{
    proof {
        lemma_request_keys();
    }
    let mut members: Vec<(String, serde_json::Value)> = Vec::new();
    members.push(("content".to_string(), string_value(message.content.as_str())));
    members.push(("role".to_string(), string_value(role_str(message.role))));
    assert(member_texts(members@) =~= seq![
        ("content"@, string_text(message@.content)),
        ("role"@, string_text(role_name(message@.role))),
    ]);
    match &message.tool_call_id {
        Some(id) => {
            let ghost before = member_texts(members@);
            members.push(("tool_call_id".to_string(), string_value(id.as_str())));
            assert(member_texts(members@) =~= before.push(("tool_call_id"@, string_text(id@))));
        },
        None => {},
    }
    if message.tool_calls.len() > 0 {
        let mut calls: Vec<serde_json::Value> = Vec::new();
        let mut i: usize = 0;
        while i < message.tool_calls.len()
            invariant
                i <= message.tool_calls.len(),
                calls@.len() == i,
                forall|j: int|
                    0 <= j < i ==> json_text(#[trigger] calls@[j]) == tool_call_text(
                        message.tool_calls@[j]@,
                    ),
            decreases message.tool_calls.len() - i,
        {
            calls.push(tool_call_value(&message.tool_calls[i]));
            i = i + 1;
        }
        assert(value_texts(calls@) =~= message@.tool_calls.map_values(
            |call: ToolCallView| tool_call_text(call),
        ));
        let ghost before = member_texts(members@);
        members.push(("tool_calls".to_string(), array_value(calls)));
        assert(member_texts(members@) =~= before.push(
            (
                "tool_calls"@,
                array_text(
                    message@.tool_calls.map_values(|call: ToolCallView| tool_call_text(call)),
                ),
            ),
        ));
    }
    assert(member_texts(members@) == message_members(message@));
    object_value(members)
}

/// The body of a request for a completion of `model` over `messages`, with
/// `tools` on offer; see `request_text`.
pub fn request_body(
    model: &str,
    messages: &[ChatMessage],
    tools: &[serde_json::Value],
    stream: bool,
) -> (r: serde_json::Value)
    ensures
        json_text(r) == request_text(
            model@,
            messages_view(messages@),
            value_texts(tools@),
            stream,
        ),
{
    proof {
        lemma_request_keys();
    }
    let mut turns: Vec<serde_json::Value> = Vec::new();
    let mut i: usize = 0;
    while i < messages.len()
        invariant
            i <= messages.len(),
            turns@.len() == i,
            forall|j: int|
                0 <= j < i ==> json_text(#[trigger] turns@[j]) == message_text(messages@[j]@),
        decreases messages.len() - i,
    {
        turns.push(message_value(&messages[i]));
        i = i + 1;
    }
    assert(value_texts(turns@) =~= messages_view(messages@).map_values(
        |message: ChatMessageView| message_text(message),
    ));
    let mut offered: Vec<serde_json::Value> = Vec::new();
    let mut k: usize = 0;
    while k < tools.len()
        invariant
            k <= tools.len(),
            offered@.len() == k,
            forall|j: int| 0 <= j < k ==> json_text(#[trigger] offered@[j]) == json_text(tools@[j]),
        decreases tools.len() - k,
    {
        offered.push(clone_value(&tools[k]));
        k = k + 1;
    }
    assert(value_texts(offered@) =~= value_texts(tools@));
    let mut members: Vec<(String, serde_json::Value)> = Vec::new();
    members.push(("messages".to_string(), array_value(turns)));
    members.push(("model".to_string(), string_value(model)));
    members.push(("stream".to_string(), bool_value(stream)));
    members.push(("tools".to_string(), array_value(offered)));
    assert(member_texts(members@) =~= seq![
        (
            "messages"@,
            array_text(
                messages_view(messages@).map_values(
                    |message: ChatMessageView| message_text(message),
                ),
            ),
        ),
        ("model"@, string_text(model@)),
        ("stream"@, bool_text(stream)),
        ("tools"@, array_text(value_texts(tools@))),
    ]);
    object_value(members)
}

} // verus!
