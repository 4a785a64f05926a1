use openai_resources::chat::{
    check_parseable_choice, content_to_parse, parses_content, parses_tool_arguments, strict_chat_function_tool_names,
    ChatCompletionAccumulator, ChatCompletionChunk, ChatCompletionChunkChoice, ChatCompletionChunkDelta,
    ChatCompletionFinishReason, ChatCompletionFunctionDefinition, ChatCompletionFunctionTool, ChatCompletionMessage,
    ChatCompletionMessageToolCall, ChatCompletionResponseFormat, ChatCompletionRole, ChatCompletionTool, ChatCompletions,
    StoredChatCompletionMessages, StoredChatCompletionMessagesListParams, StoredChatCompletionsListParams,
    ToolCallFunction,
};
use openai_resources::common::ListOrder;
use openai_resources::error::ErrorKind;
use openai_resources::request::HttpMethod;
use openai_resources::sse::SseFrame;

fn delta_choice(index: usize, content: Option<&str>, finish: Option<ChatCompletionFinishReason>) -> ChatCompletionChunkChoice {
    ChatCompletionChunkChoice {
        index,
        delta: ChatCompletionChunkDelta { content: content.map(String::from), ..Default::default() },
        finish_reason: finish,
        logprobs: None,
        extra: Default::default(),
    }
}

fn chunk(id: &str, choices: Vec<ChatCompletionChunkChoice>) -> ChatCompletionChunk {
    ChatCompletionChunk {
        id: id.to_string(),
        object: "chat.completion.chunk".to_string(),
        created: 7,
        model: Some("m".to_string()),
        choices,
        service_tier: None,
        system_fingerprint: None,
        usage: None,
        extra: Default::default(),
    }
}

#[test]
fn content_fragments_concatenate_per_choice() {
    let mut acc = ChatCompletionAccumulator::new();
    acc.apply_chunk(&chunk("c1", vec![delta_choice(0, Some("Hel"), None), delta_choice(1, Some("A"), None)]));
    acc.apply_chunk(&chunk("c2", vec![delta_choice(0, Some("lo"), None)]));
    acc.apply_chunk(&chunk("c3", vec![delta_choice(1, Some("B"), Some(ChatCompletionFinishReason::Stop))]));
    let done = acc.finish().unwrap();
    assert_eq!(done.id, "c1");
    assert_eq!(done.object, "chat.completion");
    assert_eq!(done.created, 7);
    assert_eq!(done.choices.len(), 2);
    assert_eq!(done.choices[0].message.content.as_deref(), Some("Hello"));
    assert_eq!(done.choices[1].message.content.as_deref(), Some("AB"));
    assert_eq!(done.choices[1].finish_reason, Some(ChatCompletionFinishReason::Stop));
    assert_eq!(done.choices[1].index, 1);
}

#[test]
fn missing_choices_are_filled_in() {
    let mut acc = ChatCompletionAccumulator::new();
    acc.apply_chunk(&chunk("c", vec![delta_choice(2, Some("z"), Some(ChatCompletionFinishReason::Length))]));
    let done = acc.finish().unwrap();
    assert_eq!(done.choices.len(), 3);
    assert_eq!(done.choices[0].message.content, None);
    assert_eq!(done.choices[2].message.content.as_deref(), Some("z"));
}

#[test]
fn tool_call_arguments_accumulate() {
    let mut acc = ChatCompletionAccumulator::new();
    let first = ChatCompletionMessageToolCall {
        id: Some("call_1".to_string()),
        index: Some(0),
        function: ToolCallFunction { name: Some("lookup".to_string()), arguments: Some("{\"a\":".to_string()), extra: Default::default() },
        ..Default::default()
    };
    let second = ChatCompletionMessageToolCall {
        index: Some(0),
        function: ToolCallFunction { name: None, arguments: Some("1}".to_string()), extra: Default::default() },
        ..Default::default()
    };
    let mut c1 = delta_choice(0, None, None);
    c1.delta.role = Some(ChatCompletionRole::Assistant);
    c1.delta.tool_calls = vec![first];
    let mut c2 = delta_choice(0, None, Some(ChatCompletionFinishReason::ToolCalls));
    c2.delta.tool_calls = vec![second];
    acc.apply_chunk(&chunk("c", vec![c1]));
    acc.apply_chunk(&chunk("c", vec![c2]));
    let done = acc.finish().unwrap();
    let call = &done.choices[0].message.tool_calls[0];
    assert_eq!(call.id.as_deref(), Some("call_1"));
    assert_eq!(call.index, Some(0));
    assert_eq!(call.function.name.as_deref(), Some("lookup"));
    assert_eq!(call.function.arguments.as_deref(), Some("{\"a\":1}"));
    assert_eq!(done.choices[0].message.role, Some(ChatCompletionRole::Assistant));
}

#[test]
fn finish_requires_a_finish_reason() {
    let mut acc = ChatCompletionAccumulator::new();
    acc.apply_chunk(&chunk("c", vec![delta_choice(0, Some("x"), None)]));
    let err = acc.finish().unwrap_err();
    assert_eq!(err.kind, ErrorKind::Parse);
    assert_eq!(err.message, "chat completion stream ended without a terminal chunk carrying finish_reason");
}

#[test]
fn frames_done_and_parse_errors() {
    let mut acc = ChatCompletionAccumulator::new();
    let r = acc.ingest_frame(&SseFrame::new(None, "  [DONE] ".to_string()), Err("ignored".to_string())).unwrap();
    assert!(r.is_none());
    assert!(acc.seen_done);
    let err = acc.ingest_frame(&SseFrame::new(None, "{".to_string()), Err("EOF while parsing".to_string())).unwrap_err();
    assert_eq!(err.kind, ErrorKind::Parse);
    assert_eq!(err.message, "failed to parse streamed chat completion chunk: EOF while parsing");
    let c = chunk("c9", vec![delta_choice(0, Some("hi"), None)]);
    let back = acc.ingest_frame(&SseFrame::new(None, "{...}".to_string()), Ok(c.clone())).unwrap();
    assert_eq!(back, Some(c));
    assert_eq!(acc.id.as_deref(), Some("c9"));
}

#[test]
fn stored_listing_query() {
    let params = StoredChatCompletionsListParams {
        after: Some("a b".to_string()),
        limit: Some(3),
        order: Some(ListOrder::Desc),
        model: Some("gpt".to_string()),
        metadata: vec![("k".to_string(), "v 1".to_string())],
    };
    let req = ChatCompletions::new().list(params);
    assert_eq!(req.path, "/chat/completions?after=a%20b&limit=3&metadata%5Bk%5D=v%201&model=gpt&order=desc");
    let req = StoredChatCompletionMessages::new()
        .list(" cmpl_1 ", StoredChatCompletionMessagesListParams { after: None, limit: None, order: Some(ListOrder::Asc) })
        .unwrap();
    assert_eq!(req.path, "/chat/completions/cmpl_1/messages?order=asc");
}

#[test]
fn retrieve_trims_and_refuses_blank() {
    let req = ChatCompletions::new().retrieve("  id1 ").unwrap();
    assert_eq!(req.path, "/chat/completions/id1");
    assert_eq!(req.method, HttpMethod::Get);
    let err = ChatCompletions::new().delete("   ").unwrap_err();
    assert_eq!(err.message, "completion_id cannot be blank");
}

#[test]
fn structured_parse_checks() {
    assert!(check_parseable_choice(&Some(ChatCompletionFinishReason::Stop)).is_ok());
    let err = check_parseable_choice(&Some(ChatCompletionFinishReason::Length)).unwrap_err();
    assert_eq!(err.message, "chat completion ended because it reached the length limit");
    let err = check_parseable_choice(&Some(ChatCompletionFinishReason::ContentFilter)).unwrap_err();
    assert_eq!(err.message, "chat completion ended because content was filtered");
    assert!(parses_content(&Some(ChatCompletionResponseFormat::JsonObject)));
    assert!(!parses_content(&Some(ChatCompletionResponseFormat::Text)));
    let msg = ChatCompletionMessage { content: Some(" {} ".to_string()), ..Default::default() };
    assert!(content_to_parse(true, &msg));
    let refused = ChatCompletionMessage { content: Some("{}".to_string()), refusal: Some("no".to_string()), ..Default::default() };
    assert!(!content_to_parse(true, &refused));
}

#[test]
fn strict_tool_names_select_strict_functions() {
    let def = |name: &str, strict: Option<bool>| {
        ChatCompletionTool::Function(ChatCompletionFunctionTool::new(ChatCompletionFunctionDefinition {
            name: name.to_string(),
            strict,
            ..Default::default()
        }))
    };
    let tools = vec![def("a", Some(true)), def("b", None), def("c", Some(true))];
    let names = strict_chat_function_tool_names(&tools);
    assert_eq!(names, vec!["a".to_string(), "c".to_string()]);
    let call = ChatCompletionMessageToolCall {
        function: ToolCallFunction { name: Some("c".to_string()), arguments: Some("{}".to_string()), extra: Default::default() },
        ..Default::default()
    };
    assert!(parses_tool_arguments(&call, &names));
    let other = ChatCompletionMessageToolCall {
        function: ToolCallFunction { name: Some("b".to_string()), arguments: Some("{}".to_string()), extra: Default::default() },
        ..Default::default()
    };
    assert!(!parses_tool_arguments(&other, &names));
}
