//! Tests for the data model: message and parameter builders, stream
//! collection, the tool registry and the request context.

use std::collections::HashMap;

use aidale::error::AiError;
use aidale::provider::collect_text_stream;
use aidale::tools::{ToolRegistry, ToolUsePlugin, ToolUsePluginConfig};
use aidale::plugin::{Plugin, PluginPhase};
use aidale::types::{
    ChatCompletionRequest, ContentPart, FinishReason, Message, RequestContext, ResponseFormat,
    Role, TextChunk, TextParams, TextRequest, TextResponse, Tool, Usage,
};

#[test]
fn message_builders_set_role_and_text() {
    let user = Message::user("hi".to_string());
    assert_eq!(user.role, Role::User);
    assert!(matches!(&user.content[0], ContentPart::Text { text } if text == "hi"));
    assert!(user.name.is_none());

    let assistant = Message::assistant("yo".to_string());
    assert_eq!(assistant.role, Role::Assistant);

    let system = Message::system("rules".to_string());
    assert_eq!(system.role, Role::System);

    let named = Message::user("hi".to_string()).with_name("alice".to_string());
    assert_eq!(named.name.as_deref(), Some("alice"));
}

#[test]
fn text_params_builders_fill_the_knobs() {
    let params = TextParams::new(vec![Message::user("q".to_string())])
        .with_max_tokens(64)
        .with_temperature(70)
        .with_tools(vec![Tool {
            name: "t".to_string(),
            description: "d".to_string(),
            parameters: serde_json::Value::Null,
        }]);
    assert_eq!(params.messages.len(), 1);
    assert_eq!(params.max_tokens, Some(64));
    assert_eq!(params.temperature, Some(70));
    assert_eq!(params.tools.as_ref().unwrap().len(), 1);
    assert!(params.stop.is_none());
    assert!(params.extra.is_empty());
}

#[test]
fn chat_request_builders_fill_the_knobs() {
    let req = ChatCompletionRequest::new("m".to_string(), vec![])
        .with_temperature(120)
        .with_max_tokens(256)
        .with_response_format(ResponseFormat::JsonObject)
        .with_tools(vec![])
        .with_stream(true);
    assert_eq!(req.model, "m");
    assert_eq!(req.temperature, Some(120));
    assert_eq!(req.max_tokens, Some(256));
    assert!(matches!(req.response_format, Some(ResponseFormat::JsonObject)));
    assert_eq!(req.tools.as_ref().unwrap().len(), 0);
    assert_eq!(req.stream, Some(true));
}

#[test]
fn request_context_carries_identity_and_metadata() {
    let ctx = RequestContext::new("backend".to_string(), "model-x".to_string());
    assert_eq!(ctx.provider_id, "backend");
    assert_eq!(ctx.model, "model-x");
    assert!(ctx.metadata.is_empty());

    let mut meta = HashMap::new();
    meta.insert("tenant".to_string(), "acme".to_string());
    let ctx = ctx.with_metadata(meta);
    assert_eq!(ctx.metadata.get("tenant").map(String::as_str), Some("acme"));

    let a = RequestContext::new("b".to_string(), "m".to_string());
    let b = RequestContext::new("b".to_string(), "m".to_string());
    assert_ne!(a.request_id, b.request_id);
}

fn chunk(delta: &str) -> Result<TextChunk, AiError> {
    Ok(TextChunk { delta: delta.to_string(), finish_reason: None, usage: None })
}

#[test]
fn collecting_a_stream_concatenates_deltas() {
    let response = TextResponse { model: "m".to_string(), id: "id".to_string() };
    let chunks = vec![
        chunk("Hel"),
        chunk("lo"),
        Ok(TextChunk {
            delta: "!".to_string(),
            finish_reason: Some(FinishReason::Length),
            usage: Some(Usage { prompt_tokens: 1, completion_tokens: 2, total_tokens: 3 }),
        }),
    ];
    let result = collect_text_stream(response, chunks).unwrap();
    assert_eq!(result.content, "Hello!");
    assert_eq!(result.finish_reason, FinishReason::Length);
    assert_eq!(result.usage.total_tokens, 3);
    assert_eq!(result.model, "m");
}

#[test]
fn collecting_an_empty_stream_defaults_stop_and_zero_usage() {
    let response = TextResponse { model: "m".to_string(), id: "id".to_string() };
    let result = collect_text_stream(response, vec![]).unwrap();
    assert_eq!(result.content, "");
    assert_eq!(result.finish_reason, FinishReason::Stop);
    assert_eq!(result.usage.total_tokens, 0);
}

#[test]
fn a_chunk_error_ends_the_stream_with_that_error() {
    let response = TextResponse { model: "m".to_string(), id: "id".to_string() };
    let chunks = vec![
        chunk("partial"),
        Err(AiError::stream("broken pipe".to_string())),
        chunk("never"),
    ];
    let err = collect_text_stream(response, chunks).unwrap_err();
    assert!(matches!(err, AiError::Stream(_)));
}

fn tool(name: &str, description: &str) -> Tool {
    Tool {
        name: name.to_string(),
        description: description.to_string(),
        parameters: serde_json::Value::Null,
    }
}

#[test]
fn registry_keeps_registration_order_and_replaces_by_name() {
    let mut registry = ToolRegistry::new();
    assert_eq!(registry.len(), 0);
    registry.register(tool("add", "Add two numbers"));
    registry.register(tool("mul", "Multiply"));
    registry.register(tool("add", "Addition, revised"));

    let defs = registry.definitions();
    assert_eq!(defs.len(), 2);
    assert_eq!(defs[0].name, "add");
    assert_eq!(defs[0].description, "Addition, revised");
    assert_eq!(defs[1].name, "mul");
}

#[test]
fn tool_use_plugin_offers_registered_definitions() {
    let mut registry = ToolRegistry::new();
    registry.register(tool("add", "Add two numbers"));
    let plugin = ToolUsePlugin::new(registry);
    assert_eq!(plugin.name(), "tool_use");
    assert_eq!(plugin.enforce(), PluginPhase::Pre);

    let ctx = RequestContext::new("b".to_string(), "m".to_string());
    let params = TextParams::new(vec![Message::user("q".to_string())]);
    let out = plugin.transform_params(params, &ctx).unwrap();
    let tools = out.tools.unwrap();
    assert_eq!(tools.len(), 1);
    assert_eq!(tools[0].name, "add");
}

#[test]
fn tool_use_plugin_without_tools_leaves_params_alone() {
    let plugin = ToolUsePlugin::with_config(
        ToolRegistry::new(),
        ToolUsePluginConfig { auto_execute: false, max_rounds: 1 },
    );
    let ctx = RequestContext::new("b".to_string(), "m".to_string());
    let params = TextParams::new(vec![]);
    let out = plugin.transform_params(params, &ctx).unwrap();
    assert!(out.tools.is_none());
}

#[test]
fn error_constructors_build_their_variants() {
    assert!(matches!(AiError::provider("x".to_string()), AiError::Provider(_)));
    assert!(matches!(AiError::authentication("x".to_string()), AiError::Authentication(_)));
    assert!(matches!(AiError::rate_limit("x".to_string()), AiError::RateLimit(_)));
    assert!(matches!(AiError::invalid_request("x".to_string()), AiError::InvalidRequest(_)));
    assert!(matches!(AiError::model_not_found("x".to_string()), AiError::ModelNotFound(_)));
    assert!(matches!(AiError::timeout("x".to_string()), AiError::Timeout(_)));
    assert!(matches!(
        AiError::plugin("p".to_string(), "m".to_string()),
        AiError::Plugin { .. }
    ));
    assert!(matches!(
        AiError::layer("l".to_string(), "m".to_string()),
        AiError::Layer { .. }
    ));
    assert!(matches!(AiError::configuration("x".to_string()), AiError::Configuration(_)));
    assert!(matches!(AiError::stream("x".to_string()), AiError::Stream(_)));
    assert!(matches!(AiError::unsupported("x".to_string()), AiError::Unsupported(_)));
    assert!(matches!(AiError::other("x".to_string()), AiError::Other(_)));
}

#[test]
fn requests_join_params_with_the_model() {
    let req = TextRequest::new(
        "model-a".to_string(),
        TextParams::new(vec![Message::user("q".to_string())]),
    );
    assert_eq!(req.model, "model-a");
    assert_eq!(req.params.messages.len(), 1);
}
