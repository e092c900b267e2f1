//! End-to-end tests driving the executor with stub connectors.

use aidale::error::AiError;
use aidale::executor::RuntimeExecutor;
use aidale::plugin::NoopPlugin;
use aidale::provider::Provider;
use aidale::types::{
    ChatCompletionRequest, ChatCompletionResponse, Choice, ContentPart, FinishReason, Message,
    ProviderInfo, Role, TextParams, Usage,
};

struct StubProvider {
    reply: String,
}

impl Provider for StubProvider {
    type Stream = Vec<Result<aidale::types::ChatCompletionChunk, AiError>>;

    fn s_info(&self) -> aidale::types::ProviderInfoV {
        unreachable!()
    }

    fn completion_post(
        &self,
        _req: aidale::types::ChatCompletionRequestV,
        _r: Result<aidale::types::ChatCompletionResponseV, aidale::error::AiErrorV>,
    ) -> bool {
        unreachable!()
    }

    fn stream_post(
        &self,
        _req: aidale::types::ChatCompletionRequestV,
        _r: &Result<Self::Stream, AiError>,
    ) -> bool {
        unreachable!()
    }

    fn info(&self) -> ProviderInfo {
        ProviderInfo { id: "stub".to_string(), name: "Stub".to_string() }
    }

    fn chat_completion(
        &self,
        req: &ChatCompletionRequest,
    ) -> Result<ChatCompletionResponse, AiError> {
        Ok(ChatCompletionResponse {
            id: "resp-1".to_string(),
            model: req.model.clone(),
            choices: vec![Choice {
                index: 0,
                message: Message {
                    role: Role::Assistant,
                    content: vec![ContentPart::Text { text: self.reply.clone() }],
                    name: None,
                },
                finish_reason: FinishReason::Stop,
            }],
            usage: Usage { prompt_tokens: 3, completion_tokens: 5, total_tokens: 8 },
            created: None,
        })
    }

    fn stream_chat_completion(
        &self,
        _req: &ChatCompletionRequest,
    ) -> Result<Self::Stream, AiError> {
        Err(AiError::unsupported("streaming not stubbed".to_string()))
    }
}

#[test]
fn generate_text_returns_stub_content() {
    let provider = StubProvider { reply: "hello".to_string() };
    let executor = RuntimeExecutor::<StubProvider, NoopPlugin>::builder(provider).finish();
    let params = TextParams::new(vec![Message::user("hi".to_string())]);
    let result = executor.generate_text("test-model".to_string(), params).unwrap();
    assert_eq!(result.content, "hello");
    assert_eq!(result.usage.prompt_tokens, 3);
    assert_eq!(result.usage.completion_tokens, 5);
    assert_eq!(result.usage.total_tokens, 8);
    assert_eq!(result.finish_reason, FinishReason::Stop);
}

struct NoChoiceProvider;

impl Provider for NoChoiceProvider {
    type Stream = Vec<Result<aidale::types::ChatCompletionChunk, AiError>>;

    fn s_info(&self) -> aidale::types::ProviderInfoV {
        unreachable!()
    }

    fn completion_post(
        &self,
        _req: aidale::types::ChatCompletionRequestV,
        _r: Result<aidale::types::ChatCompletionResponseV, aidale::error::AiErrorV>,
    ) -> bool {
        unreachable!()
    }

    fn stream_post(
        &self,
        _req: aidale::types::ChatCompletionRequestV,
        _r: &Result<Self::Stream, AiError>,
    ) -> bool {
        unreachable!()
    }

    fn info(&self) -> ProviderInfo {
        ProviderInfo { id: "empty".to_string(), name: "Empty".to_string() }
    }

    fn chat_completion(
        &self,
        req: &ChatCompletionRequest,
    ) -> Result<ChatCompletionResponse, AiError> {
        Ok(ChatCompletionResponse {
            id: "resp-2".to_string(),
            model: req.model.clone(),
            choices: vec![],
            usage: Usage { prompt_tokens: 0, completion_tokens: 0, total_tokens: 0 },
            created: None,
        })
    }

    fn stream_chat_completion(
        &self,
        _req: &ChatCompletionRequest,
    ) -> Result<Self::Stream, AiError> {
        Err(AiError::unsupported("streaming not stubbed".to_string()))
    }
}

struct FailingProvider;

impl Provider for FailingProvider {
    type Stream = Vec<Result<aidale::types::ChatCompletionChunk, AiError>>;

    fn s_info(&self) -> aidale::types::ProviderInfoV {
        unreachable!()
    }

    fn completion_post(
        &self,
        _req: aidale::types::ChatCompletionRequestV,
        _r: Result<aidale::types::ChatCompletionResponseV, aidale::error::AiErrorV>,
    ) -> bool {
        unreachable!()
    }

    fn stream_post(
        &self,
        _req: aidale::types::ChatCompletionRequestV,
        _r: &Result<Self::Stream, AiError>,
    ) -> bool {
        unreachable!()
    }

    fn info(&self) -> ProviderInfo {
        ProviderInfo { id: "failing".to_string(), name: "Failing".to_string() }
    }

    fn chat_completion(
        &self,
        _req: &ChatCompletionRequest,
    ) -> Result<ChatCompletionResponse, AiError> {
        Err(AiError::Network("connection reset".to_string()))
    }

    fn stream_chat_completion(
        &self,
        _req: &ChatCompletionRequest,
    ) -> Result<Self::Stream, AiError> {
        Err(AiError::unsupported("streaming not stubbed".to_string()))
    }
}

use std::cell::RefCell;
use std::rc::Rc;

struct CapturingProvider {
    id: String,
    reply: String,
    seen_format: Rc<RefCell<Option<String>>>,
    seen_messages: Rc<RefCell<usize>>,
}

impl Provider for CapturingProvider {
    type Stream = Vec<Result<aidale::types::ChatCompletionChunk, AiError>>;

    fn s_info(&self) -> aidale::types::ProviderInfoV {
        unreachable!()
    }

    fn completion_post(
        &self,
        _req: aidale::types::ChatCompletionRequestV,
        _r: Result<aidale::types::ChatCompletionResponseV, aidale::error::AiErrorV>,
    ) -> bool {
        unreachable!()
    }

    fn stream_post(
        &self,
        _req: aidale::types::ChatCompletionRequestV,
        _r: &Result<Self::Stream, AiError>,
    ) -> bool {
        unreachable!()
    }

    fn info(&self) -> ProviderInfo {
        ProviderInfo { id: self.id.clone(), name: "Capturing".to_string() }
    }

    fn chat_completion(
        &self,
        req: &ChatCompletionRequest,
    ) -> Result<ChatCompletionResponse, AiError> {
        let format = match &req.response_format {
            None => "none",
            Some(aidale::types::ResponseFormat::Text) => "text",
            Some(aidale::types::ResponseFormat::JsonObject) => "json_object",
            Some(aidale::types::ResponseFormat::JsonSchema { .. }) => "json_schema",
        };
        *self.seen_format.borrow_mut() = Some(format.to_string());
        *self.seen_messages.borrow_mut() = req.messages.len();
        Ok(ChatCompletionResponse {
            id: "resp-3".to_string(),
            model: req.model.clone(),
            choices: vec![Choice {
                index: 0,
                message: Message {
                    role: Role::Assistant,
                    content: vec![ContentPart::Text { text: self.reply.clone() }],
                    name: None,
                },
                finish_reason: FinishReason::Stop,
            }],
            usage: Usage { prompt_tokens: 2, completion_tokens: 2, total_tokens: 4 },
            created: None,
        })
    }

    fn stream_chat_completion(
        &self,
        _req: &ChatCompletionRequest,
    ) -> Result<Self::Stream, AiError> {
        Err(AiError::unsupported("streaming not stubbed".to_string()))
    }
}

fn empty_schema() -> serde_json::Value {
    serde_json::Value::Object(serde_json::Map::new())
}

#[test]
fn generate_text_without_choices_is_a_provider_error() {
    let executor =
        RuntimeExecutor::<NoChoiceProvider, NoopPlugin>::builder(NoChoiceProvider).finish();
    let err = executor
        .generate_text("m".to_string(), TextParams::new(vec![]))
        .unwrap_err();
    match err {
        AiError::Provider(msg) => assert_eq!(msg, "No choices in response"),
        other => panic!("unexpected error: {:?}", other),
    }
}

#[test]
fn generate_object_parses_the_first_choice_as_json() {
    let provider = StubProvider { reply: "{\"answer\": 42}".to_string() };
    let executor = RuntimeExecutor::<StubProvider, NoopPlugin>::builder(provider).finish();
    let params = aidale::types::ObjectParams {
        messages: vec![Message::user("give me json".to_string())],
        schema: empty_schema(),
        max_tokens: None,
        temperature: None,
    };
    let result = executor.generate_object("m".to_string(), params).unwrap();
    let mut expected = serde_json::Map::new();
    expected.insert(
        "answer".to_string(),
        serde_json::Value::Number(serde_json::Number::from(42)),
    );
    assert_eq!(result.object, serde_json::Value::Object(expected));
    assert_eq!(result.usage.total_tokens, 8);
}

#[test]
fn generate_object_with_malformed_output_is_a_serialization_error() {
    let provider = StubProvider { reply: "not json at all".to_string() };
    let executor = RuntimeExecutor::<StubProvider, NoopPlugin>::builder(provider).finish();
    let params = aidale::types::ObjectParams {
        messages: vec![],
        schema: empty_schema(),
        max_tokens: None,
        temperature: None,
    };
    let err = executor.generate_object("m".to_string(), params).unwrap_err();
    assert!(matches!(err, AiError::Serialization(_)));
}

#[test]
fn auto_detected_schema_strategy_reaches_the_connector() {
    let seen_format = Rc::new(RefCell::new(None));
    let seen_messages = Rc::new(RefCell::new(0));
    let provider = CapturingProvider {
        id: "openai".to_string(),
        reply: "{}".to_string(),
        seen_format: Rc::clone(&seen_format),
        seen_messages: Rc::clone(&seen_messages),
    };
    let executor = RuntimeExecutor::<CapturingProvider, NoopPlugin>::builder(provider).finish();
    let params = aidale::types::ObjectParams {
        messages: vec![Message::user("q".to_string())],
        schema: empty_schema(),
        max_tokens: None,
        temperature: None,
    };
    executor.generate_object("m".to_string(), params).unwrap();
    assert_eq!(seen_format.borrow().as_deref(), Some("json_schema"));
    assert_eq!(*seen_messages.borrow(), 1);
}

#[test]
fn auto_detected_mode_strategy_injects_a_message() {
    let seen_format = Rc::new(RefCell::new(None));
    let seen_messages = Rc::new(RefCell::new(0));
    let provider = CapturingProvider {
        id: "deepseek".to_string(),
        reply: "{}".to_string(),
        seen_format: Rc::clone(&seen_format),
        seen_messages: Rc::clone(&seen_messages),
    };
    let executor = RuntimeExecutor::<CapturingProvider, NoopPlugin>::builder(provider).finish();
    let params = aidale::types::ObjectParams {
        messages: vec![Message::user("q".to_string())],
        schema: empty_schema(),
        max_tokens: None,
        temperature: None,
    };
    executor.generate_object("m".to_string(), params).unwrap();
    assert_eq!(seen_format.borrow().as_deref(), Some("json_object"));
    assert_eq!(*seen_messages.borrow(), 2);
}

#[test]
fn generate_text_forces_text_format_and_no_streaming() {
    let seen_format = Rc::new(RefCell::new(None));
    let seen_messages = Rc::new(RefCell::new(0));
    let provider = CapturingProvider {
        id: "whatever".to_string(),
        reply: "fine".to_string(),
        seen_format: Rc::clone(&seen_format),
        seen_messages: Rc::clone(&seen_messages),
    };
    let executor = RuntimeExecutor::<CapturingProvider, NoopPlugin>::builder(provider).finish();
    let params = TextParams::new(vec![Message::user("q".to_string())]);
    let result = executor.generate_text("m".to_string(), params).unwrap();
    assert_eq!(result.content, "fine");
    assert_eq!(seen_format.borrow().as_deref(), Some("text"));
}

#[test]
fn executor_reports_the_backend_identity() {
    let provider = StubProvider { reply: "x".to_string() };
    let executor = RuntimeExecutor::<StubProvider, NoopPlugin>::builder(provider).finish();
    let info = executor.info();
    assert_eq!(info.id, "stub");
    assert_eq!(info.name, "Stub");
}

/// A plugin whose error hook itself fails, and which resolves every model
/// to a fixed id.
struct MeddlingPlugin {
    resolve_to: Option<String>,
    error_log: Rc<RefCell<u32>>,
}

impl aidale::plugin::Plugin for MeddlingPlugin {
    fn s_name(&self) -> vstd::prelude::Seq<char> {
        unreachable!()
    }

    fn s_phase(&self) -> aidale::plugin::PluginPhase {
        unreachable!()
    }

    fn s_resolve_model(
        &self,
        _model_id: vstd::prelude::Seq<char>,
        _ctx: aidale::types::RequestContextV,
    ) -> Result<Option<vstd::prelude::Seq<char>>, aidale::error::AiErrorV> {
        unreachable!()
    }

    fn s_load_template(
        &self,
        _template_name: vstd::prelude::Seq<char>,
        _ctx: aidale::types::RequestContextV,
    ) -> Result<Option<vstd::prelude::Seq<aidale::types::MessageV>>, aidale::error::AiErrorV>
    {
        unreachable!()
    }

    fn s_transform_params(
        &self,
        _params: aidale::types::TextParamsV,
        _ctx: aidale::types::RequestContextV,
    ) -> Result<aidale::types::TextParamsV, aidale::error::AiErrorV> {
        unreachable!()
    }

    fn s_transform_result(
        &self,
        _result: aidale::types::TextResultV,
        _ctx: aidale::types::RequestContextV,
    ) -> Result<aidale::types::TextResultV, aidale::error::AiErrorV> {
        unreachable!()
    }

    fn s_on_request_start(
        &self,
        _ctx: aidale::types::RequestContextV,
    ) -> Option<aidale::error::AiErrorV> {
        unreachable!()
    }

    fn s_on_request_end(
        &self,
        _ctx: aidale::types::RequestContextV,
        _result: aidale::types::TextResultV,
    ) -> Option<aidale::error::AiErrorV> {
        unreachable!()
    }

    fn s_on_error(
        &self,
        _error: aidale::error::AiErrorV,
        _ctx: aidale::types::RequestContextV,
    ) -> Option<aidale::error::AiErrorV> {
        unreachable!()
    }

    fn s_transform_chunks(
        &self,
        _chunks: vstd::prelude::Seq<aidale::types::TextChunkV>,
    ) -> vstd::prelude::Seq<aidale::types::TextChunkV> {
        unreachable!()
    }

    fn name(&self) -> String {
        "meddling".to_string()
    }

    fn enforce(&self) -> aidale::plugin::PluginPhase {
        aidale::plugin::PluginPhase::Normal
    }

    fn resolve_model(
        &self,
        _model_id: &str,
        _ctx: &aidale::types::RequestContext,
    ) -> Result<Option<String>, AiError> {
        Ok(self.resolve_to.clone())
    }

    fn load_template(
        &self,
        _template_name: &str,
        _ctx: &aidale::types::RequestContext,
    ) -> Result<Option<Vec<Message>>, AiError> {
        Ok(None)
    }

    fn transform_params(
        &self,
        params: aidale::types::TextParams,
        _ctx: &aidale::types::RequestContext,
    ) -> Result<aidale::types::TextParams, AiError> {
        Ok(params)
    }

    fn transform_result(
        &self,
        result: aidale::types::TextResult,
        _ctx: &aidale::types::RequestContext,
    ) -> Result<aidale::types::TextResult, AiError> {
        Ok(result)
    }

    fn on_request_start(&self, _ctx: &aidale::types::RequestContext) -> Result<(), AiError> {
        Ok(())
    }

    fn on_request_end(
        &self,
        _ctx: &aidale::types::RequestContext,
        _result: &aidale::types::TextResult,
    ) -> Result<(), AiError> {
        Ok(())
    }

    fn on_error(
        &self,
        _error: &AiError,
        _ctx: &aidale::types::RequestContext,
    ) -> Result<(), AiError> {
        *self.error_log.borrow_mut() += 1;
        Err(AiError::plugin(
            "meddling".to_string(),
            "error hook broke".to_string(),
        ))
    }

    fn transform_chunks(
        &self,
        chunks: Vec<aidale::types::TextChunk>,
    ) -> Vec<aidale::types::TextChunk> {
        chunks
    }
}

#[test]
fn broken_error_hook_never_masks_the_connector_error() {
    let error_log = Rc::new(RefCell::new(0));
    let plugin = MeddlingPlugin { resolve_to: None, error_log: Rc::clone(&error_log) };
    let executor = RuntimeExecutor::<FailingProvider, MeddlingPlugin>::builder(FailingProvider)
        .plugin(plugin)
        .finish();
    let err = executor
        .generate_text("m".to_string(), TextParams::new(vec![]))
        .unwrap_err();
    match err {
        AiError::Network(msg) => assert_eq!(msg, "connection reset"),
        other => panic!("unexpected error: {:?}", other),
    }
    assert_eq!(*error_log.borrow(), 1);
}

#[test]
fn resolved_model_reaches_the_connector() {
    let error_log = Rc::new(RefCell::new(0));
    let plugin = MeddlingPlugin {
        resolve_to: Some("resolved-model".to_string()),
        error_log: Rc::clone(&error_log),
    };
    let provider = StubProvider { reply: "hi".to_string() };
    let executor = RuntimeExecutor::<StubProvider, MeddlingPlugin>::builder(provider)
        .plugin(plugin)
        .finish();
    let result = executor
        .generate_text("requested-model".to_string(), TextParams::new(vec![]))
        .unwrap();
    // the stub echoes the request's model back into the result
    assert_eq!(result.model, "resolved-model");
}
