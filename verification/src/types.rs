//! Core data model: messages, generation parameters, completion requests
//! and responses.
//!
//! Every executable type has a ghost image (its `DeepView`) over character
//! sequences and ghost maps; all contracts in the crate are stated over
//! those images. Sampling knobs that are fractional quantities (temperature,
//! top-p, penalties) are carried in hundredths, so the whole model stays in
//! integer arithmetic.

use vstd::prelude::*;
use std::collections::HashMap;

verus! {

/// Ghost image of a `Result`, both sides deep-viewed.
pub open spec fn dv_res<T: DeepView, E: DeepView>(r: Result<T, E>) -> Result<T::V, E::V> {
    match r {
        Ok(t) => Ok(t.deep_view()),
        Err(e) => Err(e.deep_view()),
    }
}

/// Message role in a conversation.
#[derive(Debug, Clone, Copy, PartialEq, Eq, Structural)]
pub enum Role {
    System,
    User,
    Assistant,
    Tool,
}

impl DeepView for Role {
    type V = Role;

    open spec fn deep_view(&self) -> Role {
        *self
    }
}

/// One part of a message body.
#[derive(Debug)]
pub enum ContentPart {
    /// Plain text.
    Text { text: String },
    /// An image by URL.
    Image { url: String },
    /// A tool invocation requested by the model.
    ToolCall { id: String, name: String, arguments: serde_json::Value },
    /// The result of a tool invocation.
    ToolResult { id: String, result: serde_json::Value },
}

/// Ghost image of a [`ContentPart`].
pub ghost enum ContentPartV {
    Text { text: Seq<char> },
    Image { url: Seq<char> },
    ToolCall { id: Seq<char>, name: Seq<char>, arguments: serde_json::Value },
    ToolResult { id: Seq<char>, result: serde_json::Value },
}

impl DeepView for ContentPart {
    type V = ContentPartV;

    open spec fn deep_view(&self) -> ContentPartV {
        match self {
            ContentPart::Text { text } => ContentPartV::Text { text: text@ },
            ContentPart::Image { url } => ContentPartV::Image { url: url@ },
            ContentPart::ToolCall { id, name, arguments } => ContentPartV::ToolCall {
                id: id@,
                name: name@,
                arguments: *arguments,
            },
            ContentPart::ToolResult { id, result } => ContentPartV::ToolResult {
                id: id@,
                result: *result,
            },
        }
    }
}

impl Clone for ContentPart {
    /// Cloning preserves the ghost image of the part.
    fn clone(&self) -> (r: Self)
        ensures
            r.deep_view() == self.deep_view(),
    {
        match self {
            ContentPart::Text { text } => ContentPart::Text { text: text.clone() },
            ContentPart::Image { url } => ContentPart::Image { url: url.clone() },
            ContentPart::ToolCall { id, name, arguments } => ContentPart::ToolCall {
                id: id.clone(),
                name: name.clone(),
                arguments: crate::json::clone_value(arguments),
            },
            ContentPart::ToolResult { id, result } => ContentPart::ToolResult {
                id: id.clone(),
                result: crate::json::clone_value(result),
            },
        }
    }
}

/// Message in a conversation.
#[derive(Debug)]
pub struct Message {
    pub role: Role,
    pub content: Vec<ContentPart>,
    pub name: Option<String>,
}

/// Ghost image of a [`Message`].
pub ghost struct MessageV {
    pub role: Role,
    pub content: Seq<ContentPartV>,
    pub name: Option<Seq<char>>,
}

impl DeepView for Message {
    type V = MessageV;

    open spec fn deep_view(&self) -> MessageV {
        MessageV {
            role: self.role,
            content: self.content.deep_view(),
            name: self.name.deep_view(),
        }
    }
}

impl Clone for Message {
    /// Cloning preserves the ghost image of the message.
    fn clone(&self) -> (r: Self)
        ensures
            r.deep_view() == self.deep_view(),
    {
        let mut content: Vec<ContentPart> = Vec::new();
        let mut i: usize = 0;
        while i < self.content.len()
            invariant
                i <= self.content.len(),
                content@.len() == i as int,
                forall|j: int|
                    0 <= j < i ==> #[trigger] content@[j].deep_view()
                        == self.content@[j].deep_view(),
            decreases self.content.len() - i,
        {
            content.push(self.content[i].clone());
            i += 1;
        }
        proof {
            assert(content.deep_view() =~= self.content.deep_view());
        }
        Message {
            role: self.role,
            content,
            name: match &self.name {
                Some(n) => Some(n.clone()),
                None => None,
            },
        }
    }
}

/// The ghost image of a message whose body is a single text part.
pub open spec fn text_message(role: Role, text: Seq<char>) -> MessageV {
    MessageV { role, content: seq![ContentPartV::Text { text }], name: None }
}

impl Message {
    /// Create a new user message with text.
    pub fn user(text: String) -> (r: Message)
        ensures
            r.deep_view() == text_message(Role::User, text@),
    {
        let r = Message {
            role: Role::User,
            content: vec![ContentPart::Text { text }],
            name: None,
        };
        proof {
            assert(r.deep_view().content =~= text_message(Role::User, text@).content);
        }
        r
    }

    /// Create a new assistant message with text.
    pub fn assistant(text: String) -> (r: Message)
        ensures
            r.deep_view() == text_message(Role::Assistant, text@),
    {
        let r = Message {
            role: Role::Assistant,
            content: vec![ContentPart::Text { text }],
            name: None,
        };
        proof {
            assert(r.deep_view().content =~= text_message(Role::Assistant, text@).content);
        }
        r
    }

    /// Create a new system message with text.
    pub fn system(text: String) -> (r: Message)
        ensures
            r.deep_view() == text_message(Role::System, text@),
    {
        let r = Message {
            role: Role::System,
            content: vec![ContentPart::Text { text }],
            name: None,
        };
        proof {
            assert(r.deep_view().content =~= text_message(Role::System, text@).content);
        }
        r
    }

    /// Set the message name.
    pub fn with_name(self, name: String) -> (r: Message)
        ensures
            r.deep_view() == (MessageV { name: Some(name@), ..self.deep_view() }),
    {
        Message { name: Some(name), ..self }
    }
}

/// Tool definition offered to the model.
#[derive(Debug)]
pub struct Tool {
    pub name: String,
    pub description: String,
    pub parameters: serde_json::Value,
}

/// Ghost image of a [`Tool`].
pub ghost struct ToolV {
    pub name: Seq<char>,
    pub description: Seq<char>,
    pub parameters: serde_json::Value,
}

impl DeepView for Tool {
    type V = ToolV;

    open spec fn deep_view(&self) -> ToolV {
        ToolV {
            name: self.name@,
            description: self.description@,
            parameters: self.parameters,
        }
    }
}

impl Clone for Tool {
    /// Cloning preserves the ghost image of the tool.
    fn clone(&self) -> (r: Self)
        ensures
            r.deep_view() == self.deep_view(),
    {
        Tool {
            name: self.name.clone(),
            description: self.description.clone(),
            parameters: crate::json::clone_value(&self.parameters),
        }
    }
}

/// Text generation parameters.
///
/// Temperature, top-p and the two penalties are in hundredths of the usual
/// unit scale.
#[derive(Debug)]
pub struct TextParams {
    /// Messages in the conversation.
    pub messages: Vec<Message>,
    /// Maximum number of tokens to generate.
    pub max_tokens: Option<u32>,
    /// Temperature, in hundredths.
    pub temperature: Option<u32>,
    /// Top-p sampling, in hundredths.
    pub top_p: Option<u32>,
    /// Frequency penalty, in hundredths.
    pub frequency_penalty: Option<i32>,
    /// Presence penalty, in hundredths.
    pub presence_penalty: Option<i32>,
    /// Stop sequences.
    pub stop: Option<Vec<String>>,
    /// Tools available for the model to use.
    pub tools: Option<Vec<Tool>>,
    /// Additional backend-specific parameters.
    pub extra: HashMap<String, serde_json::Value>,
}

/// Ghost image of [`TextParams`].
pub ghost struct TextParamsV {
    pub messages: Seq<MessageV>,
    pub max_tokens: Option<u32>,
    pub temperature: Option<u32>,
    pub top_p: Option<u32>,
    pub frequency_penalty: Option<i32>,
    pub presence_penalty: Option<i32>,
    pub stop: Option<Seq<Seq<char>>>,
    pub tools: Option<Seq<ToolV>>,
    pub extra: Map<String, serde_json::Value>,
}

impl DeepView for TextParams {
    type V = TextParamsV;

    open spec fn deep_view(&self) -> TextParamsV {
        TextParamsV {
            messages: self.messages.deep_view(),
            max_tokens: self.max_tokens,
            temperature: self.temperature,
            top_p: self.top_p,
            frequency_penalty: self.frequency_penalty,
            presence_penalty: self.presence_penalty,
            stop: self.stop.deep_view(),
            tools: self.tools.deep_view(),
            extra: self.extra@,
        }
    }
}

impl TextParams {
    /// Create new text parameters with messages and every knob unset.
    pub fn new(messages: Vec<Message>) -> (r: TextParams)
        ensures
            r.deep_view() == (TextParamsV {
                messages: messages.deep_view(),
                max_tokens: None,
                temperature: None,
                top_p: None,
                frequency_penalty: None,
                presence_penalty: None,
                stop: None,
                tools: None,
                extra: Map::empty(),
            }),
    {
        TextParams {
            messages,
            max_tokens: None,
            temperature: None,
            top_p: None,
            frequency_penalty: None,
            presence_penalty: None,
            stop: None,
            tools: None,
            extra: HashMap::new(),
        }
    }

    /// Set max tokens.
    pub fn with_max_tokens(self, max_tokens: u32) -> (r: TextParams)
        ensures
            r.deep_view() == (TextParamsV { max_tokens: Some(max_tokens), ..self.deep_view() }),
    {
        TextParams { max_tokens: Some(max_tokens), ..self }
    }

    /// Set temperature, in hundredths.
    pub fn with_temperature(self, temperature: u32) -> (r: TextParams)
        ensures
            r.deep_view() == (TextParamsV { temperature: Some(temperature), ..self.deep_view() }),
    {
        TextParams { temperature: Some(temperature), ..self }
    }

    /// Set tools.
    pub fn with_tools(self, tools: Vec<Tool>) -> (r: TextParams)
        ensures
            r.deep_view() == (TextParamsV { tools: Some(tools.deep_view()), ..self.deep_view() }),
    {
        TextParams { tools: Some(tools), ..self }
    }
}

/// Text request joining parameters with the model to call.
#[derive(Debug)]
pub struct TextRequest {
    pub params: TextParams,
    pub model: String,
}

/// Ghost image of a [`TextRequest`].
pub ghost struct TextRequestV {
    pub params: TextParamsV,
    pub model: Seq<char>,
}

impl DeepView for TextRequest {
    type V = TextRequestV;

    open spec fn deep_view(&self) -> TextRequestV {
        TextRequestV { params: self.params.deep_view(), model: self.model@ }
    }
}

impl TextRequest {
    /// Create a new text request.
    pub fn new(model: String, params: TextParams) -> (r: TextRequest)
        ensures
            r.deep_view() == (TextRequestV { params: params.deep_view(), model: model@ }),
    {
        TextRequest { model, params }
    }
}

/// Token usage statistics.
#[derive(Debug, Clone, Copy, PartialEq, Eq, Structural)]
pub struct Usage {
    pub prompt_tokens: u32,
    pub completion_tokens: u32,
    pub total_tokens: u32,
}

impl DeepView for Usage {
    type V = Usage;

    open spec fn deep_view(&self) -> Usage {
        *self
    }
}

/// Why the model stopped generating.
#[derive(Debug, PartialEq, Eq)]
pub enum FinishReason {
    Stop,
    Length,
    ToolCalls,
    ContentFilter,
    Other(String),
}

/// Ghost image of a [`FinishReason`].
pub ghost enum FinishReasonV {
    Stop,
    Length,
    ToolCalls,
    ContentFilter,
    Other(Seq<char>),
}

impl DeepView for FinishReason {
    type V = FinishReasonV;

    open spec fn deep_view(&self) -> FinishReasonV {
        match self {
            FinishReason::Stop => FinishReasonV::Stop,
            FinishReason::Length => FinishReasonV::Length,
            FinishReason::ToolCalls => FinishReasonV::ToolCalls,
            FinishReason::ContentFilter => FinishReasonV::ContentFilter,
            FinishReason::Other(s) => FinishReasonV::Other(s@),
        }
    }
}

impl Clone for FinishReason {
    /// Cloning preserves the ghost image of the reason.
    fn clone(&self) -> (r: Self)
        ensures
            r.deep_view() == self.deep_view(),
    {
        match self {
            FinishReason::Stop => FinishReason::Stop,
            FinishReason::Length => FinishReason::Length,
            FinishReason::ToolCalls => FinishReason::ToolCalls,
            FinishReason::ContentFilter => FinishReason::ContentFilter,
            FinishReason::Other(s) => FinishReason::Other(s.clone()),
        }
    }
}

/// Text generation result.
#[derive(Debug)]
pub struct TextResult {
    pub content: String,
    pub finish_reason: FinishReason,
    pub usage: Usage,
    pub model: String,
    pub tool_calls: Option<Vec<ContentPart>>,
}

/// Ghost image of a [`TextResult`].
pub ghost struct TextResultV {
    pub content: Seq<char>,
    pub finish_reason: FinishReasonV,
    pub usage: Usage,
    pub model: Seq<char>,
    pub tool_calls: Option<Seq<ContentPartV>>,
}

impl DeepView for TextResult {
    type V = TextResultV;

    open spec fn deep_view(&self) -> TextResultV {
        TextResultV {
            content: self.content@,
            finish_reason: self.finish_reason.deep_view(),
            usage: self.usage,
            model: self.model@,
            tool_calls: self.tool_calls.deep_view(),
        }
    }
}

/// Streaming text chunk.
#[derive(Debug)]
pub struct TextChunk {
    pub delta: String,
    pub finish_reason: Option<FinishReason>,
    pub usage: Option<Usage>,
}

/// Ghost image of a [`TextChunk`].
pub ghost struct TextChunkV {
    pub delta: Seq<char>,
    pub finish_reason: Option<FinishReasonV>,
    pub usage: Option<Usage>,
}

impl DeepView for TextChunk {
    type V = TextChunkV;

    open spec fn deep_view(&self) -> TextChunkV {
        TextChunkV {
            delta: self.delta@,
            finish_reason: self.finish_reason.deep_view(),
            usage: self.usage,
        }
    }
}

/// Response metadata from streaming.
#[derive(Debug)]
pub struct TextResponse {
    pub model: String,
    pub id: String,
}

/// Ghost image of a [`TextResponse`].
pub ghost struct TextResponseV {
    pub model: Seq<char>,
    pub id: Seq<char>,
}

impl DeepView for TextResponse {
    type V = TextResponseV;

    open spec fn deep_view(&self) -> TextResponseV {
        TextResponseV { model: self.model@, id: self.id@ }
    }
}

/// Object generation parameters.
#[derive(Debug)]
pub struct ObjectParams {
    pub messages: Vec<Message>,
    pub schema: serde_json::Value,
    pub max_tokens: Option<u32>,
    /// Temperature, in hundredths.
    pub temperature: Option<u32>,
}

/// Ghost image of [`ObjectParams`].
pub ghost struct ObjectParamsV {
    pub messages: Seq<MessageV>,
    pub schema: serde_json::Value,
    pub max_tokens: Option<u32>,
    pub temperature: Option<u32>,
}

impl DeepView for ObjectParams {
    type V = ObjectParamsV;

    open spec fn deep_view(&self) -> ObjectParamsV {
        ObjectParamsV {
            messages: self.messages.deep_view(),
            schema: self.schema,
            max_tokens: self.max_tokens,
            temperature: self.temperature,
        }
    }
}

/// Object request joining parameters with the model to call.
#[derive(Debug)]
pub struct ObjectRequest {
    pub params: ObjectParams,
    pub model: String,
}

/// Ghost image of an [`ObjectRequest`].
pub ghost struct ObjectRequestV {
    pub params: ObjectParamsV,
    pub model: Seq<char>,
}

impl DeepView for ObjectRequest {
    type V = ObjectRequestV;

    open spec fn deep_view(&self) -> ObjectRequestV {
        ObjectRequestV { params: self.params.deep_view(), model: self.model@ }
    }
}

/// Object generation result.
#[derive(Debug)]
pub struct ObjectResult {
    pub object: serde_json::Value,
    pub usage: Usage,
    pub model: String,
}

/// Ghost image of an [`ObjectResult`].
pub ghost struct ObjectResultV {
    pub object: serde_json::Value,
    pub usage: Usage,
    pub model: Seq<char>,
}

impl DeepView for ObjectResult {
    type V = ObjectResultV;

    open spec fn deep_view(&self) -> ObjectResultV {
        ObjectResultV { object: self.object, usage: self.usage, model: self.model@ }
    }
}

/// Object response metadata.
#[derive(Debug)]
pub struct ObjectResponse {
    pub model: String,
    pub id: String,
}

/// Ghost image of an [`ObjectResponse`].
pub ghost struct ObjectResponseV {
    pub model: Seq<char>,
    pub id: Seq<char>,
}

impl DeepView for ObjectResponse {
    type V = ObjectResponseV;

    open spec fn deep_view(&self) -> ObjectResponseV {
        ObjectResponseV { model: self.model@, id: self.id@ }
    }
}

/// Backend identity: a stable id and a display name.
#[derive(Debug)]
pub struct ProviderInfo {
    pub id: String,
    pub name: String,
}

/// Ghost image of a [`ProviderInfo`].
pub ghost struct ProviderInfoV {
    pub id: Seq<char>,
    pub name: Seq<char>,
}

impl DeepView for ProviderInfo {
    type V = ProviderInfoV;

    open spec fn deep_view(&self) -> ProviderInfoV {
        ProviderInfoV { id: self.id@, name: self.name@ }
    }
}

impl Clone for ProviderInfo {
    /// Cloning preserves the ghost image of the identity.
    fn clone(&self) -> (r: Self)
        ensures
            r.deep_view() == self.deep_view(),
    {
        ProviderInfo { id: self.id.clone(), name: self.name.clone() }
    }
}

/// Identity of one in-flight request, passed to every plugin hook.
#[derive(Debug)]
pub struct RequestContext {
    /// Fresh id generated when the request enters the orchestrator.
    pub request_id: String,
    pub provider_id: String,
    pub model: String,
    /// Opaque string-keyed metadata, read-only after creation.
    pub metadata: HashMap<String, String>,
}

/// Ghost image of a [`RequestContext`].
pub ghost struct RequestContextV {
    pub request_id: Seq<char>,
    pub provider_id: Seq<char>,
    pub model: Seq<char>,
    pub metadata: Map<String, String>,
}

impl DeepView for RequestContext {
    type V = RequestContextV;

    open spec fn deep_view(&self) -> RequestContextV {
        RequestContextV {
            request_id: self.request_id@,
            provider_id: self.provider_id@,
            model: self.model@,
            metadata: self.metadata@,
        }
    }
}

/// Relies on `uuid::Uuid::new_v4` and its `Display`: a freshly generated
/// random identifier in the hyphenated textual form. Nothing is promised of
/// the text: the identifier is random.
#[verifier::external_body]
fn fresh_request_id() -> String {
    uuid::Uuid::new_v4().to_string()
}

impl RequestContext {
    /// Create a new request context with a freshly generated request id and
    /// empty metadata.
    pub fn new(provider_id: String, model: String) -> (r: RequestContext)
        ensures
            r.deep_view().provider_id == provider_id@,
            r.deep_view().model == model@,
            r.deep_view().metadata == Map::<String, String>::empty(),
    {
        RequestContext {
            request_id: fresh_request_id(),
            provider_id,
            model,
            metadata: HashMap::new(),
        }
    }

    /// Replace the metadata map.
    pub fn with_metadata(self, metadata: HashMap<String, String>) -> (r: RequestContext)
        ensures
            r.deep_view() == (RequestContextV { metadata: metadata@, ..self.deep_view() }),
    {
        RequestContext { metadata, ..self }
    }
}

/// Response format directive for chat completions.
#[derive(Debug)]
pub enum ResponseFormat {
    /// Plain text response.
    Text,
    /// JSON object response: basic JSON mode, no schema validation.
    JsonObject,
    /// JSON schema response with strict or lenient schema validation.
    JsonSchema { name: String, schema: serde_json::Value, strict: bool },
}

/// Ghost image of a [`ResponseFormat`].
pub ghost enum ResponseFormatV {
    Text,
    JsonObject,
    JsonSchema { name: Seq<char>, schema: serde_json::Value, strict: bool },
}

impl DeepView for ResponseFormat {
    type V = ResponseFormatV;

    open spec fn deep_view(&self) -> ResponseFormatV {
        match self {
            ResponseFormat::Text => ResponseFormatV::Text,
            ResponseFormat::JsonObject => ResponseFormatV::JsonObject,
            ResponseFormat::JsonSchema { name, schema, strict } => ResponseFormatV::JsonSchema {
                name: name@,
                schema: *schema,
                strict: *strict,
            },
        }
    }
}

/// Chat completion request: the backend-agnostic wire-level shape handed to
/// a connector.
///
/// Fractional sampling knobs are in hundredths.
#[derive(Debug)]
pub struct ChatCompletionRequest {
    pub model: String,
    pub messages: Vec<Message>,
    pub temperature: Option<u32>,
    pub max_tokens: Option<u32>,
    pub top_p: Option<u32>,
    pub frequency_penalty: Option<i32>,
    pub presence_penalty: Option<i32>,
    pub stop: Option<Vec<String>>,
    pub tools: Option<Vec<Tool>>,
    pub response_format: Option<ResponseFormat>,
    pub stream: Option<bool>,
    /// Additional backend-specific parameters.
    pub extra: HashMap<String, serde_json::Value>,
}

/// Ghost image of a [`ChatCompletionRequest`].
pub ghost struct ChatCompletionRequestV {
    pub model: Seq<char>,
    pub messages: Seq<MessageV>,
    pub temperature: Option<u32>,
    pub max_tokens: Option<u32>,
    pub top_p: Option<u32>,
    pub frequency_penalty: Option<i32>,
    pub presence_penalty: Option<i32>,
    pub stop: Option<Seq<Seq<char>>>,
    pub tools: Option<Seq<ToolV>>,
    pub response_format: Option<ResponseFormatV>,
    pub stream: Option<bool>,
    pub extra: Map<String, serde_json::Value>,
}

impl DeepView for ChatCompletionRequest {
    type V = ChatCompletionRequestV;

    open spec fn deep_view(&self) -> ChatCompletionRequestV {
        ChatCompletionRequestV {
            model: self.model@,
            messages: self.messages.deep_view(),
            temperature: self.temperature,
            max_tokens: self.max_tokens,
            top_p: self.top_p,
            frequency_penalty: self.frequency_penalty,
            presence_penalty: self.presence_penalty,
            stop: self.stop.deep_view(),
            tools: self.tools.deep_view(),
            response_format: self.response_format.deep_view(),
            stream: self.stream,
            extra: self.extra@,
        }
    }
}

impl ChatCompletionRequest {
    /// Create a new chat completion request with every optional knob unset.
    pub fn new(model: String, messages: Vec<Message>) -> (r: ChatCompletionRequest)
        ensures
            r.deep_view() == (ChatCompletionRequestV {
                model: model@,
                messages: messages.deep_view(),
                temperature: None,
                max_tokens: None,
                top_p: None,
                frequency_penalty: None,
                presence_penalty: None,
                stop: None,
                tools: None,
                response_format: None,
                stream: None,
                extra: Map::empty(),
            }),
    {
        ChatCompletionRequest {
            model,
            messages,
            temperature: None,
            max_tokens: None,
            top_p: None,
            frequency_penalty: None,
            presence_penalty: None,
            stop: None,
            tools: None,
            response_format: None,
            stream: None,
            extra: HashMap::new(),
        }
    }

    /// Set temperature, in hundredths.
    pub fn with_temperature(self, temperature: u32) -> (r: ChatCompletionRequest)
        ensures
            r.deep_view() == (ChatCompletionRequestV {
                temperature: Some(temperature),
                ..self.deep_view()
            }),
    {
        ChatCompletionRequest { temperature: Some(temperature), ..self }
    }

    /// Set max tokens.
    pub fn with_max_tokens(self, max_tokens: u32) -> (r: ChatCompletionRequest)
        ensures
            r.deep_view() == (ChatCompletionRequestV {
                max_tokens: Some(max_tokens),
                ..self.deep_view()
            }),
    {
        ChatCompletionRequest { max_tokens: Some(max_tokens), ..self }
    }

    /// Set the response format directive.
    pub fn with_response_format(self, response_format: ResponseFormat) -> (r:
        ChatCompletionRequest)
        ensures
            r.deep_view() == (ChatCompletionRequestV {
                response_format: Some(response_format.deep_view()),
                ..self.deep_view()
            }),
    {
        ChatCompletionRequest { response_format: Some(response_format), ..self }
    }

    /// Set tools.
    pub fn with_tools(self, tools: Vec<Tool>) -> (r: ChatCompletionRequest)
        ensures
            r.deep_view() == (ChatCompletionRequestV {
                tools: Some(tools.deep_view()),
                ..self.deep_view()
            }),
    {
        ChatCompletionRequest { tools: Some(tools), ..self }
    }

    /// Set the streaming flag.
    pub fn with_stream(self, stream: bool) -> (r: ChatCompletionRequest)
        ensures
            r.deep_view() == (ChatCompletionRequestV { stream: Some(stream), ..self.deep_view() }),
    {
        ChatCompletionRequest { stream: Some(stream), ..self }
    }
}

/// Single choice in a chat completion response.
#[derive(Debug)]
pub struct Choice {
    pub index: u32,
    pub message: Message,
    pub finish_reason: FinishReason,
}

/// Ghost image of a [`Choice`].
pub ghost struct ChoiceV {
    pub index: u32,
    pub message: MessageV,
    pub finish_reason: FinishReasonV,
}

impl DeepView for Choice {
    type V = ChoiceV;

    open spec fn deep_view(&self) -> ChoiceV {
        ChoiceV {
            index: self.index,
            message: self.message.deep_view(),
            finish_reason: self.finish_reason.deep_view(),
        }
    }
}

/// Chat completion response.
#[derive(Debug)]
pub struct ChatCompletionResponse {
    pub id: String,
    pub model: String,
    pub choices: Vec<Choice>,
    pub usage: Usage,
    pub created: Option<u64>,
}

/// Ghost image of a [`ChatCompletionResponse`].
pub ghost struct ChatCompletionResponseV {
    pub id: Seq<char>,
    pub model: Seq<char>,
    pub choices: Seq<ChoiceV>,
    pub usage: Usage,
    pub created: Option<u64>,
}

impl DeepView for ChatCompletionResponse {
    type V = ChatCompletionResponseV;

    open spec fn deep_view(&self) -> ChatCompletionResponseV {
        ChatCompletionResponseV {
            id: self.id@,
            model: self.model@,
            choices: self.choices.deep_view(),
            usage: self.usage,
            created: self.created,
        }
    }
}

/// Chat completion streaming chunk.
#[derive(Debug)]
pub struct ChatCompletionChunk {
    pub id: String,
    pub model: String,
    pub choices: Vec<ChoiceDelta>,
    pub usage: Option<Usage>,
}

/// Ghost image of a [`ChatCompletionChunk`].
pub ghost struct ChatCompletionChunkV {
    pub id: Seq<char>,
    pub model: Seq<char>,
    pub choices: Seq<ChoiceDeltaV>,
    pub usage: Option<Usage>,
}

impl DeepView for ChatCompletionChunk {
    type V = ChatCompletionChunkV;

    open spec fn deep_view(&self) -> ChatCompletionChunkV {
        ChatCompletionChunkV {
            id: self.id@,
            model: self.model@,
            choices: self.choices.deep_view(),
            usage: self.usage,
        }
    }
}

/// Delta choice in a streaming response.
#[derive(Debug)]
pub struct ChoiceDelta {
    pub index: u32,
    pub delta: MessageDelta,
    pub finish_reason: Option<FinishReason>,
}

/// Ghost image of a [`ChoiceDelta`].
pub ghost struct ChoiceDeltaV {
    pub index: u32,
    pub delta: MessageDeltaV,
    pub finish_reason: Option<FinishReasonV>,
}

impl DeepView for ChoiceDelta {
    type V = ChoiceDeltaV;

    open spec fn deep_view(&self) -> ChoiceDeltaV {
        ChoiceDeltaV {
            index: self.index,
            delta: self.delta.deep_view(),
            finish_reason: self.finish_reason.deep_view(),
        }
    }
}

/// Message delta for streaming.
#[derive(Debug)]
pub struct MessageDelta {
    pub role: Option<Role>,
    pub content: Option<String>,
    pub tool_calls: Option<Vec<ContentPart>>,
}

/// Ghost image of a [`MessageDelta`].
pub ghost struct MessageDeltaV {
    pub role: Option<Role>,
    pub content: Option<Seq<char>>,
    pub tool_calls: Option<Seq<ContentPartV>>,
}

impl DeepView for MessageDelta {
    type V = MessageDeltaV;

    open spec fn deep_view(&self) -> MessageDeltaV {
        MessageDeltaV {
            role: self.role,
            content: self.content.deep_view(),
            tool_calls: self.tool_calls.deep_view(),
        }
    }
}

} // verus!
