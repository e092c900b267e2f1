//! Composable runtime for calling large-language-model backends through a
//! uniform request/response contract.
//!
//! The crate is organised leaf to root: [`error`] and [`types`] hold the data
//! model, [`json`] holds the thin trusted boundary to `serde_json`,
//! [`provider`] defines the connector contract and [`layer`] the wrapper
//! contract around it, [`plugin`] holds the hook engine and [`tools`] its
//! built-in tool-use plugin, [`strategy`] the structured-output selection,
//! [`retry`] and [`logging`] the two built-in layers, and [`executor`] the
//! top-level request orchestrator.

pub mod error;
pub mod executor;
pub mod json;
pub mod layer;
pub mod logging;
pub mod plugin;
pub mod provider;
pub mod retry;
pub mod strategy;
pub mod tools;
pub mod types;

pub use error::AiError;
pub use executor::{RuntimeExecutor, RuntimeExecutorBuilder};
pub use layer::Layer;
pub use logging::{LogSink, LoggingLayer, LoggingProvider};
pub use plugin::{NoopPlugin, Plugin, PluginEngine, PluginPhase};
pub use provider::{collect_text_stream, Provider};
pub use retry::{Delay, RetryDecision, RetryLayer, RetryProvider};
pub use strategy::{
    detect_json_strategy, JsonModeStrategy, JsonSchemaStrategy, OutputStrategy,
};
pub use tools::{ToolRegistry, ToolUsePlugin, ToolUsePluginConfig};
pub use types::{
    ChatCompletionChunk, ChatCompletionRequest, ChatCompletionResponse, Choice, ChoiceDelta,
    ContentPart, FinishReason, Message, MessageDelta, ObjectParams, ObjectRequest,
    ObjectResponse, ObjectResult, ProviderInfo, RequestContext, ResponseFormat, Role, TextChunk,
    TextParams, TextRequest, TextResponse, TextResult, Tool, Usage,
};
