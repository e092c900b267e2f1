//! Logging layer: records one line before and one after each connector
//! call, and otherwise forwards everything unchanged.
//!
//! What a line holds and where it goes is the sink's business; this layer
//! only fixes the hook points and the data handed over: the prefix, the
//! model and message count before the call, and the outcome after it. The
//! wrapped connector's results and errors pass through exactly.

use vstd::prelude::*;

use crate::error::AiError;
use crate::layer::Layer;
use crate::provider::Provider;
use crate::types::{
    dv_res, ChatCompletionRequest, ChatCompletionRequestV, ChatCompletionResponse,
    ChatCompletionResponseV, ProviderInfo, ProviderInfoV,
};

verus! {

/// Where the logging layer's lines go. Implementations may measure time
/// between the request line and the response line.
pub trait LogSink: Sized {
    /// Record the pre-call line: prefix, model and message count of the
    /// outgoing request.
    fn request_line(&self, prefix: &str, model: &str, message_count: usize);

    /// Record the post-call line for a one-shot completion: the response
    /// id and total token usage on success, the error on failure.
    fn response_line(&self, prefix: &str, outcome: &Result<ChatCompletionResponse, AiError>);

    /// Record the post-call line for a stream open: success or failure.
    fn stream_line(&self, prefix: &str, ok: bool, error: Option<&AiError>);
}

/// Logging layer configuration: a line prefix and the sink lines go to.
#[derive(Debug)]
pub struct LoggingLayer<S: LogSink> {
    /// Prefix of every recorded line.
    pub prefix: String,
    /// The sink lines go to.
    pub sink: S,
}

impl<S: LogSink + Clone> Clone for LoggingLayer<S> {
    /// Cloning keeps the prefix.
    fn clone(&self) -> (r: Self)
        ensures
            r.prefix == self.prefix,
    {
        LoggingLayer { prefix: self.prefix.clone(), sink: self.sink.clone() }
    }
}

impl<S: LogSink> LoggingLayer<S> {
    /// Create a new logging layer with the default prefix.
    pub fn new(sink: S) -> (r: LoggingLayer<S>)
        ensures
            r.prefix@ == "[AI Core]"@,
    {
        LoggingLayer { prefix: String::from_str("[AI Core]"), sink }
    }

    /// Create a logging layer with a custom prefix.
    pub fn with_prefix(sink: S, prefix: String) -> (r: LoggingLayer<S>)
        ensures
            r.prefix == prefix,
    {
        LoggingLayer { prefix, sink }
    }
}

impl<P: Provider, S: LogSink + Clone> Layer<P> for LoggingLayer<S> {
    type Layered = LoggingProvider<P, S>;

    /// The produced provider owns the wrapped connector and records lines
    /// under this layer's prefix.
    open spec fn wraps(&self, inner: P, r: Self::Layered) -> bool {
        r.inner() == inner && r.s_prefix() == self.prefix@
    }

    /// Wrap the connector: the provider keeps this layer's prefix and
    /// sink.
    fn layer(&self, inner: P) -> (r: Self::Layered)
        ensures
            self.wraps(inner, r),
    {
        LoggingProvider { inner, prefix: self.prefix.clone(), sink: self.sink.clone() }
    }
}

/// Connector wrapped with logging.
#[derive(Debug)]
pub struct LoggingProvider<P: Provider, S: LogSink> {
    inner: P,
    prefix: String,
    sink: S,
}

impl<P: Provider, S: LogSink> LoggingProvider<P, S> {
    /// Wrap a connector, recording a line around every call.
    pub fn new(inner: P, prefix: String, sink: S) -> (r: LoggingProvider<P, S>)
        ensures
            r.inner() == inner,
            r.s_prefix() == prefix@,
    {
        LoggingProvider { inner, prefix, sink }
    }

    /// The wrapped connector.
    pub closed spec fn inner(&self) -> P {
        self.inner
    }

    /// The prefix of every recorded line.
    pub closed spec fn s_prefix(&self) -> Seq<char> {
        self.prefix@
    }
}

impl<P: Provider, S: LogSink> Provider for LoggingProvider<P, S> {
    type Stream = P::Stream;

    /// The identity of the wrapped connector, unchanged.
    open spec fn s_info(&self) -> ProviderInfoV {
        self.inner().s_info()
    }

    /// Logging intercepts nothing: every outcome is exactly an outcome of
    /// the inner connector and satisfies its guarantee.
    open spec fn completion_post(
        &self,
        req: ChatCompletionRequestV,
        r: Result<ChatCompletionResponseV, crate::error::AiErrorV>,
    ) -> bool {
        self.inner().completion_post(req, r)
    }

    /// A stream-open outcome satisfies the inner connector's guarantee.
    open spec fn stream_post(
        &self,
        req: ChatCompletionRequestV,
        r: &Result<Self::Stream, AiError>,
    ) -> bool {
        self.inner().stream_post(req, r)
    }

    fn info(&self) -> (r: ProviderInfo)
        ensures
            r.deep_view() == self.s_info(),
    {
        self.inner.info()
    }

    fn chat_completion(&self, req: &ChatCompletionRequest) -> (r: Result<
        ChatCompletionResponse,
        AiError,
    >)
        ensures
            self.completion_post(req.deep_view(), dv_res(r)),
    {
        self.sink.request_line(self.prefix.as_str(), req.model.as_str(), req.messages.len());
        let result = self.inner.chat_completion(req);
        self.sink.response_line(self.prefix.as_str(), &result);
        result
    }

    fn stream_chat_completion(&self, req: &ChatCompletionRequest) -> (r: Result<
        Self::Stream,
        AiError,
    >)
        ensures
            self.stream_post(req.deep_view(), &r),
    {
        self.sink.request_line(self.prefix.as_str(), req.model.as_str(), req.messages.len());
        let result = self.inner.stream_chat_completion(req);
        match &result {
            Ok(_) => self.sink.stream_line(self.prefix.as_str(), true, None),
            Err(e) => self.sink.stream_line(self.prefix.as_str(), false, Some(e)),
        }
        result
    }
}

} // verus!
