//! Error taxonomy for runtime operations.

use vstd::prelude::*;

verus! {

/// Ghost image of an [`AiError`]: the same variants over character
/// sequences, used by every contract that speaks about errors.
pub ghost enum AiErrorV {
    Provider(Seq<char>),
    Network(Seq<char>),
    Serialization(Seq<char>),
    Authentication(Seq<char>),
    RateLimit(Seq<char>),
    InvalidRequest(Seq<char>),
    ModelNotFound(Seq<char>),
    Timeout(Seq<char>),
    Plugin { plugin: Seq<char>, message: Seq<char> },
    Layer { layer: Seq<char>, message: Seq<char> },
    Configuration(Seq<char>),
    Stream(Seq<char>),
    Unsupported(Seq<char>),
    Other(Seq<char>),
}

/// The classified failure value every operation of the runtime reports.
///
/// Each variant carries the human-readable context for its stage; `Plugin`
/// and `Layer` additionally name the component that failed.
#[derive(Debug)]
pub enum AiError {
    /// Backend-specific failure.
    Provider(String),
    /// Network-level failure.
    Network(String),
    /// Serialization or deserialization failure.
    Serialization(String),
    /// Authentication failure.
    Authentication(String),
    /// Rate limit exceeded.
    RateLimit(String),
    /// Malformed or rejected request.
    InvalidRequest(String),
    /// Requested model does not exist.
    ModelNotFound(String),
    /// The request timed out.
    Timeout(String),
    /// A plugin hook failed.
    Plugin { plugin: String, message: String },
    /// A layer failed.
    Layer { layer: String, message: String },
    /// Invalid configuration.
    Configuration(String),
    /// Streaming failure.
    Stream(String),
    /// Operation not supported by this backend.
    Unsupported(String),
    /// Any other failure.
    Other(String),
}

impl DeepView for AiError {
    type V = AiErrorV;

    open spec fn deep_view(&self) -> AiErrorV {
        match self {
            AiError::Provider(m) => AiErrorV::Provider(m@),
            AiError::Network(m) => AiErrorV::Network(m@),
            AiError::Serialization(m) => AiErrorV::Serialization(m@),
            AiError::Authentication(m) => AiErrorV::Authentication(m@),
            AiError::RateLimit(m) => AiErrorV::RateLimit(m@),
            AiError::InvalidRequest(m) => AiErrorV::InvalidRequest(m@),
            AiError::ModelNotFound(m) => AiErrorV::ModelNotFound(m@),
            AiError::Timeout(m) => AiErrorV::Timeout(m@),
            AiError::Plugin { plugin, message } => AiErrorV::Plugin {
                plugin: plugin@,
                message: message@,
            },
            AiError::Layer { layer, message } => AiErrorV::Layer {
                layer: layer@,
                message: message@,
            },
            AiError::Configuration(m) => AiErrorV::Configuration(m@),
            AiError::Stream(m) => AiErrorV::Stream(m@),
            AiError::Unsupported(m) => AiErrorV::Unsupported(m@),
            AiError::Other(m) => AiErrorV::Other(m@),
        }
    }
}

/// Exactly the retryable kinds: network, timeout and rate-limit failures.
pub open spec fn retryable(e: AiErrorV) -> bool {
    match e {
        AiErrorV::Network(_) => true,
        AiErrorV::Timeout(_) => true,
        AiErrorV::RateLimit(_) => true,
        _ => false,
    }
}

impl Clone for AiError {
    /// Cloning preserves the ghost image of the error.
    fn clone(&self) -> (r: Self)
        ensures
            r.deep_view() == self.deep_view(),
    {
        match self {
            AiError::Provider(m) => AiError::Provider(m.clone()),
            AiError::Network(m) => AiError::Network(m.clone()),
            AiError::Serialization(m) => AiError::Serialization(m.clone()),
            AiError::Authentication(m) => AiError::Authentication(m.clone()),
            AiError::RateLimit(m) => AiError::RateLimit(m.clone()),
            AiError::InvalidRequest(m) => AiError::InvalidRequest(m.clone()),
            AiError::ModelNotFound(m) => AiError::ModelNotFound(m.clone()),
            AiError::Timeout(m) => AiError::Timeout(m.clone()),
            AiError::Plugin { plugin, message } => AiError::Plugin {
                plugin: plugin.clone(),
                message: message.clone(),
            },
            AiError::Layer { layer, message } => AiError::Layer {
                layer: layer.clone(),
                message: message.clone(),
            },
            AiError::Configuration(m) => AiError::Configuration(m.clone()),
            AiError::Stream(m) => AiError::Stream(m.clone()),
            AiError::Unsupported(m) => AiError::Unsupported(m.clone()),
            AiError::Other(m) => AiError::Other(m.clone()),
        }
    }
}

impl AiError {
    /// Create a provider error.
    pub fn provider(msg: String) -> (r: AiError)
        ensures
            r == AiError::Provider(msg),
    {
        AiError::Provider(msg)
    }

    /// Create an authentication error.
    pub fn authentication(msg: String) -> (r: AiError)
        ensures
            r == AiError::Authentication(msg),
    {
        AiError::Authentication(msg)
    }

    /// Create a rate limit error.
    pub fn rate_limit(msg: String) -> (r: AiError)
        ensures
            r == AiError::RateLimit(msg),
    {
        AiError::RateLimit(msg)
    }

    /// Create an invalid request error.
    pub fn invalid_request(msg: String) -> (r: AiError)
        ensures
            r == AiError::InvalidRequest(msg),
    {
        AiError::InvalidRequest(msg)
    }

    /// Create a model not found error.
    pub fn model_not_found(msg: String) -> (r: AiError)
        ensures
            r == AiError::ModelNotFound(msg),
    {
        AiError::ModelNotFound(msg)
    }

    /// Create a timeout error.
    pub fn timeout(msg: String) -> (r: AiError)
        ensures
            r == AiError::Timeout(msg),
    {
        AiError::Timeout(msg)
    }

    /// Create a plugin error naming the plugin that failed.
    pub fn plugin(plugin: String, message: String) -> (r: AiError)
        ensures
            r == (AiError::Plugin { plugin, message }),
    {
        AiError::Plugin { plugin, message }
    }

    /// Create a layer error naming the layer that failed.
    pub fn layer(layer: String, message: String) -> (r: AiError)
        ensures
            r == (AiError::Layer { layer, message }),
    {
        AiError::Layer { layer, message }
    }

    /// Create a configuration error.
    pub fn configuration(msg: String) -> (r: AiError)
        ensures
            r == AiError::Configuration(msg),
    {
        AiError::Configuration(msg)
    }

    /// Create a stream error.
    pub fn stream(msg: String) -> (r: AiError)
        ensures
            r == AiError::Stream(msg),
    {
        AiError::Stream(msg)
    }

    /// Create an unsupported operation error.
    pub fn unsupported(msg: String) -> (r: AiError)
        ensures
            r == AiError::Unsupported(msg),
    {
        AiError::Unsupported(msg)
    }

    /// Create a generic error.
    pub fn other(msg: String) -> (r: AiError)
        ensures
            r == AiError::Other(msg),
    {
        AiError::Other(msg)
    }

    /// Whether the retry layer may re-issue the failed call: true for
    /// exactly the network, timeout and rate-limit kinds.
    pub fn is_retryable(&self) -> (r: bool)
        ensures
            r == retryable(self.deep_view()),
    {
        match self {
            AiError::Network(_) => true,
            AiError::Timeout(_) => true,
            AiError::RateLimit(_) => true,
            _ => false,
        }
    }
}

} // verus!
