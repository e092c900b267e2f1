//! Tests for the retry layer: the backoff formula, the retryable
//! classification, and the retried call itself.

use std::cell::{Cell, RefCell};
use std::rc::Rc;

use aidale::error::AiError;
use aidale::executor::RuntimeExecutor;
use aidale::plugin::NoopPlugin;
use aidale::provider::Provider;
use aidale::retry::{Delay, RetryDecision, RetryLayer, RetryProvider};
use aidale::types::{
    ChatCompletionRequest, ChatCompletionResponse, Choice, ContentPart, FinishReason, Message,
    ProviderInfo, Role, TextParams, Usage,
};

/// A delay source that waits for nothing and records what it was asked.
#[derive(Clone)]
struct RecordingDelay {
    slept: Rc<RefCell<Vec<u64>>>,
}

impl Delay for RecordingDelay {
    fn sleep_ms(&self, ms: u64) {
        self.slept.borrow_mut().push(ms);
    }
}

fn layer(slept: &Rc<RefCell<Vec<u64>>>) -> RetryLayer<RecordingDelay> {
    RetryLayer::new(RecordingDelay { slept: Rc::clone(slept) })
}

/// A connector that fails a set number of times, then succeeds.
struct FlakyProvider {
    failures_left: Cell<u32>,
    calls: Rc<Cell<u32>>,
    error: fn(String) -> AiError,
}

impl Provider for FlakyProvider {
    type Stream = Vec<Result<aidale::types::ChatCompletionChunk, AiError>>;

    fn s_info(&self) -> aidale::types::ProviderInfoV {
        unreachable!()
    }

    fn completion_post(
        &self,
        _req: aidale::types::ChatCompletionRequestV,
        _r: Result<aidale::types::ChatCompletionResponseV, aidale::error::AiErrorV>,
    ) -> bool {
        unreachable!()
    }

    fn stream_post(
        &self,
        _req: aidale::types::ChatCompletionRequestV,
        _r: &Result<Self::Stream, AiError>,
    ) -> bool {
        unreachable!()
    }

    fn info(&self) -> ProviderInfo {
        ProviderInfo { id: "flaky".to_string(), name: "Flaky".to_string() }
    }

    fn chat_completion(
        &self,
        req: &ChatCompletionRequest,
    ) -> Result<ChatCompletionResponse, AiError> {
        self.calls.set(self.calls.get() + 1);
        if self.failures_left.get() > 0 {
            self.failures_left.set(self.failures_left.get() - 1);
            return Err((self.error)("transient".to_string()));
        }
        Ok(ChatCompletionResponse {
            id: "ok".to_string(),
            model: req.model.clone(),
            choices: vec![Choice {
                index: 0,
                message: Message {
                    role: Role::Assistant,
                    content: vec![ContentPart::Text { text: "recovered".to_string() }],
                    name: None,
                },
                finish_reason: FinishReason::Stop,
            }],
            usage: Usage { prompt_tokens: 1, completion_tokens: 1, total_tokens: 2 },
            created: None,
        })
    }

    fn stream_chat_completion(
        &self,
        _req: &ChatCompletionRequest,
    ) -> Result<Self::Stream, AiError> {
        Err(AiError::unsupported("no stream".to_string()))
    }
}

#[test]
fn retry_delays_double_and_cap() {
    let slept = Rc::new(RefCell::new(Vec::new()));
    let layer = layer(&slept);
    let expected: Vec<u64> = vec![100, 200, 400, 800, 1600, 3200, 6400, 10000, 10000];
    for (attempt, want) in expected.iter().enumerate() {
        assert_eq!(layer.calculate_delay(attempt as u32), *want);
    }
    // the cap first bites at the eighth delay: 100 * 2^7 = 12800 > 10000
    assert_eq!(layer.calculate_delay(6), 6400);
    assert_eq!(layer.calculate_delay(7), 10000);
}

#[test]
fn retry_decision_follows_classification_and_budget() {
    let slept = Rc::new(RefCell::new(Vec::new()));
    let layer = layer(&slept);
    let timeout = AiError::timeout("slow".to_string());
    assert!(matches!(
        layer.decide(&timeout, 0),
        RetryDecision::Retry { delay_ms: 100 }
    ));
    assert!(matches!(
        layer.decide(&timeout, 2),
        RetryDecision::Retry { delay_ms: 400 }
    ));
    assert!(matches!(layer.decide(&timeout, 3), RetryDecision::GiveUp));

    let invalid = AiError::invalid_request("bad".to_string());
    assert!(matches!(layer.decide(&invalid, 0), RetryDecision::GiveUp));
}

#[test]
fn retryable_classification_is_exactly_three_kinds() {
    assert!(AiError::Network("n".to_string()).is_retryable());
    assert!(AiError::timeout("t".to_string()).is_retryable());
    assert!(AiError::rate_limit("r".to_string()).is_retryable());

    assert!(!AiError::provider("p".to_string()).is_retryable());
    assert!(!AiError::Serialization("s".to_string()).is_retryable());
    assert!(!AiError::authentication("a".to_string()).is_retryable());
    assert!(!AiError::invalid_request("i".to_string()).is_retryable());
    assert!(!AiError::model_not_found("m".to_string()).is_retryable());
    assert!(!AiError::plugin("p".to_string(), "m".to_string()).is_retryable());
    assert!(!AiError::layer("l".to_string(), "m".to_string()).is_retryable());
    assert!(!AiError::configuration("c".to_string()).is_retryable());
    assert!(!AiError::stream("s".to_string()).is_retryable());
    assert!(!AiError::unsupported("u".to_string()).is_retryable());
    assert!(!AiError::other("o".to_string()).is_retryable());
}

#[test]
fn two_timeouts_then_success_records_two_delays() {
    let slept = Rc::new(RefCell::new(Vec::new()));
    let calls = Rc::new(Cell::new(0));
    let provider = FlakyProvider {
        failures_left: Cell::new(2),
        calls: Rc::clone(&calls),
        error: |m| AiError::Timeout(m),
    };
    let retry = RetryProvider::new(provider, layer(&slept).with_max_retries(3));

    let req = ChatCompletionRequest::new("m".to_string(), vec![]);
    let response = retry.chat_completion(&req).unwrap();
    assert_eq!(response.id, "ok");
    assert_eq!(*slept.borrow(), vec![100, 200]);
    assert_eq!(calls.get(), 3);
}

#[test]
fn non_retryable_error_is_returned_without_any_retry() {
    let slept = Rc::new(RefCell::new(Vec::new()));
    let calls = Rc::new(Cell::new(0));
    let provider = FlakyProvider {
        failures_left: Cell::new(2),
        calls: Rc::clone(&calls),
        error: |m| AiError::Authentication(m),
    };
    let retry = RetryProvider::new(provider, layer(&slept).with_max_retries(3));

    let req = ChatCompletionRequest::new("m".to_string(), vec![]);
    let err = {
        let r = retry.chat_completion(&req);
        r.unwrap_err()
    };
    assert!(matches!(err, AiError::Authentication(_)));
    assert!(slept.borrow().is_empty());
    assert_eq!(calls.get(), 1);
}

#[test]
fn budget_exhaustion_returns_the_last_error() {
    let slept = Rc::new(RefCell::new(Vec::new()));
    let provider = FlakyProvider {
        failures_left: Cell::new(10),
        calls: Rc::new(Cell::new(0)),
        error: |m| AiError::RateLimit(m),
    };
    let retry = RetryProvider::new(provider, layer(&slept).with_max_retries(2));

    let req = ChatCompletionRequest::new("m".to_string(), vec![]);
    let err = retry.chat_completion(&req).unwrap_err();
    assert!(matches!(err, AiError::RateLimit(_)));
    assert_eq!(*slept.borrow(), vec![100, 200]);
}

#[test]
fn retry_layer_builders_adjust_the_policy() {
    let slept = Rc::new(RefCell::new(Vec::new()));
    let layer = layer(&slept)
        .with_initial_delay(50)
        .with_max_delay(75)
        .with_backoff_multiplier(300);
    assert_eq!(layer.calculate_delay(0), 50);
    assert_eq!(layer.calculate_delay(1), 75);
    assert_eq!(layer.calculate_delay(2), 75);
}

#[test]
fn generate_text_through_the_retry_layer_recovers() {
    let slept = Rc::new(RefCell::new(Vec::new()));
    let provider = FlakyProvider {
        failures_left: Cell::new(2),
        calls: Rc::new(Cell::new(0)),
        error: |m| AiError::Timeout(m),
    };
    let executor = RuntimeExecutor::<FlakyProvider, NoopPlugin>::builder(provider)
        .layer(layer(&slept).with_max_retries(3))
        .finish();
    let result = executor
        .generate_text("m".to_string(), TextParams::new(vec![Message::user("q".to_string())]))
        .unwrap();
    assert_eq!(result.content, "recovered");
    assert_eq!(*slept.borrow(), vec![100, 200]);
}
