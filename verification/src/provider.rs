//! Connector contract: the abstract backend capability the runtime drives.
//!
//! The runtime consumes this trait and never implements it; concrete
//! connectors live with their wire-level code outside the verified core.
//! Each connector states its own guarantee about completion outcomes
//! through the `completion_post` and `stream_post` predicates: whatever a
//! call returns satisfies the connector's predicate, and every layer
//! forwards the inner connector's predicate unchanged.

use vstd::prelude::*;

use crate::error::{AiError, AiErrorV};
use crate::types::{
    dv_res, ChatCompletionRequest, ChatCompletionRequestV, ChatCompletionResponse,
    ChatCompletionResponseV, FinishReasonV, ProviderInfo, ProviderInfoV, TextChunk, TextChunkV,
    FinishReason, TextResponse, TextResponseV, TextResult, TextResultV, Usage,
};

verus! {

/// A backend capable of one-shot and streaming chat completion.
pub trait Provider: Sized {
    /// The handle a successfully opened stream is returned as.
    type Stream;

    /// Ghost image of the backend identity; stable over the connector's
    /// lifetime.
    spec fn s_info(&self) -> ProviderInfoV;

    /// What this connector guarantees of every one-shot completion
    /// outcome.
    spec fn completion_post(
        &self,
        req: ChatCompletionRequestV,
        r: Result<ChatCompletionResponseV, AiErrorV>,
    ) -> bool;

    /// What this connector guarantees of every stream-open outcome.
    spec fn stream_post(
        &self,
        req: ChatCompletionRequestV,
        r: &Result<Self::Stream, AiError>,
    ) -> bool;

    /// Backend identity: id and display name. Stable, cheap, no I/O.
    fn info(&self) -> (r: ProviderInfo)
        ensures
            r.deep_view() == self.s_info(),
    ;

    /// One-shot chat completion.
    fn chat_completion(&self, req: &ChatCompletionRequest) -> (r: Result<
        ChatCompletionResponse,
        AiError,
    >)
        ensures
            self.completion_post(req.deep_view(), dv_res(r)),
    ;

    /// Open a streaming chat completion.
    fn stream_chat_completion(&self, req: &ChatCompletionRequest) -> (r: Result<
        Self::Stream,
        AiError,
    >)
        ensures
            self.stream_post(req.deep_view(), &r),
    ;
}

/// The fold state of collecting a delivered stream: accumulated content,
/// and the latest finish reason and usage seen, if any.
pub ghost struct CollectStateV {
    pub content: Seq<char>,
    pub finish_reason: Option<FinishReasonV>,
    pub usage: Option<Usage>,
}

/// Folding the delivered chunks in order: content concatenates, the latest
/// present finish reason and usage win; a chunk error ends the stream with
/// that error.
pub open spec fn collect_fold(
    chunks: Seq<Result<TextChunkV, AiErrorV>>,
    state: CollectStateV,
) -> Result<CollectStateV, AiErrorV>
    decreases chunks.len(),
{
    if chunks.len() == 0 {
        Ok(state)
    } else {
        match chunks.first() {
            Err(e) => Err(e),
            Ok(c) => collect_fold(
                chunks.drop_first(),
                CollectStateV {
                    content: state.content + c.delta,
                    finish_reason: if c.finish_reason is Some {
                        c.finish_reason
                    } else {
                        state.finish_reason
                    },
                    usage: if c.usage is Some {
                        c.usage
                    } else {
                        state.usage
                    },
                },
            ),
        }
    }
}

/// What collecting a whole stream yields: the folded state turned into a
/// result, with `Stop` and zero usage standing in where the stream named
/// none.
pub open spec fn collected_stream(
    response: TextResponseV,
    chunks: Seq<Result<TextChunkV, AiErrorV>>,
) -> Result<TextResultV, AiErrorV> {
    match collect_fold(
        chunks,
        CollectStateV { content: Seq::empty(), finish_reason: None, usage: None },
    ) {
        Err(e) => Err(e),
        Ok(state) => Ok(
            TextResultV {
                content: state.content,
                finish_reason: match state.finish_reason {
                    Some(f) => f,
                    None => FinishReasonV::Stop,
                },
                usage: match state.usage {
                    Some(u) => u,
                    None => Usage { prompt_tokens: 0, completion_tokens: 0, total_tokens: 0 },
                },
                model: response.model,
                tool_calls: None,
            },
        ),
    }
}

/// Ghost image of a delivered chunk sequence.
pub open spec fn dv_chunk_results(s: Seq<Result<TextChunk, AiError>>) -> Seq<
    Result<TextChunkV, AiErrorV>,
> {
    Seq::new(s.len(), |i: int| dv_res(s[i]))
}

/// Collect a delivered text stream into one result: concatenate the
/// deltas, keep the last finish reason and usage, and end with the first
/// chunk error if one occurred.
#[verifier::loop_isolation(false)]
pub fn collect_text_stream(response: TextResponse, chunks: Vec<Result<TextChunk, AiError>>) -> (r:
    Result<TextResult, AiError>)
    ensures
        dv_res(r) == collected_stream(response.deep_view(), dv_chunk_results(chunks@)),
{
    let ghost all = dv_chunk_results(chunks@);
    let mut content = String::new();
    let mut finish_reason: Option<FinishReason> = None;
    let mut usage: Option<Usage> = None;
    let n = chunks.len();
    let mut i: usize = 0;
    proof {
        assert(all.skip(0) =~= all);
    }
    while i < n
        invariant
            0 <= i <= n,
            collect_fold(
                all,
                CollectStateV { content: Seq::empty(), finish_reason: None, usage: None },
            ) == collect_fold(
                all.skip(i as int),
                CollectStateV {
                    content: content@,
                    finish_reason: finish_reason.deep_view(),
                    usage,
                },
            ),
        decreases n - i,
    {
        proof {
            assert(all.skip(i as int).first() == all[i as int]);
            assert(all.skip(i as int).drop_first() =~= all.skip(i + 1));
        }
        match &chunks[i] {
            Err(e) => {
                return Err(e.clone());
            },
            Ok(chunk) => {
                content.append(chunk.delta.as_str());
                if let Some(reason) = &chunk.finish_reason {
                    finish_reason = Some(reason.clone());
                }
                if let Some(u) = &chunk.usage {
                    usage = Some(*u);
                }
            },
        }
        i += 1;
    }
    proof {
        assert(all.skip(n as int) =~= Seq::<Result<TextChunkV, AiErrorV>>::empty());
    }
    Ok(
        TextResult {
            content,
            finish_reason: match finish_reason {
                Some(f) => f,
                None => FinishReason::Stop,
            },
            usage: match usage {
                Some(u) => u,
                None => Usage { prompt_tokens: 0, completion_tokens: 0, total_tokens: 0 },
            },
            model: response.model,
            tool_calls: None,
        },
    )
}

} // verus!
