//! Request orchestrator: the top-level façade that drives plugins, the
//! output strategy and the connector.
//!
//! `generate_text` runs the full plugin pipeline: model resolution,
//! parameter transforms and start notifications before the connector call;
//! result extraction, result transforms and end notifications after it; on
//! a connector failure the error hooks fire best-effort and the original
//! error propagates unchanged. `generate_object` deliberately bypasses the
//! plugin pipeline: the request goes straight through the selected output
//! strategy to the connector, and the answer is parsed as JSON. That
//! asymmetry is kept as it stands.
//!
//! The contracts of both operations are existential over what genuinely
//! varies — the connector's outcome, and for text generation also the
//! fresh request id — and exact in everything else.

use vstd::prelude::*;
use std::collections::HashMap;

use crate::error::{AiError, AiErrorV};
use crate::json::{parse_value, parsed_json};
use crate::layer::Layer;
use crate::plugin::{
    chain_params, chain_result, first_end_failure, first_resolved, first_start_failure,
    phase_ordered, Plugin, PluginEngine,
};
use crate::provider::Provider;
use crate::json::pretty_text;
use crate::strategy::{
    detect_json_strategy, instruction_text, mode_applied, schema_applied, schema_capable,
    JsonModeStrategy, JsonSchemaStrategy, OutputStrategy,
};
use crate::types::{
    dv_res, ChatCompletionRequest, ChatCompletionRequestV, ChatCompletionResponse,
    ChatCompletionResponseV, ContentPartV, ObjectParams, ObjectParamsV, ObjectResult,
    ObjectResultV, ProviderInfo, RequestContext, RequestContextV, ResponseFormat,
    ResponseFormatV, TextParams, TextParamsV, TextResult, TextResultV,
};

verus! {

/// The chat completion request that `generate_text` sends: the resolved
/// model and the transformed parameters, with streaming forced off and a
/// plain text response format.
pub open spec fn text_request_of(model: Seq<char>, p: TextParamsV) -> ChatCompletionRequestV {
    ChatCompletionRequestV {
        model,
        messages: p.messages,
        temperature: p.temperature,
        max_tokens: p.max_tokens,
        top_p: p.top_p,
        frequency_penalty: p.frequency_penalty,
        presence_penalty: p.presence_penalty,
        stop: p.stop,
        tools: p.tools,
        response_format: Some(ResponseFormatV::Text),
        stream: Some(false),
        extra: p.extra,
    }
}

/// The chat completion request that `generate_object` builds before the
/// output strategy is applied: no response format yet, streaming forced
/// off, and only the knobs object generation carries.
pub open spec fn object_request_of(model: Seq<char>, p: ObjectParamsV) -> ChatCompletionRequestV {
    ChatCompletionRequestV {
        model,
        messages: p.messages,
        temperature: p.temperature,
        max_tokens: p.max_tokens,
        top_p: None,
        frequency_penalty: None,
        presence_penalty: None,
        stop: None,
        tools: None,
        response_format: None,
        stream: Some(false),
        extra: Map::empty(),
    }
}

/// The concatenated text of the textual parts, in order; other part kinds
/// contribute nothing.
pub open spec fn text_of_parts(content: Seq<ContentPartV>) -> Seq<char>
    decreases content.len(),
{
    if content.len() == 0 {
        Seq::empty()
    } else {
        text_of_parts(content.drop_last()) + match content.last() {
            ContentPartV::Text { text } => text,
            _ => Seq::empty(),
        }
    }
}

/// The text of the first choice: an error when the response carries no
/// choice at all.
pub open spec fn first_choice_text_of(resp: ChatCompletionResponseV) -> Result<
    Seq<char>,
    AiErrorV,
> {
    if resp.choices.len() == 0 {
        Err(AiErrorV::Provider("No choices in response"@))
    } else {
        Ok(text_of_parts(resp.choices.first().message.content))
    }
}

/// What `generate_text` makes of a successful connector response before
/// the result transforms run: the first choice's concatenated text, its
/// finish reason, and the response's usage and model. A response without
/// choices is a hard error.
pub open spec fn extracted_result(resp: ChatCompletionResponseV) -> Result<
    TextResultV,
    AiErrorV,
> {
    match first_choice_text_of(resp) {
        Err(e) => Err(e),
        Ok(content) => Ok(
            TextResultV {
                content,
                finish_reason: resp.choices.first().finish_reason,
                usage: resp.usage,
                model: resp.model,
                tool_calls: None,
            },
        ),
    }
}

/// The whole text-generation pipeline over ghost images, given the
/// context and the connector's outcome: hooks before the call, extraction
/// and hooks after it, each failure aborting exactly where it occurs, and
/// a connector failure propagating unchanged.
pub open spec fn text_pipeline<Pl: Plugin>(
    plugins: Seq<Pl>,
    params: TextParamsV,
    ctx: RequestContextV,
    outcome: Result<ChatCompletionResponseV, AiErrorV>,
) -> Result<TextResultV, AiErrorV> {
    match first_resolved(plugins, ctx.model, ctx) {
        Err(e) => Err(e),
        Ok(resolved) => match chain_params(plugins, params, ctx) {
            Err(e) => Err(e),
            Ok(tp) => match first_start_failure(plugins, ctx) {
                Some(e) => Err(e),
                None => match outcome {
                    Err(e) => Err(e),
                    Ok(resp) => match extracted_result(resp) {
                        Err(e) => Err(e),
                        Ok(r0) => match chain_result(plugins, r0, ctx) {
                            Err(e) => Err(e),
                            Ok(r1) => match first_end_failure(plugins, ctx, r1) {
                                Some(e) => Err(e),
                                None => Ok(r1),
                            },
                        },
                    },
                },
            },
        },
    }
}

/// Law: with no plugins the pipeline is exactly extraction. A connector
/// failure passes through unchanged, and a successful response yields the
/// extracted first-choice result.
pub proof fn lemma_text_pipeline_no_plugins<Pl: Plugin>(
    params: TextParamsV,
    ctx: RequestContextV,
    outcome: Result<ChatCompletionResponseV, AiErrorV>,
)
    ensures
        text_pipeline(Seq::<Pl>::empty(), params, ctx, outcome) == (match outcome {
            Err(e) => Err(e),
            Ok(resp) => extracted_result(resp),
        }),
{
}

/// The request `generate_text` hands the connector, when the hooks before
/// the call all succeed.
pub open spec fn text_pipeline_request<Pl: Plugin>(
    plugins: Seq<Pl>,
    params: TextParamsV,
    ctx: RequestContextV,
) -> Option<ChatCompletionRequestV> {
    match first_resolved(plugins, ctx.model, ctx) {
        Err(e) => None,
        Ok(resolved) => match chain_params(plugins, params, ctx) {
            Err(e) => None,
            Ok(tp) => match first_start_failure(plugins, ctx) {
                Some(e) => None,
                None => Some(text_request_of(resolved, tp)),
            },
        },
    }
}

/// What the chosen strategy turns the base request into: the schema
/// strategy sets the schema descriptor; the JSON-mode strategy sets
/// JSON-object mode and injects the instruction embedding exactly the
/// pretty-printing of the schema.
pub open spec fn strategy_applied(
    strategy: OutputStrategy,
    req0: ChatCompletionRequestV,
    schema: serde_json::Value,
) -> ChatCompletionRequestV {
    match strategy {
        OutputStrategy::Schema(s) => schema_applied(req0, schema, s.strict),
        OutputStrategy::Mode(m) => mode_applied(
            req0,
            instruction_text(pretty_text(schema)),
            m.use_system_message,
        ),
    }
}

/// What `generate_object` makes of the connector's outcome: a connector
/// failure propagates unchanged; a response without choices is a hard
/// error; the first choice's text is parsed as JSON, a rejection being a
/// serialization error; on success the result carries exactly the parsed
/// value, with the response's usage and model.
pub open spec fn object_outcome_post(
    outcome: Result<ChatCompletionResponseV, AiErrorV>,
    r: Result<ObjectResultV, AiErrorV>,
) -> bool {
    match outcome {
        Err(e) => r == Err::<ObjectResultV, AiErrorV>(e),
        Ok(resp) => match first_choice_text_of(resp) {
            Err(e) => r == Err::<ObjectResultV, AiErrorV>(e),
            Ok(content) => match parsed_json(content) {
                Some(v) => r matches Ok(o) && o.object == v && o.usage == resp.usage
                    && o.model == resp.model,
                None => r matches Err(e) && e is Serialization,
            },
        },
    }
}

/// Extract the text of the first choice: the concatenation of its textual
/// parts, or an error when the response has no choice.
pub fn first_choice_text(response: &ChatCompletionResponse) -> (r: Result<String, AiError>)
    ensures
        dv_res(r) == first_choice_text_of(response.deep_view()),
{
    if response.choices.len() == 0 {
        return Err(AiError::Provider(String::from_str("No choices in response")));
    }
    let parts = &response.choices[0].message.content;
    let ghost all = parts.deep_view();
    let mut content = String::new();
    let n = parts.len();
    let mut i: usize = 0;
    proof {
        assert(all.take(0) =~= Seq::<ContentPartV>::empty());
        assert(response.deep_view().choices.first() == response.choices@[0].deep_view());
    }
    while i < n
        invariant
            0 <= i <= n,
            n == all.len(),
            all == parts.deep_view(),
            content@ == text_of_parts(all.take(i as int)),
        decreases n - i,
    {
        proof {
            assert(all.take(i + 1).drop_last() =~= all.take(i as int));
            assert(all.take(i + 1).last() == all[i as int]);
        }
        match &parts[i] {
            crate::types::ContentPart::Text { text } => {
                content.append(text.as_str());
            },
            _ => {},
        }
        i += 1;
    }
    proof {
        assert(all.take(n as int) =~= all);
    }
    Ok(content)
}

/// Turn a successful connector response into the pre-transform text
/// result, exactly as [`extracted_result`] states.
pub fn extract_text_result(response: &ChatCompletionResponse) -> (r: Result<TextResult, AiError>)
    ensures
        dv_res(r) == extracted_result(response.deep_view()),
{
    let content = match first_choice_text(response) {
        Ok(c) => c,
        Err(e) => {
            return Err(e);
        },
    };
    proof {
        assert(response.deep_view().choices.first() == response.choices@[0].deep_view());
    }
    Ok(
        TextResult {
            content,
            finish_reason: response.choices[0].finish_reason.clone(),
            usage: response.usage,
            model: response.model.clone(),
            tool_calls: None,
        },
    )
}

/// Builder assembling the orchestrator: a base connector, layers applied
/// in attachment order, plugins collected unordered, and an optional
/// explicit output strategy.
#[derive(Debug)]
pub struct RuntimeExecutorBuilder<P: Provider, Pl: Plugin> {
    /// The connector assembled so far, innermost layers first.
    pub provider: P,
    /// Plugins in registration order; sorted once at `finish`.
    pub plugins: Vec<Pl>,
    /// The explicit output strategy, if one was set.
    pub json_strategy: Option<OutputStrategy>,
}

impl<P: Provider, Pl: Plugin> RuntimeExecutorBuilder<P, Pl> {
    /// Start building from a base connector.
    pub fn new(provider: P) -> (r: RuntimeExecutorBuilder<P, Pl>)
        ensures
            r.provider == provider,
            r.plugins@ == Seq::<Pl>::empty(),
            r.json_strategy is None,
    {
        RuntimeExecutorBuilder { provider, plugins: Vec::new(), json_strategy: None }
    }

    /// Wrap the connector assembled so far with one more layer; the layer
    /// attached last becomes the outermost wrapper.
    pub fn layer<L: Layer<P>>(self, layer: L) -> (r: RuntimeExecutorBuilder<L::Layered, Pl>)
        ensures
            layer.wraps(self.provider, r.provider),
            r.plugins@ == self.plugins@,
            r.json_strategy == self.json_strategy,
    {
        RuntimeExecutorBuilder {
            provider: layer.layer(self.provider),
            plugins: self.plugins,
            json_strategy: self.json_strategy,
        }
    }

    /// Register a plugin.
    pub fn plugin(self, plugin: Pl) -> (r: RuntimeExecutorBuilder<P, Pl>)
        ensures
            r.provider == self.provider,
            r.plugins@ == self.plugins@.push(plugin),
            r.json_strategy == self.json_strategy,
    {
        let mut plugins = self.plugins;
        plugins.push(plugin);
        RuntimeExecutorBuilder { provider: self.provider, plugins, json_strategy: self.json_strategy }
    }

    /// Set an explicit JSON output strategy; without one, the strategy is
    /// auto-detected from the finished connector's backend id.
    pub fn json_strategy(self, strategy: OutputStrategy) -> (r: RuntimeExecutorBuilder<P, Pl>)
        ensures
            r.provider == self.provider,
            r.plugins@ == self.plugins@,
            r.json_strategy == Some(strategy),
    {
        RuntimeExecutorBuilder {
            provider: self.provider,
            plugins: self.plugins,
            json_strategy: Some(strategy),
        }
    }

    /// Finish building: sort the plugins by phase and fix the output
    /// strategy, auto-detected from the backend id when none was set.
    pub fn finish(self) -> (r: RuntimeExecutor<P, Pl>)
        ensures
            r.s_provider() == self.provider,
            r.s_plugins() == phase_ordered(self.plugins@),
            match self.json_strategy {
                Some(s) => r.s_strategy() == s,
                None => r.s_strategy() == (if schema_capable(self.provider.s_info().id) {
                    OutputStrategy::Schema(JsonSchemaStrategy { strict: true })
                } else {
                    OutputStrategy::Mode(JsonModeStrategy { use_system_message: true })
                }),
            },
    {
        let json_strategy = match self.json_strategy {
            Some(s) => s,
            None => {
                let info = self.provider.info();
                detect_json_strategy(info.id.as_str())
            },
        };
        RuntimeExecutor {
            provider: self.provider,
            plugin_engine: PluginEngine::new(self.plugins),
            json_strategy,
        }
    }
}

/// The top-level request executor: connector chain, plugin engine and
/// output strategy, immutable once built and shared across calls.
#[derive(Debug)]
pub struct RuntimeExecutor<P: Provider, Pl: Plugin> {
    provider: P,
    plugin_engine: PluginEngine<Pl>,
    json_strategy: OutputStrategy,
}

impl<P: Provider, Pl: Plugin> RuntimeExecutor<P, Pl> {
    /// The connector the executor drives.
    pub closed spec fn s_provider(&self) -> P {
        self.provider
    }

    /// The phase-sorted plugins.
    pub closed spec fn s_plugins(&self) -> Seq<Pl> {
        self.plugin_engine@
    }

    /// The selected output strategy.
    pub closed spec fn s_strategy(&self) -> OutputStrategy {
        self.json_strategy
    }

    /// Start a builder from a base connector.
    pub fn builder(provider: P) -> (r: RuntimeExecutorBuilder<P, Pl>)
        ensures
            r.provider == provider,
            r.plugins@ == Seq::<Pl>::empty(),
            r.json_strategy is None,
    {
        RuntimeExecutorBuilder::new(provider)
    }

    /// The backend identity of the finished connector chain.
    pub fn info(&self) -> (r: ProviderInfo)
        ensures
            r.deep_view() == self.s_provider().s_info(),
    {
        self.provider.info()
    }

    /// The plugin engine.
    pub fn plugin_engine(&self) -> (r: &PluginEngine<Pl>)
        ensures
            r@ == self.s_plugins(),
    {
        &self.plugin_engine
    }

    /// Generate free-form text: the full plugin pipeline around one
    /// connector call.
    ///
    /// The contract is existential over the fresh request context and the
    /// connector's outcome, and exact in everything else: the result is
    /// the pipeline of the sorted plugins over the given parameters, for a
    /// context carrying this backend's id, the requested model and empty
    /// metadata; and whenever the pre-call hooks succeed, the outcome is
    /// one the connector guarantees for exactly the request built from the
    /// resolved model and transformed parameters.
    pub fn generate_text(&self, model: String, params: TextParams) -> (r: Result<
        TextResult,
        AiError,
    >)
        ensures
            exists|ctx: RequestContextV, outcome: Result<ChatCompletionResponseV, AiErrorV>|
                {
                    &&& ctx.provider_id == self.s_provider().s_info().id
                    &&& ctx.model == model@
                    &&& ctx.metadata == Map::<String, String>::empty()
                    &&& dv_res(r) == text_pipeline(self.s_plugins(), params.deep_view(), ctx, outcome)
                    &&& match text_pipeline_request(self.s_plugins(), params.deep_view(), ctx) {
                        Some(req) => self.s_provider().completion_post(req, outcome),
                        None => true,
                    }
                },
    {
        let provider_info = self.provider.info();
        let ctx = RequestContext::new(provider_info.id, model.clone());
        let ghost gctx = ctx.deep_view();
        let ghost plugins = self.s_plugins();
        let ghost p0 = params.deep_view();

        let resolved_model = match self.plugin_engine.resolve_model(model.as_str(), &ctx) {
            Ok(m) => m,
            Err(e) => {
                proof {
                    let witness_outcome = Err::<ChatCompletionResponseV, AiErrorV>(
                        AiErrorV::Other(Seq::empty()),
                    );
                    assert(dv_res(Err::<TextResult, AiError>(e)) == text_pipeline(
                        plugins,
                        p0,
                        gctx,
                        witness_outcome,
                    ));
                }
                return Err(e);
            },
        };
        let transformed = match self.plugin_engine.transform_params(params, &ctx) {
            Ok(p) => p,
            Err(e) => {
                proof {
                    let witness_outcome = Err::<ChatCompletionResponseV, AiErrorV>(
                        AiErrorV::Other(Seq::empty()),
                    );
                    assert(dv_res(Err::<TextResult, AiError>(e)) == text_pipeline(
                        plugins,
                        p0,
                        gctx,
                        witness_outcome,
                    ));
                }
                return Err(e);
            },
        };
        match self.plugin_engine.on_request_start(&ctx) {
            Ok(_) => {},
            Err(e) => {
                proof {
                    let witness_outcome = Err::<ChatCompletionResponseV, AiErrorV>(
                        AiErrorV::Other(Seq::empty()),
                    );
                    assert(dv_res(Err::<TextResult, AiError>(e)) == text_pipeline(
                        plugins,
                        p0,
                        gctx,
                        witness_outcome,
                    ));
                }
                return Err(e);
            },
        }

        let ghost rm = resolved_model@;
        let ghost tp_dv = transformed.deep_view();
        let chat_req = ChatCompletionRequest {
            model: resolved_model,
            messages: transformed.messages,
            temperature: transformed.temperature,
            max_tokens: transformed.max_tokens,
            top_p: transformed.top_p,
            frequency_penalty: transformed.frequency_penalty,
            presence_penalty: transformed.presence_penalty,
            stop: transformed.stop,
            tools: transformed.tools,
            response_format: Some(ResponseFormat::Text),
            stream: Some(false),
            extra: transformed.extra,
        };
        proof {
            assert(chat_req.deep_view() == text_request_of(rm, tp_dv));
            assert(text_pipeline_request(plugins, p0, gctx) == Some(text_request_of(rm, tp_dv)));
        }
        let result = self.provider.chat_completion(&chat_req);
        let ghost goutcome = dv_res(result);

        match result {
            Ok(response) => {
                let r0 = match extract_text_result(&response) {
                    Ok(x) => x,
                    Err(e) => {
                        proof {
                            assert(dv_res(Err::<TextResult, AiError>(e)) == text_pipeline(
                                plugins,
                                p0,
                                gctx,
                                goutcome,
                            ));
                        }
                        return Err(e);
                    },
                };
                let r1 = match self.plugin_engine.transform_result(r0, &ctx) {
                    Ok(x) => x,
                    Err(e) => {
                        proof {
                            assert(dv_res(Err::<TextResult, AiError>(e)) == text_pipeline(
                                plugins,
                                p0,
                                gctx,
                                goutcome,
                            ));
                        }
                        return Err(e);
                    },
                };
                match self.plugin_engine.on_request_end(&ctx, &r1) {
                    Ok(_) => {
                        proof {
                            assert(dv_res(Ok::<TextResult, AiError>(r1)) == text_pipeline(
                                plugins,
                                p0,
                                gctx,
                                goutcome,
                            ));
                        }
                        Ok(r1)
                    },
                    Err(e) => {
                        proof {
                            assert(dv_res(Err::<TextResult, AiError>(e)) == text_pipeline(
                                plugins,
                                p0,
                                gctx,
                                goutcome,
                            ));
                        }
                        Err(e)
                    },
                }
            },
            Err(err) => {
                let _ = self.plugin_engine.on_error(&err, &ctx);
                proof {
                    assert(dv_res(Err::<TextResult, AiError>(err)) == text_pipeline(
                        plugins,
                        p0,
                        gctx,
                        goutcome,
                    ));
                }
                Err(err)
            },
        }
    }

    /// Generate a schema-constrained object: the request goes through the
    /// selected output strategy to the connector, bypassing the plugin
    /// pipeline, and the first choice's text is parsed as JSON.
    ///
    /// The contract is existential over the connector's outcome alone: the
    /// outcome is one the connector guarantees for exactly the request the
    /// strategy produced from the base request, and the result relates to
    /// the outcome as [`object_outcome_post`] states — in particular, on a
    /// parseable answer the returned object is exactly the parsed value.
    pub fn generate_object(&self, model: String, params: ObjectParams) -> (r: Result<
        ObjectResult,
        AiError,
    >)
        ensures
            exists|outcome: Result<ChatCompletionResponseV, AiErrorV>|
                {
                    &&& self.s_provider().completion_post(
                        strategy_applied(
                            self.s_strategy(),
                            object_request_of(model@, params.deep_view()),
                            params.deep_view().schema,
                        ),
                        outcome,
                    )
                    &&& object_outcome_post(outcome, dv_res(r))
                },
    {
        let ghost base = object_request_of(model@, params.deep_view());
        let ghost schema_v = params.deep_view().schema;
        let mut chat_req = ChatCompletionRequest {
            model,
            messages: params.messages,
            temperature: params.temperature,
            max_tokens: params.max_tokens,
            top_p: None,
            frequency_penalty: None,
            presence_penalty: None,
            stop: None,
            tools: None,
            response_format: None,
            stream: Some(false),
            extra: HashMap::new(),
        };
        proof {
            assert(chat_req.deep_view() == base);
        }
        self.json_strategy.apply(&mut chat_req, &params.schema)?;
        proof {
            assert(chat_req.deep_view() == strategy_applied(self.s_strategy(), base, schema_v));
        }

        let result = self.provider.chat_completion(&chat_req);
        let ghost goutcome = dv_res(result);
        proof {
            assert(self.s_provider().completion_post(
                strategy_applied(self.s_strategy(), base, schema_v),
                goutcome,
            ));
        }
        let response = match result {
            Ok(resp) => resp,
            Err(e) => {
                proof {
                    assert(object_outcome_post(goutcome, dv_res(Err::<ObjectResult, AiError>(e))));
                }
                return Err(e);
            },
        };

        let content = match first_choice_text(&response) {
            Ok(c) => c,
            Err(e) => {
                proof {
                    assert(object_outcome_post(goutcome, dv_res(Err::<ObjectResult, AiError>(e))));
                }
                return Err(e);
            },
        };
        let object = match parse_value(content.as_str()) {
            Ok(v) => v,
            Err(e) => {
                proof {
                    assert(object_outcome_post(goutcome, dv_res(Err::<ObjectResult, AiError>(e))));
                }
                return Err(e);
            },
        };
        let out = ObjectResult { object, usage: response.usage, model: response.model };
        proof {
            assert(object_outcome_post(goutcome, dv_res(Ok::<ObjectResult, AiError>(out))));
        }
        Ok(out)
    }
}

} // verus!
