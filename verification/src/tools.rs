//! Tool-use plugin: offers registered tool definitions to the model.
//!
//! The registry keeps the tool definitions the runtime may offer; running
//! a tool is outside work that the surrounding application performs with
//! whatever executors it pairs the names with. The plugin adds the
//! registered definitions to every request's parameters in the `Pre`
//! phase, and passes results through unchanged.

use vstd::prelude::*;

use crate::error::{AiError, AiErrorV};
use crate::plugin::{Plugin, PluginPhase};
use crate::types::{
    dv_res, Message, MessageV, RequestContext, RequestContextV, TextChunk, TextChunkV,
    TextParams, TextParamsV, TextResult, TextResultV, Tool, ToolV,
};

verus! {

/// Registry of tool definitions, in registration order; registering a
/// tool under an already-registered name replaces that definition.
#[derive(Debug)]
pub struct ToolRegistry {
    tools: Vec<Tool>,
}

impl View for ToolRegistry {
    type V = Seq<ToolV>;

    closed spec fn view(&self) -> Seq<ToolV> {
        self.tools.deep_view()
    }
}

/// Index of the definition registered under `name`, or a negative value.
pub open spec fn tool_index(tools: Seq<ToolV>, name: Seq<char>) -> int
    decreases tools.len(),
{
    if tools.len() == 0 {
        -1
    } else if tools.last().name == name {
        tools.len() - 1
    } else {
        tool_index(tools.drop_last(), name)
    }
}

impl ToolRegistry {
    /// Create an empty registry.
    pub fn new() -> (r: ToolRegistry)
        ensures
            r@ == Seq::<ToolV>::empty(),
    {
        ToolRegistry { tools: Vec::new() }
    }

    /// Register a tool definition: appended under a new name, replacing
    /// the old definition under an existing one.
    #[verifier::loop_isolation(false)]
    pub fn register(&mut self, tool: Tool)
        ensures
            final(self)@ == (if tool_index(old(self)@, tool.deep_view().name) >= 0 {
                old(self)@.update(tool_index(old(self)@, tool.deep_view().name), tool.deep_view())
            } else {
                old(self)@.push(tool.deep_view())
            }),
    {
        let ghost all = self@;
        let mut i: usize = self.tools.len();
        proof {
            assert(all.take(self.tools@.len() as int) =~= all);
        }
        while i > 0
            invariant
                0 <= i <= self.tools@.len(),
                all == self.tools.deep_view(),
                tool_index(all, tool.deep_view().name) == tool_index(
                    all.take(i as int),
                    tool.deep_view().name,
                ),
            decreases i,
        {
            proof {
                assert(all.take(i as int).last() == all[i as int - 1]);
                assert(all.take(i as int).drop_last() =~= all.take(i as int - 1));
            }
            let same = {
                let a = &self.tools[i - 1].name;
                let b = &tool.name;
                *a == *b
            };
            if same {
                self.tools.set(i - 1, tool);
                proof {
                    assert(self.tools.deep_view() =~= all.update(
                        i as int - 1,
                        tool.deep_view(),
                    ));
                }
                return ;
            }
            i -= 1;
        }
        proof {
            assert(all.take(0) =~= Seq::<ToolV>::empty());
        }
        self.tools.push(tool);
        proof {
            assert(self.tools.deep_view() =~= all.push(tool.deep_view()));
        }
    }

    /// All registered definitions, in order.
    pub fn definitions(&self) -> (r: Vec<Tool>)
        ensures
            r.deep_view() == self@,
    {
        let mut out: Vec<Tool> = Vec::new();
        let mut i: usize = 0;
        while i < self.tools.len()
            invariant
                0 <= i <= self.tools@.len(),
                out@.len() == i as int,
                forall|j: int|
                    0 <= j < i ==> #[trigger] out@[j].deep_view() == self.tools@[j].deep_view(),
            decreases self.tools@.len() - i,
        {
            out.push(self.tools[i].clone());
            i += 1;
        }
        proof {
            assert(out.deep_view() =~= self.tools.deep_view());
        }
        out
    }

    /// How many definitions are registered.
    pub fn len(&self) -> (r: usize)
        ensures
            r == self@.len(),
    {
        self.tools.len()
    }
}

/// Tool-use plugin configuration.
#[derive(Debug, Clone, Copy, PartialEq, Eq, Structural)]
pub struct ToolUsePluginConfig {
    /// Whether tool calls in a result are executed automatically.
    pub auto_execute: bool,
    /// Maximum number of tool execution rounds.
    pub max_rounds: usize,
}

impl Default for ToolUsePluginConfig {
    /// By default tool calls are executed automatically, up to three
    /// rounds.
    fn default() -> (r: ToolUsePluginConfig)
        ensures
            r == (ToolUsePluginConfig { auto_execute: true, max_rounds: 3 }),
    {
        ToolUsePluginConfig { auto_execute: true, max_rounds: 3 }
    }
}

/// Plugin that offers the registry's definitions to the model: a `Pre`
/// phase plugin whose parameter transform adds the registered tools, and
/// whose other hooks pass through.
#[derive(Debug)]
pub struct ToolUsePlugin {
    registry: ToolRegistry,
    config: ToolUsePluginConfig,
}

impl ToolUsePlugin {
    /// Create a new tool-use plugin over a registry.
    pub fn new(registry: ToolRegistry) -> (r: ToolUsePlugin)
        ensures
            r.s_tools() == registry@,
            r.s_config() == (ToolUsePluginConfig { auto_execute: true, max_rounds: 3 }),
    {
        ToolUsePlugin { registry, config: ToolUsePluginConfig::default() }
    }

    /// Create a tool-use plugin with a custom configuration.
    pub fn with_config(registry: ToolRegistry, config: ToolUsePluginConfig) -> (r: ToolUsePlugin)
        ensures
            r.s_tools() == registry@,
            r.s_config() == config,
    {
        ToolUsePlugin { registry, config }
    }

    /// The registered tool definitions.
    pub closed spec fn s_tools(&self) -> Seq<ToolV> {
        self.registry@
    }

    /// The plugin configuration.
    pub closed spec fn s_config(&self) -> ToolUsePluginConfig {
        self.config
    }
}

impl Plugin for ToolUsePlugin {
    open spec fn s_name(&self) -> Seq<char> {
        "tool_use"@
    }

    open spec fn s_phase(&self) -> PluginPhase {
        PluginPhase::Pre
    }

    open spec fn s_resolve_model(&self, model_id: Seq<char>, ctx: RequestContextV) -> Result<
        Option<Seq<char>>,
        AiErrorV,
    > {
        Ok(None)
    }

    open spec fn s_load_template(&self, template_name: Seq<char>, ctx: RequestContextV) -> Result<
        Option<Seq<MessageV>>,
        AiErrorV,
    > {
        Ok(None)
    }

    /// Adds the registered definitions when there are any.
    open spec fn s_transform_params(&self, params: TextParamsV, ctx: RequestContextV) -> Result<
        TextParamsV,
        AiErrorV,
    > {
        if self.s_tools().len() == 0 {
            Ok(params)
        } else {
            Ok(TextParamsV { tools: Some(self.s_tools()), ..params })
        }
    }

    /// Results pass through unchanged; executing requested tool calls is
    /// the application's work.
    open spec fn s_transform_result(&self, result: TextResultV, ctx: RequestContextV) -> Result<
        TextResultV,
        AiErrorV,
    > {
        Ok(result)
    }

    open spec fn s_on_request_start(&self, ctx: RequestContextV) -> Option<AiErrorV> {
        None
    }

    open spec fn s_on_request_end(&self, ctx: RequestContextV, result: TextResultV) -> Option<
        AiErrorV,
    > {
        None
    }

    open spec fn s_on_error(&self, error: AiErrorV, ctx: RequestContextV) -> Option<AiErrorV> {
        None
    }

    open spec fn s_transform_chunks(&self, chunks: Seq<TextChunkV>) -> Seq<TextChunkV> {
        chunks
    }

    fn name(&self) -> (r: String)
        ensures
            r@ == self.s_name(),
    {
        String::from_str("tool_use")
    }

    fn enforce(&self) -> (r: PluginPhase)
        ensures
            r == self.s_phase(),
    {
        PluginPhase::Pre
    }

    fn resolve_model(&self, model_id: &str, ctx: &RequestContext) -> (r: Result<
        Option<String>,
        AiError,
    >)
        ensures
            dv_res(r) == self.s_resolve_model(model_id@, ctx.deep_view()),
    {
        Ok(None)
    }

    fn load_template(&self, template_name: &str, ctx: &RequestContext) -> (r: Result<
        Option<Vec<Message>>,
        AiError,
    >)
        ensures
            dv_res(r) == self.s_load_template(template_name@, ctx.deep_view()),
    {
        Ok(None)
    }

    fn transform_params(&self, params: TextParams, ctx: &RequestContext) -> (r: Result<
        TextParams,
        AiError,
    >)
        ensures
            dv_res(r) == self.s_transform_params(params.deep_view(), ctx.deep_view()),
    {
        let tools = self.registry.definitions();
        if tools.len() == 0 {
            Ok(params)
        } else {
            let mut params = params;
            params.tools = Some(tools);
            Ok(params)
        }
    }

    fn transform_result(&self, result: TextResult, ctx: &RequestContext) -> (r: Result<
        TextResult,
        AiError,
    >)
        ensures
            dv_res(r) == self.s_transform_result(result.deep_view(), ctx.deep_view()),
    {
        Ok(result)
    }

    fn on_request_start(&self, ctx: &RequestContext) -> (r: Result<(), AiError>)
        ensures
            match r {
                Ok(_) => self.s_on_request_start(ctx.deep_view()) is None,
                Err(e) => self.s_on_request_start(ctx.deep_view()) == Some(e.deep_view()),
            },
    {
        Ok(())
    }

    fn on_request_end(&self, ctx: &RequestContext, result: &TextResult) -> (r: Result<
        (),
        AiError,
    >)
        ensures
            match r {
                Ok(_) => self.s_on_request_end(ctx.deep_view(), result.deep_view()) is None,
                Err(e) => self.s_on_request_end(ctx.deep_view(), result.deep_view()) == Some(
                    e.deep_view(),
                ),
            },
    {
        Ok(())
    }

    fn on_error(&self, error: &AiError, ctx: &RequestContext) -> (r: Result<(), AiError>)
        ensures
            match r {
                Ok(_) => self.s_on_error(error.deep_view(), ctx.deep_view()) is None,
                Err(e) => self.s_on_error(error.deep_view(), ctx.deep_view()) == Some(
                    e.deep_view(),
                ),
            },
    {
        Ok(())
    }

    fn transform_chunks(&self, chunks: Vec<TextChunk>) -> (r: Vec<TextChunk>)
        ensures
            r.deep_view() == self.s_transform_chunks(chunks.deep_view()),
    {
        chunks
    }
}

} // verus!
