//! Strategies for requesting structured JSON output from a backend.
//!
//! Backends differ in how structured output is requested: some accept a
//! strict JSON-schema response format, others only a generic JSON-object
//! mode combined with a schema instruction injected into the prompt. One
//! strategy is selected per backend when the orchestrator is built, either
//! explicitly or from the backend id.

use vstd::prelude::*;

use crate::error::AiError;
use crate::json::{pretty_text, to_pretty_string};
use crate::types::{
    text_message, ChatCompletionRequest, ChatCompletionRequestV, ContentPart, ContentPartV,
    Message, MessageV, ResponseFormat, ResponseFormatV, Role,
};

verus! {

/// Compare two string slices by their character sequences.
fn str_eq(a: &str, b: &str) -> (r: bool)
    ensures
        r == (a@ == b@),
{
    let sa = String::from_str(a);
    let sb = String::from_str(b);
    sa == sb
}

/// What a request becomes under the schema strategy: the response format is
/// set to a JSON-schema descriptor named "response" carrying the caller's
/// schema verbatim; nothing else changes.
pub open spec fn schema_applied(
    req: ChatCompletionRequestV,
    schema: serde_json::Value,
    strict: bool,
) -> ChatCompletionRequestV {
    ChatCompletionRequestV {
        response_format: Some(
            ResponseFormatV::JsonSchema { name: "response"@, schema, strict },
        ),
        ..req
    }
}

/// JSON-schema strategy for backends that support strict JSON schemas.
#[derive(Debug, Clone, Copy, PartialEq, Eq, Structural)]
pub struct JsonSchemaStrategy {
    /// Whether to ask the backend for strict schema validation.
    pub strict: bool,
}

impl JsonSchemaStrategy {
    /// Create a new JSON-schema strategy with strict mode enabled.
    pub fn new() -> (r: JsonSchemaStrategy)
        ensures
            r == (JsonSchemaStrategy { strict: true }),
    {
        JsonSchemaStrategy { strict: true }
    }

    /// Create a new JSON-schema strategy with configurable strict mode.
    pub fn with_strict(strict: bool) -> (r: JsonSchemaStrategy)
        ensures
            r == (JsonSchemaStrategy { strict }),
    {
        JsonSchemaStrategy { strict }
    }

    /// Strategy name.
    pub fn name(&self) -> (r: &str)
        ensures
            r@ == "JsonSchemaStrategy"@,
    {
        "JsonSchemaStrategy"
    }

    /// Apply the strategy: set the request's response format to a strict or
    /// lenient JSON-schema descriptor carrying the caller's schema verbatim.
    pub fn apply(&self, req: &mut ChatCompletionRequest, schema: &serde_json::Value) -> (r:
        Result<(), AiError>)
        ensures
            r is Ok,
            final(req).deep_view() == schema_applied(
                old(req).deep_view(),
                *schema,
                self.strict,
            ),
    {
        req.response_format = Some(
            ResponseFormat::JsonSchema {
                name: String::from_str("response"),
                schema: crate::json::clone_value(schema),
                strict: self.strict,
            },
        );
        Ok(())
    }
}

impl Default for JsonSchemaStrategy {
    /// The default schema strategy has strict mode enabled.
    fn default() -> (r: JsonSchemaStrategy)
        ensures
            r == (JsonSchemaStrategy { strict: true }),
    {
        JsonSchemaStrategy::new()
    }
}

/// The instruction text injected by the JSON-mode strategy, given the
/// pretty-printed schema.
pub open spec fn instruction_text(pretty: Seq<char>) -> Seq<char> {
    "You must respond with valid JSON that matches this schema:\n```json\n"@ + pretty
        + "\n```\n\nIMPORTANT:\n1. Only return the JSON object, nothing else\n2. Ensure all required fields are present\n3. Follow the schema structure exactly\n4. Use the correct data types for each field"@
}

/// Index of the most recent user message, or a negative value if there is
/// none.
pub open spec fn last_user_index(msgs: Seq<MessageV>) -> int
    decreases msgs.len(),
{
    if msgs.len() == 0 {
        -1
    } else if msgs.last().role == Role::User {
        msgs.len() - 1
    } else {
        last_user_index(msgs.drop_last())
    }
}

/// What the message list becomes when the instruction is injected: a new
/// leading system message, or — with system placement off — the instruction
/// appended as a new text part of the most recent user message; when no
/// user message exists, a new user message holding only the instruction.
pub open spec fn injected_messages(
    msgs: Seq<MessageV>,
    instr: Seq<char>,
    use_system: bool,
) -> Seq<MessageV> {
    if use_system {
        seq![text_message(Role::System, instr)] + msgs
    } else {
        let i = last_user_index(msgs);
        if i >= 0 {
            msgs.update(
                i,
                MessageV {
                    content: msgs[i].content.push(
                        ContentPartV::Text { text: "\n\n"@ + instr },
                    ),
                    ..msgs[i]
                },
            )
        } else {
            msgs.push(text_message(Role::User, instr))
        }
    }
}

/// What a request becomes under the JSON-mode strategy: response format set
/// to the generic JSON-object mode, and the instruction injected into the
/// messages; nothing else changes.
pub open spec fn mode_applied(
    req: ChatCompletionRequestV,
    instr: Seq<char>,
    use_system: bool,
) -> ChatCompletionRequestV {
    ChatCompletionRequestV {
        response_format: Some(ResponseFormatV::JsonObject),
        messages: injected_messages(req.messages, instr, use_system),
        ..req
    }
}

/// JSON-mode strategy for backends that only support basic JSON-object
/// output: the schema is injected into the prompt instead.
#[derive(Debug, Clone, Copy, PartialEq, Eq, Structural)]
pub struct JsonModeStrategy {
    /// Whether to inject the schema as a leading system message (true) or
    /// append it to the most recent user message (false).
    pub use_system_message: bool,
}

impl JsonModeStrategy {
    /// Create a new JSON-mode strategy that uses system messages.
    pub fn new() -> (r: JsonModeStrategy)
        ensures
            r == (JsonModeStrategy { use_system_message: true }),
    {
        JsonModeStrategy { use_system_message: true }
    }

    /// Create a new JSON-mode strategy with configurable message injection.
    pub fn with_system_message(use_system_message: bool) -> (r: JsonModeStrategy)
        ensures
            r == (JsonModeStrategy { use_system_message }),
    {
        JsonModeStrategy { use_system_message }
    }

    /// Strategy name.
    pub fn name(&self) -> (r: &str)
        ensures
            r@ == "JsonModeStrategy"@,
    {
        "JsonModeStrategy"
    }

    /// Build the instruction embedding the pretty-printed schema.
    fn build_json_instruction(schema: &serde_json::Value) -> (r: Result<String, AiError>)
        ensures
            r matches Ok(s) && s@ == instruction_text(pretty_text(*schema)),
    {
        let pretty = to_pretty_string(schema)?;
        let mut s = String::from_str(
            "You must respond with valid JSON that matches this schema:\n```json\n",
        );
        s.append(pretty.as_str());
        s.append(
            "\n```\n\nIMPORTANT:\n1. Only return the JSON object, nothing else\n2. Ensure all required fields are present\n3. Follow the schema structure exactly\n4. Use the correct data types for each field",
        );
        proof {
            assert(s@ == instruction_text(pretty@));
        }
        Ok(s)
    }

    /// Apply the strategy: set the response format to the generic
    /// JSON-object mode and inject into the messages the instruction
    /// embedding exactly the pretty-printing of the schema.
    pub fn apply(&self, req: &mut ChatCompletionRequest, schema: &serde_json::Value) -> (r:
        Result<(), AiError>)
        ensures
            r is Ok,
            final(req).deep_view() == mode_applied(
                old(req).deep_view(),
                instruction_text(pretty_text(*schema)),
                self.use_system_message,
            ),
    {
        req.response_format = Some(ResponseFormat::JsonObject);
        let instruction = Self::build_json_instruction(schema)?;
        inject_instruction(req, instruction, self.use_system_message);
        Ok(())
    }
}

impl Default for JsonModeStrategy {
    /// The default JSON-mode strategy injects a system message.
    fn default() -> (r: JsonModeStrategy)
        ensures
            r == (JsonModeStrategy { use_system_message: true }),
    {
        JsonModeStrategy::new()
    }
}

/// Inject the instruction into the request's messages as
/// [`injected_messages`] states.
fn inject_instruction(req: &mut ChatCompletionRequest, instruction: String, use_system: bool)
    ensures
        final(req).deep_view() == (ChatCompletionRequestV {
            messages: injected_messages(
                old(req).deep_view().messages,
                instruction@,
                use_system,
            ),
            ..old(req).deep_view()
        }),
{
    let ghost msgs0 = req.messages.deep_view();
    if use_system {
        let system_msg = Message {
            role: Role::System,
            content: vec![ContentPart::Text { text: instruction }],
            name: None,
        };
        proof {
            assert(system_msg.deep_view().content =~= text_message(
                Role::System,
                instruction@,
            ).content);
        }
        req.messages.insert(0, system_msg);
        proof {
            assert(req.messages.deep_view() =~= injected_messages(msgs0, instruction@, true));
        }
    } else {
        match find_last_user(&req.messages) {
            Some(idx) => {
                let mut appended = String::from_str("\n\n");
                appended.append(instruction.as_str());
                let mut msg = req.messages.remove(idx);
                msg.content.push(ContentPart::Text { text: appended });
                req.messages.insert(idx, msg);
                proof {
                    let target = MessageV {
                        content: msgs0[idx as int].content.push(
                            ContentPartV::Text { text: "\n\n"@ + instruction@ },
                        ),
                        ..msgs0[idx as int]
                    };
                    assert(msg.content.deep_view() =~= target.content);
                    assert(msg.deep_view() == target);
                    assert(req.messages.deep_view() =~= injected_messages(
                        msgs0,
                        instruction@,
                        false,
                    ));
                }
            },
            None => {
                let user_msg = Message {
                    role: Role::User,
                    content: vec![ContentPart::Text { text: instruction }],
                    name: None,
                };
                proof {
                    assert(user_msg.deep_view().content =~= text_message(
                        Role::User,
                        instruction@,
                    ).content);
                }
                req.messages.push(user_msg);
                proof {
                    assert(req.messages.deep_view() =~= injected_messages(
                        msgs0,
                        instruction@,
                        false,
                    ));
                }
            },
        }
    }
}

/// Find the index of the most recent user message, if any.
fn find_last_user(msgs: &Vec<Message>) -> (r: Option<usize>)
    ensures
        match r {
            Some(i) => i < msgs@.len() && i as int == last_user_index(msgs.deep_view()),
            None => last_user_index(msgs.deep_view()) < 0,
        },
{
    let ghost all = msgs.deep_view();
    let mut i: usize = msgs.len();
    proof {
        assert(all.take(msgs@.len() as int) =~= all);
    }
    while i > 0
        invariant
            0 <= i <= msgs@.len(),
            all == msgs.deep_view(),
            last_user_index(all) == last_user_index(all.take(i as int)),
        decreases i,
    {
        proof {
            assert(all.take(i as int).last() == all[i as int - 1]);
            assert(all.take(i as int).drop_last() =~= all.take(i as int - 1));
        }
        if matches!(msgs[i - 1].role, Role::User) {
            return Some(i - 1);
        }
        i -= 1;
    }
    proof {
        assert(all.take(0) =~= Seq::<MessageV>::empty());
    }
    None
}

/// Whether the backend id names a backend known to accept strict JSON
/// schemas.
pub open spec fn schema_capable(id: Seq<char>) -> bool {
    id == "openai"@ || id == "anthropic"@ || id == "azure"@
}

/// The strategy chosen for a backend: either the schema strategy or the
/// JSON-mode strategy.
#[derive(Debug, Clone, Copy, PartialEq, Eq, Structural)]
pub enum OutputStrategy {
    /// Request a strict JSON schema.
    Schema(JsonSchemaStrategy),
    /// Request generic JSON output and inject the schema into the prompt.
    Mode(JsonModeStrategy),
}

impl OutputStrategy {
    /// Strategy name.
    pub fn name(&self) -> (r: &str)
        ensures
            self is Schema ==> r@ == "JsonSchemaStrategy"@,
            self is Mode ==> r@ == "JsonModeStrategy"@,
    {
        match self {
            OutputStrategy::Schema(s) => s.name(),
            OutputStrategy::Mode(m) => m.name(),
        }
    }

    /// Apply the chosen strategy to the outgoing request: always succeeds,
    /// leaving the request exactly as the chosen strategy states.
    pub fn apply(&self, req: &mut ChatCompletionRequest, schema: &serde_json::Value) -> (r:
        Result<(), AiError>)
        ensures
            r is Ok,
            self matches OutputStrategy::Schema(s) ==> final(req).deep_view()
                == schema_applied(old(req).deep_view(), *schema, s.strict),
            self matches OutputStrategy::Mode(m) ==> final(req).deep_view() == mode_applied(
                old(req).deep_view(),
                instruction_text(pretty_text(*schema)),
                m.use_system_message,
            ),
    {
        match self {
            OutputStrategy::Schema(s) => s.apply(req, schema),
            OutputStrategy::Mode(m) => m.apply(req, schema),
        }
    }
}

/// Auto-detect the JSON output strategy for a backend id: ids known to be
/// schema-capable get the schema strategy; every other id — including every
/// unrecognized one — gets the conservative JSON-mode strategy.
pub fn detect_json_strategy(provider_id: &str) -> (r: OutputStrategy)
    ensures
        schema_capable(provider_id@) ==> r == OutputStrategy::Schema(
            JsonSchemaStrategy { strict: true },
        ),
        !schema_capable(provider_id@) ==> r == OutputStrategy::Mode(
            JsonModeStrategy { use_system_message: true },
        ),
{
    if str_eq(provider_id, "openai") || str_eq(provider_id, "anthropic") || str_eq(
        provider_id,
        "azure",
    ) {
        OutputStrategy::Schema(JsonSchemaStrategy::new())
    } else {
        OutputStrategy::Mode(JsonModeStrategy::new())
    }
}

} // verus!