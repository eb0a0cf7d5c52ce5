//! Chat templates: how a list of messages becomes one prompt string.

use vstd::prelude::*;
use vstd::string::*;

use crate::request::{role_label, role_wire_name, ChatMessage};
use crate::text::{seq_contains, str_contains};

verus! {

/// Lower-case form of a string, as Rust's Unicode case mapping gives it.
pub uninterp spec fn lower_of(s: Seq<char>) -> Seq<char>;

/// Relies on `str::to_lowercase`: the result depends on the characters alone.
#[verifier::external_body]
fn lowercase(s: &str) -> (r: String)
    ensures
        r@ == lower_of(s@),
{
    s.to_lowercase()
}

/// Renders a conversation into a prompt string.
pub trait ChatTemplate {
    spec fn rendered(&self, messages: Seq<ChatMessage>) -> Seq<char>;

    fn apply(&self, messages: &[ChatMessage]) -> (r: String)
        ensures
            r@ == self.rendered(messages@),
    ;
}

/// One message in the Llama 3 header format.
pub open spec fn llama3_turn(m: ChatMessage) -> Seq<char> {
    "<|start_header_id|>"@ + role_wire_name(m.role) + "<|end_header_id|>\n\n"@ + m.content@
        + "<|eot_id|>"@
}

/// All messages of `ms` in the Llama 3 header format, in order.
pub open spec fn llama3_turns(ms: Seq<ChatMessage>) -> Seq<char>
    decreases ms.len(),
{
    if ms.len() == 0 {
        Seq::empty()
    } else {
        llama3_turns(ms.drop_last()) + llama3_turn(ms.last())
    }
}

/// The full Llama 3 prompt: begin marker, turns, then an open assistant header.
pub open spec fn llama3_prompt(ms: Seq<ChatMessage>) -> Seq<char> {
    "<|begin_of_text|>"@ + llama3_turns(ms) + "<|start_header_id|>assistant<|end_header_id|>\n\n"@
}

/// One message as `Role: content`.
pub open spec fn simple_line(m: ChatMessage) -> Seq<char> {
    role_label(m.role) + ": "@ + m.content@
}

/// The `Role: content` lines of `ms`, separated by blank lines.
pub open spec fn simple_prompt(ms: Seq<ChatMessage>) -> Seq<char>
    decreases ms.len(),
{
    if ms.len() == 0 {
        Seq::empty()
    } else if ms.len() == 1 {
        simple_line(ms[0])
    } else {
        simple_prompt(ms.drop_last()) + "\n\n"@ + simple_line(ms.last())
    }
}

/// The Llama 3 header-based chat format.
pub struct Llama3Template;

/// The generic `Role: content` format.
pub struct SimpleChatTemplate;

impl ChatTemplate for Llama3Template {
    open spec fn rendered(&self, messages: Seq<ChatMessage>) -> Seq<char> {
        llama3_prompt(messages)
    }

    fn apply(&self, messages: &[ChatMessage]) -> (r: String) {
        let mut result = String::from_str("<|begin_of_text|>");
        let mut i: usize = 0;
        while i < messages.len()
            invariant
                i <= messages@.len(),
                result@ == "<|begin_of_text|>"@ + llama3_turns(messages@.subrange(0, i as int)),
            decreases messages@.len() - i,
        {
            let m = &messages[i];
            result.append("<|start_header_id|>");
            result.append(m.role.wire_name());
            result.append("<|end_header_id|>\n\n");
            result.append(m.content.as_str());
            result.append("<|eot_id|>");
            proof {
                let next = messages@.subrange(0, i + 1);
                assert(next.drop_last() =~= messages@.subrange(0, i as int));
                assert(next.last() == messages@[i as int]);
            }
            i = i + 1;
        }
        result.append("<|start_header_id|>assistant<|end_header_id|>\n\n");
        assert(messages@.subrange(0, messages@.len() as int) =~= messages@);
        result
    }
}

impl ChatTemplate for SimpleChatTemplate {
    open spec fn rendered(&self, messages: Seq<ChatMessage>) -> Seq<char> {
        simple_prompt(messages)
    }

    fn apply(&self, messages: &[ChatMessage]) -> (r: String) {
        messages_to_prompt(messages)
    }
}

/// Joins `Role: content` lines with blank lines between them.
pub fn messages_to_prompt(messages: &[ChatMessage]) -> (r: String)
    ensures
        r@ == simple_prompt(messages@),
{
    let mut result = String::new();
    let mut i: usize = 0;
    while i < messages.len()
        invariant
            i <= messages@.len(),
            result@ == simple_prompt(messages@.subrange(0, i as int)),
        decreases messages@.len() - i,
    {
        let m = &messages[i];
        if i > 0 {
            result.append("\n\n");
        }
        result.append(m.role.label());
        result.append(": ");
        result.append(m.content.as_str());
        proof {
            let next = messages@.subrange(0, i + 1);
            assert(next.drop_last() =~= messages@.subrange(0, i as int));
            assert(next.last() == messages@[i as int]);
            if i == 0 {
                assert(next[0] == messages@[0]);
                assert(result@ =~= simple_line(messages@[0]));
            }
        }
        i = i + 1;
    }
    assert(messages@.subrange(0, messages@.len() as int) =~= messages@);
    result
}

/// The template chosen for a model.
#[derive(Debug, Clone, Copy, PartialEq, Eq, Structural)]
pub enum ModelTemplate {
    Llama3,
    Simple,
}

impl ChatTemplate for ModelTemplate {
    open spec fn rendered(&self, messages: Seq<ChatMessage>) -> Seq<char> {
        match self {
            ModelTemplate::Llama3 => llama3_prompt(messages),
            ModelTemplate::Simple => simple_prompt(messages),
        }
    }

    fn apply(&self, messages: &[ChatMessage]) -> (r: String) {
        match self {
            ModelTemplate::Llama3 => Llama3Template.apply(messages),
            ModelTemplate::Simple => SimpleChatTemplate.apply(messages),
        }
    }
}

/// The template for a model whose lower-cased name is `lowered`: Llama 3
/// when the name mentions `llama`, the generic one otherwise.
pub open spec fn template_for(lowered: Seq<char>) -> ModelTemplate {
    if seq_contains(lowered, "llama"@) {
        ModelTemplate::Llama3
    } else {
        ModelTemplate::Simple
    }
}

/// Picks the template from an already lower-cased model name.
pub fn template_for_lowered(lowered: &str) -> (r: ModelTemplate)
    ensures
        r == template_for(lowered@),
{
    if str_contains(lowered, "llama") {
        ModelTemplate::Llama3
    } else {
        ModelTemplate::Simple
    }
}

/// Picks the chat template for a model name, ignoring case.
pub fn get_template_for_model(model_name: &str) -> (r: ModelTemplate)
    ensures
        r == template_for(lower_of(model_name@)),
{
    let lowered = lowercase(model_name);
    template_for_lowered(lowered.as_str())
}

} // verus!
