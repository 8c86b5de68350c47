//! Typed interaction envelopes for an agent platform: the request/response
//! pairs exchanged with agents and tools, the routing metadata and usage
//! accounting that travel with them, and the declaration schema for callable
//! functions.

pub mod codec;
pub mod envelope;
pub mod function;
pub mod ids;
pub mod json;
pub mod raw;
pub mod resource;
pub mod usage;

pub use envelope::{AgentInput, AgentOutput, RequestMeta, ToolCall, ToolInput, ToolOutput};
pub use function::{Function, FunctionDefinition};
pub use ids::{Principal, ThreadId};
pub use resource::Resource;
pub use usage::Usage;

use vstd::prelude::*;

verus! {

use vstd::string::StringSliceAdditionalSpecFns;

/// Estimates the number of tokens in `content` in the simplest way:
/// one token for every three bytes, rounded down.
pub fn evaluate_tokens(content: &str) -> (r: usize)
    ensures
        r == (content.spec_bytes().len() as usize) / 3,
{
    content.len() / 3
}

} // verus!
