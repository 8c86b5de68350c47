//! The envelope types exchanged with agents and tools: request metadata,
//! agent input/output, tool input/output, and tool-call records.

use vstd::prelude::*;
use crate::ids::{Principal, ThreadId};
use crate::resource::Resource;
use crate::usage::{spec_zero_usage, Usage};

verus! {

/// Routing and identity context attached to an inbound request.
///
/// No field is validated on construction. An absent `thread` means
/// "allocate a new thread"; a present one means "append to that thread".
#[derive(Clone, Debug)]
pub struct RequestMeta {
    /// The target engine principal for the request.
    pub engine: Option<Principal>,

    /// The target thread for the request. If not provided, a new thread will
    /// be created.
    pub thread: Option<ThreadId>,

    /// A display label taken from the request context. It is not verified
    /// and must never be treated as an authenticated identity.
    pub user: Option<String>,
}

impl Default for RequestMeta {
    /// A metadata value with every field absent.
    fn default() -> (r: RequestMeta)
        ensures
            r.engine is None,
            r.thread is None,
            r.user is None,
    {
        RequestMeta { engine: None, thread: None, user: None }
    }
}

/// A request into an agent.
#[derive(Clone, Debug)]
pub struct AgentInput {
    /// Agent name; the empty string selects the default agent.
    pub name: String,

    /// Agent prompt or message.
    pub prompt: String,

    /// The resources to process by the agent.
    pub resources: Option<Vec<Resource>>,

    /// The metadata for the agent request.
    pub meta: Option<RequestMeta>,
}

impl AgentInput {
    /// Creates a new agent input with the given name and prompt; both
    /// optional fields are left absent.
    pub fn new(name: String, prompt: String) -> (r: AgentInput)
        ensures
            r.name == name,
            r.prompt == prompt,
            r.resources is None,
            r.meta is None,
    {
        AgentInput { name, prompt, resources: None, meta: None }
    }
}

/// One function invocation requested by the model, and its eventual result.
#[derive(Clone, Debug)]
pub struct ToolCall {
    /// Tool call id, unique within the enclosing output.
    pub id: String,

    /// Tool function name.
    pub name: String,

    /// Tool function arguments, as a serialized payload.
    pub args: String,

    /// The result of the tool call, filled in by the dispatching engine once
    /// execution completes; absent means "not yet resolved", never "failed".
    pub result: Option<serde_json::Value>,
}

impl ToolCall {
    /// Creates a freshly requested call: the result slot is empty until the
    /// dispatcher fills it.
    pub fn new(id: String, name: String, args: String) -> (r: ToolCall)
        ensures
            r.id == id,
            r.name == name,
            r.args == args,
            r.result is None,
    {
        ToolCall { id, name, args, result: None }
    }

    /// Fills the result slot, once: succeeds exactly when the slot is still
    /// empty, and never overwrites a result already set.
    pub fn set_result(&mut self, result: serde_json::Value) -> (ok: bool)
        ensures
            ok == (old(self).result is None),
            old(self).result is None ==> final(self).result == Some(result),
            old(self).result is Some ==> *final(self) == *old(self),
            final(self).id == old(self).id,
            final(self).name == old(self).name,
            final(self).args == old(self).args,
    {
        if self.result.is_none() {
            self.result = Some(result);
            true
        } else {
            false
        }
    }
}

/// True when no two calls in the sequence share an id.
pub open spec fn tool_call_ids_distinct(calls: Seq<ToolCall>) -> bool {
    forall|i: int, j: int|
        0 <= i < j < calls.len() ==> (#[trigger] calls[i]).id@ != (#[trigger] calls[j]).id@
}

/// A response from an agent.
#[derive(Clone, Debug)]
pub struct AgentOutput {
    /// The output content from the agent; may be empty.
    pub content: String,

    /// The usage statistics for the agent execution.
    pub usage: Usage,

    /// The unique identifier for the thread.
    pub thread: Option<ThreadId>,

    /// The failure reason if present; absent means the completion finished
    /// normally.
    pub failed_reason: Option<String>,

    /// Tool calls returned by the LLM function calling.
    pub tool_calls: Option<Vec<ToolCall>>,

    /// The full interaction history, visible to a direct caller of the
    /// completion layer but never forwarded by the engine to its own callers.
    pub full_history: Option<Vec<serde_json::Value>>,

    /// The resources generated by the agent execution.
    pub resources: Option<Vec<Resource>>,
}

impl Default for AgentOutput {
    /// An output with empty content, zero usage and every optional field
    /// absent.
    fn default() -> (r: AgentOutput)
        ensures
            r.content@ == Seq::<char>::empty(),
            r.usage == spec_zero_usage(),
            r.thread is None,
            r.failed_reason is None,
            r.tool_calls is None,
            r.full_history is None,
            r.resources is None,
            r.wf_tool_calls(),
    {
        AgentOutput {
            content: String::new(),
            usage: Usage { input_tokens: 0, output_tokens: 0, requests: 0 },
            thread: None,
            failed_reason: None,
            tool_calls: None,
            full_history: None,
            resources: None,
        }
    }
}

impl AgentOutput {
    /// True when the output signals an abnormal or failed completion.
    pub open spec fn spec_is_failed(self) -> bool {
        self.failed_reason is Some
    }

    /// True when the output may be read as a normal completion (a "stop" or
    /// tool-call termination).
    pub open spec fn spec_is_normal(self) -> bool {
        self.failed_reason is None
    }

    /// True when the output signals an abnormal or failed completion.
    pub fn is_failed(&self) -> (r: bool)
        ensures
            r == self.spec_is_failed(),
    {
        self.failed_reason.is_some()
    }

    /// True when every pair of calls in `tool_calls` carries distinct ids, so
    /// results completing in any order can be rejoined with their calls.
    pub open spec fn wf_tool_calls(self) -> bool {
        match self.tool_calls {
            Option::None => true,
            Option::Some(calls) => tool_call_ids_distinct(calls@),
        }
    }

    /// Appends resources produced during execution to the output's resource
    /// list, after any resources already there — never replacing them.
    pub fn append_resources(&mut self, more: Vec<Resource>)
        ensures
            final(self).resources matches Some(rs) && rs@ == spec_resources_or_empty(
                old(self).resources,
            ) + more@,
            final(self).content == old(self).content,
            final(self).usage == old(self).usage,
            final(self).thread == old(self).thread,
            final(self).failed_reason == old(self).failed_reason,
            final(self).tool_calls == old(self).tool_calls,
            final(self).full_history == old(self).full_history,
    {
        let mut cur = match self.resources.take() {
            Some(v) => v,
            None => Vec::new(),
        };
        let mut more = more;
        cur.append(&mut more);
        self.resources = Some(cur);
    }

    /// Appends a requested call, keeping ids distinct: the call is added
    /// exactly when no existing call in the list carries the same id, and
    /// the list is left unchanged otherwise.
    pub fn push_tool_call(&mut self, call: ToolCall) -> (ok: bool)
        requires
            old(self).wf_tool_calls(),
        ensures
            final(self).wf_tool_calls(),
            final(self).content == old(self).content,
            final(self).usage == old(self).usage,
            final(self).thread == old(self).thread,
            final(self).failed_reason == old(self).failed_reason,
            final(self).full_history == old(self).full_history,
            final(self).resources == old(self).resources,
            ok ==> (final(self).tool_calls matches Some(calls) && calls@
                == spec_existing_calls(*old(self)).push(call)),
            !ok ==> *final(self) == *old(self),
            ok <==> (forall|i: int|
                0 <= i < spec_existing_calls(*old(self)).len()
                    ==> (#[trigger] spec_existing_calls(*old(self))[i]).id@ != call.id@),
    {
        let taken = match &self.tool_calls {
            Some(cs) => has_call_with_id(cs, &call.id),
            None => false,
        };
        if taken {
            return false;
        }
        let mut calls = match self.tool_calls.take() {
            Some(cs) => cs,
            None => Vec::new(),
        };
        let ghost prior = calls@;
        calls.push(call);
        self.tool_calls = Some(calls);
        proof {
            assert(prior == spec_existing_calls(*old(self)));
            assert forall|i: int, j: int|
                0 <= i < j < prior.push(call).len() implies (#[trigger] prior.push(call)[i]).id@
                != (#[trigger] prior.push(call)[j]).id@ by {
                if j < prior.len() {
                    assert(tool_call_ids_distinct(prior));
                } else {
                    assert(prior.push(call)[i] == prior[i]);
                }
            }
        }
        true
    }
}


/// The resources already carried by an optional resource list: the list, or
/// the empty sequence when it is absent.
pub open spec fn spec_resources_or_empty(r: Option<Vec<Resource>>) -> Seq<Resource> {
    match r {
        Option::None => Seq::empty(),
        Option::Some(v) => v@,
    }
}

/// True when some call in the list carries the given id.
fn has_call_with_id(calls: &Vec<ToolCall>, id: &String) -> (r: bool)
    ensures
        r == exists|i: int| 0 <= i < calls@.len() && (#[trigger] calls@[i]).id@ == id@,
{
    let mut i: usize = 0;
    while i < calls.len()
        invariant
            i <= calls.len(),
            forall|k: int| 0 <= k < i ==> (#[trigger] calls@[k]).id@ != id@,
        decreases calls.len() - i,
    {
        if calls[i].id == *id {
            return true;
        }
        i += 1;
    }
    false
}

/// The calls already recorded in an output: the recorded list, or the empty
/// sequence when the list is absent.
pub open spec fn spec_existing_calls(o: AgentOutput) -> Seq<ToolCall> {
    match o.tool_calls {
        Option::None => Seq::empty(),
        Option::Some(cs) => cs@,
    }
}

/// Checks that no two calls in the list share an id.
pub fn check_tool_call_ids(calls: &Vec<ToolCall>) -> (r: bool)
    ensures
        r == tool_call_ids_distinct(calls@),
{
    let mut i: usize = 0;
    while i < calls.len()
        invariant
            i <= calls.len(),
            forall|p: int, q: int|
                0 <= p < q < calls@.len() && p < i ==> (#[trigger] calls@[p]).id@ != (
                #[trigger] calls@[q]).id@,
        decreases calls.len() - i,
    {
        let mut j: usize = i + 1;
        while j < calls.len()
            invariant
                i < j <= calls.len(),
                i < calls.len(),
                forall|q: int| i < q < j ==> (#[trigger] calls@[q]).id@ != calls@[i as int].id@,
            decreases calls.len() - j,
        {
            if calls[i].id == calls[j].id {
                return false;
            }
            j += 1;
        }
        i += 1;
    }
    true
}

/// Law: an output carrying a failure reason is never at the same time a
/// normal completion; the two readings exclude each other.
pub proof fn lemma_failed_excludes_normal(o: AgentOutput)
    ensures
        o.spec_is_failed() ==> !o.spec_is_normal(),
        o.spec_is_normal() ==> !o.spec_is_failed(),
{
}

/// A request into one tool, generic over the argument payload type.
#[derive(Clone, Debug)]
pub struct ToolInput<T> {
    /// Tool name.
    pub name: String,

    /// Arguments for the call.
    pub args: T,

    /// The resources to process by the tool.
    pub resources: Option<Vec<Resource>>,

    /// The metadata for the tool request.
    pub meta: Option<RequestMeta>,
}

impl<T> ToolInput<T> {
    /// Creates a new tool input with the given name and arguments; both
    /// optional fields are left absent.
    pub fn new(name: String, args: T) -> (r: ToolInput<T>)
        ensures
            r.name == name,
            r.args == args,
            r.resources is None,
            r.meta is None,
    {
        ToolInput { name, args, resources: None, meta: None }
    }
}

/// A response from one tool, generic over the result payload type.
#[derive(Clone, Debug)]
pub struct ToolOutput<T> {
    /// The output from the tool.
    pub output: T,

    /// The resources generated by the tool execution.
    pub resources: Option<Vec<Resource>>,

    /// The usage statistics for the tool execution. Mandatory: every tool
    /// invocation costs at least its own bookkeeping, so upstream
    /// aggregation is never silently lossy.
    pub usage: Usage,
}

impl<T> ToolOutput<T> {
    /// Appends resources produced during execution to the output's resource
    /// list, after any resources already there — never replacing them.
    pub fn append_resources(&mut self, more: Vec<Resource>)
        ensures
            final(self).resources matches Some(rs) && rs@ == spec_resources_or_empty(
                old(self).resources,
            ) + more@,
            final(self).output == old(self).output,
            final(self).usage == old(self).usage,
    {
        let mut cur = match self.resources.take() {
            Some(v) => v,
            None => Vec::new(),
        };
        let mut more = more;
        cur.append(&mut more);
        self.resources = Some(cur);
    }

    /// Creates a new tool output with the given output value, zero usage and
    /// no resources.
    pub fn new(output: T) -> (r: ToolOutput<T>)
        ensures
            r.output == output,
            r.resources is None,
            r.usage == spec_zero_usage(),
    {
        ToolOutput {
            output,
            resources: None,
            usage: Usage { input_tokens: 0, output_tokens: 0, requests: 0 },
        }
    }
}

} // verus!
