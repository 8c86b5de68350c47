//! Usage accounting: an additive counter triple with saturating accumulation.

use vstd::prelude::*;

verus! {

/// Cumulative cost of one or more LLM or tool calls.
#[derive(Clone, Copy, Debug, PartialEq, Eq, Structural)]
pub struct Usage {
    /// Input tokens sent to the LLM.
    pub input_tokens: u64,

    /// Output tokens received from the LLM.
    pub output_tokens: u64,

    /// Number of requests made to agents and tools.
    pub requests: u64,
}

/// Saturating sum of two counters: clamps at `u64::MAX` instead of wrapping.
pub open spec fn add_sat(a: u64, b: u64) -> u64 {
    if a + b > u64::MAX {
        u64::MAX
    } else {
        (a + b) as u64
    }
}

/// The usage that results from accumulating `b` into `a`: each counter is
/// added independently, saturating at its maximum.
pub open spec fn spec_accumulate(a: Usage, b: Usage) -> Usage {
    Usage {
        input_tokens: add_sat(a.input_tokens, b.input_tokens),
        output_tokens: add_sat(a.output_tokens, b.output_tokens),
        requests: add_sat(a.requests, b.requests),
    }
}

/// The zero-valued usage: the identity for accumulation.
pub open spec fn spec_zero_usage() -> Usage {
    Usage { input_tokens: 0, output_tokens: 0, requests: 0 }
}

impl Usage {
    /// Accumulates the usage statistics from another usage object.
    /// Each counter is added independently with saturating addition:
    /// never panics, never wraps, clamps at `u64::MAX`.
    pub fn accumulate(&mut self, other: &Usage)
        ensures
            *final(self) == spec_accumulate(*old(self), *other),
    {
        self.input_tokens = self.input_tokens.saturating_add(other.input_tokens);
        self.output_tokens = self.output_tokens.saturating_add(other.output_tokens);
        self.requests = self.requests.saturating_add(other.requests);
    }
}

impl Default for Usage {
    /// The zero-valued usage.
    fn default() -> (r: Usage)
        ensures
            r == spec_zero_usage(),
    {
        Usage { input_tokens: 0, output_tokens: 0, requests: 0 }
    }
}

/// Law: accumulation is commutative. Merging two ledgers yields the same
/// totals whichever of the two is the receiver.
pub proof fn lemma_accumulate_commutative(a: Usage, b: Usage)
    ensures
        spec_accumulate(a, b) == spec_accumulate(b, a),
{
}

/// Law: accumulation is associative. Per-call ledgers merged in any grouping
/// yield the same totals, so concurrently completing calls may be merged in
/// any order.
pub proof fn lemma_accumulate_associative(a: Usage, b: Usage, c: Usage)
    ensures
        spec_accumulate(spec_accumulate(a, b), c) == spec_accumulate(a, spec_accumulate(b, c)),
{
}

/// Law: the zero-valued usage is the identity for accumulation.
pub proof fn lemma_accumulate_identity(a: Usage)
    ensures
        spec_accumulate(a, spec_zero_usage()) == a,
        spec_accumulate(spec_zero_usage(), a) == a,
{
}

/// Law: each counter is clamped at its maximum rather than wrapping:
/// once a counter reaches `u64::MAX`, further accumulation leaves it there.
pub proof fn lemma_accumulate_saturates(a: Usage, b: Usage)
    ensures
        a.input_tokens == u64::MAX ==> spec_accumulate(a, b).input_tokens == u64::MAX,
        a.output_tokens == u64::MAX ==> spec_accumulate(a, b).output_tokens == u64::MAX,
        a.requests == u64::MAX ==> spec_accumulate(a, b).requests == u64::MAX,
        spec_accumulate(a, b).input_tokens >= a.input_tokens,
        spec_accumulate(a, b).output_tokens >= a.output_tokens,
        spec_accumulate(a, b).requests >= a.requests,
{
}

} // verus!
