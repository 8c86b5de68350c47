//! Function declarations: the static description of a callable tool and its
//! resource compatibility.

use vstd::prelude::*;
use vstd::string::StringExecFns;

verus! {

/// Declares a callable function: its name, a human description, a
/// JSON-schema-shaped parameter specification, and a strictness flag.
///
/// When `strict` is true the dispatching layer must reject any argument
/// payload that does not conform to `parameters`, and must restrict
/// `parameters` itself to the constrained schema subset accepted in strict
/// mode; this type records the flag and does not itself validate payloads.
#[derive(Clone, Debug)]
pub struct FunctionDefinition {
    /// Name of the function.
    pub name: String,

    /// Description of what the function does.
    pub description: String,

    /// JSON schema defining the function's parameters.
    pub parameters: serde_json::Value,

    /// Whether to enable strict schema adherence for generated calls.
    pub strict: Option<bool>,
}

impl FunctionDefinition {
    /// Returns the declaration with `prefix` prepended to its name and every
    /// other field unchanged; used to namespace tools when several providers
    /// expose overlapping names.
    pub fn name_with_prefix(self, prefix: &str) -> (r: FunctionDefinition)
        ensures
            r.name@ == prefix@ + self.name@,
            r.description == self.description,
            r.parameters == self.parameters,
            r.strict == self.strict,
    {
        let FunctionDefinition { name, description, parameters, strict } = self;
        let prefixed = prefix.to_owned().concat(name.as_str());
        FunctionDefinition { name: prefixed, description, parameters, strict }
    }
}

/// Law: prefixing composes left to right. Applying `p1` and then `p2` to a
/// declaration named `n` yields the name `p2 + p1 + n`: the prefix applied
/// last stands outermost.
pub proof fn lemma_prefix_composes(n: Seq<char>, p1: Seq<char>, p2: Seq<char>)
    ensures
        p2 + (p1 + n) == (p2 + p1) + n,
{
    assert(p2 + (p1 + n) =~= (p2 + p1) + n);
}

/// A tool's full declaration together with its resource compatibility.
#[derive(Clone, Debug)]
pub struct Function {
    /// Definition of the function.
    pub definition: FunctionDefinition,

    /// The tags of resource that this function supports.
    pub supported_resource_tags: Vec<String>,
}

impl Function {
    /// True exactly when the tag is among the supported resource tags: a
    /// tool may only be offered resources whose tag passes this check.
    pub fn supports_resource_tag(&self, tag: &String) -> (r: bool)
        ensures
            r == exists|i: int|
                0 <= i < self.supported_resource_tags@.len() && (
                #[trigger] self.supported_resource_tags@[i])@ == tag@,
    {
        let mut i: usize = 0;
        while i < self.supported_resource_tags.len()
            invariant
                i <= self.supported_resource_tags.len(),
                forall|k: int| 0 <= k < i ==> (#[trigger] self.supported_resource_tags@[k])@ != tag@,
            decreases self.supported_resource_tags.len() - i,
        {
            if self.supported_resource_tags[i] == *tag {
                return true;
            }
            i += 1;
        }
        false
    }
}

} // verus!
