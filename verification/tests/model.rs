use anda_core::envelope::ToolCall;
use anda_core::{AgentInput, AgentOutput, Function, FunctionDefinition, Principal, Resource,
    ToolInput, ToolOutput, Usage};

#[test]
fn usage_accumulate_adds_each_field() {
    let mut a = Usage { input_tokens: 10, output_tokens: 20, requests: 30 };
    let b = Usage { input_tokens: 1, output_tokens: 2, requests: 3 };
    a.accumulate(&b);
    assert_eq!(a, Usage { input_tokens: 11, output_tokens: 22, requests: 33 });
}

#[test]
fn usage_accumulate_saturates_at_max() {
    let mut a = Usage { input_tokens: u64::MAX, output_tokens: u64::MAX - 1, requests: 0 };
    let b = Usage { input_tokens: 1, output_tokens: 5, requests: 7 };
    a.accumulate(&b);
    assert_eq!(a.input_tokens, u64::MAX);
    assert_eq!(a.output_tokens, u64::MAX);
    assert_eq!(a.requests, 7);
}

#[test]
fn usage_accumulate_commutes() {
    let a = Usage { input_tokens: 3, output_tokens: u64::MAX - 2, requests: 11 };
    let b = Usage { input_tokens: 9, output_tokens: 8, requests: u64::MAX };
    let mut ab = a;
    ab.accumulate(&b);
    let mut ba = b;
    ba.accumulate(&a);
    assert_eq!(ab, ba);
}

#[test]
fn usage_default_is_zero() {
    let z = Usage::default();
    assert_eq!(z, Usage { input_tokens: 0, output_tokens: 0, requests: 0 });
    let mut a = Usage { input_tokens: 5, output_tokens: 6, requests: 7 };
    a.accumulate(&z);
    assert_eq!(a, Usage { input_tokens: 5, output_tokens: 6, requests: 7 });
}

#[test]
fn agent_input_new_leaves_optionals_absent() {
    let a = AgentInput::new("helper".to_string(), "hello".to_string());
    assert_eq!(a.name, "helper");
    assert_eq!(a.prompt, "hello");
    assert!(a.resources.is_none());
    assert!(a.meta.is_none());
}

#[test]
fn tool_input_new_leaves_optionals_absent() {
    let t = ToolInput::new("search".to_string(), "{}".to_string());
    assert_eq!(t.name, "search");
    assert_eq!(t.args, "{}");
    assert!(t.resources.is_none());
    assert!(t.meta.is_none());
}

#[test]
fn tool_output_new_has_zero_usage_and_no_resources() {
    let t = ToolOutput::new(42u64);
    assert_eq!(t.output, 42);
    assert!(t.resources.is_none());
    assert_eq!(t.usage, Usage::default());
}

#[test]
fn name_with_prefix_prepends_and_keeps_other_fields() {
    let d = FunctionDefinition {
        name: "search".to_string(),
        description: "finds things".to_string(),
        parameters: serde_json::Value::Null,
        strict: Some(true),
    };
    let p = d.name_with_prefix("ns_");
    assert_eq!(p.name, "ns_search");
    assert_eq!(p.description, "finds things");
    assert_eq!(p.parameters, serde_json::Value::Null);
    assert_eq!(p.strict, Some(true));
}

#[test]
fn name_with_prefix_composes_left_to_right() {
    let d = FunctionDefinition {
        name: "x".to_string(),
        description: String::new(),
        parameters: serde_json::Value::Null,
        strict: None,
    };
    let p = d.name_with_prefix("a_").name_with_prefix("b_");
    assert_eq!(p.name, "b_a_x");
}

#[test]
fn evaluate_tokens_counts_byte_triples() {
    assert_eq!(anda_core::evaluate_tokens(""), 0);
    assert_eq!(anda_core::evaluate_tokens("ab"), 0);
    assert_eq!(anda_core::evaluate_tokens("abc"), 1);
    assert_eq!(anda_core::evaluate_tokens("abcdef"), 2);
    // a three-byte character counts as one token
    assert_eq!(anda_core::evaluate_tokens("\u{20ac}"), 1);
}

#[test]
fn tool_call_result_set_once() {
    let mut c = ToolCall::new("c1".to_string(), "search".to_string(), "{}".to_string());
    assert!(c.result.is_none());
    let first = c.set_result(serde_json::Value::String("done".to_string()));
    assert!(first);
    assert_eq!(c.result, Some(serde_json::Value::String("done".to_string())));
    let second = c.set_result(serde_json::Value::Null);
    assert!(!second);
    assert_eq!(c.result, Some(serde_json::Value::String("done".to_string())));
}

#[test]
fn tool_call_clone_keeps_result() {
    let mut c = ToolCall::new("c1".to_string(), "search".to_string(), "{}".to_string());
    c.set_result(serde_json::Value::Bool(true));
    let d = c.clone();
    assert_eq!(d.id, "c1");
    assert_eq!(d.result, Some(serde_json::Value::Bool(true)));
}

#[test]
fn distinct_tool_call_ids_are_checked() {
    let a = ToolCall::new("a".to_string(), "f".to_string(), String::new());
    let b = ToolCall::new("b".to_string(), "g".to_string(), String::new());
    let a2 = ToolCall::new("a".to_string(), "h".to_string(), String::new());
    assert!(anda_core::envelope::check_tool_call_ids(&vec![a.clone(), b.clone()]));
    assert!(!anda_core::envelope::check_tool_call_ids(&vec![a, b, a2]));
}

#[test]
fn push_tool_call_refuses_duplicate_id() {
    let mut o = AgentOutput::default();
    assert!(o.push_tool_call(ToolCall::new("a".to_string(), "f".to_string(), String::new())));
    assert!(o.push_tool_call(ToolCall::new("b".to_string(), "g".to_string(), String::new())));
    assert!(!o.push_tool_call(ToolCall::new("a".to_string(), "h".to_string(), String::new())));
    let calls = o.tool_calls.as_ref().unwrap();
    assert_eq!(calls.len(), 2);
    assert_eq!(calls[0].name, "f");
    assert_eq!(calls[1].name, "g");
}

#[test]
fn failed_output_is_never_a_normal_completion() {
    let mut o = AgentOutput::default();
    assert!(!o.is_failed());
    o.failed_reason = Some("provider unavailable".to_string());
    assert!(o.is_failed());
}

#[test]
fn anonymous_principal_is_the_single_byte_four() {
    let p = Principal::anonymous();
    assert_eq!(p.bytes, vec![4u8]);
    assert!(p.is_anonymous());
    let q = Principal::from_bytes(vec![1, 2, 3]).unwrap();
    assert!(!q.is_anonymous());
}

#[test]
fn principal_from_bytes_enforces_length() {
    assert!(Principal::from_bytes(vec![0u8; 29]).is_some());
    assert!(Principal::from_bytes(vec![0u8; 30]).is_none());
}

#[test]
fn function_supports_only_listed_tags() {
    let f = Function {
        definition: FunctionDefinition {
            name: "read".to_string(),
            description: String::new(),
            parameters: serde_json::Value::Null,
            strict: None,
        },
        supported_resource_tags: vec!["doc".to_string(), "image".to_string()],
    };
    assert!(f.supports_resource_tag(&"doc".to_string()));
    assert!(f.supports_resource_tag(&"image".to_string()));
    assert!(!f.supports_resource_tag(&"audio".to_string()));
}

#[test]
fn agent_output_appends_resources_without_replacing() {
    let mut o = AgentOutput::default();
    o.resources = Some(vec![Resource { id: "a".to_string(), tag: "doc".to_string() }]);
    o.append_resources(vec![
        Resource { id: "b".to_string(), tag: "image".to_string() },
        Resource { id: "c".to_string(), tag: "doc".to_string() },
    ]);
    let rs = o.resources.as_ref().unwrap();
    assert_eq!(rs.len(), 3);
    assert_eq!(rs[0].id, "a");
    assert_eq!(rs[1].id, "b");
    assert_eq!(rs[2].id, "c");
}

#[test]
fn tool_output_appends_resources_onto_absent_list() {
    let mut t = ToolOutput::new(0u8);
    t.append_resources(vec![Resource { id: "x".to_string(), tag: "doc".to_string() }]);
    let rs = t.resources.as_ref().unwrap();
    assert_eq!(rs.len(), 1);
    assert_eq!(rs[0].id, "x");
    assert_eq!(rs[0].tag, "doc");
}
