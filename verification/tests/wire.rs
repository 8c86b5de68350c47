use anda_core::codec::{decode_agent_input, decode_agent_output, decode_request_meta,
    decode_tool_input, decode_tool_output, encode_agent_input, encode_agent_output,
    encode_request_meta, encode_tool_input, encode_tool_output};
use anda_core::envelope::ToolCall;
use anda_core::json::{Json, Member};
use anda_core::{AgentInput, AgentOutput, Principal, RequestMeta, Resource, ThreadId, Usage};

#[test]
fn agent_input_round_trip_with_optionals_absent() {
    let a = AgentInput::new("helper".to_string(), "hello".to_string());
    let j = encode_agent_input(&a);
    match &j {
        Json::Obj(ms) => {
            // absent optional fields are omitted from the wire form
            assert_eq!(ms.len(), 2);
            assert_eq!(ms[0].key, "name");
            assert_eq!(ms[1].key, "prompt");
        },
        _ => panic!("agent input must encode as an object"),
    }
    let b = decode_agent_input(&j).unwrap();
    assert_eq!(b.name, "helper");
    assert_eq!(b.prompt, "hello");
    assert!(b.resources.is_none());
    assert!(b.meta.is_none());
}

#[test]
fn agent_input_round_trip_with_all_fields_present() {
    let a = AgentInput {
        name: "helper".to_string(),
        prompt: "hello".to_string(),
        resources: Some(vec![
            Resource { id: "r1".to_string(), tag: "doc".to_string() },
            Resource { id: "r2".to_string(), tag: "image".to_string() },
        ]),
        meta: Some(RequestMeta {
            engine: Some(Principal::anonymous()),
            thread: Some(ThreadId { id: "t-7".to_string() }),
            user: Some("alice".to_string()),
        }),
    };
    let j = encode_agent_input(&a);
    let b = decode_agent_input(&j).unwrap();
    assert_eq!(b.name, "helper");
    assert_eq!(b.prompt, "hello");
    let rs = b.resources.unwrap();
    assert_eq!(rs.len(), 2);
    assert_eq!(rs[0].id, "r1");
    assert_eq!(rs[0].tag, "doc");
    assert_eq!(rs[1].id, "r2");
    assert_eq!(rs[1].tag, "image");
    let m = b.meta.unwrap();
    assert_eq!(m.engine.unwrap().bytes, vec![4u8]);
    assert_eq!(m.thread.unwrap().id, "t-7");
    assert_eq!(m.user.unwrap(), "alice");
}

#[test]
fn absent_engine_is_null_not_omitted() {
    let m = RequestMeta { engine: None, thread: None, user: None };
    let j = encode_request_meta(&m);
    match &j {
        Json::Obj(ms) => {
            assert_eq!(ms.len(), 1);
            assert_eq!(ms[0].key, "engine");
            assert!(matches!(ms[0].value, Json::Null));
        },
        _ => panic!("metadata must encode as an object"),
    }
    let back = decode_request_meta(&j).unwrap();
    assert!(back.engine.is_none());
    assert!(back.thread.is_none());
    assert!(back.user.is_none());
}

#[test]
fn decode_rejects_malformed_wire_forms() {
    assert!(decode_agent_input(&Json::Null).is_none());
    assert!(decode_agent_input(&Json::Arr(Vec::new())).is_none());
    // fields in the wrong order are refused
    let a = AgentInput::new("n".to_string(), "p".to_string());
    if let Json::Obj(mut ms) = encode_agent_input(&a) {
        ms.swap(0, 1);
        assert!(decode_agent_input(&Json::Obj(ms)).is_none());
    } else {
        panic!("agent input must encode as an object");
    }
}

#[test]
fn agent_output_round_trip_with_optionals_absent() {
    let mut o = AgentOutput::default();
    o.content = "done".to_string();
    o.usage = Usage { input_tokens: 7, output_tokens: 8, requests: 9 };
    let j = encode_agent_output(&o).unwrap();
    match &j {
        Json::Obj(ms) => {
            assert_eq!(ms.len(), 2);
            assert_eq!(ms[0].key, "content");
            assert_eq!(ms[1].key, "usage");
        },
        _ => panic!("agent output must encode as an object"),
    }
    let b = decode_agent_output(&j).unwrap();
    assert_eq!(b.content, "done");
    assert_eq!(b.usage, Usage { input_tokens: 7, output_tokens: 8, requests: 9 });
    assert!(b.thread.is_none());
    assert!(b.failed_reason.is_none());
    assert!(b.tool_calls.is_none());
    assert!(b.full_history.is_none());
    assert!(b.resources.is_none());
}

#[test]
fn agent_output_round_trip_with_fields_present() {
    let mut o = AgentOutput::default();
    o.content = "calling".to_string();
    o.usage = Usage { input_tokens: 1, output_tokens: 2, requests: 3 };
    o.thread = Some(ThreadId { id: "t-1".to_string() });
    o.failed_reason = Some("timeout".to_string());
    o.tool_calls = Some(vec![
        ToolCall::new("c1".to_string(), "search".to_string(), "{}".to_string()),
        ToolCall::new("c2".to_string(), "fetch".to_string(), "{}".to_string()),
    ]);
    o.resources = Some(vec![Resource { id: "r".to_string(), tag: "doc".to_string() }]);
    let j = encode_agent_output(&o).unwrap();
    let b = decode_agent_output(&j).unwrap();
    assert_eq!(b.content, "calling");
    assert_eq!(b.thread.unwrap().id, "t-1");
    assert_eq!(b.failed_reason.unwrap(), "timeout");
    let cs = b.tool_calls.unwrap();
    assert_eq!(cs.len(), 2);
    assert_eq!(cs[0].id, "c1");
    assert_eq!(cs[0].name, "search");
    assert!(cs[0].result.is_none());
    assert_eq!(cs[1].id, "c2");
    let rs = b.resources.unwrap();
    assert_eq!(rs[0].id, "r");
    assert_eq!(rs[0].tag, "doc");
}

#[test]
fn opaque_payloads_are_refused_by_the_encoder() {
    let mut o = AgentOutput::default();
    o.full_history = Some(vec![serde_json::Value::Null]);
    assert!(encode_agent_output(&o).is_none());

    let mut o2 = AgentOutput::default();
    let mut call = ToolCall::new("c1".to_string(), "f".to_string(), String::new());
    call.set_result(serde_json::Value::Bool(true));
    o2.tool_calls = Some(vec![call]);
    assert!(encode_agent_output(&o2).is_none());
}

#[test]
fn principal_survives_the_wire() {
    let m = RequestMeta {
        engine: Some(Principal::from_bytes(vec![1, 2, 250, 255]).unwrap()),
        thread: None,
        user: None,
    };
    let j = encode_request_meta(&m);
    let back = decode_request_meta(&j).unwrap();
    assert_eq!(back.engine.unwrap().bytes, vec![1, 2, 250, 255]);
}

#[test]
fn oversized_principal_on_the_wire_is_refused() {
    let mut es = Vec::new();
    for _ in 0..30 {
        es.push(Json::UInt(0));
    }
    let j = Json::Obj(vec![Member {
        key: "engine".to_string(),
        value: Json::Arr(es),
    }]);
    assert!(decode_request_meta(&j).is_none());
}

#[test]
fn tool_input_round_trip_with_optionals_absent() {
    fn args_doc() -> Json {
        Json::Obj(vec![Member { key: "q".to_string(), value: Json::Str("x".to_string()) }])
    }
    let t = anda_core::ToolInput::new("search".to_string(), args_doc());
    let j = encode_tool_input(t);
    match &j {
        Json::Obj(ms) => {
            assert_eq!(ms.len(), 2);
            assert_eq!(ms[0].key, "name");
            assert_eq!(ms[1].key, "args");
        },
        _ => panic!("tool input must encode as an object"),
    }
    let b = decode_tool_input(j).unwrap();
    assert_eq!(b.name, "search");
    assert_eq!(b.args, args_doc());
    assert!(b.resources.is_none());
    assert!(b.meta.is_none());
}

#[test]
fn tool_output_round_trip_keeps_payload_and_usage() {
    let mut t = anda_core::ToolOutput::new(Json::Str("ok".to_string()));
    t.usage = Usage { input_tokens: 0, output_tokens: 0, requests: 1 };
    t.resources = Some(vec![Resource { id: "r".to_string(), tag: "doc".to_string() }]);
    let j = encode_tool_output(t);
    match &j {
        Json::Obj(ms) => {
            assert_eq!(ms.len(), 3);
            assert_eq!(ms[0].key, "output");
            assert_eq!(ms[1].key, "resources");
            assert_eq!(ms[2].key, "usage");
        },
        _ => panic!("tool output must encode as an object"),
    }
    let b = decode_tool_output(j).unwrap();
    assert_eq!(b.output, Json::Str("ok".to_string()));
    assert_eq!(b.usage, Usage { input_tokens: 0, output_tokens: 0, requests: 1 });
    assert_eq!(b.resources.unwrap()[0].id, "r");
}
