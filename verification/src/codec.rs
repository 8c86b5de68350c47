//! The wire codec for envelopes.
//!
//! An envelope crosses the wire as a JSON object whose optional fields are
//! omitted entirely when absent, never emitted as `null`; the one exception
//! is the metadata's `engine` member, which is always present and `null`
//! when no engine is named. The spec predicates here pin that wire form
//! down member by member; the encoder is proved to produce it, the decoder
//! to accept exactly it, and the determinism laws show that a wire form
//! fixes every field of the envelope it carries — together: encoding then
//! decoding reconstructs the envelope, absent fields staying absent.

use vstd::prelude::*;
use crate::envelope::{AgentInput, AgentOutput, RequestMeta, ToolCall, ToolInput, ToolOutput};
use crate::ids::{Principal, ThreadId, MAX_PRINCIPAL_LEN};
use crate::json::{Json, Member};
use crate::resource::Resource;
use crate::usage::Usage;

verus! {

/// True when `j` is the JSON string with content `s`.
pub open spec fn is_str(j: Json, s: Seq<char>) -> bool {
    match j {
        Json::Str(t) => t@ == s,
        _ => false,
    }
}

/// True when `j` is the JSON integer `v`.
pub open spec fn is_uint(j: Json, v: u64) -> bool {
    match j {
        Json::UInt(b) => b == v,
        _ => false,
    }
}

/// True when `m` is the member `key` holding the string `val`.
pub open spec fn str_member(m: Member, key: Seq<char>, val: Seq<char>) -> bool {
    m.key@ == key && is_str(m.value, val)
}

/// The wire form of a resource reference: `{"id": ..., "tag": ...}`.
pub open spec fn resource_encoded(j: Json, r: Resource) -> bool {
    match j {
        Json::Obj(ms) => {
            &&& ms@.len() == 2
            &&& str_member(ms@[0], "id"@, r.id@)
            &&& str_member(ms@[1], "tag"@, r.tag@)
        },
        _ => false,
    }
}

/// The wire form of a resource list: the array of the members' wire forms,
/// in order.
pub open spec fn resources_encoded(j: Json, rs: Vec<Resource>) -> bool {
    match j {
        Json::Arr(es) => {
            &&& es@.len() == rs@.len()
            &&& forall|i: int|
                0 <= i < es@.len() ==> resource_encoded(#[trigger] es@[i], rs@[i])
        },
        _ => false,
    }
}

/// The wire form of a principal: the array of its raw bytes.
pub open spec fn principal_encoded(j: Json, p: Principal) -> bool {
    match j {
        Json::Arr(es) => {
            &&& es@.len() == p.bytes@.len()
            &&& forall|i: int|
                0 <= i < es@.len() ==> is_uint(#[trigger] es@[i], p.bytes@[i] as u64)
        },
        _ => false,
    }
}

/// The wire form of request metadata. The `engine` member is always
/// written, `null` when absent; `thread` and `user` are omitted when
/// absent.
pub open spec fn meta_encoded(j: Json, m: RequestMeta) -> bool {
    match j {
        Json::Obj(ms) => {
            let tn: int = if m.thread is Some { 1 } else { 0 };
            let un: int = if m.user is Some { 1 } else { 0 };
            &&& ms@.len() == 1 + tn + un
            &&& ms@[0].key@ == "engine"@
            &&& match m.engine {
                Option::None => ms@[0].value is Null,
                Option::Some(p) => principal_encoded(ms@[0].value, p),
            }
            &&& match m.thread {
                Option::None => true,
                Option::Some(t) => str_member(ms@[1], "thread"@, t.id@),
            }
            &&& match m.user {
                Option::None => true,
                Option::Some(u) => str_member(ms@[1 + tn], "user"@, u@),
            }
        },
        _ => false,
    }
}

/// The wire form of an agent input: `name` and `prompt` always written,
/// `resources` and `meta` omitted when absent.
pub open spec fn agent_input_encoded(j: Json, x: AgentInput) -> bool {
    match j {
        Json::Obj(ms) => {
            let rn: int = if x.resources is Some { 1 } else { 0 };
            let mn: int = if x.meta is Some { 1 } else { 0 };
            &&& ms@.len() == 2 + rn + mn
            &&& str_member(ms@[0], "name"@, x.name@)
            &&& str_member(ms@[1], "prompt"@, x.prompt@)
            &&& match x.resources {
                Option::None => true,
                Option::Some(rs) => ms@[2].key@ == "resources"@ && resources_encoded(
                    ms@[2].value,
                    rs,
                ),
            }
            &&& match x.meta {
                Option::None => true,
                Option::Some(mt) => ms@[2 + rn].key@ == "meta"@ && meta_encoded(
                    ms@[2 + rn].value,
                    mt,
                ),
            }
        },
        _ => false,
    }
}

/// A metadata value fit for the wire: any named engine principal is well
/// formed.
pub open spec fn meta_wf(m: RequestMeta) -> bool {
    match m.engine {
        Option::None => true,
        Option::Some(p) => p.wf(),
    }
}

/// An agent input fit for the wire: any metadata it carries is.
pub open spec fn agent_input_wf(x: AgentInput) -> bool {
    match x.meta {
        Option::None => true,
        Option::Some(m) => meta_wf(m),
    }
}

/// Writes the wire form of one resource reference.
pub fn encode_resource(r: &Resource) -> (j: Json)
    ensures
        resource_encoded(j, *r),
{
    let mut ms: Vec<Member> = Vec::new();
    ms.push(Member { key: "id".to_owned(), value: Json::Str(r.id.clone()) });
    ms.push(Member { key: "tag".to_owned(), value: Json::Str(r.tag.clone()) });
    Json::Obj(ms)
}

/// Writes the wire form of a resource list.
pub fn encode_resources(rs: &Vec<Resource>) -> (j: Json)
    ensures
        resources_encoded(j, *rs),
{
    let mut es: Vec<Json> = Vec::new();
    let mut i: usize = 0;
    while i < rs.len()
        invariant
            i <= rs.len(),
            es@.len() == i,
            forall|k: int| 0 <= k < i ==> resource_encoded(#[trigger] es@[k], rs@[k]),
        decreases rs.len() - i,
    {
        es.push(encode_resource(&rs[i]));
        i += 1;
    }
    Json::Arr(es)
}

/// Writes the wire form of a principal.
pub fn encode_principal(p: &Principal) -> (j: Json)
    ensures
        principal_encoded(j, *p),
{
    let mut es: Vec<Json> = Vec::new();
    let mut i: usize = 0;
    while i < p.bytes.len()
        invariant
            i <= p.bytes.len(),
            es@.len() == i,
            forall|k: int| 0 <= k < i ==> is_uint(#[trigger] es@[k], p.bytes@[k] as u64),
        decreases p.bytes.len() - i,
    {
        es.push(Json::UInt(p.bytes[i] as u64));
        i += 1;
    }
    Json::Arr(es)
}

/// Writes the wire form of request metadata.
pub fn encode_request_meta(m: &RequestMeta) -> (j: Json)
    ensures
        meta_encoded(j, *m),
{
    let mut ms: Vec<Member> = Vec::new();
    let engine_value = match &m.engine {
        Some(p) => encode_principal(p),
        None => Json::Null,
    };
    ms.push(Member { key: "engine".to_owned(), value: engine_value });
    match &m.thread {
        Some(t) => ms.push(Member { key: "thread".to_owned(), value: Json::Str(t.id.clone()) }),
        None => (),
    }
    match &m.user {
        Some(u) => ms.push(Member { key: "user".to_owned(), value: Json::Str(u.clone()) }),
        None => (),
    }
    Json::Obj(ms)
}

/// Writes the wire form of an agent input.
pub fn encode_agent_input(x: &AgentInput) -> (j: Json)
    ensures
        agent_input_encoded(j, *x),
{
    let mut ms: Vec<Member> = Vec::new();
    ms.push(Member { key: "name".to_owned(), value: Json::Str(x.name.clone()) });
    ms.push(Member { key: "prompt".to_owned(), value: Json::Str(x.prompt.clone()) });
    match &x.resources {
        Some(rs) => ms.push(Member { key: "resources".to_owned(), value: encode_resources(rs) }),
        None => (),
    }
    match &x.meta {
        Some(mt) => ms.push(Member { key: "meta".to_owned(), value: encode_request_meta(mt) }),
        None => (),
    }
    Json::Obj(ms)
}

/// Reads a resource reference back from its wire form: returns `Some`
/// exactly when some resource has this wire form, and then one that has it.
pub fn decode_resource(j: &Json) -> (r: Option<Resource>)
    ensures
        r matches Some(x) ==> resource_encoded(*j, x),
        forall|x: Resource| resource_encoded(*j, x) ==> r is Some,
{
    match j {
        Json::Obj(ms) => {
            if ms.len() != 2 {
                return None;
            }
            let id_key: String = "id".to_owned();
            let tag_key: String = "tag".to_owned();
            if !(ms[0].key == id_key) || !(ms[1].key == tag_key) {
                return None;
            }
            let id = match &ms[0].value {
                Json::Str(s) => s.clone(),
                _ => {
                    return None;
                },
            };
            let tag = match &ms[1].value {
                Json::Str(s) => s.clone(),
                _ => {
                    return None;
                },
            };
            Some(Resource { id, tag })
        },
        _ => None,
    }
}

/// Reads a resource list back from its wire form.
pub fn decode_resources(j: &Json) -> (r: Option<Vec<Resource>>)
    ensures
        r matches Some(rs) ==> resources_encoded(*j, rs),
        forall|rs: Vec<Resource>| resources_encoded(*j, rs) ==> r is Some,
{
    match j {
        Json::Arr(es) => {
            let mut out: Vec<Resource> = Vec::new();
            let mut i: usize = 0;
            while i < es.len()
                invariant
                    *j is Arr,
                    (*j)->Arr_0 == *es,
                    i <= es.len(),
                    out@.len() == i,
                    forall|k: int| 0 <= k < i ==> resource_encoded(#[trigger] es@[k], out@[k]),
                decreases es.len() - i,
            {
                match decode_resource(&es[i]) {
                    Some(x) => out.push(x),
                    None => {
                        proof {
                            assert forall|rs: Vec<Resource>| !resources_encoded(*j, rs) by {
                                if resources_encoded(*j, rs) {
                                    let es2 = (*j)->Arr_0;
                                    assert(es2 == *es);
                                    assert(resource_encoded(es2@[i as int], rs@[i as int]));
                                }
                            }
                        }
                        return None;
                    },
                }
                i += 1;
            }
            Some(out)
        },
        _ => None,
    }
}

/// Reads a principal back from its wire form: accepts exactly the wire
/// forms of well-formed principals.
pub fn decode_principal(j: &Json) -> (r: Option<Principal>)
    ensures
        r matches Some(p) ==> principal_encoded(*j, p) && p.wf(),
        forall|p: Principal| principal_encoded(*j, p) && p.wf() ==> r is Some,
{
    match j {
        Json::Arr(es) => {
            if es.len() > MAX_PRINCIPAL_LEN {
                return None;
            }
            let mut bytes: Vec<u8> = Vec::new();
            let mut i: usize = 0;
            while i < es.len()
                invariant
                    *j is Arr,
                    (*j)->Arr_0 == *es,
                    i <= es.len(),
                    bytes@.len() == i,
                    forall|k: int| 0 <= k < i ==> is_uint(#[trigger] es@[k], bytes@[k] as u64),
                decreases es.len() - i,
            {
                match &es[i] {
                    Json::UInt(b) => {
                        if *b > 255 {
                            proof {
                                assert forall|p: Principal| !(principal_encoded(*j, p) && p.wf())
                                    by {
                                    if principal_encoded(*j, p) {
                                        let es2 = (*j)->Arr_0;
                                        assert(es2 == *es);
                                        assert(is_uint(es2@[i as int], p.bytes@[i as int] as u64));
                                    }
                                }
                            }
                            return None;
                        }
                        bytes.push(*b as u8);
                    },
                    _ => {
                        proof {
                            assert forall|p: Principal| !(principal_encoded(*j, p) && p.wf()) by {
                                if principal_encoded(*j, p) {
                                    let es2 = (*j)->Arr_0;
                                    assert(es2 == *es);
                                    assert(is_uint(es2@[i as int], p.bytes@[i as int] as u64));
                                }
                            }
                        }
                        return None;
                    },
                }
                i += 1;
            }
            Some(Principal { bytes })
        },
        _ => None,
    }
}

/// Reads request metadata back from its wire form: accepts exactly the wire
/// forms of well-formed metadata.
pub fn decode_request_meta(j: &Json) -> (r: Option<RequestMeta>)
    ensures
        r matches Some(m) ==> meta_encoded(*j, m) && meta_wf(m),
        forall|m: RequestMeta| meta_encoded(*j, m) && meta_wf(m) ==> r is Some,
{
    proof {
        reveal_strlit("thread");
        reveal_strlit("user");
        assert("thread"@.len() == 6);
        assert("user"@.len() == 4);
    }
    match j {
        Json::Obj(ms) => {
            if ms.len() < 1 || ms.len() > 3 {
                return None;
            }
            let engine_key: String = "engine".to_owned();
            let thread_key: String = "thread".to_owned();
            let user_key: String = "user".to_owned();
            if !(ms[0].key == engine_key) {
                return None;
            }
            let engine = match &ms[0].value {
                Json::Null => None,
                v => {
                    match decode_principal(v) {
                        Some(p) => Some(p),
                        None => {
                            return None;
                        },
                    }
                },
            };
            let mut idx: usize = 1;
            let mut thread: Option<ThreadId> = None;
            let mut user: Option<String> = None;
            if idx < ms.len() && ms[idx].key == thread_key {
                match &ms[idx].value {
                    Json::Str(s) => {
                        thread = Some(ThreadId { id: s.clone() });
                        idx += 1;
                    },
                    _ => {
                        return None;
                    },
                }
            }
            if idx < ms.len() && ms[idx].key == user_key {
                match &ms[idx].value {
                    Json::Str(s) => {
                        user = Some(s.clone());
                        idx += 1;
                    },
                    _ => {
                        return None;
                    },
                }
            }
            if idx != ms.len() {
                return None;
            }
            Some(RequestMeta { engine, thread, user })
        },
        _ => None,
    }
}

/// Reads an agent input back from its wire form: accepts exactly the wire
/// forms of well-formed agent inputs.
pub fn decode_agent_input(j: &Json) -> (r: Option<AgentInput>)
    ensures
        r matches Some(x) ==> agent_input_encoded(*j, x) && agent_input_wf(x),
        forall|x: AgentInput| agent_input_encoded(*j, x) && agent_input_wf(x) ==> r is Some,
{
    proof {
        reveal_strlit("resources");
        reveal_strlit("meta");
        assert("resources"@.len() == 9);
        assert("meta"@.len() == 4);
    }
    match j {
        Json::Obj(ms) => {
            if ms.len() < 2 || ms.len() > 4 {
                return None;
            }
            let name_key: String = "name".to_owned();
            let prompt_key: String = "prompt".to_owned();
            let resources_key: String = "resources".to_owned();
            let meta_key: String = "meta".to_owned();
            if !(ms[0].key == name_key) || !(ms[1].key == prompt_key) {
                return None;
            }
            let name = match &ms[0].value {
                Json::Str(s) => s.clone(),
                _ => {
                    return None;
                },
            };
            let prompt = match &ms[1].value {
                Json::Str(s) => s.clone(),
                _ => {
                    return None;
                },
            };
            let mut idx: usize = 2;
            let mut resources: Option<Vec<Resource>> = None;
            let mut meta: Option<RequestMeta> = None;
            if idx < ms.len() && ms[idx].key == resources_key {
                match decode_resources(&ms[idx].value) {
                    Some(rs) => {
                        resources = Some(rs);
                        idx += 1;
                    },
                    None => {
                        return None;
                    },
                }
            }
            if idx < ms.len() && ms[idx].key == meta_key {
                match decode_request_meta(&ms[idx].value) {
                    Some(m) => {
                        meta = Some(m);
                        idx += 1;
                    },
                    None => {
                        return None;
                    },
                }
            }
            if idx != ms.len() {
                return None;
            }
            Some(AgentInput { name, prompt, resources, meta })
        },
        _ => None,
    }
}

/// Law: a wire form determines the resource it carries.
pub proof fn lemma_wire_determines_resource(j: Json, a: Resource, b: Resource)
    requires
        resource_encoded(j, a),
        resource_encoded(j, b),
    ensures
        a.id@ == b.id@,
        a.tag@ == b.tag@,
{
}

/// Law: a wire form determines the principal it carries.
pub proof fn lemma_wire_determines_principal(j: Json, a: Principal, b: Principal)
    requires
        principal_encoded(j, a),
        principal_encoded(j, b),
    ensures
        a.bytes@ == b.bytes@,
{
    let es = j->Arr_0;
    assert forall|i: int| 0 <= i < a.bytes@.len() implies a.bytes@[i] == b.bytes@[i] by {
        assert(is_uint(es@[i], a.bytes@[i] as u64));
        assert(is_uint(es@[i], b.bytes@[i] as u64));
    }
    assert(a.bytes@ =~= b.bytes@);
}

/// Law: a wire form determines the metadata it carries: each field is
/// present in one exactly when it is present in the other, and present
/// fields agree.
pub proof fn lemma_wire_determines_meta(j: Json, a: RequestMeta, b: RequestMeta)
    requires
        meta_encoded(j, a),
        meta_encoded(j, b),
    ensures
        a.engine is Some <==> b.engine is Some,
        a.engine is Some && b.engine is Some ==> a.engine->0.bytes@ == b.engine->0.bytes@,
        a.thread is Some <==> b.thread is Some,
        a.thread is Some && b.thread is Some ==> a.thread->0.id@ == b.thread->0.id@,
        a.user is Some <==> b.user is Some,
        a.user is Some && b.user is Some ==> a.user->0@ == b.user->0@,
{
    reveal_strlit("thread");
    reveal_strlit("user");
    assert("thread"@.len() == 6);
    assert("user"@.len() == 4);
    let ms = j->Obj_0;
    // a mismatch in presence would put two different keys on the same
    // member, which the key lengths rule out
    if a.thread is Some && b.thread is None {
        assert(str_member(ms@[1], "thread"@, a.thread->0.id@));
        assert(str_member(ms@[1], "user"@, b.user->0@));
    }
    if b.thread is Some && a.thread is None {
        assert(str_member(ms@[1], "thread"@, b.thread->0.id@));
        assert(str_member(ms@[1], "user"@, a.user->0@));
    }
    if a.engine is Some && b.engine is Some {
        lemma_wire_determines_principal(ms@[0].value, a.engine->0, b.engine->0);
    }
}

/// Law: a wire form determines the agent input it carries. Together with
/// the codec contracts this is the round trip: the encoder writes a wire
/// form of its input, the decoder returns an input with that same wire
/// form, so every field of the result — absent optional fields included —
/// agrees with the envelope that was encoded.
pub proof fn lemma_wire_determines_agent_input(j: Json, a: AgentInput, b: AgentInput)
    requires
        agent_input_encoded(j, a),
        agent_input_encoded(j, b),
    ensures
        a.name@ == b.name@,
        a.prompt@ == b.prompt@,
        a.resources is Some <==> b.resources is Some,
        a.resources is Some && b.resources is Some ==> a.resources->0@.len() == b.resources->0@.len()
            && (forall|i: int|
            0 <= i < a.resources->0@.len() ==> (#[trigger] a.resources->0@[i]).id@
                == b.resources->0@[i].id@ && a.resources->0@[i].tag@ == b.resources->0@[i].tag@),
        a.meta is Some <==> b.meta is Some,
        a.meta is Some && b.meta is Some ==> {
            let ma = a.meta->0;
            let mb = b.meta->0;
            &&& (ma.engine is Some <==> mb.engine is Some)
            &&& (ma.engine is Some && mb.engine is Some ==> ma.engine->0.bytes@
                == mb.engine->0.bytes@)
            &&& (ma.thread is Some <==> mb.thread is Some)
            &&& (ma.thread is Some && mb.thread is Some ==> ma.thread->0.id@ == mb.thread->0.id@)
            &&& (ma.user is Some <==> mb.user is Some)
            &&& (ma.user is Some && mb.user is Some ==> ma.user->0@ == mb.user->0@)
        },
{
    reveal_strlit("resources");
    reveal_strlit("meta");
    assert("resources"@.len() == 9);
    assert("meta"@.len() == 4);
    let ms = j->Obj_0;
    // a mismatch in presence would put two different keys on the same
    // member, which the key lengths rule out
    if a.resources is Some && b.resources is None {
        assert(ms@[2].key@ == "resources"@);
        assert(ms@[2].key@ == "meta"@);
    }
    if b.resources is Some && a.resources is None {
        assert(ms@[2].key@ == "resources"@);
        assert(ms@[2].key@ == "meta"@);
    }
    if a.resources is Some && b.resources is Some {
        let ra = a.resources->0;
        let rb = b.resources->0;
        assert forall|i: int|
            0 <= i < ra@.len() implies (#[trigger] ra@[i]).id@ == rb@[i].id@ && ra@[i].tag@
            == rb@[i].tag@ by {
            let es = ms@[2].value->Arr_0;
            assert(resource_encoded(es@[i], ra@[i]));
            assert(resource_encoded(es@[i], rb@[i]));
            lemma_wire_determines_resource(es@[i], ra@[i], rb@[i]);
        }
    }
    if a.meta is Some && b.meta is Some {
        let rn: int = if a.resources is Some {
            1
        } else {
            0
        };
        lemma_wire_determines_meta(ms@[2 + rn].value, a.meta->0, b.meta->0);
    }
}

/// The wire form of a usage triple:
/// `{"input_tokens": ..., "output_tokens": ..., "requests": ...}`.
pub open spec fn usage_encoded(j: Json, u: Usage) -> bool {
    match j {
        Json::Obj(ms) => {
            &&& ms@.len() == 3
            &&& ms@[0].key@ == "input_tokens"@
            &&& is_uint(ms@[0].value, u.input_tokens)
            &&& ms@[1].key@ == "output_tokens"@
            &&& is_uint(ms@[1].value, u.output_tokens)
            &&& ms@[2].key@ == "requests"@
            &&& is_uint(ms@[2].value, u.requests)
        },
        _ => false,
    }
}

/// The wire form of a not-yet-resolved tool call:
/// `{"id": ..., "name": ..., "args": ...}`, the result slot still empty.
pub open spec fn tool_call_encoded(j: Json, c: ToolCall) -> bool {
    match j {
        Json::Obj(ms) => {
            &&& ms@.len() == 3
            &&& str_member(ms@[0], "id"@, c.id@)
            &&& str_member(ms@[1], "name"@, c.name@)
            &&& str_member(ms@[2], "args"@, c.args@)
            &&& c.result is None
        },
        _ => false,
    }
}

/// The wire form of a tool-call list, in order.
pub open spec fn tool_calls_encoded(j: Json, cs: Vec<ToolCall>) -> bool {
    match j {
        Json::Arr(es) => {
            &&& es@.len() == cs@.len()
            &&& forall|i: int| 0 <= i < es@.len() ==> tool_call_encoded(#[trigger] es@[i], cs@[i])
        },
        _ => false,
    }
}

/// True when an agent output can be written to the wire by this codec: it
/// carries no full history and no tool call holding an opaque result
/// payload; those payloads belong to the serialization layer around the
/// library.
pub open spec fn agent_output_encodable(o: AgentOutput) -> bool {
    &&& o.full_history is None
    &&& match o.tool_calls {
        Option::None => true,
        Option::Some(cs) => forall|i: int| 0 <= i < cs@.len() ==> (#[trigger] cs@[i]).result is None,
    }
}

/// The wire form of an agent output: `content` and `usage` always written,
/// every optional field omitted when absent.
pub open spec fn agent_output_encoded(j: Json, o: AgentOutput) -> bool {
    match j {
        Json::Obj(ms) => {
            let tn: int = if o.thread is Some { 1 } else { 0 };
            let fr: int = if o.failed_reason is Some { 1 } else { 0 };
            let cn: int = if o.tool_calls is Some { 1 } else { 0 };
            let rn: int = if o.resources is Some { 1 } else { 0 };
            &&& o.full_history is None
            &&& ms@.len() == 2 + tn + fr + cn + rn
            &&& str_member(ms@[0], "content"@, o.content@)
            &&& ms@[1].key@ == "usage"@
            &&& usage_encoded(ms@[1].value, o.usage)
            &&& match o.thread {
                Option::None => true,
                Option::Some(t) => str_member(ms@[2], "thread"@, t.id@),
            }
            &&& match o.failed_reason {
                Option::None => true,
                Option::Some(r) => str_member(ms@[2 + tn], "failed_reason"@, r@),
            }
            &&& match o.tool_calls {
                Option::None => true,
                Option::Some(cs) => ms@[2 + tn + fr].key@ == "tool_calls"@ && tool_calls_encoded(
                    ms@[2 + tn + fr].value,
                    cs,
                ),
            }
            &&& match o.resources {
                Option::None => true,
                Option::Some(rs) => ms@[2 + tn + fr + cn].key@ == "resources"@
                    && resources_encoded(ms@[2 + tn + fr + cn].value, rs),
            }
        },
        _ => false,
    }
}

/// Writes the wire form of the usage triple.
pub fn encode_usage(u: &Usage) -> (j: Json)
    ensures
        usage_encoded(j, *u),
{
    let mut ms: Vec<Member> = Vec::new();
    ms.push(Member { key: "input_tokens".to_owned(), value: Json::UInt(u.input_tokens) });
    ms.push(Member { key: "output_tokens".to_owned(), value: Json::UInt(u.output_tokens) });
    ms.push(Member { key: "requests".to_owned(), value: Json::UInt(u.requests) });
    Json::Obj(ms)
}

/// Writes the wire form of one not-yet-resolved tool call; a call whose
/// result slot is already filled holds an opaque payload this codec does
/// not write, so it is refused.
pub fn encode_tool_call(c: &ToolCall) -> (r: Option<Json>)
    ensures
        r is Some <==> c.result is None,
        r matches Some(j) ==> tool_call_encoded(j, *c),
{
    if c.result.is_some() {
        return None;
    }
    let mut ms: Vec<Member> = Vec::new();
    ms.push(Member { key: "id".to_owned(), value: Json::Str(c.id.clone()) });
    ms.push(Member { key: "name".to_owned(), value: Json::Str(c.name.clone()) });
    ms.push(Member { key: "args".to_owned(), value: Json::Str(c.args.clone()) });
    Some(Json::Obj(ms))
}

/// Writes the wire form of a tool-call list, refusing a list in which some
/// call already holds a result payload.
pub fn encode_tool_calls(cs: &Vec<ToolCall>) -> (r: Option<Json>)
    ensures
        r is Some <==> (forall|i: int| 0 <= i < cs@.len() ==> (#[trigger] cs@[i]).result is None),
        r matches Some(j) ==> tool_calls_encoded(j, *cs),
{
    let mut es: Vec<Json> = Vec::new();
    let mut i: usize = 0;
    while i < cs.len()
        invariant
            i <= cs.len(),
            es@.len() == i,
            forall|k: int| 0 <= k < i ==> tool_call_encoded(#[trigger] es@[k], cs@[k]),
            forall|k: int| 0 <= k < i ==> (#[trigger] cs@[k]).result is None,
        decreases cs.len() - i,
    {
        match encode_tool_call(&cs[i]) {
            Some(j) => es.push(j),
            None => {
                return None;
            },
        }
        i += 1;
    }
    Some(Json::Arr(es))
}

/// Writes the wire form of an agent output: returns `Some` exactly when the
/// output is encodable, that is, when none of its fields holds an opaque
/// payload.
pub fn encode_agent_output(o: &AgentOutput) -> (r: Option<Json>)
    ensures
        r is Some <==> agent_output_encodable(*o),
        r matches Some(j) ==> agent_output_encoded(j, *o),
{
    if o.full_history.is_some() {
        return None;
    }
    let calls_value = match &o.tool_calls {
        Some(cs) => {
            match encode_tool_calls(cs) {
                Some(j) => Some(j),
                None => {
                    return None;
                },
            }
        },
        None => None,
    };
    let mut ms: Vec<Member> = Vec::new();
    ms.push(Member { key: "content".to_owned(), value: Json::Str(o.content.clone()) });
    ms.push(Member { key: "usage".to_owned(), value: encode_usage(&o.usage) });
    match &o.thread {
        Some(t) => ms.push(Member { key: "thread".to_owned(), value: Json::Str(t.id.clone()) }),
        None => (),
    }
    match &o.failed_reason {
        Some(fr) => ms.push(
            Member { key: "failed_reason".to_owned(), value: Json::Str(fr.clone()) },
        ),
        None => (),
    }
    match calls_value {
        Some(cv) => ms.push(Member { key: "tool_calls".to_owned(), value: cv }),
        None => (),
    }
    match &o.resources {
        Some(rs) => ms.push(Member { key: "resources".to_owned(), value: encode_resources(rs) }),
        None => (),
    }
    Some(Json::Obj(ms))
}

/// Reads a usage triple back from its wire form.
pub fn decode_usage(j: &Json) -> (r: Option<Usage>)
    ensures
        r matches Some(u) ==> usage_encoded(*j, u),
        forall|u: Usage| usage_encoded(*j, u) ==> r is Some,
{
    match j {
        Json::Obj(ms) => {
            if ms.len() != 3 {
                return None;
            }
            let in_key: String = "input_tokens".to_owned();
            let out_key: String = "output_tokens".to_owned();
            let req_key: String = "requests".to_owned();
            if !(ms[0].key == in_key) || !(ms[1].key == out_key) || !(ms[2].key == req_key) {
                return None;
            }
            let input_tokens = match &ms[0].value {
                Json::UInt(v) => *v,
                _ => {
                    return None;
                },
            };
            let output_tokens = match &ms[1].value {
                Json::UInt(v) => *v,
                _ => {
                    return None;
                },
            };
            let requests = match &ms[2].value {
                Json::UInt(v) => *v,
                _ => {
                    return None;
                },
            };
            Some(Usage { input_tokens, output_tokens, requests })
        },
        _ => None,
    }
}

/// Reads a not-yet-resolved tool call back from its wire form: the result
/// slot of the decoded call is empty.
pub fn decode_tool_call(j: &Json) -> (r: Option<ToolCall>)
    ensures
        r matches Some(c) ==> tool_call_encoded(*j, c),
        forall|c: ToolCall| tool_call_encoded(*j, c) ==> r is Some,
{
    match j {
        Json::Obj(ms) => {
            if ms.len() != 3 {
                return None;
            }
            let id_key: String = "id".to_owned();
            let name_key: String = "name".to_owned();
            let args_key: String = "args".to_owned();
            if !(ms[0].key == id_key) || !(ms[1].key == name_key) || !(ms[2].key == args_key) {
                return None;
            }
            let id = match &ms[0].value {
                Json::Str(s) => s.clone(),
                _ => {
                    return None;
                },
            };
            let name = match &ms[1].value {
                Json::Str(s) => s.clone(),
                _ => {
                    return None;
                },
            };
            let args = match &ms[2].value {
                Json::Str(s) => s.clone(),
                _ => {
                    return None;
                },
            };
            Some(ToolCall { id, name, args, result: None })
        },
        _ => None,
    }
}

/// Reads a tool-call list back from its wire form.
pub fn decode_tool_calls(j: &Json) -> (r: Option<Vec<ToolCall>>)
    ensures
        r matches Some(cs) ==> tool_calls_encoded(*j, cs),
        forall|cs: Vec<ToolCall>| tool_calls_encoded(*j, cs) ==> r is Some,
{
    match j {
        Json::Arr(es) => {
            let mut out: Vec<ToolCall> = Vec::new();
            let mut i: usize = 0;
            while i < es.len()
                invariant
                    *j is Arr,
                    (*j)->Arr_0 == *es,
                    i <= es.len(),
                    out@.len() == i,
                    forall|k: int| 0 <= k < i ==> tool_call_encoded(#[trigger] es@[k], out@[k]),
                decreases es.len() - i,
            {
                match decode_tool_call(&es[i]) {
                    Some(c) => out.push(c),
                    None => {
                        proof {
                            assert forall|cs: Vec<ToolCall>| !tool_calls_encoded(*j, cs) by {
                                if tool_calls_encoded(*j, cs) {
                                    let es2 = (*j)->Arr_0;
                                    assert(es2 == *es);
                                    assert(tool_call_encoded(es2@[i as int], cs@[i as int]));
                                }
                            }
                        }
                        return None;
                    },
                }
                i += 1;
            }
            Some(out)
        },
        _ => None,
    }
}

/// Reads an agent output back from its wire form: accepts exactly the wire
/// forms that `encode_agent_output` writes.
pub fn decode_agent_output(j: &Json) -> (r: Option<AgentOutput>)
    ensures
        r matches Some(o) ==> agent_output_encoded(*j, o),
        forall|o: AgentOutput| agent_output_encoded(*j, o) ==> r is Some,
{
    proof {
        reveal_strlit("thread");
        reveal_strlit("failed_reason");
        reveal_strlit("tool_calls");
        reveal_strlit("resources");
        assert("thread"@.len() == 6);
        assert("failed_reason"@.len() == 13);
        assert("tool_calls"@.len() == 10);
        assert("resources"@.len() == 9);
    }
    match j {
        Json::Obj(ms) => {
            if ms.len() < 2 || ms.len() > 6 {
                return None;
            }
            let content_key: String = "content".to_owned();
            let usage_key: String = "usage".to_owned();
            let thread_key: String = "thread".to_owned();
            let failed_key: String = "failed_reason".to_owned();
            let calls_key: String = "tool_calls".to_owned();
            let resources_key: String = "resources".to_owned();
            if !(ms[0].key == content_key) || !(ms[1].key == usage_key) {
                return None;
            }
            let content = match &ms[0].value {
                Json::Str(s) => s.clone(),
                _ => {
                    return None;
                },
            };
            let usage = match decode_usage(&ms[1].value) {
                Some(u) => u,
                None => {
                    return None;
                },
            };
            let mut idx: usize = 2;
            let mut thread: Option<ThreadId> = None;
            let mut failed_reason: Option<String> = None;
            let mut tool_calls: Option<Vec<ToolCall>> = None;
            let mut resources: Option<Vec<Resource>> = None;
            if idx < ms.len() && ms[idx].key == thread_key {
                match &ms[idx].value {
                    Json::Str(s) => {
                        thread = Some(ThreadId { id: s.clone() });
                        idx += 1;
                    },
                    _ => {
                        return None;
                    },
                }
            }
            if idx < ms.len() && ms[idx].key == failed_key {
                match &ms[idx].value {
                    Json::Str(s) => {
                        failed_reason = Some(s.clone());
                        idx += 1;
                    },
                    _ => {
                        return None;
                    },
                }
            }
            if idx < ms.len() && ms[idx].key == calls_key {
                match decode_tool_calls(&ms[idx].value) {
                    Some(cs) => {
                        tool_calls = Some(cs);
                        idx += 1;
                    },
                    None => {
                        return None;
                    },
                }
            }
            if idx < ms.len() && ms[idx].key == resources_key {
                match decode_resources(&ms[idx].value) {
                    Some(rs) => {
                        resources = Some(rs);
                        idx += 1;
                    },
                    None => {
                        return None;
                    },
                }
            }
            if idx != ms.len() {
                return None;
            }
            Some(
                AgentOutput {
                    content,
                    usage,
                    thread,
                    failed_reason,
                    tool_calls,
                    full_history: None,
                    resources,
                },
            )
        },
        _ => None,
    }
}

/// Law: a wire form determines the usage triple it carries.
pub proof fn lemma_wire_determines_usage(j: Json, a: Usage, b: Usage)
    requires
        usage_encoded(j, a),
        usage_encoded(j, b),
    ensures
        a == b,
{
}

/// Law: a wire form determines the tool call it carries, and only calls
/// with an empty result slot have a wire form.
pub proof fn lemma_wire_determines_tool_call(j: Json, a: ToolCall, b: ToolCall)
    requires
        tool_call_encoded(j, a),
        tool_call_encoded(j, b),
    ensures
        a.id@ == b.id@,
        a.name@ == b.name@,
        a.args@ == b.args@,
        a.result is None && b.result is None,
{
}

/// Law: a wire form determines the agent output it carries. Together with
/// the codec contracts this is the round trip for agent outputs: every
/// field of the decoded output — absent optional fields included — agrees
/// with the encoded one.
pub proof fn lemma_wire_determines_agent_output(j: Json, a: AgentOutput, b: AgentOutput)
    requires
        agent_output_encoded(j, a),
        agent_output_encoded(j, b),
    ensures
        a.content@ == b.content@,
        a.usage == b.usage,
        a.full_history is None && b.full_history is None,
        a.thread is Some <==> b.thread is Some,
        a.thread is Some && b.thread is Some ==> a.thread->0.id@ == b.thread->0.id@,
        a.failed_reason is Some <==> b.failed_reason is Some,
        a.failed_reason is Some && b.failed_reason is Some ==> a.failed_reason->0@
            == b.failed_reason->0@,
        a.tool_calls is Some <==> b.tool_calls is Some,
        a.tool_calls is Some && b.tool_calls is Some ==> a.tool_calls->0@.len()
            == b.tool_calls->0@.len() && (forall|i: int|
            0 <= i < a.tool_calls->0@.len() ==> (#[trigger] a.tool_calls->0@[i]).id@
                == b.tool_calls->0@[i].id@ && a.tool_calls->0@[i].name@
                == b.tool_calls->0@[i].name@ && a.tool_calls->0@[i].args@
                == b.tool_calls->0@[i].args@ && a.tool_calls->0@[i].result is None
                && b.tool_calls->0@[i].result is None),
        a.resources is Some <==> b.resources is Some,
        a.resources is Some && b.resources is Some ==> a.resources->0@.len()
            == b.resources->0@.len() && (forall|i: int|
            0 <= i < a.resources->0@.len() ==> (#[trigger] a.resources->0@[i]).id@
                == b.resources->0@[i].id@ && a.resources->0@[i].tag@ == b.resources->0@[i].tag@),
{
    reveal_strlit("thread");
    reveal_strlit("failed_reason");
    reveal_strlit("tool_calls");
    reveal_strlit("resources");
    assert("thread"@.len() == 6);
    assert("failed_reason"@.len() == 13);
    assert("tool_calls"@.len() == 10);
    assert("resources"@.len() == 9);
    let ms = j->Obj_0;
    lemma_wire_determines_usage(ms@[1].value, a.usage, b.usage);
    // a mismatch in presence would put two different keys on the same
    // member, which the key lengths rule out
    if a.thread is Some && b.thread is None {
        assert(ms@[2].key@ == "thread"@);
        if b.failed_reason is Some {
            assert(ms@[2].key@ == "failed_reason"@);
        } else if b.tool_calls is Some {
            assert(ms@[2].key@ == "tool_calls"@);
        } else if b.resources is Some {
            assert(ms@[2].key@ == "resources"@);
        } else {
            assert(ms@.len() == 2);
        }
    }
    if b.thread is Some && a.thread is None {
        assert(ms@[2].key@ == "thread"@);
        if a.failed_reason is Some {
            assert(ms@[2].key@ == "failed_reason"@);
        } else if a.tool_calls is Some {
            assert(ms@[2].key@ == "tool_calls"@);
        } else if a.resources is Some {
            assert(ms@[2].key@ == "resources"@);
        } else {
            assert(ms@.len() == 2);
        }
    }
    let tn: int = if a.thread is Some { 1 } else { 0 };
    if a.failed_reason is Some && b.failed_reason is None {
        assert(ms@[2 + tn].key@ == "failed_reason"@);
        if b.tool_calls is Some {
            assert(ms@[2 + tn].key@ == "tool_calls"@);
        } else if b.resources is Some {
            assert(ms@[2 + tn].key@ == "resources"@);
        } else {
            assert(ms@.len() == 2 + tn);
        }
    }
    if b.failed_reason is Some && a.failed_reason is None {
        assert(ms@[2 + tn].key@ == "failed_reason"@);
        if a.tool_calls is Some {
            assert(ms@[2 + tn].key@ == "tool_calls"@);
        } else if a.resources is Some {
            assert(ms@[2 + tn].key@ == "resources"@);
        } else {
            assert(ms@.len() == 2 + tn);
        }
    }
    let fr: int = if a.failed_reason is Some { 1 } else { 0 };
    if a.tool_calls is Some && b.tool_calls is None {
        assert(ms@[2 + tn + fr].key@ == "tool_calls"@);
        if b.resources is Some {
            assert(ms@[2 + tn + fr].key@ == "resources"@);
        } else {
            assert(ms@.len() == 2 + tn + fr);
        }
    }
    if b.tool_calls is Some && a.tool_calls is None {
        assert(ms@[2 + tn + fr].key@ == "tool_calls"@);
        if a.resources is Some {
            assert(ms@[2 + tn + fr].key@ == "resources"@);
        } else {
            assert(ms@.len() == 2 + tn + fr);
        }
    }
    let cn: int = if a.tool_calls is Some { 1 } else { 0 };
    if a.tool_calls is Some && b.tool_calls is Some {
        let ca = a.tool_calls->0;
        let cb = b.tool_calls->0;
        assert forall|i: int|
            0 <= i < ca@.len() implies (#[trigger] ca@[i]).id@ == cb@[i].id@ && ca@[i].name@
            == cb@[i].name@ && ca@[i].args@ == cb@[i].args@ && ca@[i].result is None
            && cb@[i].result is None by {
            let es = ms@[2 + tn + fr].value->Arr_0;
            assert(tool_call_encoded(es@[i], ca@[i]));
            assert(tool_call_encoded(es@[i], cb@[i]));
            lemma_wire_determines_tool_call(es@[i], ca@[i], cb@[i]);
        }
    }
    if a.resources is Some && b.resources is Some {
        let ra = a.resources->0;
        let rb = b.resources->0;
        assert forall|i: int|
            0 <= i < ra@.len() implies (#[trigger] ra@[i]).id@ == rb@[i].id@ && ra@[i].tag@
            == rb@[i].tag@ by {
            let es = ms@[2 + tn + fr + cn].value->Arr_0;
            assert(resource_encoded(es@[i], ra@[i]));
            assert(resource_encoded(es@[i], rb@[i]));
            lemma_wire_determines_resource(es@[i], ra@[i], rb@[i]);
        }
    }
}

/// The wire form of a tool input whose argument payload is itself a wire
/// document: `name` and `args` always written, `args` carried verbatim,
/// `resources` and `meta` omitted when absent.
pub open spec fn tool_input_encoded(j: Json, x: ToolInput<Json>) -> bool {
    match j {
        Json::Obj(ms) => {
            let rn: int = if x.resources is Some { 1 } else { 0 };
            let mn: int = if x.meta is Some { 1 } else { 0 };
            &&& ms@.len() == 2 + rn + mn
            &&& str_member(ms@[0], "name"@, x.name@)
            &&& ms@[1].key@ == "args"@
            &&& ms@[1].value == x.args
            &&& match x.resources {
                Option::None => true,
                Option::Some(rs) => ms@[2].key@ == "resources"@ && resources_encoded(
                    ms@[2].value,
                    rs,
                ),
            }
            &&& match x.meta {
                Option::None => true,
                Option::Some(mt) => ms@[2 + rn].key@ == "meta"@ && meta_encoded(
                    ms@[2 + rn].value,
                    mt,
                ),
            }
        },
        _ => false,
    }
}

/// A tool input fit for the wire: any metadata it carries is.
pub open spec fn tool_input_wf(x: ToolInput<Json>) -> bool {
    match x.meta {
        Option::None => true,
        Option::Some(m) => meta_wf(m),
    }
}

/// The wire form of a tool output whose result payload is itself a wire
/// document: `output` carried verbatim, `resources` omitted when absent,
/// `usage` always written last.
pub open spec fn tool_output_encoded(j: Json, x: ToolOutput<Json>) -> bool {
    match j {
        Json::Obj(ms) => {
            let rn: int = if x.resources is Some { 1 } else { 0 };
            &&& ms@.len() == 2 + rn
            &&& ms@[0].key@ == "output"@
            &&& ms@[0].value == x.output
            &&& match x.resources {
                Option::None => true,
                Option::Some(rs) => ms@[1].key@ == "resources"@ && resources_encoded(
                    ms@[1].value,
                    rs,
                ),
            }
            &&& ms@[1 + rn].key@ == "usage"@
            &&& usage_encoded(ms@[1 + rn].value, x.usage)
        },
        _ => false,
    }
}

/// Writes the wire form of a tool input, carrying the argument document
/// verbatim.
pub fn encode_tool_input(x: ToolInput<Json>) -> (j: Json)
    ensures
        tool_input_encoded(j, x),
{
    let ToolInput { name, args, resources, meta } = x;
    let mut ms: Vec<Member> = Vec::new();
    ms.push(Member { key: "name".to_owned(), value: Json::Str(name) });
    ms.push(Member { key: "args".to_owned(), value: args });
    match &resources {
        Some(rs) => ms.push(Member { key: "resources".to_owned(), value: encode_resources(rs) }),
        None => (),
    }
    match &meta {
        Some(mt) => ms.push(Member { key: "meta".to_owned(), value: encode_request_meta(mt) }),
        None => (),
    }
    Json::Obj(ms)
}

/// Writes the wire form of a tool output, carrying the result document
/// verbatim.
pub fn encode_tool_output(x: ToolOutput<Json>) -> (j: Json)
    ensures
        tool_output_encoded(j, x),
{
    let ToolOutput { output, resources, usage } = x;
    let mut ms: Vec<Member> = Vec::new();
    ms.push(Member { key: "output".to_owned(), value: output });
    match &resources {
        Some(rs) => ms.push(Member { key: "resources".to_owned(), value: encode_resources(rs) }),
        None => (),
    }
    ms.push(Member { key: "usage".to_owned(), value: encode_usage(&usage) });
    Json::Obj(ms)
}

/// Reads a tool input back from its wire form, taking the argument
/// document verbatim: accepts exactly the wire forms of well-formed tool
/// inputs.
pub fn decode_tool_input(j: Json) -> (r: Option<ToolInput<Json>>)
    ensures
        r matches Some(x) ==> tool_input_encoded(j, x) && tool_input_wf(x),
        forall|x: ToolInput<Json>| tool_input_encoded(j, x) && tool_input_wf(x) ==> r is Some,
{
    proof {
        reveal_strlit("resources");
        reveal_strlit("meta");
        assert("resources"@.len() == 9);
        assert("meta"@.len() == 4);
    }
    match j {
        Json::Obj(ms) => {
            if ms.len() < 2 || ms.len() > 4 {
                return None;
            }
            let name_key: String = "name".to_owned();
            let args_key: String = "args".to_owned();
            let resources_key: String = "resources".to_owned();
            let meta_key: String = "meta".to_owned();
            if !(ms[0].key == name_key) || !(ms[1].key == args_key) {
                return None;
            }
            let name = match &ms[0].value {
                Json::Str(s) => s.clone(),
                _ => {
                    return None;
                },
            };
            let mut idx: usize = 2;
            let mut resources: Option<Vec<Resource>> = None;
            let mut meta: Option<RequestMeta> = None;
            if idx < ms.len() && ms[idx].key == resources_key {
                match decode_resources(&ms[idx].value) {
                    Some(rs) => {
                        resources = Some(rs);
                        idx += 1;
                    },
                    None => {
                        return None;
                    },
                }
            }
            if idx < ms.len() && ms[idx].key == meta_key {
                match decode_request_meta(&ms[idx].value) {
                    Some(m) => {
                        meta = Some(m);
                        idx += 1;
                    },
                    None => {
                        return None;
                    },
                }
            }
            if idx != ms.len() {
                return None;
            }
            let mut ms = ms;
            let args_member = ms.remove(1);
            Some(ToolInput { name, args: args_member.value, resources, meta })
        },
        _ => None,
    }
}

/// Reads a tool output back from its wire form, taking the result document
/// verbatim.
pub fn decode_tool_output(j: Json) -> (r: Option<ToolOutput<Json>>)
    ensures
        r matches Some(x) ==> tool_output_encoded(j, x),
        forall|x: ToolOutput<Json>| tool_output_encoded(j, x) ==> r is Some,
{
    match j {
        Json::Obj(ms) => {
            if ms.len() < 2 || ms.len() > 3 {
                return None;
            }
            let output_key: String = "output".to_owned();
            let resources_key: String = "resources".to_owned();
            let usage_key: String = "usage".to_owned();
            if !(ms[0].key == output_key) {
                return None;
            }
            let mut idx: usize = 1;
            let mut resources: Option<Vec<Resource>> = None;
            if idx + 1 < ms.len() && ms[idx].key == resources_key {
                match decode_resources(&ms[idx].value) {
                    Some(rs) => {
                        resources = Some(rs);
                        idx += 1;
                    },
                    None => {
                        return None;
                    },
                }
            }
            if idx + 1 != ms.len() || !(ms[idx].key == usage_key) {
                return None;
            }
            let usage = match decode_usage(&ms[idx].value) {
                Some(u) => u,
                None => {
                    return None;
                },
            };
            let mut ms = ms;
            let output_member = ms.remove(0);
            Some(ToolOutput { output: output_member.value, resources, usage })
        },
        _ => None,
    }
}

/// Law: a wire form determines the tool input it carries, the argument
/// document exactly.
pub proof fn lemma_wire_determines_tool_input(j: Json, a: ToolInput<Json>, b: ToolInput<Json>)
    requires
        tool_input_encoded(j, a),
        tool_input_encoded(j, b),
    ensures
        a.name@ == b.name@,
        a.args == b.args,
        a.resources is Some <==> b.resources is Some,
        a.resources is Some && b.resources is Some ==> a.resources->0@.len()
            == b.resources->0@.len() && (forall|i: int|
            0 <= i < a.resources->0@.len() ==> (#[trigger] a.resources->0@[i]).id@
                == b.resources->0@[i].id@ && a.resources->0@[i].tag@ == b.resources->0@[i].tag@),
        a.meta is Some <==> b.meta is Some,
        a.meta is Some && b.meta is Some ==> {
            let ma = a.meta->0;
            let mb = b.meta->0;
            &&& (ma.engine is Some <==> mb.engine is Some)
            &&& (ma.engine is Some && mb.engine is Some ==> ma.engine->0.bytes@
                == mb.engine->0.bytes@)
            &&& (ma.thread is Some <==> mb.thread is Some)
            &&& (ma.thread is Some && mb.thread is Some ==> ma.thread->0.id@ == mb.thread->0.id@)
            &&& (ma.user is Some <==> mb.user is Some)
            &&& (ma.user is Some && mb.user is Some ==> ma.user->0@ == mb.user->0@)
        },
{
    reveal_strlit("resources");
    reveal_strlit("meta");
    assert("resources"@.len() == 9);
    assert("meta"@.len() == 4);
    let ms = j->Obj_0;
    // a mismatch in presence would put two different keys on the same
    // member, which the key lengths rule out
    if a.resources is Some && b.resources is None {
        assert(ms@[2].key@ == "resources"@);
        assert(ms@[2].key@ == "meta"@);
    }
    if b.resources is Some && a.resources is None {
        assert(ms@[2].key@ == "resources"@);
        assert(ms@[2].key@ == "meta"@);
    }
    if a.resources is Some && b.resources is Some {
        let ra = a.resources->0;
        let rb = b.resources->0;
        assert forall|i: int|
            0 <= i < ra@.len() implies (#[trigger] ra@[i]).id@ == rb@[i].id@ && ra@[i].tag@
            == rb@[i].tag@ by {
            let es = ms@[2].value->Arr_0;
            assert(resource_encoded(es@[i], ra@[i]));
            assert(resource_encoded(es@[i], rb@[i]));
            lemma_wire_determines_resource(es@[i], ra@[i], rb@[i]);
        }
    }
    if a.meta is Some && b.meta is Some {
        let rn: int = if a.resources is Some {
            1
        } else {
            0
        };
        lemma_wire_determines_meta(ms@[2 + rn].value, a.meta->0, b.meta->0);
    }
}

/// Law: a wire form determines the tool output it carries, the result
/// document exactly.
pub proof fn lemma_wire_determines_tool_output(j: Json, a: ToolOutput<Json>, b: ToolOutput<Json>)
    requires
        tool_output_encoded(j, a),
        tool_output_encoded(j, b),
    ensures
        a.output == b.output,
        a.usage == b.usage,
        a.resources is Some <==> b.resources is Some,
        a.resources is Some && b.resources is Some ==> a.resources->0@.len()
            == b.resources->0@.len() && (forall|i: int|
            0 <= i < a.resources->0@.len() ==> (#[trigger] a.resources->0@[i]).id@
                == b.resources->0@[i].id@ && a.resources->0@[i].tag@ == b.resources->0@[i].tag@),
{
    let ms = j->Obj_0;
    let rn: int = if a.resources is Some {
        1
    } else {
        0
    };
    lemma_wire_determines_usage(ms@[1 + rn].value, a.usage, b.usage);
    if a.resources is Some && b.resources is Some {
        let ra = a.resources->0;
        let rb = b.resources->0;
        assert forall|i: int|
            0 <= i < ra@.len() implies (#[trigger] ra@[i]).id@ == rb@[i].id@ && ra@[i].tag@
            == rb@[i].tag@ by {
            let es = ms@[1].value->Arr_0;
            assert(resource_encoded(es@[i], ra@[i]));
            assert(resource_encoded(es@[i], rb@[i]));
            lemma_wire_determines_resource(es@[i], ra@[i], rb@[i]);
        }
    }
}

} // verus!
