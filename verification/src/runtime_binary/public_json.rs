//! The public JSON of an invocation's output, as the kernel binary answers it.
use vstd::prelude::*;

use super::{at, count_value, entry, insert_runtime_binary_contract_metadata, metadata_added, is_flag, is_int, is_opt_int, is_opt_text, is_text, members, named, opt_int, opt_string_text, text, RUNTIME_BINARY_PROTOCOL};
use crate::fields::{entries_map, PublicFields};
use crate::installed_manifest::mode_name;
use crate::invocation_runtime::result::{KernelInvocationRuntimeOutput, KernelInvocationStatus};
use crate::json::JsonValue;
use crate::route_runtime::{contract_text, format_contract};
use crate::text::{opt_view, str_eq};

verus! {

broadcast use vstd::string::group_string_axioms;

/// `v` is the object of the text fields `m`, one member per field.
pub open spec fn text_object_of(v: JsonValue, m: Map<Seq<char>, Seq<char>>) -> bool {
    v is Object && exists|e: Seq<(String, String)>| #![trigger entries_map(e)]
        entries_map(e) == m && members(v).len() == e.len() && forall|i: int| 0 <= i < e.len()
            ==> (#[trigger] members(v)[i]).0@ == e[i].0@ && is_text(members(v)[i].1, e[i].1@)
}

/// Whether the output's result fields say it went through the runtime binary.
pub open spec fn via_runtime_binary(o: KernelInvocationRuntimeOutput) -> bool {
    o.result matches Some(r) && r.public_fields@.contains_key("kernel_invocation_path"@)
        && r.public_fields@["kernel_invocation_path"@] == "binary"@
}

/// The invocation id shown: the result's, else the event's.
pub open spec fn shown_invocation_id(o: KernelInvocationRuntimeOutput) -> Option<Seq<char>> {
    match o.result {
        Some(r) => Some(r.invocation_id@),
        None => match o.event {
            Some(e) => Some(e.invocation_id@),
            None => None,
        },
    }
}

/// The trace id shown: the result's, else the event's.
pub open spec fn shown_trace_id(o: KernelInvocationRuntimeOutput) -> Option<Seq<char>> {
    match o.result {
        Some(r) => Some(r.trace_id@),
        None => match o.event {
            Some(e) => Some(e.trace_context.trace_id@),
            None => None,
        },
    }
}

/// The operation shown: the result's, else the route's.
pub open spec fn shown_operation(o: KernelInvocationRuntimeOutput) -> Option<Seq<char>> {
    match o.result {
        Some(r) => Some(r.operation@),
        None => match o.route {
            Some(route) => Some(route.operation@),
            None => None,
        },
    }
}

/// The route shown: the result's route, else the output's route with its
/// contract written out, else `null`.
pub open spec fn route_shown(o: KernelInvocationRuntimeOutput, v: JsonValue) -> bool {
    match o.result {
        Some(r) if r.route is Some => {
            let route = r.route->Some_0;
            &&& members(v).len() == 4
            &&& named(v, 0, "component_id"@) && is_text(at(v, 0), route.component_id@)
            &&& named(v, 1, "app_id"@) && is_text(at(v, 1), route.app_id@)
            &&& named(v, 2, "capability_id"@) && is_text(at(v, 2), route.capability_id@)
            &&& named(v, 3, "contract_version"@) && is_text(at(v, 3), route.contract_version@)
        },
        _ => match o.route {
            Some(route) => {
                &&& members(v).len() == 4
                &&& named(v, 0, "component_id"@) && is_text(at(v, 0), route.component_id@)
                &&& named(v, 1, "app_id"@) && is_text(at(v, 1), route.app_id@)
                &&& named(v, 2, "capability_id"@) && is_text(at(v, 2), route.capability_id@)
                &&& named(v, 3, "contract_version"@) && is_text(at(v, 3), contract_text(route.contract_version))
            },
            None => v is Null,
        },
    }
}

/// The handler kind shown.
pub open spec fn shown_handler_kind(o: KernelInvocationRuntimeOutput) -> Option<Seq<char>> {
    if via_runtime_binary(o) { Some("kernel_runtime_binary"@) } else { opt_view(o.handler_kind) }
}

/// The invocation mode shown.
pub open spec fn shown_invocation_mode(o: KernelInvocationRuntimeOutput) -> Option<Seq<char>> {
    if via_runtime_binary(o) {
        Some("local_process"@)
    } else {
        match o.route {
            Some(route) => Some(mode_name(route.invocation_mode)),
            None => None,
        }
    }
}

/// The transport shown.
pub open spec fn shown_transport(o: KernelInvocationRuntimeOutput) -> Option<Seq<char>> {
    if via_runtime_binary(o) { Some("stdio_jsonl"@) } else { opt_view(o.transport) }
}

/// Whether the first-party in-process adapter answered: the runtime status
/// served in process, not through the binary.
pub open spec fn first_party_adapter(o: KernelInvocationRuntimeOutput) -> bool {
    &&& !via_runtime_binary(o)
    &&& opt_view(o.handler_kind) == Some("in_process"@)
    &&& o.result matches Some(r) && opt_view(r.result_kind) == Some("runtime.status"@)
}

/// The `handler` object of the public JSON.
pub open spec fn handler_shown(o: KernelInvocationRuntimeOutput, v: JsonValue) -> bool {
    &&& members(v).len() == 9
    &&& named(v, 0, "kind"@) && is_opt_text(at(v, 0), shown_handler_kind(o))
    &&& named(v, 1, "invocation_mode"@) && is_opt_text(at(v, 1), shown_invocation_mode(o))
    &&& named(v, 2, "transport"@) && is_opt_text(at(v, 2), shown_transport(o))
    &&& named(v, 3, "process_exit_code"@) && is_opt_int(at(v, 3), o.process_exit_code)
    &&& named(v, 4, "executed"@) && is_flag(at(v, 4), o.handler_executed)
    &&& named(v, 5, "event_generated"@) && is_flag(at(v, 5), o.event_generated)
    &&& named(v, 6, "spawned_process"@) && is_flag(at(v, 6), o.spawned_process || via_runtime_binary(o))
    &&& named(v, 7, "called_real_component"@) && is_flag(at(v, 7), o.called_real_component)
    &&& named(v, 8, "first_party_in_process_adapter"@) && is_flag(at(v, 8), first_party_adapter(o))
}

/// The `ledger` object of the public JSON.
pub open spec fn ledger_shown(o: KernelInvocationRuntimeOutput, v: JsonValue) -> bool {
    &&& members(v).len() == 3
    &&& named(v, 0, "appended"@) && is_flag(at(v, 0), o.ledger_appended)
    &&& named(v, 1, "path"@) && is_opt_text(at(v, 1), opt_view(o.ledger_path))
    &&& named(v, 2, "records"@) && is_int(at(v, 2), o.ledger_record_count as int)
}

/// The result fields shown: the result's public fields, with the contract
/// metadata set when the invocation went through the binary.
pub open spec fn fields_shown(o: KernelInvocationRuntimeOutput, v: JsonValue) -> bool {
    match o.result {
        Some(r) => if via_runtime_binary(o) {
            v is Object && exists|base: JsonValue| #![trigger text_object_of(base, r.public_fields@)]
                text_object_of(base, r.public_fields@) && metadata_added(members(base), members(v))
        } else {
            text_object_of(v, r.public_fields@)
        },
        None => v is Object && members(v).len() == 0,
    }
}

/// The `result` object of the public JSON.
pub open spec fn result_shown(o: KernelInvocationRuntimeOutput, v: JsonValue) -> bool {
    &&& members(v).len() == 3
    &&& named(v, 0, "kind"@) && is_opt_text(at(v, 0), match o.result {
        Some(r) => opt_view(r.result_kind),
        None => None,
    })
    &&& named(v, 1, "summary"@) && is_opt_text(at(v, 1), match o.result {
        Some(r) => Some(r.summary@),
        None => None,
    })
    &&& named(v, 2, "fields"@) && fields_shown(o, at(v, 2))
}

/// The `failure` object of the public JSON.
pub open spec fn failure_shown(o: KernelInvocationRuntimeOutput, v: JsonValue) -> bool {
    &&& members(v).len() == 2
    &&& named(v, 0, "stage"@) && is_opt_text(at(v, 0), opt_view(o.failure_stage))
    &&& named(v, 1, "reason"@) && is_opt_text(at(v, 1), opt_view(o.failure_reason))
}

/// The name of an invocation status.
pub open spec fn status_name(s: KernelInvocationStatus) -> Seq<char> {
    match s {
        KernelInvocationStatus::Completed => "completed"@,
        KernelInvocationStatus::Failed => "failed"@,
    }
}

/// The public JSON of an invocation's output.
pub open spec fn public_json_of(o: KernelInvocationRuntimeOutput, v: JsonValue) -> bool {
    &&& members(v).len() == 9
    &&& named(v, 0, "invocation_id"@) && is_opt_text(at(v, 0), shown_invocation_id(o))
    &&& named(v, 1, "trace_id"@) && is_opt_text(at(v, 1), shown_trace_id(o))
    &&& named(v, 2, "operation"@) && is_opt_text(at(v, 2), shown_operation(o))
    &&& named(v, 3, "status"@) && is_text(at(v, 3), status_name(o.status))
    &&& named(v, 4, "route"@) && route_shown(o, at(v, 4))
    &&& named(v, 5, "handler"@) && handler_shown(o, at(v, 5))
    &&& named(v, 6, "ledger"@) && ledger_shown(o, at(v, 6))
    &&& named(v, 7, "result"@) && result_shown(o, at(v, 7))
    &&& named(v, 8, "failure"@) && failure_shown(o, at(v, 8))
}

/// The object of the text fields `fields`.
fn fields_object(fields: &PublicFields) -> (r: JsonValue)
    ensures
        text_object_of(r, fields@),
{
    let e = fields.entries();
    let mut ms: Vec<(String, JsonValue)> = Vec::new();
    let mut i: usize = 0;
    while i < e.len()
        invariant
            i <= e.len(),
            ms@.len() == i,
            forall|j: int| 0 <= j < i ==> (#[trigger] ms@[j]).0@ == e@[j].0@ && is_text(ms@[j].1, e@[j].1@),
        decreases e.len() - i,
    {
        ms.push((e[i].0.clone(), JsonValue::Str(e[i].1.clone())));
        i = i + 1;
    }
    let r = JsonValue::Object(ms);
    assert(members(r) == ms@);
    assert(entries_map(e@) == fields@);
    r
}

/// Whether the result fields say the invocation went through the binary.
fn is_via_runtime_binary(o: &KernelInvocationRuntimeOutput) -> (b: bool)
    ensures
        b == via_runtime_binary(*o),
{
    match &o.result {
        Some(r) => match r.public_fields.get("kernel_invocation_path") {
            Some(v) => str_eq(v.as_str(), "binary"),
            None => false,
        },
        None => false,
    }
}

fn route_json(o: &KernelInvocationRuntimeOutput) -> (r: JsonValue)
    ensures
        route_shown(*o, r),
{
    if let Some(res) = &o.result {
        if let Some(route) = &res.route {
            let mut ms: Vec<(String, JsonValue)> = Vec::new();
            ms.push(entry("component_id", text(route.component_id.as_str())));
            ms.push(entry("app_id", text(route.app_id.as_str())));
            ms.push(entry("capability_id", text(route.capability_id.as_str())));
            ms.push(entry("contract_version", text(route.contract_version.as_str())));
            return JsonValue::Object(ms);
        }
    }
    match &o.route {
        Some(route) => {
            let mut ms: Vec<(String, JsonValue)> = Vec::new();
            ms.push(entry("component_id", text(route.component_id.as_str())));
            ms.push(entry("app_id", text(route.app_id.as_str())));
            ms.push(entry("capability_id", text(route.capability_id.as_str())));
            let c = format_contract(&route.contract_version);
            ms.push(entry("contract_version", text(c.as_str())));
            JsonValue::Object(ms)
        },
        None => JsonValue::Null,
    }
}

fn handler_json(o: &KernelInvocationRuntimeOutput, binary: bool) -> (r: JsonValue)
    requires
        binary == via_runtime_binary(*o),
    ensures
        handler_shown(*o, r),
{
    let kind = if binary { text("kernel_runtime_binary") } else { opt_string_text(&o.handler_kind) };
    let mode = if binary {
        text("local_process")
    } else {
        match &o.route {
            Some(route) => text(route.invocation_mode.as_str()),
            None => JsonValue::Null,
        }
    };
    let transport = if binary { text(RUNTIME_BINARY_PROTOCOL) } else { opt_string_text(&o.transport) };
    let in_process = match &o.handler_kind {
        Some(k) => str_eq(k.as_str(), "in_process"),
        None => false,
    };
    let status_result = match &o.result {
        Some(res) => match &res.result_kind {
            Some(k) => str_eq(k.as_str(), "runtime.status"),
            None => false,
        },
        None => false,
    };
    let mut ms: Vec<(String, JsonValue)> = Vec::new();
    ms.push(entry("kind", kind));
    ms.push(entry("invocation_mode", mode));
    ms.push(entry("transport", transport));
    ms.push(entry("process_exit_code", opt_int(o.process_exit_code)));
    ms.push(entry("executed", JsonValue::Bool(o.handler_executed)));
    ms.push(entry("event_generated", JsonValue::Bool(o.event_generated)));
    ms.push(entry("spawned_process", JsonValue::Bool(o.spawned_process || binary)));
    ms.push(entry("called_real_component", JsonValue::Bool(o.called_real_component)));
    ms.push(entry("first_party_in_process_adapter", JsonValue::Bool(!binary && in_process && status_result)));
    proof {
        reveal_strlit("in_process");
        reveal_strlit("runtime.status");
    }
    JsonValue::Object(ms)
}

fn ledger_json(o: &KernelInvocationRuntimeOutput) -> (r: JsonValue)
    ensures
        ledger_shown(*o, r),
{
    let mut ms: Vec<(String, JsonValue)> = Vec::new();
    ms.push(entry("appended", JsonValue::Bool(o.ledger_appended)));
    ms.push(entry("path", opt_string_text(&o.ledger_path)));
    ms.push(entry("records", count_value(o.ledger_record_count)));
    JsonValue::Object(ms)
}

fn result_json(o: &KernelInvocationRuntimeOutput, binary: bool) -> (r: JsonValue)
    requires
        binary == via_runtime_binary(*o),
    ensures
        result_shown(*o, r),
{
    let mut ms: Vec<(String, JsonValue)> = Vec::new();
    match &o.result {
        Some(res) => {
            ms.push(entry("kind", opt_string_text(&res.result_kind)));
            ms.push(entry("summary", text(res.summary.as_str())));
            let base = fields_object(&res.public_fields);
            let fields = if binary {
                let ghost b = base;
                let mut fm = match base {
                    JsonValue::Object(fm) => fm,
                    _ => Vec::new(),
                };
                assert(fm@ == members(b));
                insert_runtime_binary_contract_metadata(&mut fm);
                let f = JsonValue::Object(fm);
                assert(members(f) == fm@);
                assert(text_object_of(b, res.public_fields@));
                f
            } else {
                base
            };
            ms.push(entry("fields", fields));
        },
        None => {
            ms.push(entry("kind", JsonValue::Null));
            ms.push(entry("summary", JsonValue::Null));
            ms.push(entry("fields", JsonValue::Object(Vec::new())));
        },
    }
    JsonValue::Object(ms)
}

fn failure_json(o: &KernelInvocationRuntimeOutput) -> (r: JsonValue)
    ensures
        failure_shown(*o, r),
{
    let mut ms: Vec<(String, JsonValue)> = Vec::new();
    ms.push(entry("stage", opt_string_text(&o.failure_stage)));
    ms.push(entry("reason", opt_string_text(&o.failure_reason)));
    JsonValue::Object(ms)
}

/// The public JSON of an invocation's output: ids, status, route, handler,
/// ledger, result and failure. An invocation that went through the runtime
/// binary is shown as a local process over `stdio_jsonl`, with the contract
/// metadata among its result fields.
pub fn kernel_invocation_result_public_json(output: &KernelInvocationRuntimeOutput) -> (r: JsonValue)
    ensures
        public_json_of(*output, r),
{
    let binary = is_via_runtime_binary(output);
    let invocation_id = match &output.result {
        Some(res) => text(res.invocation_id.as_str()),
        None => match &output.event {
            Some(e) => text(e.invocation_id.as_str()),
            None => JsonValue::Null,
        },
    };
    let trace_id = match &output.result {
        Some(res) => text(res.trace_id.as_str()),
        None => match &output.event {
            Some(e) => text(e.trace_context.trace_id.as_str()),
            None => JsonValue::Null,
        },
    };
    let operation = match &output.result {
        Some(res) => text(res.operation.as_str()),
        None => match &output.route {
            Some(route) => text(route.operation.as_str()),
            None => JsonValue::Null,
        },
    };
    let status = match output.status {
        KernelInvocationStatus::Completed => text("completed"),
        KernelInvocationStatus::Failed => text("failed"),
    };
    let mut ms: Vec<(String, JsonValue)> = Vec::new();
    ms.push(entry("invocation_id", invocation_id));
    ms.push(entry("trace_id", trace_id));
    ms.push(entry("operation", operation));
    ms.push(entry("status", status));
    ms.push(entry("route", route_json(output)));
    ms.push(entry("handler", handler_json(output, binary)));
    ms.push(entry("ledger", ledger_json(output)));
    ms.push(entry("result", result_json(output, binary)));
    ms.push(entry("failure", failure_json(output)));
    JsonValue::Object(ms)
}

} // verus!
