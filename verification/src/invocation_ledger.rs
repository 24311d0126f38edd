//! The invocation ledger: one JSON line per stage of an invocation.
use vstd::prelude::*;

use crate::clock::{new_random_state, random_state_token, unix_millis_now};
use crate::invocation::KernelInvocationEnvelope;
use crate::route_runtime::{contract_text, format_contract, join, join_strings, KernelRouteRuntimeOutput};
use crate::text::{occurs_at, opt_clone, append_str, ascii_lowercase, chars_of, contains_chars, contains_seq, decimal, owned, push_char, push_decimal, push_signed_decimal, signed_decimal, str_eq, to_ascii_lowercase};

verus! {

broadcast use vstd::string::group_string_axioms;

/// The schema of every ledger record.
pub const INVOCATION_LEDGER_SCHEMA: &'static str = "aicore.kernel.invocation_ledger.v1";

/// Where the ledger lives, and (for tests) a stage whose append it refuses.
#[derive(Debug, Clone, PartialEq, Eq)]
pub struct KernelInvocationLedger {
    path: String,
    fail_stage: Option<String>,
}

/// The error a ledger gives when it refuses to append `stage`.
pub open spec fn refusal_text(stage: Seq<char>) -> Seq<char> {
    "failed to append invocation ledger stage "@ + stage
}

impl KernelInvocationLedger {
    /// The path of the ledger file.
    pub closed spec fn path_view(&self) -> Seq<char> {
        self.path@
    }

    /// The stage this ledger refuses to append, if any.
    pub closed spec fn failing_stage(&self) -> Option<Seq<char>> {
        match self.fail_stage {
            Some(s) => Some(s@),
            None => None,
        }
    }

    /// A ledger at `path` that appends every record.
    pub fn new(path: &str) -> (r: Self)
        ensures
            r.path_view() == path@,
            r.failing_stage() is None,
    {
        KernelInvocationLedger { path: owned(path), fail_stage: None }
    }

    /// A ledger at `path` that refuses to append records of stage `stage`.
    pub fn failing_for_test(path: &str, stage: &str) -> (r: Self)
        ensures
            r.path_view() == path@,
            r.failing_stage() == Some(stage@),
    {
        KernelInvocationLedger { path: owned(path), fail_stage: Some(owned(stage)) }
    }

    /// An identical copy.
    pub fn duplicate(&self) -> (r: Self)
        ensures
            r == *self,
    {
        KernelInvocationLedger { path: self.path.clone(), fail_stage: opt_clone(&self.fail_stage) }
    }

    /// The path of the ledger file.
    pub fn path(&self) -> (r: &str)
        ensures
            r@ == self.path_view(),
    {
        self.path.as_str()
    }

    /// Why this ledger refuses to append `record`, if it does: a ledger made
    /// to fail at a stage refuses every record of that stage.
    pub fn append_refusal(&self, record: &KernelInvocationLedgerRecord) -> (r: Option<String>)
        ensures
            match r {
                Some(e) => self.failing_stage() == Some(record.stage@) && e@ == refusal_text(record.stage@),
                None => self.failing_stage() != Some(record.stage@),
            },
    {
        match &self.fail_stage {
            Some(s) => {
                if str_eq(s.as_str(), record.stage.as_str()) {
                    let mut e = owned("failed to append invocation ledger stage ");
                    append_str(&mut e, record.stage.as_str());
                    Some(e)
                } else {
                    None
                }
            },
            None => None,
        }
    }
}

/// One ledger line: which stage an invocation reached, and how.
#[derive(Debug, Clone, PartialEq, Eq)]
pub struct KernelInvocationLedgerRecord {
    pub schema_version: String,
    pub record_id: String,
    pub timestamp: String,
    pub invocation_id: String,
    pub trace_id: String,
    pub instance_id: String,
    pub operation: String,
    pub stage: String,
    pub status: String,
    pub component_id: Option<String>,
    pub app_id: Option<String>,
    pub capability_id: Option<String>,
    pub contract_version: Option<String>,
    pub failure_stage: Option<String>,
    pub failure_reason: Option<String>,
    pub handler_kind: Option<String>,
    pub handler_executed: bool,
    pub event_generated: bool,
    pub spawned_process: bool,
    pub called_real_component: bool,
    pub transport: Option<String>,
    pub process_exit_code: Option<i32>,
}

/// Whether `timestamp` and `record_id` are those of a fresh record of
/// `stage`: a time in milliseconds, and `ledger.<time>.<random>.<stage>`.
pub open spec fn is_fresh_record_id(timestamp: Seq<char>, record_id: Seq<char>, stage: Seq<char>) -> bool {
    exists|t: nat, n: nat|
        timestamp == decimal(t) && record_id == "ledger."@ + decimal(t) + "."@ + decimal(n) + "."@ + stage
}

/// A record of `stage` with `status` for `envelope`, before any route,
/// failure or handler is known.
pub open spec fn is_new_record(r: KernelInvocationLedgerRecord, stage: Seq<char>, status: Seq<char>, envelope: KernelInvocationEnvelope) -> bool {
    &&& r.schema_version@ == INVOCATION_LEDGER_SCHEMA@
    &&& is_fresh_record_id(r.timestamp@, r.record_id@, stage)
    &&& r.invocation_id@ == envelope.invocation_id@
    &&& r.trace_id@ == envelope.trace_context.trace_id@
    &&& r.instance_id@ == envelope.instance_id@
    &&& r.operation@ == envelope.operation@
    &&& r.stage@ == stage
    &&& r.status@ == status
    &&& r.component_id is None
    &&& r.app_id is None
    &&& r.capability_id is None
    &&& r.contract_version is None
    &&& r.failure_stage is None
    &&& r.failure_reason is None
    &&& r.handler_kind is None
    &&& !r.handler_executed
    &&& !r.event_generated
    &&& !r.spawned_process
    &&& !r.called_real_component
    &&& r.transport is None
    &&& r.process_exit_code is None
}

/// The markers that make a failure reason secret-like, matched on its
/// ASCII-lowercased text.
pub open spec fn sensitive_markers() -> Seq<Seq<char>> {
    seq!["secret://"@, "credential_lease_ref"@, "secret_ref"@, "api key"@, "api_key"@, "token="@, "cookie"@, "sk-"@]
}

/// Whether `reason` holds a secret-like marker.
pub open spec fn is_sensitive(reason: Seq<char>) -> bool {
    exists|i: int| 0 <= i < sensitive_markers().len() && contains_seq(ascii_lowercase(reason), #[trigger] sensitive_markers()[i])
}

/// A failure reason as the ledger keeps it: secret-like text is replaced whole.
pub open spec fn redacted(reason: Seq<char>) -> Seq<char> {
    if is_sensitive(reason) { "[redacted:failure_reason]"@ } else { reason }
}

/// Replaces a failure reason that holds a secret-like marker by
/// `[redacted:failure_reason]`; other reasons are kept as they are.
pub fn redact_failure_reason(reason: &str) -> (r: String)
    ensures
        r@ == redacted(reason@),
{
    let lower = to_ascii_lowercase(&chars_of(reason));
    let markers: Vec<&str> = vec!["secret://", "credential_lease_ref", "secret_ref", "api key", "api_key", "token=", "cookie", "sk-"];
    let ghost ms = sensitive_markers();
    proof {
        reveal_strlit("secret://");
        reveal_strlit("credential_lease_ref");
        reveal_strlit("secret_ref");
        reveal_strlit("api key");
        reveal_strlit("api_key");
        reveal_strlit("token=");
        reveal_strlit("cookie");
        reveal_strlit("sk-");
        assert(markers@.len() == ms.len());
        assert forall|j: int| 0 <= j < ms.len() implies (#[trigger] markers@[j])@ == ms[j] by {}
    }
    let mut i: usize = 0;
    while i < markers.len()
        invariant
            i <= markers.len(),
            markers@.len() == ms.len(),
            ms == sensitive_markers(),
            lower@ == ascii_lowercase(reason@),
            forall|j: int| 0 <= j < ms.len() ==> (#[trigger] markers@[j])@ == ms[j],
            forall|j: int| 0 <= j < i ==> !contains_seq(ascii_lowercase(reason@), #[trigger] ms[j]),
        decreases markers.len() - i,
    {
        if contains_chars(&lower, &chars_of(markers[i])) {
            assert(contains_seq(ascii_lowercase(reason@), ms[i as int]));
            return owned("[redacted:failure_reason]");
        }
        i = i + 1;
    }
    owned(reason)
}

/// A text that lacks the character `needle[k]` holds no occurrence of `needle`.
proof fn lemma_missing_char(hay: Seq<char>, needle: Seq<char>, k: int)
    requires
        0 <= k < needle.len(),
        forall|j: int| 0 <= j < hay.len() ==> hay[j] != needle[k],
    ensures
        !contains_seq(hay, needle),
{
    if contains_seq(hay, needle) {
        let i = choose|i: int| occurs_at(hay, needle, i);
        assert(hay.subrange(i, i + needle.len())[k] == needle[k]);
        assert(hay[i + k] == needle[k]);
    }
}

/// A text in which `needle[k]` is never followed by `needle[k + 1]` holds no
/// occurrence of `needle`.
proof fn lemma_missing_pair(hay: Seq<char>, needle: Seq<char>, k: int)
    requires
        0 <= k && k + 1 < needle.len(),
        forall|j: int| 0 <= j && j + 1 < hay.len() ==> !(#[trigger] hay[j] == needle[k] && hay[j + 1] == needle[k + 1]),
    ensures
        !contains_seq(hay, needle),
{
    if contains_seq(hay, needle) {
        let i = choose|i: int| occurs_at(hay, needle, i);
        assert(hay.subrange(i, i + needle.len())[k] == needle[k]);
        assert(hay.subrange(i, i + needle.len())[k + 1] == needle[k + 1]);
        assert(hay[i + k] == needle[k] && hay[i + k + 1] == needle[k + 1]);
    }
}

/// The replacement text is itself no secret-like reason.
proof fn lemma_replacement_not_sensitive()
    ensures
        !is_sensitive("[redacted:failure_reason]"@),
{
    reveal_strlit("[redacted:failure_reason]");
    let t: Seq<char> = seq!['[', 'r', 'e', 'd', 'a', 'c', 't', 'e', 'd', ':', 'f', 'a', 'i', 'l', 'u', 'r', 'e', '_', 'r', 'e', 'a', 's', 'o', 'n', ']'];
    assert("[redacted:failure_reason]"@ =~= t);
    assert(ascii_lowercase(t) =~= t);
    let ms = sensitive_markers();
    reveal_strlit("secret://");
    reveal_strlit("credential_lease_ref");
    reveal_strlit("secret_ref");
    reveal_strlit("api key");
    reveal_strlit("api_key");
    reveal_strlit("token=");
    reveal_strlit("cookie");
    reveal_strlit("sk-");
    assert(ms[0][7] == '/');
    lemma_missing_char(t, ms[0], 7);
    assert(ms[1][0] == 'c' && ms[1][1] == 'r');
    lemma_missing_pair(t, ms[1], 0);
    assert(ms[2][2] == 'c' && ms[2][3] == 'r');
    lemma_missing_pair(t, ms[2], 2);
    assert(ms[3][4] == 'k');
    lemma_missing_char(t, ms[3], 4);
    assert(ms[4][4] == 'k');
    lemma_missing_char(t, ms[4], 4);
    assert(ms[5][5] == '=');
    lemma_missing_char(t, ms[5], 5);
    assert(ms[6][3] == 'k');
    lemma_missing_char(t, ms[6], 3);
    assert(ms[7][1] == 'k');
    lemma_missing_char(t, ms[7], 1);
    assert forall|i: int| 0 <= i < ms.len() implies !contains_seq(ascii_lowercase(t), #[trigger] ms[i]) by {
        if i == 0 {} else if i == 1 {} else if i == 2 {} else if i == 3 {}
        else if i == 4 {} else if i == 5 {} else if i == 6 {} else {}
    }
}

/// A failure reason as the ledger keeps it never holds a secret-like marker.
pub proof fn lemma_redacted_never_sensitive(reason: Seq<char>)
    ensures
        !is_sensitive(redacted(reason)),
{
    lemma_replacement_not_sensitive();
}

/// Whether `c` is a control character (Unicode general category Cc).
pub open spec fn is_control(c: char) -> bool {
    (c as u32) < 0x20 || (0x7f <= (c as u32) && (c as u32) < 0xa0)
}

/// The lowercase hexadecimal digit for `d` (0..=15).
pub open spec fn hex_digit(d: nat) -> char {
    if d < 10 { ((48 + d) as u32) as char } else { ((87 + d) as u32) as char }
}

/// How one character is written inside a JSON string.
pub open spec fn json_escape_char(c: char) -> Seq<char> {
    if c == '"' {
        seq!['\\', '"']
    } else if c == '\\' {
        seq!['\\', '\\']
    } else if c == '\n' {
        seq!['\\', 'n']
    } else if c == '\r' {
        seq!['\\', 'r']
    } else if c == '\t' {
        seq!['\\', 't']
    } else if is_control(c) {
        seq!['\\', 'u', '0', '0', hex_digit((c as u32 / 16) as nat), hex_digit((c as u32 % 16) as nat)]
    } else {
        seq![c]
    }
}

/// The text of `s` inside a JSON string: each character escaped in turn.
pub open spec fn json_escape(s: Seq<char>) -> Seq<char>
    decreases s.len(),
{
    if s.len() == 0 {
        Seq::empty()
    } else {
        json_escape(s.drop_last()) + json_escape_char(s.last())
    }
}

fn hex_digit_of(d: u32) -> (c: char)
    requires
        d < 16,
    ensures
        c == hex_digit(d as nat),
{
    if d == 0 { '0' } else if d == 1 { '1' } else if d == 2 { '2' } else if d == 3 { '3' }
    else if d == 4 { '4' } else if d == 5 { '5' } else if d == 6 { '6' } else if d == 7 { '7' }
    else if d == 8 { '8' } else if d == 9 { '9' } else if d == 10 { 'a' } else if d == 11 { 'b' }
    else if d == 12 { 'c' } else if d == 13 { 'd' } else if d == 14 { 'e' } else { 'f' }
}

fn push_escaped_char(out: &mut String, c: char)
    ensures
        final(out)@ == old(out)@ + json_escape_char(c),
{
    if c == '"' {
        push_char(out, '\\');
        push_char(out, '"');
    } else if c == '\\' {
        push_char(out, '\\');
        push_char(out, '\\');
    } else if c == '\n' {
        push_char(out, '\\');
        push_char(out, 'n');
    } else if c == '\r' {
        push_char(out, '\\');
        push_char(out, 'r');
    } else if c == '\t' {
        push_char(out, '\\');
        push_char(out, 't');
    } else if (c as u32) < 0x20 || (0x7f <= (c as u32) && (c as u32) < 0xa0) {
        let code = c as u32;
        push_char(out, '\\');
        push_char(out, 'u');
        push_char(out, '0');
        push_char(out, '0');
        push_char(out, hex_digit_of(code / 16));
        push_char(out, hex_digit_of(code % 16));
    } else {
        push_char(out, c);
    }
}

/// Escapes `value` for a JSON string.
pub fn escape_json(value: &str) -> (r: String)
    ensures
        r@ == json_escape(value@),
{
    let cs = chars_of(value);
    let mut out = String::new();
    let mut i: usize = 0;
    while i < cs.len()
        invariant
            i <= cs.len(),
            cs@ == value@,
            out@ == json_escape(cs@.subrange(0, i as int)),
        decreases cs.len() - i,
    {
        push_escaped_char(&mut out, cs[i]);
        assert(cs@.subrange(0, i + 1).drop_last() =~= cs@.subrange(0, i as int));
        i = i + 1;
    }
    assert(cs@.subrange(0, cs.len() as int) =~= cs@);
    out
}

/// `"key":"value"`, both escaped.
pub open spec fn json_string_field(key: Seq<char>, value: Seq<char>) -> Seq<char> {
    "\""@ + json_escape(key) + "\":\""@ + json_escape(value) + "\""@
}

/// `"key":null`.
pub open spec fn json_null_field(key: Seq<char>) -> Seq<char> {
    "\""@ + json_escape(key) + "\":null"@
}

/// A string field, or `null` when there is no value.
pub open spec fn json_optional_string_field(key: Seq<char>, value: Option<String>) -> Seq<char> {
    match value {
        Some(v) => json_string_field(key, v@),
        None => json_null_field(key),
    }
}

/// `"key":true` or `"key":false`.
pub open spec fn json_bool_field(key: Seq<char>, value: bool) -> Seq<char> {
    "\""@ + json_escape(key) + "\":"@ + (if value { "true"@ } else { "false"@ })
}

/// A number field, or `null` when there is no value.
pub open spec fn json_optional_i32_field(key: Seq<char>, value: Option<i32>) -> Seq<char> {
    match value {
        Some(n) => "\""@ + json_escape(key) + "\":"@ + signed_decimal(n as int),
        None => json_null_field(key),
    }
}

fn json_string(key: &str, value: &str) -> (r: String)
    ensures
        r@ == json_string_field(key@, value@),
{
    let mut s = owned("\"");
    append_str(&mut s, escape_json(key).as_str());
    append_str(&mut s, "\":\"");
    append_str(&mut s, escape_json(value).as_str());
    append_str(&mut s, "\"");
    s
}

fn json_null(key: &str) -> (r: String)
    ensures
        r@ == json_null_field(key@),
{
    let mut s = owned("\"");
    append_str(&mut s, escape_json(key).as_str());
    append_str(&mut s, "\":null");
    s
}

fn json_optional_string(key: &str, value: &Option<String>) -> (r: String)
    ensures
        r@ == json_optional_string_field(key@, *value),
{
    match value {
        Some(v) => json_string(key, v.as_str()),
        None => json_null(key),
    }
}

fn json_bool(key: &str, value: bool) -> (r: String)
    ensures
        r@ == json_bool_field(key@, value),
{
    let mut s = owned("\"");
    append_str(&mut s, escape_json(key).as_str());
    append_str(&mut s, "\":");
    append_str(&mut s, if value { "true" } else { "false" });
    s
}

fn json_optional_i32(key: &str, value: Option<i32>) -> (r: String)
    ensures
        r@ == json_optional_i32_field(key@, value),
{
    match value {
        Some(n) => {
            let mut s = owned("\"");
            append_str(&mut s, escape_json(key).as_str());
            append_str(&mut s, "\":");
            push_signed_decimal(&mut s, n);
            s
        },
        None => json_null(key),
    }
}

/// The fields of a record's JSON line, in order.
pub open spec fn record_json_fields(r: KernelInvocationLedgerRecord) -> Seq<Seq<char>> {
    seq![
        json_string_field("schema_version"@, r.schema_version@),
        json_string_field("record_id"@, r.record_id@),
        json_string_field("timestamp"@, r.timestamp@),
        json_string_field("invocation_id"@, r.invocation_id@),
        json_string_field("trace_id"@, r.trace_id@),
        json_string_field("instance_id"@, r.instance_id@),
        json_string_field("operation"@, r.operation@),
        json_string_field("stage"@, r.stage@),
        json_string_field("status"@, r.status@),
        json_optional_string_field("component_id"@, r.component_id),
        json_optional_string_field("app_id"@, r.app_id),
        json_optional_string_field("capability_id"@, r.capability_id),
        json_optional_string_field("contract_version"@, r.contract_version),
        json_optional_string_field("failure_stage"@, r.failure_stage),
        json_optional_string_field("failure_reason"@, r.failure_reason),
        json_optional_string_field("handler_kind"@, r.handler_kind),
        json_bool_field("handler_executed"@, r.handler_executed),
        json_bool_field("event_generated"@, r.event_generated),
        json_bool_field("spawned_process"@, r.spawned_process),
        json_bool_field("called_real_component"@, r.called_real_component),
        json_optional_string_field("transport"@, r.transport),
        json_optional_i32_field("process_exit_code"@, r.process_exit_code),
    ]
}

/// A record as one JSON object on one line.
pub open spec fn record_json_line(r: KernelInvocationLedgerRecord) -> Seq<char> {
    "{"@ + join(record_json_fields(r), ","@) + "}"@
}

impl KernelInvocationLedgerRecord {
    /// A record of `stage` with `status` for `envelope`, stamped with the
    /// current time and a fresh record id.
    pub fn new(stage: &str, status: &str, envelope: &KernelInvocationEnvelope) -> (r: Self)
        ensures
            is_new_record(r, stage@, status@, *envelope),
    {
        let millis = unix_millis_now();
        let state = new_random_state();
        let token = random_state_token(&state);
        let mut timestamp = String::new();
        push_decimal(&mut timestamp, millis);
        let mut record_id = owned("ledger.");
        push_decimal(&mut record_id, millis);
        append_str(&mut record_id, ".");
        push_decimal(&mut record_id, token);
        append_str(&mut record_id, ".");
        append_str(&mut record_id, stage);
        assert(timestamp@ =~= decimal(millis as nat));
        assert(record_id@ =~= "ledger."@ + decimal(millis as nat) + "."@ + decimal(token as nat) + "."@ + stage@);
        KernelInvocationLedgerRecord {
            schema_version: owned(INVOCATION_LEDGER_SCHEMA),
            record_id,
            timestamp,
            invocation_id: envelope.invocation_id.clone(),
            trace_id: envelope.trace_context.trace_id.clone(),
            instance_id: envelope.instance_id.clone(),
            operation: envelope.operation.clone(),
            stage: owned(stage),
            status: owned(status),
            component_id: None,
            app_id: None,
            capability_id: None,
            contract_version: None,
            failure_stage: None,
            failure_reason: None,
            handler_kind: None,
            handler_executed: false,
            event_generated: false,
            spawned_process: false,
            called_real_component: false,
            transport: None,
            process_exit_code: None,
        }
    }

    /// The same record naming the component, app, capability and contract of `route`.
    pub fn with_route(self, route: &KernelRouteRuntimeOutput) -> (r: Self)
        ensures
            r == (KernelInvocationLedgerRecord {
                component_id: r.component_id,
                app_id: r.app_id,
                capability_id: r.capability_id,
                contract_version: r.contract_version,
                ..self
            }),
            r.component_id matches Some(v) && v@ == route.component_id@,
            r.app_id matches Some(v) && v@ == route.app_id@,
            r.capability_id matches Some(v) && v@ == route.capability_id@,
            r.contract_version matches Some(v) && v@ == contract_text(route.contract_version),
    {
        KernelInvocationLedgerRecord {
            component_id: Some(route.component_id.clone()),
            app_id: Some(route.app_id.clone()),
            capability_id: Some(route.capability_id.clone()),
            contract_version: Some(format_contract(&route.contract_version)),
            ..self
        }
    }

    /// The same record with a failure stage and a (redacted) failure reason.
    pub fn with_failure(self, failure_stage: &str, failure_reason: &str) -> (r: Self)
        ensures
            r == (KernelInvocationLedgerRecord { failure_stage: r.failure_stage, failure_reason: r.failure_reason, ..self }),
            r.failure_stage matches Some(v) && v@ == failure_stage@,
            r.failure_reason matches Some(v) && v@ == redacted(failure_reason@),
    {
        KernelInvocationLedgerRecord {
            failure_stage: Some(owned(failure_stage)),
            failure_reason: Some(redact_failure_reason(failure_reason)),
            ..self
        }
    }

    /// The same record with what the handler did.
    pub fn with_handler(
        self,
        handler_kind: Option<&str>,
        handler_executed: bool,
        event_generated: bool,
        spawned_process: bool,
        called_real_component: bool,
    ) -> (r: Self)
        ensures
            r == (KernelInvocationLedgerRecord {
                handler_kind: r.handler_kind,
                handler_executed,
                event_generated,
                spawned_process,
                called_real_component,
                ..self
            }),
            match handler_kind {
                Some(k) => r.handler_kind matches Some(v) && v@ == k@,
                None => r.handler_kind is None,
            },
    {
        let kind = match handler_kind {
            Some(k) => Some(owned(k)),
            None => None,
        };
        KernelInvocationLedgerRecord {
            handler_kind: kind,
            handler_executed,
            event_generated,
            spawned_process,
            called_real_component,
            ..self
        }
    }

    /// The same record with the transport used.
    pub fn with_transport(self, transport: Option<&str>) -> (r: Self)
        ensures
            r == (KernelInvocationLedgerRecord { transport: r.transport, ..self }),
            match transport {
                Some(t) => r.transport matches Some(v) && v@ == t@,
                None => r.transport is None,
            },
    {
        let t = match transport {
            Some(t) => Some(owned(t)),
            None => None,
        };
        KernelInvocationLedgerRecord { transport: t, ..self }
    }

    /// The same record with the exit code of the component process.
    pub fn with_process_exit_code(self, code: Option<i32>) -> (r: Self)
        ensures
            r == (KernelInvocationLedgerRecord { process_exit_code: code, ..self }),
    {
        KernelInvocationLedgerRecord { process_exit_code: code, ..self }
    }

    /// The record as one JSON line (without the line break).
    pub fn to_json_line(&self) -> (r: String)
        ensures
            r@ == record_json_line(*self),
    {
        let mut parts: Vec<String> = Vec::new();
        parts.push(json_string("schema_version", self.schema_version.as_str()));
        parts.push(json_string("record_id", self.record_id.as_str()));
        parts.push(json_string("timestamp", self.timestamp.as_str()));
        parts.push(json_string("invocation_id", self.invocation_id.as_str()));
        parts.push(json_string("trace_id", self.trace_id.as_str()));
        parts.push(json_string("instance_id", self.instance_id.as_str()));
        parts.push(json_string("operation", self.operation.as_str()));
        parts.push(json_string("stage", self.stage.as_str()));
        parts.push(json_string("status", self.status.as_str()));
        parts.push(json_optional_string("component_id", &self.component_id));
        parts.push(json_optional_string("app_id", &self.app_id));
        parts.push(json_optional_string("capability_id", &self.capability_id));
        parts.push(json_optional_string("contract_version", &self.contract_version));
        parts.push(json_optional_string("failure_stage", &self.failure_stage));
        parts.push(json_optional_string("failure_reason", &self.failure_reason));
        parts.push(json_optional_string("handler_kind", &self.handler_kind));
        parts.push(json_bool("handler_executed", self.handler_executed));
        parts.push(json_bool("event_generated", self.event_generated));
        parts.push(json_bool("spawned_process", self.spawned_process));
        parts.push(json_bool("called_real_component", self.called_real_component));
        parts.push(json_optional_string("transport", &self.transport));
        parts.push(json_optional_i32("process_exit_code", self.process_exit_code));
        assert(parts@.map_values(|s: String| s@) =~= record_json_fields(*self));
        let body = join_strings(&parts, ",");
        let mut line = owned("{");
        append_str(&mut line, body.as_str());
        append_str(&mut line, "}");
        line
    }
}

} // verus!
