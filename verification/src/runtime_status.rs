//! The runtime status of an installation: what is installed where, as
//! public fields, a one-line summary, and a handler result.
use vstd::prelude::*;

use crate::fields::PublicFields;
use crate::invocation_runtime::handler::KernelHandlerResult;
use crate::manifest_text::{key_value_spec, line_pieces, parse_key_value_raw, split_lines, views};
use crate::text::{append_str, chars_eq_str, chars_of, decimal, owned, push_decimal, string_of, trim_quotes, trim_quotes_spec};

verus! {

broadcast use vstd::string::group_string_axioms;

/// What is installed where.
#[derive(Debug, Clone, PartialEq, Eq)]
pub struct RuntimeStatusSnapshot {
    pub global_root: String,
    pub foundation_installed: bool,
    pub kernel_installed: bool,
    pub contract_version: String,
    pub manifest_count: usize,
    pub capability_count: usize,
    pub event_ledger_path: String,
    pub bin_path: String,
    pub bin_path_status: String,
    pub foundation_runtime_binary_path: String,
    pub foundation_runtime_binary_installed: bool,
    pub kernel_runtime_binary_path: String,
    pub kernel_runtime_binary_installed: bool,
    pub kernel_invocation_path: String,
}

/// `yes` or `no`.
pub open spec fn yes_no_text(value: bool) -> Seq<char> {
    if value { "yes"@ } else { "no"@ }
}

/// `installed` or `missing`.
pub open spec fn installed_missing_text(value: bool) -> Seq<char> {
    if value { "installed"@ } else { "missing"@ }
}

/// `yes` or `no`.
pub fn yes_no(value: bool) -> (r: &'static str)
    ensures
        r@ == yes_no_text(value),
{
    if value { "yes" } else { "no" }
}

/// `installed` or `missing`.
pub fn installed_missing(value: bool) -> (r: &'static str)
    ensures
        r@ == installed_missing_text(value),
{
    if value { "installed" } else { "missing" }
}

/// The public fields of a snapshot.
pub open spec fn status_fields(s: RuntimeStatusSnapshot) -> Map<Seq<char>, Seq<char>> {
    Map::<Seq<char>, Seq<char>>::empty()
        .insert("global_root"@, s.global_root@)
        .insert("foundation_installed"@, yes_no_text(s.foundation_installed))
        .insert("kernel_installed"@, yes_no_text(s.kernel_installed))
        .insert("contract_version"@, s.contract_version@)
        .insert("manifest_count"@, decimal(s.manifest_count as nat))
        .insert("capability_count"@, decimal(s.capability_count as nat))
        .insert("event_ledger_path"@, s.event_ledger_path@)
        .insert("bin_path"@, s.bin_path@)
        .insert("bin_path_status"@, s.bin_path_status@)
        .insert("foundation_runtime_binary"@, installed_missing_text(s.foundation_runtime_binary_installed))
        .insert("foundation_runtime_binary_path"@, s.foundation_runtime_binary_path@)
        .insert("kernel_runtime_binary"@, installed_missing_text(s.kernel_runtime_binary_installed))
        .insert("kernel_runtime_binary_path"@, s.kernel_runtime_binary_path@)
        .insert("kernel_invocation_path"@, s.kernel_invocation_path@)
}

/// The one-line summary of a snapshot.
pub open spec fn status_summary(s: RuntimeStatusSnapshot) -> Seq<char> {
    "global root="@ + s.global_root@
        + " | foundation installed="@ + yes_no_text(s.foundation_installed)
        + " | kernel installed="@ + yes_no_text(s.kernel_installed)
        + " | manifest count="@ + decimal(s.manifest_count as nat)
        + " | capability count="@ + decimal(s.capability_count as nat)
        + " | bin path status="@ + s.bin_path_status@
        + " | kernel invocation path="@ + s.kernel_invocation_path@
}

impl RuntimeStatusSnapshot {
    /// The snapshot of an installation from what was found on disk: its
    /// state root, the kernel's state root, the binary directory and its
    /// status, which parts are installed, the kernel's contract version (`-`
    /// when unknown), the manifest and capability counts, and the path the
    /// kernel is invoked by. The ledger and binary paths are joined under
    /// their roots.
    pub fn from_facts(
        state_root: &str,
        kernel_state_root: &str,
        bin_root: &str,
        bin_path_status: &str,
        foundation_installed: bool,
        kernel_installed: bool,
        contract_version: Option<String>,
        manifest_count: usize,
        capability_count: usize,
        foundation_runtime_binary_installed: bool,
        kernel_runtime_binary_installed: bool,
        kernel_invocation_path: &str,
    ) -> (r: Self)
        ensures
            r.global_root@ == state_root@,
            r.foundation_installed == foundation_installed,
            r.kernel_installed == kernel_installed,
            r.contract_version@ == (match contract_version {
                Some(v) => v@,
                None => "-"@,
            }),
            r.manifest_count == manifest_count,
            r.capability_count == capability_count,
            r.event_ledger_path@ == kernel_state_root@ + "/event-ledger.jsonl"@,
            r.bin_path@ == bin_root@,
            r.bin_path_status@ == bin_path_status@,
            r.foundation_runtime_binary_path@ == bin_root@ + "/aicore-foundation"@,
            r.foundation_runtime_binary_installed == foundation_runtime_binary_installed,
            r.kernel_runtime_binary_path@ == bin_root@ + "/aicore-kernel"@,
            r.kernel_runtime_binary_installed == kernel_runtime_binary_installed,
            r.kernel_invocation_path@ == kernel_invocation_path@,
    {
        let mut event_ledger_path = owned(kernel_state_root);
        append_str(&mut event_ledger_path, "/event-ledger.jsonl");
        let mut foundation_path = owned(bin_root);
        append_str(&mut foundation_path, "/aicore-foundation");
        let mut kernel_path = owned(bin_root);
        append_str(&mut kernel_path, "/aicore-kernel");
        RuntimeStatusSnapshot {
            global_root: owned(state_root),
            foundation_installed,
            kernel_installed,
            contract_version: match contract_version {
                Some(v) => v,
                None => owned("-"),
            },
            manifest_count,
            capability_count,
            event_ledger_path,
            bin_path: owned(bin_root),
            bin_path_status: owned(bin_path_status),
            foundation_runtime_binary_path: foundation_path,
            foundation_runtime_binary_installed,
            kernel_runtime_binary_path: kernel_path,
            kernel_runtime_binary_installed,
            kernel_invocation_path: owned(kernel_invocation_path),
        }
    }

    /// The snapshot as public fields.
    pub fn public_fields(&self) -> (r: PublicFields)
        ensures
            r@ == status_fields(*self),
    {
        let mut f = PublicFields::new();
        f.insert(owned("global_root"), self.global_root.clone());
        f.insert(owned("foundation_installed"), owned(yes_no(self.foundation_installed)));
        f.insert(owned("kernel_installed"), owned(yes_no(self.kernel_installed)));
        f.insert(owned("contract_version"), self.contract_version.clone());
        let mut mc = String::new();
        push_decimal(&mut mc, self.manifest_count as u64);
        f.insert(owned("manifest_count"), mc);
        let mut cc = String::new();
        push_decimal(&mut cc, self.capability_count as u64);
        f.insert(owned("capability_count"), cc);
        f.insert(owned("event_ledger_path"), self.event_ledger_path.clone());
        f.insert(owned("bin_path"), self.bin_path.clone());
        f.insert(owned("bin_path_status"), self.bin_path_status.clone());
        f.insert(owned("foundation_runtime_binary"), owned(installed_missing(self.foundation_runtime_binary_installed)));
        f.insert(owned("foundation_runtime_binary_path"), self.foundation_runtime_binary_path.clone());
        f.insert(owned("kernel_runtime_binary"), owned(installed_missing(self.kernel_runtime_binary_installed)));
        f.insert(owned("kernel_runtime_binary_path"), self.kernel_runtime_binary_path.clone());
        f.insert(owned("kernel_invocation_path"), self.kernel_invocation_path.clone());
        f
    }

    /// The snapshot in one line.
    pub fn summary(&self) -> (r: String)
        ensures
            r@ == status_summary(*self),
    {
        let mut s = owned("global root=");
        append_str(&mut s, self.global_root.as_str());
        append_str(&mut s, " | foundation installed=");
        append_str(&mut s, yes_no(self.foundation_installed));
        append_str(&mut s, " | kernel installed=");
        append_str(&mut s, yes_no(self.kernel_installed));
        append_str(&mut s, " | manifest count=");
        push_decimal(&mut s, self.manifest_count as u64);
        append_str(&mut s, " | capability count=");
        push_decimal(&mut s, self.capability_count as u64);
        append_str(&mut s, " | bin path status=");
        append_str(&mut s, self.bin_path_status.as_str());
        append_str(&mut s, " | kernel invocation path=");
        append_str(&mut s, self.kernel_invocation_path.as_str());
        s
    }

    /// The snapshot as a structured `runtime.status` result.
    pub fn into_handler_result(self) -> (r: KernelHandlerResult)
        ensures
            r.result_kind matches Some(k) && k@ == "runtime.status"@,
            r.public_fields@ == status_fields(self),
            r.summary@ == status_summary(self),
    {
        let fields = self.public_fields();
        let summary = self.summary();
        KernelHandlerResult::structured("runtime.status", fields, summary.as_str())
    }
}

/// The value of the first `key = value` line of `lines` whose key is `key`,
/// with quotes trimmed.
pub open spec fn toml_string_value(lines: Seq<Seq<char>>, key: Seq<char>) -> Option<Seq<char>>
    decreases lines.len(),
{
    if lines.len() == 0 {
        None
    } else {
        match key_value_spec(lines[0]) {
            Some((k, v)) => if k == key {
                Some(trim_quotes_spec(v))
            } else {
                toml_string_value(lines.drop_first(), key)
            },
            None => toml_string_value(lines.drop_first(), key),
        }
    }
}

/// The string value of `key` in the text of a TOML file: the first line
/// `key = value`, with the value trimmed of white space and quotes.
pub fn read_toml_string_key(content: &str, key: &str) -> (r: Option<String>)
    ensures
        opt_string_view(r) == toml_string_value(line_pieces(content@), key@),
{
    let lines = split_lines(&chars_of(content));
    let ghost ls = line_pieces(content@);
    assert(ls.skip(0) =~= ls);
    let mut i: usize = 0;
    while i < lines.len()
        invariant
            i <= lines.len(),
            views(lines@) == ls,
            ls == line_pieces(content@),
            toml_string_value(ls, key@) == toml_string_value(ls.skip(i as int), key@),
        decreases lines.len() - i,
    {
        proof {
            let rest = ls.skip(i as int);
            assert(rest[0] == ls[i as int]);
            assert(rest.drop_first() =~= ls.skip(i + 1));
            assert(lines@[i as int]@ == ls[i as int]);
        }
        match parse_key_value_raw(&lines[i]) {
            Some((k, v)) => {
                if chars_eq_str(&k, key) {
                    proof {
                        let rest = ls.skip(i as int);
                        assert(key_value_spec(rest[0]) == Some((k@, v@)));
                        assert(k@ == key@);
                        assert(toml_string_value(rest, key@) == Some(trim_quotes_spec(v@)));
                    }
                    return Some(string_of(&trim_quotes(&v)));
                }
            },
            None => {},
        }
        i = i + 1;
    }
    None
}

/// The view of an optional string.
pub open spec fn opt_string_view(o: Option<String>) -> Option<Seq<char>> {
    match o {
        Some(s) => Some(s@),
        None => None,
    }
}

} // verus!
