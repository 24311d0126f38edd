//! The AICore kernel: contracts for apps, capabilities, routing, invocation,
//! the invocation ledger, instance runtimes and scheduling.
pub mod app;
pub mod capability;
pub mod clock;
pub mod context;
pub mod error;
pub mod event;
pub mod fields;
pub mod foundation;
pub mod installed_manifest;
pub mod instance;
pub mod invocation;
pub mod invocation_ledger;
pub mod invocation_runtime;
pub mod json;
pub mod manifest_registry;
pub mod manifest_text;
pub mod mcp;
pub mod route;
pub mod route_runtime;
pub mod routing;
pub mod registry;
pub mod runtime_binary;
pub mod runtime_status;
pub mod scheduler;
pub mod text;
pub mod versioning;

use vstd::prelude::*;

verus! {

/// The runtime of the global main instance with its `main` conversation.
pub fn default_runtime() -> (r: instance::runtime::InstanceRuntime)
    ensures
        r.instance_view() == "global-main"@,
        r.conversation_view() == "main"@,
        r.events_view().len() == 0,
        r.turn_view() is None,
        r.queue_view().len() == 0,
        r.follows_view().len() == 0,
{
    instance::runtime::InstanceRuntime::new("global-main", "main")
}

} // verus!
