//! Instance runtimes: one conversation per instance, its turns, its queue
//! of waiting input, and where its replies go.
pub mod model;
pub mod runtime;
