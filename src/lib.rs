//! A language-server core for dependency manifests: source ranges, a
//! range-tracked model of dependency and tool declarations, cursor lookup,
//! and the request decisions built on top of them.

pub mod position;
pub mod text;
pub mod version;
pub mod model;
pub mod tool;
pub mod lookup;
pub mod handler;
pub mod tool_name;
pub mod cli;
