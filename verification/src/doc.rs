//! Documentation sources of a project's dependencies.

use vstd::prelude::*;

verus! {

/// A dependency whose source tree can be extracted for documentation.
#[derive(Debug, Clone)]
pub struct DocDependency {
    pub name: String,
    /// "local" | "local-dev" | "global"
    pub scope: &'static str,
    /// "path" | "git" | "url" | "registry" | "cached" | "platform"
    pub kind: String,
    pub version: String,
    pub source: String,
    /// Local directory where the dependency's sources live, if available.
    pub path: Option<String>,
    /// Pre-built documentation files found inside `path` (index.md, README.md, ...).
    pub docs: Vec<String>,
}

} // verus!
