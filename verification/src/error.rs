//! The errors of Freight's operations.

use vstd::prelude::*;

verus! {

/// Why an operation failed.
#[derive(Debug, Clone)]
pub enum FreightError {
    /// A template could not be read, parsed or evaluated.
    TemplateError(String),
    /// A required external program could not be started.
    CompilerNotFound(String),
    /// An external step ran and failed: what it worked on, and why.
    CompileFailed(String, String),
    /// An install step found nothing to install.
    InstallFailed(String),
    /// A file-system operation failed, by its message.
    Io(String),
}

} // verus!
