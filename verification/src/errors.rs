//! The import error taxonomy: one variant per failing step, each carrying
//! the path involved and the underlying cause, with rendering to the
//! human-readable form the shell surfaces.

use vstd::prelude::*;
use vstd::string::StringExecFns;

verus! {

/// Why an import failed, by the step that failed.
#[derive(Debug)]
pub enum ImportError {
    /// The archive file could not be opened for reading.
    OpenFailed { path: String, cause: String },
    /// The destination directory (or an ancestor) could not be created.
    CreateDirFailed { path: String, cause: String },
    /// The file opened but is not a readable archive container.
    ArchiveOpenFailed { path: String, cause: String },
    /// A member could not be staged: an unsafe path or a failed read.
    ExtractionFailed { cause: String },
}

/// The rendered form of an import error: a fixed contextual prefix naming
/// the failed step and the path involved, then the underlying cause.
pub open spec fn message_of(e: ImportError) -> Seq<char> {
    match e {
        ImportError::OpenFailed { path, cause } => "Failed to open file '"@ + path@ + "'"@ + ": "@
            + cause@,
        ImportError::CreateDirFailed { path, cause } => "Failed to create destination '"@ + path@
            + "'"@ + ": "@ + cause@,
        ImportError::ArchiveOpenFailed { path, cause } => "Failed to read archive '"@ + path@
            + "'"@ + ": "@ + cause@,
        ImportError::ExtractionFailed { cause } => "Failed to extract EPUB archive"@ + ": "@
            + cause@,
    }
}

/// Attaches a context prefix to a description, as `context: value`.
pub fn with_ctx(context: &str, value: &str) -> (r: String)
    ensures
        r@ == context@ + ": "@ + value@,
{
    let s = String::from_str(context);
    let s = s.concat(": ");
    s.concat(value)
}

fn quoted_context(prefix: &str, path: &str) -> (r: String)
    ensures
        r@ == prefix@ + path@ + "'"@,
{
    let s = String::from_str(prefix);
    let s = s.concat(path);
    s.concat("'")
}

impl ImportError {
    /// The error as the single descriptive string handed to the caller.
    pub fn message(&self) -> (r: String)
        ensures
            r@ == message_of(*self),
    {
        match self {
            ImportError::OpenFailed { path, cause } => {
                let ctx = quoted_context("Failed to open file '", path.as_str());
                with_ctx(ctx.as_str(), cause.as_str())
            },
            ImportError::CreateDirFailed { path, cause } => {
                let ctx = quoted_context("Failed to create destination '", path.as_str());
                with_ctx(ctx.as_str(), cause.as_str())
            },
            ImportError::ArchiveOpenFailed { path, cause } => {
                let ctx = quoted_context("Failed to read archive '", path.as_str());
                with_ctx(ctx.as_str(), cause.as_str())
            },
            ImportError::ExtractionFailed { cause } => {
                with_ctx("Failed to extract EPUB archive", cause.as_str())
            },
        }
    }
}

} // verus!
