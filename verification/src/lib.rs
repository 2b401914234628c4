//! Core of a small audio-download client that drives an external
//! command-line media tool.
//!
//! The library holds the decision logic: building the tool's argument
//! lists, parsing its structured search output, recovering the produced
//! file path from its human-readable completion messages, and sequencing
//! coarse progress checkpoints.  Spawning the tool and all other I/O is
//! the surrounding application's concern; it hands the captured outcome
//! of a run back to this library as plain values.

use vstd::prelude::*;

pub mod download;
pub mod json;
pub mod pattern;
pub mod search;
pub mod text;

pub use download::{download_request, download_response, ProgressEvent};
pub use pattern::extract_downloaded_filename;
pub use search::{parse_search_output, search_args, search_response, watch_url, VideoInfo};

verus! {

/// Why a search or a download failed.
#[derive(Debug, Clone, PartialEq, Eq)]
pub enum ClientError {
    /// The external tool could not be launched; carries the OS error text.
    ExecutionError(String),
    /// The external tool exited with a failure status; carries its
    /// captured standard-error text.
    ToolError(String),
    /// The first line of search output was not valid JSON.
    ParseError,
    /// The first line of search output lacked the identifier field.
    MissingFieldError,
    /// The tool reported success but no completion message revealed the
    /// produced file path.
    FilenameRecoveryError,
}

/// The captured outcome of one finished run of the external tool.
pub struct ToolOutcome {
    /// Whether the process exited with a success status.
    pub success: bool,
    /// Captured standard output, decoded as text.
    pub stdout: String,
    /// Captured standard error, decoded as text.
    pub stderr: String,
}

} // verus!
