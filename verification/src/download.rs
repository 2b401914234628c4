//! The download orchestrator: builds the tool's extract-audio invocation,
//! sequences the coarse progress checkpoints, and derives the produced
//! file path from the tool's captured output.
//!
//! One download is one run of the external tool.  The surrounding
//! application spawns it: it first asks here for the starting checkpoint
//! and the argument list, and hands the captured outcome back to learn the
//! remaining checkpoints and the result.  Progress is reported only at the
//! fixed milestones — the tool's fine-grained percentage stream is
//! requested but not parsed.

use vstd::prelude::*;
use vstd::string::StringExecFns;
use crate::ClientError;
use crate::ToolOutcome;
use crate::pattern::{extract_filename_spec, extract_downloaded_filename};
use crate::search::{watch_url, watch_url_spec};

verus! {

/// One coarse progress checkpoint, handed to the caller's sink.
#[derive(Debug, Clone, PartialEq, Eq)]
pub struct ProgressEvent {
    /// Completed share of the download, in percent.
    pub percent: u32,
    /// A short human-readable description of the milestone.
    pub message: String,
}

/// The checkpoint emitted before the tool is spawned.
pub open spec fn start_event_spec(e: ProgressEvent) -> bool {
    e.percent == 0 && e.message@ == "Starting download..."@
}

/// The checkpoint emitted once the process has exited, before its exit
/// status is validated.
pub open spec fn processing_event_spec(e: ProgressEvent) -> bool {
    e.percent == 90 && e.message@ == "Processing complete..."@
}

/// The checkpoint emitted after a successful exit.
pub open spec fn complete_event_spec(e: ProgressEvent) -> bool {
    e.percent == 100 && e.message@ == "Download complete"@
}

/// The output filename template handed to the tool: the destination
/// directory with the tool's own title, identifier and extension
/// placeholders, so that the tool chooses the final name.
pub open spec fn output_template_spec(dir: Seq<char>) -> Seq<char> {
    dir + "/%(title)s [%(id)s].%(ext)s"@
}

/// The full argument list of an extract-audio invocation: best available
/// audio stream (m4a, then webm, then any), forced re-encode to mp3 at
/// maximum quality, playlist expansion disabled, warnings suppressed,
/// progress reporting enabled.
pub open spec fn download_args_spec(id: Seq<char>, dir: Seq<char>) -> Seq<Seq<char>> {
    seq![
        "--format"@,
        "bestaudio[ext=m4a]/bestaudio[ext=webm]/bestaudio"@,
        "--output"@,
        output_template_spec(dir),
        "--extract-audio"@,
        "--audio-format"@,
        "mp3"@,
        "--audio-quality"@,
        "0"@,
        "--no-playlist"@,
        "--no-warnings"@,
        "--progress"@,
        watch_url_spec(id),
    ]
}

/// The checkpoints owed once the spawn's outcome is known: none when the
/// tool could not be run, the processing checkpoint alone when it failed,
/// and processing followed by completion when it succeeded.
pub open spec fn response_events_spec(run: Result<ToolOutcome, String>, evs: Seq<ProgressEvent>) -> bool {
    match run {
        Err(m) => evs.len() == 0,
        Ok(o) => if !o.success {
            evs.len() == 1 && processing_event_spec(evs[0])
        } else {
            evs.len() == 2 && processing_event_spec(evs[0]) && complete_event_spec(evs[1])
        },
    }
}

/// The result owed for a run's outcome: an execution error carrying the OS
/// error text when the tool could not be run, a tool error carrying the
/// captured standard error when it exited in failure, and otherwise the
/// file path recovered from the captured output — or a recovery error
/// when no completion message reveals it.
pub open spec fn download_result_matches(
    r: Result<String, ClientError>,
    run: Result<ToolOutcome, String>,
) -> bool {
    match run {
        Err(m) => r == Err::<String, ClientError>(ClientError::ExecutionError(m)),
        Ok(o) => if !o.success {
            r == Err::<String, ClientError>(ClientError::ToolError(o.stderr))
        } else {
            match extract_filename_spec(o.stdout@) {
                Some(f) => r matches Ok(s) && s@ == f,
                None => r == Err::<String, ClientError>(ClientError::FilenameRecoveryError),
            }
        },
    }
}

/// What a download needs before the tool is spawned: the starting
/// checkpoint and the full argument list of the invocation.
pub fn download_request(video_id: &str, output_dir: &str) -> (r: (ProgressEvent, Vec<String>))
    ensures
        start_event_spec(r.0),
        r.1.deep_view() == download_args_spec(video_id@, output_dir@),
{
    let ev = ProgressEvent { percent: 0, message: String::from_str("Starting download...") };
    let mut tmpl = String::from_str(output_dir);
    tmpl.append("/%(title)s [%(id)s].%(ext)s");
    let url = watch_url(video_id);
    let mut v: Vec<String> = Vec::new();
    v.push(String::from_str("--format"));
    v.push(String::from_str("bestaudio[ext=m4a]/bestaudio[ext=webm]/bestaudio"));
    v.push(String::from_str("--output"));
    v.push(tmpl);
    v.push(String::from_str("--extract-audio"));
    v.push(String::from_str("--audio-format"));
    v.push(String::from_str("mp3"));
    v.push(String::from_str("--audio-quality"));
    v.push(String::from_str("0"));
    v.push(String::from_str("--no-playlist"));
    v.push(String::from_str("--no-warnings"));
    v.push(String::from_str("--progress"));
    v.push(url);
    proof {
        assert(v.deep_view() =~= download_args_spec(video_id@, output_dir@));
    }
    (ev, v)
}

/// What a download owes once the tool's run is over: the remaining
/// checkpoints, and the recovered file path or the error that ends the
/// attempt.
pub fn download_response(run: Result<ToolOutcome, String>) -> (r: (
    Vec<ProgressEvent>,
    Result<String, ClientError>,
))
    ensures
        response_events_spec(run, r.0@),
        download_result_matches(r.1, run),
{
    match run {
        Err(m) => (Vec::new(), Err(ClientError::ExecutionError(m))),
        Ok(o) => {
            let mut evs: Vec<ProgressEvent> = Vec::new();
            evs.push(
                ProgressEvent { percent: 90, message: String::from_str("Processing complete...") },
            );
            if !o.success {
                (evs, Err(ClientError::ToolError(o.stderr)))
            } else {
                evs.push(
                    ProgressEvent { percent: 100, message: String::from_str("Download complete") },
                );
                match extract_downloaded_filename(o.stdout.as_str()) {
                    Some(f) => (evs, Ok(f)),
                    None => (evs, Err(ClientError::FilenameRecoveryError)),
                }
            }
        },
    }
}

/// Law: a successful download emits exactly the checkpoints 0, 90 and 100,
/// in strictly increasing order, with no other percent values between.
pub proof fn lemma_progress_checkpoints(
    start: ProgressEvent,
    run: Result<ToolOutcome, String>,
    during: Seq<ProgressEvent>,
)
    requires
        start_event_spec(start),
        response_events_spec(run, during),
        run matches Ok(o) && o.success,
    ensures
        ({
            let all = seq![start] + during;
            &&& all.len() == 3
            &&& all[0].percent == 0
            &&& all[1].percent == 90
            &&& all[2].percent == 100
            &&& forall|i: int, j: int| 0 <= i < j < all.len() ==> all[i].percent < all[j].percent
        }),
{
    let all = seq![start] + during;
    assert(all[0] == start);
    assert(all[1] == during[0]);
    assert(all[2] == during[1]);
}

} // verus!
