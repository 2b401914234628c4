use youtube_client::{download_request, download_response, ClientError, ToolOutcome};

#[test]
fn download_args_are_the_documented_invocation() {
    let (start, args) = download_request("abc123", "/tmp/out");
    assert_eq!(start.percent, 0);
    assert_eq!(start.message, "Starting download...".to_string());
    let want = vec![
        "--format".to_string(),
        "bestaudio[ext=m4a]/bestaudio[ext=webm]/bestaudio".to_string(),
        "--output".to_string(),
        "/tmp/out/%(title)s [%(id)s].%(ext)s".to_string(),
        "--extract-audio".to_string(),
        "--audio-format".to_string(),
        "mp3".to_string(),
        "--audio-quality".to_string(),
        "0".to_string(),
        "--no-playlist".to_string(),
        "--no-warnings".to_string(),
        "--progress".to_string(),
        "https://www.youtube.com/watch?v=abc123".to_string(),
    ];
    assert_eq!(args, want);
}

#[test]
fn successful_download_returns_the_recovered_path() {
    let (start, _args) = download_request("abc123", "/tmp/out");
    let run = Ok(ToolOutcome {
        success: true,
        stdout: "[ExtractAudio] Destination: /tmp/out/Lofi Beats [abc123].mp3\n".to_string(),
        stderr: String::new(),
    });
    let (events, result) = download_response(run);
    assert_eq!(result, Ok("/tmp/out/Lofi Beats [abc123].mp3".to_string()));
    let mut percents = vec![start.percent];
    for e in &events {
        percents.push(e.percent);
    }
    assert_eq!(percents, vec![0, 90, 100]);
    assert!(percents.windows(2).all(|w| w[0] < w[1]));
    assert_eq!(events[0].message, "Processing complete...".to_string());
    assert_eq!(events[1].message, "Download complete".to_string());
}

#[test]
fn failing_tool_gives_tool_error_and_no_completion_event() {
    let run = Ok(ToolOutcome {
        success: false,
        stdout: String::new(),
        stderr: "ERROR: Video unavailable".to_string(),
    });
    let (events, result) = download_response(run);
    assert_eq!(result, Err(ClientError::ToolError("ERROR: Video unavailable".to_string())));
    assert!(events.iter().all(|e| e.percent != 100));
    assert_eq!(events.len(), 1);
    assert_eq!(events[0].percent, 90);
}

#[test]
fn spawn_failure_gives_execution_error_and_no_events() {
    let (events, result) = download_response(Err("Permission denied".to_string()));
    assert_eq!(result, Err(ClientError::ExecutionError("Permission denied".to_string())));
    assert!(events.is_empty());
}

#[test]
fn unrecognized_output_gives_filename_recovery_error() {
    let run = Ok(ToolOutcome {
        success: true,
        stdout: "downloading... done".to_string(),
        stderr: String::new(),
    });
    let (events, result) = download_response(run);
    assert_eq!(result, Err(ClientError::FilenameRecoveryError));
    assert_eq!(events.len(), 2);
}
