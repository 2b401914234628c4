use youtube_client::{parse_search_output, search_args, search_response, watch_url, ClientError,
    ToolOutcome, VideoInfo};

fn ok_run(stdout: &str) -> Result<ToolOutcome, String> {
    Ok(ToolOutcome { success: true, stdout: stdout.to_string(), stderr: String::new() })
}

#[test]
fn search_args_are_the_documented_invocation() {
    let args = search_args("lofi beats");
    let want = vec![
        "--dump-json".to_string(),
        "--no-download".to_string(),
        "--quiet".to_string(),
        "--no-warnings".to_string(),
        "ytsearch10:lofi beats".to_string(),
    ];
    assert_eq!(args, want);
}

#[test]
fn watch_url_applies_the_fixed_template() {
    assert_eq!(watch_url("abc123"), "https://www.youtube.com/watch?v=abc123".to_string());
}

#[test]
fn top_hit_is_resolved_with_id_title_and_derived_url() {
    let r = search_response(ok_run("{\"id\":\"abc123\",\"title\":\"Lofi Beats\"}\n"));
    let want = VideoInfo {
        id: "abc123".to_string(),
        title: "Lofi Beats".to_string(),
        url: "https://www.youtube.com/watch?v=abc123".to_string(),
    };
    assert_eq!(r, Ok(Some(want)));
}

#[test]
fn url_field_in_the_output_is_never_trusted() {
    let r = search_response(ok_run(
        "{\"id\":\"abc123\",\"title\":\"T\",\"url\":\"https://evil.example/x\"}\n",
    ));
    match r {
        Ok(Some(v)) => assert_eq!(v.url, "https://www.youtube.com/watch?v=abc123".to_string()),
        other => panic!("expected a record, got {:?}", other),
    }
}

#[test]
fn empty_output_is_no_match_not_an_error() {
    assert_eq!(search_response(ok_run("")), Ok(None));
}

#[test]
fn missing_id_field_is_a_hard_error() {
    let r = search_response(ok_run("{\"title\":\"No Id\"}\n"));
    assert_eq!(r, Err(ClientError::MissingFieldError));
}

#[test]
fn missing_title_defaults_to_empty() {
    let r = search_response(ok_run("{\"id\":\"abc123\"}\n"));
    let want = VideoInfo {
        id: "abc123".to_string(),
        title: String::new(),
        url: "https://www.youtube.com/watch?v=abc123".to_string(),
    };
    assert_eq!(r, Ok(Some(want)));
}

#[test]
fn malformed_first_line_is_a_parse_error() {
    let r = search_response(ok_run("not json at all\n"));
    assert_eq!(r, Err(ClientError::ParseError));
}

#[test]
fn only_the_first_line_is_considered() {
    let r = parse_search_output("{\"id\":\"first\"}\nthis later line is garbage\n");
    match r {
        Ok(Some(v)) => assert_eq!(v.id, "first".to_string()),
        other => panic!("expected a record, got {:?}", other),
    }
}

#[test]
fn windows_line_ending_is_tolerated() {
    let r = parse_search_output("{\"id\":\"a\",\"title\":\"T\"}\r\n");
    match r {
        Ok(Some(v)) => {
            assert_eq!(v.id, "a".to_string());
            assert_eq!(v.title, "T".to_string());
        },
        other => panic!("expected a record, got {:?}", other),
    }
}

#[test]
fn failing_tool_surfaces_its_stderr() {
    let run = Ok(ToolOutcome {
        success: false,
        stdout: String::new(),
        stderr: "ERROR: no result".to_string(),
    });
    assert_eq!(search_response(run), Err(ClientError::ToolError("ERROR: no result".to_string())));
}

#[test]
fn spawn_failure_surfaces_the_os_error_text() {
    let r = search_response(Err("No such file or directory".to_string()));
    assert_eq!(r, Err(ClientError::ExecutionError("No such file or directory".to_string())));
}
