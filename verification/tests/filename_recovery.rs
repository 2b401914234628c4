use youtube_client::extract_downloaded_filename;

#[test]
fn test_extract_downloaded_filename_mp3() {
    let output = "[ExtractAudio] Destination: /path/to/file.mp3";
    let result = extract_downloaded_filename(output);
    assert_eq!(result, Some("/path/to/file.mp3".to_string()));
}

#[test]
fn test_extract_downloaded_filename_merger() {
    let output = "[Merger] Merging formats into C:\\Users\\test\\file.mp3";
    let result = extract_downloaded_filename(output);
    assert_eq!(result, Some("C:\\Users\\test\\file.mp3".to_string()));
}

#[test]
fn test_extract_downloaded_filename_info() {
    let output = "[info] /downloads/song.mp3";
    let result = extract_downloaded_filename(output);
    assert_eq!(result, Some("/downloads/song.mp3".to_string()));
}

#[test]
fn test_extract_downloaded_filename_no_match() {
    let output = "Some random output without filename";
    let result = extract_downloaded_filename(output);
    assert_eq!(result, None);
}

#[test]
fn extract_keeps_spaces_and_separators() {
    let output = "[ExtractAudio] Destination: /tmp/out/Lofi Beats [abc123].mp3";
    let result = extract_downloaded_filename(output);
    assert_eq!(result, Some("/tmp/out/Lofi Beats [abc123].mp3".to_string()));
}

#[test]
fn extract_audio_beats_info_whatever_the_order() {
    let output = "[info] /first/one.mp3\n[ExtractAudio] Destination: /second/two.mp3";
    let result = extract_downloaded_filename(output);
    assert_eq!(result, Some("/second/two.mp3".to_string()));
}

#[test]
fn merger_beats_info() {
    let output = "[info] /a.mp3\n[Merger] Merging formats into /b.mp3";
    let result = extract_downloaded_filename(output);
    assert_eq!(result, Some("/b.mp3".to_string()));
}

#[test]
fn capture_is_greedy_to_the_last_mp3_on_the_line() {
    let output = "[info] /a/x.mp3 and /b/y.mp3";
    let result = extract_downloaded_filename(output);
    assert_eq!(result, Some("/a/x.mp3 and /b/y.mp3".to_string()));
}

#[test]
fn capture_stops_at_the_end_of_the_line() {
    let output = "[ExtractAudio] Destination: /a/x.mp3\nstray words /b/y.mp3";
    let result = extract_downloaded_filename(output);
    assert_eq!(result, Some("/a/x.mp3".to_string()));
}

#[test]
fn leftmost_match_of_a_form_wins() {
    let output = "[ExtractAudio] Destination: /first.mp3\n[ExtractAudio] Destination: /second.mp3";
    let result = extract_downloaded_filename(output);
    assert_eq!(result, Some("/first.mp3".to_string()));
}

#[test]
fn prefix_without_a_path_on_its_line_is_skipped() {
    let output = "[ExtractAudio] Destination: nothing here\n[ExtractAudio] Destination: /real.mp3";
    let result = extract_downloaded_filename(output);
    assert_eq!(result, Some("/real.mp3".to_string()));
}

#[test]
fn extension_alone_is_not_a_path() {
    let output = "[info] .mp3";
    let result = extract_downloaded_filename(output);
    assert_eq!(result, None);
}

#[test]
fn other_extension_does_not_match() {
    let output = "[ExtractAudio] Destination: /path/to/file.m4a";
    let result = extract_downloaded_filename(output);
    assert_eq!(result, None);
}
