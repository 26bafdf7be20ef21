use keeplisten::search::{
    build_search_query, download_command_args, download_output_template, extract_percentage,
    is_youtube_url, parse_search_output, search_first_video, select_newest_mp3,
    validate_download_request, watch_url,
};

#[test]
fn recognizes_youtube_urls() {
    assert!(is_youtube_url("https://www.youtube.com/watch?v=abc"));
    assert!(is_youtube_url("https://youtu.be/abc"));
    assert!(is_youtube_url("https://www.youtube.com/playlist?list=xyz"));
    assert!(is_youtube_url("https://music.youtube.com/something"));
    assert!(!is_youtube_url("https://example.com/watch"));
    assert!(!is_youtube_url(""));
}

#[test]
fn watch_url_is_exact() {
    assert_eq!(watch_url("abc123"), "https://www.youtube.com/watch?v=abc123");
}

#[test]
fn search_query_shape() {
    assert_eq!(build_search_query(1, "lofi beats").unwrap(), "ytsearch1:lofi beats");
    assert_eq!(build_search_query(25, "x").unwrap(), "ytsearch25:x");
    assert!(build_search_query(1, "   ").is_none());
    assert!(build_search_query(1, "").is_none());
}

#[test]
fn parses_result_lines() {
    let line = "{\"id\":\"abc\",\"title\":\"Song\",\"duration\":212.9,\"uploader\":\"Someone\",\"view_count\":100}";
    let videos = parse_search_output(line).unwrap();
    assert_eq!(videos.len(), 1);
    assert_eq!(videos[0].id, "abc");
    assert_eq!(videos[0].title, "Song");
    assert_eq!(videos[0].duration_secs, Some(212));
    assert_eq!(videos[0].uploader.as_deref(), Some("Someone"));
    assert_eq!(videos[0].view_count, Some(100));
}

#[test]
fn search_output_edge_cases() {
    // Lines that are not JSON are skipped.
    let output = "garbage\n{\"id\":\"a\",\"title\":\"T\"}\n";
    let videos = parse_search_output(output).unwrap();
    assert_eq!(videos.len(), 1);
    assert_eq!(videos[0].duration_secs, None);

    // A parsed result line without its required fields fails the search.
    assert!(parse_search_output("{\"title\":\"no id\"}").is_none());
    // No results at all fails the search.
    assert!(parse_search_output("").is_none());
    assert!(parse_search_output("not json at all").is_none());

    // A carriage return before the line break is not part of the line.
    let videos = parse_search_output("{\"id\":\"a\",\"title\":\"T\"}\r\n").unwrap();
    assert_eq!(videos.len(), 1);
    assert_eq!(videos[0].id, "a");
}

#[test]
fn first_video_gets_watch_url_and_title() {
    let output = "{\"id\":\"abc\",\"title\":\"Song\"}\n{\"id\":\"def\",\"title\":\"Other\"}\n";
    let (url, title) = search_first_video(output).unwrap();
    assert_eq!(url, "https://www.youtube.com/watch?v=abc");
    assert_eq!(title, "Song");
    assert!(search_first_video("").is_none());
}

#[test]
fn percentage_extraction() {
    assert_eq!(
        extract_percentage("[download] 45.2% of 3.45MiB at 1.23MiB/s ETA 00:02").as_deref(),
        Some("45.2")
    );
    assert_eq!(extract_percentage("[x] 12%").as_deref(), Some("12"));
    assert_eq!(extract_percentage("plain line without marker").is_none(), true);
    assert_eq!(extract_percentage("[x] no percent here").is_none(), true);
}

#[test]
fn download_request_validation() {
    assert!(validate_download_request("https://a", "music").is_ok());
    assert_eq!(validate_download_request("  ", "music").unwrap_err(), "URL vide fournie");
    assert_eq!(
        validate_download_request("https://a", " ").unwrap_err(),
        "Répertoire de sortie vide"
    );
}

#[test]
fn download_arguments_are_fixed() {
    assert_eq!(download_output_template("music"), "music/%(title).100s.%(ext)s");
    let args = download_command_args("music", "https://a", false);
    assert_eq!(
        args,
        vec![
            "-x".to_string(),
            "--audio-format".to_string(),
            "mp3".to_string(),
            "--audio-quality".to_string(),
            "0".to_string(),
            "-o".to_string(),
            "music/%(title).100s.%(ext)s".to_string(),
            "--no-warnings".to_string(),
            "--restrict-filenames".to_string(),
            "https://a".to_string(),
        ]
    );
    let with_progress = download_command_args("music", "https://a", true);
    assert_eq!(with_progress[with_progress.len() - 2], "--newline");
    assert_eq!(with_progress[with_progress.len() - 1], "https://a");
}

#[test]
fn newest_download_wins_ties_towards_the_end() {
    let files = vec![
        ("a.mp3".to_string(), 10_u64),
        ("b.mp3".to_string(), 30),
        ("c.mp3".to_string(), 30),
        ("d.mp3".to_string(), 20),
    ];
    assert_eq!(select_newest_mp3(&files, 2), Some(2));
    assert_eq!(select_newest_mp3(&files, 4), None);
    assert_eq!(select_newest_mp3(&files, 5), None);
}
