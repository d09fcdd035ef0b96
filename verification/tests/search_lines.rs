use rataplay::download::{download_args, parse_progress};
use rataplay::model::VideoType;
use rataplay::yt::{expected_results, is_direct_playlist, is_url, parse_search_line, search_args, update_status, UpdateStatus};

fn strings(v: &[&str]) -> Vec<String> {
    v.iter().map(|s| s.to_string()).collect()
}

#[test]
fn search_words_ask_for_a_page() {
    assert_eq!(
        search_args("lofi", 1, 5),
        strings(&[
            "--dump-json",
            "--flat-playlist",
            "--no-check-formats",
            "--ignore-errors",
            "--no-warnings",
            "--playlist-start",
            "1",
            "--playlist-end",
            "5",
            "https://www.youtube.com/results?search_query=lofi",
        ])
    );
    assert_eq!(expected_results("lofi", 1, 5), 5);
    assert_eq!(expected_results("lofi", 21, 40), 20);
}

#[test]
fn single_address_asks_for_one_item() {
    let url = "https://www.youtube.com/watch?v=abc";
    assert_eq!(
        search_args(url, 1, 1),
        strings(&["--dump-json", "--no-check-formats", "--ignore-errors", "--no-warnings", url])
    );
    assert_eq!(expected_results(url, 1, 1), 1);
    assert!(is_url(url));
    assert!(!is_url("ftp://x"));
    assert!(!is_direct_playlist(url));
}

#[test]
fn playlist_address_lists_its_entries() {
    let url = "https://www.youtube.com/playlist?list=PL123";
    assert!(is_direct_playlist(url));
    assert!(is_direct_playlist("https://www.youtube.com/watch?v=x&feature=RDxyz"));
    let args = search_args(url, 1, 50);
    assert_eq!(args[2], "--lazy-playlist");
    assert_eq!(args[7], "1");
    assert_eq!(args[9], "50");
    assert_eq!(args[10], url);
}

#[test]
fn search_line_becomes_a_partial_video() {
    let line = r#"{"_type":"url","id":"abc123","title":"Lofi beats","uploader":"Chill","url":"https://www.youtube.com/watch?v=abc123","duration":125.7,"view_count":1000,"upload_date":"20230415","thumbnails":[{"url":"https://i.ytimg.com/a.jpg"},{"url":"https://i.ytimg.com/b.jpg"}]}"#;
    let v = parse_search_line(line, false, false, false).expect("a video");
    assert_eq!(v.id, "abc123");
    assert_eq!(v.title, "Lofi beats");
    assert_eq!(v.channel, "Chill");
    assert_eq!(v.url, "https://www.youtube.com/watch?v=abc123");
    assert_eq!(v.duration_string, "02:05");
    assert_eq!(v.thumbnail_url.as_deref(), Some("https://i.ytimg.com/b.jpg"));
    assert_eq!(v.view_count, Some(1000));
    assert_eq!(v.upload_date.as_deref(), Some("20230415"));
    assert!(v.is_partial);
    assert_eq!(v.video_type, VideoType::Video);
    assert_eq!(v.parent_playlist_id, None);
}

#[test]
fn unusable_lines_are_skipped() {
    assert!(parse_search_line("", false, true, true).is_none());
    assert!(parse_search_line("   ", false, true, true).is_none());
    assert!(parse_search_line("not json", false, true, true).is_none());
    let private = r#"{"id":"x","title":"[Private video]","url":"https://y"}"#;
    assert!(parse_search_line(private, false, true, true).is_none());
    let no_url = r#"{"id":"x","title":"t"}"#;
    assert!(parse_search_line(no_url, false, true, true).is_none());
    let upcoming = r#"{"id":"x","title":"t","url":"https://y","live_status":"is_upcoming"}"#;
    assert!(parse_search_line(upcoming, true, true, true).is_none());
}

#[test]
fn filters_apply_to_searches_only() {
    let live = r#"{"id":"x","title":"t","url":"https://y","live_status":"is_live"}"#;
    assert!(parse_search_line(live, false, false, true).is_none());
    assert!(parse_search_line(live, false, true, true).is_some());
    assert!(parse_search_line(live, true, false, false).is_some());
    let playlist = r#"{"_type":"playlist","id":"p","title":"Mix","playlist_id":"PLabc","playlist_count":12,"url":"https://z"}"#;
    assert!(parse_search_line(playlist, false, true, false).is_none());
    let p = parse_search_line(playlist, false, true, true).expect("a playlist");
    assert_eq!(p.video_type, VideoType::Playlist);
    assert_eq!(p.duration_string, "12 videos");
    assert_eq!(p.url, "https://www.youtube.com/playlist?list=PLabc");
}

#[test]
fn playlist_entries_know_their_playlist() {
    let line = r#"{"id":"v1","title":"Song","url":"https://www.youtube.com/watch?v=v1","playlist_id":"PLxyz","playlist_title":"Best"}"#;
    let v = parse_search_line(line, true, false, false).expect("a video");
    assert_eq!(v.parent_playlist_id.as_deref(), Some("PLxyz"));
    assert_eq!(v.parent_playlist_url.as_deref(), Some("https://www.youtube.com/playlist?list=PLxyz"));
    assert_eq!(v.parent_playlist_title.as_deref(), Some("Best"));
    assert_eq!(v.thumbnail_url.as_deref(), Some("https://www.youtube.com/watch?v=v1"));
}

#[test]
fn thumbnail_falls_back_to_the_id() {
    let line = r#"{"id":"q9","title":"t","webpage_url":"https://w"}"#;
    let v = parse_search_line(line, false, true, true).expect("a video");
    assert_eq!(v.url, "https://w");
    assert_eq!(v.thumbnail_url.as_deref(), Some("https://i.ytimg.com/vi/q9/hqdefault.jpg"));
    assert_eq!(v.channel, "Unknown");
    assert_eq!(v.duration_string, "00:00");
}

#[test]
fn progress_lines() {
    let p = parse_progress("[download]  45.2% of ~10.50MiB at  1.20MiB/s ETA 00:07").expect("progress");
    assert_eq!(p.percent, "45.2");
    assert_eq!(p.total_size, "10.50MiB");
    assert_eq!(p.speed, "1.20MiB/s");
    assert_eq!(p.eta, "00:07");
    let q = parse_progress("[download] 100% of 3.00MiB").expect("progress");
    assert_eq!(q.percent, "100");
    assert_eq!(q.speed, "");
    assert_eq!(q.eta, "");
    assert!(parse_progress("[download] Destination: x").is_none());
    assert!(parse_progress("[info] 12% of 3MiB").is_none());
}

#[test]
fn download_arguments() {
    assert_eq!(
        download_args("https://u", "best", "/d"),
        strings(&[
            "-f",
            "bestvideo+bestaudio/best",
            "-P",
            "/d",
            "-o",
            "%(title).150s - %(id)s.%(ext)s",
            "--newline",
            "--progress",
            "--write-info-json",
            "https://u",
        ])
    );
    assert_eq!(download_args("https://u", "137", "/d")[1], "137+bestaudio/best");
}

#[test]
fn update_check_output() {
    let behind = "Current version: 2024.01.01 from yt-dlp/yt-dlp\nLatest version: 2024.03.10 from yt-dlp/yt-dlp\n";
    assert!(matches!(update_status(behind), UpdateStatus::Behind(ref l) if l == "2024.03.10"));
    let same = "Current version: 2024.03.10 x\nLatest version: 2024.03.10 x\n";
    assert!(matches!(update_status(same), UpdateStatus::UpToDate));
    assert!(matches!(update_status("yt-dlp is up to date (2024.03.10)"), UpdateStatus::UpToDate));
    assert!(matches!(update_status("ERROR: permission denied"), UpdateStatus::Unknown));
}

#[test]
fn progress_needs_a_number() {
    assert!(parse_progress("[download] Resuming download at byte 1024").is_none());
    assert!(parse_progress("[download] 1e% of 3MiB").is_none());
    assert_eq!(parse_progress("[download] .5% of 3MiB").expect("progress").percent, ".5");
    assert_eq!(parse_progress("[download] -Inf% of 3MiB").expect("progress").percent, "-Inf");
    for word in [
        "1", "1.", ".5", ".", "", "+2.5e-3", "2E5", "2e", "e5", "inf", "INFINITY", "NaN", "nana", "1.2.3", "--1",
        "+", "1e+", "12a", "١",
    ] {
        let line = format!("[download] {}% of 3MiB", word);
        assert_eq!(parse_progress(&line).is_some(), word.parse::<f64>().is_ok(), "{}", word);
    }
}
