use rataplay::config::{Config, CookieMode, Settings};
use rataplay::deps::{check_dependencies, VersionProbe};
use rataplay::editor::LineBuffer;
use rataplay::formats::{formats_from_json, sort_formats};
use rataplay::local::{found_status, found_task, local_files_from_entries, part_paths_of, FileEntry};
use rataplay::model::{DownloadStatus, VideoFormat};
use rataplay::paths::{expand_tilde, join_path, resolve_path};
use rataplay::widgets::AnimationMode;

fn fmt(id: &str, resolution: &str, note: &str, size: Option<u64>) -> VideoFormat {
    VideoFormat {
        format_id: id.to_string(),
        ext: "mp4".to_string(),
        resolution: resolution.to_string(),
        note: note.to_string(),
        filesize: size,
        has_audio: true,
    }
}

#[test]
fn formats_are_read_in_order() {
    let doc = r#"{"duration": 10.0, "formats": [
        {"format_id": "sb0", "ext": "mhtml", "format_note": "storyboard"},
        {"format_id": "140", "ext": "m4a", "vcodec": "none", "acodec": "mp4a", "filesize": 5000, "format_note": "medium"},
        {"format_id": "137", "ext": "mp4", "vcodec": "avc1", "acodec": "none", "resolution": "1920x1080", "filesize_approx": 90000},
        {"format_id": "18", "ext": "mp4", "vcodec": "avc1", "acodec": "mp4a", "format_note": "360p", "filesize": 1234.7}
    ]}"#;
    let v = formats_from_json(doc, &[None, None, None, None]).unwrap();
    let ids: Vec<&str> = v.iter().map(|f| f.format_id.as_str()).collect();
    assert_eq!(ids, vec!["140", "137", "18"]);
    assert_eq!(v[0].resolution, "audio only");
    assert_eq!(v[0].filesize, Some(5000));
    assert!(v[0].has_audio);
    assert_eq!(v[1].resolution, "1920x1080");
    assert_eq!(v[1].filesize, Some(90000));
    assert!(!v[1].has_audio);
    assert_eq!(v[2].resolution, "360p");
    assert_eq!(v[2].filesize, Some(1234));
    let with_estimate = formats_from_json(r#"{"formats": [{"format_id": "1", "ext": "webm"}]}"#, &[Some(777)]).unwrap();
    assert_eq!(with_estimate[0].filesize, Some(777));
    assert_eq!(with_estimate[0].resolution, "unknown");
    assert!(formats_from_json("not json", &[]).is_err());
    assert_eq!(formats_from_json("{", &[]).err().unwrap(), "Failed to parse yt-dlp JSON");
}

#[test]
fn picker_order_pictures_first_tallest_first() {
    let v = vec![
        fmt("a1", "audio only", "", Some(10)),
        fmt("v1", "640x360", "", None),
        fmt("a2", "audio only", "", Some(30)),
        fmt("v2", "1920x1080", "", None),
        fmt("a3", "x", "audio only", None),
        fmt("v3", "640x360", "", Some(1)),
    ];
    let sorted = sort_formats(v);
    let ids: Vec<&str> = sorted.iter().map(|f| f.format_id.as_str()).collect();
    assert_eq!(ids, vec!["v2", "v1", "v3", "a2", "a1", "a3"]);
}

#[test]
fn local_files_newest_first_without_leftovers() {
    let e = |name: &str, ext: &str, size: u64, modified: u64| FileEntry {
        name: name.to_string(),
        path: format!("/d/{}", name),
        extension: ext.to_string(),
        size_bytes: size,
        modified,
    };
    let files = local_files_from_entries(vec![
        e("old.mp4", "mp4", 1048576, 10),
        e("x.mp4.part", "part", 5, 99),
        e("new.mkv", "mkv", 1572864, 30),
        e("mid.mp3", "mp3", 0, 20),
        e("same.mp4", "mp4", 0, 20),
        e("v.info.json", "json", 1, 50),
    ]);
    let names: Vec<&str> = files.iter().map(|f| f.name.as_str()).collect();
    assert_eq!(names, vec!["new.mkv", "mid.mp3", "same.mp4", "old.mp4"]);
    assert_eq!(files[0].size, "1.5 MB");
    assert!(files[1].is_audio());
    assert!(!files[0].is_garbage);
}

#[test]
fn metadata_files_name_their_downloads() {
    let t = found_task("/d/a.info.json", r#"{"id": "abc", "title": "T", "webpage_url": "https://w", "format_id": "22"}"#).unwrap();
    assert_eq!(t.video.id, "abc");
    assert_eq!(t.video.url, "https://w");
    assert_eq!(t.format_id, "22");
    assert_eq!(t.info_json_path, "/d/a.info.json");
    let d = found_task("/d/b.info.json", r#"{"id": "b", "url": "https://u"}"#).unwrap();
    assert_eq!(d.format_id, "best");
    assert_eq!(d.video.url, "https://u");
    assert!(found_task("/d/c.info.json", r#"{"id": "c"}"#).is_none());
    assert!(found_task("/d/c.info.json", "garbage").is_none());
    let parts = part_paths_of("/d/a.info.json", None);
    assert_eq!(parts[0], "/d/a.mp4.part");
    assert_eq!(parts[1], "/d/a.part");
    assert_eq!(part_paths_of("/d/a.info.json", Some("/d/a.webm")), vec!["/d/a.webm.part".to_string()]);
    assert!(matches!(found_status(&[false, true]), DownloadStatus::Canceled));
    assert!(matches!(found_status(&[false, false]), DownloadStatus::Finished));
}

#[test]
fn backspace_undoes_typing() {
    let mut b = LineBuffer::from_text("hello world");
    b.home();
    for _ in 0..5 {
        b.move_right();
    }
    b.insert_char('!');
    assert_eq!(b.text(), "hello! world");
    assert_eq!(b.cursor(), 6);
    b.backspace();
    assert_eq!(b.text(), "hello world");
    assert_eq!(b.cursor(), 5);
    b.end();
    b.delete_word_backwards();
    assert_eq!(b.text(), "hello ");
    b.move_word_left();
    assert_eq!(b.cursor(), 0);
    b.kill_to_end();
    assert!(b.is_empty());
}

#[test]
fn animations_cycle() {
    let start = AnimationMode::Wave;
    let mut m = start;
    let mut names = Vec::new();
    for _ in 0..5 {
        m = m.next();
        names.push(m.name());
    }
    assert_eq!(m, start);
    assert_eq!(AnimationMode::all().len(), 5);
    assert_eq!(names.len(), 5);
}

#[test]
fn settings_read_back_from_the_saved_configuration() {
    let mut c = Config::with_download_directory("~/Videos".to_string());
    c.executables.enabled = true;
    c.executables.mpv = Some("/opt/mpv".to_string());
    let s = Settings::from_config(c);
    assert!(s.use_custom_paths);
    assert_eq!(s.mpv_path, "/opt/mpv");
    assert_eq!(s.ytdlp_path, "yt-dlp");
    assert_eq!(s.mpv_cmd(), "/opt/mpv");
    assert!(matches!(s.cookie_mode, CookieMode::Off));
}

#[test]
fn dependency_check() {
    let s = Settings::default();
    let ok = check_dependencies(
        &s,
        VersionProbe::Ran { success: true, status: "exit status: 0".to_string(), stdout: Ok(" 2024.03.10\n".to_string()) },
        VersionProbe::NotRun,
    )
    .unwrap();
    assert_eq!(ok.yt_dlp_version, "2024.03.10");
    assert!(!ok.mpv_installed);
    let missing = check_dependencies(&s, VersionProbe::NotRun, VersionProbe::NotRun);
    assert_eq!(
        missing.err().unwrap(),
        "Failed to execute yt-dlp at 'yt-dlp'. Is it installed and in your PATH?"
    );
    let failing = check_dependencies(
        &s,
        VersionProbe::Ran { success: false, status: "exit status: 2".to_string(), stdout: Ok(String::new()) },
        VersionProbe::Ran { success: true, status: "exit status: 0".to_string(), stdout: Ok(String::new()) },
    );
    assert_eq!(failing.err().unwrap(), "yt-dlp command failed with status: exit status: 2");
}

#[test]
fn paths() {
    assert_eq!(join_path("/home/u", "Videos"), "/home/u/Videos");
    assert_eq!(join_path("/home/u/", "Videos"), "/home/u/Videos");
    assert_eq!(join_path("/home/u", "/abs"), "/abs");
    assert_eq!(resolve_path("~/Videos", "/home/u"), "/home/u/Videos");
    assert_eq!(resolve_path("/srv/v", "/home/u"), "/srv/v");
    assert_eq!(expand_tilde("~/x.log", Some("/home/u")), "/home/u/x.log");
    assert_eq!(expand_tilde("~", Some("/home/u")), "/home/u");
    assert_eq!(expand_tilde("a/~", Some("/home/u")), "a/~");
}

#[test]
fn saving_keeps_the_comments_of_the_file() {
    let mut c = Config::with_download_directory("/v".to_string());
    c.search_limit = 33;
    let content = "# My config\ntheme = \"Dracula\"\nsearch_limit = 5\n\n[logging]\n# keep\nenabled = true\nfoo = 1\n";
    let out = c.update_content_preservative(content);
    assert_eq!(
        out,
        "# My config\ntheme = \"Default\"\nsearch_limit = 33\n\n[logging]\n# keep\nenabled = false\nfoo = 1"
    );
    let fresh = c.new_file_content(rataplay::config_file::TargetOs::Linux);
    assert!(fresh.starts_with("# Rataplay Configuration\n\n"));
    assert!(fresh.contains("search_limit = 33\n"));
}
