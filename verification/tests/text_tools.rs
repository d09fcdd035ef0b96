use rataplay::dates::format_upload_date;
use rataplay::config::Config;
use rataplay::config_file::TargetOs;
use rataplay::local::format_size;
use rataplay::paths::get_ipc_path;
use rataplay::player::{command_line, quiet_seek_command, seek_command, set_pause_command, toggle_pause_command};
use rataplay::text::{parse_u32, u64_to_string};
use rataplay::thumbs::image_urls;
use rataplay::widgets::{format_duration, get_width, truncate_str};
use rataplay::yt::{split_terminal_target, terminal_target};

fn float_size(bytes: u64) -> String {
    let mb = bytes as f64 / 1024.0 / 1024.0;
    if mb >= 1024.0 {
        format!("{:.1} GB", mb / 1024.0)
    } else {
        format!("{:.1} MB", mb)
    }
}

#[test]
fn format_size_examples() {
    assert_eq!(format_size(0), "0.0 MB");
    assert_eq!(format_size(1048576), "1.0 MB");
    assert_eq!(format_size(1572864), "1.5 MB");
    assert_eq!(format_size(1073741824), "1.0 GB");
    assert_eq!(format_size(5 * 1073741824 / 2), "2.5 GB");
}

#[test]
fn format_size_agrees_with_float_formatting() {
    let mut samples: Vec<u64> = vec![
        1, 1023, 1024, 52428, 52429, 104857, 157286, 157287, 262144, 786432, 943718, 995000, 1000000,
        1101004, 1101005, 1048575, 1048577, 10485759, 1073741823, 1073741825, 1127428915, 1127428916,
        u64::MAX, u64::MAX / 3, 1 << 53, (1 << 53) + 1, 123456789012345,
    ];
    let mut x: u64 = 12345;
    for _ in 0..3000 {
        x = x.wrapping_mul(6364136223846793005).wrapping_add(1442695040888963407);
        samples.push(x >> (x % 50));
    }
    for k in 0..2000u64 {
        samples.push(k * 52428 + (k % 3));
        samples.push((k * 1048576) / 20);
        samples.push(k * 1073741824 / 20 + 1);
    }
    for b in samples {
        assert_eq!(format_size(b), float_size(b), "bytes = {}", b);
    }
}

#[test]
fn format_duration_examples() {
    assert_eq!(format_duration(0), "00:00");
    assert_eq!(format_duration(59), "00:59");
    assert_eq!(format_duration(61), "01:01");
    assert_eq!(format_duration(3600), "1:00:00");
    assert_eq!(format_duration(3725), "1:02:05");
    assert_eq!(format_duration(36000 * 3 + 5), "30:00:05");
}

#[test]
fn width_counts_wide_symbols_twice() {
    assert_eq!(get_width("abc"), 3);
    assert_eq!(get_width("a\u{1F600}b"), 4);
    assert_eq!(get_width("\u{2600}"), 2);
    assert_eq!(get_width(""), 0);
}

#[test]
fn widths_add_up() {
    let a = "a";
    let b = "\u{1F600}\u{2600}";
    let ab = format!("{}{}", a, b);
    assert_eq!(get_width(&ab), get_width(a) + get_width(b));
    assert_eq!(get_width(&ab), 5);
    let n = ab.chars().count();
    assert!(n <= get_width(&ab) && get_width(&ab) <= 2 * n);
}

#[test]
fn truncate_keeps_short_text_and_marks_cuts() {
    assert_eq!(truncate_str("hello", 10), "hello");
    assert_eq!(truncate_str("hello", 5), "hello");
    assert_eq!(truncate_str("hello world", 8), "hello...");
    assert_eq!(truncate_str("abc", 2), "...");
    assert_eq!(truncate_str("\u{1F600}\u{1F600}\u{1F600}", 5), "\u{1F600}...");
}

#[test]
fn upload_dates() {
    assert_eq!(format_upload_date(Some("20230415")), "Apr 15, 2023");
    assert_eq!(format_upload_date(Some("20231201")), "Dec 01, 2023");
    assert_eq!(format_upload_date(Some("20231301")), "2023-13-01");
    assert_eq!(format_upload_date(Some("2023+512")), "May 12, 2023");
    assert_eq!(format_upload_date(Some("2023ab12")), "2023-ab-12");
    assert_eq!(format_upload_date(Some("2023")), "2023");
    assert_eq!(format_upload_date(Some("2023é12")), "2023-é-12");
    assert_eq!(format_upload_date(None), "Unknown");
}

#[test]
fn numbers_read_back() {
    for n in [0u32, 7, 10, 99, 100, 4096, 65535, 4294967295] {
        assert_eq!(parse_u32(&u64_to_string(n as u64)), Some(n));
    }
    assert_eq!(parse_u32("+12"), Some(12));
    assert_eq!(parse_u32(""), None);
    assert_eq!(parse_u32("+"), None);
    assert_eq!(parse_u32("-1"), None);
    assert_eq!(parse_u32("4294967296"), None);
    assert_eq!(parse_u32(" 1"), None);
}

#[test]
fn terminal_target_round_trip() {
    let t = terminal_target("https://cdn.example/v.mp4", "Mozilla/5.0 (X11)");
    assert_eq!(t, "https://cdn.example/v.mp4|Mozilla/5.0 (X11)");
    let (url, ua) = split_terminal_target(&t);
    assert_eq!(url, "https://cdn.example/v.mp4");
    assert_eq!(ua.as_deref(), Some("Mozilla/5.0 (X11)"));
    let (local, none) = split_terminal_target("/home/me/video|x.mkv");
    assert_eq!(local, "/home/me/video|x.mkv");
    assert_eq!(none, None);
    let (plain, none2) = split_terminal_target("https://a.b/c");
    assert_eq!(plain, "https://a.b/c");
    assert_eq!(none2, None);
}

#[test]
fn saved_texts_are_quoted_as_json() {
    for s in ["plain", "quote \" and \\ slash", "tab\tline\nend", "\u{1}\u{1f}", "ünï ☃", ""] {
        let c = Config::with_download_directory(s.to_string());
        let text = c.new_file_content(TargetOs::Linux);
        let line = format!("download_directory = {}\n", serde_json::to_string(s).unwrap());
        assert!(text.contains(&line), "{:?} not in {:?}", line, text);
        assert!(text.contains("theme = \"Default\"\n"));
    }
}

#[test]
fn player_commands() {
    assert_eq!(toggle_pause_command(), "{\"command\": [\"cycle\", \"pause\"]}\n");
    assert_eq!(set_pause_command(true), "{\"command\": [\"set_property\", \"pause\", true]}\n");
    assert_eq!(set_pause_command(false), "{\"command\": [\"set_property\", \"pause\", false]}\n");
    assert_eq!(seek_command(-5), "{\"command\": [\"osd-msg-bar\", \"seek\", -5, \"relative\"]}\n");
    assert_eq!(seek_command(30), "{\"command\": [\"osd-msg-bar\", \"seek\", 30, \"relative\"]}\n");
    assert_eq!(quiet_seek_command(-10), "{\"command\": [\"seek\", -10, \"relative\"]}\n");
    assert_eq!(command_line("abc"), "abc\n");
    assert_eq!(command_line("abc\n"), "abc\n");
    assert_eq!(command_line(""), "\n");
    assert_eq!(get_ipc_path(false, 42), "/tmp/rataplay-mpv-42.sock");
    assert_eq!(get_ipc_path(true, 7), "\\\\\\\\.\\\\pipe\\\\rataplay-mpv-7");
}

#[test]
fn thumbnail_addresses_in_order() {
    assert_eq!(
        image_urls("https://x/y.jpg", "abc"),
        vec![
            "https://x/y.jpg".to_string(),
            "https://i.ytimg.com/vi/abc/maxresdefault.jpg".to_string(),
            "https://i.ytimg.com/vi/abc/hqdefault.jpg".to_string(),
            "https://i.ytimg.com/vi/abc/mqdefault.jpg".to_string(),
        ]
    );
    assert_eq!(image_urls("", "q").len(), 3);
    assert_eq!(image_urls("https://z", ""), vec!["https://z".to_string()]);
    assert!(image_urls("", "").is_empty());
}
