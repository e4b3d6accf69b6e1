//! Text helpers, platform decisions, system identity, activity tracking
//! and clipboard decisions.

use netwatch_agent::activity::{categorize_app, commit_current_activity, observe_window, CurrentActivity};
use netwatch_agent::clipboard::{check_clipboard, detect_content_type};
use netwatch_agent::platform::{get_active_window, get_idle_time, is_system_idle};
use netwatch_agent::system_info::{remove_colons, SystemInfo};
use netwatch_agent::keystroke::{process_key_event, take_current_stroke};
use netwatch_agent::text::{
    contains, ends_with, i64_to_string, parse_bool, parse_u64, starts_with, str_eq,
    truncate_url, u64_to_string,
};

#[test]
fn string_equality_goes_by_contents() {
    assert!(str_eq("agent", "agent"));
    assert!(!str_eq("agent", "agen"));
    assert!(!str_eq("agent", "Agent"));
    assert!(str_eq("", ""));
}

#[test]
fn substring_checks() {
    assert!(starts_with("https://example.test", "https://"));
    assert!(!starts_with("http", "https://"));
    assert!(ends_with("report.json", ".json"));
    assert!(!ends_with("report.json", ".yaml"));
    assert!(contains("visual studio code", "studio"));
    assert!(!contains("studio", "visual studio"));
    assert!(contains("anything", ""));
}

#[test]
fn decimal_formatting() {
    assert_eq!(u64_to_string(0), "0");
    assert_eq!(u64_to_string(42), "42");
    assert_eq!(u64_to_string(18446744073709551615), "18446744073709551615");
    assert_eq!(i64_to_string(-5), "-5");
    assert_eq!(i64_to_string(7), "7");
    assert_eq!(i64_to_string(i64::MIN), "-9223372036854775808");
}

#[test]
fn decimal_parsing_matches_the_standard_library() {
    for input in ["0", "42", "+7", "18446744073709551615", "18446744073709551616", "", "+", "1 2", "-3", "12a"] {
        assert_eq!(parse_u64(input), input.parse::<u64>().ok(), "on {:?}", input);
    }
    for input in ["true", "false", "True", "1", ""] {
        assert_eq!(parse_bool(input), input.parse::<bool>().ok(), "on {:?}", input);
    }
}

#[test]
fn urls_are_truncated_for_display() {
    assert_eq!(truncate_url("https://example.test"), "https://example.test");
    let long = "https://example.test/a/very/long/path/that/keeps/going";
    assert_eq!(truncate_url(long), format!("{}...", &long[..37]));
    assert_eq!(truncate_url(long).chars().count(), 40);
}

#[test]
fn active_window_fallbacks() {
    let w = get_active_window(
        true,
        Some(String::from("Inbox")),
        Some(1234),
        Some(String::from("thunderbird")),
    )
    .expect("a found window yields a record");
    assert_eq!(w.title, "Inbox");
    assert_eq!(w.app_name, "thunderbird");
    assert_eq!(w.process_id, Some(1234));

    let w = get_active_window(true, None, None, None).expect("a found window yields a record");
    assert_eq!(w.title, "");
    assert_eq!(w.app_name, "Unknown");
    assert_eq!(w.process_id, None);

    assert!(get_active_window(false, None, None, None).is_none());
}

#[test]
fn idle_time_prefers_the_millisecond_counter() {
    assert_eq!(get_idle_time(Some(5500), &vec![]), 5);
    assert_eq!(get_idle_time(None, &vec![7, 3, 9]), 3);
    assert_eq!(get_idle_time(None, &vec![]), 0);
    assert!(is_system_idle(300, 300));
    assert!(!is_system_idle(299, 300));
}

#[test]
fn identity_fallbacks() {
    let info = SystemInfo::gather(
        None,
        None,
        String::from("LINUX"),
        None,
        None,
        None,
    );
    assert_eq!(info.hostname, "unknown");
    assert_eq!(info.os_type, "LINUX");
    assert_eq!(info.os_version, "Unknown");
    assert_eq!(info.mac_address, "00:00:00:00:00:00");
    assert_eq!(info.ip_address, "127.0.0.1");
    assert_eq!(info.machine_id, "unknown-000000000000");

    let info = SystemInfo::gather(
        Some(String::from("machine-1")),
        Some(String::from("workstation")),
        String::from("DARWIN"),
        Some(String::from("14.2")),
        Some(String::from("aa:bb:cc:dd:ee:ff")),
        Some(String::from("192.168.1.20")),
    );
    assert_eq!(info.machine_id, "machine-1");
    assert_eq!(info.hostname, "workstation");
}

#[test]
fn colons_are_stripped_for_the_fallback_id() {
    assert_eq!(remove_colons("aa:bb:cc"), "aabbcc");
    assert_eq!(remove_colons("::"), "");
    assert_eq!(remove_colons("plain"), "plain");
}

#[test]
fn applications_are_categorized_by_keyword() {
    assert_eq!(categorize_app("Google Chrome").as_deref(), Some("BROWSER"));
    assert_eq!(categorize_app("FIREFOX").as_deref(), Some("BROWSER"));
    assert_eq!(categorize_app("Slack").as_deref(), Some("COMMUNICATION"));
    assert_eq!(categorize_app("IntelliJ IDEA").as_deref(), Some("DEVELOPMENT"));
    assert_eq!(categorize_app("Spotify").as_deref(), Some("ENTERTAINMENT"));
    assert_eq!(categorize_app("solitaire").as_deref(), Some("OTHER"));
}

#[test]
fn activity_changes_commit_the_finished_one() {
    // First observation: nothing to commit, tracking starts.
    let (committed, current) = observe_window(None, String::from("chrome"), String::from("news"), 1_000);
    assert!(committed.is_none());
    assert_eq!(current.application_name, "chrome");
    assert_eq!(current.start_time, 1_000);
    assert_eq!(current.category.as_deref(), Some("BROWSER"));

    // The same activity continues without committing.
    let (committed, current) = observe_window(Some(current), String::from("chrome"), String::from("news"), 2_000);
    assert!(committed.is_none());
    assert_eq!(current.start_time, 1_000);

    // A different window commits the finished activity.
    let (committed, current) = observe_window(Some(current), String::from("slack"), String::from("inbox"), 5_000);
    let entry = committed.expect("an activity of four seconds is committed");
    assert_eq!(entry.application_name, "chrome");
    assert_eq!(entry.window_title, "news");
    assert_eq!(entry.start_time, 1_000);
    assert_eq!(entry.end_time, 5_000);
    assert_eq!(entry.duration, 4_000);
    assert_eq!(entry.category.as_deref(), Some("BROWSER"));
    assert_eq!(current.application_name, "slack");
}

#[test]
fn short_activities_are_not_committed() {
    let (_, current) = observe_window(None, String::from("cmd"), String::from(""), 1_000);
    let (committed, _) = observe_window(Some(current), String::from("chrome"), String::from("news"), 1_900);
    assert!(committed.is_none());

    let cur = CurrentActivity {
        application_name: String::from("chrome"),
        window_title: String::from("news"),
        start_time: 1_000,
        category: None,
    };
    assert!(commit_current_activity(Some(cur), 2_000).is_none());
    assert!(commit_current_activity(None, 2_000).is_none());
}

#[test]
fn clipboard_content_types() {
    assert_eq!(detect_content_type("https://example.test/x"), "url");
    assert_eq!(detect_content_type("ftp://host/file"), "url");
    assert_eq!(detect_content_type("user@example.test"), "email");
    assert_eq!(detect_content_type("/etc/hosts"), "path");
    assert_eq!(detect_content_type("C:\\Windows\\System32"), "path");
    assert_eq!(detect_content_type("{\"a\": 1}"), "json");
    assert_eq!(detect_content_type("[1, 2, 3]"), "json");
    // JSON-shaped but malformed text falls through.
    assert_eq!(detect_content_type("{not json}"), "text");
    assert_eq!(detect_content_type("fn main() {}"), "code");
    assert_eq!(detect_content_type("let x = 1;"), "code");
    assert_eq!(detect_content_type("groceries list"), "text");
}

#[test]
fn clipboard_reports_only_changes() {
    assert!(check_clipboard("old", None).is_none());
    assert!(check_clipboard("same", Some(String::from("same"))).is_none());
    assert!(check_clipboard("old", Some(String::new())).is_none());
    let (content, kind) = check_clipboard("old", Some(String::from("https://example.test")))
        .expect("a new non-empty text is reported");
    assert_eq!(content, "https://example.test");
    assert_eq!(kind, "url");
}

#[test]
fn keystrokes_group_by_window_up_to_the_buffer_size() {
    // The first key starts a stroke.
    let (done, current) = process_key_event(
        None,
        String::from("h"),
        String::from("editor"),
        String::from("notes"),
        1_000,
        100,
    );
    assert!(done.is_none());
    let current = current.expect("a key starts a stroke");
    assert_eq!(current.keys, "h");
    assert_eq!(current.timestamp, 1_000);

    // A key in the same window extends it.
    let (done, current) = process_key_event(
        Some(current),
        String::from("i"),
        String::from("editor"),
        String::from("notes"),
        1_050,
        100,
    );
    assert!(done.is_none());
    let current = current.expect("the stroke goes on");
    assert_eq!(current.keys, "hi");
    assert_eq!(current.timestamp, 1_000);

    // An empty textual form (a modifier) changes nothing.
    let (done, current) = process_key_event(
        Some(current),
        String::new(),
        String::from("editor"),
        String::from("notes"),
        1_060,
        100,
    );
    assert!(done.is_none());

    // A key in another window hands the stroke out and starts a new one.
    let (done, current) = process_key_event(
        current,
        String::from("x"),
        String::from("browser"),
        String::from("news"),
        2_000,
        100,
    );
    let finished = done.expect("the window changed");
    assert_eq!(finished.keys, "hi");
    assert_eq!(finished.application_name, "editor");
    let current = current.expect("a new stroke began");
    assert_eq!(current.keys, "x");
    assert_eq!(current.timestamp, 2_000);

    // A full stroke is handed out even in the same window.
    let (done, current) = process_key_event(
        Some(current),
        String::from("y"),
        String::from("browser"),
        String::from("news"),
        2_100,
        1,
    );
    assert_eq!(done.expect("the stroke reached the size limit").keys, "x");
    assert_eq!(current.as_ref().map(|c| c.keys.as_str()), Some("y"));

    // The final drain takes a non-empty stroke and drops an empty one.
    assert_eq!(take_current_stroke(current).map(|c| c.keys), Some(String::from("y")));
    assert!(take_current_stroke(None).is_none());
}

#[test]
fn identification_payload_carries_the_identity() {
    let info = SystemInfo::gather(
        Some(String::from("machine-1")),
        Some(String::from("workstation")),
        String::from("LINUX"),
        Some(String::from("6.5")),
        Some(String::from("aa:bb:cc:dd:ee:ff")),
        Some(String::from("192.168.1.20")),
    );
    let fields = info.identification_fields();
    let expected = vec![
        ("machineId", "machine-1"),
        ("hostname", "workstation"),
        ("osType", "LINUX"),
        ("osVersion", "6.5"),
        ("macAddress", "aa:bb:cc:dd:ee:ff"),
        ("ipAddress", "192.168.1.20"),
    ];
    assert_eq!(fields.len(), expected.len());
    for ((key, value), (ek, ev)) in fields.iter().zip(expected.iter()) {
        assert_eq!(key, ek);
        assert_eq!(value, ev);
    }
}
